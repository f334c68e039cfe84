//! Which tensor programs are accepted, and what holds of every accepted one.

use crate::context::tensor_failure::TensorCallbackFailureView;
use crate::context::tensor_selector::{TensorAccess, TensorSelectorView};
use crate::context::tensor_transaction::TensorTransactionHandler;
use crate::context::transaction_model::{
    program_rejection,
    retained,
    total_elements,
    CapturedTensorDataView,
    TensorTransactionsView,
    TransactionalTensorCaptureView,
};
use crate::message::bounded_message;
use crate::names::name_precedes;
use vstd::prelude::*;

verus! {

/// A mutable selector anywhere among the selectors needs a handler: without one the program is
/// refused.
pub proof fn law_mutable_selectors_need_a_handler(selectors: Seq<TensorSelectorView>, i: int)
    requires
        0 <= i < selectors.len(),
        selectors[i].access == TensorAccess::ReadWriteF32,
    ensures
        program_rejection(selectors, false) is Some,
{
}

/// Selectors are accepted as a program exactly where there are between one and 128 of them, their
/// names strictly ascend, all of them together bound no more elements than one tensor may have,
/// and a handler comes with them exactly where at least one of them is mutable.
pub proof fn law_programs_are_accepted_exactly_when_sound(
    selectors: Seq<TensorSelectorView>,
    has_handler: bool,
)
    ensures
        program_rejection(selectors, has_handler) is None <==> {
            &&& 1 <= selectors.len() <= 128
            &&& forall|i: int, j: int|
                0 <= i < j < selectors.len() ==> name_precedes(
                    #[trigger] selectors[i].name,
                    #[trigger] selectors[j].name,
                )
            &&& total_elements(selectors) <= 16_777_216
            &&& has_handler <==> exists|i: int|
                0 <= i < selectors.len() && (#[trigger] selectors[i]).access
                    == TensorAccess::ReadWriteF32
        },
{
}

/// A refusal names the first rule that the selectors break: their number, their order, their total
/// bound, and whether a handler fits them.
pub proof fn law_program_refusals_name_the_first_broken_rule(
    selectors: Seq<TensorSelectorView>,
    has_handler: bool,
)
    ensures
        ({
            let counted = 1 <= selectors.len() <= 128;
            let ordered = forall|i: int, j: int|
                0 <= i < j < selectors.len() ==> name_precedes(
                    #[trigger] selectors[i].name,
                    #[trigger] selectors[j].name,
                );
            let bounded = total_elements(selectors) <= 16_777_216;
            let mutable = exists|i: int|
                0 <= i < selectors.len() && (#[trigger] selectors[i]).access
                    == TensorAccess::ReadWriteF32;
            let refusal = program_rejection(selectors, has_handler);
            &&& !counted ==> refusal == Some("selector count is outside the supported bound"@)
            &&& counted && !ordered ==> refusal == Some(
                "selectors must have unique canonically ordered names"@,
            )
            &&& counted && ordered && !bounded ==> refusal == Some(
                "total selector element bound is excessive"@,
            )
            &&& counted && ordered && bounded && mutable && !has_handler ==> refusal == Some(
                "mutable selectors require a transaction handler"@,
            )
            &&& counted && ordered && bounded && !mutable && has_handler ==> refusal == Some(
                "a transaction handler requires at least one mutable selector"@,
            )
        }),
{
}

/// The total bound is a sum: nothing for no selector, and for each selector as many elements as
/// its rows times their width, wherever it stands.
pub proof fn law_element_bounds_add_up(
    before: Seq<TensorSelectorView>,
    selector: TensorSelectorView,
    after: Seq<TensorSelectorView>,
)
    ensures
        total_elements(Seq::empty()) == 0,
        total_elements(before + seq![selector] + after) == total_elements(before)
            + selector.row_elements * selector.maximum_rows + total_elements(after),
    decreases after.len(),
{
    let all = before + seq![selector] + after;
    if after.len() == 0 {
        assert(all.drop_last() =~= before);
    } else {
        law_element_bounds_add_up(before, selector, after.drop_last());
        assert(all.drop_last() =~= before + seq![selector] + after.drop_last());
    }
}

/// A program with a mutable selector has a handler, and a program with a handler has a mutable
/// selector.
pub proof fn law_handlers_come_with_mutable_selectors(state: TensorTransactionsView)
    requires
        state.well_formed(),
    ensures
        forall|i: int|
            0 <= i < state.selectors.len() && (#[trigger] state.selectors[i]).access
                == TensorAccess::ReadWriteF32 ==> state.handler is Some,
        state.handler is Some ==> exists|i: int|
            0 <= i < state.selectors.len() && (#[trigger] state.selectors[i]).access
                == TensorAccess::ReadWriteF32,
{
}

/// A new program has the selectors and the handler that it was given, and nothing else: no
/// captures, no running decode, no rows and no failure. It is sound where its selectors are.
pub proof fn law_new_programs_are_idle_and_empty(
    selectors: Seq<TensorSelectorView>,
    handler: Option<Box<dyn TensorTransactionHandler>>,
)
    ensures
        ({
            let program = TensorTransactionsView::initial(selectors, handler);
            &&& program.selectors == selectors
            &&& program.handler == handler
            &&& program.captures.len() == 0
            &&& program.retained_bytes == 0
            &&& program.pending_captures.len() == 0
            &&& program.pending_retained_bytes == 0
            &&& program.batch_rows.len() == 0
            &&& forall|name: Seq<char>| !#[trigger] program.rows_seen.contains_key(name)
            &&& program.failure is None
            &&& !program.decode_active
            &&& program_rejection(selectors, handler is Some) is None && (forall|i: int|
                0 <= i < selectors.len() ==> (#[trigger] selectors[i]).valid())
                ==> program.well_formed()
        }),
{
}

/// Every tensor that a program holds, committed or staged, is whole: a matrix of bounded
/// size with one logical row for each of its rows and one value for each of its elements, none of them infinite
/// or NaN. Some selector of its name retains it.
pub proof fn law_held_tensors_are_whole(
    state: TensorTransactionsView,
    capture: TransactionalTensorCaptureView,
)
    requires
        state.well_formed(),
        state.captures.contains(capture) || state.pending_captures.contains(capture),
    ensures
        capture.shape.row_elements > 0,
        1 <= capture.shape.rows <= 4_096,
        capture.shape.elements == capture.shape.row_elements * capture.shape.rows,
        capture.shape.elements <= 16_777_216,
        capture.rows.len() == capture.shape.rows,
        match capture.data {
            CapturedTensorDataView::F32(values) => {
                &&& values.len() == capture.shape.elements
                &&& forall|i: int|
                    0 <= i < values.len() ==> (#[trigger] values[i]).exponent() < 255
            },
            CapturedTensorDataView::I32(values) => values.len() == capture.shape.elements,
        },
        exists|i: int|
            0 <= i < state.selectors.len() && (#[trigger] state.selectors[i]).name == capture.name
                && state.selectors[i].retain,
{
    if state.captures.contains(capture) {
        let i = choose|i: int| 0 <= i < state.captures.len() && state.captures[i] == capture;
        assert(state.captures[i].complete());
    } else {
        let i = choose|i: int|
            0 <= i < state.pending_captures.len() && state.pending_captures[i] == capture;
        assert(state.pending_captures[i].complete());
    }
}

/// What a list of tensors holds is counted in bytes: nothing for none, and four bytes for each
/// element of each of them.
pub proof fn law_each_held_element_counts_four_bytes(
    captures: Seq<TransactionalTensorCaptureView>,
    capture: TransactionalTensorCaptureView,
)
    ensures
        retained(Seq::empty()) == 0,
        capture.data matches CapturedTensorDataView::F32(values) ==> retained(
            captures.push(capture),
        ) == retained(captures) + 4 * values.len(),
        capture.data matches CapturedTensorDataView::I32(values) ==> retained(
            captures.push(capture),
        ) == retained(captures) + 4 * values.len(),
{
    assert(captures.push(capture).drop_last() =~= captures);
}

/// The byte counts of a program are those of the tensors that it holds, and stay within 67108864
/// bytes. A running decode has between one and 4096 rows.
pub proof fn law_programs_count_what_they_hold(state: TensorTransactionsView)
    requires
        state.well_formed(),
    ensures
        state.retained_bytes == retained(state.captures),
        state.retained_bytes <= 67_108_864,
        state.failure is None ==> state.pending_retained_bytes == retained(state.pending_captures),
        state.failure is None ==> state.retained_bytes + state.pending_retained_bytes
            <= 67_108_864,
        state.decode_active ==> 1 <= state.batch_rows.len() <= 4_096,
{
}

/// The first failure is recorded with its tensor, whether it unwound, and its bounded message. A
/// later one is not. Nothing else changes.
pub proof fn law_the_first_failure_is_recorded(
    state: TensorTransactionsView,
    tensor: Option<Seq<char>>,
    panicked: bool,
    message: Seq<char>,
)
    ensures
        state.failure is None ==> state.failed(tensor, panicked, message)
            == (TensorTransactionsView {
            failure: Some(
                TensorCallbackFailureView { tensor, panicked, message: bounded_message(message) },
            ),
            ..state
        }),
        state.failure is Some ==> state.failed(tensor, panicked, message) == state,
{
}

/// Draining takes the committed tensors and their byte count, and nothing else.
pub proof fn law_draining_takes_only_the_captures(state: TensorTransactionsView)
    ensures
        state.drained() == (TensorTransactionsView {
            captures: Seq::empty(),
            retained_bytes: 0,
            ..state
        }),
{
}

} // verus!

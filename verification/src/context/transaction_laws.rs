//! What holds of tensor programs as a whole.

use crate::context::native::{NativeBatch, NativeTensor, TensorBatchRowView};
use crate::context::tensor_failure::TensorCallbackFailureView;
use crate::context::tensor_selector::{
    TensorAccess,
    TensorSelectorView,
    TensorWriteback,
    MAX_RETAINED_TENSOR_BYTES,
};
use crate::context::transaction_model::{
    covered_rows,
    first_uncovered,
    lemma_retained_concat,
    retained,
    selector_named,
    wants_retained,
    CapturedTensorDataView,
    HandlerOutcomeView,
    TensorEditView,
    TensorStepView,
    TensorTransactionsView,
    TensorWorkView,
    TransactionalTensorCaptureView,
};
use crate::float32::{all_finite, Float32};
use crate::names::{law_name_order_is_strict_and_total, name_precedes, until_nul};
use vstd::prelude::*;
use vstd::utf8::{decode_utf8, valid_utf8};

verus! {

/// Whether two states belong to the same program: the same selectors and the same handler in the
/// same state.
pub open spec fn same_program(a: TensorTransactionsView, b: TensorTransactionsView) -> bool {
    a.selectors == b.selectors && a.handler == b.handler
}

/// A native tensor is written back exactly where the handler commits finite values, and then
/// with the handler's complete output. An error, a panic, the decision to leave the tensor
/// unchanged and a non-finite value cause no write-back.
pub proof fn law_only_finite_commits_are_written(
    state: TensorTransactionsView,
    edit: TensorEditView,
    outcome: HandlerOutcomeView,
)
    ensures
        state.handled(edit, outcome).1 is Write <==> outcome == HandlerOutcomeView::Decided(
            TensorWriteback::Commit,
        ) && all_finite(edit.values),
        state.handled(edit, outcome).1 matches TensorStepView::Write(written) ==> written == edit,
{
}

/// A write-back ends the transaction: no step after it touches the native tensor again.
pub proof fn law_tensors_are_written_at_most_once(
    state: TensorTransactionsView,
    edit: TensorEditView,
)
    ensures
        state.written(edit).1 == TensorStepView::Return(true),
{
}

/// No step before the handler has decided writes a native tensor. A read-only tensor never
/// reaches the handler: its steps ask for no handler run and leave the handler as it is.
pub proof fn law_read_only_tensors_are_never_written(
    state: TensorTransactionsView,
    tensor: NativeTensor,
    ask: bool,
    work: TensorWorkView,
    values: Seq<Float32>,
    integers: Seq<i32>,
)
    ensures
        state.evaluate(tensor, ask).1 is Return || state.evaluate(tensor, ask).1 is Read,
        work.selector.access == TensorAccess::ReadOnly ==> state.read_f32(work, values).1
            is Return,
        state.read_f32(work, values).1 is Return || state.read_f32(work, values).1 is Apply,
        state.read_f32(work, values).0.handler == state.handler,
        state.read_i32(work, integers).1 is Return,
        state.read_i32(work, integers).0.handler == state.handler,
{
}

/// A handler run is asked for exactly once per mutable tensor: when its values were read and are
/// finite, and at no other step. The run is over what was read.
pub proof fn law_handlers_run_once_per_mutable_tensor(
    state: TensorTransactionsView,
    tensor: NativeTensor,
    ask: bool,
    work: TensorWorkView,
    values: Seq<Float32>,
    integers: Seq<i32>,
    edit: TensorEditView,
    outcome: HandlerOutcomeView,
)
    ensures
        state.evaluate(tensor, ask).1 !is Apply,
        state.read_f32(work, values).1 is Apply <==> all_finite(values) && work.selector.access
            == TensorAccess::ReadWriteF32 && state.handler is Some,
        state.read_f32(work, values).1 matches TensorStepView::Apply(shown) ==> shown.work == work
            && shown.values == values,
        state.read_i32(work, integers).1 !is Apply,
        state.handled(edit, outcome).1 !is Apply,
        state.written(edit).1 !is Apply,
{
}

/// The decision to leave a tensor unchanged discards the handler's edits: what is retained is
/// what was read, whatever the handler left behind.
pub proof fn law_unchanged_keeps_what_was_read(
    state: TensorTransactionsView,
    work: TensorWorkView,
    values: Seq<Float32>,
    edited: Seq<Float32>,
)
    requires
        state.read_f32(work, values).1 is Apply,
    ensures
        ({
            let edit = state.read_f32(work, values).1->Apply_0;
            let (after, step) = state.handled(
                TensorEditView { values: edited, ..edit },
                HandlerOutcomeView::Decided(TensorWriteback::Unchanged),
            );
            &&& state.read_f32(work, values).0 == state
            &&& after == state.complete(work, CapturedTensorDataView::F32(values)).0
            &&& step == TensorStepView::Return(true)
        }),
{
}

/// A handler that reports an error or unwinds leaves the program as it was, but for the failure,
/// which names the tensor and tells the two apart.
pub proof fn law_handler_failures_are_contained(
    state: TensorTransactionsView,
    edit: TensorEditView,
    message: Seq<char>,
    text: Seq<char>,
)
    requires
        state.failure is None,
    ensures
        state.handled(edit, HandlerOutcomeView::Failed(message)).0 == (TensorTransactionsView {
            failure: Some(
                TensorCallbackFailureView::new(Some(edit.work.selector.name), false, message),
            ),
            ..state
        }),
        state.handled(edit, HandlerOutcomeView::Panicked(Some(text))).0
            == (TensorTransactionsView {
            failure: Some(
                TensorCallbackFailureView::new(Some(edit.work.selector.name), true, text),
            ),
            ..state
        }),
        state.handled(edit, HandlerOutcomeView::Panicked(None)).0 == (TensorTransactionsView {
            failure: Some(
                TensorCallbackFailureView::new(
                    Some(edit.work.selector.name),
                    true,
                    "tensor handler panicked"@,
                ),
            ),
            ..state
        }),
{
}

/// A decode that fails, natively or in a callback, discards its own staging and nothing that
/// earlier decodes committed.
pub proof fn law_failed_decodes_keep_committed_captures(
    state: TensorTransactionsView,
    native_succeeded: bool,
)
    requires
        !native_succeeded || state.finish_decode(native_succeeded).1 is Err,
    ensures
        state.finish_decode(native_succeeded).0.captures == state.captures,
        state.finish_decode(native_succeeded).0.retained_bytes == state.retained_bytes,
        state.finish_decode(native_succeeded).0.pending_captures == Seq::<
            TransactionalTensorCaptureView,
        >::empty(),
        state.finish_decode(native_succeeded).0.pending_retained_bytes == 0,
{
}

/// Successful decodes accumulate: what was staged joins what was committed before, in order.
pub proof fn law_successful_decodes_accumulate(state: TensorTransactionsView)
    requires
        state.finish_decode(true).1 is Ok,
    ensures
        state.finish_decode(true).0.captures == state.captures + state.pending_captures,
        state.finish_decode(true).0.pending_captures == Seq::<
            TransactionalTensorCaptureView,
        >::empty(),
{
}

proof fn lemma_everything_covered(
    selectors: Seq<TensorSelectorView>,
    rows_seen: Map<Seq<char>, usize>,
    expected: nat,
)
    requires
        first_uncovered(selectors, rows_seen, expected) is None,
    ensures
        forall|i: int|
            0 <= i < selectors.len() ==> covered_rows(rows_seen, (#[trigger] selectors[i]).name)
                == expected,
    decreases selectors.len(),
{
    if selectors.len() > 0 {
        let rest = selectors.drop_first();
        lemma_everything_covered(rest, rows_seen, expected);
        assert forall|i: int| 0 <= i < selectors.len() implies covered_rows(
            rows_seen,
            (#[trigger] selectors[i]).name,
        ) == expected by {
            if i > 0 {
                assert(rest[i - 1] == selectors[i]);
            }
        }
    }
}

/// Tensors are committed only by a decode that succeeded natively, met no failure, and in which
/// every selected tensor covered every submitted row.
pub proof fn law_commits_need_success_and_full_coverage(
    state: TensorTransactionsView,
    native_succeeded: bool,
)
    requires
        state.finish_decode(native_succeeded).0.captures != state.captures,
    ensures
        native_succeeded,
        state.failure is None,
        forall|i: int|
            0 <= i < state.selectors.len() ==> covered_rows(
                state.rows_seen,
                (#[trigger] state.selectors[i]).name,
            ) == state.batch_rows.len(),
{
    lemma_everything_covered(state.selectors, state.rows_seen, state.batch_rows.len());
}

/// A selected tensor that did not cover every submitted row fails an otherwise successful decode
/// and names itself.
pub proof fn law_missing_coverage_is_a_failure(state: TensorTransactionsView, i: int)
    requires
        state.failure is None,
        0 <= i < state.selectors.len(),
        covered_rows(state.rows_seen, state.selectors[i].name) != state.batch_rows.len(),
    ensures
        state.finish_decode(true).1 is Err,
        state.finish_decode(true).0.failure == Some(state.finish_decode(true).1->Err_0),
        state.finish_decode(true).1->Err_0.tensor is Some,
{
    if first_uncovered(state.selectors, state.rows_seen, state.batch_rows.len()) is None {
        lemma_everything_covered(state.selectors, state.rows_seen, state.batch_rows.len());
    }
}

/// The committed tensors, and they together with the staged ones of a decode without failure,
/// never hold more than the retention bound.
pub proof fn law_retained_bytes_are_bounded(state: TensorTransactionsView)
    requires
        state.well_formed(),
    ensures
        retained(state.captures) <= MAX_RETAINED_TENSOR_BYTES,
        state.failure is None ==> retained(state.captures + state.pending_captures)
            <= MAX_RETAINED_TENSOR_BYTES,
{
    lemma_retained_concat(state.captures, state.pending_captures);
}

/// Every selector of a program is valid, and no two selectors share a name.
pub proof fn law_programs_have_distinct_valid_selectors(
    state: TensorTransactionsView,
    i: int,
    j: int,
)
    requires
        state.well_formed(),
        0 <= i < state.selectors.len(),
        0 <= j < state.selectors.len(),
    ensures
        state.selectors[i].valid(),
        state.selectors[i].name == state.selectors[j].name ==> i == j,
{
    law_name_order_is_strict_and_total(
        state.selectors[i].name,
        state.selectors[j].name,
        state.selectors[j].name,
    );
    if i < j {
        assert(name_precedes(state.selectors[i].name, state.selectors[j].name));
    } else if j < i {
        assert(name_precedes(state.selectors[j].name, state.selectors[i].name));
    }
}

/// Every committed or staged tensor is complete, holds finite values, and carries the name of a
/// selector that retains.
pub proof fn law_captures_are_complete_and_wanted(state: TensorTransactionsView, i: int)
    requires
        state.well_formed(),
    ensures
        0 <= i < state.captures.len() ==> state.captures[i].complete() && wants_retained(
            state.selectors,
            state.captures[i].name,
        ),
        0 <= i < state.pending_captures.len() ==> state.pending_captures[i].complete()
            && wants_retained(state.selectors, state.pending_captures[i].name),
{
}

/// The first failure stays, whatever happens afterwards.
pub proof fn law_the_first_failure_stays(
    state: TensorTransactionsView,
    batch: NativeBatch,
    native_succeeded: bool,
    tensor: NativeTensor,
    ask: bool,
    work: TensorWorkView,
    values: Seq<Float32>,
    integers: Seq<i32>,
    edit: TensorEditView,
    outcome: HandlerOutcomeView,
)
    requires
        state.failure is Some,
    ensures
        state.begin_decode(batch).0.failure == state.failure,
        state.decode_begin(batch).0.failure == state.failure,
        state.finish_decode(native_succeeded).0.failure == state.failure,
        state.decode_end(native_succeeded).0.failure == state.failure,
        state.evaluate(tensor, ask).0.failure == state.failure,
        state.read_f32(work, values).0.failure == state.failure,
        state.read_i32(work, integers).0.failure == state.failure,
        state.handled(edit, outcome).0.failure == state.failure,
        state.written(edit).0.failure == state.failure,
        state.drained().failure == state.failure,
{
}

/// No operation changes the selectors of a program, or runs, changes or replaces its handler. Only
/// the handler run itself, which is asked for by a step of its own, reaches the handler.
pub proof fn law_programs_keep_their_selectors_and_handler(
    state: TensorTransactionsView,
    batch: NativeBatch,
    native_succeeded: bool,
    tensor: NativeTensor,
    ask: bool,
    work: TensorWorkView,
    values: Seq<Float32>,
    integers: Seq<i32>,
    edit: TensorEditView,
    outcome: HandlerOutcomeView,
)
    ensures
        same_program(state, state.decode_begin(batch).0),
        same_program(state, state.decode_end(native_succeeded).0),
        same_program(state, state.evaluate(tensor, ask).0),
        same_program(state, state.read_f32(work, values).0),
        same_program(state, state.read_i32(work, integers).0),
        same_program(state, state.handled(edit, outcome).0),
        same_program(state, state.written(edit).0),
        same_program(state, state.drained()),
{
}

/// After a failure no decode starts and no tensor is touched: the begin hook refuses with the
/// recorded failure, and the evaluation callback asks for nothing more.
pub proof fn law_failures_close_the_program(
    state: TensorTransactionsView,
    batch: NativeBatch,
    tensor: NativeTensor,
    ask: bool,
)
    requires
        state.failure is Some,
    ensures
        state.begin_decode(batch) == (
            state,
            Err::<(), TensorCallbackFailureView>(state.failure->Some_0),
        ),
        state.decode_begin(batch) == (state, false),
        state.evaluate(tensor, ask) == (state, TensorStepView::Return(false)),
{
}

/// Draining takes everything that was committed, leaves the running decode alone, and leaves
/// nothing to drain again.
pub proof fn law_draining_empties_the_captures(state: TensorTransactionsView)
    ensures
        state.drained().captures == Seq::<TransactionalTensorCaptureView>::empty(),
        state.drained().drained() == state.drained(),
        state.drained().pending_captures == state.pending_captures,
        state.drained().rows_seen == state.rows_seen,
        state.drained().decode_active == state.decode_active,
{
}

/// A node that no selector names is left alone.
pub proof fn law_other_nodes_are_left_alone(
    state: TensorTransactionsView,
    tensor: NativeTensor,
    ask: bool,
)
    requires
        state.decode_active,
        valid_utf8(until_nul(tensor.name@)),
        selector_named(state.selectors, decode_utf8(until_nul(tensor.name@))) is None,
    ensures
        state.evaluate(tensor, ask) == (state, TensorStepView::Return(false)),
{
}

/// Asking whether a node is wanted changes nothing in a running decode without failure, and a
/// node is wanted exactly where a selector names it.
pub proof fn law_asking_changes_nothing(state: TensorTransactionsView, tensor: NativeTensor)
    requires
        state.decode_active,
        state.failure is None,
        valid_utf8(until_nul(tensor.name@)),
    ensures
        state.evaluate(tensor, true).0 == state,
        state.evaluate(tensor, true).1 == TensorStepView::Return(
            selector_named(state.selectors, decode_utf8(until_nul(tensor.name@))) is Some,
        ),
{
}

/// A retained tensor is committed as it was completed: with the values that were read, or that
/// the handler committed, under the selector's name, shape and rows.
pub proof fn law_completed_tensors_are_committed_as_completed(
    state: TensorTransactionsView,
    work: TensorWorkView,
    data: CapturedTensorDataView,
)
    requires
        work.selector.retain,
        state.complete(work, data).0.finish_decode(true).1 is Ok,
    ensures
        state.complete(work, data).0.finish_decode(true).0.captures == (state.captures
            + state.pending_captures).push(work.capture(data)),
{
    assert(state.captures + state.pending_captures.push(work.capture(data)) =~= (state.captures
        + state.pending_captures).push(work.capture(data)));
}

/// What is retained of a committed edit is what was written back.
pub proof fn law_committed_edits_are_retained_as_written(
    state: TensorTransactionsView,
    edit: TensorEditView,
)
    requires
        edit.work.selector.retain,
        state.written(edit).0.failure is None,
    ensures
        state.written(edit).0.pending_captures == state.pending_captures.push(
            edit.work.capture(CapturedTensorDataView::F32(edit.values)),
        ),
{
}

/// Once a selected tensor's data is ready, the native side is always answered that it was taken,
/// failure or not, so that it finishes the graph.
pub proof fn law_data_phases_never_stop_the_graph(
    state: TensorTransactionsView,
    tensor: NativeTensor,
    work: TensorWorkView,
    values: Seq<Float32>,
    integers: Seq<i32>,
    edit: TensorEditView,
    outcome: HandlerOutcomeView,
)
    ensures
        state.decode_active && state.failure is None && valid_utf8(until_nul(tensor.name@))
            && selector_named(state.selectors, decode_utf8(until_nul(tensor.name@))) is Some
            ==> state.evaluate(tensor, false).1 != TensorStepView::Return(false),
        state.read_f32(work, values).1 != TensorStepView::Return(false),
        state.read_i32(work, integers).1 != TensorStepView::Return(false),
        state.handled(edit, outcome).1 != TensorStepView::Return(false),
        state.written(edit).1 != TensorStepView::Return(false),
{
}

/// The logical rows of the captures of one tensor, in order.
pub open spec fn rows_of(captures: Seq<TransactionalTensorCaptureView>, name: Seq<char>) -> Seq<
    TensorBatchRowView,
>
    decreases captures.len(),
{
    if captures.len() == 0 {
        Seq::empty()
    } else if captures.last().name == name {
        rows_of(captures.drop_last(), name) + captures.last().rows
    } else {
        rows_of(captures.drop_last(), name)
    }
}

/// Whether every selected tensor has covered a prefix of the batch, and every retained one is
/// staged with exactly the rows of that prefix.
pub open spec fn tracks_rows(state: TensorTransactionsView) -> bool {
    forall|i: int|
        0 <= i < state.selectors.len() ==> {
            let selector = #[trigger] state.selectors[i];
            let covered = covered_rows(state.rows_seen, selector.name);
            &&& covered <= state.batch_rows.len()
            &&& selector.retain ==> rows_of(state.pending_captures, selector.name)
                == state.batch_rows.take(covered as int)
        }
}

/// A decode starts with nothing covered.
pub proof fn law_decodes_start_with_no_rows(state: TensorTransactionsView, batch: NativeBatch)
    requires
        state.begin_decode(batch).1 is Ok,
    ensures
        tracks_rows(state.begin_decode(batch).0),
        state.begin_decode(batch).0.batch_rows == batch.rows(),
{
    let begun = state.begin_decode(batch).0;
    assert forall|i: int| 0 <= i < begun.selectors.len() implies {
        let selector = #[trigger] begun.selectors[i];
        let covered = covered_rows(begun.rows_seen, selector.name);
        &&& covered <= begun.batch_rows.len()
        &&& selector.retain ==> rows_of(begun.pending_captures, selector.name)
            == begun.batch_rows.take(covered as int)
    } by {
        assert(begun.batch_rows.take(0) =~= Seq::empty());
    }
}

/// Each completed tensor covers the next rows of the batch and no others: the rows stay tracked
/// from tensor to tensor.
pub proof fn law_completed_tensors_cover_the_next_rows(
    state: TensorTransactionsView,
    tensor: NativeTensor,
    index: int,
    data: CapturedTensorDataView,
)
    requires
        state.well_formed(),
        tracks_rows(state),
        0 <= index < state.selectors.len(),
        state.plan(tensor, state.selectors[index]) is Ok,
        state.complete(state.plan(tensor, state.selectors[index])->Ok_0, data).0.failure is None,
    ensures
        tracks_rows(state.complete(state.plan(tensor, state.selectors[index])->Ok_0, data).0),
{
    let work = state.plan(tensor, state.selectors[index])->Ok_0;
    let after = state.complete(work, data).0;
    assert(after.selectors == state.selectors);
    assert(after.batch_rows == state.batch_rows);
    assert forall|i: int| 0 <= i < after.selectors.len() implies {
        let selector = #[trigger] after.selectors[i];
        let covered = covered_rows(after.rows_seen, selector.name);
        &&& covered <= after.batch_rows.len()
        &&& selector.retain ==> rows_of(after.pending_captures, selector.name)
            == after.batch_rows.take(covered as int)
    } by {
        let selector = state.selectors[i];
        let before = covered_rows(state.rows_seen, selector.name);
        law_programs_have_distinct_valid_selectors(state, i, index);
        if work.selector.retain {
            assert(after.pending_captures == state.pending_captures.push(work.capture(data)));
            assert(after.pending_captures.drop_last() =~= state.pending_captures);
        } else {
            assert(after.pending_captures == state.pending_captures);
        }
        if i == index {
            assert(covered_rows(after.rows_seen, selector.name) == work.end);
            assert(work.rows == state.batch_rows.subrange(before as int, work.end as int));
            assert(state.batch_rows.take(before as int) + work.rows =~= state.batch_rows.take(
                work.end as int,
            ));
        }
    }
}

/// A committed decode holds, for every retained tensor, each submitted row exactly once and in
/// order.
pub proof fn law_commits_hold_every_row_once(state: TensorTransactionsView, index: int)
    requires
        tracks_rows(state),
        state.finish_decode(true).1 is Ok,
        0 <= index < state.selectors.len(),
        state.selectors[index].retain,
    ensures
        rows_of(state.pending_captures, state.selectors[index].name) == state.batch_rows,
        state.finish_decode(true).0.captures == state.captures + state.pending_captures,
{
    lemma_everything_covered(state.selectors, state.rows_seen, state.batch_rows.len());
    assert(state.batch_rows.take(state.batch_rows.len() as int) =~= state.batch_rows);
}

} // verus!

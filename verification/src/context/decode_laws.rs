//! What each step of a decode does to a tensor program, in terms of what it is handed.

use crate::context::native::{NativeBatch, NativeTensor};
use crate::context::tensor_failure::TensorCallbackFailureView;
use crate::context::tensor_selector::{TensorAccess, TensorSelectorView, TensorWriteback};
use crate::context::tensor_transaction::{lemma_first_uncovered, lemma_no_selector_named};
use crate::context::transaction_laws::law_programs_have_distinct_valid_selectors;
use crate::context::transaction_model::{
    covered_rows,
    selector_named,
    CapturedTensorDataView,
    HandlerOutcomeView,
    TensorEditView,
    TensorStepView,
    TensorTransactionsView,
    TensorWorkView,
    TransactionalTensorCaptureView,
};
use crate::float32::Float32;
use crate::message::bounded_message;
use crate::names::{law_names_end_at_the_first_nul, utf8_error_text};
use crate::text::decimal;
use vstd::prelude::*;
use vstd::string::*;
use vstd::utf8::{
    decode_utf8,
    decode_utf8_encode_utf8,
    encode_utf8,
    encode_utf8_decode_utf8,
    encode_utf8_valid_utf8,
    valid_utf8,
};

verus! {

/// A read-only single-precision tensor that ends without a failure has covered its rows, whether
/// or not it is retained, and is staged, where it is retained, under its selector's name with its
/// shape, its rows and exactly the values that were read. Nothing else of the program changes.
pub proof fn law_read_only_values_cover_and_are_kept_as_read(
    state: TensorTransactionsView,
    work: TensorWorkView,
    values: Seq<Float32>,
)
    requires
        work.selector.access == TensorAccess::ReadOnly,
        state.read_f32(work, values).0.failure is None,
    ensures
        ({
            let (after, step) = state.read_f32(work, values);
            &&& step == TensorStepView::Return(true)
            &&& after.rows_seen == state.rows_seen.insert(work.selector.name, work.end)
            &&& covered_rows(after.rows_seen, work.selector.name) == work.end
            &&& after.pending_captures == (if work.selector.retain {
                state.pending_captures.push(
                    TransactionalTensorCaptureView {
                        name: work.selector.name,
                        shape: work.shape,
                        rows: work.rows,
                        data: CapturedTensorDataView::F32(values),
                    },
                )
            } else {
                state.pending_captures
            })
            &&& after.pending_retained_bytes == state.pending_retained_bytes + (
            if work.selector.retain {
                4 * values.len()
            } else {
                0
            })
            &&& after == (TensorTransactionsView {
                rows_seen: after.rows_seen,
                pending_captures: after.pending_captures,
                pending_retained_bytes: after.pending_retained_bytes,
                ..state
            })
        }),
{
}

/// An integer tensor that ends without a failure has covered its rows, whether or not it is
/// retained, and is staged, where it is retained, with exactly the integers that were read.
/// Nothing else of the program changes.
pub proof fn law_integers_cover_and_are_kept_as_read(
    state: TensorTransactionsView,
    work: TensorWorkView,
    integers: Seq<i32>,
)
    requires
        state.read_i32(work, integers).0.failure is None,
    ensures
        ({
            let (after, step) = state.read_i32(work, integers);
            &&& step == TensorStepView::Return(true)
            &&& after.rows_seen == state.rows_seen.insert(work.selector.name, work.end)
            &&& covered_rows(after.rows_seen, work.selector.name) == work.end
            &&& after.pending_captures == (if work.selector.retain {
                state.pending_captures.push(
                    TransactionalTensorCaptureView {
                        name: work.selector.name,
                        shape: work.shape,
                        rows: work.rows,
                        data: CapturedTensorDataView::I32(integers),
                    },
                )
            } else {
                state.pending_captures
            })
            &&& after.pending_retained_bytes == state.pending_retained_bytes + (
            if work.selector.retain {
                4 * integers.len()
            } else {
                0
            })
            &&& after == (TensorTransactionsView {
                rows_seen: after.rows_seen,
                pending_captures: after.pending_captures,
                pending_retained_bytes: after.pending_retained_bytes,
                ..state
            })
        }),
{
}

/// A tensor whose committed edit was written back without a failure has covered its rows, whether
/// or not it is retained, and is staged, where it is retained, with exactly the values that were
/// written. Nothing else of the program changes.
pub proof fn law_written_edits_cover_and_are_kept_as_written(
    state: TensorTransactionsView,
    edit: TensorEditView,
)
    requires
        state.written(edit).0.failure is None,
    ensures
        ({
            let (after, step) = state.written(edit);
            let work = edit.work;
            &&& step == TensorStepView::Return(true)
            &&& after.rows_seen == state.rows_seen.insert(work.selector.name, work.end)
            &&& covered_rows(after.rows_seen, work.selector.name) == work.end
            &&& after.pending_captures == (if work.selector.retain {
                state.pending_captures.push(
                    TransactionalTensorCaptureView {
                        name: work.selector.name,
                        shape: work.shape,
                        rows: work.rows,
                        data: CapturedTensorDataView::F32(edit.values),
                    },
                )
            } else {
                state.pending_captures
            })
            &&& after.pending_retained_bytes == state.pending_retained_bytes + (
            if work.selector.retain {
                4 * edit.values.len()
            } else {
                0
            })
            &&& after == (TensorTransactionsView {
                rows_seen: after.rows_seen,
                pending_captures: after.pending_captures,
                pending_retained_bytes: after.pending_retained_bytes,
                ..state
            })
        }),
{
}

/// A tensor that the handler left unchanged, and that ends without a failure, has covered its
/// rows, whether or not it is retained, and is staged, where it is retained, with the values that
/// were read before the handler ran. Nothing else of the program changes.
pub proof fn law_unchanged_tensors_cover_and_are_kept_as_read(
    state: TensorTransactionsView,
    edit: TensorEditView,
    read: Seq<Float32>,
)
    requires
        edit.work.selector.retain ==> edit.original == Some(read),
        state.handled(
            edit,
            HandlerOutcomeView::Decided(TensorWriteback::Unchanged),
        ).0.failure is None,
    ensures
        ({
            let (after, step) = state.handled(
                edit,
                HandlerOutcomeView::Decided(TensorWriteback::Unchanged),
            );
            let work = edit.work;
            &&& step == TensorStepView::Return(true)
            &&& after.rows_seen == state.rows_seen.insert(work.selector.name, work.end)
            &&& covered_rows(after.rows_seen, work.selector.name) == work.end
            &&& after.pending_captures == (if work.selector.retain {
                state.pending_captures.push(
                    TransactionalTensorCaptureView {
                        name: work.selector.name,
                        shape: work.shape,
                        rows: work.rows,
                        data: CapturedTensorDataView::F32(read),
                    },
                )
            } else {
                state.pending_captures
            })
            &&& after.pending_retained_bytes == state.pending_retained_bytes + (
            if work.selector.retain {
                4 * read.len()
            } else {
                0
            })
            &&& after == (TensorTransactionsView {
                rows_seen: after.rows_seen,
                pending_captures: after.pending_captures,
                pending_retained_bytes: after.pending_retained_bytes,
                ..state
            })
        }),
{
}

/// Ending a tensor that is not retained never fails. Ending one that is retained fails exactly
/// where its bytes, four for each element, would push what is kept beyond the retention bound.
/// The failure names the tensor and the reason, and neither rows nor captures change with it.
pub proof fn law_tensors_end_unless_too_many_bytes_are_kept(
    state: TensorTransactionsView,
    work: TensorWorkView,
    values: Seq<Float32>,
    integers: Seq<i32>,
)
    requires
        state.failure is None,
        work.selector.access == TensorAccess::ReadOnly,
        forall|i: int| 0 <= i < values.len() ==> (#[trigger] values[i]).finite(),
    ensures
        ({
            let kept = state.retained_bytes + state.pending_retained_bytes;
            let floats = state.read_f32(work, values).0;
            let ints = state.read_i32(work, integers).0;
            &&& floats.failure is None <==> (work.selector.retain ==> kept + 4 * values.len()
                <= 67_108_864)
            &&& ints.failure is None <==> (work.selector.retain ==> kept + 4 * integers.len()
                <= 67_108_864)
            &&& floats.failure is Some ==> floats == (TensorTransactionsView {
                failure: Some(
                    TensorCallbackFailureView {
                        tensor: Some(work.selector.name),
                        panicked: false,
                        message: bounded_message(
                            if kept + 4 * values.len() > usize::MAX {
                                "retained byte count overflowed"@
                            } else {
                                "retained tensor bytes exceed the supported bound"@
                            },
                        ),
                    },
                ),
                pending_retained_bytes: floats.pending_retained_bytes,
                ..state
            })
            &&& ints.failure is Some ==> ints == (TensorTransactionsView {
                failure: Some(
                    TensorCallbackFailureView {
                        tensor: Some(work.selector.name),
                        panicked: false,
                        message: bounded_message(
                            if kept + 4 * integers.len() > usize::MAX {
                                "retained byte count overflowed"@
                            } else {
                                "retained tensor bytes exceed the supported bound"@
                            },
                        ),
                    },
                ),
                pending_retained_bytes: ints.pending_retained_bytes,
                ..state
            })
        }),
{
}

/// The same holds of edited tensors, written back or left unchanged.
pub proof fn law_edits_end_unless_too_many_bytes_are_kept(
    state: TensorTransactionsView,
    edit: TensorEditView,
    read: Seq<Float32>,
)
    requires
        state.failure is None,
        edit.work.selector.retain ==> edit.original == Some(read),
    ensures
        ({
            let kept = state.retained_bytes + state.pending_retained_bytes;
            let retain = edit.work.selector.retain;
            let name = edit.work.selector.name;
            let written = state.written(edit).0;
            let unchanged = state.handled(
                edit,
                HandlerOutcomeView::Decided(TensorWriteback::Unchanged),
            ).0;
            &&& written.failure is None <==> (retain ==> kept + 4 * edit.values.len()
                <= 67_108_864)
            &&& unchanged.failure is None <==> (retain ==> kept + 4 * read.len() <= 67_108_864)
            &&& written.failure is Some ==> written == (TensorTransactionsView {
                failure: Some(
                    TensorCallbackFailureView {
                        tensor: Some(name),
                        panicked: false,
                        message: bounded_message(
                            if kept + 4 * edit.values.len() > usize::MAX {
                                "retained byte count overflowed"@
                            } else {
                                "retained tensor bytes exceed the supported bound"@
                            },
                        ),
                    },
                ),
                pending_retained_bytes: written.pending_retained_bytes,
                ..state
            })
            &&& unchanged.failure is Some ==> unchanged == (TensorTransactionsView {
                failure: Some(
                    TensorCallbackFailureView {
                        tensor: Some(name),
                        panicked: false,
                        message: bounded_message(
                            if kept + 4 * read.len() > usize::MAX {
                                "retained byte count overflowed"@
                            } else {
                                "retained tensor bytes exceed the supported bound"@
                            },
                        ),
                    },
                ),
                pending_retained_bytes: unchanged.pending_retained_bytes,
                ..state
            })
        }),
{
}

/// A value that is not finite fails its tensor, read or committed: the failure names the tensor,
/// nothing else of the program changes, and nothing is written.
pub proof fn law_non_finite_values_are_refused(
    state: TensorTransactionsView,
    work: TensorWorkView,
    edit: TensorEditView,
    values: Seq<Float32>,
    i: int,
)
    requires
        state.failure is None,
        0 <= i < values.len(),
        !values[i].finite(),
        edit.values == values,
    ensures
        state.read_f32(work, values) == (
            TensorTransactionsView {
                failure: Some(
                    TensorCallbackFailureView {
                        tensor: Some(work.selector.name),
                        panicked: false,
                        message: bounded_message(
                            "selected f32 tensor contains a non-finite value"@,
                        ),
                    },
                ),
                ..state
            },
            TensorStepView::Return(true),
        ),
        state.handled(edit, HandlerOutcomeView::Decided(TensorWriteback::Commit)) == (
            TensorTransactionsView {
                failure: Some(
                    TensorCallbackFailureView {
                        tensor: Some(edit.work.selector.name),
                        panicked: false,
                        message: bounded_message("transaction produced a non-finite f32 value"@),
                    },
                ),
                ..state
            },
            TensorStepView::Return(true),
        ),
{
}

/// Finite values of a mutable tensor go to the handler as they were read, with a copy beside them
/// exactly where the tensor is retained. Without a handler the tensor fails. What the handler
/// commits is written as it left it. None of this touches the rest of the program.
pub proof fn law_finite_values_pass_through_the_handler(
    state: TensorTransactionsView,
    work: TensorWorkView,
    values: Seq<Float32>,
    edit: TensorEditView,
)
    requires
        state.failure is None,
        work.selector.access == TensorAccess::ReadWriteF32,
        forall|i: int| 0 <= i < values.len() ==> (#[trigger] values[i]).finite(),
        forall|i: int| 0 <= i < edit.values.len() ==> (#[trigger] edit.values[i]).finite(),
    ensures
        state.handler is Some ==> state.read_f32(work, values) == (
            state,
            TensorStepView::Apply(
                TensorEditView {
                    work,
                    values,
                    original: if work.selector.retain {
                        Some(values)
                    } else {
                        None
                    },
                },
            ),
        ),
        state.handler is None ==> state.read_f32(work, values) == (
            TensorTransactionsView {
                failure: Some(
                    TensorCallbackFailureView {
                        tensor: Some(work.selector.name),
                        panicked: false,
                        message: bounded_message("mutable tensor handler is unavailable"@),
                    },
                ),
                ..state
            },
            TensorStepView::Return(true),
        ),
        state.handled(edit, HandlerOutcomeView::Decided(TensorWriteback::Commit)) == (
            state,
            TensorStepView::Write(edit),
        ),
{
}

/// A handler that reports an error or unwinds ends its tensor: the native side is answered that
/// the tensor was taken, and the failure carries the handler's own words.
pub proof fn law_handler_failures_end_the_tensor(
    state: TensorTransactionsView,
    edit: TensorEditView,
    message: Seq<char>,
)
    requires
        state.failure is None,
    ensures
        ({
            let (after, step) = state.handled(edit, HandlerOutcomeView::Failed(message));
            &&& step == TensorStepView::Return(true)
            &&& after.failure == Some(
                TensorCallbackFailureView {
                    tensor: Some(edit.work.selector.name),
                    panicked: false,
                    message: bounded_message(message),
                },
            )
            &&& after.rows_seen == state.rows_seen
            &&& after.pending_captures == state.pending_captures
        }),
        ({
            let (after, step) = state.handled(edit, HandlerOutcomeView::Panicked(Some(message)));
            &&& step == TensorStepView::Return(true)
            &&& after.failure == Some(
                TensorCallbackFailureView {
                    tensor: Some(edit.work.selector.name),
                    panicked: true,
                    message: bounded_message(message),
                },
            )
            &&& after.rows_seen == state.rows_seen
            &&& after.pending_captures == state.pending_captures
        }),
        state.handled(edit, HandlerOutcomeView::Panicked(None)).1 == TensorStepView::Return(true),
{
}

/// A decode that ends after a failure keeps nothing of itself and reports that failure, whatever
/// the native side says of it.
pub proof fn law_failed_programs_commit_nothing(
    state: TensorTransactionsView,
    native_succeeded: bool,
)
    requires
        state.failure is Some,
    ensures
        state.finish_decode(native_succeeded).0 == (TensorTransactionsView {
            decode_active: false,
            batch_rows: Seq::empty(),
            pending_captures: Seq::empty(),
            pending_retained_bytes: 0,
            ..state
        }),
        state.finish_decode(native_succeeded).1 == Err::<(), TensorCallbackFailureView>(
            state.failure->Some_0,
        ),
        state.decode_end(native_succeeded).0 == state.finish_decode(native_succeeded).0,
        !state.decode_end(native_succeeded).1,
{
}

/// A decode that succeeded natively and without a failure, and in which every selected tensor
/// delivered as many rows as were submitted, ends in success: what it staged joins what was
/// committed before, and the staging is empty again.
pub proof fn law_fully_covered_decodes_commit(state: TensorTransactionsView)
    requires
        state.failure is None,
        state.retained_bytes + state.pending_retained_bytes <= usize::MAX,
        forall|i: int|
            0 <= i < state.selectors.len() ==> state.rows_seen.contains_key(
                (#[trigger] state.selectors[i]).name,
            ) && state.rows_seen[state.selectors[i].name] == state.batch_rows.len(),
    ensures
        ({
            let (after, outcome) = state.finish_decode(true);
            &&& outcome == Ok::<(), TensorCallbackFailureView>(())
            &&& after.retained_bytes == state.retained_bytes + state.pending_retained_bytes
            &&& after == (TensorTransactionsView {
                decode_active: false,
                batch_rows: Seq::empty(),
                captures: state.captures + state.pending_captures,
                retained_bytes: after.retained_bytes,
                pending_captures: Seq::empty(),
                pending_retained_bytes: 0,
                ..state
            })
            &&& state.decode_end(true) == (after, true)
        }),
{
    lemma_first_uncovered(
        state.selectors,
        state.rows_seen,
        state.batch_rows.len(),
        state.selectors.len() as int,
    );
}

/// The first selector whose tensor did not deliver every submitted row fails an otherwise
/// successful decode. The failure names that tensor and both counts, and nothing is committed.
pub proof fn law_the_first_missing_tensor_is_reported(state: TensorTransactionsView, i: int)
    requires
        state.failure is None,
        0 <= i < state.selectors.len(),
        forall|j: int|
            0 <= j < i ==> covered_rows(state.rows_seen, (#[trigger] state.selectors[j]).name)
                == state.batch_rows.len(),
        covered_rows(state.rows_seen, state.selectors[i].name) != state.batch_rows.len(),
    ensures
        ({
            let (after, outcome) = state.finish_decode(true);
            let covered = if state.rows_seen.contains_key(state.selectors[i].name) {
                state.rows_seen[state.selectors[i].name] as nat
            } else {
                0
            };
            let failure = TensorCallbackFailureView {
                tensor: Some(state.selectors[i].name),
                panicked: false,
                message: bounded_message(
                    "selected tensor covered "@ + decimal(covered)
                        + " rows but the decode submitted "@ + decimal(state.batch_rows.len()),
                ),
            };
            &&& outcome == Err::<(), TensorCallbackFailureView>(failure)
            &&& after == (TensorTransactionsView {
                decode_active: false,
                batch_rows: Seq::empty(),
                pending_captures: Seq::empty(),
                pending_retained_bytes: 0,
                failure: Some(failure),
                ..state
            })
            &&& state.decode_end(true) == (after, false)
        }),
{
    lemma_first_uncovered(state.selectors, state.rows_seen, state.batch_rows.len(), i);
}

/// A decode that failed natively, without a failure of its own, ends quietly: it is no failure of
/// the program, its staging is dropped, and what was committed before stays.
pub proof fn law_native_failures_end_quietly(state: TensorTransactionsView)
    requires
        state.failure is None,
    ensures
        state.finish_decode(false) == (
            TensorTransactionsView {
                decode_active: false,
                batch_rows: Seq::empty(),
                pending_captures: Seq::empty(),
                pending_retained_bytes: 0,
                ..state
            },
            Ok::<(), TensorCallbackFailureView>(()),
        ),
        state.decode_end(false) == (state.finish_decode(false).0, true),
{
}

/// An idle program without a failure starts a decode on every accepted batch, with the rows of
/// that batch, nothing covered and nothing staged. What was committed before stays.
pub proof fn law_accepted_batches_start_decodes(state: TensorTransactionsView, batch: NativeBatch)
    requires
        state.failure is None,
        !state.decode_active,
        batch.rejection() is None,
    ensures
        state.begin_decode(batch) == (
            TensorTransactionsView {
                decode_active: true,
                batch_rows: batch.rows(),
                rows_seen: Map::empty(),
                pending_captures: Seq::empty(),
                pending_retained_bytes: 0,
                ..state
            },
            Ok::<(), TensorCallbackFailureView>(()),
        ),
        state.decode_begin(batch) == (state.begin_decode(batch).0, true),
{
}

/// A refused batch starts nothing: the refusal is reported, and the begin hook records it and
/// stops the native side.
pub proof fn law_refused_batches_start_nothing(state: TensorTransactionsView, batch: NativeBatch)
    requires
        state.failure is None,
        !state.decode_active,
        batch.rejection() is Some,
    ensures
        ({
            let refusal = bounded_message(batch.rejection()->Some_0);
            let idle = TensorTransactionsView {
                rows_seen: Map::empty(),
                pending_captures: Seq::empty(),
                pending_retained_bytes: 0,
                ..state
            };
            &&& state.begin_decode(batch) == (
                idle,
                Err::<(), TensorCallbackFailureView>(
                    TensorCallbackFailureView { tensor: None, panicked: false, message: refusal },
                ),
            )
            &&& state.decode_begin(batch) == (
                TensorTransactionsView {
                    failure: Some(
                        TensorCallbackFailureView {
                            tensor: None,
                            panicked: false,
                            message: bounded_message("tensor callback failed: "@ + refusal),
                        },
                    ),
                    ..idle
                },
                false,
            )
        }),
{
    let refusal = bounded_message(batch.rejection()->Some_0);
    reveal_strlit("tensor callback failed");
    reveal_strlit(": ");
    reveal_strlit("tensor callback failed: ");
    assert("tensor callback failed"@ + Seq::<char>::empty() + ": "@ + refusal
        =~= "tensor callback failed: "@ + refusal);
}

/// A second decode does not start while one is running: the running one goes on as it was, and
/// the begin hook records the refusal.
pub proof fn law_decodes_do_not_overlap(state: TensorTransactionsView, batch: NativeBatch)
    requires
        state.failure is None,
        state.decode_active,
    ensures
        state.begin_decode(batch) == (
            state,
            Err::<(), TensorCallbackFailureView>(
                TensorCallbackFailureView {
                    tensor: None,
                    panicked: false,
                    message: bounded_message("tensor callback decode was already active"@),
                },
            ),
        ),
        ({
            let (after, proceed) = state.decode_begin(batch);
            &&& !proceed
            &&& after.failure is Some
            &&& after == (TensorTransactionsView { failure: after.failure, ..state })
        }),
{
}

/// A tensor that meets its selector is given the batch rows that follow those its name has covered
/// so far, one for each of its own rows and in order, where the batch has that many. Otherwise it
/// is refused, as is one that does not meet its selector.
pub proof fn law_tensors_get_the_next_batch_rows(
    state: TensorTransactionsView,
    tensor: NativeTensor,
    selector: TensorSelectorView,
    start: int,
)
    requires
        state.batch_rows.len() <= usize::MAX,
        state.rows_seen.contains_key(selector.name) ==> start == state.rows_seen[selector.name],
        !state.rows_seen.contains_key(selector.name) ==> start == 0,
    ensures
        tensor.mismatch(selector) is Some ==> state.plan(tensor, selector) == Err::<
            TensorWorkView,
            Seq<char>,
        >(tensor.mismatch(selector)->Some_0),
        tensor.mismatch(selector) is None && start + tensor.ne@[1] <= state.batch_rows.len() ==> {
            let work = state.plan(tensor, selector)->Ok_0;
            &&& state.plan(tensor, selector) is Ok
            &&& work.selector == selector
            &&& work.shape.row_elements == tensor.ne@[0]
            &&& work.shape.rows == tensor.ne@[1]
            &&& work.shape.elements == tensor.ne@[0] * tensor.ne@[1]
            &&& work.end == start + tensor.ne@[1]
            &&& work.rows.len() == tensor.ne@[1]
            &&& forall|k: int|
                0 <= k < tensor.ne@[1] ==> #[trigger] work.rows[k] == state.batch_rows[start + k]
        },
        tensor.mismatch(selector) is None && start + tensor.ne@[1] > state.batch_rows.len()
            ==> state.plan(tensor, selector) == Err::<TensorWorkView, Seq<char>>(
            if start + tensor.ne@[1] > usize::MAX {
                "tensor row mapping overflowed"@
            } else {
                "tensor rows exceed submitted decode batch"@
            },
        ),
{
    if tensor.mismatch(selector) is None {
        assert(tensor.ne@[0] * tensor.ne@[1] >= 0) by (nonlinear_arith)
            requires
                tensor.ne@[0] >= 0,
                tensor.ne@[1] >= 0,
        ;
    }
}

/// The first selector of a name is the one that is found under it.
pub proof fn law_selectors_are_found_by_name(
    selectors: Seq<TensorSelectorView>,
    name: Seq<char>,
    k: int,
)
    requires
        0 <= k <= selectors.len(),
        forall|i: int| 0 <= i < k ==> (#[trigger] selectors[i]).name != name,
    ensures
        k < selectors.len() && selectors[k].name == name ==> selector_named(selectors, name)
            == Some(selectors[k]),
        k == selectors.len() ==> selector_named(selectors, name) is None,
    decreases k,
{
    if k > 0 {
        assert(selectors[0].name != name);
        let rest = selectors.drop_first();
        assert forall|i: int| 0 <= i < k - 1 implies (#[trigger] rest[i]).name != name by {
            assert(rest[i] == selectors[i + 1]);
        }
        law_selectors_are_found_by_name(rest, name, k - 1);
    }
}

/// In a running decode a node is wanted where its name buffer holds exactly the encoding of a
/// selector's name, up to its first NUL or its end. While the native side asks, it is told so and
/// nothing changes. Once the data is ready, the node is read where the next rows of the batch can
/// be given to it; otherwise the failure names it, and the native side is told that it was taken.
pub proof fn law_nodes_are_wanted_by_exact_name(
    state: TensorTransactionsView,
    tensor: NativeTensor,
    i: int,
)
    requires
        state.well_formed(),
        state.decode_active,
        state.failure is None,
        0 <= i < state.selectors.len(),
        ({
            let name = encode_utf8(state.selectors[i].name);
            &&& name.len() <= tensor.name@.len()
            &&& tensor.name@.take(name.len() as int) == name
            &&& name.len() == tensor.name@.len() || tensor.name@[name.len() as int] == 0
        }),
    ensures
        state.evaluate(tensor, true) == (state, TensorStepView::Return(true)),
        state.evaluate(tensor, false) == match state.plan(tensor, state.selectors[i]) {
            Ok(work) => (state, TensorStepView::Read(work)),
            Err(message) => (
                TensorTransactionsView {
                    failure: Some(
                        TensorCallbackFailureView {
                            tensor: Some(state.selectors[i].name),
                            panicked: false,
                            message: bounded_message(message),
                        },
                    ),
                    ..state
                },
                TensorStepView::Return(true),
            ),
        },
{
    let selector = state.selectors[i];
    let name = encode_utf8(selector.name);
    assert(selector.valid());
    assert forall|j: int| 0 <= j < name.len() implies tensor.name@[j] != 0 by {
        assert(tensor.name@.take(name.len() as int)[j] == tensor.name@[j]);
        assert(name.contains(name[j]));
    }
    law_names_end_at_the_first_nul(tensor.name@, name.len() as int);
    encode_utf8_valid_utf8(selector.name);
    encode_utf8_decode_utf8(selector.name);
    assert forall|j: int| 0 <= j < i implies (#[trigger] state.selectors[j]).name
        != selector.name by {
        law_programs_have_distinct_valid_selectors(state, i, j);
    }
    law_selectors_are_found_by_name(state.selectors, selector.name, i);
}

/// In a running decode a node whose name is the encoding of no selector's name is left alone: the
/// native side is told that it is not wanted, in either phase, and nothing changes.
pub proof fn law_nodes_of_other_names_are_not_wanted(
    state: TensorTransactionsView,
    tensor: NativeTensor,
    ask: bool,
    length: int,
)
    requires
        state.decode_active,
        state.failure is None,
        0 <= length <= tensor.name@.len(),
        forall|j: int| 0 <= j < length ==> tensor.name@[j] != 0,
        length == tensor.name@.len() || tensor.name@[length] == 0,
        valid_utf8(tensor.name@.take(length)),
        forall|i: int|
            0 <= i < state.selectors.len() ==> encode_utf8((#[trigger] state.selectors[i]).name)
                != tensor.name@.take(length),
    ensures
        state.evaluate(tensor, ask) == (state, TensorStepView::Return(false)),
{
    let bytes = tensor.name@.take(length);
    law_names_end_at_the_first_nul(tensor.name@, length);
    decode_utf8_encode_utf8(bytes);
    lemma_no_selector_named(state.selectors, decode_utf8(bytes));
}

/// In a running decode a node whose name is not UTF-8 is a failure that names no tensor and says
/// what is wrong with the name. It stops the native side.
pub proof fn law_names_must_be_utf8(
    state: TensorTransactionsView,
    tensor: NativeTensor,
    ask: bool,
    length: int,
)
    requires
        state.decode_active,
        state.failure is None,
        0 <= length <= tensor.name@.len(),
        forall|j: int| 0 <= j < length ==> tensor.name@[j] != 0,
        length == tensor.name@.len() || tensor.name@[length] == 0,
        !valid_utf8(tensor.name@.take(length)),
    ensures
        state.evaluate(tensor, ask) == (
            TensorTransactionsView {
                failure: Some(
                    TensorCallbackFailureView {
                        tensor: None,
                        panicked: false,
                        message: bounded_message(
                            "tensor name is not UTF-8: "@ + utf8_error_text(
                                tensor.name@.take(length),
                            ),
                        ),
                    },
                ),
                ..state
            },
            TensorStepView::Return(false),
        ),
{
    law_names_end_at_the_first_nul(tensor.name@, length);
}

/// A callback outside a decode is a failure that names no tensor, and stops the native side. The
/// failure is recorded unless there is one already; nothing else changes.
pub proof fn law_callbacks_belong_to_decodes(
    state: TensorTransactionsView,
    tensor: NativeTensor,
    ask: bool,
)
    requires
        !state.decode_active,
    ensures
        state.evaluate(tensor, ask) == (
            TensorTransactionsView {
                failure: match state.failure {
                    Some(failure) => Some(failure),
                    None => Some(
                        TensorCallbackFailureView {
                            tensor: None,
                            panicked: false,
                            message: bounded_message(
                                "tensor evaluation callback ran outside a decode lifecycle"@,
                            ),
                        },
                    ),
                },
                ..state
            },
            TensorStepView::Return(false),
        ),
{
}

/// When every other selected tensor has delivered all submitted rows, the tensor that delivers the
/// last of its own completes the decode: however it ends without a failure, read, left unchanged
/// or written back, the native success is confirmed and what was staged is committed.
pub proof fn law_the_last_tensor_completes_the_decode(
    state: TensorTransactionsView,
    i: int,
    work: TensorWorkView,
    values: Seq<Float32>,
    integers: Seq<i32>,
    edit: TensorEditView,
)
    requires
        0 <= i < state.selectors.len(),
        work.selector == state.selectors[i],
        work.end == state.batch_rows.len(),
        edit.work == work,
        edit.original is Some <==> work.selector.retain,
        forall|j: int|
            0 <= j < state.selectors.len() && j != i ==> state.rows_seen.contains_key(
                (#[trigger] state.selectors[j]).name,
            ) && state.rows_seen[state.selectors[j].name] == state.batch_rows.len(),
    ensures
        work.selector.access == TensorAccess::ReadOnly ==> {
            let read = state.read_f32(work, values).0;
            read.failure is None ==> read.decode_end(true).1 && read.decode_end(true).0.captures
                == state.captures + read.pending_captures
        },
        ({
            let read = state.read_i32(work, integers).0;
            read.failure is None ==> read.decode_end(true).1 && read.decode_end(true).0.captures
                == state.captures + read.pending_captures
        }),
        ({
            let written = state.written(edit).0;
            written.failure is None ==> written.decode_end(true).1 && written.decode_end(
                true,
            ).0.captures == state.captures + written.pending_captures
        }),
        ({
            let unchanged = state.handled(
                edit,
                HandlerOutcomeView::Decided(TensorWriteback::Unchanged),
            ).0;
            unchanged.failure is None ==> unchanged.decode_end(true).1 && unchanged.decode_end(
                true,
            ).0.captures == state.captures + unchanged.pending_captures
        }),
{
    if work.selector.access == TensorAccess::ReadOnly && state.read_f32(work, values).0.failure
        is None {
        law_read_only_values_cover_and_are_kept_as_read(state, work, values);
        lemma_last_cover(state, state.read_f32(work, values).0, i, work);
    }
    if state.read_i32(work, integers).0.failure is None {
        law_integers_cover_and_are_kept_as_read(state, work, integers);
        lemma_last_cover(state, state.read_i32(work, integers).0, i, work);
    }
    if state.written(edit).0.failure is None {
        law_written_edits_cover_and_are_kept_as_written(state, edit);
        lemma_last_cover(state, state.written(edit).0, i, work);
    }
    let unchanged = HandlerOutcomeView::Decided(TensorWriteback::Unchanged);
    if state.handled(edit, unchanged).0.failure is None {
        let read = match edit.original {
            Some(original) => original,
            None => edit.values,
        };
        law_unchanged_tensors_cover_and_are_kept_as_read(state, edit, read);
        lemma_last_cover(state, state.handled(edit, unchanged).0, i, work);
    }
}

proof fn lemma_last_cover(
    before: TensorTransactionsView,
    after: TensorTransactionsView,
    i: int,
    work: TensorWorkView,
)
    requires
        0 <= i < before.selectors.len(),
        work.selector == before.selectors[i],
        work.end == before.batch_rows.len(),
        forall|j: int|
            0 <= j < before.selectors.len() && j != i ==> before.rows_seen.contains_key(
                (#[trigger] before.selectors[j]).name,
            ) && before.rows_seen[before.selectors[j].name] == before.batch_rows.len(),
        after.failure is None,
        after.selectors == before.selectors,
        after.batch_rows == before.batch_rows,
        after.captures == before.captures,
        after.rows_seen == before.rows_seen.insert(work.selector.name, work.end),
    ensures
        after.decode_end(true).1,
        after.decode_end(true).0.captures == before.captures + after.pending_captures,
{
    lemma_first_uncovered(
        after.selectors,
        after.rows_seen,
        after.batch_rows.len(),
        after.selectors.len() as int,
    );
}

} // verus!

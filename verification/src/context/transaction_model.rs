//! The mathematical model of a tensor program: its state and what each callback does to it.

use crate::context::native::{NativeBatch, NativeTensor, TensorBatchRowView, TensorShape};
use crate::context::tensor_failure::TensorCallbackFailureView;
use crate::context::tensor_selector::{
    TensorAccess,
    TensorSelectorView,
    TensorWriteback,
    MAX_RETAINED_TENSOR_BYTES,
    MAX_TENSOR_ELEMENTS,
    MAX_TENSOR_ROWS,
    MAX_TENSOR_SELECTORS,
    TENSOR_ELEMENT_BYTES,
};
use crate::context::tensor_transaction::TensorTransactionHandler;
use crate::float32::{all_finite, Float32};
use crate::names::{name_precedes, until_nul, utf8_error_text};
use crate::text::decimal;
use vstd::prelude::*;
use vstd::utf8::{decode_utf8, valid_utf8};

verus! {

/// The mathematical content of retained tensor storage.
#[verifier::ext_equal]
pub enum CapturedTensorDataView {
    /// Finite single-precision values.
    F32(Seq<Float32>),
    /// Signed integer values.
    I32(Seq<i32>),
}

impl CapturedTensorDataView {
    /// The retained element count.
    pub open spec fn len(self) -> nat {
        match self {
            CapturedTensorDataView::F32(values) => values.len(),
            CapturedTensorDataView::I32(values) => values.len(),
        }
    }

    /// Whether the values are ones that may be retained.
    pub open spec fn storable(self) -> bool {
        match self {
            CapturedTensorDataView::F32(values) => all_finite(values),
            CapturedTensorDataView::I32(_) => true,
        }
    }
}

/// The mathematical content of a retained tensor.
#[verifier::ext_equal]
pub struct TransactionalTensorCaptureView {
    /// Exact graph-node name.
    pub name: Seq<char>,
    /// Validated shape.
    pub shape: TensorShape,
    /// Exact logical batch rows.
    pub rows: Seq<TensorBatchRowView>,
    /// Typed copied values.
    pub data: CapturedTensorDataView,
}

/// Whether a shape is that of a nonempty bounded row matrix.
pub open spec fn regular_shape(shape: TensorShape) -> bool {
    &&& shape.row_elements > 0
    &&& 0 < shape.rows <= MAX_TENSOR_ROWS
    &&& shape.elements == shape.row_elements * shape.rows
    &&& shape.elements <= MAX_TENSOR_ELEMENTS
}

/// A row matrix has elements.
pub proof fn lemma_regular_shapes_have_elements(shape: TensorShape)
    requires
        regular_shape(shape),
    ensures
        shape.elements > 0,
{
    assert(shape.row_elements * shape.rows > 0) by (nonlinear_arith)
        requires
            shape.row_elements > 0,
            shape.rows > 0,
    ;
}

impl TransactionalTensorCaptureView {
    /// Whether the capture is complete: a bounded row matrix with one logical row per native
    /// row, every element, and finite values.
    pub open spec fn complete(self) -> bool {
        &&& regular_shape(self.shape)
        &&& self.rows.len() == self.shape.rows
        &&& self.data.len() == self.shape.elements
        &&& self.data.storable()
    }

    /// The bytes that the capture holds.
    pub open spec fn bytes(self) -> nat {
        self.data.len() * TENSOR_ELEMENT_BYTES as nat
    }
}

/// The bytes that a list of captures holds.
pub open spec fn retained(captures: Seq<TransactionalTensorCaptureView>) -> nat
    decreases captures.len(),
{
    if captures.len() == 0 {
        0
    } else {
        retained(captures.drop_last()) + captures.last().bytes()
    }
}

/// The bytes of two lists add up.
pub proof fn lemma_retained_concat(
    a: Seq<TransactionalTensorCaptureView>,
    b: Seq<TransactionalTensorCaptureView>,
)
    ensures
        retained(a + b) == retained(a) + retained(b),
    decreases b.len(),
{
    if b.len() == 0 {
        assert(a + b =~= a);
    } else {
        assert((a + b).drop_last() =~= a + b.drop_last());
        lemma_retained_concat(a, b.drop_last());
    }
}

/// Whether every capture of a list is complete.
pub open spec fn all_complete(captures: Seq<TransactionalTensorCaptureView>) -> bool {
    forall|i: int| 0 <= i < captures.len() ==> (#[trigger] captures[i]).complete()
}

/// Whether some selector of the given name asks for its tensor to be retained.
pub open spec fn wants_retained(selectors: Seq<TensorSelectorView>, name: Seq<char>) -> bool {
    exists|i: int|
        0 <= i < selectors.len() && (#[trigger] selectors[i]).name == name && selectors[i].retain
}

/// Whether every capture of a list carries the name of a selector that retains.
pub open spec fn all_wanted(
    selectors: Seq<TensorSelectorView>,
    captures: Seq<TransactionalTensorCaptureView>,
) -> bool {
    forall|i: int|
        0 <= i < captures.len() ==> wants_retained(selectors, (#[trigger] captures[i]).name)
}

/// Whether names come in canonical order without repetition.
pub open spec fn canonical(selectors: Seq<TensorSelectorView>) -> bool {
    forall|i: int, j: int|
        0 <= i < j < selectors.len() ==> name_precedes(
            #[trigger] selectors[i].name,
            #[trigger] selectors[j].name,
        )
}

/// The sum of the selectors' element bounds.
pub open spec fn total_elements(selectors: Seq<TensorSelectorView>) -> int
    decreases selectors.len(),
{
    if selectors.len() == 0 {
        0
    } else {
        total_elements(selectors.drop_last()) + selectors.last().element_bound()
    }
}

/// Whether any selector grants native write access.
pub open spec fn needs_handler(selectors: Seq<TensorSelectorView>) -> bool {
    exists|i: int|
        0 <= i < selectors.len() && (#[trigger] selectors[i]).access == TensorAccess::ReadWriteF32
}

/// Why a set of valid selectors is refused as a program, or nothing where it is accepted.
pub open spec fn program_rejection(selectors: Seq<TensorSelectorView>, has_handler: bool) -> Option<
    Seq<char>,
> {
    if !(0 < selectors.len() <= MAX_TENSOR_SELECTORS) {
        Some("selector count is outside the supported bound"@)
    } else if !canonical(selectors) {
        Some("selectors must have unique canonically ordered names"@)
    } else if total_elements(selectors) > MAX_TENSOR_ELEMENTS {
        Some("total selector element bound is excessive"@)
    } else if needs_handler(selectors) && !has_handler {
        Some("mutable selectors require a transaction handler"@)
    } else if !needs_handler(selectors) && has_handler {
        Some("a transaction handler requires at least one mutable selector"@)
    } else {
        None
    }
}

/// The selector with a given name, where there is one.
pub open spec fn selector_named(selectors: Seq<TensorSelectorView>, name: Seq<char>) -> Option<
    TensorSelectorView,
>
    decreases selectors.len(),
{
    if selectors.len() == 0 {
        None
    } else if selectors[0].name == name {
        Some(selectors[0])
    } else {
        selector_named(selectors.drop_first(), name)
    }
}

/// One selected tensor that was checked and may be read.
#[verifier::ext_equal]
pub struct TensorWorkView {
    /// The selector that the tensor met.
    pub selector: TensorSelectorView,
    /// Validated shape.
    pub shape: TensorShape,
    /// The logical rows that the tensor holds.
    pub rows: Seq<TensorBatchRowView>,
    /// Batch rows covered once the tensor is complete.
    pub end: usize,
}

impl TensorWorkView {
    /// Whether the work belongs to a valid selector and a shape that meets it.
    pub open spec fn usable(self) -> bool {
        &&& self.selector.valid()
        &&& regular_shape(self.shape)
        &&& self.shape.row_elements == self.selector.row_elements
        &&& self.shape.rows <= self.selector.maximum_rows
        &&& self.rows.len() == self.shape.rows
        &&& self.shape.rows <= self.end
    }

    /// The capture that the finished work leaves behind.
    pub open spec fn capture(self, data: CapturedTensorDataView) -> TransactionalTensorCaptureView {
        TransactionalTensorCaptureView {
            name: self.selector.name,
            shape: self.shape,
            rows: self.rows,
            data,
        }
    }
}

/// A mutable tensor on its way through the handler.
#[verifier::ext_equal]
pub struct TensorEditView {
    /// The work that the edit belongs to.
    pub work: TensorWorkView,
    /// The owned values.
    pub values: Seq<Float32>,
    /// The values as they were read, kept where the tensor is retained.
    pub original: Option<Seq<Float32>>,
}

impl TensorEditView {
    /// Whether the edit holds every element of a mutable tensor.
    pub open spec fn usable(self) -> bool {
        &&& self.work.selector.access == TensorAccess::ReadWriteF32
        &&& self.values.len() == self.work.shape.elements
        &&& self.original is Some <==> self.work.selector.retain
        &&& self.original is Some ==> self.original->Some_0.len() == self.work.shape.elements
            && all_finite(self.original->Some_0)
    }
}

/// What the evaluation callback has to do next.
#[verifier::ext_equal]
pub enum TensorStepView {
    /// Answer the native side.
    Return(bool),
    /// Read the tensor.
    Read(TensorWorkView),
    /// Run the handler.
    Apply(TensorEditView),
    /// Write the complete edited tensor back.
    Write(TensorEditView),
}

/// How a handler run ended.
pub enum HandlerOutcomeView {
    /// The handler decided.
    Decided(TensorWriteback),
    /// The handler reported an error.
    Failed(Seq<char>),
    /// The handler unwound, with a text where its payload was one.
    Panicked(Option<Seq<char>>),
}

/// The state of a tensor program.
#[verifier::ext_equal]
pub struct TensorTransactionsView {
    /// Exact selector contracts.
    pub selectors: Seq<TensorSelectorView>,
    /// The attached handler, with whatever state it keeps.
    pub handler: Option<Box<dyn TensorTransactionHandler>>,
    /// Retained tensors of successful decodes since the last drain.
    pub captures: Seq<TransactionalTensorCaptureView>,
    /// Bytes that the captures hold.
    pub retained_bytes: usize,
    /// Retained tensors of the running decode.
    pub pending_captures: Seq<TransactionalTensorCaptureView>,
    /// Bytes that the pending captures hold.
    pub pending_retained_bytes: usize,
    /// Rows of the running decode.
    pub batch_rows: Seq<TensorBatchRowView>,
    /// Rows that each selected tensor has covered in the running decode.
    pub rows_seen: Map<Seq<char>, usize>,
    /// The first failure.
    pub failure: Option<TensorCallbackFailureView>,
    /// Whether a decode is running.
    pub decode_active: bool,
}

/// The first selector that did not cover every submitted row, with the rows it covered.
pub open spec fn first_uncovered(
    selectors: Seq<TensorSelectorView>,
    rows_seen: Map<Seq<char>, usize>,
    expected: nat,
) -> Option<(Seq<char>, usize)>
    decreases selectors.len(),
{
    if selectors.len() == 0 {
        None
    } else if covered_rows(rows_seen, selectors[0].name) != expected {
        Some((selectors[0].name, covered_rows(rows_seen, selectors[0].name)))
    } else {
        first_uncovered(selectors.drop_first(), rows_seen, expected)
    }
}

/// Rows that a tensor has covered; none where it was never seen.
pub open spec fn covered_rows(rows_seen: Map<Seq<char>, usize>, name: Seq<char>) -> usize {
    if rows_seen.contains_key(name) {
        rows_seen[name]
    } else {
        0
    }
}

/// The message for a selected tensor that did not cover every submitted row.
pub open spec fn coverage_message(rows: nat, expected: nat) -> Seq<char> {
    "selected tensor covered "@ + decimal(rows) + " rows but the decode submitted "@ + decimal(
        expected,
    )
}

impl TensorTransactionsView {
    /// What holds of every program at every moment.
    pub open spec fn well_formed(self) -> bool {
        &&& program_rejection(self.selectors, self.handler is Some) is None
        &&& forall|i: int| 0 <= i < self.selectors.len() ==> (#[trigger] self.selectors[i]).valid()
        &&& all_complete(self.captures)
        &&& all_complete(self.pending_captures)
        &&& all_wanted(self.selectors, self.captures)
        &&& all_wanted(self.selectors, self.pending_captures)
        &&& self.retained_bytes == retained(self.captures)
        &&& self.retained_bytes <= MAX_RETAINED_TENSOR_BYTES
        &&& self.failure is None ==> {
            &&& self.pending_retained_bytes == retained(self.pending_captures)
            &&& self.retained_bytes + self.pending_retained_bytes <= MAX_RETAINED_TENSOR_BYTES
        }
        &&& self.decode_active ==> 0 < self.batch_rows.len() <= MAX_TENSOR_ROWS
        &&& self.batch_rows.len() <= MAX_TENSOR_ROWS
    }

    /// A new program.
    pub open spec fn initial(
        selectors: Seq<TensorSelectorView>,
        handler: Option<Box<dyn TensorTransactionHandler>>,
    ) -> Self {
        TensorTransactionsView {
            selectors,
            handler,
            captures: Seq::empty(),
            retained_bytes: 0,
            pending_captures: Seq::empty(),
            pending_retained_bytes: 0,
            batch_rows: Seq::empty(),
            rows_seen: Map::empty(),
            failure: None,
            decode_active: false,
        }
    }

    /// The program after its captures were drained.
    pub open spec fn drained(self) -> Self {
        TensorTransactionsView { captures: Seq::empty(), retained_bytes: 0, ..self }
    }

    /// The program after a failure; the first failure stays.
    pub open spec fn failed(
        self,
        tensor: Option<Seq<char>>,
        panicked: bool,
        message: Seq<char>,
    ) -> Self {
        if self.failure is None {
            TensorTransactionsView {
                failure: Some(TensorCallbackFailureView::new(tensor, panicked, message)),
                ..self
            }
        } else {
            self
        }
    }

    /// The program without the staging of the running decode.
    pub open spec fn unstaged(self) -> Self {
        TensorTransactionsView {
            pending_captures: Seq::empty(),
            pending_retained_bytes: 0,
            ..self
        }
    }

    /// Starts a decode: its outcome and the program afterwards.
    pub open spec fn begin_decode(self, batch: NativeBatch) -> (
        Self,
        Result<(), TensorCallbackFailureView>,
    ) {
        if self.failure is Some {
            (self, Err(self.failure->Some_0))
        } else if self.decode_active {
            (
                self,
                Err(
                    TensorCallbackFailureView::new(
                        None,
                        false,
                        "tensor callback decode was already active"@,
                    ),
                ),
            )
        } else {
            let fresh = TensorTransactionsView { rows_seen: Map::empty(), ..self.unstaged() };
            match batch.rejection() {
                Some(message) => (
                    fresh,
                    Err(TensorCallbackFailureView::new(None, false, message)),
                ),
                None => (
                    TensorTransactionsView {
                        batch_rows: batch.rows(),
                        decode_active: true,
                        ..fresh
                    },
                    Ok(()),
                ),
            }
        }
    }

    /// The begin hook: the program afterwards and the answer to the native side.
    pub open spec fn decode_begin(self, batch: NativeBatch) -> (Self, bool) {
        let (begun, outcome) = self.begin_decode(batch);
        match outcome {
            Ok(()) => (begun, true),
            Err(failure) => (begun.failed(None, false, failure.display()), false),
        }
    }

    /// Ends a decode: its outcome and the program afterwards.
    pub open spec fn finish_decode(self, native_succeeded: bool) -> (
        Self,
        Result<(), TensorCallbackFailureView>,
    ) {
        let ended = TensorTransactionsView {
            decode_active: false,
            batch_rows: Seq::empty(),
            ..self
        };
        if self.failure is Some {
            (ended.unstaged(), Err(self.failure->Some_0))
        } else if !native_succeeded {
            (ended.unstaged(), Ok(()))
        } else {
            match first_uncovered(self.selectors, self.rows_seen, self.batch_rows.len()) {
                Some((name, rows)) => {
                    let message = coverage_message(rows as nat, self.batch_rows.len());
                    let failure = TensorCallbackFailureView::new(Some(name), false, message);
                    (
                        TensorTransactionsView { failure: Some(failure), ..ended.unstaged() },
                        Err(failure),
                    )
                },
                None => (
                    TensorTransactionsView {
                        captures: self.captures + self.pending_captures,
                        retained_bytes: (self.retained_bytes
                            + self.pending_retained_bytes) as usize,
                        ..ended.unstaged()
                    },
                    Ok(()),
                ),
            }
        }
    }

    /// The end hook: the program afterwards and the answer to the native side.
    pub open spec fn decode_end(self, native_succeeded: bool) -> (Self, bool) {
        let (ended, outcome) = self.finish_decode(native_succeeded);
        match outcome {
            Ok(()) => (ended, true),
            Err(failure) => (
                ended.failed(failure.tensor, failure.panicked, failure.message),
                false,
            ),
        }
    }

    /// Checks a selected tensor and assigns it the next rows of the batch.
    pub open spec fn plan(self, tensor: NativeTensor, selector: TensorSelectorView) -> Result<
        TensorWorkView,
        Seq<char>,
    > {
        let start = covered_rows(self.rows_seen, selector.name);
        let end = start + tensor.shape().rows;
        if tensor.mismatch(selector) is Some {
            Err(tensor.mismatch(selector)->Some_0)
        } else if end > usize::MAX {
            Err("tensor row mapping overflowed"@)
        } else if end > self.batch_rows.len() {
            Err("tensor rows exceed submitted decode batch"@)
        } else {
            Ok(
                TensorWorkView {
                    selector,
                    shape: tensor.shape(),
                    rows: self.batch_rows.subrange(start as int, end),
                    end: end as usize,
                },
            )
        }
    }

    /// The evaluation callback up to the first native access.
    pub open spec fn evaluate(self, tensor: NativeTensor, ask: bool) -> (Self, TensorStepView) {
        let name = until_nul(tensor.name@);
        if !self.decode_active {
            (
                self.failed(
                    None,
                    false,
                    "tensor evaluation callback ran outside a decode lifecycle"@,
                ),
                TensorStepView::Return(false),
            )
        } else if self.failure is Some {
            (self, TensorStepView::Return(false))
        } else if !valid_utf8(name) {
            (
                self.failed(None, false, "tensor name is not UTF-8: "@ + utf8_error_text(name)),
                TensorStepView::Return(false),
            )
        } else {
            match selector_named(self.selectors, decode_utf8(name)) {
                None => (self, TensorStepView::Return(false)),
                Some(selector) => if ask {
                    (self, TensorStepView::Return(true))
                } else {
                    match self.plan(tensor, selector) {
                        Ok(work) => (self, TensorStepView::Read(work)),
                        Err(message) => (
                            self.failed(Some(selector.name), false, message),
                            TensorStepView::Return(true),
                        ),
                    }
                },
            }
        }
    }

    /// Stages a capture: the program afterwards and the refusal, if any.
    pub open spec fn retain(self, capture: TransactionalTensorCaptureView) -> (
        Self,
        Option<Seq<char>>,
    ) {
        let pending = self.pending_retained_bytes + capture.bytes();
        let counted = TensorTransactionsView { pending_retained_bytes: pending as usize, ..self };
        if pending > usize::MAX {
            (self, Some("retained byte count overflowed"@))
        } else if self.retained_bytes + pending > usize::MAX {
            (counted, Some("retained byte count overflowed"@))
        } else if self.retained_bytes + pending > MAX_RETAINED_TENSOR_BYTES {
            (counted, Some("retained tensor bytes exceed the supported bound"@))
        } else {
            (
                TensorTransactionsView {
                    pending_captures: self.pending_captures.push(capture),
                    ..counted
                },
                None,
            )
        }
    }

    /// The program once the rows of a tensor are covered.
    pub open spec fn covering(self, work: TensorWorkView) -> Self {
        TensorTransactionsView {
            rows_seen: self.rows_seen.insert(work.selector.name, work.end),
            ..self
        }
    }

    /// Completes a tensor: retains its values where the selector asks for them and counts its
    /// rows.
    pub open spec fn complete(self, work: TensorWorkView, data: CapturedTensorDataView) -> (
        Self,
        TensorStepView,
    ) {
        if !work.selector.retain {
            (self.covering(work), TensorStepView::Return(true))
        } else {
            let (staged, refusal) = self.retain(work.capture(data));
            match refusal {
                None => (staged.covering(work), TensorStepView::Return(true)),
                Some(message) => (
                    staged.failed(Some(work.selector.name), false, message),
                    TensorStepView::Return(true),
                ),
            }
        }
    }

    /// Takes in the values of a single-precision tensor.
    pub open spec fn read_f32(self, work: TensorWorkView, values: Seq<Float32>) -> (
        Self,
        TensorStepView,
    ) {
        if !all_finite(values) {
            (
                self.failed(
                    Some(work.selector.name),
                    false,
                    "selected f32 tensor contains a non-finite value"@,
                ),
                TensorStepView::Return(true),
            )
        } else if work.selector.access == TensorAccess::ReadOnly {
            self.complete(work, CapturedTensorDataView::F32(values))
        } else if self.handler is None {
            (
                self.failed(
                    Some(work.selector.name),
                    false,
                    "mutable tensor handler is unavailable"@,
                ),
                TensorStepView::Return(true),
            )
        } else {
            let original = if work.selector.retain {
                Some(values)
            } else {
                None
            };
            (self, TensorStepView::Apply(TensorEditView { work, values, original }))
        }
    }

    /// Takes in the values of an integer tensor.
    pub open spec fn read_i32(self, work: TensorWorkView, values: Seq<i32>) -> (
        Self,
        TensorStepView,
    ) {
        self.complete(work, CapturedTensorDataView::I32(values))
    }

    /// Takes in the handler's decision.
    pub open spec fn handled(self, edit: TensorEditView, outcome: HandlerOutcomeView) -> (
        Self,
        TensorStepView,
    ) {
        let name = Some(edit.work.selector.name);
        match outcome {
            HandlerOutcomeView::Panicked(text) => {
                let message = match text {
                    Some(text) => text,
                    None => "tensor handler panicked"@,
                };
                (self.failed(name, true, message), TensorStepView::Return(true))
            },
            HandlerOutcomeView::Failed(message) => (
                self.failed(name, false, message),
                TensorStepView::Return(true),
            ),
            HandlerOutcomeView::Decided(TensorWriteback::Unchanged) => {
                let values = match edit.original {
                    Some(original) => original,
                    None => edit.values,
                };
                self.complete(edit.work, CapturedTensorDataView::F32(values))
            },
            HandlerOutcomeView::Decided(TensorWriteback::Commit) => if all_finite(edit.values) {
                (self, TensorStepView::Write(edit))
            } else {
                (
                    self.failed(name, false, "transaction produced a non-finite f32 value"@),
                    TensorStepView::Return(true),
                )
            },
        }
    }

    /// Takes in that the edited tensor was written back.
    pub open spec fn written(self, edit: TensorEditView) -> (Self, TensorStepView) {
        self.complete(edit.work, CapturedTensorDataView::F32(edit.values))
    }
}

} // verus!

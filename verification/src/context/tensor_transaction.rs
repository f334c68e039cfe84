//! Bounded, owned tensor capture and transactional mutation during decode.
//!
//! A [`TensorTransactions`] value is moved into the context parameters, and the resulting
//! context owns it for its complete native lifetime. Matching tensors are copied into owned
//! storage and optionally transformed. Mutable tensors are written back exactly once, only
//! after the handler returns successfully and every output value passes validation.

pub use crate::context::native::{
    NativeBatch,
    NativeBatchEntry,
    NativeTensor,
    TensorBatchRow,
    TensorShape,
};
pub use crate::context::tensor_failure::{TensorCallbackFailure, TensorTransactionError};
pub use crate::context::tensor_selector::{
    TensorAccess,
    TensorElementType,
    TensorRowMapping,
    TensorSelector,
    TensorWriteback,
    MAX_RETAINED_TENSOR_BYTES,
    MAX_TENSOR_ELEMENTS,
    MAX_TENSOR_NAME_BYTES,
    MAX_TENSOR_ROWS,
    MAX_TENSOR_SELECTORS,
};
pub use crate::message::MAX_TENSOR_FAILURE_BYTES;

use crate::context::native::{
    copy_batch_rows,
    copy_ids,
    copy_rows,
    copy_tensor_get,
    copy_tensor_set,
    row_views,
    validate_tensor,
};
use crate::context::tensor_failure::{
    optional_str,
    optional_text,
    TensorCallbackFailureView,
};
use crate::context::tensor_selector::{refused_with, TensorSelectorView, TENSOR_ELEMENT_BYTES};
use crate::context::transaction_model::{
    all_complete,
    canonical,
    covered_rows,
    coverage_message,
    first_uncovered,
    program_rejection,
    retained,
    selector_named,
    lemma_regular_shapes_have_elements,
    lemma_retained_concat,
    total_elements,
    wants_retained,
    CapturedTensorDataView,
    HandlerOutcomeView,
    TensorEditView,
    TensorStepView,
    TensorTransactionsView,
    TensorWorkView,
    TransactionalTensorCaptureView,
};
use crate::float32::{all_finite, are_all_finite, copy_floats, Float32};
use crate::message::{bounded_message, law_cutting_twice_changes_nothing};
use crate::name_map::NameMap;
use crate::names::{
    cut_at_nul,
    decode_utf8_name,
    law_name_order_is_strict_and_total,
    name_precedes,
    precedes,
    same_name,
    until_nul,
};
use crate::text::decimal_string;
use vstd::prelude::*;
use vstd::string::*;
use vstd::utf8::{decode_utf8, encode_utf8_decode_utf8};

verus! {

/// Typed owned tensor storage supplied to a callback.
pub enum TensorDataMut<'a> {
    /// Mutable finite single-precision storage.
    F32(&'a mut [Float32]),
    /// Mutable copied integer storage. Read-only selectors never commit changes.
    I32(&'a mut [i32]),
}

/// One owned tensor transaction presented synchronously to the handler.
pub struct TensorTransaction<'a> {
    /// Exact graph-node name.
    pub name: &'a str,
    /// Validated shape.
    pub shape: TensorShape,
    /// Exact logical rows represented by this native tensor.
    pub rows: &'a [TensorBatchRow],
    /// Native access granted by the selector.
    pub access: TensorAccess,
    /// Typed owned values.
    pub data: TensorDataMut<'a>,
}

/// Synchronous safe handler for selected tensor transactions.
pub trait TensorTransactionHandler: Send {
    /// Applies caller-defined mechanics to one owned tensor copy.
    ///
    /// For [`TensorAccess::ReadWriteF32`], successful finite output is written back exactly once
    /// after this method returns. Returning an error or unwinding causes no write-back. All that
    /// is relied on is that a slice keeps its length, as every mutable slice does.
    fn apply(&mut self, transaction: TensorTransaction<'_>) -> (result: Result<
        TensorWriteback,
        TensorTransactionError,
    >)
        ensures
            match transaction.data {
                TensorDataMut::F32(values) => final(values)@.len() == values@.len(),
                TensorDataMut::I32(values) => final(values)@.len() == values@.len(),
            },
    ;
}

/// Typed retained tensor storage.
#[derive(Debug, PartialEq)]
pub enum CapturedTensorData {
    /// Finite single-precision values.
    F32(Vec<Float32>),
    /// Signed integer values.
    I32(Vec<i32>),
}

impl View for CapturedTensorData {
    type V = CapturedTensorDataView;

    open spec fn view(&self) -> CapturedTensorDataView {
        match self {
            CapturedTensorData::F32(values) => CapturedTensorDataView::F32(values@),
            CapturedTensorData::I32(values) => CapturedTensorDataView::I32(values@),
        }
    }
}

impl CapturedTensorData {
    /// Returns the retained element count.
    pub fn len(&self) -> (count: usize)
        ensures
            count == self@.len(),
    {
        match self {
            CapturedTensorData::F32(values) => values.len(),
            CapturedTensorData::I32(values) => values.len(),
        }
    }

    /// Returns whether no elements are retained.
    pub fn is_empty(&self) -> (empty: bool)
        ensures
            empty == (self@.len() == 0),
    {
        self.len() == 0
    }
}

/// Complete retained typed tensor from one callback invocation.
#[derive(Debug, PartialEq)]
pub struct TransactionalTensorCapture {
    /// Exact graph-node name.
    pub name: String,
    /// Validated shape.
    pub shape: TensorShape,
    /// Exact logical batch rows.
    pub rows: Vec<TensorBatchRow>,
    /// Typed copied values after a successful handler invocation.
    pub data: CapturedTensorData,
}

impl View for TransactionalTensorCapture {
    type V = TransactionalTensorCaptureView;

    open spec fn view(&self) -> TransactionalTensorCaptureView {
        TransactionalTensorCaptureView {
            name: self.name@,
            shape: self.shape,
            rows: row_views(self.rows@),
            data: self.data@,
        }
    }
}

impl Clone for CapturedTensorData {
    fn clone(&self) -> (copy: Self)
        ensures
            copy@ == self@,
    {
        match self {
            CapturedTensorData::F32(values) => CapturedTensorData::F32(copy_floats(values)),
            CapturedTensorData::I32(values) => CapturedTensorData::I32(copy_ids(values)),
        }
    }
}

impl Clone for TransactionalTensorCapture {
    fn clone(&self) -> (copy: Self)
        ensures
            copy@ == self@,
    {
        let rows = copy_rows(&self.rows, 0, self.rows.len());
        assert(row_views(rows@) =~= row_views(self.rows@));
        TransactionalTensorCapture {
            name: self.name.clone(),
            shape: self.shape,
            rows,
            data: self.data.clone(),
        }
    }
}

/// The contents of a list of captures.
pub open spec fn capture_views(captures: Seq<TransactionalTensorCapture>) -> Seq<
    TransactionalTensorCaptureView,
> {
    Seq::new(captures.len(), |i: int| captures[i]@)
}

/// The contents of a list of selectors.
pub open spec fn selector_views(selectors: Seq<TensorSelector>) -> Seq<TensorSelectorView> {
    Seq::new(selectors.len(), |i: int| selectors[i]@)
}

/// The content of an optional failure.
pub open spec fn failure_view(failure: Option<TensorCallbackFailure>) -> Option<
    TensorCallbackFailureView,
> {
    match failure {
        Some(failure) => Some(failure@),
        None => None,
    }
}

/// One selected tensor that was checked and may be read.
pub struct TensorWork {
    selector: TensorSelector,
    shape: TensorShape,
    rows: Vec<TensorBatchRow>,
    end: usize,
    bytes: usize,
}

impl View for TensorWork {
    type V = TensorWorkView;

    closed spec fn view(&self) -> TensorWorkView {
        TensorWorkView {
            selector: self.selector@,
            shape: self.shape,
            rows: row_views(self.rows@),
            end: self.end,
        }
    }
}

impl TensorWork {
    #[verifier::type_invariant]
    spec fn checked(self) -> bool {
        &&& self@.usable()
        &&& self.bytes == self.shape.elements * TENSOR_ELEMENT_BYTES
    }

    /// Returns the representation to read.
    pub fn element_type(&self) -> (element_type: TensorElementType)
        ensures
            element_type == self@.selector.element_type,
    {
        self.selector.element_type()
    }

    /// Returns the number of elements to read.
    pub fn elements(&self) -> (elements: usize)
        ensures
            elements == self@.shape.elements,
            0 < elements <= MAX_TENSOR_ELEMENTS,
    {
        proof {
            use_type_invariant(self);
            lemma_regular_shapes_have_elements(self.shape);
        }
        self.shape.elements
    }

    /// Returns the number of bytes to read.
    pub fn byte_size(&self) -> (bytes: usize)
        ensures
            bytes == self@.shape.elements * TENSOR_ELEMENT_BYTES,
    {
        proof {
            use_type_invariant(self);
        }
        self.bytes
    }
}

/// A mutable tensor on its way through the handler.
pub struct TensorEdit {
    work: TensorWork,
    values: Vec<Float32>,
    original: Option<Vec<Float32>>,
}

impl View for TensorEdit {
    type V = TensorEditView;

    closed spec fn view(&self) -> TensorEditView {
        TensorEditView {
            work: self.work@,
            values: self.values@,
            original: match self.original {
                Some(original) => Some(original@),
                None => None,
            },
        }
    }
}

impl TensorEdit {
    /// Returns the owned values.
    pub fn values(&self) -> (values: &[Float32])
        ensures
            values@ == self@.values,
    {
        self.values.as_slice()
    }

    /// Presents the edit to a handler: the selector's name and access, the shape, the logical
    /// rows and the owned values. What the handler leaves in the values is left in the edit.
    pub fn transaction(&mut self) -> (transaction: TensorTransaction<'_>)
        ensures
            transaction.name@ == old(self)@.work.selector.name,
            transaction.shape == old(self)@.work.shape,
            row_views(transaction.rows@) == old(self)@.work.rows,
            transaction.access == old(self)@.work.selector.access,
            transaction.data matches TensorDataMut::F32(values) && values@ == old(self)@.values
                && final(self)@ == (TensorEditView { values: final(values)@, ..old(self)@ }),
    {
        TensorTransaction {
            name: self.work.selector.name(),
            shape: self.work.shape,
            rows: self.work.rows.as_slice(),
            access: self.work.selector.access(),
            data: TensorDataMut::F32(self.values.as_mut_slice()),
        }
    }

    /// Returns the number of bytes to write.
    pub fn byte_size(&self) -> (bytes: usize)
        ensures
            bytes == self@.work.shape.elements * TENSOR_ELEMENT_BYTES,
    {
        self.work.byte_size()
    }
}

/// What the evaluation callback has to do next.
pub enum TensorStep {
    /// Answer the native side.
    Return(bool),
    /// Read the tensor and hand its values in.
    Read(TensorWork),
    /// Run the handler and hand its outcome in.
    Apply(TensorEdit),
    /// Write the values back to the native tensor, then say so.
    Write(TensorEdit),
}

impl View for TensorStep {
    type V = TensorStepView;

    open spec fn view(&self) -> TensorStepView {
        match self {
            TensorStep::Return(answer) => TensorStepView::Return(*answer),
            TensorStep::Read(work) => TensorStepView::Read(work@),
            TensorStep::Apply(edit) => TensorStepView::Apply(edit@),
            TensorStep::Write(edit) => TensorStepView::Write(edit@),
        }
    }
}

/// Whether a handler, run on a transaction, may give this answer.
pub open spec fn answers<T: TensorTransactionHandler + ?Sized>(
    handler: &mut T,
    transaction: TensorTransaction<'_>,
    result: Result<TensorWriteback, TensorTransactionError>,
) -> bool {
    call_ensures(T::apply, (handler, transaction), result)
}

/// Runs a handler on the transaction of an edit.
fn present<T: TensorTransactionHandler + ?Sized>(handler: &mut T, edit: &mut TensorEdit) -> (result:
    Result<TensorWriteback, TensorTransactionError>)
    ensures
        final(edit)@ == (TensorEditView { values: final(edit)@.values, ..old(edit)@ }),
        final(edit)@.values.len() == old(edit)@.values.len(),
        exists|run: &mut T, transaction: TensorTransaction<'_>|
            {
                &&& #[trigger] answers(run, transaction, result)
                &&& &*run == &*old(handler)
                &&& &*final(run) == &*final(handler)
                &&& transaction.name@ == old(edit)@.work.selector.name
                &&& transaction.shape == old(edit)@.work.shape
                &&& row_views(transaction.rows@) == old(edit)@.work.rows
                &&& transaction.access == old(edit)@.work.selector.access
                &&& transaction.data matches TensorDataMut::F32(values) && values@ == old(edit)@.values && final(values)@ == final(edit)@.values
            },
{
    let transaction = edit.transaction();
    let ghost presented = transaction;
    let result = handler.apply(transaction);
    proof {
        let run = choose|run: &mut T| #[trigger]
            call_ensures(T::apply, (run, presented), result) && &*run == &*old(handler)
                && &*final(run) == &*handler;
        assert(answers(run, presented, result));
    }
    result
}

/// How a handler run ended.
pub enum HandlerOutcome {
    /// The handler returned.
    Returned(Result<TensorWriteback, TensorTransactionError>),
    /// The handler unwound, with a text where its payload was one.
    Panicked(Option<String>),
}

impl View for HandlerOutcome {
    type V = HandlerOutcomeView;

    open spec fn view(&self) -> HandlerOutcomeView {
        match self {
            HandlerOutcome::Returned(Ok(writeback)) => HandlerOutcomeView::Decided(*writeback),
            HandlerOutcome::Returned(Err(error)) => HandlerOutcomeView::Failed(error@),
            HandlerOutcome::Panicked(text) => HandlerOutcomeView::Panicked(optional_text(*text)),
        }
    }
}

/// A handler as a program holds it.
pub open spec fn attached<T: TensorTransactionHandler + 'static>(handler: T) -> Option<
    Box<dyn TensorTransactionHandler>,
> {
    Some(Box::new(handler))
}

/// Owned, bounded callback program attached to one context.
pub struct TensorTransactions {
    selectors: Vec<TensorSelector>,
    handler: Option<Box<dyn TensorTransactionHandler>>,
    captures: Vec<TransactionalTensorCapture>,
    retained_bytes: usize,
    pending_captures: Vec<TransactionalTensorCapture>,
    pending_retained_bytes: usize,
    batch_rows: Vec<TensorBatchRow>,
    rows_seen: NameMap<usize>,
    failure: Option<TensorCallbackFailure>,
    decode_active: bool,
}

impl View for TensorTransactions {
    type V = TensorTransactionsView;

    closed spec fn view(&self) -> TensorTransactionsView {
        TensorTransactionsView {
            selectors: selector_views(self.selectors@),
            handler: self.handler,
            captures: capture_views(self.captures@),
            retained_bytes: self.retained_bytes,
            pending_captures: capture_views(self.pending_captures@),
            pending_retained_bytes: self.pending_retained_bytes,
            batch_rows: row_views(self.batch_rows@),
            rows_seen: self.rows_seen@,
            failure: failure_view(self.failure),
            decode_active: self.decode_active,
        }
    }
}

proof fn lemma_total_elements(selectors: Seq<TensorSelectorView>, k: int)
    requires
        0 <= k <= selectors.len(),
        forall|i: int| 0 <= i < k ==> (#[trigger] selectors[i]).valid(),
    ensures
        0 <= total_elements(selectors.take(k)) <= k * MAX_TENSOR_ELEMENTS,
        k > 0 ==> total_elements(selectors.take(k)) == total_elements(selectors.take(k - 1))
            + selectors[k - 1].element_bound(),
    decreases k,
{
    if k > 0 {
        assert(selectors.take(k).drop_last() =~= selectors.take(k - 1));
        lemma_total_elements(selectors, k - 1);
        let last = selectors[k - 1];
        assert(last.valid());
        assert(last.element_bound() >= 0) by (nonlinear_arith)
            requires
                last.element_bound() == last.row_elements * last.maximum_rows,
        ;
    }
}

/// The search for a tensor that did not cover every row ends at the first one, or finds none.
pub proof fn lemma_first_uncovered(
    selectors: Seq<TensorSelectorView>,
    rows_seen: Map<Seq<char>, usize>,
    expected: nat,
    k: int,
)
    requires
        0 <= k <= selectors.len(),
        forall|i: int|
            0 <= i < k ==> covered_rows(rows_seen, (#[trigger] selectors[i]).name) == expected,
    ensures
        k < selectors.len() && covered_rows(rows_seen, selectors[k].name) != expected
            ==> first_uncovered(selectors, rows_seen, expected) == Some(
            (selectors[k].name, covered_rows(rows_seen, selectors[k].name)),
        ),
        k == selectors.len() ==> first_uncovered(selectors, rows_seen, expected) is None,
    decreases k,
{
    if k > 0 {
        assert(covered_rows(rows_seen, selectors[0].name) == expected);
        let rest = selectors.drop_first();
        assert forall|i: int| 0 <= i < k - 1 implies covered_rows(
            rows_seen,
            (#[trigger] rest[i]).name,
        ) == expected by {
            assert(rest[i] == selectors[i + 1]);
        }
        lemma_first_uncovered(rest, rows_seen, expected, k - 1);
    }
}

proof fn lemma_selector_named(selectors: Seq<TensorSelectorView>, name: Seq<char>, k: int)
    requires
        0 <= k < selectors.len(),
        selectors[k].name == name,
        canonical(selectors),
    ensures
        selector_named(selectors, name) == Some(selectors[k]),
    decreases k,
{
    if k > 0 {
        assert(name_precedes(selectors[0].name, selectors[k].name));
        law_name_order_is_strict_and_total(selectors[0].name, selectors[k].name, name);
        let rest = selectors.drop_first();
        assert(rest[k - 1] == selectors[k]);
        assert forall|i: int, j: int| 0 <= i < j < rest.len() implies name_precedes(
            #[trigger] rest[i].name,
            #[trigger] rest[j].name,
        ) by {
            assert(rest[i] == selectors[i + 1]);
            assert(rest[j] == selectors[j + 1]);
        }
        lemma_selector_named(rest, name, k - 1);
    }
}

/// No selector is found under a name that none carries.
pub proof fn lemma_no_selector_named(selectors: Seq<TensorSelectorView>, name: Seq<char>)
    requires
        forall|i: int| 0 <= i < selectors.len() ==> (#[trigger] selectors[i]).name != name,
    ensures
        selector_named(selectors, name) is None,
    decreases selectors.len(),
{
    if selectors.len() > 0 {
        let rest = selectors.drop_first();
        assert forall|i: int| 0 <= i < rest.len() implies (#[trigger] rest[i]).name != name by {
            assert(rest[i] == selectors[i + 1]);
        }
        lemma_no_selector_named(rest, name);
    }
}

impl TensorTransactions {
    /// Whether the program is in a state that its operations lead to.
    pub open spec fn wf(self) -> bool {
        &&& self@.well_formed()
        &&& self.counts_each_name_once()
    }

    /// Whether the row counts hold no name twice.
    pub closed spec fn counts_each_name_once(self) -> bool {
        self.rows_seen.wf()
    }

    /// Constructs a read-only capture program.
    ///
    /// Empty, excessive, duplicate, unordered, mutable and collectively over-bound selectors are
    /// refused.
    pub fn capture(selectors: Vec<TensorSelector>) -> (result: Result<Self, TensorTransactionError>)
        ensures
            refused_with(result, program_rejection(selector_views(selectors@), false)),
            result matches Ok(program) ==> program.wf() && program@
                == TensorTransactionsView::initial(selector_views(selectors@), None),
    {
        TensorTransactions::build(selectors, None)
    }

    /// Constructs a capture and mutation program with one synchronous handler.
    ///
    /// Empty, excessive, duplicate, unordered and collectively over-bound selectors are refused,
    /// and so is a set without a mutable selector.
    pub fn new(
        selectors: Vec<TensorSelector>,
        handler: impl TensorTransactionHandler + 'static,
    ) -> (result: Result<Self, TensorTransactionError>)
        ensures
            refused_with(result, program_rejection(selector_views(selectors@), true)),
            result matches Ok(program) ==> program.wf() && program@
                == TensorTransactionsView::initial(selector_views(selectors@), attached(handler)),
    {
        let ghost given = handler;
        let boxed: Option<Box<dyn TensorTransactionHandler>> = Some(Box::new(handler));
        assert(boxed == attached(given));
        TensorTransactions::build(selectors, boxed)
    }

    fn build(
        selectors: Vec<TensorSelector>,
        handler: Option<Box<dyn TensorTransactionHandler>>,
    ) -> (result: Result<Self, TensorTransactionError>)
        ensures
            refused_with(
                result,
                program_rejection(selector_views(selectors@), handler is Some),
            ),
            result matches Ok(program) ==> program.wf() && program@
                == TensorTransactionsView::initial(selector_views(selectors@), handler),
    {
        let ghost views = selector_views(selectors@);
        if selectors.len() == 0 || selectors.len() > MAX_TENSOR_SELECTORS {
            return Err(TensorTransactionError::new("selector count is outside the supported bound"));
        }
        let mut total: usize = 0;
        let mut mutable = false;
        let mut i: usize = 0;
        while i < selectors.len()
            invariant
                i <= selectors.len() <= MAX_TENSOR_SELECTORS,
                views == selector_views(selectors@),
                forall|j: int| 0 <= j < i ==> (#[trigger] views[j]).valid(),
                canonical(views.take(i as int)),
                total == total_elements(views.take(i as int)),
                mutable == exists|j: int|
                    0 <= j < i && (#[trigger] views[j]).access == TensorAccess::ReadWriteF32,
            decreases selectors.len() - i,
        {
            let selector = &selectors[i];
            match selector.validate() {
                Ok(()) => {},
                Err(error) => return Err(error),
            }
            assert(views[i as int] == selector@);
            if i > 0 && !precedes(selectors[i - 1].name(), selector.name()) {
                proof {
                    assert(views[i - 1].name == selectors@[i - 1]@.name);
                    assert(!name_precedes(views[i - 1].name, views[i as int].name));
                    assert(!canonical(views));
                }
                return Err(
                    TensorTransactionError::new(
                        "selectors must have unique canonically ordered names",
                    ),
                );
            }
            proof {
                let longer = views.take(i + 1);
                assert forall|a: int, b: int| 0 <= a < b < longer.len() implies name_precedes(
                    #[trigger] longer[a].name,
                    #[trigger] longer[b].name,
                ) by {
                    if b < i {
                        assert(views.take(i as int)[a] == longer[a]);
                        assert(views.take(i as int)[b] == longer[b]);
                    } else if a < i - 1 {
                        assert(views.take(i as int)[a] == longer[a]);
                        assert(views.take(i as int)[i - 1] == longer[i - 1]);
                        assert(name_precedes(longer[a].name, longer[i - 1].name));
                        law_name_order_is_strict_and_total(
                            longer[a].name,
                            longer[i - 1].name,
                            longer[b].name,
                        );
                    }
                }
                lemma_total_elements(views, i + 1);
                lemma_total_elements(views, i as int);
                assert(selector@.element_bound() <= MAX_TENSOR_ELEMENTS);
            }
            if selector.access() == TensorAccess::ReadWriteF32 {
                mutable = true;
            }
            let elements: usize = match selector.row_elements().checked_mul(
                selector.maximum_rows(),
            ) {
                Some(elements) => elements,
                None => return Err(TensorTransactionError::new("selector element bound overflowed")),
            };
            total =
            match total.checked_add(elements) {
                Some(total) => total,
                None => return Err(
                    TensorTransactionError::new("total selector element bound overflowed"),
                ),
            };
            i = i + 1;
        }
        assert(views.take(views.len() as int) =~= views);
        if total > MAX_TENSOR_ELEMENTS {
            return Err(TensorTransactionError::new("total selector element bound is excessive"));
        }
        if mutable && handler.is_none() {
            return Err(
                TensorTransactionError::new("mutable selectors require a transaction handler"),
            );
        }
        if !mutable && handler.is_some() {
            return Err(
                TensorTransactionError::new(
                    "a transaction handler requires at least one mutable selector",
                ),
            );
        }
        let program = TensorTransactions {
            selectors,
            handler,
            captures: Vec::new(),
            retained_bytes: 0,
            pending_captures: Vec::new(),
            pending_retained_bytes: 0,
            batch_rows: Vec::new(),
            rows_seen: NameMap::new(),
            failure: None,
            decode_active: false,
        };
        assert(program@ =~= TensorTransactionsView::initial(views, handler));
        Ok(program)
    }

    /// Returns exact selector contracts.
    pub fn selectors(&self) -> (selectors: &[TensorSelector])
        ensures
            selector_views(selectors@) == self@.selectors,
    {
        self.selectors.as_slice()
    }

    /// Returns successful retained tensors accumulated since the last drain.
    ///
    /// A native speculative operation may perform several internal decodes. Each decode commits
    /// its retained tensors only after its lifecycle and selector coverage complete successfully.
    pub fn captures(&self) -> (captures: &[TransactionalTensorCapture])
        ensures
            capture_views(captures@) == self@.captures,
            self.wf() ==> all_complete(capture_views(captures@)),
    {
        self.captures.as_slice()
    }

    /// Removes retained tensors accumulated since the previous drain.
    pub fn take_captures(&mut self) -> (captures: Vec<TransactionalTensorCapture>)
        requires
            old(self).wf(),
        ensures
            final(self).wf(),
            final(self)@ == old(self)@.drained(),
            capture_views(captures@) == old(self)@.captures,
            all_complete(capture_views(captures@)),
    {
        self.retained_bytes = 0;
        let mut captures: Vec<TransactionalTensorCapture> = Vec::new();
        std::mem::swap(&mut captures, &mut self.captures);
        assert(self@ =~= old(self)@.drained());
        captures
    }

    /// Returns the contained failure from the most recent decode.
    pub fn failure(&self) -> (failure: Option<&TensorCallbackFailure>)
        ensures
            match failure {
                Some(failure) => self@.failure == Some(failure@),
                None => self@.failure is None,
            },
    {
        self.failure.as_ref()
    }

    /// Returns whether a decode is running.
    pub fn decode_active(&self) -> (active: bool)
        ensures
            active == self@.decode_active,
    {
        self.decode_active
    }

    /// Records a failure unless one is recorded already.
    pub fn record_failure(&mut self, tensor: Option<&str>, panicked: bool, message: &str)
        requires
            old(self).wf(),
        ensures
            final(self).wf(),
            final(self)@ == old(self)@.failed(optional_str(tensor), panicked, message@),
    {
        if self.failure.is_none() {
            self.failure = Some(TensorCallbackFailure::new(tensor, panicked, message));
        }
    }

    /// Starts a decode over the rows of a batch.
    pub fn begin_decode(&mut self, batch: &NativeBatch) -> (result: Result<
        (),
        TensorCallbackFailure,
    >)
        requires
            old(self).wf(),
            batch.complete(),
        ensures
            final(self).wf(),
            final(self)@ == old(self)@.begin_decode(*batch).0,
            match result {
                Ok(()) => old(self)@.begin_decode(*batch).1 is Ok,
                Err(failure) => old(self)@.begin_decode(*batch).1 == Err::<
                    (),
                    TensorCallbackFailureView,
                >(failure@),
            },
    {
        match &self.failure {
            Some(failure) => return Err(failure.clone()),
            None => {},
        }
        if self.decode_active {
            return Err(
                TensorCallbackFailure::new(
                    None,
                    false,
                    "tensor callback decode was already active",
                ),
            );
        }
        self.pending_captures.clear();
        self.pending_retained_bytes = 0;
        self.rows_seen.clear();
        assert(self@.pending_captures =~= Seq::empty());
        match copy_batch_rows(batch) {
            Ok(rows) => {
                self.batch_rows = rows;
                self.decode_active = true;
                Ok(())
            },
            Err(failure) => Err(failure),
        }
    }

    /// The begin hook: starts a decode and answers whether it may go on.
    pub fn decode_begin(&mut self, batch: &NativeBatch) -> (proceed: bool)
        requires
            old(self).wf(),
            batch.complete(),
        ensures
            final(self).wf(),
            final(self)@ == old(self)@.decode_begin(*batch).0,
            proceed == old(self)@.decode_begin(*batch).1,
    {
        match self.begin_decode(batch) {
            Ok(()) => true,
            Err(failure) => {
                let message = failure.to_string();
                self.record_failure(None, false, message.as_str());
                false
            },
        }
    }

    fn discard_staging(&mut self)
        ensures
            final(self)@ == old(self)@.unstaged(),
            final(self).rows_seen == old(self).rows_seen,
    {
        self.pending_captures.clear();
        self.pending_retained_bytes = 0;
        assert(self@ =~= old(self)@.unstaged());
    }

    fn rows_covered(&self, name: &str) -> (rows: usize)
        requires
            self.rows_seen.wf(),
        ensures
            rows == covered_rows(self@.rows_seen, name@),
    {
        match self.rows_seen.get(name) {
            Some(rows) => *rows,
            None => 0,
        }
    }

    /// Ends a decode. Its retained tensors are committed only where the native decode succeeded
    /// and every selected tensor covered every submitted row.
    pub fn finish_decode(&mut self, native_succeeded: bool) -> (result: Result<
        (),
        TensorCallbackFailure,
    >)
        requires
            old(self).wf(),
        ensures
            final(self).wf(),
            final(self)@ == old(self)@.finish_decode(native_succeeded).0,
            match result {
                Ok(()) => old(self)@.finish_decode(native_succeeded).1 is Ok,
                Err(failure) => old(self)@.finish_decode(native_succeeded).1 == Err::<
                    (),
                    TensorCallbackFailureView,
                >(failure@),
            },
    {
        self.decode_active = false;
        let expected_rows: usize = self.batch_rows.len();
        self.batch_rows.clear();
        let ghost ended = TensorTransactionsView {
            decode_active: false,
            batch_rows: Seq::empty(),
            ..old(self)@
        };
        assert(self@ =~= ended);
        if self.failure.is_some() {
            self.discard_staging();
            match &self.failure {
                Some(failure) => return Err(failure.clone()),
                None => {},
            }
        }
        if !native_succeeded {
            self.discard_staging();
            return Ok(());
        }
        let mut i: usize = 0;
        while i < self.selectors.len()
            invariant
                i <= self.selectors.len(),
                old(self).wf(),
                self.rows_seen.wf(),
                self@ == ended,
                ended == (TensorTransactionsView {
                    decode_active: false,
                    batch_rows: Seq::empty(),
                    ..old(self)@
                }),
                self@.failure is None,
                expected_rows == old(self)@.batch_rows.len(),
                native_succeeded,
                forall|j: int|
                    0 <= j < i ==> covered_rows(
                        self@.rows_seen,
                        (#[trigger] self@.selectors[j]).name,
                    ) == expected_rows,
            decreases self.selectors.len() - i,
        {
            let selector = &self.selectors[i];
            let rows: usize = self.rows_covered(selector.name());
            let complete = match selector.row_mapping() {
                TensorRowMapping::BatchTokens => rows == expected_rows,
            };
            proof {
                assert(self@.selectors[i as int] == selector@);
                lemma_first_uncovered(
                    self@.selectors,
                    self@.rows_seen,
                    expected_rows as nat,
                    i as int,
                );
            }
            if !complete {
                let mut message = "selected tensor covered ".to_owned();
                message.append(decimal_string(rows as u64).as_str());
                message.append(" rows but the decode submitted ");
                message.append(decimal_string(expected_rows as u64).as_str());
                assert(message@ =~= coverage_message(rows as nat, expected_rows as nat));
                let failure = TensorCallbackFailure::new(
                    Some(selector.name()),
                    false,
                    message.as_str(),
                );
                self.failure = Some(failure.clone());
                self.discard_staging();
                return Err(failure);
            }
            i = i + 1;
        }
        proof {
            lemma_first_uncovered(
                self@.selectors,
                self@.rows_seen,
                expected_rows as nat,
                self.selectors@.len() as int,
            );
            lemma_retained_concat(self@.captures, self@.pending_captures);
        }
        self.retained_bytes = self.retained_bytes + self.pending_retained_bytes;
        let ghost captures = self.captures@;
        let ghost pending = self.pending_captures@;
        self.captures.append(&mut self.pending_captures);
        self.pending_retained_bytes = 0;
        assert(capture_views(captures + pending) =~= capture_views(captures) + capture_views(
            pending,
        ));
        assert(self@ =~= old(self)@.finish_decode(native_succeeded).0);
        Ok(())
    }

    /// The end hook: ends a decode and answers whether its results stand.
    pub fn decode_end(&mut self, native_succeeded: bool) -> (accepted: bool)
        requires
            old(self).wf(),
        ensures
            final(self).wf(),
            final(self)@ == old(self)@.decode_end(native_succeeded).0,
            accepted == old(self)@.decode_end(native_succeeded).1,
    {
        match self.finish_decode(native_succeeded) {
            Ok(()) => true,
            Err(failure) => {
                self.record_failure(failure.tensor(), failure.panicked(), failure.message());
                false
            },
        }
    }

    /// Finds the selector of a graph-node name.
    pub fn selected(&self, name: &str) -> (found: Option<usize>)
        requires
            self.wf(),
        ensures
            match found {
                Some(i) => {
                    &&& i < self@.selectors.len()
                    &&& self@.selectors[i as int].name == name@
                    &&& selector_named(self@.selectors, name@) == Some(self@.selectors[i as int])
                },
                None => selector_named(self@.selectors, name@) is None,
            },
    {
        let mut low: usize = 0;
        let mut high: usize = self.selectors.len();
        while low < high
            invariant
                low <= high <= self.selectors.len(),
                self.wf(),
                forall|i: int|
                    0 <= i < low ==> name_precedes((#[trigger] self@.selectors[i]).name, name@),
                forall|i: int|
                    high <= i < self@.selectors.len() ==> name_precedes(
                        name@,
                        (#[trigger] self@.selectors[i]).name,
                    ),
            decreases high - low,
        {
            let middle: usize = low + (high - low) / 2;
            let candidate = self.selectors[middle].name();
            assert(self@.selectors[middle as int].name == candidate@);
            if same_name(candidate, name) {
                proof {
                    lemma_selector_named(self@.selectors, name@, middle as int);
                }
                return Some(middle);
            }
            if precedes(candidate, name) {
                proof {
                    assert forall|i: int| 0 <= i < middle + 1 implies name_precedes(
                        (#[trigger] self@.selectors[i]).name,
                        name@,
                    ) by {
                        if i < middle {
                            assert(name_precedes(
                                self@.selectors[i].name,
                                self@.selectors[middle as int].name,
                            ));
                            law_name_order_is_strict_and_total(
                                self@.selectors[i].name,
                                candidate@,
                                name@,
                            );
                        }
                    }
                }
                low = middle + 1;
            } else {
                proof {
                    law_name_order_is_strict_and_total(candidate@, name@, name@);
                    assert forall|i: int| middle <= i < self@.selectors.len() implies name_precedes(
                        name@,
                        (#[trigger] self@.selectors[i]).name,
                    ) by {
                        if i > middle {
                            assert(name_precedes(
                                self@.selectors[middle as int].name,
                                self@.selectors[i].name,
                            ));
                            law_name_order_is_strict_and_total(
                                name@,
                                candidate@,
                                self@.selectors[i].name,
                            );
                        }
                    }
                }
                high = middle;
            }
        }
        proof {
            assert forall|i: int| 0 <= i < self@.selectors.len() implies (
            #[trigger] self@.selectors[i]).name != name@ by {
                law_name_order_is_strict_and_total(name@, name@, name@);
            }
            lemma_no_selector_named(self@.selectors, name@);
        }
        None
    }

    /// Checks a selected tensor and assigns it the next rows of the batch.
    fn plan(&self, tensor: &NativeTensor, index: usize) -> (result: Result<
        TensorWork,
        TensorTransactionError,
    >)
        requires
            self.wf(),
            index < self@.selectors.len(),
        ensures
            match self@.plan(*tensor, self@.selectors[index as int]) {
                Ok(work) => result is Ok && result->Ok_0@ == work,
                Err(message) => result is Err && result->Err_0@ == bounded_message(message),
            },
    {
        let selector = self.selectors[index].clone();
        assert(self@.selectors[index as int] == selector@);
        let shape = match validate_tensor(Some(tensor), &selector) {
            Ok(shape) => shape,
            Err(error) => return Err(error),
        };
        let start: usize = match selector.row_mapping() {
            TensorRowMapping::BatchTokens => self.rows_covered(selector.name()),
        };
        let end: usize = match start.checked_add(shape.rows) {
            Some(end) => end,
            None => return Err(TensorTransactionError::new("tensor row mapping overflowed")),
        };
        if end > self.batch_rows.len() {
            return Err(TensorTransactionError::new("tensor rows exceed submitted decode batch"));
        }
        let rows = copy_rows(&self.batch_rows, start, end);
        proof {
            assert(self@.selectors[index as int].valid());
            lemma_regular_shapes_have_elements(shape);
        }
        let bytes: usize = match copy_tensor_get(shape.elements) {
            Ok(bytes) => bytes,
            Err(error) => return Err(error),
        };
        assert(row_views(rows@).len() == shape.rows);
        Ok(TensorWork { selector, shape, rows, end, bytes })
    }

    /// Records an error that names a selected tensor.
    fn record_error(&mut self, name: &str, error: &TensorTransactionError, Ghost(message): Ghost<
        Seq<char>,
    >)
        requires
            old(self).wf(),
            error@ == bounded_message(message),
        ensures
            final(self).wf(),
            final(self)@ == old(self)@.failed(Some(name@), false, message),
    {
        proof {
            law_cutting_twice_changes_nothing(message, MAX_TENSOR_FAILURE_BYTES as nat);
        }
        let text = error.to_string();
        self.record_failure(Some(name), false, text.as_str());
    }

    /// The evaluation callback up to the first native access. While the native side asks, the
    /// answer says whether the node is wanted; afterwards the node's data is ready to be read.
    pub fn evaluate(&mut self, tensor: &NativeTensor, ask: bool) -> (step: TensorStep)
        requires
            old(self).wf(),
        ensures
            final(self).wf(),
            final(self)@ == old(self)@.evaluate(*tensor, ask).0,
            step@ == old(self)@.evaluate(*tensor, ask).1,
            step matches TensorStep::Read(work) ==> final(self)@.selectors.contains(
                work@.selector,
            ),
    {
        if !self.decode_active {
            self.record_failure(
                None,
                false,
                "tensor evaluation callback ran outside a decode lifecycle",
            );
            return TensorStep::Return(false);
        }
        if self.failure.is_some() {
            // No more callbacks are requested, so that the scheduler can finish the remaining
            // graph alone.
            return TensorStep::Return(false);
        }
        let name = match decode_utf8_name(cut_at_nul(tensor.name.as_slice())) {
            Ok(name) => name,
            Err(error) => {
                let mut message = "tensor name is not UTF-8: ".to_owned();
                message.append(error.as_str());
                self.record_failure(None, false, message.as_str());
                return TensorStep::Return(false);
            },
        };
        proof {
            encode_utf8_decode_utf8(name@);
            assert(decode_utf8(until_nul(tensor.name@)) == name@);
        }
        let index: usize = match self.selected(name.as_str()) {
            Some(index) => index,
            None => return TensorStep::Return(false),
        };
        if ask {
            return TensorStep::Return(true);
        }
        match self.plan(tensor, index) {
            Ok(work) => TensorStep::Read(work),
            Err(error) => {
                let ghost message = self@.plan(*tensor, self@.selectors[index as int])->Err_0;
                self.record_error(name.as_str(), &error, Ghost(message));
                TensorStep::Return(true)
            },
        }
    }

    /// Stages a retained tensor of the running decode.
    fn retain(
        &mut self,
        name: String,
        shape: TensorShape,
        rows: Vec<TensorBatchRow>,
        data: CapturedTensorData,
    ) -> (result: Result<(), TensorTransactionError>)
        requires
            old(self).wf(),
            wants_retained(old(self)@.selectors, name@),
            (TransactionalTensorCaptureView {
                name: name@,
                shape,
                rows: row_views(rows@),
                data: data@,
            }).complete(),
        ensures
            ({
                let capture = TransactionalTensorCaptureView {
                    name: name@,
                    shape,
                    rows: row_views(rows@),
                    data: data@,
                };
                &&& final(self)@ == old(self)@.retain(capture).0
                &&& refused_with(result, old(self)@.retain(capture).1)
            }),
            result is Ok ==> final(self).wf(),
            final(self).rows_seen == old(self).rows_seen,
    {
        let ghost capture = TransactionalTensorCaptureView {
            name: name@,
            shape,
            rows: row_views(rows@),
            data: data@,
        };
        let bytes: usize = match data.len().checked_mul(TENSOR_ELEMENT_BYTES) {
            Some(bytes) => bytes,
            None => return Err(TensorTransactionError::new("retained byte count overflowed")),
        };
        self.pending_retained_bytes =
        match self.pending_retained_bytes.checked_add(bytes) {
            Some(pending) => pending,
            None => return Err(TensorTransactionError::new("retained byte count overflowed")),
        };
        let total: usize = match self.retained_bytes.checked_add(self.pending_retained_bytes) {
            Some(total) => total,
            None => return Err(TensorTransactionError::new("retained byte count overflowed")),
        };
        if total > MAX_RETAINED_TENSOR_BYTES {
            return Err(
                TensorTransactionError::new("retained tensor bytes exceed the supported bound"),
            );
        }
        let ghost pending = self.pending_captures@;
        let ghost staged = TransactionalTensorCapture { name, shape, rows, data };
        self.pending_captures.push(TransactionalTensorCapture { name, shape, rows, data });
        assert(capture_views(pending.push(staged)) =~= capture_views(pending).push(capture));
        assert(capture_views(pending).push(capture).drop_last() =~= capture_views(pending));
        assert(self@ =~= old(self)@.retain(capture).0);
        Ok(())
    }

    /// Completes a tensor: retains its values where the selector asks for them and counts its
    /// rows.
    fn complete(&mut self, work: TensorWork, data: CapturedTensorData) -> (step: TensorStep)
        requires
            old(self).wf(),
            old(self)@.selectors.contains(work@.selector),
            data@.len() == work@.shape.elements,
            work@.selector.retain ==> data@.storable(),
        ensures
            final(self).wf(),
            final(self)@ == old(self)@.complete(work@, data@).0,
            step@ == old(self)@.complete(work@, data@).1,
    {
        proof {
            use_type_invariant(&work);
        }
        let name = work.selector.name().to_owned();
        if work.selector.retains_capture() {
            let ghost capture = work@.capture(data@);
            let end: usize = work.end;
            match self.retain(name.clone(), work.shape, work.rows, data) {
                Ok(()) => {
                    self.rows_seen.insert(name, end);
                },
                Err(error) => {
                    let ghost message = old(self)@.retain(capture).1->Some_0;
                    proof {
                        law_cutting_twice_changes_nothing(
                            message,
                            MAX_TENSOR_FAILURE_BYTES as nat,
                        );
                    }
                    if self.failure.is_none() {
                        self.failure =
                        Some(
                            TensorCallbackFailure::new(
                                Some(name.as_str()),
                                false,
                                error.message(),
                            ),
                        );
                    }
                },
            }
        } else {
            self.rows_seen.insert(name, work.end);
        }
        TensorStep::Return(true)
    }

    /// Takes in the values of a single-precision tensor.
    pub fn read_f32(&mut self, work: TensorWork, values: Vec<Float32>) -> (step: TensorStep)
        requires
            old(self).wf(),
            old(self)@.selectors.contains(work@.selector),
            work@.selector.element_type == TensorElementType::F32,
            values@.len() == work@.shape.elements,
        ensures
            final(self).wf(),
            final(self)@ == old(self)@.read_f32(work@, values@).0,
            step@ == old(self)@.read_f32(work@, values@).1,
            step matches TensorStep::Apply(edit) ==> final(self)@.handler is Some && edit@.usable(),
    {
        if !are_all_finite(values.as_slice()) {
            self.record_failure(
                Some(work.selector.name()),
                false,
                "selected f32 tensor contains a non-finite value",
            );
            return TensorStep::Return(true);
        }
        if work.selector.access() == TensorAccess::ReadOnly {
            return self.complete(work, CapturedTensorData::F32(values));
        }
        if self.handler.is_none() {
            self.record_failure(
                Some(work.selector.name()),
                false,
                "mutable tensor handler is unavailable",
            );
            return TensorStep::Return(true);
        }
        let original = if work.selector.retains_capture() {
            Some(copy_floats(&values))
        } else {
            None
        };
        TensorStep::Apply(TensorEdit { work, values, original })
    }

    /// Takes in the values of an integer tensor.
    pub fn read_i32(&mut self, work: TensorWork, values: Vec<i32>) -> (step: TensorStep)
        requires
            old(self).wf(),
            old(self)@.selectors.contains(work@.selector),
            work@.selector.element_type == TensorElementType::I32,
            values@.len() == work@.shape.elements,
        ensures
            final(self).wf(),
            final(self)@ == old(self)@.read_i32(work@, values@).0,
            step@ == old(self)@.read_i32(work@, values@).1,
    {
        self.complete(work, CapturedTensorData::I32(values))
    }

    /// Runs the handler over an owned copy of a mutable tensor. The handler may change the
    /// values; nothing else of the program or the edit changes. What comes back is the handler's
    /// answer to the edit's transaction, and the values left are those it left. The handler may
    /// also unwind, which the caller contains and reports as [`HandlerOutcome::Panicked`].
    pub fn apply_handler(&mut self, edit: &mut TensorEdit) -> (result: Result<
        TensorWriteback,
        TensorTransactionError,
    >)
        requires
            old(self).wf(),
            old(self)@.handler is Some,
        ensures
            final(self).wf(),
            final(self)@ == (TensorTransactionsView { handler: final(self)@.handler, ..old(self)@ }),
            final(edit)@ == (TensorEditView { values: final(edit)@.values, ..old(edit)@ }),
            final(edit)@.values.len() == old(edit)@.values.len(),
            exists|
                handler: &mut dyn TensorTransactionHandler,
                transaction: TensorTransaction<'_>,
            |
                {
                    &&& #[trigger] answers(handler, transaction, result)
                    &&& old(self)@.handler matches Some(before) && &*handler == &*before
                    &&& final(self)@.handler matches Some(after) && &*final(handler) == &*after
                    &&& transaction.name@ == old(edit)@.work.selector.name
                    &&& transaction.shape == old(edit)@.work.shape
                    &&& row_views(transaction.rows@) == old(edit)@.work.rows
                    &&& transaction.access == old(edit)@.work.selector.access
                    &&& transaction.data matches TensorDataMut::F32(values) && values@ == old(edit)@.values && final(values)@ == final(edit)@.values
                },
    {
        match &mut self.handler {
            Some(handler) => present(&mut **handler, edit),
            None => Err(TensorTransactionError::new("mutable tensor handler is unavailable")),
        }
    }

    /// Takes in how the handler ended. Only a finite committed tensor is to be written back.
    pub fn handled(&mut self, edit: TensorEdit, outcome: HandlerOutcome) -> (step: TensorStep)
        requires
            old(self).wf(),
            outcome is Returned ==> edit@.usable() && old(self)@.selectors.contains(
                edit@.work.selector,
            ),
        ensures
            final(self).wf(),
            final(self)@ == old(self)@.handled(edit@, outcome@).0,
            step@ == old(self)@.handled(edit@, outcome@).1,
    {
        let writeback = match outcome {
            HandlerOutcome::Returned(Ok(writeback)) => writeback,
            HandlerOutcome::Returned(Err(error)) => {
                self.record_failure(Some(edit.work.selector.name()), false, error.message());
                return TensorStep::Return(true);
            },
            HandlerOutcome::Panicked(Some(text)) => {
                self.record_failure(Some(edit.work.selector.name()), true, text.as_str());
                return TensorStep::Return(true);
            },
            HandlerOutcome::Panicked(None) => {
                self.record_failure(
                    Some(edit.work.selector.name()),
                    true,
                    "tensor handler panicked",
                );
                return TensorStep::Return(true);
            },
        };
        match writeback {
            TensorWriteback::Unchanged => match edit.original {
                Some(original) => self.complete(edit.work, CapturedTensorData::F32(original)),
                None => self.complete(edit.work, CapturedTensorData::F32(edit.values)),
            },
            TensorWriteback::Commit => {
                if !are_all_finite(edit.values.as_slice()) {
                    self.record_failure(
                        Some(edit.work.selector.name()),
                        false,
                        "transaction produced a non-finite f32 value",
                    );
                    return TensorStep::Return(true);
                }
                proof {
                    use_type_invariant(&edit.work);
                    lemma_regular_shapes_have_elements(edit.work@.shape);
                }
                match copy_tensor_set(edit.values.len()) {
                    Ok(_) => TensorStep::Write(edit),
                    Err(error) => {
                        self.record_failure(
                            Some(edit.work.selector.name()),
                            false,
                            error.message(),
                        );
                        TensorStep::Return(true)
                    },
                }
            },
        }
    }

    /// Takes in that the edited values were written back.
    pub fn written(&mut self, edit: TensorEdit) -> (step: TensorStep)
        requires
            old(self).wf(),
            old(self)@.selectors.contains(edit@.work.selector),
            edit@.usable(),
            all_finite(edit@.values),
        ensures
            final(self).wf(),
            final(self)@ == old(self)@.written(edit@).0,
            step@ == old(self)@.written(edit@).1,
    {
        self.complete(edit.work, CapturedTensorData::F32(edit.values))
    }
}

/// Lists of captures and selectors are seen element by element, in their order.
pub proof fn law_lists_are_seen_in_order(
    captures: Seq<TransactionalTensorCapture>,
    selectors: Seq<TensorSelector>,
    i: int,
)
    ensures
        capture_views(captures).len() == captures.len(),
        0 <= i < captures.len() ==> capture_views(captures)[i] == captures[i]@,
        selector_views(selectors).len() == selectors.len(),
        0 <= i < selectors.len() ==> selector_views(selectors)[i] == selectors[i]@,
{
}

/// A capture is seen with its own name, shape, rows and values, and counts as many elements as it
/// holds values.
pub proof fn law_captures_are_seen_as_they_are(
    capture: TransactionalTensorCapture,
    floats: Vec<Float32>,
    integers: Vec<i32>,
    i: int,
)
    ensures
        capture@.name == capture.name@,
        capture@.shape == capture.shape,
        capture@.data == capture.data@,
        capture@.rows.len() == capture.rows@.len(),
        0 <= i < capture.rows@.len() ==> capture@.rows[i] == capture.rows@[i]@,
        CapturedTensorData::F32(floats)@ == CapturedTensorDataView::F32(floats@),
        CapturedTensorData::I32(integers)@ == CapturedTensorDataView::I32(integers@),
        CapturedTensorData::F32(floats)@.len() == floats@.len(),
        CapturedTensorData::I32(integers)@.len() == integers@.len(),
{
}

/// What a handler returned is what is taken in: its decision, its error's message, or the text
/// that it unwound with.
pub proof fn law_handler_outcomes_are_taken_as_they_are(
    writeback: TensorWriteback,
    error: TensorTransactionError,
    text: String,
)
    ensures
        HandlerOutcome::Returned(Ok(writeback))@ == HandlerOutcomeView::Decided(writeback),
        HandlerOutcome::Returned(Err(error))@ == HandlerOutcomeView::Failed(error@),
        HandlerOutcome::Panicked(Some(text))@ == HandlerOutcomeView::Panicked(Some(text@)),
        HandlerOutcome::Panicked(None)@ == HandlerOutcomeView::Panicked(None),
{
}

/// A step is seen as what it asks for.
pub proof fn law_steps_are_seen_as_what_they_ask(answer: bool, work: TensorWork, edit: TensorEdit)
    ensures
        TensorStep::Return(answer)@ == TensorStepView::Return(answer),
        TensorStep::Read(work)@ == TensorStepView::Read(work@),
        TensorStep::Apply(edit)@ == TensorStepView::Apply(edit@),
        TensorStep::Write(edit)@ == TensorStepView::Write(edit@),
{
}

} // verus!

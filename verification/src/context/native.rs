//! Native tensors and decode batches as plain values, and the checks made on them.

use crate::context::tensor_failure::{
    TensorCallbackFailure,
    TensorCallbackFailureView,
    TensorTransactionError,
};
use crate::context::tensor_selector::{
    refused_with,
    TensorSelector,
    TensorSelectorView,
    MAX_TENSOR_ELEMENTS,
    MAX_TENSOR_ROWS,
    TENSOR_ELEMENT_BYTES,
};
use vstd::prelude::*;

verus! {

/// What a graph tensor shows to an evaluation callback.
#[derive(Debug)]
pub struct NativeTensor {
    /// Element type code.
    pub type_code: u32,
    /// Elements in each of the four dimensions.
    pub ne: [i64; 4],
    /// Whether the elements lie next to each other in row order.
    pub contiguous: bool,
    /// Size in bytes.
    pub byte_size: usize,
    /// The fixed name buffer.
    pub name: Vec<u8>,
}

/// Validated tensor dimensions.
#[derive(Clone, Copy, Debug, PartialEq, Eq, Structural)]
pub struct TensorShape {
    /// Elements in each logical row.
    pub row_elements: usize,
    /// Logical rows in this callback invocation.
    pub rows: usize,
    /// Total elements.
    pub elements: usize,
}

impl NativeTensor {
    /// Total elements of the two leading dimensions.
    pub open spec fn matrix_elements(self) -> int {
        self.ne@[0] * self.ne@[1]
    }

    /// Why a native tensor does not meet a selector's contract, or nothing where it does.
    pub open spec fn mismatch(self, selector: TensorSelectorView) -> Option<Seq<char>> {
        if self.type_code != selector.element_type.native_code() {
            Some("native tensor element type does not match selector"@)
        } else if self.ne@[2] != 1 || self.ne@[3] != 1 {
            Some("selected tensor must be a two-dimensional row matrix"@)
        } else if !(0 <= self.ne@[0] <= usize::MAX) {
            Some("native row width is negative or excessive"@)
        } else if !(0 <= self.ne@[1] <= usize::MAX) {
            Some("native row count is negative or excessive"@)
        } else if self.matrix_elements() > usize::MAX {
            Some("native tensor element count overflowed"@)
        } else if self.ne@[0] != selector.row_elements || !(0 < self.ne@[1]
            <= selector.maximum_rows) || self.matrix_elements() > MAX_TENSOR_ELEMENTS {
            Some("native tensor shape does not match selector"@)
        } else if !self.contiguous {
            Some("selected tensor is not contiguous"@)
        } else if self.byte_size != self.matrix_elements() * TENSOR_ELEMENT_BYTES {
            Some("native tensor byte size does not match selector"@)
        } else {
            None
        }
    }

    /// The dimensions of a native tensor that meets a selector's contract.
    pub open spec fn shape(self) -> TensorShape {
        TensorShape {
            row_elements: self.ne@[0] as usize,
            rows: self.ne@[1] as usize,
            elements: self.matrix_elements() as usize,
        }
    }
}

/// Checks a native tensor against a selector's contract.
pub fn validate_tensor(tensor: Option<&NativeTensor>, selector: &TensorSelector) -> (result: Result<
    TensorShape,
    TensorTransactionError,
>)
    ensures
        match tensor {
            None => refused_with(result, Some("native tensor pointer was null"@)),
            Some(tensor) => {
                &&& refused_with(result, tensor.mismatch(selector@))
                &&& result is Ok ==> result->Ok_0 == tensor.shape()
            },
        },
{
    let tensor = match tensor {
        Some(tensor) => tensor,
        None => return Err(TensorTransactionError::new("native tensor pointer was null")),
    };
    if tensor.type_code != selector.element_type().native() {
        return Err(
            TensorTransactionError::new("native tensor element type does not match selector"),
        );
    }
    if tensor.ne[2] != 1 || tensor.ne[3] != 1 {
        return Err(
            TensorTransactionError::new("selected tensor must be a two-dimensional row matrix"),
        );
    }
    let row_elements: usize = match usize::try_from(tensor.ne[0]) {
        Ok(row_elements) => row_elements,
        Err(_) => return Err(
            TensorTransactionError::new("native row width is negative or excessive"),
        ),
    };
    let rows: usize = match usize::try_from(tensor.ne[1]) {
        Ok(rows) => rows,
        Err(_) => return Err(
            TensorTransactionError::new("native row count is negative or excessive"),
        ),
    };
    let elements: usize = match row_elements.checked_mul(rows) {
        Some(elements) => elements,
        None => return Err(TensorTransactionError::new("native tensor element count overflowed")),
    };
    if row_elements != selector.row_elements() || rows == 0 || rows > selector.maximum_rows()
        || elements > MAX_TENSOR_ELEMENTS {
        return Err(TensorTransactionError::new("native tensor shape does not match selector"));
    }
    if !tensor.contiguous {
        return Err(TensorTransactionError::new("selected tensor is not contiguous"));
    }
    let expected_bytes: usize = elements * TENSOR_ELEMENT_BYTES;
    if tensor.byte_size != expected_bytes {
        return Err(TensorTransactionError::new("native tensor byte size does not match selector"));
    }
    Ok(TensorShape { row_elements, rows, elements })
}

/// The bytes to read from a selected tensor.
pub fn copy_tensor_get(elements: usize) -> (result: Result<usize, TensorTransactionError>)
    requires
        elements * TENSOR_ELEMENT_BYTES <= usize::MAX,
    ensures
        refused_with(
            result,
            if elements == 0 {
                Some("cannot copy an empty native tensor"@)
            } else {
                None
            },
        ),
        result is Ok ==> result->Ok_0 == elements * TENSOR_ELEMENT_BYTES,
{
    let bytes: usize = elements * TENSOR_ELEMENT_BYTES;
    if bytes == 0 {
        return Err(TensorTransactionError::new("cannot copy an empty native tensor"));
    }
    Ok(bytes)
}

/// The bytes to write to a selected tensor.
pub fn copy_tensor_set(elements: usize) -> (result: Result<usize, TensorTransactionError>)
    requires
        elements * TENSOR_ELEMENT_BYTES <= usize::MAX,
    ensures
        refused_with(
            result,
            if elements == 0 {
                Some("cannot write an empty native tensor"@)
            } else {
                None
            },
        ),
        result is Ok ==> result->Ok_0 == elements * TENSOR_ELEMENT_BYTES,
{
    let bytes: usize = elements * TENSOR_ELEMENT_BYTES;
    if bytes == 0 {
        return Err(TensorTransactionError::new("cannot write an empty native tensor"));
    }
    Ok(bytes)
}

/// One token entry of a native decode batch.
#[derive(Debug)]
pub struct NativeBatchEntry {
    /// Native causal position.
    pub position: i32,
    /// Number of sequences that the entry belongs to.
    pub sequence_count: i32,
    /// The sequences, unless the native side left them out.
    pub sequence_ids: Option<Vec<i32>>,
}

/// A native count of tokens or sequences, where it is one that the callback accepts.
pub fn accepted_count(count: i32) -> (accepted: Option<usize>)
    ensures
        accepted == (if 0 < count <= MAX_TENSOR_ROWS {
            Some(count as usize)
        } else {
            None
        }),
{
    if 0 < count && count as usize <= MAX_TENSOR_ROWS {
        Some(count as usize)
    } else {
        None
    }
}

/// What a native decode batch shows to the begin hook.
#[derive(Debug)]
pub struct NativeBatch {
    /// Number of submitted tokens.
    pub token_count: i32,
    /// One entry per token, unless the native side left any of the metadata arrays out.
    pub entries: Option<Vec<NativeBatchEntry>>,
}

/// The mathematical content of a batch row.
pub struct TensorBatchRowView {
    /// Zero-based logical batch entry.
    pub batch_index: u32,
    /// Native causal position.
    pub position: i32,
    /// Exact sequence IDs attached to this entry.
    pub sequence_ids: Seq<i32>,
}

/// Exact sequence and causal-position metadata for one tensor row.
#[derive(Debug, PartialEq, Eq)]
pub struct TensorBatchRow {
    /// Zero-based logical batch entry.
    pub batch_index: u32,
    /// Native causal position.
    pub position: i32,
    /// Exact sequence IDs attached to this entry.
    pub sequence_ids: Vec<i32>,
}

impl View for TensorBatchRow {
    type V = TensorBatchRowView;

    open spec fn view(&self) -> TensorBatchRowView {
        TensorBatchRowView {
            batch_index: self.batch_index,
            position: self.position,
            sequence_ids: self.sequence_ids@,
        }
    }
}

impl Clone for TensorBatchRow {
    fn clone(&self) -> (copy: Self)
        ensures
            copy@ == self@,
    {
        TensorBatchRow {
            batch_index: self.batch_index,
            position: self.position,
            sequence_ids: copy_ids(&self.sequence_ids),
        }
    }
}

/// The contents of a list of rows.
pub open spec fn row_views(rows: Seq<TensorBatchRow>) -> Seq<TensorBatchRowView> {
    Seq::new(rows.len(), |i: int| rows[i]@)
}

proof fn lemma_row_views_push(rows: Seq<TensorBatchRow>, row: TensorBatchRow)
    ensures
        row_views(rows.push(row)) == row_views(rows).push(row@),
{
    assert(row_views(rows.push(row)) =~= row_views(rows).push(row@));
}

/// Copies a list of integers.
pub(crate) fn copy_ids(ids: &Vec<i32>) -> (copy: Vec<i32>)
    ensures
        copy@ == ids@,
{
    let mut copy: Vec<i32> = Vec::new();
    let mut i: usize = 0;
    while i < ids.len()
        invariant
            i <= ids.len(),
            copy@ == ids@.take(i as int),
        decreases ids.len() - i,
    {
        copy.push(ids[i]);
        i = i + 1;
    }
    assert(ids@.take(ids@.len() as int) =~= ids@);
    copy
}

/// Copies the rows from `start` up to `end`.
pub fn copy_rows(rows: &Vec<TensorBatchRow>, start: usize, end: usize) -> (copy: Vec<
    TensorBatchRow,
>)
    requires
        start <= end <= rows@.len(),
    ensures
        row_views(copy@) == row_views(rows@).subrange(start as int, end as int),
{
    let mut copy: Vec<TensorBatchRow> = Vec::new();
    let mut i: usize = start;
    while i < end
        invariant
            start <= i <= end <= rows@.len(),
            row_views(copy@) == row_views(rows@).subrange(start as int, i as int),
        decreases end - i,
    {
        let row = rows[i].clone();
        proof {
            lemma_row_views_push(copy@, row);
        }
        copy.push(row);
        assert(row_views(copy@) =~= row_views(rows@).subrange(start as int, i + 1));
        i = i + 1;
    }
    copy
}

impl NativeBatchEntry {
    /// Why an entry is refused, or nothing where it is accepted.
    pub open spec fn rejection(self) -> Option<Seq<char>> {
        if self.sequence_count < 0 {
            Some("decode batch sequence count is negative"@)
        } else if !(0 < self.sequence_count <= MAX_TENSOR_ROWS) {
            Some("decode batch sequence count is outside the callback bound"@)
        } else if self.sequence_ids is None {
            Some("decode batch sequence pointer is null"@)
        } else {
            None
        }
    }

    /// The row that an accepted entry stands for.
    pub open spec fn row(self, index: int) -> TensorBatchRowView {
        TensorBatchRowView {
            batch_index: index as u32,
            position: self.position,
            sequence_ids: self.sequence_ids->Some_0@,
        }
    }
}

/// The first refusal among batch entries, in order.
pub open spec fn first_rejection(entries: Seq<NativeBatchEntry>) -> Option<Seq<char>>
    decreases entries.len(),
{
    if entries.len() == 0 {
        None
    } else if entries[0].rejection() is Some {
        entries[0].rejection()
    } else {
        first_rejection(entries.drop_first())
    }
}

impl NativeBatch {
    /// Whether the token count is one that the callback accepts.
    pub open spec fn bounded(self) -> bool {
        0 < self.token_count <= MAX_TENSOR_ROWS
    }

    /// Whether the batch holds what its counts announce: an entry for each token, and for each
    /// entry its sequences. Nothing is owed for a count that is refused.
    pub open spec fn complete(self) -> bool {
        self.bounded() && self.entries is Some ==> {
            &&& self.entries->Some_0@.len() == self.token_count
            &&& forall|i: int|
                0 <= i < self.token_count && (#[trigger] self.entries->Some_0@[i]).rejection()
                    is None ==> self.entries->Some_0@[i].sequence_ids->Some_0@.len()
                    == self.entries->Some_0@[i].sequence_count
        }
    }

    /// Why a batch is refused, or nothing where it is accepted.
    pub open spec fn rejection(self) -> Option<Seq<char>> {
        if self.token_count < 0 {
            Some("decode batch token count is negative"@)
        } else if !self.bounded() {
            Some("decode batch token count is outside the callback bound"@)
        } else {
            match self.entries {
                None => Some("decode batch metadata pointers are null"@),
                Some(entries) => first_rejection(entries@),
            }
        }
    }

    /// The rows of an accepted batch: one for each token, in order.
    pub open spec fn rows(self) -> Seq<TensorBatchRowView> {
        Seq::new(
            self.entries->Some_0@.len(),
            |i: int| self.entries->Some_0@[i].row(i),
        )
    }
}

/// A batch failure names no tensor and is no panic.
pub open spec fn batch_failure(message: Seq<char>) -> TensorCallbackFailureView {
    TensorCallbackFailureView::new(None, false, message)
}

proof fn lemma_first_rejection(entries: Seq<NativeBatchEntry>, k: int)
    requires
        0 <= k <= entries.len(),
        forall|i: int| 0 <= i < k ==> (#[trigger] entries[i]).rejection() is None,
    ensures
        k < entries.len() && entries[k].rejection() is Some ==> first_rejection(entries)
            == entries[k].rejection(),
        k == entries.len() ==> first_rejection(entries) is None,
    decreases k,
{
    if k > 0 {
        assert(entries[0].rejection() is None);
        let rest = entries.drop_first();
        assert forall|i: int| 0 <= i < k - 1 implies (#[trigger] rest[i]).rejection() is None by {
            assert(rest[i] == entries[i + 1]);
        }
        lemma_first_rejection(rest, k - 1);
    }
}

/// Copies the rows of a decode batch.
pub fn copy_batch_rows(batch: &NativeBatch) -> (result: Result<
    Vec<TensorBatchRow>,
    TensorCallbackFailure,
>)
    requires
        batch.complete(),
    ensures
        match result {
            Ok(rows) => batch.rejection() is None && row_views(rows@) == batch.rows(),
            Err(failure) => batch.rejection() is Some && failure@ == batch_failure(
                batch.rejection()->Some_0,
            ),
        },
{
    let count: usize = match usize::try_from(batch.token_count) {
        Ok(count) => count,
        Err(_) => return Err(
            TensorCallbackFailure::new(None, false, "decode batch token count is negative"),
        ),
    };
    if count == 0 || count > MAX_TENSOR_ROWS {
        return Err(
            TensorCallbackFailure::new(
                None,
                false,
                "decode batch token count is outside the callback bound",
            ),
        );
    }
    let entries = match &batch.entries {
        Some(entries) => entries,
        None => return Err(
            TensorCallbackFailure::new(None, false, "decode batch metadata pointers are null"),
        ),
    };
    let mut rows: Vec<TensorBatchRow> = Vec::new();
    let mut index: usize = 0;
    while index < count
        invariant
            index <= count,
            0 < count <= MAX_TENSOR_ROWS,
            count == batch.token_count,
            batch.entries == Some(*entries),
            entries@.len() == count,
            batch.rejection() == first_rejection(entries@),
            forall|i: int| 0 <= i < index ==> (#[trigger] entries@[i]).rejection() is None,
            row_views(rows@) == batch.rows().take(index as int),
        decreases count - index,
    {
        let entry = &entries[index];
        proof {
            lemma_first_rejection(entries@, index as int);
        }
        let sequence_count: usize = match usize::try_from(entry.sequence_count) {
            Ok(sequence_count) => sequence_count,
            Err(_) => return Err(
                TensorCallbackFailure::new(None, false, "decode batch sequence count is negative"),
            ),
        };
        if sequence_count == 0 || sequence_count > MAX_TENSOR_ROWS {
            return Err(
                TensorCallbackFailure::new(
                    None,
                    false,
                    "decode batch sequence count is outside the callback bound",
                ),
            );
        }
        let sequence_ids = match &entry.sequence_ids {
            Some(sequence_ids) => copy_ids(sequence_ids),
            None => return Err(
                TensorCallbackFailure::new(None, false, "decode batch sequence pointer is null"),
            ),
        };
        let row = TensorBatchRow {
            batch_index: index as u32,
            position: entry.position,
            sequence_ids,
        };
        proof {
            lemma_row_views_push(rows@, row);
        }
        rows.push(row);
        assert(row_views(rows@) =~= batch.rows().take(index + 1));
        index = index + 1;
    }
    proof {
        lemma_first_rejection(entries@, count as int);
        assert(batch.rows().take(count as int) =~= batch.rows());
    }
    Ok(rows)
}

/// A native tensor meets a selector exactly where it has the selected representation, is a
/// contiguous matrix of the selected row width, has at least one row and no more than the selector
/// and the element bound allow, and is as many bytes long as its elements take.
pub proof fn law_tensors_meet_selectors_exactly_when_as_announced(
    tensor: NativeTensor,
    selector: TensorSelectorView,
)
    ensures
        tensor.mismatch(selector) is None <==> {
            &&& tensor.type_code == selector.element_type.native_code()
            &&& tensor.ne@[0] == selector.row_elements
            &&& 1 <= tensor.ne@[1] <= selector.maximum_rows
            &&& tensor.ne@[2] == 1
            &&& tensor.ne@[3] == 1
            &&& tensor.ne@[0] * tensor.ne@[1] <= 16_777_216
            &&& tensor.contiguous
            &&& tensor.byte_size == 4 * (tensor.ne@[0] * tensor.ne@[1])
        },
        tensor.mismatch(selector) is None ==> {
            &&& tensor.shape().row_elements == tensor.ne@[0]
            &&& tensor.shape().rows == tensor.ne@[1]
            &&& tensor.shape().elements == tensor.ne@[0] * tensor.ne@[1]
        },
{
    if tensor.ne@[0] >= 0 && tensor.ne@[1] >= 0 {
        assert(tensor.ne@[0] * tensor.ne@[1] >= 0) by (nonlinear_arith)
            requires
                tensor.ne@[0] >= 0,
                tensor.ne@[1] >= 0,
        ;
    }
}

/// The refusal of a native tensor names the first thing that is wrong with it: its representation,
/// its dimensions, a width or a row count that is no machine word, too many elements to count, a
/// shape that is not the selected one, gaps between elements, and its byte size.
pub proof fn law_tensor_refusals_name_the_first_mismatch(
    tensor: NativeTensor,
    selector: TensorSelectorView,
)
    ensures
        ({
            let refusal = tensor.mismatch(selector);
            let typed = tensor.type_code == selector.element_type.native_code();
            let flat = tensor.ne@[2] == 1 && tensor.ne@[3] == 1;
            let width = 0 <= tensor.ne@[0] <= usize::MAX;
            let height = 0 <= tensor.ne@[1] <= usize::MAX;
            let elements = tensor.ne@[0] * tensor.ne@[1];
            let shaped = tensor.ne@[0] == selector.row_elements && 1 <= tensor.ne@[1]
                <= selector.maximum_rows && elements <= 16_777_216;
            &&& !typed ==> refusal == Some("native tensor element type does not match selector"@)
            &&& typed && !flat ==> refusal == Some(
                "selected tensor must be a two-dimensional row matrix"@,
            )
            &&& typed && flat && !width ==> refusal == Some(
                "native row width is negative or excessive"@,
            )
            &&& typed && flat && width && !height ==> refusal == Some(
                "native row count is negative or excessive"@,
            )
            &&& typed && flat && width && height && elements > usize::MAX ==> refusal == Some(
                "native tensor element count overflowed"@,
            )
            &&& typed && flat && width && height && elements <= usize::MAX && !shaped ==> refusal
                == Some("native tensor shape does not match selector"@)
            &&& typed && flat && shaped && !tensor.contiguous ==> refusal == Some(
                "selected tensor is not contiguous"@,
            )
            &&& typed && flat && shaped && tensor.contiguous && tensor.byte_size != 4 * elements
                ==> refusal == Some("native tensor byte size does not match selector"@)
        }),
{
    if tensor.ne@[0] >= 0 && tensor.ne@[1] >= 0 {
        assert(tensor.ne@[0] * tensor.ne@[1] >= 0) by (nonlinear_arith)
            requires
                tensor.ne@[0] >= 0,
                tensor.ne@[1] >= 0,
        ;
    }
}

/// A batch is accepted exactly where it has between one and 4096 tokens, its metadata is there,
/// and every entry belongs to between one and 4096 sequences, which are there too.
pub proof fn law_batches_are_accepted_exactly_when_whole(batch: NativeBatch)
    requires
        batch.complete(),
    ensures
        batch.rejection() is None <==> {
            &&& 1 <= batch.token_count <= 4_096
            &&& batch.entries is Some
            &&& forall|i: int|
                0 <= i < batch.token_count ==> 1 <= (
                #[trigger] batch.entries->Some_0@[i]).sequence_count <= 4_096
                    && batch.entries->Some_0@[i].sequence_ids is Some
        },
{
    if batch.bounded() && batch.entries is Some {
        let entries = batch.entries->Some_0@;
        if forall|i: int|
            0 <= i < batch.token_count ==> 1 <= (#[trigger] entries[i]).sequence_count <= 4_096
                && entries[i].sequence_ids is Some {
            lemma_first_rejection(entries, entries.len() as int);
        } else {
            let bad = choose|i: int|
                0 <= i < batch.token_count && !(1 <= (#[trigger] entries[i]).sequence_count
                    <= 4_096 && entries[i].sequence_ids is Some);
            lemma_refused_entries_refuse_the_batch(entries, bad);
        }
    }
}

proof fn lemma_refused_entries_refuse_the_batch(entries: Seq<NativeBatchEntry>, i: int)
    requires
        0 <= i < entries.len(),
        entries[i].rejection() is Some,
    ensures
        first_rejection(entries) is Some,
    decreases i,
{
    if i > 0 && entries[0].rejection() is None {
        lemma_refused_entries_refuse_the_batch(entries.drop_first(), i - 1);
    }
}

/// The refusal of a batch names the first thing that is wrong with it: the token count, the
/// missing metadata, and then the first entry whose sequences are refused.
pub proof fn law_batch_refusals_name_the_first_fault(batch: NativeBatch, i: int)
    ensures
        batch.token_count < 0 ==> batch.rejection() == Some("decode batch token count is negative"@),
        batch.token_count == 0 || batch.token_count > 4_096 ==> batch.rejection() == Some(
            "decode batch token count is outside the callback bound"@,
        ),
        1 <= batch.token_count <= 4_096 && batch.entries is None ==> batch.rejection() == Some(
            "decode batch metadata pointers are null"@,
        ),
        1 <= batch.token_count <= 4_096 && batch.entries is Some && 0 <= i
            < batch.entries->Some_0@.len() && (forall|j: int|
            0 <= j < i ==> 1 <= (#[trigger] batch.entries->Some_0@[j]).sequence_count <= 4_096
                && batch.entries->Some_0@[j].sequence_ids is Some) ==> {
            let entry = batch.entries->Some_0@[i];
            &&& entry.sequence_count < 0 ==> batch.rejection() == Some(
                "decode batch sequence count is negative"@,
            )
            &&& entry.sequence_count == 0 || entry.sequence_count > 4_096 ==> batch.rejection()
                == Some("decode batch sequence count is outside the callback bound"@)
            &&& 1 <= entry.sequence_count <= 4_096 && entry.sequence_ids is None
                ==> batch.rejection() == Some("decode batch sequence pointer is null"@)
        },
{
    if 1 <= batch.token_count <= 4_096 && batch.entries is Some && 0 <= i
        < batch.entries->Some_0@.len() && (forall|j: int|
        0 <= j < i ==> 1 <= (#[trigger] batch.entries->Some_0@[j]).sequence_count <= 4_096
            && batch.entries->Some_0@[j].sequence_ids is Some) {
        lemma_first_rejection(batch.entries->Some_0@, i);
    }
}

/// The rows of an accepted batch are its entries, one for each and in order: each row carries its
/// place in the batch and the position and sequences of its entry.
pub proof fn law_rows_are_the_entries_of_the_batch(batch: NativeBatch, i: int)
    requires
        batch.complete(),
        batch.rejection() is None,
    ensures
        batch.rows().len() == batch.token_count,
        0 <= i < batch.token_count ==> {
            let entry = batch.entries->Some_0@[i];
            let row = batch.rows()[i];
            &&& row.batch_index == i
            &&& row.position == entry.position
            &&& row.sequence_ids == entry.sequence_ids->Some_0@
        },
{
}

/// Rows are seen one by one, in their order, each with its own place, position and sequences.
pub proof fn law_rows_are_seen_in_order(rows: Seq<TensorBatchRow>, i: int)
    ensures
        row_views(rows).len() == rows.len(),
        0 <= i < rows.len() ==> {
            &&& row_views(rows)[i].batch_index == rows[i].batch_index
            &&& row_views(rows)[i].position == rows[i].position
            &&& row_views(rows)[i].sequence_ids == rows[i].sequence_ids@
        },
{
}

} // verus!

use llama_cpp_4::context::native::accepted_count;
use llama_cpp_4::context::tensor_transaction::{
    CapturedTensorData, HandlerOutcome, NativeBatch, NativeBatchEntry, NativeTensor, TensorAccess,
    TensorBatchRow, TensorCallbackFailure, TensorDataMut, TensorElementType, TensorRowMapping,
    TensorSelector, TensorShape, TensorStep, TensorTransaction, TensorTransactionError,
    TensorTransactionHandler, TensorTransactions, TensorWriteback, MAX_RETAINED_TENSOR_BYTES,
    MAX_TENSOR_ELEMENTS, MAX_TENSOR_FAILURE_BYTES, MAX_TENSOR_NAME_BYTES, MAX_TENSOR_ROWS,
    MAX_TENSOR_SELECTORS,
};
use llama_cpp_4::float32::Float32;

fn float(value: f32) -> Float32 {
    Float32::from_bits(value.to_bits())
}

fn floats(values: &[f32]) -> Vec<Float32> {
    values.iter().map(|value| float(*value)).collect()
}

fn plain(values: &[Float32]) -> Vec<f32> {
    values.iter().map(|value| f32::from_bits(value.to_bits())).collect()
}

struct AddOne;

impl TensorTransactionHandler for AddOne {
    fn apply(
        &mut self,
        mut transaction: TensorTransaction<'_>,
    ) -> Result<TensorWriteback, TensorTransactionError> {
        let TensorDataMut::F32(values) = &mut transaction.data else {
            return Err(TensorTransactionError::new("expected f32"));
        };
        for value in values.iter_mut() {
            *value = float(f32::from_bits(value.to_bits()) + 1.0);
        }
        Ok(TensorWriteback::Commit)
    }
}

/// Fills every value and answers as told.
struct Fill(f32, Result<TensorWriteback, &'static str>);

impl TensorTransactionHandler for Fill {
    fn apply(
        &mut self,
        mut transaction: TensorTransaction<'_>,
    ) -> Result<TensorWriteback, TensorTransactionError> {
        if let TensorDataMut::F32(values) = &mut transaction.data {
            for value in values.iter_mut() {
                *value = float(self.0);
            }
        }
        match self.1 {
            Ok(writeback) => Ok(writeback),
            Err(message) => Err(TensorTransactionError::new(message)),
        }
    }
}

fn native(name: &str, type_code: u32, width: i64, rows: i64) -> NativeTensor {
    let mut buffer = vec![0_u8; 64];
    buffer[..name.len()].copy_from_slice(name.as_bytes());
    NativeTensor {
        type_code,
        ne: [width, rows, 1, 1],
        contiguous: true,
        byte_size: (width * rows * 4) as usize,
        name: buffer,
    }
}

fn batch(tokens: i32) -> NativeBatch {
    NativeBatch {
        token_count: tokens,
        entries: Some(
            (0..tokens)
                .map(|index| NativeBatchEntry {
                    position: 10 + index,
                    sequence_count: 1,
                    sequence_ids: Some(vec![index % 2]),
                })
                .collect(),
        ),
    }
}

fn layer(layer: u32, width: usize, rows: usize, access: TensorAccess, retain: bool) -> TensorSelector {
    TensorSelector::layer_output(layer, width, rows, access, retain).unwrap()
}

/// Runs the evaluation callback for a node, with a native buffer to read from and write to.
fn run(transactions: &mut TensorTransactions, tensor: &NativeTensor, memory: &mut Vec<f32>) -> bool {
    let mut step = transactions.evaluate(tensor, false);
    loop {
        step = match step {
            TensorStep::Return(answer) => return answer,
            TensorStep::Read(work) => {
                assert_eq!(work.elements(), memory.len());
                assert_eq!(work.byte_size(), memory.len() * 4);
                match work.element_type() {
                    TensorElementType::F32 => transactions.read_f32(work, floats(memory)),
                    TensorElementType::I32 => {
                        let values = memory.iter().map(|value| *value as i32).collect();
                        transactions.read_i32(work, values)
                    }
                }
            }
            TensorStep::Apply(mut edit) => {
                let outcome = transactions.apply_handler(&mut edit);
                transactions.handled(edit, HandlerOutcome::Returned(outcome))
            }
            TensorStep::Write(edit) => {
                assert_eq!(edit.byte_size(), memory.len() * 4);
                *memory = plain(edit.values());
                transactions.written(edit)
            }
        };
    }
}

fn failure_of(transactions: &TensorTransactions) -> (Option<String>, bool, String) {
    let failure = transactions.failure().unwrap();
    (
        failure.tensor().map(str::to_owned),
        failure.panicked(),
        failure.message().to_owned(),
    )
}

#[test]
fn selectors_are_bounded_and_canonical() {
    let selector = TensorSelector::layer_output(1, 4, 2, TensorAccess::ReadOnly, true).unwrap();
    assert_eq!(selector.name(), "l_out-1");
    assert!(TensorSelector::new(
        "bad\0name",
        TensorElementType::F32,
        4,
        2,
        TensorAccess::ReadOnly,
        TensorRowMapping::BatchTokens,
        true,
    )
    .is_err());
    assert!(TensorSelector::new(
        "integer",
        TensorElementType::I32,
        4,
        2,
        TensorAccess::ReadWriteF32,
        TensorRowMapping::BatchTokens,
        true,
    )
    .is_err());
}

#[test]
fn transaction_sets_require_a_handler_and_ordered_names() {
    let mutable =
        TensorSelector::layer_output(1, 4, 2, TensorAccess::ReadWriteF32, false).unwrap();
    assert!(TensorTransactions::capture(vec![mutable.clone()]).is_err());
    assert!(TensorTransactions::new(vec![mutable], AddOne).is_ok());

    let later = TensorSelector::layer_output(2, 4, 2, TensorAccess::ReadOnly, true).unwrap();
    let earlier = TensorSelector::layer_output(1, 4, 2, TensorAccess::ReadOnly, true).unwrap();
    assert!(TensorTransactions::capture(vec![later, earlier]).is_err());
}

#[test]
fn errors_and_failure_messages_are_bounded() {
    let error = TensorTransactionError::new(&"x".repeat(MAX_TENSOR_FAILURE_BYTES + 10));
    assert_eq!(error.message().len(), MAX_TENSOR_FAILURE_BYTES);
    let failure = TensorCallbackFailure::new(
        Some("l_out-1"),
        true,
        &"y".repeat(MAX_TENSOR_FAILURE_BYTES + 10),
    );
    assert!(failure.panicked());
    assert_eq!(failure.message().len(), MAX_TENSOR_FAILURE_BYTES);
    assert_eq!(failure.tensor(), Some("l_out-1"));
}

#[test]
fn successful_internal_decodes_accumulate_and_failed_staging_is_discarded() {
    let selector = TensorSelector::layer_output(1, 1, 1, TensorAccess::ReadOnly, true).unwrap();
    let mut transactions = TensorTransactions::capture(vec![selector]).unwrap();

    let stage = |transactions: &mut TensorTransactions, value: f32, succeeded: bool| {
        let batch = NativeBatch {
            token_count: 1,
            entries: Some(vec![NativeBatchEntry {
                position: 0,
                sequence_count: 1,
                sequence_ids: Some(vec![0]),
            }]),
        };
        transactions.begin_decode(&batch).unwrap();
        let tensor = native("l_out-1", 0, 1, 1);
        assert!(run(transactions, &tensor, &mut vec![value]));
        transactions.finish_decode(succeeded).unwrap();
    };

    stage(&mut transactions, 1.0, true);
    stage(&mut transactions, 2.0, true);
    stage(&mut transactions, 3.0, false);
    let captures = transactions.take_captures();
    assert_eq!(captures.len(), 2);
    assert!(matches!(
        captures[0].data,
        CapturedTensorData::F32(ref values) if plain(values) == [1.0]
    ));
    assert!(matches!(
        captures[1].data,
        CapturedTensorData::F32(ref values) if plain(values) == [2.0]
    ));
    assert!(transactions.captures().is_empty());
}

#[test]
fn selectors_keep_what_they_were_built_from() {
    let selector = TensorSelector::new(
        "attn_norm-3",
        TensorElementType::I32,
        5,
        7,
        TensorAccess::ReadOnly,
        TensorRowMapping::BatchTokens,
        true,
    )
    .unwrap();
    assert_eq!(selector.name(), "attn_norm-3");
    assert_eq!(selector.element_type(), TensorElementType::I32);
    assert_eq!(selector.row_elements(), 5);
    assert_eq!(selector.maximum_rows(), 7);
    assert_eq!(selector.access(), TensorAccess::ReadOnly);
    assert_eq!(selector.row_mapping(), TensorRowMapping::BatchTokens);
    assert!(selector.retains_capture());
    assert!(selector.validate().is_ok());
    assert_eq!(selector.clone(), selector);
}

#[test]
fn selector_refusals_say_why() {
    let build = |name: &str, width: usize, rows: usize| {
        TensorSelector::new(
            name,
            TensorElementType::F32,
            width,
            rows,
            TensorAccess::ReadOnly,
            TensorRowMapping::BatchTokens,
            false,
        )
        .map(|_| ())
        .map_err(|error| error.message().to_owned())
    };
    let name = "tensor name must be bounded, nonempty UTF-8 without NUL".to_owned();
    let shape = "tensor row shape is outside the supported bound".to_owned();
    assert_eq!(build("", 1, 1), Err(name.clone()));
    assert_eq!(build(&"n".repeat(MAX_TENSOR_NAME_BYTES + 1), 1, 1), Err(name));
    assert_eq!(build(&"n".repeat(MAX_TENSOR_NAME_BYTES), 1, 1), Ok(()));
    assert_eq!(
        build("n", usize::MAX, 2),
        Err("tensor element bound overflowed".to_owned())
    );
    assert_eq!(build("n", 0, 1), Err(shape.clone()));
    assert_eq!(build("n", 1, 0), Err(shape.clone()));
    assert_eq!(build("n", 1, MAX_TENSOR_ROWS + 1), Err(shape.clone()));
    assert_eq!(build("n", MAX_TENSOR_ELEMENTS + 1, 1), Err(shape));
    assert_eq!(build("n", MAX_TENSOR_ELEMENTS, 1), Ok(()));
    assert_eq!(
        TensorSelector::new(
            "n",
            TensorElementType::I32,
            1,
            1,
            TensorAccess::ReadWriteF32,
            TensorRowMapping::BatchTokens,
            false,
        )
        .unwrap_err()
        .to_string(),
        "only f32 tensors support transactional write-back"
    );
}

#[test]
fn program_refusals_say_why() {
    let message = |result: Result<TensorTransactions, TensorTransactionError>| match result {
        Ok(_) => "accepted".to_owned(),
        Err(error) => error.message().to_owned(),
    };
    let read = |index: u32| layer(index, 4, 2, TensorAccess::ReadOnly, true);
    assert_eq!(
        message(TensorTransactions::capture(vec![])),
        "selector count is outside the supported bound"
    );
    let many: Vec<TensorSelector> = (0..=MAX_TENSOR_SELECTORS as u32).map(|i| read(1000 + i)).collect();
    assert_eq!(
        message(TensorTransactions::capture(many)),
        "selector count is outside the supported bound"
    );
    let most: Vec<TensorSelector> = (0..MAX_TENSOR_SELECTORS as u32).map(|i| read(1000 + i)).collect();
    assert_eq!(message(TensorTransactions::capture(most)), "accepted");
    assert_eq!(
        message(TensorTransactions::capture(vec![read(1), read(1)])),
        "selectors must have unique canonically ordered names"
    );
    // The order is that of the encoded names, not of the layers.
    assert_eq!(
        message(TensorTransactions::capture(vec![read(2), read(10)])),
        "selectors must have unique canonically ordered names"
    );
    assert_eq!(message(TensorTransactions::capture(vec![read(10), read(2)])), "accepted");
    let wide = |index: u32| layer(index, MAX_TENSOR_ELEMENTS, 1, TensorAccess::ReadOnly, true);
    assert_eq!(
        message(TensorTransactions::capture(vec![wide(1), wide(2)])),
        "total selector element bound is excessive"
    );
    assert_eq!(
        message(TensorTransactions::capture(vec![layer(1, 4, 2, TensorAccess::ReadWriteF32, true)])),
        "mutable selectors require a transaction handler"
    );
    assert_eq!(
        message(TensorTransactions::new(vec![read(1)], AddOne)),
        "a transaction handler requires at least one mutable selector"
    );
}

#[test]
fn committed_edits_are_written_once_and_retained() {
    let mut transactions =
        TensorTransactions::new(vec![layer(1, 2, 2, TensorAccess::ReadWriteF32, true)], AddOne)
            .unwrap();
    assert!(transactions.decode_begin(&batch(2)));
    let tensor = native("l_out-1", 0, 2, 2);
    assert!(matches!(transactions.evaluate(&tensor, true), TensorStep::Return(true)));
    let mut memory = vec![1.0, 2.0, 3.0, 4.0];
    assert!(run(&mut transactions, &tensor, &mut memory));
    assert_eq!(memory, [2.0, 3.0, 4.0, 5.0]);
    assert!(transactions.decode_end(true));
    let captures = transactions.take_captures();
    assert_eq!(captures.len(), 1);
    assert_eq!(captures[0].name, "l_out-1");
    assert_eq!(
        captures[0].shape,
        TensorShape { row_elements: 2, rows: 2, elements: 4 }
    );
    assert_eq!(
        captures[0].rows,
        vec![
            TensorBatchRow { batch_index: 0, position: 10, sequence_ids: vec![0] },
            TensorBatchRow { batch_index: 1, position: 11, sequence_ids: vec![1] },
        ]
    );
    assert_eq!(captures[0].data, CapturedTensorData::F32(floats(&[2.0, 3.0, 4.0, 5.0])));
    assert_eq!(captures[0].data.len(), 4);
    assert!(!captures[0].data.is_empty());
    assert_eq!(captures[0].clone(), captures[0]);
}

#[test]
fn unchanged_tensors_keep_what_was_read() {
    let mut transactions = TensorTransactions::new(
        vec![layer(1, 2, 1, TensorAccess::ReadWriteF32, true)],
        Fill(9.0, Ok(TensorWriteback::Unchanged)),
    )
    .unwrap();
    assert!(transactions.decode_begin(&batch(1)));
    let mut memory = vec![1.0, 2.0];
    assert!(run(&mut transactions, &native("l_out-1", 0, 2, 1), &mut memory));
    assert_eq!(memory, [1.0, 2.0]);
    assert!(transactions.decode_end(true));
    assert_eq!(
        transactions.captures()[0].data,
        CapturedTensorData::F32(floats(&[1.0, 2.0]))
    );
}

#[test]
fn handler_failures_write_nothing_and_stay() {
    let mut transactions = TensorTransactions::new(
        vec![layer(1, 1, 1, TensorAccess::ReadWriteF32, true)],
        Fill(9.0, Err("no")),
    )
    .unwrap();
    assert!(transactions.decode_begin(&batch(1)));
    let tensor = native("l_out-1", 0, 1, 1);
    let mut memory = vec![1.0];
    assert!(run(&mut transactions, &tensor, &mut memory));
    assert_eq!(memory, [1.0]);
    assert_eq!(
        failure_of(&transactions),
        (Some("l_out-1".to_owned()), false, "no".to_owned())
    );
    assert_eq!(
        transactions.failure().unwrap().to_string(),
        "tensor callback failed for l_out-1: no"
    );
    // Nothing more is asked for, and the failure survives the end of the decode.
    assert!(matches!(transactions.evaluate(&tensor, true), TensorStep::Return(false)));
    assert!(!transactions.decode_end(true));
    assert!(transactions.captures().is_empty());
    assert!(!transactions.decode_begin(&batch(1)));
    assert_eq!(
        transactions.begin_decode(&batch(1)).unwrap_err().message(),
        "no"
    );
}

#[test]
fn panics_are_contained_with_their_text() {
    let open = || {
        let mut transactions =
            TensorTransactions::new(vec![layer(1, 1, 1, TensorAccess::ReadWriteF32, true)], AddOne)
                .unwrap();
        assert!(transactions.decode_begin(&batch(1)));
        let TensorStep::Read(work) = transactions.evaluate(&native("l_out-1", 0, 1, 1), false) else {
            panic!("the tensor is selected");
        };
        let TensorStep::Apply(edit) = transactions.read_f32(work, floats(&[1.0])) else {
            panic!("the tensor is mutable");
        };
        (transactions, edit)
    };
    let (mut transactions, edit) = open();
    let outcome = HandlerOutcome::Panicked(Some("boom".to_owned()));
    assert!(matches!(transactions.handled(edit, outcome), TensorStep::Return(true)));
    assert_eq!(
        failure_of(&transactions),
        (Some("l_out-1".to_owned()), true, "boom".to_owned())
    );
    let (mut transactions, edit) = open();
    let outcome = HandlerOutcome::Panicked(None);
    assert!(matches!(transactions.handled(edit, outcome), TensorStep::Return(true)));
    assert_eq!(
        failure_of(&transactions),
        (Some("l_out-1".to_owned()), true, "tensor handler panicked".to_owned())
    );
}

#[test]
fn non_finite_values_are_refused_on_both_sides() {
    let mut transactions =
        TensorTransactions::capture(vec![layer(1, 2, 1, TensorAccess::ReadOnly, true)]).unwrap();
    assert!(transactions.decode_begin(&batch(1)));
    assert!(run(&mut transactions, &native("l_out-1", 0, 2, 1), &mut vec![1.0, f32::INFINITY]));
    assert_eq!(
        failure_of(&transactions).2,
        "selected f32 tensor contains a non-finite value"
    );

    let mut transactions = TensorTransactions::new(
        vec![layer(1, 1, 1, TensorAccess::ReadWriteF32, false)],
        Fill(f32::NAN, Ok(TensorWriteback::Commit)),
    )
    .unwrap();
    assert!(transactions.decode_begin(&batch(1)));
    let mut memory = vec![1.0];
    assert!(run(&mut transactions, &native("l_out-1", 0, 1, 1), &mut memory));
    assert_eq!(memory, [1.0]);
    assert_eq!(
        failure_of(&transactions).2,
        "transaction produced a non-finite f32 value"
    );
}

#[test]
fn integer_tensors_are_retained() {
    let selector = TensorSelector::new(
        "ids",
        TensorElementType::I32,
        2,
        4,
        TensorAccess::ReadOnly,
        TensorRowMapping::BatchTokens,
        true,
    )
    .unwrap();
    let mut transactions = TensorTransactions::capture(vec![selector]).unwrap();
    assert!(transactions.decode_begin(&batch(1)));
    assert!(run(&mut transactions, &native("ids", 26, 2, 1), &mut vec![7.0, -3.0]));
    assert!(transactions.decode_end(true));
    assert_eq!(transactions.captures()[0].data, CapturedTensorData::I32(vec![7, -3]));
}

#[test]
fn rows_are_assigned_in_order_and_must_be_covered() {
    let mut transactions =
        TensorTransactions::capture(vec![layer(1, 1, 2, TensorAccess::ReadOnly, true)]).unwrap();
    assert!(transactions.decode_begin(&batch(3)));
    assert!(run(&mut transactions, &native("l_out-1", 0, 1, 2), &mut vec![1.0, 2.0]));
    assert!(run(&mut transactions, &native("l_out-1", 0, 1, 1), &mut vec![3.0]));
    assert!(transactions.decode_end(true));
    let rows: Vec<Vec<u32>> = transactions
        .captures()
        .iter()
        .map(|capture| capture.rows.iter().map(|row| row.batch_index).collect())
        .collect();
    assert_eq!(rows, [vec![0, 1], vec![2]]);

    let mut transactions =
        TensorTransactions::capture(vec![layer(1, 1, 2, TensorAccess::ReadOnly, true)]).unwrap();
    assert!(transactions.decode_begin(&batch(3)));
    assert!(run(&mut transactions, &native("l_out-1", 0, 1, 2), &mut vec![1.0, 2.0]));
    let failure = transactions.finish_decode(true).unwrap_err();
    assert_eq!(failure.tensor(), Some("l_out-1"));
    assert_eq!(
        failure.message(),
        "selected tensor covered 2 rows but the decode submitted 3"
    );
    assert!(transactions.captures().is_empty());

    let mut transactions =
        TensorTransactions::capture(vec![layer(1, 1, 2, TensorAccess::ReadOnly, true)]).unwrap();
    assert!(transactions.decode_begin(&batch(1)));
    assert!(run(&mut transactions, &native("l_out-1", 0, 1, 2), &mut vec![1.0, 2.0]));
    assert_eq!(
        failure_of(&transactions).2,
        "tensor rows exceed submitted decode batch"
    );
}

#[test]
fn mismatched_native_tensors_say_why() {
    let refusal = |change: &dyn Fn(&mut NativeTensor)| {
        let mut transactions =
            TensorTransactions::capture(vec![layer(1, 2, 2, TensorAccess::ReadOnly, true)]).unwrap();
        assert!(transactions.decode_begin(&batch(2)));
        let mut tensor = native("l_out-1", 0, 2, 2);
        change(&mut tensor);
        assert!(matches!(transactions.evaluate(&tensor, false), TensorStep::Return(true)));
        failure_of(&transactions).2
    };
    assert_eq!(
        refusal(&|tensor| tensor.type_code = 1),
        "native tensor element type does not match selector"
    );
    assert_eq!(
        refusal(&|tensor| tensor.ne[2] = 2),
        "selected tensor must be a two-dimensional row matrix"
    );
    assert_eq!(
        refusal(&|tensor| tensor.ne[0] = -1),
        "native row width is negative or excessive"
    );
    assert_eq!(
        refusal(&|tensor| tensor.ne[1] = -1),
        "native row count is negative or excessive"
    );
    assert_eq!(
        refusal(&|tensor| {
            tensor.ne[0] = i64::MAX;
            tensor.ne[1] = i64::MAX;
        }),
        "native tensor element count overflowed"
    );
    assert_eq!(
        refusal(&|tensor| tensor.ne[0] = 3),
        "native tensor shape does not match selector"
    );
    assert_eq!(
        refusal(&|tensor| tensor.ne[1] = 3),
        "native tensor shape does not match selector"
    );
    assert_eq!(
        refusal(&|tensor| tensor.contiguous = false),
        "selected tensor is not contiguous"
    );
    assert_eq!(
        refusal(&|tensor| tensor.byte_size = 15),
        "native tensor byte size does not match selector"
    );
}

#[test]
fn refused_batches_say_why() {
    let refusal = |batch: NativeBatch| {
        let mut transactions =
            TensorTransactions::capture(vec![layer(1, 1, 1, TensorAccess::ReadOnly, true)]).unwrap();
        let message = transactions.begin_decode(&batch).unwrap_err().message().to_owned();
        assert!(!transactions.decode_active());
        message
    };
    let one = |sequence_count: i32, sequence_ids: Option<Vec<i32>>| NativeBatch {
        token_count: 1,
        entries: Some(vec![NativeBatchEntry { position: 0, sequence_count, sequence_ids }]),
    };
    assert_eq!(
        refusal(NativeBatch { token_count: -1, entries: None }),
        "decode batch token count is negative"
    );
    assert_eq!(
        refusal(NativeBatch { token_count: 0, entries: None }),
        "decode batch token count is outside the callback bound"
    );
    assert_eq!(
        refusal(NativeBatch { token_count: MAX_TENSOR_ROWS as i32 + 1, entries: None }),
        "decode batch token count is outside the callback bound"
    );
    assert_eq!(
        refusal(NativeBatch { token_count: 1, entries: None }),
        "decode batch metadata pointers are null"
    );
    assert_eq!(refusal(one(-1, None)), "decode batch sequence count is negative");
    assert_eq!(
        refusal(one(0, Some(vec![]))),
        "decode batch sequence count is outside the callback bound"
    );
    assert_eq!(refusal(one(1, None)), "decode batch sequence pointer is null");
    assert_eq!(accepted_count(0), None);
    assert_eq!(accepted_count(MAX_TENSOR_ROWS as i32), Some(MAX_TENSOR_ROWS));
    assert_eq!(accepted_count(MAX_TENSOR_ROWS as i32 + 1), None);
}

#[test]
fn the_begin_hook_records_the_refusal_as_text() {
    let mut transactions =
        TensorTransactions::capture(vec![layer(1, 1, 1, TensorAccess::ReadOnly, true)]).unwrap();
    assert!(!transactions.decode_begin(&NativeBatch { token_count: -1, entries: None }));
    assert_eq!(
        failure_of(&transactions),
        (
            None,
            false,
            "tensor callback failed: decode batch token count is negative".to_owned()
        )
    );
}

#[test]
fn decodes_do_not_nest() {
    let mut transactions =
        TensorTransactions::capture(vec![layer(1, 1, 1, TensorAccess::ReadOnly, true)]).unwrap();
    assert!(transactions.begin_decode(&batch(1)).is_ok());
    assert!(transactions.decode_active());
    assert_eq!(
        transactions.begin_decode(&batch(1)).unwrap_err().message(),
        "tensor callback decode was already active"
    );
}

#[test]
fn nodes_are_told_apart_by_their_exact_names() {
    let mut transactions =
        TensorTransactions::capture(vec![layer(1, 1, 1, TensorAccess::ReadOnly, true)]).unwrap();
    assert!(matches!(
        transactions.evaluate(&native("l_out-1", 0, 1, 1), true),
        TensorStep::Return(false)
    ));
    assert_eq!(
        failure_of(&transactions).2,
        "tensor evaluation callback ran outside a decode lifecycle"
    );

    let mut transactions =
        TensorTransactions::capture(vec![layer(1, 1, 1, TensorAccess::ReadOnly, true)]).unwrap();
    assert!(transactions.decode_begin(&batch(1)));
    for (name, wanted) in [("l_out-1", true), ("l_out-10", false), ("l_out-", false), ("", false)] {
        let TensorStep::Return(answer) = transactions.evaluate(&native(name, 0, 1, 1), true) else {
            panic!("asking reads nothing");
        };
        assert_eq!(answer, wanted, "{name}");
    }
    assert!(transactions.failure().is_none());
    let mut tensor = native("l_out-1", 0, 1, 1);
    tensor.name = vec![b'l', 0xff, b'o', 0];
    assert!(matches!(transactions.evaluate(&tensor, true), TensorStep::Return(false)));
    assert_eq!(
        failure_of(&transactions),
        (
            None,
            false,
            "tensor name is not UTF-8: invalid utf-8 sequence of 1 bytes from index 1".to_owned()
        )
    );
}

#[test]
fn selectors_are_found_among_many() {
    let mut names: Vec<String> = (0..50).map(|i| format!("l_out-{i}")).collect();
    names.push("schön".to_owned());
    names.push("zz".to_owned());
    names.sort();
    let selectors = names
        .iter()
        .map(|name| {
            TensorSelector::new(
                name,
                TensorElementType::F32,
                1,
                1,
                TensorAccess::ReadOnly,
                TensorRowMapping::BatchTokens,
                true,
            )
            .unwrap()
        })
        .collect();
    let transactions = TensorTransactions::capture(selectors).unwrap();
    for (index, name) in names.iter().enumerate() {
        assert_eq!(transactions.selected(name), Some(index));
    }
    assert_eq!(transactions.selected("l_out-50"), None);
    assert_eq!(transactions.selected("a"), None);
    assert_eq!(transactions.selected("zzz"), None);
    assert_eq!(transactions.selectors().len(), names.len());
}

#[test]
fn retained_bytes_are_bounded_over_undrained_decodes() {
    let width = MAX_TENSOR_ELEMENTS / 2;
    assert_eq!(MAX_RETAINED_TENSOR_BYTES, 67_108_864);
    let mut transactions =
        TensorTransactions::capture(vec![layer(1, width, 1, TensorAccess::ReadOnly, true)]).unwrap();
    let tensor = native("l_out-1", 0, width as i64, 1);
    let mut memory = vec![0.5; width];
    for _ in 0..2 {
        assert!(transactions.decode_begin(&batch(1)));
        assert!(run(&mut transactions, &tensor, &mut memory));
        assert!(transactions.decode_end(true));
    }
    assert_eq!(transactions.take_captures().len(), 2);
    for _ in 0..2 {
        assert!(transactions.decode_begin(&batch(1)));
        assert!(run(&mut transactions, &tensor, &mut memory));
        assert!(transactions.decode_end(true));
    }
    assert!(transactions.decode_begin(&batch(1)));
    assert!(run(&mut transactions, &tensor, &mut memory));
    assert_eq!(
        failure_of(&transactions),
        (
            Some("l_out-1".to_owned()),
            false,
            "retained tensor bytes exceed the supported bound".to_owned()
        )
    );
    assert!(!transactions.decode_end(true));
    // What earlier decodes committed is still there.
    assert_eq!(transactions.captures().len(), 2);
}

#[test]
fn the_first_failure_stays() {
    let mut transactions =
        TensorTransactions::capture(vec![layer(1, 1, 1, TensorAccess::ReadOnly, true)]).unwrap();
    transactions.record_failure(None, true, "first");
    transactions.record_failure(Some("l_out-1"), false, "second");
    assert_eq!(failure_of(&transactions), (None, true, "first".to_owned()));
}

#[test]
fn untouched_nodes_without_retention_only_count_rows() {
    let mut transactions =
        TensorTransactions::capture(vec![layer(1, 1, 1, TensorAccess::ReadOnly, false)]).unwrap();
    assert!(transactions.decode_begin(&batch(1)));
    assert!(run(&mut transactions, &native("l_out-1", 0, 1, 1), &mut vec![1.0]));
    assert!(transactions.decode_end(true));
    assert!(transactions.captures().is_empty());
}

#[test]
fn read_only_tensors_are_left_alone_and_drained_once() {
    let mut transactions =
        TensorTransactions::capture(vec![layer(1, 2, 1, TensorAccess::ReadOnly, true)]).unwrap();
    assert!(transactions.decode_begin(&batch(1)));
    let mut memory = vec![1.0, 2.0];
    assert!(run(&mut transactions, &native("l_out-1", 0, 2, 1), &mut memory));
    assert_eq!(memory, [1.0, 2.0]);
    assert!(transactions.decode_end(true));
    assert_eq!(transactions.take_captures().len(), 1);
    assert!(transactions.take_captures().is_empty());
}

/// Counts its runs and leaves what it was shown.
struct Count(std::sync::Arc<std::sync::atomic::AtomicUsize>);

impl TensorTransactionHandler for Count {
    fn apply(
        &mut self,
        transaction: TensorTransaction<'_>,
    ) -> Result<TensorWriteback, TensorTransactionError> {
        assert_eq!(transaction.name, "l_out-1");
        assert_eq!(transaction.access, TensorAccess::ReadWriteF32);
        assert_eq!(transaction.shape, TensorShape { row_elements: 1, rows: 1, elements: 1 });
        assert_eq!(transaction.rows[0].batch_index, 0);
        self.0.fetch_add(1, std::sync::atomic::Ordering::Relaxed);
        Ok(TensorWriteback::Commit)
    }
}

#[test]
fn the_given_handler_runs_once_per_mutable_tensor_and_never_else() {
    let runs = std::sync::Arc::new(std::sync::atomic::AtomicUsize::new(0));
    let count = || runs.load(std::sync::atomic::Ordering::Relaxed);
    let mut transactions = TensorTransactions::new(
        vec![
            layer(1, 1, 1, TensorAccess::ReadWriteF32, true),
            layer(2, 1, 1, TensorAccess::ReadOnly, true),
        ],
        Count(runs.clone()),
    )
    .unwrap();
    assert!(transactions.decode_begin(&batch(1)));
    let mutable = native("l_out-1", 0, 1, 1);
    assert!(matches!(transactions.evaluate(&mutable, true), TensorStep::Return(true)));
    assert_eq!(count(), 0);
    assert!(run(&mut transactions, &native("l_out-2", 0, 1, 1), &mut vec![1.0]));
    assert_eq!(count(), 0);
    assert!(run(&mut transactions, &mutable, &mut vec![1.0]));
    assert_eq!(count(), 1);
    assert!(transactions.decode_end(true));
    assert_eq!(count(), 1);
    let names: Vec<&str> =
        transactions.captures().iter().map(|capture| capture.name.as_str()).collect();
    assert_eq!(names, ["l_out-2", "l_out-1"]);
    // Neither refused nor non-finite tensors reach the handler.
    assert!(transactions.decode_begin(&batch(1)));
    assert!(run(&mut transactions, &mutable, &mut vec![f32::NAN]));
    assert_eq!(count(), 1);
    assert!(transactions.failure().is_some());
}

#[test]
fn captured_values_are_compared_by_number() {
    let data = |value: f32| CapturedTensorData::F32(floats(&[value]));
    assert_eq!(data(0.0), data(-0.0));
    assert_ne!(data(1.0), data(-1.0));
    assert_ne!(data(f32::NAN), data(f32::NAN));
}

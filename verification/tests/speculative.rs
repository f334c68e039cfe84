use llama_cpp_4::float32::Float32;
use llama_cpp_4::speculative::{
    accept_copy, accept_size, capture_state, restore_state, status_result, validate_config,
    validate_size, SpeculativeStateError, StateCopyReply, StateSizeReply,
    MAX_SPECULATIVE_DRAFT_TOKENS, MAX_SPECULATIVE_PROMPT_TOKENS, MAX_SPECULATIVE_SEQUENCES,
    MAX_SPECULATIVE_STATE_BYTES,
};

fn float(value: f32) -> Float32 {
    Float32::from_bits(value.to_bits())
}

#[test]
fn input_state_is_bounded_before_native_access() {
    assert!(validate_size(MAX_SPECULATIVE_STATE_BYTES).is_ok());
    assert_eq!(
        validate_size(MAX_SPECULATIVE_STATE_BYTES + 1),
        Err(SpeculativeStateError::Excessive {
            size: MAX_SPECULATIVE_STATE_BYTES + 1,
            maximum: MAX_SPECULATIVE_STATE_BYTES,
        })
    );
}

#[test]
fn speculative_configuration_is_bounded_before_allocation() {
    assert!(validate_config(1, 4, 0, float(0.0)).is_ok());
    assert!(validate_config(0, 4, 0, float(0.0)).is_err());
    assert!(validate_config(MAX_SPECULATIVE_SEQUENCES + 1, 4, 0, float(0.0)).is_err());
    assert!(validate_config(1, MAX_SPECULATIVE_DRAFT_TOKENS + 1, 0, float(0.0)).is_err());
    assert!(validate_config(1, 4, 5, float(0.0)).is_err());
    assert!(validate_config(1, 4, 0, float(f32::NAN)).is_err());
    assert!(validate_config(1, 4, 0, float(1.1)).is_err());
}

#[test]
fn prompt_and_state_bounds_are_consistent() {
    let maximum_prompt_bytes = MAX_SPECULATIVE_PROMPT_TOKENS
        .checked_mul(std::mem::size_of::<i32>())
        .unwrap();
    assert!(maximum_prompt_bytes < MAX_SPECULATIVE_STATE_BYTES);
}

#[test]
fn configuration_refusals_say_why() {
    assert_eq!(
        validate_config(0, 4, 0, float(0.0)),
        Err("n_seq is outside the supported bound")
    );
    assert_eq!(
        validate_config(1, 0, 0, float(0.0)),
        Err("n_draft_max is outside the supported bound")
    );
    assert_eq!(
        validate_config(1, 4, -1, float(0.0)),
        Err("n_min must be between zero and n_draft_max")
    );
    let p_min = Err("p_min must be finite and between zero and one");
    for value in [f32::INFINITY, f32::NEG_INFINITY, -0.25, -1.0e-40, 1.0 + f32::EPSILON] {
        assert_eq!(validate_config(1, 4, 0, float(value)), p_min, "{value}");
    }
    for value in [0.0, -0.0, 1.0e-40, 0.5, 1.0 - f32::EPSILON, 1.0] {
        assert_eq!(validate_config(1, 4, 4, float(value)), Ok(()), "{value}");
    }
    assert_eq!(
        validate_config(
            MAX_SPECULATIVE_SEQUENCES,
            MAX_SPECULATIVE_DRAFT_TOKENS,
            0,
            float(0.0)
        ),
        Ok(())
    );
}

#[test]
fn statuses_are_told_apart() {
    let outcomes = [
        Ok(()),
        Err(SpeculativeStateError::Null),
        Err(SpeculativeStateError::BadSequence),
        Err(SpeculativeStateError::NotQuiescent),
        Err(SpeculativeStateError::BufferTooSmall),
        Err(SpeculativeStateError::Unavailable),
        Err(SpeculativeStateError::Invalid),
        Err(SpeculativeStateError::Overflow),
        Err(SpeculativeStateError::Exception),
        Err(SpeculativeStateError::Unknown(9)),
    ];
    for (status, outcome) in outcomes.iter().enumerate() {
        assert_eq!(status_result(status as u32), *outcome);
    }
}

#[test]
fn captures_need_the_announced_size() {
    let capture = |size: usize, status: u32, written: usize| {
        capture_state(
            7,
            |seq_id| {
                assert_eq!(seq_id, 7);
                StateSizeReply { status: 0, size }
            },
            |seq_id, mut state| {
                assert_eq!(seq_id, 7);
                assert_eq!(state, vec![0; size]);
                for (index, byte) in state.iter_mut().enumerate() {
                    *byte = index as u8;
                }
                StateCopyReply { status, written, state }
            },
        )
    };
    assert_eq!(capture(3, 0, 3), Ok(vec![0, 1, 2]));
    assert_eq!(capture(0, 0, 0), Ok(vec![]));
    let changed = SpeculativeStateError::SizeChanged { expected: 3, actual: 5 };
    assert_eq!(capture(3, 0, 5), Err(changed));
    assert_eq!(capture(3, 4, 5), Err(changed));
    assert_eq!(capture(3, 6, 3), Err(SpeculativeStateError::Invalid));
    assert_eq!(
        accept_copy(2, StateCopyReply { status: 0, written: 2, state: vec![7, 8] }),
        Ok(vec![7, 8])
    );
}

#[test]
fn refused_sizes_are_not_copied() {
    let refused = |reply: StateSizeReply| {
        let result = capture_state(7, |_| reply, |_, _| panic!("nothing is copied"));
        assert_eq!(accept_size(reply).map(|_| vec![]), result);
        result.unwrap_err()
    };
    assert_eq!(
        refused(StateSizeReply { status: 3, size: 3 }),
        SpeculativeStateError::NotQuiescent
    );
    assert_eq!(
        refused(StateSizeReply { status: 0, size: MAX_SPECULATIVE_STATE_BYTES + 1 }),
        SpeculativeStateError::Excessive {
            size: MAX_SPECULATIVE_STATE_BYTES + 1,
            maximum: MAX_SPECULATIVE_STATE_BYTES,
        }
    );
}

#[test]
fn restores_check_the_state_before_native_access() {
    assert_eq!(
        restore_state(7, &[], |_, _| panic!("nothing is set")),
        Err(SpeculativeStateError::Invalid)
    );
    let excessive = vec![0; MAX_SPECULATIVE_STATE_BYTES + 1];
    assert!(matches!(
        restore_state(7, &excessive, |_, _| panic!("nothing is set")),
        Err(SpeculativeStateError::Excessive { .. })
    ));
    assert_eq!(
        restore_state(7, &[1, 2], |seq_id, state| {
            assert_eq!((seq_id, state), (7, &[1, 2][..]));
            0
        }),
        Ok(())
    );
    assert_eq!(restore_state(7, &[1], |_, _| 5), Err(SpeculativeStateError::Unavailable));
}

#[test]
fn state_errors_have_their_texts() {
    let texts = [
        (
            SpeculativeStateError::Null,
            "speculative state operation received a null native value",
        ),
        (
            SpeculativeStateError::BadSequence,
            "speculative state sequence id is outside the configured range",
        ),
        (
            SpeculativeStateError::NotQuiescent,
            "speculative state is available only at a quiescent boundary",
        ),
        (
            SpeculativeStateError::SizeChanged { expected: 10, actual: 0 },
            "speculative state size changed from 10 to 0 bytes",
        ),
        (
            SpeculativeStateError::BufferTooSmall,
            "the speculative state buffer was too small",
        ),
        (
            SpeculativeStateError::Unavailable,
            "the active speculative implementation did not expose complete state",
        ),
        (
            SpeculativeStateError::Invalid,
            "speculative state is invalid for this session",
        ),
        (SpeculativeStateError::Overflow, "speculative state size overflowed"),
        (
            SpeculativeStateError::Exception,
            "the native speculative-state operation raised an exception",
        ),
        (
            SpeculativeStateError::Excessive { size: 12, maximum: 7 },
            "speculative state is 12 bytes, exceeding the 7-byte bound",
        ),
        (
            SpeculativeStateError::Unknown(u32::MAX),
            "unknown speculative state status 4294967295",
        ),
    ];
    for (error, text) in texts {
        assert_eq!(error.to_string(), text);
    }
}

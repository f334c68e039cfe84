use llama_cpp_4::context::params::LlamaContextType;
use llama_cpp_4::eagle::{
    valid_target_layer_ids, validate_contexts, DraftProfile, DraftReply, Eagle3Session,
    Eagle3SessionConfig, Eagle3SessionError, NativeSessionConfig, TargetProfile,
};
use llama_cpp_4::float32::Float32;
use llama_cpp_4::speculative::{
    SpeculativeContextCapacity, SpeculativeStateError, StateCopyReply, StateSizeReply,
    MAX_SPECULATIVE_PROMPT_TOKENS,
};
use llama_cpp_4::token::LlamaToken;

fn capacity(batch: u32) -> SpeculativeContextCapacity {
    SpeculativeContextCapacity {
        batch,
        micro_batch: batch,
        recurrent_slots: 0,
        recurrent_or_hybrid: false,
    }
}

fn target() -> TargetProfile {
    TargetProfile {
        context_type: LlamaContextType::Default,
        n_seq_max: 4,
        capacity: capacity(512),
        n_layer: 8,
        architecture: Some("qwen3".to_owned()),
    }
}

fn draft() -> DraftProfile {
    DraftProfile {
        context_type: LlamaContextType::Default,
        n_seq_max: 2,
        capacity: capacity(256),
        target_layer_ids: vec![1, 4, 7],
    }
}

fn session() -> Eagle3Session {
    Eagle3Session::new(&target(), &draft(), 2, 3, |_, _, _| Ok(()), |_| true).unwrap()
}

fn propose(session: &mut Eagle3Session, seq_id: i32, tokens: &[i32]) -> Vec<i32> {
    session
        .draft(seq_id, 5, LlamaToken(42), |mut request| {
            assert_eq!((request.seq_id, request.n_past, request.id_last), (seq_id, 5, 42));
            assert_eq!(request.capacity, 3);
            assert_eq!(request.buffer, vec![0, 0, 0]);
            request.buffer[..tokens.len()].copy_from_slice(tokens);
            DraftReply { ok: true, count: tokens.len() as i32, buffer: request.buffer }
        })
        .unwrap()
        .into_iter()
        .map(|token| token.0)
        .collect()
}

#[test]
fn validates_transformer_and_terminal_nextn_sites() {
    assert!(valid_target_layer_ids(&[1, 4, 7], 8, false));
    assert!(!valid_target_layer_ids(&[1, 4], 8, false));
    assert!(!valid_target_layer_ids(&[1, -1, 7], 8, false));
    assert!(!valid_target_layer_ids(&[1, 4, 8], 8, false));
    assert!(valid_target_layer_ids(&[1, 4, 8], 8, true));
    assert!(!valid_target_layer_ids(&[1, 4, 9], 8, true));
}

#[test]
fn sessions_are_created_with_their_configuration() {
    let p_min = Float32::from_bits(0.5_f32.to_bits());
    let config = Eagle3SessionConfig::new(2, 3).with_n_min(1).with_p_min(p_min);
    let session = Eagle3Session::new_with_config(
        &target(),
        &draft(),
        config,
        |target, draft, tokens| {
            assert_eq!((target, draft, tokens), (capacity(512), capacity(256), 3));
            Ok(())
        },
        |native| {
            assert_eq!(
                native,
                NativeSessionConfig { n_seq: 2, n_draft_max: 3, n_min: 1, p_min, spec_type: 1 }
            );
            true
        },
    )
    .unwrap();
    assert_eq!(session.config(), config);
    assert_eq!(
        (session.n_seq(), session.n_draft_max(), session.n_min(), session.p_min()),
        (2, 3, 1, p_min)
    );
    assert!(session.is_quiescent(true));
    assert!(!session.is_quiescent(false));
}

#[test]
fn refused_sessions_are_not_created() {
    let create = |config: Eagle3SessionConfig, target: TargetProfile, draft: DraftProfile| {
        Eagle3Session::new_with_config(
            &target,
            &draft,
            config,
            |_, _, _| Ok(()),
            |_| panic!("nothing is created"),
        )
        .unwrap_err()
    };
    assert_eq!(
        create(Eagle3SessionConfig::new(0, 3), target(), draft()),
        Eagle3SessionError::InvalidConfig("n_seq is outside the supported bound")
    );
    let config = Eagle3SessionConfig::new(2, 3);
    let kinds =
        Eagle3SessionError::IncompatibleContexts("target and draft must both be Default contexts");
    assert_eq!(
        create(config, TargetProfile { context_type: LlamaContextType::Mtp, ..target() }, draft()),
        kinds
    );
    assert_eq!(
        create(config, target(), DraftProfile { context_type: LlamaContextType::Mtp, ..draft() }),
        kinds
    );
    let sequences = Eagle3SessionError::IncompatibleContexts(
        "target sequence capacity is too small or draft capacity differs from n_seq",
    );
    assert_eq!(create(config, TargetProfile { n_seq_max: 1, ..target() }, draft()), sequences);
    assert_eq!(create(config, target(), DraftProfile { n_seq_max: 3, ..draft() }), sequences);
    assert_eq!(
        create(config, TargetProfile { architecture: None, ..target() }, draft()),
        Eagle3SessionError::IncompatibleContexts("target model architecture metadata is unavailable")
    );
    let sites = Eagle3SessionError::IncompatibleContexts(
        "draft must name exactly three supported target extraction sites",
    );
    let behind = || DraftProfile { target_layer_ids: vec![1, 4, 8], ..draft() };
    assert_eq!(create(config, target(), behind()), sites);
    let gpt_oss = TargetProfile { architecture: Some("gpt-oss".to_owned()), ..target() };
    assert!(validate_contexts(&gpt_oss, &behind(), config, |_, _, _| Ok(())).is_ok());
    assert_eq!(
        validate_contexts(&target(), &draft(), config, |_, _, _| Err("too small")),
        Err(Eagle3SessionError::IncompatibleContexts("too small"))
    );
    assert_eq!(
        validate_contexts(&target(), &draft(), Eagle3SessionConfig::new(2, -1), |_, _, _| Ok(())),
        Err(Eagle3SessionError::InvalidConfig("n_draft_max exceeds u32"))
    );
    assert_eq!(
        Eagle3Session::new(&target(), &draft(), 2, 3, |_, _, _| Ok(()), |_| false).unwrap_err(),
        Eagle3SessionError::Init
    );
}

#[test]
fn proposals_wait_for_their_verdict() {
    let mut session = session();
    assert_eq!(propose(&mut session, 1, &[7, 8]), [7, 8]);
    assert!(!session.is_quiescent(true));
    assert_eq!(
        session.draft(1, 5, LlamaToken(42), |_| panic!("nothing is drafted")),
        Err(Eagle3SessionError::ProposalPending { seq_id: 1 })
    );
    // The other sequence is not affected.
    assert_eq!(propose(&mut session, 0, &[9]), [9]);
    assert_eq!(
        session.accept(1, 3, |_, _| panic!("nothing is reported")),
        Err(Eagle3SessionError::AcceptedTooMany { accepted: 3, proposed: 2 })
    );
    assert_eq!(session.accept(1, 2, |_, _| false), Err(Eagle3SessionError::Accept));
    assert_eq!(
        session.accept(1, 2, |seq_id, n_accepted| (seq_id, n_accepted) == (1, 2)),
        Ok(())
    );
    assert_eq!(
        session.accept(1, 0, |_, _| panic!("nothing is reported")),
        Err(Eagle3SessionError::NoPendingProposal { seq_id: 1 })
    );
    assert!(!session.is_quiescent(true));
    assert_eq!(session.accept(0, 0, |_, _| true), Ok(()));
    assert!(session.is_quiescent(true));
    assert_eq!(propose(&mut session, 1, &[1, 2, 3]), [1, 2, 3]);
}

#[test]
fn empty_and_odd_drafts_are_taken_as_they_are() {
    let mut session = session();
    assert_eq!(propose(&mut session, 0, &[]), [0_i32; 0]);
    assert!(session.is_quiescent(true));
    let reply = |ok: bool, count: i32| move |request: llama_cpp_4::eagle::DraftRequest| DraftReply {
        ok,
        count,
        buffer: request.buffer,
    };
    assert_eq!(
        session.draft(0, 0, LlamaToken(1), reply(false, 2)),
        Err(Eagle3SessionError::Draft)
    );
    assert!(session.is_quiescent(true));
    assert_eq!(session.draft(0, 0, LlamaToken(1), reply(true, -2)), Ok(vec![]));
    assert!(session.is_quiescent(true));
    // A count beyond the room hands out, and waits for the verdict on, what there is room for.
    assert_eq!(session.draft(0, 0, LlamaToken(1), reply(true, 5)).unwrap().len(), 3);
    assert_eq!(
        session.accept(0, 4, |_, _| panic!("nothing is reported")),
        Err(Eagle3SessionError::AcceptedTooMany { accepted: 4, proposed: 3 })
    );
    assert_eq!(session.accept(0, 3, |_, _| true), Ok(()));
}

#[test]
fn sequences_are_checked_first() {
    let mut session = session();
    for seq_id in [-1, 2, i32::MAX, i32::MIN] {
        let bad = || Eagle3SessionError::BadSeqId { seq_id, n_seq: 2 };
        assert_eq!(session.begin(seq_id, &[], true, |_, _| true), Err(bad()));
        assert_eq!(session.draft(seq_id, 0, LlamaToken(0), |_| panic!("no")), Err(bad()));
        assert_eq!(session.accept(seq_id, 0, |_, _| true), Err(bad()));
        assert_eq!(
            session.speculative_state(seq_id, true, |_| panic!("no"), |_, _| panic!("no")),
            Err(bad())
        );
        assert_eq!(session.restore_speculative_state(seq_id, &[1], true, |_, _| 0), Err(bad()));
    }
}

#[test]
fn generations_begin_only_when_settled_and_bounded() {
    let mut session = session();
    let prompt = [LlamaToken(1), LlamaToken(2)];
    assert_eq!(
        session.begin(1, &prompt, true, |seq_id, tokens| {
            assert_eq!((seq_id, tokens), (1, &prompt[..]));
            true
        }),
        Ok(())
    );
    assert_eq!(session.begin(1, &prompt, true, |_, _| false), Err(Eagle3SessionError::Begin));
    assert_eq!(
        session.begin(1, &prompt, false, |_, _| true),
        Err(Eagle3SessionError::State(SpeculativeStateError::NotQuiescent))
    );
    let long = vec![LlamaToken(0); MAX_SPECULATIVE_PROMPT_TOKENS + 1];
    assert_eq!(
        session.begin(1, &long, true, |_, _| true),
        Err(Eagle3SessionError::PromptTooLong {
            size: MAX_SPECULATIVE_PROMPT_TOKENS + 1,
            maximum: MAX_SPECULATIVE_PROMPT_TOKENS,
        })
    );
    assert_eq!(
        session.begin(1, &long[1..], true, |_, _| true),
        Ok(())
    );
    propose(&mut session, 0, &[4]);
    assert_eq!(
        session.begin(1, &prompt, true, |_, _| true),
        Err(Eagle3SessionError::ProposalPending { seq_id: 0 })
    );
}

#[test]
fn state_is_available_only_when_settled() {
    let mut session = session();
    let state = |session: &Eagle3Session| {
        session.speculative_state(
            1,
            true,
            |seq_id| {
                assert_eq!(seq_id, 1);
                StateSizeReply { status: 0, size: 2 }
            },
            |seq_id, mut state| {
                assert_eq!(seq_id, 1);
                state[1] = 9;
                StateCopyReply { status: 0, written: 2, state }
            },
        )
    };
    assert_eq!(state(&session), Ok(vec![0, 9]));
    assert_eq!(
        session.restore_speculative_state(1, &[0, 9], true, |seq_id, state| {
            assert_eq!((seq_id, state), (1, &[0, 9][..]));
            0
        }),
        Ok(())
    );
    assert_eq!(
        session.restore_speculative_state(1, &[0, 9], true, |_, _| 6),
        Err(Eagle3SessionError::State(SpeculativeStateError::Invalid))
    );
    assert_eq!(
        session.restore_speculative_state(1, &[], true, |_, _| 0),
        Err(Eagle3SessionError::State(SpeculativeStateError::Invalid))
    );
    propose(&mut session, 1, &[4]);
    assert_eq!(state(&session), Err(Eagle3SessionError::ProposalPending { seq_id: 1 }));
    assert_eq!(
        session.restore_speculative_state(0, &[1], true, |_, _| 0),
        Err(Eagle3SessionError::ProposalPending { seq_id: 1 })
    );
}

#[test]
fn decoding_stays_available_during_verification() {
    let mut session = session();
    propose(&mut session, 0, &[4]);
    assert_eq!(session.decode_target(&3, |batch| if *batch == 3 { Ok(()) } else { Err(String::new()) }), Ok(()));
    assert_eq!(
        session.decode_target_and_process(
            &3,
            |_| Err("no slot".to_owned()),
            |_| panic!("not decoded")
        ),
        Err(Eagle3SessionError::Decode("no slot".to_owned()))
    );
    // The batch that is harvested is the one that was decoded.
    assert_eq!(
        session.decode_target_and_process(
            &3,
            |batch| if *batch == 3 { Ok(()) } else { Err(String::new()) },
            |batch| *batch == 3
        ),
        Ok(())
    );
    assert_eq!(
        session.decode_target_and_process(&3, |_| Ok(()), |_| false),
        Err(Eagle3SessionError::Process)
    );
    assert_eq!(session.process(&3, |batch| *batch == 3), Ok(()));
}

#[test]
fn session_errors_have_their_texts() {
    let texts = [
        (
            Eagle3SessionError::Init,
            "failed to create EAGLE-3 draft session — check that `draft` is a context over a valid EAGLE-3 draft model (3 extract layers) built from the same target",
        ),
        (Eagle3SessionError::Process, "EAGLE-3 process failed (see llama.cpp logs)"),
        (Eagle3SessionError::Begin, "EAGLE-3 begin failed"),
        (Eagle3SessionError::Draft, "EAGLE-3 draft failed"),
        (Eagle3SessionError::Accept, "EAGLE-3 accept failed"),
        (
            Eagle3SessionError::PromptTooLong { size: 30, maximum: 20 },
            "prompt has 30 tokens, exceeding the 20-token bound",
        ),
        (
            Eagle3SessionError::IncompatibleContexts("why"),
            "incompatible EAGLE-3 contexts: why",
        ),
        (
            Eagle3SessionError::BadSeqId { seq_id: i32::MIN, n_seq: 1 },
            "sequence id -2147483648 out of range (n_seq = 1)",
        ),
        (
            Eagle3SessionError::InvalidConfig("why"),
            "invalid EAGLE-3 session config: why",
        ),
        (Eagle3SessionError::Decode("why".to_owned()), "target decode failed: why"),
        (
            Eagle3SessionError::ProposalPending { seq_id: 10 },
            "sequence 10 still has an unaccepted draft proposal",
        ),
        (
            Eagle3SessionError::NoPendingProposal { seq_id: 0 },
            "sequence 0 has no draft proposal to accept",
        ),
        (
            Eagle3SessionError::AcceptedTooMany { accepted: 3, proposed: 2 },
            "accepted 3 tokens from a 2-token proposal",
        ),
        (
            Eagle3SessionError::State(SpeculativeStateError::Overflow),
            "speculative state size overflowed",
        ),
    ];
    for (error, text) in texts {
        assert_eq!(error.to_string(), text);
    }
}

#[test]
fn configurations_are_compared_by_number() {
    let config = |p_min: f32| {
        Eagle3SessionConfig::new(1, 1).with_p_min(Float32::from_bits(p_min.to_bits()))
    };
    assert_eq!(config(0.0), config(-0.0));
    assert_ne!(config(0.0), config(0.5));
    assert_ne!(config(f32::NAN), config(f32::NAN));
}

#[test]
fn quiescence_is_refused_for_the_first_open_sequence() {
    let mut session = session();
    assert_eq!(session.require_quiescent(true), Ok(()));
    assert_eq!(
        session.require_quiescent(false),
        Err(Eagle3SessionError::State(SpeculativeStateError::NotQuiescent))
    );
    propose(&mut session, 1, &[4]);
    assert_eq!(
        session.require_quiescent(false),
        Err(Eagle3SessionError::ProposalPending { seq_id: 1 })
    );
    propose(&mut session, 0, &[4]);
    assert_eq!(
        session.require_quiescent(true),
        Err(Eagle3SessionError::ProposalPending { seq_id: 0 })
    );
}

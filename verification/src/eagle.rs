//! EAGLE-3 draft sessions.
//!
//! [`Eagle3Session`] keeps the lifecycle of speculative decoding with a separately trained draft
//! model that predicts the next tokens from hidden states of the target model. After each decode
//! on the target the batch is processed, candidate tokens are drafted, the target verifies them,
//! and the accepted prefix is reported. Continuation state can be read or restored only after
//! every proposal has been resolved.
//!
//! The native session is reached through the closures that the operations take; every check is
//! made before the closure is called.

use crate::context::params::LlamaContextType;
use crate::float32::Float32;
use crate::names::same_name;
use crate::speculative::{
    capture_state,
    captured,
    config_rejection,
    is_room_for,
    restore_state,
    state_rejection,
    status_outcome,
    validate_config,
    SpeculativeContextCapacity,
    SpeculativeStateError,
    StateCopyReply,
    StateSizeReply,
    MAX_SPECULATIVE_PROMPT_TOKENS,
};
use crate::text::{decimal, decimal_string, signed_decimal, signed_decimal_string};
use crate::token::LlamaToken;
use vstd::prelude::*;
use vstd::string::*;

verus! {

/// The native code of EAGLE-3 among speculative techniques.
pub const SPEC_TYPE_EAGLE3: i32 = 1;

/// The mathematical content of a session error.
pub enum Eagle3SessionErrorView {
    /// Session creation failed.
    Init,
    /// The native process call failed.
    Process,
    /// The native begin call failed.
    Begin,
    /// The native draft call failed.
    Draft,
    /// The native accept call failed.
    Accept,
    /// The prompt is too long.
    PromptTooLong {
        /// Supplied tokens.
        size: usize,
        /// Inclusive bound.
        maximum: usize,
    },
    /// The contexts do not fit together.
    IncompatibleContexts(Seq<char>),
    /// The sequence is out of range.
    BadSeqId {
        /// The sequence.
        seq_id: i32,
        /// Configured sequences.
        n_seq: u32,
    },
    /// The configuration is refused.
    InvalidConfig(Seq<char>),
    /// The target failed to decode.
    Decode(Seq<char>),
    /// A proposal is open.
    ProposalPending {
        /// The sequence.
        seq_id: i32,
    },
    /// No proposal is open.
    NoPendingProposal {
        /// The sequence.
        seq_id: i32,
    },
    /// More was accepted than proposed.
    AcceptedTooMany {
        /// Accepted prefix length.
        accepted: u16,
        /// Proposal length.
        proposed: usize,
    },
    /// State capture or restore failed.
    State(SpeculativeStateError),
}

impl Eagle3SessionErrorView {
    /// The error as text.
    pub open spec fn display(self) -> Seq<char> {
        match self {
            Eagle3SessionErrorView::Init =>
                "failed to create EAGLE-3 draft session — check that `draft` is a context over a valid EAGLE-3 draft model (3 extract layers) built from the same target"@,
            Eagle3SessionErrorView::Process => "EAGLE-3 process failed (see llama.cpp logs)"@,
            Eagle3SessionErrorView::Begin => "EAGLE-3 begin failed"@,
            Eagle3SessionErrorView::Draft => "EAGLE-3 draft failed"@,
            Eagle3SessionErrorView::Accept => "EAGLE-3 accept failed"@,
            Eagle3SessionErrorView::PromptTooLong { size, maximum } => "prompt has "@ + decimal(
                size as nat,
            ) + " tokens, exceeding the "@ + decimal(maximum as nat) + "-token bound"@,
            Eagle3SessionErrorView::IncompatibleContexts(message) =>
                "incompatible EAGLE-3 contexts: "@ + message,
            Eagle3SessionErrorView::BadSeqId { seq_id, n_seq } => "sequence id "@ + signed_decimal(
                seq_id as int,
            ) + " out of range (n_seq = "@ + decimal(n_seq as nat) + ")"@,
            Eagle3SessionErrorView::InvalidConfig(message) =>
                "invalid EAGLE-3 session config: "@ + message,
            Eagle3SessionErrorView::Decode(message) => "target decode failed: "@ + message,
            Eagle3SessionErrorView::ProposalPending { seq_id } => "sequence "@ + signed_decimal(
                seq_id as int,
            ) + " still has an unaccepted draft proposal"@,
            Eagle3SessionErrorView::NoPendingProposal { seq_id } => "sequence "@ + signed_decimal(
                seq_id as int,
            ) + " has no draft proposal to accept"@,
            Eagle3SessionErrorView::AcceptedTooMany { accepted, proposed } => "accepted "@
                + decimal(accepted as nat) + " tokens from a "@ + decimal(proposed as nat)
                + "-token proposal"@,
            Eagle3SessionErrorView::State(error) => error.display(),
        }
    }
}

/// Errors raised by the EAGLE-3 draft session.
#[derive(Debug, PartialEq, Eq)]
pub enum Eagle3SessionError {
    /// Session creation failed. The most common cause is that the draft was not built from a
    /// valid EAGLE-3 draft model, which exposes exactly three target-extract layers, or that one
    /// of the contexts is incompatible.
    Init,
    /// The native process call failed.
    Process,
    /// Native prompt initialization failed or raised a contained exception.
    Begin,
    /// Native draft generation failed or raised a contained exception.
    Draft,
    /// Native proposal acceptance failed or raised a contained exception.
    Accept,
    /// Prompt storage exceeds the safe speculative-session bound.
    PromptTooLong {
        /// Caller-supplied prompt-token count.
        size: usize,
        /// Inclusive safe prompt-token bound.
        maximum: usize,
    },
    /// The supplied contexts do not satisfy the native EAGLE-3 contract.
    IncompatibleContexts(&'static str),
    /// The sequence id is outside the configured sequences.
    BadSeqId {
        /// The offending sequence id.
        seq_id: i32,
        /// Configured number of sequences.
        n_seq: u32,
    },
    /// Invalid session configuration.
    InvalidConfig(&'static str),
    /// The target context failed to decode, with the text of its error.
    Decode(String),
    /// An operation requires all draft proposals to be completed first.
    ProposalPending {
        /// Sequence with a pending proposal.
        seq_id: i32,
    },
    /// `accept` was called without a preceding nonempty draft.
    NoPendingProposal {
        /// Sequence without a pending proposal.
        seq_id: i32,
    },
    /// The accepted prefix exceeds the proposal length.
    AcceptedTooMany {
        /// Accepted prefix length.
        accepted: u16,
        /// Exact proposal length.
        proposed: usize,
    },
    /// Exact speculative-state capture or restore failed.
    State(SpeculativeStateError),
}

impl View for Eagle3SessionError {
    type V = Eagle3SessionErrorView;

    open spec fn view(&self) -> Eagle3SessionErrorView {
        match self {
            Eagle3SessionError::Init => Eagle3SessionErrorView::Init,
            Eagle3SessionError::Process => Eagle3SessionErrorView::Process,
            Eagle3SessionError::Begin => Eagle3SessionErrorView::Begin,
            Eagle3SessionError::Draft => Eagle3SessionErrorView::Draft,
            Eagle3SessionError::Accept => Eagle3SessionErrorView::Accept,
            Eagle3SessionError::PromptTooLong { size, maximum } =>
                Eagle3SessionErrorView::PromptTooLong { size: *size, maximum: *maximum },
            Eagle3SessionError::IncompatibleContexts(message) =>
                Eagle3SessionErrorView::IncompatibleContexts(message@),
            Eagle3SessionError::BadSeqId { seq_id, n_seq } => Eagle3SessionErrorView::BadSeqId {
                seq_id: *seq_id,
                n_seq: *n_seq,
            },
            Eagle3SessionError::InvalidConfig(message) =>
                Eagle3SessionErrorView::InvalidConfig(message@),
            Eagle3SessionError::Decode(message) => Eagle3SessionErrorView::Decode(message@),
            Eagle3SessionError::ProposalPending { seq_id } =>
                Eagle3SessionErrorView::ProposalPending { seq_id: *seq_id },
            Eagle3SessionError::NoPendingProposal { seq_id } =>
                Eagle3SessionErrorView::NoPendingProposal { seq_id: *seq_id },
            Eagle3SessionError::AcceptedTooMany { accepted, proposed } =>
                Eagle3SessionErrorView::AcceptedTooMany {
                accepted: *accepted,
                proposed: *proposed,
            },
            Eagle3SessionError::State(error) => Eagle3SessionErrorView::State(*error),
        }
    }
}

impl Eagle3SessionError {
    /// Writes the error as text.
    pub fn to_string(&self) -> (text: String)
        ensures
            text@ == self@.display(),
    {
        match self {
            Eagle3SessionError::Init =>
                "failed to create EAGLE-3 draft session — check that `draft` is a context over a valid EAGLE-3 draft model (3 extract layers) built from the same target".to_owned(),
            Eagle3SessionError::Process => "EAGLE-3 process failed (see llama.cpp logs)".to_owned(),
            Eagle3SessionError::Begin => "EAGLE-3 begin failed".to_owned(),
            Eagle3SessionError::Draft => "EAGLE-3 draft failed".to_owned(),
            Eagle3SessionError::Accept => "EAGLE-3 accept failed".to_owned(),
            Eagle3SessionError::PromptTooLong { size, maximum } => {
                let mut text = "prompt has ".to_owned();
                text.append(decimal_string(*size as u64).as_str());
                text.append(" tokens, exceeding the ");
                text.append(decimal_string(*maximum as u64).as_str());
                text.append("-token bound");
                text
            },
            Eagle3SessionError::IncompatibleContexts(message) => {
                let mut text = "incompatible EAGLE-3 contexts: ".to_owned();
                text.append(*message);
                text
            },
            Eagle3SessionError::BadSeqId { seq_id, n_seq } => {
                let mut text = "sequence id ".to_owned();
                text.append(signed_decimal_string(*seq_id).as_str());
                text.append(" out of range (n_seq = ");
                text.append(decimal_string(*n_seq as u64).as_str());
                text.append(")");
                text
            },
            Eagle3SessionError::InvalidConfig(message) => {
                let mut text = "invalid EAGLE-3 session config: ".to_owned();
                text.append(*message);
                text
            },
            Eagle3SessionError::Decode(message) => {
                let mut text = "target decode failed: ".to_owned();
                text.append(message.as_str());
                text
            },
            Eagle3SessionError::ProposalPending { seq_id } => {
                let mut text = "sequence ".to_owned();
                text.append(signed_decimal_string(*seq_id).as_str());
                text.append(" still has an unaccepted draft proposal");
                text
            },
            Eagle3SessionError::NoPendingProposal { seq_id } => {
                let mut text = "sequence ".to_owned();
                text.append(signed_decimal_string(*seq_id).as_str());
                text.append(" has no draft proposal to accept");
                text
            },
            Eagle3SessionError::AcceptedTooMany { accepted, proposed } => {
                let mut text = "accepted ".to_owned();
                text.append(decimal_string(*accepted as u64).as_str());
                text.append(" tokens from a ");
                text.append(decimal_string(*proposed as u64).as_str());
                text.append("-token proposal");
                text
            },
            Eagle3SessionError::State(error) => error.to_string(),
        }
    }
}

/// Parameters for [`Eagle3Session::new_with_config`].
#[derive(Clone, Copy, Debug, PartialEq)]
pub struct Eagle3SessionConfig {
    /// Number of concurrent sequences, usually one.
    pub n_seq: u32,
    /// Maximum tokens drafted per [`Eagle3Session::draft`] call.
    pub n_draft_max: i32,
    /// Minimum draft tokens to propose.
    pub n_min: i32,
    /// Greedy probability floor; drafts below this are dropped.
    pub p_min: Float32,
}

impl Eagle3SessionConfig {
    /// Builds a configuration that proposes any number of tokens of any probability.
    pub fn new(n_seq: u32, n_draft_max: i32) -> (config: Self)
        ensures
            config == plain_config(n_seq, n_draft_max),
            config.n_seq == n_seq,
            config.n_draft_max == n_draft_max,
            config.n_min == 0,
            config.p_min.bits == 0,
            config.p_min.scaled_value() == 0,
    {
        Eagle3SessionConfig { n_seq, n_draft_max, n_min: 0, p_min: Float32::from_bits(0) }
    }

    /// Sets the minimum draft tokens.
    pub fn with_n_min(self, n_min: i32) -> (config: Self)
        ensures
            config == (Eagle3SessionConfig { n_min, ..self }),
    {
        Eagle3SessionConfig { n_min, ..self }
    }

    /// Sets the draft probability floor.
    ///
    /// Draft tokens whose greedy probability falls below this value are dropped.
    pub fn with_p_min(self, p_min: Float32) -> (config: Self)
        ensures
            config == (Eagle3SessionConfig { p_min, ..self }),
    {
        Eagle3SessionConfig { p_min, ..self }
    }

    /// Why the configuration is refused, or nothing where it is accepted.
    pub open spec fn rejection(self) -> Option<Seq<char>> {
        config_rejection(self.n_seq, self.n_draft_max, self.n_min, self.p_min)
    }
}

/// What a session needs to know of its target context.
#[derive(Debug)]
pub struct TargetProfile {
    /// Context type.
    pub context_type: LlamaContextType,
    /// Sequence capacity.
    pub n_seq_max: u32,
    /// Batch and recurrent-state capacity.
    pub capacity: SpeculativeContextCapacity,
    /// Layers of the model.
    pub n_layer: i32,
    /// The `general.architecture` metadata, unless it is unavailable.
    pub architecture: Option<String>,
}

/// What a session needs to know of its draft context.
#[derive(Debug)]
pub struct DraftProfile {
    /// Context type.
    pub context_type: LlamaContextType,
    /// Sequence capacity.
    pub n_seq_max: u32,
    /// Batch and recurrent-state capacity.
    pub capacity: SpeculativeContextCapacity,
    /// Target layers that the draft model reads.
    pub target_layer_ids: Vec<i32>,
}

/// Whether exactly three extraction sites are named and each is a layer of the target, or the
/// site behind its last layer where the target has one.
pub open spec fn supported_sites(
    layer_ids: Seq<i32>,
    target_layers: i32,
    terminal_nextn_site: bool,
) -> bool {
    &&& target_layers > 0
    &&& layer_ids.len() == 3
    &&& forall|i: int|
        0 <= i < layer_ids.len() ==> 0 <= #[trigger] layer_ids[i] && (layer_ids[i] < target_layers
            || (layer_ids[i] == target_layers && terminal_nextn_site))
}

/// Checks the target extraction sites of a draft model.
pub fn valid_target_layer_ids(
    layer_ids: &[i32],
    target_layers: i32,
    terminal_nextn_site: bool,
) -> (valid: bool)
    ensures
        valid == supported_sites(layer_ids@, target_layers, terminal_nextn_site),
{
    if target_layers <= 0 || layer_ids.len() != 3 {
        return false;
    }
    let mut i: usize = 0;
    while i < layer_ids.len()
        invariant
            i <= layer_ids.len(),
            forall|j: int|
                0 <= j < i ==> 0 <= #[trigger] layer_ids@[j] && (layer_ids@[j] < target_layers || (
                layer_ids@[j] == target_layers && terminal_nextn_site)),
        decreases layer_ids.len() - i,
    {
        let layer: i32 = layer_ids[i];
        if !(layer >= 0 && (layer < target_layers || (layer == target_layers
            && terminal_nextn_site))) {
            return false;
        }
        i = i + 1;
    }
    true
}

/// Why two contexts cannot share a session by their types and sequence capacities.
pub open spec fn topology_rejection(
    target: TargetProfile,
    draft: DraftProfile,
    config: Eagle3SessionConfig,
) -> Option<Eagle3SessionErrorView> {
    if target.context_type != LlamaContextType::Default || draft.context_type
        != LlamaContextType::Default {
        Some(
            Eagle3SessionErrorView::IncompatibleContexts(
                "target and draft must both be Default contexts"@,
            ),
        )
    } else if target.n_seq_max < config.n_seq || draft.n_seq_max != config.n_seq {
        Some(
            Eagle3SessionErrorView::IncompatibleContexts(
                "target sequence capacity is too small or draft capacity differs from n_seq"@,
            ),
        )
    } else if config.n_draft_max < 0 {
        Some(Eagle3SessionErrorView::InvalidConfig("n_draft_max exceeds u32"@))
    } else {
        None
    }
}

/// Why a draft model cannot read its hidden states from a target model.
pub open spec fn extraction_rejection(target: TargetProfile, draft: DraftProfile) -> Option<
    Eagle3SessionErrorView,
> {
    match target.architecture {
        None => Some(
            Eagle3SessionErrorView::IncompatibleContexts(
                "target model architecture metadata is unavailable"@,
            ),
        ),
        Some(architecture) => if supported_sites(
            draft.target_layer_ids@,
            target.n_layer,
            architecture@ == "gpt-oss"@,
        ) {
            None
        } else {
            Some(
                Eagle3SessionErrorView::IncompatibleContexts(
                    "draft must name exactly three supported target extraction sites"@,
                ),
            )
        },
    }
}

/// Why two contexts cannot share a session, given the verdict on their capacities, or nothing
/// where they can.
pub open spec fn contexts_rejection(
    target: TargetProfile,
    draft: DraftProfile,
    config: Eagle3SessionConfig,
    capacities: Result<(), &'static str>,
) -> Option<Eagle3SessionErrorView> {
    if topology_rejection(target, draft, config) is Some {
        topology_rejection(target, draft, config)
    } else {
        match capacities {
            Err(message) => Some(Eagle3SessionErrorView::IncompatibleContexts(message@)),
            Ok(()) => extraction_rejection(target, draft),
        }
    }
}

/// The outcome of a check as seen by its caller.
pub open spec fn fails_with<T>(
    result: Result<T, Eagle3SessionError>,
    rejection: Option<Eagle3SessionErrorView>,
) -> bool {
    match result {
        Ok(_) => rejection is None,
        Err(error) => rejection == Some(error@),
    }
}

/// Checks that two contexts can share a session. `check_capacities` judges their batch and
/// recurrent-state capacities against the tokens that may be drafted; it is called only where
/// their types and sequence capacities fit.
pub fn validate_contexts(
    target: &TargetProfile,
    draft: &DraftProfile,
    config: Eagle3SessionConfig,
    check_capacities: impl FnOnce(
        SpeculativeContextCapacity,
        SpeculativeContextCapacity,
        u32,
    ) -> Result<(), &'static str>,
) -> (result: Result<(), Eagle3SessionError>)
    requires
        topology_rejection(*target, *draft, config) is None ==> check_capacities.requires(
            (target.capacity, draft.capacity, config.n_draft_max as u32),
        ),
    ensures
        topology_rejection(*target, *draft, config) is Some ==> fails_with(
            result,
            topology_rejection(*target, *draft, config),
        ),
        topology_rejection(*target, *draft, config) is None ==> exists|
            verdict: Result<(), &'static str>,
        | #[trigger]
            check_capacities.ensures(
                (target.capacity, draft.capacity, config.n_draft_max as u32),
                verdict,
            ) && fails_with(result, contexts_rejection(*target, *draft, config, verdict)),
{
    if target.context_type != LlamaContextType::Default || draft.context_type
        != LlamaContextType::Default {
        return Err(
            Eagle3SessionError::IncompatibleContexts(
                "target and draft must both be Default contexts",
            ),
        );
    }
    if target.n_seq_max < config.n_seq || draft.n_seq_max != config.n_seq {
        return Err(
            Eagle3SessionError::IncompatibleContexts(
                "target sequence capacity is too small or draft capacity differs from n_seq",
            ),
        );
    }
    if config.n_draft_max < 0 {
        return Err(Eagle3SessionError::InvalidConfig("n_draft_max exceeds u32"));
    }
    let required_draft: u32 = config.n_draft_max as u32;
    match check_capacities(target.capacity, draft.capacity, required_draft) {
        Ok(()) => {},
        Err(message) => return Err(Eagle3SessionError::IncompatibleContexts(message)),
    }
    let terminal_nextn_site = match &target.architecture {
        Some(architecture) => same_name(architecture.as_str(), "gpt-oss"),
        None => return Err(
            Eagle3SessionError::IncompatibleContexts(
                "target model architecture metadata is unavailable",
            ),
        ),
    };
    if !valid_target_layer_ids(
        draft.target_layer_ids.as_slice(),
        target.n_layer,
        terminal_nextn_site,
    ) {
        return Err(
            Eagle3SessionError::IncompatibleContexts(
                "draft must name exactly three supported target extraction sites",
            ),
        );
    }
    Ok(())
}

/// The state of a session: its configuration and, for each sequence, the length of the proposal
/// that still waits for its verdict.
#[verifier::ext_equal]
pub struct Eagle3SessionView {
    /// Session configuration.
    pub config: Eagle3SessionConfig,
    /// Open proposals by sequence.
    pub pending: Seq<Option<usize>>,
}

impl Eagle3SessionView {
    /// A new session.
    pub open spec fn initial(config: Eagle3SessionConfig) -> Self {
        Eagle3SessionView { config, pending: Seq::new(config.n_seq as nat, |i: int| None) }
    }

    /// A session has an accepted configuration, a slot for each sequence, and no empty proposal.
    pub open spec fn well_formed(self) -> bool {
        &&& self.config.rejection() is None
        &&& self.pending.len() == self.config.n_seq
        &&& forall|i: int|
            0 <= i < self.pending.len() && (#[trigger] self.pending[i]) is Some
                ==> self.pending[i]->Some_0 > 0
    }

    /// Whether a sequence is one of the session's.
    pub open spec fn has_sequence(self, seq_id: i32) -> bool {
        0 <= seq_id < self.config.n_seq
    }

    /// Why a sequence is refused, or nothing where it is one of the session's.
    pub open spec fn sequence_rejection(self, seq_id: i32) -> Option<Eagle3SessionErrorView> {
        if self.has_sequence(seq_id) {
            None
        } else {
            Some(Eagle3SessionErrorView::BadSeqId { seq_id, n_seq: self.config.n_seq })
        }
    }

    /// Whether no proposal waits for its verdict.
    pub open spec fn settled(self) -> bool {
        forall|i: int| 0 <= i < self.pending.len() ==> (#[trigger] self.pending[i]) is None
    }

    /// The first sequence from `start` on with an open proposal, or the number of sequences.
    pub open spec fn first_open(self, start: int) -> int
        decreases self.pending.len() - start,
    {
        if start >= self.pending.len() || self.pending[start] is Some {
            start
        } else {
            self.first_open(start + 1)
        }
    }

    /// Why an operation that needs a quiescent session is refused, or nothing where it may run.
    pub open spec fn quiescence_rejection(self, native_quiescent: bool) -> Option<
        Eagle3SessionErrorView,
    > {
        if !self.settled() {
            Some(Eagle3SessionErrorView::ProposalPending { seq_id: self.first_open(0) as i32 })
        } else if !native_quiescent {
            Some(Eagle3SessionErrorView::State(SpeculativeStateError::NotQuiescent))
        } else {
            None
        }
    }

    /// Why a state operation is refused before it reaches the native side.
    pub open spec fn state_access_rejection(self, seq_id: i32, native_quiescent: bool) -> Option<
        Eagle3SessionErrorView,
    > {
        if self.sequence_rejection(seq_id) is Some {
            self.sequence_rejection(seq_id)
        } else {
            self.quiescence_rejection(native_quiescent)
        }
    }

    /// Why a fresh generation is refused before it reaches the native side.
    pub open spec fn begin_rejection(
        self,
        seq_id: i32,
        prompt_tokens: nat,
        native_quiescent: bool,
    ) -> Option<Eagle3SessionErrorView> {
        if self.state_access_rejection(seq_id, native_quiescent) is Some {
            self.state_access_rejection(seq_id, native_quiescent)
        } else if prompt_tokens > MAX_SPECULATIVE_PROMPT_TOKENS {
            Some(
                Eagle3SessionErrorView::PromptTooLong {
                    size: prompt_tokens as usize,
                    maximum: MAX_SPECULATIVE_PROMPT_TOKENS,
                },
            )
        } else {
            None
        }
    }

    /// Why a draft is refused before it reaches the native side.
    pub open spec fn draft_rejection(self, seq_id: i32) -> Option<Eagle3SessionErrorView> {
        if self.sequence_rejection(seq_id) is Some {
            self.sequence_rejection(seq_id)
        } else if self.pending[seq_id as int] is Some {
            Some(Eagle3SessionErrorView::ProposalPending { seq_id })
        } else {
            None
        }
    }

    /// The session after `count` tokens were proposed.
    pub open spec fn proposed(self, seq_id: i32, count: usize) -> Self {
        if count > 0 {
            Eagle3SessionView { pending: self.pending.update(seq_id as int, Some(count)), ..self }
        } else {
            self
        }
    }

    /// Why an acceptance is refused before it reaches the native side.
    pub open spec fn accept_rejection(self, seq_id: i32, n_accepted: u16) -> Option<
        Eagle3SessionErrorView,
    > {
        if self.sequence_rejection(seq_id) is Some {
            self.sequence_rejection(seq_id)
        } else {
            match self.pending[seq_id as int] {
                None => Some(Eagle3SessionErrorView::NoPendingProposal { seq_id }),
                Some(proposed) => if n_accepted > proposed {
                    Some(
                        Eagle3SessionErrorView::AcceptedTooMany {
                            accepted: n_accepted,
                            proposed,
                        },
                    )
                } else {
                    None
                },
            }
        }
    }

    /// The session after the verdict on a proposal.
    pub open spec fn resolved(self, seq_id: i32) -> Self {
        Eagle3SessionView { pending: self.pending.update(seq_id as int, None), ..self }
    }
}

/// What is handed to the native side when a session is created.
#[derive(Clone, Copy, Debug, PartialEq)]
pub struct NativeSessionConfig {
    /// Number of concurrent sequences.
    pub n_seq: u32,
    /// Maximum tokens per draft.
    pub n_draft_max: i32,
    /// Minimum draft tokens to propose.
    pub n_min: i32,
    /// Greedy probability floor.
    pub p_min: Float32,
    /// Speculative technique.
    pub spec_type: i32,
}

/// The native configuration of an EAGLE-3 session.
pub open spec fn native_config(config: Eagle3SessionConfig) -> NativeSessionConfig {
    NativeSessionConfig {
        n_seq: config.n_seq,
        n_draft_max: config.n_draft_max,
        n_min: config.n_min,
        p_min: config.p_min,
        spec_type: SPEC_TYPE_EAGLE3,
    }
}

/// What is handed to the native side for a draft.
#[derive(Debug)]
pub struct DraftRequest {
    /// The sequence.
    pub seq_id: i32,
    /// Tokens already in the target cache for the sequence.
    pub n_past: i32,
    /// The last token accepted on the target.
    pub id_last: i32,
    /// Zeroed space for the proposal.
    pub buffer: Vec<i32>,
    /// The room in the buffer.
    pub capacity: i32,
}

/// The native reply to a draft.
#[derive(Debug)]
pub struct DraftReply {
    /// Whether the draft succeeded.
    pub ok: bool,
    /// Tokens that were proposed.
    pub count: i32,
    /// The buffer that was handed over, filled from the front.
    pub buffer: Vec<i32>,
}

/// A token count out of a native number; a negative one counts as none.
pub open spec fn token_count(count: i32) -> usize {
    if count > 0 {
        count as usize
    } else {
        0
    }
}

/// The tokens of a native proposal: as many as were counted, and no more than there is room for.
pub open spec fn proposal(reply: DraftReply) -> Seq<LlamaToken> {
    let count = token_count(reply.count);
    Seq::new(
        if count <= reply.buffer@.len() {
            count as nat
        } else {
            reply.buffer@.len()
        },
        |i: int| LlamaToken(reply.buffer@[i]),
    )
}

/// Whether a request asks for a draft with zeroed room for the most tokens that may be drafted.
pub open spec fn requests(
    session: Eagle3SessionView,
    seq_id: i32,
    n_past: i32,
    id_last: LlamaToken,
    request: DraftRequest,
) -> bool {
    &&& request.seq_id == seq_id
    &&& request.n_past == n_past
    &&& request.id_last == id_last.0
    &&& request.capacity == session.config.n_draft_max
    &&& request.buffer@ == Seq::new(session.config.n_draft_max as nat, |i: int| 0i32)
}

/// What a native reply makes of a draft: the proposed tokens and a session that waits for the
/// verdict on exactly those, or a failure and an unchanged session.
pub open spec fn drafted(
    before: Eagle3SessionView,
    after: Eagle3SessionView,
    seq_id: i32,
    reply: DraftReply,
    result: Result<Vec<LlamaToken>, Eagle3SessionError>,
) -> bool {
    match result {
        Ok(tokens) => {
            &&& reply.ok
            &&& tokens@ == proposal(reply)
            &&& after == before.proposed(seq_id, tokens@.len() as usize)
        },
        Err(error) => {
            &&& !reply.ok
            &&& error@ == Eagle3SessionErrorView::Draft
            &&& after == before
        },
    }
}

/// EAGLE-3 draft session.
#[derive(Debug)]
pub struct Eagle3Session {
    config: Eagle3SessionConfig,
    pending_proposals: Vec<Option<usize>>,
}

impl View for Eagle3Session {
    type V = Eagle3SessionView;

    closed spec fn view(&self) -> Eagle3SessionView {
        Eagle3SessionView { config: self.config, pending: self.pending_proposals@ }
    }
}

impl Eagle3Session {
    /// Whether the session is in a state that its operations lead to.
    pub open spec fn wf(self) -> bool {
        self@.well_formed()
    }

    /// Constructs a session that proposes any number of tokens of any probability.
    pub fn new(
        target: &TargetProfile,
        draft: &DraftProfile,
        n_seq: u32,
        n_draft_max: i32,
        check_capacities: impl FnOnce(
            SpeculativeContextCapacity,
            SpeculativeContextCapacity,
            u32,
        ) -> Result<(), &'static str>,
        create: impl FnOnce(NativeSessionConfig) -> bool,
    ) -> (result: Result<Self, Eagle3SessionError>)
        requires
            may_be_created(
                *target,
                *draft,
                plain_config(n_seq, n_draft_max),
                check_capacities,
                create,
            ),
        ensures
            created(
                *target,
                *draft,
                plain_config(n_seq, n_draft_max),
                check_capacities,
                create,
                result,
            ),
            result matches Ok(session) ==> {
                &&& session@.config.n_seq == n_seq
                &&& session@.config.n_draft_max == n_draft_max
                &&& session@.config.n_min == 0
                &&& session@.config.p_min.bits == 0
                &&& exists|native: NativeSessionConfig| #[trigger]
                    create.ensures((native,), true) && native.n_seq == n_seq && native.n_draft_max
                        == n_draft_max && native.n_min == 0 && native.p_min.bits == 0
                        && native.spec_type == 1
            },
    {
        let config = Eagle3SessionConfig::new(n_seq, n_draft_max);
        Eagle3Session::new_with_config(target, draft, config, check_capacities, create)
    }

    /// Constructs a session with full speculative draft parameters.
    ///
    /// The target must be an ordinary context over the main model, and the draft an ordinary
    /// context over a separate EAGLE-3 draft model trained against that target. `create` builds
    /// the native session and answers whether there is one; it is called only once every check
    /// has passed.
    pub fn new_with_config(
        target: &TargetProfile,
        draft: &DraftProfile,
        config: Eagle3SessionConfig,
        check_capacities: impl FnOnce(
            SpeculativeContextCapacity,
            SpeculativeContextCapacity,
            u32,
        ) -> Result<(), &'static str>,
        create: impl FnOnce(NativeSessionConfig) -> bool,
    ) -> (result: Result<Self, Eagle3SessionError>)
        requires
            may_be_created(*target, *draft, config, check_capacities, create),
        ensures
            created(*target, *draft, config, check_capacities, create, result),
    {
        match validate_config(config.n_seq, config.n_draft_max, config.n_min, config.p_min) {
            Ok(()) => {},
            Err(message) => return Err(Eagle3SessionError::InvalidConfig(message)),
        }
        match validate_contexts(target, draft, config, check_capacities) {
            Ok(()) => {},
            Err(error) => return Err(error),
        }
        let native = NativeSessionConfig {
            n_seq: config.n_seq,
            n_draft_max: config.n_draft_max,
            n_min: config.n_min,
            p_min: config.p_min,
            spec_type: SPEC_TYPE_EAGLE3,
        };
        let ok = create(native);
        assert(native == native_config(config));
        assert(create.ensures((native_config(config),), ok));
        if !ok {
            return Err(Eagle3SessionError::Init);
        }
        let slots: usize = config.n_seq as usize;
        let mut pending_proposals: Vec<Option<usize>> = Vec::new();
        let mut i: usize = 0;
        while i < slots
            invariant
                i <= slots,
                pending_proposals@ == Seq::new(i as nat, |j: int| None::<usize>),
            decreases slots - i,
        {
            pending_proposals.push(None);
            assert(pending_proposals@ =~= Seq::new((i + 1) as nat, |j: int| None::<usize>));
            i = i + 1;
        }
        let session = Eagle3Session { config, pending_proposals };
        assert(session@ =~= Eagle3SessionView::initial(config));
        Ok(session)
    }

    /// Session configuration passed at construction.
    pub fn config(&self) -> (config: Eagle3SessionConfig)
        ensures
            config == self@.config,
    {
        self.config
    }

    /// Configured maximum number of tokens drafted per call.
    pub fn n_draft_max(&self) -> (n_draft_max: i32)
        ensures
            n_draft_max == self@.config.n_draft_max,
    {
        self.config.n_draft_max
    }

    /// Configured minimum draft tokens.
    pub fn n_min(&self) -> (n_min: i32)
        ensures
            n_min == self@.config.n_min,
    {
        self.config.n_min
    }

    /// Configured draft probability floor.
    pub fn p_min(&self) -> (p_min: Float32)
        ensures
            p_min == self@.config.p_min,
    {
        self.config.p_min
    }

    /// Configured number of sequences.
    pub fn n_seq(&self) -> (n_seq: u32)
        ensures
            n_seq == self@.config.n_seq,
    {
        self.config.n_seq
    }

    /// Decodes one batch on the target context. `decode` performs it on that batch and returns
    /// the text of its error.
    ///
    /// Decoding remains available while a proposal is pending, because that is the verification
    /// phase.
    pub fn decode_target<B>(
        &mut self,
        batch: &B,
        decode: impl FnOnce(&B) -> Result<(), String>,
    ) -> (result: Result<(), Eagle3SessionError>)
        requires
            decode.requires((batch,)),
        ensures
            final(self)@ == old(self)@,
            exists|outcome: Result<(), String>| #[trigger]
                decode.ensures((batch,), outcome) && fails_with(result, decode_failure(outcome)),
    {
        match decode(batch) {
            Ok(()) => Ok(()),
            Err(message) => Err(Eagle3SessionError::Decode(message)),
        }
    }

    /// Decodes on the target and immediately harvests the same batch. `harvest` is called only
    /// where the decode succeeded.
    pub fn decode_target_and_process<B>(
        &mut self,
        batch: &B,
        decode: impl FnOnce(&B) -> Result<(), String>,
        harvest: impl FnOnce(&B) -> bool,
    ) -> (result: Result<(), Eagle3SessionError>)
        requires
            decode.requires((batch,)),
            forall|outcome: Result<(), String>| #[trigger]
                decode.ensures((batch,), outcome) && outcome is Ok ==> harvest.requires((batch,)),
        ensures
            final(self)@ == old(self)@,
            exists|outcome: Result<(), String>| #[trigger]
                decode.ensures((batch,), outcome) && match outcome {
                    Err(_) => fails_with(result, decode_failure(outcome)),
                    Ok(()) => exists|ok: bool| #[trigger]
                        harvest.ensures((batch,), ok) && fails_with(
                            result,
                            native_failure(ok, Eagle3SessionErrorView::Process),
                        ),
                },
    {
        match self.decode_target(batch, decode) {
            Ok(()) => {},
            Err(error) => return Err(error),
        }
        self.process(batch, harvest)
    }

    /// Hands the session a batch that was just decoded on the target context. `harvest` takes
    /// the target hidden states of that batch and answers whether that succeeded.
    pub fn process<B>(&mut self, batch: &B, harvest: impl FnOnce(&B) -> bool) -> (result: Result<
        (),
        Eagle3SessionError,
    >)
        requires
            harvest.requires((batch,)),
        ensures
            final(self)@ == old(self)@,
            exists|ok: bool| #[trigger]
                harvest.ensures((batch,), ok) && fails_with(
                    result,
                    native_failure(ok, Eagle3SessionErrorView::Process),
                ),
    {
        if harvest(batch) {
            Ok(())
        } else {
            Err(Eagle3SessionError::Process)
        }
    }

    /// Checks whether a fresh generation may start.
    pub fn check_begin(&self, seq_id: i32, prompt_tokens: usize, native_quiescent: bool) -> (result:
        Result<(), Eagle3SessionError>)
        requires
            self.wf(),
        ensures
            fails_with(
                result,
                self@.begin_rejection(seq_id, prompt_tokens as nat, native_quiescent),
            ),
    {
        match self.check_state_access(seq_id, native_quiescent) {
            Ok(()) => {},
            Err(error) => return Err(error),
        }
        if prompt_tokens > MAX_SPECULATIVE_PROMPT_TOKENS {
            return Err(
                Eagle3SessionError::PromptTooLong {
                    size: prompt_tokens,
                    maximum: MAX_SPECULATIVE_PROMPT_TOKENS,
                },
            );
        }
        Ok(())
    }

    /// Starts a fresh generation with the prompt tokens that were just decoded into the target
    /// context. `start` hands them to the native side and answers whether that succeeded.
    pub fn begin(
        &mut self,
        seq_id: i32,
        prompt: &[LlamaToken],
        native_quiescent: bool,
        start: impl FnOnce(i32, &[LlamaToken]) -> bool,
    ) -> (result: Result<(), Eagle3SessionError>)
        requires
            old(self).wf(),
            old(self)@.begin_rejection(seq_id, prompt@.len(), native_quiescent) is None
                ==> start.requires((seq_id, prompt)),
        ensures
            final(self)@ == old(self)@,
            match old(self)@.begin_rejection(seq_id, prompt@.len(), native_quiescent) {
                Some(error) => fails_with(result, Some(error)),
                None => exists|ok: bool| #[trigger]
                    start.ensures((seq_id, prompt), ok) && fails_with(
                        result,
                        native_failure(ok, Eagle3SessionErrorView::Begin),
                    ),
            },
    {
        match self.check_begin(seq_id, prompt.len(), native_quiescent) {
            Ok(()) => {},
            Err(error) => return Err(error),
        }
        if !start(seq_id, prompt) {
            return Err(Eagle3SessionError::Begin);
        }
        Ok(())
    }

    /// Checks whether tokens may be drafted for a sequence.
    pub fn check_draft(&self, seq_id: i32) -> (result: Result<(), Eagle3SessionError>)
        requires
            self.wf(),
        ensures
            fails_with(result, self@.draft_rejection(seq_id)),
    {
        let index: usize = match self.sequence_index(seq_id) {
            Ok(index) => index,
            Err(error) => return Err(error),
        };
        if self.pending_proposals[index].is_some() {
            return Err(Eagle3SessionError::ProposalPending { seq_id });
        }
        Ok(())
    }

    /// Takes in the native reply to a draft: the proposed tokens, whose verdict the sequence now
    /// waits for.
    pub fn finish_draft(&mut self, seq_id: i32, reply: DraftReply) -> (result: Result<
        Vec<LlamaToken>,
        Eagle3SessionError,
    >)
        requires
            old(self).wf(),
            old(self)@.has_sequence(seq_id),
        ensures
            final(self).wf(),
            drafted(old(self)@, final(self)@, seq_id, reply, result),
    {
        if !reply.ok {
            return Err(Eagle3SessionError::Draft);
        }
        let count: usize = if reply.count > 0 {
            reply.count as usize
        } else {
            0
        };
        let length: usize = if count <= reply.buffer.len() {
            count
        } else {
            reply.buffer.len()
        };
        let mut tokens: Vec<LlamaToken> = Vec::new();
        let mut i: usize = 0;
        while i < length
            invariant
                i <= length <= reply.buffer@.len(),
                length == proposal(reply).len(),
                tokens@ == proposal(reply).take(i as int),
            decreases length - i,
        {
            tokens.push(LlamaToken(reply.buffer[i]));
            assert(tokens@ =~= proposal(reply).take(i + 1));
            i = i + 1;
        }
        assert(proposal(reply).take(length as int) =~= proposal(reply));
        if length > 0 {
            self.pending_proposals.set(seq_id as usize, Some(length));
        }
        Ok(tokens)
    }

    /// Generates up to [`n_draft_max`](Self::n_draft_max) speculative tokens.
    ///
    /// `n_past` is the number of tokens already in the target cache for the sequence, and
    /// `id_last` the last token accepted on the target. `propose` asks the native side, with
    /// zeroed room for the most tokens that may be drafted.
    pub fn draft(
        &mut self,
        seq_id: i32,
        n_past: i32,
        id_last: LlamaToken,
        propose: impl FnOnce(DraftRequest) -> DraftReply,
    ) -> (result: Result<Vec<LlamaToken>, Eagle3SessionError>)
        requires
            old(self).wf(),
            forall|request: DraftRequest|
                old(self)@.draft_rejection(seq_id) is None && requests(
                    old(self)@,
                    seq_id,
                    n_past,
                    id_last,
                    request,
                ) ==> #[trigger] propose.requires((request,)),
            forall|request: DraftRequest, reply: DraftReply| #[trigger]
                propose.ensures((request,), reply) ==> reply.buffer@.len() == request.buffer@.len(),
        ensures
            final(self).wf(),
            match old(self)@.draft_rejection(seq_id) {
                Some(error) => fails_with(result, Some(error)) && final(self)@ == old(self)@,
                None => exists|request: DraftRequest, reply: DraftReply| #[trigger]
                    propose.ensures((request,), reply) && requests(
                        old(self)@,
                        seq_id,
                        n_past,
                        id_last,
                        request,
                    ) && drafted(old(self)@, final(self)@, seq_id, reply, result),
            },
    {
        match self.check_draft(seq_id) {
            Ok(()) => {},
            Err(error) => return Err(error),
        }
        let capacity: usize = self.config.n_draft_max as usize;
        let mut buffer: Vec<i32> = Vec::new();
        let mut i: usize = 0;
        while i < capacity
            invariant
                i <= capacity,
                buffer@ == Seq::new(i as nat, |j: int| 0i32),
            decreases capacity - i,
        {
            buffer.push(0);
            assert(buffer@ =~= Seq::new((i + 1) as nat, |j: int| 0i32));
            i = i + 1;
        }
        let request = DraftRequest {
            seq_id,
            n_past,
            id_last: id_last.0,
            buffer,
            capacity: self.config.n_draft_max,
        };
        let reply = propose(request);
        self.finish_draft(seq_id, reply)
    }

    /// Checks whether an accepted prefix may be reported for a sequence.
    pub fn check_accept(&self, seq_id: i32, n_accepted: u16) -> (result: Result<
        (),
        Eagle3SessionError,
    >)
        requires
            self.wf(),
        ensures
            fails_with(result, self@.accept_rejection(seq_id, n_accepted)),
    {
        let index: usize = match self.sequence_index(seq_id) {
            Ok(index) => index,
            Err(error) => return Err(error),
        };
        let proposed: usize = match self.pending_proposals[index] {
            Some(proposed) => proposed,
            None => return Err(Eagle3SessionError::NoPendingProposal { seq_id }),
        };
        if n_accepted as usize > proposed {
            return Err(Eagle3SessionError::AcceptedTooMany { accepted: n_accepted, proposed });
        }
        Ok(())
    }

    /// Takes in whether the native side recorded an accepted prefix; if so, the proposal is
    /// resolved.
    pub fn finish_accept(&mut self, seq_id: i32, ok: bool) -> (result: Result<
        (),
        Eagle3SessionError,
    >)
        requires
            old(self).wf(),
            old(self)@.has_sequence(seq_id),
        ensures
            final(self).wf(),
            fails_with(result, native_failure(ok, Eagle3SessionErrorView::Accept)),
            final(self)@ == (if ok {
                old(self)@.resolved(seq_id)
            } else {
                old(self)@
            }),
    {
        if !ok {
            return Err(Eagle3SessionError::Accept);
        }
        self.pending_proposals.set(seq_id as usize, None);
        Ok(())
    }

    /// Informs the session how many draft tokens the target verifier accepted; zero when every
    /// draft was rejected. `report` tells the native side and answers whether that succeeded.
    pub fn accept(
        &mut self,
        seq_id: i32,
        n_accepted: u16,
        report: impl FnOnce(i32, u16) -> bool,
    ) -> (result: Result<(), Eagle3SessionError>)
        requires
            old(self).wf(),
            old(self)@.accept_rejection(seq_id, n_accepted) is None ==> report.requires(
                (seq_id, n_accepted),
            ),
        ensures
            final(self).wf(),
            match old(self)@.accept_rejection(seq_id, n_accepted) {
                Some(error) => fails_with(result, Some(error)) && final(self)@ == old(self)@,
                None => exists|ok: bool| #[trigger]
                    report.ensures((seq_id, n_accepted), ok) && fails_with(
                        result,
                        native_failure(ok, Eagle3SessionErrorView::Accept),
                    ) && final(self)@ == (if ok {
                        old(self)@.resolved(seq_id)
                    } else {
                        old(self)@
                    }),
            },
    {
        match self.check_accept(seq_id, n_accepted) {
            Ok(()) => {},
            Err(error) => return Err(error),
        }
        let ok = report(seq_id, n_accepted);
        self.finish_accept(seq_id, ok)
    }

    /// Returns whether every draft proposal has been completed, here and on the native side.
    pub fn is_quiescent(&self, native_quiescent: bool) -> (quiescent: bool)
        ensures
            quiescent == (self@.settled() && native_quiescent),
    {
        let open: usize = self.first_pending();
        proof {
            self@.lemma_first_open(0);
        }
        open == self.pending_proposals.len() && native_quiescent
    }

    /// Checks whether the state of a sequence may be read or restored.
    pub fn check_state_access(&self, seq_id: i32, native_quiescent: bool) -> (result: Result<
        (),
        Eagle3SessionError,
    >)
        requires
            self.wf(),
        ensures
            fails_with(result, self@.state_access_rejection(seq_id, native_quiescent)),
    {
        match self.check_seq(seq_id) {
            Ok(()) => {},
            Err(error) => return Err(error),
        }
        self.require_quiescent(native_quiescent)
    }

    /// Captures versioned per-sequence speculative continuation state, through the native size
    /// query and copy.
    ///
    /// Target and draft context bytes are separate and must be checkpointed at the same
    /// quiescent boundary.
    pub fn speculative_state(
        &self,
        seq_id: i32,
        native_quiescent: bool,
        query: impl FnOnce(i32) -> StateSizeReply,
        copy: impl FnOnce(i32, Vec<u8>) -> StateCopyReply,
    ) -> (result: Result<Vec<u8>, Eagle3SessionError>)
        requires
            self.wf(),
            self@.state_access_rejection(seq_id, native_quiescent) is None ==> query.requires(
                (seq_id,),
            ),
            forall|size: StateSizeReply, buffer: Vec<u8>|
                #![trigger query.ensures((seq_id,), size), copy.requires((seq_id, buffer))]
                query.ensures((seq_id,), size) && is_room_for(size, buffer@) ==> copy.requires(
                    (seq_id, buffer),
                ),
            forall|buffer: Vec<u8>, reply: StateCopyReply| #[trigger]
                copy.ensures((seq_id, buffer), reply) ==> reply.state@.len() == buffer@.len(),
        ensures
            match self@.state_access_rejection(seq_id, native_quiescent) {
                Some(error) => fails_with(result, Some(error)),
                None => match result {
                    Ok(state) => captured(
                        seq_id,
                        query,
                        copy,
                        Ok::<Vec<u8>, SpeculativeStateError>(state),
                    ),
                    Err(error) => exists|inner: SpeculativeStateError| #[trigger]
                        captured(seq_id, query, copy, Err::<Vec<u8>, SpeculativeStateError>(inner))
                            && error@ == Eagle3SessionErrorView::State(inner),
                },
            },
    {
        match self.check_state_access(seq_id, native_quiescent) {
            Ok(()) => {},
            Err(error) => return Err(error),
        }
        match capture_state(seq_id, query, copy) {
            Ok(state) => Ok(state),
            Err(error) => Err(Eagle3SessionError::State(error)),
        }
    }

    /// Restores versioned per-sequence speculative continuation state. `set` hands it to the
    /// native side and returns the status.
    ///
    /// Restore the corresponding target and draft context bytes before calling this method.
    pub fn restore_speculative_state(
        &mut self,
        seq_id: i32,
        state: &[u8],
        native_quiescent: bool,
        set: impl FnOnce(i32, &[u8]) -> u32,
    ) -> (result: Result<(), Eagle3SessionError>)
        requires
            old(self).wf(),
            old(self)@.state_access_rejection(seq_id, native_quiescent) is None
                && state_rejection(state@) is None ==> set.requires((seq_id, state)),
        ensures
            final(self)@ == old(self)@,
            match old(self)@.state_access_rejection(seq_id, native_quiescent) {
                Some(error) => fails_with(result, Some(error)),
                None => match state_rejection(state@) {
                    Some(error) => fails_with(
                        result,
                        Some(Eagle3SessionErrorView::State(error)),
                    ),
                    None => exists|status: u32| #[trigger]
                        set.ensures((seq_id, state), status) && fails_with(
                            result,
                            state_failure(status_outcome(status)),
                        ),
                },
            },
    {
        match self.check_state_access(seq_id, native_quiescent) {
            Ok(()) => {},
            Err(error) => return Err(error),
        }
        match restore_state(seq_id, state, set) {
            Ok(()) => Ok(()),
            Err(error) => Err(Eagle3SessionError::State(error)),
        }
    }

    /// The first sequence with an open proposal, or the number of sequences.
    fn first_pending(&self) -> (first: usize)
        ensures
            first == self@.first_open(0),
            first <= self@.pending.len(),
    {
        let mut index: usize = 0;
        while index < self.pending_proposals.len() && self.pending_proposals[index].is_none()
            invariant
                index <= self.pending_proposals@.len(),
                self@.first_open(0) == self@.first_open(index as int),
            decreases self.pending_proposals@.len() - index,
        {
            index = index + 1;
        }
        index
    }

    /// Checks that every draft proposal has been completed, here and on the native side. The
    /// first sequence with an open proposal is named.
    pub fn require_quiescent(&self, native_quiescent: bool) -> (result: Result<
        (),
        Eagle3SessionError,
    >)
        requires
            self.wf(),
        ensures
            fails_with(result, self@.quiescence_rejection(native_quiescent)),
            result is Ok <==> self@.settled() && native_quiescent,
    {
        let first: usize = self.first_pending();
        proof {
            self@.lemma_first_open(0);
        }
        if first < self.pending_proposals.len() {
            return Err(Eagle3SessionError::ProposalPending { seq_id: first as i32 });
        }
        if !native_quiescent {
            return Err(Eagle3SessionError::State(SpeculativeStateError::NotQuiescent));
        }
        Ok(())
    }

    fn check_seq(&self, seq_id: i32) -> (result: Result<(), Eagle3SessionError>)
        ensures
            fails_with(result, self@.sequence_rejection(seq_id)),
    {
        if seq_id < 0 || seq_id as u32 >= self.config.n_seq {
            return Err(Eagle3SessionError::BadSeqId { seq_id, n_seq: self.config.n_seq });
        }
        Ok(())
    }

    fn sequence_index(&self, seq_id: i32) -> (result: Result<usize, Eagle3SessionError>)
        requires
            self.wf(),
        ensures
            fails_with(result, self@.sequence_rejection(seq_id)),
            result matches Ok(index) ==> index == seq_id && index < self@.pending.len(),
    {
        match self.check_seq(seq_id) {
            Ok(()) => Ok(seq_id as usize),
            Err(error) => Err(error),
        }
    }
}

/// What a native answer makes of an operation.
pub open spec fn native_failure(ok: bool, error: Eagle3SessionErrorView) -> Option<
    Eagle3SessionErrorView,
> {
    if ok {
        None
    } else {
        Some(error)
    }
}

/// What a target decode makes of an operation.
pub open spec fn decode_failure(outcome: Result<(), String>) -> Option<Eagle3SessionErrorView> {
    match outcome {
        Ok(()) => None,
        Err(message) => Some(Eagle3SessionErrorView::Decode(message@)),
    }
}

/// What a state outcome makes of an operation.
pub open spec fn state_failure(outcome: Result<(), SpeculativeStateError>) -> Option<
    Eagle3SessionErrorView,
> {
    match outcome {
        Ok(()) => None,
        Err(error) => Some(Eagle3SessionErrorView::State(error)),
    }
}

/// The configuration that proposes any number of tokens of any probability.
pub open spec fn plain_config(n_seq: u32, n_draft_max: i32) -> Eagle3SessionConfig {
    Eagle3SessionConfig { n_seq, n_draft_max, n_min: 0, p_min: Float32 { bits: 0 } }
}

/// What session creation may ask of its callers: the capacities are judged only for contexts
/// that fit by type and sequences, and the native session is created only once every check has
/// passed.
pub open spec fn may_be_created<
    F: FnOnce(SpeculativeContextCapacity, SpeculativeContextCapacity, u32) -> Result<
        (),
        &'static str,
    >,
    G: FnOnce(NativeSessionConfig) -> bool,
>(
    target: TargetProfile,
    draft: DraftProfile,
    config: Eagle3SessionConfig,
    check_capacities: F,
    create: G,
) -> bool {
    config.rejection() is None && topology_rejection(target, draft, config) is None ==> {
        &&& check_capacities.requires(
            (target.capacity, draft.capacity, config.n_draft_max as u32),
        )
        &&& forall|verdict: Result<(), &'static str>| #[trigger]
            check_capacities.ensures(
                (target.capacity, draft.capacity, config.n_draft_max as u32),
                verdict,
            ) && contexts_rejection(target, draft, config, verdict) is None ==> create.requires(
                (native_config(config),),
            )
    }
}

/// What session creation returns: the first check that fails, the native refusal, or a new
/// session.
pub open spec fn created<
    F: FnOnce(SpeculativeContextCapacity, SpeculativeContextCapacity, u32) -> Result<
        (),
        &'static str,
    >,
    G: FnOnce(NativeSessionConfig) -> bool,
>(
    target: TargetProfile,
    draft: DraftProfile,
    config: Eagle3SessionConfig,
    check_capacities: F,
    create: G,
    result: Result<Eagle3Session, Eagle3SessionError>,
) -> bool {
    match config.rejection() {
        Some(message) => fails_with(result, Some(Eagle3SessionErrorView::InvalidConfig(message))),
        None => match topology_rejection(target, draft, config) {
            Some(error) => fails_with(result, Some(error)),
            None => exists|verdict: Result<(), &'static str>| #[trigger]
                check_capacities.ensures(
                    (target.capacity, draft.capacity, config.n_draft_max as u32),
                    verdict,
                ) && match contexts_rejection(target, draft, config, verdict) {
                    Some(error) => fails_with(result, Some(error)),
                    None => exists|ok: bool| #[trigger]
                        create.ensures((native_config(config),), ok) && match result {
                            Ok(session) => ok && session.wf() && session@
                                == Eagle3SessionView::initial(config),
                            Err(error) => !ok && error@ == Eagle3SessionErrorView::Init,
                        },
                },
        },
    }
}

impl Eagle3SessionView {
    /// The search for an open proposal ends at one, or at the end where there is none.
    pub proof fn lemma_first_open(self, start: int)
        requires
            0 <= start <= self.pending.len(),
        ensures
            start <= self.first_open(start) <= self.pending.len(),
            forall|i: int|
                start <= i < self.first_open(start) ==> (#[trigger] self.pending[i]) is None,
            self.first_open(start) < self.pending.len() ==> self.pending[self.first_open(start)]
                is Some,
        decreases self.pending.len() - start,
    {
        if start < self.pending.len() && self.pending[start] is None {
            self.lemma_first_open(start + 1);
        }
    }
}

} // verus!

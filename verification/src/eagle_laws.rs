//! What holds of EAGLE-3 sessions as a whole.

use crate::context::params::LlamaContextType;
use crate::eagle::{
    contexts_rejection,
    created,
    decode_failure,
    drafted,
    fails_with,
    native_config,
    native_failure,
    plain_config,
    proposal,
    requests,
    state_failure,
    supported_sites,
    token_count,
    topology_rejection,
    DraftProfile,
    DraftReply,
    DraftRequest,
    Eagle3Session,
    Eagle3SessionConfig,
    Eagle3SessionError,
    Eagle3SessionErrorView,
    Eagle3SessionView,
    NativeSessionConfig,
    TargetProfile,
};
use crate::speculative::{
    config_rejection,
    law_configurations_are_accepted_exactly_within_their_bounds,
    SpeculativeContextCapacity,
    SpeculativeStateError,
    MAX_SPECULATIVE_PROMPT_TOKENS,
};
use crate::text::{decimal, signed_decimal};
use crate::token::LlamaToken;
use vstd::prelude::*;

verus! {

/// A new session has no open proposal: any of its sequences may draft, and its state may be
/// read.
pub proof fn law_new_sessions_are_settled(config: Eagle3SessionConfig, seq_id: i32)
    requires
        config.rejection() is None,
        0 <= seq_id < config.n_seq,
    ensures
        Eagle3SessionView::initial(config).well_formed(),
        Eagle3SessionView::initial(config).settled(),
        Eagle3SessionView::initial(config).draft_rejection(seq_id) is None,
        Eagle3SessionView::initial(config).state_access_rejection(seq_id, true) is None,
{
}

/// A proposal opens on its own sequence alone, and the verdict on it brings back the session
/// from before the draft.
pub proof fn law_verdicts_undo_proposals(session: Eagle3SessionView, seq_id: i32, count: usize)
    requires
        session.well_formed(),
        session.draft_rejection(seq_id) is None,
    ensures
        session.proposed(seq_id, count).well_formed(),
        count > 0 ==> session.proposed(seq_id, count).pending[seq_id as int] == Some(count),
        session.proposed(seq_id, count).resolved(seq_id) == session,
{
    assert(session.proposed(seq_id, count).resolved(seq_id) =~= session);
}

/// Drafting and accepting on one sequence leave every other sequence alone.
pub proof fn law_sequences_are_independent(
    session: Eagle3SessionView,
    seq_id: i32,
    count: usize,
    other: int,
)
    requires
        session.well_formed(),
        session.has_sequence(seq_id),
        0 <= other < session.config.n_seq,
        other != seq_id,
    ensures
        session.proposed(seq_id, count).pending[other] == session.pending[other],
        session.resolved(seq_id).pending[other] == session.pending[other],
        session.proposed(seq_id, count).config == session.config,
        session.resolved(seq_id).config == session.config,
{
}

/// An empty draft opens nothing.
pub proof fn law_empty_drafts_open_nothing(session: Eagle3SessionView, seq_id: i32)
    ensures
        session.proposed(seq_id, 0) == session,
{
}

/// While a proposal is open, its sequence drafts nothing more, and no sequence of the session may
/// begin, be read or be restored.
pub proof fn law_open_proposals_block(
    session: Eagle3SessionView,
    open: i32,
    seq_id: i32,
    prompt_tokens: nat,
    native_quiescent: bool,
)
    requires
        session.well_formed(),
        session.has_sequence(open),
        session.pending[open as int] is Some,
    ensures
        session.draft_rejection(open) == Some(
            Eagle3SessionErrorView::ProposalPending { seq_id: open },
        ),
        session.state_access_rejection(seq_id, native_quiescent) is Some,
        session.begin_rejection(seq_id, prompt_tokens, native_quiescent) is Some,
{
}

/// The refusal of a session that is not settled names a sequence with an open proposal, the
/// first one.
pub proof fn law_refusals_name_the_first_open_sequence(
    session: Eagle3SessionView,
    native_quiescent: bool,
)
    requires
        session.well_formed(),
        !session.settled(),
    ensures
        ({
            let first = session.first_open(0);
            &&& session.quiescence_rejection(native_quiescent) == Some(
                Eagle3SessionErrorView::ProposalPending { seq_id: first as i32 },
            )
            &&& 0 <= first < session.config.n_seq
            &&& first as i32 == first
            &&& session.pending[first] is Some
            &&& forall|i: int| 0 <= i < first ==> (#[trigger] session.pending[i]) is None
        }),
{
    session.lemma_first_open(0);
}

/// Quiescence is refused for the first sequence with an open proposal, then for a native session
/// that is not quiescent, and for nothing else.
pub proof fn law_quiescence_is_refused_exactly_when_missing(
    session: Eagle3SessionView,
    native_quiescent: bool,
)
    requires
        session.well_formed(),
    ensures
        session.quiescence_rejection(native_quiescent) is None <==> session.settled()
            && native_quiescent,
        session.settled() && !native_quiescent ==> session.quiescence_rejection(native_quiescent)
            == Some(Eagle3SessionErrorView::State(SpeculativeStateError::NotQuiescent)),
        forall|seq_id: i32|
            session.quiescence_rejection(native_quiescent) == Some(
                Eagle3SessionErrorView::ProposalPending { seq_id },
            ) <==> {
                &&& session.has_sequence(seq_id)
                &&& #[trigger] session.pending[seq_id as int] is Some
                &&& forall|i: int| 0 <= i < seq_id ==> (#[trigger] session.pending[i]) is None
            },
{
    session.lemma_first_open(0);
}

/// State is read or restored only for a sequence of the session, and only once every proposal
/// has been resolved here and on the native side.
pub proof fn law_state_needs_a_settled_session(
    session: Eagle3SessionView,
    seq_id: i32,
    native_quiescent: bool,
)
    ensures
        session.state_access_rejection(seq_id, native_quiescent) is None
            <==> session.has_sequence(seq_id) && session.settled() && native_quiescent,
{
}

/// A generation begins only under the same conditions, and with a bounded prompt.
pub proof fn law_prompts_are_bounded(
    session: Eagle3SessionView,
    seq_id: i32,
    prompt_tokens: nat,
    native_quiescent: bool,
)
    ensures
        session.begin_rejection(seq_id, prompt_tokens, native_quiescent) is None
            <==> session.has_sequence(seq_id) && session.settled() && native_quiescent
            && prompt_tokens <= MAX_SPECULATIVE_PROMPT_TOKENS,
{
}

/// Only an open proposal can be accepted, and no more of it than was proposed.
pub proof fn law_accepted_prefixes_belong_to_proposals(
    session: Eagle3SessionView,
    seq_id: i32,
    n_accepted: u16,
)
    ensures
        session.accept_rejection(seq_id, n_accepted) is None <==> session.has_sequence(seq_id) && (
        session.pending[seq_id as int] matches Some(proposed) && n_accepted <= proposed),
{
}

/// A verdict is taken once: a resolved sequence has nothing left to accept and may draft again.
pub proof fn law_verdicts_are_taken_once(
    session: Eagle3SessionView,
    seq_id: i32,
    n_accepted: u16,
    again: u16,
)
    requires
        session.well_formed(),
        session.accept_rejection(seq_id, n_accepted) is None,
    ensures
        session.resolved(seq_id).well_formed(),
        session.resolved(seq_id).accept_rejection(seq_id, again) == Some(
            Eagle3SessionErrorView::NoPendingProposal { seq_id },
        ),
        session.resolved(seq_id).draft_rejection(seq_id) is None,
{
}

/// Contexts share a session exactly where both are ordinary contexts, the target has room for
/// the sequences and the draft for exactly those, the capacities were found sufficient, and the
/// draft reads three supported sites of a target of known architecture.
pub proof fn law_contexts_are_accepted_exactly_when_they_fit(
    target: TargetProfile,
    draft: DraftProfile,
    config: Eagle3SessionConfig,
    capacities: Result<(), &'static str>,
)
    requires
        config.rejection() is None,
    ensures
        contexts_rejection(target, draft, config, capacities) is None <==> {
            &&& target.context_type == LlamaContextType::Default
            &&& draft.context_type == LlamaContextType::Default
            &&& config.n_seq <= target.n_seq_max
            &&& draft.n_seq_max == config.n_seq
            &&& capacities is Ok
            &&& target.architecture is Some
            &&& supported_sites(
                draft.target_layer_ids@,
                target.n_layer,
                target.architecture->Some_0@ == "gpt-oss"@,
            )
        },
{
}

/// A configuration made of the number of sequences and of draft tokens alone keeps both and wants
/// nothing more: no minimum of tokens, and a probability floor of zero. That is also what the
/// native side is handed for it.
pub proof fn law_plain_configurations_ask_for_no_minimum(n_seq: u32, n_draft_max: i32)
    ensures
        ({
            let config = plain_config(n_seq, n_draft_max);
            &&& config.n_seq == n_seq
            &&& config.n_draft_max == n_draft_max
            &&& config.n_min == 0
            &&& config.p_min.bits == 0
            &&& config.p_min.scaled_value() == 0
            &&& native_config(config).n_seq == n_seq
            &&& native_config(config).n_draft_max == n_draft_max
            &&& native_config(config).n_min == 0
            &&& native_config(config).p_min.bits == 0
            &&& config.rejection() is None <==> 1 <= n_seq <= 4_096 && 1 <= n_draft_max <= 4_096
        }),
{
    let config = plain_config(n_seq, n_draft_max);
    law_configurations_are_accepted_exactly_within_their_bounds(
        n_seq,
        n_draft_max,
        config.n_min,
        config.p_min,
    );
}

/// The native side is handed every setting of the configuration as it is, and the code of EAGLE-3,
/// which is 1.
pub proof fn law_native_configurations_carry_every_setting(config: Eagle3SessionConfig)
    ensures
        native_config(config).n_seq == config.n_seq,
        native_config(config).n_draft_max == config.n_draft_max,
        native_config(config).n_min == config.n_min,
        native_config(config).p_min == config.p_min,
        native_config(config).spec_type == 1,
{
}

/// A configuration is accepted exactly within the bounds on its sequences, its draft tokens, its
/// minimum and its probability floor.
pub proof fn law_configurations_are_checked_setting_by_setting(config: Eagle3SessionConfig)
    ensures
        config.rejection() is None <==> {
            &&& 1 <= config.n_seq <= 4_096
            &&& 1 <= config.n_draft_max <= 4_096
            &&& 0 <= config.n_min <= config.n_draft_max
            &&& config.p_min.bits <= 0x3f80_0000 || config.p_min.bits == 0x8000_0000
        },
        config.rejection() == config_rejection(
            config.n_seq,
            config.n_draft_max,
            config.n_min,
            config.p_min,
        ),
{
    law_configurations_are_accepted_exactly_within_their_bounds(
        config.n_seq,
        config.n_draft_max,
        config.n_min,
        config.p_min,
    );
}

/// Extraction sites are supported exactly where the target has layers, three sites are named, and
/// each is one of its layers, or the one behind its last layer where the target has such a site.
pub proof fn law_three_sites_within_the_target_are_supported(
    layer_ids: Seq<i32>,
    target_layers: i32,
)
    ensures
        supported_sites(layer_ids, target_layers, false) <==> {
            &&& target_layers >= 1
            &&& layer_ids.len() == 3
            &&& 0 <= layer_ids[0] < target_layers
            &&& 0 <= layer_ids[1] < target_layers
            &&& 0 <= layer_ids[2] < target_layers
        },
        supported_sites(layer_ids, target_layers, true) <==> {
            &&& target_layers >= 1
            &&& layer_ids.len() == 3
            &&& 0 <= layer_ids[0] <= target_layers
            &&& 0 <= layer_ids[1] <= target_layers
            &&& 0 <= layer_ids[2] <= target_layers
        },
{
}

/// The refusal of two contexts names the first thing that keeps them apart: their types, their
/// sequence capacities, a negative number of draft tokens, the verdict on their batch capacities,
/// the unknown architecture, and the extraction sites.
pub proof fn law_context_refusals_name_the_first_obstacle(
    target: TargetProfile,
    draft: DraftProfile,
    config: Eagle3SessionConfig,
    capacities: Result<(), &'static str>,
)
    ensures
        ({
            let refusal = contexts_rejection(target, draft, config, capacities);
            let ordinary = target.context_type == LlamaContextType::Default && draft.context_type
                == LlamaContextType::Default;
            let roomy = target.n_seq_max >= config.n_seq && draft.n_seq_max == config.n_seq;
            let fit = ordinary && roomy && config.n_draft_max >= 0;
            &&& topology_rejection(target, draft, config) is None <==> fit
            &&& !fit ==> refusal == topology_rejection(target, draft, config)
            &&& ordinary && roomy && config.n_draft_max < 0 ==> refusal == Some(
                Eagle3SessionErrorView::InvalidConfig("n_draft_max exceeds u32"@),
            )
            &&& !ordinary ==> refusal == Some(
                Eagle3SessionErrorView::IncompatibleContexts(
                    "target and draft must both be Default contexts"@,
                ),
            )
            &&& ordinary && !roomy ==> refusal == Some(
                Eagle3SessionErrorView::IncompatibleContexts(
                    "target sequence capacity is too small or draft capacity differs from n_seq"@,
                ),
            )
            &&& fit && capacities is Err ==> refusal == Some(
                Eagle3SessionErrorView::IncompatibleContexts(capacities->Err_0@),
            )
            &&& fit && capacities is Ok && target.architecture is None ==> refusal
                == Some(
                Eagle3SessionErrorView::IncompatibleContexts(
                    "target model architecture metadata is unavailable"@,
                ),
            )
            &&& fit && capacities is Ok && target.architecture is Some
                && !supported_sites(
                draft.target_layer_ids@,
                target.n_layer,
                target.architecture->Some_0@ == "gpt-oss"@,
            ) ==> refusal == Some(
                Eagle3SessionErrorView::IncompatibleContexts(
                    "draft must name exactly three supported target extraction sites"@,
                ),
            )
        }),
{
}

/// A session comes into being only where its configuration is accepted, its contexts fit by type
/// and sequences, the capacities of both were judged sufficient for the draft tokens, the draft
/// reads supported sites, and the native side was handed exactly the configuration and made one.
/// It then has that configuration and a slot without a proposal for each sequence.
pub proof fn law_sessions_are_created_only_after_every_check<
    F: FnOnce(SpeculativeContextCapacity, SpeculativeContextCapacity, u32) -> Result<
        (),
        &'static str,
    >,
    G: FnOnce(NativeSessionConfig) -> bool,
>(
    target: TargetProfile,
    draft: DraftProfile,
    config: Eagle3SessionConfig,
    check_capacities: F,
    create: G,
    session: Eagle3Session,
)
    requires
        created(
            target,
            draft,
            config,
            check_capacities,
            create,
            Ok::<Eagle3Session, Eagle3SessionError>(session),
        ),
    ensures
        config.rejection() is None,
        target.context_type == LlamaContextType::Default,
        draft.context_type == LlamaContextType::Default,
        target.n_seq_max >= config.n_seq,
        draft.n_seq_max == config.n_seq,
        check_capacities.ensures(
            (target.capacity, draft.capacity, config.n_draft_max as u32),
            Ok::<(), &'static str>(()),
        ),
        target.architecture is Some,
        supported_sites(
            draft.target_layer_ids@,
            target.n_layer,
            target.architecture->Some_0@ == "gpt-oss"@,
        ),
        create.ensures(
            (
                NativeSessionConfig {
                    n_seq: config.n_seq,
                    n_draft_max: config.n_draft_max,
                    n_min: config.n_min,
                    p_min: config.p_min,
                    spec_type: 1,
                },
            ),
            true,
        ),
        session@.config == config,
        session@.pending.len() == config.n_seq,
        forall|i: int| 0 <= i < config.n_seq ==> (#[trigger] session@.pending[i]) is None,
        session.wf(),
{
    let verdict = choose|verdict: Result<(), &'static str>| #[trigger]
        check_capacities.ensures(
            (target.capacity, draft.capacity, config.n_draft_max as u32),
            verdict,
        ) && contexts_rejection(target, draft, config, verdict) is None;
    assert(verdict is Ok);
    assert(verdict->Ok_0 == ());
    assert(verdict == Ok::<(), &'static str>(()));
}

/// Where no session comes into being, there is a reason: the configuration is refused, the
/// contexts are refused with the verdict on their capacities, or the native side made none.
pub proof fn law_sessions_are_refused_only_for_a_reason<
    F: FnOnce(SpeculativeContextCapacity, SpeculativeContextCapacity, u32) -> Result<
        (),
        &'static str,
    >,
    G: FnOnce(NativeSessionConfig) -> bool,
>(
    target: TargetProfile,
    draft: DraftProfile,
    config: Eagle3SessionConfig,
    check_capacities: F,
    create: G,
    error: Eagle3SessionError,
)
    requires
        created(
            target,
            draft,
            config,
            check_capacities,
            create,
            Err::<Eagle3Session, Eagle3SessionError>(error),
        ),
    ensures
        config.rejection() is Some ==> error@ == Eagle3SessionErrorView::InvalidConfig(
            config.rejection()->Some_0,
        ),
        config.rejection() is None ==> {
            ||| topology_rejection(target, draft, config) == Some(error@)
            ||| exists|verdict: Result<(), &'static str>| #[trigger]
                check_capacities.ensures(
                    (target.capacity, draft.capacity, config.n_draft_max as u32),
                    verdict,
                ) && contexts_rejection(target, draft, config, verdict) == Some(error@)
            ||| error@ == Eagle3SessionErrorView::Init && create.ensures(
                (
                    NativeSessionConfig {
                        n_seq: config.n_seq,
                        n_draft_max: config.n_draft_max,
                        n_min: config.n_min,
                        p_min: config.p_min,
                        spec_type: 1,
                    },
                ),
                false,
            )
        },
{
}

/// A new session has the configuration that it was made with and, for each of its sequences, a
/// slot without a proposal.
pub proof fn law_new_sessions_have_an_empty_slot_for_each_sequence(
    config: Eagle3SessionConfig,
    i: int,
)
    ensures
        Eagle3SessionView::initial(config).config == config,
        Eagle3SessionView::initial(config).pending.len() == config.n_seq,
        0 <= i < config.n_seq ==> Eagle3SessionView::initial(config).pending[i] is None,
{
}

/// A sequence belongs to a session exactly where its number is not negative and below the number
/// of sequences. Every operation on another sequence is refused with both numbers, before anything
/// else is looked at.
pub proof fn law_sequences_are_numbered_from_zero(
    session: Eagle3SessionView,
    seq_id: i32,
    prompt_tokens: nat,
    n_accepted: u16,
    native_quiescent: bool,
)
    ensures
        session.has_sequence(seq_id) <==> 0 <= seq_id < session.config.n_seq,
        session.sequence_rejection(seq_id) is None <==> 0 <= seq_id < session.config.n_seq,
        !(0 <= seq_id < session.config.n_seq) ==> {
            let refusal = Some(
                Eagle3SessionErrorView::BadSeqId { seq_id, n_seq: session.config.n_seq },
            );
            &&& session.sequence_rejection(seq_id) == refusal
            &&& session.draft_rejection(seq_id) == refusal
            &&& session.accept_rejection(seq_id, n_accepted) == refusal
            &&& session.state_access_rejection(seq_id, native_quiescent) == refusal
            &&& session.begin_rejection(seq_id, prompt_tokens, native_quiescent) == refusal
        },
{
}

/// Tokens may be drafted for a sequence of the session exactly while it has no proposal.
pub proof fn law_sequences_draft_one_proposal_at_a_time(session: Eagle3SessionView, seq_id: i32)
    requires
        0 <= seq_id < session.config.n_seq,
    ensures
        session.pending[seq_id as int] is None ==> session.draft_rejection(seq_id) is None,
        session.pending[seq_id as int] is Some ==> session.draft_rejection(seq_id) == Some(
            Eagle3SessionErrorView::ProposalPending { seq_id },
        ),
{
}

/// A prefix is accepted of an open proposal where it is no longer than that. A longer one is
/// refused with both lengths, and without a proposal there is nothing to accept.
pub proof fn law_acceptances_are_measured_by_the_proposal(
    session: Eagle3SessionView,
    seq_id: i32,
    n_accepted: u16,
)
    requires
        0 <= seq_id < session.config.n_seq,
    ensures
        match session.pending[seq_id as int] {
            None => session.accept_rejection(seq_id, n_accepted) == Some(
                Eagle3SessionErrorView::NoPendingProposal { seq_id },
            ),
            Some(proposed) => {
                &&& n_accepted <= proposed ==> session.accept_rejection(seq_id, n_accepted) is None
                &&& n_accepted > proposed ==> session.accept_rejection(seq_id, n_accepted) == Some(
                    Eagle3SessionErrorView::AcceptedTooMany { accepted: n_accepted, proposed },
                )
            },
        },
{
}

/// The state of a sequence of the session may be read or restored, and a generation with a prompt
/// of up to 1048576 tokens may begin, exactly while no sequence has a proposal and the native side
/// is quiescent. The refusals come in this order: the first sequence with a proposal, the native
/// side, the length of the prompt.
pub proof fn law_settled_sessions_may_be_read_and_begun(
    session: Eagle3SessionView,
    seq_id: i32,
    prompt_tokens: nat,
    native_quiescent: bool,
)
    requires
        0 <= seq_id < session.config.n_seq,
        prompt_tokens <= usize::MAX,
    ensures
        ({
            let idle = forall|i: int|
                0 <= i < session.pending.len() ==> (#[trigger] session.pending[i]) is None;
            let access = session.state_access_rejection(seq_id, native_quiescent);
            let start = session.begin_rejection(seq_id, prompt_tokens, native_quiescent);
            &&& session.settled() <==> idle
            &&& access is None <==> idle && native_quiescent
            &&& start is None <==> idle && native_quiescent && prompt_tokens <= 1_048_576
            &&& idle && !native_quiescent ==> access == Some(
                Eagle3SessionErrorView::State(SpeculativeStateError::NotQuiescent),
            )
            &&& !(idle && native_quiescent) ==> start == access && access
                == session.quiescence_rejection(native_quiescent)
            &&& idle && native_quiescent && prompt_tokens > 1_048_576 ==> start == Some(
                Eagle3SessionErrorView::PromptTooLong {
                    size: prompt_tokens as usize,
                    maximum: 1_048_576,
                },
            )
        }),
{
}

/// The first sequence with a proposal is the one that is named.
pub proof fn law_the_first_open_sequence_is_named(
    session: Eagle3SessionView,
    first: i32,
    native_quiescent: bool,
)
    requires
        0 <= first < session.pending.len(),
        session.pending[first as int] is Some,
        forall|i: int| 0 <= i < first ==> (#[trigger] session.pending[i]) is None,
    ensures
        session.quiescence_rejection(native_quiescent) == Some(
            Eagle3SessionErrorView::ProposalPending { seq_id: first },
        ),
{
    session.lemma_first_open(0);
}

/// A proposal of some tokens fills the slot of its sequence with their number and no other slot; a
/// proposal of none fills nothing; a verdict empties the slot of its sequence and no other. The
/// configuration stays.
pub proof fn law_proposals_and_verdicts_touch_one_slot(
    session: Eagle3SessionView,
    seq_id: i32,
    count: usize,
    i: int,
)
    requires
        0 <= seq_id < session.pending.len(),
        0 <= i < session.pending.len(),
    ensures
        ({
            let proposed = session.proposed(seq_id, count);
            let resolved = session.resolved(seq_id);
            &&& proposed.config == session.config
            &&& resolved.config == session.config
            &&& proposed.pending.len() == session.pending.len()
            &&& resolved.pending.len() == session.pending.len()
            &&& proposed.pending[i] == (if i == seq_id && count > 0 {
                Some(count)
            } else {
                session.pending[i]
            })
            &&& resolved.pending[i] == (if i == seq_id {
                None
            } else {
                session.pending[i]
            })
        }),
{
}

/// A proposal holds the tokens at the front of the native buffer, in order: as many as the native
/// side counted, none for a negative count, and no more than there was room for.
pub proof fn law_proposals_are_the_front_of_the_buffer(reply: DraftReply, i: int)
    ensures
        reply.count <= 0 ==> proposal(reply).len() == 0,
        0 <= reply.count <= reply.buffer@.len() ==> proposal(reply).len() == reply.count,
        reply.count > reply.buffer@.len() ==> proposal(reply).len() == reply.buffer@.len(),
        0 <= i < proposal(reply).len() ==> proposal(reply)[i].0 == reply.buffer@[i],
        token_count(reply.count) == (if reply.count < 0 {
            0
        } else {
            reply.count as int
        }),
{
}

/// A successful reply hands out exactly its proposal and leaves the sequence waiting for the
/// verdict on as many tokens as were handed out, or on nothing where there were none. A failed one
/// leaves the session as it was. The other sequences are left alone either way.
pub proof fn law_drafts_wait_for_what_was_handed_out(
    before: Eagle3SessionView,
    after: Eagle3SessionView,
    seq_id: i32,
    reply: DraftReply,
    tokens: Vec<LlamaToken>,
    error: Eagle3SessionError,
)
    requires
        before.well_formed(),
        0 <= seq_id < before.config.n_seq,
    ensures
        drafted(before, after, seq_id, reply, Ok(tokens)) ==> {
            &&& reply.ok
            &&& tokens@ == proposal(reply)
            &&& after.config == before.config
            &&& after.pending.len() == before.pending.len()
            &&& tokens@.len() > 0 ==> after.pending[seq_id as int] == Some(tokens@.len() as usize)
            &&& tokens@.len() == 0 ==> after == before
            &&& forall|i: int|
                0 <= i < before.pending.len() && i != seq_id ==> #[trigger] after.pending[i]
                    == before.pending[i]
        },
        drafted(before, after, seq_id, reply, Err(error)) ==> {
            &&& !reply.ok
            &&& error@ == Eagle3SessionErrorView::Draft
            &&& after == before
        },
{
    law_proposals_are_the_front_of_the_buffer(reply, 0);
}

/// A draft request carries the sequence, the tokens in the cache, the last token and zeroed room
/// for exactly as many tokens as the session may draft.
pub proof fn law_requests_carry_room_for_the_whole_draft(
    session: Eagle3SessionView,
    seq_id: i32,
    n_past: i32,
    id_last: LlamaToken,
    request: DraftRequest,
)
    requires
        session.well_formed(),
    ensures
        requests(session, seq_id, n_past, id_last, request) <==> {
            &&& request.seq_id == seq_id
            &&& request.n_past == n_past
            &&& request.id_last == id_last.0
            &&& request.capacity == session.config.n_draft_max
            &&& request.buffer@.len() == session.config.n_draft_max
            &&& forall|i: int| 0 <= i < request.buffer@.len() ==> #[trigger] request.buffer@[i] == 0
        },
{
    if request.buffer@.len() == session.config.n_draft_max && (forall|i: int|
        0 <= i < request.buffer@.len() ==> #[trigger] request.buffer@[i] == 0) {
        assert(request.buffer@ =~= Seq::new(session.config.n_draft_max as nat, |i: int| 0i32));
    }
}

/// An operation succeeds exactly where nothing is refused, and otherwise fails with the refusal.
/// What the native side answers decides: a success is none, and a failure is the operation's own
/// error, the decoder's words, or the state error.
pub proof fn law_answers_decide_the_outcome<T>(
    value: T,
    error: Eagle3SessionError,
    refusal: Eagle3SessionErrorView,
    message: String,
    inner: SpeculativeStateError,
)
    ensures
        fails_with(Ok::<T, Eagle3SessionError>(value), None),
        !fails_with(Ok::<T, Eagle3SessionError>(value), Some(refusal)),
        !fails_with(Err::<T, Eagle3SessionError>(error), None),
        fails_with(Err::<T, Eagle3SessionError>(error), Some(refusal)) <==> error@ == refusal,
        native_failure(true, refusal) is None,
        native_failure(false, refusal) == Some(refusal),
        decode_failure(Ok(())) is None,
        decode_failure(Err(message)) == Some(Eagle3SessionErrorView::Decode(message@)),
        state_failure(Ok(())) is None,
        state_failure(Err(inner)) == Some(Eagle3SessionErrorView::State(inner)),
{
}

/// An error is seen with its own numbers and words.
pub proof fn law_errors_are_seen_as_they_are(
    a: usize,
    b: usize,
    seq_id: i32,
    n_seq: u32,
    accepted: u16,
    words: &'static str,
    message: String,
    inner: SpeculativeStateError,
)
    ensures
        (Eagle3SessionError::PromptTooLong { size: a, maximum: b })@
            == (Eagle3SessionErrorView::PromptTooLong { size: a, maximum: b }),
        Eagle3SessionError::IncompatibleContexts(words)@
            == Eagle3SessionErrorView::IncompatibleContexts(words@),
        (Eagle3SessionError::BadSeqId { seq_id, n_seq })@ == (Eagle3SessionErrorView::BadSeqId {
            seq_id,
            n_seq,
        }),
        Eagle3SessionError::InvalidConfig(words)@ == Eagle3SessionErrorView::InvalidConfig(words@),
        Eagle3SessionError::Decode(message)@ == Eagle3SessionErrorView::Decode(message@),
        (Eagle3SessionError::ProposalPending { seq_id })@
            == (Eagle3SessionErrorView::ProposalPending { seq_id }),
        (Eagle3SessionError::NoPendingProposal { seq_id })@
            == (Eagle3SessionErrorView::NoPendingProposal { seq_id }),
        (Eagle3SessionError::AcceptedTooMany { accepted, proposed: b })@
            == (Eagle3SessionErrorView::AcceptedTooMany { accepted, proposed: b }),
        Eagle3SessionError::State(inner)@ == Eagle3SessionErrorView::State(inner),
        Eagle3SessionError::Init@ == Eagle3SessionErrorView::Init,
        Eagle3SessionError::Process@ == Eagle3SessionErrorView::Process,
        Eagle3SessionError::Begin@ == Eagle3SessionErrorView::Begin,
        Eagle3SessionError::Draft@ == Eagle3SessionErrorView::Draft,
        Eagle3SessionError::Accept@ == Eagle3SessionErrorView::Accept,
{
}

/// The text of an error carries its numbers in full, and its words at the end.
pub proof fn law_error_texts_carry_numbers_and_words(
    a: usize,
    b: usize,
    seq_id: i32,
    n_seq: u32,
    accepted: u16,
    words: Seq<char>,
    inner: SpeculativeStateError,
)
    ensures
        (Eagle3SessionErrorView::PromptTooLong { size: a, maximum: b }).display()
            == "prompt has "@ + decimal(a as nat) + " tokens, exceeding the "@ + decimal(b as nat)
            + "-token bound"@,
        Eagle3SessionErrorView::IncompatibleContexts(words).display()
            == "incompatible EAGLE-3 contexts: "@ + words,
        (Eagle3SessionErrorView::BadSeqId { seq_id, n_seq }).display() == "sequence id "@
            + signed_decimal(seq_id as int) + " out of range (n_seq = "@ + decimal(n_seq as nat)
            + ")"@,
        Eagle3SessionErrorView::InvalidConfig(words).display()
            == "invalid EAGLE-3 session config: "@ + words,
        Eagle3SessionErrorView::Decode(words).display() == "target decode failed: "@ + words,
        (Eagle3SessionErrorView::ProposalPending { seq_id }).display() == "sequence "@
            + signed_decimal(seq_id as int) + " still has an unaccepted draft proposal"@,
        (Eagle3SessionErrorView::NoPendingProposal { seq_id }).display() == "sequence "@
            + signed_decimal(seq_id as int) + " has no draft proposal to accept"@,
        (Eagle3SessionErrorView::AcceptedTooMany { accepted, proposed: b }).display()
            == "accepted "@ + decimal(accepted as nat) + " tokens from a "@ + decimal(b as nat)
            + "-token proposal"@,
        Eagle3SessionErrorView::State(inner).display() == inner.display(),
{
}

/// A sound session has an accepted configuration and a slot for each of its sequences, and no slot
/// holds an empty proposal.
pub proof fn law_sound_sessions_hold_no_empty_proposal(session: Eagle3SessionView, seq_id: i32)
    requires
        session.well_formed(),
    ensures
        1 <= session.config.n_seq <= 4_096,
        1 <= session.config.n_draft_max <= 4_096,
        session.pending.len() == session.config.n_seq,
        0 <= seq_id < session.config.n_seq && session.pending[seq_id as int] is Some
            ==> session.pending[seq_id as int]->Some_0 > 0,
{
}

} // verus!

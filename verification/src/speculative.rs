//! Shared exact-state contracts for speculative draft sessions.

use crate::float32::{law_the_unit_interval_ends_at_one, Float32};
use crate::text::{decimal, decimal_string};
use vstd::prelude::*;
use vstd::string::*;

verus! {

/// Maximum speculative continuation bytes copied through the safe API.
pub const MAX_SPECULATIVE_STATE_BYTES: usize = 64 * 1024 * 1024;

/// Maximum concurrent sequence slots allocated by one speculative session.
pub const MAX_SPECULATIVE_SEQUENCES: u32 = 4_096;

/// Maximum tokens requested from one speculative draft boundary.
pub const MAX_SPECULATIVE_DRAFT_TOKENS: i32 = 4_096;

/// Maximum prompt tokens copied into one speculative session.
pub const MAX_SPECULATIVE_PROMPT_TOKENS: usize = 1_048_576;

/// Native status: the operation succeeded.
pub const STATE_STATUS_OK: u32 = 0;

/// Native status: a required value was null.
pub const STATE_STATUS_NULL: u32 = 1;

/// Native status: the sequence is outside the configured range.
pub const STATE_STATUS_BAD_SEQUENCE: u32 = 2;

/// Native status: a proposal is still open.
pub const STATE_STATUS_NOT_QUIESCENT: u32 = 3;

/// Native status: the buffer was too small.
pub const STATE_STATUS_BUFFER_SMALL: u32 = 4;

/// Native status: the implementation exposes no complete state.
pub const STATE_STATUS_UNAVAILABLE: u32 = 5;

/// Native status: the state does not fit the session.
pub const STATE_STATUS_INVALID: u32 = 6;

/// Native status: size arithmetic overflowed.
pub const STATE_STATUS_OVERFLOW: u32 = 7;

/// Native status: an exception was contained.
pub const STATE_STATUS_EXCEPTION: u32 = 8;

/// Failure while capturing or restoring versioned speculative state.
#[derive(Clone, Copy, Debug, PartialEq, Eq, Structural)]
pub enum SpeculativeStateError {
    /// A required native session or output pointer was null.
    Null,
    /// The sequence id is outside the configured session range.
    BadSequence,
    /// A draft proposal has not yet been completed with `accept`.
    NotQuiescent,
    /// Native state changed size between the size and copy calls.
    SizeChanged {
        /// Size returned by the initial query.
        expected: usize,
        /// Size required or written by the copy call.
        actual: usize,
    },
    /// Native reported that the supplied buffer was too small without a size.
    BufferTooSmall,
    /// The active native implementation did not expose complete state.
    Unavailable,
    /// The supplied state failed its exact version/configuration checks.
    Invalid,
    /// Native state size arithmetic overflowed.
    Overflow,
    /// An exception was contained on the native side.
    Exception,
    /// State exceeded the safe allocation/input bound.
    Excessive {
        /// Requested or supplied byte count.
        size: usize,
        /// Inclusive safe bound.
        maximum: usize,
    },
    /// Native returned a status unknown to this binding revision.
    Unknown(u32),
}

impl SpeculativeStateError {
    /// The error as text.
    pub open spec fn display(self) -> Seq<char> {
        match self {
            SpeculativeStateError::Null =>
                "speculative state operation received a null native value"@,
            SpeculativeStateError::BadSequence =>
                "speculative state sequence id is outside the configured range"@,
            SpeculativeStateError::NotQuiescent =>
                "speculative state is available only at a quiescent boundary"@,
            SpeculativeStateError::SizeChanged { expected, actual } =>
                "speculative state size changed from "@ + decimal(expected as nat) + " to "@
                + decimal(actual as nat) + " bytes"@,
            SpeculativeStateError::BufferTooSmall =>
                "the speculative state buffer was too small"@,
            SpeculativeStateError::Unavailable =>
                "the active speculative implementation did not expose complete state"@,
            SpeculativeStateError::Invalid => "speculative state is invalid for this session"@,
            SpeculativeStateError::Overflow => "speculative state size overflowed"@,
            SpeculativeStateError::Exception =>
                "the native speculative-state operation raised an exception"@,
            SpeculativeStateError::Excessive { size, maximum } => "speculative state is "@
                + decimal(size as nat) + " bytes, exceeding the "@ + decimal(maximum as nat)
                + "-byte bound"@,
            SpeculativeStateError::Unknown(status) => "unknown speculative state status "@
                + decimal(status as nat),
        }
    }

    /// Writes the error as text.
    pub fn to_string(&self) -> (text: String)
        ensures
            text@ == self.display(),
    {
        match self {
            SpeculativeStateError::Null =>
                "speculative state operation received a null native value".to_owned(),
            SpeculativeStateError::BadSequence =>
                "speculative state sequence id is outside the configured range".to_owned(),
            SpeculativeStateError::NotQuiescent =>
                "speculative state is available only at a quiescent boundary".to_owned(),
            SpeculativeStateError::SizeChanged { expected, actual } => {
                let mut text = "speculative state size changed from ".to_owned();
                text.append(decimal_string(*expected as u64).as_str());
                text.append(" to ");
                text.append(decimal_string(*actual as u64).as_str());
                text.append(" bytes");
                text
            },
            SpeculativeStateError::BufferTooSmall =>
                "the speculative state buffer was too small".to_owned(),
            SpeculativeStateError::Unavailable =>
                "the active speculative implementation did not expose complete state".to_owned(),
            SpeculativeStateError::Invalid =>
                "speculative state is invalid for this session".to_owned(),
            SpeculativeStateError::Overflow => "speculative state size overflowed".to_owned(),
            SpeculativeStateError::Exception =>
                "the native speculative-state operation raised an exception".to_owned(),
            SpeculativeStateError::Excessive { size, maximum } => {
                let mut text = "speculative state is ".to_owned();
                text.append(decimal_string(*size as u64).as_str());
                text.append(" bytes, exceeding the ");
                text.append(decimal_string(*maximum as u64).as_str());
                text.append("-byte bound");
                text
            },
            SpeculativeStateError::Unknown(status) => {
                let mut text = "unknown speculative state status ".to_owned();
                text.append(decimal_string(*status as u64).as_str());
                text
            },
        }
    }
}

/// What a native status stands for.
pub open spec fn status_outcome(status: u32) -> Result<(), SpeculativeStateError> {
    if status == STATE_STATUS_OK {
        Ok(())
    } else {
        Err(
            if status == STATE_STATUS_NULL {
                SpeculativeStateError::Null
            } else if status == STATE_STATUS_BAD_SEQUENCE {
                SpeculativeStateError::BadSequence
            } else if status == STATE_STATUS_NOT_QUIESCENT {
                SpeculativeStateError::NotQuiescent
            } else if status == STATE_STATUS_BUFFER_SMALL {
                SpeculativeStateError::BufferTooSmall
            } else if status == STATE_STATUS_UNAVAILABLE {
                SpeculativeStateError::Unavailable
            } else if status == STATE_STATUS_INVALID {
                SpeculativeStateError::Invalid
            } else if status == STATE_STATUS_OVERFLOW {
                SpeculativeStateError::Overflow
            } else if status == STATE_STATUS_EXCEPTION {
                SpeculativeStateError::Exception
            } else {
                SpeculativeStateError::Unknown(status)
            },
        )
    }
}

/// Turns a native status into an outcome.
pub fn status_result(status: u32) -> (result: Result<(), SpeculativeStateError>)
    ensures
        result == status_outcome(status),
{
    if status == STATE_STATUS_OK {
        Ok(())
    } else if status == STATE_STATUS_NULL {
        Err(SpeculativeStateError::Null)
    } else if status == STATE_STATUS_BAD_SEQUENCE {
        Err(SpeculativeStateError::BadSequence)
    } else if status == STATE_STATUS_NOT_QUIESCENT {
        Err(SpeculativeStateError::NotQuiescent)
    } else if status == STATE_STATUS_BUFFER_SMALL {
        Err(SpeculativeStateError::BufferTooSmall)
    } else if status == STATE_STATUS_UNAVAILABLE {
        Err(SpeculativeStateError::Unavailable)
    } else if status == STATE_STATUS_INVALID {
        Err(SpeculativeStateError::Invalid)
    } else if status == STATE_STATUS_OVERFLOW {
        Err(SpeculativeStateError::Overflow)
    } else if status == STATE_STATUS_EXCEPTION {
        Err(SpeculativeStateError::Exception)
    } else {
        Err(SpeculativeStateError::Unknown(status))
    }
}

/// The outcome of the size bound on a state.
pub open spec fn size_outcome(size: usize) -> Result<(), SpeculativeStateError> {
    if size > MAX_SPECULATIVE_STATE_BYTES {
        Err(SpeculativeStateError::Excessive { size, maximum: MAX_SPECULATIVE_STATE_BYTES })
    } else {
        Ok(())
    }
}

/// Checks a state size against its bound.
pub fn validate_size(size: usize) -> (result: Result<(), SpeculativeStateError>)
    ensures
        result == size_outcome(size),
{
    if size > MAX_SPECULATIVE_STATE_BYTES {
        return Err(
            SpeculativeStateError::Excessive { size, maximum: MAX_SPECULATIVE_STATE_BYTES },
        );
    }
    Ok(())
}

/// The native reply to a state size query.
#[derive(Clone, Copy, Debug, PartialEq, Eq, Structural)]
pub struct StateSizeReply {
    /// Native status.
    pub status: u32,
    /// State size in bytes.
    pub size: usize,
}

/// The native reply to a state copy.
#[derive(Debug, PartialEq, Eq)]
pub struct StateCopyReply {
    /// Native status.
    pub status: u32,
    /// Bytes written or required.
    pub written: usize,
    /// The buffer that was handed over, filled.
    pub state: Vec<u8>,
}

/// The outcome of a size query: the size to copy, or why nothing is copied.
pub open spec fn size_reply_outcome(reply: StateSizeReply) -> Result<usize, SpeculativeStateError> {
    match status_outcome(reply.status) {
        Err(error) => Err(error),
        Ok(()) => match size_outcome(reply.size) {
            Err(error) => Err(error),
            Ok(()) => Ok(reply.size),
        },
    }
}

/// Decides from the reply to a size query how many bytes to copy.
pub fn accept_size(reply: StateSizeReply) -> (result: Result<usize, SpeculativeStateError>)
    ensures
        result == size_reply_outcome(reply),
{
    match status_result(reply.status) {
        Ok(()) => {},
        Err(error) => return Err(error),
    }
    match validate_size(reply.size) {
        Ok(()) => Ok(reply.size),
        Err(error) => Err(error),
    }
}

/// The outcome of a state copy of `size` bytes.
pub open spec fn copy_outcome(size: usize, status: u32, written: usize) -> Result<
    (),
    SpeculativeStateError,
> {
    if status == STATE_STATUS_BUFFER_SMALL {
        Err(SpeculativeStateError::SizeChanged { expected: size, actual: written })
    } else if status_outcome(status) is Err {
        status_outcome(status)
    } else if written != size {
        Err(SpeculativeStateError::SizeChanged { expected: size, actual: written })
    } else {
        Ok(())
    }
}

/// Decides from the reply to a state copy whether the state is complete.
pub fn accept_copy(size: usize, reply: StateCopyReply) -> (result: Result<
    Vec<u8>,
    SpeculativeStateError,
>)
    ensures
        match result {
            Ok(state) => copy_outcome(size, reply.status, reply.written) is Ok && state
                == reply.state,
            Err(error) => copy_outcome(size, reply.status, reply.written) == Err::<
                (),
                SpeculativeStateError,
            >(error),
        },
{
    if reply.status == STATE_STATUS_BUFFER_SMALL {
        return Err(
            SpeculativeStateError::SizeChanged { expected: size, actual: reply.written },
        );
    }
    match status_result(reply.status) {
        Ok(()) => {},
        Err(error) => return Err(error),
    }
    if reply.written != size {
        return Err(
            SpeculativeStateError::SizeChanged { expected: size, actual: reply.written },
        );
    }
    Ok(reply.state)
}

/// A buffer of zero bytes.
fn zeroed(size: usize) -> (buffer: Vec<u8>)
    ensures
        buffer@ == Seq::new(size as nat, |i: int| 0u8),
{
    let mut buffer: Vec<u8> = Vec::new();
    let mut i: usize = 0;
    while i < size
        invariant
            i <= size,
            buffer@ == Seq::new(i as nat, |j: int| 0u8),
        decreases size - i,
    {
        buffer.push(0);
        assert(buffer@ =~= Seq::new((i + 1) as nat, |j: int| 0u8));
        i = i + 1;
    }
    buffer
}

/// Whether a buffer is zeroed room for exactly the state of an accepted size.
pub open spec fn is_room_for(reply: StateSizeReply, buffer: Seq<u8>) -> bool {
    size_reply_outcome(reply) matches Ok(bytes) && buffer == Seq::new(bytes as nat, |i: int| 0u8)
}

/// What a state capture returns for the replies that the native side gave: a refused size or
/// copy as its error, and otherwise the copied state, of exactly the announced size.
pub open spec fn captured<
    Q: FnOnce(i32) -> StateSizeReply,
    C: FnOnce(i32, Vec<u8>) -> StateCopyReply,
>(
    seq_id: i32,
    query: Q,
    copy: C,
    result: Result<Vec<u8>, SpeculativeStateError>,
) -> bool {
    exists|size: StateSizeReply| #[trigger]
        query.ensures((seq_id,), size) && match size_reply_outcome(size) {
            Err(error) => result == Err::<Vec<u8>, SpeculativeStateError>(error),
            Ok(bytes) => exists|buffer: Vec<u8>, reply: StateCopyReply| #[trigger]
                copy.ensures((seq_id, buffer), reply) && is_room_for(size, buffer@)
                    && match copy_outcome(bytes, reply.status, reply.written) {
                    Err(error) => result == Err::<Vec<u8>, SpeculativeStateError>(error),
                    Ok(()) => result == Ok::<Vec<u8>, SpeculativeStateError>(reply.state)
                        && reply.state@.len() == bytes <= MAX_SPECULATIVE_STATE_BYTES,
                },
        }
}

/// Captures the state of a sequence. `query` asks the native side for the size, and `copy` hands
/// it a zeroed buffer of exactly that size; nothing is allocated or copied for a size that is
/// refused.
pub fn capture_state(
    seq_id: i32,
    query: impl FnOnce(i32) -> StateSizeReply,
    copy: impl FnOnce(i32, Vec<u8>) -> StateCopyReply,
) -> (result: Result<Vec<u8>, SpeculativeStateError>)
    requires
        query.requires((seq_id,)),
        forall|size: StateSizeReply, buffer: Vec<u8>|
            #![trigger query.ensures((seq_id,), size), copy.requires((seq_id, buffer))]
            query.ensures((seq_id,), size) && is_room_for(size, buffer@) ==> copy.requires(
                (seq_id, buffer),
            ),
        forall|buffer: Vec<u8>, reply: StateCopyReply| #[trigger]
            copy.ensures((seq_id, buffer), reply) ==> reply.state@.len() == buffer@.len(),
    ensures
        captured(seq_id, query, copy, result),
{
    let reply = query(seq_id);
    let size: usize = match accept_size(reply) {
        Ok(size) => size,
        Err(error) => return Err(error),
    };
    let buffer = zeroed(size);
    let reply = copy(seq_id, buffer);
    accept_copy(size, reply)
}

/// Why a state is refused before it reaches the native side, or nothing where it is handed over.
pub open spec fn state_rejection(state: Seq<u8>) -> Option<SpeculativeStateError> {
    if state.len() > MAX_SPECULATIVE_STATE_BYTES {
        Some(
            SpeculativeStateError::Excessive {
                size: state.len() as usize,
                maximum: MAX_SPECULATIVE_STATE_BYTES,
            },
        )
    } else if state.len() == 0 {
        Some(SpeculativeStateError::Invalid)
    } else {
        None
    }
}

/// Restores the state of a sequence. `set` hands the state to the native side and returns its
/// status; it is called only for a state within the bound.
pub fn restore_state(
    seq_id: i32,
    state: &[u8],
    set: impl FnOnce(i32, &[u8]) -> u32,
) -> (result: Result<(), SpeculativeStateError>)
    requires
        state_rejection(state@) is None ==> set.requires((seq_id, state)),
    ensures
        match state_rejection(state@) {
            Some(error) => result == Err::<(), SpeculativeStateError>(error),
            None => exists|status: u32| #[trigger]
                set.ensures((seq_id, state), status) && result == status_outcome(status),
        },
{
    match validate_size(state.len()) {
        Ok(()) => {},
        Err(error) => return Err(error),
    }
    if state.len() == 0 {
        return Err(SpeculativeStateError::Invalid);
    }
    let status: u32 = set(seq_id, state);
    status_result(status)
}

/// What a speculative session needs to know of a context's capacity.
#[derive(Clone, Copy, Debug, PartialEq, Eq, Structural)]
pub struct SpeculativeContextCapacity {
    /// Tokens in one batch.
    pub batch: u32,
    /// Tokens in one micro-batch.
    pub micro_batch: u32,
    /// Recurrent-state snapshots per sequence.
    pub recurrent_slots: u32,
    /// Whether the model keeps recurrent state.
    pub recurrent_or_hybrid: bool,
}

/// Why a session configuration is refused, or nothing where it is accepted.
pub open spec fn config_rejection(
    n_seq: u32,
    n_draft_max: i32,
    n_min: i32,
    p_min: Float32,
) -> Option<Seq<char>> {
    if !(0 < n_seq <= MAX_SPECULATIVE_SEQUENCES) {
        Some("n_seq is outside the supported bound"@)
    } else if !(1 <= n_draft_max <= MAX_SPECULATIVE_DRAFT_TOKENS) {
        Some("n_draft_max is outside the supported bound"@)
    } else if !(0 <= n_min <= n_draft_max) {
        Some("n_min must be between zero and n_draft_max"@)
    } else if !p_min.in_unit_interval() {
        Some("p_min must be finite and between zero and one"@)
    } else {
        None
    }
}

/// Checks a session configuration.
pub fn validate_config(n_seq: u32, n_draft_max: i32, n_min: i32, p_min: Float32) -> (result: Result<
    (),
    &'static str,
>)
    ensures
        match result {
            Ok(()) => config_rejection(n_seq, n_draft_max, n_min, p_min) is None,
            Err(message) => config_rejection(n_seq, n_draft_max, n_min, p_min) == Some(message@),
        },
{
    if n_seq == 0 || n_seq > MAX_SPECULATIVE_SEQUENCES {
        return Err("n_seq is outside the supported bound");
    }
    if n_draft_max < 1 || n_draft_max > MAX_SPECULATIVE_DRAFT_TOKENS {
        return Err("n_draft_max is outside the supported bound");
    }
    if n_min < 0 || n_min > n_draft_max {
        return Err("n_min must be between zero and n_draft_max");
    }
    if !p_min.is_in_unit_interval() {
        return Err("p_min must be finite and between zero and one");
    }
    Ok(())
}

/// Only the success status is a success, and a status that is not known is reported with its
/// number.
pub proof fn law_only_the_success_status_succeeds(status: u32)
    ensures
        status_outcome(status) is Ok <==> status == STATE_STATUS_OK,
        status > STATE_STATUS_EXCEPTION ==> status_outcome(status) == Err::<
            (),
            SpeculativeStateError,
        >(SpeculativeStateError::Unknown(status)),
{
}

/// Different native statuses are told apart.
pub proof fn law_statuses_are_told_apart(a: u32, b: u32)
    requires
        status_outcome(a) == status_outcome(b),
    ensures
        a == b,
{
}

/// A copy is accepted only where the native side wrote exactly the announced size, which is
/// within the bound.
pub proof fn law_accepted_copies_have_the_announced_size(
    reply: StateSizeReply,
    status: u32,
    written: usize,
)
    requires
        size_reply_outcome(reply) is Ok,
        copy_outcome(size_reply_outcome(reply)->Ok_0, status, written) is Ok,
    ensures
        written == reply.size,
        written <= MAX_SPECULATIVE_STATE_BYTES,
{
}

/// Each native status stands for its own outcome.
pub proof fn law_statuses_stand_for_their_outcomes(status: u32)
    ensures
        status == 0 ==> status_outcome(status) == Ok::<(), SpeculativeStateError>(()),
        status == 1 <==> status_outcome(status) == Err::<(), SpeculativeStateError>(
            SpeculativeStateError::Null,
        ),
        status == 2 <==> status_outcome(status) == Err::<(), SpeculativeStateError>(
            SpeculativeStateError::BadSequence,
        ),
        status == 3 <==> status_outcome(status) == Err::<(), SpeculativeStateError>(
            SpeculativeStateError::NotQuiescent,
        ),
        status == 4 <==> status_outcome(status) == Err::<(), SpeculativeStateError>(
            SpeculativeStateError::BufferTooSmall,
        ),
        status == 5 <==> status_outcome(status) == Err::<(), SpeculativeStateError>(
            SpeculativeStateError::Unavailable,
        ),
        status == 6 <==> status_outcome(status) == Err::<(), SpeculativeStateError>(
            SpeculativeStateError::Invalid,
        ),
        status == 7 <==> status_outcome(status) == Err::<(), SpeculativeStateError>(
            SpeculativeStateError::Overflow,
        ),
        status == 8 <==> status_outcome(status) == Err::<(), SpeculativeStateError>(
            SpeculativeStateError::Exception,
        ),
        status >= 9 <==> status_outcome(status) == Err::<(), SpeculativeStateError>(
            SpeculativeStateError::Unknown(status),
        ),
{
}

/// A size is accepted exactly where the native side succeeded and the state has no more than
/// 67108864 bytes, and then as announced. A native error is reported before the size is looked at,
/// and an excessive size with its bound.
pub proof fn law_sizes_are_accepted_exactly_within_the_bound(reply: StateSizeReply)
    ensures
        reply.status == 0 && reply.size <= 67_108_864 <==> size_reply_outcome(reply) == Ok::<
            usize,
            SpeculativeStateError,
        >(reply.size),
        reply.status == 0 && reply.size <= 67_108_864 <==> size_reply_outcome(reply) is Ok,
        reply.status == 0 && reply.size > 67_108_864 ==> size_reply_outcome(reply) == Err::<
            usize,
            SpeculativeStateError,
        >(SpeculativeStateError::Excessive { size: reply.size, maximum: 67_108_864 }),
        reply.status != 0 ==> size_reply_outcome(reply) == Err::<usize, SpeculativeStateError>(
            status_outcome(reply.status)->Err_0,
        ),
        size_outcome(reply.size) is Ok <==> reply.size <= 67_108_864,
        reply.size > 67_108_864 ==> size_outcome(reply.size) == Err::<(), SpeculativeStateError>(
            SpeculativeStateError::Excessive { size: reply.size, maximum: 67_108_864 },
        ),
{
}

/// A copy is accepted exactly where the native side succeeded and wrote the announced size. Where
/// it wrote another size, or found the buffer too small, the state has changed its size; any other
/// native error is reported as it is.
pub proof fn law_copies_are_accepted_exactly_at_the_announced_size(
    size: usize,
    status: u32,
    written: usize,
)
    ensures
        copy_outcome(size, status, written) is Ok <==> status == 0 && written == size,
        status == 4 || (status == 0 && written != size) ==> copy_outcome(size, status, written)
            == Err::<(), SpeculativeStateError>(
            SpeculativeStateError::SizeChanged { expected: size, actual: written },
        ),
        status != 0 && status != 4 ==> copy_outcome(size, status, written) == status_outcome(
            status,
        ),
{
}

/// Room for a state is as many bytes as were announced, all of them zero, and there is room only
/// for a size that is accepted.
pub proof fn law_room_is_zeroed_and_of_the_announced_size(reply: StateSizeReply, buffer: Seq<u8>)
    ensures
        is_room_for(reply, buffer) <==> {
            &&& reply.status == 0
            &&& reply.size <= 67_108_864
            &&& buffer.len() == reply.size
            &&& forall|i: int| 0 <= i < buffer.len() ==> #[trigger] buffer[i] == 0
        },
{
    if reply.status == 0 && reply.size <= 67_108_864 && buffer.len() == reply.size && (forall|
        i: int,
    |
        0 <= i < buffer.len() ==> #[trigger] buffer[i] == 0) {
        assert(buffer =~= Seq::new(reply.size as nat, |i: int| 0u8));
    }
}

/// A captured state is what the native side copied: the size was announced and accepted, zeroed
/// room of exactly that size was handed over for the same sequence, and the copy succeeded and
/// filled all of it.
pub proof fn law_captured_states_were_copied_whole<
    Q: FnOnce(i32) -> StateSizeReply,
    C: FnOnce(i32, Vec<u8>) -> StateCopyReply,
>(seq_id: i32, query: Q, copy: C, state: Vec<u8>)
    requires
        captured(seq_id, query, copy, Ok::<Vec<u8>, SpeculativeStateError>(state)),
    ensures
        state@.len() <= 67_108_864,
        exists|size: StateSizeReply, buffer: Vec<u8>, reply: StateCopyReply|
            {
                &&& #[trigger] query.ensures((seq_id,), size)
                &&& size.status == 0
                &&& size.size == state@.len()
                &&& #[trigger] copy.ensures((seq_id, buffer), reply)
                &&& buffer@.len() == size.size
                &&& forall|i: int| 0 <= i < buffer@.len() ==> #[trigger] buffer@[i] == 0
                &&& reply.status == 0
                &&& reply.written == size.size
                &&& reply.state == state
            },
{
    let size = choose|size: StateSizeReply| #[trigger]
        query.ensures((seq_id,), size) && match size_reply_outcome(size) {
            Err(error) => false,
            Ok(bytes) => exists|buffer: Vec<u8>, reply: StateCopyReply| #[trigger]
                copy.ensures((seq_id, buffer), reply) && is_room_for(size, buffer@)
                    && copy_outcome(bytes, reply.status, reply.written) is Ok && reply.state
                    == state && reply.state@.len() == bytes,
        };
    let (buffer, reply) = choose|buffer: Vec<u8>, reply: StateCopyReply| #[trigger]
        copy.ensures((seq_id, buffer), reply) && is_room_for(size, buffer@) && copy_outcome(
            size.size,
            reply.status,
            reply.written,
        ) is Ok && reply.state == state && reply.state@.len() == size.size;
    law_room_is_zeroed_and_of_the_announced_size(size, buffer@);
    assert(query.ensures((seq_id,), size));
    assert(copy.ensures((seq_id, buffer), reply));
}

/// A capture fails only for a reply of the native side: a size that is refused, reported as that
/// refusal and before anything is copied, or a copy that is refused, reported as that one.
pub proof fn law_failed_captures_report_the_refused_reply<
    Q: FnOnce(i32) -> StateSizeReply,
    C: FnOnce(i32, Vec<u8>) -> StateCopyReply,
>(seq_id: i32, query: Q, copy: C, error: SpeculativeStateError)
    requires
        captured(seq_id, query, copy, Err::<Vec<u8>, SpeculativeStateError>(error)),
    ensures
        exists|size: StateSizeReply| #[trigger]
            query.ensures((seq_id,), size) && (size_reply_outcome(size) == Err::<
                usize,
                SpeculativeStateError,
            >(error) || exists|buffer: Vec<u8>, reply: StateCopyReply|
                {
                    &&& size.status == 0
                    &&& size.size <= 67_108_864
                    &&& #[trigger] copy.ensures((seq_id, buffer), reply)
                    &&& buffer@.len() == size.size
                    &&& copy_outcome(size.size, reply.status, reply.written) == Err::<
                        (),
                        SpeculativeStateError,
                    >(error)
                }),
{
    let size = choose|size: StateSizeReply| #[trigger]
        query.ensures((seq_id,), size) && match size_reply_outcome(size) {
            Err(refusal) => refusal == error,
            Ok(bytes) => exists|buffer: Vec<u8>, reply: StateCopyReply| #[trigger]
                copy.ensures((seq_id, buffer), reply) && is_room_for(size, buffer@)
                    && copy_outcome(bytes, reply.status, reply.written) == Err::<
                    (),
                    SpeculativeStateError,
                >(error),
        };
    assert(query.ensures((seq_id,), size));
}

/// A state is handed to the native side exactly where it has between one and 67108864 bytes. An
/// excessive one is refused with its size and the bound, and an empty one is invalid.
pub proof fn law_states_are_handed_over_exactly_within_the_bound(state: Seq<u8>)
    requires
        state.len() <= usize::MAX,
    ensures
        state_rejection(state) is None <==> 1 <= state.len() <= 67_108_864,
        state.len() == 0 ==> state_rejection(state) == Some(SpeculativeStateError::Invalid),
        state.len() > 67_108_864 ==> state_rejection(state) == Some(
            SpeculativeStateError::Excessive {
                size: state.len() as usize,
                maximum: 67_108_864,
            },
        ),
{
}

/// A configuration is accepted exactly where it has between one and 4096 sequences, drafts between
/// one and 4096 tokens, wants no more of them than it drafts, and has a probability floor between
/// zero and one. A refusal names the first of these that does not hold.
pub proof fn law_configurations_are_accepted_exactly_within_their_bounds(
    n_seq: u32,
    n_draft_max: i32,
    n_min: i32,
    p_min: Float32,
)
    ensures
        ({
            let refusal = config_rejection(n_seq, n_draft_max, n_min, p_min);
            let sequences = 1 <= n_seq <= 4_096;
            let drafts = 1 <= n_draft_max <= 4_096;
            let least = 0 <= n_min <= n_draft_max;
            let floor = p_min.bits <= 0x3f80_0000 || p_min.bits == 0x8000_0000;
            &&& refusal is None <==> sequences && drafts && least && floor
            &&& !sequences ==> refusal == Some("n_seq is outside the supported bound"@)
            &&& sequences && !drafts ==> refusal == Some(
                "n_draft_max is outside the supported bound"@,
            )
            &&& sequences && drafts && !least ==> refusal == Some(
                "n_min must be between zero and n_draft_max"@,
            )
            &&& sequences && drafts && least && !floor ==> refusal == Some(
                "p_min must be finite and between zero and one"@,
            )
        }),
{
    law_the_unit_interval_ends_at_one(p_min);
}

/// The text of an error carries its numbers in full: what was expected and what came, the size
/// and its bound, and the status that is not known.
pub proof fn law_error_texts_carry_their_numbers(a: usize, b: usize, status: u32)
    ensures
        (SpeculativeStateError::SizeChanged { expected: a, actual: b }).display()
            == "speculative state size changed from "@ + decimal(a as nat) + " to "@ + decimal(
            b as nat,
        ) + " bytes"@,
        (SpeculativeStateError::Excessive { size: a, maximum: b }).display()
            == "speculative state is "@ + decimal(a as nat) + " bytes, exceeding the "@ + decimal(
            b as nat,
        ) + "-byte bound"@,
        SpeculativeStateError::Unknown(status).display() == "unknown speculative state status "@
            + decimal(status as nat),
{
}

} // verus!

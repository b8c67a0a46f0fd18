//! Stage-identity tokens at the head of the channel.
//!
//! A process learns its role by peeking at the head of the channel descriptor.
//! The parent queues one token per stage there before the child exists. The
//! magic number is public: it keeps an unrelated descriptor from being taken
//! for a channel by accident, and is no defense against a forger.

use vstd::prelude::*;

use crate::error::Errno;
use crate::text::bytes_equal;

verus! {

/// The descriptor on which a spawned process receives its channel.
pub const DAEMON_CHANNEL_FD: i32 = 3;

/// Bytes in the magic number of a token.
pub const TOKEN_MAGIC_LEN: usize = 32;

/// Bytes in a token: the magic number and the stage byte.
pub const TOKEN_LEN: usize = 33;

/// The stage byte of the first stage.
pub const TOKEN_STAGE1: u8 = 1;

/// The stage byte of the second stage.
pub const TOKEN_STAGE2: u8 = 2;

/// The public magic number that begins every token.
pub const TOKEN_MAGIC: [u8; 32] = [
    0x9d, 0x3e, 0x71, 0xc4, 0x08, 0xb2, 0x5f, 0xea, 0x46, 0x17, 0xd9, 0x8b, 0x2c, 0xf0, 0x63, 0xa5,
    0x7e, 0x91, 0x0d, 0xbc, 0x34, 0xe8, 0x5a, 0xc7, 0x19, 0x82, 0xf6, 0x4b, 0xd0, 0x2f, 0x95, 0x6a,
];

/// Which arm the head of the channel selects.
#[derive(Clone, Copy, Debug, PartialEq, Eq, Structural)]
pub enum StageDispatch {
    /// Not a channel of this library, or no token queued: the application's
    /// foreground code.
    Foreground,
    /// The head is the token of the first stage.
    DaemonStage1,
    /// The head is the token of the second stage.
    DaemonStage2,
}

/// The token of a stage.
pub open spec fn token(stage: u8) -> Seq<u8> {
    TOKEN_MAGIC@.push(stage)
}

/// The arm that bytes peeked at the head of the channel select. Only the first
/// token's length of them counts.
pub open spec fn arm_of(head: Seq<u8>) -> StageDispatch {
    if head.len() < TOKEN_LEN {
        StageDispatch::Foreground
    } else if head.subrange(0, TOKEN_LEN as int) == token(TOKEN_STAGE1) {
        StageDispatch::DaemonStage1
    } else if head.subrange(0, TOKEN_LEN as int) == token(TOKEN_STAGE2) {
        StageDispatch::DaemonStage2
    } else {
        StageDispatch::Foreground
    }
}

/// The arm that the result of a peek selects: every error number means that
/// there is no token to route on.
pub open spec fn arm_of_peek(peeked: Result<Seq<u8>, Errno>) -> StageDispatch {
    match peeked {
        Ok(head) => arm_of(head),
        Err(_) => StageDispatch::Foreground,
    }
}

/// The bytes of a peek as a sequence, or the error in their place.
pub open spec fn peek_view(peeked: Result<&[u8], Errno>) -> Result<Seq<u8>, Errno> {
    match peeked {
        Ok(head) => Ok(head@),
        Err(errno) => Err(errno),
    }
}

/// The bytes of a stage's token.
pub fn stage_token(stage: u8) -> (bytes: Vec<u8>)
    ensures
        bytes@ == token(stage),
{
    let mut bytes: Vec<u8> = Vec::new();
    let magic = TOKEN_MAGIC;
    bytes.extend_from_slice(magic.as_slice());
    bytes.push(stage);
    assert(bytes@ =~= token(stage));
    bytes
}

/// Both stages' tokens in their order, as the parent queues them in one write
/// before the child exists.
pub fn prequeued_tokens() -> (bytes: Vec<u8>)
    ensures
        bytes@ == token(TOKEN_STAGE1) + token(TOKEN_STAGE2),
{
    let mut bytes = stage_token(TOKEN_STAGE1);
    let mut second = stage_token(TOKEN_STAGE2);
    bytes.append(&mut second);
    bytes
}

/// Decide which arm to take from the result of a peek. Nothing is consumed.
pub fn classify(peeked: Result<&[u8], Errno>) -> (arm: StageDispatch)
    ensures
        arm == arm_of_peek(peek_view(peeked)),
{
    let bytes = match peeked {
        Ok(bytes) => bytes,
        Err(_) => {
            return StageDispatch::Foreground;
        },
    };
    if bytes.len() < TOKEN_LEN {
        return StageDispatch::Foreground;
    }
    let magic = TOKEN_MAGIC;
    let head = vstd::slice::slice_subrange(bytes, 0, TOKEN_MAGIC_LEN);
    let ghost whole = bytes@.subrange(0, TOKEN_LEN as int);
    proof {
        assert(head@ =~= whole.subrange(0, 32));
        assert(token(TOKEN_STAGE1).subrange(0, 32) =~= TOKEN_MAGIC@);
        assert(token(TOKEN_STAGE2).subrange(0, 32) =~= TOKEN_MAGIC@);
        assert(token(TOKEN_STAGE1)[32] == TOKEN_STAGE1);
        assert(token(TOKEN_STAGE2)[32] == TOKEN_STAGE2);
        assert(whole[32] == bytes@[32]);
    }
    if !bytes_equal(head, magic.as_slice()) {
        return StageDispatch::Foreground;
    }
    assert(whole =~= token(bytes@[32]));
    let stage: u8 = bytes[TOKEN_MAGIC_LEN];
    if stage == TOKEN_STAGE1 {
        StageDispatch::DaemonStage1
    } else if stage == TOKEN_STAGE2 {
        StageDispatch::DaemonStage2
    } else {
        StageDispatch::Foreground
    }
}

/// What a probe of the channel's head does next.
#[derive(Clone, Copy, Debug, PartialEq, Eq, Structural)]
pub enum Probe {
    /// The peek was interrupted: peek again.
    PeekAgain,
    /// The head of the channel selects this arm.
    Decided(StageDispatch),
}

/// What a probe does after a peek.
pub open spec fn probe_of(peeked: Result<Seq<u8>, Errno>) -> Probe {
    if peeked == Err::<Seq<u8>, Errno>(Errno::EINTR) {
        Probe::PeekAgain
    } else {
        Probe::Decided(arm_of_peek(peeked))
    }
}

/// The non-consuming probe shared by dispatch and by the first stage's check
/// for the second token: classify what a peek returned, or peek again where it
/// was interrupted.
pub fn peek_and_classify(peeked: Result<&[u8], Errno>) -> (probe: Probe)
    ensures
        probe == probe_of(peek_view(peeked)),
{
    match peeked {
        Err(Errno::EINTR) => Probe::PeekAgain,
        _ => Probe::Decided(classify(peeked)),
    }
}

/// Whether a peek shows the second stage's token at the head of the channel, or
/// `None` where the peek was interrupted and has to be made again.
pub fn channel_has_stage2_token(peeked: Result<&[u8], Errno>) -> (answer: Option<bool>)
    ensures
        answer == match probe_of(peek_view(peeked)) {
            Probe::PeekAgain => None,
            Probe::Decided(arm) => Some(arm == StageDispatch::DaemonStage2),
        },
{
    match peek_and_classify(peeked) {
        Probe::PeekAgain => None,
        Probe::Decided(arm) => Some(arm == StageDispatch::DaemonStage2),
    }
}

/// Where a dispatch stands.
#[derive(Clone, Copy, Debug, PartialEq, Eq, Structural)]
pub enum DispatchStep {
    /// Peek at most a token's length at the head of the channel, without
    /// blocking.
    Peek,
    /// Receive at most `max` bytes, without blocking and without keeping them:
    /// what is left of the token that selected `arm`.
    Consume { arm: StageDispatch, max: usize },
    /// The role of this process.
    Done(StageDispatch),
}

/// The step after a peek.
pub open spec fn dispatch_after_peek(peeked: Result<Seq<u8>, Errno>) -> DispatchStep {
    match probe_of(peeked) {
        Probe::PeekAgain => DispatchStep::Peek,
        Probe::Decided(arm) => if arm == StageDispatch::Foreground {
            DispatchStep::Done(arm)
        } else {
            DispatchStep::Consume { arm, max: TOKEN_LEN }
        },
    }
}

/// The step after a peek: a matched token is consumed, and where no token
/// matches nothing is.
pub fn dispatch_from_channel(peeked: Result<&[u8], Errno>) -> (step: DispatchStep)
    ensures
        step == dispatch_after_peek(peek_view(peeked)),
{
    match peek_and_classify(peeked) {
        Probe::PeekAgain => DispatchStep::Peek,
        Probe::Decided(arm) => match arm {
            StageDispatch::Foreground => DispatchStep::Done(arm),
            _ => DispatchStep::Consume { arm, max: TOKEN_LEN },
        },
    }
}

/// The step after a receive that consumed part of the token, with `left` bytes
/// of it asked for. A peer that closes, or an error, ends the dispatch: the
/// stage fails on such a channel by itself.
pub open spec fn dispatch_after_consume(
    arm: StageDispatch,
    left: usize,
    received: Result<usize, Errno>,
) -> DispatchStep {
    match received {
        Ok(n) => if n == 0 || n == left {
            DispatchStep::Done(arm)
        } else {
            DispatchStep::Consume { arm, max: (left - n) as usize }
        },
        Err(errno) => if errno == Errno::EINTR {
            DispatchStep::Consume { arm, max: left }
        } else {
            DispatchStep::Done(arm)
        },
    }
}

/// The step after a receive that consumed part of the token.
pub fn consume_token(arm: StageDispatch, left: usize, received: Result<usize, Errno>) -> (step:
    DispatchStep)
    requires
        received matches Ok(n) ==> n <= left,
    ensures
        step == dispatch_after_consume(arm, left, received),
{
    match received {
        Ok(n) => if n == 0 || n == left {
            DispatchStep::Done(arm)
        } else {
            DispatchStep::Consume { arm, max: left - n }
        },
        Err(Errno::EINTR) => DispatchStep::Consume { arm, max: left },
        Err(_) => DispatchStep::Done(arm),
    }
}

/// What the socket answers to a dispatch.
pub enum DispatchEvent {
    Peeked(Result<Seq<u8>, Errno>),
    Consumed(Result<usize, Errno>),
}

/// Where a dispatch stands after `events`, and how many bytes it has consumed.
pub open spec fn dispatch_run(events: Seq<DispatchEvent>) -> (DispatchStep, nat)
    decreases events.len(),
{
    if events.len() == 0 {
        (DispatchStep::Peek, 0)
    } else {
        let (step, consumed) = dispatch_run(events.drop_last());
        match (step, events.last()) {
            (DispatchStep::Peek, DispatchEvent::Peeked(peeked)) => (
                dispatch_after_peek(peeked),
                consumed,
            ),
            (DispatchStep::Consume { arm, max }, DispatchEvent::Consumed(received)) => (
                dispatch_after_consume(arm, max, received),
                consumed + match received {
                    Ok(n) => n as nat,
                    Err(_) => 0,
                },
            ),
            _ => (step, consumed),
        }
    }
}

/// Whether `events` can answer the steps of a dispatch one after the other: a
/// receive returns no more bytes than it was asked for.
pub open spec fn dispatch_answers(events: Seq<DispatchEvent>) -> bool
    decreases events.len(),
{
    events.len() == 0 || {
        &&& dispatch_answers(events.drop_last())
        &&& match (dispatch_run(events.drop_last()).0, events.last()) {
            (DispatchStep::Peek, DispatchEvent::Peeked(_)) => true,
            (DispatchStep::Consume { arm, max }, DispatchEvent::Consumed(received)) => received
                matches Ok(n) ==> n <= max,
            _ => false,
        }
    }
}

/// Whether a receive among `events` found the peer gone or failed, other than by
/// an interruption.
pub open spec fn consume_broke_off(events: Seq<DispatchEvent>) -> bool {
    exists|i: int|
        0 <= i < events.len() && match #[trigger] events[i] {
            DispatchEvent::Consumed(Ok(n)) => n == 0,
            DispatchEvent::Consumed(Err(errno)) => errno != Errno::EINTR,
            _ => false,
        }
}

/// Dispatch consumes exactly one token or nothing. A process that is routed to
/// the foreground has left the descriptor untouched, and one that is routed to
/// a stage has taken exactly the token's bytes, unless the channel broke under
/// it; it never takes more.
pub proof fn law_dispatch_consumes_one_token_or_nothing(events: Seq<DispatchEvent>)
    requires
        dispatch_answers(events),
    ensures
        dispatch_run(events).1 <= TOKEN_LEN,
        match dispatch_run(events).0 {
            DispatchStep::Peek => dispatch_run(events).1 == 0,
            DispatchStep::Consume { arm, max } => arm != StageDispatch::Foreground && max > 0
                && dispatch_run(events).1 + max == TOKEN_LEN,
            DispatchStep::Done(arm) => {
                &&& arm == StageDispatch::Foreground ==> dispatch_run(events).1 == 0
                &&& arm != StageDispatch::Foreground && !consume_broke_off(events)
                    ==> dispatch_run(events).1 == TOKEN_LEN
            },
        },
    decreases events.len(),
{
    if events.len() > 0 {
        let earlier = events.drop_last();
        law_dispatch_consumes_one_token_or_nothing(earlier);
        assert(events.last() == events[events.len() - 1]);
        if consume_broke_off(earlier) {
            let i = choose|i: int|
                0 <= i < earlier.len() && match #[trigger] earlier[i] {
                    DispatchEvent::Consumed(Ok(n)) => n == 0,
                    DispatchEvent::Consumed(Err(errno)) => errno != Errno::EINTR,
                    _ => false,
                };
            assert(events[i] == earlier[i]);
            assert(consume_broke_off(events));
        }
    }
}

/// Each stage's token routes to its stage whatever is queued behind it, and a
/// token with any other stage byte routes to the foreground.
pub proof fn law_token_routes_to_its_stage(stage: u8, behind: Seq<u8>)
    ensures
        token(stage).len() == TOKEN_LEN,
        arm_of(token(stage) + behind) == (if stage == TOKEN_STAGE1 {
            StageDispatch::DaemonStage1
        } else if stage == TOKEN_STAGE2 {
            StageDispatch::DaemonStage2
        } else {
            StageDispatch::Foreground
        }),
{
    let queue = token(stage) + behind;
    assert(queue.subrange(0, TOKEN_LEN as int) =~= token(stage));
    assert(token(stage)[32] == stage);
    assert(token(TOKEN_STAGE1)[32] == TOKEN_STAGE1);
    assert(token(TOKEN_STAGE2)[32] == TOKEN_STAGE2);
}

/// What the parent queues takes a spawn through both stages: the head of the
/// queue routes to the first stage, what is left after that token routes to the
/// second, and what is left after both is exactly what was queued behind them,
/// so the framed messages start clean.
pub proof fn law_prequeued_tokens_route_both_stages(behind: Seq<u8>)
    ensures
        ({
            let queue = token(TOKEN_STAGE1) + token(TOKEN_STAGE2) + behind;
            let after_first = queue.subrange(TOKEN_LEN as int, queue.len() as int);
            let after_second = after_first.subrange(TOKEN_LEN as int, after_first.len() as int);
            &&& arm_of(queue) == StageDispatch::DaemonStage1
            &&& arm_of(after_first) == StageDispatch::DaemonStage2
            &&& after_second == behind
        }),
{
    let queue = token(TOKEN_STAGE1) + token(TOKEN_STAGE2) + behind;
    let after_first = queue.subrange(TOKEN_LEN as int, queue.len() as int);
    law_token_routes_to_its_stage(TOKEN_STAGE1, token(TOKEN_STAGE2) + behind);
    law_token_routes_to_its_stage(TOKEN_STAGE2, behind);
    assert(queue =~= token(TOKEN_STAGE1) + (token(TOKEN_STAGE2) + behind));
    assert(after_first =~= token(TOKEN_STAGE2) + behind);
    assert(after_first.subrange(TOKEN_LEN as int, after_first.len() as int) =~= behind);
}

/// A channel that carries the first token alone has no second token behind it:
/// the first stage's check refuses it.
pub proof fn law_single_token_is_not_enough(behind: Seq<u8>)
    requires
        behind.len() < TOKEN_LEN || behind.subrange(0, TOKEN_LEN as int) != token(TOKEN_STAGE2),
    ensures
        arm_of(behind) != StageDispatch::DaemonStage2,
{
}

/// A head of the channel selects a stage exactly where it begins with the whole
/// magic number and that stage's byte; whatever follows, and anything else,
/// selects nothing. A peek that failed selects nothing either.
pub proof fn law_only_a_whole_token_selects_a_stage(
    head: &[u8],
    arm: StageDispatch,
    errno: Errno,
    without: StageDispatch,
)
    requires
        call_ensures(classify, (Ok::<&[u8], Errno>(head),), arm),
        call_ensures(classify, (Err::<&[u8], Errno>(errno),), without),
    ensures
        arm == StageDispatch::DaemonStage1 <==> head@.len() >= 33 && head@.subrange(0, 32)
            == TOKEN_MAGIC@ && head@[32] == 1,
        arm == StageDispatch::DaemonStage2 <==> head@.len() >= 33 && head@.subrange(0, 32)
            == TOKEN_MAGIC@ && head@[32] == 2,
        without == StageDispatch::Foreground,
{
    assert(token(1).subrange(0, 32) =~= TOKEN_MAGIC@);
    assert(token(2).subrange(0, 32) =~= TOKEN_MAGIC@);
    assert(token(1)[32] == 1);
    assert(token(2)[32] == 2);
    if head@.len() >= 33 {
        let whole = head@.subrange(0, 33);
        assert(whole.subrange(0, 32) =~= head@.subrange(0, 32));
        assert(whole[32] == head@[32]);
        if whole.subrange(0, 32) == TOKEN_MAGIC@ {
            assert forall|i: int| 0 <= i < 32 implies whole[i] == TOKEN_MAGIC@[i] by {
                assert(whole.subrange(0, 32)[i] == whole[i]);
            }
            assert(whole =~= token(whole[32]));
        }
    }
}

/// What is written as a stage's token is recognised as that stage's, and what
/// the parent queues is the two tokens and nothing else.
pub proof fn law_written_token_is_recognised(
    stage: u8,
    written: Vec<u8>,
    head: &[u8],
    behind: Seq<u8>,
    arm: StageDispatch,
    queued: Vec<u8>,
)
    requires
        call_ensures(stage_token, (stage,), written),
        call_ensures(prequeued_tokens, (), queued),
        head@ == written@ + behind,
        call_ensures(classify, (Ok::<&[u8], Errno>(head),), arm),
    ensures
        written@.len() == 33,
        written@[32] == stage,
        stage == 1 ==> arm == StageDispatch::DaemonStage1,
        stage == 2 ==> arm == StageDispatch::DaemonStage2,
        stage != 1 && stage != 2 ==> arm == StageDispatch::Foreground,
        queued@.len() == 66,
        stage == 1 ==> queued@.subrange(0, 33) == written@,
        stage == 2 ==> queued@.subrange(33, 66) == written@,
{
    law_token_routes_to_its_stage(stage, behind);
    assert(queued@.subrange(0, 33) =~= token(1));
    assert(queued@.subrange(33, 66) =~= token(2));
}

/// A probe is made again after an interruption and only then; otherwise it is
/// decided by what the peek showed. The second token is there exactly where the
/// head selects the second stage.
pub proof fn law_probe_repeats_after_an_interruption_only(
    peeked: Result<&[u8], Errno>,
    probe: Probe,
    arm: StageDispatch,
    answer: Option<bool>,
    step: DispatchStep,
)
    requires
        call_ensures(peek_and_classify, (peeked,), probe),
        call_ensures(classify, (peeked,), arm),
        call_ensures(channel_has_stage2_token, (peeked,), answer),
        call_ensures(dispatch_from_channel, (peeked,), step),
    ensures
        peeked == Err::<&[u8], Errno>(Errno::EINTR) ==> probe == Probe::PeekAgain && answer is None
            && step == DispatchStep::Peek,
        peeked != Err::<&[u8], Errno>(Errno::EINTR) ==> probe == Probe::Decided(arm) && answer
            == Some(arm == StageDispatch::DaemonStage2) && step == (if arm
            == StageDispatch::Foreground {
            DispatchStep::Done(arm)
        } else {
            DispatchStep::Consume { arm, max: 33 }
        }),
{
}

/// Consuming a token goes on until its last byte: an interruption changes
/// nothing, a part that was received is not asked for again, and the end, or a
/// channel that is broken, ends it. The stage stays the same throughout.
pub proof fn law_consuming_goes_on_to_the_last_byte(
    arm: StageDispatch,
    left: usize,
    received: Result<usize, Errno>,
    step: DispatchStep,
)
    requires
        received matches Ok(n) ==> n <= left,
        call_ensures(consume_token, (arm, left, received), step),
    ensures
        received == Err::<usize, Errno>(Errno::EINTR) ==> step == (DispatchStep::Consume {
            arm,
            max: left,
        }),
        received matches Ok(n) ==> 0 < n < left ==> (step matches DispatchStep::Consume { arm: a, max }
            && a == arm && max + n == left),
        received matches Ok(n) ==> n == left || n == 0 ==> step == DispatchStep::Done(arm),
        received matches Err(errno) ==> errno != Errno::EINTR ==> step == DispatchStep::Done(arm),
{
}

/// Whether a peek among `events` that was not interrupted selected this arm.
pub open spec fn peek_selected(events: Seq<DispatchEvent>, arm: StageDispatch) -> bool {
    exists|i: int|
        0 <= i < events.len() && match #[trigger] events[i] {
            DispatchEvent::Peeked(Ok(head)) => arm == arm_of(head),
            DispatchEvent::Peeked(Err(errno)) => errno != Errno::EINTR && arm
                == StageDispatch::Foreground,
            _ => false,
        }
}

/// The role that a process ends up in is the one that its peek selected, whatever
/// happens while the token is consumed.
pub proof fn law_dispatch_ends_in_the_arm_of_its_peek(events: Seq<DispatchEvent>)
    requires
        dispatch_answers(events),
    ensures
        match dispatch_run(events).0 {
            DispatchStep::Peek => true,
            DispatchStep::Consume { arm, max } => peek_selected(events, arm),
            DispatchStep::Done(arm) => peek_selected(events, arm),
        },
    decreases events.len(),
{
    if events.len() > 0 {
        let earlier = events.drop_last();
        law_dispatch_ends_in_the_arm_of_its_peek(earlier);
        assert(events.last() == events[events.len() - 1]);
        assert forall|arm: StageDispatch| peek_selected(earlier, arm) implies peek_selected(
            events,
            arm,
        ) by {
            let i = choose|i: int|
                0 <= i < earlier.len() && match #[trigger] earlier[i] {
                    DispatchEvent::Peeked(Ok(head)) => arm == arm_of(head),
                    DispatchEvent::Peeked(Err(errno)) => errno != Errno::EINTR && arm
                        == StageDispatch::Foreground,
                    _ => false,
                };
            assert(events[i] == earlier[i]);
        }
    }
}

/// Every peek is answered, and every receive that returns no more than it was
/// asked for.
pub proof fn law_dispatch_answers_every_outcome(
    peeked: Result<&[u8], Errno>,
    arm: StageDispatch,
    left: usize,
    received: Result<usize, Errno>,
)
    ensures
        call_requires(classify, (peeked,)),
        call_requires(peek_and_classify, (peeked,)),
        call_requires(channel_has_stage2_token, (peeked,)),
        call_requires(dispatch_from_channel, (peeked,)),
        (received matches Ok(n) ==> n <= left) ==> call_requires(
            consume_token,
            (arm, left, received),
        ),
{
}

} // verus!

//! The exchanges of the foreground with its daemons, step by step.

use vstd::prelude::*;

use crate::echo_app::daemon::{answer, DaemonIdentity};
use crate::echo_app::messages::{
    encoded_number, is_received_response, number_in, received_response, response_in, ResponseView,
    TestRequest, TestResponse,
};
use crate::echo_app::report::{parent_record, parent_report};
use crate::error::{
    joined, ChannelRecvError, ChannelSendError, CodecError, IoError, SpawnDaemonError,
};
use crate::text::{
    begins_with, decimal, decimal_text, ends_with, lead, lemma_ends_of_a_sum,
};

verus! {

/// How many seconds the foreground waits for an answer.
pub const ANSWER_TIMEOUT_SECS: u64 = 10;

/// The number of daemons that can be told apart by the number they are sent.
pub const MOST_DAEMONS: usize = 21_474_836;

/// The number that daemon `idx` of many is sent, as an integer.
pub open spec fn request_number(idx: usize) -> int {
    100 * ((idx as i32) + 1)
}

/// What computing the number of daemon `idx` panics with, where it overflows.
pub open spec fn request_overflow(idx: usize) -> Option<Seq<char>> {
    if (idx as i32) == i32::MAX {
        Some("attempt to add with overflow"@)
    } else if !(i32::MIN <= request_number(idx) <= i32::MAX) {
        Some("attempt to multiply with overflow"@)
    } else {
        None
    }
}

/// The number that daemon `idx` of many is sent: one of its own, so that an
/// answer from another daemon gives itself away. The index counts by its lowest
/// 32 bits, as a signed number.
pub fn request_value(idx: usize) -> (v: i32)
    requires
        -21_474_837 <= (idx as i32) < 21_474_836,
    ensures
        v == request_number(idx),
        idx < MOST_DAEMONS ==> v == 100 * (idx + 1),
{
    100 * (idx as i32 + 1)
}

/// The number that daemon `idx` of many is sent, or what computing it panics
/// with.
pub fn checked_request_value(idx: usize) -> (v: Result<i32, String>)
    ensures
        match request_overflow(idx) {
            None => v matches Ok(v) && v == request_number(idx),
            Some(panic) => v matches Err(text) && text@ == panic,
        },
{
    let low: i32 = idx as i32;
    if low == i32::MAX {
        Err("attempt to add with overflow".to_string())
    } else if low < -21_474_837 || low >= 21_474_836 {
        Err("attempt to multiply with overflow".to_string())
    } else {
        Ok(request_value(idx))
    }
}

/// No two daemons are sent the same number, and no two answers are equal: a pair
/// of crossed channels would show. None of these numbers overflows.
pub proof fn law_fingerprints_are_distinct(
    i: usize,
    j: usize,
    of_i: DaemonIdentity,
    of_j: DaemonIdentity,
)
    requires
        i != j,
        i < MOST_DAEMONS,
        j < MOST_DAEMONS,
    ensures
        request_overflow(i) is None,
        request_overflow(j) is None,
        request_number(i) != request_number(j),
        answer(of_i, request_number(i)).v != answer(of_j, request_number(j)).v,
{
}

/// What is reported where the outfile could not be written.
pub fn outfile_failure(err: &IoError) -> (text: String)
    ensures
        text@ == "failed to write outfile: "@ + err.message@,
{
    joined("failed to write outfile: ", err.message.as_str())
}

/// How the last step of the exchange with one daemon went.
#[derive(Debug)]
pub enum ParentEvent {
    /// The exchange begins.
    Started,
    /// How the spawn went.
    Spawned(Result<(), SpawnDaemonError>),
    /// How sending the request went.
    Sent(Result<(), ChannelSendError>),
    /// The payload of the answer, or why there is none.
    Received(Result<Vec<u8>, ChannelRecvError>),
    /// How many zombie children there are, after `response` came in.
    Counted { response: TestResponse, zombies: usize },
    /// How writing the outfile went.
    Written(Result<(), IoError>),
}

/// What the exchange with one daemon does next.
#[derive(Debug)]
pub enum ParentStep {
    /// Spawn the daemon.
    Spawn,
    /// Send the request with this encoding.
    Send(Result<Vec<u8>, CodecError>),
    /// Wait for the answer.
    Receive,
    /// Count the zombie children, with this answer in hand.
    CountZombies(TestResponse),
    /// Write this to the outfile.
    Write(String),
    /// The exchange is over.
    Done(Result<(), String>),
}

/// Whether `step` is what the exchange with one daemon does after `event`.
pub open spec fn is_parent_step(event: ParentEvent, step: ParentStep) -> bool {
    match event {
        ParentEvent::Started => step is Spawn,
        ParentEvent::Spawned(Ok(_)) => step matches ParentStep::Send(Ok(bytes)) && bytes@
            == encoded_number(42) && number_in(bytes@) == Some(42i32),
        ParentEvent::Spawned(Err(err)) => step matches ParentStep::Done(Err(text)) && text@
            == "spawn_daemon failed: "@ + err.text(),
        ParentEvent::Sent(Ok(_)) => step is Receive,
        ParentEvent::Sent(Err(err)) => step matches ParentStep::Done(Err(text)) && text@
            == "send_request failed: "@ + err.text(),
        ParentEvent::Received(received) => exists|response: Result<TestResponse, ChannelRecvError>|
            #[trigger] is_received_response(received, response) && match response {
                Ok(response) => step == ParentStep::CountZombies(response),
                Err(err) => step matches ParentStep::Done(Err(text)) && text@
                    == "recv_response failed: "@ + err.text(),
            },
        ParentEvent::Counted { response, zombies } => step matches ParentStep::Write(text) && text@
            == parent_record(response@, zombies as nat),
        ParentEvent::Written(Ok(_)) => step == ParentStep::Done(Ok::<(), String>(())),
        ParentEvent::Written(Err(err)) => step matches ParentStep::Done(Err(text)) && text@
            == "failed to write outfile: "@ + err.message@,
    }
}

/// The exchange with one daemon: spawn it, send it a number, wait for the next
/// one, and record what came.
pub fn run_parent(event: ParentEvent) -> (step: ParentStep)
    ensures
        is_parent_step(event, step),
{
    match event {
        ParentEvent::Started => ParentStep::Spawn,
        ParentEvent::Spawned(Ok(())) => ParentStep::Send(TestRequest { v: 42 }.encode()),
        ParentEvent::Spawned(Err(err)) => ParentStep::Done(
            Err(joined("spawn_daemon failed: ", err.message().as_str())),
        ),
        ParentEvent::Sent(Ok(())) => ParentStep::Receive,
        ParentEvent::Sent(Err(err)) => ParentStep::Done(
            Err(joined("send_request failed: ", err.message().as_str())),
        ),
        ParentEvent::Received(received) => {
            let response = received_response(received);
            assert(is_received_response(received, response));
            match response {
                Ok(response) => ParentStep::CountZombies(response),
                Err(err) => ParentStep::Done(
                    Err(joined("recv_response failed: ", err.message().as_str())),
                ),
            }
        },
        ParentEvent::Counted { response, zombies } => ParentStep::Write(
            parent_report(&response, zombies),
        ),
        ParentEvent::Written(Ok(())) => ParentStep::Done(Ok(())),
        ParentEvent::Written(Err(err)) => ParentStep::Done(Err(outfile_failure(&err))),
    }
}

/// How the last step of one round trip went.
#[derive(Debug)]
pub enum RoundtripEvent {
    /// The round trip begins.
    Started,
    /// How sending the request went.
    Sent(Result<(), ChannelSendError>),
    /// The payload of the answer, or why there is none.
    Received(Result<Vec<u8>, ChannelRecvError>),
}

/// What one round trip does next.
#[derive(Debug)]
pub enum RoundtripStep {
    /// Send the request with this encoding.
    Send(Result<Vec<u8>, CodecError>),
    /// Wait for the answer.
    Receive,
    /// The round trip is over: the answer, or what went wrong.
    Done(Result<TestResponse, String>),
}

/// Whether `step` is what a round trip with the number `value` does after
/// `event`.
pub open spec fn is_roundtrip_step(value: i32, event: RoundtripEvent, step: RoundtripStep) -> bool {
    match event {
        RoundtripEvent::Started => step matches RoundtripStep::Send(Ok(bytes)) && bytes@
            == encoded_number(value) && number_in(bytes@) == Some(value),
        RoundtripEvent::Sent(Ok(_)) => step is Receive,
        RoundtripEvent::Sent(Err(err)) => step matches RoundtripStep::Done(Err(text)) && text@
            == "send_request failed: "@ + err.text(),
        RoundtripEvent::Received(received) => exists|
            response: Result<TestResponse, ChannelRecvError>,
        | #[trigger]
            is_received_response(received, response) && match response {
                Ok(response) => step == RoundtripStep::Done(Ok(response)),
                Err(err) => step matches RoundtripStep::Done(Err(text)) && text@
                    == "recv_response failed: "@ + err.text(),
            },
    }
}

/// One round trip: send a number, and wait for the answer.
pub fn roundtrip(value: i32, event: RoundtripEvent) -> (step: RoundtripStep)
    ensures
        is_roundtrip_step(value, event, step),
{
    match event {
        RoundtripEvent::Started => RoundtripStep::Send(TestRequest { v: value }.encode()),
        RoundtripEvent::Sent(Ok(())) => RoundtripStep::Receive,
        RoundtripEvent::Sent(Err(err)) => RoundtripStep::Done(
            Err(joined("send_request failed: ", err.message().as_str())),
        ),
        RoundtripEvent::Received(received) => {
            let response = received_response(received);
            assert(is_received_response(received, response));
            match response {
                Ok(response) => RoundtripStep::Done(Ok(response)),
                Err(err) => RoundtripStep::Done(
                    Err(joined("recv_response failed: ", err.message().as_str())),
                ),
            }
        },
    }
}

/// What the exchange with many daemons is waiting for.
#[derive(Clone, Copy, Debug, PartialEq, Eq, Structural)]
pub enum ManyPhase {
    /// The spawn of this daemon.
    Spawning(usize),
    /// The request to this daemon.
    Sending(usize),
    /// The answer of this daemon.
    Receiving(usize),
}

/// An exchange with many daemons in progress.
#[derive(Debug)]
pub struct ManyRun {
    pub count: usize,
    pub phase: ManyPhase,
    /// The answers so far, with the daemons they came from.
    pub results: Vec<(usize, TestResponse)>,
}

/// How the last step of the exchange with many daemons went.
#[derive(Debug)]
pub enum ManyEvent {
    /// How the spawn went.
    Spawned(Result<(), SpawnDaemonError>),
    /// How sending the request went.
    Sent(Result<(), ChannelSendError>),
    /// The payload of the answer, or why there is none.
    Received(Result<Vec<u8>, ChannelRecvError>),
}

/// What the exchange with many daemons does next.
#[derive(Debug)]
pub enum ManyStep {
    /// Spawn this daemon.
    Spawn { run: ManyRun, idx: usize },
    /// Send this daemon the request with this encoding.
    Send { run: ManyRun, idx: usize, encoded: Result<Vec<u8>, CodecError> },
    /// Wait for this daemon's answer.
    Receive { run: ManyRun, idx: usize },
    /// The exchange is over: every daemon's answer, or what went wrong.
    Done(Result<Vec<(usize, TestResponse)>, String>),
    /// Give up: there is no number left for the next daemon.
    Panic { message: String },
}

impl ManyRun {
    /// The answers so far are those of the first daemons, in their order, and
    /// none comes in before all daemons are spawned.
    pub open spec fn valid(&self) -> bool {
        &&& 0 < self.count
        &&& forall|i: int|
            0 <= i < self.results@.len() ==> (#[trigger] self.results@[i]).0 == i
        &&& match self.phase {
            ManyPhase::Spawning(idx) => idx < self.count && self.results@.len() == 0,
            ManyPhase::Sending(idx) => idx < self.count && self.results@.len() == idx,
            ManyPhase::Receiving(idx) => idx < self.count && self.results@.len() == idx,
        }
    }

    /// Whether `event` answers what this exchange is waiting for.
    pub open spec fn admits(&self, event: ManyEvent) -> bool {
        match self.phase {
            ManyPhase::Spawning(_) => event is Spawned,
            ManyPhase::Sending(_) => event is Sent,
            ManyPhase::Receiving(_) => event is Received,
        }
    }
}

/// Whether `step` tells to send daemon `idx` its number, with `results` so far;
/// or to give up, where that number overflows.
pub open spec fn sends_to(
    step: ManyStep,
    count: usize,
    idx: usize,
    results: Seq<(usize, TestResponse)>,
) -> bool {
    match request_overflow(idx) {
        Some(panic) => step matches ManyStep::Panic { message } && message@ == panic,
        None => step matches ManyStep::Send { run, idx: i, encoded } && i == idx && run.count
            == count && run.phase == ManyPhase::Sending(i) && run.results@ == results && (
        encoded matches Ok(bytes) && bytes@ == encoded_number(request_number(idx) as i32)
            && number_in(bytes@) == Some(request_number(idx) as i32)),
    }
}

/// Whether `step` is what an exchange with many daemons does after `event`.
pub open spec fn is_many_step(run: ManyRun, event: ManyEvent, step: ManyStep) -> bool {
    match (run.phase, event) {
        (ManyPhase::Spawning(idx), ManyEvent::Spawned(Ok(_))) => if idx + 1 < run.count {
            step matches ManyStep::Spawn { run: r, idx: i } && i == idx + 1 && r.count == run.count
                && r.phase == ManyPhase::Spawning(i) && r.results@ == run.results@
        } else {
            sends_to(step, run.count, 0, run.results@)
        },
        (ManyPhase::Spawning(idx), ManyEvent::Spawned(Err(err))) => step matches ManyStep::Done(
            Err(text),
        ) && text@ == "spawn_daemon #"@ + decimal(idx as nat) + " failed: "@ + err.text(),
        (ManyPhase::Sending(idx), ManyEvent::Sent(Ok(_))) => step matches ManyStep::Receive {
            run: r,
            idx: i,
        } && i == idx && r.count == run.count && r.phase == ManyPhase::Receiving(idx) && r.results@
            == run.results@,
        (ManyPhase::Sending(_), ManyEvent::Sent(Err(err))) => step matches ManyStep::Done(Err(text))
            && text@ == "send_request failed: "@ + err.text(),
        (ManyPhase::Receiving(idx), ManyEvent::Received(received)) => exists|
            response: Result<TestResponse, ChannelRecvError>,
        | #[trigger]
            is_received_response(received, response) && match response {
                Ok(response) => if idx + 1 < run.count {
                    sends_to(
                        step,
                        run.count,
                        (idx + 1) as usize,
                        run.results@.push((idx, response)),
                    )
                } else {
                    step matches ManyStep::Done(Ok(results)) && results@ == run.results@.push(
                        (idx, response),
                    )
                },
                Err(err) => step matches ManyStep::Done(Err(text)) && text@
                    == "recv_response failed: "@ + err.text(),
            },
        _ => true,
    }
}

/// Begin the exchange with `count` daemons: all of them are spawned before any
/// is sent anything, so that they are alive at the same time. With none, there
/// are no answers.
pub fn spawn_many_sequential(count: usize) -> (step: ManyStep)
    ensures
        count > 0 ==> (step matches ManyStep::Spawn { run, idx } && idx == 0 && run.count == count
            && run.phase == ManyPhase::Spawning(0) && run.results@.len() == 0 && run.valid()),
        count == 0 ==> (step matches ManyStep::Done(Ok(results)) && results@.len() == 0),
{
    if count == 0 {
        return ManyStep::Done(Ok(Vec::new()));
    }
    ManyStep::Spawn {
        run: ManyRun { count, phase: ManyPhase::Spawning(0), results: Vec::new() },
        idx: 0,
    }
}

/// The step that sends daemon `idx` its number.
fn send_step(count: usize, idx: usize, results: Vec<(usize, TestResponse)>) -> (step: ManyStep)
    requires
        idx < count,
        results@.len() == idx,
        forall|i: int| 0 <= i < results@.len() ==> (#[trigger] results@[i]).0 == i,
    ensures
        sends_to(step, count, idx, results@),
        step matches ManyStep::Send { run, idx, encoded } ==> run.valid(),
{
    match checked_request_value(idx) {
        Ok(v) => ManyStep::Send {
            run: ManyRun { count, phase: ManyPhase::Sending(idx), results },
            idx,
            encoded: TestRequest { v }.encode(),
        },
        Err(message) => ManyStep::Panic { message },
    }
}

impl ManyRun {
    /// Go on with the exchange. Where it is over and nothing went wrong, there
    /// is one answer of each daemon, in their order.
    pub fn next(self, event: ManyEvent) -> (step: ManyStep)
        requires
            self.valid(),
            self.admits(event),
        ensures
            is_many_step(self, event, step),
            match step {
                ManyStep::Spawn { run, idx } => run.valid(),
                ManyStep::Send { run, idx, encoded } => run.valid(),
                ManyStep::Receive { run, idx } => run.valid(),
                ManyStep::Done(Ok(results)) => results@.len() == self.count && forall|i: int|
                    0 <= i < results@.len() ==> (#[trigger] results@[i]).0 == i,
                ManyStep::Done(Err(_)) => true,
                ManyStep::Panic { message } => true,
            },
    {
        let count: usize = self.count;
        match (self.phase, event) {
            (ManyPhase::Spawning(idx), ManyEvent::Spawned(Ok(()))) => if idx + 1 < count {
                ManyStep::Spawn {
                    run: ManyRun {
                        count,
                        phase: ManyPhase::Spawning(idx + 1),
                        results: self.results,
                    },
                    idx: idx + 1,
                }
            } else {
                send_step(count, 0, self.results)
            },
            (ManyPhase::Spawning(idx), ManyEvent::Spawned(Err(err))) => {
                let mut text = joined("spawn_daemon #", decimal_text(idx as u64).as_str());
                text.append(" failed: ");
                text.append(err.message().as_str());
                ManyStep::Done(Err(text))
            },
            (ManyPhase::Sending(idx), ManyEvent::Sent(Ok(()))) => ManyStep::Receive {
                run: ManyRun { count, phase: ManyPhase::Receiving(idx), results: self.results },
                idx,
            },
            (ManyPhase::Sending(_), ManyEvent::Sent(Err(err))) => ManyStep::Done(
                Err(joined("send_request failed: ", err.message().as_str())),
            ),
            (ManyPhase::Receiving(idx), ManyEvent::Received(received)) => {
                let response = received_response(received);
                assert(is_received_response(received, response));
                match response {
                    Ok(response) => {
                        let mut results = self.results;
                        results.push((idx, response));
                        if idx + 1 < count {
                            send_step(count, idx + 1, results)
                        } else {
                            ManyStep::Done(Ok(results))
                        }
                    },
                    Err(err) => ManyStep::Done(
                        Err(joined("recv_response failed: ", err.message().as_str())),
                    ),
                }
            },
            _ => {
                assert(false);
                ManyStep::Done(Ok(self.results))
            },
        }
    }
}

/// How the exchange of one of many concurrent threads ended.
#[derive(Debug)]
pub enum Joined {
    /// With this daemon's answer.
    Answered(usize, TestResponse),
    /// With an error.
    Failed(String),
    /// By a panic.
    Panicked,
}

/// What is reported where the spawn of daemon `idx` failed in its thread.
pub fn concurrent_spawn_failure(idx: usize, err: &SpawnDaemonError) -> (text: String)
    ensures
        text@ == "concurrent spawn_daemon #"@ + decimal(idx as nat) + " failed: "@ + err.text(),
{
    let mut text = joined("concurrent spawn_daemon #", decimal_text(idx as u64).as_str());
    text.append(" failed: ");
    text.append(err.message().as_str());
    text
}

/// What a thread that did not end with an answer is reported with.
pub open spec fn joined_fault(joined: Joined) -> Option<Seq<char>> {
    match joined {
        Joined::Answered(_, _) => None,
        Joined::Failed(text) => Some(text@),
        Joined::Panicked => Some("a concurrent spawn thread panicked"@),
    }
}

/// The report of the first thread that did not end with an answer.
pub open spec fn first_fault(joined: Seq<Joined>) -> Option<Seq<char>>
    decreases joined.len(),
{
    if joined.len() == 0 {
        None
    } else {
        match first_fault(joined.drop_last()) {
            Some(text) => Some(text),
            None => joined_fault(joined.last()),
        }
    }
}

/// The answers of the threads that ended with one.
pub open spec fn joined_answers(joined: Seq<Joined>) -> Seq<(usize, TestResponse)>
    decreases joined.len(),
{
    if joined.len() == 0 {
        Seq::empty()
    } else {
        match joined.last() {
            Joined::Answered(idx, response) => joined_answers(joined.drop_last()).push(
                (idx, response),
            ),
            _ => joined_answers(joined.drop_last()),
        }
    }
}

/// Whether the answers are in the order of their daemons.
pub open spec fn in_order(results: Seq<(usize, TestResponse)>) -> bool {
    forall|i: int, j: int|
        0 <= i <= j < results.len() ==> (#[trigger] results[i]).0 <= (#[trigger] results[j]).0
}

proof fn lemma_insert_keeps_items(
    results: Seq<(usize, TestResponse)>,
    at: int,
    item: (usize, TestResponse),
)
    requires
        0 <= at <= results.len(),
    ensures
        results.insert(at, item).to_multiset() == results.to_multiset().insert(item),
{
    broadcast use vstd::seq_lib::group_to_multiset_ensures;

    let longer = results.insert(at, item);
    assert(longer.remove(at) =~= results);
    assert(longer[at] == item);
    assert(longer.to_multiset().contains(item));
    assert(longer.to_multiset() =~= longer.to_multiset().remove(item).insert(item));
}

/// Put one more answer in its place among answers that are in order.
fn insert_in_order(results: &mut Vec<(usize, TestResponse)>, idx: usize, response: TestResponse)
    requires
        in_order(old(results)@),
    ensures
        in_order(final(results)@),
        final(results)@.to_multiset() == old(results)@.to_multiset().insert((idx, response)),
{
    let mut at: usize = results.len();
    while at > 0 && results[at - 1].0 > idx
        invariant
            at <= results@.len(),
            results@ == old(results)@,
            in_order(results@),
            forall|j: int| at <= j < results@.len() ==> (#[trigger] results@[j]).0 > idx,
        decreases at,
    {
        at -= 1;
    }
    proof {
        lemma_insert_keeps_items(results@, at as int, (idx, response));
        let longer = results@.insert(at as int, (idx, response));
        assert forall|i: int, j: int| 0 <= i <= j < longer.len() implies (#[trigger] longer[i]).0
            <= (#[trigger] longer[j]).0 by {
            let i0 = if i < at {
                i
            } else {
                i - 1
            };
            let j0 = if j < at {
                j
            } else {
                j - 1
            };
            if i != at {
                assert(longer[i] == results@[i0]);
            }
            if j != at {
                assert(longer[j] == results@[j0]);
            }
            if i < at && at > 0 {
                assert(results@[i].0 <= results@[at - 1].0);
            }
        }
    }
    results.insert(at, (idx, response));
}

/// Gather what concurrent threads ended with, in the order they were started:
/// the first that failed decides, else there is every thread's answer, in the
/// order of the daemons whatever order the threads ran in.
pub fn spawn_many_concurrent(joined: Vec<Joined>) -> (results: Result<
    Vec<(usize, TestResponse)>,
    String,
>)
    ensures
        match first_fault(joined@) {
            Some(fault) => results matches Err(text) && text@ == fault,
            None => results matches Ok(results) && in_order(results@)
                && results@.to_multiset() == joined_answers(joined@).to_multiset(),
        },
{
    broadcast use vstd::seq_lib::group_to_multiset_ensures;

    let ghost all = joined@;
    let mut results: Vec<(usize, TestResponse)> = Vec::new();
    assert(results@ =~= joined_answers(all.take(0)));
    for item in it: joined
        invariant
            it.seq() == all,
            in_order(results@),
            first_fault(all.take(it.index())) is None,
            results@.to_multiset() == joined_answers(all.take(it.index())).to_multiset(),
    {
        let ghost i = it.index();
        proof {
            assert(all.take(i + 1).drop_last() =~= all.take(i));
            assert(all.take(i + 1).last() == item);
            lemma_first_fault_stays(all, i + 1);
        }
        match item {
            Joined::Answered(idx, response) => {
                proof {
                    vstd::seq_lib::to_multiset_build(joined_answers(all.take(i)), (idx, response));
                }
                insert_in_order(&mut results, idx, response);
            },
            Joined::Failed(text) => {
                return Err(text);
            },
            Joined::Panicked => {
                return Err("a concurrent spawn thread panicked".to_string());
            },
        }
    }
    assert(all.take(all.len() as int) =~= all);
    Ok(results)
}

proof fn lemma_first_fault_stays(joined: Seq<Joined>, i: int)
    requires
        0 <= i <= joined.len(),
    ensures
        first_fault(joined.take(i)) is Some ==> first_fault(joined) == first_fault(joined.take(i)),
    decreases joined.len(),
{
    if i == joined.len() {
        assert(joined.take(i) =~= joined);
    } else {
        lemma_first_fault_stays(joined.drop_last(), i);
        assert(joined.drop_last().take(i) =~= joined.take(i));
    }
}

/// One of the two daemons that are kept alive at the same time.
#[derive(Clone, Copy, Debug, PartialEq, Eq, Structural)]
pub enum Peer {
    A,
    B,
}

/// One action of the interleaved exchange.
#[derive(Clone, Copy, Debug, PartialEq, Eq, Structural)]
pub enum PairAction {
    /// Spawn this daemon.
    Spawn(Peer),
    /// Send this daemon a number.
    Send(Peer, i32),
    /// Wait for this daemon's answer.
    Receive(Peer),
}

/// The actions of the interleaved exchange. In the first round both requests go
/// out before either answer is awaited; the second reverses the order, on the
/// same channels.
pub open spec fn interleaved_plan() -> Seq<PairAction> {
    seq![
        PairAction::Spawn(Peer::A),
        PairAction::Spawn(Peer::B),
        PairAction::Send(Peer::A, 100),
        PairAction::Send(Peer::B, 200),
        PairAction::Receive(Peer::A),
        PairAction::Receive(Peer::B),
        PairAction::Send(Peer::B, 400),
        PairAction::Send(Peer::A, 300),
        PairAction::Receive(Peer::B),
        PairAction::Receive(Peer::A),
    ]
}

/// The action at place `at` of the interleaved exchange.
pub fn interleaved_action(at: usize) -> (action: Option<PairAction>)
    ensures
        match action {
            Some(action) => at < interleaved_plan().len() && action == interleaved_plan()[at as int],
            None => at >= interleaved_plan().len(),
        },
{
    match at {
        0 => Some(PairAction::Spawn(Peer::A)),
        1 => Some(PairAction::Spawn(Peer::B)),
        2 => Some(PairAction::Send(Peer::A, 100)),
        3 => Some(PairAction::Send(Peer::B, 200)),
        4 => Some(PairAction::Receive(Peer::A)),
        5 => Some(PairAction::Receive(Peer::B)),
        6 => Some(PairAction::Send(Peer::B, 400)),
        7 => Some(PairAction::Send(Peer::A, 300)),
        8 => Some(PairAction::Receive(Peer::B)),
        9 => Some(PairAction::Receive(Peer::A)),
        _ => None,
    }
}

/// What an action is called in a report.
pub open spec fn action_tag(at: int) -> Seq<char> {
    if at == 0 {
        "spawn A"@
    } else if at == 1 {
        "spawn B"@
    } else if at == 2 {
        "A r1 send"@
    } else if at == 3 {
        "B r1 send"@
    } else if at == 4 {
        "A r1 recv"@
    } else if at == 5 {
        "B r1 recv"@
    } else if at == 6 {
        "B r2 send"@
    } else if at == 7 {
        "A r2 send"@
    } else if at == 8 {
        "B r2 recv"@
    } else {
        "A r2 recv"@
    }
}

/// What is reported where the action at place `at` failed with the error that is
/// shown as `err`.
pub fn interleaved_failure(at: usize, err: &str) -> (text: String)
    requires
        at < interleaved_plan().len(),
    ensures
        text@ == action_tag(at as int) + " failed: "@ + err@,
{
    let tag = match at {
        0 => "spawn A",
        1 => "spawn B",
        2 => "A r1 send",
        3 => "B r1 send",
        4 => "A r1 recv",
        5 => "B r1 recv",
        6 => "B r2 send",
        7 => "A r2 send",
        8 => "B r2 recv",
        _ => "A r2 recv",
    };
    let mut text = joined(tag, " failed: ");
    text.append(err);
    text
}

/// An interleaved exchange in progress.
#[derive(Debug)]
pub struct PairRun {
    /// How many actions are done.
    pub at: usize,
    /// The answers so far, in the order in which they came in.
    pub answers: Vec<TestResponse>,
}

/// How the last action of the interleaved exchange went.
#[derive(Debug)]
pub enum PairEvent {
    /// How the spawn went.
    Spawned(Result<(), SpawnDaemonError>),
    /// How sending the request went.
    Sent(Result<(), ChannelSendError>),
    /// The payload of the answer, or why there is none.
    Received(Result<Vec<u8>, ChannelRecvError>),
}

/// What the interleaved exchange does next.
#[derive(Debug)]
pub enum PairStep {
    /// Spawn this daemon.
    Spawn { run: PairRun, peer: Peer },
    /// Send this daemon the request with this encoding.
    Send { run: PairRun, peer: Peer, encoded: Result<Vec<u8>, CodecError> },
    /// Wait for this daemon's answer.
    Receive { run: PairRun, peer: Peer },
    /// Close both channels, count the zombie children, and write the record of
    /// these answers: the first and second of the one daemon, then of the
    /// other.
    Record { a1: TestResponse, a2: TestResponse, b1: TestResponse, b2: TestResponse },
    /// What went wrong.
    Failed(String),
}

/// How many answers are there before place `at`.
pub open spec fn answers_before(at: int) -> int {
    if at <= 4 {
        0
    } else if at == 5 {
        1
    } else if at <= 8 {
        2
    } else if at == 9 {
        3
    } else {
        4
    }
}

impl PairRun {
    /// The answers are those that the actions so far have asked for.
    pub open spec fn valid(&self) -> bool {
        self.at < interleaved_plan().len() && self.answers@.len() == answers_before(self.at as int)
    }

    /// Whether `event` answers the action at this place.
    pub open spec fn admits(&self, event: PairEvent) -> bool {
        match interleaved_plan()[self.at as int] {
            PairAction::Spawn(_) => event is Spawned,
            PairAction::Send(_, _) => event is Sent,
            PairAction::Receive(_) => event is Received,
        }
    }
}

/// Whether `step` carries out the action at place `at` of the plan, with these
/// answers so far; at the end of the plan, whether it records them: what came
/// first from each daemon before what came second.
pub open spec fn is_pair_action(at: int, answers: Seq<TestResponse>, step: PairStep) -> bool {
    if at >= interleaved_plan().len() {
        step == (PairStep::Record {
            a1: answers[0],
            a2: answers[3],
            b1: answers[1],
            b2: answers[2],
        })
    } else {
        match interleaved_plan()[at] {
            PairAction::Spawn(peer) => step matches PairStep::Spawn { run, peer: p } && p == peer
                && run.at == at && run.answers@ == answers,
            PairAction::Send(peer, v) => step matches PairStep::Send { run, peer: p, encoded } && p
                == peer && run.at == at && run.answers@ == answers && (encoded matches Ok(bytes)
                && bytes@ == encoded_number(v) && number_in(bytes@) == Some(v)),
            PairAction::Receive(peer) => step matches PairStep::Receive { run, peer: p } && p
                == peer && run.at == at && run.answers@ == answers,
        }
    }
}

/// Whether `step` is what the interleaved exchange does after `event`.
pub open spec fn is_pair_step(run: PairRun, event: PairEvent, step: PairStep) -> bool {
    match event {
        PairEvent::Spawned(Ok(_)) => is_pair_action(run.at + 1, run.answers@, step),
        PairEvent::Spawned(Err(err)) => step matches PairStep::Failed(text) && text@ == action_tag(
            run.at as int,
        ) + " failed: "@ + err.text(),
        PairEvent::Sent(Ok(_)) => is_pair_action(run.at + 1, run.answers@, step),
        PairEvent::Sent(Err(err)) => step matches PairStep::Failed(text) && text@ == action_tag(
            run.at as int,
        ) + " failed: "@ + err.text(),
        PairEvent::Received(received) => exists|response: Result<TestResponse, ChannelRecvError>|
            #[trigger] is_received_response(received, response) && match response {
                Ok(response) => is_pair_action(run.at + 1, run.answers@.push(response), step),
                Err(err) => step matches PairStep::Failed(text) && text@ == action_tag(
                    run.at as int,
                ) + " failed: "@ + err.text(),
            },
    }
}

/// The step that carries out the action at place `at`.
fn pair_action(at: usize, answers: Vec<TestResponse>) -> (step: PairStep)
    requires
        at <= interleaved_plan().len(),
        answers@.len() == answers_before(at as int),
    ensures
        is_pair_action(at as int, answers@, step),
        match step {
            PairStep::Spawn { run, peer } => run.valid(),
            PairStep::Send { run, peer, encoded } => run.valid(),
            PairStep::Receive { run, peer } => run.valid(),
            _ => true,
        },
{
    match interleaved_action(at) {
        Some(PairAction::Spawn(peer)) => PairStep::Spawn { run: PairRun { at, answers }, peer },
        Some(PairAction::Send(peer, v)) => PairStep::Send {
            run: PairRun { at, answers },
            peer,
            encoded: TestRequest { v }.encode(),
        },
        Some(PairAction::Receive(peer)) => PairStep::Receive { run: PairRun { at, answers }, peer },
        None => {
            let mut answers = answers;
            let a2 = answers.remove(3);
            let b2 = answers.remove(2);
            let b1 = answers.remove(1);
            let a1 = answers.remove(0);
            PairStep::Record { a1, a2, b1, b2 }
        },
    }
}

/// Begin the interleaved exchange.
pub fn run_spawn_interleaved() -> (step: PairStep)
    ensures
        is_pair_action(0, Seq::empty(), step),
        step matches PairStep::Spawn { run, peer } && run.valid(),
{
    let answers: Vec<TestResponse> = Vec::new();
    assert(answers@ =~= Seq::empty());
    pair_action(0, answers)
}

impl PairRun {
    /// Go on with the interleaved exchange.
    pub fn next(self, event: PairEvent) -> (step: PairStep)
        requires
            self.valid(),
            self.admits(event),
        ensures
            is_pair_step(self, event, step),
            match step {
                PairStep::Spawn { run, peer } => run.valid(),
                PairStep::Send { run, peer, encoded } => run.valid(),
                PairStep::Receive { run, peer } => run.valid(),
                _ => true,
            },
    {
        let at: usize = self.at;
        match event {
            PairEvent::Spawned(Ok(())) => pair_action(at + 1, self.answers),
            PairEvent::Spawned(Err(err)) => PairStep::Failed(
                interleaved_failure(at, err.message().as_str()),
            ),
            PairEvent::Sent(Ok(())) => pair_action(at + 1, self.answers),
            PairEvent::Sent(Err(err)) => PairStep::Failed(
                interleaved_failure(at, err.message().as_str()),
            ),
            PairEvent::Received(received) => {
                let response = received_response(received);
                assert(is_received_response(received, response));
                match response {
                    Ok(response) => {
                        let mut answers = self.answers;
                        answers.push(response);
                        pair_action(at + 1, answers)
                    },
                    Err(err) => PairStep::Failed(interleaved_failure(at, err.message().as_str())),
                }
            },
        }
    }
}

/// Each daemon's number is a hundred times its place, counted from one, as long
/// as that is a number at all; beyond that there is none.
pub proof fn law_number_is_a_hundred_times_the_place(
    idx: usize,
    checked: Result<i32, String>,
    next: Result<i32, String>,
)
    requires
        idx < i32::MAX,
        call_ensures(checked_request_value, (idx,), checked),
        call_ensures(checked_request_value, ((idx + 1) as usize,), next),
    ensures
        idx < 21_474_836 ==> (checked matches Ok(v) && v == 100 * (idx + 1)),
        idx >= 21_474_836 ==> checked is Err,
        checked matches Ok(v) ==> (next matches Ok(w) ==> w == v + 100),
{
}

/// Places that differ by a multiple of what 32 bits can count have the same
/// number: the count wraps, and does not stop.
pub proof fn law_number_follows_the_low_bits(
    i: usize,
    j: usize,
    of_i: Result<i32, String>,
    of_j: Result<i32, String>,
)
    requires
        i as u32 == j as u32,
        call_ensures(checked_request_value, (i,), of_i),
        call_ensures(checked_request_value, (j,), of_j),
    ensures
        of_i is Ok <==> of_j is Ok,
        of_i matches Ok(v) ==> of_j == Ok::<i32, String>(v),
        of_i matches Err(a) ==> (of_j matches Err(b) && a@ == b@),
{
    assert(i as u32 == j as u32 ==> i as i32 == j as i32) by (bit_vector);
}

/// The exchange with one daemon gets through where nothing goes wrong: it spawns,
/// sends a number, waits for the answer, counts the zombies, and records exactly
/// that answer and that count. It ends in success with the record written, and
/// in no other way.
pub proof fn law_exchange_gets_through(
    begun: ParentStep,
    spawned: ParentStep,
    sent: ParentStep,
    answer: Vec<u8>,
    received: ParentStep,
    response: TestResponse,
    zombies: usize,
    counted: ParentStep,
    written: ParentStep,
)
    requires
        call_ensures(run_parent, (ParentEvent::Started,), begun),
        call_ensures(
            run_parent,
            (ParentEvent::Spawned(Ok::<(), SpawnDaemonError>(())),),
            spawned,
        ),
        call_ensures(run_parent, (ParentEvent::Sent(Ok::<(), ChannelSendError>(())),), sent),
        response_in(answer@) is Some,
        call_ensures(
            run_parent,
            (ParentEvent::Received(Ok::<Vec<u8>, ChannelRecvError>(answer)),),
            received,
        ),
        call_ensures(run_parent, (ParentEvent::Counted { response, zombies },), counted),
        call_ensures(run_parent, (ParentEvent::Written(Ok::<(), IoError>(())),), written),
    ensures
        begun is Spawn,
        spawned matches ParentStep::Send(Ok(bytes)) && number_in(bytes@) == Some(42i32),
        sent is Receive,
        received matches ParentStep::CountZombies(r) && response_in(answer@) == Some(r@),
        counted matches ParentStep::Write(text) && text@ == parent_record(response@, zombies as nat),
        written == ParentStep::Done(Ok::<(), String>(())),
{
}

/// The exchange with one daemon fails where its last step failed and nowhere
/// else, and says with which error.
pub proof fn law_exchange_fails_only_on_a_failure(event: ParentEvent, step: ParentStep)
    requires
        call_ensures(run_parent, (event,), step),
    ensures
        step matches ParentStep::Done(Err(_)) ==> {
            ||| event matches ParentEvent::Spawned(Err(_))
            ||| event matches ParentEvent::Sent(Err(_))
            ||| event matches ParentEvent::Received(Err(_))
            ||| event matches ParentEvent::Received(Ok(bytes)) && response_in(bytes@) is None
            ||| event matches ParentEvent::Written(Err(_))
        },
        event matches ParentEvent::Spawned(Err(err)) ==> (step matches ParentStep::Done(Err(text))
            && ends_with(text@, err.text())),
        event matches ParentEvent::Sent(Err(err)) ==> (step matches ParentStep::Done(Err(text))
            && ends_with(text@, err.text())),
        event matches ParentEvent::Received(Err(err)) ==> (step matches ParentStep::Done(Err(text))
            && ends_with(text@, err.text())),
        event matches ParentEvent::Received(Ok(bytes)) ==> response_in(bytes@) is None ==> (step matches
            ParentStep::Done(Err(text))),
        event matches ParentEvent::Written(Err(err)) ==> (step matches ParentStep::Done(Err(text))
            && ends_with(text@, err.message@)),
{
    match event {
        ParentEvent::Spawned(Err(err)) => {
            lemma_ends_of_a_sum("spawn_daemon failed: "@, err.text());
        },
        ParentEvent::Sent(Err(err)) => {
            lemma_ends_of_a_sum("send_request failed: "@, err.text());
        },
        ParentEvent::Received(Err(err)) => {
            lemma_ends_of_a_sum("recv_response failed: "@, err.text());
        },
        ParentEvent::Written(Err(err)) => {
            lemma_ends_of_a_sum("failed to write outfile: "@, err.message@);
        },
        _ => {},
    }
}

/// A round trip sends the number that it was given and returns the answer that
/// came; it fails where its last step failed and nowhere else, and says with
/// which error.
pub proof fn law_roundtrip_returns_the_answer(
    value: i32,
    begun: RoundtripStep,
    sent: Result<(), ChannelSendError>,
    after_send: RoundtripStep,
    received: Result<Vec<u8>, ChannelRecvError>,
    done: RoundtripStep,
)
    requires
        call_ensures(roundtrip, (value, RoundtripEvent::Started), begun),
        call_ensures(roundtrip, (value, RoundtripEvent::Sent(sent)), after_send),
        call_ensures(roundtrip, (value, RoundtripEvent::Received(received)), done),
    ensures
        begun matches RoundtripStep::Send(Ok(bytes)) && number_in(bytes@) == Some(value),
        sent is Ok ==> after_send is Receive,
        sent matches Err(err) ==> (after_send matches RoundtripStep::Done(Err(text)) && ends_with(
            text@,
            err.text(),
        )),
        received matches Ok(bytes) ==> (response_in(bytes@) matches Some(r) ==> (done matches
            RoundtripStep::Done(Ok(response)) && response@ == r)),
        received matches Ok(bytes) ==> response_in(bytes@) is None ==> (done matches
            RoundtripStep::Done(Err(text))),
        received matches Err(err) ==> (done matches RoundtripStep::Done(Err(text)) && ends_with(
            text@,
            err.text(),
        )),
{
    if let Err(err) = sent {
        lemma_ends_of_a_sum("send_request failed: "@, err.text());
    }
    if let Err(err) = received {
        lemma_ends_of_a_sum("recv_response failed: "@, err.text());
    }
}

/// The exchange with many daemons goes on where nothing goes wrong: all of them
/// are spawned before any is sent anything, each in its turn is sent its own
/// number, its answer is kept under its own place, and after the last answer
/// there is one of each, in their order, with none lost.
pub proof fn law_many_exchange_goes_on(run: ManyRun, event: ManyEvent, step: ManyStep)
    requires
        run.valid(),
        run.admits(event),
        run.count <= 21_474_836,
        call_ensures(ManyRun::next, (run, event), step),
    ensures
        event matches ManyEvent::Spawned(Ok(_)) ==> match run.phase {
            ManyPhase::Spawning(idx) => if idx + 1 < run.count {
                step matches ManyStep::Spawn { run: next, idx: i } && i == idx + 1 && next.count
                    == run.count
            } else {
                step matches ManyStep::Send { run: next, idx: i, encoded } && i == 0 && (
                encoded matches Ok(bytes) && number_in(bytes@) == Some(100i32))
            },
            _ => true,
        },
        event matches ManyEvent::Sent(Ok(_)) ==> match run.phase {
            ManyPhase::Sending(idx) => step matches ManyStep::Receive { run: next, idx: i } && i == idx
                && next.results@ == run.results@ && next.count == run.count,
            _ => true,
        },
        event matches ManyEvent::Received(Ok(bytes)) ==> (response_in(bytes@) matches Some(r)
            ==> match run.phase {
            ManyPhase::Receiving(idx) => if idx + 1 < run.count {
                step matches ManyStep::Send { run: next, idx: i, encoded } && i == idx + 1
                    && next.count == run.count && next.results@.len() == idx + 1
                    && next.results@.drop_last() == run.results@ && next.results@.last().0 == idx
                    && next.results@.last().1@ == r && (encoded matches Ok(sent) && number_in(sent@)
                    == Some((100 * (idx + 2)) as i32))
            } else {
                step matches ManyStep::Done(Ok(results)) && results@.len() == run.count
                    && results@.drop_last() == run.results@ && results@.last().0 == idx
                    && results@.last().1@ == r
            },
            _ => true,
        }),
{
    if let ManyEvent::Received(Ok(bytes)) = event {
        if response_in(bytes@) is Some {
            if let ManyPhase::Receiving(idx) = run.phase {
                let response = choose|response: Result<TestResponse, ChannelRecvError>| #[trigger]
                    is_received_response(
                        Ok::<Vec<u8>, ChannelRecvError>(bytes),
                        response,
                    ) && match response {
                        Ok(response) => if idx + 1 < run.count {
                            sends_to(
                                step,
                                run.count,
                                (idx + 1) as usize,
                                run.results@.push((idx, response)),
                            )
                        } else {
                            step matches ManyStep::Done(Ok(results)) && results@
                                == run.results@.push((idx, response))
                        },
                        Err(err) => step matches ManyStep::Done(Err(text)) && text@
                            == "recv_response failed: "@ + err.text(),
                    };
                let longer = run.results@.push((idx, response->Ok_0));
                assert(longer.drop_last() =~= run.results@);
            }
        }
    }
}

/// The exchange with many daemons fails where its last step failed, and says with
/// which error; a failed spawn is reported with the daemon's place. It begins
/// with the first daemon, and with none it is over at once.
pub proof fn law_many_exchange_fails_only_on_a_failure(
    run: ManyRun,
    event: ManyEvent,
    step: ManyStep,
    count: usize,
    begun: ManyStep,
)
    requires
        run.valid(),
        run.admits(event),
        call_ensures(ManyRun::next, (run, event), step),
        call_ensures(spawn_many_sequential, (count,), begun),
    ensures
        step matches ManyStep::Done(Err(_)) ==> {
            ||| event matches ManyEvent::Spawned(Err(_))
            ||| event matches ManyEvent::Sent(Err(_))
            ||| event matches ManyEvent::Received(Err(_))
            ||| event matches ManyEvent::Received(Ok(bytes)) && response_in(bytes@) is None
        },
        event matches ManyEvent::Spawned(Err(err)) ==> (run.phase matches ManyPhase::Spawning(idx)
            && step matches ManyStep::Done(Err(text)) && ends_with(
            text@,
            decimal(idx as nat) + (" failed: "@ + err.text()),
        )),
        event matches ManyEvent::Sent(Err(err)) ==> (step matches ManyStep::Done(Err(text)) && ends_with(
            text@,
            err.text(),
        )),
        event matches ManyEvent::Received(Err(err)) ==> (step matches ManyStep::Done(Err(text))
            && ends_with(text@, err.text())),
        count > 0 ==> (begun matches ManyStep::Spawn { run: r, idx } && idx == 0 && r.count == count
            && r.results@.len() == 0),
        count == 0 ==> (begun matches ManyStep::Done(Ok(results)) && results@.len() == 0),
{
    match event {
        ManyEvent::Spawned(Err(err)) => {
            if let ManyPhase::Spawning(idx) = run.phase {
                let tail = decimal(idx as nat) + (" failed: "@ + err.text());
                assert("spawn_daemon #"@ + decimal(idx as nat) + " failed: "@ + err.text()
                    =~= "spawn_daemon #"@ + tail);
                lemma_ends_of_a_sum("spawn_daemon #"@, tail);
            }
        },
        ManyEvent::Sent(Err(err)) => {
            lemma_ends_of_a_sum("send_request failed: "@, err.text());
        },
        ManyEvent::Received(Err(err)) => {
            lemma_ends_of_a_sum("recv_response failed: "@, err.text());
        },
        _ => {},
    }
}

proof fn lemma_first_fault(joined: Seq<Joined>) -> (i: int)
    ensures
        0 <= i <= joined.len(),
        forall|j: int| 0 <= j < i ==> (#[trigger] joined[j]) is Answered,
        first_fault(joined) is Some <==> i < joined.len(),
        i < joined.len() ==> !(joined[i] is Answered) && first_fault(joined) == joined_fault(joined[i]),
    decreases joined.len(),
{
    if joined.len() == 0 {
        0
    } else {
        let earlier = joined.drop_last();
        let i = lemma_first_fault(earlier);
        assert(forall|j: int| 0 <= j < earlier.len() ==> earlier[j] == joined[j]);
        assert(joined.last() == joined[joined.len() - 1]);
        if i < earlier.len() {
            i
        } else if joined.last() is Answered {
            joined.len() as int
        } else {
            joined.len() - 1
        }
    }
}

proof fn lemma_joined_answers(joined: Seq<Joined>, i: int)
    requires
        forall|j: int| 0 <= j < joined.len() ==> (#[trigger] joined[j]) is Answered,
        0 <= i < joined.len(),
    ensures
        joined_answers(joined).len() == joined.len(),
        joined[i] matches Joined::Answered(idx, response) && joined_answers(joined)[i] == (
            idx,
            response,
        ),
    decreases joined.len(),
{
    let earlier = joined.drop_last();
    assert(forall|j: int| 0 <= j < earlier.len() ==> earlier[j] == joined[j]);
    assert(joined.last() == joined[joined.len() - 1]);
    assert(joined.last() is Answered);
    if earlier.len() > 0 {
        lemma_joined_answers(earlier, if i < earlier.len() { i } else { 0 });
    } else {
        assert(joined_answers(earlier).len() == 0);
    }
}

/// Daemons that are spawned all at once are gathered as those one after the
/// other: where every thread has an answer there are as many answers, each of
/// them is there, and they are in the order of their daemons. Where one has none,
/// the first such thread decides, with its own words.
pub proof fn law_gathering_loses_no_answer(
    joined: Vec<Joined>,
    results: Result<Vec<(usize, TestResponse)>, String>,
    i: int,
)
    requires
        call_ensures(spawn_many_concurrent, (joined,), results),
        0 <= i < joined@.len(),
    ensures
        results is Ok <==> forall|j: int|
            0 <= j < joined@.len() ==> (#[trigger] joined@[j]) is Answered,
        results matches Ok(answers) ==> answers@.len() == joined@.len() && (joined@[i] matches
            Joined::Answered(idx, response) && answers@.contains((idx, response))) && forall|
            a: int,
            b: int,
        |
            0 <= a <= b < answers@.len() ==> (#[trigger] answers@[a]).0 <= (#[trigger] answers@[b]).0,
        (forall|j: int| 0 <= j < i ==> (#[trigger] joined@[j]) is Answered) ==> (joined@[i] matches
            Joined::Failed(text) ==> (results matches Err(reported) && reported@ == text@)),
        (forall|j: int| 0 <= j < i ==> (#[trigger] joined@[j]) is Answered) ==> joined@[i] is Panicked
            ==> (results matches Err(reported) && reported@ == "a concurrent spawn thread panicked"@),
{
    broadcast use vstd::seq_lib::group_to_multiset_ensures;

    let first = lemma_first_fault(joined@);
    if first_fault(joined@) is None {
        assert(first == joined@.len());
        lemma_joined_answers(joined@, i);
        let answers = results->Ok_0@;
        let expected = joined_answers(joined@);
        assert(answers.len() == answers.to_multiset().len());
        assert(expected.len() == expected.to_multiset().len());
        assert(expected.contains(expected[i]));
        assert(expected.to_multiset().contains(expected[i]));
        assert(answers.to_multiset().contains(expected[i]));
    } else {
        assert(!(joined@[first] is Answered));
    }
}

/// A failed spawn in a thread is reported with the daemon's place and the error.
pub proof fn law_concurrent_failure_names_its_daemon(
    idx: usize,
    err: &SpawnDaemonError,
    text: String,
)
    requires
        call_ensures(concurrent_spawn_failure, (idx, err), text),
    ensures
        ends_with(text@, decimal(idx as nat) + (" failed: "@ + err.text())),
{
    let tail = decimal(idx as nat) + (" failed: "@ + err.text());
    assert(text@ =~= "concurrent spawn_daemon #"@ + tail);
    lemma_ends_of_a_sum("concurrent spawn_daemon #"@, tail);
}

/// How many of the first `n` actions of the interleaved exchange send to `peer`.
pub open spec fn sends_before(peer: Peer, n: int) -> int
    decreases n,
{
    if n <= 0 || n > interleaved_plan().len() {
        0
    } else {
        sends_before(peer, n - 1) + match interleaved_plan()[n - 1] {
            PairAction::Send(p, _) => if p == peer {
                1int
            } else {
                0int
            },
            _ => 0int,
        }
    }
}

/// How many of the first `n` actions of the interleaved exchange receive from
/// `peer`.
pub open spec fn receives_before(peer: Peer, n: int) -> int
    decreases n,
{
    if n <= 0 || n > interleaved_plan().len() {
        0
    } else {
        receives_before(peer, n - 1) + if interleaved_plan()[n - 1] == PairAction::Receive(peer) {
            1int
        } else {
            0int
        }
    }
}

/// The interleaved exchange is one: both daemons are spawned before anything is
/// sent, nothing is awaited that was not asked for, each daemon is asked twice and
/// answers twice, both requests of a round are out before either is answered, and
/// no number is sent twice.
pub proof fn law_plan_is_interleaved(i: int, j: int, peer: Peer)
    requires
        0 <= i < interleaved_plan().len(),
        0 <= j < interleaved_plan().len(),
    ensures
        interleaved_plan()[i] is Spawn <==> i < 2,
        interleaved_plan()[0] != interleaved_plan()[1],
        receives_before(peer, i) <= sends_before(peer, i),
        interleaved_plan()[i] == PairAction::Receive(peer) ==> receives_before(peer, i)
            < sends_before(peer, i),
        interleaved_plan()[i] == PairAction::Receive(peer) ==> sends_before(Peer::A, i)
            == sends_before(Peer::B, i),
        sends_before(peer, 10) == 2,
        receives_before(peer, 10) == 2,
        interleaved_plan().len() == 10,
        interleaved_plan()[i] matches PairAction::Send(_, v) ==> (interleaved_plan()[j] matches
            PairAction::Send(_, w) ==> v == w ==> i == j),
        interleaved_plan()[i] matches PairAction::Send(p, v) ==> v == 200 * sends_before(p, i) + (if p
            == Peer::A {
            100int
        } else {
            200int
        }),
        answers_before(i) == receives_before(Peer::A, i) + receives_before(Peer::B, i),
{
    reveal_with_fuel(sends_before, 11);
    reveal_with_fuel(receives_before, 11);
}

/// The answers among the first `n` actions of the interleaved exchange that came
/// from `peer`, in their order, where `answers` are all of them in theirs.
pub open spec fn answers_from(peer: Peer, answers: Seq<TestResponse>, n: int) -> Seq<TestResponse>
    decreases n,
{
    if n <= 0 || n > interleaved_plan().len() {
        Seq::empty()
    } else {
        let before = answers_from(peer, answers, n - 1);
        if interleaved_plan()[n - 1] == PairAction::Receive(peer) {
            before.push(answers[receives_before(Peer::A, n - 1) + receives_before(Peer::B, n - 1)])
        } else {
            before
        }
    }
}

/// No answer is recorded under the wrong daemon or in the wrong round: what is
/// recorded of each is what was received from it, in the order in which it came.
pub proof fn law_answers_are_recorded_under_their_daemon(
    run: PairRun,
    bytes: Vec<u8>,
    r: ResponseView,
    step: PairStep,
)
    requires
        run.valid(),
        run.at == 9,
        response_in(bytes@) == Some(r),
        call_ensures(
            PairRun::next,
            (run, PairEvent::Received(Ok::<Vec<u8>, ChannelRecvError>(bytes))),
            step,
        ),
    ensures
        step matches PairStep::Record { a1, a2, b1, b2 } && a2@ == r && ({
            let all = run.answers@.push(a2);
            &&& answers_from(Peer::A, all, 10) == seq![a1, a2]
            &&& answers_from(Peer::B, all, 10) == seq![b1, b2]
        }),
{
    reveal_with_fuel(receives_before, 11);
    reveal_with_fuel(answers_from, 11);
    let response = choose|response: Result<TestResponse, ChannelRecvError>| #[trigger]
        is_received_response(Ok::<Vec<u8>, ChannelRecvError>(bytes), response) && match response {
            Ok(response) => is_pair_action(run.at + 1, run.answers@.push(response), step),
            Err(err) => step matches PairStep::Failed(text) && text@ == action_tag(run.at as int)
                + " failed: "@ + err.text(),
        };
    let all = run.answers@.push(response->Ok_0);
    assert(all[3] == response->Ok_0);
    assert(answers_from(Peer::A, all, 10) =~= seq![all[0], all[3]]);
    assert(answers_from(Peer::B, all, 10) =~= seq![all[1], all[2]]);
}

/// The interleaved exchange goes on from each action to the next where nothing
/// goes wrong, and keeps every answer; where the last action failed it is over,
/// and says with which error.
pub proof fn law_interleaved_exchange_goes_on(
    run: PairRun,
    event: PairEvent,
    step: PairStep,
    begun: PairStep,
)
    requires
        run.valid(),
        run.admits(event),
        call_ensures(PairRun::next, (run, event), step),
        call_ensures(run_spawn_interleaved, (), begun),
    ensures
        begun matches PairStep::Spawn { run: r, peer } && r.at == 0 && peer == Peer::A
            && r.answers@.len() == 0,
        event matches PairEvent::Spawned(Err(err)) ==> (step matches PairStep::Failed(text)
            && ends_with(text@, " failed: "@ + err.text())),
        event matches PairEvent::Sent(Err(err)) ==> (step matches PairStep::Failed(text) && ends_with(
            text@,
            " failed: "@ + err.text(),
        )),
        event matches PairEvent::Received(Err(err)) ==> (step matches PairStep::Failed(text)
            && ends_with(text@, " failed: "@ + err.text())),
        (event matches PairEvent::Spawned(Ok(_)) || event matches PairEvent::Sent(Ok(_))) ==> match step {
            PairStep::Spawn { run: next, peer } => next.at == run.at + 1 && next.answers@
                == run.answers@ && interleaved_plan()[next.at as int] == PairAction::Spawn(peer),
            PairStep::Send { run: next, peer, encoded } => next.at == run.at + 1 && next.answers@
                == run.answers@ && encoded is Ok && number_in(encoded->Ok_0@) is Some
                && interleaved_plan()[next.at as int] == PairAction::Send(
                peer,
                number_in(encoded->Ok_0@)->Some_0,
            ),
            PairStep::Receive { run: next, peer } => next.at == run.at + 1 && next.answers@
                == run.answers@ && interleaved_plan()[next.at as int] == PairAction::Receive(peer),
            _ => false,
        },
        event matches PairEvent::Received(Ok(bytes)) ==> (response_in(bytes@) matches Some(r)
            ==> match step {
            PairStep::Spawn { run: next, peer } => false,
            PairStep::Send { run: next, peer, encoded } => next.at == run.at + 1 && next.answers@.len()
                == run.answers@.len() + 1 && next.answers@.drop_last() == run.answers@
                && next.answers@.last()@ == r,
            PairStep::Receive { run: next, peer } => next.at == run.at + 1 && next.answers@.len()
                == run.answers@.len() + 1 && next.answers@.drop_last() == run.answers@
                && next.answers@.last()@ == r,
            PairStep::Record { a1, a2, b1, b2 } => run.at == 9 && a2@ == r,
            PairStep::Failed(_) => false,
        }),
{
    match event {
        PairEvent::Spawned(Err(err)) => {
            assert(action_tag(run.at as int) + " failed: "@ + err.text() =~= action_tag(
                run.at as int,
            ) + (" failed: "@ + err.text()));
            lemma_ends_of_a_sum(action_tag(run.at as int), " failed: "@ + err.text());
        },
        PairEvent::Sent(Err(err)) => {
            assert(action_tag(run.at as int) + " failed: "@ + err.text() =~= action_tag(
                run.at as int,
            ) + (" failed: "@ + err.text()));
            lemma_ends_of_a_sum(action_tag(run.at as int), " failed: "@ + err.text());
        },
        PairEvent::Received(Err(err)) => {
            assert(action_tag(run.at as int) + " failed: "@ + err.text() =~= action_tag(
                run.at as int,
            ) + (" failed: "@ + err.text()));
            lemma_ends_of_a_sum(action_tag(run.at as int), " failed: "@ + err.text());
        },
        PairEvent::Received(Ok(bytes)) => {
            if response_in(bytes@) is Some {
                let response = choose|response: Result<TestResponse, ChannelRecvError>| #[trigger]
                    is_received_response(
                        Ok::<Vec<u8>, ChannelRecvError>(bytes),
                        response,
                    ) && match response {
                        Ok(response) => is_pair_action(
                            run.at + 1,
                            run.answers@.push(response),
                            step,
                        ),
                        Err(err) => step matches PairStep::Failed(text) && text@ == action_tag(
                            run.at as int,
                        ) + " failed: "@ + err.text(),
                    };
                let longer = run.answers@.push(response->Ok_0);
                assert(longer.drop_last() =~= run.answers@);
            }
        },
        _ => {},
    }
}

/// A failed action is reported under the name of its daemon: each of the names is
/// used once.
pub proof fn law_failed_action_is_named(at: usize, other: usize, err: &str, text: String)
    requires
        at < interleaved_plan().len(),
        other < interleaved_plan().len(),
        call_ensures(interleaved_failure, (at, err), text),
    ensures
        ends_with(text@, " failed: "@ + err@),
        begins_with(text@, action_tag(at as int)),
        action_tag(at as int) == action_tag(other as int) ==> at == other,
        interleaved_plan()[at as int] matches PairAction::Send(Peer::A, _) ==> action_tag(at as int)[0]
            == 'A',
        interleaved_plan()[at as int] matches PairAction::Send(Peer::B, _) ==> action_tag(at as int)[0]
            == 'B',
        interleaved_plan()[at as int] == PairAction::Receive(Peer::A) ==> action_tag(at as int)[0]
            == 'A',
        interleaved_plan()[at as int] == PairAction::Receive(Peer::B) ==> action_tag(at as int)[0]
            == 'B',
{
    assert(text@ =~= action_tag(at as int) + (" failed: "@ + err@));
    lemma_ends_of_a_sum(action_tag(at as int), " failed: "@ + err@);
    reveal_strlit("spawn A");
    reveal_strlit("spawn B");
    reveal_strlit("A r1 send");
    reveal_strlit("B r1 send");
    reveal_strlit("A r1 recv");
    reveal_strlit("B r1 recv");
    reveal_strlit("B r2 send");
    reveal_strlit("A r2 send");
    reveal_strlit("B r2 recv");
    reveal_strlit("A r2 recv");
    let a = action_tag(at as int);
    let b = action_tag(other as int);
    if a == b {
        assert(a[0] == b[0]);
        assert(a[3] == b[3]);
        assert(a[5] == b[5]);
        assert(a[6] == b[6]);
    }
}

/// The exchanges know what to do after every event that answers their last step,
/// for any number of daemons.
pub proof fn law_exchanges_answer_every_event(
    parent: ParentEvent,
    value: i32,
    trip: RoundtripEvent,
    many: ManyRun,
    many_event: ManyEvent,
    pair: PairRun,
    pair_event: PairEvent,
    joined: Vec<Joined>,
    count: usize,
)
    ensures
        call_requires(run_parent, (parent,)),
        call_requires(roundtrip, (value, trip)),
        call_requires(spawn_many_sequential, (count,)),
        call_requires(checked_request_value, (count,)),
        count < 21_474_836 ==> call_requires(request_value, (count,)),
        call_requires(spawn_many_concurrent, (joined,)),
        many.valid() && many.admits(many_event) ==> call_requires(ManyRun::next, (many, many_event)),
        pair.valid() && pair.admits(pair_event) ==> call_requires(PairRun::next, (pair, pair_event)),
{
}

/// Whether `event` is an answer to `step`, whatever it says.
pub open spec fn answers_many(step: ManyStep, run: ManyRun, event: ManyEvent) -> bool {
    match step {
        ManyStep::Spawn { run: r, idx } => r == run && event is Spawned,
        ManyStep::Send { run: r, idx, encoded } => r == run && event is Sent,
        ManyStep::Receive { run: r, idx } => r == run && event is Received,
        _ => false,
    }
}

/// The exchange with many daemons takes every answer to its steps, for any number
/// of daemons, from the first to the last.
pub proof fn law_many_exchange_takes_every_answer(
    count: usize,
    first: ManyStep,
    run: ManyRun,
    event: ManyEvent,
    next: ManyStep,
    next_run: ManyRun,
    next_event: ManyEvent,
)
    requires
        call_ensures(spawn_many_sequential, (count,), first),
    ensures
        answers_many(first, run, event) ==> call_requires(ManyRun::next, (run, event)),
        run.valid() && run.admits(event) && call_ensures(ManyRun::next, (run, event), next)
            && answers_many(next, next_run, next_event) ==> call_requires(
            ManyRun::next,
            (next_run, next_event),
        ),
{
    if run.valid() && run.admits(event) && call_ensures(ManyRun::next, (run, event), next) {
        if let ManyPhase::Receiving(idx) = run.phase {
            let received = event->Received_0;
            let response = choose|response: Result<TestResponse, ChannelRecvError>| #[trigger]
                is_received_response(received, response) && match response {
                    Ok(response) => if idx + 1 < run.count {
                        sends_to(
                            next,
                            run.count,
                            (idx + 1) as usize,
                            run.results@.push((idx, response)),
                        )
                    } else {
                        next matches ManyStep::Done(Ok(results)) && results@ == run.results@.push(
                            (idx, response),
                        )
                    },
                    Err(err) => next matches ManyStep::Done(Err(text)) && text@
                        == "recv_response failed: "@ + err.text(),
                };
            assert(is_received_response(received, response));
        }
    }
}

/// Whether `event` is an answer to `step`, whatever it says.
pub open spec fn answers_pair(step: PairStep, run: PairRun, event: PairEvent) -> bool {
    match step {
        PairStep::Spawn { run: r, peer } => r == run && event is Spawned,
        PairStep::Send { run: r, peer, encoded } => r == run && event is Sent,
        PairStep::Receive { run: r, peer } => r == run && event is Received,
        _ => false,
    }
}

/// The interleaved exchange takes every answer to its steps, from the first to
/// the last.
pub proof fn law_interleaved_exchange_takes_every_answer(
    first: PairStep,
    run: PairRun,
    event: PairEvent,
    next: PairStep,
    next_run: PairRun,
    next_event: PairEvent,
)
    requires
        call_ensures(run_spawn_interleaved, (), first),
    ensures
        answers_pair(first, run, event) ==> call_requires(PairRun::next, (run, event)),
        run.valid() && run.admits(event) && call_ensures(PairRun::next, (run, event), next)
            && answers_pair(next, next_run, next_event) ==> call_requires(
            PairRun::next,
            (next_run, next_event),
        ),
{
}

/// What is reported of a failure is worded the same for every error: what stands
/// before the error's own text does not depend on it.
pub proof fn law_wording_of_the_exchanges_is_fixed(
    err: &IoError,
    other: &IoError,
    text: String,
    other_text: String,
    idx: usize,
    spawn: &SpawnDaemonError,
    other_spawn: &SpawnDaemonError,
    spawn_text: String,
    other_spawn_text: String,
    at: usize,
    shown: &str,
    failure: String,
)
    requires
        call_ensures(outfile_failure, (err,), text),
        call_ensures(outfile_failure, (other,), other_text),
        call_ensures(concurrent_spawn_failure, (idx, spawn), spawn_text),
        call_ensures(concurrent_spawn_failure, (idx, other_spawn), other_spawn_text),
        at < interleaved_plan().len(),
        call_ensures(interleaved_failure, (at, shown), failure),
    ensures
        lead(text@, err.message@) == lead(other_text@, other.message@),
        lead(spawn_text@, spawn.text()) == lead(other_spawn_text@, other_spawn.text()),
        lead(failure@, " failed: "@ + shown@) == action_tag(at as int),
{
    lemma_ends_of_a_sum("failed to write outfile: "@, err.message@);
    lemma_ends_of_a_sum("failed to write outfile: "@, other.message@);
    let head = "concurrent spawn_daemon #"@ + decimal(idx as nat) + " failed: "@;
    lemma_ends_of_a_sum(head, spawn.text());
    lemma_ends_of_a_sum(head, other_spawn.text());
    assert(failure@ =~= action_tag(at as int) + (" failed: "@ + shown@));
    lemma_ends_of_a_sum(action_tag(at as int), " failed: "@ + shown@);
}

} // verus!

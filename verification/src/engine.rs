//! The key resolution engine: which server is asked next, when an attempt is
//! over, and when resolution gives up.
//!
//! The engine decides and the caller acts.  [`begin`] names the first step;
//! the caller asks the server that a [`Step::Query`] names and reports the
//! answer to [`after_query`], or sleeps for [`RETRY_DELAY_SECS`] on a
//! [`Step::Wait`] and goes on with [`after_wait`], until a step is final.
//! No step depends on anything but the counts and the answers handed in, so
//! the whole of a resolution is a function of the answers: [`run`].

use vstd::prelude::*;

use crate::error::FetchError;
use crate::retry::NumRetries;
use crate::text::decimal;

verus! {

/// The pause between two attempts, in seconds.  It is the same after every
/// attempt.
pub const RETRY_DELAY_SECS: u64 = 5;

/// What is to be done next, or how resolution ended.
#[derive(Debug, Clone, PartialEq, Eq)]
pub enum Step {
    /// Ask the server at index `server` of the list, as part of attempt
    /// number `attempt` (attempts are counted from 1).
    Query { attempt: u64, server: usize },
    /// Every server failed in this attempt: pause, then begin attempt
    /// `next_attempt` at the head of the list.
    Wait { next_attempt: u64 },
    /// A server answered with this key.
    Done { key: String },
    /// Resolution gave up.
    Failed { error: FetchError },
}

/// The view of a [`Step`]: the key as a sequence of characters.
pub enum StepView {
    Query { attempt: u64, server: usize },
    Wait { next_attempt: u64 },
    Done { key: Seq<char> },
    Failed { error: FetchError },
}

impl View for Step {
    type V = StepView;

    open spec fn view(&self) -> StepView {
        match *self {
            Step::Query { attempt, server } => StepView::Query { attempt, server },
            Step::Wait { next_attempt } => StepView::Wait { next_attempt },
            Step::Done { key } => StepView::Done { key: key@ },
            Step::Failed { error } => StepView::Failed { error },
        }
    }
}

impl StepView {
    /// Resolution is over: nothing is left to ask or to wait for.
    pub open spec fn is_final(self) -> bool {
        self is Done || self is Failed
    }
}

/// The number of the attempt after `attempt`.  The count stops at the largest
/// number that fits; under a finite policy it never gets there.
pub open spec fn following_attempt(attempt: u64) -> u64 {
    if attempt < u64::MAX {
        (attempt + 1) as u64
    } else {
        attempt
    }
}

/// The first step: an empty list is refused before any server is asked.
pub open spec fn spec_begin(servers: nat, policy: NumRetries) -> StepView {
    if servers == 0 {
        StepView::Failed { error: FetchError::NoServers }
    } else if policy == NumRetries::Finite(0) {
        StepView::Failed { error: FetchError::AllServersFailed(0) }
    } else {
        StepView::Query { attempt: 1, server: 0 }
    }
}

/// The step after the server at `server` failed in attempt `attempt`: the
/// next server of the list if there is one; else the attempt is over, and
/// resolution gives up if it was the last one allowed, or pauses.
pub open spec fn spec_after_failure(
    servers: nat,
    policy: NumRetries,
    attempt: u64,
    server: usize,
) -> StepView {
    if server + 1 < servers {
        StepView::Query { attempt, server: (server + 1) as usize }
    } else {
        match policy {
            NumRetries::Finite(max) => if attempt >= max {
                StepView::Failed { error: FetchError::AllServersFailed(max) }
            } else {
                StepView::Wait { next_attempt: following_attempt(attempt) }
            },
            NumRetries::Infinity => StepView::Wait { next_attempt: following_attempt(attempt) },
        }
    }
}

/// The step after the server at `server` answered in attempt `attempt`: a key
/// ends resolution at once, a failure moves on.
pub open spec fn spec_after_query(
    servers: nat,
    policy: NumRetries,
    attempt: u64,
    server: usize,
    response: Option<Seq<char>>,
) -> StepView {
    match response {
        Some(key) => StepView::Done { key },
        None => spec_after_failure(servers, policy, attempt, server),
    }
}

/// The step after the pause: the attempt begins at the head of the list.
pub open spec fn spec_after_wait(next_attempt: u64) -> StepView {
    StepView::Query { attempt: next_attempt, server: 0 }
}

/// A response by its view.
pub open spec fn response_view(response: Option<String>) -> Option<Seq<char>> {
    match response {
        Some(key) => Some(key@),
        None => None,
    }
}

/// Names the first step of a resolution over `servers` servers.
///
/// With no server the result is `Failed` with `NoServers`: no query is ever
/// named.  Otherwise the first server is asked in attempt 1.
pub fn begin(servers: usize, policy: &NumRetries) -> (step: Step)
    ensures
        step@ == spec_begin(servers as nat, *policy),
        servers == 0 ==> step@ == (StepView::Failed { error: FetchError::NoServers }),
        step@ matches StepView::Query { server, .. } ==> server < servers,
{
    if servers == 0 {
        return Step::Failed { error: FetchError::NoServers };
    }
    match policy {
        NumRetries::Finite(max) => {
            if *max == 0 {
                Step::Failed { error: FetchError::AllServersFailed(0) }
            } else {
                Step::Query { attempt: 1, server: 0 }
            }
        },
        NumRetries::Infinity => Step::Query { attempt: 1, server: 0 },
    }
}

/// Names the step that follows the answer of the server at `server` in
/// attempt `attempt`: `Some` is the key it resolved, `None` its failure.
pub fn after_query(
    servers: usize,
    policy: &NumRetries,
    attempt: u64,
    server: usize,
    response: Option<String>,
) -> (step: Step)
    ensures
        step@ == spec_after_query(
            servers as nat,
            *policy,
            attempt,
            server,
            response_view(response),
        ),
        step@ matches StepView::Query { server: next, .. } ==> next < servers,
{
    match response {
        Some(key) => Step::Done { key },
        None => {
            if servers > 0 && server < servers - 1 {
                Step::Query { attempt, server: server + 1 }
            } else {
                let next_attempt: u64 = if attempt < u64::MAX {
                    attempt + 1
                } else {
                    attempt
                };
                match policy {
                    NumRetries::Finite(max) => {
                        if attempt >= *max as u64 {
                            Step::Failed { error: FetchError::AllServersFailed(*max) }
                        } else {
                            Step::Wait { next_attempt }
                        }
                    },
                    NumRetries::Infinity => Step::Wait { next_attempt },
                }
            }
        },
    }
}

/// Names the step that follows the pause before attempt `next_attempt`.
pub fn after_wait(next_attempt: u64) -> (step: Step)
    ensures
        step@ == spec_after_wait(next_attempt),
{
    Step::Query { attempt: next_attempt, server: 0 }
}


/// A resolution in progress or ended: the step that is due, the queries made
/// so far in the order in which they were made, each with its attempt and the
/// index of its server, and the number of pauses taken.
pub struct Trace {
    pub step: StepView,
    pub asked: Seq<(u64, usize)>,
    pub waits: nat,
}

/// A pause needs no answer from outside: a trace takes it at once and names
/// the query that follows it.
pub open spec fn settled(step: StepView, asked: Seq<(u64, usize)>, waits: nat) -> Trace {
    match step {
        StepView::Wait { next_attempt } => Trace {
            step: spec_after_wait(next_attempt),
            asked,
            waits: waits + 1,
        },
        _ => Trace { step, asked, waits },
    }
}

/// The trace before any answer has come in.
pub open spec fn start(servers: nat, policy: NumRetries) -> Trace {
    settled(spec_begin(servers, policy), Seq::empty(), 0)
}

/// The trace after one more answer.  A resolution that has ended asks for
/// none: the answer is left unused.
pub open spec fn advance(
    servers: nat,
    policy: NumRetries,
    trace: Trace,
    response: Option<Seq<char>>,
) -> Trace {
    match trace.step {
        StepView::Query { attempt, server } => settled(
            spec_after_query(servers, policy, attempt, server, response),
            trace.asked.push((attempt, server)),
            trace.waits,
        ),
        _ => trace,
    }
}

/// The trace after the answers `responses`, given in the order in which the
/// queries are made, starting from `trace`.
pub open spec fn run_from(
    servers: nat,
    policy: NumRetries,
    trace: Trace,
    responses: Seq<Option<Seq<char>>>,
) -> Trace
    decreases responses.len(),
{
    if responses.len() == 0 {
        trace
    } else {
        run_from(
            servers,
            policy,
            advance(servers, policy, trace, responses[0]),
            responses.drop_first(),
        )
    }
}

/// The whole of a resolution over `servers` servers, as far as the answers
/// `responses` take it.
pub open spec fn run(servers: nat, policy: NumRetries, responses: Seq<Option<Seq<char>>>) -> Trace {
    run_from(servers, policy, start(servers, policy), responses)
}

/// `count` answers, each of them a failure.
pub open spec fn all_failed(count: nat) -> Seq<Option<Seq<char>>> {
    Seq::new(count, |i: int| None::<Seq<char>>)
}

/// Answers may be fed in two batches: the trace is the same.
pub proof fn lemma_run_in_batches(
    servers: nat,
    policy: NumRetries,
    trace: Trace,
    first: Seq<Option<Seq<char>>>,
    second: Seq<Option<Seq<char>>>,
)
    ensures
        run_from(servers, policy, trace, first + second) == run_from(
            servers,
            policy,
            run_from(servers, policy, trace, first),
            second,
        ),
    decreases first.len(),
{
    if first.len() == 0 {
    } else {
        let next = advance(servers, policy, trace, first[0]);
        assert((first + second).drop_first() =~= first.drop_first() + second);
        lemma_run_in_batches(servers, policy, next, first.drop_first(), second);
    }
}

/// One answer moves a trace by one `advance`.
pub proof fn lemma_run_one(
    servers: nat,
    policy: NumRetries,
    trace: Trace,
    response: Option<Seq<char>>,
)
    ensures
        run_from(servers, policy, trace, seq![response]) == advance(
            servers,
            policy,
            trace,
            response,
        ),
{
    reveal_with_fuel(run_from, 2);
}

/// One more answer moves a whole run by one `advance`.
pub proof fn lemma_one_more_answer(
    servers: nat,
    policy: NumRetries,
    responses: Seq<Option<Seq<char>>>,
    response: Option<Seq<char>>,
)
    ensures
        run(servers, policy, responses.push(response)) == advance(
            servers,
            policy,
            run(servers, policy, responses),
            response,
        ),
{
    assert(responses.push(response) =~= responses + seq![response]);
    lemma_run_in_batches(servers, policy, start(servers, policy), responses, seq![response]);
    lemma_run_one(servers, policy, run(servers, policy, responses), response);
}

/// Once resolution has ended, further answers change nothing.
pub proof fn lemma_final_trace_stays(
    servers: nat,
    policy: NumRetries,
    trace: Trace,
    responses: Seq<Option<Seq<char>>>,
)
    requires
        trace.step.is_final(),
    ensures
        run_from(servers, policy, trace, responses) == trace,
    decreases responses.len(),
{
    if responses.len() > 0 {
        lemma_final_trace_stays(servers, policy, trace, responses.drop_first());
    }
}

/// An empty server list is refused at once: the trace ends with `NoServers`
/// and holds no query and no pause, whatever the policy and the answers.
pub proof fn lemma_no_servers_no_query(policy: NumRetries, responses: Seq<Option<Seq<char>>>)
    ensures
        run(0, policy, responses) == (Trace {
            step: StepView::Failed { error: FetchError::NoServers },
            asked: Seq::empty(),
            waits: 0,
        }),
{
    lemma_final_trace_stays(0, policy, start(0, policy), responses);
}

/// Failover within one attempt.  Where a query to the server at `server` is
/// due in attempt `attempt`, the next `failures` servers fail and the one
/// after them answers with `key`, resolution ends with that key: the servers
/// were asked in list order within that same attempt, none after the one
/// that answered, and no pause was taken.
pub proof fn lemma_failover_within_attempt(
    servers: nat,
    policy: NumRetries,
    trace: Trace,
    attempt: u64,
    server: usize,
    failures: nat,
    key: Seq<char>,
)
    requires
        trace.step == (StepView::Query { attempt, server }),
        server + failures < servers,
        servers <= usize::MAX,
    ensures
        run_from(servers, policy, trace, all_failed(failures).push(Some(key))) == (Trace {
            step: StepView::Done { key },
            asked: trace.asked + Seq::new(
                failures + 1,
                |i: int| (attempt, (server + i) as usize),
            ),
            waits: trace.waits,
        }),
    decreases failures,
{
    let responses = all_failed(failures).push(Some(key));
    let queries = Seq::new(failures + 1, |i: int| (attempt, (server + i) as usize));
    if failures == 0 {
        assert(responses =~= seq![Some(key)]);
        lemma_run_one(servers, policy, trace, Some(key));
        assert(trace.asked.push((attempt, server)) =~= trace.asked + queries);
    } else {
        let next = advance(servers, policy, trace, None);
        assert(responses.drop_first() =~= all_failed((failures - 1) as nat).push(Some(key)));
        lemma_failover_within_attempt(
            servers,
            policy,
            next,
            attempt,
            (server + 1) as usize,
            (failures - 1) as nat,
            key,
        );
        let rest = Seq::new(failures, |i: int| (attempt, ((server + 1) as usize + i) as usize));
        assert(next.asked + rest =~= trace.asked + queries);
    }
}

/// The first server to succeed decides.  Over a list that is not empty, under
/// a policy that allows an attempt, where the first `earlier` servers fail
/// and the next one answers with `key`, resolution returns that key in the
/// first attempt: the servers before it were asked in list order, none after
/// it was asked, and no pause was taken.
pub proof fn lemma_first_success_wins(
    servers: nat,
    policy: NumRetries,
    earlier: nat,
    key: Seq<char>,
)
    requires
        earlier < servers <= usize::MAX,
        policy != NumRetries::Finite(0),
    ensures
        run(servers, policy, all_failed(earlier).push(Some(key))) == (Trace {
            step: StepView::Done { key },
            asked: Seq::new(earlier + 1, |i: int| (1u64, i as usize)),
            waits: 0,
        }),
{
    let begun = start(servers, policy);
    lemma_failover_within_attempt(servers, policy, begun, 1, 0, earlier, key);
    assert(begun.asked + Seq::new(earlier + 1, |i: int| (1u64, (0usize + i) as usize))
        =~= Seq::new(earlier + 1, |i: int| (1u64, i as usize)));
}

/// The number that the `n`-th attempt carries: `n`, as far as the count goes.
pub open spec fn attempt_number(n: nat) -> u64 {
    if n <= u64::MAX {
        n as u64
    } else {
        u64::MAX
    }
}

/// The first `count` queries of a resolution in which no server answers: the
/// list is walked from its head in every attempt, so the query at position
/// `i` goes to the server at `i % servers` in attempt `i / servers + 1`.
pub open spec fn round_robin(servers: nat, count: nat) -> Seq<(u64, usize)> {
    Seq::new(
        count,
        |i: int| (attempt_number((i / servers as int + 1) as nat), (i % servers as int) as usize),
    )
}

proof fn lemma_position_after(position: nat, servers: nat)
    requires
        servers >= 1,
    ensures
        0 <= position % servers < servers,
        0 <= position / servers,
        position % servers + 1 < servers ==> (position + 1) / servers == position / servers && (
        position + 1) % servers == position % servers + 1,
        position % servers + 1 == servers ==> (position + 1) / servers == position / servers + 1
            && (position + 1) % servers == 0 && position + 1 == (position / servers + 1)
            * servers,
{
    let d = servers as int;
    let x = position as int;
    let q = x / d;
    let r = x % d;
    vstd::arithmetic::div_mod::lemma_fundamental_div_mod(x, d);
    vstd::arithmetic::div_mod::lemma_mod_pos_bound(x, d);
    assert(d * q == q * d) by (nonlinear_arith);
    assert(0 <= q) by (nonlinear_arith)
        requires
            x == d * q + r,
            0 <= x,
            0 <= r < d,
    ;
    if r + 1 < d {
        vstd::arithmetic::div_mod::lemma_fundamental_div_mod_converse(x + 1, d, q, r + 1);
    } else {
        assert((q + 1) * d == q * d + d) by (nonlinear_arith);
        vstd::arithmetic::div_mod::lemma_fundamental_div_mod_converse(x + 1, d, q + 1, 0);
    }
}

/// Where no server answers, resolution walks the list attempt after attempt.
/// After `count` failures, fewer than a finite policy allows in all, the
/// query that is due goes to the server at `count % servers` in attempt
/// `count / servers + 1`; the queries made are `round_robin`, and one pause
/// was taken after each attempt that is over.  Resolution has not ended.
///
/// Under the unbounded policy this holds of every `count`: resolution never
/// gives up and never returns, however many failures come in.
pub proof fn lemma_failures_leave_next_query(servers: nat, policy: NumRetries, count: nat)
    requires
        1 <= servers <= usize::MAX,
        policy matches NumRetries::Finite(max) ==> count < servers * max as nat,
    ensures
        run(servers, policy, all_failed(count)) == (Trace {
            step: StepView::Query {
                attempt: attempt_number(count / servers + 1),
                server: (count % servers) as usize,
            },
            asked: round_robin(servers, count),
            waits: count / servers,
        }),
    decreases count,
{
    if count == 0 {
        assert(policy != NumRetries::Finite(0)) by {
            if policy == NumRetries::Finite(0) {
                assert(servers * 0 == 0) by (nonlinear_arith);
            }
        }
        lemma_position_after(0, servers);
        assert(round_robin(servers, 0) =~= Seq::<(u64, usize)>::empty());
    } else {
        let before = (count - 1) as nat;
        lemma_failures_leave_next_query(servers, policy, before);
        lemma_position_after(before, servers);
        let trace = run(servers, policy, all_failed(before));
        assert(all_failed(count) =~= all_failed(before).push(None));
        lemma_one_more_answer(servers, policy, all_failed(before), None);
        let attempt = attempt_number(before / servers + 1);
        let server = (before % servers) as usize;
        if before % servers + 1 < servers {
        } else {
            if let NumRetries::Finite(max) = policy {
                // count is a whole number of attempts, and fewer than `max`
                assert(before / servers + 1 < max) by (nonlinear_arith)
                    requires
                        count == (before / servers + 1) * servers,
                        count < servers * max,
                        servers >= 1,
                ;
            }
        }
        assert(trace.asked.push((attempt, server)) =~= round_robin(servers, count));
    }
}

/// A finite policy gives up after exactly the attempts it allows.  Where no
/// server answers, `max` attempts over `servers` servers make
/// `servers * max` queries with `max - 1` pauses between them, and the
/// failure of the last one ends resolution with `AllServersFailed(max)`,
/// whose message cites `max`.  By `lemma_failures_leave_next_query` it has
/// not ended before.
pub proof fn lemma_finite_policy_gives_up(servers: nat, max: u32)
    requires
        1 <= servers <= usize::MAX,
        max >= 1,
    ensures
        run(servers, NumRetries::Finite(max), all_failed(servers * max as nat)) == (Trace {
            step: StepView::Failed { error: FetchError::AllServersFailed(max) },
            asked: round_robin(servers, servers * max as nat),
            waits: (max - 1) as nat,
        }),
        FetchError::AllServersFailed(max).spec_message()
            == "Failed to fetch the LUKS key from all URLs after "@ + decimal(max as nat)
            + " attempts"@,
{
    let policy = NumRetries::Finite(max);
    let count: nat = servers * max as nat;
    assert(count >= 1 && count == (max - 1) * servers + servers) by (nonlinear_arith)
        requires
            count == servers * max,
            servers >= 1,
            max >= 1,
    ;
    let before = (count - 1) as nat;
    lemma_failures_leave_next_query(servers, policy, before);
    vstd::arithmetic::div_mod::lemma_fundamental_div_mod_converse(
        before as int,
        servers as int,
        max - 1,
        servers - 1,
    );
    let trace = run(servers, policy, all_failed(before));
    assert(all_failed(count) =~= all_failed(before).push(None));
    lemma_one_more_answer(servers, policy, all_failed(before), None);
    assert(trace.asked.push((attempt_number(max as nat), (servers - 1) as usize)) =~= round_robin(
        servers,
        count,
    ));
}

/// The first answer decides, in whichever attempt it comes.  Where the
/// first `failures` queries fail, fewer than a finite policy allows in all,
/// and the next one is answered with `key`, resolution ends with that key.
/// The queries made are the walk of the list up to the server that
/// answered, none after it, and one pause was taken after each attempt that
/// had failed before.
pub proof fn lemma_first_answer_decides(
    servers: nat,
    policy: NumRetries,
    failures: nat,
    key: Seq<char>,
)
    requires
        1 <= servers <= usize::MAX,
        policy matches NumRetries::Finite(max) ==> failures < servers * max as nat,
    ensures
        run(servers, policy, all_failed(failures).push(Some(key))) == (Trace {
            step: StepView::Done { key },
            asked: round_robin(servers, failures + 1),
            waits: failures / servers,
        }),
{
    lemma_failures_leave_next_query(servers, policy, failures);
    let trace = run(servers, policy, all_failed(failures));
    lemma_one_more_answer(servers, policy, all_failed(failures), Some(key));
    assert(trace.asked.push(
        (attempt_number(failures / servers + 1), (failures % servers) as usize),
    ) =~= round_robin(servers, failures + 1));
}

/// A resolution replayed on recorded answers: the step that is due, the
/// queries made, and the number of pauses taken.
#[derive(Debug, Clone, PartialEq, Eq)]
pub struct Replay {
    pub step: Step,
    pub asked: Vec<(u64, usize)>,
    pub waits: usize,
}

impl View for Replay {
    type V = Trace;

    open spec fn view(&self) -> Trace {
        Trace { step: self.step@, asked: self.asked@, waits: self.waits as nat }
    }
}

/// Recorded answers by their views, in order.
pub open spec fn responses_view(responses: Seq<Option<String>>) -> Seq<Option<Seq<char>>> {
    Seq::new(responses.len(), |i: int| response_view(responses[i]))
}

/// Replays a resolution over `servers` servers on recorded answers, taken
/// in the order in which the queries are made: `Some` is a key, `None` a
/// failure.  No time passes at a pause.  Answers that are left when
/// resolution has ended are not used.
pub fn replay(servers: usize, policy: &NumRetries, responses: Vec<Option<String>>) -> (res: Replay)
    ensures
        res@ == run(servers as nat, *policy, responses_view(responses@)),
{
    let ghost all = responses_view(responses@);
    let mut asked: Vec<(u64, usize)> = Vec::new();
    let mut waits: usize = 0;
    let mut step = begin(servers, policy);
    if let Step::Wait { next_attempt } = step {
        step = after_wait(next_attempt);
    }
    let mut responses = responses;
    let mut i: usize = 0;
    let total: usize = responses.len();
    while i < total
        invariant
            i <= total,
            total == responses.len(),
            total == all.len(),
            forall|j: int| i <= j < total ==> response_view(#[trigger] responses@[j]) == all[j],
            waits <= asked.len() <= i,
            !(step@ is Wait),
            (Trace { step: step@, asked: asked@, waits: waits as nat }) == run(
                servers as nat,
                *policy,
                all.take(i as int),
            ),
        decreases total - i,
    {
        proof {
            assert(all.take(i + 1) =~= all.take(i as int).push(all[i as int]));
            lemma_one_more_answer(servers as nat, *policy, all.take(i as int), all[i as int]);
        }
        match step {
            Step::Query { attempt, server } => {
                let mut response: Option<String> = None;
                std::mem::swap(&mut response, &mut responses[i]);
                asked.push((attempt, server));
                step = after_query(servers, policy, attempt, server, response);
                if let Step::Wait { next_attempt } = step {
                    waits = waits + 1;
                    step = after_wait(next_attempt);
                }
            },
            other => {
                step = other;
            },
        }
        i = i + 1;
    }
    assert(all.take(total as int) =~= all);
    Replay { step, asked, waits }
}

} // verus!

//! Readiness probing: the wire format of one probe, the classification of its
//! answer, and the state machine that spends the attempt budget.

use vstd::prelude::*;
use crate::config::EXIT_BACKEND_UNREACHABLE;

verus! {

/// Where the readiness probe stands. `Ready` and `Failed` are terminal.
#[derive(Clone, Copy, Debug, PartialEq, Eq, Structural)]
pub enum ReadinessState {
    Probing,
    Ready,
    Failed,
}

/// What the program around the prober has to do next.
#[derive(Clone, Copy, Debug, PartialEq, Eq, Structural)]
pub enum Directive {
    /// Make one probe and report its outcome.
    Probe,
    /// Wait this long, then ask again.
    Sleep { millis: u64 },
    /// The backend answered: hand the user interface over.
    Handoff,
    /// The budget is spent: end the application with this status.
    Exit { status: i32 },
}

/// `bytes` starts with the characters of `text`, one byte for each.
pub open spec fn begins_with_text(bytes: Seq<u8>, text: Seq<char>) -> bool {
    &&& text.len() <= bytes.len()
    &&& forall|i: int| 0 <= i < text.len() ==> (#[trigger] bytes[i]) as char == text[i]
}

/// A response head counts as success iff it starts with `HTTP/1.1 200` or
/// `HTTP/1.0 200`. Nothing after those twelve bytes is looked at.
pub open spec fn is_success_head(head: Seq<u8>) -> bool {
    begins_with_text(head, "HTTP/1.1 200"@) || begins_with_text(head, "HTTP/1.0 200"@)
}

/// The outcome of one attempt as a condition on what was read: a connection or
/// a read that failed gives `None` and is never success.
pub open spec fn attempt_succeeded(response: Option<Seq<u8>>) -> bool {
    match response {
        Some(head) => is_success_head(head),
        None => false,
    }
}

/// The request sent on each probe.
pub fn probe_request() -> (request: &'static str)
    ensures
        request@ == "GET / HTTP/1.1\r\nHost: 127.0.0.1\r\nConnection: close\r\n\r\n"@,
{
    "GET / HTTP/1.1\r\nHost: 127.0.0.1\r\nConnection: close\r\n\r\n"
}

/// The address probed; the port comes from the configuration.
pub fn probe_host() -> (host: &'static str)
    ensures
        host@ == "127.0.0.1"@,
{
    "127.0.0.1"
}

/// Number of response bytes a probe reads at most.
pub const RESPONSE_BUDGET: usize = 64;

/// Classifies the first bytes of a response.
pub fn is_success_response(head: &[u8]) -> (ready: bool)
    ensures
        ready == is_success_head(head@),
{
    proof {
        reveal_strlit("HTTP/1.1 200");
        reveal_strlit("HTTP/1.0 200");
    }
    if head.len() < 12 {
        return false;
    }
    let framed = head[0] == 0x48 && head[1] == 0x54 && head[2] == 0x54 && head[3] == 0x50
        && head[4] == 0x2f && head[5] == 0x31 && head[6] == 0x2e && head[8] == 0x20
        && head[9] == 0x32 && head[10] == 0x30 && head[11] == 0x30;
    let ready = framed && (head[7] == 0x31 || head[7] == 0x30);
    proof {
        let bytes = head@;
        if is_success_head(bytes) {
            let text = if begins_with_text(bytes, "HTTP/1.1 200"@) {
                "HTTP/1.1 200"@
            } else {
                "HTTP/1.0 200"@
            };
            assert(bytes[0] as char == text[0] && bytes[1] as char == text[1]);
            assert(bytes[2] as char == text[2] && bytes[3] as char == text[3]);
            assert(bytes[4] as char == text[4] && bytes[5] as char == text[5]);
            assert(bytes[6] as char == text[6] && bytes[7] as char == text[7]);
            assert(bytes[8] as char == text[8] && bytes[9] as char == text[9]);
            assert(bytes[10] as char == text[10] && bytes[11] as char == text[11]);
            assert(ready);
        }
        if ready {
            if head[7] == 0x31 {
                assert(begins_with_text(bytes, "HTTP/1.1 200"@));
            } else {
                assert(begins_with_text(bytes, "HTTP/1.0 200"@));
            }
        }
    }
    ready
}

/// What a probe read, as a value of the model.
pub open spec fn heard(response: Option<&[u8]>) -> Option<Seq<u8>> {
    match response {
        Some(head) => Some(head@),
        None => None,
    }
}

/// What a run of probes read, as values of the model.
pub open spec fn heard_all(responses: Seq<Option<Vec<u8>>>) -> Seq<Option<Seq<u8>>> {
    responses.map_values(
        |response: Option<Vec<u8>>|
            match response {
                Some(head) => Some(head@),
                None => None,
            },
    )
}

/// Whether one probe found the backend ready, given what it read: `None` where
/// the connection or the read failed.
pub fn backend_ready(response: Option<&[u8]>) -> (ready: bool)
    ensures
        ready == attempt_succeeded(heard(response)),
{
    match response {
        Some(head) => is_success_response(head),
        None => false,
    }
}

/// The prober's state: the budget it was given and what it has spent.
#[derive(Clone, Copy, Debug, PartialEq, Eq, Structural)]
pub struct Prober {
    /// Pause after each failed attempt, in milliseconds.
    pub interval_millis: u64,
    /// Attempts allowed before giving up.
    pub max_attempts: u32,
    /// Attempts that have failed so far.
    pub failures: u32,
    pub state: ReadinessState,
}

impl Prober {
    /// The budget is never overspent, and the prober has failed exactly when
    /// the budget is spent.
    pub open spec fn wf(self) -> bool {
        &&& self.failures <= self.max_attempts
        &&& (self.state == ReadinessState::Failed <==> self.failures == self.max_attempts)
    }

    /// The prober before its first attempt.
    pub open spec fn fresh(interval_millis: u64, max_attempts: u32) -> Prober {
        Prober {
            interval_millis,
            max_attempts,
            failures: 0,
            state: if max_attempts == 0 {
                ReadinessState::Failed
            } else {
                ReadinessState::Probing
            },
        }
    }

    /// What is to be done in this state, before any new outcome is known.
    pub open spec fn pending(self) -> Directive {
        match self.state {
            ReadinessState::Probing => Directive::Probe,
            ReadinessState::Ready => Directive::Handoff,
            ReadinessState::Failed => Directive::Exit { status: EXIT_BACKEND_UNREACHABLE },
        }
    }

    /// The state after an attempt with the given outcome. A terminal state
    /// takes no further outcome.
    pub open spec fn after(self, ready: bool) -> Prober {
        if self.state != ReadinessState::Probing {
            self
        } else if ready {
            Prober { state: ReadinessState::Ready, ..self }
        } else {
            Prober {
                failures: (self.failures + 1) as u32,
                state: if self.failures + 1 == self.max_attempts {
                    ReadinessState::Failed
                } else {
                    ReadinessState::Probing
                },
                ..self
            }
        }
    }

    /// What follows an attempt with the given outcome: success hands over at
    /// once, a failure is followed by one pause, the last one too.
    pub open spec fn reaction(self, ready: bool) -> Directive {
        if self.state != ReadinessState::Probing {
            self.pending()
        } else if ready {
            Directive::Handoff
        } else {
            Directive::Sleep { millis: self.interval_millis }
        }
    }

    /// The state after attempts that read the given responses, in order.
    pub open spec fn after_all(self, responses: Seq<Option<Seq<u8>>>) -> Prober
        decreases responses.len(),
    {
        if responses.len() == 0 {
            self
        } else {
            self.after_all(responses.drop_last()).after(attempt_succeeded(responses.last()))
        }
    }

    /// Attempts made so far: the failed ones and, once ready, the one that
    /// succeeded.
    pub open spec fn attempts_made(self) -> int {
        self.failures + if self.state == ReadinessState::Ready { 1int } else { 0int }
    }

    /// Time spent in pauses so far, in milliseconds: one pause per failure.
    pub open spec fn slept_millis(self) -> int {
        self.failures as int * self.interval_millis as int
    }

    /// A prober that has made no attempt yet. With an empty budget it has
    /// failed from the start.
    pub fn new(interval_millis: u64, max_attempts: u32) -> (prober: Prober)
        ensures
            prober == Prober::fresh(interval_millis, max_attempts),
            prober.wf(),
    {
        let state = if max_attempts == 0 {
            ReadinessState::Failed
        } else {
            ReadinessState::Probing
        };
        Prober { interval_millis, max_attempts, failures: 0, state }
    }

    /// Whether the budget and the state agree, as they do for every prober that
    /// `new` made and `record` changed.
    pub fn is_valid(&self) -> (valid: bool)
        ensures
            valid == self.wf(),
    {
        self.failures <= self.max_attempts && (match self.state {
            ReadinessState::Failed => self.failures == self.max_attempts,
            _ => self.failures != self.max_attempts,
        })
    }

    /// The readiness state, read by the coordinator once it is terminal.
    pub fn state(&self) -> (state: ReadinessState)
        ensures
            state == self.state,
    {
        self.state
    }

    /// What to do now.
    pub fn poll(&self) -> (directive: Directive)
        ensures
            directive == self.pending(),
    {
        match self.state {
            ReadinessState::Probing => Directive::Probe,
            ReadinessState::Ready => Directive::Handoff,
            ReadinessState::Failed => Directive::Exit { status: EXIT_BACKEND_UNREACHABLE },
        }
    }

    /// Takes the outcome of one attempt and says what follows it.
    pub fn record(&mut self, ready: bool) -> (directive: Directive)
        requires
            old(self).wf(),
        ensures
            *final(self) == old(self).after(ready),
            directive == old(self).reaction(ready),
            final(self).wf(),
    {
        match self.state {
            ReadinessState::Probing => {
                if ready {
                    self.state = ReadinessState::Ready;
                    Directive::Handoff
                } else {
                    self.failures = self.failures + 1;
                    if self.failures == self.max_attempts {
                        self.state = ReadinessState::Failed;
                    }
                    Directive::Sleep { millis: self.interval_millis }
                }
            },
            ReadinessState::Ready => Directive::Handoff,
            ReadinessState::Failed => Directive::Exit { status: EXIT_BACKEND_UNREACHABLE },
        }
    }

    /// Classifies what one attempt read, takes it as that attempt's outcome and
    /// says what follows.
    pub fn record_response(&mut self, response: Option<&[u8]>) -> (directive: Directive)
        requires
            old(self).wf(),
        ensures
            *final(self) == old(self).after(attempt_succeeded(heard(response))),
            directive == old(self).reaction(attempt_succeeded(heard(response))),
            final(self).wf(),
    {
        let ready = backend_ready(response);
        self.record(ready)
    }

    /// Takes what a run of attempts read, in order. Responses that come after
    /// a terminal state change nothing.
    pub fn record_all(&mut self, responses: &Vec<Option<Vec<u8>>>)
        requires
            old(self).wf(),
        ensures
            *final(self) == old(self).after_all(heard_all(responses@)),
            final(self).wf(),
    {
        let ghost start = *self;
        let ghost heads = heard_all(responses@);
        let mut i: usize = 0;
        while i < responses.len()
            invariant
                i <= responses.len(),
                heads == heard_all(responses@),
                self.wf(),
                *self == start.after_all(heads.take(i as int)),
            decreases responses.len() - i,
        {
            proof {
                let upto = heads.take(i + 1);
                assert(upto.drop_last() =~= heads.take(i as int));
                assert(upto.last() == heads[i as int]);
            }
            match &responses[i] {
                Some(head) => {
                    self.record_response(Some(head.as_slice()));
                },
                None => {
                    self.record_response(None);
                },
            }
            i = i + 1;
        }
        assert(heads.take(i as int) =~= heads);
    }
}

/// Success is decided by the first twelve bytes alone: a shorter head is never
/// a success, and two heads that agree on those bytes are classified alike.
pub proof fn lemma_success_reads_twelve_bytes(head: Seq<u8>, other: Seq<u8>)
    ensures
        is_success_head(head) ==> head.len() >= 12,
        head.len() >= 12 && other.len() >= 12 && head.take(12) == other.take(12)
            ==> is_success_head(head) == is_success_head(other),
{
    reveal_strlit("HTTP/1.1 200");
    reveal_strlit("HTTP/1.0 200");
    if head.len() >= 12 && other.len() >= 12 && head.take(12) == other.take(12) {
        assert forall|i: int| 0 <= i < 12 implies head[i] == other[i] by {
            assert(head.take(12)[i] == head[i]);
            assert(other.take(12)[i] == other[i]);
        }
    }
}

/// The smaller of a count and the attempt budget.
pub open spec fn capped(count: nat, max_attempts: u32) -> int {
    if count <= max_attempts {
        count as int
    } else {
        max_attempts as int
    }
}

/// An outcome keeps the budget and the prober's validity, and a terminal state
/// is final: it takes no further outcome.
pub proof fn lemma_after_preserves(prober: Prober, ready: bool)
    requires
        prober.wf(),
    ensures
        prober.after(ready).wf(),
        prober.after(ready).interval_millis == prober.interval_millis,
        prober.after(ready).max_attempts == prober.max_attempts,
        prober.state != ReadinessState::Probing ==> prober.after(ready) == prober,
{
}

/// Once terminal, the prober stays as it is whatever is reported to it.
pub proof fn lemma_terminal_is_final(prober: Prober, responses: Seq<Option<Seq<u8>>>)
    requires
        prober.state != ReadinessState::Probing,
    ensures
        prober.after_all(responses) == prober,
    decreases responses.len(),
{
    if responses.len() > 0 {
        lemma_terminal_is_final(prober, responses.drop_last());
    }
}

/// Whatever the attempts read, the prober stays valid, keeps its settings and
/// never goes over its budget: it makes at most `max_attempts` attempts and
/// pauses at most that many intervals.
pub proof fn lemma_budget_never_exceeded(
    interval_millis: u64,
    max_attempts: u32,
    responses: Seq<Option<Seq<u8>>>,
)
    ensures
        ({
            let prober = Prober::fresh(interval_millis, max_attempts).after_all(responses);
            &&& prober.wf()
            &&& prober.interval_millis == interval_millis
            &&& prober.max_attempts == max_attempts
            &&& prober.attempts_made() <= max_attempts
            &&& prober.attempts_made() <= responses.len()
            &&& prober.slept_millis() <= max_attempts * interval_millis
        }),
    decreases responses.len(),
{
    if responses.len() > 0 {
        lemma_budget_never_exceeded(interval_millis, max_attempts, responses.drop_last());
    }
    let prober = Prober::fresh(interval_millis, max_attempts).after_all(responses);
    assert(prober.failures * interval_millis <= max_attempts * interval_millis)
        by (nonlinear_arith)
        requires
            0 <= prober.failures <= max_attempts,
            0 <= interval_millis,
    ;
}

/// While no attempt reads a success response, the prober makes exactly as many attempts as the
/// budget holds, each followed by one pause of the fixed interval, and then has
/// failed: after `n` failures it has made `n` attempts and slept `n` intervals
/// if `n` is within the budget, and is still probing exactly when `n` is below
/// it.
pub proof fn lemma_failures_exhaust_budget(
    interval_millis: u64,
    max_attempts: u32,
    responses: Seq<Option<Seq<u8>>>,
)
    requires
        forall|i: int| 0 <= i < responses.len() ==> !attempt_succeeded(#[trigger] responses[i]),
    ensures
        ({
            let prober = Prober::fresh(interval_millis, max_attempts).after_all(responses);
            let made = capped(responses.len(), max_attempts);
            &&& prober.wf()
            &&& prober.interval_millis == interval_millis
            &&& prober.max_attempts == max_attempts
            &&& prober.failures == made
            &&& prober.attempts_made() == made
            &&& prober.slept_millis() == made * interval_millis
            &&& prober.state == if responses.len() < max_attempts {
                ReadinessState::Probing
            } else {
                ReadinessState::Failed
            }
            &&& responses.len() < max_attempts ==> prober.pending() == Directive::Probe
                && prober.reaction(false) == (Directive::Sleep { millis: interval_millis })
            &&& responses.len() >= max_attempts ==> prober.pending() == (Directive::Exit {
                status: EXIT_BACKEND_UNREACHABLE,
            })
        }),
    decreases responses.len(),
{
    if responses.len() > 0 {
        lemma_failures_exhaust_budget(interval_millis, max_attempts, responses.drop_last());
    }
}

/// The first attempt that reads a success response makes the prober ready at once: the handoff
/// follows without a pause, and whatever would have come after it is never
/// asked for. If the attempts before it (`index` of them) all failed, exactly
/// `index + 1` attempts were made and `index` intervals slept.
pub proof fn lemma_first_success_is_ready(
    interval_millis: u64,
    max_attempts: u32,
    responses: Seq<Option<Seq<u8>>>,
    index: int,
)
    requires
        0 <= index < responses.len(),
        index < max_attempts,
        attempt_succeeded(responses[index]),
        forall|i: int| 0 <= i < index ==> !attempt_succeeded(#[trigger] responses[i]),
    ensures
        ({
            let start = Prober::fresh(interval_millis, max_attempts);
            let prober = start.after_all(responses);
            &&& start.after_all(responses.take(index)).reaction(true) == Directive::Handoff
            &&& prober == start.after_all(responses.take(index + 1))
            &&& prober.wf()
            &&& prober.state == ReadinessState::Ready
            &&& prober.pending() == Directive::Handoff
            &&& prober.failures == index
            &&& prober.attempts_made() == index + 1
            &&& prober.slept_millis() == index * interval_millis
        }),
    decreases responses.len(),
{
    let start = Prober::fresh(interval_millis, max_attempts);
    let before = responses.take(index);
    lemma_failures_exhaust_budget(interval_millis, max_attempts, before);
    if responses.len() == index + 1 {
        assert(responses.drop_last() =~= before);
        assert(responses.take(index + 1) =~= responses);
    } else {
        let shorter = responses.drop_last();
        lemma_first_success_is_ready(interval_millis, max_attempts, shorter, index);
        assert(shorter.take(index) =~= before);
        assert(shorter.take(index + 1) =~= responses.take(index + 1));
    }
}

} // verus!

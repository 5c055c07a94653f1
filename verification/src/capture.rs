use vstd::prelude::*;

verus! {

/// The timing knobs of the capture engine, empirically tuned for OS
/// clipboard propagation latency and named so that callers can
/// override them.
pub struct CaptureConfig {
    /// Pause before the copy keystroke is injected, letting the hotkey
    /// release propagate so the keystroke is not swallowed (ms).
    pub settle_ms: u64,
    /// The fast path's single wait between the injected keystroke and
    /// its one clipboard read (ms).
    pub fast_wait_ms: u64,
    /// Wait before each fallback poll (ms).
    pub poll_interval_ms: u64,
    /// Number of fallback polls before the engine gives up.
    pub poll_attempts: u64,
}

pub open spec fn spec_default_capture_config() -> CaptureConfig {
    CaptureConfig { settle_ms: 30, fast_wait_ms: 50, poll_interval_ms: 30, poll_attempts: 10 }
}

impl Default for CaptureConfig {
    /// The tuned defaults: a 30 ms settle, one 50 ms fast wait, and ten
    /// 30 ms fallback polls.
    fn default() -> (r: CaptureConfig)
        ensures
            r == spec_default_capture_config(),
    {
        CaptureConfig { settle_ms: 30, fast_wait_ms: 50, poll_interval_ms: 30, poll_attempts: 10 }
    }
}

/// A clipboard read counts as a genuine capture exactly when it is
/// non-empty and differs from what the clipboard held before the copy
/// keystroke; anything else is a stale read.
pub open spec fn spec_is_fresh(previous: Seq<char>, current: Seq<char>) -> bool {
    current.len() > 0 && current != previous
}

pub fn is_fresh_capture(previous: &String, current: &String) -> (r: bool)
    ensures
        r == spec_is_fresh(previous@, current@),
{
    !current.as_str().is_empty() && !(*current == *previous)
}

/// Where a capture stands between clipboard reads. The driver performs
/// the sleeps, keystroke injections and reads; every decision lives in
/// `capture_step`.
pub enum CapturePhase {
    /// The copy keystroke was injected and the one fast read is
    /// awaited; `previous` is what the clipboard held beforehand.
    FastPoll { previous: String },
    /// The fast read found nothing; the keystroke was injected a
    /// second time and bounded polling is under way.
    SlowPoll { previous: String, polls_done: u64 },
    /// The capture is over: `text` is the captured value when `fresh`,
    /// and the stale `previous` value (possibly empty) otherwise.
    Finished { text: String, fresh: bool },
}

/// Starts a capture from what the clipboard held before the keystroke.
pub fn begin_capture(previous: String) -> (r: CapturePhase)
    ensures
        r == (CapturePhase::FastPoll { previous }),
{
    CapturePhase::FastPoll { previous }
}

/// Advances a capture by one clipboard read. A fresh read finishes the
/// capture with it at once — in particular, a fresh fast read never
/// enters the fallback path. A stale fast read opens the fallback
/// (or finishes stale when no polls are allowed); a stale slow read
/// polls again until the bound is exhausted, and exhaustion finishes
/// with the stale `previous` value rather than blocking further.
pub fn capture_step(phase: CapturePhase, reading: String, config: &CaptureConfig) -> (r:
    CapturePhase)
    requires
        !(phase is Finished),
        phase matches CapturePhase::SlowPoll { polls_done, .. } ==> polls_done
            < config.poll_attempts,
    ensures
        phase matches CapturePhase::FastPoll { previous } ==> r == (if spec_is_fresh(
            previous@,
            reading@,
        ) {
            CapturePhase::Finished { text: reading, fresh: true }
        } else if config.poll_attempts == 0 {
            CapturePhase::Finished { text: previous, fresh: false }
        } else {
            CapturePhase::SlowPoll { previous, polls_done: 0 }
        }),
        phase matches CapturePhase::SlowPoll { previous, polls_done } ==> r == (if spec_is_fresh(
            previous@,
            reading@,
        ) {
            CapturePhase::Finished { text: reading, fresh: true }
        } else if polls_done + 1 < config.poll_attempts {
            CapturePhase::SlowPoll { previous, polls_done: (polls_done + 1) as u64 }
        } else {
            CapturePhase::Finished { text: previous, fresh: false }
        }),
{
    match phase {
        CapturePhase::FastPoll { previous } => {
            if is_fresh_capture(&previous, &reading) {
                CapturePhase::Finished { text: reading, fresh: true }
            } else if config.poll_attempts == 0 {
                CapturePhase::Finished { text: previous, fresh: false }
            } else {
                CapturePhase::SlowPoll { previous, polls_done: 0 }
            }
        },
        CapturePhase::SlowPoll { previous, polls_done } => {
            if is_fresh_capture(&previous, &reading) {
                CapturePhase::Finished { text: reading, fresh: true }
            } else if polls_done + 1 < config.poll_attempts {
                CapturePhase::SlowPoll { previous, polls_done: polls_done + 1 }
            } else {
                CapturePhase::Finished { text: previous, fresh: false }
            }
        },
        CapturePhase::Finished { text, fresh } => CapturePhase::Finished { text, fresh },
    }
}

/// What the fast path hands on under the non-blocking design: the
/// captured text when its one read was fresh, the empty string
/// otherwise. The driver emits this at once as the first notification;
/// an empty hand-off is exactly what sends it into the fallback path,
/// whose own capture arrives later as a second, distinct notification.
pub fn quick_capture_outcome(previous: &String, current: String) -> (r: String)
    ensures
        spec_is_fresh(previous@, current@) ==> r@ == current@,
        !spec_is_fresh(previous@, current@) ==> r@.len() == 0,
{
    if is_fresh_capture(previous, &current) {
        current
    } else {
        String::new()
    }
}

/// The outcome the fallback path reaches, given what the successive
/// polls would observe: the first fresh read among the first `attempts`
/// of them wins; otherwise the stale `previous` value stands.
pub open spec fn spec_slow_outcome(
    previous: Seq<char>,
    reads: Seq<Seq<char>>,
    attempts: nat,
) -> (Seq<char>, bool)
    decreases attempts,
{
    if attempts == 0 || reads.len() == 0 {
        (previous, false)
    } else if spec_is_fresh(previous, reads[0]) {
        (reads[0], true)
    } else {
        spec_slow_outcome(previous, reads.drop_first(), (attempts - 1) as nat)
    }
}

/// The outcome of a whole capture, given what the clipboard held
/// before the keystroke, what the fast read observes, and what the
/// successive fallback polls would observe.
pub open spec fn spec_capture_outcome(
    previous: Seq<char>,
    fast: Seq<char>,
    slow: Seq<Seq<char>>,
    attempts: nat,
) -> (Seq<char>, bool) {
    if spec_is_fresh(previous, fast) {
        (fast, true)
    } else {
        spec_slow_outcome(previous, slow, attempts)
    }
}

/// Computes the capture outcome from recorded clipboard reads: the
/// fast-path read first, then at most `config.poll_attempts` fallback
/// polls. The stale `previous` value (possibly empty) comes back when
/// nothing fresh ever appears.
pub fn capture_from_reads(
    previous: &String,
    fast: &String,
    slow: &Vec<String>,
    config: &CaptureConfig,
) -> (r: (String, bool))
    ensures
        ({
            let out = spec_capture_outcome(
                previous@,
                fast@,
                slow@.map_values(|s: String| s@),
                config.poll_attempts as nat,
            );
            r.0@ == out.0 && r.1 == out.1
        }),
{
    let ghost reads = slow@.map_values(|s: String| s@);
    let ghost attempts = config.poll_attempts as nat;
    if is_fresh_capture(previous, fast) {
        return (fast.clone(), true);
    }
    proof {
        assert(reads.skip(0) =~= reads);
    }
    let mut i: usize = 0;
    while i < slow.len() && (i as u64) < config.poll_attempts
        invariant
            !spec_is_fresh(previous@, fast@),
            reads == slow@.map_values(|s: String| s@),
            attempts == config.poll_attempts as nat,
            i <= slow@.len(),
            i <= attempts,
            spec_slow_outcome(previous@, reads, attempts) == spec_slow_outcome(
                previous@,
                reads.skip(i as int),
                (attempts - i) as nat,
            ),
        decreases slow@.len() - i,
    {
        if is_fresh_capture(previous, &slow[i]) {
            proof {
                assert(reads.skip(i as int)[0] == reads[i as int]);
                assert(reads[i as int] == slow@[i as int]@);
            }
            return (slow[i].clone(), true);
        }
        proof {
            assert(reads.skip(i as int)[0] == reads[i as int]);
            assert(reads[i as int] == slow@[i as int]@);
            assert(reads.skip(i as int).drop_first() =~= reads.skip(i as int + 1));
        }
        i = i + 1;
    }
    proof {
        if i < slow@.len() {
            assert((attempts - i) as nat == 0);
        } else {
            assert(reads.skip(i as int).len() == 0);
        }
    }
    (previous.clone(), false)
}

/// Law: when the clipboard changes within the fast-poll window, the
/// fresh value is captured outright and no fallback poll is consulted.
pub proof fn lemma_fast_path_wins(
    previous: Seq<char>,
    fast: Seq<char>,
    slow: Seq<Seq<char>>,
    attempts: nat,
)
    requires
        spec_is_fresh(previous, fast),
    ensures
        spec_capture_outcome(previous, fast, slow, attempts) == (fast, true),
{
}

proof fn lemma_slow_exhaustion(previous: Seq<char>, reads: Seq<Seq<char>>, attempts: nat)
    requires
        forall|i: int| 0 <= i < reads.len() ==> !spec_is_fresh(previous, #[trigger] reads[i]),
    ensures
        spec_slow_outcome(previous, reads, attempts) == (previous, false),
    decreases attempts,
{
    if attempts > 0 && reads.len() > 0 {
        assert(!spec_is_fresh(previous, reads[0]));
        let sub = reads.drop_first();
        assert(forall|i: int| 0 <= i < sub.len() ==> sub[i] == reads[i + 1]);
        lemma_slow_exhaustion(previous, sub, (attempts - 1) as nat);
    }
}

/// Law: when no read within either window is fresh, the capture ends
/// after at most the bounded number of polls, yielding the stale
/// `previous` value (possibly empty) and no capture — it never blocks
/// past the bound and never fails.
pub proof fn lemma_exhaustion_returns_stale(
    previous: Seq<char>,
    fast: Seq<char>,
    slow: Seq<Seq<char>>,
    attempts: nat,
)
    requires
        !spec_is_fresh(previous, fast),
        forall|i: int| 0 <= i < slow.len() ==> !spec_is_fresh(previous, #[trigger] slow[i]),
    ensures
        spec_capture_outcome(previous, fast, slow, attempts) == (previous, false),
{
    lemma_slow_exhaustion(previous, slow, attempts);
}

} // verus!

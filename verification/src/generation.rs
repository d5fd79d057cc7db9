//! The decisions of one benchmark generation run: when to stop producing
//! tokens, and what is recorded of each decoded token. The caller samples,
//! decodes and measures; the tracker keeps the counts and latencies.
use vstd::prelude::*;

verus! {

/// The decode latency of the first generated token, or zero when no token
/// was generated.
pub open spec fn first_latency(s: Seq<u128>) -> u128 {
    if s.len() == 0 {
        0
    } else {
        s[0]
    }
}

/// Why generation stopped early.
#[derive(Debug, Clone, Copy, PartialEq, Eq, Structural)]
pub enum StopReason {
    /// The configured time limit ran out.
    TimedOut,
    /// The model produced an end-of-generation token.
    EndOfGeneration,
}

/// The abstract state of a generation run.
pub struct GenerationView {
    pub max_tokens: usize,
    /// Decode latency of every generated token, in microseconds, in order.
    pub itl_samples_us: Seq<u128>,
    pub stopped: Option<StopReason>,
}

/// The generation state: the token budget, the decode latency of every
/// generated token, and whether and why generation stopped.
#[derive(Debug)]
pub struct GenerationTracker {
    max_tokens: usize,
    itl_samples_us: Vec<u128>,
    stopped: Option<StopReason>,
}

impl View for GenerationTracker {
    type V = GenerationView;

    closed spec fn view(&self) -> GenerationView {
        GenerationView {
            max_tokens: self.max_tokens,
            itl_samples_us: self.itl_samples_us@,
            stopped: self.stopped,
        }
    }
}

/// No more tokens were generated than the budget allows.
pub open spec fn within_budget(g: GenerationView) -> bool {
    g.itl_samples_us.len() <= g.max_tokens
}

impl GenerationTracker {
    /// A run that may generate up to `max_tokens` tokens.
    pub fn new(max_tokens: usize) -> (g: Self)
        ensures
            g@ == (GenerationView { max_tokens, itl_samples_us: Seq::empty(), stopped: None }),
            within_budget(g@),
    {
        GenerationTracker { max_tokens, itl_samples_us: Vec::new(), stopped: None }
    }

    /// Another token is to be attempted: generation has not stopped and the
    /// budget is not spent.
    pub fn wants_token(&self) -> (b: bool)
        ensures
            b == (self@.stopped is None && self@.itl_samples_us.len() < self@.max_tokens),
    {
        self.stopped.is_none() && self.itl_samples_us.len() < self.max_tokens
    }

    /// Ends generation for `reason`.
    pub fn stop(&mut self, reason: StopReason)
        ensures
            final(self)@ == (GenerationView { stopped: Some(reason), ..old(self)@ }),
    {
        self.stopped = Some(reason);
    }

    /// Records a generated token that took `decode_us` microseconds to
    /// decode, and returns its 1-based index. Only a token the run still
    /// wants can be recorded, so the budget is never exceeded.
    pub fn record_token(&mut self, decode_us: u128) -> (index: usize)
        requires
            old(self)@.stopped is None,
            old(self)@.itl_samples_us.len() < old(self)@.max_tokens,
        ensures
            final(self)@ == (GenerationView {
                itl_samples_us: old(self)@.itl_samples_us.push(decode_us),
                ..old(self)@
            }),
            within_budget(final(self)@),
            index == final(self)@.itl_samples_us.len(),
    {
        self.itl_samples_us.push(decode_us);
        self.itl_samples_us.len()
    }

    /// Number of generated tokens.
    pub fn generated_tokens(&self) -> (n: usize)
        ensures
            n == self@.itl_samples_us.len(),
            within_budget(self@) ==> n <= self@.max_tokens,
    {
        self.itl_samples_us.len()
    }

    /// The decode latency of the first generated token; zero before any.
    pub fn first_token_decode_us(&self) -> (us: u128)
        ensures
            us == first_latency(self@.itl_samples_us),
    {
        if self.itl_samples_us.len() == 0 {
            0
        } else {
            self.itl_samples_us[0]
        }
    }

    /// Whether the time limit ended the run.
    pub fn timed_out(&self) -> (b: bool)
        ensures
            b == (self@.stopped == Some(StopReason::TimedOut)),
    {
        match self.stopped {
            Some(StopReason::TimedOut) => true,
            _ => false,
        }
    }

    /// The decode latencies, in order.
    pub fn itl_samples_us(&self) -> (s: &Vec<u128>)
        ensures
            s@ == self@.itl_samples_us,
    {
        &self.itl_samples_us
    }

    /// Time to first token: the prompt's decode time plus the first
    /// token's.
    pub fn ttft_us(&self, prompt_decode_us: u128) -> (t: u128)
        requires
            prompt_decode_us + first_latency(self@.itl_samples_us) <= u128::MAX,
        ensures
            t == prompt_decode_us + first_latency(self@.itl_samples_us),
    {
        prompt_decode_us + self.first_token_decode_us()
    }
}

/// Elapsed time on a monotonic clock, counted in whole microseconds from a
/// start time. Times are nanoseconds; the caller reads the clock.
#[derive(Debug, Clone, Copy)]
pub struct MicroTimer {
    start_ns: u64,
}

impl View for MicroTimer {
    type V = u64;

    closed spec fn view(&self) -> u64 {
        self.start_ns
    }
}

/// Whole microseconds from `start` to `now`, zero when `now` lies before
/// `start`.
pub open spec fn micros_between(start: u64, now: u64) -> u128 {
    if now >= start {
        ((now - start) / 1000) as u128
    } else {
        0
    }
}

impl MicroTimer {
    /// A timer started at `now_ns`.
    pub fn start_new(now_ns: u64) -> (t: Self)
        ensures
            t@ == now_ns,
    {
        MicroTimer { start_ns: now_ns }
    }

    /// Whole microseconds since the start, at time `now_ns`.
    pub fn elapsed_us(&self, now_ns: u64) -> (us: u128)
        ensures
            us == micros_between(self@, now_ns),
    {
        if now_ns >= self.start_ns {
            ((now_ns - self.start_ns) / 1000) as u128
        } else {
            0
        }
    }

    /// Starts the timer again at `now_ns`.
    pub fn restart(&mut self, now_ns: u64)
        ensures
            final(self)@ == now_ns,
    {
        self.start_ns = now_ns;
    }
}

} // verus!

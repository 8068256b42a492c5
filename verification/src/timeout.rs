//! Wait times and the rule that picks the next poll timeout.

use vstd::prelude::*;

verus! {

/// Nanoseconds in one second.
pub const NANOS_PER_SEC: u32 = 1_000_000_000;

/// A span of time: whole seconds and a sub-second part in nanoseconds.
#[derive(Clone, Copy, Debug, PartialEq, Eq, Structural)]
pub struct Timeout {
    secs: u64,
    nanos: u32,
}

impl View for Timeout {
    type V = nat;

    /// The span in nanoseconds.
    closed spec fn view(&self) -> nat {
        (self.secs as nat) * (NANOS_PER_SEC as nat) + (self.nanos as nat)
    }
}

impl Timeout {
    /// The sub-second part stays below one second.
    #[verifier::type_invariant]
    closed spec fn well_formed(self) -> bool {
        self.nanos < NANOS_PER_SEC
    }

    /// Nanoseconds of a span given as seconds and nanoseconds.
    pub open spec fn total_nanos(secs: u64, nanos: u32) -> nat {
        (secs as nat) * (NANOS_PER_SEC as nat) + (nanos as nat)
    }

    /// The largest number of nanoseconds that a `Timeout` can hold.
    pub open spec fn max_nanos() -> nat {
        Self::total_nanos(u64::MAX, 999_999_999)
    }

    /// The zero span.
    pub closed spec fn spec_zero() -> Timeout {
        Timeout { secs: 0, nanos: 0 }
    }

    /// The zero span lasts no time.
    pub proof fn lemma_zero_is_empty()
        ensures
            Self::spec_zero()@ == 0,
    {
    }

    /// The zero span.
    #[verifier::when_used_as_spec(spec_zero)]
    pub fn zero() -> (t: Timeout)
        ensures
            t == Self::spec_zero(),
            t@ == 0,
    {
        Timeout { secs: 0, nanos: 0 }
    }

    /// Builds a span from seconds and nanoseconds. Nanoseconds of one second
    /// or more carry over into the seconds; the result is `None` exactly when
    /// the total does not fit.
    pub fn new(secs: u64, nanos: u32) -> (t: Option<Timeout>)
        ensures
            match t {
                Some(t) => t@ == Self::total_nanos(secs, nanos),
                None => Self::total_nanos(secs, nanos) > Self::max_nanos(),
            },
    {
        let carry: u32 = nanos / NANOS_PER_SEC;
        let rest: u32 = nanos % NANOS_PER_SEC;
        match secs.checked_add(carry as u64) {
            Some(s) => Some(Timeout { secs: s, nanos: rest }),
            None => None,
        }
    }

    /// Whole seconds of the span.
    pub fn as_secs(&self) -> (s: u64)
        ensures
            s == self@ / (NANOS_PER_SEC as nat),
    {
        proof {
            use_type_invariant(self);
        }
        self.secs
    }

    /// The part of the span below one second, in nanoseconds.
    pub fn subsec_nanos(&self) -> (n: u32)
        ensures
            n == self@ % (NANOS_PER_SEC as nat),
            n < NANOS_PER_SEC,
    {
        proof {
            use_type_invariant(self);
        }
        self.nanos
    }

    /// Whether this span is no longer than `other`.
    pub fn le(&self, other: &Timeout) -> (b: bool)
        ensures
            b == (self@ <= other@),
    {
        proof {
            use_type_invariant(self);
            use_type_invariant(other);
        }
        self.secs < other.secs || (self.secs == other.secs && self.nanos <= other.nanos)
    }

    /// The shorter of two spans; `self` when they are equally long.
    pub fn min(self, other: Timeout) -> (t: Timeout)
        ensures
            t == Self::spec_min(self, other),
    {
        if self.le(&other) {
            self
        } else {
            other
        }
    }

    /// The shorter of two spans; `a` when they are equally long.
    pub open spec fn spec_min(a: Timeout, b: Timeout) -> Timeout {
        if a@ <= b@ {
            a
        } else {
            b
        }
    }
}

/// The rule for the wait before the next poll. With packets queued the wait
/// is zero. Otherwise it is the engine's timeout or the application's,
/// whichever is set, the shorter one when both are, and unbounded (`None`)
/// when neither is.
pub open spec fn timeout_rule(
    pending_sends: bool,
    engine: Option<Timeout>,
    app: Option<Timeout>,
) -> Option<Timeout> {
    if pending_sends {
        Some(Timeout::spec_zero())
    } else {
        match (engine, app) {
            (Some(e), None) => Some(e),
            (None, Some(a)) => Some(a),
            (Some(e), Some(a)) => Some(Timeout::spec_min(e, a)),
            (None, None) => None,
        }
    }
}

/// Computes the wait before the next poll from whether the engine has packets
/// queued, the engine's timeout and the application's timeout.
pub fn next_timeout(pending_sends: bool, engine: Option<Timeout>, app: Option<Timeout>) -> (t:
    Option<Timeout>)
    ensures
        t == timeout_rule(pending_sends, engine, app),
        pending_sends ==> t is Some && t->0@ == 0,
{
    if pending_sends {
        Some(Timeout::zero())
    } else {
        match (engine, app) {
            (Some(e), None) => Some(e),
            (None, Some(a)) => Some(a),
            (Some(e), Some(a)) => Some(e.min(a)),
            (None, None) => None,
        }
    }
}

/// The wait that the rule gives is never longer than a timeout that is set,
/// and it is one of the timeouts that are set unless packets are queued.
pub proof fn lemma_timeout_rule_bounds(
    pending_sends: bool,
    engine: Option<Timeout>,
    app: Option<Timeout>,
)
    ensures
        (pending_sends || engine is Some || app is Some) <==> timeout_rule(
            pending_sends,
            engine,
            app,
        ) is Some,
        engine matches Some(e) ==> timeout_rule(pending_sends, engine, app)->0@ <= e@,
        app matches Some(a) ==> timeout_rule(pending_sends, engine, app)->0@ <= a@,
        !pending_sends && timeout_rule(pending_sends, engine, app) is Some ==> {
            ||| timeout_rule(pending_sends, engine, app) == engine
            ||| timeout_rule(pending_sends, engine, app) == app
        },
{
}

} // verus!

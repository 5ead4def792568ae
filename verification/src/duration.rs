//! A span of time as whole seconds and nanoseconds.
use vstd::prelude::*;

verus! {

pub const NANOS_PER_SEC: u32 = 1_000_000_000;

/// A span of time: `secs` seconds and `nanos` nanoseconds, with
/// `nanos < 1_000_000_000` for every value built by the constructors.
#[derive(Clone, Copy, Debug, PartialEq, Eq, Structural)]
pub struct Duration {
    secs: u64,
    nanos: u32,
}

impl View for Duration {
    /// The length in nanoseconds.
    type V = int;

    closed spec fn view(&self) -> int {
        self.secs as int * NANOS_PER_SEC as int + self.nanos as int
    }
}

impl Duration {
    pub closed spec fn spec_secs(&self) -> u64 {
        self.secs
    }

    pub closed spec fn spec_nanos(&self) -> u32 {
        self.nanos
    }

    /// Well-formed: the nanosecond part is below one second.
    pub closed spec fn wf(&self) -> bool {
        self.nanos < NANOS_PER_SEC
    }

    /// The duration of `secs` whole seconds.
    pub closed spec fn of_secs(secs: u64) -> Duration {
        Duration { secs, nanos: 0 }
    }

    pub proof fn lemma_of_secs(secs: u64)
        ensures
            Duration::of_secs(secs).wf(),
            Duration::of_secs(secs).spec_secs() == secs,
            Duration::of_secs(secs).spec_nanos() == 0,
            Duration::of_secs(secs)@ == secs as int * NANOS_PER_SEC as int,
    {
    }

    pub fn from_secs(secs: u64) -> (r: Duration)
        ensures
            r == Duration::of_secs(secs),
            r.wf(),
            r.spec_secs() == secs,
            r.spec_nanos() == 0,
            r@ == secs as int * NANOS_PER_SEC as int,
    {
        Duration { secs, nanos: 0 }
    }

    pub fn from_millis(millis: u64) -> (r: Duration)
        ensures
            r.wf(),
            r.spec_secs() == millis / 1000,
            r.spec_nanos() == (millis % 1000) * 1_000_000,
            r@ == millis as int * 1_000_000,
    {
        let r = Duration { secs: millis / 1000, nanos: ((millis % 1000) as u32) * 1_000_000 };
        assert(r@ == millis as int * 1_000_000) by (nonlinear_arith)
            requires
                r@ == (millis / 1000) as int * 1_000_000_000 + (millis % 1000) as int * 1_000_000,
        ;
        r
    }

    /// `Duration::new`: the seconds plus the nanoseconds, carrying whole
    /// seconds out of `nanos`.
    pub fn new(secs: u64, nanos: u32) -> (r: Duration)
        requires
            secs as int + nanos as int / NANOS_PER_SEC as int <= u64::MAX,
        ensures
            r.wf(),
            r.spec_secs() == secs + nanos / NANOS_PER_SEC,
            r.spec_nanos() == nanos % NANOS_PER_SEC,
            r@ == secs as int * NANOS_PER_SEC as int + nanos as int,
    {
        let extra = (nanos / NANOS_PER_SEC) as u64;
        let r = Duration { secs: secs + extra, nanos: nanos % NANOS_PER_SEC };
        assert(r@ == secs as int * NANOS_PER_SEC as int + nanos as int) by (nonlinear_arith)
            requires
                r@ == (secs + extra) as int * NANOS_PER_SEC as int + (nanos % NANOS_PER_SEC) as int,
                extra == nanos / NANOS_PER_SEC,
        ;
        r
    }

    pub fn as_secs(&self) -> (r: u64)
        ensures
            r == self.spec_secs(),
    {
        self.secs
    }

    pub fn subsec_nanos(&self) -> (r: u32)
        ensures
            r == self.spec_nanos(),
    {
        self.nanos
    }
}

} // verus!

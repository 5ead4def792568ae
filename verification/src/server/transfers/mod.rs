//! Sending and receiving the files of a transfer: the kinds of entries on
//! the wire, the speed estimate, and the decisions of both ends.
use vstd::prelude::*;
use std::collections::VecDeque;
use crate::server::remote_manager::{RemoteManagerInner, WarpEvent, spec_find_transfer, UpdateError};
use crate::server::remote_worker::{RemoteWorkerError, transfer_changed};
use crate::types::transfer::TransferView;

pub mod receiver;
pub mod sender;

verus! {

/// The kind of entry a file chunk carries.
#[derive(Clone, Copy, Debug, PartialEq, Eq, Structural)]
pub enum FileType {
    File,
    Directory,
    Symlink,
}

/// The number that stands for `t` on the wire.
pub open spec fn file_type_code(t: FileType) -> i32 {
    match t {
        FileType::File => 1,
        FileType::Directory => 2,
        FileType::Symlink => 3,
    }
}

impl FileType {
    /// The kind for a number of the wire: 1, 2 and 3 stand for a file, a
    /// directory and a symbolic link; other numbers for none.
    pub fn try_from_code(value: i32) -> (r: Result<FileType, ()>)
        ensures
            match r {
                Ok(t) => file_type_code(t) == value,
                Err(_) => value < 1 || value > 3,
            },
    {
        match value {
            1 => Ok(FileType::File),
            2 => Ok(FileType::Directory),
            3 => Ok(FileType::Symlink),
            _ => Err(()),
        }
    }

    /// The number of the wire for this kind.
    pub fn code(self) -> (r: i32)
        ensures
            r == file_type_code(self),
    {
        match self {
            FileType::File => 1,
            FileType::Directory => 2,
            FileType::Symlink => 3,
        }
    }
}

/// Reading a number of the wire back gives the kind that wrote it.
pub proof fn law_file_type_code_round_trip(t: FileType, u: FileType)
    ensures
        file_type_code(t) == file_type_code(u) ==> t == u,
        1 <= file_type_code(t) <= 3,
{
}

/// The sum of a sequence of samples.
pub open spec fn sample_sum(s: Seq<u64>) -> int
    decreases s.len(),
{
    if s.len() == 0 {
        0
    } else {
        sample_sum(s.drop_last()) + s.last()
    }
}

/// The average of the samples, rounded down; 0 without samples.
pub open spec fn sample_average(s: Seq<u64>) -> int {
    if s.len() == 0 {
        0
    } else {
        sample_sum(s) / (s.len() as int)
    }
}

proof fn lemma_sum_prefix(s: Seq<u64>, i: int)
    requires
        0 <= i <= s.len(),
    ensures
        0 <= sample_sum(s.subrange(0, i)) <= sample_sum(s),
    decreases s.len(),
{
    if s.len() > 0 {
        if i == s.len() {
            assert(s.subrange(0, i) == s);
            lemma_sum_prefix(s.drop_last(), s.len() - 1);
            assert(s.drop_last().subrange(0, s.len() - 1) == s.drop_last());
        } else {
            lemma_sum_prefix(s.drop_last(), i);
            assert(s.drop_last().subrange(0, i) == s.subrange(0, i));
        }
    }
}

proof fn lemma_sum_drop_first(s: Seq<u64>)
    requires
        s.len() > 0,
    ensures
        sample_sum(s) == s[0] + sample_sum(s.drop_first()),
    decreases s.len(),
{
    if s.len() > 1 {
        lemma_sum_drop_first(s.drop_last());
        assert(s.drop_last().drop_first() == s.drop_first().drop_last());
        assert(s.drop_first().last() == s.last());
        assert(s.drop_last()[0] == s[0]);
        assert(sample_sum(s) == sample_sum(s.drop_last()) + s.last());
        assert(sample_sum(s.drop_first()) == sample_sum(s.drop_first().drop_last()) + s.drop_first().last());
    } else {
        assert(s.drop_first().len() == 0);
        assert(s.drop_last().len() == 0);
        assert(sample_sum(s.drop_first()) == 0);
        assert(sample_sum(s.drop_last()) == 0);
        assert(s.last() == s[0]);
    }
}

/// A moving average of the transfer speed over the last `window` samples.
#[derive(Debug)]
pub struct MovingAverageCalculator {
    samples: VecDeque<u64>,
    window: usize,
}

impl MovingAverageCalculator {
    /// The samples kept, oldest first.
    pub closed spec fn samples(&self) -> Seq<u64> {
        self.samples@
    }

    /// How many samples are kept at most.
    pub closed spec fn window(&self) -> usize {
        self.window
    }

    /// No more samples than the window are kept, and their sum is a `u64`.
    #[verifier::type_invariant]
    spec fn wf(&self) -> bool {
        &&& self.samples@.len() <= self.window
        &&& sample_sum(self.samples@) <= u64::MAX
    }

    /// A calculator without samples that keeps the last `window`.
    pub fn new(window: usize) -> (r: MovingAverageCalculator)
        ensures
            r.samples() == Seq::<u64>::empty(),
            r.window() == window,
    {
        MovingAverageCalculator { samples: VecDeque::with_capacity(window), window }
    }

    /// Whether the samples and one more of `bps` add up to a `u64`.
    pub fn fits_with(&self, bps: u64) -> (r: bool)
        ensures
            r == (sample_sum(self.samples()) + bps <= u64::MAX),
    {
        let mut sum: u64 = 0;
        let mut i: usize = 0;
        let n = self.samples.len();
        while i < n
            invariant
                n == self.samples@.len(),
                i <= n,
                sum == sample_sum(self.samples@.subrange(0, i as int)),
            decreases n - i,
        {
            let x = self.samples[i];
            assert(self.samples@.subrange(0, i + 1).drop_last() == self.samples@.subrange(0, i as int));
            match sum.checked_add(x) {
                Some(t) => sum = t,
                None => {
                    proof {
                        lemma_sum_prefix(self.samples@, i + 1);
                    }
                    return false;
                },
            }
            i = i + 1;
        }
        assert(self.samples@.subrange(0, n as int) == self.samples@);
        sum.checked_add(bps).is_some()
    }

    /// Adds a speed sample (bytes per second) and forgets the oldest when
    /// more than the window are kept. Returns the new average.
    pub fn push_sample(&mut self, bps: u64) -> (r: u64)
        requires
            sample_sum(old(self).samples()) + bps <= u64::MAX,
        ensures
            final(self).window() == old(self).window(),
            final(self).samples() == (if old(self).samples().len() + 1 > old(self).window() {
                old(self).samples().push(bps).drop_first()
            } else {
                old(self).samples().push(bps)
            }),
            r == sample_average(final(self).samples()),
    {
        proof {
            use_type_invariant(&*self);
        }
        let mut samples: VecDeque<u64> = VecDeque::new();
        std::mem::swap(&mut samples, &mut self.samples);
        let ghost before = samples@;
        samples.push_back(bps);
        assert(samples@.drop_last() == before);
        if samples.len() > self.window {
            let ghost pushed = samples@;
            proof {
                lemma_sum_drop_first(pushed);
            }
            let _ = samples.pop_front();
            assert(samples@ == pushed.drop_first());
        }
        self.samples = samples;
        self.current_average()
    }

    /// The average of the samples kept, rounded down; 0 without samples.
    pub fn current_average(&self) -> (r: u64)
        ensures
            r == sample_average(self.samples()),
    {
        proof {
            use_type_invariant(self);
        }
        let n = self.samples.len();
        if n == 0 {
            return 0;
        }
        let mut sum: u64 = 0;
        let mut i: usize = 0;
        while i < n
            invariant
                n == self.samples@.len(),
                i <= n,
                sum == sample_sum(self.samples@.subrange(0, i as int)),
                sample_sum(self.samples@) <= u64::MAX,
            decreases n - i,
        {
            let x = self.samples[i];
            assert(self.samples@.subrange(0, i + 1).drop_last() == self.samples@.subrange(0, i as int));
            proof {
                lemma_sum_prefix(self.samples@, i + 1);
            }
            sum = sum + x;
            i = i + 1;
        }
        assert(self.samples@.subrange(0, n as int) == self.samples@);
        sum / (n as u64)
    }
}

/// The average of samples that all lie between `lo` and `hi` lies between
/// them too.
pub proof fn law_average_is_bounded(s: Seq<u64>, lo: u64, hi: u64)
    requires
        s.len() > 0,
        forall|i: int| 0 <= i < s.len() ==> lo <= #[trigger] s[i] <= hi,
    ensures
        lo <= sample_average(s) <= hi,
{
    lemma_sum_bounds(s, lo, hi);
    let n = s.len() as int;
    let t = sample_sum(s);
    assert(lo * n <= t <= hi * n);
    let l = lo as int;
    let h = hi as int;
    vstd::arithmetic::div_mod::lemma_div_is_ordered(l * n, t, n);
    vstd::arithmetic::div_mod::lemma_div_multiples_vanish(l, n);
    vstd::arithmetic::div_mod::lemma_div_is_ordered(t, h * n, n);
    vstd::arithmetic::div_mod::lemma_div_multiples_vanish(h, n);
    vstd::arithmetic::mul::lemma_mul_is_commutative(l, n);
    vstd::arithmetic::mul::lemma_mul_is_commutative(h, n);
}

proof fn lemma_sum_bounds(s: Seq<u64>, lo: u64, hi: u64)
    requires
        forall|i: int| 0 <= i < s.len() ==> lo <= #[trigger] s[i] <= hi,
    ensures
        lo * s.len() <= sample_sum(s) <= hi * s.len(),
    decreases s.len(),
{
    if s.len() > 0 {
        let d = s.drop_last();
        assert forall|i: int| 0 <= i < d.len() implies lo <= #[trigger] d[i] <= hi by {
            assert(d[i] == s[i]);
        }
        lemma_sum_bounds(d, lo, hi);
        assert(lo <= s[s.len() - 1] <= hi);
        assert(lo * s.len() == lo * d.len() + lo) by (nonlinear_arith)
            requires
                s.len() == d.len() + 1,
        ;
        assert(hi * s.len() == hi * d.len() + hi) by (nonlinear_arith)
            requires
                s.len() == d.len() + 1,
        ;
    }
}

/// `t` after `n` more bytes went through at the speed `bps`.
pub open spec fn spec_progressed(t: TransferView, n: u64, bps: u64) -> TransferView {
    TransferView { bytes_transferred: (t.bytes_transferred + n) as u64, bytes_per_second: bps, ..t }
}

/// Records that `n` more bytes of the transfer went through and that its
/// speed is now `bps`. The count of bytes must not pass `u64::MAX`.
pub fn record_progress(
    store: &mut RemoteManagerInner,
    ruuid: &str,
    tuuid: &str,
    n: u64,
    bps: u64,
    pending_events: usize,
) -> (r: Result<Option<WarpEvent>, RemoteWorkerError>)
    requires
        spec_find_transfer(old(store)@, ruuid@, tuuid@) is Some ==> spec_find_transfer(
            old(store)@,
            ruuid@,
            tuuid@,
        )->0.bytes_transferred + n <= u64::MAX,
    ensures
        transfer_changed(
            old(store)@,
            final(store)@,
            ruuid@,
            tuuid@,
            spec_progressed(spec_find_transfer(old(store)@, ruuid@, tuuid@)->0, n, bps),
            pending_events,
            r,
        ),
{
    let mut t = match store.transfer(ruuid, tuuid) {
        Some(t) => t,
        None => return Err(RemoteWorkerError::UpdateFailed(UpdateError::NotFound)),
    };
    t.bytes_transferred = t.bytes_transferred + n;
    t.bytes_per_second = bps;
    match store.update_transfer(ruuid, tuuid, t, pending_events) {
        Ok(e) => Ok(e),
        Err(e) => Err(RemoteWorkerError::UpdateFailed(e)),
    }
}

} // verus!

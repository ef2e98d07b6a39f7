//! A sampling profiler: a histogram of the program counters seen by the
//! timer interrupt, one bucket per instruction word of the code.
use vstd::prelude::*;

verus! {

/// Where the code starts.
pub const CODE_START: usize = 0x8000;

/// Bytes per instruction.
pub const INSTRUCTION_BYTES: usize = 4;

pub struct Gprof {
    buffer: Vec<u32>,
    pc_start: usize,
}

/// What a profile holds.
pub struct GprofView {
    pub counts: Seq<u32>,
    pub pc_start: usize,
}

impl View for Gprof {
    type V = GprofView;

    closed spec fn view(&self) -> GprofView {
        GprofView { counts: self.buffer@, pc_start: self.pc_start }
    }
}

/// The bucket of a program counter.
pub open spec fn bucket(pc_start: usize, pc: usize) -> int {
    (pc - pc_start) / (INSTRUCTION_BYTES as int)
}

/// The sum of the counts in `s`.
pub open spec fn total(s: Seq<u32>) -> int
    decreases s.len(),
{
    if s.len() == 0 {
        0
    } else {
        total(s.drop_last()) + s.last()
    }
}

impl Gprof {
    /// An empty profile of the code from its start up to `code_end`.
    pub fn gprof_init(code_end: usize) -> (r: Self)
        requires
            code_end >= CODE_START,
        ensures
            r@.pc_start == CODE_START,
            r@.counts == Seq::new(((code_end - CODE_START) / 4) as nat, |i: int| 0u32),
    {
        let n = (code_end - CODE_START) / INSTRUCTION_BYTES;
        let mut buffer: Vec<u32> = Vec::new();
        while buffer.len() < n
            invariant
                buffer.len() <= n,
                forall|i: int| 0 <= i < buffer.len() ==> buffer@[i] == 0,
            decreases n - buffer.len(),
        {
            buffer.push(0);
        }
        let r = Gprof { buffer, pc_start: CODE_START };
        assert(r@.counts =~= Seq::new(((code_end - CODE_START) / 4) as nat, |i: int| 0u32));
        r
    }

    /// Whether `pc` falls in the profiled code.
    pub open spec fn covers(&self, pc: usize) -> bool {
        pc >= self@.pc_start && bucket(self@.pc_start, pc) < self@.counts.len()
    }

    /// Counts one sample at `pc`. The count wraps as a 32-bit counter does.
    pub fn gprof_inc(&mut self, pc: usize)
        requires
            old(self).covers(pc),
        ensures
            final(self)@.pc_start == old(self)@.pc_start,
            final(self)@.counts == old(self)@.counts.update(
                bucket(old(self)@.pc_start, pc),
                old(self)@.counts[bucket(old(self)@.pc_start, pc)].wrapping_add(1),
            ),
    {
        let i = (pc - self.pc_start) / INSTRUCTION_BYTES;
        let c = self.buffer[i];
        self.buffer.set(i, c.wrapping_add(1));
    }

    /// The count of the bucket `i`.
    pub fn count(&self, i: usize) -> (r: u32)
        requires
            i < self@.counts.len(),
        ensures
            r == self@.counts[i as int],
    {
        self.buffer[i]
    }

    /// The number of buckets.
    pub fn len(&self) -> (r: usize)
        ensures
            r == self@.counts.len(),
    {
        self.buffer.len()
    }

    /// The number of samples counted.
    pub fn gprof_total(&self) -> (r: u64)
        requires
            self@.counts.len() <= u32::MAX,
        ensures
            r == total(self@.counts),
    {
        let mut sum: u64 = 0;
        let mut i: usize = 0;
        while i < self.buffer.len()
            invariant
                i <= self.buffer@.len(),
                self.buffer@.len() <= u32::MAX,
                sum == total(self.buffer@.subrange(0, i as int)),
                sum <= i * 0xffff_ffff,
            decreases self.buffer@.len() - i,
        {
            assert(self.buffer@.subrange(0, i + 1).drop_last() =~= self.buffer@.subrange(0, i as int));
            proof {
                assert(sum + self.buffer@[i as int] <= (i + 1) * 0xffff_ffff) by (nonlinear_arith)
                    requires
                        sum <= i * 0xffff_ffff,
                        self.buffer@[i as int] <= 0xffff_ffff,
                ;
                assert((i + 1) * 0xffff_ffff <= 0x1_0000_0000 * 0xffff_ffff) by (nonlinear_arith)
                    requires
                        i + 1 <= 0x1_0000_0000,
                ;
            }
            sum = sum + self.buffer[i] as u64;
            i = i + 1;
        }
        assert(self.buffer@.subrange(0, self.buffer@.len() as int) =~= self.buffer@);
        sum
    }

    /// The first profiled address.
    pub fn pc_start(&self) -> (r: usize)
        ensures
            r == self@.pc_start,
    {
        self.pc_start
    }
}

} // verus!

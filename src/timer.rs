//! The periodic ARM timer as an interrupt source, and the telemetry the IRQ
//! path keeps about it.
//!
//! The device's registers are written by the caller with the values computed
//! here; the microsecond clock is read by the caller and handed in.
use vstd::prelude::*;

verus! {

/// Control register: 32-bit counter.
pub const ARM_TIMER_CTRL_32BIT: u32 = 0x02;

/// Control register: prescale by 1.
pub const ARM_TIMER_CTRL_PRESCALE_1: u32 = 0x00;

/// Control register: prescale by 16.
pub const ARM_TIMER_CTRL_PRESCALE_16: u32 = 0x04;

/// Control register: prescale by 256.
pub const ARM_TIMER_CTRL_PRESCALE_256: u32 = 0x08;

/// Control register: raise an interrupt when the counter reaches zero.
pub const ARM_TIMER_CTRL_INT_ENABLE: u32 = 0x20;

/// Control register: run the timer.
pub const ARM_TIMER_CTRL_ENABLE: u32 = 0x80;

/// The timer's bit in the basic interrupt enable and pending registers.
pub const ARM_TIMER_IRQ: u32 = 0x01;

/// The dividers the timer supports.
pub open spec fn valid_prescale(prescale: u32) -> bool {
    prescale == 1 || prescale == 16 || prescale == 256
}

/// The control register's prescale field for a supported divider.
pub open spec fn prescale_bits(prescale: u32) -> u32 {
    if prescale == 1 {
        0
    } else if prescale == 16 {
        0x04
    } else {
        0x08
    }
}

/// The control register value that runs the timer as a 32-bit counter with
/// its interrupt enabled and the given divider; `None` for an unsupported
/// divider.
pub fn timer_control_word(prescale: u32) -> (r: Option<u32>)
    ensures
        r is Some <==> valid_prescale(prescale),
        r is Some ==> r.unwrap() == 0xa2u32 | prescale_bits(prescale),
{
    let v = if prescale == 1 {
        ARM_TIMER_CTRL_PRESCALE_1
    } else if prescale == 16 {
        ARM_TIMER_CTRL_PRESCALE_16
    } else if prescale == 256 {
        ARM_TIMER_CTRL_PRESCALE_256
    } else {
        return None;
    };
    assert(0x02u32 | 0x80u32 | 0x20u32 | v == 0xa2u32 | v) by (bit_vector);
    Some(ARM_TIMER_CTRL_32BIT | ARM_TIMER_CTRL_ENABLE | ARM_TIMER_CTRL_INT_ENABLE | v)
}

/// The register values that configure the timer.
#[derive(PartialEq, Eq, Structural, Debug, Clone, Copy)]
pub struct TimerRegisters {
    /// Written to the load register: ticks between interrupts.
    pub load: u32,
    /// Written to the control register.
    pub control: u32,
    /// Written to the basic interrupt enable register.
    pub irq_enable_basic: u32,
}

/// What the timer source holds.
pub struct TimerView {
    pub configured: bool,
    pub cnt: u32,
    pub period: u32,
    pub period_sum: u32,
    pub last_clk: Option<u32>,
}

/// The timer's configuration state and interrupt telemetry: the number of
/// timer interrupts, the last period between two of them, the running sum of
/// periods, and the clock reading at the last one.
pub struct TimerSource {
    configured: bool,
    cnt: u32,
    period: u32,
    period_sum: u32,
    last_clk: Option<u32>,
}

impl View for TimerSource {
    type V = TimerView;

    closed spec fn view(&self) -> TimerView {
        TimerView {
            configured: self.configured,
            cnt: self.cnt,
            period: self.period,
            period_sum: self.period_sum,
            last_clk: self.last_clk,
        }
    }
}

/// The telemetry after one timer interrupt seen at clock reading `clk`: the
/// count goes up by one, and the period is the time since the previous
/// interrupt, or zero for the first one after configuration. Counters wrap
/// as the 32-bit hardware clock does.
pub open spec fn after_tick(v: TimerView, clk: u32) -> TimerView {
    let period: u32 = match v.last_clk {
        Some(last) => clk.wrapping_sub(last),
        None => 0,
    };
    TimerView {
        configured: v.configured,
        cnt: v.cnt.wrapping_add(1),
        period,
        period_sum: v.period_sum.wrapping_add(period),
        last_clk: Some(clk),
    }
}

/// The telemetry after timer interrupts seen at the clock readings `clks`,
/// in order.
pub open spec fn after_ticks(v: TimerView, clks: Seq<u32>) -> TimerView
    decreases clks.len(),
{
    if clks.len() == 0 {
        v
    } else {
        after_tick(after_ticks(v, clks.drop_last()), clks.last())
    }
}

/// From a configured timer, which has no earlier reading, `n` timer
/// interrupts add `n` to the count (wrapping at 32 bits); the first reports
/// a period of zero, and each later one the clock difference to the one
/// before it.
pub proof fn lemma_ticks_after_configure(v: TimerView, clks: Seq<u32>)
    requires
        v.last_clk is None,
    ensures
        after_ticks(v, clks).cnt == (v.cnt + clks.len()) % 0x1_0000_0000,
        clks.len() >= 1 ==> after_ticks(v, clks.take(1)).period == 0,
        forall|k: int|
            1 <= k < clks.len() ==> (#[trigger] after_ticks(v, clks.take(k + 1))).period
                == clks[k].wrapping_sub(clks[k - 1]),
    decreases clks.len(),
{
    if clks.len() > 0 {
        let init = clks.drop_last();
        lemma_ticks_after_configure(v, init);
        let c0 = after_ticks(v, init).cnt;
        assert(c0 == (v.cnt + init.len()) % 0x1_0000_0000);
        assert(c0.wrapping_add(1) == (v.cnt + clks.len()) % 0x1_0000_0000) by {
            assert(c0 < 0x1_0000_0000);
        }
        assert(clks.take(1).drop_last() =~= Seq::<u32>::empty());
        assert(after_ticks(v, clks.take(1).drop_last()) == v);
        assert(after_ticks(v, clks.take(1)) == after_tick(v, clks.take(1).last()));
        assert forall|k: int| 1 <= k < clks.len() implies (#[trigger] after_ticks(
            v,
            clks.take(k + 1),
        )).period == clks[k].wrapping_sub(clks[k - 1]) by {
            assert(clks.take(k + 1).drop_last() =~= clks.take(k));
            assert(clks.take(k).drop_last() =~= clks.take(k - 1));
            assert(clks.take(k).last() == clks[k - 1]);
            assert(clks.take(k + 1).last() == clks[k]);
            let before = after_ticks(v, clks.take(k));
            assert(before == after_tick(after_ticks(v, clks.take(k).drop_last()), clks[k - 1]));
            assert(before.last_clk == Some(clks[k - 1]));
            assert(after_ticks(v, clks.take(k + 1)) == after_tick(before, clks[k]));
        }
    }
}

impl TimerSource {
    /// A timer that is not configured, with no interrupt seen.
    pub fn new() -> (r: Self)
        ensures
            r@ == (TimerView { configured: false, cnt: 0, period: 0, period_sum: 0, last_clk: None }),
    {
        TimerSource { configured: false, cnt: 0, period: 0, period_sum: 0, last_clk: None }
    }

    /// Configures the timer to interrupt every `ncycles` ticks of the clock
    /// divided by `prescale`; returns the values to write to its registers.
    /// The next interrupt has no earlier reading to measure a period from.
    pub fn timer_init(&mut self, prescale: u32, ncycles: u32) -> (r: TimerRegisters)
        requires
            valid_prescale(prescale),
        ensures
            r.load == ncycles,
            r.control == 0xa2u32 | prescale_bits(prescale),
            r.irq_enable_basic == ARM_TIMER_IRQ,
            final(self)@ == (TimerView { configured: true, last_clk: None, ..old(self)@ }),
    {
        let control = match timer_control_word(prescale) {
            Some(c) => c,
            None => 0,
        };
        self.configured = true;
        self.last_clk = None;
        TimerRegisters { load: ncycles, control, irq_enable_basic: ARM_TIMER_IRQ }
    }

    /// Whether the timer has been configured.
    pub fn timer_initialized(&self) -> (r: bool)
        ensures
            r == self@.configured,
    {
        self.configured
    }

    /// The number of timer interrupts seen.
    pub fn get_cnt(&self) -> (r: u32)
        ensures
            r == self@.cnt,
    {
        self.cnt
    }

    /// The time between the last two timer interrupts; zero after the first.
    pub fn get_period(&self) -> (r: u32)
        ensures
            r == self@.period,
    {
        self.period
    }

    /// The sum of all periods measured.
    pub fn get_period_sum(&self) -> (r: u32)
        ensures
            r == self@.period_sum,
    {
        self.period_sum
    }

    /// The IRQ path's timer step. When the pending bit is the timer's and no
    /// registered handler claimed the interrupt, the telemetry takes the tick
    /// seen at clock reading `clk`; otherwise nothing changes. Returns whether
    /// the timer's pending flag must be cleared.
    pub fn record_interrupt(&mut self, timer_pending: bool, claimed: bool, clk: u32) -> (clear: bool)
        ensures
            clear == (timer_pending && !claimed),
            clear ==> final(self)@ == after_tick(old(self)@, clk),
            !clear ==> final(self)@ == old(self)@,
    {
        if !timer_pending || claimed {
            return false;
        }
        self.cnt = self.cnt.wrapping_add(1);
        let period = match self.last_clk {
            Some(last) => clk.wrapping_sub(last),
            None => 0,
        };
        self.period = period;
        self.period_sum = self.period_sum.wrapping_add(period);
        self.last_clk = Some(clk);
        true
    }
}

/// Whether a wait of `us` microseconds begun at clock reading `start` is over
/// at clock reading `now`, across a wrap of the 32-bit clock.
pub fn delay_us(start: u32, now: u32, us: u32) -> (r: bool)
    ensures
        r == (now.wrapping_sub(start) >= us),
{
    now.wrapping_sub(start) >= us
}

/// The number of microseconds in `ms` milliseconds.
pub fn delay_ms(ms: u32) -> (r: u32)
    requires
        ms * 1000 <= u32::MAX,
    ensures
        r == ms * 1000,
{
    ms * 1000
}

} // verus!

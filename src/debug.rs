//! The debug hardware: the watchpoint and breakpoint control registers.
use vstd::prelude::*;

use crate::bits::{bit, field, get_bit, get_field, low_mask, set_bit, set_field, with_bit, with_field};
use crate::coprocessor::{DSCR_HALTING_DEBUG_MODE, DSCR_INTERRUPTS_DISABLED, DSCR_MONITOR_DEBUG_MODE};

verus! {

/// Watchpoint control: bit that enables the watchpoint.
pub const WCR_ENABLED: u32 = 0;

/// Watchpoint control: the two-bit field that selects loads (2) and stores (1).
pub const WCR_LOAD_STORES: u32 = 3;

/// Breakpoint control: bit that makes the breakpoint fire on a mismatch.
pub const BCR_MISMATCHING: u32 = 22;

/// Breakpoint control: bit that enables the breakpoint.
pub const BCR_ENABLED: u32 = 0;

/// Whether the watchpoint is on, and for which accesses.
#[derive(PartialEq, Eq, Structural, Debug, Clone, Copy)]
pub enum WatchpointStatus {
    Enabled { load: bool, store: bool },
    Disabled,
}

/// The status a watchpoint control register encodes.
pub open spec fn watchpoint_status_of(wcr: u32) -> WatchpointStatus {
    if bit(wcr, 0) {
        WatchpointStatus::Enabled {
            load: field(wcr, 3, 2) >= 2,
            store: field(wcr, 3, 2) & 1 == 1,
        }
    } else {
        WatchpointStatus::Disabled
    }
}

/// The load/store field of the watchpoint control register.
pub open spec fn load_stores_bits(load: bool, store: bool) -> u32 {
    if load && store {
        3
    } else if load {
        2
    } else if store {
        1
    } else {
        0
    }
}

/// The watchpoint control register with `status` written into it.
pub open spec fn with_watchpoint_status(wcr: u32, status: WatchpointStatus) -> u32 {
    match status {
        WatchpointStatus::Enabled { load, store } => with_bit(
            with_field(wcr, 3, 2, load_stores_bits(load, store)),
            0,
            true,
        ),
        WatchpointStatus::Disabled => with_bit(wcr, 0, false),
    }
}

/// The watchpoint status that the control register value `wcr` encodes.
pub fn get_watchpoint_status(wcr: u32) -> (r: WatchpointStatus)
    ensures
        r == watchpoint_status_of(wcr),
{
    if get_bit(wcr, WCR_ENABLED) {
        let v = get_field(wcr, WCR_LOAD_STORES, 2);
        WatchpointStatus::Enabled { load: v >= 2, store: (v & 1) == 1 }
    } else {
        WatchpointStatus::Disabled
    }
}

/// The control register value `wcr` with `status` written into it.
pub fn set_watchpoint_status(wcr: u32, status: WatchpointStatus) -> (r: u32)
    ensures
        r == with_watchpoint_status(wcr, status),
{
    match status {
        WatchpointStatus::Enabled { load, store } => {
            let v: u32 = (if load { 2 } else { 0 }) + (if store { 1 } else { 0 });
            let w = set_field(wcr, WCR_LOAD_STORES, 2, v);
            set_bit(w, WCR_ENABLED, true)
        },
        WatchpointStatus::Disabled => set_bit(wcr, WCR_ENABLED, false),
    }
}

/// Whether the breakpoint is on, and whether it fires on a match or on a
/// mismatch of the address.
#[derive(PartialEq, Eq, Structural, Debug, Clone, Copy)]
pub enum BreakpointStatus {
    Disabled,
    Enabled { matching: bool },
}

/// The status a breakpoint control register encodes.
pub open spec fn breakpoint_status_of(bcr: u32) -> BreakpointStatus {
    if bit(bcr, 0) {
        BreakpointStatus::Enabled { matching: !bit(bcr, 22) }
    } else {
        BreakpointStatus::Disabled
    }
}

/// The breakpoint control register with `status` written into it.
pub open spec fn with_breakpoint_status(bcr: u32, status: BreakpointStatus) -> u32 {
    match status {
        BreakpointStatus::Enabled { matching } => with_bit(with_bit(bcr, 22, !matching), 0, true),
        BreakpointStatus::Disabled => with_bit(bcr, 0, false),
    }
}

/// The breakpoint status that the control register value `bcr` encodes.
pub fn get_breakpoint_status(bcr: u32) -> (r: BreakpointStatus)
    ensures
        r == breakpoint_status_of(bcr),
{
    if get_bit(bcr, BCR_ENABLED) {
        BreakpointStatus::Enabled { matching: !get_bit(bcr, BCR_MISMATCHING) }
    } else {
        BreakpointStatus::Disabled
    }
}

/// The control register value `bcr` with `status` written into it.
pub fn set_breakpoint_status(bcr: u32, status: BreakpointStatus) -> (r: u32)
    ensures
        r == with_breakpoint_status(bcr, status),
{
    match status {
        BreakpointStatus::Enabled { matching } => {
            let b = set_bit(bcr, BCR_MISMATCHING, !matching);
            set_bit(b, BCR_ENABLED, true)
        },
        BreakpointStatus::Disabled => set_bit(bcr, BCR_ENABLED, false),
    }
}

/// A data abort while the watchpoint is on is the watchpoint firing: the
/// watchpoint is switched off and execution goes on. Returns the control
/// register value to write. Any other data abort is fatal to the caller.
pub fn data_abort_vector(wcr: u32) -> (r: u32)
    requires
        bit(wcr, 0),
    ensures
        r == with_bit(wcr, 0, false),
{
    set_watchpoint_status(wcr, WatchpointStatus::Disabled)
}

/// The debug register values that set the debug hardware up.
#[derive(PartialEq, Eq, Structural, Debug, Clone, Copy)]
pub struct DebugSetup {
    /// Debug status and control: monitor mode on, halting mode off,
    /// interrupts disabled while debugging.
    pub dscr: u32,
    /// Watchpoint value: address zero.
    pub wvr: u32,
    /// Watchpoint control: every byte, loads and stores, any mode; not yet on.
    pub wcr: u32,
    /// Breakpoint control: every byte, any mode, no linking, no context
    /// id, fires on a match; not yet on.
    pub bcr: u32,
    /// Breakpoint value: address zero.
    pub bvr: u32,
}

/// Computes the debug register values from the current debug status and
/// control register, with both value registers zeroed.
pub fn setup(dscr: u32) -> (r: DebugSetup)
    ensures
        r.dscr == with_bit(with_bit(with_bit(dscr, 15, true), 14, false), 11, true),
        r.wcr == 0x1fe,
        r.bcr == 0x1e6,
        r.wvr == 0,
        r.bvr == 0,
{
    let d = set_bit(dscr, DSCR_MONITOR_DEBUG_MODE, true);
    let d = set_bit(d, DSCR_HALTING_DEBUG_MODE, false);
    let d = set_bit(d, DSCR_INTERRUPTS_DISABLED, true);
    // Byte address select 0b1111, loads and stores 0b11, access condition 0b11.
    let w: u32 = (0b1111 << 5) | (0b11 << 3) | (0b11 << 1);
    // Byte address select 0b1111, access condition 0b11; linking, context id,
    // mismatch and the secure-state match field stay zero.
    let b: u32 = (0b1111 << 5) | (0b11 << 1);
    assert(w == 0x1fe && b == 0x1e6) by (bit_vector)
        requires
            w == (15u32 << 5u32) | (3u32 << 3u32) | (3u32 << 1u32),
            b == (15u32 << 5u32) | (3u32 << 1u32),
    ;
    DebugSetup { dscr: d, wvr: 0, wcr: w, bcr: b, bvr: 0 }
}

/// Writing a watchpoint status into the control register and reading it
/// back gives the same status.
pub proof fn lemma_watchpoint_status_round_trip(wcr: u32, status: WatchpointStatus)
    ensures
        watchpoint_status_of(with_watchpoint_status(wcr, status)) == status,
{
    assert(((1u32 << 1u32) - 1) as u32 == 1 && ((1u32 << 2u32) - 1) as u32 == 3) by (bit_vector);
    assert(low_mask(1) == 1 && low_mask(2) == 3);
    match status {
        WatchpointStatus::Enabled { load, store } => {
            let ls = load_stores_bits(load, store);
            let w1 = with_field(wcr, 3, 2, ls);
            let r = with_bit(w1, 0, true);
            assert(((r >> 0u32) & 1) == 1 && ((r >> 3u32) & 3) == ls) by (bit_vector)
                requires
                    ls < 4,
                    w1 == (wcr & !(3u32 << 3u32)) | ((ls & 3) << 3u32),
                    r == (w1 & !(1u32 << 0u32)) | ((1u32 & 1) << 0u32),
            ;
            assert(3u32 & 1 == 1 && 2u32 & 1 == 0 && 1u32 & 1 == 1 && 0u32 & 1 == 0) by (bit_vector);
        },
        WatchpointStatus::Disabled => {
            let r = with_bit(wcr, 0, false);
            assert(((r >> 0u32) & 1) == 0) by (bit_vector)
                requires
                    r == (wcr & !(1u32 << 0u32)) | ((0u32 & 1) << 0u32),
            ;
        },
    }
}

/// Writing a breakpoint status into the control register and reading it
/// back gives the same status.
pub proof fn lemma_breakpoint_status_round_trip(bcr: u32, status: BreakpointStatus)
    ensures
        breakpoint_status_of(with_breakpoint_status(bcr, status)) == status,
{
    assert(((1u32 << 1u32) - 1) as u32 == 1) by (bit_vector);
    assert(low_mask(1) == 1);
    match status {
        BreakpointStatus::Enabled { matching } => {
            let m: u32 = if !matching { 1 } else { 0 };
            let b1 = with_bit(bcr, 22, !matching);
            let r = with_bit(b1, 0, true);
            assert(((r >> 0u32) & 1) == 1 && ((r >> 22u32) & 1) == m) by (bit_vector)
                requires
                    m < 2,
                    b1 == (bcr & !(1u32 << 22u32)) | ((m & 1) << 22u32),
                    r == (b1 & !(1u32 << 0u32)) | ((1u32 & 1) << 0u32),
            ;
        },
        BreakpointStatus::Disabled => {
            let r = with_bit(bcr, 0, false);
            assert(((r >> 0u32) & 1) == 0) by (bit_vector)
                requires
                    r == (bcr & !(1u32 << 0u32)) | ((0u32 & 1) << 0u32),
            ;
        },
    }
}

} // verus!

//! Words on the UART, and the bit timing of the software UART.
use vstd::prelude::*;

use crate::gpio::{fsel_update, FselUpdate, Pin, PinFsel, RegisterWrite, GPSET0, PIN_COUNT};

verus! {

/// The clock the mini UART runs from.
pub const ASSUMED_CLOCK_RATE: u32 = 250_000_000;

/// The mini UART's baud rate.
pub const DESIRED_BAUD_RATE: u32 = 921_600;

/// The mini UART's baud register for a clock rate and a baud rate: the clock
/// divided by eight times the baud rate, less one; `None` when no divisor
/// reaches that baud rate.
pub fn baud_register(clock: u32, baud: u32) -> (r: Option<u32>)
    ensures
        baud == 0 || clock / 8 / baud == 0 ==> r is None,
        baud != 0 && clock / 8 / baud != 0 ==> r == Some((clock / 8 / baud - 1) as u32),
{
    if baud == 0 {
        return None;
    }
    let d = clock / 8 / baud;
    if d == 0 {
        None
    } else {
        Some(d - 1)
    }
}

/// The mini UART's claim on its two pins, which carry its transmit and
/// receive lines in alternate function 5.
pub struct UartWriter {
    p14: Pin,
    p15: Pin,
}

impl UartWriter {
    pub closed spec fn pins(&self) -> (Pin, Pin) {
        (self.p14, self.p15)
    }
}

/// Puts pins 14 and 15 into alternate function 5 for the mini UART; returns
/// the writer that holds them and the function select updates to apply
/// before the UART is enabled.
pub fn setup_uart(p14: Pin, p15: Pin) -> (r: (UartWriter, FselUpdate, FselUpdate))
    requires
        p14.index_spec() == 14,
        p15.index_spec() == 15,
    ensures
        r.0.pins().0.index_spec() == 14 && r.0.pins().0.fsel_spec() == PinFsel::Alt5,
        r.0.pins().1.index_spec() == 15 && r.0.pins().1.fsel_spec() == PinFsel::Alt5,
        r.1 == fsel_update(14, PinFsel::Alt5),
        r.2 == fsel_update(15, PinFsel::Alt5),
{
    let (p14, u14) = p14.into_alt5();
    let (p15, u15) = p15.into_alt5();
    (UartWriter { p14, p15 }, u14, u15)
}

/// The little-endian word of four bytes.
pub open spec fn le_word(b0: u8, b1: u8, b2: u8, b3: u8) -> u32 {
    (b0 as u32) | ((b1 as u32) << 8u32) | ((b2 as u32) << 16u32) | ((b3 as u32) << 24u32)
}

/// The word the host sent, little-endian, from the bytes that arrived before
/// the deadline: the first four, or an error when fewer came.
pub fn read_uart_u32_timeout(received: &Vec<u8>) -> (r: Result<u32, ()>)
    ensures
        received@.len() < 4 ==> r is Err,
        received@.len() >= 4 ==> r == Ok::<u32, ()>(
            le_word(received@[0], received@[1], received@[2], received@[3]),
        ),
{
    if received.len() < 4 {
        return Err(());
    }
    let mut v: u32 = 0;
    let mut i: usize = 0;
    while i < 4
        invariant
            i <= 4,
            received@.len() >= 4,
            i == 0 ==> v == 0,
            i == 1 ==> v == (received@[0] as u32) << 24u32,
            i == 2 ==> v == ((received@[0] as u32) << 16u32) | ((received@[1] as u32) << 24u32),
            i == 3 ==> v == ((received@[0] as u32) << 8u32) | ((received@[1] as u32) << 16u32) | ((
            received@[2] as u32) << 24u32),
            i == 4 ==> v == le_word(received@[0], received@[1], received@[2], received@[3]),
        decreases 4 - i,
    {
        let b = received[i] as u32;
        let ghost v0 = v;
        v = (v >> 8) | (b << 24);
        proof {
            let b0 = received@[0] as u32;
            let b1 = received@[1] as u32;
            let b2 = received@[2] as u32;
            if i == 0 {
                assert(v == b << 24u32) by (bit_vector)
                    requires
                        v0 == 0,
                        v == (v0 >> 8u32) | (b << 24u32),
                ;
            } else if i == 1 {
                assert(v == (b0 << 16u32) | (b << 24u32)) by (bit_vector)
                    requires
                        b0 < 256,
                        v0 == b0 << 24u32,
                        v == (v0 >> 8u32) | (b << 24u32),
                ;
            } else if i == 2 {
                assert(v == (b0 << 8u32) | (b1 << 16u32) | (b << 24u32)) by (bit_vector)
                    requires
                        b0 < 256,
                        b1 < 256,
                        v0 == (b0 << 16u32) | (b1 << 24u32),
                        v == (v0 >> 8u32) | (b << 24u32),
                ;
            } else {
                assert(v == b0 | (b1 << 8u32) | (b2 << 16u32) | (b << 24u32)) by (bit_vector)
                    requires
                        b0 < 256,
                        b1 < 256,
                        b2 < 256,
                        v0 == (b0 << 8u32) | (b1 << 16u32) | (b2 << 24u32),
                        v == (v0 >> 8u32) | (b << 24u32),
                ;
            }
        }
        i = i + 1;
    }
    Ok(v)
}

/// The bytes of `v`, least significant first.
pub open spec fn le_bytes(v: u32) -> Seq<u8> {
    seq![(v & 0xff) as u8, ((v >> 8u32) & 0xff) as u8, ((v >> 16u32) & 0xff) as u8, ((v >> 24u32) & 0xff) as u8]
}

/// The bytes that send `v`, least significant first.
pub fn write_uart_u32(v: u32) -> (r: Vec<u8>)
    ensures
        r@ == le_bytes(v),
{
    let mut r: Vec<u8> = Vec::new();
    r.push((v & 0xff) as u8);
    r.push(((v >> 8) & 0xff) as u8);
    r.push(((v >> 16) & 0xff) as u8);
    r.push(((v >> 24) & 0xff) as u8);
    assert(r@ =~= le_bytes(v));
    r
}

/// A word sent as `write_uart_u32` lays it out is the word
/// `read_uart_u32_timeout` reads back.
pub proof fn lemma_uart_word_round_trip(v: u32)
    ensures
        le_word(le_bytes(v)[0], le_bytes(v)[1], le_bytes(v)[2], le_bytes(v)[3]) == v,
{
    let b = le_bytes(v);
    assert((v & 0xff) < 256 && ((v >> 8u32) & 0xff) < 256 && ((v >> 16u32) & 0xff) < 256 && ((v
        >> 24u32) & 0xff) < 256) by (bit_vector);
    assert(b[0] as u32 == v & 0xff);
    assert(b[1] as u32 == (v >> 8u32) & 0xff);
    assert(b[2] as u32 == (v >> 16u32) & 0xff);
    assert(b[3] as u32 == (v >> 24u32) & 0xff);
    assert((v & 0xff) | (((v >> 8u32) & 0xff) << 8u32) | (((v >> 16u32) & 0xff) << 16u32) | (((v
        >> 24u32) & 0xff) << 24u32) == v) by (bit_vector);
}

/// Processor cycles per bit of the software UART: a 700 MHz clock at
/// 115200 baud.
pub const CYCLES_PER_BIT: u32 = 6076;

/// The line level of bit `k` of the frame that carries `byte`: a low start
/// bit, the eight data bits least significant first, a high stop bit.
pub open spec fn frame_level(byte: u8, k: int) -> bool {
    if k == 0 {
        false
    } else if k <= 8 {
        (byte >> ((k - 1) as u8)) & 1 == 1
    } else {
        true
    }
}

/// One change of the line: drive `level`, then hold it until the cycle
/// counter reaches `deadline`.
#[derive(PartialEq, Eq, Structural, Debug, Clone, Copy)]
pub struct LineStep {
    pub level: bool,
    pub deadline: u32,
}

/// A UART driven in software on an output pin.
pub struct SWUart {
    pin: Pin,
}

impl SWUart {
    pub closed spec fn pin_spec(&self) -> Pin {
        self.pin
    }

    /// Makes `pin` the UART's output; returns the function select update and
    /// the write that drives the idle-high line, which the caller applies and
    /// then lets settle.
    pub fn setup_output(pin: Pin) -> (r: (Self, FselUpdate, RegisterWrite))
        requires
            pin.index_spec() < PIN_COUNT,
        ensures
            r.0.pin_spec().index_spec() == pin.index_spec(),
            r.0.pin_spec().fsel_spec() == PinFsel::Output,
            r.1 == fsel_update(pin.index_spec(), PinFsel::Output),
            r.2.address == GPSET0 + 4 * (pin.index_spec() / 32),
            r.2.value == 1u32 << ((pin.index_spec() % 32) as u32),
    {
        let (pin, u) = pin.into_output();
        let w = pin.write(true);
        (SWUart { pin }, u, w)
    }

    /// The line steps that send `bytes`, ten bits a byte, starting at cycle
    /// `start`; each bit lasts `CYCLES_PER_BIT` cycles, and the counter wraps.
    pub fn write(&self, bytes: &Vec<u8>, start: u32) -> (r: Vec<LineStep>)
        requires
            bytes@.len() * 10 <= usize::MAX,
        ensures
            r@.len() == 10 * bytes@.len(),
            forall|n: int|
                0 <= n < r@.len() ==> (#[trigger] r@[n]).level == frame_level(bytes@[n / 10], n % 10)
                    && r@[n].deadline == ((start + (n + 1) * CYCLES_PER_BIT) % 0x1_0000_0000) as u32,
    {
        let mut r: Vec<LineStep> = Vec::new();
        let mut desired = start;
        let mut j: usize = 0;
        while j < bytes.len()
            invariant
                j <= bytes@.len(),
                bytes@.len() * 10 <= usize::MAX,
                r@.len() == 10 * j,
                desired == ((start + r@.len() * CYCLES_PER_BIT) % 0x1_0000_0000) as u32,
                forall|n: int|
                    0 <= n < r@.len() ==> (#[trigger] r@[n]).level == frame_level(bytes@[n / 10], n % 10)
                        && r@[n].deadline == ((start + (n + 1) * CYCLES_PER_BIT) % 0x1_0000_0000) as u32,
            decreases bytes@.len() - j,
        {
            let byte = bytes[j];
            let mut k: usize = 0;
            while k < 10
                invariant
                    k <= 10,
                    j < bytes@.len(),
                    byte == bytes@[j as int],
                    r@.len() == 10 * j + k,
                    desired == ((start + r@.len() * CYCLES_PER_BIT) % 0x1_0000_0000) as u32,
                    forall|n: int|
                        0 <= n < r@.len() ==> (#[trigger] r@[n]).level == frame_level(bytes@[n / 10], n % 10)
                            && r@[n].deadline == ((start + (n + 1) * CYCLES_PER_BIT) % 0x1_0000_0000) as u32,
                decreases 10 - k,
            {
                let level = if k == 0 {
                    false
                } else if k <= 8 {
                    (byte >> ((k - 1) as u8)) & 1 == 1
                } else {
                    true
                };
                let ghost len0 = r@.len();
                proof {
                    assert(((start + len0 * CYCLES_PER_BIT) % 0x1_0000_0000 + CYCLES_PER_BIT) % 0x1_0000_0000
                        == (start + (len0 + 1) * CYCLES_PER_BIT) % 0x1_0000_0000) by (nonlinear_arith);
                }
                desired = desired.wrapping_add(CYCLES_PER_BIT);
                r.push(LineStep { level, deadline: desired });
                proof {
                    let n = len0 as int;
                    assert(n / 10 == j as int && n % 10 == k as int) by (nonlinear_arith)
                        requires
                            n == 10 * j + k,
                            k < 10,
                    ;
                }
                k = k + 1;
            }
            j = j + 1;
        }
        r
    }

    /// Gives the output pin back.
    pub fn consume(self) -> (r: Pin)
        ensures
            r == self.pin_spec(),
    {
        self.pin
    }
}

} // verus!

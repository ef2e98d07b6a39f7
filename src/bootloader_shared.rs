//! Words of the protocol between the bootloader and the host that sends it
//! a program.
use vstd::prelude::*;

verus! {

pub const PI_ERROR: u32 = 0x00001111;

pub const PI_GET_PROG_INFO: u32 = 0xEEEEFFFF;

pub const PI_GET_CODE: u32 = 0x11112222;

pub const PI_SUCCESS: u32 = 0x22223333;

pub const INSTALLER_PROG_INFO: u32 = 0xBEEFDEAD;

pub const INSTALLER_CODE: u32 = 0x33334444;

pub const INSTALLER_SUCCESS: u32 = 0x44445555;

/// Where the program is loaded.
pub const BASE: u32 = 0x8000;

/// Whether a byte can be part of the program-info request word.
pub fn is_pi_get_prog_info_byte(b: u8) -> (r: bool)
    ensures
        r == (b == 0xEE || b == 0xFF),
{
    b == 0xEE || b == 0xFF
}

} // verus!

//! Pinned TLB entries: the lockdown register values that map one 1 MB
//! section, and the checks around them.
use vstd::prelude::*;

use crate::bits::{bit, get_bit, set_bit, set_field, with_bit, with_field};
use crate::coprocessor::{CP15CR_MMU_ENABLED, CP15CR_XP_DISABLED};

verus! {

/// Bytes in a megabyte.
pub const MEGABYTE: usize = 0x100000;

/// Lockdown entries the TLB has.
pub const LOCKDOWN_ENTRIES: u32 = 8;

/// The domain the kernel's mappings use.
pub const KERNEL_DOMAIN: u8 = 1;

/// The section that is mapped and unmapped to provoke faults.
pub const SEG_ILLEGAL_SECTION: u32 = 0x0a700000;

/// `v` megabytes in bytes.
pub fn to_megabyte(v: usize) -> (r: usize)
    requires
        v * MEGABYTE <= usize::MAX,
    ensures
        r == v * MEGABYTE,
{
    v * MEGABYTE
}

/// Whether the MMU is on, given the system control register.
pub fn is_enabled(cp15: u32) -> (r: bool)
    ensures
        r == bit(cp15, 0),
{
    get_bit(cp15, CP15CR_MMU_ENABLED)
}

/// The system control register value that prepares the MMU: subpage access
/// permission bits disabled.
pub fn init(cp15: u32) -> (r: u32)
    ensures
        r == with_bit(cp15, 23, true),
{
    set_bit(cp15, CP15CR_XP_DISABLED, true)
}

/// The system control register value that switches the MMU on; it must be
/// off.
pub fn enable(cp15: u32) -> (r: u32)
    requires
        !bit(cp15, 0),
    ensures
        r == with_bit(cp15, 0, true),
{
    set_bit(cp15, CP15CR_MMU_ENABLED, true)
}

/// The system control register value that switches the MMU off; it must be
/// on.
pub fn disable(cp15: u32) -> (r: u32)
    requires
        bit(cp15, 0),
    ensures
        r == with_bit(cp15, 0, false),
{
    set_bit(cp15, CP15CR_MMU_ENABLED, false)
}

/// Memory type and cacheability (TEX, C, B and S bits).
#[derive(PartialEq, Eq, Structural, Debug, Clone, Copy)]
pub enum TexCBS {
    StronglyOrdered,
    Uncached,
    WriteBackNoAlloc,
    WriteThroughNoAlloc,
}

pub open spec fn tex_cbs_bits(t: TexCBS) -> u32 {
    match t {
        TexCBS::StronglyOrdered => 0b00000,
        TexCBS::Uncached => 0b00100,
        TexCBS::WriteBackNoAlloc => 0b00011,
        TexCBS::WriteThroughNoAlloc => 0b00010,
    }
}

/// The memory type that an attributes field encodes, if any.
pub fn tex_cbs_from_bits(v: u32) -> (r: Option<TexCBS>)
    ensures
        r is Some ==> tex_cbs_bits(r.unwrap()) == v,
        r is None ==> v != 0 && v != 4 && v != 3 && v != 2,
{
    match v {
        0b00000 => Some(TexCBS::StronglyOrdered),
        0b00100 => Some(TexCBS::Uncached),
        0b00011 => Some(TexCBS::WriteBackNoAlloc),
        0b00010 => Some(TexCBS::WriteThroughNoAlloc),
        _ => None,
    }
}

/// Access permissions, the extension bit with the two permission bits.
#[derive(PartialEq, Eq, Structural, Debug, Clone, Copy)]
pub enum ApxAP {
    /// Every access faults.
    NoAccess,
    /// User accesses fault; the supervisor reads and writes.
    NoAccessUser,
    /// User writes fault; the supervisor reads and writes.
    ReadOnlyUser,
    /// User and supervisor read and write.
    ReadWriteUser,
    /// User accesses fault; the supervisor reads.
    ReadOnlyPrivate,
    /// User and supervisor read.
    ReadOnly,
}

pub open spec fn apx_ap_bits(p: ApxAP) -> u32 {
    match p {
        ApxAP::NoAccess => 0b000,
        ApxAP::NoAccessUser => 0b001,
        ApxAP::ReadOnlyUser => 0b010,
        ApxAP::ReadWriteUser => 0b011,
        ApxAP::ReadOnlyPrivate => 0b101,
        ApxAP::ReadOnly => 0b110,
    }
}

/// The size of the page an entry maps.
#[derive(PartialEq, Eq, Structural, Debug, Clone, Copy)]
pub enum PageSize {
    Mb16,
    Kb4,
    Kb64,
    Mb1,
}

pub open spec fn page_size_bits(s: PageSize) -> u32 {
    match s {
        PageSize::Mb16 => 0b00,
        PageSize::Kb4 => 0b01,
        PageSize::Kb64 => 0b10,
        PageSize::Mb1 => 0b11,
    }
}

/// The attributes a pinned entry gets.
#[derive(PartialEq, Eq, Structural, Debug, Clone, Copy)]
pub struct PinAttributes {
    pub global: bool,
    pub asid: u8,
    pub domain_id: u8,
    pub page_size: PageSize,
    pub tex_c_b_s: TexCBS,
    pub memory_permissions: ApxAP,
}

/// Device memory for the kernel: no user access, strongly ordered.
pub open spec fn device_memory() -> PinAttributes {
    PinAttributes {
        global: true,
        asid: 0,
        domain_id: KERNEL_DOMAIN,
        page_size: PageSize::Mb1,
        tex_c_b_s: TexCBS::StronglyOrdered,
        memory_permissions: ApxAP::NoAccessUser,
    }
}

/// The three lockdown register values of one pinned entry.
#[derive(PartialEq, Eq, Structural, Debug, Clone, Copy)]
pub struct LockdownEntry {
    pub index: u32,
    pub va: u32,
    pub attributes: u32,
    pub pa: u32,
}

/// The lockdown registers that map the section at `va` to `pa`: the virtual
/// address with its ASID and global bit; the domain and memory type, with
/// subpages off and execute-never clear; the physical address with its size,
/// permission bits, and the valid bit.
pub open spec fn lockdown_entry(idx: u32, va: u32, pa: u32, a: PinAttributes) -> LockdownEntry {
    LockdownEntry {
        index: idx,
        va: with_bit(with_field(va, 0, 8, a.asid as u32), 9, a.global),
        attributes: with_field(
            with_field(with_bit(0, 25, false), 7, 4, a.domain_id as u32),
            0,
            6,
            tex_cbs_bits(a.tex_c_b_s),
        ),
        pa: with_bit(
            with_field(with_field(pa, 6, 2, page_size_bits(a.page_size)), 1, 2, apx_ap_bits(a.memory_permissions)),
            0,
            true,
        ),
    }
}

/// Why a section could not be pinned.
#[derive(PartialEq, Eq, Structural, Debug, Clone, Copy)]
pub enum PinError {
    /// The TLB has no lockdown entry with this index.
    IndexTooLarge,
    /// The virtual address is not on a 1 MB boundary.
    UnalignedVa,
    /// The physical address is not on a 1 MB boundary.
    UnalignedPa,
    /// There are 16 domains.
    DomainTooLarge,
    /// A global mapping belongs to no address space.
    GlobalWithAsid,
}

/// The error, if any, that pinning the section gives, in the order the
/// checks are made.
pub open spec fn pin_error(idx: u32, va: u32, pa: u32, a: PinAttributes) -> Option<PinError> {
    if idx >= LOCKDOWN_ENTRIES {
        Some(PinError::IndexTooLarge)
    } else if va & 0xfffff != 0 {
        Some(PinError::UnalignedVa)
    } else if pa & 0xfffff != 0 {
        Some(PinError::UnalignedPa)
    } else if a.domain_id >= 16 {
        Some(PinError::DomainTooLarge)
    } else if a.global && a.asid != 0 {
        Some(PinError::GlobalWithAsid)
    } else {
        None
    }
}

/// The lockdown register values that pin the 1 MB section at `va` to `pa`
/// in entry `idx`.
pub fn pin_mmu_sec(idx: u32, va: u32, pa: u32, attributes: PinAttributes) -> (r: Result<
    LockdownEntry,
    PinError,
>)
    ensures
        pin_error(idx, va, pa, attributes) is None ==> r == Ok::<LockdownEntry, PinError>(
            lockdown_entry(idx, va, pa, attributes),
        ),
        pin_error(idx, va, pa, attributes) is Some ==> r == Err::<LockdownEntry, PinError>(
            pin_error(idx, va, pa, attributes).unwrap(),
        ),
{
    if idx >= LOCKDOWN_ENTRIES {
        return Err(PinError::IndexTooLarge);
    }
    if va & 0xfffff != 0 {
        return Err(PinError::UnalignedVa);
    }
    if pa & 0xfffff != 0 {
        return Err(PinError::UnalignedPa);
    }
    if attributes.domain_id >= 16 {
        return Err(PinError::DomainTooLarge);
    }
    if attributes.global && attributes.asid != 0 {
        return Err(PinError::GlobalWithAsid);
    }
    let va_reg = set_field(va, 0, 8, attributes.asid as u32);
    let va_reg = set_bit(va_reg, 9, attributes.global);
    let tex: u32 = match attributes.tex_c_b_s {
        TexCBS::StronglyOrdered => 0b00000,
        TexCBS::Uncached => 0b00100,
        TexCBS::WriteBackNoAlloc => 0b00011,
        TexCBS::WriteThroughNoAlloc => 0b00010,
    };
    let att = set_bit(0, 25, false);
    let att = set_field(att, 7, 4, attributes.domain_id as u32);
    let att = set_field(att, 0, 6, tex);
    let size: u32 = match attributes.page_size {
        PageSize::Mb16 => 0b00,
        PageSize::Kb4 => 0b01,
        PageSize::Kb64 => 0b10,
        PageSize::Mb1 => 0b11,
    };
    let ap: u32 = match attributes.memory_permissions {
        ApxAP::NoAccess => 0b000,
        ApxAP::NoAccessUser => 0b001,
        ApxAP::ReadOnlyUser => 0b010,
        ApxAP::ReadWriteUser => 0b011,
        ApxAP::ReadOnlyPrivate => 0b101,
        ApxAP::ReadOnly => 0b110,
    };
    let pa_reg = set_field(pa, 6, 2, size);
    let pa_reg = set_field(pa_reg, 1, 2, ap);
    let pa_reg = set_bit(pa_reg, 0, true);
    Ok(LockdownEntry { index: idx, va: va_reg, attributes: att, pa: pa_reg })
}

/// The entry that maps the fault-provoking section, identity mapped as
/// device memory in the last lockdown entry.
pub fn allow_segment_illegal_access() -> (r: LockdownEntry)
    ensures
        r == lockdown_entry(7, SEG_ILLEGAL_SECTION, SEG_ILLEGAL_SECTION, device_memory()),
{
    let device_memory = PinAttributes {
        global: true,
        asid: 0,
        domain_id: KERNEL_DOMAIN,
        page_size: PageSize::Mb1,
        tex_c_b_s: TexCBS::StronglyOrdered,
        memory_permissions: ApxAP::NoAccessUser,
    };
    assert(SEG_ILLEGAL_SECTION & 0xfffff == 0) by (bit_vector);
    match pin_mmu_sec(7, SEG_ILLEGAL_SECTION, SEG_ILLEGAL_SECTION, device_memory) {
        Ok(e) => e,
        Err(_) => LockdownEntry { index: 7, va: 0, attributes: 0, pa: 0 },
    }
}

/// The physical address register of the last lockdown entry with its valid
/// bit cleared, which unmaps the fault-provoking section.
pub fn disallow_segment_illegal_access(pa_reg: u32) -> (r: u32)
    ensures
        r == with_bit(pa_reg, 0, false),
{
    set_bit(pa_reg, 0, false)
}

/// The outcome of a manual address translation: the translated address, or
/// the fault status when bit 0 reports a failed lookup.
pub fn tlb_contains_va(result: u32) -> (r: Result<u32, u32>)
    ensures
        result & 1 == 1 ==> r == Err::<u32, u32>(result),
        result & 1 != 1 ==> r == Ok::<u32, u32>(result),
{
    if result & 1 == 1 {
        Err(result)
    } else {
        Ok(result)
    }
}

/// The context id register value for process `pid` in address space `asid`.
pub fn set_ctx(pid: u32, asid: u32) -> (r: u32)
    requires
        1 <= asid < 64,
    ensures
        r == (pid << 8u32) | asid,
{
    (pid << 8) | asid
}

} // verus!

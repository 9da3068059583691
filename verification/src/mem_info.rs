//! Whole-megabyte memory statistics derived from one raw system-information
//! reading. The reading itself comes from the kernel through the surrounding
//! daemon; the unit conversion and the integer percentages are computed and
//! proved here. The block is diagnostic only: the selector never consults it.

use vstd::prelude::*;

verus! {

/// Divisor taking a byte count to whole megabytes.
pub const B_TO_MB: u64 = 1000 * 1000;

/// System memory statistics in whole megabytes, plus integer
/// percentage-available figures, for the diagnostic log block.
#[derive(Clone, Copy, Debug, Default, PartialEq, Eq, Structural)]
pub struct MemoryInfo {
    pub total_ram_mb: u64,
    pub total_swap_mb: u64,
    pub available_ram_mb: u64,
    pub available_swap_mb: u64,
    pub available_ram_percent: u8,
    pub available_swap_percent: u8,
}

/// A raw byte count, expressed in kernel memory units of `unit` bytes,
/// taken to whole megabytes; an (astronomical) product past the word size
/// saturates instead of wrapping.
pub open spec fn spec_megabytes(amount: u64, unit: u32) -> u64 {
    let mb = (amount as int / B_TO_MB as int) * (unit as int);
    if mb > u64::MAX as int {
        u64::MAX
    } else {
        mb as u64
    }
}

/// The integer percentage `avail * 100 / total`, truncated; `0` when the
/// total is zero (a machine without swap), and saturated at the top of the
/// byte range as the original float-to-byte cast would be.
pub open spec fn spec_percent(avail: u64, total: u64) -> u8 {
    if total == 0 {
        0
    } else {
        let p = (avail as int * 100) / (total as int);
        if p > 255 {
            255
        } else {
            p as u8
        }
    }
}

fn megabytes(amount: u64, unit: u32) -> (mb: u64)
    ensures
        mb == spec_megabytes(amount, unit),
{
    let scaled: u64 = amount / B_TO_MB;
    assert((scaled as u128) * (unit as u128) <= (u64::MAX as u128) * (u32::MAX as u128))
        by (nonlinear_arith)
        requires
            scaled <= u64::MAX,
            unit <= u32::MAX,
    ;
    let wide: u128 = (scaled as u128) * (unit as u128);
    if wide > u64::MAX as u128 {
        u64::MAX
    } else {
        wide as u64
    }
}

fn percent(avail: u64, total: u64) -> (p: u8)
    ensures
        p == spec_percent(avail, total),
{
    if total == 0 {
        0
    } else {
        let wide: u128 = (avail as u128) * 100 / (total as u128);
        if wide > 255 {
            255
        } else {
            wide as u8
        }
    }
}

impl MemoryInfo {
    /// Builds the diagnostic block from one raw system-information reading:
    /// the four amounts are in kernel memory units of `mem_unit` bytes each,
    /// exactly as the kernel reports them.
    pub fn new(totalram: u64, freeram: u64, totalswap: u64, freeswap: u64, mem_unit: u32) -> (m:
        MemoryInfo)
        ensures
            m.total_ram_mb == spec_megabytes(totalram, mem_unit),
            m.available_ram_mb == spec_megabytes(freeram, mem_unit),
            m.total_swap_mb == spec_megabytes(totalswap, mem_unit),
            m.available_swap_mb == spec_megabytes(freeswap, mem_unit),
            m.available_ram_percent == spec_percent(m.available_ram_mb, m.total_ram_mb),
            m.available_swap_percent == spec_percent(m.available_swap_mb, m.total_swap_mb),
    {
        let total_ram_mb = megabytes(totalram, mem_unit);
        let available_ram_mb = megabytes(freeram, mem_unit);
        let total_swap_mb = megabytes(totalswap, mem_unit);
        let available_swap_mb = megabytes(freeswap, mem_unit);

        let available_ram_percent = percent(available_ram_mb, total_ram_mb);
        let available_swap_percent = percent(available_swap_mb, total_swap_mb);

        MemoryInfo {
            total_ram_mb,
            total_swap_mb,
            available_ram_mb,
            available_swap_mb,
            available_ram_percent,
            available_swap_percent,
        }
    }
}

} // verus!

//! Exact unit conversions for the metric values a frame displays.
//!
//! Byte counts are scaled to tenths or hundredths of a GiB or MiB, and
//! used/total pairs to tenths of a percent, by exact integer division; the
//! fixed-point results feed the formatting functions directly.

use vstd::prelude::*;

verus! {

/// Bytes per GiB.
pub const GIB: u64 = 0x4000_0000;

/// Bytes per MiB.
pub const MIB: u64 = 0x10_0000;

/// `used / total` as a percentage in tenths, rounded down; zero total counts
/// as zero percent.
pub open spec fn spec_percent_tenths(used: nat, total: nat) -> nat {
    if total == 0 {
        0
    } else {
        used * 1000 / total
    }
}

/// The percentage `used / total` in tenths. A zero total — swap on hosts
/// without swap — yields exactly zero, never a division by zero.
pub fn percent_tenths(used: u64, total: u64) -> (r: u128)
    ensures
        r == spec_percent_tenths(used as nat, total as nat),
        total == 0 ==> r == 0,
{
    if total == 0 {
        0
    } else {
        (used as u128 * 1000) / (total as u128)
    }
}

/// Hundredths of a GiB: the exact division `bytes * 100 / 1024^3`.
pub open spec fn spec_gib_hundredths(bytes: nat) -> nat {
    bytes * 100 / (GIB as nat)
}

/// Tenths of a GiB: the exact division `bytes * 10 / 1024^3`.
pub open spec fn spec_gib_tenths(bytes: nat) -> nat {
    bytes * 10 / (GIB as nat)
}

/// Hundredths of a MiB: the exact division `bytes * 100 / 1024^2`.
pub open spec fn spec_mib_hundredths(bytes: nat) -> nat {
    bytes * 100 / (MIB as nat)
}

/// Tenths of a MiB: the exact division `bytes * 10 / 1024^2`.
pub open spec fn spec_mib_tenths(bytes: nat) -> nat {
    bytes * 10 / (MIB as nat)
}

/// Converts a byte count to hundredths of a GiB.
pub fn gib_hundredths(bytes: u64) -> (r: u128)
    ensures
        r == spec_gib_hundredths(bytes as nat),
{
    bytes as u128 * 100 / (GIB as u128)
}

/// Converts a byte count to tenths of a GiB.
pub fn gib_tenths(bytes: u64) -> (r: u128)
    ensures
        r == spec_gib_tenths(bytes as nat),
{
    bytes as u128 * 10 / (GIB as u128)
}

/// Converts a byte count to hundredths of a MiB.
pub fn mib_hundredths(bytes: u64) -> (r: u128)
    ensures
        r == spec_mib_hundredths(bytes as nat),
{
    bytes as u128 * 100 / (MIB as u128)
}

/// Converts a byte count to tenths of a MiB.
pub fn mib_tenths(bytes: u64) -> (r: u128)
    ensures
        r == spec_mib_tenths(bytes as nat),
{
    bytes as u128 * 10 / (MIB as u128)
}

/// The used amount of a disk, `total - available`, clamped to zero when the
/// source reports more available than total.
pub open spec fn spec_disk_used(total: nat, available: nat) -> nat {
    if available <= total {
        (total - available) as nat
    } else {
        0
    }
}

/// Used bytes of one disk; never underflows, whatever the source reports.
pub fn disk_used(total: u64, available: u64) -> (r: u64)
    ensures
        r == spec_disk_used(total as nat, available as nat),
{
    if available <= total {
        total - available
    } else {
        0
    }
}

} // verus!

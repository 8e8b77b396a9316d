//! Decoding of AArch64 hardware feature reports.
//!
//! Reference: ID_AA64PFR0_EL1, AArch64 Processor Feature Register 0.
//!
//! Reading the register takes a privileged instruction and lives with the
//! platform code; decoding the value it reports is pure and lives here.

use vstd::prelude::*;

verus! {

/// Extracts a 4-bit field from a register value.
pub fn field(reg: u64, shift: u32) -> (r: u64)
    requires
        shift < 64,
    ensures
        r == (reg >> shift) & 0xf,
{
    (reg >> shift) & 0xF
}

/// Returns `true` if the Realm Management Extension (RME) is implemented,
/// according to the given `ID_AA64PFR0_EL1` value.
pub fn has_rme(pfr0: u64) -> (r: bool)
    ensures
        r == ((pfr0 >> 52) & 0xf != 0),
{
    field(pfr0, 52) != 0
}

/// The description that [`el_description`] returns for each field value.
pub open spec fn spec_el_description(val: u64) -> Seq<char> {
    if val == 0b0000 {
        "none"@
    } else if val == 0b0001 {
        "AArch64"@
    } else if val == 0b0010 {
        "AArch64+AArch32"@
    } else {
        "unknown"@
    }
}

/// Describes the support level of an exception level field.
pub fn el_description(val: u64) -> (r: &'static str)
    ensures
        r@ == spec_el_description(val),
{
    match val {
        0b0000 => "none",
        0b0001 => "AArch64",
        0b0010 => "AArch64+AArch32",
        _ => "unknown",
    }
}

/// The description that [`fp_description`] returns for each field value.
pub open spec fn spec_fp_description(val: u64) -> Seq<char> {
    if val == 0b0000 {
        "yes"@
    } else if val == 0b0001 {
        "yes (FP16)"@
    } else if val == 0b1111 {
        "no"@
    } else {
        "unknown"@
    }
}

/// Describes a floating-point or AdvSIMD support field.
pub fn fp_description(val: u64) -> (r: &'static str)
    ensures
        r@ == spec_fp_description(val),
{
    match val {
        0b0000 => "yes",
        0b0001 => "yes (FP16)",
        0b1111 => "no",
        _ => "unknown",
    }
}

/// The description that [`gic_description`] returns for each field value.
pub open spec fn spec_gic_description(val: u64) -> Seq<char> {
    if val == 0b0000 {
        "none"@
    } else if val == 0b0001 {
        "v3.0/v4.0"@
    } else if val == 0b0011 {
        "v4.1"@
    } else {
        "unknown"@
    }
}

/// Describes the GIC system register interface field.
pub fn gic_description(val: u64) -> (r: &'static str)
    ensures
        r@ == spec_gic_description(val),
{
    match val {
        0b0000 => "none",
        0b0001 => "v3.0/v4.0",
        0b0011 => "v4.1",
        _ => "unknown",
    }
}

/// The description that [`ras_description`] returns for each field value.
pub open spec fn spec_ras_description(val: u64) -> Seq<char> {
    if val == 0b0000 {
        "none"@
    } else if val == 0b0001 {
        "v1"@
    } else if val == 0b0010 {
        "v1.1"@
    } else if val == 0b0011 {
        "v2"@
    } else {
        "unknown"@
    }
}

/// Describes the RAS extension field.
pub fn ras_description(val: u64) -> (r: &'static str)
    ensures
        r@ == spec_ras_description(val),
{
    match val {
        0b0000 => "none",
        0b0001 => "v1",
        0b0010 => "v1.1",
        0b0011 => "v2",
        _ => "unknown",
    }
}

/// The description that [`amu_description`] returns for each field value.
pub open spec fn spec_amu_description(val: u64) -> Seq<char> {
    if val == 0b0000 {
        "none"@
    } else if val == 0b0001 {
        "v1"@
    } else if val == 0b0010 {
        "v1.1"@
    } else {
        "unknown"@
    }
}

/// Describes the Activity Monitors extension field.
pub fn amu_description(val: u64) -> (r: &'static str)
    ensures
        r@ == spec_amu_description(val),
{
    match val {
        0b0000 => "none",
        0b0001 => "v1",
        0b0010 => "v1.1",
        _ => "unknown",
    }
}

/// The description that [`rme_description`] returns for each field value.
pub open spec fn spec_rme_description(val: u64) -> Seq<char> {
    if val == 0b0000 {
        "none"@
    } else if val == 0b0001 {
        "v1"@
    } else if val == 0b0010 {
        "v1 + GPC2"@
    } else if val == 0b0011 {
        "v1 + GPC2 + GPC3"@
    } else {
        "unknown"@
    }
}

/// Describes the Realm Management Extension field.
pub fn rme_description(val: u64) -> (r: &'static str)
    ensures
        r@ == spec_rme_description(val),
{
    match val {
        0b0000 => "none",
        0b0001 => "v1",
        0b0010 => "v1 + GPC2",
        0b0011 => "v1 + GPC2 + GPC3",
        _ => "unknown",
    }
}

/// The description that [`csv2_description`] returns for each field value.
pub open spec fn spec_csv2_description(val: u64) -> Seq<char> {
    if val == 0b0000 {
        "none"@
    } else if val == 0b0001 {
        "v1"@
    } else if val == 0b0010 {
        "v2"@
    } else if val == 0b0011 {
        "v3"@
    } else {
        "unknown"@
    }
}

/// Describes the speculative use of out-of-context branch targets (CSV2) field.
pub fn csv2_description(val: u64) -> (r: &'static str)
    ensures
        r@ == spec_csv2_description(val),
{
    match val {
        0b0000 => "none",
        0b0001 => "v1",
        0b0010 => "v2",
        0b0011 => "v3",
        _ => "unknown",
    }
}

/// Describes a field that only reports presence or absence of a feature.
pub fn presence_description(val: u64) -> (r: &'static str)
    ensures
        val != 0 ==> r@ == "yes"@,
        val == 0 ==> r@ == "no"@,
{
    if val != 0 {
        "yes"
    } else {
        "no"
    }
}

} // verus!

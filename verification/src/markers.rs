//! The resolution capability each device variant carries.

use vstd::prelude::*;
use crate::conversion::is_resolution_mask;
use crate::ic;

verus! {

/// Capability of a device variant: the fixed mask selecting which bits of
/// the temperature register's fractional byte the variant's ADC produces.
/// Each variant maps to exactly one mask, decided by the variant type at
/// construction and never mixed at runtime.
pub trait ResolutionSupport: Sized {
    /// The variant's resolution mask.
    spec fn spec_resolution_mask() -> u8;

    /// Every variant's mask is one of the recognised resolution masks.
    proof fn resolution_mask_valid()
        ensures
            is_resolution_mask(Self::spec_resolution_mask()),
    ;

    /// Report the variant's resolution mask.
    fn get_resolution_mask() -> (mask: u8)
        ensures
            mask == Self::spec_resolution_mask(),
    ;
}

impl ResolutionSupport for ic::Lm75 {
    /// One significant fractional bit: 0.5 °C steps.
    open spec fn spec_resolution_mask() -> u8 {
        0x80
    }

    proof fn resolution_mask_valid() {
    }

    fn get_resolution_mask() -> u8 {
        0x80
    }
}

impl ResolutionSupport for ic::Pct2075 {
    /// Three significant fractional bits: 0.125 °C steps.
    open spec fn spec_resolution_mask() -> u8 {
        0xE0
    }

    proof fn resolution_mask_valid() {
    }

    fn get_resolution_mask() -> u8 {
        0xE0
    }
}

} // verus!

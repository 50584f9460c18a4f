//! Version numbers and small arithmetic helpers of the eMMC host.
use vstd::prelude::*;

verus! {

/// Marker bit of an MMC (as opposed to SD) version number.
pub const MMC_VERSION_MMC: u32 = 0x4000_0000;
/// Unknown MMC version.
pub const MMC_VERSION_UNKNOWN: u32 = 0x4000_0000;
/// MMC 1.2.
pub const MMC_VERSION_1_2: u32 = 0x4001_0200;
/// MMC 1.4.
pub const MMC_VERSION_1_4: u32 = 0x4001_0400;
/// MMC 2.2.
pub const MMC_VERSION_2_2: u32 = 0x4002_0200;
/// MMC 3.
pub const MMC_VERSION_3: u32 = 0x4003_0000;
/// MMC 4.
pub const MMC_VERSION_4: u32 = 0x4004_0000;
/// MMC 4.1.
pub const MMC_VERSION_4_1: u32 = 0x4004_0100;
/// MMC 4.2.
pub const MMC_VERSION_4_2: u32 = 0x4004_0200;
/// MMC 4.3.
pub const MMC_VERSION_4_3: u32 = 0x4004_0300;
/// MMC 4.41.
pub const MMC_VERSION_4_41: u32 = 0x4004_0401;
/// MMC 4.5.
pub const MMC_VERSION_4_5: u32 = 0x4004_0500;
/// MMC 5.0.
pub const MMC_VERSION_5_0: u32 = 0x4005_0000;
/// MMC 5.1.
pub const MMC_VERSION_5_1: u32 = 0x4005_0100;

/// DLL status bit: the DLL is locked.
pub const DWCMSHC_EMMC_DLL_LOCKED: u32 = 0x100;
/// DLL status bit: locking timed out.
pub const DWCMSHC_EMMC_DLL_TIMEOUT: u32 = 0x200;

/// An SD version number `a.b.c`.
pub open spec fn spec_sdmmc_version(a: u32, b: u32, c: u32) -> u32 {
    (a << 16u32) | (b << 8u32) | c
}

/// An MMC version number `a.b.c`: the SD number with the MMC marker bit.
pub open spec fn spec_mmc_version(a: u32, b: u32, c: u32) -> u32 {
    MMC_VERSION_MMC | spec_sdmmc_version(a, b, c)
}

/// Encode an SD version number.
pub fn make_sdmmc_version(a: u32, b: u32, c: u32) -> (v: u32)
    ensures
        v == spec_sdmmc_version(a, b, c),
{
    (a << 16u32) | (b << 8u32) | c
}

/// Encode an MMC version number.
pub fn make_mmc_version(a: u32, b: u32, c: u32) -> (v: u32)
    ensures
        v == spec_mmc_version(a, b, c),
{
    MMC_VERSION_MMC | make_sdmmc_version(a, b, c)
}

/// The version constants are the encodings of their names.
pub proof fn law_mmc_version_constants()
    ensures
        MMC_VERSION_UNKNOWN == spec_mmc_version(0, 0, 0),
        MMC_VERSION_1_2 == spec_mmc_version(1, 2, 0),
        MMC_VERSION_4_41 == spec_mmc_version(4, 4, 1),
        MMC_VERSION_5_1 == spec_mmc_version(5, 1, 0),
{
    assert(0x4000_0000u32 == 0x4000_0000u32 | ((0u32 << 16u32) | (0u32 << 8u32) | 0u32)
        && 0x4001_0200u32 == 0x4000_0000u32 | ((1u32 << 16u32) | (2u32 << 8u32) | 0u32)
        && 0x4004_0401u32 == 0x4000_0000u32 | ((4u32 << 16u32) | (4u32 << 8u32) | 1u32)
        && 0x4005_0100u32 == 0x4000_0000u32 | ((5u32 << 16u32) | (1u32 << 8u32) | 0u32)) by (bit_vector);
}

/// The DLL locked without timing out.
pub fn dll_lock_wo_tmout(x: u32) -> (b: bool)
    ensures
        b == ((x & DWCMSHC_EMMC_DLL_LOCKED) == DWCMSHC_EMMC_DLL_LOCKED && (x & DWCMSHC_EMMC_DLL_TIMEOUT) == 0),
{
    ((x & DWCMSHC_EMMC_DLL_LOCKED) == DWCMSHC_EMMC_DLL_LOCKED) && ((x & DWCMSHC_EMMC_DLL_TIMEOUT) == 0)
}

/// Divide `n` by `base` in place; returns the remainder.
fn do_div(n: &mut u64, base: u32) -> (rem: u32)
    requires
        base > 0,
    ensures
        *final(n) == *old(n) / (base as u64),
        rem == *old(n) % (base as u64),
{
    let remainder = (*n % base as u64) as u32;
    *n = *n / base as u64;
    remainder
}

/// 64-by-32-bit division, rounding down.
pub fn lldiv(dividend: u64, divisor: u32) -> (q: u64)
    requires
        divisor > 0,
    ensures
        q == dividend / (divisor as u64),
{
    let mut result = dividend;
    let _ = do_div(&mut result, divisor);
    result
}

/// `v` holds the `r` low bits of non-zero `x` moved to the top of the
/// word, and `x` has no bit at `r` or above.
pub open spec fn fls_inv(x: u32, v: u32, r: u32) -> bool {
    &&& x != 0
    &&& 1 <= r <= 32
    &&& v == x << ((32 - r) as u32)
    &&& (r == 32 || x >> r == 0)
}

/// Position of the highest set bit, counting from one; zero for zero.
pub fn generic_fls(x: u32) -> (r: u32)
    ensures
        x == 0 ==> r == 0,
        x != 0 ==> 1 <= r <= 32 && x >> ((r - 1) as u32) == 1,
{
    let mut r: u32 = 32;
    let mut val = x;
    if val == 0 {
        return 0;
    }
    assert(fls_inv(x, val, r)) by (bit_vector)
        requires
            x != 0 && val == x && r == 32,
    ;
    if (val & 0xffff0000) == 0 {
        assert(fls_inv(x, val << 16u32, (r - 16) as u32) && val << 16u32 & 0xffff0000 != 0) by (bit_vector)
            requires
                fls_inv(x, val, r) && val != 0 && val & 0xffff0000 == 0 && r == 32,
        ;
        val = val << 16u32;
        r = r - 16;
    }
    assert(r == 32 || r == 16);
    assert(val & 0xffff0000 != 0);
    if (val & 0xff000000) == 0 {
        assert(fls_inv(x, val << 8u32, (r - 8) as u32) && val << 8u32 & 0xff000000 != 0) by (bit_vector)
            requires
                fls_inv(x, val, r) && val & 0xffff0000 != 0 && val & 0xff000000 == 0 && (r == 32 || r == 16),
        ;
        val = val << 8u32;
        r = r - 8;
    }
    assert(val & 0xff000000 != 0);
    assert(r == 32 || r == 24 || r == 16 || r == 8);
    if (val & 0xf0000000) == 0 {
        assert(fls_inv(x, val << 4u32, (r - 4) as u32) && val << 4u32 & 0xf0000000 != 0) by (bit_vector)
            requires
                fls_inv(x, val, r) && val & 0xff000000 != 0 && val & 0xf0000000 == 0 && r >= 8,
        ;
        val = val << 4u32;
        r = r - 4;
    }
    assert(val & 0xf0000000 != 0);
    assert(r >= 4);
    if (val & 0xc0000000) == 0 {
        assert(fls_inv(x, val << 2u32, (r - 2) as u32) && val << 2u32 & 0xc0000000 != 0) by (bit_vector)
            requires
                fls_inv(x, val, r) && val & 0xf0000000 != 0 && val & 0xc0000000 == 0 && r >= 4,
        ;
        val = val << 2u32;
        r = r - 2;
    }
    assert(val & 0xc0000000 != 0);
    assert(r >= 2);
    if (val & 0x80000000) == 0 {
        assert(fls_inv(x, val, r) && val & 0x80000000 == 0 && val & 0xc0000000 != 0 && r >= 2 ==> x >> ((r - 2) as u32) == 1) by (bit_vector);
        r = r - 1;
    } else {
        assert(fls_inv(x, val, r) && val & 0x80000000 != 0 ==> x >> ((r - 1) as u32) == 1) by (bit_vector);
    }
    r
}

} // verus!

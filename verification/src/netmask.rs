use vstd::prelude::*;
use crate::errors::ConfigError;

verus! {

/// The octet value whose topmost `bits` bits are 1 and whose remaining
/// bits are 0 (`bits` clamped to 0..=8).
pub open spec fn spec_mask_octet(bits: int) -> u8 {
    if bits <= 0 {
        0
    } else if bits == 1 {
        128
    } else if bits == 2 {
        192
    } else if bits == 3 {
        224
    } else if bits == 4 {
        240
    } else if bits == 5 {
        248
    } else if bits == 6 {
        252
    } else if bits == 7 {
        254
    } else {
        255
    }
}

/// How many of octet `i`'s 8 bits (octets counted from the address's
/// top) fall inside a prefix of `prefix` bits.
pub open spec fn spec_octet_bits(prefix: int, i: int) -> int {
    if prefix - 8 * i < 0 {
        0
    } else if prefix - 8 * i > 8 {
        8
    } else {
        prefix - 8 * i
    }
}

/// The dotted-quad subnet mask of a CIDR prefix length: each octet's
/// bits inside the prefix are 1, the bits beyond it 0.
pub open spec fn spec_prefix_mask(prefix: int) -> (u8, u8, u8, u8) {
    (
        spec_mask_octet(spec_octet_bits(prefix, 0)),
        spec_mask_octet(spec_octet_bits(prefix, 1)),
        spec_mask_octet(spec_octet_bits(prefix, 2)),
        spec_mask_octet(spec_octet_bits(prefix, 3)),
    )
}

/// One octet of the mask, from the number of its bits that lie inside
/// the prefix.
fn mask_octet(bits: u8) -> (r: u8)
    requires
        bits <= 8,
    ensures
        r == spec_mask_octet(bits as int),
{
    if bits == 0 {
        0
    } else if bits == 1 {
        128
    } else if bits == 2 {
        192
    } else if bits == 3 {
        224
    } else if bits == 4 {
        240
    } else if bits == 5 {
        248
    } else if bits == 6 {
        252
    } else if bits == 7 {
        254
    } else {
        255
    }
}

/// Derives the dotted-quad subnet mask from a CIDR prefix length.
/// Succeeds exactly on prefixes 0..=32; a longer prefix is a
/// configuration error.
pub fn prefix_to_mask(prefix: u8) -> (r: Result<(u8, u8, u8, u8), ConfigError>)
    ensures
        prefix <= 32 ==> r == Ok::<(u8, u8, u8, u8), ConfigError>(spec_prefix_mask(prefix as int)),
        prefix > 32 ==> (r matches Err(e) && e matches ConfigError::PrefixOutOfRange(p) && p
            == prefix),
{
    if prefix > 32 {
        return Err(ConfigError::PrefixOutOfRange(prefix));
    }
    let b0: u8 = if prefix > 8 {
        8
    } else {
        prefix
    };
    let b1: u8 = if prefix <= 8 {
        0
    } else if prefix > 16 {
        8
    } else {
        prefix - 8
    };
    let b2: u8 = if prefix <= 16 {
        0
    } else if prefix > 24 {
        8
    } else {
        prefix - 16
    };
    let b3: u8 = if prefix <= 24 {
        0
    } else {
        prefix - 24
    };
    Ok((mask_octet(b0), mask_octet(b1), mask_octet(b2), mask_octet(b3)))
}

} // verus!

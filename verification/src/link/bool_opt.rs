//! The packed bridge boolean options.
//!
//! The bridge attribute `IFLA_BR_MULTI_BOOLOPT` carries a
//! `struct br_boolopt_multi { __u32 optval; __u32 optmask; }` packed into a
//! `u64`: the option values in the low 32 bits, the mask of options that the
//! message sets in the high 32 bits.

use vstd::prelude::*;

verus! {

/// The packed options with option `bit` marked as set and given `value`.
pub open spec fn with_bool_opt(opt: u64, bit: u8, value: bool) -> u64 {
    let flag: u64 = 1u64 << bit;
    let marked: u64 = opt | (flag << 32u64);
    if value {
        marked | flag
    } else {
        marked & !flag
    }
}

/// The value that the packed options give option `bit`.
pub open spec fn bool_opt_value(opt: u64, bit: u8) -> bool {
    (opt >> bit) & 1u64 == 1u64
}

/// Whether the packed options mark option `bit` as set by the message.
pub open spec fn bool_opt_marked(opt: u64, bit: u8) -> bool {
    (opt >> (bit + 32u8)) & 1u64 == 1u64
}

/// Sets option `bit` of the packed options to `value` and marks it in the
/// mask, leaving every other option as it was.
pub fn update_bool_opt(opt: u64, bit: u8, value: bool) -> (res: u64)
    requires
        bit < 32,
    ensures
        res == with_bool_opt(opt, bit, value),
{
    let mut optval: u32 = opt as u32;
    let mut optmask: u32 = (opt >> 32u64) as u32;
    optmask = optmask | (1u32 << bit);
    if value {
        optval = optval | (1u32 << bit);
    } else {
        optval = optval & !(1u32 << bit);
    }
    let res: u64 = (optval as u64) | ((optmask as u64) << 32u64);
    assert(res == with_bool_opt(opt, bit, value)) by (bit_vector)
        requires
            bit < 32,
            optval == (if value { (opt as u32) | (1u32 << bit) } else { (opt as u32) & !(1u32 << bit) }),
            optmask == ((opt >> 32u64) as u32) | (1u32 << bit),
            res == (optval as u64) | ((optmask as u64) << 32u64),
    ;
    res
}

/// Setting an option and reading it back gives the value that was set, and
/// the option is marked in the mask.
pub proof fn lemma_bool_opt_read_back(opt: u64, bit: u8, value: bool)
    requires
        bit < 32,
    ensures
        bool_opt_value(with_bool_opt(opt, bit, value), bit) == value,
        bool_opt_marked(with_bool_opt(opt, bit, value), bit),
{
    let r: u64 = with_bool_opt(opt, bit, value);
    assert(((r >> bit) & 1u64 == 1u64) == value && (r >> (bit + 32u8)) & 1u64 == 1u64)
        by (bit_vector)
        requires
            bit < 32,
            r == (if value { (opt | ((1u64 << bit) << 32u64)) | (1u64 << bit) } else { (opt | ((
                1u64 << bit) << 32u64)) & !(1u64 << bit) }),
    ;
}

/// Setting one option leaves the value and the mark of every other option as
/// they were.
pub proof fn lemma_bool_opt_frame(opt: u64, bit: u8, value: bool, other: u8)
    requires
        bit < 32,
        other < 32,
        other != bit,
    ensures
        bool_opt_value(with_bool_opt(opt, bit, value), other) == bool_opt_value(opt, other),
        bool_opt_marked(with_bool_opt(opt, bit, value), other) == bool_opt_marked(opt, other),
{
    let r: u64 = with_bool_opt(opt, bit, value);
    assert(((r >> other) & 1u64 == 1u64) == ((opt >> other) & 1u64 == 1u64) && ((r >> (other
        + 32u8)) & 1u64 == 1u64) == ((opt >> (other + 32u8)) & 1u64 == 1u64)) by (bit_vector)
        requires
            bit < 32,
            other < 32,
            other != bit,
            r == (if value { (opt | ((1u64 << bit) << 32u64)) | (1u64 << bit) } else { (opt | ((
                1u64 << bit) << 32u64)) & !(1u64 << bit) }),
    ;
}

/// Setting the same option twice is the same as setting it once to the
/// second value.
pub proof fn lemma_bool_opt_overwrite(opt: u64, bit: u8, first: bool, second: bool)
    requires
        bit < 32,
    ensures
        with_bool_opt(with_bool_opt(opt, bit, first), bit, second) == with_bool_opt(
            opt,
            bit,
            second,
        ),
{
    let r1: u64 = with_bool_opt(opt, bit, first);
    let r2: u64 = with_bool_opt(r1, bit, second);
    let r: u64 = with_bool_opt(opt, bit, second);
    assert(r2 == r) by (bit_vector)
        requires
            bit < 32,
            r1 == (if first { (opt | ((1u64 << bit) << 32u64)) | (1u64 << bit) } else { (opt | ((
                1u64 << bit) << 32u64)) & !(1u64 << bit) }),
            r2 == (if second { (r1 | ((1u64 << bit) << 32u64)) | (1u64 << bit) } else { (r1 | ((
                1u64 << bit) << 32u64)) & !(1u64 << bit) }),
            r == (if second { (opt | ((1u64 << bit) << 32u64)) | (1u64 << bit) } else { (opt | ((
                1u64 << bit) << 32u64)) & !(1u64 << bit) }),
    ;
}

/// Setting two different options gives the same packed options in either
/// order.
pub proof fn lemma_bool_opt_commute(opt: u64, b1: u8, v1: bool, b2: u8, v2: bool)
    requires
        b1 < 32,
        b2 < 32,
        b1 != b2,
    ensures
        with_bool_opt(with_bool_opt(opt, b1, v1), b2, v2) == with_bool_opt(
            with_bool_opt(opt, b2, v2),
            b1,
            v1,
        ),
{
    let a1: u64 = with_bool_opt(opt, b1, v1);
    let a2: u64 = with_bool_opt(a1, b2, v2);
    let c1: u64 = with_bool_opt(opt, b2, v2);
    let c2: u64 = with_bool_opt(c1, b1, v1);
    assert(a2 == c2) by (bit_vector)
        requires
            b1 < 32,
            b2 < 32,
            b1 != b2,
            a1 == (if v1 { (opt | ((1u64 << b1) << 32u64)) | (1u64 << b1) } else { (opt | ((
                1u64 << b1) << 32u64)) & !(1u64 << b1) }),
            a2 == (if v2 { (a1 | ((1u64 << b2) << 32u64)) | (1u64 << b2) } else { (a1 | ((
                1u64 << b2) << 32u64)) & !(1u64 << b2) }),
            c1 == (if v2 { (opt | ((1u64 << b2) << 32u64)) | (1u64 << b2) } else { (opt | ((
                1u64 << b2) << 32u64)) & !(1u64 << b2) }),
            c2 == (if v1 { (c1 | ((1u64 << b1) << 32u64)) | (1u64 << b1) } else { (c1 | ((
                1u64 << b1) << 32u64)) & !(1u64 << b1) }),
    ;
}

} // verus!

//! Register name resolution: maps mnemonic register names to numeric indices,
//! in three independent namespaces (general-purpose, floating-point, status).
//! Pure lookups, no state.

use vstd::prelude::*;
use crate::lex::{all_digits, dec_val, is2, is4};

verus! {

/// `s` is `prefix` followed by at least one decimal digit.
pub open spec fn prefixed_number(s: Seq<u8>, prefix: u8) -> bool {
    s.len() >= 2 && s[0] == prefix && all_digits(s.skip(1))
}

/// Value of the digits after the one-byte prefix.
pub open spec fn prefix_val(s: Seq<u8>) -> nat {
    dec_val(s.skip(1))
}

/// The general-purpose register a name denotes: `x0`..`x31` by number, or one
/// of the standard ABI names (`zero`, `ra`, `sp`, `gp`, `tp`, `t0`..`t6`,
/// `s0`..`s11`, `fp`, `a0`..`a7`). Names are case-sensitive.
pub open spec fn spec_gp_reg(s: Seq<u8>) -> Option<u8> {
    if prefixed_number(s, 120) {  // 'x'
        if prefix_val(s) < 32 {
            Some(prefix_val(s) as u8)
        } else {
            None
        }
    } else if prefixed_number(s, 116) {  // 't'
        if prefix_val(s) <= 2 {
            Some((5 + prefix_val(s)) as u8)
        } else if 3 <= prefix_val(s) <= 6 {
            Some((25 + prefix_val(s)) as u8)
        } else {
            None
        }
    } else if prefixed_number(s, 115) {  // 's'
        if prefix_val(s) <= 1 {
            Some((8 + prefix_val(s)) as u8)
        } else if prefix_val(s) <= 11 {
            Some((16 + prefix_val(s)) as u8)
        } else {
            None
        }
    } else if prefixed_number(s, 97) {  // 'a'
        if prefix_val(s) <= 7 {
            Some((10 + prefix_val(s)) as u8)
        } else {
            None
        }
    } else if is4(s, 122, 101, 114, 111) {  // "zero"
        Some(0u8)
    } else if is2(s, 114, 97) {  // "ra"
        Some(1u8)
    } else if is2(s, 115, 112) {  // "sp"
        Some(2u8)
    } else if is2(s, 103, 112) {  // "gp"
        Some(3u8)
    } else if is2(s, 116, 112) {  // "tp"
        Some(4u8)
    } else if is2(s, 102, 112) {  // "fp"
        Some(8u8)
    } else {
        None
    }
}

/// The floating-point register a name denotes: `f0`..`f31` by number, or the
/// ABI names `ft0`..`ft11`, `fs0`..`fs11`, `fa0`..`fa7`.
pub open spec fn spec_float_reg(s: Seq<u8>) -> Option<u8> {
    if prefixed_number(s, 102) {  // 'f'
        if prefix_val(s) < 32 {
            Some(prefix_val(s) as u8)
        } else {
            None
        }
    } else if s.len() >= 3 && s[0] == 102 && all_digits(s.skip(2)) {
        let v = dec_val(s.skip(2));
        if s[1] == 116 {  // "ft.."
            if v <= 7 {
                Some(v as u8)
            } else if v <= 11 {
                Some((20 + v) as u8)
            } else {
                None
            }
        } else if s[1] == 115 {  // "fs.."
            if v <= 1 {
                Some((8 + v) as u8)
            } else if v <= 11 {
                Some((16 + v) as u8)
            } else {
                None
            }
        } else if s[1] == 97 {  // "fa.."
            if v <= 7 {
                Some((10 + v) as u8)
            } else {
                None
            }
        } else {
            None
        }
    } else {
        None
    }
}

/// The status register a name denotes, as a small fixed index:
/// `fflags` 0, `frm` 1, `fcsr` 2, `time` 3, `cycle` 4, `instret` 5.
pub open spec fn spec_status_reg(s: Seq<u8>) -> Option<u8> {
    if s =~= seq![102u8, 102u8, 108u8, 97u8, 103u8, 115u8] {  // "fflags"
        Some(0u8)
    } else if s =~= seq![102u8, 114u8, 109u8] {  // "frm"
        Some(1u8)
    } else if s =~= seq![102u8, 99u8, 115u8, 114u8] {  // "fcsr"
        Some(2u8)
    } else if s =~= seq![116u8, 105u8, 109u8, 101u8] {  // "time"
        Some(3u8)
    } else if s =~= seq![99u8, 121u8, 99u8, 108u8, 101u8] {  // "cycle"
        Some(4u8)
    } else if s =~= seq![105u8, 110u8, 115u8, 116u8, 114u8, 101u8, 116u8] {  // "instret"
        Some(5u8)
    } else {
        None
    }
}

/// Reads the decimal number after a one-byte prefix, capped: the result is the
/// exact value where it is at most 32, and 33 where it is larger or malformed.
fn prefix_num(s: &Vec<u8>, from: usize) -> (r: Option<u64>)
    requires
        from <= s@.len(),
    ensures
        match r {
            Option::Some(v) => {
                &&& all_digits(s@.skip(from as int))
                &&& (dec_val(s@.skip(from as int)) <= 32 ==> v == dec_val(s@.skip(from as int)))
                &&& (dec_val(s@.skip(from as int)) > 32 ==> v == 33u64)
            },
            Option::None => !all_digits(s@.skip(from as int)),
        },
{
    let ghost digits = s@.skip(from as int);
    let mut acc: u64 = 0;
    let mut k = from;
    while k < s.len()
        invariant
            from <= k <= s@.len(),
            digits == s@.skip(from as int),
            all_digits(s@.subrange(from as int, k as int)),
            dec_val(s@.subrange(from as int, k as int)) <= 32 ==> acc == dec_val(
                s@.subrange(from as int, k as int),
            ),
            dec_val(s@.subrange(from as int, k as int)) > 32 ==> acc == 33u64,
            acc <= 33,
        decreases s@.len() - k,
    {
        let c = s[k];
        if c < 48 || c > 57 {
            assert(digits[k - from] == s@[k as int] && !crate::lex::is_digit(s@[k as int]));
            return Option::None;
        }
        let ghost pre = s@.subrange(from as int, k as int);
        let ghost post = s@.subrange(from as int, k + 1 as int);
        assert(post.drop_last() =~= pre);
        assert(post.last() == c);
        let step: u64 = acc * 10 + ((c - 48) as u64);
        acc = if step > 32 {
            33
        } else {
            step
        };
        k = k + 1;
    }
    assert(s@.subrange(from as int, s@.len() as int) =~= digits);
    Option::Some(acc)
}

/// Look a name up in the general-purpose namespace.
pub fn gp_register_index(s: &Vec<u8>) -> (r: Option<u8>)
    ensures
        r == spec_gp_reg(s@),
{
    if s.len() >= 2 && (s[0] == 120 || s[0] == 116 || s[0] == 115 || s[0] == 97) {
        let c0 = s[0];
        match prefix_num(s, 1) {
            Option::None => {},
            Option::Some(v) => {
                if c0 == 120 {
                    return if v < 32 {
                        Option::Some(v as u8)
                    } else {
                        Option::None
                    };
                } else if c0 == 116 {
                    return if v <= 2 {
                        Option::Some((5 + v) as u8)
                    } else if v <= 6 {
                        Option::Some((25 + v) as u8)
                    } else {
                        Option::None
                    };
                } else if c0 == 115 {
                    return if v <= 1 {
                        Option::Some((8 + v) as u8)
                    } else if v <= 11 {
                        Option::Some((16 + v) as u8)
                    } else {
                        Option::None
                    };
                } else {
                    return if v <= 7 {
                        Option::Some((10 + v) as u8)
                    } else {
                        Option::None
                    };
                }
            },
        }
    }
    if s.len() == 4 && s[0] == 122 && s[1] == 101 && s[2] == 114 && s[3] == 111 {
        Option::Some(0)
    } else if s.len() == 2 && s[0] == 114 && s[1] == 97 {
        Option::Some(1)
    } else if s.len() == 2 && s[0] == 115 && s[1] == 112 {
        Option::Some(2)
    } else if s.len() == 2 && s[0] == 103 && s[1] == 112 {
        Option::Some(3)
    } else if s.len() == 2 && s[0] == 116 && s[1] == 112 {
        Option::Some(4)
    } else if s.len() == 2 && s[0] == 102 && s[1] == 112 {
        Option::Some(8)
    } else {
        Option::None
    }
}

/// Look a name up in the floating-point namespace.
pub fn float_register_index(s: &Vec<u8>) -> (r: Option<u8>)
    ensures
        r == spec_float_reg(s@),
{
    if s.len() >= 2 && s[0] == 102 {
        match prefix_num(s, 1) {
            Option::Some(v) => {
                return if v < 32 {
                    Option::Some(v as u8)
                } else {
                    Option::None
                };
            },
            Option::None => {},
        }
        if s.len() >= 3 {
            let c1 = s[1];
            if c1 == 116 || c1 == 115 || c1 == 97 {
                match prefix_num(s, 2) {
                    Option::None => {},
                    Option::Some(v) => {
                        if c1 == 116 {
                            return if v <= 7 {
                                Option::Some(v as u8)
                            } else if v <= 11 {
                                Option::Some((20 + v) as u8)
                            } else {
                                Option::None
                            };
                        } else if c1 == 115 {
                            return if v <= 1 {
                                Option::Some((8 + v) as u8)
                            } else if v <= 11 {
                                Option::Some((16 + v) as u8)
                            } else {
                                Option::None
                            };
                        } else {
                            return if v <= 7 {
                                Option::Some((10 + v) as u8)
                            } else {
                                Option::None
                            };
                        }
                    },
                }
            }
        }
    }
    Option::None
}

/// Look a name up in the status namespace.
pub fn status_register_index(s: &Vec<u8>) -> (r: Option<u8>)
    ensures
        r == spec_status_reg(s@),
{
    let r = if s.len() == 6 && s[0] == 102 && s[1] == 102 && s[2] == 108 && s[3] == 97 && s[4]
        == 103 && s[5] == 115 {
        Option::Some(0)
    } else if s.len() == 3 && s[0] == 102 && s[1] == 114 && s[2] == 109 {
        Option::Some(1)
    } else if s.len() == 4 && s[0] == 102 && s[1] == 99 && s[2] == 115 && s[3] == 114 {
        Option::Some(2)
    } else if s.len() == 4 && s[0] == 116 && s[1] == 105 && s[2] == 109 && s[3] == 101 {
        Option::Some(3)
    } else if s.len() == 5 && s[0] == 99 && s[1] == 121 && s[2] == 99 && s[3] == 108 && s[4]
        == 101 {
        Option::Some(4)
    } else if s.len() == 7 && s[0] == 105 && s[1] == 110 && s[2] == 115 && s[3] == 116 && s[4]
        == 114 && s[5] == 101 && s[6] == 116 {
        Option::Some(5)
    } else {
        Option::None
    };
    r
}

} // verus!

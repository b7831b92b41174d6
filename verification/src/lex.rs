//! Lexical ground work for the line parser: splitting a source line into
//! tokens and reading decimal integers, each with an exact specification.

use vstd::prelude::*;

verus! {

/// Separator bytes: space, tab, carriage return, comma and the parentheses of
/// the `offset(base)` load/store operand syntax.
pub open spec fn is_sep_byte(c: u8) -> bool {
    c == 32 || c == 9 || c == 13 || c == 44 || c == 40 || c == 41
}

/// First index at or after `i` that holds a separator, or the end of `s`.
pub open spec fn token_end(s: Seq<u8>, i: int) -> int
    decreases s.len() - i when 0 <= i <= s.len()
{
    if i >= s.len() {
        i
    } else if is_sep_byte(s[i]) {
        i
    } else {
        token_end(s, i + 1)
    }
}

pub proof fn lemma_token_end_bounds(s: Seq<u8>, i: int)
    requires
        0 <= i <= s.len(),
    ensures
        i <= token_end(s, i) <= s.len(),
        i < s.len() && !is_sep_byte(s[i]) ==> token_end(s, i) > i,
    decreases s.len() - i,
{
    if i < s.len() && !is_sep_byte(s[i]) {
        lemma_token_end_bounds(s, i + 1);
    }
}

/// The maximal separator-free tokens of `s` from index `i` on, in order.
pub open spec fn spec_tokens(s: Seq<u8>, i: int) -> Seq<Seq<u8>>
    decreases s.len() - i when 0 <= i <= s.len() via spec_tokens_dec
{
    if i >= s.len() {
        Seq::empty()
    } else if is_sep_byte(s[i]) {
        spec_tokens(s, i + 1)
    } else {
        seq![s.subrange(i, token_end(s, i))] + spec_tokens(s, token_end(s, i))
    }
}

#[via_fn]
proof fn spec_tokens_dec(s: Seq<u8>, i: int) {
    if 0 <= i < s.len() && !is_sep_byte(s[i]) {
        lemma_token_end_bounds(s, i);
    }
}

/// The views of a sequence of byte vectors.
pub open spec fn seq_views(v: Seq<Vec<u8>>) -> Seq<Seq<u8>> {
    v.map_values(|x: Vec<u8>| x@)
}

pub fn is_sep(c: u8) -> (r: bool)
    ensures
        r == is_sep_byte(c),
{
    c == 32 || c == 9 || c == 13 || c == 44 || c == 40 || c == 41
}

fn find_token_end(s: &Vec<u8>, i: usize) -> (r: usize)
    requires
        i <= s@.len(),
    ensures
        r == token_end(s@, i as int),
        i <= r <= s@.len(),
    decreases s@.len() - i,
{
    if i >= s.len() {
        i
    } else if is_sep(s[i]) {
        i
    } else {
        find_token_end(s, i + 1)
    }
}

fn tokenize_at(s: &Vec<u8>, i: usize) -> (r: Vec<Vec<u8>>)
    requires
        i <= s@.len(),
    ensures
        seq_views(r@) == spec_tokens(s@, i as int),
    decreases s@.len() - i,
{
    if i >= s.len() {
        let r: Vec<Vec<u8>> = Vec::new();
        assert(seq_views(r@) =~= spec_tokens(s@, i as int));
        r
    } else if is_sep(s[i]) {
        tokenize_at(s, i + 1)
    } else {
        let j = find_token_end(s, i);
        proof {
            lemma_token_end_bounds(s@, i as int);
        }
        let mut tok: Vec<u8> = Vec::new();
        let mut k = i;
        while k < j
            invariant
                i <= k <= j <= s@.len(),
                tok@ == s@.subrange(i as int, k as int),
            decreases j - k,
        {
            tok.push(s[k]);
            k = k + 1;
            assert(tok@ =~= s@.subrange(i as int, k as int));
        }
        let mut rest = tokenize_at(s, j);
        rest.insert(0, tok);
        assert(seq_views(rest@) =~= spec_tokens(s@, i as int));
        rest
    }
}

/// Split a line into its separator-free tokens, in order.
pub fn tokenize(s: &Vec<u8>) -> (r: Vec<Vec<u8>>)
    ensures
        seq_views(r@) == spec_tokens(s@, 0),
{
    tokenize_at(s, 0)
}

pub open spec fn is_digit(c: u8) -> bool {
    48 <= c <= 57
}

pub open spec fn all_digits(s: Seq<u8>) -> bool {
    forall|i: int| 0 <= i < s.len() ==> is_digit(#[trigger] s[i])
}

/// Value of an all-digit byte sequence, most significant digit first.
pub open spec fn dec_val(s: Seq<u8>) -> nat
    decreases s.len(),
{
    if s.len() == 0 {
        0
    } else {
        dec_val(s.drop_last()) * 10 + (s.last() - 48) as nat
    }
}

/// The integer a token denotes: an optional leading minus sign followed by at
/// least one decimal digit; `None` for anything else.
pub open spec fn spec_int_val(s: Seq<u8>) -> Option<int> {
    if s.len() >= 2 && s[0] == 45 && all_digits(s.skip(1)) {
        Some(-(dec_val(s.skip(1)) as int))
    } else if s.len() >= 1 && all_digits(s) {
        Some(dec_val(s) as int)
    } else {
        None
    }
}

/// The 32-bit signed immediate a token denotes, if it has one in range.
pub open spec fn spec_imm32(s: Seq<u8>) -> Option<i32> {
    match spec_int_val(s) {
        Option::None => Option::None,
        Option::Some(v) => if -0x8000_0000 <= v <= 0x7fff_ffff {
            Option::Some(v as i32)
        } else {
            Option::None
        },
    }
}

/// Reads the digits of `s` from `from` on; the result is `dec_val` of those
/// digits where that fits below `2^32`, and a value above `2^32` otherwise.
fn dec_val_capped(s: &Vec<u8>, from: usize) -> (r: Option<u64>)
    requires
        from <= s@.len(),
    ensures
        match r {
            Option::Some(v) => {
                &&& all_digits(s@.skip(from as int))
                &&& (dec_val(s@.skip(from as int)) <= 0x1_0000_0000 ==> v == dec_val(
                    s@.skip(from as int),
                ))
                &&& (dec_val(s@.skip(from as int)) > 0x1_0000_0000 ==> v == 0x1_0000_0001u64)
            },
            Option::None => !all_digits(s@.skip(from as int)),
        },
{
    let ghost digits = s@.skip(from as int);
    let mut acc: u64 = 0;
    let mut k = from;
    while k < s.len()
        invariant
            from <= k <= s@.len(),
            digits == s@.skip(from as int),
            all_digits(s@.subrange(from as int, k as int)),
            dec_val(s@.subrange(from as int, k as int)) <= 0x1_0000_0000 ==> acc == dec_val(
                s@.subrange(from as int, k as int),
            ),
            dec_val(s@.subrange(from as int, k as int)) > 0x1_0000_0000 ==> acc
                == 0x1_0000_0001u64,
            acc <= 0x1_0000_0001,
        decreases s@.len() - k,
    {
        let c = s[k];
        if c < 48 || c > 57 {
            assert(digits[k - from] == s@[k as int] && !is_digit(s@[k as int]));
            return Option::None;
        }
        let ghost pre = s@.subrange(from as int, k as int);
        let ghost post = s@.subrange(from as int, k + 1 as int);
        assert(post.drop_last() =~= pre);
        assert(post.last() == c);
        let step: u64 = acc * 10 + ((c - 48) as u64);
        acc = if step > 0x1_0000_0000 {
            0x1_0000_0001
        } else {
            step
        };
        k = k + 1;
    }
    assert(s@.subrange(from as int, s@.len() as int) =~= digits);
    Option::Some(acc)
}

/// Read the signed 32-bit integer a token denotes, exactly when it denotes one.
pub fn parse_imm32(s: &Vec<u8>) -> (r: Option<i32>)
    ensures
        r == spec_imm32(s@),
{
    if s.len() >= 2 && s[0] == 45 {
        match dec_val_capped(s, 1) {
            Option::None => Option::None,
            Option::Some(v) => {
                assert(s@.skip(1).len() >= 1);
                if v > 0x8000_0000 {
                    Option::None
                } else {
                    Option::Some((-(v as i64)) as i32)
                }
            },
        }
    } else if s.len() >= 1 {
        if s[0] == 45 {
            // a lone minus sign
            assert(!all_digits(s@) && !(s@.len() >= 2)) by {
                assert(s@[0] == 45);
            }
            Option::None
        } else {
            match dec_val_capped(s, 0) {
                Option::None => {
                    assert(s@.skip(0) =~= s@);
                    Option::None
                },
                Option::Some(v) => {
                    assert(s@.skip(0) =~= s@);
                    if v > 0x7fff_ffff {
                        Option::None
                    } else {
                        Option::Some(v as i32)
                    }
                },
            }
        }
    } else {
        Option::None
    }
}

/// The unsigned 32-bit pattern of a signed immediate (two's complement).
pub open spec fn u32_of_i32(v: i32) -> u32 {
    if v >= 0 {
        v as u32
    } else {
        (v + 0x1_0000_0000) as u32
    }
}

/// Reinterpret a signed immediate as its unsigned 32-bit pattern.
pub fn imm_as_u32(v: i32) -> (r: u32)
    ensures
        r == u32_of_i32(v),
{
    if v >= 0 {
        v as u32
    } else {
        ((v as i64) + 0x1_0000_0000) as u32
    }
}

/// Copy the bytes of `s` between `a` and `b`.
pub fn copy_range(s: &Vec<u8>, a: usize, b: usize) -> (r: Vec<u8>)
    requires
        a <= b <= s@.len(),
    ensures
        r@ == s@.subrange(a as int, b as int),
{
    let mut r: Vec<u8> = Vec::new();
    let mut k = a;
    while k < b
        invariant
            a <= k <= b <= s@.len(),
            r@ == s@.subrange(a as int, k as int),
        decreases b - k,
    {
        r.push(s[k]);
        k = k + 1;
        assert(r@ =~= s@.subrange(a as int, k as int));
    }
    r
}

/// Byte-wise equality of a sequence with one, two, three, four or five
/// given bytes.
pub open spec fn is1(s: Seq<u8>, a: u8) -> bool {
    s.len() == 1 && s[0] == a
}

pub open spec fn is2(s: Seq<u8>, a: u8, b: u8) -> bool {
    s.len() == 2 && s[0] == a && s[1] == b
}

pub open spec fn is3(s: Seq<u8>, a: u8, b: u8, c: u8) -> bool {
    s.len() == 3 && s[0] == a && s[1] == b && s[2] == c
}

pub open spec fn is4(s: Seq<u8>, a: u8, b: u8, c: u8, d: u8) -> bool {
    s.len() == 4 && s[0] == a && s[1] == b && s[2] == c && s[3] == d
}

pub open spec fn is5(s: Seq<u8>, a: u8, b: u8, c: u8, d: u8, e: u8) -> bool {
    s.len() == 5 && s[0] == a && s[1] == b && s[2] == c && s[3] == d && s[4] == e
}

/// An exact copy of a byte vector.
pub fn dup_bytes(t: &Vec<u8>) -> (r: Vec<u8>)
    ensures
        r@ == t@,
{
    let r = copy_range(t, 0, t.len());
    assert(r@ =~= t@);
    r
}

/// Lower-case mapping of one byte: ASCII letters only.
pub open spec fn lower_byte(c: u8) -> u8 {
    if 65 <= c <= 90 {
        (c + 32) as u8
    } else {
        c
    }
}

pub open spec fn spec_lower(s: Seq<u8>) -> Seq<u8> {
    s.map_values(|c: u8| lower_byte(c))
}

/// Lower-case a token, so that mnemonics match case-insensitively.
pub fn to_lower(s: &Vec<u8>) -> (r: Vec<u8>)
    ensures
        r@ == spec_lower(s@),
{
    let mut r: Vec<u8> = Vec::new();
    let mut k: usize = 0;
    while k < s.len()
        invariant
            k <= s@.len(),
            r@ == s@.subrange(0, k as int).map_values(|c: u8| lower_byte(c)),
        decreases s@.len() - k,
    {
        let c = s[k];
        if c >= 65 && c <= 90 {
            r.push(c + 32);
        } else {
            r.push(c);
        }
        k = k + 1;
        assert(r@ =~= s@.subrange(0, k as int).map_values(|c: u8| lower_byte(c)));
    }
    assert(s@.subrange(0, s@.len() as int) =~= s@);
    r
}

} // verus!

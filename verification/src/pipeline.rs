//! The assembler pipeline. Pass 1 scans the preprocessed lines once,
//! registering labels at the current address, switching segments on `.text` /
//! `.data` directives, parsing instructions in the text segment and data
//! literals in the data segment. Pass 2 resolves every deferred label operand
//! against the finished label table; any missing label aborts the whole parse.
//! Finalization then appends a jump into a terminate syscall sequence, so that
//! control falling off the end of user code exits cleanly instead of reading
//! past the end of the instruction sequence, and pads the data segment to its
//! configured size.

use vstd::prelude::*;
use crate::error::{Error, SpecError, SyntaxFault};
use crate::insn::{Instruction, PreInstr, PreLabelInstruction};
use crate::labels::{LabelTrie, trie_contents, trie_get, trie_insert, trie_new};
use crate::lex::{seq_views, spec_imm32, spec_tokens, u32_of_i32, is5, imm_as_u32, parse_imm32,
    tokenize, copy_range, dup_bytes};
use crate::parse::{spec_parse_tokens, spec_split_label, parse_tokens, split_label};

verus! {

/// The "current" parser directive: which segment lines are assembled into.
#[derive(Clone, Copy, Debug, PartialEq, Eq, Structural)]
pub enum Directive {
    Text,
    Data,
}

/// The parser's whole state after some prefix of the lines: current segment,
/// instructions parsed so far, data bytes emitted so far, labels registered
/// so far.
pub struct PassState {
    pub directive: Directive,
    pub code: Seq<PreInstr>,
    pub data: Seq<u8>,
    pub labels: Map<Seq<u8>, usize>,
}

/// The views of a sequence of pre-resolution instructions.
pub open spec fn pre_views(v: Seq<PreLabelInstruction>) -> Seq<PreInstr> {
    v.map_values(|p: PreLabelInstruction| p@)
}

pub open spec fn is6(s: Seq<u8>, a: u8, b: u8, c: u8, d: u8, e: u8, f: u8) -> bool {
    s.len() == 6 && s[0] == a && s[1] == b && s[2] == c && s[3] == d && s[4] == e && s[5] == f
}

/// The token begins with `.data` (the tail is ignored, so `.database` also
/// switches segments).
pub open spec fn data_directive(t: Seq<u8>) -> bool {
    t.len() >= 5 && t[0] == 46 && t[1] == 100 && t[2] == 97 && t[3] == 116 && t[4] == 97
}

/// The token begins with `.text`.
pub open spec fn text_directive(t: Seq<u8>) -> bool {
    t.len() >= 5 && t[0] == 46 && t[1] == 116 && t[2] == 101 && t[3] == 120 && t[4] == 116
}

/// The four little-endian bytes of a 32-bit word.
pub open spec fn le4(w: u32) -> Seq<u8> {
    seq![
        (w % 256) as u8,
        ((w / 256) % 256) as u8,
        ((w / 65536) % 256) as u8,
        ((w / 16777216) % 256) as u8,
    ]
}

/// Words appended for a `.word` directive from token `i` on.
pub open spec fn spec_word_vals(toks: Seq<Seq<u8>>, i: int, acc: Seq<u8>) -> Result<
    Seq<u8>,
    SpecError,
>
    decreases toks.len() - i when 0 <= i <= toks.len()
{
    if i >= toks.len() {
        Ok(acc)
    } else {
        match spec_imm32(toks[i]) {
            Some(v) => spec_word_vals(toks, i + 1, acc + le4(u32_of_i32(v))),
            None => Err(SpecError::Syntax(toks[i], SyntaxFault::BadImmediate)),
        }
    }
}

/// Bytes appended for a `.byte` directive from token `i` on; each value must
/// lie in -128..=255 and its low byte is stored.
pub open spec fn spec_byte_vals(toks: Seq<Seq<u8>>, i: int, acc: Seq<u8>) -> Result<
    Seq<u8>,
    SpecError,
>
    decreases toks.len() - i when 0 <= i <= toks.len()
{
    if i >= toks.len() {
        Ok(acc)
    } else {
        match spec_imm32(toks[i]) {
            Some(v) => if -128 <= v <= 255 {
                spec_byte_vals(toks, i + 1, acc.push((u32_of_i32(v) % 256) as u8))
            } else {
                Err(SpecError::Syntax(toks[i], SyntaxFault::BadImmediate))
            },
            None => Err(SpecError::Syntax(toks[i], SyntaxFault::BadImmediate)),
        }
    }
}

/// First index at or after `i` where `s` holds `c`, or the end of `s`.
pub open spec fn find_byte(s: Seq<u8>, i: int, c: u8) -> int
    decreases s.len() - i when 0 <= i <= s.len()
{
    if i >= s.len() {
        i
    } else if s[i] == c {
        i
    } else {
        find_byte(s, i + 1, c)
    }
}

/// What one data-segment line appends: `.word` and `.byte` take one or more
/// integer literals; `.ascii` and `.asciz` take one double-quoted string
/// (without escapes), `.asciz` adding a terminating zero byte.
pub open spec fn spec_data_line(toks: Seq<Seq<u8>>, rest: Seq<u8>, st: PassState) -> Result<
    PassState,
    SpecError,
> {
    if is5(toks[0], 46, 119, 111, 114, 100) {  // .word
        if toks.len() < 2 {
            Err(SpecError::Syntax(toks[0], SyntaxFault::OperandShape))
        } else {
            match spec_word_vals(toks, 1, st.data) {
                Ok(d) => Ok(PassState { data: d, ..st }),
                Err(e) => Err(e),
            }
        }
    } else if is5(toks[0], 46, 98, 121, 116, 101) {  // .byte
        if toks.len() < 2 {
            Err(SpecError::Syntax(toks[0], SyntaxFault::OperandShape))
        } else {
            match spec_byte_vals(toks, 1, st.data) {
                Ok(d) => Ok(PassState { data: d, ..st }),
                Err(e) => Err(e),
            }
        }
    } else if is6(toks[0], 46, 97, 115, 99, 105, 105) || is6(
        toks[0],
        46,
        97,
        115,
        99,
        105,
        122,
    ) {  // .ascii / .asciz
        let q1 = find_byte(rest, 0, 34);
        let q2 = find_byte(rest, q1 + 1, 34);
        if q1 < rest.len() && q2 < rest.len() {
            let body = rest.subrange(q1 + 1, q2);
            let tail: Seq<u8> = if toks[0][5] == 122 {
                body.push(0u8)
            } else {
                body
            };
            Ok(PassState { data: st.data + tail, ..st })
        } else {
            Err(SpecError::Syntax(toks[0], SyntaxFault::BadStringLiteral))
        }
    } else {
        Err(SpecError::Syntax(toks[0], SyntaxFault::BadDirective))
    }
}

/// What one line does to the parser state: register a leading label at the
/// current address of the current segment, skip a blank remainder, switch
/// segments on a directive, or assemble into the current segment.
pub open spec fn spec_line(l: Seq<u8>, st: PassState) -> Result<PassState, SpecError> {
    let pieces = spec_split_label(l);
    let st1 = match pieces.0 {
        Some(name) => PassState {
            labels: st.labels.insert(
                name,
                if st.directive == Directive::Text {
                    (st.code.len() * 4) as usize
                } else {
                    st.data.len() as usize
                },
            ),
            ..st
        },
        None => st,
    };
    let toks = spec_tokens(pieces.1, 0);
    if toks.len() == 0 {
        Ok(st1)
    } else if data_directive(toks[0]) {
        Ok(PassState { directive: Directive::Data, ..st1 })
    } else if text_directive(toks[0]) {
        Ok(PassState { directive: Directive::Text, ..st1 })
    } else if st1.directive == Directive::Text {
        match spec_parse_tokens(toks) {
            Ok(p) => Ok(PassState { code: st1.code.push(p), ..st1 }),
            Err(e) => Err(e),
        }
    } else {
        spec_data_line(toks, pieces.1, st1)
    }
}

/// Pass 1 over the lines from index `i` on.
pub open spec fn spec_pass(lines: Seq<Seq<u8>>, i: int, st: PassState) -> Result<
    PassState,
    SpecError,
>
    decreases lines.len() - i when 0 <= i <= lines.len()
{
    if i >= lines.len() {
        Ok(st)
    } else {
        match spec_line(lines[i], st) {
            Ok(st2) => spec_pass(lines, i + 1, st2),
            Err(e) => Err(e),
        }
    }
}

/// The initial parser state: text segment, nothing parsed, no labels.
pub open spec fn init_state() -> PassState {
    PassState {
        directive: Directive::Text,
        code: Seq::empty(),
        data: Seq::empty(),
        labels: Map::empty(),
    }
}

fn find_byte_exec(s: &Vec<u8>, i: usize, c: u8) -> (r: usize)
    requires
        i <= s@.len(),
    ensures
        r == find_byte(s@, i as int, c),
        i <= r <= s@.len(),
    decreases s@.len() - i,
{
    if i >= s.len() {
        i
    } else if s[i] == c {
        i
    } else {
        find_byte_exec(s, i + 1, c)
    }
}

fn append_word(data: &mut Vec<u8>, w: u32)
    ensures
        (*final(data))@ == old(data)@ + le4(w),
{
    data.push((w % 256) as u8);
    data.push(((w / 256) % 256) as u8);
    data.push(((w / 65536) % 256) as u8);
    data.push(((w / 16777216) % 256) as u8);
    assert((*data)@ =~= old(data)@ + le4(w));
}

/// Assemble one data-segment line, appending its literals to the data buffer.
fn data_line(toks: &Vec<Vec<u8>>, rest: &Vec<u8>, data: &mut Vec<u8>, st: Ghost<PassState>)
 -> (r: Result<(), Error>)
    requires
        toks@.len() >= 1,
        st@.data == old(data)@,
    ensures
        match r {
            Ok(_) => spec_data_line(seq_views(toks@), rest@, st@) matches Ok(st2) && st2.data
                == (*final(data))@ && st2.directive == st@.directive && st2.code == st@.code
                && st2.labels == st@.labels,
            Err(e) => spec_data_line(seq_views(toks@), rest@, st@) == Err::<PassState, SpecError>(
                e@,
            ),
        },
{
    let ghost tv = seq_views(toks@);
    let t0 = &toks[0];
    let word = t0.len() == 5 && t0[0] == 46 && t0[1] == 119 && t0[2] == 111 && t0[3] == 114
        && t0[4] == 100;
    let byte = t0.len() == 5 && t0[0] == 46 && t0[1] == 98 && t0[2] == 121 && t0[3] == 116
        && t0[4] == 101;
    if word || byte {
        if toks.len() < 2 {
            return Err(Error::Syntax(dup_bytes(&toks[0]), SyntaxFault::OperandShape));
        }
        let mut k: usize = 1;
        let ghost d0 = data@;
        while k < toks.len()
            invariant
                1 <= k <= toks@.len(),
                tv == seq_views(toks@),
                tv.len() >= 2,
                d0 == st@.data,
                word == is5(tv[0], 46, 119, 111, 114, 100),
                byte == (!word && is5(tv[0], 46, 98, 121, 116, 101)),
                word || byte,
                word ==> spec_word_vals(tv, 1, d0) == spec_word_vals(tv, k as int, data@),
                byte ==> spec_byte_vals(tv, 1, d0) == spec_byte_vals(tv, k as int, data@),
            decreases toks@.len() - k,
        {
            let v = match parse_imm32(&toks[k]) {
                Option::Some(v) => v,
                Option::None => {
                    return Err(Error::Syntax(dup_bytes(&toks[k]), SyntaxFault::BadImmediate));
                },
            };
            if word {
                append_word(data, imm_as_u32(v));
            } else {
                if v < -128 || v > 255 {
                    return Err(Error::Syntax(dup_bytes(&toks[k]), SyntaxFault::BadImmediate));
                }
                data.push((imm_as_u32(v) % 256) as u8);
            }
            k = k + 1;
        }
        Ok(())
    } else {
        let ascii = t0.len() == 6 && t0[0] == 46 && t0[1] == 97 && t0[2] == 115 && t0[3] == 99
            && t0[4] == 105 && t0[5] == 105;
        let asciz = t0.len() == 6 && t0[0] == 46 && t0[1] == 97 && t0[2] == 115 && t0[3] == 99
            && t0[4] == 105 && t0[5] == 122;
        if ascii || asciz {
            let q1 = find_byte_exec(rest, 0, 34);
            if q1 >= rest.len() {
                return Err(Error::Syntax(dup_bytes(&toks[0]), SyntaxFault::BadStringLiteral));
            }
            let q2 = find_byte_exec(rest, q1 + 1, 34);
            if q2 >= rest.len() {
                return Err(Error::Syntax(dup_bytes(&toks[0]), SyntaxFault::BadStringLiteral));
            }
            let mut body = copy_range(rest, q1 + 1, q2);
            if asciz {
                body.push(0);
            }
            let ghost d0 = data@;
            data.append(&mut body);
            assert(data@ =~= d0 + data@.subrange(d0.len() as int, data@.len() as int));
            Ok(())
        } else {
            Err(Error::Syntax(dup_bytes(&toks[0]), SyntaxFault::BadDirective))
        }
    }
}

/// Apply one line to the parser state.
fn process_line(
    line: &Vec<u8>,
    dir: &mut Directive,
    code: &mut Vec<PreLabelInstruction>,
    data: &mut Vec<u8>,
    labels: &mut LabelTrie,
) -> (r: Result<(), Error>)
    requires
        old(code)@.len() * 4 + 4 <= usize::MAX,
    ensures
        ({
            let st0 = PassState {
                directive: *old(dir),
                code: pre_views(old(code)@),
                data: old(data)@,
                labels: trie_contents(*old(labels)),
            };
            match r {
                Ok(_) => spec_line(line@, st0) matches Ok(st2) && st2 == (PassState {
                    directive: *final(dir),
                    code: pre_views((*final(code))@),
                    data: (*final(data))@,
                    labels: trie_contents(*final(labels)),
                }),
                Err(e) => spec_line(line@, st0) == Err::<PassState, SpecError>(e@),
            }
        }),
        (*final(code))@.len() <= old(code)@.len() + 1,
{
    let ghost st0 = PassState {
        directive: *dir,
        code: pre_views(code@),
        data: data@,
        labels: trie_contents(*labels),
    };
    let (lab, rest) = split_label(line);
    match lab {
        Option::Some(name) => {
            let pos: usize = match dir {
                Directive::Text => code.len() * 4,
                Directive::Data => data.len(),
            };
            trie_insert(labels, name, pos);
        },
        Option::None => {},
    }
    let ghost st1 = PassState {
        directive: *dir,
        code: pre_views(code@),
        data: data@,
        labels: trie_contents(*labels),
    };
    let toks = tokenize(&rest);
    let ghost tv = seq_views(toks@);
    if toks.len() == 0 {
        return Ok(());
    }
    let t0 = &toks[0];
    if t0.len() >= 5 && t0[0] == 46 && t0[1] == 100 && t0[2] == 97 && t0[3] == 116 && t0[4]
        == 97 {
        *dir = Directive::Data;
        return Ok(());
    }
    if t0.len() >= 5 && t0[0] == 46 && t0[1] == 116 && t0[2] == 101 && t0[3] == 120 && t0[4]
        == 116 {
        *dir = Directive::Text;
        return Ok(());
    }
    let is_text = match dir {
        Directive::Text => true,
        Directive::Data => false,
    };
    if is_text {
        match parse_tokens(&toks) {
            Ok(p) => {
                code.push(p);
                assert(pre_views(code@) =~= st1.code.push(p@));
                Ok(())
            },
            Err(e) => Err(e),
        }
    } else {
        let r = data_line(&toks, &rest, data, Ghost(st1));
        match r {
            Ok(_) => Ok(()),
            Err(e) => Err(e),
        }
    }
}

/// Pass 1: scan all lines once, producing the pre-resolution instructions,
/// the data bytes written so far, and the finished label table.
pub fn pass_one(lines: &Vec<Vec<u8>>) -> (r: Result<
    (Vec<PreLabelInstruction>, Vec<u8>, LabelTrie),
    Error,
>)
    requires
        lines@.len() * 4 + 8 <= usize::MAX,
    ensures
        ({
            let s = spec_pass(seq_views(lines@), 0, init_state());
            match r {
                Ok(t) => s matches Ok(st) && st.code == pre_views(t.0@) && st.data == t.1@
                    && st.labels == trie_contents(t.2),
                Err(e) => s == Err::<PassState, SpecError>(e@),
            }
        }),
        r matches Ok(t) ==> t.0@.len() <= lines@.len(),
{
    let ghost lv = seq_views(lines@);
    let mut dir = Directive::Text;
    let mut code: Vec<PreLabelInstruction> = Vec::new();
    let mut data: Vec<u8> = Vec::new();
    let mut labels = trie_new();
    let mut i: usize = 0;
    assert(pre_views(code@) =~= Seq::<PreInstr>::empty());
    while i < lines.len()
        invariant
            i <= lines@.len(),
            lv == seq_views(lines@),
            lines@.len() * 4 + 8 <= usize::MAX,
            code@.len() <= i,
            spec_pass(lv, 0, init_state()) == spec_pass(
                lv,
                i as int,
                PassState {
                    directive: dir,
                    code: pre_views(code@),
                    data: data@,
                    labels: trie_contents(labels),
                },
            ),
        decreases lines@.len() - i,
    {
        let r = process_line(&lines[i], &mut dir, &mut code, &mut data, &mut labels);
        match r {
            Ok(_) => {},
            Err(e) => {
                return Err(e);
            },
        }
        i = i + 1;
    }
    assert(lv.take(lines@.len() as int) =~= lv);
    Ok((code, data, labels))
}

/// The label a pre-resolution instruction still carries, if any.
pub open spec fn pre_label(p: PreInstr) -> Option<Seq<u8>> {
    match p {
        PreInstr::Beq(_, _, l) => Some(l),
        PreInstr::Bne(_, _, l) => Some(l),
        PreInstr::Blt(_, _, l) => Some(l),
        PreInstr::Bge(_, _, l) => Some(l),
        PreInstr::Bltu(_, _, l) => Some(l),
        PreInstr::Bgeu(_, _, l) => Some(l),
        PreInstr::Jal(_, l) => Some(l),
        PreInstr::La(_, l) => Some(l),
        PreInstr::Other(_) => None,
    }
}

/// Committing one instruction's label to the address the table gives it; an
/// instruction without a label passes through unchanged.
pub open spec fn spec_unlabel(p: PreInstr, m: Map<Seq<u8>, usize>) -> Result<
    Instruction,
    SpecError,
> {
    match p {
        PreInstr::Beq(a, b, l) => if m.contains_key(l) {
            Ok(Instruction::Beq(a, b, m[l]))
        } else {
            Err(SpecError::LabelNotFound(l))
        },
        PreInstr::Bne(a, b, l) => if m.contains_key(l) {
            Ok(Instruction::Bne(a, b, m[l]))
        } else {
            Err(SpecError::LabelNotFound(l))
        },
        PreInstr::Blt(a, b, l) => if m.contains_key(l) {
            Ok(Instruction::Blt(a, b, m[l]))
        } else {
            Err(SpecError::LabelNotFound(l))
        },
        PreInstr::Bge(a, b, l) => if m.contains_key(l) {
            Ok(Instruction::Bge(a, b, m[l]))
        } else {
            Err(SpecError::LabelNotFound(l))
        },
        PreInstr::Bltu(a, b, l) => if m.contains_key(l) {
            Ok(Instruction::Bltu(a, b, m[l]))
        } else {
            Err(SpecError::LabelNotFound(l))
        },
        PreInstr::Bgeu(a, b, l) => if m.contains_key(l) {
            Ok(Instruction::Bgeu(a, b, m[l]))
        } else {
            Err(SpecError::LabelNotFound(l))
        },
        PreInstr::Jal(d, l) => if m.contains_key(l) {
            Ok(Instruction::Jal(d, m[l]))
        } else {
            Err(SpecError::LabelNotFound(l))
        },
        PreInstr::La(d, l) => if m.contains_key(l) {
            Ok(Instruction::La(d, m[l]))
        } else {
            Err(SpecError::LabelNotFound(l))
        },
        PreInstr::Other(i) => Ok(i),
    }
}

/// Pass 2 on a whole instruction sequence: every label substituted, or the
/// error for the first unresolved one.
pub open spec fn spec_resolve(code: Seq<PreInstr>, m: Map<Seq<u8>, usize>) -> Result<
    Seq<Instruction>,
    SpecError,
>
    decreases code.len(),
{
    if code.len() == 0 {
        Ok(Seq::empty())
    } else {
        match spec_unlabel(code[0], m) {
            Ok(i) => match spec_resolve(code.drop_first(), m) {
                Ok(rest) => Ok(seq![i] + rest),
                Err(e) => Err(e),
            },
            Err(e) => Err(e),
        }
    }
}

/// Transforms a [`PreLabelInstruction`] into a normal [`Instruction`] by
/// committing its label to a position in the code.
pub fn unlabel_instruction(p: &PreLabelInstruction, labels: &LabelTrie) -> (r: Result<
    Instruction,
    Error,
>)
    ensures
        match r {
            Ok(i) => spec_unlabel(p@, trie_contents(*labels)) == Ok::<Instruction, SpecError>(i),
            Err(e) => spec_unlabel(p@, trie_contents(*labels)) == Err::<Instruction, SpecError>(
                e@,
            ),
        },
{
    match p {
        PreLabelInstruction::Beq(a, b, l) => match trie_get(labels, l) {
            Option::Some(pos) => Ok(Instruction::Beq(*a, *b, pos)),
            Option::None => Err(Error::LabelNotFound(dup_bytes(l))),
        },
        PreLabelInstruction::Bne(a, b, l) => match trie_get(labels, l) {
            Option::Some(pos) => Ok(Instruction::Bne(*a, *b, pos)),
            Option::None => Err(Error::LabelNotFound(dup_bytes(l))),
        },
        PreLabelInstruction::Blt(a, b, l) => match trie_get(labels, l) {
            Option::Some(pos) => Ok(Instruction::Blt(*a, *b, pos)),
            Option::None => Err(Error::LabelNotFound(dup_bytes(l))),
        },
        PreLabelInstruction::Bge(a, b, l) => match trie_get(labels, l) {
            Option::Some(pos) => Ok(Instruction::Bge(*a, *b, pos)),
            Option::None => Err(Error::LabelNotFound(dup_bytes(l))),
        },
        PreLabelInstruction::Bltu(a, b, l) => match trie_get(labels, l) {
            Option::Some(pos) => Ok(Instruction::Bltu(*a, *b, pos)),
            Option::None => Err(Error::LabelNotFound(dup_bytes(l))),
        },
        PreLabelInstruction::Bgeu(a, b, l) => match trie_get(labels, l) {
            Option::Some(pos) => Ok(Instruction::Bgeu(*a, *b, pos)),
            Option::None => Err(Error::LabelNotFound(dup_bytes(l))),
        },
        PreLabelInstruction::Jal(d, l) => match trie_get(labels, l) {
            Option::Some(pos) => Ok(Instruction::Jal(*d, pos)),
            Option::None => Err(Error::LabelNotFound(dup_bytes(l))),
        },
        PreLabelInstruction::La(d, l) => match trie_get(labels, l) {
            Option::Some(pos) => Ok(Instruction::La(*d, pos)),
            Option::None => Err(Error::LabelNotFound(dup_bytes(l))),
        },
        PreLabelInstruction::Other(i) => Ok(*i),
    }
}

/// Pass 2: resolve every deferred label operand against the label table.
pub fn resolve(code: &Vec<PreLabelInstruction>, labels: &LabelTrie) -> (r: Result<
    Vec<Instruction>,
    Error,
>)
    ensures
        match r {
            Ok(v) => spec_resolve(pre_views(code@), trie_contents(*labels)) == Ok::<
                Seq<Instruction>,
                SpecError,
            >(v@),
            Err(e) => spec_resolve(pre_views(code@), trie_contents(*labels)) == Err::<
                Seq<Instruction>,
                SpecError,
            >(e@),
        },
{
    let ghost cv = pre_views(code@);
    let ghost m = trie_contents(*labels);
    let mut out: Vec<Instruction> = Vec::new();
    let mut k: usize = 0;
    assert(cv.skip(0) =~= cv);
    while k < code.len()
        invariant
            k <= code@.len(),
            cv == pre_views(code@),
            m == trie_contents(*labels),
            match spec_resolve(cv.skip(k as int), m) {
                Ok(rest) => spec_resolve(cv, m) == Ok::<Seq<Instruction>, SpecError>(out@ + rest),
                Err(e) => spec_resolve(cv, m) == Err::<Seq<Instruction>, SpecError>(e),
            },
        decreases code@.len() - k,
    {
        let ghost tail = cv.skip(k as int);
        proof {
            assert(cv[k as int] == code@[k as int]@);
            assert(tail[0] == cv[k as int]);
            assert(tail.drop_first() =~= cv.skip(k + 1));
        }
        let ghost out0 = out@;
        match unlabel_instruction(&code[k], labels) {
            Ok(i) => {
                out.push(i);
                proof {
                    match spec_resolve(cv.skip(k + 1), m) {
                        Ok(rest) => {
                            assert(spec_resolve(tail, m) == Ok::<Seq<Instruction>, SpecError>(
                                seq![i] + rest,
                            ));
                            assert(out0 + (seq![i] + rest) =~= out@ + rest);
                        },
                        Err(e2) => {
                            assert(spec_resolve(tail, m) == Err::<Seq<Instruction>, SpecError>(
                                e2,
                            ));
                        },
                    }
                }
            },
            Err(e) => {
                return Err(e);
            },
        }
        k = k + 1;
    }
    assert(cv.skip(code@.len() as int) =~= Seq::<PreInstr>::empty());
    assert(out@ + Seq::<Instruction>::empty() =~= out@);
    Ok(out)
}

/// The three instructions appended to a program of `n` parsed instructions:
/// a jump into the terminate sequence directly after it, then the loading of
/// the terminate syscall number into register 17 (`a7`), then the trap. A
/// program that falls off the end of its own code runs into this epilogue and
/// exits cleanly.
pub open spec fn epilogue(n: nat) -> Seq<Instruction> {
    seq![
        Instruction::Jal(0, (4 * (n + 1)) as usize),
        Instruction::Li(17, 10),
        Instruction::Ecall,
    ]
}

/// The data segment padded (or cut) to its configured size: explicit bytes
/// kept, the rest zero-filled.
pub open spec fn spec_resize(d: Seq<u8>, size: nat) -> Seq<u8> {
    if d.len() >= size {
        d.take(size as int)
    } else {
        d + Seq::new((size - d.len()) as nat, |i: int| 0u8)
    }
}

/// Program finalization: append the fall-through epilogue and fix the data
/// segment at its configured size.
pub fn finalize(code: &mut Vec<Instruction>, data: &mut Vec<u8>, data_segment_size: usize)
    requires
        old(code)@.len() * 4 + 8 <= usize::MAX,
    ensures
        (*final(code))@ == old(code)@ + epilogue(old(code)@.len()),
        (*final(data))@ == spec_resize(old(data)@, data_segment_size as nat),
{
    let n = code.len();
    code.push(Instruction::Jal(0, 4 * (n + 1)));
    code.push(Instruction::Li(17, 10));
    code.push(Instruction::Ecall);
    assert(code@ =~= old(code)@ + epilogue(old(code)@.len()));
    let ghost d0 = data@;
    if data.len() > data_segment_size {
        data.truncate(data_segment_size);
        assert(data@ =~= spec_resize(d0, data_segment_size as nat));
    } else {
        while data.len() < data_segment_size
            invariant
                d0.len() <= data@.len() <= data_segment_size,
                data@.subrange(0, d0.len() as int) == d0,
                forall|i: int| d0.len() <= i < data@.len() ==> data@[i] == 0u8,
            decreases data_segment_size - data@.len(),
        {
            data.push(0);
            assert(data@.subrange(0, d0.len() as int) =~= d0);
        }
        assert(data@ =~= spec_resize(d0, data_segment_size as nat));
    }
}

/// Represents a successful parse: the final executable instruction sequence
/// and the initialized data segment, in the very format the simulator runs.
pub struct Parsed {
    pub code: Vec<Instruction>,
    pub data: Vec<u8>,
}

/// What the whole pipeline returns for a line stream and a configured data
/// segment size.
pub open spec fn spec_parse_riscv(lines: Seq<Seq<u8>>, size: nat) -> Result<
    (Seq<Instruction>, Seq<u8>),
    SpecError,
> {
    match spec_pass(lines, 0, init_state()) {
        Err(e) => Err(e),
        Ok(st) => match spec_resolve(st.code, st.labels) {
            Err(e) => Err(e),
            Ok(c) => Ok((c + epilogue(c.len()), spec_resize(st.data, size))),
        },
    }
}

/// Parses preprocessed source lines into the instructions and the data they
/// denote. The two passes run back to back; the first error aborts the whole
/// parse and no partial program is returned. `data_segment_size` is the final
/// size of the data segment, in bytes.
pub fn parse_riscv(lines: &Vec<Vec<u8>>, data_segment_size: usize) -> (r: Result<Parsed, Error>)
    requires
        lines@.len() * 4 + 16 <= usize::MAX,
    ensures
        match r {
            Ok(p) => spec_parse_riscv(seq_views(lines@), data_segment_size as nat) == Ok::<
                (Seq<Instruction>, Seq<u8>),
                SpecError,
            >((p.code@, p.data@)),
            Err(e) => spec_parse_riscv(seq_views(lines@), data_segment_size as nat) == Err::<
                (Seq<Instruction>, Seq<u8>),
                SpecError,
            >(e@),
        },
{
    let (pre_code, data0, labels) = match pass_one(lines) {
        Ok(t) => t,
        Err(e) => {
            return Err(e);
        },
    };
    let mut code = match resolve(&pre_code, &labels) {
        Ok(c) => c,
        Err(e) => {
            return Err(e);
        },
    };
    let mut data = data0;
    proof {
        lemma_resolve_len(pre_views(pre_code@), trie_contents(labels));
    }
    finalize(&mut code, &mut data, data_segment_size);
    Ok(Parsed { code, data })
}

/// Resolution keeps the instruction count: a resolved sequence is exactly as
/// long as the parsed one.
pub proof fn lemma_resolve_len(code: Seq<PreInstr>, m: Map<Seq<u8>, usize>)
    ensures
        spec_resolve(code, m) matches Ok(out) ==> out.len() == code.len(),
    decreases code.len(),
{
    if code.len() > 0 {
        lemma_resolve_len(code.drop_first(), m);
    }
}

/// Label resolution is order-independent: it reads nothing but the finished
/// label table, so a label referenced before its definition (a forward
/// reference) resolves to exactly the address the table gives it, the same
/// address as if the label had been defined first. Whenever every referenced
/// label is in the table, resolution succeeds, and each instruction's target
/// is the table's address for its label.
pub proof fn lemma_forward_references_resolve(code: Seq<PreInstr>, m: Map<Seq<u8>, usize>)
    requires
        forall|i: int|
            0 <= i < code.len() ==> ((#[trigger] pre_label(code[i])) matches Some(l)
                ==> m.contains_key(l)),
    ensures
        spec_resolve(code, m) matches Ok(out) && out.len() == code.len() && (forall|i: int|
            0 <= i < code.len() ==> spec_unlabel(code[i], m) == Ok::<Instruction, SpecError>(
                out[i],
            )),
    decreases code.len(),
{
    if code.len() > 0 {
        assert(pre_label(code[0]) matches Some(l) ==> m.contains_key(l));
        assert(spec_unlabel(code[0], m) is Ok);
        assert(forall|i: int|
            0 <= i < code.drop_first().len() ==> pre_label(code.drop_first()[i]) == pre_label(
                code[i + 1],
            ));
        lemma_forward_references_resolve(code.drop_first(), m);
        let rest = spec_resolve(code.drop_first(), m)->Ok_0;
        let out = spec_resolve(code, m)->Ok_0;
        assert(out =~= seq![spec_unlabel(code[0], m)->Ok_0] + rest);
        assert(forall|i: int|
            1 <= i < code.len() ==> spec_unlabel(code[i], m) == Ok::<Instruction, SpecError>(
                out[i],
            ));
    }
}

/// A label never defined fails the parse with the unresolved-label error
/// naming exactly that label: resolution reports the first instruction whose
/// label the table does not hold.
pub proof fn lemma_unresolved_label_fails(code: Seq<PreInstr>, m: Map<Seq<u8>, usize>, i: int, l: Seq<u8>)
    requires
        0 <= i < code.len(),
        pre_label(code[i]) == Some(l),
        !m.contains_key(l),
        forall|j: int|
            0 <= j < i ==> ((#[trigger] pre_label(code[j])) matches Some(l2) ==> m.contains_key(
                l2,
            )),
    ensures
        spec_resolve(code, m) == Err::<Seq<Instruction>, SpecError>(SpecError::LabelNotFound(l)),
    decreases i,
{
    if i == 0 {
        assert(spec_unlabel(code[0], m) == Err::<Instruction, SpecError>(
            SpecError::LabelNotFound(l),
        ));
    } else {
        assert(pre_label(code[0]) matches Some(l2) ==> m.contains_key(l2));
        assert(spec_unlabel(code[0], m) is Ok);
        assert(code.drop_first()[i - 1] == code[i]);
        assert(forall|j: int|
            0 <= j < i - 1 ==> pre_label(code.drop_first()[j]) == pre_label(code[j + 1]));
        lemma_unresolved_label_fails(code.drop_first(), m, i - 1, l);
    }
}

/// The finalized instruction sequence is exactly three instructions longer
/// than what was parsed: the epilogue's jump, syscall-number load, and trap.
pub proof fn lemma_finalized_length(lines: Seq<Seq<u8>>, size: nat)
    requires
        spec_pass(lines, 0, init_state()) matches Ok(st) && spec_resolve(st.code, st.labels)
            is Ok,
    ensures
        spec_parse_riscv(lines, size) matches Ok(p) && p.0.len() == spec_pass(
            lines,
            0,
            init_state(),
        )->Ok_0.code.len() + 3,
{
    let st = spec_pass(lines, 0, init_state())->Ok_0;
    lemma_resolve_len(st.code, st.labels);
}

} // verus!

//! The traces of the machine: before an instruction runs, the instruction with
//! its operands; after it ran, the whole machine. A trace is text; to print it
//! is up to the caller.

use vstd::prelude::*;
use crate::machine::{Machine, VMContext};
use crate::opcodes::{
    kk_value, nbytes_value, nnn_value, spec_decode, spec_kk_value, spec_matcher,
    spec_nbytes_value, spec_nnn_value, spec_vx_index, spec_vy_index, vx_index, vy_index, DumpHook,
};
use crate::text::{digit, prefixed_hex, push_char, push_prefixed_hex, spec_digit};

verus! {

/// Where the part of `pattern` that starts at `from` ends: at the next
/// semicolon, or at the end of the pattern.
pub open spec fn segment_end(pattern: Seq<char>, from: int) -> int
    decreases pattern.len() - from,
{
    if from >= pattern.len() {
        pattern.len() as int
    } else if pattern[from] == ';' {
        from
    } else {
        segment_end(pattern, from + 1)
    }
}

/// The first part of a description: the pattern of the instruction word, in
/// which `x`, `y`, `kk`, `nnn` and a last `n` stand for its operands.
pub open spec fn code_of(pattern: Seq<char>) -> Seq<char> {
    pattern.take(segment_end(pattern, 0))
}

/// The second part of a description: the mnemonic. A description without a
/// semicolon has none.
pub open spec fn mnemonic_of(pattern: Seq<char>) -> Seq<char> {
    let first = segment_end(pattern, 0);
    if first >= pattern.len() {
        Seq::empty()
    } else {
        pattern.subrange(first + 1, segment_end(pattern, first + 1))
    }
}

/// Whether `sub` occurs in `s`.
pub open spec fn has_sub(s: Seq<char>, sub: Seq<char>) -> bool {
    exists|at: int| occurs_at(s, sub, at)
}

/// Whether `sub` occurs in `s` at position `at`.
pub open spec fn occurs_at(s: Seq<char>, sub: Seq<char>, at: int) -> bool {
    0 <= at && at + sub.len() <= s.len() && s.subrange(at, at + sub.len()) == sub
}

/// Whether `s` ends with `sub`.
pub open spec fn ends_with(s: Seq<char>, sub: Seq<char>) -> bool {
    occurs_at(s, sub, s.len() - sub.len())
}

/// The operand x of an instruction in a trace: the register and its value.
pub open spec fn x_text(s: Machine, opcode: u16) -> Seq<char> {
    " V"@ + seq![spec_digit(spec_vx_index(opcode))] + " = "@ + prefixed_hex(
        s.v(spec_vx_index(opcode)) as int,
        2,
    )
}

/// The operand y of an instruction in a trace: the register and its value.
pub open spec fn y_text(s: Machine, opcode: u16) -> Seq<char> {
    ", V"@ + seq![spec_digit(spec_vy_index(opcode))] + " = "@ + prefixed_hex(
        s.v(spec_vy_index(opcode)) as int,
        2,
    ) + ","@
}

/// `text` if `present`, nothing if not.
pub open spec fn when(present: bool, text: Seq<char>) -> Seq<char> {
    if present {
        text
    } else {
        Seq::empty()
    }
}

/// The head of the trace of an instruction: the program counter, the
/// instruction word and the mnemonic.
pub open spec fn head_text(s: Machine, opcode: u16, pattern: Seq<char>) -> Seq<char> {
    prefixed_hex(s.registers.pc as int, 4) + ": "@ + prefixed_hex(opcode as int, 4) + " /"@ + " "@
        + mnemonic_of(pattern) + " /"@
}

/// The operand nnn of an instruction in a trace.
pub open spec fn nnn_text(opcode: u16) -> Seq<char> {
    " NNN = "@ + prefixed_hex(spec_nnn_value(opcode) as int, 3)
}

/// The operand n of an instruction in a trace.
pub open spec fn n_text(opcode: u16) -> Seq<char> {
    " N = "@ + prefixed_hex(spec_nbytes_value(opcode), 1)
}

/// The operand kk of an instruction in a trace.
pub open spec fn kk_text(opcode: u16) -> Seq<char> {
    " KK = "@ + prefixed_hex(spec_kk_value(opcode) as int, 2)
}

/// Whether the pattern `code` of an instruction word names the operand n: it
/// ends with one `n`, not with three.
pub open spec fn names_n(code: Seq<char>) -> bool {
    ends_with(code, seq!['n']) && !ends_with(code, seq!['n', 'n', 'n'])
}

/// The trace of an instruction before it runs: the program counter, the
/// instruction word, the mnemonic and, for each operand that the pattern of the
/// instruction names, the operand; then a line break.
pub open spec fn spec_pre_ex_dump(s: Machine, opcode: u16, pattern: Seq<char>) -> Seq<char> {
    let code = code_of(pattern);
    head_text(s, opcode, pattern) + when(has_sub(code, seq!['x']), x_text(s, opcode)) + when(
        has_sub(code, seq!['y']),
        y_text(s, opcode),
    ) + when(has_sub(code, seq!['n', 'n', 'n']), nnn_text(opcode)) + when(
        names_n(code),
        n_text(opcode),
    ) + when(has_sub(code, seq!['k', 'k']), kk_text(opcode)) + "\n"@
}

/// The trace of the machine after an instruction ran: the registers, the
/// stack, memory and the screen.
pub open spec fn spec_post_ex_dump(s: Machine) -> Seq<char> {
    s.registers.dump() + crate::stack::spec_dump(s.stack) + crate::ram::spec_dump(s.memory)
        + crate::screen::spec_dump(s.pixels)
}

/// What the hook `hook` writes before an instruction runs.
pub open spec fn spec_pre_hook(hook: DumpHook, s: Machine, opcode: u16, pattern: Seq<char>) -> Seq<
    char,
> {
    match hook {
        DumpHook::Off => Seq::empty(),
        DumpHook::Default => spec_pre_ex_dump(s, opcode, pattern),
    }
}

/// What the hook `hook` writes after an instruction ran.
pub open spec fn spec_post_hook(hook: DumpHook, s: Machine) -> Seq<char> {
    match hook {
        DumpHook::Off => Seq::empty(),
        DumpHook::Default => spec_post_ex_dump(s),
    }
}

/// What a cycle on the instruction word `opcode` in the state `s` adds to the
/// trace of the machine. With tracing on, and where an entry of the instruction
/// table matches the word, that is what the entry asks for before the handler
/// runs and, where the handler succeeds, what it asks for after.
pub open spec fn cycle_trace(debug_dump: bool, s: Machine, opcode: u16, rnd: u8) -> Seq<char> {
    match spec_decode(opcode) {
        Some(index) => if debug_dump {
            spec_pre_hook(spec_matcher(index).pre_ex_dump, s, opcode, spec_matcher(index).desc@)
                + (match crate::semantics::execute(s, opcode, rnd) {
                Ok((after, signal)) => spec_post_hook(spec_matcher(index).post_ex_dump, after),
                Err(e) => Seq::empty(),
            })
        } else {
            Seq::empty()
        },
        None => Seq::empty(),
    }
}

/// What a cycle on the instruction word at the program counter adds to the
/// trace of the machine.
pub open spec fn fetch_cycle_trace(debug_dump: bool, s: Machine, rnd: u8) -> Seq<char> {
    match crate::ram::spec_get_opcode(s.memory, s.registers.pc as int) {
        Ok(opcode) => cycle_trace(debug_dump, s, opcode, rnd),
        Err(e) => Seq::empty(),
    }
}

/// The characters of `s`.
fn chars_of(s: &str) -> (chars: Vec<char>)
    ensures
        chars@ == s@,
{
    let len: usize = s.unicode_len();
    let mut chars: Vec<char> = Vec::new();
    let mut i: usize = 0;
    while i < len
        invariant
            i <= len,
            len == s@.len(),
            chars@ == s@.take(i as int),
        decreases len - i,
    {
        chars.push(s.get_char(i));
        assert(chars@ =~= s@.take(i as int + 1));
        i += 1;
    }
    assert(s@.take(len as int) =~= s@);
    chars
}

/// Where the part of `pattern` that starts at `from` ends.
fn find_segment_end(pattern: &Vec<char>, from: usize) -> (end: usize)
    requires
        from <= pattern@.len(),
    ensures
        end == segment_end(pattern@, from as int),
        from <= end <= pattern@.len(),
{
    let mut at: usize = from;
    while at < pattern.len() && pattern[at] != ';'
        invariant
            from <= at <= pattern@.len(),
            segment_end(pattern@, from as int) == segment_end(pattern@, at as int),
        decreases pattern@.len() - at,
    {
        at += 1;
    }
    at
}

/// Whether `sub` occurs at position `at` among the first `end` characters of `s`.
fn sub_occurs_at(s: &Vec<char>, end: usize, sub: &[char], at: usize) -> (found: bool)
    requires
        end <= s@.len(),
    ensures
        found == occurs_at(s@.take(end as int), sub@, at as int),
{
    if sub.len() > end || at > end - sub.len() {
        return false;
    }
    let mut k: usize = 0;
    while k < sub.len()
        invariant
            k <= sub@.len(),
            at + sub@.len() <= end <= s@.len(),
            forall|j: int| 0 <= j < k ==> s@[at + j] == sub@[j],
        decreases sub@.len() - k,
    {
        if s[at + k] != sub[k] {
            assert(s@.take(end as int).subrange(at as int, at + sub@.len())[k as int] != sub@[k as int]);
            return false;
        }
        k += 1;
    }
    assert(s@.take(end as int).subrange(at as int, at + sub@.len()) =~= sub@);
    true
}

/// Whether `sub`, which is not empty, occurs among the first `end` characters
/// of `s`.
fn contains_sub(s: &Vec<char>, end: usize, sub: &[char]) -> (found: bool)
    requires
        end <= s@.len(),
        sub@.len() > 0,
    ensures
        found == has_sub(s@.take(end as int), sub@),
{
    let mut at: usize = 0;
    while at < end
        invariant
            at <= end <= s@.len(),
            forall|earlier: int| 0 <= earlier < at ==> !occurs_at(s@.take(end as int), sub@, earlier),
        decreases end - at,
    {
        if sub_occurs_at(s, end, sub, at) {
            return true;
        }
        at += 1;
    }
    false
}

/// Whether the first `end` characters of `s` end with `sub`.
fn ends_with_sub(s: &Vec<char>, end: usize, sub: &[char]) -> (found: bool)
    requires
        end <= s@.len(),
    ensures
        found == ends_with(s@.take(end as int), sub@),
{
    if sub.len() > end {
        return false;
    }
    sub_occurs_at(s, end, sub, end - sub.len())
}

/// Appends the characters of `s` from `from` up to `to` to `out`.
fn push_range(out: &mut String, s: &Vec<char>, from: usize, to: usize)
    requires
        from <= to <= s@.len(),
    ensures
        final(out)@ == old(out)@ + s@.subrange(from as int, to as int),
{
    let mut at: usize = from;
    while at < to
        invariant
            from <= at <= to <= s@.len(),
            out@ == old(out)@ + s@.subrange(from as int, at as int),
        decreases to - at,
    {
        push_char(out, s[at]);
        assert(out@ =~= old(out)@ + s@.subrange(from as int, at as int + 1));
        at += 1;
    }
}

/// Appends the head of the trace of the instruction in `ctx` to `out`.
fn push_head(out: &mut String, ctx: &VMContext, pattern: &Vec<char>, code_end: usize)
    requires
        pattern@ == ctx.pattern@,
        code_end == segment_end(pattern@, 0),
        code_end <= pattern@.len(),
    ensures
        final(out)@ == old(out)@ + head_text(ctx@, ctx.opcode, ctx.pattern@),
{
    push_prefixed_hex(out, ctx.registers.get_pc() as u32, 4);
    out.append(": ");
    push_prefixed_hex(out, ctx.opcode as u32, 4);
    out.append(" /");
    out.append(" ");
    if code_end < pattern.len() {
        let name_end: usize = find_segment_end(pattern, code_end + 1);
        push_range(out, pattern, code_end + 1, name_end);
    }
    out.append(" /");
    assert(out@ =~= old(out)@ + head_text(ctx@, ctx.opcode, ctx.pattern@));
}

/// Appends the operand x of the instruction in `ctx` to `out`.
fn push_x(out: &mut String, ctx: &VMContext)
    ensures
        final(out)@ == old(out)@ + x_text(ctx@, ctx.opcode),
{
    let vx_index: usize = vx_index(ctx.opcode);
    out.append(" V");
    push_char(out, digit(vx_index as u32));
    out.append(" = ");
    push_prefixed_hex(out, ctx.registers.get_v_register(vx_index) as u32, 2);
    assert(out@ =~= old(out)@ + x_text(ctx@, ctx.opcode));
}

/// Appends the operand y of the instruction in `ctx` to `out`.
fn push_y(out: &mut String, ctx: &VMContext)
    ensures
        final(out)@ == old(out)@ + y_text(ctx@, ctx.opcode),
{
    let vy_index: usize = vy_index(ctx.opcode);
    out.append(", V");
    push_char(out, digit(vy_index as u32));
    out.append(" = ");
    push_prefixed_hex(out, ctx.registers.get_v_register(vy_index) as u32, 2);
    out.append(",");
    assert(out@ =~= old(out)@ + y_text(ctx@, ctx.opcode));
}

/// Appends the operands nnn, n and kk of the instruction word `opcode` to
/// `out`, each if the pattern of the instruction names it.
fn push_immediates(out: &mut String, opcode: u16, pattern: &Vec<char>, code_end: usize)
    requires
        code_end == segment_end(pattern@, 0),
        code_end <= pattern@.len(),
    ensures
        final(out)@ == old(out)@ + when(
            has_sub(code_of(pattern@), seq!['n', 'n', 'n']),
            nnn_text(opcode),
        ) + when(names_n(code_of(pattern@)), n_text(opcode)) + when(
            has_sub(code_of(pattern@), seq!['k', 'k']),
            kk_text(opcode),
        ),
{
    let n_chars: [char; 1] = ['n'];
    let nnn_chars: [char; 3] = ['n', 'n', 'n'];
    let kk_chars: [char; 2] = ['k', 'k'];
    assert(n_chars@ =~= seq!['n']);
    assert(nnn_chars@ =~= seq!['n', 'n', 'n']);
    assert(kk_chars@ =~= seq!['k', 'k']);

    if contains_sub(pattern, code_end, nnn_chars.as_slice()) {
        out.append(" NNN = ");
        push_prefixed_hex(out, nnn_value(opcode) as u32, 3);
    }
    let ghost with_nnn = out@;
    assert(with_nnn =~= old(out)@ + when(
        has_sub(code_of(pattern@), seq!['n', 'n', 'n']),
        nnn_text(opcode),
    ));

    if ends_with_sub(pattern, code_end, n_chars.as_slice()) && !ends_with_sub(
        pattern,
        code_end,
        nnn_chars.as_slice(),
    ) {
        out.append(" N = ");
        push_prefixed_hex(out, nbytes_value(opcode) as u32, 1);
    }
    let ghost with_n = out@;
    assert(with_n =~= with_nnn + when(names_n(code_of(pattern@)), n_text(opcode)));

    if contains_sub(pattern, code_end, kk_chars.as_slice()) {
        out.append(" KK = ");
        push_prefixed_hex(out, kk_value(opcode) as u32, 2);
    }
    assert(out@ =~= with_n + when(has_sub(code_of(pattern@), seq!['k', 'k']), kk_text(opcode)));
}

/// The default trace of an instruction before it runs: the program counter,
/// the instruction word, the mnemonic and the operands that the pattern of the
/// instruction names.
pub fn dft_pre_ex_dump(ctx: &VMContext) -> (text: String)
    ensures
        text@ == spec_pre_ex_dump(ctx@, ctx.opcode, ctx.pattern@),
{
    let pattern: Vec<char> = chars_of(ctx.pattern);
    let code_end: usize = find_segment_end(&pattern, 0);
    let x_chars: [char; 1] = ['x'];
    let y_chars: [char; 1] = ['y'];
    assert(x_chars@ =~= seq!['x']);
    assert(y_chars@ =~= seq!['y']);

    let mut text = String::new();
    push_head(&mut text, ctx, &pattern, code_end);
    if contains_sub(&pattern, code_end, x_chars.as_slice()) {
        push_x(&mut text, ctx);
    }
    if contains_sub(&pattern, code_end, y_chars.as_slice()) {
        push_y(&mut text, ctx);
    }
    push_immediates(&mut text, ctx.opcode, &pattern, code_end);
    text.append("\n");
    assert(text@ =~= spec_pre_ex_dump(ctx@, ctx.opcode, ctx.pattern@));
    text
}

/// The default trace of the machine after an instruction ran: the registers,
/// the stack, memory and the screen.
pub fn dft_post_ex_dump(ctx: &VMContext) -> (text: String)
    ensures
        text@ == spec_post_ex_dump(ctx@),
{
    let mut text = ctx.registers.dump();
    let stack = ctx.stack.dump();
    text.append(stack.as_str());
    let memory = ctx.memory.dump();
    text.append(memory.as_str());
    let screen = ctx.screen.dump();
    text.append(screen.as_str());
    assert(text@ =~= spec_post_ex_dump(ctx@));
    text
}

/// Writes what the hook `hook` asks for before an instruction runs.
pub fn run_pre_ex_dump(hook: DumpHook, ctx: &VMContext) -> (text: String)
    ensures
        text@ == spec_pre_hook(hook, ctx@, ctx.opcode, ctx.pattern@),
{
    match hook {
        DumpHook::Off => String::new(),
        DumpHook::Default => dft_pre_ex_dump(ctx),
    }
}

/// Writes what the hook `hook` asks for after an instruction ran.
pub fn run_post_ex_dump(hook: DumpHook, ctx: &VMContext) -> (text: String)
    ensures
        text@ == spec_post_hook(hook, ctx@),
{
    match hook {
        DumpHook::Off => String::new(),
        DumpHook::Default => dft_post_ex_dump(ctx),
    }
}

} // verus!

//! Branch and jump target computation and symbol-table resolution.

use std::collections::HashMap;
use vstd::prelude::*;

verus! {

/// Absolute target of a relative branch: the address one instruction past
/// the branch (its delay slot) plus the sign-extended immediate scaled to
/// words, with 32-bit wraparound.
pub open spec fn branch_addr(cur: u32, imm: i16) -> u32 {
    vstd::wrapping::u32_specs::wrapping_add(
        vstd::wrapping::u32_specs::wrapping_add(cur, 4),
        (imm as u32) << 2,
    )
}

/// Absolute target of a direct jump: the 26-bit target field scaled to
/// words, placed under the top four bits of the current address.
pub open spec fn jump_addr(cur: u32, target: u32) -> u32 {
    (cur & 0xf000_0000) | ((target << 2) & 0x0fff_ffff)
}

/// ` <label>` when the address has a symbol, empty otherwise.
pub open spec fn sym_suffix(syms: Map<u32, String>, a: u32) -> Seq<char> {
    if syms.contains_key(a) {
        " <"@ + syms[a]@ + ">"@
    } else {
        Seq::empty()
    }
}

/// A branch target operand: the raw signed immediate, then the symbol of
/// the resolved address when the table has one.
pub open spec fn branch_text(cur: u32, imm: i16, syms: Map<u32, String>) -> Seq<char> {
    crate::text::dec_signed(imm as int) + sym_suffix(syms, branch_addr(cur, imm))
}

/// A jump target operand: the raw 26-bit target field, then the symbol of
/// the resolved address when the table has one.
pub open spec fn jump_text(cur: u32, target: u32, syms: Map<u32, String>) -> Seq<char> {
    crate::text::dec_digits(target as int) + sym_suffix(syms, jump_addr(cur, target))
}

/// Computes the absolute address a branch resolves to.
pub fn calc_branch(cur_adrs: u32, imm: i16) -> (r: u32)
    ensures
        r == branch_addr(cur_adrs, imm),
{
    let off: u32 = (imm as u32) << 2;
    cur_adrs.wrapping_add(4).wrapping_add(off)
}

/// Computes the absolute address a jump resolves to.
pub fn calc_jump(current_adrs: u32, target: u32) -> (r: u32)
    ensures
        r == jump_addr(current_adrs, target),
{
    (current_adrs & 0xf000_0000) | ((target << 2) & 0x0fff_ffff)
}

/// Renders a branch target operand, resolving it against the symbol table.
pub fn symbol_branch(cur_adrs: u32, imm: i16, symbol_table: &HashMap<u32, String>) -> (r: String)
    ensures
        r@ == branch_text(cur_adrs, imm, symbol_table@),
{
    let adrs: u32 = calc_branch(cur_adrs, imm);
    let mut r = crate::text::signed_text(imm);
    match symbol_table.get(&adrs) {
        Some(sym) => {
            r.append(" <");
            r.append(sym.as_str());
            r.append(">");
        },
        None => {},
    }
    proof {
        assert(r@ =~= branch_text(cur_adrs, imm, symbol_table@));
    }
    r
}

/// Renders a jump target operand, resolving it against the symbol table.
pub fn symbol_jump(cur_adrs: u32, target: u32, symbol_table: &HashMap<u32, String>) -> (r: String)
    ensures
        r@ == jump_text(cur_adrs, target, symbol_table@),
{
    let adrs: u32 = calc_jump(cur_adrs, target);
    let mut r = crate::text::unsigned_text(target);
    match symbol_table.get(&adrs) {
        Some(sym) => {
            r.append(" <");
            r.append(sym.as_str());
            r.append(">");
        },
        None => {},
    }
    proof {
        assert(r@ =~= jump_text(cur_adrs, target, symbol_table@));
    }
    r
}

} // verus!

//! The library-wide guarantees of the disassembler, stated over the
//! specification functions and proved for every input.

use crate::decode::{
    OP_REGIMM, OP_SPECIAL, disassembly_text, disassembly_with, recognized, regimm_recognized,
    regimm_text, special_recognized, special_text, unsupported_text,
};
use crate::fields::{funct_of, op_of, regimm_of};
use crate::regs::reg_table;
use crate::symbols::jump_addr;
use vstd::prelude::*;

verus! {

/// An R-type rendering is never empty, starts with an upper-case mnemonic
/// when the function code is in the table, and is the sentinel otherwise.
proof fn lemma_special_shape(w: u32, regf: spec_fn(u32) -> Seq<char>, pse: bool)
    ensures
        special_text(w, regf, pse).len() > 0,
        special_recognized(funct_of(w)) ==> special_text(w, regf, pse)[0] != 'n',
        !special_recognized(funct_of(w)) ==> special_text(w, regf, pse) == unsupported_text(),
{
    reveal_strlit("SLL");
    reveal_strlit("SRL");
    reveal_strlit("SRA");
    reveal_strlit("SLLV");
    reveal_strlit("SRLV");
    reveal_strlit("SRAV");
    reveal_strlit("JR");
    reveal_strlit("JALR");
    reveal_strlit("SYSCALL");
    reveal_strlit("MOVE");
    reveal_strlit("ADD");
    reveal_strlit("ADDU");
    reveal_strlit("SUB");
    reveal_strlit("SUBU");
    reveal_strlit("AND");
    reveal_strlit("OR");
    reveal_strlit("XOR");
    reveal_strlit("NOR");
    reveal_strlit("SLT");
    reveal_strlit("SLTU");
    reveal_strlit("not supported argument");
}

/// The same shape facts for the REGIMM branch group.
proof fn lemma_regimm_shape(
    w: u32,
    adrs: u32,
    syms: Map<u32, String>,
    regf: spec_fn(u32) -> Seq<char>,
    pse: bool,
)
    ensures
        regimm_text(w, adrs, syms, regf, pse).len() > 0,
        regimm_recognized(regimm_of(w)) ==> regimm_text(w, adrs, syms, regf, pse)[0] != 'n',
        !regimm_recognized(regimm_of(w)) ==> regimm_text(w, adrs, syms, regf, pse)
            == unsupported_text(),
{
    reveal_strlit("BGEZ");
    reveal_strlit("BLTZ");
    reveal_strlit("BAL");
    reveal_strlit("BGEZAL");
    reveal_strlit("BLTZAL");
    reveal_strlit("not supported argument");
}

/// The shape facts for the whole dispatch: the rendering is never empty,
/// starts with an upper-case mnemonic for every recognized word, and is
/// exactly the sentinel for every unrecognized one.
proof fn lemma_disassembly_shape(
    w: u32,
    adrs: u32,
    syms: Map<u32, String>,
    regf: spec_fn(u32) -> Seq<char>,
    pse: bool,
)
    ensures
        disassembly_with(w, adrs, syms, regf, pse).len() > 0,
        recognized(w) ==> disassembly_with(w, adrs, syms, regf, pse)[0] != 'n',
        !recognized(w) ==> disassembly_with(w, adrs, syms, regf, pse) == unsupported_text(),
{
    if w == 0 && pse {
        assert((0u32 >> 26) & 0x3f == 0 && 0u32 & 0x3f == 0) by (bit_vector);
        reveal_strlit("NOP");
    } else if op_of(w) == OP_SPECIAL {
        lemma_special_shape(w, regf, pse);
    } else if op_of(w) == OP_REGIMM {
        lemma_regimm_shape(w, adrs, syms, regf, pse);
    } else {
        reveal_strlit("J");
        reveal_strlit("JAL");
        reveal_strlit("B");
        reveal_strlit("BEQ");
        reveal_strlit("BNE");
        reveal_strlit("BLEZ");
        reveal_strlit("BGTZ");
        reveal_strlit("ADDI");
        reveal_strlit("ADDIU");
        reveal_strlit("SLTI");
        reveal_strlit("SLTIU");
        reveal_strlit("ANDI");
        reveal_strlit("ORI");
        reveal_strlit("XORI");
        reveal_strlit("LUI");
        reveal_strlit("CP0");
        reveal_strlit("LB");
        reveal_strlit("LBU");
        reveal_strlit("LH");
        reveal_strlit("LHU");
        reveal_strlit("LW");
        reveal_strlit("LWL");
        reveal_strlit("LWR");
        reveal_strlit("SB");
        reveal_strlit("SH");
        reveal_strlit("SW");
        reveal_strlit("SWL");
        reveal_strlit("SWR");
        reveal_strlit("not supported argument");
    }
}

/// Totality: for every word, address, symbol table and option setting, the
/// disassembly is a non-empty line.
pub proof fn lemma_disassembly_nonempty(
    w: u32,
    adrs: u32,
    syms: Map<u32, String>,
    use_reg_names: bool,
    pse: bool,
)
    ensures
        disassembly_text(w, adrs, syms, use_reg_names, pse).len() > 0,
{
    lemma_disassembly_shape(w, adrs, syms, reg_table(use_reg_names), pse);
}

/// With pseudo-instructions enabled, the all-zero word renders as `NOP`
/// at every address and under every symbol table.
pub proof fn lemma_zero_word_is_nop(adrs: u32, syms: Map<u32, String>, use_reg_names: bool)
    ensures
        disassembly_text(0, adrs, syms, use_reg_names, true) == "NOP"@,
{
}

/// With pseudo-instructions disabled, the all-zero word renders in its
/// full canonical form at every address and under every symbol table.
pub proof fn lemma_zero_word_plain(adrs: u32, syms: Map<u32, String>)
    ensures
        disassembly_text(0, adrs, syms, true, false) == "SLL $zero, $zero, $zero"@,
{
    assert((0u32 >> 26) & 0x3f == 0 && (0u32 >> 21) & 0x1f == 0 && (0u32 >> 16) & 0x1f == 0 && (
    0u32 >> 11) & 0x1f == 0 && (0u32 >> 6) & 0x1f == 0 && 0u32 & 0x3f == 0) by (bit_vector);
    reveal_strlit("SLL");
    reveal_strlit(" ");
    reveal_strlit(", ");
    reveal_strlit("$zero");
    reveal_strlit("SLL $zero, $zero, $zero");
    assert(disassembly_text(0, adrs, syms, true, false) =~= "SLL $zero, $zero, $zero"@);
}

/// The register-style option selects a register table and nothing else:
/// both settings instantiate the same rendering template, so mnemonics,
/// immediates and resolved targets cannot depend on it.
pub proof fn lemma_reg_style_selects_table_only(w: u32, adrs: u32, syms: Map<u32, String>, pse: bool)
    ensures
        disassembly_text(w, adrs, syms, true, pse) == disassembly_with(
            w,
            adrs,
            syms,
            reg_table(true),
            pse,
        ),
        disassembly_text(w, adrs, syms, false, pse) == disassembly_with(
            w,
            adrs,
            syms,
            reg_table(false),
            pse,
        ),
{
}

/// A resolved `J`/`JAL` target address keeps the top four bits of the
/// instruction address, whatever the 26-bit target field holds.
pub proof fn lemma_jump_target_keeps_high_bits(adrs: u32, target: u32)
    ensures
        jump_addr(adrs, target) >> 28 == adrs >> 28,
{
    assert(((adrs & 0xf000_0000) | ((target << 2) & 0x0fff_ffff)) >> 28 == adrs >> 28)
        by (bit_vector);
}

/// Every word outside the dispatch tables renders as the sentinel string,
/// whatever the address, symbol table and options.
pub proof fn lemma_unrecognized_is_sentinel(
    w: u32,
    adrs: u32,
    syms: Map<u32, String>,
    use_reg_names: bool,
    pse: bool,
)
    requires
        !recognized(w),
    ensures
        disassembly_text(w, adrs, syms, use_reg_names, pse) == unsupported_text(),
{
    lemma_disassembly_shape(w, adrs, syms, reg_table(use_reg_names), pse);
}

/// Conversely, no recognized word ever renders as the sentinel, so the
/// sentinel is a reliable signal of an unsupported instruction.
pub proof fn lemma_recognized_is_not_sentinel(
    w: u32,
    adrs: u32,
    syms: Map<u32, String>,
    use_reg_names: bool,
    pse: bool,
)
    requires
        recognized(w),
    ensures
        disassembly_text(w, adrs, syms, use_reg_names, pse) != unsupported_text(),
{
    lemma_disassembly_shape(w, adrs, syms, reg_table(use_reg_names), pse);
    reveal_strlit("not supported argument");
    assert(unsupported_text()[0] == 'n');
}

} // verus!

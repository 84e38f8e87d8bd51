//! Opcode dispatch and rendering: from a 32-bit instruction word to one
//! line of assembly text.

use crate::fields::{
    funct_of, imm_of, lemma_field_bounds, op_of, rd_of, regimm_of, rs_of, rt_of, shamt_of,
    target_of,
};
use crate::regs::{reg_table, reg_text};
use crate::symbols::{branch_text, jump_text, symbol_branch, symbol_jump};
use crate::text::{
    base_offset, dec_signed, join1, join2, join3, join_base_offset, line1, line2, line3,
    signed_text,
};
use std::collections::HashMap;
use vstd::prelude::*;

verus! {

pub const OP_SPECIAL: u32 = 0x00;

pub const OP_REGIMM: u32 = 0x01;

pub const OP_J: u32 = 0x02;

pub const OP_JAL: u32 = 0x03;

pub const OP_BEQ: u32 = 0x04;

pub const OP_BNE: u32 = 0x05;

pub const OP_BLEZ: u32 = 0x06;

pub const OP_BGTZ: u32 = 0x07;

pub const OP_ADDI: u32 = 0x08;

pub const OP_ADDIU: u32 = 0x09;

pub const OP_SLTI: u32 = 0x0a;

pub const OP_SLTIU: u32 = 0x0b;

pub const OP_ANDI: u32 = 0x0c;

pub const OP_ORI: u32 = 0x0d;

pub const OP_XORI: u32 = 0x0e;

pub const OP_LUI: u32 = 0x0f;

pub const OP_CP0: u32 = 0x10;

pub const OP_LB: u32 = 0x20;

pub const OP_LH: u32 = 0x21;

pub const OP_LWL: u32 = 0x22;

pub const OP_LW: u32 = 0x23;

pub const OP_LBU: u32 = 0x24;

pub const OP_LHU: u32 = 0x25;

pub const OP_LWR: u32 = 0x26;

pub const OP_SB: u32 = 0x28;

pub const OP_SH: u32 = 0x29;

pub const OP_SWL: u32 = 0x2a;

pub const OP_SW: u32 = 0x2b;

pub const OP_SWR: u32 = 0x2e;

pub const FUNCT_SLL: u32 = 0x00;

pub const FUNCT_SRL: u32 = 0x02;

pub const FUNCT_SRA: u32 = 0x03;

pub const FUNCT_SLLV: u32 = 0x04;

pub const FUNCT_SRLV: u32 = 0x06;

pub const FUNCT_SRAV: u32 = 0x07;

pub const FUNCT_JR: u32 = 0x08;

pub const FUNCT_JALR: u32 = 0x09;

pub const FUNCT_SYSCALL: u32 = 0x0c;

pub const FUNCT_ADD: u32 = 0x20;

pub const FUNCT_ADDU: u32 = 0x21;

pub const FUNCT_SUB: u32 = 0x22;

pub const FUNCT_SUBU: u32 = 0x23;

pub const FUNCT_AND: u32 = 0x24;

pub const FUNCT_OR: u32 = 0x25;

pub const FUNCT_XOR: u32 = 0x26;

pub const FUNCT_NOR: u32 = 0x27;

pub const FUNCT_SLT: u32 = 0x2a;

pub const FUNCT_SLTU: u32 = 0x2b;

pub const REGIMM_BLTZ: u32 = 0x00;

pub const REGIMM_BGEZ: u32 = 0x01;

pub const REGIMM_BLTZAL: u32 = 0x10;

pub const REGIMM_BGEZAL: u32 = 0x11;

/// The sentinel returned for every opcode or function code outside the
/// dispatch tables. It is lower-case, so no recognized rendering equals it.
pub open spec fn unsupported_text() -> Seq<char> {
    "not supported argument"@
}

/// A constant-shift line: `M rd, rt, shamt`, the shift amount rendered
/// through the register table.
pub open spec fn shift_line(
    m: Seq<char>,
    rd: u32,
    rt: u32,
    shamt: u32,
    regf: spec_fn(u32) -> Seq<char>,
) -> Seq<char> {
    line3(m, regf(rd), regf(rt), regf(shamt))
}

/// A variable-shift line: `M rd, rt, rs`.
pub open spec fn shiftv_line(
    m: Seq<char>,
    rd: u32,
    rt: u32,
    rs: u32,
    regf: spec_fn(u32) -> Seq<char>,
) -> Seq<char> {
    line3(m, regf(rd), regf(rt), regf(rs))
}

/// A three-register ALU line: `M rd, rs, rt`.
pub open spec fn alu_line(
    m: Seq<char>,
    rd: u32,
    rs: u32,
    rt: u32,
    regf: spec_fn(u32) -> Seq<char>,
) -> Seq<char> {
    line3(m, regf(rd), regf(rs), regf(rt))
}

/// An immediate ALU line: `M rt, rs, imm`.
pub open spec fn alu_imm_line(
    m: Seq<char>,
    rt: u32,
    rs: u32,
    imm: i16,
    regf: spec_fn(u32) -> Seq<char>,
) -> Seq<char> {
    line3(m, regf(rt), regf(rs), dec_signed(imm as int))
}

/// A load or store line: `M rt, imm(rs)`.
pub open spec fn mem_line(
    m: Seq<char>,
    rt: u32,
    imm: i16,
    rs: u32,
    regf: spec_fn(u32) -> Seq<char>,
) -> Seq<char> {
    line2(m, regf(rt), base_offset(dec_signed(imm as int), regf(rs)))
}

/// A one-register branch line: `M rs, target`.
pub open spec fn branch1_line(
    m: Seq<char>,
    rs: u32,
    cur: u32,
    imm: i16,
    syms: Map<u32, String>,
    regf: spec_fn(u32) -> Seq<char>,
) -> Seq<char> {
    line2(m, regf(rs), branch_text(cur, imm, syms))
}

/// The rendering of an R-type instruction (primary opcode 0), dispatched
/// on the function code.
pub open spec fn special_text(w: u32, regf: spec_fn(u32) -> Seq<char>, pse: bool) -> Seq<char> {
    let rs = rs_of(w);
    let rt = rt_of(w);
    let rd = rd_of(w);
    let shamt = shamt_of(w);
    let funct = funct_of(w);
    if funct == FUNCT_SLL {
        shift_line("SLL"@, rd, rt, shamt, regf)
    } else if funct == FUNCT_SRL {
        shift_line("SRL"@, rd, rt, shamt, regf)
    } else if funct == FUNCT_SRA {
        shift_line("SRA"@, rd, rt, shamt, regf)
    } else if funct == FUNCT_SLLV {
        shiftv_line("SLLV"@, rd, rt, rs, regf)
    } else if funct == FUNCT_SRLV {
        shiftv_line("SRLV"@, rd, rt, rs, regf)
    } else if funct == FUNCT_SRAV {
        shiftv_line("SRAV"@, rd, rt, rs, regf)
    } else if funct == FUNCT_JR {
        line1("JR"@, regf(rs))
    } else if funct == FUNCT_JALR {
        if pse && rd == 31 {
            line1("JALR"@, regf(rs))
        } else {
            line2("JALR"@, regf(rd), regf(rs))
        }
    } else if funct == FUNCT_SYSCALL {
        "SYSCALL"@
    } else if funct == FUNCT_ADD {
        if pse && rt == 0 {
            line2("MOVE"@, regf(rd), regf(rs))
        } else {
            alu_line("ADD"@, rd, rs, rt, regf)
        }
    } else if funct == FUNCT_ADDU {
        alu_line("ADDU"@, rd, rs, rt, regf)
    } else if funct == FUNCT_SUB {
        alu_line("SUB"@, rd, rs, rt, regf)
    } else if funct == FUNCT_SUBU {
        alu_line("SUBU"@, rd, rs, rt, regf)
    } else if funct == FUNCT_AND {
        alu_line("AND"@, rd, rs, rt, regf)
    } else if funct == FUNCT_OR {
        alu_line("OR"@, rd, rs, rt, regf)
    } else if funct == FUNCT_XOR {
        alu_line("XOR"@, rd, rs, rt, regf)
    } else if funct == FUNCT_NOR {
        alu_line("NOR"@, rd, rs, rt, regf)
    } else if funct == FUNCT_SLT {
        alu_line("SLT"@, rd, rs, rt, regf)
    } else if funct == FUNCT_SLTU {
        alu_line("SLTU"@, rd, rs, rt, regf)
    } else {
        unsupported_text()
    }
}

/// The rendering of a REGIMM branch (primary opcode 1), dispatched on the
/// sub-opcode held in the `rt` slot.
pub open spec fn regimm_text(
    w: u32,
    adrs: u32,
    syms: Map<u32, String>,
    regf: spec_fn(u32) -> Seq<char>,
    pse: bool,
) -> Seq<char> {
    let rs = rs_of(w);
    let sub = regimm_of(w);
    let imm = imm_of(w);
    if sub == REGIMM_BGEZ {
        branch1_line("BGEZ"@, rs, adrs, imm, syms, regf)
    } else if sub == REGIMM_BLTZ {
        branch1_line("BLTZ"@, rs, adrs, imm, syms, regf)
    } else if sub == REGIMM_BGEZAL {
        if pse && rs == 0 {
            line1("BAL"@, branch_text(adrs, imm, syms))
        } else {
            branch1_line("BGEZAL"@, rs, adrs, imm, syms, regf)
        }
    } else if sub == REGIMM_BLTZAL {
        branch1_line("BLTZAL"@, rs, adrs, imm, syms, regf)
    } else {
        unsupported_text()
    }
}

/// The full rendering, parameterized by the register table. The rendering
/// option `use_reg_names` enters the result only through this parameter.
pub open spec fn disassembly_with(
    w: u32,
    adrs: u32,
    syms: Map<u32, String>,
    regf: spec_fn(u32) -> Seq<char>,
    pse: bool,
) -> Seq<char> {
    if w == 0 && pse {
        "NOP"@
    } else {
        let op = op_of(w);
        let rs = rs_of(w);
        let rt = rt_of(w);
        let imm = imm_of(w);
        if op == OP_SPECIAL {
            special_text(w, regf, pse)
        } else if op == OP_REGIMM {
            regimm_text(w, adrs, syms, regf, pse)
        } else if op == OP_J {
            line1("J"@, jump_text(adrs, target_of(w), syms))
        } else if op == OP_JAL {
            line1("JAL"@, jump_text(adrs, target_of(w), syms))
        } else if op == OP_BEQ {
            if pse && rs == 0 && rt == 0 {
                line1("B"@, branch_text(adrs, imm, syms))
            } else {
                line3("BEQ"@, regf(rs), regf(rt), branch_text(adrs, imm, syms))
            }
        } else if op == OP_BNE {
            line3("BNE"@, regf(rs), regf(rt), branch_text(adrs, imm, syms))
        } else if op == OP_BLEZ {
            branch1_line("BLEZ"@, rs, adrs, imm, syms, regf)
        } else if op == OP_BGTZ {
            branch1_line("BGTZ"@, rs, adrs, imm, syms, regf)
        } else if op == OP_ADDI {
            alu_imm_line("ADDI"@, rt, rs, imm, regf)
        } else if op == OP_ADDIU {
            alu_imm_line("ADDIU"@, rt, rs, imm, regf)
        } else if op == OP_SLTI {
            alu_imm_line("SLTI"@, rt, rs, imm, regf)
        } else if op == OP_SLTIU {
            alu_imm_line("SLTIU"@, rt, rs, imm, regf)
        } else if op == OP_ANDI {
            alu_imm_line("ANDI"@, rt, rs, imm, regf)
        } else if op == OP_ORI {
            alu_imm_line("ORI"@, rt, rs, imm, regf)
        } else if op == OP_XORI {
            alu_imm_line("XORI"@, rt, rs, imm, regf)
        } else if op == OP_LUI {
            alu_imm_line("LUI"@, rt, rs, imm, regf)
        } else if op == OP_CP0 {
            "CP0"@
        } else if op == OP_LB {
            mem_line("LB"@, rt, imm, rs, regf)
        } else if op == OP_LBU {
            mem_line("LBU"@, rt, imm, rs, regf)
        } else if op == OP_LH {
            mem_line("LH"@, rt, imm, rs, regf)
        } else if op == OP_LHU {
            mem_line("LHU"@, rt, imm, rs, regf)
        } else if op == OP_LW {
            mem_line("LW"@, rt, imm, rs, regf)
        } else if op == OP_LWL {
            mem_line("LWL"@, rt, imm, rs, regf)
        } else if op == OP_LWR {
            mem_line("LWR"@, rt, imm, rs, regf)
        } else if op == OP_SB {
            mem_line("SB"@, rt, imm, rs, regf)
        } else if op == OP_SH {
            mem_line("SH"@, rt, imm, rs, regf)
        } else if op == OP_SW {
            mem_line("SW"@, rt, imm, rs, regf)
        } else if op == OP_SWL {
            mem_line("SWL"@, rt, imm, rs, regf)
        } else if op == OP_SWR {
            mem_line("SWR"@, rt, imm, rs, regf)
        } else {
            unsupported_text()
        }
    }
}

/// The exact text that disassembling `w` at address `adrs` produces, for a
/// given symbol table and the two rendering options.
pub open spec fn disassembly_text(
    w: u32,
    adrs: u32,
    syms: Map<u32, String>,
    use_reg_names: bool,
    pse: bool,
) -> Seq<char> {
    disassembly_with(w, adrs, syms, reg_table(use_reg_names), pse)
}

/// Whether the function code of an R-type word is in the dispatch table.
pub open spec fn special_recognized(funct: u32) -> bool {
    ||| funct == FUNCT_SLL
    ||| funct == FUNCT_SRL
    ||| funct == FUNCT_SRA
    ||| funct == FUNCT_SLLV
    ||| funct == FUNCT_SRLV
    ||| funct == FUNCT_SRAV
    ||| funct == FUNCT_JR
    ||| funct == FUNCT_JALR
    ||| funct == FUNCT_SYSCALL
    ||| funct == FUNCT_ADD
    ||| funct == FUNCT_ADDU
    ||| funct == FUNCT_SUB
    ||| funct == FUNCT_SUBU
    ||| funct == FUNCT_AND
    ||| funct == FUNCT_OR
    ||| funct == FUNCT_XOR
    ||| funct == FUNCT_NOR
    ||| funct == FUNCT_SLT
    ||| funct == FUNCT_SLTU
}

/// Whether the REGIMM sub-opcode is in the dispatch table.
pub open spec fn regimm_recognized(sub: u32) -> bool {
    ||| sub == REGIMM_BLTZ
    ||| sub == REGIMM_BGEZ
    ||| sub == REGIMM_BLTZAL
    ||| sub == REGIMM_BGEZAL
}

/// Whether the word's opcode (and, for the two grouped opcodes, its
/// secondary code) is in the dispatch tables. Exactly the words outside
/// this set render as the unsupported-instruction sentinel.
pub open spec fn recognized(w: u32) -> bool {
    let op = op_of(w);
    if op == OP_SPECIAL {
        special_recognized(funct_of(w))
    } else if op == OP_REGIMM {
        regimm_recognized(regimm_of(w))
    } else {
        ||| op == OP_J
        ||| op == OP_JAL
        ||| op == OP_BEQ
        ||| op == OP_BNE
        ||| op == OP_BLEZ
        ||| op == OP_BGTZ
        ||| op == OP_ADDI
        ||| op == OP_ADDIU
        ||| op == OP_SLTI
        ||| op == OP_SLTIU
        ||| op == OP_ANDI
        ||| op == OP_ORI
        ||| op == OP_XORI
        ||| op == OP_LUI
        ||| op == OP_CP0
        ||| op == OP_LB
        ||| op == OP_LBU
        ||| op == OP_LH
        ||| op == OP_LHU
        ||| op == OP_LW
        ||| op == OP_LWL
        ||| op == OP_LWR
        ||| op == OP_SB
        ||| op == OP_SH
        ||| op == OP_SW
        ||| op == OP_SWL
        ||| op == OP_SWR
    }
}

/// Rendering options: `use_reg_names` selects conventional register
/// mnemonics over `$0`-style numbers; `pseudo_instructions` enables the
/// canonical short forms (`NOP`, `MOVE`, `B`, `BAL`, one-operand `JALR`).
pub struct MipsDisassemblyOptions {
    pub use_reg_names: bool,
    pub pseudo_instructions: bool,
}

impl MipsDisassemblyOptions {
    /// Builds an options record with the two switches as given.
    pub fn new(use_reg_names: bool, pseudo_instructions: bool) -> (r: Self)
        ensures
            r.use_reg_names == use_reg_names,
            r.pseudo_instructions == pseudo_instructions,
    {
        Self { use_reg_names, pseudo_instructions }
    }
}

impl Default for MipsDisassemblyOptions {
    /// Register mnemonics and pseudo-instructions both enabled.
    fn default() -> (r: Self)
        ensures
            r.use_reg_names,
            r.pseudo_instructions,
    {
        Self { use_reg_names: true, pseudo_instructions: true }
    }
}

/// Renders an R-type instruction word.
fn decode_special(w: u32, un: bool, pse: bool) -> (r: String)
    ensures
        r@ == special_text(w, reg_table(un), pse),
{
    proof {
        lemma_field_bounds(w);
    }
    let rs: u32 = (w >> 21) & 0x1f;
    let rt: u32 = (w >> 16) & 0x1f;
    let rd: u32 = (w >> 11) & 0x1f;
    let shamt: u32 = (w >> 6) & 0x1f;
    let funct: u32 = w & 0x3f;
    if funct == FUNCT_SLL {
        join3("SLL", reg_text(rd, un), reg_text(rt, un), reg_text(shamt, un))
    } else if funct == FUNCT_SRL {
        join3("SRL", reg_text(rd, un), reg_text(rt, un), reg_text(shamt, un))
    } else if funct == FUNCT_SRA {
        join3("SRA", reg_text(rd, un), reg_text(rt, un), reg_text(shamt, un))
    } else if funct == FUNCT_SLLV {
        join3("SLLV", reg_text(rd, un), reg_text(rt, un), reg_text(rs, un))
    } else if funct == FUNCT_SRLV {
        join3("SRLV", reg_text(rd, un), reg_text(rt, un), reg_text(rs, un))
    } else if funct == FUNCT_SRAV {
        join3("SRAV", reg_text(rd, un), reg_text(rt, un), reg_text(rs, un))
    } else if funct == FUNCT_JR {
        join1("JR", reg_text(rs, un))
    } else if funct == FUNCT_JALR {
        if pse && rd == 31 {
            join1("JALR", reg_text(rs, un))
        } else {
            join2("JALR", reg_text(rd, un), reg_text(rs, un))
        }
    } else if funct == FUNCT_SYSCALL {
        "SYSCALL".to_owned()
    } else if funct == FUNCT_ADD {
        if pse && rt == 0 {
            join2("MOVE", reg_text(rd, un), reg_text(rs, un))
        } else {
            join3("ADD", reg_text(rd, un), reg_text(rs, un), reg_text(rt, un))
        }
    } else if funct == FUNCT_ADDU {
        join3("ADDU", reg_text(rd, un), reg_text(rs, un), reg_text(rt, un))
    } else if funct == FUNCT_SUB {
        join3("SUB", reg_text(rd, un), reg_text(rs, un), reg_text(rt, un))
    } else if funct == FUNCT_SUBU {
        join3("SUBU", reg_text(rd, un), reg_text(rs, un), reg_text(rt, un))
    } else if funct == FUNCT_AND {
        join3("AND", reg_text(rd, un), reg_text(rs, un), reg_text(rt, un))
    } else if funct == FUNCT_OR {
        join3("OR", reg_text(rd, un), reg_text(rs, un), reg_text(rt, un))
    } else if funct == FUNCT_XOR {
        join3("XOR", reg_text(rd, un), reg_text(rs, un), reg_text(rt, un))
    } else if funct == FUNCT_NOR {
        join3("NOR", reg_text(rd, un), reg_text(rs, un), reg_text(rt, un))
    } else if funct == FUNCT_SLT {
        join3("SLT", reg_text(rd, un), reg_text(rs, un), reg_text(rt, un))
    } else if funct == FUNCT_SLTU {
        join3("SLTU", reg_text(rd, un), reg_text(rs, un), reg_text(rt, un))
    } else {
        "not supported argument".to_owned()
    }
}

/// Renders a REGIMM branch word.
fn decode_regimm(
    w: u32,
    adrs: u32,
    symbol_table: &HashMap<u32, String>,
    un: bool,
    pse: bool,
) -> (r: String)
    ensures
        r@ == regimm_text(w, adrs, symbol_table@, reg_table(un), pse),
{
    proof {
        lemma_field_bounds(w);
    }
    let rs: u32 = (w >> 21) & 0x1f;
    let sub: u32 = (w >> 16) & 0x1f;
    let imm: i16 = (w & 0xffff) as i16;
    if sub == REGIMM_BGEZ {
        join2("BGEZ", reg_text(rs, un), symbol_branch(adrs, imm, symbol_table))
    } else if sub == REGIMM_BLTZ {
        join2("BLTZ", reg_text(rs, un), symbol_branch(adrs, imm, symbol_table))
    } else if sub == REGIMM_BGEZAL {
        if pse && rs == 0 {
            join1("BAL", symbol_branch(adrs, imm, symbol_table))
        } else {
            join2("BGEZAL", reg_text(rs, un), symbol_branch(adrs, imm, symbol_table))
        }
    } else if sub == REGIMM_BLTZAL {
        join2("BLTZAL", reg_text(rs, un), symbol_branch(adrs, imm, symbol_table))
    } else {
        "not supported argument".to_owned()
    }
}

/// Renders an immediate ALU instruction word: `M rt, rs, imm`.
fn alu_imm_text(m: &str, w: u32, un: bool) -> (r: String)
    ensures
        r@ == alu_imm_line(m@, rt_of(w), rs_of(w), imm_of(w), reg_table(un)),
{
    proof {
        lemma_field_bounds(w);
    }
    let rs: u32 = (w >> 21) & 0x1f;
    let rt: u32 = (w >> 16) & 0x1f;
    let imm: i16 = (w & 0xffff) as i16;
    join3(m, reg_text(rt, un), reg_text(rs, un), signed_text(imm))
}

/// Renders a load or store instruction word: `M rt, imm(rs)`.
fn mem_text(m: &str, w: u32, un: bool) -> (r: String)
    ensures
        r@ == mem_line(m@, rt_of(w), imm_of(w), rs_of(w), reg_table(un)),
{
    proof {
        lemma_field_bounds(w);
    }
    let rs: u32 = (w >> 21) & 0x1f;
    let rt: u32 = (w >> 16) & 0x1f;
    let imm: i16 = (w & 0xffff) as i16;
    join2(m, reg_text(rt, un), join_base_offset(signed_text(imm), reg_text(rs, un)))
}

/// Disassembles one instruction word with full context: the word's own
/// address (for branch and jump resolution), a symbol table consulted for
/// resolved targets, and the two rendering options. Total: every word,
/// recognized or not, yields a line of text.
pub fn get_disassembly_adv(
    machine_code: u32,
    instruction_address: u32,
    symbol_table: &HashMap<u32, String>,
    options: &MipsDisassemblyOptions,
) -> (r: String)
    ensures
        r@ == disassembly_text(
            machine_code,
            instruction_address,
            symbol_table@,
            options.use_reg_names,
            options.pseudo_instructions,
        ),
{
    let un: bool = options.use_reg_names;
    let pse: bool = options.pseudo_instructions;
    if machine_code == 0 && pse {
        "NOP".to_owned()
    } else {
        proof {
            lemma_field_bounds(machine_code);
        }
        let op: u32 = (machine_code >> 26) & 0x3f;
        let rs: u32 = (machine_code >> 21) & 0x1f;
        let rt: u32 = (machine_code >> 16) & 0x1f;
        let imm: i16 = (machine_code & 0xffff) as i16;
        let target: u32 = machine_code & 0x03ff_ffff;
        if op == OP_SPECIAL {
            decode_special(machine_code, un, pse)
        } else if op == OP_REGIMM {
            decode_regimm(machine_code, instruction_address, symbol_table, un, pse)
        } else if op == OP_J {
            join1("J", symbol_jump(instruction_address, target, symbol_table))
        } else if op == OP_JAL {
            join1("JAL", symbol_jump(instruction_address, target, symbol_table))
        } else if op == OP_BEQ {
            if pse && rs == 0 && rt == 0 {
                join1("B", symbol_branch(instruction_address, imm, symbol_table))
            } else {
                join3(
                    "BEQ",
                    reg_text(rs, un),
                    reg_text(rt, un),
                    symbol_branch(instruction_address, imm, symbol_table),
                )
            }
        } else if op == OP_BNE {
            join3(
                "BNE",
                reg_text(rs, un),
                reg_text(rt, un),
                symbol_branch(instruction_address, imm, symbol_table),
            )
        } else if op == OP_BLEZ {
            join2("BLEZ", reg_text(rs, un), symbol_branch(instruction_address, imm, symbol_table))
        } else if op == OP_BGTZ {
            join2("BGTZ", reg_text(rs, un), symbol_branch(instruction_address, imm, symbol_table))
        } else if op == OP_ADDI {
            alu_imm_text("ADDI", machine_code, un)
        } else if op == OP_ADDIU {
            alu_imm_text("ADDIU", machine_code, un)
        } else if op == OP_SLTI {
            alu_imm_text("SLTI", machine_code, un)
        } else if op == OP_SLTIU {
            alu_imm_text("SLTIU", machine_code, un)
        } else if op == OP_ANDI {
            alu_imm_text("ANDI", machine_code, un)
        } else if op == OP_ORI {
            alu_imm_text("ORI", machine_code, un)
        } else if op == OP_XORI {
            alu_imm_text("XORI", machine_code, un)
        } else if op == OP_LUI {
            alu_imm_text("LUI", machine_code, un)
        } else if op == OP_CP0 {
            "CP0".to_owned()
        } else if op == OP_LB {
            mem_text("LB", machine_code, un)
        } else if op == OP_LBU {
            mem_text("LBU", machine_code, un)
        } else if op == OP_LH {
            mem_text("LH", machine_code, un)
        } else if op == OP_LHU {
            mem_text("LHU", machine_code, un)
        } else if op == OP_LW {
            mem_text("LW", machine_code, un)
        } else if op == OP_LWL {
            mem_text("LWL", machine_code, un)
        } else if op == OP_LWR {
            mem_text("LWR", machine_code, un)
        } else if op == OP_SB {
            mem_text("SB", machine_code, un)
        } else if op == OP_SH {
            mem_text("SH", machine_code, un)
        } else if op == OP_SW {
            mem_text("SW", machine_code, un)
        } else if op == OP_SWL {
            mem_text("SWL", machine_code, un)
        } else if op == OP_SWR {
            mem_text("SWR", machine_code, un)
        } else {
            "not supported argument".to_owned()
        }
    }
}

/// Disassembles one instruction word with the defaults: address 0, no
/// symbols, register mnemonics and pseudo-instructions enabled.
pub fn get_disassembly(machine_code: u32) -> (r: String)
    ensures
        r@ == disassembly_text(machine_code, 0, Map::<u32, String>::empty(), true, true),
{
    let symbol_table: HashMap<u32, String> = HashMap::new();
    let options = MipsDisassemblyOptions::default();
    get_disassembly_adv(machine_code, 0, &symbol_table, &options)
}

} // verus!

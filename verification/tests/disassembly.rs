use mips_disassembly::MipsDisassemblyOptions;
use mips_disassembly::get_disassembly;
use mips_disassembly::get_disassembly_adv;
use std::collections::HashMap;

#[test]
fn simple_test() {
    let mut sym_tab: HashMap<u32, String> = HashMap::new();
    sym_tab.insert(0x00000108, "decode_if".into());
    let instr: u32 = 0x11a0001a;
    let instr_adrs: u32 = 0x9c;
    assert_eq!(
        "BEQ $t5, $zero, 26 <decode_if>",
        get_disassembly_adv(
            instr,
            instr_adrs,
            &sym_tab,
            &MipsDisassemblyOptions::new(true, true)
        )
    );
}

#[test]
fn pseudo_instructions_test() {
    let instr: u32 = 0x0;
    assert_eq!(
        "NOP",
        get_disassembly_adv(
            instr,
            0x0,
            &HashMap::new(),
            &MipsDisassemblyOptions::new(true, true)
        )
    );
    assert_eq!(
        "SLL $zero, $zero, $zero",
        get_disassembly_adv(
            instr,
            0x0,
            &HashMap::new(),
            &MipsDisassemblyOptions::new(true, false)
        )
    );
}

#[test]
fn addiu_default_options() {
    assert_eq!("ADDIU $a1, $a1, 1", get_disassembly(0x24a50001));
}

#[test]
fn numeric_registers_change_only_register_names() {
    let mut sym_tab: HashMap<u32, String> = HashMap::new();
    sym_tab.insert(0x00000108, "decode_if".into());
    assert_eq!(
        "BEQ $13, $0, 26 <decode_if>",
        get_disassembly_adv(
            0x11a0001a,
            0x9c,
            &sym_tab,
            &MipsDisassemblyOptions::new(false, true)
        )
    );
}

#[test]
fn numeric_registers_for_zero_word() {
    assert_eq!(
        "SLL $0, $0, $0",
        get_disassembly_adv(
            0,
            0,
            &HashMap::new(),
            &MipsDisassemblyOptions::new(false, false)
        )
    );
}

#[test]
fn jump_resolves_symbol_with_high_bits_of_address() {
    // J with target field 0x40: absolute target 0x10000000 | (0x40 << 2).
    let mut sym_tab: HashMap<u32, String> = HashMap::new();
    sym_tab.insert(0x10000100, "entry".into());
    assert_eq!(
        "J 64 <entry>",
        get_disassembly_adv(
            0x08000040,
            0x10000000,
            &sym_tab,
            &MipsDisassemblyOptions::new(true, true)
        )
    );
    // The same word at address 0 resolves to 0x100, not 0x10000100.
    assert_eq!(
        "J 64",
        get_disassembly_adv(
            0x08000040,
            0,
            &sym_tab,
            &MipsDisassemblyOptions::new(true, true)
        )
    );
}

#[test]
fn jal_without_symbol() {
    assert_eq!("JAL 16", get_disassembly(0x0c000010));
}

#[test]
fn unsupported_primary_opcode() {
    assert_eq!("not supported argument", get_disassembly(0xfc000000));
}

#[test]
fn unsupported_function_code() {
    // Opcode 0 with function code 0x3f, absent from the R-type table.
    assert_eq!("not supported argument", get_disassembly(0x0000003f));
}

#[test]
fn unsupported_regimm_sub_opcode() {
    // Opcode 1 with sub-opcode 2 in the rt slot.
    assert_eq!("not supported argument", get_disassembly(0x04020000));
}

#[test]
fn move_pseudo_instruction() {
    // ADD $a1, $a0, $zero.
    let instr: u32 = 0x00802820;
    assert_eq!("MOVE $a1, $a0", get_disassembly(instr));
    assert_eq!(
        "ADD $a1, $a0, $zero",
        get_disassembly_adv(
            instr,
            0,
            &HashMap::new(),
            &MipsDisassemblyOptions::new(true, false)
        )
    );
}

#[test]
fn jalr_pseudo_instruction() {
    // JALR with rd = $ra and rs = $t0.
    let instr: u32 = 0x0100f809;
    assert_eq!("JALR $t0", get_disassembly(instr));
    assert_eq!(
        "JALR $ra, $t0",
        get_disassembly_adv(
            instr,
            0,
            &HashMap::new(),
            &MipsDisassemblyOptions::new(true, false)
        )
    );
}

#[test]
fn bal_pseudo_instruction() {
    // BGEZAL $zero with offset 4.
    let instr: u32 = 0x04110004;
    assert_eq!("BAL 4", get_disassembly(instr));
    assert_eq!(
        "BGEZAL $zero, 4",
        get_disassembly_adv(
            instr,
            0,
            &HashMap::new(),
            &MipsDisassemblyOptions::new(true, false)
        )
    );
}

#[test]
fn b_pseudo_instruction() {
    // BEQ $zero, $zero with offset 5.
    let instr: u32 = 0x10000005;
    assert_eq!("B 5", get_disassembly(instr));
    assert_eq!(
        "BEQ $zero, $zero, 5",
        get_disassembly_adv(
            instr,
            0,
            &HashMap::new(),
            &MipsDisassemblyOptions::new(true, false)
        )
    );
}

#[test]
fn load_with_positive_and_negative_offset() {
    assert_eq!("LW $a1, 4($a0)", get_disassembly(0x8c850004));
    assert_eq!("LW $a1, -4($a0)", get_disassembly(0x8c85fffc));
}

#[test]
fn store_word() {
    assert_eq!("SW $a1, 8($a0)", get_disassembly(0xac850008));
}

#[test]
fn syscall_and_cp0() {
    assert_eq!("SYSCALL", get_disassembly(0x0000000c));
    assert_eq!("CP0", get_disassembly(0x40000000));
}

#[test]
fn lui_immediate() {
    assert_eq!("LUI $a1, $zero, 4660", get_disassembly(0x3c051234));
}

#[test]
fn shift_amount_rendered_through_register_table() {
    // SRA $a2, $a1, shamt 2: the shift amount is shown via the register
    // table, as $v0.
    assert_eq!("SRA $a2, $a1, $v0", get_disassembly(0x00053083));
}

#[test]
fn branch_with_negative_offset_resolves_backwards() {
    let mut sym_tab: HashMap<u32, String> = HashMap::new();
    sym_tab.insert(0x000000fc, "loop".into());
    assert_eq!(
        "BNE $a1, $a1, -2 <loop>",
        get_disassembly_adv(
            0x14a5fffe,
            0x100,
            &sym_tab,
            &MipsDisassemblyOptions::new(true, true)
        )
    );
}

#[test]
fn branch_target_wraps_around_address_space() {
    let mut sym_tab: HashMap<u32, String> = HashMap::new();
    sym_tab.insert(0x00000000, "start".into());
    assert_eq!(
        "BEQ $a1, $a1, 0 <start>",
        get_disassembly_adv(
            0x10a50000,
            0xfffffffc,
            &sym_tab,
            &MipsDisassemblyOptions::new(true, true)
        )
    );
}

#[test]
fn regimm_branches() {
    assert_eq!("BGEZ $a1, 3", get_disassembly(0x04a10003));
    assert_eq!("BLTZ $a1, -1", get_disassembly(0x04a0ffff));
    assert_eq!("BLTZAL $a1, 2", get_disassembly(0x04b00002));
}

#[test]
fn alu_register_forms() {
    // ADDU $a2, $a0, $a1.
    assert_eq!("ADDU $a2, $a0, $a1", get_disassembly(0x00853021));
    // SLTU $a2, $a0, $a1.
    assert_eq!("SLTU $a2, $a0, $a1", get_disassembly(0x0085302b));
}

#[test]
fn saved_register_names() {
    // ADDU with rd = 15, rs = 16, rt = 17: the name table renders index 15
    // as $s7, like index 23.
    assert_eq!("ADDU $s7, $s0, $s1", get_disassembly(0x02117821));
    assert_eq!(
        "ADDU $15, $16, $17",
        get_disassembly_adv(
            0x02117821,
            0,
            &HashMap::new(),
            &MipsDisassemblyOptions::new(false, true)
        )
    );
}

#[test]
fn alu_immediate_forms() {
    // ANDI $a1, $a0, 255.
    assert_eq!("ANDI $a1, $a0, 255", get_disassembly(0x308500ff));
    // SLTI $a1, $a0, -1 (immediate is signed).
    assert_eq!("SLTI $a1, $a0, -1", get_disassembly(0x2885ffff));
}

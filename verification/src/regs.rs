//! The two register-name tables: conventional mnemonics and plain numbers.

use vstd::prelude::*;

verus! {

/// The conventional mnemonic of a register index.
pub open spec fn reg_mnemonic(i: u32) -> Seq<char>
    recommends
        i < 32,
{
    if i == 0 {
        "$zero"@
    } else if i == 1 {
        "$at"@
    } else if i == 2 {
        "$v0"@
    } else if i == 3 {
        "$v1"@
    } else if i == 4 {
        "$a0"@
    } else if i == 5 {
        "$a1"@
    } else if i == 6 {
        "$a2"@
    } else if i == 7 {
        "$a3"@
    } else if i == 8 {
        "$t0"@
    } else if i == 9 {
        "$t1"@
    } else if i == 10 {
        "$t2"@
    } else if i == 11 {
        "$t3"@
    } else if i == 12 {
        "$t4"@
    } else if i == 13 {
        "$t5"@
    } else if i == 14 {
        "$t6"@
    } else if i == 15 {
        "$s7"@
    } else if i == 16 {
        "$s0"@
    } else if i == 17 {
        "$s1"@
    } else if i == 18 {
        "$s2"@
    } else if i == 19 {
        "$s3"@
    } else if i == 20 {
        "$s4"@
    } else if i == 21 {
        "$s5"@
    } else if i == 22 {
        "$s6"@
    } else if i == 23 {
        "$s7"@
    } else if i == 24 {
        "$t8"@
    } else if i == 25 {
        "$t9"@
    } else if i == 26 {
        "$k0"@
    } else if i == 27 {
        "$k1"@
    } else if i == 28 {
        "$gp"@
    } else if i == 29 {
        "$sp"@
    } else if i == 30 {
        "$fp"@
    } else {
        "$ra"@
    }
}

/// The numeric form of a register index: `$0` through `$31`.
pub open spec fn reg_numeric(i: u32) -> Seq<char>
    recommends
        i < 32,
{
    seq!['$'] + crate::text::dec_digits(i as int)
}

/// The register-rendering table selected by the `use_reg_names` option.
/// Both tables are functions of the register index alone.
pub open spec fn reg_table(use_reg_names: bool) -> spec_fn(u32) -> Seq<char> {
    if use_reg_names {
        |i: u32| reg_mnemonic(i)
    } else {
        |i: u32| reg_numeric(i)
    }
}

/// Renders one register operand through the selected table.
pub fn reg_text(i: u32, use_reg_names: bool) -> (r: String)
    requires
        i < 32,
    ensures
        r@ == reg_table(use_reg_names)(i),
{
    if use_reg_names {
        let r: String = if i == 0 {
            "$zero".to_owned()
        } else if i == 1 {
            "$at".to_owned()
        } else if i == 2 {
            "$v0".to_owned()
        } else if i == 3 {
            "$v1".to_owned()
        } else if i == 4 {
            "$a0".to_owned()
        } else if i == 5 {
            "$a1".to_owned()
        } else if i == 6 {
            "$a2".to_owned()
        } else if i == 7 {
            "$a3".to_owned()
        } else if i == 8 {
            "$t0".to_owned()
        } else if i == 9 {
            "$t1".to_owned()
        } else if i == 10 {
            "$t2".to_owned()
        } else if i == 11 {
            "$t3".to_owned()
        } else if i == 12 {
            "$t4".to_owned()
        } else if i == 13 {
            "$t5".to_owned()
        } else if i == 14 {
            "$t6".to_owned()
        } else if i == 15 {
            "$s7".to_owned()
        } else if i == 16 {
            "$s0".to_owned()
        } else if i == 17 {
            "$s1".to_owned()
        } else if i == 18 {
            "$s2".to_owned()
        } else if i == 19 {
            "$s3".to_owned()
        } else if i == 20 {
            "$s4".to_owned()
        } else if i == 21 {
            "$s5".to_owned()
        } else if i == 22 {
            "$s6".to_owned()
        } else if i == 23 {
            "$s7".to_owned()
        } else if i == 24 {
            "$t8".to_owned()
        } else if i == 25 {
            "$t9".to_owned()
        } else if i == 26 {
            "$k0".to_owned()
        } else if i == 27 {
            "$k1".to_owned()
        } else if i == 28 {
            "$gp".to_owned()
        } else if i == 29 {
            "$sp".to_owned()
        } else if i == 30 {
            "$fp".to_owned()
        } else {
            "$ra".to_owned()
        };
        r
    } else {
        let mut r = "$".to_owned();
        let digits = crate::text::unsigned_text(i);
        r.append(digits.as_str());
        proof {
            reveal_strlit("$");
            assert(r@ =~= reg_numeric(i));
        }
        r
    }
}

} // verus!

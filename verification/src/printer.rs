//! The canonical pretty-printer and the parse/print round trip: a
//! well-formed program rendered to text parses back to itself, and every
//! program a successful parse yields is well-formed but for empty extern
//! names.  The shape lemmas below pin down the canonical mnemonic and
//! type-name spellings that the proofs lean on.

use vstd::prelude::*;
use vstd::string::*;
use crate::lang::{
    DataType, Instruction, InstructionType, InstructionValue, InstructionV, InstructionValueV,
    Label, LabelV, Program, ProgramV, Variable, VariableV, data_type_of, flags_of, mnemonic_of,
    opcode_of_mnemonic, paired, type_name_of, valueless,
};
use crate::parser::{
    empty_program, instruction_of_line, is_label_header, is_marker, is_data_marker,
    is_extern_marker, is_program_marker, is_section_like, label_name_of, line_has_jump,
    parse_extern_from, parse_label_from, parse_source, parse_top_from, parse_variables_from,
    push_label, variable_of_line, ParseErrorV,
};
use crate::text::{
    contains_char, contains_seq, eq_icase, first_index_of, is_ws, join_lines,
    lemma_contains_around_sep, lemma_contains_trim, lemma_eq_icase_refl, lemma_eq_icase_symm,
    lemma_eq_icase_trans, lemma_first_index_concat, lemma_first_index_of,
    lemma_not_contains_char, lemma_split_join, lemma_join_push, lemma_trim_identity, matches_at,
    no_newline, split_lines_spec, trim_spec,
};

verus! {

/// Every character is an ASCII capital letter.
pub open spec fn all_upper_alpha(s: Seq<char>) -> bool
    decreases s.len(),
{
    if s.len() == 0 {
        true
    } else {
        65 <= s[0] as u32 <= 90 && all_upper_alpha(s.subrange(1, s.len() as int))
    }
}

/// Every character is an ASCII small letter or digit.
pub open spec fn all_lower_alnum(s: Seq<char>) -> bool
    decreases s.len(),
{
    if s.len() == 0 {
        true
    } else {
        (97 <= s[0] as u32 <= 122 || 48 <= s[0] as u32 <= 57) && all_lower_alnum(
            s.subrange(1, s.len() as int),
        )
    }
}

proof fn lemma_all_upper_alpha_index(s: Seq<char>)
    requires
        all_upper_alpha(s),
    ensures
        forall|i: int| 0 <= i < s.len() ==> 65 <= #[trigger] (s[i] as u32) <= 90,
    decreases s.len(),
{
    if s.len() > 0 {
        let rest = s.subrange(1, s.len() as int);
        lemma_all_upper_alpha_index(rest);
        assert forall|i: int| 0 <= i < s.len() implies 65 <= #[trigger] (s[i] as u32) <= 90 by {
            if i > 0 {
                assert(rest[i - 1] == s[i]);
            }
        }
    }
}

proof fn lemma_all_lower_alnum_index(s: Seq<char>)
    requires
        all_lower_alnum(s),
    ensures
        forall|i: int|
            0 <= i < s.len() ==> (97 <= #[trigger] (s[i] as u32) <= 122 || 48 <= s[i] as u32
                <= 57),
    decreases s.len(),
{
    if s.len() > 0 {
        let rest = s.subrange(1, s.len() as int);
        lemma_all_lower_alnum_index(rest);
        assert forall|i: int|
            0 <= i < s.len() implies (97 <= #[trigger] (s[i] as u32) <= 122 || 48 <= s[i] as u32
            <= 57) by {
            if i > 0 {
                assert(rest[i - 1] == s[i]);
            }
        }
    }
}


/// Every canonical mnemonic is three ASCII capital letters.
pub proof fn lemma_mnemonic_shape(t: InstructionType)
    ensures
        mnemonic_of(t).len() == 3,
        all_upper_alpha(mnemonic_of(t)),
{
    reveal_with_fuel(all_upper_alpha, 5);
    match t {
        InstructionType::LDA => {
            reveal_strlit("LDA");
            assert(mnemonic_of(t).len() == 3);
            assert(all_upper_alpha(mnemonic_of(t)));
        },
        InstructionType::LDX => {
            reveal_strlit("LDX");
            assert(mnemonic_of(t).len() == 3);
            assert(all_upper_alpha(mnemonic_of(t)));
        },
        InstructionType::LDY => {
            reveal_strlit("LDY");
            assert(mnemonic_of(t).len() == 3);
            assert(all_upper_alpha(mnemonic_of(t)));
        },
        InstructionType::STA => {
            reveal_strlit("STA");
            assert(mnemonic_of(t).len() == 3);
            assert(all_upper_alpha(mnemonic_of(t)));
        },
        InstructionType::STX => {
            reveal_strlit("STX");
            assert(mnemonic_of(t).len() == 3);
            assert(all_upper_alpha(mnemonic_of(t)));
        },
        InstructionType::STY => {
            reveal_strlit("STY");
            assert(mnemonic_of(t).len() == 3);
            assert(all_upper_alpha(mnemonic_of(t)));
        },
        InstructionType::TAX => {
            reveal_strlit("TAX");
            assert(mnemonic_of(t).len() == 3);
            assert(all_upper_alpha(mnemonic_of(t)));
        },
        InstructionType::TAY => {
            reveal_strlit("TAY");
            assert(mnemonic_of(t).len() == 3);
            assert(all_upper_alpha(mnemonic_of(t)));
        },
        InstructionType::TXA => {
            reveal_strlit("TXA");
            assert(mnemonic_of(t).len() == 3);
            assert(all_upper_alpha(mnemonic_of(t)));
        },
        InstructionType::TYA => {
            reveal_strlit("TYA");
            assert(mnemonic_of(t).len() == 3);
            assert(all_upper_alpha(mnemonic_of(t)));
        },
        InstructionType::TSX => {
            reveal_strlit("TSX");
            assert(mnemonic_of(t).len() == 3);
            assert(all_upper_alpha(mnemonic_of(t)));
        },
        InstructionType::TXS => {
            reveal_strlit("TXS");
            assert(mnemonic_of(t).len() == 3);
            assert(all_upper_alpha(mnemonic_of(t)));
        },
        InstructionType::PHA => {
            reveal_strlit("PHA");
            assert(mnemonic_of(t).len() == 3);
            assert(all_upper_alpha(mnemonic_of(t)));
        },
        InstructionType::PHP => {
            reveal_strlit("PHP");
            assert(mnemonic_of(t).len() == 3);
            assert(all_upper_alpha(mnemonic_of(t)));
        },
        InstructionType::PLA => {
            reveal_strlit("PLA");
            assert(mnemonic_of(t).len() == 3);
            assert(all_upper_alpha(mnemonic_of(t)));
        },
        InstructionType::PLP => {
            reveal_strlit("PLP");
            assert(mnemonic_of(t).len() == 3);
            assert(all_upper_alpha(mnemonic_of(t)));
        },
        InstructionType::AND => {
            reveal_strlit("AND");
            assert(mnemonic_of(t).len() == 3);
            assert(all_upper_alpha(mnemonic_of(t)));
        },
        InstructionType::EOR => {
            reveal_strlit("EOR");
            assert(mnemonic_of(t).len() == 3);
            assert(all_upper_alpha(mnemonic_of(t)));
        },
        InstructionType::ORA => {
            reveal_strlit("ORA");
            assert(mnemonic_of(t).len() == 3);
            assert(all_upper_alpha(mnemonic_of(t)));
        },
        InstructionType::BIT => {
            reveal_strlit("BIT");
            assert(mnemonic_of(t).len() == 3);
            assert(all_upper_alpha(mnemonic_of(t)));
        },
        InstructionType::ADC => {
            reveal_strlit("ADC");
            assert(mnemonic_of(t).len() == 3);
            assert(all_upper_alpha(mnemonic_of(t)));
        },
        InstructionType::SBC => {
            reveal_strlit("SBC");
            assert(mnemonic_of(t).len() == 3);
            assert(all_upper_alpha(mnemonic_of(t)));
        },
        InstructionType::CMP => {
            reveal_strlit("CMP");
            assert(mnemonic_of(t).len() == 3);
            assert(all_upper_alpha(mnemonic_of(t)));
        },
        InstructionType::CPX => {
            reveal_strlit("CPX");
            assert(mnemonic_of(t).len() == 3);
            assert(all_upper_alpha(mnemonic_of(t)));
        },
        InstructionType::CPY => {
            reveal_strlit("CPY");
            assert(mnemonic_of(t).len() == 3);
            assert(all_upper_alpha(mnemonic_of(t)));
        },
        InstructionType::INC => {
            reveal_strlit("INC");
            assert(mnemonic_of(t).len() == 3);
            assert(all_upper_alpha(mnemonic_of(t)));
        },
        InstructionType::INX => {
            reveal_strlit("INX");
            assert(mnemonic_of(t).len() == 3);
            assert(all_upper_alpha(mnemonic_of(t)));
        },
        InstructionType::INY => {
            reveal_strlit("INY");
            assert(mnemonic_of(t).len() == 3);
            assert(all_upper_alpha(mnemonic_of(t)));
        },
        InstructionType::DEC => {
            reveal_strlit("DEC");
            assert(mnemonic_of(t).len() == 3);
            assert(all_upper_alpha(mnemonic_of(t)));
        },
        InstructionType::DEX => {
            reveal_strlit("DEX");
            assert(mnemonic_of(t).len() == 3);
            assert(all_upper_alpha(mnemonic_of(t)));
        },
        InstructionType::DEY => {
            reveal_strlit("DEY");
            assert(mnemonic_of(t).len() == 3);
            assert(all_upper_alpha(mnemonic_of(t)));
        },
        InstructionType::ASL => {
            reveal_strlit("ASL");
            assert(mnemonic_of(t).len() == 3);
            assert(all_upper_alpha(mnemonic_of(t)));
        },
        InstructionType::LSR => {
            reveal_strlit("LSR");
            assert(mnemonic_of(t).len() == 3);
            assert(all_upper_alpha(mnemonic_of(t)));
        },
        InstructionType::ROL => {
            reveal_strlit("ROL");
            assert(mnemonic_of(t).len() == 3);
            assert(all_upper_alpha(mnemonic_of(t)));
        },
        InstructionType::ROR => {
            reveal_strlit("ROR");
            assert(mnemonic_of(t).len() == 3);
            assert(all_upper_alpha(mnemonic_of(t)));
        },
        InstructionType::JMP => {
            reveal_strlit("JMP");
            assert(mnemonic_of(t).len() == 3);
            assert(all_upper_alpha(mnemonic_of(t)));
        },
        InstructionType::JSR => {
            reveal_strlit("JSR");
            assert(mnemonic_of(t).len() == 3);
            assert(all_upper_alpha(mnemonic_of(t)));
        },
        InstructionType::RTS => {
            reveal_strlit("RTS");
            assert(mnemonic_of(t).len() == 3);
            assert(all_upper_alpha(mnemonic_of(t)));
        },
        InstructionType::BCC => {
            reveal_strlit("BCC");
            assert(mnemonic_of(t).len() == 3);
            assert(all_upper_alpha(mnemonic_of(t)));
        },
        InstructionType::BCS => {
            reveal_strlit("BCS");
            assert(mnemonic_of(t).len() == 3);
            assert(all_upper_alpha(mnemonic_of(t)));
        },
        InstructionType::BEQ => {
            reveal_strlit("BEQ");
            assert(mnemonic_of(t).len() == 3);
            assert(all_upper_alpha(mnemonic_of(t)));
        },
        InstructionType::BMI => {
            reveal_strlit("BMI");
            assert(mnemonic_of(t).len() == 3);
            assert(all_upper_alpha(mnemonic_of(t)));
        },
        InstructionType::BNE => {
            reveal_strlit("BNE");
            assert(mnemonic_of(t).len() == 3);
            assert(all_upper_alpha(mnemonic_of(t)));
        },
        InstructionType::BPL => {
            reveal_strlit("BPL");
            assert(mnemonic_of(t).len() == 3);
            assert(all_upper_alpha(mnemonic_of(t)));
        },
        InstructionType::BVC => {
            reveal_strlit("BVC");
            assert(mnemonic_of(t).len() == 3);
            assert(all_upper_alpha(mnemonic_of(t)));
        },
        InstructionType::BVS => {
            reveal_strlit("BVS");
            assert(mnemonic_of(t).len() == 3);
            assert(all_upper_alpha(mnemonic_of(t)));
        },
        InstructionType::CLC => {
            reveal_strlit("CLC");
            assert(mnemonic_of(t).len() == 3);
            assert(all_upper_alpha(mnemonic_of(t)));
        },
        InstructionType::CLD => {
            reveal_strlit("CLD");
            assert(mnemonic_of(t).len() == 3);
            assert(all_upper_alpha(mnemonic_of(t)));
        },
        InstructionType::CLI => {
            reveal_strlit("CLI");
            assert(mnemonic_of(t).len() == 3);
            assert(all_upper_alpha(mnemonic_of(t)));
        },
        InstructionType::CLV => {
            reveal_strlit("CLV");
            assert(mnemonic_of(t).len() == 3);
            assert(all_upper_alpha(mnemonic_of(t)));
        },
        InstructionType::SEC => {
            reveal_strlit("SEC");
            assert(mnemonic_of(t).len() == 3);
            assert(all_upper_alpha(mnemonic_of(t)));
        },
        InstructionType::SED => {
            reveal_strlit("SED");
            assert(mnemonic_of(t).len() == 3);
            assert(all_upper_alpha(mnemonic_of(t)));
        },
        InstructionType::SEI => {
            reveal_strlit("SEI");
            assert(mnemonic_of(t).len() == 3);
            assert(all_upper_alpha(mnemonic_of(t)));
        },
        InstructionType::BRK => {
            reveal_strlit("BRK");
            assert(mnemonic_of(t).len() == 3);
            assert(all_upper_alpha(mnemonic_of(t)));
        },
        InstructionType::NOP => {
            reveal_strlit("NOP");
            assert(mnemonic_of(t).len() == 3);
            assert(all_upper_alpha(mnemonic_of(t)));
        },
        InstructionType::RTI => {
            reveal_strlit("RTI");
            assert(mnemonic_of(t).len() == 3);
            assert(all_upper_alpha(mnemonic_of(t)));
        },
        InstructionType::JEQ => {
            reveal_strlit("JEQ");
            assert(mnemonic_of(t).len() == 3);
            assert(all_upper_alpha(mnemonic_of(t)));
        },
        InstructionType::JNE => {
            reveal_strlit("JNE");
            assert(mnemonic_of(t).len() == 3);
            assert(all_upper_alpha(mnemonic_of(t)));
        },
        InstructionType::CAL => {
            reveal_strlit("CAL");
            assert(mnemonic_of(t).len() == 3);
            assert(all_upper_alpha(mnemonic_of(t)));
        },
        InstructionType::MOV => {
            reveal_strlit("MOV");
            assert(mnemonic_of(t).len() == 3);
            assert(all_upper_alpha(mnemonic_of(t)));
        },
    }
}


/// Every canonical type name is lower-case letters and digits, nonempty.
pub proof fn lemma_type_name_shape(dt: DataType)
    ensures
        1 <= type_name_of(dt).len(),
        all_lower_alnum(type_name_of(dt)),
{
    reveal_with_fuel(all_lower_alnum, 8);
    match dt {
        DataType::Byte => {
            reveal_strlit("byte");
            assert(type_name_of(dt).len() == 4);
            assert(all_lower_alnum(type_name_of(dt)));
        },
        DataType::SByte => {
            reveal_strlit("sbyte");
            assert(type_name_of(dt).len() == 5);
            assert(all_lower_alnum(type_name_of(dt)));
        },
        DataType::Word => {
            reveal_strlit("word");
            assert(type_name_of(dt).len() == 4);
            assert(all_lower_alnum(type_name_of(dt)));
        },
        DataType::SWord => {
            reveal_strlit("sword");
            assert(type_name_of(dt).len() == 5);
            assert(all_lower_alnum(type_name_of(dt)));
        },
        DataType::DWord => {
            reveal_strlit("dword");
            assert(type_name_of(dt).len() == 5);
            assert(all_lower_alnum(type_name_of(dt)));
        },
        DataType::SDWord => {
            reveal_strlit("sdword");
            assert(type_name_of(dt).len() == 6);
            assert(all_lower_alnum(type_name_of(dt)));
        },
        DataType::QWord => {
            reveal_strlit("qword");
            assert(type_name_of(dt).len() == 5);
            assert(all_lower_alnum(type_name_of(dt)));
        },
        DataType::TByte => {
            reveal_strlit("tbyte");
            assert(type_name_of(dt).len() == 5);
            assert(all_lower_alnum(type_name_of(dt)));
        },
        DataType::Real4 => {
            reveal_strlit("real4");
            assert(type_name_of(dt).len() == 5);
            assert(all_lower_alnum(type_name_of(dt)));
        },
        DataType::Real8 => {
            reveal_strlit("real8");
            assert(type_name_of(dt).len() == 5);
            assert(all_lower_alnum(type_name_of(dt)));
        },
        DataType::Str4 => {
            reveal_strlit("str4");
            assert(type_name_of(dt).len() == 4);
            assert(all_lower_alnum(type_name_of(dt)));
        },
        DataType::Str8 => {
            reveal_strlit("str8");
            assert(type_name_of(dt).len() == 4);
            assert(all_lower_alnum(type_name_of(dt)));
        },
        DataType::Str16 => {
            reveal_strlit("str16");
            assert(type_name_of(dt).len() == 5);
            assert(all_lower_alnum(type_name_of(dt)));
        },
        DataType::Str32 => {
            reveal_strlit("str32");
            assert(type_name_of(dt).len() == 5);
            assert(all_lower_alnum(type_name_of(dt)));
        },
        DataType::Str64 => {
            reveal_strlit("str64");
            assert(type_name_of(dt).len() == 5);
            assert(all_lower_alnum(type_name_of(dt)));
        },
        DataType::Str128 => {
            reveal_strlit("str128");
            assert(type_name_of(dt).len() == 6);
            assert(all_lower_alnum(type_name_of(dt)));
        },
    }
}


/// A mnemonic the table accepts is case-insensitively equal to the
/// canonical spelling of the opcode it names.
pub proof fn lemma_opcode_lookup_canonical(s: Seq<char>, t: InstructionType)
    requires
        opcode_of_mnemonic(s) == Some(t),
    ensures
        eq_icase(mnemonic_of(t), s),
{
    if eq_icase(s, "lda"@) {
        assert(t == InstructionType::LDA);
        assert(eq_icase("LDA"@, "lda"@)) by {
            reveal_strlit("LDA");
            reveal_strlit("lda");
            reveal_with_fuel(eq_icase, 5);
        }
        lemma_eq_icase_symm(s, "lda"@);
        lemma_eq_icase_symm("LDA"@, "lda"@);
        lemma_eq_icase_trans("LDA"@, "lda"@, s);
    } else if eq_icase(s, "ldx"@) {
        assert(t == InstructionType::LDX);
        assert(eq_icase("LDX"@, "ldx"@)) by {
            reveal_strlit("LDX");
            reveal_strlit("ldx");
            reveal_with_fuel(eq_icase, 5);
        }
        lemma_eq_icase_symm(s, "ldx"@);
        lemma_eq_icase_symm("LDX"@, "ldx"@);
        lemma_eq_icase_trans("LDX"@, "ldx"@, s);
    } else if eq_icase(s, "ldy"@) {
        assert(t == InstructionType::LDY);
        assert(eq_icase("LDY"@, "ldy"@)) by {
            reveal_strlit("LDY");
            reveal_strlit("ldy");
            reveal_with_fuel(eq_icase, 5);
        }
        lemma_eq_icase_symm(s, "ldy"@);
        lemma_eq_icase_symm("LDY"@, "ldy"@);
        lemma_eq_icase_trans("LDY"@, "ldy"@, s);
    } else if eq_icase(s, "sta"@) {
        assert(t == InstructionType::STA);
        assert(eq_icase("STA"@, "sta"@)) by {
            reveal_strlit("STA");
            reveal_strlit("sta");
            reveal_with_fuel(eq_icase, 5);
        }
        lemma_eq_icase_symm(s, "sta"@);
        lemma_eq_icase_symm("STA"@, "sta"@);
        lemma_eq_icase_trans("STA"@, "sta"@, s);
    } else if eq_icase(s, "stx"@) {
        assert(t == InstructionType::STX);
        assert(eq_icase("STX"@, "stx"@)) by {
            reveal_strlit("STX");
            reveal_strlit("stx");
            reveal_with_fuel(eq_icase, 5);
        }
        lemma_eq_icase_symm(s, "stx"@);
        lemma_eq_icase_symm("STX"@, "stx"@);
        lemma_eq_icase_trans("STX"@, "stx"@, s);
    } else if eq_icase(s, "sty"@) {
        assert(t == InstructionType::STY);
        assert(eq_icase("STY"@, "sty"@)) by {
            reveal_strlit("STY");
            reveal_strlit("sty");
            reveal_with_fuel(eq_icase, 5);
        }
        lemma_eq_icase_symm(s, "sty"@);
        lemma_eq_icase_symm("STY"@, "sty"@);
        lemma_eq_icase_trans("STY"@, "sty"@, s);
    } else if eq_icase(s, "tax"@) {
        assert(t == InstructionType::TAX);
        assert(eq_icase("TAX"@, "tax"@)) by {
            reveal_strlit("TAX");
            reveal_strlit("tax");
            reveal_with_fuel(eq_icase, 5);
        }
        lemma_eq_icase_symm(s, "tax"@);
        lemma_eq_icase_symm("TAX"@, "tax"@);
        lemma_eq_icase_trans("TAX"@, "tax"@, s);
    } else if eq_icase(s, "tay"@) {
        assert(t == InstructionType::TAY);
        assert(eq_icase("TAY"@, "tay"@)) by {
            reveal_strlit("TAY");
            reveal_strlit("tay");
            reveal_with_fuel(eq_icase, 5);
        }
        lemma_eq_icase_symm(s, "tay"@);
        lemma_eq_icase_symm("TAY"@, "tay"@);
        lemma_eq_icase_trans("TAY"@, "tay"@, s);
    } else if eq_icase(s, "txa"@) {
        assert(t == InstructionType::TXA);
        assert(eq_icase("TXA"@, "txa"@)) by {
            reveal_strlit("TXA");
            reveal_strlit("txa");
            reveal_with_fuel(eq_icase, 5);
        }
        lemma_eq_icase_symm(s, "txa"@);
        lemma_eq_icase_symm("TXA"@, "txa"@);
        lemma_eq_icase_trans("TXA"@, "txa"@, s);
    } else if eq_icase(s, "tya"@) {
        assert(t == InstructionType::TYA);
        assert(eq_icase("TYA"@, "tya"@)) by {
            reveal_strlit("TYA");
            reveal_strlit("tya");
            reveal_with_fuel(eq_icase, 5);
        }
        lemma_eq_icase_symm(s, "tya"@);
        lemma_eq_icase_symm("TYA"@, "tya"@);
        lemma_eq_icase_trans("TYA"@, "tya"@, s);
    } else if eq_icase(s, "tsx"@) {
        assert(t == InstructionType::TSX);
        assert(eq_icase("TSX"@, "tsx"@)) by {
            reveal_strlit("TSX");
            reveal_strlit("tsx");
            reveal_with_fuel(eq_icase, 5);
        }
        lemma_eq_icase_symm(s, "tsx"@);
        lemma_eq_icase_symm("TSX"@, "tsx"@);
        lemma_eq_icase_trans("TSX"@, "tsx"@, s);
    } else if eq_icase(s, "txs"@) {
        assert(t == InstructionType::TXS);
        assert(eq_icase("TXS"@, "txs"@)) by {
            reveal_strlit("TXS");
            reveal_strlit("txs");
            reveal_with_fuel(eq_icase, 5);
        }
        lemma_eq_icase_symm(s, "txs"@);
        lemma_eq_icase_symm("TXS"@, "txs"@);
        lemma_eq_icase_trans("TXS"@, "txs"@, s);
    } else if eq_icase(s, "pha"@) {
        assert(t == InstructionType::PHA);
        assert(eq_icase("PHA"@, "pha"@)) by {
            reveal_strlit("PHA");
            reveal_strlit("pha");
            reveal_with_fuel(eq_icase, 5);
        }
        lemma_eq_icase_symm(s, "pha"@);
        lemma_eq_icase_symm("PHA"@, "pha"@);
        lemma_eq_icase_trans("PHA"@, "pha"@, s);
    } else if eq_icase(s, "php"@) {
        assert(t == InstructionType::PHP);
        assert(eq_icase("PHP"@, "php"@)) by {
            reveal_strlit("PHP");
            reveal_strlit("php");
            reveal_with_fuel(eq_icase, 5);
        }
        lemma_eq_icase_symm(s, "php"@);
        lemma_eq_icase_symm("PHP"@, "php"@);
        lemma_eq_icase_trans("PHP"@, "php"@, s);
    } else if eq_icase(s, "pla"@) {
        assert(t == InstructionType::PLA);
        assert(eq_icase("PLA"@, "pla"@)) by {
            reveal_strlit("PLA");
            reveal_strlit("pla");
            reveal_with_fuel(eq_icase, 5);
        }
        lemma_eq_icase_symm(s, "pla"@);
        lemma_eq_icase_symm("PLA"@, "pla"@);
        lemma_eq_icase_trans("PLA"@, "pla"@, s);
    } else if eq_icase(s, "plp"@) {
        assert(t == InstructionType::PLP);
        assert(eq_icase("PLP"@, "plp"@)) by {
            reveal_strlit("PLP");
            reveal_strlit("plp");
            reveal_with_fuel(eq_icase, 5);
        }
        lemma_eq_icase_symm(s, "plp"@);
        lemma_eq_icase_symm("PLP"@, "plp"@);
        lemma_eq_icase_trans("PLP"@, "plp"@, s);
    } else if eq_icase(s, "and"@) {
        assert(t == InstructionType::AND);
        assert(eq_icase("AND"@, "and"@)) by {
            reveal_strlit("AND");
            reveal_strlit("and");
            reveal_with_fuel(eq_icase, 5);
        }
        lemma_eq_icase_symm(s, "and"@);
        lemma_eq_icase_symm("AND"@, "and"@);
        lemma_eq_icase_trans("AND"@, "and"@, s);
    } else if eq_icase(s, "eor"@) {
        assert(t == InstructionType::EOR);
        assert(eq_icase("EOR"@, "eor"@)) by {
            reveal_strlit("EOR");
            reveal_strlit("eor");
            reveal_with_fuel(eq_icase, 5);
        }
        lemma_eq_icase_symm(s, "eor"@);
        lemma_eq_icase_symm("EOR"@, "eor"@);
        lemma_eq_icase_trans("EOR"@, "eor"@, s);
    } else if eq_icase(s, "ora"@) {
        assert(t == InstructionType::ORA);
        assert(eq_icase("ORA"@, "ora"@)) by {
            reveal_strlit("ORA");
            reveal_strlit("ora");
            reveal_with_fuel(eq_icase, 5);
        }
        lemma_eq_icase_symm(s, "ora"@);
        lemma_eq_icase_symm("ORA"@, "ora"@);
        lemma_eq_icase_trans("ORA"@, "ora"@, s);
    } else if eq_icase(s, "bit"@) {
        assert(t == InstructionType::BIT);
        assert(eq_icase("BIT"@, "bit"@)) by {
            reveal_strlit("BIT");
            reveal_strlit("bit");
            reveal_with_fuel(eq_icase, 5);
        }
        lemma_eq_icase_symm(s, "bit"@);
        lemma_eq_icase_symm("BIT"@, "bit"@);
        lemma_eq_icase_trans("BIT"@, "bit"@, s);
    } else if eq_icase(s, "adc"@) {
        assert(t == InstructionType::ADC);
        assert(eq_icase("ADC"@, "adc"@)) by {
            reveal_strlit("ADC");
            reveal_strlit("adc");
            reveal_with_fuel(eq_icase, 5);
        }
        lemma_eq_icase_symm(s, "adc"@);
        lemma_eq_icase_symm("ADC"@, "adc"@);
        lemma_eq_icase_trans("ADC"@, "adc"@, s);
    } else if eq_icase(s, "sbc"@) {
        assert(t == InstructionType::SBC);
        assert(eq_icase("SBC"@, "sbc"@)) by {
            reveal_strlit("SBC");
            reveal_strlit("sbc");
            reveal_with_fuel(eq_icase, 5);
        }
        lemma_eq_icase_symm(s, "sbc"@);
        lemma_eq_icase_symm("SBC"@, "sbc"@);
        lemma_eq_icase_trans("SBC"@, "sbc"@, s);
    } else if eq_icase(s, "cmp"@) {
        assert(t == InstructionType::CMP);
        assert(eq_icase("CMP"@, "cmp"@)) by {
            reveal_strlit("CMP");
            reveal_strlit("cmp");
            reveal_with_fuel(eq_icase, 5);
        }
        lemma_eq_icase_symm(s, "cmp"@);
        lemma_eq_icase_symm("CMP"@, "cmp"@);
        lemma_eq_icase_trans("CMP"@, "cmp"@, s);
    } else if eq_icase(s, "cpx"@) {
        assert(t == InstructionType::CPX);
        assert(eq_icase("CPX"@, "cpx"@)) by {
            reveal_strlit("CPX");
            reveal_strlit("cpx");
            reveal_with_fuel(eq_icase, 5);
        }
        lemma_eq_icase_symm(s, "cpx"@);
        lemma_eq_icase_symm("CPX"@, "cpx"@);
        lemma_eq_icase_trans("CPX"@, "cpx"@, s);
    } else if eq_icase(s, "cpy"@) {
        assert(t == InstructionType::CPY);
        assert(eq_icase("CPY"@, "cpy"@)) by {
            reveal_strlit("CPY");
            reveal_strlit("cpy");
            reveal_with_fuel(eq_icase, 5);
        }
        lemma_eq_icase_symm(s, "cpy"@);
        lemma_eq_icase_symm("CPY"@, "cpy"@);
        lemma_eq_icase_trans("CPY"@, "cpy"@, s);
    } else if eq_icase(s, "inc"@) {
        assert(t == InstructionType::INC);
        assert(eq_icase("INC"@, "inc"@)) by {
            reveal_strlit("INC");
            reveal_strlit("inc");
            reveal_with_fuel(eq_icase, 5);
        }
        lemma_eq_icase_symm(s, "inc"@);
        lemma_eq_icase_symm("INC"@, "inc"@);
        lemma_eq_icase_trans("INC"@, "inc"@, s);
    } else if eq_icase(s, "inx"@) {
        assert(t == InstructionType::INX);
        assert(eq_icase("INX"@, "inx"@)) by {
            reveal_strlit("INX");
            reveal_strlit("inx");
            reveal_with_fuel(eq_icase, 5);
        }
        lemma_eq_icase_symm(s, "inx"@);
        lemma_eq_icase_symm("INX"@, "inx"@);
        lemma_eq_icase_trans("INX"@, "inx"@, s);
    } else if eq_icase(s, "iny"@) {
        assert(t == InstructionType::INY);
        assert(eq_icase("INY"@, "iny"@)) by {
            reveal_strlit("INY");
            reveal_strlit("iny");
            reveal_with_fuel(eq_icase, 5);
        }
        lemma_eq_icase_symm(s, "iny"@);
        lemma_eq_icase_symm("INY"@, "iny"@);
        lemma_eq_icase_trans("INY"@, "iny"@, s);
    } else if eq_icase(s, "dec"@) {
        assert(t == InstructionType::DEC);
        assert(eq_icase("DEC"@, "dec"@)) by {
            reveal_strlit("DEC");
            reveal_strlit("dec");
            reveal_with_fuel(eq_icase, 5);
        }
        lemma_eq_icase_symm(s, "dec"@);
        lemma_eq_icase_symm("DEC"@, "dec"@);
        lemma_eq_icase_trans("DEC"@, "dec"@, s);
    } else if eq_icase(s, "dex"@) {
        assert(t == InstructionType::DEX);
        assert(eq_icase("DEX"@, "dex"@)) by {
            reveal_strlit("DEX");
            reveal_strlit("dex");
            reveal_with_fuel(eq_icase, 5);
        }
        lemma_eq_icase_symm(s, "dex"@);
        lemma_eq_icase_symm("DEX"@, "dex"@);
        lemma_eq_icase_trans("DEX"@, "dex"@, s);
    } else if eq_icase(s, "dey"@) {
        assert(t == InstructionType::DEY);
        assert(eq_icase("DEY"@, "dey"@)) by {
            reveal_strlit("DEY");
            reveal_strlit("dey");
            reveal_with_fuel(eq_icase, 5);
        }
        lemma_eq_icase_symm(s, "dey"@);
        lemma_eq_icase_symm("DEY"@, "dey"@);
        lemma_eq_icase_trans("DEY"@, "dey"@, s);
    } else if eq_icase(s, "asl"@) {
        assert(t == InstructionType::ASL);
        assert(eq_icase("ASL"@, "asl"@)) by {
            reveal_strlit("ASL");
            reveal_strlit("asl");
            reveal_with_fuel(eq_icase, 5);
        }
        lemma_eq_icase_symm(s, "asl"@);
        lemma_eq_icase_symm("ASL"@, "asl"@);
        lemma_eq_icase_trans("ASL"@, "asl"@, s);
    } else if eq_icase(s, "lsr"@) {
        assert(t == InstructionType::LSR);
        assert(eq_icase("LSR"@, "lsr"@)) by {
            reveal_strlit("LSR");
            reveal_strlit("lsr");
            reveal_with_fuel(eq_icase, 5);
        }
        lemma_eq_icase_symm(s, "lsr"@);
        lemma_eq_icase_symm("LSR"@, "lsr"@);
        lemma_eq_icase_trans("LSR"@, "lsr"@, s);
    } else if eq_icase(s, "rol"@) {
        assert(t == InstructionType::ROL);
        assert(eq_icase("ROL"@, "rol"@)) by {
            reveal_strlit("ROL");
            reveal_strlit("rol");
            reveal_with_fuel(eq_icase, 5);
        }
        lemma_eq_icase_symm(s, "rol"@);
        lemma_eq_icase_symm("ROL"@, "rol"@);
        lemma_eq_icase_trans("ROL"@, "rol"@, s);
    } else if eq_icase(s, "ror"@) {
        assert(t == InstructionType::ROR);
        assert(eq_icase("ROR"@, "ror"@)) by {
            reveal_strlit("ROR");
            reveal_strlit("ror");
            reveal_with_fuel(eq_icase, 5);
        }
        lemma_eq_icase_symm(s, "ror"@);
        lemma_eq_icase_symm("ROR"@, "ror"@);
        lemma_eq_icase_trans("ROR"@, "ror"@, s);
    } else if eq_icase(s, "jmp"@) {
        assert(t == InstructionType::JMP);
        assert(eq_icase("JMP"@, "jmp"@)) by {
            reveal_strlit("JMP");
            reveal_strlit("jmp");
            reveal_with_fuel(eq_icase, 5);
        }
        lemma_eq_icase_symm(s, "jmp"@);
        lemma_eq_icase_symm("JMP"@, "jmp"@);
        lemma_eq_icase_trans("JMP"@, "jmp"@, s);
    } else if eq_icase(s, "jsr"@) {
        assert(t == InstructionType::JSR);
        assert(eq_icase("JSR"@, "jsr"@)) by {
            reveal_strlit("JSR");
            reveal_strlit("jsr");
            reveal_with_fuel(eq_icase, 5);
        }
        lemma_eq_icase_symm(s, "jsr"@);
        lemma_eq_icase_symm("JSR"@, "jsr"@);
        lemma_eq_icase_trans("JSR"@, "jsr"@, s);
    } else if eq_icase(s, "rts"@) {
        assert(t == InstructionType::RTS);
        assert(eq_icase("RTS"@, "rts"@)) by {
            reveal_strlit("RTS");
            reveal_strlit("rts");
            reveal_with_fuel(eq_icase, 5);
        }
        lemma_eq_icase_symm(s, "rts"@);
        lemma_eq_icase_symm("RTS"@, "rts"@);
        lemma_eq_icase_trans("RTS"@, "rts"@, s);
    } else if eq_icase(s, "bcc"@) {
        assert(t == InstructionType::BCC);
        assert(eq_icase("BCC"@, "bcc"@)) by {
            reveal_strlit("BCC");
            reveal_strlit("bcc");
            reveal_with_fuel(eq_icase, 5);
        }
        lemma_eq_icase_symm(s, "bcc"@);
        lemma_eq_icase_symm("BCC"@, "bcc"@);
        lemma_eq_icase_trans("BCC"@, "bcc"@, s);
    } else if eq_icase(s, "bcs"@) {
        assert(t == InstructionType::BCS);
        assert(eq_icase("BCS"@, "bcs"@)) by {
            reveal_strlit("BCS");
            reveal_strlit("bcs");
            reveal_with_fuel(eq_icase, 5);
        }
        lemma_eq_icase_symm(s, "bcs"@);
        lemma_eq_icase_symm("BCS"@, "bcs"@);
        lemma_eq_icase_trans("BCS"@, "bcs"@, s);
    } else if eq_icase(s, "beq"@) {
        assert(t == InstructionType::BEQ);
        assert(eq_icase("BEQ"@, "beq"@)) by {
            reveal_strlit("BEQ");
            reveal_strlit("beq");
            reveal_with_fuel(eq_icase, 5);
        }
        lemma_eq_icase_symm(s, "beq"@);
        lemma_eq_icase_symm("BEQ"@, "beq"@);
        lemma_eq_icase_trans("BEQ"@, "beq"@, s);
    } else if eq_icase(s, "bmi"@) {
        assert(t == InstructionType::BMI);
        assert(eq_icase("BMI"@, "bmi"@)) by {
            reveal_strlit("BMI");
            reveal_strlit("bmi");
            reveal_with_fuel(eq_icase, 5);
        }
        lemma_eq_icase_symm(s, "bmi"@);
        lemma_eq_icase_symm("BMI"@, "bmi"@);
        lemma_eq_icase_trans("BMI"@, "bmi"@, s);
    } else if eq_icase(s, "bne"@) {
        assert(t == InstructionType::BNE);
        assert(eq_icase("BNE"@, "bne"@)) by {
            reveal_strlit("BNE");
            reveal_strlit("bne");
            reveal_with_fuel(eq_icase, 5);
        }
        lemma_eq_icase_symm(s, "bne"@);
        lemma_eq_icase_symm("BNE"@, "bne"@);
        lemma_eq_icase_trans("BNE"@, "bne"@, s);
    } else if eq_icase(s, "bpl"@) {
        assert(t == InstructionType::BPL);
        assert(eq_icase("BPL"@, "bpl"@)) by {
            reveal_strlit("BPL");
            reveal_strlit("bpl");
            reveal_with_fuel(eq_icase, 5);
        }
        lemma_eq_icase_symm(s, "bpl"@);
        lemma_eq_icase_symm("BPL"@, "bpl"@);
        lemma_eq_icase_trans("BPL"@, "bpl"@, s);
    } else if eq_icase(s, "bvc"@) {
        assert(t == InstructionType::BVC);
        assert(eq_icase("BVC"@, "bvc"@)) by {
            reveal_strlit("BVC");
            reveal_strlit("bvc");
            reveal_with_fuel(eq_icase, 5);
        }
        lemma_eq_icase_symm(s, "bvc"@);
        lemma_eq_icase_symm("BVC"@, "bvc"@);
        lemma_eq_icase_trans("BVC"@, "bvc"@, s);
    } else if eq_icase(s, "bvs"@) {
        assert(t == InstructionType::BVS);
        assert(eq_icase("BVS"@, "bvs"@)) by {
            reveal_strlit("BVS");
            reveal_strlit("bvs");
            reveal_with_fuel(eq_icase, 5);
        }
        lemma_eq_icase_symm(s, "bvs"@);
        lemma_eq_icase_symm("BVS"@, "bvs"@);
        lemma_eq_icase_trans("BVS"@, "bvs"@, s);
    } else if eq_icase(s, "clc"@) {
        assert(t == InstructionType::CLC);
        assert(eq_icase("CLC"@, "clc"@)) by {
            reveal_strlit("CLC");
            reveal_strlit("clc");
            reveal_with_fuel(eq_icase, 5);
        }
        lemma_eq_icase_symm(s, "clc"@);
        lemma_eq_icase_symm("CLC"@, "clc"@);
        lemma_eq_icase_trans("CLC"@, "clc"@, s);
    } else if eq_icase(s, "cld"@) {
        assert(t == InstructionType::CLD);
        assert(eq_icase("CLD"@, "cld"@)) by {
            reveal_strlit("CLD");
            reveal_strlit("cld");
            reveal_with_fuel(eq_icase, 5);
        }
        lemma_eq_icase_symm(s, "cld"@);
        lemma_eq_icase_symm("CLD"@, "cld"@);
        lemma_eq_icase_trans("CLD"@, "cld"@, s);
    } else if eq_icase(s, "cli"@) {
        assert(t == InstructionType::CLI);
        assert(eq_icase("CLI"@, "cli"@)) by {
            reveal_strlit("CLI");
            reveal_strlit("cli");
            reveal_with_fuel(eq_icase, 5);
        }
        lemma_eq_icase_symm(s, "cli"@);
        lemma_eq_icase_symm("CLI"@, "cli"@);
        lemma_eq_icase_trans("CLI"@, "cli"@, s);
    } else if eq_icase(s, "clv"@) {
        assert(t == InstructionType::CLV);
        assert(eq_icase("CLV"@, "clv"@)) by {
            reveal_strlit("CLV");
            reveal_strlit("clv");
            reveal_with_fuel(eq_icase, 5);
        }
        lemma_eq_icase_symm(s, "clv"@);
        lemma_eq_icase_symm("CLV"@, "clv"@);
        lemma_eq_icase_trans("CLV"@, "clv"@, s);
    } else if eq_icase(s, "sec"@) {
        assert(t == InstructionType::SEC);
        assert(eq_icase("SEC"@, "sec"@)) by {
            reveal_strlit("SEC");
            reveal_strlit("sec");
            reveal_with_fuel(eq_icase, 5);
        }
        lemma_eq_icase_symm(s, "sec"@);
        lemma_eq_icase_symm("SEC"@, "sec"@);
        lemma_eq_icase_trans("SEC"@, "sec"@, s);
    } else if eq_icase(s, "sed"@) {
        assert(t == InstructionType::SED);
        assert(eq_icase("SED"@, "sed"@)) by {
            reveal_strlit("SED");
            reveal_strlit("sed");
            reveal_with_fuel(eq_icase, 5);
        }
        lemma_eq_icase_symm(s, "sed"@);
        lemma_eq_icase_symm("SED"@, "sed"@);
        lemma_eq_icase_trans("SED"@, "sed"@, s);
    } else if eq_icase(s, "sei"@) {
        assert(t == InstructionType::SEI);
        assert(eq_icase("SEI"@, "sei"@)) by {
            reveal_strlit("SEI");
            reveal_strlit("sei");
            reveal_with_fuel(eq_icase, 5);
        }
        lemma_eq_icase_symm(s, "sei"@);
        lemma_eq_icase_symm("SEI"@, "sei"@);
        lemma_eq_icase_trans("SEI"@, "sei"@, s);
    } else if eq_icase(s, "brk"@) {
        assert(t == InstructionType::BRK);
        assert(eq_icase("BRK"@, "brk"@)) by {
            reveal_strlit("BRK");
            reveal_strlit("brk");
            reveal_with_fuel(eq_icase, 5);
        }
        lemma_eq_icase_symm(s, "brk"@);
        lemma_eq_icase_symm("BRK"@, "brk"@);
        lemma_eq_icase_trans("BRK"@, "brk"@, s);
    } else if eq_icase(s, "nop"@) {
        assert(t == InstructionType::NOP);
        assert(eq_icase("NOP"@, "nop"@)) by {
            reveal_strlit("NOP");
            reveal_strlit("nop");
            reveal_with_fuel(eq_icase, 5);
        }
        lemma_eq_icase_symm(s, "nop"@);
        lemma_eq_icase_symm("NOP"@, "nop"@);
        lemma_eq_icase_trans("NOP"@, "nop"@, s);
    } else if eq_icase(s, "rti"@) {
        assert(t == InstructionType::RTI);
        assert(eq_icase("RTI"@, "rti"@)) by {
            reveal_strlit("RTI");
            reveal_strlit("rti");
            reveal_with_fuel(eq_icase, 5);
        }
        lemma_eq_icase_symm(s, "rti"@);
        lemma_eq_icase_symm("RTI"@, "rti"@);
        lemma_eq_icase_trans("RTI"@, "rti"@, s);
    } else {
        assert(opcode_of_mnemonic(s) is None);
    }
}


/// The opcode table cannot tell case-insensitively equal mnemonics
/// apart.
pub proof fn lemma_opcode_lookup_respects(s1: Seq<char>, s2: Seq<char>)
    requires
        eq_icase(s1, s2),
    ensures
        opcode_of_mnemonic(s1) == opcode_of_mnemonic(s2),
{
    assert forall|c: Seq<char>| #[trigger] eq_icase(s1, c) implies eq_icase(s2, c) by {
        lemma_eq_icase_symm(s1, s2);
        lemma_eq_icase_trans(s2, s1, c);
    }
    assert forall|c: Seq<char>| #[trigger] eq_icase(s2, c) implies eq_icase(s1, c) by {
        lemma_eq_icase_trans(s1, s2, c);
    }
}

/// The canonical spelling of an accepted opcode looks the opcode back
/// up.
pub proof fn lemma_opcode_canonical_roundtrip(s: Seq<char>, t: InstructionType)
    requires
        opcode_of_mnemonic(s) == Some(t),
    ensures
        opcode_of_mnemonic(mnemonic_of(t)) == Some(t),
{
    lemma_opcode_lookup_canonical(s, t);
    lemma_opcode_lookup_respects(mnemonic_of(t), s);
}


/// A type name the table accepts is case-insensitively equal to the
/// canonical spelling of the type it names.
pub proof fn lemma_type_lookup_canonical(s: Seq<char>, dt: DataType)
    requires
        data_type_of(s) == Some(dt),
    ensures
        eq_icase(type_name_of(dt), s),
{
    if eq_icase(s, "byte"@) {
        assert(dt == DataType::Byte);
        lemma_eq_icase_refl("byte"@);
        lemma_eq_icase_symm(s, "byte"@);
        lemma_eq_icase_trans(type_name_of(dt), "byte"@, s);
    } else if eq_icase(s, "sbyte"@) {
        assert(dt == DataType::SByte);
        lemma_eq_icase_refl("sbyte"@);
        lemma_eq_icase_symm(s, "sbyte"@);
        lemma_eq_icase_trans(type_name_of(dt), "sbyte"@, s);
    } else if eq_icase(s, "word"@) {
        assert(dt == DataType::Word);
        lemma_eq_icase_refl("word"@);
        lemma_eq_icase_symm(s, "word"@);
        lemma_eq_icase_trans(type_name_of(dt), "word"@, s);
    } else if eq_icase(s, "sword"@) {
        assert(dt == DataType::SWord);
        lemma_eq_icase_refl("sword"@);
        lemma_eq_icase_symm(s, "sword"@);
        lemma_eq_icase_trans(type_name_of(dt), "sword"@, s);
    } else if eq_icase(s, "dword"@) {
        assert(dt == DataType::DWord);
        lemma_eq_icase_refl("dword"@);
        lemma_eq_icase_symm(s, "dword"@);
        lemma_eq_icase_trans(type_name_of(dt), "dword"@, s);
    } else if eq_icase(s, "sdword"@) {
        assert(dt == DataType::SDWord);
        lemma_eq_icase_refl("sdword"@);
        lemma_eq_icase_symm(s, "sdword"@);
        lemma_eq_icase_trans(type_name_of(dt), "sdword"@, s);
    } else if eq_icase(s, "qword"@) {
        assert(dt == DataType::QWord);
        lemma_eq_icase_refl("qword"@);
        lemma_eq_icase_symm(s, "qword"@);
        lemma_eq_icase_trans(type_name_of(dt), "qword"@, s);
    } else if eq_icase(s, "tbyte"@) {
        assert(dt == DataType::TByte);
        lemma_eq_icase_refl("tbyte"@);
        lemma_eq_icase_symm(s, "tbyte"@);
        lemma_eq_icase_trans(type_name_of(dt), "tbyte"@, s);
    } else if eq_icase(s, "real4"@) {
        assert(dt == DataType::Real4);
        lemma_eq_icase_refl("real4"@);
        lemma_eq_icase_symm(s, "real4"@);
        lemma_eq_icase_trans(type_name_of(dt), "real4"@, s);
    } else if eq_icase(s, "real8"@) {
        assert(dt == DataType::Real8);
        lemma_eq_icase_refl("real8"@);
        lemma_eq_icase_symm(s, "real8"@);
        lemma_eq_icase_trans(type_name_of(dt), "real8"@, s);
    } else if eq_icase(s, "str4"@) {
        assert(dt == DataType::Str4);
        lemma_eq_icase_refl("str4"@);
        lemma_eq_icase_symm(s, "str4"@);
        lemma_eq_icase_trans(type_name_of(dt), "str4"@, s);
    } else if eq_icase(s, "str8"@) {
        assert(dt == DataType::Str8);
        lemma_eq_icase_refl("str8"@);
        lemma_eq_icase_symm(s, "str8"@);
        lemma_eq_icase_trans(type_name_of(dt), "str8"@, s);
    } else if eq_icase(s, "str16"@) {
        assert(dt == DataType::Str16);
        lemma_eq_icase_refl("str16"@);
        lemma_eq_icase_symm(s, "str16"@);
        lemma_eq_icase_trans(type_name_of(dt), "str16"@, s);
    } else if eq_icase(s, "str32"@) {
        assert(dt == DataType::Str32);
        lemma_eq_icase_refl("str32"@);
        lemma_eq_icase_symm(s, "str32"@);
        lemma_eq_icase_trans(type_name_of(dt), "str32"@, s);
    } else if eq_icase(s, "str64"@) {
        assert(dt == DataType::Str64);
        lemma_eq_icase_refl("str64"@);
        lemma_eq_icase_symm(s, "str64"@);
        lemma_eq_icase_trans(type_name_of(dt), "str64"@, s);
    } else if eq_icase(s, "str128"@) {
        assert(dt == DataType::Str128);
        lemma_eq_icase_refl("str128"@);
        lemma_eq_icase_symm(s, "str128"@);
        lemma_eq_icase_trans(type_name_of(dt), "str128"@, s);
    } else {
        assert(data_type_of(s) is None);
    }
}

/// The type table cannot tell case-insensitively equal names apart.
pub proof fn lemma_type_lookup_respects(s1: Seq<char>, s2: Seq<char>)
    requires
        eq_icase(s1, s2),
    ensures
        data_type_of(s1) == data_type_of(s2),
{
    assert forall|c: Seq<char>| #[trigger] eq_icase(s1, c) implies eq_icase(s2, c) by {
        lemma_eq_icase_symm(s1, s2);
        lemma_eq_icase_trans(s2, s1, c);
    }
    assert forall|c: Seq<char>| #[trigger] eq_icase(s2, c) implies eq_icase(s1, c) by {
        lemma_eq_icase_trans(s1, s2, c);
    }
}

/// The canonical spelling of a data type looks the type back up.
pub proof fn lemma_type_canonical_roundtrip(s: Seq<char>, dt: DataType)
    requires
        data_type_of(s) == Some(dt),
    ensures
        data_type_of(type_name_of(dt)) == Some(dt),
{
    lemma_type_lookup_canonical(s, dt);
    lemma_type_lookup_respects(type_name_of(dt), s);
}


proof fn lemma_contains_char_concat(a: Seq<char>, b: Seq<char>, c: char)
    ensures
        contains_char(a + b, c) <==> contains_char(a, c) || contains_char(b, c),
{
    if contains_char(a, c) {
        let i = choose|i: int| 0 <= i < a.len() && a[i] == c;
        assert((a + b)[i] == c);
    }
    if contains_char(b, c) {
        let i = choose|i: int| 0 <= i < b.len() && b[i] == c;
        assert((a + b)[a.len() + i] == c);
    }
    if contains_char(a + b, c) && !contains_char(a, c) && !contains_char(b, c) {
        let i = choose|i: int| 0 <= i < (a + b).len() && (a + b)[i] == c;
        if i < a.len() {
            assert(a[i] == c);
        } else {
            assert(b[i - a.len()] == c);
        }
    }
}

/// A needle that cannot start with the first character of a text occurs
/// in the text exactly when it occurs past that character.
proof fn lemma_contains_cons(c: char, b: Seq<char>, needle: Seq<char>)
    requires
        needle.len() > 0,
        needle[0] != c,
    ensures
        contains_seq(seq![c] + b, needle) <==> contains_seq(b, needle),
{
    let full = seq![c] + b;
    let n = needle.len() as int;
    if contains_seq(b, needle) {
        let i = choose|i: int| matches_at(b, needle, i);
        assert(full.subrange(i + 1, i + 1 + n) =~= b.subrange(i, i + n));
        assert(matches_at(full, needle, i + 1));
    }
    if contains_seq(full, needle) {
        let p = choose|p: int| matches_at(full, needle, p);
        if p == 0 {
            assert(full.subrange(0, n)[0] == c);
        } else {
            assert(full.subrange(p, p + n) =~= b.subrange(p - 1, p - 1 + n));
            assert(matches_at(b, needle, p - 1));
        }
    }
}

/// What a part of a text holds, the text holds.
proof fn lemma_contains_subrange(s: Seq<char>, lo: int, hi: int, needle: Seq<char>)
    requires
        0 <= lo <= hi <= s.len(),
        contains_seq(s.subrange(lo, hi), needle),
    ensures
        contains_seq(s, needle),
{
    let sub = s.subrange(lo, hi);
    let n = needle.len() as int;
    let i = choose|i: int| matches_at(sub, needle, i);
    assert(s.subrange(lo + i, lo + i + n) =~= sub.subrange(i, i + n));
    assert(matches_at(s, needle, lo + i));
}

proof fn lemma_contains_char_subrange(s: Seq<char>, lo: int, hi: int, c: char)
    requires
        0 <= lo <= hi <= s.len(),
        contains_char(s.subrange(lo, hi), c),
    ensures
        contains_char(s, c),
{
    let sub = s.subrange(lo, hi);
    let i = choose|i: int| 0 <= i < sub.len() && sub[i] == c;
    assert(s[lo + i] == c);
}

/// A nonempty trimmed text starts and ends with non-whitespace.
proof fn lemma_trim_ends(l: Seq<char>)
    requires
        trim_spec(l).len() > 0,
    ensures
        !is_ws(trim_spec(l)[0]),
        !is_ws(trim_spec(l)[trim_spec(l).len() - 1]),
        trim_spec(trim_spec(l)) == trim_spec(l),
{
    crate::text::lemma_first_non_ws(l);
    crate::text::lemma_last_non_ws_end(l);
    let f = crate::text::first_non_ws(l);
    let e = crate::text::last_non_ws_end(l);
    let t = trim_spec(l);
    assert(t[0] == l[f]);
    assert(t[t.len() - 1] == l[e - 1]);
    lemma_trim_identity(t);
}

/// The section markers tell each other apart: each marker line carries
/// its own marker and no earlier one.
proof fn lemma_marker_lines()
    ensures
        ".data:"@.len() == 6 && ".data:"@[0] == '.' && ".data:"@[1] == 'd',
        ".extern"@.len() == 7 && ".extern"@[0] == '.' && ".extern"@[1] == 'e',
        ".program:"@.len() == 9 && ".program:"@[0] == '.' && ".program:"@[1] == 'p',
        is_data_marker(".data:"@),
        is_extern_marker(".extern"@),
        is_program_marker(".program:"@),
        !is_data_marker(".extern"@),
        !is_data_marker(".program:"@),
        !is_extern_marker(".program:"@),
        forall|i: int| 0 <= i < ".data:"@.len() ==> !is_ws(#[trigger] ".data:"@[i]) && ".data:"@[i] != '\n' && ".data:"@[i] != '@',
        forall|i: int| 0 <= i < ".extern"@.len() ==> !is_ws(#[trigger] ".extern"@[i]) && ".extern"@[i] != '\n' && ".extern"@[i] != '@',
        forall|i: int| 0 <= i < ".program:"@.len() ==> !is_ws(#[trigger] ".program:"@[i]) && ".program:"@[i] != '\n' && ".program:"@[i] != '@',
        forall|i: int| 0 <= i < "JMP"@.len() ==> !is_ws(#[trigger] "JMP"@[i]),
        forall|i: int| 0 <= i < "JEQ"@.len() ==> !is_ws(#[trigger] "JEQ"@[i]),
        forall|i: int| 0 <= i < "JNE"@.len() ==> !is_ws(#[trigger] "JNE"@[i]),
        !contains_char(".data:"@, ' ') && !contains_char(".data:"@, ','),
        !contains_char(".extern"@, ' ') && !contains_char(".extern"@, ','),
        !contains_char(".program:"@, ' ') && !contains_char(".program:"@, ','),
        !contains_char("JMP"@, ' ') && !contains_char("JMP"@, ','),
        !contains_char("JEQ"@, ' ') && !contains_char("JEQ"@, ','),
        !contains_char("JNE"@, ' ') && !contains_char("JNE"@, ','),
        "JMP"@.len() == 3 && "JEQ"@.len() == 3 && "JNE"@.len() == 3 && "@"@.len() == 1
            && "@"@[0] == '@' && "start"@.len() == 5,
{
    reveal_strlit(".data:");
    reveal_strlit(".extern");
    reveal_strlit(".program:");
    reveal_strlit("JMP");
    reveal_strlit("JEQ");
    reveal_strlit("JNE");
    reveal_strlit("@");
    reveal_strlit("start");
    let d = ".data:"@;
    let e = ".extern"@;
    let p = ".program:"@;
    assert(d.subrange(0, 6) =~= d);
    assert(matches_at(d, d, 0));
    assert(e.subrange(0, 7) =~= e);
    assert(matches_at(e, e, 0));
    assert(p.subrange(0, 9) =~= p);
    assert(matches_at(p, p, 0));
    assert(!contains_seq(e, d)) by {
        if contains_seq(e, d) {
            let i = choose|i: int| matches_at(e, d, i);
            assert(e.subrange(i, i + 6)[0] == d[0]);
            assert(e[i] == '.');
            assert(i == 0);
            assert(e.subrange(0, 6)[1] == d[1]);
        }
    }
    assert(!contains_seq(p, d)) by {
        if contains_seq(p, d) {
            let i = choose|i: int| matches_at(p, d, i);
            assert(p.subrange(i, i + 6)[0] == d[0]);
            assert(p[i] == '.');
            assert(i == 0);
            assert(p.subrange(0, 6)[1] == d[1]);
        }
    }
    assert(!contains_seq(p, e)) by {
        if contains_seq(p, e) {
            let i = choose|i: int| matches_at(p, e, i);
            assert(p.subrange(i, i + 7)[0] == e[0]);
            assert(p[i] == '.');
            assert(i == 0);
            assert(p.subrange(0, 7)[1] == e[1]);
        }
    }
}


/// The unconditional jump's canonical spelling is in the opcode table.
#[verifier::rlimit(100)]
#[verifier::spinoff_prover]
proof fn lemma_jmp_lookup()
    ensures
        opcode_of_mnemonic("JMP"@) == Some(InstructionType::JMP),
{
    reveal_strlit("JMP");
    reveal_strlit("lda");
    reveal_strlit("ldx");
    reveal_strlit("ldy");
    reveal_strlit("sta");
    reveal_strlit("stx");
    reveal_strlit("sty");
    reveal_strlit("tax");
    reveal_strlit("tay");
    reveal_strlit("txa");
    reveal_strlit("tya");
    reveal_strlit("tsx");
    reveal_strlit("txs");
    reveal_strlit("pha");
    reveal_strlit("php");
    reveal_strlit("pla");
    reveal_strlit("plp");
    reveal_strlit("and");
    reveal_strlit("eor");
    reveal_strlit("ora");
    reveal_strlit("bit");
    reveal_strlit("adc");
    reveal_strlit("sbc");
    reveal_strlit("cmp");
    reveal_strlit("cpx");
    reveal_strlit("cpy");
    reveal_strlit("inc");
    reveal_strlit("inx");
    reveal_strlit("iny");
    reveal_strlit("dec");
    reveal_strlit("dex");
    reveal_strlit("dey");
    reveal_strlit("asl");
    reveal_strlit("lsr");
    reveal_strlit("rol");
    reveal_strlit("ror");
    reveal_strlit("jmp");
    reveal_with_fuel(eq_icase, 5);
}

/// The conditional jump spelling `JEQ` is not in the opcode table.
#[verifier::rlimit(100)]
#[verifier::spinoff_prover]
proof fn lemma_jeq_lookup()
    ensures
        opcode_of_mnemonic("JEQ"@) is None,
{
    match opcode_of_mnemonic("JEQ"@) {
        Option::Some(t) => {
            lemma_opcode_lookup_canonical("JEQ"@, t);
            match t {
                InstructionType::LDA => {
                    assert(!eq_icase(mnemonic_of(t), "JEQ"@)) by {
                        reveal_strlit("LDA");
                        reveal_strlit("JEQ");
                        reveal_with_fuel(eq_icase, 5);
                    }
                },
                InstructionType::LDX => {
                    assert(!eq_icase(mnemonic_of(t), "JEQ"@)) by {
                        reveal_strlit("LDX");
                        reveal_strlit("JEQ");
                        reveal_with_fuel(eq_icase, 5);
                    }
                },
                InstructionType::LDY => {
                    assert(!eq_icase(mnemonic_of(t), "JEQ"@)) by {
                        reveal_strlit("LDY");
                        reveal_strlit("JEQ");
                        reveal_with_fuel(eq_icase, 5);
                    }
                },
                InstructionType::STA => {
                    assert(!eq_icase(mnemonic_of(t), "JEQ"@)) by {
                        reveal_strlit("STA");
                        reveal_strlit("JEQ");
                        reveal_with_fuel(eq_icase, 5);
                    }
                },
                InstructionType::STX => {
                    assert(!eq_icase(mnemonic_of(t), "JEQ"@)) by {
                        reveal_strlit("STX");
                        reveal_strlit("JEQ");
                        reveal_with_fuel(eq_icase, 5);
                    }
                },
                InstructionType::STY => {
                    assert(!eq_icase(mnemonic_of(t), "JEQ"@)) by {
                        reveal_strlit("STY");
                        reveal_strlit("JEQ");
                        reveal_with_fuel(eq_icase, 5);
                    }
                },
                InstructionType::TAX => {
                    assert(!eq_icase(mnemonic_of(t), "JEQ"@)) by {
                        reveal_strlit("TAX");
                        reveal_strlit("JEQ");
                        reveal_with_fuel(eq_icase, 5);
                    }
                },
                InstructionType::TAY => {
                    assert(!eq_icase(mnemonic_of(t), "JEQ"@)) by {
                        reveal_strlit("TAY");
                        reveal_strlit("JEQ");
                        reveal_with_fuel(eq_icase, 5);
                    }
                },
                InstructionType::TXA => {
                    assert(!eq_icase(mnemonic_of(t), "JEQ"@)) by {
                        reveal_strlit("TXA");
                        reveal_strlit("JEQ");
                        reveal_with_fuel(eq_icase, 5);
                    }
                },
                InstructionType::TYA => {
                    assert(!eq_icase(mnemonic_of(t), "JEQ"@)) by {
                        reveal_strlit("TYA");
                        reveal_strlit("JEQ");
                        reveal_with_fuel(eq_icase, 5);
                    }
                },
                InstructionType::TSX => {
                    assert(!eq_icase(mnemonic_of(t), "JEQ"@)) by {
                        reveal_strlit("TSX");
                        reveal_strlit("JEQ");
                        reveal_with_fuel(eq_icase, 5);
                    }
                },
                InstructionType::TXS => {
                    assert(!eq_icase(mnemonic_of(t), "JEQ"@)) by {
                        reveal_strlit("TXS");
                        reveal_strlit("JEQ");
                        reveal_with_fuel(eq_icase, 5);
                    }
                },
                InstructionType::PHA => {
                    assert(!eq_icase(mnemonic_of(t), "JEQ"@)) by {
                        reveal_strlit("PHA");
                        reveal_strlit("JEQ");
                        reveal_with_fuel(eq_icase, 5);
                    }
                },
                InstructionType::PHP => {
                    assert(!eq_icase(mnemonic_of(t), "JEQ"@)) by {
                        reveal_strlit("PHP");
                        reveal_strlit("JEQ");
                        reveal_with_fuel(eq_icase, 5);
                    }
                },
                InstructionType::PLA => {
                    assert(!eq_icase(mnemonic_of(t), "JEQ"@)) by {
                        reveal_strlit("PLA");
                        reveal_strlit("JEQ");
                        reveal_with_fuel(eq_icase, 5);
                    }
                },
                InstructionType::PLP => {
                    assert(!eq_icase(mnemonic_of(t), "JEQ"@)) by {
                        reveal_strlit("PLP");
                        reveal_strlit("JEQ");
                        reveal_with_fuel(eq_icase, 5);
                    }
                },
                InstructionType::AND => {
                    assert(!eq_icase(mnemonic_of(t), "JEQ"@)) by {
                        reveal_strlit("AND");
                        reveal_strlit("JEQ");
                        reveal_with_fuel(eq_icase, 5);
                    }
                },
                InstructionType::EOR => {
                    assert(!eq_icase(mnemonic_of(t), "JEQ"@)) by {
                        reveal_strlit("EOR");
                        reveal_strlit("JEQ");
                        reveal_with_fuel(eq_icase, 5);
                    }
                },
                InstructionType::ORA => {
                    assert(!eq_icase(mnemonic_of(t), "JEQ"@)) by {
                        reveal_strlit("ORA");
                        reveal_strlit("JEQ");
                        reveal_with_fuel(eq_icase, 5);
                    }
                },
                InstructionType::BIT => {
                    assert(!eq_icase(mnemonic_of(t), "JEQ"@)) by {
                        reveal_strlit("BIT");
                        reveal_strlit("JEQ");
                        reveal_with_fuel(eq_icase, 5);
                    }
                },
                InstructionType::ADC => {
                    assert(!eq_icase(mnemonic_of(t), "JEQ"@)) by {
                        reveal_strlit("ADC");
                        reveal_strlit("JEQ");
                        reveal_with_fuel(eq_icase, 5);
                    }
                },
                InstructionType::SBC => {
                    assert(!eq_icase(mnemonic_of(t), "JEQ"@)) by {
                        reveal_strlit("SBC");
                        reveal_strlit("JEQ");
                        reveal_with_fuel(eq_icase, 5);
                    }
                },
                InstructionType::CMP => {
                    assert(!eq_icase(mnemonic_of(t), "JEQ"@)) by {
                        reveal_strlit("CMP");
                        reveal_strlit("JEQ");
                        reveal_with_fuel(eq_icase, 5);
                    }
                },
                InstructionType::CPX => {
                    assert(!eq_icase(mnemonic_of(t), "JEQ"@)) by {
                        reveal_strlit("CPX");
                        reveal_strlit("JEQ");
                        reveal_with_fuel(eq_icase, 5);
                    }
                },
                InstructionType::CPY => {
                    assert(!eq_icase(mnemonic_of(t), "JEQ"@)) by {
                        reveal_strlit("CPY");
                        reveal_strlit("JEQ");
                        reveal_with_fuel(eq_icase, 5);
                    }
                },
                InstructionType::INC => {
                    assert(!eq_icase(mnemonic_of(t), "JEQ"@)) by {
                        reveal_strlit("INC");
                        reveal_strlit("JEQ");
                        reveal_with_fuel(eq_icase, 5);
                    }
                },
                InstructionType::INX => {
                    assert(!eq_icase(mnemonic_of(t), "JEQ"@)) by {
                        reveal_strlit("INX");
                        reveal_strlit("JEQ");
                        reveal_with_fuel(eq_icase, 5);
                    }
                },
                InstructionType::INY => {
                    assert(!eq_icase(mnemonic_of(t), "JEQ"@)) by {
                        reveal_strlit("INY");
                        reveal_strlit("JEQ");
                        reveal_with_fuel(eq_icase, 5);
                    }
                },
                InstructionType::DEC => {
                    assert(!eq_icase(mnemonic_of(t), "JEQ"@)) by {
                        reveal_strlit("DEC");
                        reveal_strlit("JEQ");
                        reveal_with_fuel(eq_icase, 5);
                    }
                },
                InstructionType::DEX => {
                    assert(!eq_icase(mnemonic_of(t), "JEQ"@)) by {
                        reveal_strlit("DEX");
                        reveal_strlit("JEQ");
                        reveal_with_fuel(eq_icase, 5);
                    }
                },
                InstructionType::DEY => {
                    assert(!eq_icase(mnemonic_of(t), "JEQ"@)) by {
                        reveal_strlit("DEY");
                        reveal_strlit("JEQ");
                        reveal_with_fuel(eq_icase, 5);
                    }
                },
                InstructionType::ASL => {
                    assert(!eq_icase(mnemonic_of(t), "JEQ"@)) by {
                        reveal_strlit("ASL");
                        reveal_strlit("JEQ");
                        reveal_with_fuel(eq_icase, 5);
                    }
                },
                InstructionType::LSR => {
                    assert(!eq_icase(mnemonic_of(t), "JEQ"@)) by {
                        reveal_strlit("LSR");
                        reveal_strlit("JEQ");
                        reveal_with_fuel(eq_icase, 5);
                    }
                },
                InstructionType::ROL => {
                    assert(!eq_icase(mnemonic_of(t), "JEQ"@)) by {
                        reveal_strlit("ROL");
                        reveal_strlit("JEQ");
                        reveal_with_fuel(eq_icase, 5);
                    }
                },
                InstructionType::ROR => {
                    assert(!eq_icase(mnemonic_of(t), "JEQ"@)) by {
                        reveal_strlit("ROR");
                        reveal_strlit("JEQ");
                        reveal_with_fuel(eq_icase, 5);
                    }
                },
                InstructionType::JMP => {
                    assert(!eq_icase(mnemonic_of(t), "JEQ"@)) by {
                        reveal_strlit("JMP");
                        reveal_strlit("JEQ");
                        reveal_with_fuel(eq_icase, 5);
                    }
                },
                InstructionType::JSR => {
                    assert(!eq_icase(mnemonic_of(t), "JEQ"@)) by {
                        reveal_strlit("JSR");
                        reveal_strlit("JEQ");
                        reveal_with_fuel(eq_icase, 5);
                    }
                },
                InstructionType::RTS => {
                    assert(!eq_icase(mnemonic_of(t), "JEQ"@)) by {
                        reveal_strlit("RTS");
                        reveal_strlit("JEQ");
                        reveal_with_fuel(eq_icase, 5);
                    }
                },
                InstructionType::BCC => {
                    assert(!eq_icase(mnemonic_of(t), "JEQ"@)) by {
                        reveal_strlit("BCC");
                        reveal_strlit("JEQ");
                        reveal_with_fuel(eq_icase, 5);
                    }
                },
                InstructionType::BCS => {
                    assert(!eq_icase(mnemonic_of(t), "JEQ"@)) by {
                        reveal_strlit("BCS");
                        reveal_strlit("JEQ");
                        reveal_with_fuel(eq_icase, 5);
                    }
                },
                InstructionType::BEQ => {
                    assert(!eq_icase(mnemonic_of(t), "JEQ"@)) by {
                        reveal_strlit("BEQ");
                        reveal_strlit("JEQ");
                        reveal_with_fuel(eq_icase, 5);
                    }
                },
                InstructionType::BMI => {
                    assert(!eq_icase(mnemonic_of(t), "JEQ"@)) by {
                        reveal_strlit("BMI");
                        reveal_strlit("JEQ");
                        reveal_with_fuel(eq_icase, 5);
                    }
                },
                InstructionType::BNE => {
                    assert(!eq_icase(mnemonic_of(t), "JEQ"@)) by {
                        reveal_strlit("BNE");
                        reveal_strlit("JEQ");
                        reveal_with_fuel(eq_icase, 5);
                    }
                },
                InstructionType::BPL => {
                    assert(!eq_icase(mnemonic_of(t), "JEQ"@)) by {
                        reveal_strlit("BPL");
                        reveal_strlit("JEQ");
                        reveal_with_fuel(eq_icase, 5);
                    }
                },
                InstructionType::BVC => {
                    assert(!eq_icase(mnemonic_of(t), "JEQ"@)) by {
                        reveal_strlit("BVC");
                        reveal_strlit("JEQ");
                        reveal_with_fuel(eq_icase, 5);
                    }
                },
                InstructionType::BVS => {
                    assert(!eq_icase(mnemonic_of(t), "JEQ"@)) by {
                        reveal_strlit("BVS");
                        reveal_strlit("JEQ");
                        reveal_with_fuel(eq_icase, 5);
                    }
                },
                InstructionType::CLC => {
                    assert(!eq_icase(mnemonic_of(t), "JEQ"@)) by {
                        reveal_strlit("CLC");
                        reveal_strlit("JEQ");
                        reveal_with_fuel(eq_icase, 5);
                    }
                },
                InstructionType::CLD => {
                    assert(!eq_icase(mnemonic_of(t), "JEQ"@)) by {
                        reveal_strlit("CLD");
                        reveal_strlit("JEQ");
                        reveal_with_fuel(eq_icase, 5);
                    }
                },
                InstructionType::CLI => {
                    assert(!eq_icase(mnemonic_of(t), "JEQ"@)) by {
                        reveal_strlit("CLI");
                        reveal_strlit("JEQ");
                        reveal_with_fuel(eq_icase, 5);
                    }
                },
                InstructionType::CLV => {
                    assert(!eq_icase(mnemonic_of(t), "JEQ"@)) by {
                        reveal_strlit("CLV");
                        reveal_strlit("JEQ");
                        reveal_with_fuel(eq_icase, 5);
                    }
                },
                InstructionType::SEC => {
                    assert(!eq_icase(mnemonic_of(t), "JEQ"@)) by {
                        reveal_strlit("SEC");
                        reveal_strlit("JEQ");
                        reveal_with_fuel(eq_icase, 5);
                    }
                },
                InstructionType::SED => {
                    assert(!eq_icase(mnemonic_of(t), "JEQ"@)) by {
                        reveal_strlit("SED");
                        reveal_strlit("JEQ");
                        reveal_with_fuel(eq_icase, 5);
                    }
                },
                InstructionType::SEI => {
                    assert(!eq_icase(mnemonic_of(t), "JEQ"@)) by {
                        reveal_strlit("SEI");
                        reveal_strlit("JEQ");
                        reveal_with_fuel(eq_icase, 5);
                    }
                },
                InstructionType::BRK => {
                    assert(!eq_icase(mnemonic_of(t), "JEQ"@)) by {
                        reveal_strlit("BRK");
                        reveal_strlit("JEQ");
                        reveal_with_fuel(eq_icase, 5);
                    }
                },
                InstructionType::NOP => {
                    assert(!eq_icase(mnemonic_of(t), "JEQ"@)) by {
                        reveal_strlit("NOP");
                        reveal_strlit("JEQ");
                        reveal_with_fuel(eq_icase, 5);
                    }
                },
                InstructionType::RTI => {
                    assert(!eq_icase(mnemonic_of(t), "JEQ"@)) by {
                        reveal_strlit("RTI");
                        reveal_strlit("JEQ");
                        reveal_with_fuel(eq_icase, 5);
                    }
                },
                InstructionType::JEQ => {
                    assert(false);
                },
                InstructionType::JNE => {
                    assert(false);
                },
                InstructionType::CAL => {
                    assert(false);
                },
                InstructionType::MOV => {
                    assert(false);
                },
            }
            assert(false);
        },
        Option::None => {},
    }
}

/// The conditional jump spelling `JNE` is not in the opcode table.
#[verifier::rlimit(100)]
#[verifier::spinoff_prover]
proof fn lemma_jne_lookup()
    ensures
        opcode_of_mnemonic("JNE"@) is None,
{
    match opcode_of_mnemonic("JNE"@) {
        Option::Some(t) => {
            lemma_opcode_lookup_canonical("JNE"@, t);
            match t {
                InstructionType::LDA => {
                    assert(!eq_icase(mnemonic_of(t), "JNE"@)) by {
                        reveal_strlit("LDA");
                        reveal_strlit("JNE");
                        reveal_with_fuel(eq_icase, 5);
                    }
                },
                InstructionType::LDX => {
                    assert(!eq_icase(mnemonic_of(t), "JNE"@)) by {
                        reveal_strlit("LDX");
                        reveal_strlit("JNE");
                        reveal_with_fuel(eq_icase, 5);
                    }
                },
                InstructionType::LDY => {
                    assert(!eq_icase(mnemonic_of(t), "JNE"@)) by {
                        reveal_strlit("LDY");
                        reveal_strlit("JNE");
                        reveal_with_fuel(eq_icase, 5);
                    }
                },
                InstructionType::STA => {
                    assert(!eq_icase(mnemonic_of(t), "JNE"@)) by {
                        reveal_strlit("STA");
                        reveal_strlit("JNE");
                        reveal_with_fuel(eq_icase, 5);
                    }
                },
                InstructionType::STX => {
                    assert(!eq_icase(mnemonic_of(t), "JNE"@)) by {
                        reveal_strlit("STX");
                        reveal_strlit("JNE");
                        reveal_with_fuel(eq_icase, 5);
                    }
                },
                InstructionType::STY => {
                    assert(!eq_icase(mnemonic_of(t), "JNE"@)) by {
                        reveal_strlit("STY");
                        reveal_strlit("JNE");
                        reveal_with_fuel(eq_icase, 5);
                    }
                },
                InstructionType::TAX => {
                    assert(!eq_icase(mnemonic_of(t), "JNE"@)) by {
                        reveal_strlit("TAX");
                        reveal_strlit("JNE");
                        reveal_with_fuel(eq_icase, 5);
                    }
                },
                InstructionType::TAY => {
                    assert(!eq_icase(mnemonic_of(t), "JNE"@)) by {
                        reveal_strlit("TAY");
                        reveal_strlit("JNE");
                        reveal_with_fuel(eq_icase, 5);
                    }
                },
                InstructionType::TXA => {
                    assert(!eq_icase(mnemonic_of(t), "JNE"@)) by {
                        reveal_strlit("TXA");
                        reveal_strlit("JNE");
                        reveal_with_fuel(eq_icase, 5);
                    }
                },
                InstructionType::TYA => {
                    assert(!eq_icase(mnemonic_of(t), "JNE"@)) by {
                        reveal_strlit("TYA");
                        reveal_strlit("JNE");
                        reveal_with_fuel(eq_icase, 5);
                    }
                },
                InstructionType::TSX => {
                    assert(!eq_icase(mnemonic_of(t), "JNE"@)) by {
                        reveal_strlit("TSX");
                        reveal_strlit("JNE");
                        reveal_with_fuel(eq_icase, 5);
                    }
                },
                InstructionType::TXS => {
                    assert(!eq_icase(mnemonic_of(t), "JNE"@)) by {
                        reveal_strlit("TXS");
                        reveal_strlit("JNE");
                        reveal_with_fuel(eq_icase, 5);
                    }
                },
                InstructionType::PHA => {
                    assert(!eq_icase(mnemonic_of(t), "JNE"@)) by {
                        reveal_strlit("PHA");
                        reveal_strlit("JNE");
                        reveal_with_fuel(eq_icase, 5);
                    }
                },
                InstructionType::PHP => {
                    assert(!eq_icase(mnemonic_of(t), "JNE"@)) by {
                        reveal_strlit("PHP");
                        reveal_strlit("JNE");
                        reveal_with_fuel(eq_icase, 5);
                    }
                },
                InstructionType::PLA => {
                    assert(!eq_icase(mnemonic_of(t), "JNE"@)) by {
                        reveal_strlit("PLA");
                        reveal_strlit("JNE");
                        reveal_with_fuel(eq_icase, 5);
                    }
                },
                InstructionType::PLP => {
                    assert(!eq_icase(mnemonic_of(t), "JNE"@)) by {
                        reveal_strlit("PLP");
                        reveal_strlit("JNE");
                        reveal_with_fuel(eq_icase, 5);
                    }
                },
                InstructionType::AND => {
                    assert(!eq_icase(mnemonic_of(t), "JNE"@)) by {
                        reveal_strlit("AND");
                        reveal_strlit("JNE");
                        reveal_with_fuel(eq_icase, 5);
                    }
                },
                InstructionType::EOR => {
                    assert(!eq_icase(mnemonic_of(t), "JNE"@)) by {
                        reveal_strlit("EOR");
                        reveal_strlit("JNE");
                        reveal_with_fuel(eq_icase, 5);
                    }
                },
                InstructionType::ORA => {
                    assert(!eq_icase(mnemonic_of(t), "JNE"@)) by {
                        reveal_strlit("ORA");
                        reveal_strlit("JNE");
                        reveal_with_fuel(eq_icase, 5);
                    }
                },
                InstructionType::BIT => {
                    assert(!eq_icase(mnemonic_of(t), "JNE"@)) by {
                        reveal_strlit("BIT");
                        reveal_strlit("JNE");
                        reveal_with_fuel(eq_icase, 5);
                    }
                },
                InstructionType::ADC => {
                    assert(!eq_icase(mnemonic_of(t), "JNE"@)) by {
                        reveal_strlit("ADC");
                        reveal_strlit("JNE");
                        reveal_with_fuel(eq_icase, 5);
                    }
                },
                InstructionType::SBC => {
                    assert(!eq_icase(mnemonic_of(t), "JNE"@)) by {
                        reveal_strlit("SBC");
                        reveal_strlit("JNE");
                        reveal_with_fuel(eq_icase, 5);
                    }
                },
                InstructionType::CMP => {
                    assert(!eq_icase(mnemonic_of(t), "JNE"@)) by {
                        reveal_strlit("CMP");
                        reveal_strlit("JNE");
                        reveal_with_fuel(eq_icase, 5);
                    }
                },
                InstructionType::CPX => {
                    assert(!eq_icase(mnemonic_of(t), "JNE"@)) by {
                        reveal_strlit("CPX");
                        reveal_strlit("JNE");
                        reveal_with_fuel(eq_icase, 5);
                    }
                },
                InstructionType::CPY => {
                    assert(!eq_icase(mnemonic_of(t), "JNE"@)) by {
                        reveal_strlit("CPY");
                        reveal_strlit("JNE");
                        reveal_with_fuel(eq_icase, 5);
                    }
                },
                InstructionType::INC => {
                    assert(!eq_icase(mnemonic_of(t), "JNE"@)) by {
                        reveal_strlit("INC");
                        reveal_strlit("JNE");
                        reveal_with_fuel(eq_icase, 5);
                    }
                },
                InstructionType::INX => {
                    assert(!eq_icase(mnemonic_of(t), "JNE"@)) by {
                        reveal_strlit("INX");
                        reveal_strlit("JNE");
                        reveal_with_fuel(eq_icase, 5);
                    }
                },
                InstructionType::INY => {
                    assert(!eq_icase(mnemonic_of(t), "JNE"@)) by {
                        reveal_strlit("INY");
                        reveal_strlit("JNE");
                        reveal_with_fuel(eq_icase, 5);
                    }
                },
                InstructionType::DEC => {
                    assert(!eq_icase(mnemonic_of(t), "JNE"@)) by {
                        reveal_strlit("DEC");
                        reveal_strlit("JNE");
                        reveal_with_fuel(eq_icase, 5);
                    }
                },
                InstructionType::DEX => {
                    assert(!eq_icase(mnemonic_of(t), "JNE"@)) by {
                        reveal_strlit("DEX");
                        reveal_strlit("JNE");
                        reveal_with_fuel(eq_icase, 5);
                    }
                },
                InstructionType::DEY => {
                    assert(!eq_icase(mnemonic_of(t), "JNE"@)) by {
                        reveal_strlit("DEY");
                        reveal_strlit("JNE");
                        reveal_with_fuel(eq_icase, 5);
                    }
                },
                InstructionType::ASL => {
                    assert(!eq_icase(mnemonic_of(t), "JNE"@)) by {
                        reveal_strlit("ASL");
                        reveal_strlit("JNE");
                        reveal_with_fuel(eq_icase, 5);
                    }
                },
                InstructionType::LSR => {
                    assert(!eq_icase(mnemonic_of(t), "JNE"@)) by {
                        reveal_strlit("LSR");
                        reveal_strlit("JNE");
                        reveal_with_fuel(eq_icase, 5);
                    }
                },
                InstructionType::ROL => {
                    assert(!eq_icase(mnemonic_of(t), "JNE"@)) by {
                        reveal_strlit("ROL");
                        reveal_strlit("JNE");
                        reveal_with_fuel(eq_icase, 5);
                    }
                },
                InstructionType::ROR => {
                    assert(!eq_icase(mnemonic_of(t), "JNE"@)) by {
                        reveal_strlit("ROR");
                        reveal_strlit("JNE");
                        reveal_with_fuel(eq_icase, 5);
                    }
                },
                InstructionType::JMP => {
                    assert(!eq_icase(mnemonic_of(t), "JNE"@)) by {
                        reveal_strlit("JMP");
                        reveal_strlit("JNE");
                        reveal_with_fuel(eq_icase, 5);
                    }
                },
                InstructionType::JSR => {
                    assert(!eq_icase(mnemonic_of(t), "JNE"@)) by {
                        reveal_strlit("JSR");
                        reveal_strlit("JNE");
                        reveal_with_fuel(eq_icase, 5);
                    }
                },
                InstructionType::RTS => {
                    assert(!eq_icase(mnemonic_of(t), "JNE"@)) by {
                        reveal_strlit("RTS");
                        reveal_strlit("JNE");
                        reveal_with_fuel(eq_icase, 5);
                    }
                },
                InstructionType::BCC => {
                    assert(!eq_icase(mnemonic_of(t), "JNE"@)) by {
                        reveal_strlit("BCC");
                        reveal_strlit("JNE");
                        reveal_with_fuel(eq_icase, 5);
                    }
                },
                InstructionType::BCS => {
                    assert(!eq_icase(mnemonic_of(t), "JNE"@)) by {
                        reveal_strlit("BCS");
                        reveal_strlit("JNE");
                        reveal_with_fuel(eq_icase, 5);
                    }
                },
                InstructionType::BEQ => {
                    assert(!eq_icase(mnemonic_of(t), "JNE"@)) by {
                        reveal_strlit("BEQ");
                        reveal_strlit("JNE");
                        reveal_with_fuel(eq_icase, 5);
                    }
                },
                InstructionType::BMI => {
                    assert(!eq_icase(mnemonic_of(t), "JNE"@)) by {
                        reveal_strlit("BMI");
                        reveal_strlit("JNE");
                        reveal_with_fuel(eq_icase, 5);
                    }
                },
                InstructionType::BNE => {
                    assert(!eq_icase(mnemonic_of(t), "JNE"@)) by {
                        reveal_strlit("BNE");
                        reveal_strlit("JNE");
                        reveal_with_fuel(eq_icase, 5);
                    }
                },
                InstructionType::BPL => {
                    assert(!eq_icase(mnemonic_of(t), "JNE"@)) by {
                        reveal_strlit("BPL");
                        reveal_strlit("JNE");
                        reveal_with_fuel(eq_icase, 5);
                    }
                },
                InstructionType::BVC => {
                    assert(!eq_icase(mnemonic_of(t), "JNE"@)) by {
                        reveal_strlit("BVC");
                        reveal_strlit("JNE");
                        reveal_with_fuel(eq_icase, 5);
                    }
                },
                InstructionType::BVS => {
                    assert(!eq_icase(mnemonic_of(t), "JNE"@)) by {
                        reveal_strlit("BVS");
                        reveal_strlit("JNE");
                        reveal_with_fuel(eq_icase, 5);
                    }
                },
                InstructionType::CLC => {
                    assert(!eq_icase(mnemonic_of(t), "JNE"@)) by {
                        reveal_strlit("CLC");
                        reveal_strlit("JNE");
                        reveal_with_fuel(eq_icase, 5);
                    }
                },
                InstructionType::CLD => {
                    assert(!eq_icase(mnemonic_of(t), "JNE"@)) by {
                        reveal_strlit("CLD");
                        reveal_strlit("JNE");
                        reveal_with_fuel(eq_icase, 5);
                    }
                },
                InstructionType::CLI => {
                    assert(!eq_icase(mnemonic_of(t), "JNE"@)) by {
                        reveal_strlit("CLI");
                        reveal_strlit("JNE");
                        reveal_with_fuel(eq_icase, 5);
                    }
                },
                InstructionType::CLV => {
                    assert(!eq_icase(mnemonic_of(t), "JNE"@)) by {
                        reveal_strlit("CLV");
                        reveal_strlit("JNE");
                        reveal_with_fuel(eq_icase, 5);
                    }
                },
                InstructionType::SEC => {
                    assert(!eq_icase(mnemonic_of(t), "JNE"@)) by {
                        reveal_strlit("SEC");
                        reveal_strlit("JNE");
                        reveal_with_fuel(eq_icase, 5);
                    }
                },
                InstructionType::SED => {
                    assert(!eq_icase(mnemonic_of(t), "JNE"@)) by {
                        reveal_strlit("SED");
                        reveal_strlit("JNE");
                        reveal_with_fuel(eq_icase, 5);
                    }
                },
                InstructionType::SEI => {
                    assert(!eq_icase(mnemonic_of(t), "JNE"@)) by {
                        reveal_strlit("SEI");
                        reveal_strlit("JNE");
                        reveal_with_fuel(eq_icase, 5);
                    }
                },
                InstructionType::BRK => {
                    assert(!eq_icase(mnemonic_of(t), "JNE"@)) by {
                        reveal_strlit("BRK");
                        reveal_strlit("JNE");
                        reveal_with_fuel(eq_icase, 5);
                    }
                },
                InstructionType::NOP => {
                    assert(!eq_icase(mnemonic_of(t), "JNE"@)) by {
                        reveal_strlit("NOP");
                        reveal_strlit("JNE");
                        reveal_with_fuel(eq_icase, 5);
                    }
                },
                InstructionType::RTI => {
                    assert(!eq_icase(mnemonic_of(t), "JNE"@)) by {
                        reveal_strlit("RTI");
                        reveal_strlit("JNE");
                        reveal_with_fuel(eq_icase, 5);
                    }
                },
                InstructionType::JEQ => {
                    assert(false);
                },
                InstructionType::JNE => {
                    assert(false);
                },
                InstructionType::CAL => {
                    assert(false);
                },
                InstructionType::MOV => {
                    assert(false);
                },
            }
            assert(false);
        },
        Option::None => {},
    }
}

/// One instruction line, canonically: the upper-case mnemonic, a space
/// and the operand when there is one, a comma between paired operands.
pub open spec fn print_instruction(i: InstructionV) -> Seq<char> {
    match i.val {
        InstructionValueV::SingleValue(v) => if v.len() == 0 {
            mnemonic_of(i.ty)
        } else {
            mnemonic_of(i.ty) + seq![' '] + v
        },
        InstructionValueV::MultipleValue(l, r) => mnemonic_of(i.ty) + seq![' '] + l + seq![','] + r,
    }
}

/// One variable line: lower-case type name, variable name, value.
pub open spec fn print_variable(v: VariableV) -> Seq<char> {
    type_name_of(v.ty) + seq![' '] + v.name + seq![' '] + v.value
}

/// One label header line: the sigil and the name.
pub open spec fn print_label_header(name: Seq<char>) -> Seq<char> {
    seq!['@'] + name
}

/// The lines of a block of instructions, in order.
pub open spec fn print_instructions(ins: Seq<InstructionV>) -> Seq<Seq<char>>
    decreases ins.len(),
{
    if ins.len() == 0 {
        Seq::empty()
    } else {
        seq![print_instruction(ins[0])] + print_instructions(ins.subrange(1, ins.len() as int))
    }
}

/// The lines of the data section body, in order.
pub open spec fn print_variables(vs: Seq<VariableV>) -> Seq<Seq<char>>
    decreases vs.len(),
{
    if vs.len() == 0 {
        Seq::empty()
    } else {
        seq![print_variable(vs[0])] + print_variables(vs.subrange(1, vs.len() as int))
    }
}

/// The lines of one label: its header and its instructions.
pub open spec fn print_label(l: LabelV) -> Seq<Seq<char>> {
    seq![print_label_header(l.label_name)] + (match l.instructions {
        Option::Some(ins) => print_instructions(ins),
        Option::None => Seq::empty(),
    })
}

/// The lines of all labels, in order.
pub open spec fn print_labels(ls: Seq<LabelV>) -> Seq<Seq<char>>
    decreases ls.len(),
{
    if ls.len() == 0 {
        Seq::empty()
    } else {
        print_label(ls[0]) + print_labels(ls.subrange(1, ls.len() as int))
    }
}

/// The canonical rendering of a whole program, line by line: the data
/// section when there is data, the extern section when it was declared,
/// the program marker, and the labels.
pub open spec fn print_program_lines(p: ProgramV) -> Seq<Seq<char>> {
    (if p.data.len() > 0 {
        seq![".data:"@] + print_variables(p.data)
    } else {
        Seq::empty()
    }) + (match p.extern_functions {
        Option::Some(fs) => seq![".extern"@] + fs,
        Option::None => Seq::empty(),
    }) + seq![".program:"@] + (match p.labels {
        Option::Some(ls) => print_labels(ls),
        Option::None => Seq::empty(),
    })
}

/// Operand or name text that keeps its line intact: free of section
/// markers and newlines.
pub open spec fn clean_text(s: Seq<char>) -> bool {
    !contains_seq(s, ".data:"@) && !contains_seq(s, ".extern"@) && !contains_seq(s, ".program:"@)
        && no_newline(s)
}

/// The text does not end in whitespace, so trimming leaves it alone.
pub open spec fn no_trailing_ws(s: Seq<char>) -> bool {
    s.len() > 0 ==> !is_ws(s[s.len() - 1])
}

/// The text holds none of the reserved jump mnemonics.
pub open spec fn no_jump_text(s: Seq<char>) -> bool {
    !contains_seq(s, "JMP"@) && !contains_seq(s, "JEQ"@) && !contains_seq(s, "JNE"@)
}

/// An instruction as a successful parse produces it: cached flags, an
/// opcode the table accepts, and operand text that reparses to itself.
pub open spec fn wf_instruction(i: InstructionV) -> bool {
    &&& i.flags == flags_of(i.ty)
    &&& opcode_of_mnemonic(mnemonic_of(i.ty)) == Some(i.ty)
    &&& match i.val {
        InstructionValueV::SingleValue(v) => {
            &&& clean_text(v)
            &&& no_trailing_ws(v)
            &&& (v.len() == 0 ==> valueless(i.ty))
            &&& (paired(i.ty) ==> !contains_char(v, ','))
            &&& (contains_seq(v, "@"@) ==> i.ty == InstructionType::JMP || !no_jump_text(v))
        },
        InstructionValueV::MultipleValue(l, r) => {
            &&& paired(i.ty)
            &&& clean_text(l)
            &&& clean_text(r)
            &&& !contains_char(l, ',')
            &&& no_trailing_ws(r)
        },
    }
}

/// A variable as a successful parse produces it.
pub open spec fn wf_variable(v: VariableV) -> bool {
    &&& data_type_of(type_name_of(v.ty)) == Some(v.ty)
    &&& clean_text(v.name)
    &&& !contains_char(v.name, ' ')
    &&& clean_text(v.value)
    &&& v.value.len() > 0
    &&& no_trailing_ws(v.value)
}

/// An extern name that survives the round trip: marker-free, trimmed,
/// and nonempty — a whitespace-only line in an extern section yields an
/// empty name that the rendering cannot carry back.
pub open spec fn wf_extern_name(n: Seq<char>) -> bool {
    n.len() > 0 && clean_text(n) && trim_spec(n) == n
}

/// A label as a successful parse produces it.
pub open spec fn wf_label(l: LabelV) -> bool {
    &&& clean_text(l.label_name)
    &&& no_jump_text(l.label_name)
    &&& no_trailing_ws(l.label_name)
    &&& match l.instructions {
        Option::Some(ins) => forall|j: int| 0 <= j < ins.len() ==> wf_instruction(#[trigger] ins[j]),
        Option::None => false,
    }
}

/// Every extern name is nonempty.
pub open spec fn extern_names_nonempty(p: ProgramV) -> bool {
    match p.extern_functions {
        Option::Some(fs) => forall|j: int| 0 <= j < fs.len() ==> #[trigger] fs[j].len() > 0,
        Option::None => true,
    }
}

/// A program as a successful parse produces it, with nonempty extern
/// names: exactly what the canonical rendering carries back unchanged.
pub open spec fn wf_program(p: ProgramV) -> bool {
    &&& forall|j: int| 0 <= j < p.data.len() ==> wf_variable(#[trigger] p.data[j])
    &&& match p.extern_functions {
        Option::Some(fs) => forall|j: int| 0 <= j < fs.len() ==> wf_extern_name(#[trigger] fs[j]),
        Option::None => true,
    }
    &&& match p.labels {
        Option::Some(ls) => ls.len() > 0 && forall|j: int|
            0 <= j < ls.len() ==> wf_label(#[trigger] ls[j]),
        Option::None => true,
    }
}


/// A needle of length one occurs exactly where its character does.
proof fn lemma_contains_single(x: Seq<char>, c: char, needle: Seq<char>)
    requires
        needle.len() == 1,
        needle[0] == c,
    ensures
        contains_seq(x, needle) <==> contains_char(x, c),
{
    if contains_seq(x, needle) {
        let p = choose|p: int| matches_at(x, needle, p);
        assert(x.subrange(p, p + 1)[0] == x[p]);
    }
    if contains_char(x, c) {
        let i = choose|i: int| 0 <= i < x.len() && x[i] == c;
        assert(x.subrange(i, i + 1) =~= needle);
        assert(matches_at(x, needle, i));
    }
}

/// The canonical mnemonic holds no separator, sigil, newline or dot.
#[verifier::rlimit(100)]
#[verifier::spinoff_prover]
proof fn lemma_mnemonic_char_facts(t: InstructionType)
    ensures
        mnemonic_of(t).len() == 3,
        !contains_char(mnemonic_of(t), ' '),
        !contains_char(mnemonic_of(t), ','),
        !contains_char(mnemonic_of(t), '@'),
        !contains_char(mnemonic_of(t), '\n'),
        !is_ws(mnemonic_of(t)[0]),
        !is_ws(mnemonic_of(t)[2]),
        !contains_seq(mnemonic_of(t), ".data:"@),
        !contains_seq(mnemonic_of(t), ".extern"@),
        !contains_seq(mnemonic_of(t), ".program:"@),
{
    let m = mnemonic_of(t);
    lemma_mnemonic_shape(t);
    lemma_all_upper_alpha_index(m);
    reveal_strlit(".data:");
    reveal_strlit(".extern");
    reveal_strlit(".program:");
    assert forall|k: int| 0 <= k < m.len() implies m[k] != ' ' && m[k] != ',' && m[k] != '@'
        && m[k] != '\n' && m[k] != '.' by {
        assert(65 <= m[k] as u32 <= 90);
    }
    if contains_char(m, ' ') {
        let k = choose|k: int| 0 <= k < m.len() && m[k] == ' ';
    }
    if contains_char(m, ',') {
        let k = choose|k: int| 0 <= k < m.len() && m[k] == ',';
    }
    if contains_char(m, '@') {
        let k = choose|k: int| 0 <= k < m.len() && m[k] == '@';
    }
    if contains_char(m, '\n') {
        let k = choose|k: int| 0 <= k < m.len() && m[k] == '\n';
    }
    assert(65 <= m[0] as u32 <= 90);
    assert(65 <= m[2] as u32 <= 90);
    if contains_seq(m, ".data:"@) {
        let p = choose|p: int| matches_at(m, ".data:"@, p);
        assert(m.subrange(p, p + 6)[0] == m[p]);
        assert(m[p] == '.');
    }
    if contains_seq(m, ".extern"@) {
        let p = choose|p: int| matches_at(m, ".extern"@, p);
        assert(m.subrange(p, p + 7)[0] == m[p]);
        assert(m[p] == '.');
    }
    if contains_seq(m, ".program:"@) {
        let p = choose|p: int| matches_at(m, ".program:"@, p);
        assert(m.subrange(p, p + 9)[0] == m[p]);
        assert(m[p] == '.');
    }
}

/// The canonical type name holds no separator, newline or dot.
#[verifier::rlimit(100)]
#[verifier::spinoff_prover]
proof fn lemma_type_name_char_facts(dt: DataType)
    ensures
        type_name_of(dt).len() >= 1,
        !contains_char(type_name_of(dt), ' '),
        !contains_char(type_name_of(dt), '\n'),
        !is_ws(type_name_of(dt)[0]),
        !contains_seq(type_name_of(dt), ".data:"@),
        !contains_seq(type_name_of(dt), ".extern"@),
        !contains_seq(type_name_of(dt), ".program:"@),
{
    let m = type_name_of(dt);
    lemma_type_name_shape(dt);
    lemma_all_lower_alnum_index(m);
    reveal_strlit(".data:");
    reveal_strlit(".extern");
    reveal_strlit(".program:");
    assert forall|k: int| 0 <= k < m.len() implies m[k] != ' ' && m[k] != '\n' && m[k] != '.' by {
        assert(97 <= m[k] as u32 <= 122 || 48 <= m[k] as u32 <= 57);
    }
    if contains_char(m, ' ') {
        let k = choose|k: int| 0 <= k < m.len() && m[k] == ' ';
    }
    if contains_char(m, '\n') {
        let k = choose|k: int| 0 <= k < m.len() && m[k] == '\n';
    }
    assert(97 <= m[0] as u32 <= 122 || 48 <= m[0] as u32 <= 57);
    if contains_seq(m, ".data:"@) {
        let p = choose|p: int| matches_at(m, ".data:"@, p);
        assert(m.subrange(p, p + 6)[0] == m[p]);
        assert(m[p] == '.');
    }
    if contains_seq(m, ".extern"@) {
        let p = choose|p: int| matches_at(m, ".extern"@, p);
        assert(m.subrange(p, p + 7)[0] == m[p]);
        assert(m[p] == '.');
    }
    if contains_seq(m, ".program:"@) {
        let p = choose|p: int| matches_at(m, ".program:"@, p);
        assert(m.subrange(p, p + 9)[0] == m[p]);
        assert(m[p] == '.');
    }
}


/// A well-formed instruction's printed line: nonempty, newline-free, no
/// section marker, no label header, trimmed, and it parses back to the
/// instruction itself.
#[verifier::rlimit(100)]
#[verifier::spinoff_prover]
proof fn lemma_print_instruction_facts(i: InstructionV)
    requires
        wf_instruction(i),
    ensures
        ({
            let line = print_instruction(i);
            &&& line.len() > 0
            &&& no_newline(line)
            &&& !is_marker(line)
            &&& !is_label_header(line)
            &&& trim_spec(line) == line
            &&& instruction_of_line(line) == Ok::<InstructionV, crate::parser::ParseErrorKind>(i)
        }),
{
    let line = print_instruction(i);
    let m = mnemonic_of(i.ty);
    lemma_mnemonic_char_facts(i.ty);
    lemma_marker_lines();
    lemma_first_index_of(line, ' ');
    match i.val {
        InstructionValueV::SingleValue(v) => {
            if v.len() == 0 {
                assert(line == m);
                assert(line.len() == 3);
                lemma_not_contains_char(m, ' ');
                if first_index_of(line, ' ') < line.len() {
                    assert(line[first_index_of(line, ' ')] == ' ');
                }
                assert(first_index_of(line, ' ') == line.len());
                assert(v =~= Seq::<char>::empty());
                assert(instruction_of_line(line) == Ok::<
                    InstructionV,
                    crate::parser::ParseErrorKind,
                >(i));
                lemma_trim_identity(line);
                lemma_contains_single(line, '@', "@"@);
                assert(!is_label_header(line));
            } else {
                let tail = seq![' '] + v;
                assert(line =~= m + tail);
                assert(tail[0] == ' ');
                lemma_first_index_concat(m, tail, ' ');
                assert(first_index_of(tail, ' ') == 0);
                let k = first_index_of(line, ' ');
                assert(k == 3);
                assert(line.len() == 4 + v.len());
                assert(line.subrange(0, 3) =~= m);
                assert(line.subrange(4, line.len() as int) =~= v);
                // operand split: a paired opcode has no comma in v
                lemma_first_index_of(v, ',');
                if paired(i.ty) {
                    if first_index_of(v, ',') < v.len() {
                        assert(v[first_index_of(v, ',')] == ',');
                        assert(contains_char(v, ','));
                    }
                }
                assert(instruction_of_line(line) == Ok::<
                    InstructionV,
                    crate::parser::ParseErrorKind,
                >(i));
                // trimmed: the mnemonic starts it, the operand ends it
                assert(line[0] == m[0]);
                assert(line[line.len() - 1] == v[v.len() - 1]);
                lemma_trim_identity(line);
                // markers cannot span the space separator
                lemma_contains_around_sep(m, v, ".data:"@, ' ');
                lemma_contains_around_sep(m, v, ".extern"@, ' ');
                lemma_contains_around_sep(m, v, ".program:"@, ' ');
                assert(!is_marker(line));
                // newline-free
                lemma_contains_char_concat(m, tail, '\n');
                lemma_contains_char_concat(seq![' '], v, '\n');
                assert(no_newline(line));
                // not a label header
                lemma_contains_single(line, '@', "@"@);
                lemma_contains_single(v, '@', "@"@);
                lemma_contains_char_concat(m, tail, '@');
                lemma_contains_char_concat(seq![' '], v, '@');
                if contains_char(line, '@') {
                    assert(contains_char(v, '@'));
                    assert(contains_seq(v, "@"@));
                    if i.ty == InstructionType::JMP {
                        assert(line.subrange(0, 3) =~= "JMP"@);
                        assert(matches_at(line, "JMP"@, 0));
                        assert(line_has_jump(line));
                    } else {
                        assert(!no_jump_text(v));
                        if contains_seq(v, "JMP"@) {
                            lemma_contains_subrange(line, 4, line.len() as int, "JMP"@);
                        }
                        if contains_seq(v, "JEQ"@) {
                            lemma_contains_subrange(line, 4, line.len() as int, "JEQ"@);
                        }
                        if contains_seq(v, "JNE"@) {
                            lemma_contains_subrange(line, 4, line.len() as int, "JNE"@);
                        }
                        assert(line_has_jump(line));
                    }
                }
                assert(!is_label_header(line));
            }
        },
        InstructionValueV::MultipleValue(l, r) => {
            assert(i.ty == InstructionType::JMP);
            let rest = l + seq![','] + r;
            let tail = seq![' '] + rest;
            assert(line =~= m + tail);
            assert(tail[0] == ' ');
            lemma_first_index_concat(m, tail, ' ');
            lemma_not_contains_char(m, ' ');
            assert(first_index_of(tail, ' ') == 0);
            let k = first_index_of(line, ' ');
            assert(k == 3);
            assert(line.len() == 4 + rest.len());
            assert(line.subrange(0, 3) =~= m);
            assert(line.subrange(4, line.len() as int) =~= rest);
            // the comma split finds the printed comma
            let inner = seq![','] + r;
            assert(rest =~= l + inner);
            assert(inner[0] == ',');
            lemma_first_index_concat(l, inner, ',');
            assert(first_index_of(inner, ',') == 0);
            let c = first_index_of(rest, ',');
            assert(c == l.len());
            assert(c < rest.len());
            assert(rest.subrange(0, c) =~= l);
            assert(rest.subrange(c + 1, rest.len() as int) =~= r);
            assert(instruction_of_line(line) == Ok::<
                InstructionV,
                crate::parser::ParseErrorKind,
            >(i));
            // trimmed: ends with the right operand or the comma
            assert(line[0] == m[0]);
            if r.len() > 0 {
                assert(line[line.len() - 1] == r[r.len() - 1]);
            } else {
                assert(line[line.len() - 1] == ',');
            }
            lemma_trim_identity(line);
            // markers cannot span either separator
            assert(line =~= m + seq![' '] + rest);
            assert(rest =~= l + seq![','] + r);
            lemma_contains_around_sep(m, rest, ".data:"@, ' ');
            lemma_contains_around_sep(m, rest, ".extern"@, ' ');
            lemma_contains_around_sep(m, rest, ".program:"@, ' ');
            lemma_contains_around_sep(l, r, ".data:"@, ',');
            lemma_contains_around_sep(l, r, ".extern"@, ',');
            lemma_contains_around_sep(l, r, ".program:"@, ',');
            assert(!is_marker(line));
            // newline-free
            lemma_contains_char_concat(m, tail, '\n');
            lemma_contains_char_concat(seq![' '], rest, '\n');
            lemma_contains_char_concat(l, inner, '\n');
            lemma_contains_char_concat(seq![','], r, '\n');
            assert(no_newline(line));
            // a jump line is never a label header
            assert(line.subrange(0, 3) =~= "JMP"@);
            assert(matches_at(line, "JMP"@, 0));
            assert(line_has_jump(line));
            assert(!is_label_header(line));
        },
    }
}


/// A well-formed variable's printed line: nonempty, newline-free, no
/// section marker, trimmed, and it parses back to the variable itself.
#[verifier::rlimit(100)]
#[verifier::spinoff_prover]
proof fn lemma_print_variable_facts(v: VariableV)
    requires
        wf_variable(v),
    ensures
        ({
            let line = print_variable(v);
            &&& line.len() > 0
            &&& no_newline(line)
            &&& !is_marker(line)
            &&& trim_spec(line) == line
            &&& variable_of_line(line) == Some(v)
        }),
{
    let line = print_variable(v);
    let ty = type_name_of(v.ty);
    lemma_type_name_char_facts(v.ty);
    lemma_marker_lines();
    let rest = v.name + seq![' '] + v.value;
    let tail = seq![' '] + rest;
    assert(line =~= ty + tail);
    assert(line =~= ty + seq![' '] + rest);
    assert(tail[0] == ' ');
    lemma_not_contains_char(ty, ' ');
    lemma_first_index_concat(ty, tail, ' ');
    assert(first_index_of(tail, ' ') == 0);
    let k1 = first_index_of(line, ' ');
    assert(k1 == ty.len());
    assert(line.len() == ty.len() + 1 + rest.len());
    assert(line.subrange(0, k1) =~= ty);
    assert(line.subrange(k1 + 1, line.len() as int) =~= rest);
    // the second split: the name has no space
    let inner = seq![' '] + v.value;
    assert(rest =~= v.name + inner);
    assert(inner[0] == ' ');
    lemma_first_index_concat(v.name, inner, ' ');
    assert(first_index_of(inner, ' ') == 0);
    let k2 = first_index_of(rest, ' ');
    assert(k2 == v.name.len());
    assert(k2 < rest.len());
    assert(rest.subrange(0, k2) =~= v.name);
    assert(rest.subrange(k2 + 1, rest.len() as int) =~= v.value);
    assert(variable_of_line(line) == Some(v));
    // trimmed
    assert(line[0] == ty[0]);
    assert(line[line.len() - 1] == v.value[v.value.len() - 1]);
    lemma_trim_identity(line);
    // markers cannot span either separator
    lemma_contains_around_sep(ty, rest, ".data:"@, ' ');
    lemma_contains_around_sep(ty, rest, ".extern"@, ' ');
    lemma_contains_around_sep(ty, rest, ".program:"@, ' ');
    lemma_contains_around_sep(v.name, v.value, ".data:"@, ' ');
    lemma_contains_around_sep(v.name, v.value, ".extern"@, ' ');
    lemma_contains_around_sep(v.name, v.value, ".program:"@, ' ');
    assert(!is_marker(line));
    // newline-free
    lemma_contains_char_concat(ty, tail, '\n');
    lemma_contains_char_concat(seq![' '], rest, '\n');
    lemma_contains_char_concat(v.name, inner, '\n');
    lemma_contains_char_concat(seq![' '], v.value, '\n');
    assert(no_newline(line));
}

/// A well-formed label's printed header line: nonempty, newline-free, no
/// section marker, a label header, trimmed, and its declared name is the
/// label's.
#[verifier::rlimit(100)]
#[verifier::spinoff_prover]
proof fn lemma_print_header_facts(name: Seq<char>)
    requires
        clean_text(name),
        no_jump_text(name),
        no_trailing_ws(name),
    ensures
        ({
            let line = print_label_header(name);
            &&& line.len() > 0
            &&& no_newline(line)
            &&& !is_marker(line)
            &&& is_label_header(line)
            &&& !is_section_like(line)
            &&& trim_spec(line) == line
            &&& label_name_of(line) == name
        }),
{
    let line = print_label_header(name);
    lemma_marker_lines();
    reveal_strlit("JMP");
    reveal_strlit("JEQ");
    reveal_strlit("JNE");
    assert(line[0] == '@');
    // section markers and jump mnemonics cannot start at the sigil
    lemma_contains_cons('@', name, ".data:"@);
    lemma_contains_cons('@', name, ".extern"@);
    lemma_contains_cons('@', name, ".program:"@);
    lemma_contains_cons('@', name, "JMP"@);
    lemma_contains_cons('@', name, "JEQ"@);
    lemma_contains_cons('@', name, "JNE"@);
    assert(!is_marker(line));
    assert(!line_has_jump(line));
    lemma_contains_single(line, '@', "@"@);
    assert(contains_char(line, '@'));
    assert(is_label_header(line));
    // newline-free
    lemma_contains_char_concat(seq!['@'], name, '\n');
    assert(no_newline(line));
    // trimmed: the sigil starts it; the name's last character ends it
    assert(!is_ws('@'));
    if name.len() > 0 {
        assert(line[line.len() - 1] == name[name.len() - 1]);
    } else {
        assert(line.len() == 1);
    }
    lemma_trim_identity(line);
    assert(!is_section_like(line));
    assert(line.subrange(1, line.len() as int) =~= name);
    assert(label_name_of(line) == name);
}


proof fn lemma_print_instructions_index(ins: Seq<InstructionV>)
    ensures
        print_instructions(ins).len() == ins.len(),
        forall|j: int|
            0 <= j < ins.len() ==> print_instructions(ins)[j] == print_instruction(
                #[trigger] ins[j],
            ),
    decreases ins.len(),
{
    if ins.len() > 0 {
        let rest = ins.subrange(1, ins.len() as int);
        lemma_print_instructions_index(rest);
        assert forall|j: int|
            0 <= j < ins.len() implies print_instructions(ins)[j] == print_instruction(
            #[trigger] ins[j],
        ) by {
            if j > 0 {
                assert(print_instructions(ins)[j] == print_instructions(rest)[j - 1]);
                assert(rest[j - 1] == ins[j]);
            }
        }
    }
}

proof fn lemma_print_variables_index(vs: Seq<VariableV>)
    ensures
        print_variables(vs).len() == vs.len(),
        forall|j: int|
            0 <= j < vs.len() ==> print_variables(vs)[j] == print_variable(#[trigger] vs[j]),
    decreases vs.len(),
{
    if vs.len() > 0 {
        let rest = vs.subrange(1, vs.len() as int);
        lemma_print_variables_index(rest);
        assert forall|j: int|
            0 <= j < vs.len() implies print_variables(vs)[j] == print_variable(
            #[trigger] vs[j],
        ) by {
            if j > 0 {
                assert(print_variables(vs)[j] == print_variables(rest)[j - 1]);
                assert(rest[j - 1] == vs[j]);
            }
        }
    }
}

/// A section marker or label header line is never empty.
proof fn lemma_terminator_nonempty(l: Seq<char>)
    requires
        is_marker(l) || is_label_header(l),
    ensures
        l.len() > 0,
{
    lemma_marker_lines();
    if is_data_marker(l) {
        let p = choose|p: int| matches_at(l, ".data:"@, p);
    } else if is_extern_marker(l) {
        let p = choose|p: int| matches_at(l, ".extern"@, p);
    } else if is_program_marker(l) {
        let p = choose|p: int| matches_at(l, ".program:"@, p);
    } else {
        let p = choose|p: int| matches_at(l, "@"@, p);
    }
}

/// Printed instruction lines parse back to the instructions, stopping at
/// the terminator that follows them.
proof fn lemma_parse_printed_instructions(lines: Seq<Seq<char>>, base: int, ins: Seq<InstructionV>)
    requires
        0 <= base,
        base + ins.len() <= lines.len(),
        forall|j: int|
            0 <= j < ins.len() ==> lines[base + j] == print_instruction(#[trigger] ins[j]),
        forall|j: int| 0 <= j < ins.len() ==> wf_instruction(#[trigger] ins[j]),
        base + ins.len() == lines.len() || is_marker(lines[base + ins.len()]) || is_label_header(
            lines[base + ins.len()],
        ),
    ensures
        parse_label_from(lines, base) == Ok::<(Seq<InstructionV>, int), ParseErrorV>(
            (ins, base + ins.len() as int),
        ),
    decreases ins.len(),
{
    if ins.len() == 0 {
        assert(ins =~= Seq::<InstructionV>::empty());
        if base < lines.len() {
            lemma_terminator_nonempty(lines[base]);
        }
    } else {
        assert(lines[base] == print_instruction(ins[0]));
        lemma_print_instruction_facts(ins[0]);
        let rest = ins.subrange(1, ins.len() as int);
        assert forall|j: int|
            0 <= j < rest.len() implies lines[base + 1 + j] == print_instruction(
            #[trigger] rest[j],
        ) && wf_instruction(rest[j]) by {
            assert(rest[j] == ins[j + 1]);
        }
        lemma_parse_printed_instructions(lines, base + 1, rest);
        assert(seq![ins[0]] + rest =~= ins);
    }
}

/// Printed variable lines parse back to the variables, stopping at the
/// terminator that follows them.
proof fn lemma_parse_printed_variables(lines: Seq<Seq<char>>, base: int, vs: Seq<VariableV>)
    requires
        0 <= base,
        base + vs.len() <= lines.len(),
        forall|j: int| 0 <= j < vs.len() ==> lines[base + j] == print_variable(#[trigger] vs[j]),
        forall|j: int| 0 <= j < vs.len() ==> wf_variable(#[trigger] vs[j]),
        base + vs.len() == lines.len() || is_marker(lines[base + vs.len()]),
    ensures
        parse_variables_from(lines, base) == Ok::<(Seq<VariableV>, int), ParseErrorV>(
            (vs, base + vs.len() as int),
        ),
    decreases vs.len(),
{
    if vs.len() == 0 {
        assert(vs =~= Seq::<VariableV>::empty());
        if base < lines.len() {
            lemma_terminator_nonempty(lines[base]);
        }
    } else {
        assert(lines[base] == print_variable(vs[0]));
        lemma_print_variable_facts(vs[0]);
        let rest = vs.subrange(1, vs.len() as int);
        assert forall|j: int|
            0 <= j < rest.len() implies lines[base + 1 + j] == print_variable(
            #[trigger] rest[j],
        ) && wf_variable(rest[j]) by {
            assert(rest[j] == vs[j + 1]);
        }
        lemma_parse_printed_variables(lines, base + 1, rest);
        assert(seq![vs[0]] + rest =~= vs);
    }
}

/// Printed extern names parse back to the names, stopping at the
/// terminator that follows them.
proof fn lemma_parse_printed_externs(lines: Seq<Seq<char>>, base: int, fs: Seq<Seq<char>>)
    requires
        0 <= base,
        base + fs.len() <= lines.len(),
        forall|j: int| 0 <= j < fs.len() ==> lines[base + j] == #[trigger] fs[j],
        forall|j: int| 0 <= j < fs.len() ==> wf_extern_name(#[trigger] fs[j]),
        base + fs.len() == lines.len() || is_marker(lines[base + fs.len()]),
    ensures
        parse_extern_from(lines, base) == (fs, base + fs.len() as int),
    decreases fs.len(),
{
    if fs.len() == 0 {
        assert(fs =~= Seq::<Seq<char>>::empty());
        if base < lines.len() {
            lemma_terminator_nonempty(lines[base]);
        }
    } else {
        assert(lines[base] == fs[0]);
        assert(fs[0].len() > 0);
        assert(!is_marker(fs[0]));
        assert(trim_spec(fs[0]) == fs[0]);
        let rest = fs.subrange(1, fs.len() as int);
        assert forall|j: int|
            0 <= j < rest.len() implies lines[base + 1 + j] == #[trigger] rest[j]
            && wf_extern_name(rest[j]) by {
            assert(rest[j] == fs[j + 1]);
        }
        lemma_parse_printed_externs(lines, base + 1, rest);
        assert(seq![fs[0]] + rest =~= fs);
    }
}

/// The program grown by all the labels of a list, in order.
pub open spec fn append_labels(prog: ProgramV, ls: Seq<LabelV>) -> ProgramV
    decreases ls.len(),
{
    if ls.len() == 0 {
        prog
    } else {
        append_labels(
            push_label(
                prog,
                ls[0].label_name,
                match ls[0].instructions {
                    Option::Some(ins) => ins,
                    Option::None => Seq::empty(),
                },
            ),
            ls.subrange(1, ls.len() as int),
        )
    }
}

/// Appending well-formed labels to a program without labels gives
/// exactly that label list, and touches nothing else.
proof fn lemma_append_labels(prog: ProgramV, ls: Seq<LabelV>)
    requires
        forall|j: int| 0 <= j < ls.len() ==> wf_label(#[trigger] ls[j]),
    ensures
        ({
            let out = append_labels(prog, ls);
            &&& out.data == prog.data
            &&& out.extern_functions == prog.extern_functions
            &&& out.labels == (match prog.labels {
                Option::None => if ls.len() == 0 {
                    Option::<Seq<LabelV>>::None
                } else {
                    Some(ls)
                },
                Option::Some(acc) => Some(acc + ls),
            })
        }),
    decreases ls.len(),
{
    if ls.len() == 0 {
        match prog.labels {
            Option::None => {},
            Option::Some(acc) => {
                assert(acc + ls =~= acc);
            },
        }
    } else {
        let l0 = ls[0];
        assert(wf_label(l0));
        let ins0 = match l0.instructions {
            Option::Some(ins) => ins,
            Option::None => Seq::empty(),
        };
        let lv = LabelV { label_name: l0.label_name, instructions: Some(ins0) };
        assert(lv == l0);
        let p1 = push_label(prog, l0.label_name, ins0);
        let rest = ls.subrange(1, ls.len() as int);
        assert(forall|j: int| 0 <= j < rest.len() ==> wf_label(#[trigger] rest[j]));
        lemma_append_labels(p1, rest);
        match prog.labels {
            Option::None => {
                assert(p1.labels == Some(seq![lv]));
                if rest.len() == 0 {
                    assert(ls =~= seq![lv]);
                } else {
                    assert(seq![lv] + rest =~= ls);
                }
            },
            Option::Some(acc) => {
                assert(p1.labels == Some(acc.push(lv)));
                assert(acc.push(lv) + rest =~= acc + ls);
            },
        }
    }
}


/// Printed labels at the tail of the line list parse back to the same
/// labels appended to the program.
proof fn lemma_parse_printed_labels(
    lines: Seq<Seq<char>>,
    base: int,
    ls: Seq<LabelV>,
    prog: ProgramV,
)
    requires
        0 <= base <= lines.len(),
        lines.subrange(base, lines.len() as int) == print_labels(ls),
        forall|j: int| 0 <= j < ls.len() ==> wf_label(#[trigger] ls[j]),
    ensures
        parse_top_from(lines, base, prog) == Ok::<ProgramV, ParseErrorV>(append_labels(prog, ls)),
    decreases ls.len(),
{
    let seg = lines.subrange(base, lines.len() as int);
    if ls.len() == 0 {
        assert(seg.len() == 0);
        assert(base == lines.len());
    } else {
        let l0 = ls[0];
        assert(wf_label(l0));
        let ins0 = match l0.instructions {
            Option::Some(ins) => ins,
            Option::None => Seq::empty(),
        };
        let pl0 = print_label(l0);
        let rest = ls.subrange(1, ls.len() as int);
        let plrest = print_labels(rest);
        assert(seg == pl0 + plrest);
        lemma_print_instructions_index(ins0);
        assert(pl0.len() == 1 + ins0.len());
        assert(base + pl0.len() + plrest.len() == lines.len());
        // the header line
        lemma_print_header_facts(l0.label_name);
        assert(lines[base] == seg[0]);
        assert(seg[0] == pl0[0]);
        assert(pl0[0] == print_label_header(l0.label_name));
        // the instruction lines
        assert forall|j: int|
            0 <= j < ins0.len() implies lines[base + 1 + j] == print_instruction(
            #[trigger] ins0[j],
        ) && wf_instruction(ins0[j]) by {
            assert(lines[base + 1 + j] == seg[1 + j]);
            assert(seg[1 + j] == pl0[1 + j]);
            assert(pl0[1 + j] == print_instructions(ins0)[j]);
        }
        // the line after them is the next header, or the end
        let next = base + pl0.len();
        if rest.len() > 0 {
            assert(wf_label(rest[0]));
            lemma_print_header_facts(rest[0].label_name);
            assert(lines[next] == seg[pl0.len() as int]);
            assert(seg[pl0.len() as int] == plrest[0]);
            assert(plrest[0] == print_label(rest[0])[0]);
            assert(print_label(rest[0])[0] == print_label_header(rest[0].label_name));
            assert(is_label_header(lines[next]));
        } else {
            assert(plrest.len() == 0);
            assert(next == lines.len());
        }
        lemma_parse_printed_instructions(lines, base + 1, ins0);
        // the top scan takes the label branch and resumes past the block
        assert(parse_top_from(lines, base, prog) == parse_top_from(
            lines,
            next,
            push_label(prog, l0.label_name, ins0),
        ));
        assert forall|j: int|
            0 <= j < plrest.len() implies lines.subrange(next, lines.len() as int)[j]
            == plrest[j] by {
            assert(lines.subrange(next, lines.len() as int)[j] == lines[next + j]);
            assert(lines[next + j] == seg[pl0.len() + j]);
            assert(seg[pl0.len() + j] == plrest[j]);
        }
        assert(lines.subrange(next, lines.len() as int) =~= plrest);
        lemma_parse_printed_labels(lines, next, rest, push_label(prog, l0.label_name, ins0));
    }
}

/// The data-section segment of the rendering.
spec fn pp_dseg(p: ProgramV) -> Seq<Seq<char>> {
    if p.data.len() > 0 {
        seq![".data:"@] + print_variables(p.data)
    } else {
        Seq::empty()
    }
}

/// The extern-section segment of the rendering.
spec fn pp_eseg(p: ProgramV) -> Seq<Seq<char>> {
    match p.extern_functions {
        Option::Some(fs) => seq![".extern"@] + fs,
        Option::None => Seq::empty(),
    }
}

/// The labels segment of the rendering.
spec fn pp_lseg(p: ProgramV) -> Seq<Seq<char>> {
    match p.labels {
        Option::Some(ls) => print_labels(ls),
        Option::None => Seq::empty(),
    }
}

/// The scan state after the data section.
spec fn pp_p1(p: ProgramV) -> ProgramV {
    if p.data.len() > 0 {
        ProgramV { data: p.data, ..empty_program() }
    } else {
        empty_program()
    }
}

/// The scan state after the extern section.
spec fn pp_p2(p: ProgramV) -> ProgramV {
    match p.extern_functions {
        Option::Some(fs) => ProgramV { extern_functions: Some(fs), ..pp_p1(p) },
        Option::None => pp_p1(p),
    }
}

#[verifier::rlimit(100)]
#[verifier::spinoff_prover]
proof fn lemma_pp_step_data(p: ProgramV)
    requires
        wf_program(p),
    ensures
        ({
            let lines = print_program_lines(p);
            parse_top_from(lines, 0, empty_program()) == parse_top_from(
                lines,
                pp_dseg(p).len() as int,
                pp_p1(p),
            )
        }),
{
    lemma_marker_lines();
    let lines = print_program_lines(p);
    let dseg = pp_dseg(p);
    let eseg = pp_eseg(p);
    let lseg = pp_lseg(p);
    assert(lines == dseg + eseg + seq![".program:"@] + lseg);
    lemma_print_variables_index(p.data);
    let e0 = empty_program();
    let i1 = dseg.len() as int;
    if p.data.len() > 0 {
        assert(lines[0] == ".data:"@);
        assert forall|j: int|
            0 <= j < p.data.len() implies lines[1 + j] == print_variable(#[trigger] p.data[j])
            && wf_variable(p.data[j]) by {
            assert(lines[1 + j] == dseg[1 + j]);
        }
        assert(is_marker(lines[i1])) by {
            if eseg.len() > 0 {
                assert(lines[i1] == eseg[0]);
                assert(eseg[0] == ".extern"@);
            } else {
                assert(lines[i1] == ".program:"@);
            }
        }
        lemma_parse_printed_variables(lines, 1, p.data);
    } else {
        assert(dseg.len() == 0);
        assert(e0.data =~= p.data);
        assert(pp_p1(p) == e0);
    }
}

#[verifier::rlimit(100)]
#[verifier::spinoff_prover]
proof fn lemma_pp_step_extern(p: ProgramV)
    requires
        wf_program(p),
    ensures
        ({
            let lines = print_program_lines(p);
            parse_top_from(lines, pp_dseg(p).len() as int, pp_p1(p)) == parse_top_from(
                lines,
                pp_dseg(p).len() + pp_eseg(p).len() as int,
                pp_p2(p),
            )
        }),
{
    lemma_marker_lines();
    let lines = print_program_lines(p);
    let dseg = pp_dseg(p);
    let eseg = pp_eseg(p);
    let lseg = pp_lseg(p);
    assert(lines == dseg + eseg + seq![".program:"@] + lseg);
    let i1 = dseg.len() as int;
    let i2 = i1 + eseg.len() as int;
    match p.extern_functions {
        Option::Some(fs) => {
            assert(lines[i1] == eseg[0]);
            assert(eseg[0] == ".extern"@);
            assert(!is_data_marker(lines[i1]));
            assert forall|j: int|
                0 <= j < fs.len() implies lines[i1 + 1 + j] == #[trigger] fs[j] && wf_extern_name(
                fs[j],
            ) by {
                assert(lines[i1 + 1 + j] == eseg[1 + j]);
            }
            assert(lines[i2] == ".program:"@);
            assert(is_marker(lines[i2]));
            lemma_parse_printed_externs(lines, i1 + 1, fs);
        },
        Option::None => {
            assert(eseg.len() == 0);
        },
    }
}

#[verifier::rlimit(100)]
#[verifier::spinoff_prover]
proof fn lemma_pp_step_labels(p: ProgramV)
    requires
        wf_program(p),
    ensures
        ({
            let lines = print_program_lines(p);
            let i2 = pp_dseg(p).len() + pp_eseg(p).len() as int;
            parse_top_from(lines, i2, pp_p2(p)) == Ok::<ProgramV, ParseErrorV>(p)
        }),
{
    lemma_marker_lines();
    let lines = print_program_lines(p);
    let dseg = pp_dseg(p);
    let eseg = pp_eseg(p);
    let lseg = pp_lseg(p);
    assert(lines == dseg + eseg + seq![".program:"@] + lseg);
    let i2 = dseg.len() + eseg.len() as int;
    let p2 = pp_p2(p);
    let i3 = i2 + 1;
    assert(parse_top_from(lines, i2, p2) == parse_top_from(lines, i3, p2)) by {
        assert(lines[i2] == ".program:"@);
        assert(!is_data_marker(lines[i2]));
        assert(!is_extern_marker(lines[i2]));
        assert(is_program_marker(lines[i2]));
    }
    if p.data.len() == 0 {
        assert(pp_p1(p).data =~= p.data);
    }
    assert(p2.data == p.data);
    assert(p2.extern_functions == p.extern_functions);
    assert(p2.labels is None);
    match p.labels {
        Option::Some(ls) => {
            assert forall|j: int|
                0 <= j < lseg.len() implies lines.subrange(i3, lines.len() as int)[j]
                == lseg[j] by {
                assert(lines.subrange(i3, lines.len() as int)[j] == lines[i3 + j]);
            }
            assert(lines.subrange(i3, lines.len() as int) =~= lseg);
            lemma_parse_printed_labels(lines, i3, ls, p2);
            lemma_append_labels(p2, ls);
            assert(ls.len() > 0);
            assert(append_labels(p2, ls) == p);
        },
        Option::None => {
            assert(i3 == lines.len());
            assert(p2 == p);
        },
    }
}

/// The canonical rendering of a well-formed program parses back to the
/// program, line for line.
proof fn lemma_print_parse_lines(p: ProgramV)
    requires
        wf_program(p),
    ensures
        parse_top_from(print_program_lines(p), 0, empty_program()) == Ok::<ProgramV, ParseErrorV>(
            p,
        ),
{
    lemma_pp_step_data(p);
    lemma_pp_step_extern(p);
    lemma_pp_step_labels(p);
}


proof fn lemma_print_labels_no_newline(ls: Seq<LabelV>)
    requires
        forall|j: int| 0 <= j < ls.len() ==> wf_label(#[trigger] ls[j]),
    ensures
        forall|j: int| 0 <= j < print_labels(ls).len() ==> no_newline(#[trigger] print_labels(ls)[j]),
    decreases ls.len(),
{
    if ls.len() > 0 {
        let l0 = ls[0];
        assert(wf_label(l0));
        let ins0 = match l0.instructions {
            Option::Some(ins) => ins,
            Option::None => Seq::empty(),
        };
        let pl0 = print_label(l0);
        let rest = ls.subrange(1, ls.len() as int);
        lemma_print_header_facts(l0.label_name);
        lemma_print_instructions_index(ins0);
        assert forall|j: int| 0 <= j < pl0.len() implies no_newline(#[trigger] pl0[j]) by {
            if j == 0 {
                assert(pl0[0] == print_label_header(l0.label_name));
            } else {
                assert(pl0[j] == print_instructions(ins0)[j - 1]);
                assert(print_instructions(ins0)[j - 1] == print_instruction(ins0[j - 1]));
                lemma_print_instruction_facts(ins0[j - 1]);
            }
        }
        lemma_print_labels_no_newline(rest);
        assert forall|j: int|
            0 <= j < print_labels(ls).len() implies no_newline(#[trigger] print_labels(ls)[j]) by {
            if j < pl0.len() {
                assert(print_labels(ls)[j] == pl0[j]);
            } else {
                assert(print_labels(ls)[j] == print_labels(rest)[j - pl0.len()]);
            }
        }
    }
}

#[verifier::rlimit(100)]
#[verifier::spinoff_prover]
proof fn lemma_print_lines_no_newline(p: ProgramV)
    requires
        wf_program(p),
    ensures
        print_program_lines(p).len() >= 1,
        forall|j: int|
            0 <= j < print_program_lines(p).len() ==> no_newline(
                #[trigger] print_program_lines(p)[j],
            ),
{
    lemma_marker_lines();
    let lines = print_program_lines(p);
    let dseg = pp_dseg(p);
    let eseg = pp_eseg(p);
    let lseg = pp_lseg(p);
    assert(lines == dseg + eseg + seq![".program:"@] + lseg);
    lemma_print_variables_index(p.data);
    assert(no_newline(".data:"@)) by {
        if contains_char(".data:"@, '\n') {
            let i = choose|i: int| 0 <= i < ".data:"@.len() && ".data:"@[i] == '\n';
        }
    }
    assert(no_newline(".extern"@)) by {
        if contains_char(".extern"@, '\n') {
            let i = choose|i: int| 0 <= i < ".extern"@.len() && ".extern"@[i] == '\n';
        }
    }
    assert(no_newline(".program:"@)) by {
        if contains_char(".program:"@, '\n') {
            let i = choose|i: int| 0 <= i < ".program:"@.len() && ".program:"@[i] == '\n';
        }
    }
    assert forall|j: int| 0 <= j < dseg.len() implies no_newline(#[trigger] dseg[j]) by {
        if j > 0 {
            assert(dseg[j] == print_variables(p.data)[j - 1]);
            assert(print_variables(p.data)[j - 1] == print_variable(p.data[j - 1]));
            lemma_print_variable_facts(p.data[j - 1]);
        }
    }
    assert forall|j: int| 0 <= j < eseg.len() implies no_newline(#[trigger] eseg[j]) by {
        match p.extern_functions {
            Option::Some(fs) => {
                if j > 0 {
                    assert(eseg[j] == fs[j - 1]);
                    assert(wf_extern_name(fs[j - 1]));
                }
            },
            Option::None => {},
        }
    }
    match p.labels {
        Option::Some(ls) => {
            lemma_print_labels_no_newline(ls);
        },
        Option::None => {},
    }
    assert forall|j: int| 0 <= j < lines.len() implies no_newline(#[trigger] lines[j]) by {
        if j < dseg.len() {
            assert(lines[j] == dseg[j]);
        } else if j < dseg.len() + eseg.len() {
            assert(lines[j] == eseg[j - dseg.len()]);
        } else if j == dseg.len() + eseg.len() {
            assert(lines[j] == ".program:"@);
        } else {
            assert(lines[j] == lseg[j - dseg.len() - eseg.len() - 1]);
            match p.labels {
                Option::Some(ls) => {},
                Option::None => {},
            }
        }
    }
}

/// Parsing is idempotent: a well-formed program — exactly what a
/// successful parse with nonempty extern names yields — rendered by the
/// canonical pretty-printer parses back to an equal program.
pub proof fn lemma_print_parse_round_trip(p: ProgramV)
    requires
        wf_program(p),
    ensures
        parse_source(join_lines(print_program_lines(p))) == Ok::<ProgramV, ParseErrorV>(p),
{
    let lines = print_program_lines(p);
    lemma_print_lines_no_newline(p);
    lemma_split_join(lines);
    lemma_print_parse_lines(p);
}


/// A character of a trimmed text comes from the text.
proof fn lemma_contains_char_trim(l: Seq<char>, c: char)
    requires
        contains_char(trim_spec(l), c),
    ensures
        contains_char(l, c),
{
    crate::text::lemma_first_non_ws(l);
    crate::text::lemma_last_non_ws_end(l);
    let f = crate::text::first_non_ws(l);
    let e = crate::text::last_non_ws_end(l);
    if f < e {
        let t = l.subrange(f, e);
        let i = choose|i: int| 0 <= i < t.len() && t[i] == c;
        assert(l[f + i] == c);
    }
}

/// What a trimmed instruction line that is no terminator parses to is a
/// well-formed instruction.
#[verifier::rlimit(100)]
#[verifier::spinoff_prover]
proof fn lemma_parsed_instruction_wf(l: Seq<char>, iv: InstructionV)
    requires
        l.len() > 0,
        !is_marker(l),
        !is_label_header(l),
        no_newline(l),
        instruction_of_line(trim_spec(l)) == Ok::<InstructionV, crate::parser::ParseErrorKind>(iv),
    ensures
        wf_instruction(iv),
{
    lemma_marker_lines();
    let t = trim_spec(l);
    let k = first_index_of(t, ' ');
    lemma_first_index_of(t, ' ');
    // nothing in the trimmed line holds a marker or a newline
    assert(!contains_seq(t, ".data:"@) && !contains_seq(t, ".extern"@) && !contains_seq(
        t,
        ".program:"@,
    )) by {
        lemma_contains_trim(l, ".data:"@);
        lemma_contains_trim(l, ".extern"@);
        lemma_contains_trim(l, ".program:"@);
    }
    assert(!contains_char(t, '\n')) by {
        if contains_char(t, '\n') {
            lemma_contains_char_trim(l, '\n');
        }
    }
    if k == t.len() {
        // a bare valueless mnemonic
        lemma_opcode_canonical_roundtrip(t, iv.ty);
        assert(iv.val == InstructionValueV::SingleValue(Seq::<char>::empty()));
        assert(clean_text(Seq::<char>::empty())) by {
            if contains_seq(Seq::<char>::empty(), ".data:"@) {
                let p = choose|p: int| matches_at(Seq::<char>::empty(), ".data:"@, p);
            }
            if contains_seq(Seq::<char>::empty(), ".extern"@) {
                let p = choose|p: int| matches_at(Seq::<char>::empty(), ".extern"@, p);
            }
            if contains_seq(Seq::<char>::empty(), ".program:"@) {
                let p = choose|p: int| matches_at(Seq::<char>::empty(), ".program:"@, p);
            }
        }
        assert(!contains_seq(Seq::<char>::empty(), "@"@)) by {
            if contains_seq(Seq::<char>::empty(), "@"@) {
                let p = choose|p: int| matches_at(Seq::<char>::empty(), "@"@, p);
            }
        }
    } else {
        let mnem = t.subrange(0, k);
        let rest = t.subrange(k + 1, t.len() as int);
        lemma_opcode_canonical_roundtrip(mnem, iv.ty);
        lemma_trim_ends(l);
        assert(trim_spec(t) == t);
        lemma_trim_ends(t);
        // the remainder is nonempty: the line cannot end in the space
        assert(rest.len() > 0) by {
            if k == t.len() - 1 {
                assert(is_ws(t[t.len() - 1]));
            }
        }
        assert(rest[rest.len() - 1] == t[t.len() - 1]);
        // pieces of the trimmed line stay marker- and newline-free
        assert forall|nd: Seq<char>|
            #[trigger] contains_seq(rest, nd) implies contains_seq(t, nd) by {
            lemma_contains_subrange(t, k + 1, t.len() as int, nd);
        }
        assert(!contains_char(rest, '\n')) by {
            if contains_char(rest, '\n') {
                lemma_contains_char_subrange(t, k + 1, t.len() as int, '\n');
            }
        }
        let c = first_index_of(rest, ',');
        lemma_first_index_of(rest, ',');
        if paired(iv.ty) && c < rest.len() {
            // a pair of operands
            let lv = rest.subrange(0, c);
            let rv = rest.subrange(c + 1, rest.len() as int);
            assert(iv.val == InstructionValueV::MultipleValue(lv, rv));
            assert forall|nd: Seq<char>|
                #[trigger] contains_seq(lv, nd) implies contains_seq(rest, nd) by {
                lemma_contains_subrange(rest, 0, c, nd);
            }
            assert forall|nd: Seq<char>|
                #[trigger] contains_seq(rv, nd) implies contains_seq(rest, nd) by {
                lemma_contains_subrange(rest, c + 1, rest.len() as int, nd);
            }
            assert(!contains_char(lv, ',')) by {
                if contains_char(lv, ',') {
                    let i = choose|i: int| 0 <= i < lv.len() && lv[i] == ',';
                    assert(rest[i] == ',');
                }
            }
            assert(!contains_char(lv, '\n')) by {
                if contains_char(lv, '\n') {
                    lemma_contains_char_subrange(rest, 0, c, '\n');
                }
            }
            assert(!contains_char(rv, '\n')) by {
                if contains_char(rv, '\n') {
                    lemma_contains_char_subrange(rest, c + 1, rest.len() as int, '\n');
                }
            }
            if rv.len() > 0 {
                assert(rv[rv.len() - 1] == rest[rest.len() - 1]);
            }
        } else {
            // a single operand
            assert(iv.val == InstructionValueV::SingleValue(rest));
            if paired(iv.ty) {
                assert(!contains_char(rest, ',')) by {
                    if contains_char(rest, ',') {
                        let i = choose|i: int| 0 <= i < rest.len() && rest[i] == ',';
                        assert(rest[first_index_of(rest, ',')] == ',');
                    }
                }
            }
            // the sigil in an operand forces a jump line
            if contains_seq(rest, "@"@) && iv.ty != InstructionType::JMP && no_jump_text(rest) {
                lemma_contains_subrange(t, k + 1, t.len() as int, "@"@);
                lemma_contains_trim(l, "@"@);
                assert(contains_seq(l, "@"@));
                assert(line_has_jump(l));
                // the jump needle lies in the trimmed line
                lemma_contains_trim(l, "JMP"@);
                lemma_contains_trim(l, "JEQ"@);
                lemma_contains_trim(l, "JNE"@);
                // the trimmed line splits at the first space
                assert(t =~= mnem + seq![' '] + rest) by {
                    assert(t[k] == ' ');
                    assert(t =~= t.subrange(0, k) + seq![t[k]] + t.subrange(k + 1, t.len() as int));
                }
                lemma_contains_around_sep(mnem, rest, "JMP"@, ' ');
                lemma_contains_around_sep(mnem, rest, "JEQ"@, ' ');
                lemma_contains_around_sep(mnem, rest, "JNE"@, ' ');
                // so it lies in the mnemonic text, which is three long
                lemma_opcode_lookup_canonical(mnem, iv.ty);
                lemma_mnemonic_shape(iv.ty);
                assert(mnem.len() == 3);
                if contains_seq(mnem, "JMP"@) {
                    let p = choose|p: int| matches_at(mnem, "JMP"@, p);
                    assert(p == 0);
                    assert(mnem.subrange(0, 3) =~= mnem);
                    assert(mnem == "JMP"@);
                    lemma_jmp_lookup();
                } else if contains_seq(mnem, "JEQ"@) {
                    let p = choose|p: int| matches_at(mnem, "JEQ"@, p);
                    assert(p == 0);
                    assert(mnem.subrange(0, 3) =~= mnem);
                    assert(mnem == "JEQ"@);
                    lemma_jeq_lookup();
                } else {
                    let p = choose|p: int| matches_at(mnem, "JNE"@, p);
                    assert(p == 0);
                    assert(mnem.subrange(0, 3) =~= mnem);
                    assert(mnem == "JNE"@);
                    lemma_jne_lookup();
                }
            }
        }
    }
}

/// What a trimmed variable line that is no marker parses to is a
/// well-formed variable.
#[verifier::rlimit(100)]
#[verifier::spinoff_prover]
proof fn lemma_parsed_variable_wf(l: Seq<char>, vv: VariableV)
    requires
        l.len() > 0,
        !is_marker(l),
        no_newline(l),
        variable_of_line(trim_spec(l)) == Some(vv),
    ensures
        wf_variable(vv),
{
    lemma_marker_lines();
    let t = trim_spec(l);
    let k1 = first_index_of(t, ' ');
    lemma_first_index_of(t, ' ');
    assert(k1 < t.len());
    let ty_tok = t.subrange(0, k1);
    let rest = t.subrange(k1 + 1, t.len() as int);
    let k2 = first_index_of(rest, ' ');
    lemma_first_index_of(rest, ' ');
    assert(k2 < rest.len());
    lemma_type_canonical_roundtrip(ty_tok, vv.ty);
    assert(!contains_seq(t, ".data:"@) && !contains_seq(t, ".extern"@) && !contains_seq(
        t,
        ".program:"@,
    )) by {
        lemma_contains_trim(l, ".data:"@);
        lemma_contains_trim(l, ".extern"@);
        lemma_contains_trim(l, ".program:"@);
    }
    lemma_trim_ends(l);
    assert(rest.len() > 0);
    assert(rest[rest.len() - 1] == t[t.len() - 1]);
    assert forall|nd: Seq<char>| #[trigger] contains_seq(rest, nd) implies contains_seq(t, nd) by {
        lemma_contains_subrange(t, k1 + 1, t.len() as int, nd);
    }
    let name = rest.subrange(0, k2);
    let value = rest.subrange(k2 + 1, rest.len() as int);
    assert(vv.name == name);
    assert(vv.value == value);
    // the name is the token before the second space
    assert(!contains_char(name, ' ')) by {
        if contains_char(name, ' ') {
            let i = choose|i: int| 0 <= i < name.len() && name[i] == ' ';
            assert(rest[i] == ' ');
        }
    }
    // the value is nonempty and ends the trimmed line
    assert(value.len() > 0) by {
        if k2 == rest.len() - 1 {
            assert(is_ws(rest[rest.len() - 1]));
        }
    }
    assert(value[value.len() - 1] == rest[rest.len() - 1]);
    assert forall|nd: Seq<char>| #[trigger] contains_seq(name, nd) implies contains_seq(rest, nd) by {
        lemma_contains_subrange(rest, 0, k2, nd);
    }
    assert forall|nd: Seq<char>|
        #[trigger] contains_seq(value, nd) implies contains_seq(rest, nd) by {
        lemma_contains_subrange(rest, k2 + 1, rest.len() as int, nd);
    }
    assert(!contains_char(t, '\n')) by {
        if contains_char(t, '\n') {
            lemma_contains_char_trim(l, '\n');
        }
    }
    assert(!contains_char(name, '\n')) by {
        if contains_char(name, '\n') {
            lemma_contains_char_subrange(rest, 0, k2, '\n');
            lemma_contains_char_subrange(t, k1 + 1, t.len() as int, '\n');
        }
    }
    assert(!contains_char(value, '\n')) by {
        if contains_char(value, '\n') {
            lemma_contains_char_subrange(rest, k2 + 1, rest.len() as int, '\n');
            lemma_contains_char_subrange(t, k1 + 1, t.len() as int, '\n');
        }
    }
}


/// Every line that splitting yields is newline-free.
proof fn lemma_split_lines_no_newline(t: Seq<char>)
    ensures
        forall|j: int|
            0 <= j < split_lines_spec(t).len() ==> no_newline(#[trigger] split_lines_spec(t)[j]),
    decreases t.len(),
{
    let k = first_index_of(t, '\n');
    lemma_first_index_of(t, '\n');
    if 0 <= k < t.len() {
        let first = t.subrange(0, k);
        assert(no_newline(first)) by {
            if contains_char(first, '\n') {
                let i = choose|i: int| 0 <= i < first.len() && first[i] == '\n';
                assert(t[i] == '\n');
            }
        }
        lemma_split_lines_no_newline(t.subrange(k + 1, t.len() as int));
        assert forall|j: int|
            0 <= j < split_lines_spec(t).len() implies no_newline(
            #[trigger] split_lines_spec(t)[j],
        ) by {
            if j == 0 {
                assert(split_lines_spec(t)[0] == first);
            } else {
                assert(split_lines_spec(t)[j] == split_lines_spec(
                    t.subrange(k + 1, t.len() as int),
                )[j - 1]);
            }
        }
    } else {
        assert(no_newline(t));
        assert(split_lines_spec(t)[0] == t);
    }
}

/// The instructions a label block parse yields are well-formed.
proof fn lemma_parse_label_from_wf(lines: Seq<Seq<char>>, i: int)
    requires
        forall|j: int| 0 <= j < lines.len() ==> no_newline(#[trigger] lines[j]),
    ensures
        ({
            match parse_label_from(lines, i) {
                Ok((ins, n)) => forall|j: int|
                    0 <= j < ins.len() ==> wf_instruction(#[trigger] ins[j]),
                Err(_) => true,
            }
        }),
    decreases lines.len() - i,
{
    if i < 0 || i >= lines.len() {
    } else if lines[i].len() == 0 {
        lemma_parse_label_from_wf(lines, i + 1);
    } else if is_marker(lines[i]) || is_label_header(lines[i]) {
    } else {
        match instruction_of_line(trim_spec(lines[i])) {
            Err(_) => {},
            Ok(inst) => {
                lemma_parsed_instruction_wf(lines[i], inst);
                lemma_parse_label_from_wf(lines, i + 1);
                match parse_label_from(lines, i + 1) {
                    Err(_) => {},
                    Ok((ins, n)) => {
                        assert forall|j: int|
                            0 <= j < (seq![inst] + ins).len() implies wf_instruction(
                            #[trigger] (seq![inst] + ins)[j],
                        ) by {
                            if j > 0 {
                                assert((seq![inst] + ins)[j] == ins[j - 1]);
                            }
                        }
                    },
                }
            },
        }
    }
}

/// The variables a data block parse yields are well-formed.
proof fn lemma_parse_variables_from_wf(lines: Seq<Seq<char>>, i: int)
    requires
        forall|j: int| 0 <= j < lines.len() ==> no_newline(#[trigger] lines[j]),
    ensures
        ({
            match parse_variables_from(lines, i) {
                Ok((vs, n)) => forall|j: int| 0 <= j < vs.len() ==> wf_variable(#[trigger] vs[j]),
                Err(_) => true,
            }
        }),
    decreases lines.len() - i,
{
    if i < 0 || i >= lines.len() {
    } else if lines[i].len() == 0 {
        lemma_parse_variables_from_wf(lines, i + 1);
    } else if is_marker(lines[i]) {
    } else {
        match variable_of_line(trim_spec(lines[i])) {
            Option::None => {},
            Option::Some(v) => {
                lemma_parsed_variable_wf(lines[i], v);
                lemma_parse_variables_from_wf(lines, i + 1);
                match parse_variables_from(lines, i + 1) {
                    Err(_) => {},
                    Ok((vs, n)) => {
                        assert forall|j: int|
                            0 <= j < (seq![v] + vs).len() implies wf_variable(
                            #[trigger] (seq![v] + vs)[j],
                        ) by {
                            if j > 0 {
                                assert((seq![v] + vs)[j] == vs[j - 1]);
                            }
                        }
                    },
                }
            },
        }
    }
}

/// An extern name that could round trip: marker-free, newline-free and
/// trimmed; emptiness is the one thing a parse does not rule out.
pub open spec fn wf_extern_name_weak(n: Seq<char>) -> bool {
    clean_text(n) && trim_spec(n) == n
}

/// The trimmed text of a line that is no marker is itself a clean,
/// trimmed name.
#[verifier::rlimit(100)]
#[verifier::spinoff_prover]
proof fn lemma_trimmed_name_wf(l: Seq<char>)
    requires
        !is_marker(l),
        no_newline(l),
    ensures
        wf_extern_name_weak(trim_spec(l)),
{
    let name = trim_spec(l);
    lemma_marker_lines();
    lemma_contains_trim(l, ".data:"@);
    lemma_contains_trim(l, ".extern"@);
    lemma_contains_trim(l, ".program:"@);
    assert(!contains_char(name, '\n')) by {
        if contains_char(name, '\n') {
            lemma_contains_char_trim(l, '\n');
        }
    }
    if name.len() > 0 {
        lemma_trim_ends(l);
    } else {
        assert(name =~= Seq::<char>::empty());
        assert(trim_spec(name) =~= name);
    }
}

/// The names an extern block parse yields are marker-free and trimmed.
proof fn lemma_parse_extern_from_wf(lines: Seq<Seq<char>>, i: int)
    requires
        forall|j: int| 0 <= j < lines.len() ==> no_newline(#[trigger] lines[j]),
    ensures
        forall|j: int|
            0 <= j < parse_extern_from(lines, i).0.len() ==> wf_extern_name_weak(
                #[trigger] parse_extern_from(lines, i).0[j],
            ),
    decreases lines.len() - i,
{
    if i < 0 || i >= lines.len() {
        assert(parse_extern_from(lines, i).0.len() == 0);
    } else if lines[i].len() == 0 {
        lemma_parse_extern_from_wf(lines, i + 1);
        assert(parse_extern_from(lines, i) == parse_extern_from(lines, i + 1));
    } else if is_marker(lines[i]) {
        assert(parse_extern_from(lines, i).0.len() == 0);
    } else {
        let l = lines[i];
        let name = trim_spec(l);
        lemma_trimmed_name_wf(l);
        lemma_parse_extern_from_wf(lines, i + 1);
        let (fs, n) = parse_extern_from(lines, i + 1);
        assert forall|j: int|
            0 <= j < (seq![name] + fs).len() implies wf_extern_name_weak(
            #[trigger] (seq![name] + fs)[j],
        ) by {
            if j > 0 {
                assert((seq![name] + fs)[j] == fs[j - 1]);
            }
        }
        assert(parse_extern_from(lines, i).0 == seq![name] + fs);
    }
}

/// What the scan has gathered so far is well-formed, extern name sizes
/// aside.
pub open spec fn wf_acc(p: ProgramV) -> bool {
    &&& forall|j: int| 0 <= j < p.data.len() ==> wf_variable(#[trigger] p.data[j])
    &&& match p.extern_functions {
        Option::Some(fs) => forall|j: int|
            0 <= j < fs.len() ==> wf_extern_name_weak(#[trigger] fs[j]),
        Option::None => true,
    }
    &&& match p.labels {
        Option::Some(ls) => ls.len() > 0 && forall|j: int|
            0 <= j < ls.len() ==> wf_label(#[trigger] ls[j]),
        Option::None => true,
    }
}

/// The name a header line declares is clean, jump-free and trimmed.
#[verifier::rlimit(100)]
#[verifier::spinoff_prover]
proof fn lemma_header_name_wf(l: Seq<char>)
    requires
        !is_marker(l),
        is_label_header(l),
        no_newline(l),
    ensures
        clean_text(label_name_of(l)),
        no_jump_text(label_name_of(l)),
        no_trailing_ws(label_name_of(l)),
{
    lemma_marker_lines();
    let t = trim_spec(l);
    let name = label_name_of(l);
    assert forall|nd: Seq<char>|
        #[trigger] contains_seq(name, nd) && nd.len() > 0 && (forall|x: int|
            0 <= x < nd.len() ==> !is_ws(#[trigger] nd[x])) implies contains_seq(l, nd) by {
        if t.len() > 0 && t[0] == '@' {
            lemma_contains_subrange(t, 1, t.len() as int, nd);
        }
        lemma_contains_trim(l, nd);
    }
    assert(!contains_char(name, '\n')) by {
        if contains_char(name, '\n') {
            if t.len() > 0 && t[0] == '@' {
                lemma_contains_char_subrange(t, 1, t.len() as int, '\n');
            }
            lemma_contains_char_trim(l, '\n');
        }
    }
    if name.len() > 0 {
        lemma_trim_ends(l);
        assert(name[name.len() - 1] == t[t.len() - 1]);
    }
}

/// A top scan from a well-formed accumulation yields a well-formed
/// program, extern name sizes aside.
#[verifier::rlimit(100)]
#[verifier::spinoff_prover]
proof fn lemma_parse_top_from_wf(lines: Seq<Seq<char>>, i: int, prog: ProgramV)
    requires
        forall|j: int| 0 <= j < lines.len() ==> no_newline(#[trigger] lines[j]),
        wf_acc(prog),
    ensures
        ({
            match parse_top_from(lines, i, prog) {
                Ok(q) => wf_acc(q),
                Err(_) => true,
            }
        }),
    decreases lines.len() - i,
{
    if i < 0 || i >= lines.len() {
    } else {
        let l = lines[i];
        if is_data_marker(l) {
            match parse_variables_from(lines, i + 1) {
                Err(_) => {},
                Ok((vs, n)) => {
                    lemma_parse_variables_from_wf(lines, i + 1);
                    if i < n <= lines.len() {
                        lemma_parse_top_from_wf(lines, n, ProgramV { data: vs, ..prog });
                    }
                },
            }
        } else if is_extern_marker(l) {
            let (fs, n) = parse_extern_from(lines, i + 1);
            lemma_parse_extern_from_wf(lines, i + 1);
            if i < n <= lines.len() {
                lemma_parse_top_from_wf(
                    lines,
                    n,
                    ProgramV { extern_functions: Some(fs), ..prog },
                );
            }
        } else if is_program_marker(l) {
            lemma_parse_top_from_wf(lines, i + 1, prog);
        } else if is_section_like(l) {
        } else if is_label_header(l) {
            match parse_label_from(lines, i + 1) {
                Err(_) => {},
                Ok((ins, n)) => {
                    lemma_parse_label_from_wf(lines, i + 1);
                    let name = label_name_of(l);
                    let lv = LabelV { label_name: name, instructions: Some(ins) };
                    lemma_header_name_wf(l);
                    assert(wf_label(lv));
                    let p2 = push_label(prog, name, ins);
                    assert(wf_acc(p2)) by {
                        match prog.labels {
                            Option::None => {
                                assert(p2.labels == Some(seq![lv]));
                            },
                            Option::Some(acc) => {
                                assert(p2.labels == Some(acc.push(lv)));
                                assert forall|j: int|
                                    0 <= j < acc.push(lv).len() implies wf_label(
                                    #[trigger] acc.push(lv)[j],
                                ) by {
                                    if j < acc.len() {
                                        assert(acc.push(lv)[j] == acc[j]);
                                    }
                                }
                            },
                        }
                    }
                    if i < n <= lines.len() {
                        lemma_parse_top_from_wf(lines, n, p2);
                    }
                },
            }
        } else {
            lemma_parse_top_from_wf(lines, i + 1, prog);
        }
    }
}

/// A program a successful parse yields is well-formed whenever its
/// extern names are nonempty; a whitespace-only line in an extern
/// section is the one parse input whose result the rendering cannot
/// carry back.
pub proof fn lemma_parse_wf(s: Seq<char>)
    ensures
        ({
            match parse_source(s) {
                Ok(p) => extern_names_nonempty(p) ==> wf_program(p),
                Err(_) => true,
            }
        }),
{
    lemma_split_lines_no_newline(s);
    lemma_parse_top_from_wf(split_lines_spec(s), 0, empty_program());
}

/// Parsing is idempotent: rendering a parsed program through the
/// canonical pretty-printer and parsing the rendering yields the same
/// program, for every parse whose extern names are nonempty.
pub proof fn lemma_parse_idempotent(s: Seq<char>)
    requires
        parse_source(s) is Ok,
        extern_names_nonempty(parse_source(s)->Ok_0),
    ensures
        parse_source(join_lines(print_program_lines(parse_source(s)->Ok_0))) == parse_source(s),
{
    lemma_parse_wf(s);
    lemma_print_parse_round_trip(parse_source(s)->Ok_0);
}


proof fn lemma_print_variables_snoc(vs: Seq<VariableV>, i: int)
    requires
        0 <= i < vs.len(),
    ensures
        print_variables(vs.subrange(0, i + 1)) == print_variables(vs.subrange(0, i)).push(
            print_variable(vs[i]),
        ),
{
    lemma_print_variables_index(vs.subrange(0, i + 1));
    lemma_print_variables_index(vs.subrange(0, i));
    assert forall|k: int|
        0 <= k < i + 1 implies print_variables(vs.subrange(0, i + 1))[k] == print_variables(
        vs.subrange(0, i),
    ).push(print_variable(vs[i]))[k] by {
        assert(print_variables(vs.subrange(0, i + 1))[k] == print_variable(
            vs.subrange(0, i + 1)[k],
        ));
        if k < i {
            assert(print_variables(vs.subrange(0, i))[k] == print_variable(vs.subrange(0, i)[k]));
        }
    }
    assert(print_variables(vs.subrange(0, i + 1)) =~= print_variables(vs.subrange(0, i)).push(
        print_variable(vs[i]),
    ));
}

proof fn lemma_print_instructions_snoc(ins: Seq<InstructionV>, i: int)
    requires
        0 <= i < ins.len(),
    ensures
        print_instructions(ins.subrange(0, i + 1)) == print_instructions(ins.subrange(0, i)).push(
            print_instruction(ins[i]),
        ),
{
    lemma_print_instructions_index(ins.subrange(0, i + 1));
    lemma_print_instructions_index(ins.subrange(0, i));
    assert forall|k: int|
        0 <= k < i + 1 implies print_instructions(ins.subrange(0, i + 1))[k] == print_instructions(
        ins.subrange(0, i),
    ).push(print_instruction(ins[i]))[k] by {
        assert(print_instructions(ins.subrange(0, i + 1))[k] == print_instruction(
            ins.subrange(0, i + 1)[k],
        ));
        if k < i {
            assert(print_instructions(ins.subrange(0, i))[k] == print_instruction(
                ins.subrange(0, i)[k],
            ));
        }
    }
    assert(print_instructions(ins.subrange(0, i + 1)) =~= print_instructions(
        ins.subrange(0, i),
    ).push(print_instruction(ins[i])));
}

proof fn lemma_print_labels_snoc(ls: Seq<LabelV>, i: int)
    requires
        0 <= i < ls.len(),
    ensures
        print_labels(ls.subrange(0, i + 1)) == print_labels(ls.subrange(0, i)) + print_label(
            ls[i],
        ),
    decreases i,
{
    if i == 0 {
        let one = ls.subrange(0, 1);
        assert(one[0] == ls[0]);
        assert(one.subrange(1, 1) =~= Seq::<LabelV>::empty());
        assert(print_labels(one.subrange(1, 1)) =~= Seq::<Seq<char>>::empty());
        assert(print_labels(ls.subrange(0, 0)) =~= Seq::<Seq<char>>::empty());
        assert(print_labels(one) =~= print_labels(ls.subrange(0, 0)) + print_label(ls[0]));
    } else {
        let rest = ls.subrange(1, ls.len() as int);
        lemma_print_labels_snoc(rest, i - 1);
        let a = ls.subrange(0, i + 1);
        let b = ls.subrange(0, i);
        assert(a[0] == ls[0]);
        assert(b[0] == ls[0]);
        assert(a.subrange(1, a.len() as int) =~= rest.subrange(0, i));
        assert(b.subrange(1, b.len() as int) =~= rest.subrange(0, i - 1));
        assert(rest[i - 1] == ls[i]);
        assert(print_label(ls[0]) + (print_labels(rest.subrange(0, i - 1)) + print_label(ls[i]))
            =~= (print_label(ls[0]) + print_labels(rest.subrange(0, i - 1))) + print_label(ls[i]));
    }
}

/// Renders one instruction line.
fn render_instruction(i: &Instruction) -> (r: String)
    ensures
        r@ == print_instruction(i@),
{
    proof {
        reveal_strlit(" ");
        reveal_strlit(",");
        assert(" "@ =~= seq![' ']);
        assert(","@ =~= seq![',']);
    }
    match &i.val {
        InstructionValue::SingleValue(v) => {
            if v.as_str().unicode_len() == 0 {
                let r = i.ty.mnemonic();
                proof {
                    assert(v@ =~= Seq::<char>::empty());
                }
                r
            } else {
                i.ty.mnemonic().concat(" ").concat(v.as_str())
            }
        },
        InstructionValue::MultipleValue(l, rr) => i.ty.mnemonic().concat(" ").concat(
            l.as_str(),
        ).concat(",").concat(rr.as_str()),
    }
}

/// Renders one variable line.
fn render_variable(v: &Variable) -> (r: String)
    ensures
        r@ == print_variable(v@),
{
    proof {
        reveal_strlit(" ");
        assert(" "@ =~= seq![' ']);
    }
    v.ty.name().concat(" ").concat(v.name.as_str()).concat(" ").concat(v.value.as_str())
}

/// Renders the lines of a program in canonical order.
#[verifier::rlimit(100)]
#[verifier::spinoff_prover]
fn render_lines(p: &Program) -> (r: Vec<String>)
    ensures
        r.deep_view() == print_program_lines(p@),
{
    proof {
        reveal_strlit("@");
        assert("@"@ =~= seq!['@']);
    }
    let ghost pv = p@;
    let mut lines: Vec<String> = Vec::new();
    // the data section
    if p.data.len() > 0 {
        lines.push(".data:".to_owned());
        let mut i: usize = 0;
        proof {
            assert(print_variables(pv.data.subrange(0, 0)) =~= Seq::<Seq<char>>::empty());
            assert(lines.deep_view() =~= seq![".data:"@] + print_variables(
                pv.data.subrange(0, 0),
            ));
        }
        while i < p.data.len()
            invariant
                pv == p@,
                0 <= i <= p.data@.len(),
                lines.deep_view() == seq![".data:"@] + print_variables(
                    pv.data.subrange(0, i as int),
                ),
            decreases p.data@.len() - i,
        {
            let line = render_variable(&p.data[i]);
            let ghost lv = line@;
            let ghost prev = lines.deep_view();
            lines.push(line);
            proof {
                assert(lines.deep_view()[lines@.len() - 1] == lv);
                assert(lines.deep_view() =~= prev.push(lv));
                assert(pv.data[i as int] == p.data@[i as int]@);
                lemma_print_variables_snoc(pv.data, i as int);
                assert(lines.deep_view() =~= seq![".data:"@] + print_variables(
                    pv.data.subrange(0, i + 1),
                ));
            }
            i = i + 1;
        }
        proof {
            assert(pv.data.subrange(0, pv.data.len() as int) =~= pv.data);
            assert(lines.deep_view() =~= pp_dseg(pv));
        }
    } else {
        proof {
            assert(lines.deep_view() =~= pp_dseg(pv));
        }
    }
    // the extern section
    let ghost after_data = lines.deep_view();
    match &p.extern_functions {
        Option::None => {
            proof {
                assert(lines.deep_view() =~= after_data + pp_eseg(pv));
            }
        },
        Option::Some(fs) => {
            lines.push(".extern".to_owned());
            let mut i: usize = 0;
            proof {
                assert(lines.deep_view() =~= after_data + seq![".extern"@]
                    + fs.deep_view().subrange(0, 0));
            }
            while i < fs.len()
                invariant
                    pv == p@,
                    p.extern_functions == Some(*fs),
                    0 <= i <= fs@.len(),
                    lines.deep_view() == after_data + seq![".extern"@] + fs.deep_view().subrange(
                        0,
                        i as int,
                    ),
                decreases fs@.len() - i,
            {
                let line = fs[i].clone();
                let ghost lv = line@;
                let ghost prev = lines.deep_view();
                lines.push(line);
                proof {
                    assert(lines.deep_view()[lines@.len() - 1] == lv);
                    assert(lines.deep_view() =~= prev.push(lv));
                    assert(lv == fs.deep_view()[i as int]);
                    assert(lines.deep_view() =~= after_data + seq![".extern"@]
                        + fs.deep_view().subrange(0, i + 1));
                }
                i = i + 1;
            }
            proof {
                assert(fs.deep_view().subrange(0, fs.deep_view().len() as int) =~= fs.deep_view());
                assert(pp_eseg(pv) =~= seq![".extern"@] + fs.deep_view());
                assert(lines.deep_view() =~= after_data + pp_eseg(pv));
            }
        },
    }
    // the program marker
    lines.push(".program:".to_owned());
    let ghost after_marker = lines.deep_view();
    proof {
        assert(after_marker =~= after_data + pp_eseg(pv) + seq![".program:"@]);
    }
    // the labels
    match &p.labels {
        Option::None => {
            proof {
                assert(lines.deep_view() =~= after_marker + pp_lseg(pv));
            }
        },
        Option::Some(ls) => {
            let mut i: usize = 0;
            proof {
                assert(print_labels(ls.deep_view().subrange(0, 0)) =~= Seq::<Seq<char>>::empty());
                assert(lines.deep_view() =~= after_marker + print_labels(
                    ls.deep_view().subrange(0, 0),
                ));
            }
            while i < ls.len()
                invariant
                    pv == p@,
                    p.labels == Some(*ls),
                    0 <= i <= ls@.len(),
                    lines.deep_view() == after_marker + print_labels(
                        ls.deep_view().subrange(0, i as int),
                    ),
                decreases ls@.len() - i,
            {
                let ghost before_label = lines.deep_view();
                let header = "@".to_owned().concat(ls[i].label_name.as_str());
                let ghost hv = header@;
                lines.push(header);
                let ghost lv = ls.deep_view()[i as int];
                proof {
                    reveal_strlit("@");
                    assert("@"@ =~= seq!['@']);
                    assert(lv == ls@[i as int]@);
                    assert(hv =~= print_label_header(lv.label_name));
                    assert(lines.deep_view()[lines@.len() - 1] == hv);
                    assert(lines.deep_view() =~= before_label.push(hv));
                    assert(lines.deep_view() =~= before_label + seq![print_label_header(
                        lv.label_name,
                    )]);
                }
                match &ls[i].instructions {
                    Option::None => {
                        proof {
                            assert(print_label(lv) =~= seq![print_label_header(lv.label_name)]);
                            assert(lines.deep_view() =~= before_label + print_label(lv));
                        }
                    },
                    Option::Some(ins) => {
                        let mut j: usize = 0;
                        proof {
                            assert(print_instructions(ins.deep_view().subrange(0, 0)) =~= Seq::<
                                Seq<char>,
                            >::empty());
                            assert(lines.deep_view() =~= before_label + seq![print_label_header(
                                lv.label_name,
                            )] + print_instructions(ins.deep_view().subrange(0, 0)));
                        }
                        while j < ins.len()
                            invariant
                                pv == p@,
                                lv == ls.deep_view()[i as int],
                                i < ls@.len(),
                                p.labels == Some(*ls),
                                ls@[i as int].instructions == Some(*ins),
                                lv.instructions == Some(ins.deep_view()),
                                0 <= j <= ins@.len(),
                                lines.deep_view() == before_label + seq![print_label_header(
                                    lv.label_name,
                                )] + print_instructions(ins.deep_view().subrange(0, j as int)),
                            decreases ins@.len() - j,
                        {
                            let line = render_instruction(&ins[j]);
                            let ghost linev = line@;
                            let ghost prev = lines.deep_view();
                            lines.push(line);
                            proof {
                                assert(lines.deep_view()[lines@.len() - 1] == linev);
                                assert(lines.deep_view() =~= prev.push(linev));
                                assert(ins.deep_view()[j as int] == ins@[j as int]@);
                                lemma_print_instructions_snoc(ins.deep_view(), j as int);
                                assert(lines.deep_view() =~= before_label + seq![
                                    print_label_header(lv.label_name),
                                ] + print_instructions(ins.deep_view().subrange(0, j + 1)));
                            }
                            j = j + 1;
                        }
                        proof {
                            assert(ins.deep_view().subrange(0, ins.deep_view().len() as int)
                                =~= ins.deep_view());
                            assert(print_label(lv) =~= seq![print_label_header(lv.label_name)]
                                + print_instructions(ins.deep_view()));
                            assert(lines.deep_view() =~= before_label + print_label(lv));
                        }
                    },
                }
                proof {
                    lemma_print_labels_snoc(ls.deep_view(), i as int);
                    assert(lines.deep_view() =~= after_marker + print_labels(
                        ls.deep_view().subrange(0, i + 1),
                    ));
                }
                i = i + 1;
            }
            proof {
                assert(ls.deep_view().subrange(0, ls.deep_view().len() as int) =~= ls.deep_view());
                assert(lines.deep_view() =~= after_marker + pp_lseg(pv));
            }
        },
    }
    proof {
        assert(lines.deep_view() =~= print_program_lines(pv));
    }
    lines
}

/// Joins lines with newline separators.
fn join_with_newlines(v: &Vec<String>) -> (r: String)
    ensures
        r@ == join_lines(v.deep_view()),
{
    proof {
        reveal_strlit("\n");
        assert("\n"@ =~= seq!['\n']);
    }
    let mut r = String::new();
    if v.len() == 0 {
        proof {
            assert(v.deep_view() =~= Seq::<Seq<char>>::empty());
        }
        return r;
    }
    r = v[0].clone();
    let mut i: usize = 1;
    proof {
        assert(v.deep_view().subrange(0, 1) =~= seq![v.deep_view()[0]]);
        assert(join_lines(v.deep_view().subrange(0, 1)) == v.deep_view()[0]);
    }
    while i < v.len()
        invariant
            1 <= i <= v@.len(),
            r@ == join_lines(v.deep_view().subrange(0, i as int)),
        decreases v@.len() - i,
    {
        let mut line = r;
        line.append("\n");
        line.append(v[i].as_str());
        r = line;
        proof {
            reveal_strlit("\n");
            assert("\n"@ =~= seq!['\n']);
            let prefix = v.deep_view().subrange(0, i as int);
            lemma_join_push(prefix, v.deep_view()[i as int]);
            assert(prefix.push(v.deep_view()[i as int]) =~= v.deep_view().subrange(0, i + 1));
        }
        i = i + 1;
    }
    proof {
        assert(v.deep_view().subrange(0, v.deep_view().len() as int) =~= v.deep_view());
    }
    r
}

/// The canonical pretty-printer: renders a program to the text whose
/// parse is the program again.
pub fn render_program(p: &Program) -> (r: String)
    ensures
        r@ == join_lines(print_program_lines(p@)),
{
    let lines = render_lines(p);
    join_with_newlines(&lines)
}

} // verus!

use irv::lang::{
    DataType, Flag, InstructionType, InstructionValue, Label, Program, Variable,
};
use irv::parser::{parse_input, ParseError, ParseErrorKind};

fn parse_ok(src: &str) -> Program {
    parse_input(src.to_string()).expect("source should parse")
}

fn parse_err(src: &str) -> ParseError {
    parse_input(src.to_string()).expect_err("source should not parse")
}

#[test]
fn minimal_program_parses_to_one_start_label_with_one_nop() {
    let p = parse_ok(".program:\n@start\nNOP\n");
    assert!(p.extern_functions.is_none());
    assert_eq!(p.data.len(), 0);
    let labels = p.labels.as_ref().expect("one label expected");
    assert_eq!(labels.len(), 1);
    assert_eq!(labels[0].label_name, "start");
    let ins = labels[0].instructions.as_ref().expect("instruction list");
    assert_eq!(ins.len(), 1);
    assert_eq!(ins[0].ty, InstructionType::NOP);
    assert_eq!(ins[0].val, InstructionValue::SingleValue(String::new()));
    assert_eq!(ins[0].flags.len(), 0, "NOP touches no flags");
}

#[test]
fn unknown_mnemonic_fails_with_the_offending_line() {
    let e = parse_err(".program:\n@start\nNOP\nFOO 1\n");
    assert_eq!(e.kind, ParseErrorKind::UnknownMnemonic);
    assert_eq!(e.line_number, 3);
    assert_eq!(e.line, "FOO 1");
}

#[test]
fn unknown_mnemonic_in_later_label_still_fails() {
    let e = parse_err(".program:\n@start\nNOP\n@other\nFOO 1\n");
    assert_eq!(e.kind, ParseErrorKind::UnknownMnemonic);
    assert_eq!(e.line_number, 4);
}

#[test]
fn non_valueless_mnemonic_without_operand_is_an_arity_mismatch() {
    let e = parse_err(".program:\n@start\nLDA\n");
    assert_eq!(e.kind, ParseErrorKind::ArityMismatch);
    assert_eq!(e.line_number, 2);
    assert_eq!(e.line, "LDA");
}

#[test]
fn valueless_mnemonic_with_trailing_text_is_accepted() {
    let p = parse_ok(".program:\n@start\nNOP trailing words\n");
    let ins = p.labels.unwrap()[0].instructions.clone().unwrap();
    assert_eq!(ins[0].ty, InstructionType::NOP);
    assert_eq!(
        ins[0].val,
        InstructionValue::SingleValue("trailing words".to_string())
    );
}

#[test]
fn mnemonics_are_case_insensitive() {
    let p = parse_ok(".program:\n@start\nlda 5\nLdA 6\n");
    let ins = p.labels.unwrap()[0].instructions.clone().unwrap();
    assert_eq!(ins[0].ty, InstructionType::LDA);
    assert_eq!(ins[1].ty, InstructionType::LDA);
}

#[test]
fn jump_with_comma_gets_two_operands() {
    let p = parse_ok(".program:\n@start\nJMP @start,always\n");
    let ins = p.labels.unwrap()[0].instructions.clone().unwrap();
    assert_eq!(ins[0].ty, InstructionType::JMP);
    assert_eq!(
        ins[0].val,
        InstructionValue::MultipleValue("@start".to_string(), "always".to_string())
    );
}

#[test]
fn jump_without_comma_keeps_a_single_operand() {
    let p = parse_ok(".program:\n@start\nJMP @start\n");
    let ins = p.labels.unwrap()[0].instructions.clone().unwrap();
    assert_eq!(
        ins[0].val,
        InstructionValue::SingleValue("@start".to_string())
    );
}

#[test]
fn jump_lines_are_not_label_headers() {
    let p = parse_ok(".program:\n@start\nJMP @start\nNOP\n");
    let labels = p.labels.unwrap();
    assert_eq!(labels.len(), 1, "the jump must not open a second label");
    assert_eq!(labels[0].instructions.as_ref().unwrap().len(), 2);
}

#[test]
fn data_section_collects_typed_variables() {
    let p = parse_ok(".data:\nbyte counter 0\nqword big 123456\n.program:\n@start\nNOP\n");
    assert_eq!(p.data.len(), 2);
    assert_eq!(
        p.data[0],
        Variable {
            name: "counter".to_string(),
            ty: DataType::Byte,
            value: "0".to_string(),
        }
    );
    assert_eq!(p.data[1].ty, DataType::QWord);
    assert_eq!(p.data[1].value, "123456");
}

#[test]
fn variable_value_keeps_its_inner_spaces() {
    let p = parse_ok(".data:\nstr16 greeting hello there world\n");
    assert_eq!(p.data[0].value, "hello there world");
}

#[test]
fn variable_with_two_fields_is_malformed() {
    let e = parse_err(".data:\nbyte counter\n");
    assert_eq!(e.kind, ParseErrorKind::MalformedVariable);
    assert_eq!(e.line_number, 1);
    assert_eq!(e.line, "byte counter");
}

#[test]
fn variable_with_unknown_type_is_malformed() {
    let e = parse_err(".data:\nblob counter 0\n");
    assert_eq!(e.kind, ParseErrorKind::MalformedVariable);
}

#[test]
fn extern_section_collects_names() {
    let p = parse_ok(".extern\nprint\nread_key\n.program:\n@start\nNOP\n");
    let fns = p.extern_functions.unwrap();
    assert_eq!(fns, vec!["print".to_string(), "read_key".to_string()]);
}

#[test]
fn section_like_line_with_unknown_name_is_malformed() {
    let e = parse_err(".bogus:\n");
    assert_eq!(e.kind, ParseErrorKind::MalformedSection);
    assert_eq!(e.line_number, 0);
    assert_eq!(e.line, ".bogus:");
}

#[test]
fn empty_source_parses_to_the_empty_program() {
    let p = parse_ok("");
    assert!(p.extern_functions.is_none());
    assert!(p.labels.is_none());
    assert_eq!(p.data.len(), 0);
}

#[test]
fn label_header_strips_one_sigil_and_trims() {
    let p = parse_ok(".program:\n  @loop  \nNOP\n");
    assert_eq!(p.labels.unwrap()[0].label_name, "loop");
}

#[test]
fn empty_lines_inside_a_label_are_skipped() {
    let p = parse_ok(".program:\n@start\nNOP\n\nNOP\n");
    assert_eq!(p.labels.unwrap()[0].instructions.as_ref().unwrap().len(), 2);
}

#[test]
fn get_start_label_finds_the_first_matching_name() {
    let p = parse_ok(".program:\n@init\nNOP\n@main_start\nTAX\n");
    let l = p.get_start_label().expect("a label containing start");
    assert_eq!(l.label_name, "main_start");
}

#[test]
fn get_start_label_fails_without_labels() {
    let p = Program::new();
    assert!(p.get_start_label().is_err());
}

#[test]
fn opcode_table_flags_match_the_documented_sets() {
    assert_eq!(
        InstructionType::LDA.flags(),
        vec![Flag::Negative, Flag::Zero]
    );
    assert_eq!(InstructionType::STA.flags(), vec![]);
    assert_eq!(
        InstructionType::ADC.flags(),
        vec![Flag::Negative, Flag::Overflow, Flag::Zero, Flag::Carry]
    );
    assert_eq!(InstructionType::PLP.flags().len(), 7);
    assert_eq!(InstructionType::CLC.flags(), vec![Flag::Carry]);
    assert_eq!(InstructionType::BRK.flags(), vec![Flag::Break]);
}

#[test]
fn opcode_arity_classes() {
    assert!(InstructionType::NOP.is_valueless());
    assert!(InstructionType::TAX.is_valueless());
    assert!(!InstructionType::LDA.is_valueless());
    assert!(InstructionType::JMP.has_multiple_values());
    assert!(!InstructionType::LDA.has_multiple_values());
}

#[test]
fn from_mnemonic_is_case_insensitive_and_total_over_the_table() {
    assert_eq!(
        InstructionType::from_mnemonic("lda"),
        Some(InstructionType::LDA)
    );
    assert_eq!(
        InstructionType::from_mnemonic("RTI"),
        Some(InstructionType::RTI)
    );
    assert_eq!(InstructionType::from_mnemonic("nonsense"), None);
    assert_eq!(InstructionType::from_mnemonic(""), None);
}

#[test]
fn data_type_names_parse_case_insensitively() {
    assert_eq!(DataType::from_name("BYTE"), Some(DataType::Byte));
    assert_eq!(DataType::from_name("sTr128"), Some(DataType::Str128));
    assert_eq!(DataType::from_name("float"), None);
}

#[test]
fn duplicate_copies_exactly() {
    let p = parse_ok(".data:\nbyte a 1\n.program:\n@start\nLDA 5\n");
    let q = p.duplicate();
    assert_eq!(p, q);
}

#[test]
fn label_clone_keeps_instructions() {
    let p = parse_ok(".program:\n@start\nNOP\n");
    let l: Label = p.labels.unwrap()[0].duplicate();
    assert_eq!(l.label_name, "start");
    assert_eq!(l.instructions.unwrap().len(), 1);
}

use irv::parser::parse_input;
use irv::printer::render_program;

fn roundtrip(src: &str) -> String {
    let p = parse_input(src.to_string()).expect("source should parse");
    let rendered = render_program(&p);
    let q = parse_input(rendered.clone()).expect("rendering should parse");
    assert_eq!(p, q, "parsing the rendering must give the program back");
    rendered
}

#[test]
fn rendering_the_minimal_program_is_canonical() {
    let text = roundtrip(".program:\n@start\nNOP\n");
    assert_eq!(text, ".program:\n@start\nNOP");
}

#[test]
fn rendering_keeps_all_three_sections() {
    let text = roundtrip(
        ".data:\nbyte counter 0\nstr16 greeting hello there\n.extern\nprint\nread_key\n.program:\n@start\nLDA 5\nJMP @loop,always\n@loop\nNOP\n",
    );
    assert_eq!(
        text,
        ".data:\nbyte counter 0\nstr16 greeting hello there\n.extern\nprint\nread_key\n.program:\n@start\nLDA 5\nJMP @loop,always\n@loop\nNOP"
    );
}

#[test]
fn rendering_normalizes_case_and_spacing_of_markers_only() {
    // Mnemonics are canonically upper-case, type names lower-case; the
    // operand text is untouched.
    let text = roundtrip(".data:\nBYTE counter 7\n.program:\n@start\nlda  val\n");
    assert_eq!(text, ".data:\nbyte counter 7\n.program:\n@start\nLDA  val");
}

#[test]
fn empty_labels_and_empty_data_round_trip() {
    roundtrip(".program:\n@start\n");
    roundtrip(".data:\n.program:\n@start\nNOP\n");
    roundtrip("");
}

#[test]
fn valueless_instruction_renders_bare() {
    let text = roundtrip(".program:\n@start\nTAX\nNOP more\n");
    assert_eq!(text, ".program:\n@start\nTAX\nNOP more");
}

#[test]
fn extern_only_program_round_trips() {
    let text = roundtrip(".extern\nalpha\nbeta\n");
    assert_eq!(text, ".extern\nalpha\nbeta\n.program:");
}

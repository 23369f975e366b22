//! The assembly parser: line-oriented scanning of a source text into a
//! [`Program`].  A section marker switches parsing mode; a line with the
//! label sigil that is not a jump instruction opens a label; instructions,
//! variable triples and extern names are read line by line.  Every
//! executable function is proved equal to a spec-level parse, so the
//! pretty-printer round trip can be stated and proved about the spec.

use vstd::prelude::*;
use vstd::string::*;
use crate::lang::{
    DataType, Instruction, InstructionType, InstructionValue, InstructionV, InstructionValueV,
    Label, LabelV, Program, ProgramV, Variable, VariableV, data_type_of, flags_of,
    opcode_of_mnemonic, paired, valueless,
};
use crate::text::{
    contains_seq, contains_sub, find_char, first_index_of, lemma_first_index_of, split_lines,
    split_lines_spec, trim, trim_spec,
};

verus! {

/// Why a parse failed, as the error taxonomy names it.
#[derive(Debug, Clone, Copy, PartialEq, Eq, Structural)]
pub enum ParseErrorKind {
    /// A mnemonic that the opcode table does not know.
    UnknownMnemonic,
    /// A mnemonic without operand text whose opcode requires some.
    ArityMismatch,
    /// A section-like line naming no known section.
    MalformedSection,
    /// A data line with fewer than three fields or an unknown type name.
    MalformedVariable,
}

/// A parse failure: its kind, the zero-based number of the offending line,
/// and that line's raw text.  A failure aborts the whole parse.
#[derive(Debug, Clone, PartialEq)]
pub struct ParseError {
    pub kind: ParseErrorKind,
    pub line_number: usize,
    pub line: String,
}

/// Ghost form of [`ParseError`].
pub struct ParseErrorV {
    pub kind: ParseErrorKind,
    pub line_number: int,
    pub line: Seq<char>,
}

impl View for ParseError {
    type V = ParseErrorV;

    open spec fn view(&self) -> ParseErrorV {
        ParseErrorV {
            kind: self.kind,
            line_number: self.line_number as int,
            line: self.line@,
        }
    }
}

/// Whether a line switches parsing to the data section.
pub open spec fn is_data_marker(l: Seq<char>) -> bool {
    contains_seq(l, ".data:"@)
}

/// Whether a line switches parsing to the extern section.
pub open spec fn is_extern_marker(l: Seq<char>) -> bool {
    contains_seq(l, ".extern"@)
}

/// Whether a line is the program section marker.
pub open spec fn is_program_marker(l: Seq<char>) -> bool {
    contains_seq(l, ".program:"@)
}

/// Whether a line carries any section marker.
pub open spec fn is_marker(l: Seq<char>) -> bool {
    is_data_marker(l) || is_extern_marker(l) || is_program_marker(l)
}

/// Whether a line holds one of the reserved jump mnemonics, in which case
/// its label sigil (a jump target) does not open a label.
pub open spec fn line_has_jump(l: Seq<char>) -> bool {
    contains_seq(l, "JMP"@) || contains_seq(l, "JEQ"@) || contains_seq(l, "JNE"@)
}

/// Whether a line is a label header: it carries the label sigil and is not
/// a jump instruction.
pub open spec fn is_label_header(l: Seq<char>) -> bool {
    contains_seq(l, "@"@) && !line_has_jump(l)
}

/// Whether a line looks like a section but names none: its trimmed text
/// starts with a dot and no marker was found on it.
pub open spec fn is_section_like(l: Seq<char>) -> bool {
    trim_spec(l).len() > 0 && trim_spec(l)[0] == '.'
}

/// The name of the label a header line declares: the trimmed line with one
/// leading sigil removed.
pub open spec fn label_name_of(l: Seq<char>) -> Seq<char> {
    let t = trim_spec(l);
    if t.len() > 0 && t[0] == '@' {
        t.subrange(1, t.len() as int)
    } else {
        t
    }
}

/// Parses one trimmed instruction line: the text up to the first space is
/// the mnemonic; the remainder is operand text, split once at a comma for
/// paired opcodes.  A mnemonic alone is accepted only for valueless
/// opcodes.
pub open spec fn instruction_of_line(s: Seq<char>) -> Result<InstructionV, ParseErrorKind> {
    let k = first_index_of(s, ' ');
    if k == s.len() {
        match opcode_of_mnemonic(s) {
            Option::None => Err(ParseErrorKind::UnknownMnemonic),
            Option::Some(t) => {
                if valueless(t) {
                    Ok(
                        InstructionV {
                            ty: t,
                            val: InstructionValueV::SingleValue(Seq::<char>::empty()),
                            flags: flags_of(t),
                        },
                    )
                } else {
                    Err(ParseErrorKind::ArityMismatch)
                }
            },
        }
    } else {
        let mnem = s.subrange(0, k);
        let rest = s.subrange(k + 1, s.len() as int);
        match opcode_of_mnemonic(mnem) {
            Option::None => Err(ParseErrorKind::UnknownMnemonic),
            Option::Some(t) => {
                let c = first_index_of(rest, ',');
                if paired(t) && c < rest.len() {
                    Ok(
                        InstructionV {
                            ty: t,
                            val: InstructionValueV::MultipleValue(
                                rest.subrange(0, c),
                                rest.subrange(c + 1, rest.len() as int),
                            ),
                            flags: flags_of(t),
                        },
                    )
                } else {
                    Ok(
                        InstructionV {
                            ty: t,
                            val: InstructionValueV::SingleValue(rest),
                            flags: flags_of(t),
                        },
                    )
                }
            },
        }
    }
}

/// Parses one trimmed variable line: type name, variable name, and the
/// remainder as the initial value, split at single spaces.
pub open spec fn variable_of_line(s: Seq<char>) -> Option<VariableV> {
    let k1 = first_index_of(s, ' ');
    if k1 == s.len() {
        None
    } else {
        let ty_tok = s.subrange(0, k1);
        let rest = s.subrange(k1 + 1, s.len() as int);
        let k2 = first_index_of(rest, ' ');
        if k2 == rest.len() {
            None
        } else {
            match data_type_of(ty_tok) {
                Option::None => None,
                Option::Some(dt) => Some(
                    VariableV {
                        name: rest.subrange(0, k2),
                        ty: dt,
                        value: rest.subrange(k2 + 1, rest.len() as int),
                    },
                ),
            }
        }
    }
}

/// Spec-level variable block: consumes lines from `i` until a section
/// marker or the end of input, producing the variables read and the index
/// at which the enclosing parse resumes.
pub open spec fn parse_variables_from(lines: Seq<Seq<char>>, i: int) -> Result<
    (Seq<VariableV>, int),
    ParseErrorV,
>
    decreases lines.len() - i,
{
    if i < 0 || i >= lines.len() {
        Ok((Seq::empty(), i))
    } else if lines[i].len() == 0 {
        parse_variables_from(lines, i + 1)
    } else if is_marker(lines[i]) {
        Ok((Seq::empty(), i))
    } else {
        match variable_of_line(trim_spec(lines[i])) {
            Option::None => Err(
                ParseErrorV {
                    kind: ParseErrorKind::MalformedVariable,
                    line_number: i,
                    line: lines[i],
                },
            ),
            Option::Some(v) => match parse_variables_from(lines, i + 1) {
                Err(e) => Err(e),
                Ok((vs, n)) => Ok((seq![v] + vs, n)),
            },
        }
    }
}

/// Spec-level extern block: one trimmed name per non-empty line until a
/// section marker or the end of input.
pub open spec fn parse_extern_from(lines: Seq<Seq<char>>, i: int) -> (Seq<Seq<char>>, int)
    decreases lines.len() - i,
{
    if i < 0 || i >= lines.len() {
        (Seq::empty(), i)
    } else if lines[i].len() == 0 {
        parse_extern_from(lines, i + 1)
    } else if is_marker(lines[i]) {
        (Seq::empty(), i)
    } else {
        let (fs, n) = parse_extern_from(lines, i + 1);
        (seq![trim_spec(lines[i])] + fs, n)
    }
}

/// Spec-level label body: instructions until the next label header, a
/// section marker, or the end of input.
pub open spec fn parse_label_from(lines: Seq<Seq<char>>, i: int) -> Result<
    (Seq<InstructionV>, int),
    ParseErrorV,
>
    decreases lines.len() - i,
{
    if i < 0 || i >= lines.len() {
        Ok((Seq::empty(), i))
    } else if lines[i].len() == 0 {
        parse_label_from(lines, i + 1)
    } else if is_marker(lines[i]) || is_label_header(lines[i]) {
        Ok((Seq::empty(), i))
    } else {
        match instruction_of_line(trim_spec(lines[i])) {
            Err(k) => Err(ParseErrorV { kind: k, line_number: i, line: lines[i] }),
            Ok(inst) => match parse_label_from(lines, i + 1) {
                Err(e) => Err(e),
                Ok((ins, n)) => Ok((seq![inst] + ins, n)),
            },
        }
    }
}

/// `prog` with one more label appended.
pub open spec fn push_label(prog: ProgramV, name: Seq<char>, ins: Seq<InstructionV>) -> ProgramV {
    let l = LabelV { label_name: name, instructions: Some(ins) };
    ProgramV {
        labels: match prog.labels {
            Option::None => Some(seq![l]),
            Option::Some(ls) => Some(ls.push(l)),
        },
        ..prog
    }
}

/// A program with nothing in it, as a fresh parse starts from.
pub open spec fn empty_program() -> ProgramV {
    ProgramV { extern_functions: None, data: Seq::empty(), labels: None }
}

/// Spec-level top scan from line `i`: section markers hand the following
/// lines to the block parses above and resume at the index they return;
/// a label header collects a label; a section-like line naming no section
/// fails the parse; anything else is ignored.
pub open spec fn parse_top_from(lines: Seq<Seq<char>>, i: int, prog: ProgramV) -> Result<
    ProgramV,
    ParseErrorV,
>
    decreases lines.len() - i,
{
    if i < 0 || i >= lines.len() {
        Ok(prog)
    } else {
        let l = lines[i];
        if is_data_marker(l) {
            match parse_variables_from(lines, i + 1) {
                Err(e) => Err(e),
                Ok((vs, n)) => {
                    if i < n <= lines.len() {
                        parse_top_from(lines, n, ProgramV { data: vs, ..prog })
                    } else {
                        Ok(prog)
                    }
                },
            }
        } else if is_extern_marker(l) {
            let (fs, n) = parse_extern_from(lines, i + 1);
            if i < n <= lines.len() {
                parse_top_from(lines, n, ProgramV { extern_functions: Some(fs), ..prog })
            } else {
                Ok(prog)
            }
        } else if is_program_marker(l) {
            parse_top_from(lines, i + 1, prog)
        } else if is_section_like(l) {
            Err(ParseErrorV { kind: ParseErrorKind::MalformedSection, line_number: i, line: l })
        } else if is_label_header(l) {
            match parse_label_from(lines, i + 1) {
                Err(e) => Err(e),
                Ok((ins, n)) => {
                    if i < n <= lines.len() {
                        parse_top_from(lines, n, push_label(prog, label_name_of(l), ins))
                    } else {
                        Ok(prog)
                    }
                },
            }
        } else {
            parse_top_from(lines, i + 1, prog)
        }
    }
}

/// What parsing a whole source text means: split it into lines and scan
/// from the first in top mode.
pub open spec fn parse_source(s: Seq<char>) -> Result<ProgramV, ParseErrorV> {
    parse_top_from(split_lines_spec(s), 0, empty_program())
}

/// Whether a line is a jump instruction rather than a label header.
pub fn has_jump(line: &str) -> (r: bool)
    ensures
        r == line_has_jump(line@),
{
    contains_sub(line, "JMP") || contains_sub(line, "JEQ") || contains_sub(line, "JNE")
}

/// Parses one instruction line.
fn parse_instruction(line: &str) -> (r: Result<Instruction, ParseErrorKind>)
    ensures
        ({
            let s = instruction_of_line(trim_spec(line@));
            match r {
                Ok(i) => s is Ok && i@ == s->Ok_0,
                Err(k) => s is Err && k == s->Err_0,
            }
        }),
{
    let t = trim(line);
    let tlen = t.unicode_len();
    let k = find_char(t, ' ');
    proof {
        lemma_first_index_of(t@, ' ');
    }
    if k == tlen {
        match InstructionType::from_mnemonic(t) {
            Option::None => Err(ParseErrorKind::UnknownMnemonic),
            Option::Some(ty) => {
                if ty.is_valueless() {
                    let flags = ty.flags();
                    let val = InstructionValue::SingleValue(String::new());
                    Ok(Instruction { ty, val, flags })
                } else {
                    Err(ParseErrorKind::ArityMismatch)
                }
            },
        }
    } else {
        let mnem = t.substring_char(0, k);
        let rest = t.substring_char(k + 1, tlen);
        match InstructionType::from_mnemonic(mnem) {
            Option::None => Err(ParseErrorKind::UnknownMnemonic),
            Option::Some(ty) => {
                let flags = ty.flags();
                let rlen = rest.unicode_len();
                let c = find_char(rest, ',');
                proof {
                    lemma_first_index_of(rest@, ',');
                }
                if ty.has_multiple_values() && c < rlen {
                    let left = rest.substring_char(0, c).to_owned();
                    let right = rest.substring_char(c + 1, rlen).to_owned();
                    Ok(Instruction { ty, val: InstructionValue::MultipleValue(left, right), flags })
                } else {
                    Ok(
                        Instruction {
                            ty,
                            val: InstructionValue::SingleValue(rest.to_owned()),
                            flags,
                        },
                    )
                }
            },
        }
    }
}

/// Parses one variable line.
fn parse_variable(line: &str) -> (r: Option<Variable>)
    ensures
        ({
            let s = variable_of_line(trim_spec(line@));
            match r {
                Some(v) => s is Some && v@ == s->0,
                None => s is None,
            }
        }),
{
    let t = trim(line);
    let tlen = t.unicode_len();
    let k1 = find_char(t, ' ');
    proof {
        lemma_first_index_of(t@, ' ');
    }
    if k1 == tlen {
        return None;
    }
    let ty_tok = t.substring_char(0, k1);
    let rest = t.substring_char(k1 + 1, tlen);
    let rlen = rest.unicode_len();
    let k2 = find_char(rest, ' ');
    proof {
        lemma_first_index_of(rest@, ' ');
    }
    if k2 == rlen {
        return None;
    }
    match DataType::from_name(ty_tok) {
        Option::None => None,
        Option::Some(dt) => {
            let name = rest.substring_char(0, k2).to_owned();
            let value = rest.substring_char(k2 + 1, rlen).to_owned();
            Some(Variable { name, ty: dt, value })
        },
    }
}

/// Prefixes what a block parse still yields with what was already read.
pub open spec fn block_combine<T>(acc: Seq<T>, r: Result<(Seq<T>, int), ParseErrorV>) -> Result<
    (Seq<T>, int),
    ParseErrorV,
> {
    match r {
        Ok((xs, n)) => Ok((acc + xs, n)),
        Err(e) => Err(e),
    }
}

proof fn lemma_block_combine_nil<T>(r: Result<(Seq<T>, int), ParseErrorV>)
    ensures
        block_combine(Seq::<T>::empty(), r) == r,
{
    match r {
        Ok((xs, n)) => {
            assert(Seq::<T>::empty() + xs =~= xs);
        },
        Err(_) => {},
    }
}

proof fn lemma_block_combine_push<T>(acc: Seq<T>, x: T, r: Result<(Seq<T>, int), ParseErrorV>)
    ensures
        block_combine(
            acc,
            match r {
                Ok((xs, n)) => Ok((seq![x] + xs, n)),
                Err(e) => Err(e),
            },
        ) == block_combine(acc.push(x), r),
{
    match r {
        Ok((xs, n)) => {
            assert(acc + (seq![x] + xs) =~= acc.push(x) + xs);
        },
        Err(_) => {},
    }
}

/// Reads a variable block: `type name value` triples, one per non-empty
/// line, until the next section marker or the end of input.  Returns the
/// variables and the line index at which scanning resumes.
pub fn parse_variables(lines: &Vec<String>, start: usize) -> (r: Result<
    (Vec<Variable>, usize),
    ParseError,
>)
    ensures
        ({
            let s = parse_variables_from(lines.deep_view(), start as int);
            match r {
                Ok((vs, n)) => s is Ok && vs.deep_view() == s->Ok_0.0 && n as int == s->Ok_0.1
                    && start <= n && (start <= lines@.len() ==> n <= lines@.len()),
                Err(e) => s is Err && e@ == s->Err_0,
            }
        }),
{
    let ghost ls = lines.deep_view();
    let mut vars: Vec<Variable> = Vec::new();
    let mut i: usize = start;
    proof {
        lemma_block_combine_nil(parse_variables_from(ls, start as int));
        assert(vars.deep_view() =~= Seq::<VariableV>::empty());
    }
    if start > lines.len() {
        return Ok((vars, start));
    }
    while i < lines.len()
        invariant
            start <= i <= lines@.len(),
            ls == lines.deep_view(),
            parse_variables_from(ls, start as int) == block_combine(
                vars.deep_view(),
                parse_variables_from(ls, i as int),
            ),
        decreases lines@.len() - i,
    {
        let line = &lines[i];
        proof {
            assert(ls[i as int] == line@);
        }
        if line.as_str().unicode_len() == 0 {
            i = i + 1;
        } else if contains_sub(line.as_str(), ".data:") || contains_sub(line.as_str(), ".extern")
            || contains_sub(line.as_str(), ".program:") {
            proof {
                assert(vars.deep_view() + Seq::<VariableV>::empty() =~= vars.deep_view());
            }
            return Ok((vars, i));
        } else {
            match parse_variable(line.as_str()) {
                Option::None => {
                    return Err(
                        ParseError {
                            kind: ParseErrorKind::MalformedVariable,
                            line_number: i,
                            line: line.clone(),
                        },
                    );
                },
                Option::Some(v) => {
                    let ghost vv = v@;
                    proof {
                        lemma_block_combine_push(
                            vars.deep_view(),
                            vv,
                            parse_variables_from(ls, i + 1),
                        );
                    }
                    let ghost prev = vars.deep_view();
                    vars.push(v);
                    proof {
                        assert(vars.deep_view() =~= prev.push(vv));
                    }
                    i = i + 1;
                },
            }
        }
    }
    proof {
        assert(vars.deep_view() + Seq::<VariableV>::empty() =~= vars.deep_view());
    }
    Ok((vars, i))
}

/// Reads an extern block: one trimmed function name per non-empty line,
/// until the next section marker or the end of input.
pub fn parse_extern(lines: &Vec<String>, start: usize) -> (r: (Vec<String>, usize))
    ensures
        r.0.deep_view() == parse_extern_from(lines.deep_view(), start as int).0,
        r.1 as int == parse_extern_from(lines.deep_view(), start as int).1,
        start <= lines@.len() ==> start <= r.1 <= lines@.len(),
{
    let ghost ls = lines.deep_view();
    let mut fns: Vec<String> = Vec::new();
    let mut i: usize = start;
    proof {
        assert(fns.deep_view() =~= Seq::<Seq<char>>::empty());
    }
    if start > lines.len() {
        proof {
            assert(fns.deep_view() =~= parse_extern_from(ls, start as int).0);
        }
        return (fns, start);
    }
    while i < lines.len()
        invariant
            start <= i <= lines@.len(),
            ls == lines.deep_view(),
            parse_extern_from(ls, start as int).1 == parse_extern_from(ls, i as int).1,
            parse_extern_from(ls, start as int).0 == fns.deep_view() + parse_extern_from(
                ls,
                i as int,
            ).0,
        decreases lines@.len() - i,
    {
        let line = &lines[i];
        proof {
            assert(ls[i as int] == line@);
        }
        if line.as_str().unicode_len() == 0 {
            i = i + 1;
        } else if contains_sub(line.as_str(), ".data:") || contains_sub(line.as_str(), ".extern")
            || contains_sub(line.as_str(), ".program:") {
            proof {
                assert(fns.deep_view() + Seq::<Seq<char>>::empty() =~= fns.deep_view());
            }
            return (fns, i);
        } else {
            let name = trim(line.as_str()).to_owned();
            let ghost nv = name@;
            let ghost prev = fns.deep_view();
            fns.push(name);
            proof {
                assert(fns.deep_view() =~= prev.push(nv));
                assert(prev + (seq![nv] + parse_extern_from(ls, i + 1).0) =~= prev.push(nv)
                    + parse_extern_from(ls, i + 1).0);
            }
            i = i + 1;
        }
    }
    proof {
        assert(fns.deep_view() + Seq::<Seq<char>>::empty() =~= fns.deep_view());
    }
    (fns, i)
}

/// Reads a label body: instructions, one per non-empty line, until the
/// next label header, a section marker, or the end of input.
pub fn parse_label(lines: &Vec<String>, start: usize) -> (r: Result<
    (Vec<Instruction>, usize),
    ParseError,
>)
    ensures
        ({
            let s = parse_label_from(lines.deep_view(), start as int);
            match r {
                Ok((ins, n)) => s is Ok && ins.deep_view() == s->Ok_0.0 && n as int == s->Ok_0.1
                    && start <= n && (start <= lines@.len() ==> n <= lines@.len()),
                Err(e) => s is Err && e@ == s->Err_0,
            }
        }),
{
    let ghost ls = lines.deep_view();
    let mut ins: Vec<Instruction> = Vec::new();
    let mut i: usize = start;
    proof {
        lemma_block_combine_nil(parse_label_from(ls, start as int));
        assert(ins.deep_view() =~= Seq::<InstructionV>::empty());
    }
    if start > lines.len() {
        return Ok((ins, start));
    }
    while i < lines.len()
        invariant
            start <= i <= lines@.len(),
            ls == lines.deep_view(),
            parse_label_from(ls, start as int) == block_combine(
                ins.deep_view(),
                parse_label_from(ls, i as int),
            ),
        decreases lines@.len() - i,
    {
        let line = &lines[i];
        proof {
            assert(ls[i as int] == line@);
        }
        if line.as_str().unicode_len() == 0 {
            i = i + 1;
        } else if contains_sub(line.as_str(), ".data:") || contains_sub(line.as_str(), ".extern")
            || contains_sub(line.as_str(), ".program:") || (contains_sub(line.as_str(), "@")
            && !has_jump(line.as_str())) {
            proof {
                assert(ins.deep_view() + Seq::<InstructionV>::empty() =~= ins.deep_view());
            }
            return Ok((ins, i));
        } else {
            match parse_instruction(line.as_str()) {
                Err(k) => {
                    return Err(
                        ParseError { kind: k, line_number: i, line: line.clone() },
                    );
                },
                Ok(inst) => {
                    let ghost iv = inst@;
                    proof {
                        lemma_block_combine_push(ins.deep_view(), iv, parse_label_from(ls, i + 1));
                    }
                    let ghost prev = ins.deep_view();
                    ins.push(inst);
                    proof {
                        assert(ins.deep_view() =~= prev.push(iv));
                    }
                    i = i + 1;
                },
            }
        }
    }
    proof {
        assert(ins.deep_view() + Seq::<InstructionV>::empty() =~= ins.deep_view());
    }
    Ok((ins, i))
}

/// The label name a header line declares.
pub fn label_name(line: &str) -> (r: String)
    ensures
        r@ == label_name_of(line@),
{
    let t = trim(line);
    let tlen = t.unicode_len();
    if tlen > 0 && t.get_char(0) == '@' {
        t.substring_char(1, tlen).to_owned()
    } else {
        t.to_owned()
    }
}

/// Parses a whole source text into a program.  A section marker hands the
/// following lines to the matching block parse; a line carrying the label
/// sigil that is no jump instruction opens a label; a section-like line
/// naming no known section fails the parse; any other line outside a
/// section is ignored.  A failure aborts the whole parse and reports the
/// offending line number and its raw text.
pub fn parse_input(file: String) -> (r: Result<Program, ParseError>)
    ensures
        ({
            let s = parse_source(file@);
            match r {
                Ok(p) => s is Ok && p@ == s->Ok_0,
                Err(e) => s is Err && e@ == s->Err_0,
            }
        }),
{
    let lines = split_lines(file.as_str());
    let ghost ls = lines.deep_view();
    let mut data_vec: Vec<Variable> = Vec::new();
    let mut ext_vec: Vec<String> = Vec::new();
    let mut ext_seen = false;
    let mut labels_vec: Vec<Label> = Vec::new();
    let mut labels_seen = false;
    let mut i: usize = 0;
    proof {
        assert(data_vec.deep_view() =~= Seq::<VariableV>::empty());
        assert(labels_vec.deep_view() =~= Seq::<LabelV>::empty());
    }
    while i < lines.len()
        invariant
            0 <= i <= lines@.len(),
            ls == lines.deep_view(),
            ls == split_lines_spec(file@),
            !labels_seen ==> labels_vec@.len() == 0,
            parse_top_from(ls, 0, empty_program()) == parse_top_from(
                ls,
                i as int,
                assemble(
                    data_vec.deep_view(),
                    ext_seen,
                    ext_vec.deep_view(),
                    labels_seen,
                    labels_vec.deep_view(),
                ),
            ),
        decreases lines@.len() - i,
    {
        let ghost pv = assemble(
            data_vec.deep_view(),
            ext_seen,
            ext_vec.deep_view(),
            labels_seen,
            labels_vec.deep_view(),
        );
        let line = &lines[i];
        proof {
            assert(ls[i as int] == line@);
        }
        if contains_sub(line.as_str(), ".data:") {
            match parse_variables(&lines, i + 1) {
                Err(e) => {
                    return Err(e);
                },
                Ok((vs, n)) => {
                    data_vec = vs;
                    i = n;
                },
            }
        } else if contains_sub(line.as_str(), ".extern") {
            let (fs, n) = parse_extern(&lines, i + 1);
            ext_vec = fs;
            ext_seen = true;
            i = n;
        } else if contains_sub(line.as_str(), ".program:") {
            i = i + 1;
        } else {
            let t = trim(line.as_str());
            if t.unicode_len() > 0 && t.get_char(0) == '.' {
                return Err(
                    ParseError {
                        kind: ParseErrorKind::MalformedSection,
                        line_number: i,
                        line: line.clone(),
                    },
                );
            }
            if contains_sub(line.as_str(), "@") && !has_jump(line.as_str()) {
                match parse_label(&lines, i + 1) {
                    Err(e) => {
                        return Err(e);
                    },
                    Ok((ins, n)) => {
                        let name = label_name(line.as_str());
                        let ghost prev = labels_vec.deep_view();
                        let ghost lv = LabelV {
                            label_name: name@,
                            instructions: Some(ins.deep_view()),
                        };
                        labels_vec.push(Label { label_name: name, instructions: Some(ins) });
                        labels_seen = true;
                        proof {
                            assert(labels_vec.deep_view() =~= prev.push(lv));
                            if prev.len() == 0 {
                                assert(prev.push(lv) =~= seq![lv]);
                            }
                        }
                        i = n;
                    },
                }
            } else {
                i = i + 1;
            }
        }
    }
    let extern_functions = if ext_seen {
        Some(ext_vec)
    } else {
        None
    };
    let labels = if labels_seen {
        Some(labels_vec)
    } else {
        None
    };
    Ok(Program { extern_functions, data: data_vec, labels })
}

/// The program a partial scan has gathered so far: an extern list only
/// once an extern section was seen, labels only once a header was seen.
pub open spec fn assemble(
    data: Seq<VariableV>,
    ext_seen: bool,
    ext: Seq<Seq<char>>,
    labels_seen: bool,
    labels: Seq<LabelV>,
) -> ProgramV {
    ProgramV {
        extern_functions: if ext_seen {
            Some(ext)
        } else {
            None
        },
        data: data,
        labels: if labels_seen {
            Some(labels)
        } else {
            None
        },
    }
}

} // verus!

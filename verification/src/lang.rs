//! The assembly dialect: status flags, the opcode enumeration with its
//! arity classes and flag table, data types for static variables, and the
//! program structure a successful parse produces.

use vstd::prelude::*;
use vstd::string::*;
use crate::text::{contains_seq, eq_icase, eq_ignore_case, contains_sub};

verus! {

/// A status flag of the register file.  Flags are written only as a side
/// effect of instruction dispatch and read only through snapshots.
#[derive(Debug, Clone, Copy, PartialEq, Eq, Structural)]
pub enum Flag {
    /// Set if the result of the last operation was zero.
    Zero,
    /// Set if the last operation carried out of the top bit or borrowed.
    Carry,
    /// Set while interrupt-disabling instructions are in effect.
    Interrupt,
    /// Set while the processor follows binary-coded-decimal rules.
    Decimal,
    /// Set when a break instruction executes.
    Break,
    /// Set if an arithmetic operation overflowed the signed range.
    Overflow,
    /// Set if the last operation produced a negative result.
    Negative,
}

/// The closed opcode enumeration.  Each opcode has a fixed arity class and
/// a fixed set of flags it touches, both given by the table below.
#[derive(Debug, Clone, Copy, PartialEq, Eq, Structural)]
pub enum InstructionType {
    // Load/store operations
    LDA,
    LDX,
    LDY,
    STA,
    STX,
    STY,
    // Register transfers
    TAX,
    TAY,
    TXA,
    TYA,
    TSX,
    TXS,
    // Stack operations
    PHA,
    PHP,
    PLA,
    PLP,
    // Logical operations
    AND,
    EOR,
    ORA,
    BIT,
    // Arithmetic
    ADC,
    SBC,
    CMP,
    CPX,
    CPY,
    // Increment and decrement
    INC,
    INX,
    INY,
    DEC,
    DEX,
    DEY,
    // Shifts
    ASL,
    LSR,
    ROL,
    ROR,
    // Jumps and calls
    JMP,
    JEQ,
    JNE,
    JSR,
    RTS,
    // Branches
    BCC,
    BCS,
    BEQ,
    BMI,
    BNE,
    BPL,
    BVC,
    BVS,
    // Status flag changes
    CLC,
    CLD,
    CLI,
    CLV,
    SEC,
    SED,
    SEI,
    // System functions
    BRK,
    NOP,
    RTI,
    // Custom call and move instructions
    CAL,
    MOV,
}

/// The flags an opcode touches, in the order the table lists them.
pub open spec fn flags_of(t: InstructionType) -> Seq<Flag> {
    match t {
        InstructionType::LDA | InstructionType::LDX | InstructionType::LDY => seq![
            Flag::Negative,
            Flag::Zero,
        ],
        InstructionType::STA | InstructionType::STX | InstructionType::STY => seq![],
        InstructionType::TAX | InstructionType::TAY | InstructionType::TXA
            | InstructionType::TYA | InstructionType::TSX | InstructionType::TXS => seq![
            Flag::Negative,
            Flag::Zero,
        ],
        InstructionType::PHA | InstructionType::PLA => seq![Flag::Negative, Flag::Zero],
        InstructionType::PHP => seq![],
        InstructionType::PLP | InstructionType::RTI => seq![
            Flag::Zero,
            Flag::Carry,
            Flag::Interrupt,
            Flag::Decimal,
            Flag::Break,
            Flag::Overflow,
            Flag::Negative,
        ],
        InstructionType::AND | InstructionType::EOR | InstructionType::ORA => seq![
            Flag::Negative,
            Flag::Zero,
        ],
        InstructionType::BIT => seq![Flag::Negative, Flag::Overflow, Flag::Zero],
        InstructionType::ADC | InstructionType::SBC => seq![
            Flag::Negative,
            Flag::Overflow,
            Flag::Zero,
            Flag::Carry,
        ],
        InstructionType::CMP | InstructionType::CPX | InstructionType::CPY => seq![
            Flag::Negative,
            Flag::Zero,
            Flag::Carry,
        ],
        InstructionType::INC | InstructionType::INX | InstructionType::INY
            | InstructionType::DEC | InstructionType::DEX | InstructionType::DEY => seq![
            Flag::Negative,
            Flag::Zero,
        ],
        InstructionType::ASL | InstructionType::LSR | InstructionType::ROL
            | InstructionType::ROR => seq![Flag::Negative, Flag::Zero, Flag::Carry],
        InstructionType::JMP | InstructionType::JSR | InstructionType::RTS => seq![],
        InstructionType::BCC | InstructionType::BCS | InstructionType::BEQ
            | InstructionType::BMI | InstructionType::BNE | InstructionType::BPL
            | InstructionType::BVC | InstructionType::BVS | InstructionType::JEQ
            | InstructionType::JNE => seq![],
        InstructionType::CLC | InstructionType::SEC => seq![Flag::Carry],
        InstructionType::CLD | InstructionType::SED => seq![Flag::Decimal],
        InstructionType::CLI | InstructionType::SEI | InstructionType::CAL
            | InstructionType::MOV => seq![Flag::Interrupt],
        InstructionType::CLV => seq![Flag::Overflow],
        InstructionType::BRK => seq![Flag::Break],
        InstructionType::NOP => seq![],
    }
}

/// Whether an opcode takes a pair of comma-separated operands.
pub open spec fn paired(t: InstructionType) -> bool {
    t == InstructionType::JMP
}

/// Whether an opcode may stand alone, with no operand text at all.
pub open spec fn valueless(t: InstructionType) -> bool {
    match t {
        InstructionType::TAX | InstructionType::TAY | InstructionType::TXA
            | InstructionType::TYA | InstructionType::TSX | InstructionType::TXS
            | InstructionType::PHA | InstructionType::PHP | InstructionType::PLA
            | InstructionType::PLP | InstructionType::NOP => true,
        _ => false,
    }
}

/// The canonical (upper-case) rendering of an opcode's mnemonic.
pub open spec fn mnemonic_of(t: InstructionType) -> Seq<char> {
    match t {
        InstructionType::LDA => "LDA"@,
        InstructionType::LDX => "LDX"@,
        InstructionType::LDY => "LDY"@,
        InstructionType::STA => "STA"@,
        InstructionType::STX => "STX"@,
        InstructionType::STY => "STY"@,
        InstructionType::TAX => "TAX"@,
        InstructionType::TAY => "TAY"@,
        InstructionType::TXA => "TXA"@,
        InstructionType::TYA => "TYA"@,
        InstructionType::TSX => "TSX"@,
        InstructionType::TXS => "TXS"@,
        InstructionType::PHA => "PHA"@,
        InstructionType::PHP => "PHP"@,
        InstructionType::PLA => "PLA"@,
        InstructionType::PLP => "PLP"@,
        InstructionType::AND => "AND"@,
        InstructionType::EOR => "EOR"@,
        InstructionType::ORA => "ORA"@,
        InstructionType::BIT => "BIT"@,
        InstructionType::ADC => "ADC"@,
        InstructionType::SBC => "SBC"@,
        InstructionType::CMP => "CMP"@,
        InstructionType::CPX => "CPX"@,
        InstructionType::CPY => "CPY"@,
        InstructionType::INC => "INC"@,
        InstructionType::INX => "INX"@,
        InstructionType::INY => "INY"@,
        InstructionType::DEC => "DEC"@,
        InstructionType::DEX => "DEX"@,
        InstructionType::DEY => "DEY"@,
        InstructionType::ASL => "ASL"@,
        InstructionType::LSR => "LSR"@,
        InstructionType::ROL => "ROL"@,
        InstructionType::ROR => "ROR"@,
        InstructionType::JMP => "JMP"@,
        InstructionType::JEQ => "JEQ"@,
        InstructionType::JNE => "JNE"@,
        InstructionType::JSR => "JSR"@,
        InstructionType::RTS => "RTS"@,
        InstructionType::BCC => "BCC"@,
        InstructionType::BCS => "BCS"@,
        InstructionType::BEQ => "BEQ"@,
        InstructionType::BMI => "BMI"@,
        InstructionType::BNE => "BNE"@,
        InstructionType::BPL => "BPL"@,
        InstructionType::BVC => "BVC"@,
        InstructionType::BVS => "BVS"@,
        InstructionType::CLC => "CLC"@,
        InstructionType::CLD => "CLD"@,
        InstructionType::CLI => "CLI"@,
        InstructionType::CLV => "CLV"@,
        InstructionType::SEC => "SEC"@,
        InstructionType::SED => "SED"@,
        InstructionType::SEI => "SEI"@,
        InstructionType::BRK => "BRK"@,
        InstructionType::NOP => "NOP"@,
        InstructionType::RTI => "RTI"@,
        InstructionType::CAL => "CAL"@,
        InstructionType::MOV => "MOV"@,
    }
}

/// The opcode a mnemonic names, compared without regard to ASCII case.
/// The custom and the conditional-jump opcodes have no accepted mnemonic.
pub open spec fn opcode_of_mnemonic(s: Seq<char>) -> Option<InstructionType> {
    if eq_icase(s, "lda"@) { Some(InstructionType::LDA) }
    else if eq_icase(s, "ldx"@) { Some(InstructionType::LDX) }
    else if eq_icase(s, "ldy"@) { Some(InstructionType::LDY) }
    else if eq_icase(s, "sta"@) { Some(InstructionType::STA) }
    else if eq_icase(s, "stx"@) { Some(InstructionType::STX) }
    else if eq_icase(s, "sty"@) { Some(InstructionType::STY) }
    else if eq_icase(s, "tax"@) { Some(InstructionType::TAX) }
    else if eq_icase(s, "tay"@) { Some(InstructionType::TAY) }
    else if eq_icase(s, "txa"@) { Some(InstructionType::TXA) }
    else if eq_icase(s, "tya"@) { Some(InstructionType::TYA) }
    else if eq_icase(s, "tsx"@) { Some(InstructionType::TSX) }
    else if eq_icase(s, "txs"@) { Some(InstructionType::TXS) }
    else if eq_icase(s, "pha"@) { Some(InstructionType::PHA) }
    else if eq_icase(s, "php"@) { Some(InstructionType::PHP) }
    else if eq_icase(s, "pla"@) { Some(InstructionType::PLA) }
    else if eq_icase(s, "plp"@) { Some(InstructionType::PLP) }
    else if eq_icase(s, "and"@) { Some(InstructionType::AND) }
    else if eq_icase(s, "eor"@) { Some(InstructionType::EOR) }
    else if eq_icase(s, "ora"@) { Some(InstructionType::ORA) }
    else if eq_icase(s, "bit"@) { Some(InstructionType::BIT) }
    else if eq_icase(s, "adc"@) { Some(InstructionType::ADC) }
    else if eq_icase(s, "sbc"@) { Some(InstructionType::SBC) }
    else if eq_icase(s, "cmp"@) { Some(InstructionType::CMP) }
    else if eq_icase(s, "cpx"@) { Some(InstructionType::CPX) }
    else if eq_icase(s, "cpy"@) { Some(InstructionType::CPY) }
    else if eq_icase(s, "inc"@) { Some(InstructionType::INC) }
    else if eq_icase(s, "inx"@) { Some(InstructionType::INX) }
    else if eq_icase(s, "iny"@) { Some(InstructionType::INY) }
    else if eq_icase(s, "dec"@) { Some(InstructionType::DEC) }
    else if eq_icase(s, "dex"@) { Some(InstructionType::DEX) }
    else if eq_icase(s, "dey"@) { Some(InstructionType::DEY) }
    else if eq_icase(s, "asl"@) { Some(InstructionType::ASL) }
    else if eq_icase(s, "lsr"@) { Some(InstructionType::LSR) }
    else if eq_icase(s, "rol"@) { Some(InstructionType::ROL) }
    else if eq_icase(s, "ror"@) { Some(InstructionType::ROR) }
    else if eq_icase(s, "jmp"@) { Some(InstructionType::JMP) }
    else if eq_icase(s, "jsr"@) { Some(InstructionType::JSR) }
    else if eq_icase(s, "rts"@) { Some(InstructionType::RTS) }
    else if eq_icase(s, "bcc"@) { Some(InstructionType::BCC) }
    else if eq_icase(s, "bcs"@) { Some(InstructionType::BCS) }
    else if eq_icase(s, "beq"@) { Some(InstructionType::BEQ) }
    else if eq_icase(s, "bmi"@) { Some(InstructionType::BMI) }
    else if eq_icase(s, "bne"@) { Some(InstructionType::BNE) }
    else if eq_icase(s, "bpl"@) { Some(InstructionType::BPL) }
    else if eq_icase(s, "bvc"@) { Some(InstructionType::BVC) }
    else if eq_icase(s, "bvs"@) { Some(InstructionType::BVS) }
    else if eq_icase(s, "clc"@) { Some(InstructionType::CLC) }
    else if eq_icase(s, "cld"@) { Some(InstructionType::CLD) }
    else if eq_icase(s, "cli"@) { Some(InstructionType::CLI) }
    else if eq_icase(s, "clv"@) { Some(InstructionType::CLV) }
    else if eq_icase(s, "sec"@) { Some(InstructionType::SEC) }
    else if eq_icase(s, "sed"@) { Some(InstructionType::SED) }
    else if eq_icase(s, "sei"@) { Some(InstructionType::SEI) }
    else if eq_icase(s, "brk"@) { Some(InstructionType::BRK) }
    else if eq_icase(s, "nop"@) { Some(InstructionType::NOP) }
    else if eq_icase(s, "rti"@) { Some(InstructionType::RTI) }
    else { None }
}

impl InstructionType {
    /// The flags this opcode touches, as the opcode table defines them.
    pub fn flags(&self) -> (r: Vec<Flag>)
        ensures
            r@ == flags_of(*self),
    {
        let mut r: Vec<Flag> = Vec::new();
        match self {
            InstructionType::LDA | InstructionType::LDX | InstructionType::LDY
                | InstructionType::TAX | InstructionType::TAY | InstructionType::TXA
                | InstructionType::TYA | InstructionType::TSX | InstructionType::TXS
                | InstructionType::PHA | InstructionType::PLA | InstructionType::AND
                | InstructionType::EOR | InstructionType::ORA | InstructionType::INC
                | InstructionType::INX | InstructionType::INY | InstructionType::DEC
                | InstructionType::DEX | InstructionType::DEY => {
                r.push(Flag::Negative);
                r.push(Flag::Zero);
            },
            InstructionType::STA | InstructionType::STX | InstructionType::STY
                | InstructionType::PHP | InstructionType::JMP | InstructionType::JSR
                | InstructionType::RTS | InstructionType::BCC | InstructionType::BCS
                | InstructionType::BEQ | InstructionType::BMI | InstructionType::BNE
                | InstructionType::BPL | InstructionType::BVC | InstructionType::BVS
                | InstructionType::JEQ | InstructionType::JNE | InstructionType::NOP => {},
            InstructionType::PLP | InstructionType::RTI => {
                r.push(Flag::Zero);
                r.push(Flag::Carry);
                r.push(Flag::Interrupt);
                r.push(Flag::Decimal);
                r.push(Flag::Break);
                r.push(Flag::Overflow);
                r.push(Flag::Negative);
            },
            InstructionType::BIT => {
                r.push(Flag::Negative);
                r.push(Flag::Overflow);
                r.push(Flag::Zero);
            },
            InstructionType::ADC | InstructionType::SBC => {
                r.push(Flag::Negative);
                r.push(Flag::Overflow);
                r.push(Flag::Zero);
                r.push(Flag::Carry);
            },
            InstructionType::CMP | InstructionType::CPX | InstructionType::CPY => {
                r.push(Flag::Negative);
                r.push(Flag::Zero);
                r.push(Flag::Carry);
            },
            InstructionType::ASL | InstructionType::LSR | InstructionType::ROL
                | InstructionType::ROR => {
                r.push(Flag::Negative);
                r.push(Flag::Zero);
                r.push(Flag::Carry);
            },
            InstructionType::CLC | InstructionType::SEC => {
                r.push(Flag::Carry);
            },
            InstructionType::CLD | InstructionType::SED => {
                r.push(Flag::Decimal);
            },
            InstructionType::CLI | InstructionType::SEI | InstructionType::CAL
                | InstructionType::MOV => {
                r.push(Flag::Interrupt);
            },
            InstructionType::CLV => {
                r.push(Flag::Overflow);
            },
            InstructionType::BRK => {
                r.push(Flag::Break);
            },
        }
        proof {
            assert(r@ =~= flags_of(*self));
        }
        r
    }

    /// Whether this opcode takes two comma-separated operands.
    pub fn has_multiple_values(&self) -> (r: bool)
        ensures
            r == paired(*self),
    {
        match self {
            InstructionType::JMP => true,
            _ => false,
        }
    }

    /// Whether this opcode may stand without any operand text.
    pub fn is_valueless(&self) -> (r: bool)
        ensures
            r == valueless(*self),
    {
        match self {
            InstructionType::TAX | InstructionType::TAY | InstructionType::TXA
                | InstructionType::TYA | InstructionType::TSX | InstructionType::TXS
                | InstructionType::PHA | InstructionType::PHP | InstructionType::PLA
                | InstructionType::PLP | InstructionType::NOP => true,
            _ => false,
        }
    }

    /// Looks a mnemonic up in the opcode table, ignoring ASCII case.
    pub fn from_mnemonic(s: &str) -> (r: Option<InstructionType>)
        ensures
            r == opcode_of_mnemonic(s@),
    {
        if eq_ignore_case(s, "lda") { Some(InstructionType::LDA) }
        else if eq_ignore_case(s, "ldx") { Some(InstructionType::LDX) }
        else if eq_ignore_case(s, "ldy") { Some(InstructionType::LDY) }
        else if eq_ignore_case(s, "sta") { Some(InstructionType::STA) }
        else if eq_ignore_case(s, "stx") { Some(InstructionType::STX) }
        else if eq_ignore_case(s, "sty") { Some(InstructionType::STY) }
        else if eq_ignore_case(s, "tax") { Some(InstructionType::TAX) }
        else if eq_ignore_case(s, "tay") { Some(InstructionType::TAY) }
        else if eq_ignore_case(s, "txa") { Some(InstructionType::TXA) }
        else if eq_ignore_case(s, "tya") { Some(InstructionType::TYA) }
        else if eq_ignore_case(s, "tsx") { Some(InstructionType::TSX) }
        else if eq_ignore_case(s, "txs") { Some(InstructionType::TXS) }
        else if eq_ignore_case(s, "pha") { Some(InstructionType::PHA) }
        else if eq_ignore_case(s, "php") { Some(InstructionType::PHP) }
        else if eq_ignore_case(s, "pla") { Some(InstructionType::PLA) }
        else if eq_ignore_case(s, "plp") { Some(InstructionType::PLP) }
        else if eq_ignore_case(s, "and") { Some(InstructionType::AND) }
        else if eq_ignore_case(s, "eor") { Some(InstructionType::EOR) }
        else if eq_ignore_case(s, "ora") { Some(InstructionType::ORA) }
        else if eq_ignore_case(s, "bit") { Some(InstructionType::BIT) }
        else if eq_ignore_case(s, "adc") { Some(InstructionType::ADC) }
        else if eq_ignore_case(s, "sbc") { Some(InstructionType::SBC) }
        else if eq_ignore_case(s, "cmp") { Some(InstructionType::CMP) }
        else if eq_ignore_case(s, "cpx") { Some(InstructionType::CPX) }
        else if eq_ignore_case(s, "cpy") { Some(InstructionType::CPY) }
        else if eq_ignore_case(s, "inc") { Some(InstructionType::INC) }
        else if eq_ignore_case(s, "inx") { Some(InstructionType::INX) }
        else if eq_ignore_case(s, "iny") { Some(InstructionType::INY) }
        else if eq_ignore_case(s, "dec") { Some(InstructionType::DEC) }
        else if eq_ignore_case(s, "dex") { Some(InstructionType::DEX) }
        else if eq_ignore_case(s, "dey") { Some(InstructionType::DEY) }
        else if eq_ignore_case(s, "asl") { Some(InstructionType::ASL) }
        else if eq_ignore_case(s, "lsr") { Some(InstructionType::LSR) }
        else if eq_ignore_case(s, "rol") { Some(InstructionType::ROL) }
        else if eq_ignore_case(s, "ror") { Some(InstructionType::ROR) }
        else if eq_ignore_case(s, "jmp") { Some(InstructionType::JMP) }
        else if eq_ignore_case(s, "jsr") { Some(InstructionType::JSR) }
        else if eq_ignore_case(s, "rts") { Some(InstructionType::RTS) }
        else if eq_ignore_case(s, "bcc") { Some(InstructionType::BCC) }
        else if eq_ignore_case(s, "bcs") { Some(InstructionType::BCS) }
        else if eq_ignore_case(s, "beq") { Some(InstructionType::BEQ) }
        else if eq_ignore_case(s, "bmi") { Some(InstructionType::BMI) }
        else if eq_ignore_case(s, "bne") { Some(InstructionType::BNE) }
        else if eq_ignore_case(s, "bpl") { Some(InstructionType::BPL) }
        else if eq_ignore_case(s, "bvc") { Some(InstructionType::BVC) }
        else if eq_ignore_case(s, "bvs") { Some(InstructionType::BVS) }
        else if eq_ignore_case(s, "clc") { Some(InstructionType::CLC) }
        else if eq_ignore_case(s, "cld") { Some(InstructionType::CLD) }
        else if eq_ignore_case(s, "cli") { Some(InstructionType::CLI) }
        else if eq_ignore_case(s, "clv") { Some(InstructionType::CLV) }
        else if eq_ignore_case(s, "sec") { Some(InstructionType::SEC) }
        else if eq_ignore_case(s, "sed") { Some(InstructionType::SED) }
        else if eq_ignore_case(s, "sei") { Some(InstructionType::SEI) }
        else if eq_ignore_case(s, "brk") { Some(InstructionType::BRK) }
        else if eq_ignore_case(s, "nop") { Some(InstructionType::NOP) }
        else if eq_ignore_case(s, "rti") { Some(InstructionType::RTI) }
        else { None }
    }
}

/// Type of a static variable in the data section: integer widths, floating
/// widths, and fixed-length character buffers.  A variable's initial value
/// is kept as unparsed text, so the type is a plain tag here.
#[derive(Debug, Clone, Copy, PartialEq, Eq, Structural)]
pub enum DataType {
    Byte,
    SByte,
    TByte,
    Word,
    SWord,
    DWord,
    SDWord,
    QWord,
    Real4,
    Real8,
    Str4,
    Str8,
    Str16,
    Str32,
    Str64,
    Str128,
}

/// The canonical (lower-case) rendering of a data type's name.
pub open spec fn type_name_of(t: DataType) -> Seq<char> {
    match t {
        DataType::Byte => "byte"@,
        DataType::SByte => "sbyte"@,
        DataType::TByte => "tbyte"@,
        DataType::Word => "word"@,
        DataType::SWord => "sword"@,
        DataType::DWord => "dword"@,
        DataType::SDWord => "sdword"@,
        DataType::QWord => "qword"@,
        DataType::Real4 => "real4"@,
        DataType::Real8 => "real8"@,
        DataType::Str4 => "str4"@,
        DataType::Str8 => "str8"@,
        DataType::Str16 => "str16"@,
        DataType::Str32 => "str32"@,
        DataType::Str64 => "str64"@,
        DataType::Str128 => "str128"@,
    }
}

/// The data type a name denotes, compared without regard to ASCII case.
pub open spec fn data_type_of(s: Seq<char>) -> Option<DataType> {
    if eq_icase(s, "byte"@) { Some(DataType::Byte) }
    else if eq_icase(s, "sbyte"@) { Some(DataType::SByte) }
    else if eq_icase(s, "word"@) { Some(DataType::Word) }
    else if eq_icase(s, "sword"@) { Some(DataType::SWord) }
    else if eq_icase(s, "dword"@) { Some(DataType::DWord) }
    else if eq_icase(s, "sdword"@) { Some(DataType::SDWord) }
    else if eq_icase(s, "qword"@) { Some(DataType::QWord) }
    else if eq_icase(s, "tbyte"@) { Some(DataType::TByte) }
    else if eq_icase(s, "real4"@) { Some(DataType::Real4) }
    else if eq_icase(s, "real8"@) { Some(DataType::Real8) }
    else if eq_icase(s, "str4"@) { Some(DataType::Str4) }
    else if eq_icase(s, "str8"@) { Some(DataType::Str8) }
    else if eq_icase(s, "str16"@) { Some(DataType::Str16) }
    else if eq_icase(s, "str32"@) { Some(DataType::Str32) }
    else if eq_icase(s, "str64"@) { Some(DataType::Str64) }
    else if eq_icase(s, "str128"@) { Some(DataType::Str128) }
    else { None }
}

impl DataType {
    /// Looks a data type name up, ignoring ASCII case.
    pub fn from_name(s: &str) -> (r: Option<DataType>)
        ensures
            r == data_type_of(s@),
    {
        if eq_ignore_case(s, "byte") { Some(DataType::Byte) }
        else if eq_ignore_case(s, "sbyte") { Some(DataType::SByte) }
        else if eq_ignore_case(s, "word") { Some(DataType::Word) }
        else if eq_ignore_case(s, "sword") { Some(DataType::SWord) }
        else if eq_ignore_case(s, "dword") { Some(DataType::DWord) }
        else if eq_ignore_case(s, "sdword") { Some(DataType::SDWord) }
        else if eq_ignore_case(s, "qword") { Some(DataType::QWord) }
        else if eq_ignore_case(s, "tbyte") { Some(DataType::TByte) }
        else if eq_ignore_case(s, "real4") { Some(DataType::Real4) }
        else if eq_ignore_case(s, "real8") { Some(DataType::Real8) }
        else if eq_ignore_case(s, "str4") { Some(DataType::Str4) }
        else if eq_ignore_case(s, "str8") { Some(DataType::Str8) }
        else if eq_ignore_case(s, "str16") { Some(DataType::Str16) }
        else if eq_ignore_case(s, "str32") { Some(DataType::Str32) }
        else if eq_ignore_case(s, "str64") { Some(DataType::Str64) }
        else if eq_ignore_case(s, "str128") { Some(DataType::Str128) }
        else { None }
    }

    /// The canonical name of this data type, as the pretty-printer writes it.
    pub fn name(&self) -> (r: String)
        ensures
            r@ == type_name_of(*self),
    {
        match self {
            DataType::Byte => "byte".to_owned(),
            DataType::SByte => "sbyte".to_owned(),
            DataType::TByte => "tbyte".to_owned(),
            DataType::Word => "word".to_owned(),
            DataType::SWord => "sword".to_owned(),
            DataType::DWord => "dword".to_owned(),
            DataType::SDWord => "sdword".to_owned(),
            DataType::QWord => "qword".to_owned(),
            DataType::Real4 => "real4".to_owned(),
            DataType::Real8 => "real8".to_owned(),
            DataType::Str4 => "str4".to_owned(),
            DataType::Str8 => "str8".to_owned(),
            DataType::Str16 => "str16".to_owned(),
            DataType::Str32 => "str32".to_owned(),
            DataType::Str64 => "str64".to_owned(),
            DataType::Str128 => "str128".to_owned(),
        }
    }
}

impl InstructionType {
    /// The canonical mnemonic of this opcode, as the pretty-printer writes
    /// it.
    pub fn mnemonic(&self) -> (r: String)
        ensures
            r@ == mnemonic_of(*self),
    {
        match self {
            InstructionType::LDA => "LDA".to_owned(),
            InstructionType::LDX => "LDX".to_owned(),
            InstructionType::LDY => "LDY".to_owned(),
            InstructionType::STA => "STA".to_owned(),
            InstructionType::STX => "STX".to_owned(),
            InstructionType::STY => "STY".to_owned(),
            InstructionType::TAX => "TAX".to_owned(),
            InstructionType::TAY => "TAY".to_owned(),
            InstructionType::TXA => "TXA".to_owned(),
            InstructionType::TYA => "TYA".to_owned(),
            InstructionType::TSX => "TSX".to_owned(),
            InstructionType::TXS => "TXS".to_owned(),
            InstructionType::PHA => "PHA".to_owned(),
            InstructionType::PHP => "PHP".to_owned(),
            InstructionType::PLA => "PLA".to_owned(),
            InstructionType::PLP => "PLP".to_owned(),
            InstructionType::AND => "AND".to_owned(),
            InstructionType::EOR => "EOR".to_owned(),
            InstructionType::ORA => "ORA".to_owned(),
            InstructionType::BIT => "BIT".to_owned(),
            InstructionType::ADC => "ADC".to_owned(),
            InstructionType::SBC => "SBC".to_owned(),
            InstructionType::CMP => "CMP".to_owned(),
            InstructionType::CPX => "CPX".to_owned(),
            InstructionType::CPY => "CPY".to_owned(),
            InstructionType::INC => "INC".to_owned(),
            InstructionType::INX => "INX".to_owned(),
            InstructionType::INY => "INY".to_owned(),
            InstructionType::DEC => "DEC".to_owned(),
            InstructionType::DEX => "DEX".to_owned(),
            InstructionType::DEY => "DEY".to_owned(),
            InstructionType::ASL => "ASL".to_owned(),
            InstructionType::LSR => "LSR".to_owned(),
            InstructionType::ROL => "ROL".to_owned(),
            InstructionType::ROR => "ROR".to_owned(),
            InstructionType::JMP => "JMP".to_owned(),
            InstructionType::JEQ => "JEQ".to_owned(),
            InstructionType::JNE => "JNE".to_owned(),
            InstructionType::JSR => "JSR".to_owned(),
            InstructionType::RTS => "RTS".to_owned(),
            InstructionType::BCC => "BCC".to_owned(),
            InstructionType::BCS => "BCS".to_owned(),
            InstructionType::BEQ => "BEQ".to_owned(),
            InstructionType::BMI => "BMI".to_owned(),
            InstructionType::BNE => "BNE".to_owned(),
            InstructionType::BPL => "BPL".to_owned(),
            InstructionType::BVC => "BVC".to_owned(),
            InstructionType::BVS => "BVS".to_owned(),
            InstructionType::CLC => "CLC".to_owned(),
            InstructionType::CLD => "CLD".to_owned(),
            InstructionType::CLI => "CLI".to_owned(),
            InstructionType::CLV => "CLV".to_owned(),
            InstructionType::SEC => "SEC".to_owned(),
            InstructionType::SED => "SED".to_owned(),
            InstructionType::SEI => "SEI".to_owned(),
            InstructionType::BRK => "BRK".to_owned(),
            InstructionType::NOP => "NOP".to_owned(),
            InstructionType::RTI => "RTI".to_owned(),
            InstructionType::CAL => "CAL".to_owned(),
            InstructionType::MOV => "MOV".to_owned(),
        }
    }
}

/// Operand text of an instruction: one raw operand, or the two halves of a
/// comma-separated pair.
#[derive(Debug, Clone, PartialEq)]
pub enum InstructionValue {
    SingleValue(String),
    MultipleValue(String, String),
}

/// Ghost form of [`InstructionValue`].
pub enum InstructionValueV {
    SingleValue(Seq<char>),
    MultipleValue(Seq<char>, Seq<char>),
}

/// One parsed instruction: its opcode, raw operand text, and the flags the
/// opcode touches, cached from the opcode table at parse time.
#[derive(Debug, Clone, PartialEq)]
pub struct Instruction {
    pub ty: InstructionType,
    pub val: InstructionValue,
    pub flags: Vec<Flag>,
}

/// Ghost form of [`Instruction`].
pub struct InstructionV {
    pub ty: InstructionType,
    pub val: InstructionValueV,
    pub flags: Seq<Flag>,
}

/// A static variable: name, declared type, and initial value kept as
/// unparsed text.
#[derive(Debug, Clone, PartialEq)]
pub struct Variable {
    pub name: String,
    pub ty: DataType,
    pub value: String,
}

/// Ghost form of [`Variable`].
pub struct VariableV {
    pub name: Seq<char>,
    pub ty: DataType,
    pub value: Seq<char>,
}

/// A named block of instructions; the unit of control transfer.
#[derive(Debug, Clone, PartialEq)]
pub struct Label {
    pub label_name: String,
    pub instructions: Option<Vec<Instruction>>,
}

/// Ghost form of [`Label`].
pub struct LabelV {
    pub label_name: Seq<char>,
    pub instructions: Option<Seq<InstructionV>>,
}

/// The root artifact of a successful parse: extern declarations, static
/// variables, and labeled instruction blocks.
#[derive(Debug, Clone, PartialEq)]
pub struct Program {
    pub extern_functions: Option<Vec<String>>,
    pub data: Vec<Variable>,
    pub labels: Option<Vec<Label>>,
}

/// Ghost form of [`Program`].
pub struct ProgramV {
    pub extern_functions: Option<Seq<Seq<char>>>,
    pub data: Seq<VariableV>,
    pub labels: Option<Seq<LabelV>>,
}

impl View for InstructionValue {
    type V = InstructionValueV;

    open spec fn view(&self) -> InstructionValueV {
        match self {
            InstructionValue::SingleValue(v) => InstructionValueV::SingleValue(v@),
            InstructionValue::MultipleValue(l, r) => InstructionValueV::MultipleValue(l@, r@),
        }
    }
}

impl View for Instruction {
    type V = InstructionV;

    open spec fn view(&self) -> InstructionV {
        InstructionV { ty: self.ty, val: self.val@, flags: self.flags@ }
    }
}

impl DeepView for Instruction {
    type V = InstructionV;

    open spec fn deep_view(&self) -> InstructionV {
        self.view()
    }
}

impl View for Variable {
    type V = VariableV;

    open spec fn view(&self) -> VariableV {
        VariableV { name: self.name@, ty: self.ty, value: self.value@ }
    }
}

impl DeepView for Variable {
    type V = VariableV;

    open spec fn deep_view(&self) -> VariableV {
        self.view()
    }
}

impl View for Label {
    type V = LabelV;

    open spec fn view(&self) -> LabelV {
        LabelV {
            label_name: self.label_name@,
            instructions: match self.instructions {
                Option::None => None,
                Option::Some(v) => Some(v.deep_view()),
            },
        }
    }
}

impl DeepView for Label {
    type V = LabelV;

    open spec fn deep_view(&self) -> LabelV {
        self.view()
    }
}

impl View for Program {
    type V = ProgramV;

    open spec fn view(&self) -> ProgramV {
        ProgramV {
            extern_functions: match self.extern_functions {
                Option::None => None,
                Option::Some(v) => Some(v.deep_view()),
            },
            data: self.data.deep_view(),
            labels: match self.labels {
                Option::None => None,
                Option::Some(v) => Some(v.deep_view()),
            },
        }
    }
}

impl DeepView for Program {
    type V = ProgramV;

    open spec fn deep_view(&self) -> ProgramV {
        self.view()
    }
}

/// The entry label of a program: the first label whose name has `start`
/// in it, or nothing when the program has no labels or none matches.
pub open spec fn program_start_label(p: ProgramV) -> Option<LabelV> {
    match p.labels {
        Option::None => None,
        Option::Some(ls) => start_label_of(ls),
    }
}

/// The first label, in order, whose name has `start` in it: the entry
/// point of a program.
pub open spec fn start_label_of(labels: Seq<LabelV>) -> Option<LabelV>
    decreases labels.len(),
{
    if labels.len() == 0 {
        None
    } else if contains_seq(labels[0].label_name, "start"@) {
        Some(labels[0])
    } else {
        start_label_of(labels.subrange(1, labels.len() as int))
    }
}

impl Instruction {
    /// An exact copy, field by field.
    pub fn duplicate(&self) -> (r: Instruction)
        ensures
            r@ == self@,
    {
        let val = match &self.val {
            InstructionValue::SingleValue(v) => InstructionValue::SingleValue(v.clone()),
            InstructionValue::MultipleValue(l, rr) => InstructionValue::MultipleValue(
                l.clone(),
                rr.clone(),
            ),
        };
        let mut flags: Vec<Flag> = Vec::new();
        let mut i: usize = 0;
        while i < self.flags.len()
            invariant
                0 <= i <= self.flags.len(),
                flags@ == self.flags@.subrange(0, i as int),
            decreases self.flags.len() - i,
        {
            flags.push(self.flags[i]);
            i = i + 1;
        }
        proof {
            assert(flags@ =~= self.flags@);
            assert(val == self.val);
        }
        Instruction { ty: self.ty, val, flags }
    }
}

impl Variable {
    /// An exact copy, field by field.
    pub fn duplicate(&self) -> (r: Variable)
        ensures
            r == *self,
    {
        Variable { name: self.name.clone(), ty: self.ty, value: self.value.clone() }
    }
}

impl Label {
    /// An exact copy, field by field.
    pub fn duplicate(&self) -> (r: Label)
        ensures
            r@ == self@,
    {
        let instructions = match &self.instructions {
            Option::None => None,
            Option::Some(v) => Some(duplicate_instructions(v)),
        };
        Label { label_name: self.label_name.clone(), instructions }
    }
}

/// An exact copy of a vector of instructions.
fn duplicate_instructions(v: &Vec<Instruction>) -> (r: Vec<Instruction>)
    ensures
        r.deep_view() == v.deep_view(),
{
    let mut out: Vec<Instruction> = Vec::new();
    let mut i: usize = 0;
    while i < v.len()
        invariant
            0 <= i <= v.len(),
            out@.len() == i,
            forall|k: int| 0 <= k < i ==> out@[k].deep_view() == v@[k].deep_view(),
        decreases v.len() - i,
    {
        let d = v[i].duplicate();
        let ghost dv = d.deep_view();
        out.push(d);
        proof {
            assert(out@[i as int].deep_view() == dv);
        }
        i = i + 1;
    }
    proof {
        assert(out.deep_view() =~= v.deep_view());
    }
    out
}

/// An exact copy of a vector of labels.
fn duplicate_labels(v: &Vec<Label>) -> (r: Vec<Label>)
    ensures
        r.deep_view() == v.deep_view(),
{
    let mut out: Vec<Label> = Vec::new();
    let mut i: usize = 0;
    while i < v.len()
        invariant
            0 <= i <= v.len(),
            out@.len() == i,
            forall|k: int| 0 <= k < i ==> out@[k].deep_view() == v@[k].deep_view(),
        decreases v.len() - i,
    {
        let d = v[i].duplicate();
        let ghost dv = d.deep_view();
        out.push(d);
        proof {
            assert(out@[i as int].deep_view() == dv);
        }
        i = i + 1;
    }
    proof {
        assert(out.deep_view() =~= v.deep_view());
    }
    out
}

impl Program {
    /// An empty program: no extern declarations, no data, no labels.
    pub fn new() -> (r: Program)
        ensures
            r.extern_functions is None,
            r.data@.len() == 0,
            r.labels is None,
    {
        Program { extern_functions: None, data: Vec::new(), labels: None }
    }

    /// An exact copy, field by field.
    pub fn duplicate(&self) -> (r: Program)
        ensures
            r@ == self@,
    {
        let extern_functions = match &self.extern_functions {
            Option::None => None,
            Option::Some(v) => {
                let mut out: Vec<String> = Vec::new();
                let mut i: usize = 0;
                while i < v.len()
                    invariant
                        0 <= i <= v.len(),
                        out@ == v@.subrange(0, i as int),
                    decreases v.len() - i,
                {
                    out.push(v[i].clone());
                    i = i + 1;
                }
                proof {
                    assert(out@ =~= v@);
                }
                Some(out)
            },
        };
        let mut data: Vec<Variable> = Vec::new();
        let mut i: usize = 0;
        while i < self.data.len()
            invariant
                0 <= i <= self.data.len(),
                data@ == self.data@.subrange(0, i as int),
            decreases self.data.len() - i,
        {
            data.push(self.data[i].duplicate());
            i = i + 1;
        }
        let labels = match &self.labels {
            Option::None => None,
            Option::Some(v) => Some(duplicate_labels(v)),
        };
        proof {
            assert(data@ =~= self.data@);
            assert(data.deep_view() =~= self.data.deep_view());
        }
        Program { extern_functions, data, labels }
    }

    /// The program's entry label: the first label whose name has `start`
    /// in it.  Fails when the program has no labels or none matches.
    pub fn get_start_label(&self) -> (r: Result<Label, ()>)
        ensures
            match program_start_label(self@) {
                Some(l) => r is Ok && r->Ok_0@ == l,
                None => r is Err,
            },
    {
        match &self.labels {
            Option::None => Err(()),
            Option::Some(ls) => {
                let ghost all = ls.deep_view();
                proof {
                    assert(self.labels == Some(*ls));
                    assert(program_start_label(self@) == start_label_of(all));
                    assert(all.subrange(0, all.len() as int) =~= all);
                }
                let mut i: usize = 0;
                while i < ls.len()
                    invariant
                        0 <= i <= ls.len(),
                        all == ls.deep_view(),
                        all.len() == ls@.len(),
                        program_start_label(self@) == start_label_of(all),
                        forall|k: int| 0 <= k < ls@.len() ==> all[k] == ls@[k].deep_view(),
                        start_label_of(all) == start_label_of(
                            all.subrange(i as int, all.len() as int),
                        ),
                    decreases ls.len() - i,
                {
                    proof {
                        lemma_start_label_step(all, i as int);
                    }
                    if contains_sub(ls[i].label_name.as_str(), "start") {
                        proof {
                            assert(start_label_of(all) == Some(all[i as int]));
                        }
                        return Ok(ls[i].duplicate());
                    }
                    i = i + 1;
                }
                proof {
                    assert(all.subrange(ls@.len() as int, all.len() as int)
                        =~= Seq::<LabelV>::empty());
                }
                Err(())
            },
        }
    }
}

proof fn lemma_start_label_step(all: Seq<LabelV>, i: int)
    requires
        0 <= i < all.len(),
    ensures
        start_label_of(all.subrange(i, all.len() as int)) == (if contains_seq(
            all[i].label_name,
            "start"@,
        ) {
            Some(all[i])
        } else {
            start_label_of(all.subrange(i + 1, all.len() as int))
        }),
{
    let s = all.subrange(i, all.len() as int);
    assert(s[0] == all[i]);
    assert(s.subrange(1, s.len() as int) =~= all.subrange(i + 1, all.len() as int));
}

/// The fixed register file: a conventional naming scheme at four bit
/// widths, unsigned and signed, plus the status flags.  Owned exclusively
/// by the execution engine; snapshots carry copies.
#[derive(Debug, Clone, Copy, PartialEq, Eq, Structural)]
pub struct Registers {
    // 64 bit registers
    pub rax: u64,
    pub rbx: u64,
    pub rcx: u64,
    pub rsp: u64,
    pub rbp: u64,
    pub rdi: u64,
    pub rsi: u64,
    pub rdx: u64,
    // 32 bit registers
    pub eax: u32,
    pub ebx: u32,
    pub ecx: u32,
    pub esp: u32,
    pub ebp: u32,
    pub edi: u32,
    pub esi: u32,
    pub edx: u32,
    // 16 bit registers
    pub ax: u16,
    pub bx: u16,
    pub cx: u16,
    pub sp: u16,
    pub bp: u16,
    pub di: u16,
    pub si: u16,
    pub dx: u16,
    // 8 bit registers
    pub ah: u8,
    pub al: u8,
    pub bh: u8,
    pub bl: u8,
    pub ch: u8,
    pub cl: u8,
    pub spl: u8,
    pub bpl: u8,
    pub dil: u8,
    pub sil: u8,
    pub dh: u8,
    pub dl: u8,
    // 64 bit signed registers
    pub srax: i64,
    pub srbx: i64,
    pub srcx: i64,
    pub srsp: i64,
    pub srbp: i64,
    pub srdi: i64,
    pub srsi: i64,
    pub srdx: i64,
    // 32 bit signed registers
    pub seax: i32,
    pub sebx: i32,
    pub secx: i32,
    pub sesp: i32,
    pub sebp: i32,
    pub sedi: i32,
    pub sesi: i32,
    pub sedx: i32,
    // 16 bit signed registers
    pub sax: i16,
    pub sbx: i16,
    pub scx: i16,
    pub ssp: i16,
    pub sbp: i16,
    pub sdi: i16,
    pub ssi: i16,
    pub sdx: i16,
    // 8 bit signed registers
    pub sah: i8,
    pub sal: i8,
    pub sbh: i8,
    pub sbl: i8,
    pub sch: i8,
    pub scl: i8,
    pub sspl: i8,
    pub sbpl: i8,
    pub sdil: i8,
    pub ssil: i8,
    pub sdh: i8,
    pub sdl: i8,
    // Status flags, written only by instruction dispatch
    pub flag_zero: bool,
    pub flag_carry: bool,
    pub flag_interrupt: bool,
    pub flag_decimal: bool,
    pub flag_break: bool,
    pub flag_overflow: bool,
    pub flag_negative: bool,
}

/// The register file at power-on: every register zero, every flag clear.
pub open spec fn zero_registers() -> Registers {
    Registers {
        rax: 0,
        rbx: 0,
        rcx: 0,
        rsp: 0,
        rbp: 0,
        rdi: 0,
        rsi: 0,
        rdx: 0,
        eax: 0,
        ebx: 0,
        ecx: 0,
        esp: 0,
        ebp: 0,
        edi: 0,
        esi: 0,
        edx: 0,
        ax: 0,
        bx: 0,
        cx: 0,
        sp: 0,
        bp: 0,
        di: 0,
        si: 0,
        dx: 0,
        ah: 0,
        al: 0,
        bh: 0,
        bl: 0,
        ch: 0,
        cl: 0,
        spl: 0,
        bpl: 0,
        dil: 0,
        sil: 0,
        dh: 0,
        dl: 0,
        srax: 0,
        srbx: 0,
        srcx: 0,
        srsp: 0,
        srbp: 0,
        srdi: 0,
        srsi: 0,
        srdx: 0,
        seax: 0,
        sebx: 0,
        secx: 0,
        sesp: 0,
        sebp: 0,
        sedi: 0,
        sesi: 0,
        sedx: 0,
        sax: 0,
        sbx: 0,
        scx: 0,
        ssp: 0,
        sbp: 0,
        sdi: 0,
        ssi: 0,
        sdx: 0,
        sah: 0,
        sal: 0,
        sbh: 0,
        sbl: 0,
        sch: 0,
        scl: 0,
        sspl: 0,
        sbpl: 0,
        sdil: 0,
        ssil: 0,
        sdh: 0,
        sdl: 0,
        flag_zero: false,
        flag_carry: false,
        flag_interrupt: false,
        flag_decimal: false,
        flag_break: false,
        flag_overflow: false,
        flag_negative: false,
    }
}

impl Registers {
    /// A fresh register file, zeroed.
    pub fn new() -> (r: Registers)
        ensures
            r == zero_registers(),
    {
        Registers {
        rax: 0,
        rbx: 0,
        rcx: 0,
        rsp: 0,
        rbp: 0,
        rdi: 0,
        rsi: 0,
        rdx: 0,
        eax: 0,
        ebx: 0,
        ecx: 0,
        esp: 0,
        ebp: 0,
        edi: 0,
        esi: 0,
        edx: 0,
        ax: 0,
        bx: 0,
        cx: 0,
        sp: 0,
        bp: 0,
        di: 0,
        si: 0,
        dx: 0,
        ah: 0,
        al: 0,
        bh: 0,
        bl: 0,
        ch: 0,
        cl: 0,
        spl: 0,
        bpl: 0,
        dil: 0,
        sil: 0,
        dh: 0,
        dl: 0,
        srax: 0,
        srbx: 0,
        srcx: 0,
        srsp: 0,
        srbp: 0,
        srdi: 0,
        srsi: 0,
        srdx: 0,
        seax: 0,
        sebx: 0,
        secx: 0,
        sesp: 0,
        sebp: 0,
        sedi: 0,
        sesi: 0,
        sedx: 0,
        sax: 0,
        sbx: 0,
        scx: 0,
        ssp: 0,
        sbp: 0,
        sdi: 0,
        ssi: 0,
        sdx: 0,
        sah: 0,
        sal: 0,
        sbh: 0,
        sbl: 0,
        sch: 0,
        scl: 0,
        sspl: 0,
        sbpl: 0,
        sdil: 0,
        ssil: 0,
        sdh: 0,
        sdl: 0,
        flag_zero: false,
        flag_carry: false,
        flag_interrupt: false,
        flag_decimal: false,
        flag_break: false,
        flag_overflow: false,
        flag_negative: false,
        }
    }
}

impl Default for Registers {
    /// The all-zero register file.
    fn default() -> (r: Registers)
        ensures
            r == zero_registers(),
    {
        Registers::new()
    }
}

/// Reads one status flag of the register file.
pub open spec fn flag_of(r: Registers, f: Flag) -> bool {
    match f {
        Flag::Zero => r.flag_zero,
        Flag::Carry => r.flag_carry,
        Flag::Interrupt => r.flag_interrupt,
        Flag::Decimal => r.flag_decimal,
        Flag::Break => r.flag_break,
        Flag::Overflow => r.flag_overflow,
        Flag::Negative => r.flag_negative,
    }
}

/// The register file with one status flag set to `v`, all else unchanged.
pub open spec fn with_flag(r: Registers, f: Flag, v: bool) -> Registers {
    match f {
        Flag::Zero => Registers { flag_zero: v, ..r },
        Flag::Carry => Registers { flag_carry: v, ..r },
        Flag::Interrupt => Registers { flag_interrupt: v, ..r },
        Flag::Decimal => Registers { flag_decimal: v, ..r },
        Flag::Break => Registers { flag_break: v, ..r },
        Flag::Overflow => Registers { flag_overflow: v, ..r },
        Flag::Negative => Registers { flag_negative: v, ..r },
    }
}


/// Placeholder for a future structured data section.
#[derive(Debug, Clone, Copy, PartialEq, Eq, Structural)]
pub struct Data {}

/// Placeholder for a future environment section.
#[derive(Debug, Clone, Copy, PartialEq, Eq, Structural)]
pub struct Env {}

/// Placeholder for richer data type metadata.
#[derive(Debug, Clone, Copy, PartialEq, Eq, Structural)]
pub struct DataTypeInfo {}

/// Failure of section recognition, kept for callers that classify lines
/// themselves.
#[derive(Debug, Clone, Copy, PartialEq, Eq, Structural)]
pub enum SectionError {
    InvalidSectionType,
}

} // verus!

//! One instruction step of the engine: gated by the instruction-issue
//! divisor, fetching at the current label's instruction pointer, and
//! dispatching by opcode.  The status-flag opcodes, `NOP`, `BRK` and the
//! unconditional jump have dispatch rules; every other opcode is a
//! dispatch failure, fatal to the run but not to the engine.

use vstd::prelude::*;
use vstd::string::*;
use crate::engine::{Engine, EngineState, EngineV};
use crate::lang::{
    Flag, InstructionType, InstructionValue, InstructionValueV, InstructionV, Label, LabelV,
    with_flag,
};
use crate::parser::label_name_of;

verus! {

/// A step that did not fail: an instruction ran, or this tick was not
/// eligible under the instruction-issue divisor.
#[derive(Debug, Clone, Copy, PartialEq, Eq, Structural)]
pub enum InstructionExecutionSeccess {
    Done,
    WaitingForNextTick,
}

/// Why a step did not run an instruction.  End-of-label is the normal
/// termination signal; the others are dispatch failures.
#[derive(Debug, Clone, Copy, PartialEq, Eq, Structural)]
pub enum InstructionExecutionError {
    /// The instruction pointer is past the current label's instructions.
    EndOfLabel,
    /// The engine has no current label or the label has no instructions.
    NoActiveLabel,
    /// A jump named a label the program does not have.
    UnknownJumpTarget,
    /// The opcode has no dispatch rule.
    UnimplementedInstruction,
}

/// The body of the error log a failed step produces.
pub open spec fn step_error_message(e: InstructionExecutionError) -> Seq<char> {
    match e {
        InstructionExecutionError::EndOfLabel => "Instruction Failed! end of label"@,
        InstructionExecutionError::NoActiveLabel => "Instruction Failed! no active label"@,
        InstructionExecutionError::UnknownJumpTarget => "Instruction Failed! unknown jump target"@,
        InstructionExecutionError::UnimplementedInstruction =>
            "Instruction Failed! no dispatch rule for the opcode"@,
    }
}

impl InstructionExecutionError {
    /// The body of the error log this failure produces.
    pub fn message(&self) -> (r: String)
        ensures
            r@ == step_error_message(*self),
    {
        match self {
            InstructionExecutionError::EndOfLabel => "Instruction Failed! end of label".to_owned(),
            InstructionExecutionError::NoActiveLabel =>
                "Instruction Failed! no active label".to_owned(),
            InstructionExecutionError::UnknownJumpTarget =>
                "Instruction Failed! unknown jump target".to_owned(),
            InstructionExecutionError::UnimplementedInstruction =>
                "Instruction Failed! no dispatch rule for the opcode".to_owned(),
        }
    }
}

/// The first label with the given name, searched in order.
pub open spec fn find_label(labels: Seq<LabelV>, name: Seq<char>) -> Option<LabelV>
    decreases labels.len(),
{
    if labels.len() == 0 {
        None
    } else if labels[0].label_name == name {
        Some(labels[0])
    } else {
        find_label(labels.subrange(1, labels.len() as int), name)
    }
}

/// The text a jump instruction names as its target: its single operand,
/// or the first of a pair.
pub open spec fn jump_target_of(val: InstructionValueV) -> Seq<char> {
    match val {
        InstructionValueV::SingleValue(v) => v,
        InstructionValueV::MultipleValue(l, _) => l,
    }
}

/// `e` with the instruction pointer advanced past the current
/// instruction.
pub open spec fn advance_ptr(e: EngineV) -> EngineV {
    EngineV {
        state: EngineState {
            instruction_ptr: (e.state.instruction_ptr + 1) as usize,
            ..e.state
        },
        ..e
    }
}

/// What dispatching one instruction does to the engine.  `NOP` only
/// advances; the status-flag opcodes write their one flag and advance;
/// `BRK` sets the break flag and advances; `JMP` replaces the current
/// label and resets the pointer; everything else is a dispatch failure.
pub open spec fn dispatch_spec(e: EngineV, inst: InstructionV) -> Result<
    EngineV,
    InstructionExecutionError,
> {
    match inst.ty {
        InstructionType::NOP => Ok(advance_ptr(e)),
        InstructionType::CLC => Ok(
            advance_ptr(EngineV { registers: with_flag(e.registers, Flag::Carry, false), ..e }),
        ),
        InstructionType::SEC => Ok(
            advance_ptr(EngineV { registers: with_flag(e.registers, Flag::Carry, true), ..e }),
        ),
        InstructionType::CLD => Ok(
            advance_ptr(EngineV { registers: with_flag(e.registers, Flag::Decimal, false), ..e }),
        ),
        InstructionType::SED => Ok(
            advance_ptr(EngineV { registers: with_flag(e.registers, Flag::Decimal, true), ..e }),
        ),
        InstructionType::CLI => Ok(
            advance_ptr(
                EngineV { registers: with_flag(e.registers, Flag::Interrupt, false), ..e },
            ),
        ),
        InstructionType::SEI => Ok(
            advance_ptr(EngineV { registers: with_flag(e.registers, Flag::Interrupt, true), ..e }),
        ),
        InstructionType::CLV => Ok(
            advance_ptr(EngineV { registers: with_flag(e.registers, Flag::Overflow, false), ..e }),
        ),
        InstructionType::BRK => Ok(
            advance_ptr(EngineV { registers: with_flag(e.registers, Flag::Break, true), ..e }),
        ),
        InstructionType::JMP => {
            let target = label_name_of(jump_target_of(inst.val));
            match e.program {
                Option::None => Err(InstructionExecutionError::UnknownJumpTarget),
                Option::Some(p) => match p.labels {
                    Option::None => Err(InstructionExecutionError::UnknownJumpTarget),
                    Option::Some(ls) => match find_label(ls, target) {
                        Option::None => Err(InstructionExecutionError::UnknownJumpTarget),
                        Option::Some(l) => Ok(
                            EngineV {
                                current_label: Some(l),
                                state: EngineState { instruction_ptr: 0, ..e.state },
                                ..e
                            },
                        ),
                    },
                },
            }
        },
        _ => Err(InstructionExecutionError::UnimplementedInstruction),
    }
}

/// What one gated step does: nothing on an ineligible tick; end-of-label
/// when the pointer is past the current label; otherwise one dispatch.
pub open spec fn run_instruction_spec(e: EngineV) -> Result<EngineV, InstructionExecutionError> {
    if e.state.tick % e.options.instructions_per_tick != 0 {
        Ok(e)
    } else {
        match e.current_label {
            Option::None => Err(InstructionExecutionError::NoActiveLabel),
            Option::Some(l) => match l.instructions {
                Option::None => Err(InstructionExecutionError::NoActiveLabel),
                Option::Some(ins) => {
                    if ins.len() <= e.state.instruction_ptr {
                        Err(InstructionExecutionError::EndOfLabel)
                    } else {
                        dispatch_spec(e, ins[e.state.instruction_ptr as int])
                    }
                },
            },
        }
    }
}

/// Attempts one instruction step on the engine: gated by the
/// instruction-issue divisor, end-of-label when the pointer has run out,
/// otherwise one dispatch.  On failure the engine is left unchanged; the
/// caller decides what a failure means for the run.
#[verifier::rlimit(100)]
pub fn run_instruction(engine: &mut Engine) -> (r: Result<
    InstructionExecutionSeccess,
    InstructionExecutionError,
>)
    requires
        old(engine).wf(),
    ensures
        final(engine).wf(),
        ({
            let s = run_instruction_spec(old(engine)@);
            match r {
                Ok(_) => s is Ok && final(engine)@ == s->Ok_0,
                Err(e) => s is Err && e == s->Err_0 && final(engine)@ == old(engine)@,
            }
        }),
        old(engine).state.tick % old(engine).options.instructions_per_tick != 0 <==> r == Ok::<
            InstructionExecutionSeccess,
            InstructionExecutionError,
        >(InstructionExecutionSeccess::WaitingForNextTick),
        final(engine).state.tick == old(engine).state.tick,
{
    if engine.state.tick % engine.options.instructions_per_tick != 0 {
        return Ok(InstructionExecutionSeccess::WaitingForNextTick);
    }
    let ty: InstructionType;
    let target: String;
    match &engine.current_label {
        Option::None => {
            return Err(InstructionExecutionError::NoActiveLabel);
        },
        Option::Some(label) => {
            match &label.instructions {
                Option::None => {
                    return Err(InstructionExecutionError::NoActiveLabel);
                },
                Option::Some(ins) => {
                    if ins.len() <= engine.state.instruction_ptr {
                        return Err(InstructionExecutionError::EndOfLabel);
                    }
                    let inst = &ins[engine.state.instruction_ptr];
                    ty = inst.ty;
                    target = match &inst.val {
                        InstructionValue::SingleValue(v) => v.clone(),
                        InstructionValue::MultipleValue(l, _) => l.clone(),
                    };
                },
            }
        },
    }
    match ty {
        InstructionType::NOP => {
            engine.state.instruction_ptr = engine.state.instruction_ptr + 1;
            Ok(InstructionExecutionSeccess::Done)
        },
        InstructionType::CLC => {
            engine.registers.flag_carry = false;
            engine.state.instruction_ptr = engine.state.instruction_ptr + 1;
            Ok(InstructionExecutionSeccess::Done)
        },
        InstructionType::SEC => {
            engine.registers.flag_carry = true;
            engine.state.instruction_ptr = engine.state.instruction_ptr + 1;
            Ok(InstructionExecutionSeccess::Done)
        },
        InstructionType::CLD => {
            engine.registers.flag_decimal = false;
            engine.state.instruction_ptr = engine.state.instruction_ptr + 1;
            Ok(InstructionExecutionSeccess::Done)
        },
        InstructionType::SED => {
            engine.registers.flag_decimal = true;
            engine.state.instruction_ptr = engine.state.instruction_ptr + 1;
            Ok(InstructionExecutionSeccess::Done)
        },
        InstructionType::CLI => {
            engine.registers.flag_interrupt = false;
            engine.state.instruction_ptr = engine.state.instruction_ptr + 1;
            Ok(InstructionExecutionSeccess::Done)
        },
        InstructionType::SEI => {
            engine.registers.flag_interrupt = true;
            engine.state.instruction_ptr = engine.state.instruction_ptr + 1;
            Ok(InstructionExecutionSeccess::Done)
        },
        InstructionType::CLV => {
            engine.registers.flag_overflow = false;
            engine.state.instruction_ptr = engine.state.instruction_ptr + 1;
            Ok(InstructionExecutionSeccess::Done)
        },
        InstructionType::BRK => {
            engine.registers.flag_break = true;
            engine.state.instruction_ptr = engine.state.instruction_ptr + 1;
            Ok(InstructionExecutionSeccess::Done)
        },
        InstructionType::JMP => {
            let tname = crate::parser::label_name(target.as_str());
            let found: Option<usize>;
            match &engine.program {
                Option::None => {
                    return Err(InstructionExecutionError::UnknownJumpTarget);
                },
                Option::Some(p) => {
                    match &p.labels {
                        Option::None => {
                            return Err(InstructionExecutionError::UnknownJumpTarget);
                        },
                        Option::Some(ls) => {
                            found = find_label_index(ls, &tname);
                        },
                    }
                },
            }
            match found {
                Option::None => Err(InstructionExecutionError::UnknownJumpTarget),
                Option::Some(j) => {
                    let lbl: Label;
                    match &engine.program {
                        Option::Some(p) => match &p.labels {
                            Option::Some(ls) => {
                                lbl = ls[j].duplicate();
                            },
                            Option::None => {
                                return Err(InstructionExecutionError::UnknownJumpTarget);
                            },
                        },
                        Option::None => {
                            return Err(InstructionExecutionError::UnknownJumpTarget);
                        },
                    }
                    engine.current_label = Some(lbl);
                    engine.state.instruction_ptr = 0;
                    Ok(InstructionExecutionSeccess::Done)
                },
            }
        },
        _ => Err(InstructionExecutionError::UnimplementedInstruction),
    }
}

/// The index of the first label with the given name, if any.
fn find_label_index(ls: &Vec<Label>, name: &String) -> (r: Option<usize>)
    ensures
        match r {
            Some(j) => j < ls@.len() && find_label(ls.deep_view(), name@) == Some(
                ls.deep_view()[j as int],
            ),
            None => find_label(ls.deep_view(), name@) is None,
        },
{
    let ghost all = ls.deep_view();
    proof {
        assert(all.subrange(0, all.len() as int) =~= all);
    }
    let mut i: usize = 0;
    while i < ls.len()
        invariant
            0 <= i <= ls.len(),
            all == ls.deep_view(),
            all.len() == ls@.len(),
            forall|k: int| 0 <= k < ls@.len() ==> all[k] == ls@[k].deep_view(),
            find_label(all, name@) == find_label(
                all.subrange(i as int, all.len() as int),
                name@,
            ),
        decreases ls.len() - i,
    {
        proof {
            lemma_find_label_step(all, name@, i as int);
        }
        if ls[i].label_name.eq(name) {
            return Some(i);
        }
        i = i + 1;
    }
    proof {
        assert(all.subrange(ls@.len() as int, all.len() as int) =~= Seq::<LabelV>::empty());
    }
    None
}

proof fn lemma_find_label_step(all: Seq<LabelV>, name: Seq<char>, i: int)
    requires
        0 <= i < all.len(),
    ensures
        find_label(all.subrange(i, all.len() as int), name) == (if all[i].label_name == name {
            Some(all[i])
        } else {
            find_label(all.subrange(i + 1, all.len() as int), name)
        }),
{
    let s = all.subrange(i, all.len() as int);
    assert(s[0] == all[i]);
    assert(s.subrange(1, s.len() as int) =~= all.subrange(i + 1, all.len() as int));
}

/// Hands a declared extern function off to the host.  Extern functions
/// are declared, not resolved: nothing is performed yet.
pub fn call_external_function(function_name: String, args: Vec<String>) {
}

} // verus!

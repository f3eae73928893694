//! The instruction-line formatter.
//!
//! One (byte offset, instruction) pair becomes one listing line: the offset
//! right-aligned in a 3-wide field, then `: `, then the mnemonic-and-operand
//! text left-aligned to 35 characters.  How the operand renders depends on
//! the instruction's category; a branch always shows its absolute target,
//! current offset plus the encoded signed delta, never the raw delta.

use vstd::prelude::*;

use crate::text::{
    dec_int,
    dec_nat,
    extend_padded_left,
    pad_left,
    pad_right,
    pad_field_right,
    append_str,
    push_dec_u64,
    push_dec_i32,
};

verus! {

/// One bytecode instruction, a closed variant set.  Operand meaning by
/// category: a local-variable slot (`u8`), a 1-based constant-pool index
/// (`u16` or, for `Ldc`, `u8`), an immediate literal, or a signed branch
/// delta relative to the instruction's own byte offset (`i16`).
#[derive(Clone, Copy, Debug, PartialEq, Eq, Structural)]
pub enum Instruction {
    Nop,
    AconstNull,
    IconstM1,
    Iconst0,
    Iconst1,
    Iconst2,
    Iconst3,
    Iconst4,
    Iconst5,
    Pop,
    Dup,
    Iadd,
    Isub,
    Imul,
    Arraylength,
    Ireturn,
    Areturn,
    Return,
    Athrow,
    Aload0,
    Aload1,
    Aload2,
    Aload3,
    Iload0,
    Iload1,
    Iload2,
    Iload3,
    Astore0,
    Astore1,
    Astore2,
    Astore3,
    Istore0,
    Istore1,
    Istore2,
    Istore3,
    Aload(u8),
    Iload(u8),
    Astore(u8),
    Istore(u8),
    Bipush(i8),
    Sipush(i16),
    Ldc(u8),
    Getstatic(u16),
    Putstatic(u16),
    Getfield(u16),
    Putfield(u16),
    Invokevirtual(u16),
    Invokespecial(u16),
    Invokestatic(u16),
    New(u16),
    Anewarray(u16),
    Checkcast(u16),
    Instanceof(u16),
    Goto(i16),
    Ifeq(i16),
    Ifne(i16),
    Iflt(i16),
    Ifge(i16),
    Ifgt(i16),
    Ifle(i16),
    IfIcmpeq(i16),
    IfIcmpne(i16),
    IfIcmplt(i16),
    IfIcmpge(i16),
    IfIcmpgt(i16),
    IfIcmple(i16),
    IfAcmpeq(i16),
    IfAcmpne(i16),
    Ifnull(i16),
    Ifnonnull(i16),
}

/// An instruction's operand, by rendering category.
#[derive(Clone, Copy, Debug, PartialEq, Eq, Structural)]
pub enum Operand {
    /// The mnemonic stands alone; any slot it touches is implied by the
    /// opcode name itself.
    NoOperand,
    /// A local-variable slot number.
    LocalSlot(u8),
    /// A 1-based constant-pool index, rendered as `#<index>`.
    PoolIndex(u16),
    /// An immediate literal.
    Immediate(i32),
    /// A signed delta relative to the instruction's own byte offset.
    BranchDelta(i16),
}

/// The instruction's mnemonic.
pub open spec fn spec_mnemonic(i: Instruction) -> Seq<char> {
    match i {
        Instruction::Nop => "nop"@,
        Instruction::AconstNull => "aconst_null"@,
        Instruction::IconstM1 => "iconst_m1"@,
        Instruction::Iconst0 => "iconst_0"@,
        Instruction::Iconst1 => "iconst_1"@,
        Instruction::Iconst2 => "iconst_2"@,
        Instruction::Iconst3 => "iconst_3"@,
        Instruction::Iconst4 => "iconst_4"@,
        Instruction::Iconst5 => "iconst_5"@,
        Instruction::Pop => "pop"@,
        Instruction::Dup => "dup"@,
        Instruction::Iadd => "iadd"@,
        Instruction::Isub => "isub"@,
        Instruction::Imul => "imul"@,
        Instruction::Arraylength => "arraylength"@,
        Instruction::Ireturn => "ireturn"@,
        Instruction::Areturn => "areturn"@,
        Instruction::Return => "return"@,
        Instruction::Athrow => "athrow"@,
        Instruction::Aload0 => "aload_0"@,
        Instruction::Aload1 => "aload_1"@,
        Instruction::Aload2 => "aload_2"@,
        Instruction::Aload3 => "aload_3"@,
        Instruction::Iload0 => "iload_0"@,
        Instruction::Iload1 => "iload_1"@,
        Instruction::Iload2 => "iload_2"@,
        Instruction::Iload3 => "iload_3"@,
        Instruction::Astore0 => "astore_0"@,
        Instruction::Astore1 => "astore_1"@,
        Instruction::Astore2 => "astore_2"@,
        Instruction::Astore3 => "astore_3"@,
        Instruction::Istore0 => "istore_0"@,
        Instruction::Istore1 => "istore_1"@,
        Instruction::Istore2 => "istore_2"@,
        Instruction::Istore3 => "istore_3"@,
        Instruction::Aload(_) => "aload"@,
        Instruction::Iload(_) => "iload"@,
        Instruction::Astore(_) => "astore"@,
        Instruction::Istore(_) => "istore"@,
        Instruction::Bipush(_) => "bipush"@,
        Instruction::Sipush(_) => "sipush"@,
        Instruction::Ldc(_) => "ldc"@,
        Instruction::Getstatic(_) => "getstatic"@,
        Instruction::Putstatic(_) => "putstatic"@,
        Instruction::Getfield(_) => "getfield"@,
        Instruction::Putfield(_) => "putfield"@,
        Instruction::Invokevirtual(_) => "invokevirtual"@,
        Instruction::Invokespecial(_) => "invokespecial"@,
        Instruction::Invokestatic(_) => "invokestatic"@,
        Instruction::New(_) => "new"@,
        Instruction::Anewarray(_) => "anewarray"@,
        Instruction::Checkcast(_) => "checkcast"@,
        Instruction::Instanceof(_) => "instanceof"@,
        Instruction::Goto(_) => "goto"@,
        Instruction::Ifeq(_) => "ifeq"@,
        Instruction::Ifne(_) => "ifne"@,
        Instruction::Iflt(_) => "iflt"@,
        Instruction::Ifge(_) => "ifge"@,
        Instruction::Ifgt(_) => "ifgt"@,
        Instruction::Ifle(_) => "ifle"@,
        Instruction::IfIcmpeq(_) => "if_icmpeq"@,
        Instruction::IfIcmpne(_) => "if_icmpne"@,
        Instruction::IfIcmplt(_) => "if_icmplt"@,
        Instruction::IfIcmpge(_) => "if_icmpge"@,
        Instruction::IfIcmpgt(_) => "if_icmpgt"@,
        Instruction::IfIcmple(_) => "if_icmple"@,
        Instruction::IfAcmpeq(_) => "if_acmpeq"@,
        Instruction::IfAcmpne(_) => "if_acmpne"@,
        Instruction::Ifnull(_) => "ifnull"@,
        Instruction::Ifnonnull(_) => "ifnonnull"@,
    }
}

/// The instruction's operand category and value.
pub open spec fn spec_operand(i: Instruction) -> Operand {
    match i {
        Instruction::Nop => Operand::NoOperand,
        Instruction::AconstNull => Operand::NoOperand,
        Instruction::IconstM1 => Operand::NoOperand,
        Instruction::Iconst0 => Operand::NoOperand,
        Instruction::Iconst1 => Operand::NoOperand,
        Instruction::Iconst2 => Operand::NoOperand,
        Instruction::Iconst3 => Operand::NoOperand,
        Instruction::Iconst4 => Operand::NoOperand,
        Instruction::Iconst5 => Operand::NoOperand,
        Instruction::Pop => Operand::NoOperand,
        Instruction::Dup => Operand::NoOperand,
        Instruction::Iadd => Operand::NoOperand,
        Instruction::Isub => Operand::NoOperand,
        Instruction::Imul => Operand::NoOperand,
        Instruction::Arraylength => Operand::NoOperand,
        Instruction::Ireturn => Operand::NoOperand,
        Instruction::Areturn => Operand::NoOperand,
        Instruction::Return => Operand::NoOperand,
        Instruction::Athrow => Operand::NoOperand,
        Instruction::Aload0 => Operand::NoOperand,
        Instruction::Aload1 => Operand::NoOperand,
        Instruction::Aload2 => Operand::NoOperand,
        Instruction::Aload3 => Operand::NoOperand,
        Instruction::Iload0 => Operand::NoOperand,
        Instruction::Iload1 => Operand::NoOperand,
        Instruction::Iload2 => Operand::NoOperand,
        Instruction::Iload3 => Operand::NoOperand,
        Instruction::Astore0 => Operand::NoOperand,
        Instruction::Astore1 => Operand::NoOperand,
        Instruction::Astore2 => Operand::NoOperand,
        Instruction::Astore3 => Operand::NoOperand,
        Instruction::Istore0 => Operand::NoOperand,
        Instruction::Istore1 => Operand::NoOperand,
        Instruction::Istore2 => Operand::NoOperand,
        Instruction::Istore3 => Operand::NoOperand,
        Instruction::Aload(n) => Operand::LocalSlot(n),
        Instruction::Iload(n) => Operand::LocalSlot(n),
        Instruction::Astore(n) => Operand::LocalSlot(n),
        Instruction::Istore(n) => Operand::LocalSlot(n),
        Instruction::Bipush(v) => Operand::Immediate(v as i32),
        Instruction::Sipush(v) => Operand::Immediate(v as i32),
        Instruction::Ldc(x) => Operand::PoolIndex(x as u16),
        Instruction::Getstatic(x) => Operand::PoolIndex(x),
        Instruction::Putstatic(x) => Operand::PoolIndex(x),
        Instruction::Getfield(x) => Operand::PoolIndex(x),
        Instruction::Putfield(x) => Operand::PoolIndex(x),
        Instruction::Invokevirtual(x) => Operand::PoolIndex(x),
        Instruction::Invokespecial(x) => Operand::PoolIndex(x),
        Instruction::Invokestatic(x) => Operand::PoolIndex(x),
        Instruction::New(x) => Operand::PoolIndex(x),
        Instruction::Anewarray(x) => Operand::PoolIndex(x),
        Instruction::Checkcast(x) => Operand::PoolIndex(x),
        Instruction::Instanceof(x) => Operand::PoolIndex(x),
        Instruction::Goto(d) => Operand::BranchDelta(d),
        Instruction::Ifeq(d) => Operand::BranchDelta(d),
        Instruction::Ifne(d) => Operand::BranchDelta(d),
        Instruction::Iflt(d) => Operand::BranchDelta(d),
        Instruction::Ifge(d) => Operand::BranchDelta(d),
        Instruction::Ifgt(d) => Operand::BranchDelta(d),
        Instruction::Ifle(d) => Operand::BranchDelta(d),
        Instruction::IfIcmpeq(d) => Operand::BranchDelta(d),
        Instruction::IfIcmpne(d) => Operand::BranchDelta(d),
        Instruction::IfIcmplt(d) => Operand::BranchDelta(d),
        Instruction::IfIcmpge(d) => Operand::BranchDelta(d),
        Instruction::IfIcmpgt(d) => Operand::BranchDelta(d),
        Instruction::IfIcmple(d) => Operand::BranchDelta(d),
        Instruction::IfAcmpeq(d) => Operand::BranchDelta(d),
        Instruction::IfAcmpne(d) => Operand::BranchDelta(d),
        Instruction::Ifnull(d) => Operand::BranchDelta(d),
        Instruction::Ifnonnull(d) => Operand::BranchDelta(d),
    }
}

/// The mnemonic-and-operand text of the instruction at byte offset `offset`.
/// A branch renders the absolute target `offset + delta`.
pub open spec fn spec_instruction_text(offset: u16, i: Instruction) -> Seq<char> {
    match spec_operand(i) {
        Operand::NoOperand => spec_mnemonic(i),
        Operand::LocalSlot(n) => spec_mnemonic(i) + " "@ + dec_nat(n as int),
        Operand::PoolIndex(x) => spec_mnemonic(i) + " #"@ + dec_nat(x as int),
        Operand::Immediate(v) => spec_mnemonic(i) + " "@ + dec_int(v as int),
        Operand::BranchDelta(d) => spec_mnemonic(i) + " "@ + dec_int(offset + d),
    }
}

/// One whole listing line for the instruction at `offset`: eight spaces of
/// indent, the offset right-aligned to width 3, `: `, and the instruction
/// text left-aligned to width 35, then a newline.
pub open spec fn spec_instruction_line(offset: u16, i: Instruction) -> Seq<char> {
    "        "@ + pad_left(dec_nat(offset as int), 3) + ": "@ + pad_right(
        spec_instruction_text(offset, i),
        35,
    ) + "\n"@
}

/// Branch targets are absolute: whenever an instruction carries a branch
/// delta, its rendered operand is the instruction's own byte offset plus the
/// signed delta, never the raw delta.
pub proof fn lemma_branch_target_absolute(offset: u16, i: Instruction, d: i16)
    requires
        spec_operand(i) == Operand::BranchDelta(d),
    ensures
        spec_instruction_text(offset, i) == spec_mnemonic(i) + " "@ + dec_int(
            offset as int + d as int,
        ),
{
}

/// The instruction's mnemonic.
pub fn mnemonic(i: &Instruction) -> (r: &'static str)
    ensures
        r@ == spec_mnemonic(*i),
{
    match i {
        Instruction::Nop => "nop",
        Instruction::AconstNull => "aconst_null",
        Instruction::IconstM1 => "iconst_m1",
        Instruction::Iconst0 => "iconst_0",
        Instruction::Iconst1 => "iconst_1",
        Instruction::Iconst2 => "iconst_2",
        Instruction::Iconst3 => "iconst_3",
        Instruction::Iconst4 => "iconst_4",
        Instruction::Iconst5 => "iconst_5",
        Instruction::Pop => "pop",
        Instruction::Dup => "dup",
        Instruction::Iadd => "iadd",
        Instruction::Isub => "isub",
        Instruction::Imul => "imul",
        Instruction::Arraylength => "arraylength",
        Instruction::Ireturn => "ireturn",
        Instruction::Areturn => "areturn",
        Instruction::Return => "return",
        Instruction::Athrow => "athrow",
        Instruction::Aload0 => "aload_0",
        Instruction::Aload1 => "aload_1",
        Instruction::Aload2 => "aload_2",
        Instruction::Aload3 => "aload_3",
        Instruction::Iload0 => "iload_0",
        Instruction::Iload1 => "iload_1",
        Instruction::Iload2 => "iload_2",
        Instruction::Iload3 => "iload_3",
        Instruction::Astore0 => "astore_0",
        Instruction::Astore1 => "astore_1",
        Instruction::Astore2 => "astore_2",
        Instruction::Astore3 => "astore_3",
        Instruction::Istore0 => "istore_0",
        Instruction::Istore1 => "istore_1",
        Instruction::Istore2 => "istore_2",
        Instruction::Istore3 => "istore_3",
        Instruction::Aload(_) => "aload",
        Instruction::Iload(_) => "iload",
        Instruction::Astore(_) => "astore",
        Instruction::Istore(_) => "istore",
        Instruction::Bipush(_) => "bipush",
        Instruction::Sipush(_) => "sipush",
        Instruction::Ldc(_) => "ldc",
        Instruction::Getstatic(_) => "getstatic",
        Instruction::Putstatic(_) => "putstatic",
        Instruction::Getfield(_) => "getfield",
        Instruction::Putfield(_) => "putfield",
        Instruction::Invokevirtual(_) => "invokevirtual",
        Instruction::Invokespecial(_) => "invokespecial",
        Instruction::Invokestatic(_) => "invokestatic",
        Instruction::New(_) => "new",
        Instruction::Anewarray(_) => "anewarray",
        Instruction::Checkcast(_) => "checkcast",
        Instruction::Instanceof(_) => "instanceof",
        Instruction::Goto(_) => "goto",
        Instruction::Ifeq(_) => "ifeq",
        Instruction::Ifne(_) => "ifne",
        Instruction::Iflt(_) => "iflt",
        Instruction::Ifge(_) => "ifge",
        Instruction::Ifgt(_) => "ifgt",
        Instruction::Ifle(_) => "ifle",
        Instruction::IfIcmpeq(_) => "if_icmpeq",
        Instruction::IfIcmpne(_) => "if_icmpne",
        Instruction::IfIcmplt(_) => "if_icmplt",
        Instruction::IfIcmpge(_) => "if_icmpge",
        Instruction::IfIcmpgt(_) => "if_icmpgt",
        Instruction::IfIcmple(_) => "if_icmple",
        Instruction::IfAcmpeq(_) => "if_acmpeq",
        Instruction::IfAcmpne(_) => "if_acmpne",
        Instruction::Ifnull(_) => "ifnull",
        Instruction::Ifnonnull(_) => "ifnonnull",
    }
}

/// The instruction's operand category and value.
pub fn operand(i: &Instruction) -> (r: Operand)
    ensures
        r == spec_operand(*i),
{
    match i {
        Instruction::Aload(n) => Operand::LocalSlot(*n),
        Instruction::Iload(n) => Operand::LocalSlot(*n),
        Instruction::Astore(n) => Operand::LocalSlot(*n),
        Instruction::Istore(n) => Operand::LocalSlot(*n),
        Instruction::Bipush(v) => Operand::Immediate(*v as i32),
        Instruction::Sipush(v) => Operand::Immediate(*v as i32),
        Instruction::Ldc(x) => Operand::PoolIndex(*x as u16),
        Instruction::Getstatic(x) => Operand::PoolIndex(*x),
        Instruction::Putstatic(x) => Operand::PoolIndex(*x),
        Instruction::Getfield(x) => Operand::PoolIndex(*x),
        Instruction::Putfield(x) => Operand::PoolIndex(*x),
        Instruction::Invokevirtual(x) => Operand::PoolIndex(*x),
        Instruction::Invokespecial(x) => Operand::PoolIndex(*x),
        Instruction::Invokestatic(x) => Operand::PoolIndex(*x),
        Instruction::New(x) => Operand::PoolIndex(*x),
        Instruction::Anewarray(x) => Operand::PoolIndex(*x),
        Instruction::Checkcast(x) => Operand::PoolIndex(*x),
        Instruction::Instanceof(x) => Operand::PoolIndex(*x),
        Instruction::Goto(d) => Operand::BranchDelta(*d),
        Instruction::Ifeq(d) => Operand::BranchDelta(*d),
        Instruction::Ifne(d) => Operand::BranchDelta(*d),
        Instruction::Iflt(d) => Operand::BranchDelta(*d),
        Instruction::Ifge(d) => Operand::BranchDelta(*d),
        Instruction::Ifgt(d) => Operand::BranchDelta(*d),
        Instruction::Ifle(d) => Operand::BranchDelta(*d),
        Instruction::IfIcmpeq(d) => Operand::BranchDelta(*d),
        Instruction::IfIcmpne(d) => Operand::BranchDelta(*d),
        Instruction::IfIcmplt(d) => Operand::BranchDelta(*d),
        Instruction::IfIcmpge(d) => Operand::BranchDelta(*d),
        Instruction::IfIcmpgt(d) => Operand::BranchDelta(*d),
        Instruction::IfIcmple(d) => Operand::BranchDelta(*d),
        Instruction::IfAcmpeq(d) => Operand::BranchDelta(*d),
        Instruction::IfAcmpne(d) => Operand::BranchDelta(*d),
        Instruction::Ifnull(d) => Operand::BranchDelta(*d),
        Instruction::Ifnonnull(d) => Operand::BranchDelta(*d),
        _ => Operand::NoOperand,
    }
}

/// Renders the mnemonic-and-operand text of the instruction at `offset`.
pub fn format_instruction(offset: u16, i: &Instruction) -> (r: Vec<char>)
    ensures
        r@ == spec_instruction_text(offset, *i),
{
    let mut out: Vec<char> = Vec::new();
    append_str(&mut out, mnemonic(i));
    match operand(i) {
        Operand::NoOperand => {},
        Operand::LocalSlot(n) => {
            append_str(&mut out, " ");
            push_dec_u64(&mut out, n as u64);
        },
        Operand::PoolIndex(x) => {
            append_str(&mut out, " #");
            push_dec_u64(&mut out, x as u64);
        },
        Operand::Immediate(v) => {
            append_str(&mut out, " ");
            push_dec_i32(&mut out, v);
        },
        Operand::BranchDelta(d) => {
            append_str(&mut out, " ");
            let target: i32 = offset as i32 + d as i32;
            push_dec_i32(&mut out, target);
        },
    }
    proof {
        assert(out@ =~= spec_instruction_text(offset, *i));
    }
    out
}

/// Renders one whole listing line for the instruction at `offset`.
pub fn format_instruction_line(offset: u16, i: &Instruction) -> (r: Vec<char>)
    ensures
        r@ == spec_instruction_line(offset, *i),
{
    let mut out: Vec<char> = Vec::new();
    append_str(&mut out, "        ");
    let mut off_field: Vec<char> = Vec::new();
    push_dec_u64(&mut off_field, offset as u64);
    extend_padded_left(&mut out, &off_field, 3);
    append_str(&mut out, ": ");
    let mut body = format_instruction(offset, i);
    pad_field_right(&mut body, 35);
    crate::text::extend_chars(&mut out, &body);
    append_str(&mut out, "\n");
    proof {
        assert(out@ =~= spec_instruction_line(offset, *i));
    }
    out
}

} // verus!

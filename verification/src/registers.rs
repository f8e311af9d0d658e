//! The register file of the x86-64 target and register-shaped operands.

use vstd::prelude::*;
use vstd::string::StringExecFns;
use crate::directives::Directive;
use crate::directives::directive_text;

verus! {

/// An x86-64 register name.
#[derive(Debug, Clone, Copy, PartialEq, Eq, Structural)]
pub enum Reg {
    /// a: extended 64-bit register
    Rax,
    /// a: 32-bit register
    Eax,
    /// a: 16-bit register
    Ax,
    /// a: bits 8-15
    Ah,
    /// a: bits 0-7
    Al,
    /// b: extended 64-bit register
    Rbx,
    /// b: 32-bit register
    Ebx,
    /// b: 16-bit register
    Bx,
    /// b: bits 8-15
    Bh,
    /// b: bits 0-7
    Bl,
    /// c: extended 64-bit register
    Rcx,
    /// c: 32-bit register
    Ecx,
    /// c: 16-bit register
    Cx,
    /// c: bits 8-15
    Ch,
    /// c: bits 0-7
    Cl,
    /// d: extended 64-bit register
    Rdx,
    /// d: 32-bit register
    Edx,
    /// d: 16-bit register
    Dx,
    /// d: bits 8-15
    Dh,
    /// d: bits 0-7
    Dl,
    /// register base pointer (start of stack)
    Rbp,
    /// register stack pointer (current top of stack, growing downwards)
    Rsp,
    /// register source index (source for data copies)
    Rsi,
    /// register destination index (destination for data copies)
    Rdi,
    /// 64-bit register
    R8,
    /// 32-bit register
    R8d,
    /// 16-bit register
    R8w,
    /// bits 0-7
    R8b,
    /// 64-bit register
    R9,
    /// 32-bit register
    R9d,
    /// 16-bit register
    R9w,
    /// bits 0-7
    R9b,
    /// 64-bit register
    R10,
    /// 32-bit register
    R10d,
    /// 16-bit register
    R10w,
    /// bits 0-7
    R10b,
    /// 64-bit register
    R11,
    /// 32-bit register
    R11d,
    /// 16-bit register
    R11w,
    /// bits 0-7
    R11b,
    /// 64-bit register
    R12,
    /// 32-bit register
    R12d,
    /// 16-bit register
    R12w,
    /// bits 0-7
    R12b,
    /// 64-bit register
    R13,
    /// 32-bit register
    R13d,
    /// 16-bit register
    R13w,
    /// bits 0-7
    R13b,
    /// 64-bit register
    R14,
    /// 32-bit register
    R14d,
    /// 16-bit register
    R14w,
    /// bits 0-7
    R14b,
    /// 64-bit register
    R15,
    /// 32-bit register
    R15d,
    /// 16-bit register
    R15w,
    /// bits 0-7
    R15b,
}

/// The assembly mnemonic of a register name.
pub open spec fn reg_text(r: Reg) -> Seq<char> {
    match r {
        Reg::Rax => "rax"@,
        Reg::Eax => "eax"@,
        Reg::Ax => "ax"@,
        Reg::Ah => "ah"@,
        Reg::Al => "al"@,
        Reg::Rbx => "rbx"@,
        Reg::Ebx => "ebx"@,
        Reg::Bx => "bx"@,
        Reg::Bh => "bh"@,
        Reg::Bl => "bl"@,
        Reg::Rcx => "rcx"@,
        Reg::Ecx => "ecx"@,
        Reg::Cx => "cx"@,
        Reg::Ch => "ch"@,
        Reg::Cl => "cl"@,
        Reg::Rdx => "rdx"@,
        Reg::Edx => "edx"@,
        Reg::Dx => "dx"@,
        Reg::Dh => "dh"@,
        Reg::Dl => "dl"@,
        Reg::Rbp => "rbp"@,
        Reg::Rsp => "rsp"@,
        Reg::Rsi => "rsi"@,
        Reg::Rdi => "rdi"@,
        Reg::R8 => "r8"@,
        Reg::R8d => "r8d"@,
        Reg::R8w => "r8w"@,
        Reg::R8b => "r8b"@,
        Reg::R9 => "r9"@,
        Reg::R9d => "r9d"@,
        Reg::R9w => "r9w"@,
        Reg::R9b => "r9b"@,
        Reg::R10 => "r10"@,
        Reg::R10d => "r10d"@,
        Reg::R10w => "r10w"@,
        Reg::R10b => "r10b"@,
        Reg::R11 => "r11"@,
        Reg::R11d => "r11d"@,
        Reg::R11w => "r11w"@,
        Reg::R11b => "r11b"@,
        Reg::R12 => "r12"@,
        Reg::R12d => "r12d"@,
        Reg::R12w => "r12w"@,
        Reg::R12b => "r12b"@,
        Reg::R13 => "r13"@,
        Reg::R13d => "r13d"@,
        Reg::R13w => "r13w"@,
        Reg::R13b => "r13b"@,
        Reg::R14 => "r14"@,
        Reg::R14d => "r14d"@,
        Reg::R14w => "r14w"@,
        Reg::R14b => "r14b"@,
        Reg::R15 => "r15"@,
        Reg::R15d => "r15d"@,
        Reg::R15w => "r15w"@,
        Reg::R15b => "r15b"@,
    }
}

impl Reg {
    /// The assembly mnemonic of this register.
    pub fn name(&self) -> (r: &'static str)
        ensures
            r@ == reg_text(*self),
    {
        match self {
            Reg::Rax => "rax",
            Reg::Eax => "eax",
            Reg::Ax => "ax",
            Reg::Ah => "ah",
            Reg::Al => "al",
            Reg::Rbx => "rbx",
            Reg::Ebx => "ebx",
            Reg::Bx => "bx",
            Reg::Bh => "bh",
            Reg::Bl => "bl",
            Reg::Rcx => "rcx",
            Reg::Ecx => "ecx",
            Reg::Cx => "cx",
            Reg::Ch => "ch",
            Reg::Cl => "cl",
            Reg::Rdx => "rdx",
            Reg::Edx => "edx",
            Reg::Dx => "dx",
            Reg::Dh => "dh",
            Reg::Dl => "dl",
            Reg::Rbp => "rbp",
            Reg::Rsp => "rsp",
            Reg::Rsi => "rsi",
            Reg::Rdi => "rdi",
            Reg::R8 => "r8",
            Reg::R8d => "r8d",
            Reg::R8w => "r8w",
            Reg::R8b => "r8b",
            Reg::R9 => "r9",
            Reg::R9d => "r9d",
            Reg::R9w => "r9w",
            Reg::R9b => "r9b",
            Reg::R10 => "r10",
            Reg::R10d => "r10d",
            Reg::R10w => "r10w",
            Reg::R10b => "r10b",
            Reg::R11 => "r11",
            Reg::R11d => "r11d",
            Reg::R11w => "r11w",
            Reg::R11b => "r11b",
            Reg::R12 => "r12",
            Reg::R12d => "r12d",
            Reg::R12w => "r12w",
            Reg::R12b => "r12b",
            Reg::R13 => "r13",
            Reg::R13d => "r13d",
            Reg::R13w => "r13w",
            Reg::R13b => "r13b",
            Reg::R14 => "r14",
            Reg::R14d => "r14d",
            Reg::R14w => "r14w",
            Reg::R14b => "r14b",
            Reg::R15 => "r15",
            Reg::R15d => "r15d",
            Reg::R15w => "r15w",
            Reg::R15b => "r15b",
        }
    }
}

/// A register-shaped operand: a bare register, a plain dereference of a
/// register, or a size-directed memory reference.
#[derive(Debug, Clone)]
pub enum Register {
    /// A size-directed memory reference.
    Mem(Directive),
    /// `[reg]`: the memory the register points at.
    Deref(Reg),
    /// The register itself.
    Direct(Reg),
}

/// The assembly text of a register-shaped operand.
pub open spec fn register_text(r: Register) -> Seq<char> {
    match r {
        Register::Mem(d) => directive_text(d),
        Register::Deref(rg) => "["@ + reg_text(rg) + "]"@,
        Register::Direct(rg) => reg_text(rg),
    }
}

impl Register {
    /// Renders this operand as assembly text.
    pub fn render(&self) -> (r: String)
        ensures
            r@ == register_text(*self),
    {
        match self {
            Register::Mem(d) => d.render(),
            Register::Deref(rg) => {
                let mut s = String::from_str("[");
                s.append(rg.name());
                s.append("]");
                proof {
                    assert(s@ =~= register_text(*self));
                }
                s
            },
            Register::Direct(rg) => String::from_str(rg.name()),
        }
    }
}

} // verus!

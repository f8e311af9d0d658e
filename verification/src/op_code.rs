//! The opcode vocabulary of the target, and the fixed instruction idioms
//! the code generator emits: materialize-and-push for constants, and
//! pop-pop-apply-push for the binary arithmetic operators.

use vstd::prelude::*;
use vstd::string::StringExecFns;
use crate::error::dec_str;
use crate::error::usize_to_decimal;
use crate::ir::Blob;
use crate::registers::Reg;
use crate::registers::Register;
use crate::registers::reg_text;
use crate::registers::register_text;

verus! {

/// A source operand: an immediate or a register-shaped operand.
#[derive(Debug, Clone)]
pub enum Value {
    Number(u32),
    Register(Register),
}

/// The assembly text of a source operand.
pub open spec fn value_text(v: Value) -> Seq<char> {
    match v {
        Value::Number(n) => dec_str(n as nat),
        Value::Register(r) => register_text(r),
    }
}

impl Value {
    /// Renders this operand as assembly text.
    pub fn render(&self) -> (r: String)
        ensures
            r@ == value_text(*self),
    {
        match self {
            Value::Number(n) => usize_to_decimal(*n as usize),
            Value::Register(rg) => rg.render(),
        }
    }
}

/// A system call number of the target.
#[derive(Debug, Clone, Copy, PartialEq, Eq, Structural)]
pub enum Syscall {
    /// 1: %rax(0x01), %rdi(unsigned int fd), %rsi(char *buf), %rdx(size_t count)
    Write,
    /// 60: rax(0x3c), rdi(int error_code)
    Exit,
}

/// The number the kernel knows a system call by.
pub open spec fn syscall_number(s: Syscall) -> u32 {
    match s {
        Syscall::Write => 0x01,
        Syscall::Exit => 0x3c,
    }
}

impl Syscall {
    /// The number the kernel knows this system call by.
    pub fn number(&self) -> (n: u32)
        ensures
            n == syscall_number(*self),
    {
        match self {
            Syscall::Write => 0x01,
            Syscall::Exit => 0x3c,
        }
    }
}

/// One target instruction.
#[derive(Debug, Clone)]
pub enum OpCode {
    Mov(Register, Value),
    Push(Register),
    Pop(Register),
    Add(Register, Value),
    Sub(Register, Value),
    Mul(Register, Value),
    Div(Reg),
    Xor(Register, Register),
    Syscall,
}

/// The assembly text of one instruction, without indentation or newline.
pub open spec fn opcode_text(op: OpCode) -> Seq<char> {
    match op {
        OpCode::Mov(d, s) => "mov "@ + register_text(d) + ","@ + value_text(s),
        OpCode::Push(s) => "push "@ + register_text(s),
        OpCode::Pop(d) => "pop "@ + register_text(d),
        OpCode::Add(d, s) => "add "@ + register_text(d) + ","@ + value_text(s),
        OpCode::Sub(d, s) => "sub "@ + register_text(d) + ","@ + value_text(s),
        OpCode::Mul(d, s) => "imul "@ + register_text(d) + ","@ + value_text(s),
        OpCode::Div(s) => "div "@ + reg_text(s),
        OpCode::Xor(d, s) => "xor "@ + register_text(d) + ","@ + register_text(s),
        OpCode::Syscall => "syscall"@,
    }
}

impl OpCode {
    /// Renders this instruction as assembly text.
    pub fn render(&self) -> (r: String)
        ensures
            r@ == opcode_text(*self),
    {
        let mut s = String::new();
        match self {
            OpCode::Mov(d, v) => {
                s.append("mov ");
                let dt = d.render();
                s.append(dt.as_str());
                s.append(",");
                let vt = v.render();
                s.append(vt.as_str());
            },
            OpCode::Push(r) => {
                s.append("push ");
                let rt = r.render();
                s.append(rt.as_str());
            },
            OpCode::Pop(r) => {
                s.append("pop ");
                let rt = r.render();
                s.append(rt.as_str());
            },
            OpCode::Add(d, v) => {
                s.append("add ");
                let dt = d.render();
                s.append(dt.as_str());
                s.append(",");
                let vt = v.render();
                s.append(vt.as_str());
            },
            OpCode::Sub(d, v) => {
                s.append("sub ");
                let dt = d.render();
                s.append(dt.as_str());
                s.append(",");
                let vt = v.render();
                s.append(vt.as_str());
            },
            OpCode::Mul(d, v) => {
                s.append("imul ");
                let dt = d.render();
                s.append(dt.as_str());
                s.append(",");
                let vt = v.render();
                s.append(vt.as_str());
            },
            OpCode::Div(r) => {
                s.append("div ");
                s.append(r.name());
            },
            OpCode::Xor(d, x) => {
                s.append("xor ");
                let dt = d.render();
                s.append(dt.as_str());
                s.append(",");
                let xt = x.render();
                s.append(xt.as_str());
            },
            OpCode::Syscall => {
                s.append("syscall");
            },
        }
        proof {
            assert(s@ =~= opcode_text(*self));
        }
        s
    }
}

/// The move-or-zero-via-xor idiom for terminating with an exit code: a
/// literal zero is produced by `xor rdi,rdi` instead of a move of the
/// immediate 0.
pub open spec fn exit_ops(exit_code: Value) -> Seq<OpCode> {
    let mov = if exit_code == Value::Number(0u32) {
        OpCode::Xor(Register::Direct(Reg::Rdi), Register::Direct(Reg::Rdi))
    } else {
        OpCode::Mov(Register::Direct(Reg::Rdi), exit_code)
    };
    seq![
        mov,
        OpCode::Mov(Register::Direct(Reg::Rax), Value::Number(syscall_number(Syscall::Exit))),
        OpCode::Syscall,
    ]
}

/// Materialize a constant into the accumulator, then push it.
pub open spec fn constant_ops(cons: u32) -> Seq<OpCode> {
    seq![
        OpCode::Mov(Register::Direct(Reg::Rax), Value::Number(cons)),
        OpCode::Push(Register::Direct(Reg::Rax)),
    ]
}

/// Stack addition: pop the right operand into rbx, the left into rax,
/// add into rax, push the sum.
pub open spec fn add_ops() -> Seq<OpCode> {
    seq![
        OpCode::Pop(Register::Direct(Reg::Rbx)),
        OpCode::Pop(Register::Direct(Reg::Rax)),
        OpCode::Add(Register::Direct(Reg::Rax), Value::Register(Register::Direct(Reg::Rbx))),
        OpCode::Push(Register::Direct(Reg::Rax)),
    ]
}

/// Immediate addition: `a` in rax, `b` in rbx, add into rax.
pub open spec fn add_v_ops(a: u32, b: u32) -> Seq<OpCode> {
    seq![
        OpCode::Mov(Register::Direct(Reg::Rax), Value::Number(a)),
        OpCode::Mov(Register::Direct(Reg::Rbx), Value::Number(b)),
        OpCode::Add(Register::Direct(Reg::Rax), Value::Register(Register::Direct(Reg::Rbx))),
    ]
}

/// Stack subtraction: pop the right operand into rbx, the left into rax,
/// subtract rbx from rax (left minus right, in source order), push the
/// difference.
pub open spec fn sub_ops() -> Seq<OpCode> {
    seq![
        OpCode::Pop(Register::Direct(Reg::Rbx)),
        OpCode::Pop(Register::Direct(Reg::Rax)),
        OpCode::Sub(Register::Direct(Reg::Rax), Value::Register(Register::Direct(Reg::Rbx))),
        OpCode::Push(Register::Direct(Reg::Rax)),
    ]
}

/// Immediate subtraction computing `a - b`: the left operand `a` goes to
/// rax, the right operand `b` to rbx.
pub open spec fn sub_v_ops(a: u32, b: u32) -> Seq<OpCode> {
    seq![
        OpCode::Mov(Register::Direct(Reg::Rax), Value::Number(a)),
        OpCode::Mov(Register::Direct(Reg::Rbx), Value::Number(b)),
        OpCode::Sub(Register::Direct(Reg::Rax), Value::Register(Register::Direct(Reg::Rbx))),
    ]
}

/// Stack multiplication: pop right into rbx, left into rax, multiply into
/// rax, push the product.
pub open spec fn mul_ops() -> Seq<OpCode> {
    seq![
        OpCode::Pop(Register::Direct(Reg::Rbx)),
        OpCode::Pop(Register::Direct(Reg::Rax)),
        OpCode::Mul(Register::Direct(Reg::Rax), Value::Register(Register::Direct(Reg::Rbx))),
        OpCode::Push(Register::Direct(Reg::Rax)),
    ]
}

/// Immediate multiplication: `a` in rax, `b` in rbx, multiply into rax.
pub open spec fn mul_v_ops(a: u32, b: u32) -> Seq<OpCode> {
    seq![
        OpCode::Mov(Register::Direct(Reg::Rax), Value::Number(a)),
        OpCode::Mov(Register::Direct(Reg::Rbx), Value::Number(b)),
        OpCode::Mul(Register::Direct(Reg::Rax), Value::Register(Register::Direct(Reg::Rbx))),
    ]
}

/// Stack division: pop the right operand (the divisor, on top of the
/// stack) into rbx, the left operand (the dividend) into rax, clear the
/// remainder register rdx, divide by rbx (the divide instruction takes
/// the dividend implicitly from the accumulator pair), push the
/// quotient: left divided by right, in source order.
pub open spec fn div_ops() -> Seq<OpCode> {
    seq![
        OpCode::Pop(Register::Direct(Reg::Rbx)),
        OpCode::Pop(Register::Direct(Reg::Rax)),
        OpCode::Xor(Register::Direct(Reg::Rdx), Register::Direct(Reg::Rdx)),
        OpCode::Div(Reg::Rbx),
        OpCode::Push(Register::Direct(Reg::Rax)),
    ]
}

/// Immediate division computing `a / b`: the dividend `a` goes to the
/// accumulator rax, the divisor `b` to rbx, rdx is cleared before the
/// divide instruction (a hardware requirement of the target's divide).
pub open spec fn div_v_ops(a: u32, b: u32) -> Seq<OpCode> {
    seq![
        OpCode::Mov(Register::Direct(Reg::Rax), Value::Number(a)),
        OpCode::Mov(Register::Direct(Reg::Rbx), Value::Number(b)),
        OpCode::Xor(Register::Direct(Reg::Rdx), Register::Direct(Reg::Rdx)),
        OpCode::Div(Reg::Rbx),
    ]
}

impl OpCode {
    /// Terminate the program with the given exit code, using the
    /// xor-self idiom when the code is the literal zero.
    pub fn exit(exit_code: Value) -> (b: Blob)
        ensures
            b@ == exit_ops(exit_code),
    {
        let is_zero = match &exit_code {
            Value::Number(n) => *n == 0,
            Value::Register(_) => false,
        };
        let mov = if is_zero {
            OpCode::Xor(Register::Direct(Reg::Rdi), Register::Direct(Reg::Rdi))
        } else {
            OpCode::Mov(Register::Direct(Reg::Rdi), exit_code)
        };
        let b = Blob::new(vec![
            mov,
            OpCode::Mov(Register::Direct(Reg::Rax), Value::Number(Syscall::Exit.number())),
            OpCode::Syscall,
        ]);
        proof {
            assert(b@ =~= exit_ops(exit_code));
        }
        b
    }

    /// Push a literal constant onto the evaluation stack.
    pub fn constant(cons: u32) -> (b: Blob)
        ensures
            b@ == constant_ops(cons),
    {
        let b = Blob::new(vec![
            OpCode::Mov(Register::Direct(Reg::Rax), Value::Number(cons)),
            OpCode::Push(Register::Direct(Reg::Rax)),
        ]);
        proof {
            assert(b@ =~= constant_ops(cons));
        }
        b
    }

    /// Add the two topmost stack values and push the sum.
    pub fn add() -> (b: Blob)
        ensures
            b@ == add_ops(),
    {
        let b = Blob::new(vec![
            OpCode::Pop(Register::Direct(Reg::Rbx)),
            OpCode::Pop(Register::Direct(Reg::Rax)),
            OpCode::Add(Register::Direct(Reg::Rax), Value::Register(Register::Direct(Reg::Rbx))),
            OpCode::Push(Register::Direct(Reg::Rax)),
        ]);
        proof {
            assert(b@ =~= add_ops());
        }
        b
    }

    /// Add the immediates `a` and `b` into the accumulator.
    pub fn add_v(a: u32, b: u32) -> (r: Blob)
        ensures
            r@ == add_v_ops(a, b),
    {
        let r = Blob::new(vec![
            OpCode::Mov(Register::Direct(Reg::Rax), Value::Number(a)),
            OpCode::Mov(Register::Direct(Reg::Rbx), Value::Number(b)),
            OpCode::Add(Register::Direct(Reg::Rax), Value::Register(Register::Direct(Reg::Rbx))),
        ]);
        proof {
            assert(r@ =~= add_v_ops(a, b));
        }
        r
    }

    /// Subtract the top of the stack from the value under it and push the
    /// difference (left minus right, in source order).
    pub fn sub() -> (b: Blob)
        ensures
            b@ == sub_ops(),
    {
        let b = Blob::new(vec![
            OpCode::Pop(Register::Direct(Reg::Rbx)),
            OpCode::Pop(Register::Direct(Reg::Rax)),
            OpCode::Sub(Register::Direct(Reg::Rax), Value::Register(Register::Direct(Reg::Rbx))),
            OpCode::Push(Register::Direct(Reg::Rax)),
        ]);
        proof {
            assert(b@ =~= sub_ops());
        }
        b
    }

    /// Compute `a - b` over immediates in the accumulator.
    pub fn sub_v(a: u32, b: u32) -> (r: Blob)
        ensures
            r@ == sub_v_ops(a, b),
    {
        let r = Blob::new(vec![
            OpCode::Mov(Register::Direct(Reg::Rax), Value::Number(a)),
            OpCode::Mov(Register::Direct(Reg::Rbx), Value::Number(b)),
            OpCode::Sub(Register::Direct(Reg::Rax), Value::Register(Register::Direct(Reg::Rbx))),
        ]);
        proof {
            assert(r@ =~= sub_v_ops(a, b));
        }
        r
    }

    /// Multiply the two topmost stack values and push the product.
    pub fn mul() -> (b: Blob)
        ensures
            b@ == mul_ops(),
    {
        let b = Blob::new(vec![
            OpCode::Pop(Register::Direct(Reg::Rbx)),
            OpCode::Pop(Register::Direct(Reg::Rax)),
            OpCode::Mul(Register::Direct(Reg::Rax), Value::Register(Register::Direct(Reg::Rbx))),
            OpCode::Push(Register::Direct(Reg::Rax)),
        ]);
        proof {
            assert(b@ =~= mul_ops());
        }
        b
    }

    /// Multiply the immediates `a` and `b` into the accumulator.
    pub fn mul_v(a: u32, b: u32) -> (r: Blob)
        ensures
            r@ == mul_v_ops(a, b),
    {
        let r = Blob::new(vec![
            OpCode::Mov(Register::Direct(Reg::Rax), Value::Number(a)),
            OpCode::Mov(Register::Direct(Reg::Rbx), Value::Number(b)),
            OpCode::Mul(Register::Direct(Reg::Rax), Value::Register(Register::Direct(Reg::Rbx))),
        ]);
        proof {
            assert(r@ =~= mul_v_ops(a, b));
        }
        r
    }

    /// Divide the value under the top of the stack (the dividend) by the
    /// top (the divisor) and push the quotient.
    pub fn div() -> (b: Blob)
        ensures
            b@ == div_ops(),
    {
        let b = Blob::new(vec![
            OpCode::Pop(Register::Direct(Reg::Rbx)),
            OpCode::Pop(Register::Direct(Reg::Rax)),
            OpCode::Xor(Register::Direct(Reg::Rdx), Register::Direct(Reg::Rdx)),
            OpCode::Div(Reg::Rbx),
            OpCode::Push(Register::Direct(Reg::Rax)),
        ]);
        proof {
            assert(b@ =~= div_ops());
        }
        b
    }

    /// Compute `a / b` over immediates: the dividend `a` is bound to the
    /// accumulator, and rdx is cleared before the divide instruction.
    pub fn div_v(a: u32, b: u32) -> (r: Blob)
        ensures
            r@ == div_v_ops(a, b),
    {
        let r = Blob::new(vec![
            OpCode::Mov(Register::Direct(Reg::Rax), Value::Number(a)),
            OpCode::Mov(Register::Direct(Reg::Rbx), Value::Number(b)),
            OpCode::Xor(Register::Direct(Reg::Rdx), Register::Direct(Reg::Rdx)),
            OpCode::Div(Reg::Rbx),
        ]);
        proof {
            assert(r@ =~= div_v_ops(a, b));
        }
        r
    }
}

/// The notional stack effect of one instruction: a push deepens the
/// evaluation stack by one, a pop shrinks it by one, and every other
/// instruction leaves it unchanged.
pub open spec fn op_stack_delta(op: OpCode) -> int {
    match op {
        OpCode::Push(_) => 1,
        OpCode::Pop(_) => -1,
        _ => 0,
    }
}

/// The net stack effect of an instruction sequence.
pub open spec fn stack_delta(ops: Seq<OpCode>) -> int
    decreases ops.len(),
{
    if ops.len() == 0 {
        0
    } else {
        stack_delta(ops.drop_last()) + op_stack_delta(ops.last())
    }
}

/// Stack balance of the binary operators: each blob emitted for a stack
/// binary operator consumes its two operands and produces one result, a
/// net stack effect of exactly minus one.
pub proof fn lemma_binary_blob_stack_balance()
    ensures
        stack_delta(add_ops()) == -1,
        stack_delta(sub_ops()) == -1,
        stack_delta(mul_ops()) == -1,
        stack_delta(div_ops()) == -1,
{
    reveal_with_fuel(stack_delta, 7);
    assert(add_ops().drop_last().drop_last().drop_last().drop_last() =~= Seq::<OpCode>::empty());
    assert(sub_ops().drop_last().drop_last().drop_last().drop_last() =~= Seq::<OpCode>::empty());
    assert(mul_ops().drop_last().drop_last().drop_last().drop_last() =~= Seq::<OpCode>::empty());
    assert(div_ops().drop_last().drop_last().drop_last().drop_last().drop_last() =~= Seq::<OpCode>::empty());
}

/// A constant blob pushes exactly one value.
pub proof fn lemma_constant_blob_pushes_one(cons: u32)
    ensures
        stack_delta(constant_ops(cons)) == 1,
{
    reveal_with_fuel(stack_delta, 4);
    assert(constant_ops(cons).drop_last().drop_last() =~= Seq::<OpCode>::empty());
}

/// Division emission order: in the immediate-division blob the dividend
/// `a` is the operand bound to the accumulator, and the remainder
/// register is cleared strictly before the divide instruction.
pub proof fn lemma_div_v_layout(a: u32, b: u32)
    ensures
        div_v_ops(a, b)[0] == OpCode::Mov(Register::Direct(Reg::Rax), Value::Number(a)),
        div_v_ops(a, b)[2] == OpCode::Xor(Register::Direct(Reg::Rdx), Register::Direct(Reg::Rdx)),
        div_v_ops(a, b)[3] == OpCode::Div(Reg::Rbx),
{
}

} // verus!

use complox::directives::Directive;
use complox::error::Error;
use complox::ir::Blob;
use complox::ir::Program;
use complox::ir::Section;
use complox::op_code::OpCode;
use complox::op_code::Syscall;
use complox::op_code::Value;
use complox::registers::Reg;
use complox::registers::Register;

#[test]
fn div_v_clears_remainder_before_dividing() {
    // the dividend 6 is bound to the accumulator, and rdx is cleared
    // strictly before the divide instruction
    let b = OpCode::div_v(6, 2);
    assert_eq!(
        b.render(),
        "    mov rax,6\n    mov rbx,2\n    xor rdx,rdx\n    div rbx\n"
    );
}

#[test]
fn stack_division_pops_divisor_then_dividend() {
    // the divisor sits on top of the stack and leaves first, into rbx;
    // the dividend follows into rax, so the divide computes left/right
    let b = OpCode::div();
    assert_eq!(
        b.render(),
        "    pop rbx\n    pop rax\n    xor rdx,rdx\n    div rbx\n    push rax\n"
    );
}

#[test]
fn stack_binary_operators_balance_the_stack() {
    // two pops and one push in each: a net stack effect of minus one
    for b in [OpCode::add(), OpCode::sub(), OpCode::mul(), OpCode::div()] {
        let text = b.render();
        let pushes = text.matches("push").count();
        let pops = text.matches("pop").count();
        assert_eq!(pops - pushes, 1);
    }
}

#[test]
fn addition_idiom() {
    assert_eq!(
        OpCode::add().render(),
        "    pop rbx\n    pop rax\n    add rax,rbx\n    push rax\n"
    );
    assert_eq!(
        OpCode::add_v(2, 3).render(),
        "    mov rax,2\n    mov rbx,3\n    add rax,rbx\n"
    );
}

#[test]
fn subtraction_keeps_source_order() {
    // sub_v(a, b) computes a - b: the left operand goes to rax
    assert_eq!(
        OpCode::sub_v(9, 4).render(),
        "    mov rax,9\n    mov rbx,4\n    sub rax,rbx\n"
    );
    assert_eq!(
        OpCode::sub().render(),
        "    pop rbx\n    pop rax\n    sub rax,rbx\n    push rax\n"
    );
}

#[test]
fn multiplication_uses_imul() {
    assert_eq!(
        OpCode::mul_v(5, 7).render(),
        "    mov rax,5\n    mov rbx,7\n    imul rax,rbx\n"
    );
}

#[test]
fn constant_materializes_and_pushes() {
    assert_eq!(OpCode::constant(42).render(), "    mov rax,42\n    push rax\n");
}

#[test]
fn exit_zero_uses_the_xor_idiom() {
    assert_eq!(
        OpCode::exit(Value::Number(0)).render(),
        "    xor rdi,rdi\n    mov rax,60\n    syscall\n"
    );
}

#[test]
fn exit_nonzero_moves_the_code() {
    assert_eq!(
        OpCode::exit(Value::Number(3)).render(),
        "    mov rdi,3\n    mov rax,60\n    syscall\n"
    );
}

#[test]
fn syscall_numbers() {
    assert_eq!(Syscall::Write.number(), 1);
    assert_eq!(Syscall::Exit.number(), 60);
}

#[test]
fn directive_rendering_covers_all_shapes() {
    assert_eq!(Directive::qword(Reg::Rax, true, Some(8)).render(), "QWORD [rax+8]");
    assert_eq!(Directive::dword(Reg::Rbx, false, Some(4)).render(), "DWORD rbx+4");
    assert_eq!(Directive::word(Reg::Rcx, true, None).render(), "WORD [rcx]");
    assert_eq!(Directive::byte(Reg::Al, false, None).render(), "BYTE al");
}

#[test]
fn register_operand_rendering() {
    assert_eq!(Register::Direct(Reg::R15).render(), "r15");
    assert_eq!(Register::Deref(Reg::Rsp).render(), "[rsp]");
    assert_eq!(
        Register::Mem(Directive::qword(Reg::Rbp, true, Some(16))).render(),
        "QWORD [rbp+16]"
    );
}

#[test]
fn mov_from_memory_reference() {
    let op = OpCode::Mov(
        Register::Direct(Reg::Rax),
        Value::Register(Register::Mem(Directive::qword(Reg::Rbp, true, Some(8)))),
    );
    assert_eq!(op.render(), "mov rax,QWORD [rbp+8]");
}

#[test]
fn program_renders_header_label_and_blobs() {
    let start = Section::new("_start", vec![OpCode::constant(7), OpCode::exit(Value::Number(0))]);
    let p = Program::new(None, vec![start]);
    assert_eq!(
        p.render(),
        "section .text\n  global _start\n_start:\n    mov rax,7\n    push rax\n\n    xor rdi,rdi\n    mov rax,60\n    syscall\n\n"
    );
}

#[test]
fn program_renders_data_section_blobs() {
    let data = Section::new("ignored", vec![Blob::new(vec![OpCode::Syscall])]);
    let text = Section::new("_start", vec![OpCode::exit(Value::Number(1))]);
    let p = Program::new(Some(data), vec![text]);
    assert_eq!(
        p.render(),
        "section .data\n    syscall\n\nsection .text\n  global _start\n_start:\n    mov rdi,1\n    mov rax,60\n    syscall\n\n"
    );
}

#[test]
fn rendering_is_deterministic() {
    // byte-identical assembly from the same program value, twice
    let mk = || {
        Program::new(
            None,
            vec![Section::new(
                "_start",
                vec![OpCode::constant(1), OpCode::constant(2), OpCode::add(), OpCode::exit(
                    Value::Number(0),
                )],
            )],
        )
    };
    assert_eq!(mk().render(), mk().render());
    let one = mk();
    assert_eq!(one.render(), one.render());
}

#[test]
fn error_rendering_format() {
    let e = Error::new("Something broke", " at end", 42);
    assert_eq!(e.render(), "[line 42] Error  at end: Something broke");
    assert_eq!(complox::error::usize_to_decimal(0), "0");
    assert_eq!(complox::error::usize_to_decimal(1234567890), "1234567890");
}

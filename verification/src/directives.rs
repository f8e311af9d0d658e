//! Size-directed memory references: a register with an optional byte
//! offset, optionally dereferenced, under a byte-size directive.

use vstd::prelude::*;
use vstd::string::StringExecFns;
use crate::error::dec_str;
use crate::error::usize_to_decimal;
use crate::registers::Reg;
use crate::registers::reg_text;

verus! {

/// A memory reference under a size directive.
#[derive(Debug, Clone)]
pub enum Directive {
    /// Eight bits
    Byte { register: Reg, deref: bool, offset: Option<u32> },
    /// Two bytes
    Word { register: Reg, deref: bool, offset: Option<u32> },
    /// Two words
    DWord { register: Reg, deref: bool, offset: Option<u32> },
    /// Two double words
    QWord { register: Reg, deref: bool, offset: Option<u32> },
}

/// The register-with-offset part of a memory reference: `[reg+off]`,
/// `reg+off`, `[reg]` or `reg`, by whether an offset is given and whether
/// the reference is dereferenced.
pub open spec fn mem_text(register: Reg, deref: bool, offset: Option<u32>) -> Seq<char> {
    match offset {
        Some(o) => if deref {
            "["@ + reg_text(register) + "+"@ + dec_str(o as nat) + "]"@
        } else {
            reg_text(register) + "+"@ + dec_str(o as nat)
        },
        None => if deref {
            "["@ + reg_text(register) + "]"@
        } else {
            reg_text(register)
        },
    }
}

/// The assembly text of a size-directed memory reference: the size word,
/// a space, and the register-with-offset part.
pub open spec fn directive_text(d: Directive) -> Seq<char> {
    match d {
        Directive::Byte { register, deref, offset } => "BYTE "@ + mem_text(register, deref, offset),
        Directive::Word { register, deref, offset } => "WORD "@ + mem_text(register, deref, offset),
        Directive::DWord { register, deref, offset } => "DWORD "@ + mem_text(register, deref, offset),
        Directive::QWord { register, deref, offset } => "QWORD "@ + mem_text(register, deref, offset),
    }
}

fn render_mem(register: Reg, deref: bool, offset: Option<u32>) -> (r: String)
    ensures
        r@ == mem_text(register, deref, offset),
{
    let mut s = String::new();
    match offset {
        Some(o) => {
            if deref {
                s.append("[");
            }
            s.append(register.name());
            s.append("+");
            let off = usize_to_decimal(o as usize);
            s.append(off.as_str());
            if deref {
                s.append("]");
            }
        },
        None => {
            if deref {
                s.append("[");
            }
            s.append(register.name());
            if deref {
                s.append("]");
            }
        },
    }
    proof {
        assert(s@ =~= mem_text(register, deref, offset));
    }
    s
}

impl Directive {
    pub fn qword(register: Reg, deref: bool, offset: Option<u32>) -> (d: Directive)
        ensures
            d == (Directive::QWord { register, deref, offset }),
    {
        Directive::QWord { register, deref, offset }
    }

    pub fn dword(register: Reg, deref: bool, offset: Option<u32>) -> (d: Directive)
        ensures
            d == (Directive::DWord { register, deref, offset }),
    {
        Directive::DWord { register, deref, offset }
    }

    pub fn word(register: Reg, deref: bool, offset: Option<u32>) -> (d: Directive)
        ensures
            d == (Directive::Word { register, deref, offset }),
    {
        Directive::Word { register, deref, offset }
    }

    pub fn byte(register: Reg, deref: bool, offset: Option<u32>) -> (d: Directive)
        ensures
            d == (Directive::Byte { register, deref, offset }),
    {
        Directive::Byte { register, deref, offset }
    }

    /// Renders this memory reference as assembly text.
    pub fn render(&self) -> (r: String)
        ensures
            r@ == directive_text(*self),
    {
        let mut s = String::new();
        match self {
            Directive::Byte { register, deref, offset } => {
                s.append("BYTE ");
                let m = render_mem(*register, *deref, *offset);
                s.append(m.as_str());
            },
            Directive::Word { register, deref, offset } => {
                s.append("WORD ");
                let m = render_mem(*register, *deref, *offset);
                s.append(m.as_str());
            },
            Directive::DWord { register, deref, offset } => {
                s.append("DWORD ");
                let m = render_mem(*register, *deref, *offset);
                s.append(m.as_str());
            },
            Directive::QWord { register, deref, offset } => {
                s.append("QWORD ");
                let m = render_mem(*register, *deref, *offset);
                s.append(m.as_str());
            },
        }
        proof {
            assert(s@ =~= directive_text(*self));
        }
        s
    }
}

} // verus!

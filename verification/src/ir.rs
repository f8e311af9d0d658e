//! The shape of an emitted program: blobs of instructions, named
//! sections, and the whole program with its optional data section; and
//! the rendering of each as NASM-style assembly text.

use vstd::prelude::*;
use vstd::string::StringExecFns;
use crate::op_code::OpCode;
use crate::op_code::opcode_text;

verus! {

/// An ordered group of instructions realizing one logical operation of
/// the emitted assembly (one push-constant, one binary add, ...).
#[derive(Debug, Clone)]
pub struct Blob {
    ops: Vec<OpCode>,
}

impl View for Blob {
    type V = Seq<OpCode>;

    closed spec fn view(&self) -> Seq<OpCode> {
        self.ops@
    }
}

/// The text of one blob: each instruction on a line of its own, indented
/// by four spaces.
pub open spec fn blob_text(ops: Seq<OpCode>) -> Seq<char>
    decreases ops.len(),
{
    if ops.len() == 0 {
        Seq::empty()
    } else {
        blob_text(ops.drop_last()) + "    "@ + opcode_text(ops.last()) + "\n"@
    }
}

impl Blob {
    pub fn new(ops: Vec<OpCode>) -> (b: Blob)
        ensures
            b@ == ops@,
    {
        Blob { ops }
    }

    /// Renders this blob: one instruction per line, indented.
    pub fn render(&self) -> (r: String)
        ensures
            r@ == blob_text(self@),
    {
        let mut s = String::new();
        let mut i: usize = 0;
        while i < self.ops.len()
            invariant
                i <= self.ops.len(),
                s@ == blob_text(self.ops@.take(i as int)),
            decreases self.ops.len() - i,
        {
            s.append("    ");
            let t = self.ops[i].render();
            s.append(t.as_str());
            s.append("\n");
            i = i + 1;
            proof {
                let pre = self.ops@.take(i as int);
                assert(pre.drop_last() =~= self.ops@.take(i as int - 1));
                assert(pre.last() == self.ops@[i as int - 1]);
            }
        }
        proof {
            assert(self.ops@.take(self.ops@.len() as int) =~= self.ops@);
        }
        s
    }
}

/// Mathematical image of a [`Section`]: its label and the instruction
/// sequences of its blobs.
pub struct SectionModel {
    pub name: Seq<char>,
    pub code: Seq<Seq<OpCode>>,
}

/// A named, ordered list of blobs, rendered as a label followed by the
/// blobs in order.
#[derive(Debug, Clone)]
pub struct Section {
    name: String,
    code: Vec<Blob>,
}

impl View for Section {
    type V = SectionModel;

    closed spec fn view(&self) -> SectionModel {
        SectionModel { name: self.name@, code: self.code@.map_values(|b: Blob| b@) }
    }
}

/// The text of a run of blobs: each blob's text followed by a blank
/// separating line.
pub open spec fn blobs_text(blobs: Seq<Seq<OpCode>>) -> Seq<char>
    decreases blobs.len(),
{
    if blobs.len() == 0 {
        Seq::empty()
    } else {
        blobs_text(blobs.drop_last()) + blob_text(blobs.last()) + "\n"@
    }
}

/// The text of a section: its name as a label, then its blobs.
pub open spec fn section_text(m: SectionModel) -> Seq<char> {
    m.name + ":\n"@ + blobs_text(m.code)
}

fn render_blobs(code: &Vec<Blob>) -> (r: String)
    ensures
        r@ == blobs_text(code@.map_values(|b: Blob| b@)),
{
    let ghost views = code@.map_values(|b: Blob| b@);
    let mut s = String::new();
    let mut i: usize = 0;
    while i < code.len()
        invariant
            i <= code.len(),
            views == code@.map_values(|b: Blob| b@),
            s@ == blobs_text(views.take(i as int)),
        decreases code.len() - i,
    {
        let t = code[i].render();
        s.append(t.as_str());
        s.append("\n");
        i = i + 1;
        proof {
            let pre = views.take(i as int);
            assert(pre.drop_last() =~= views.take(i as int - 1));
            assert(pre.last() == code@[i as int - 1]@);
        }
    }
    proof {
        assert(views.take(views.len() as int) =~= views);
    }
    s
}

impl Section {
    pub fn new(name: &str, code: Vec<Blob>) -> (s: Section)
        ensures
            s@ == (SectionModel { name: name@, code: code@.map_values(|b: Blob| b@) }),
    {
        Section { name: String::from_str(name), code }
    }

    /// Renders this section: the label line, then each blob followed by a
    /// blank line.
    pub fn render(&self) -> (r: String)
        ensures
            r@ == section_text(self@),
    {
        let mut s = String::from_str(self.name.as_str());
        s.append(":\n");
        let body = render_blobs(&self.code);
        s.append(body.as_str());
        proof {
            assert(s@ =~= section_text(self@));
        }
        s
    }
}

/// Mathematical image of a [`Program`].
pub struct ProgramModel {
    pub data: Option<SectionModel>,
    pub text: Seq<SectionModel>,
}

/// A whole program: an optional data section and the ordered text
/// sections.
#[derive(Debug, Clone)]
pub struct Program {
    data: Option<Section>,
    text: Vec<Section>,
}

impl View for Program {
    type V = ProgramModel;

    closed spec fn view(&self) -> ProgramModel {
        ProgramModel {
            data: match self.data {
                Some(s) => Some(s@),
                None => None,
            },
            text: self.text@.map_values(|s: Section| s@),
        }
    }
}

/// The text of a run of sections, in order.
pub open spec fn sections_text(sections: Seq<SectionModel>) -> Seq<char>
    decreases sections.len(),
{
    if sections.len() == 0 {
        Seq::empty()
    } else {
        sections_text(sections.drop_last()) + section_text(sections.last())
    }
}

/// The text of a whole program: the data section's blobs if one is
/// given, then the text header with its `global _start` line, then the
/// text sections in order. Rendering is pure text production: no step of
/// it can fail once the program value is constructed.
pub open spec fn program_text(m: ProgramModel) -> Seq<char> {
    let data_part = match m.data {
        Some(s) => "section .data\n"@ + blobs_text(s.code),
        None => Seq::<char>::empty(),
    };
    data_part + "section .text\n"@ + "  global _start\n"@ + sections_text(m.text)
}

impl Program {
    pub fn new(data: Option<Section>, text: Vec<Section>) -> (p: Program)
        ensures
            p@.data == (match data {
                Some(s) => Some(s@),
                None => None::<SectionModel>,
            }),
            p@.text == text@.map_values(|s: Section| s@),
    {
        Program { data, text }
    }

    /// Renders the whole program as assembly text.
    pub fn render(&self) -> (r: String)
        ensures
            r@ == program_text(self@),
    {
        let mut s = String::new();
        match &self.data {
            Some(sec) => {
                s.append("section .data\n");
                let body = render_blobs(&sec.code);
                s.append(body.as_str());
            },
            None => {},
        }
        s.append("section .text\n");
        s.append("  global _start\n");
        let ghost views = self.text@.map_values(|sc: Section| sc@);
        let mut i: usize = 0;
        while i < self.text.len()
            invariant
                i <= self.text.len(),
                views == self.text@.map_values(|sc: Section| sc@),
                s@ == (match self@.data {
                    Some(d) => "section .data\n"@ + blobs_text(d.code),
                    None => Seq::<char>::empty(),
                }) + "section .text\n"@ + "  global _start\n"@ + sections_text(views.take(i as int)),
            decreases self.text.len() - i,
        {
            let t = self.text[i].render();
            s.append(t.as_str());
            i = i + 1;
            proof {
                let pre = views.take(i as int);
                assert(pre.drop_last() =~= views.take(i as int - 1));
                assert(pre.last() == self.text@[i as int - 1]@);
            }
        }
        proof {
            assert(views.take(views.len() as int) =~= views);
            assert(s@ =~= program_text(self@));
        }
        s
    }
}

/// Code generation is deterministic: the rendering of a program is a
/// function of the program value alone, so rendering equal programs
/// (in particular, rendering one program twice) yields byte-identical
/// assembly text.
pub proof fn lemma_render_deterministic(p1: ProgramModel, p2: ProgramModel)
    requires
        p1 == p2,
    ensures
        program_text(p1) == program_text(p2),
{
}

} // verus!

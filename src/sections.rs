//! The entries of a module's sections, their encodings, and the section
//! encoders: each section is its id, the length of its payload in unsigned
//! LEB128, and the payload.
use crate::instr::Expr;
use crate::leb::{leb_framed, lemma_uleb_round_trip, uleb, uleb_value};
use crate::types::{
    append_bytes, byte_vec, concat, encode_index_vec, encode_len, encode_name, encode_u32,
    encode_val_type, encode_vec, index_vec, lemma_concat_step, name_encoding, FunctionType,
    GlobalType, MemoryType, TableType, ValType,
};
use vstd::prelude::*;

verus! {

pub type LabelIdx = u32;

pub type FuncIdx = u32;

pub type TypeIdx = u32;

pub type LocalIdx = u32;

pub type GlobalIdx = u32;

pub type MemoryIdx = u32;

pub type TableIdx = u32;

/// The kinds of section, in the order in which a module holds them (the
/// custom section aside).
#[derive(Debug, Copy, Clone)]
pub enum Section {
    Custom,
    Type,
    Import,
    Function,
    Table,
    Memory,
    Global,
    Export,
    Start,
    Element,
    Code,
    Data,
}

impl Section {
    /// The one-byte id of the section.
    pub open spec fn id(self) -> u8 {
        match self {
            Section::Custom => 0,
            Section::Type => 1,
            Section::Import => 2,
            Section::Function => 3,
            Section::Table => 4,
            Section::Memory => 5,
            Section::Global => 6,
            Section::Export => 7,
            Section::Start => 8,
            Section::Element => 9,
            Section::Code => 10,
            Section::Data => 11,
        }
    }

    /// The one-byte id of the section, as `id` gives it.
    pub fn id_byte(&self) -> (r: u8)
        ensures
            r == self.id(),
    {
        match self {
            Section::Custom => 0,
            Section::Type => 1,
            Section::Import => 2,
            Section::Function => 3,
            Section::Table => 4,
            Section::Memory => 5,
            Section::Global => 6,
            Section::Export => 7,
            Section::Start => 8,
            Section::Element => 9,
            Section::Code => 10,
            Section::Data => 11,
        }
    }
}

/// A framed section: its id, the payload's length in unsigned LEB128, the
/// payload.
pub open spec fn section_frame(id: u8, payload: Seq<u8>) -> Seq<u8> {
    seq![id] + uleb(payload.len()) + payload
}

/// A framed section is its id, then a framed unsigned LEB128 number whose
/// value is the number of bytes in the payload, then exactly the payload.
pub proof fn lemma_section_frame(id: u8, payload: Seq<u8>)
    ensures
        ({
            let f = section_frame(id, payload);
            let k = uleb(payload.len()).len() as int;
            &&& f[0] == id
            &&& leb_framed(f.subrange(1, 1 + k))
            &&& uleb_value(f.subrange(1, 1 + k)) == payload.len()
            &&& f.subrange(1 + k, f.len() as int) == payload
        }),
{
    let f = section_frame(id, payload);
    let k = uleb(payload.len()).len() as int;
    lemma_uleb_round_trip(payload.len());
    assert(f.subrange(1, 1 + k) =~= uleb(payload.len()));
    assert(f.subrange(1 + k, f.len() as int) =~= payload);
}

/// A vector of entries: their number, then the encoding `f(x)` of each.
pub open spec fn vec_of<T>(s: Seq<T>, f: spec_fn(T) -> Seq<u8>) -> Seq<u8> {
    uleb(s.len()) + concat(s, f)
}

/// What an import or an export refers to.
#[derive(Debug, Copy, Clone)]
pub enum Desc {
    /// A function index
    Function(TypeIdx),
    /// A table
    Table(TableType),
    /// A memory
    Memory(MemoryType),
    /// A global
    Global(GlobalType),
}

impl Desc {
    /// The kind byte `0x00`..`0x03`, then the index or the type.
    pub open spec fn encoding(self) -> Seq<u8> {
        match self {
            Desc::Function(func) => seq![0x00u8] + uleb(func as nat),
            Desc::Table(table) => seq![0x01u8] + table.encoding(),
            Desc::Memory(mem) => seq![0x02u8] + mem.encoding(),
            Desc::Global(global) => seq![0x03u8] + global.encoding(),
        }
    }

    /// Appends the encoding of the descriptor.
    pub fn encode(&self, out: &mut Vec<u8>)
        ensures
            final(out)@ == old(out)@ + self.encoding(),
    {
        match self {
            Desc::Function(func) => {
                out.push(0x00);
                encode_u32(out, *func);
            },
            Desc::Table(table) => {
                out.push(0x01);
                table.encode(out);
            },
            Desc::Memory(mem) => {
                out.push(0x02);
                mem.encode(out);
            },
            Desc::Global(global) => {
                out.push(0x03);
                global.encode(out);
            },
        }
        assert(out@ =~= old(out)@ + self.encoding());
    }
}

/// An import that the module needs at instantiation.
#[derive(Debug, Clone)]
pub struct Import {
    /// The module name
    pub module: String,
    /// The import name
    pub name: String,
    /// The import itself
    pub desc: Desc,
}

impl Import {
    /// The module name, the import name, the descriptor.
    pub open spec fn encoding(self) -> Seq<u8> {
        name_encoding(self.module@) + name_encoding(self.name@) + self.desc.encoding()
    }

    /// Appends the encoding of the import.
    pub fn encode(&self, out: &mut Vec<u8>)
        ensures
            final(out)@ == old(out)@ + self.encoding(),
    {
        encode_name(out, self.module.as_str());
        encode_name(out, self.name.as_str());
        self.desc.encode(out);
        assert(out@ =~= old(out)@ + self.encoding());
    }
}

/// A global variable.
#[derive(Debug, Clone)]
pub struct Global {
    /// The type of the global
    pub ty: GlobalType,
    /// The init expression of the global
    pub init: Expr,
}

impl Global {
    /// The global type, then the init expression.
    pub open spec fn encoding(self) -> Seq<u8> {
        self.ty.encoding() + self.init.encoding()
    }

    /// The init expression can be encoded.
    pub open spec fn wf(self) -> bool {
        self.init.wf()
    }

    /// Appends the encoding of the global.
    pub fn encode(&self, out: &mut Vec<u8>)
        requires
            self.wf(),
        ensures
            final(out)@ == old(out)@ + self.encoding(),
    {
        self.ty.encode(out);
        self.init.encode(out);
        assert(out@ =~= old(out)@ + self.encoding());
    }
}

/// An export, visible to the host once the module is instantiated.
#[derive(Debug, Clone)]
pub struct Export {
    /// The name of the export
    pub name: String,
    /// The export itself
    pub desc: Desc,
}

impl Export {
    /// The name, then the descriptor.
    pub open spec fn encoding(self) -> Seq<u8> {
        name_encoding(self.name@) + self.desc.encoding()
    }

    /// Appends the encoding of the export.
    pub fn encode(&self, out: &mut Vec<u8>)
        ensures
            final(out)@ == old(out)@ + self.encoding(),
    {
        encode_name(out, self.name.as_str());
        self.desc.encode(out);
        assert(out@ =~= old(out)@ + self.encoding());
    }
}

/// An element segment: initializes a range of a table with function indices.
#[derive(Debug, Clone)]
pub struct Element {
    /// The table being initialized
    pub table: TableIdx,
    /// The expression that gives the offset into the table
    pub offset: Expr,
    /// The data to fill the subrange
    pub init: Vec<FuncIdx>,
}

impl Element {
    /// The table index, the offset expression, the vector of function
    /// indices.
    pub open spec fn encoding(self) -> Seq<u8> {
        uleb(self.table as nat) + self.offset.encoding() + index_vec(self.init@)
    }

    /// The offset expression can be encoded.
    pub open spec fn wf(self) -> bool {
        self.offset.wf()
    }

    /// Appends the encoding of the element segment.
    pub fn encode(&self, out: &mut Vec<u8>)
        requires
            self.wf(),
        ensures
            final(out)@ == old(out)@ + self.encoding(),
    {
        encode_u32(out, self.table);
        self.offset.encode(out);
        encode_index_vec(out, self.init.as_slice());
        assert(out@ =~= old(out)@ + self.encoding());
    }
}

/// `n` locals of one type.
#[derive(Debug, Clone)]
pub struct Local {
    /// How many locals of this type
    pub n: u32,
    /// The type of the locals
    pub ty: ValType,
}

impl Local {
    /// The count, then the type's tag.
    pub open spec fn encoding(self) -> Seq<u8> {
        uleb(self.n as nat) + seq![self.ty.tag()]
    }

    /// Appends the encoding of the locals.
    pub fn encode(&self, out: &mut Vec<u8>)
        ensures
            final(out)@ == old(out)@ + self.encoding(),
    {
        encode_u32(out, self.n);
        encode_val_type(out, self.ty);
        assert(out@ =~= old(out)@ + self.encoding());
    }
}

/// A function body: its locals and its code.
#[derive(Debug, Clone)]
pub struct Function {
    /// The functions locals
    pub locals: Vec<Local>,
    /// The function body
    pub body: Expr,
}

impl Function {
    /// The vector of locals, then the body.
    pub open spec fn encoding(self) -> Seq<u8> {
        vec_of(self.locals@, |l: Local| l.encoding()) + self.body.encoding()
    }

    /// The body can be encoded.
    pub open spec fn wf(self) -> bool {
        self.body.wf()
    }

    /// Appends the encoding of the function and returns its length.
    pub fn encode(&self, out: &mut Vec<u8>) -> (n: usize)
        requires
            self.wf(),
        ensures
            final(out)@ == old(out)@ + self.encoding(),
            n == self.encoding().len(),
    {
        let start = out.len();
        let mut buf: Vec<u8> = Vec::new();
        let mut i: usize = 0;
        while i < self.locals.len()
            invariant
                i <= self.locals@.len(),
                buf@ == concat(self.locals@.subrange(0, i as int), |l: Local| l.encoding()),
            decreases self.locals@.len() - i,
        {
            self.locals[i].encode(&mut buf);
            proof {
                lemma_concat_step(self.locals@, |l: Local| l.encoding(), i as int);
            }
            i = i + 1;
        }
        assert(self.locals@.subrange(0, self.locals@.len() as int) =~= self.locals@);
        encode_vec(out, buf.as_slice(), self.locals.len());
        self.body.encode(out);
        assert(out@ =~= old(out)@ + self.encoding());
        out.len() - start
    }
}

/// A data segment: initializes a range of a memory with bytes.
#[derive(Debug, Clone)]
pub struct Data<'a> {
    /// The memory being initialized
    pub mem: MemoryIdx,
    /// The offset into the memory
    pub offset: Expr,
    /// The data to initialize the subrange with
    pub init: &'a [u8],
}

impl<'a> Data<'a> {
    /// The memory index, the offset expression, the bytes as a byte vector.
    pub open spec fn encoding(self) -> Seq<u8> {
        uleb(self.mem as nat) + self.offset.encoding() + byte_vec(self.init@)
    }

    /// The offset expression can be encoded.
    pub open spec fn wf(self) -> bool {
        self.offset.wf()
    }

    /// Appends the encoding of the data segment.
    pub fn encode(&self, out: &mut Vec<u8>)
        requires
            self.wf(),
        ensures
            final(out)@ == old(out)@ + self.encoding(),
    {
        encode_u32(out, self.mem);
        self.offset.encode(out);
        encode_vec(out, self.init, self.init.len());
        assert(out@ =~= old(out)@ + self.encoding());
    }
}

/// A code entry: the function's encoding as a byte vector, so that its size
/// comes first.
pub open spec fn code_entry(f: Function) -> Seq<u8> {
    byte_vec(f.encoding())
}

/// Appends the id of a section and the length of its payload.
pub fn encode_section_header(out: &mut Vec<u8>, id: Section, size: usize)
    ensures
        final(out)@ == old(out)@ + seq![id.id()] + uleb(size as nat),
{
    out.push(id.id_byte());
    encode_len(out, size);
    assert(out@ =~= old(out)@ + seq![id.id()] + uleb(size as nat));
}

/// Appends the section `id` whose payload is `payload`.
fn encode_framed(out: &mut Vec<u8>, id: Section, payload: &[u8])
    ensures
        final(out)@ == old(out)@ + section_frame(id.id(), payload@),
{
    encode_section_header(out, id, payload.len());
    append_bytes(out, payload);
    assert(out@ =~= old(out)@ + section_frame(id.id(), payload@));
}

/// Appends the section `id` whose payload is a vector of `count` entries
/// already encoded in `entries`.
fn encode_vec_section(out: &mut Vec<u8>, id: Section, count: usize, entries: &[u8])
    ensures
        final(out)@ == old(out)@ + section_frame(id.id(), uleb(count as nat) + entries@),
{
    let mut data: Vec<u8> = Vec::new();
    encode_vec(&mut data, entries, count);
    assert(data@ =~= uleb(count as nat) + entries@);
    encode_framed(out, id, data.as_slice());
}

/// Appends a custom section: the name, then the raw bytes.
pub fn encode_custom_section(out: &mut Vec<u8>, name: &str, data: &[u8])
    ensures
        final(out)@ == old(out)@ + section_frame(0, name_encoding(name@) + data@),
{
    let mut buf: Vec<u8> = Vec::new();
    encode_name(&mut buf, name);
    append_bytes(&mut buf, data);
    encode_framed(out, Section::Custom, buf.as_slice());
}

/// Appends the type section.
pub fn encode_type_section(out: &mut Vec<u8>, section: &[FunctionType])
    ensures
        final(out)@ == old(out)@ + section_frame(1, vec_of(section@, |t: FunctionType| t.encoding())),
{
    let mut buf: Vec<u8> = Vec::new();
    let mut i: usize = 0;
    while i < section.len()
        invariant
            i <= section@.len(),
            buf@ == concat(section@.subrange(0, i as int), |t: FunctionType| t.encoding()),
        decreases section@.len() - i,
    {
        section[i].encode(&mut buf);
        proof {
            lemma_concat_step(section@, |t: FunctionType| t.encoding(), i as int);
        }
        i = i + 1;
    }
    assert(section@.subrange(0, section@.len() as int) =~= section@);
    encode_vec_section(out, Section::Type, section.len(), buf.as_slice());
}

/// Appends the import section.
pub fn encode_import_section(out: &mut Vec<u8>, section: &[Import])
    ensures
        final(out)@ == old(out)@ + section_frame(2, vec_of(section@, |t: Import| t.encoding())),
{
    let mut buf: Vec<u8> = Vec::new();
    let mut i: usize = 0;
    while i < section.len()
        invariant
            i <= section@.len(),
            buf@ == concat(section@.subrange(0, i as int), |t: Import| t.encoding()),
        decreases section@.len() - i,
    {
        section[i].encode(&mut buf);
        proof {
            lemma_concat_step(section@, |t: Import| t.encoding(), i as int);
        }
        i = i + 1;
    }
    assert(section@.subrange(0, section@.len() as int) =~= section@);
    encode_vec_section(out, Section::Import, section.len(), buf.as_slice());
}

/// Appends the function section: the type index of each function.
pub fn encode_function_section(out: &mut Vec<u8>, section: &[TypeIdx])
    ensures
        final(out)@ == old(out)@ + section_frame(3, index_vec(section@)),
{
    let mut data: Vec<u8> = Vec::new();
    encode_index_vec(&mut data, section);
    encode_framed(out, Section::Function, data.as_slice());
}

/// Appends the table section.
pub fn encode_table_section(out: &mut Vec<u8>, section: &[TableType])
    ensures
        final(out)@ == old(out)@ + section_frame(4, vec_of(section@, |t: TableType| t.encoding())),
{
    let mut buf: Vec<u8> = Vec::new();
    let mut i: usize = 0;
    while i < section.len()
        invariant
            i <= section@.len(),
            buf@ == concat(section@.subrange(0, i as int), |t: TableType| t.encoding()),
        decreases section@.len() - i,
    {
        section[i].encode(&mut buf);
        proof {
            lemma_concat_step(section@, |t: TableType| t.encoding(), i as int);
        }
        i = i + 1;
    }
    assert(section@.subrange(0, section@.len() as int) =~= section@);
    encode_vec_section(out, Section::Table, section.len(), buf.as_slice());
}

/// Appends the memory section.
pub fn encode_memory_section(out: &mut Vec<u8>, section: &[MemoryType])
    ensures
        final(out)@ == old(out)@ + section_frame(5, vec_of(section@, |t: MemoryType| t.encoding())),
{
    let mut buf: Vec<u8> = Vec::new();
    let mut i: usize = 0;
    while i < section.len()
        invariant
            i <= section@.len(),
            buf@ == concat(section@.subrange(0, i as int), |t: MemoryType| t.encoding()),
        decreases section@.len() - i,
    {
        section[i].encode(&mut buf);
        proof {
            lemma_concat_step(section@, |t: MemoryType| t.encoding(), i as int);
        }
        i = i + 1;
    }
    assert(section@.subrange(0, section@.len() as int) =~= section@);
    encode_vec_section(out, Section::Memory, section.len(), buf.as_slice());
}

/// Appends the global section.
pub fn encode_global_section(out: &mut Vec<u8>, section: &[Global])
    requires
        forall|k: int| 0 <= k < section@.len() ==> (#[trigger] section@[k]).wf(),
    ensures
        final(out)@ == old(out)@ + section_frame(6, vec_of(section@, |t: Global| t.encoding())),
{
    let mut buf: Vec<u8> = Vec::new();
    let mut i: usize = 0;
    while i < section.len()
        invariant
            i <= section@.len(),
            forall|k: int| 0 <= k < section@.len() ==> (#[trigger] section@[k]).wf(),
            buf@ == concat(section@.subrange(0, i as int), |t: Global| t.encoding()),
        decreases section@.len() - i,
    {
        section[i].encode(&mut buf);
        proof {
            lemma_concat_step(section@, |t: Global| t.encoding(), i as int);
        }
        i = i + 1;
    }
    assert(section@.subrange(0, section@.len() as int) =~= section@);
    encode_vec_section(out, Section::Global, section.len(), buf.as_slice());
}

/// Appends the export section.
pub fn encode_export_section(out: &mut Vec<u8>, section: &[Export])
    ensures
        final(out)@ == old(out)@ + section_frame(7, vec_of(section@, |t: Export| t.encoding())),
{
    let mut buf: Vec<u8> = Vec::new();
    let mut i: usize = 0;
    while i < section.len()
        invariant
            i <= section@.len(),
            buf@ == concat(section@.subrange(0, i as int), |t: Export| t.encoding()),
        decreases section@.len() - i,
    {
        section[i].encode(&mut buf);
        proof {
            lemma_concat_step(section@, |t: Export| t.encoding(), i as int);
        }
        i = i + 1;
    }
    assert(section@.subrange(0, section@.len() as int) =~= section@);
    encode_vec_section(out, Section::Export, section.len(), buf.as_slice());
}

/// Appends the start section: the start function's index alone, not a
/// vector.
pub fn encode_start_section(out: &mut Vec<u8>, start: FuncIdx)
    ensures
        final(out)@ == old(out)@ + section_frame(8, uleb(start as nat)),
{
    let mut buf: Vec<u8> = Vec::new();
    encode_u32(&mut buf, start);
    encode_framed(out, Section::Start, buf.as_slice());
}

/// Appends the element section.
pub fn encode_element_section(out: &mut Vec<u8>, section: &[Element])
    requires
        forall|k: int| 0 <= k < section@.len() ==> (#[trigger] section@[k]).wf(),
    ensures
        final(out)@ == old(out)@ + section_frame(9, vec_of(section@, |t: Element| t.encoding())),
{
    let mut buf: Vec<u8> = Vec::new();
    let mut i: usize = 0;
    while i < section.len()
        invariant
            i <= section@.len(),
            forall|k: int| 0 <= k < section@.len() ==> (#[trigger] section@[k]).wf(),
            buf@ == concat(section@.subrange(0, i as int), |t: Element| t.encoding()),
        decreases section@.len() - i,
    {
        section[i].encode(&mut buf);
        proof {
            lemma_concat_step(section@, |t: Element| t.encoding(), i as int);
        }
        i = i + 1;
    }
    assert(section@.subrange(0, section@.len() as int) =~= section@);
    encode_vec_section(out, Section::Element, section.len(), buf.as_slice());
}

/// Appends the code entry of a function: its size, then its encoding.
pub fn encode_code(out: &mut Vec<u8>, func: &Function)
    requires
        func.wf(),
    ensures
        final(out)@ == old(out)@ + code_entry(*func),
{
    let mut buf: Vec<u8> = Vec::new();
    let size = func.encode(&mut buf);
    encode_vec(out, buf.as_slice(), size);
}

/// Appends the code section: the code entry of each function.
pub fn encode_code_section(out: &mut Vec<u8>, section: &[Function])
    requires
        forall|k: int| 0 <= k < section@.len() ==> (#[trigger] section@[k]).wf(),
    ensures
        final(out)@ == old(out)@ + section_frame(10, vec_of(section@, |f: Function| code_entry(f))),
{
    let mut buf: Vec<u8> = Vec::new();
    let mut i: usize = 0;
    while i < section.len()
        invariant
            i <= section@.len(),
            forall|k: int| 0 <= k < section@.len() ==> (#[trigger] section@[k]).wf(),
            buf@ == concat(section@.subrange(0, i as int), |f: Function| code_entry(f)),
        decreases section@.len() - i,
    {
        encode_code(&mut buf, &section[i]);
        proof {
            lemma_concat_step(section@, |f: Function| code_entry(f), i as int);
        }
        i = i + 1;
    }
    assert(section@.subrange(0, section@.len() as int) =~= section@);
    encode_vec_section(out, Section::Code, section.len(), buf.as_slice());
}

/// Appends the data section.
pub fn encode_data_section(out: &mut Vec<u8>, section: &[Data])
    requires
        forall|k: int| 0 <= k < section@.len() ==> (#[trigger] section@[k]).wf(),
    ensures
        final(out)@ == old(out)@ + section_frame(11, vec_of(section@, |t: Data| t.encoding())),
{
    let mut buf: Vec<u8> = Vec::new();
    let mut i: usize = 0;
    while i < section.len()
        invariant
            i <= section@.len(),
            forall|k: int| 0 <= k < section@.len() ==> (#[trigger] section@[k]).wf(),
            buf@ == concat(section@.subrange(0, i as int), |t: Data| t.encoding()),
        decreases section@.len() - i,
    {
        section[i].encode(&mut buf);
        proof {
            lemma_concat_step(section@, |t: Data| t.encoding(), i as int);
        }
        i = i + 1;
    }
    assert(section@.subrange(0, section@.len() as int) =~= section@);
    encode_vec_section(out, Section::Data, section.len(), buf.as_slice());
}

} // verus!

//! A module and its serialization: the magic and version, then each
//! non-empty section in the canonical order of section ids.
use crate::leb::uleb;
use crate::sections::{
    code_entry, encode_code_section, encode_data_section, encode_element_section,
    encode_export_section, encode_function_section, encode_global_section, encode_import_section,
    encode_memory_section, encode_start_section, encode_table_section, encode_type_section,
    section_frame, vec_of, Data, Element, Export, FuncIdx, Function, Global, Import, TypeIdx,
};
use crate::types::{append_bytes, concat, index_vec, FunctionType, MemoryType, TableType};
use vstd::prelude::*;

verus! {

/// The magic bytes `\0asm` that open every module.
const MAGIC: [u8; 4] = [0x00, 0x61, 0x73, 0x6D];

/// Version 1 of the binary format.
const VERSION: [u8; 4] = [0x01, 0x00, 0x00, 0x00];

/// The eight bytes that open every module: the magic, then the version.
pub open spec fn prologue() -> Seq<u8> {
    seq![0x00u8, 0x61, 0x73, 0x6D, 0x01, 0x00, 0x00, 0x00]
}

/// A section as `(id, payload)`.
pub type SectionBytes = (u8, Seq<u8>);

/// The framed sections of a list, one after the other.
pub open spec fn sections_encoding(s: Seq<SectionBytes>) -> Seq<u8> {
    concat(s, |x: SectionBytes| section_frame(x.0, x.1))
}

/// Some section of the list has the id `id`.
pub open spec fn has_id(s: Seq<SectionBytes>, id: u8) -> bool {
    exists|k: int| 0 <= k < s.len() && (#[trigger] s[k]).0 == id
}

/// The ids of the list strictly increase.
pub open spec fn ids_increasing(s: Seq<SectionBytes>) -> bool {
    forall|i: int, j: int| 0 <= i < j < s.len() ==> (#[trigger] s[i]).0 < (#[trigger] s[j]).0
}

/// A WebAssembly module. Each collection becomes one section; function
/// declarations are split in two, their type indices in the function section
/// and their bodies in the code section.
#[derive(Debug, Clone)]
pub struct Module<'a> {
    /// types section
    pub types: Vec<FunctionType>,
    /// imports section
    pub imports: Vec<Import>,
    /// functions section
    pub functions: Vec<TypeIdx>,
    /// tables section
    pub tables: Vec<TableType>,
    /// memory section
    pub memory: Vec<MemoryType>,
    /// globals section
    pub globals: Vec<Global>,
    /// exports section
    pub exports: Vec<Export>,
    /// start section
    pub start: Option<FuncIdx>,
    /// elements section
    pub elements: Vec<Element>,
    /// code section
    pub code: Vec<Function>,
    /// data section
    pub data: Vec<Data<'a>>,
}

impl<'a> Module<'a> {
    /// Whether the module has anything for the section with id `id`: a
    /// non-empty collection, or for the start section a start function.
    pub open spec fn present(self, id: u8) -> bool {
        match id {
            1 => self.types.len() > 0,
            2 => self.imports.len() > 0,
            3 => self.functions.len() > 0,
            4 => self.tables.len() > 0,
            5 => self.memory.len() > 0,
            6 => self.globals.len() > 0,
            7 => self.exports.len() > 0,
            8 => self.start.is_some(),
            9 => self.elements.len() > 0,
            10 => self.code.len() > 0,
            11 => self.data.len() > 0,
            _ => false,
        }
    }

    /// The payload of the section with id `id`.
    pub open spec fn payload(self, id: u8) -> Seq<u8> {
        match id {
            1 => vec_of(self.types@, |t: FunctionType| t.encoding()),
            2 => vec_of(self.imports@, |t: Import| t.encoding()),
            3 => index_vec(self.functions@),
            4 => vec_of(self.tables@, |t: TableType| t.encoding()),
            5 => vec_of(self.memory@, |t: MemoryType| t.encoding()),
            6 => vec_of(self.globals@, |t: Global| t.encoding()),
            7 => vec_of(self.exports@, |t: Export| t.encoding()),
            8 => uleb(self.start.unwrap() as nat),
            9 => vec_of(self.elements@, |t: Element| t.encoding()),
            10 => vec_of(self.code@, |f: Function| code_entry(f)),
            11 => vec_of(self.data@, |t: Data| t.encoding()),
            _ => Seq::empty(),
        }
    }

    /// The sections with ids `1..=k` that the module emits, in order.
    pub open spec fn sections_upto(self, k: nat) -> Seq<SectionBytes>
        decreases k,
    {
        if k == 0 {
            Seq::empty()
        } else {
            let id = k as u8;
            self.sections_upto((k - 1) as nat) + if self.present(id) {
                seq![(id, self.payload(id))]
            } else {
                Seq::empty()
            }
        }
    }

    /// The sections that the module emits, in order.
    pub open spec fn sections(self) -> Seq<SectionBytes> {
        self.sections_upto(11)
    }

    /// The bytes of the module: the prologue, then each emitted section,
    /// framed.
    pub open spec fn encoding(self) -> Seq<u8> {
        prologue() + sections_encoding(self.sections())
    }

    /// Every expression of the module can be encoded.
    pub open spec fn wf(self) -> bool {
        &&& forall|k: int| 0 <= k < self.globals@.len() ==> (#[trigger] self.globals@[k]).wf()
        &&& forall|k: int| 0 <= k < self.elements@.len() ==> (#[trigger] self.elements@[k]).wf()
        &&& forall|k: int| 0 <= k < self.code@.len() ==> (#[trigger] self.code@[k]).wf()
        &&& forall|k: int| 0 <= k < self.data@.len() ==> (#[trigger] self.data@[k]).wf()
    }

    /// Creates an empty module.
    pub fn new() -> (m: Self)
        ensures
            m.types@.len() == 0,
            m.imports@.len() == 0,
            m.functions@.len() == 0,
            m.tables@.len() == 0,
            m.memory@.len() == 0,
            m.globals@.len() == 0,
            m.exports@.len() == 0,
            m.start.is_none(),
            m.elements@.len() == 0,
            m.code@.len() == 0,
            m.data@.len() == 0,
    {
        Module {
            types: Vec::new(),
            imports: Vec::new(),
            functions: Vec::new(),
            tables: Vec::new(),
            memory: Vec::new(),
            globals: Vec::new(),
            exports: Vec::new(),
            start: None,
            elements: Vec::new(),
            code: Vec::new(),
            data: Vec::new(),
        }
    }

    /// Whether every expression of the module can be encoded, as `wf` says.
    pub fn is_encodable(&self) -> (r: bool)
        ensures
            r == self.wf(),
    {
        let mut i: usize = 0;
        while i < self.globals.len()
            invariant
                i <= self.globals@.len(),
                forall|k: int| 0 <= k < i ==> (#[trigger] self.globals@[k]).wf(),
            decreases self.globals@.len() - i,
        {
            if !self.globals[i].init.is_encodable() {
                return false;
            }
            i = i + 1;
        }
        let mut i: usize = 0;
        while i < self.elements.len()
            invariant
                i <= self.elements@.len(),
                forall|k: int| 0 <= k < i ==> (#[trigger] self.elements@[k]).wf(),
            decreases self.elements@.len() - i,
        {
            if !self.elements[i].offset.is_encodable() {
                return false;
            }
            i = i + 1;
        }
        let mut i: usize = 0;
        while i < self.code.len()
            invariant
                i <= self.code@.len(),
                forall|k: int| 0 <= k < i ==> (#[trigger] self.code@[k]).wf(),
            decreases self.code@.len() - i,
        {
            if !self.code[i].body.is_encodable() {
                return false;
            }
            i = i + 1;
        }
        let mut i: usize = 0;
        while i < self.data.len()
            invariant
                i <= self.data@.len(),
                forall|k: int| 0 <= k < i ==> (#[trigger] self.data@[k]).wf(),
            decreases self.data@.len() - i,
        {
            if !self.data[i].offset.is_encodable() {
                return false;
            }
            i = i + 1;
        }
        true
    }

    /// Appends the binary module to `out`.
    pub fn encode(&self, out: &mut Vec<u8>)
        requires
            self.wf(),
        ensures
            final(out)@ == old(out)@ + self.encoding(),
    {
        append_bytes(out, MAGIC.as_slice());
        append_bytes(out, VERSION.as_slice());
        assert(out@ =~= old(out)@ + prologue() + sections_encoding(self.sections_upto(0)));
        let mut id: u8 = 1;
        while id <= 11
            invariant
                1 <= id <= 12,
                self.wf(),
                out@ == old(out)@ + prologue() + sections_encoding(
                    self.sections_upto((id - 1) as nat),
                ),
            decreases 12 - id,
        {
            self.encode_section(id, out);
            proof {
                self.lemma_sections_step(id as nat);
            }
            id = id + 1;
        }
    }

    /// Appends the section with id `id` if the module has anything for it.
    fn encode_section(&self, id: u8, out: &mut Vec<u8>)
        requires
            self.wf(),
            1 <= id <= 11,
        ensures
            final(out)@ == old(out)@ + if self.present(id) {
                section_frame(id, self.payload(id))
            } else {
                Seq::empty()
            },
    {
        match id {
            1 => if self.types.len() != 0 {
                encode_type_section(out, self.types.as_slice());
            },
            2 => if self.imports.len() != 0 {
                encode_import_section(out, self.imports.as_slice());
            },
            3 => if self.functions.len() != 0 {
                encode_function_section(out, self.functions.as_slice());
            },
            4 => if self.tables.len() != 0 {
                encode_table_section(out, self.tables.as_slice());
            },
            5 => if self.memory.len() != 0 {
                encode_memory_section(out, self.memory.as_slice());
            },
            6 => if self.globals.len() != 0 {
                encode_global_section(out, self.globals.as_slice());
            },
            7 => if self.exports.len() != 0 {
                encode_export_section(out, self.exports.as_slice());
            },
            8 => if let Some(start) = self.start {
                encode_start_section(out, start);
            },
            9 => if self.elements.len() != 0 {
                encode_element_section(out, self.elements.as_slice());
            },
            10 => if self.code.len() != 0 {
                encode_code_section(out, self.code.as_slice());
            },
            _ => if self.data.len() != 0 {
                encode_data_section(out, self.data.as_slice());
            },
        }
        assert(out@ =~= old(out)@ + if self.present(id) {
            section_frame(id, self.payload(id))
        } else {
            Seq::empty()
        });
    }

    /// Emitting the sections up to `k` adds the framed section `k`, if
    /// present, to those up to `k - 1`.
    proof fn lemma_sections_step(self, k: nat)
        requires
            k >= 1,
        ensures
            sections_encoding(self.sections_upto(k)) == sections_encoding(
                self.sections_upto((k - 1) as nat),
            ) + if self.present(k as u8) {
                section_frame(k as u8, self.payload(k as u8))
            } else {
                Seq::empty()
            },
    {
        let prev = self.sections_upto((k - 1) as nat);
        let f = |x: SectionBytes| section_frame(x.0, x.1);
        if self.present(k as u8) {
            let x = (k as u8, self.payload(k as u8));
            assert(self.sections_upto(k) == prev.push(x));
            assert(prev.push(x).map_values(f) =~= prev.map_values(f).push(f(x)));
            prev.map_values(f).lemma_flatten_push(f(x));
        } else {
            assert(self.sections_upto(k) =~= prev);
        }
    }

    /// The sections up to `k` hold id `id` exactly when `1 <= id <= k` and
    /// the module has something for it; their ids increase and lie in
    /// `1..=k`.
    proof fn lemma_sections_upto(self, k: nat)
        requires
            k <= 11,
        ensures
            forall|id: u8| #[trigger]
                has_id(self.sections_upto(k), id) <==> (1 <= id <= k && self.present(id)),
            ids_increasing(self.sections_upto(k)),
            forall|i: int|
                0 <= i < self.sections_upto(k).len() ==> 1 <= (#[trigger] self.sections_upto(
                    k,
                )[i]).0 <= k,
        decreases k,
    {
        if k > 0 {
            self.lemma_sections_upto((k - 1) as nat);
            let prev = self.sections_upto((k - 1) as nat);
            let s = self.sections_upto(k);
            if self.present(k as u8) {
                let x = (k as u8, self.payload(k as u8));
                assert(s == prev.push(x));
                assert(s[prev.len() as int] == x);
                assert forall|i: int| 0 <= i < prev.len() implies s[i] == prev[i] by {}
                assert forall|id: u8| #[trigger]
                    has_id(s, id) <==> (1 <= id <= k && self.present(id)) by {
                    if has_id(s, id) {
                        let i = choose|i: int| 0 <= i < s.len() && (#[trigger] s[i]).0 == id;
                        if i < prev.len() {
                            assert(prev[i].0 == id);
                            assert(has_id(prev, id));
                        }
                    }
                    if 1 <= id <= k && self.present(id) {
                        if id == k {
                            assert(s[prev.len() as int].0 == id);
                        } else {
                            assert(has_id(prev, id));
                            let i = choose|i: int| 0 <= i < prev.len() && (#[trigger] prev[i]).0 == id;
                            assert(s[i].0 == id);
                        }
                    }
                }
            } else {
                assert(s =~= prev);
            }
        }
    }
}

/// A module emits the section with id `id` exactly when it has something
/// for it: a collection that is empty, or a start function that is not set,
/// gives no section. The sections come in strictly increasing order of id.
pub proof fn lemma_sections_present(m: Module, id: u8)
    ensures
        has_id(m.sections(), id) <==> (1 <= id <= 11 && m.present(id)),
        ids_increasing(m.sections()),
        m.encoding() == prologue() + sections_encoding(m.sections()),
{
    m.lemma_sections_upto(11);
}

} // verus!

//! The information needed to write down a record or an enum in a `.d.tl` file.
use vstd::prelude::*;
use vstd::utf8::{encode_utf8, valid_utf8};

use crate::exported_function::{doc_comment, param_types, with_self, ExportedFunction};
use crate::meta_method::{get_meta_name, lua_name, meta_name, MetaMethod};
use crate::name_container::{bytes_eq, copy_bytes, DocMap, NameContainer};
use crate::name_part::{parts_text, parts_view, type_parts_to_str, NamePart, NamePartV, TealType};
use crate::teal_parts::{teal_parts, type_to_teal_parts, AsPartOf};
use crate::text::{
    from_utf8_lossy, lines, prefix_each, prefix_lines, push_chars, push_str, string_from_chars,
    to_chars, utf8_lossy,
};
use crate::to_typename::{TealMultiValue, ToTypename};
use crate::types::{params_view, types_view, Type, TypeV};

verus! {

// ---------------------------------------------------------------------------------------------
// Fields
// ---------------------------------------------------------------------------------------------
/// A field: its name and its type.
pub struct Field {
    /// The name of the field.
    pub name: NameContainer,
    /// The type of the field, rendered in parts.
    pub teal_type: Vec<NamePart>,
    /// The type of the field.
    pub ty: Type,
}

/// The mathematical value of a [`Field`].
pub struct FieldV {
    pub name: Seq<u8>,
    pub teal_type: Seq<NamePartV>,
    pub ty: TypeV,
}

impl View for Field {
    type V = FieldV;

    open spec fn view(&self) -> FieldV {
        FieldV { name: self.name@, teal_type: parts_view(self.teal_type@), ty: self.ty@ }
    }
}

/// The views of a sequence of fields.
pub open spec fn fields_view(s: Seq<Field>) -> Seq<FieldV> {
    s.map_values(|f: Field| f@)
}

/// The field of the given name and type.
pub open spec fn field_of(name: Seq<u8>, ty: TypeV) -> FieldV {
    FieldV { name, teal_type: teal_parts(ty, false, AsPartOf::Other), ty }
}

/// A copy of the parts, keeping the views.
fn clone_parts(v: &Vec<NamePart>) -> (r: Vec<NamePart>)
    ensures
        parts_view(r@) == parts_view(v@),
{
    let mut r: Vec<NamePart> = Vec::new();
    let mut i: usize = 0;
    while i < v.len()
        invariant
            i <= v.len(),
            parts_view(r@) == parts_view(v@.take(i as int)),
        decreases v.len() - i,
    {
        let p = v[i].clone();
        assert(p@ == v@[i as int]@);
        let ghost before = r@;
        r.push(p);
        assert(r@ == before.push(p));
        assert(parts_view(before.push(p)) =~= parts_view(before).push(p@));
        assert(v@.take(i + 1) =~= v@.take(i as int).push(v@[i as int]));
        assert(parts_view(v@.take(i as int).push(v@[i as int])) =~= parts_view(v@.take(i as int)).push(
            v@[i as int]@,
        ));
        assert(parts_view(r@) =~= parts_view(v@.take(i + 1)));
        i = i + 1;
    }
    assert(v@.take(v.len() as int) =~= v@);
    r
}

impl Field {
    /// The field of the given name and type; the rendered type is computed from `ty`.
    pub fn from_name_and_type(name: NameContainer, ty: Type) -> (r: Field)
        ensures
            r@ == field_of(name@, ty@),
    {
        let teal_type = type_to_teal_parts(&ty, false);
        Field { name, teal_type, ty }
    }

    /// Creates a new field of the type of `A`.
    pub fn new<A: ToTypename>(name: &str) -> (r: Field)
        ensures
            r@ == field_of(encode_utf8(name@), A::type_spec()),
    {
        Self::from_name_and_type(NameContainer::from_str(name), A::to_typename())
    }
}

impl Clone for Field {
    fn clone(&self) -> (r: Self)
        ensures
            r@ == self@,
    {
        Field { name: self.name.clone(), teal_type: clone_parts(&self.teal_type), ty: self.ty.deep_clone() }
    }
}

impl From<Field> for (NameContainer, Vec<NamePart>) {
    fn from(x: Field) -> (r: (NameContainer, Vec<NamePart>)) {
        (x.name, x.teal_type)
    }
}

impl vstd::std_specs::convert::FromSpecImpl<Field> for (NameContainer, Vec<NamePart>) {
    open spec fn obeys_from_spec() -> bool {
        true
    }

    open spec fn from_spec(x: Field) -> (NameContainer, Vec<NamePart>) {
        (x.name, x.teal_type)
    }
}

// ---------------------------------------------------------------------------------------------
// Text helpers
// ---------------------------------------------------------------------------------------------
/// `items` one after the other, with `sep` between two neighbours.
pub open spec fn join_text(items: Seq<Seq<char>>, sep: Seq<char>) -> Seq<char>
    decreases items.len(),
{
    if items.len() == 0 {
        seq![]
    } else if items.len() == 1 {
        items[0]
    } else {
        join_text(items.drop_last(), sep) + sep + items.last()
    }
}

/// A character as it is written inside a double quoted Teal string.
pub open spec fn escape_char(c: char) -> Seq<char> {
    if c == '\\' {
        seq!['\\', '\\']
    } else if c == '"' {
        seq!['\\', '"']
    } else {
        seq![c]
    }
}

/// A text as it is written inside a double quoted Teal string.
pub open spec fn escape(s: Seq<char>) -> Seq<char>
    decreases s.len(),
{
    if s.len() == 0 {
        seq![]
    } else {
        escape(s.drop_last()) + escape_char(s.last())
    }
}

fn escape_text(s: &Vec<char>) -> (r: Vec<char>)
    ensures
        r@ == escape(s@),
{
    let mut out: Vec<char> = Vec::new();
    let mut i: usize = 0;
    while i < s.len()
        invariant
            i <= s.len(),
            out@ == escape(s@.take(i as int)),
        decreases s.len() - i,
    {
        let c = s[i];
        assert(s@.take(i + 1).drop_last() =~= s@.take(i as int));
        if c == '\\' {
            out.push('\\');
            out.push('\\');
        } else if c == '"' {
            out.push('\\');
            out.push('"');
        } else {
            out.push(c);
        }
        assert(out@ =~= escape(s@.take(i + 1)));
        i = i + 1;
    }
    assert(s@.take(s.len() as int) =~= s@);
    out
}

/// Joins the texts with `sep` between two neighbours.
fn join_texts(items: &Vec<Vec<char>>, sep: &str) -> (r: Vec<char>)
    ensures
        r@ == join_text(items@.map_values(|v: Vec<char>| v@), sep@),
{
    let ghost iv = items@.map_values(|v: Vec<char>| v@);
    let mut out: Vec<char> = Vec::new();
    let mut i: usize = 0;
    while i < items.len()
        invariant
            i <= items.len(),
            iv == items@.map_values(|v: Vec<char>| v@),
            out@ == join_text(iv.take(i as int), sep@),
        decreases items.len() - i,
    {
        assert(iv.take(i + 1).drop_last() =~= iv.take(i as int));
        assert(iv.take(i + 1).last() == items@[i as int]@);
        if i > 0 {
            push_str(&mut out, sep);
        } else {
            assert(iv.take(1)[0] == items@[0]@);
        }
        push_chars(&mut out, &items[i]);
        assert(out@ =~= join_text(iv.take(i + 1), sep@));
        i = i + 1;
    }
    assert(iv.take(items.len() as int) =~= iv);
    out
}

// ---------------------------------------------------------------------------------------------
// Enums
// ---------------------------------------------------------------------------------------------
/// Contains all the information needed to create a Teal enum.
pub struct EnumGenerator {
    /// The type of this enum.
    pub ty: Type,
    /// The name of this enum, rendered in parts.
    pub name: Vec<NamePart>,
    /// The variants that make up this enum.
    pub variants: Vec<NameContainer>,
    /// Documentation for this enum.
    pub type_doc: String,
}

/// One variant line of an enum.
pub open spec fn variant_line(v: Seq<u8>) -> Seq<char> {
    "\t\t\""@ + escape(utf8_lossy(v)) + "\""@
}

/// The text of an enum with the given name and variants.
pub open spec fn enum_text(name: Seq<NamePartV>, variants: Seq<Seq<u8>>) -> Seq<char> {
    "\tenum "@ + parts_text(name) + "\n"@ + join_text(
        variants.map_values(|v: Seq<u8>| variant_line(v)),
        "\n"@,
    ) + "\n\tend"@
}

impl EnumGenerator {
    /// Creates a new EnumGenerator for the type of `A`, without variants or documentation.
    pub fn new<A: ToTypename>() -> (r: Self)
        ensures
            r.ty@ == A::type_spec(),
            parts_view(r.name@) == teal_parts(A::type_spec(), false, AsPartOf::Other),
            r.variants@.len() == 0,
            r.type_doc@.len() == 0,
    {
        let ty = A::to_typename();
        let name = type_to_teal_parts(&ty, false);
        EnumGenerator { ty, name, variants: Vec::new(), type_doc: String::new() }
    }

    /// Adds type level documentation to this enum, followed by an empty line.
    pub fn document_type(&mut self, documentation: &str) -> (r: &mut Self)
        ensures
            r.type_doc@ == old(self).type_doc@ + documentation@ + "\n\n"@,
            r.ty == old(self).ty,
            r.name == old(self).name,
            r.variants == old(self).variants,
            *final(self) == *final(r),
    {
        self.type_doc.append(documentation);
        self.type_doc.append("\n\n");
        self
    }

    /// Writes the enum in Teal syntax: each variant on a line of its own, quoted.
    pub fn generate(self) -> (r: String)
        ensures
            r@ == enum_text(parts_view(self.name@), self.variants@.map_values(|v: NameContainer| v@)),
    {
        let ghost vv = self.variants@.map_values(|v: NameContainer| v@);
        let mut lines_out: Vec<Vec<char>> = Vec::new();
        let mut i: usize = 0;
        while i < self.variants.len()
            invariant
                i <= self.variants.len(),
                vv == self.variants@.map_values(|v: NameContainer| v@),
                lines_out@.len() == i,
                forall|j: int| 0 <= j < i ==> (#[trigger] lines_out@[j])@ == variant_line(vv[j]),
            decreases self.variants.len() - i,
        {
            let text = from_utf8_lossy(self.variants[i].as_bytes());
            let escaped = escape_text(&text);
            let mut line: Vec<char> = Vec::new();
            push_str(&mut line, "\t\t\"");
            push_chars(&mut line, &escaped);
            push_str(&mut line, "\"");
            lines_out.push(line);
            i = i + 1;
        }
        assert(lines_out@.map_values(|v: Vec<char>| v@) =~= vv.map_values(
            |v: Seq<u8>| variant_line(v),
        ));
        let variants = join_texts(&lines_out, "\n");
        let name = type_parts_to_str(self.name);
        let mut out: Vec<char> = Vec::new();
        push_str(&mut out, "\tenum ");
        push_str(&mut out, name.as_str());
        push_str(&mut out, "\n");
        push_chars(&mut out, &variants);
        push_str(&mut out, "\n\tend");
        string_from_chars(&out)
    }
}

// ---------------------------------------------------------------------------------------------
// Records
// ---------------------------------------------------------------------------------------------
/// Contains all the information needed to create a record.
pub struct RecordGenerator {
    /// If the type should be inlined.
    pub should_be_inlined: bool,
    /// If the type is UserData.
    pub is_user_data: bool,
    /// The type produced by `to_typename`.
    pub ty: Type,
    /// The name of the type in Teal, rendered in parts.
    pub type_parts: Vec<NamePart>,
    /// The exposed fields and their types.
    pub fields: Vec<Field>,
    /// The exposed static fields and their types.
    pub static_fields: Vec<Field>,
    /// Exported methods.
    pub methods: Vec<ExportedFunction>,
    /// Exported methods that mutate something.
    pub mut_methods: Vec<ExportedFunction>,
    /// Exported functions.
    pub functions: Vec<ExportedFunction>,
    /// Exported functions that mutate something.
    pub mut_functions: Vec<ExportedFunction>,
    /// Exported meta methods.
    pub meta_method: Vec<ExportedFunction>,
    /// Exported meta methods that mutate something.
    pub meta_method_mut: Vec<ExportedFunction>,
    /// Exported meta functions.
    pub meta_function: Vec<ExportedFunction>,
    /// Exported meta functions that mutate something.
    pub meta_function_mut: Vec<ExportedFunction>,
    /// Registered documentation.
    pub documentation: DocMap,
    /// Documentation for this type itself.
    pub type_doc: String,
    /// Documentation for the next field or function that gets added.
    pub next_docs: Option<String>,
    /// If this type needs to get a `.help()` function.
    pub should_generate_help_method: bool,
}

/// The lists of a [`RecordGenerator`] that fields and functions are added to.
pub enum Slot {
    Fields,
    StaticFields,
    Methods,
    MutMethods,
    Functions,
    MutFunctions,
    MetaMethods,
    MetaMethodsMut,
    MetaFunctions,
    MetaFunctionsMut,
}

/// `f` has the given name, kind, parameters and return types.
pub open spec fn exported(
    f: ExportedFunction,
    name: Seq<u8>,
    is_meta: bool,
    params: Seq<crate::types::ParamV>,
    rets: Seq<TypeV>,
) -> bool {
    &&& f.name@ == name
    &&& f.is_meta_method == is_meta
    &&& params_view(f.params@) == params
    &&& types_view(f.returns@) == rets
}

/// Every name of `fs` is valid UTF-8.
pub open spec fn names_valid(fs: Seq<ExportedFunction>) -> bool {
    forall|i: int| 0 <= i < fs.len() ==> valid_utf8(#[trigger] fs[i].name@)
}

/// The declaration of each function.
pub open spec fn declarations(fs: Seq<ExportedFunction>, docs: Map<Seq<u8>, Seq<char>>) -> Seq<
    Seq<char>,
> {
    fs.map_values(|f: ExportedFunction| f.declaration(docs))
}

/// Each text, every line indented by two tabs.
pub open spec fn indented(list: Seq<Seq<char>>) -> Seq<Seq<char>> {
    list.map_values(|v: Seq<char>| prefix_each(lines(v), "\t\t"@))
}

/// A section of a record: a heading comment, then the entries, or nothing without entries.
pub open spec fn section(list: Seq<Seq<char>>, top_doc: Seq<char>) -> Seq<char> {
    if list.len() == 0 {
        seq![]
    } else {
        "\t\t-- "@ + top_doc + "\n"@ + join_text(indented(list), "\n"@) + "\n"@
    }
}

/// The names of a sequence of fields.
pub open spec fn field_names(s: Seq<FieldV>) -> Seq<Seq<u8>> {
    s.map_values(|f: FieldV| f.name)
}

/// The fields of `s` whose name did not occur before them.
pub open spec fn first_by_name(s: Seq<FieldV>) -> Seq<FieldV>
    decreases s.len(),
{
    if s.len() == 0 {
        seq![]
    } else {
        let p = first_by_name(s.drop_last());
        if field_names(p).contains(s.last().name) {
            p
        } else {
            p.push(s.last())
        }
    }
}

/// The line of a record that declares a field, with its documentation above it.
pub open spec fn field_line(docs: Map<Seq<u8>, Seq<char>>, f: FieldV) -> Seq<char> {
    doc_comment(docs, f.name) + utf8_lossy(f.name) + " : "@ + parts_text(f.teal_type)
}

/// The declaration of each field.
pub open spec fn field_lines(s: Seq<FieldV>, docs: Map<Seq<u8>, Seq<char>>) -> Seq<Seq<char>> {
    s.map_values(|f: FieldV| field_line(docs, f))
}

/// The header of a record named `tn`: a comment for an inlined type, else the opening of the
/// record, marked as userdata where it is; each line indented by a tab.
pub open spec fn header_of(tn: Seq<char>, inlined: bool, user_data: bool) -> Seq<char> {
    if inlined {
        prefix_each(lines("-- "@ + tn + "\n"@), "\t"@)
    } else {
        prefix_each(
            lines(
                "record "@ + tn + "\n"@ + prefix_each(
                    lines(
                        if user_data {
                            "userdata"@
                        } else {
                            seq![]
                        },
                    ),
                    "\t"@,
                ),
            ),
            "\t"@,
        )
    }
}

impl RecordGenerator {
    /// All other parts are as in `before`: the settings and the lists but the one of `slot`.
    pub open spec fn same_except(&self, before: &Self, slot: Option<Slot>) -> bool {
        &&& self.should_be_inlined == before.should_be_inlined
        &&& self.is_user_data == before.is_user_data
        &&& self.ty == before.ty
        &&& self.type_parts == before.type_parts
        &&& self.type_doc == before.type_doc
        &&& self.should_generate_help_method == before.should_generate_help_method
        &&& (slot != Some(Slot::Fields) ==> self.fields == before.fields)
        &&& (slot != Some(Slot::StaticFields) ==> self.static_fields == before.static_fields)
        &&& (slot != Some(Slot::Methods) ==> self.methods == before.methods)
        &&& (slot != Some(Slot::MutMethods) ==> self.mut_methods == before.mut_methods)
        &&& (slot != Some(Slot::Functions) ==> self.functions == before.functions)
        &&& (slot != Some(Slot::MutFunctions) ==> self.mut_functions == before.mut_functions)
        &&& (slot != Some(Slot::MetaMethods) ==> self.meta_method == before.meta_method)
        &&& (slot != Some(Slot::MetaMethodsMut) ==> self.meta_method_mut == before.meta_method_mut)
        &&& (slot != Some(Slot::MetaFunctions) ==> self.meta_function == before.meta_function)
        &&& (slot != Some(Slot::MetaFunctionsMut) ==> self.meta_function_mut
            == before.meta_function_mut)
    }

    /// The documentation after the pending documentation is registered under `key`:
    /// appended after an empty line where `key` has documentation already.
    pub open spec fn docs_after_copy(&self, key: Seq<u8>) -> Map<Seq<u8>, Seq<char>> {
        match self.next_docs {
            None => self.documentation.map(),
            Some(d) => self.documentation.map().insert(
                key,
                if self.documentation.map().contains_key(key) {
                    self.documentation.map()[key] + "\n\n"@ + d@
                } else {
                    d@
                },
            ),
        }
    }

    /// The pending documentation after `documentation` is added to it.
    pub open spec fn next_docs_after(&self, documentation: Seq<char>) -> Seq<char> {
        match self.next_docs {
            Some(x) => x@ + "\n\n"@ + documentation,
            None => documentation,
        }
    }

    /// All functions, in the order of the lists.
    pub open spec fn all_functions_spec(&self) -> Seq<ExportedFunction> {
        self.methods@ + self.mut_methods@ + self.functions@ + self.mut_functions@
            + self.meta_method@ + self.meta_method_mut@ + self.meta_function@
            + self.meta_function_mut@
    }

    /// The header of the record.
    pub open spec fn header_text(&self) -> Seq<char> {
        header_of(parts_text(parts_view(self.type_parts@)), self.should_be_inlined, self.is_user_data)
    }

    /// The sections of the methods and functions, in the order of the lists.
    pub open spec fn functions_text(&self) -> Seq<char> {
        let docs = self.documentation.map();
        section(declarations(self.methods@, docs), "Pure methods"@) + section(
            declarations(self.mut_methods@, docs),
            "Mutating methods"@,
        ) + section(declarations(self.functions@, docs), "Pure functions"@) + section(
            declarations(self.mut_functions@, docs),
            "Mutating functions"@,
        ) + section(declarations(self.meta_method@, docs), "Meta methods"@) + section(
            declarations(self.meta_method_mut@, docs),
            "Mutating MetaMethods"@,
        ) + section(declarations(self.meta_function@, docs), "Meta functions"@) + section(
            declarations(self.meta_function_mut@, docs),
            "Mutating meta functions"@,
        )
    }

    /// The text of the record in Teal syntax: the documentation of the type as comments, the
    /// header, the fields, the methods and functions, and `end` unless the type is inlined.
    pub open spec fn record_text(&self) -> Seq<char> {
        prefix_each(lines(self.type_doc@), "--"@) + self.header_text() + "\n"@ + section(
            field_lines(
                first_by_name(fields_view(self.fields@ + self.static_fields@)),
                self.documentation.map(),
            ),
            "Fields"@,
        ) + self.functions_text() + "\n"@ + (if self.should_be_inlined {
            seq![]
        } else {
            "\tend"@
        })
    }

    /// Every function has a name that is valid UTF-8.
    pub open spec fn all_names_valid(&self) -> bool {
        names_valid(self.all_functions_spec())
    }

    /// Creates a new RecordGenerator for the type of `A`, with no fields, no functions
    /// and no documentation, that gets a `.help()` method.
    pub fn new<A: ToTypename>(should_be_inlined: bool) -> (r: Self)
        ensures
            r.should_be_inlined == should_be_inlined,
            !r.is_user_data,
            r.ty@ == A::type_spec(),
            parts_view(r.type_parts@) == teal_parts(A::type_spec(), false, AsPartOf::Other),
            r.all_functions_spec().len() == 0,
            r.fields@.len() == 0,
            r.static_fields@.len() == 0,
            r.documentation.entries().len() == 0,
            r.type_doc@.len() == 0,
            r.next_docs is None,
            r.should_generate_help_method,
    {
        let ty = A::to_typename();
        let type_parts = type_to_teal_parts(&ty, false);
        RecordGenerator {
            should_be_inlined,
            is_user_data: false,
            type_parts,
            should_generate_help_method: true,
            documentation: DocMap::new(),
            ty,
            fields: Vec::new(),
            static_fields: Vec::new(),
            methods: Vec::new(),
            mut_methods: Vec::new(),
            functions: Vec::new(),
            mut_functions: Vec::new(),
            meta_method: Vec::new(),
            meta_method_mut: Vec::new(),
            meta_function: Vec::new(),
            meta_function_mut: Vec::new(),
            type_doc: String::new(),
            next_docs: None,
        }
    }

    /// All methods and functions, in the order of the lists they are in.
    pub fn all_functions(&self) -> (r: Vec<&ExportedFunction>)
        ensures
            r@.map_values(|f: &ExportedFunction| *f) == self.all_functions_spec(),
    {
        let mut r: Vec<&ExportedFunction> = Vec::new();
        push_refs(&mut r, &self.methods);
        push_refs(&mut r, &self.mut_methods);
        push_refs(&mut r, &self.functions);
        push_refs(&mut r, &self.mut_functions);
        push_refs(&mut r, &self.meta_method);
        push_refs(&mut r, &self.meta_method_mut);
        push_refs(&mut r, &self.meta_function);
        push_refs(&mut r, &self.meta_function_mut);
        r
    }
}

/// Appends a reference to each element of `v`.
fn push_refs<'a>(r: &mut Vec<&'a ExportedFunction>, v: &'a Vec<ExportedFunction>)
    ensures
        final(r)@.map_values(|f: &ExportedFunction| *f) == old(r)@.map_values(
            |f: &ExportedFunction| *f,
        ) + v@,
{
    let ghost start = r@.map_values(|f: &ExportedFunction| *f);
    let mut i: usize = 0;
    while i < v.len()
        invariant
            i <= v.len(),
            r@.map_values(|f: &ExportedFunction| *f) == start + v@.take(i as int),
        decreases v.len() - i,
    {
        let ghost before = r@;
        r.push(&v[i]);
        assert(r@.map_values(|f: &ExportedFunction| *f) =~= before.map_values(
            |f: &ExportedFunction| *f,
        ).push(v@[i as int]));
        assert(v@.take(i + 1) =~= v@.take(i as int).push(v@[i as int]));
        assert(r@.map_values(|f: &ExportedFunction| *f) =~= start + v@.take(i + 1));
        i = i + 1;
    }
    assert(v@.take(v.len() as int) =~= v@);
}

/// `after` is `before` with one more function at its end, of the given name, kind,
/// parameters and return types.
pub open spec fn added(
    after: Seq<ExportedFunction>,
    before: Seq<ExportedFunction>,
    name: Seq<u8>,
    is_meta: bool,
    params: Seq<crate::types::ParamV>,
    rets: Seq<TypeV>,
) -> bool {
    &&& after.len() == before.len() + 1
    &&& after.drop_last() == before
    &&& exported(after.last(), name, is_meta, params, rets)
}

impl RecordGenerator {
    /// Links the pending documentation to the name `to`: stored under it, or appended after an
    /// empty line to what is stored under it already. Nothing is pending afterwards.
    pub fn copy_docs(&mut self, to: &[u8])
        ensures
            final(self).documentation.map() == old(self).docs_after_copy(to@),
            final(self).next_docs is None,
            final(self).same_except(old(self), None),
    {
        let pending = self.next_docs.take();
        match pending {
            Some(docs) => {
                let value = match self.documentation.get(to) {
                    Some(current) => {
                        let mut v = current.clone();
                        v.append("\n\n");
                        v.append(docs.as_str());
                        v
                    },
                    None => docs,
                };
                self.documentation.insert(copy_bytes(to), value);
            },
            None => {},
        }
    }

    /// Adds documentation to the next field or function; after what is pending already,
    /// separated by an empty line.
    pub fn document(&mut self, documentation: &str)
        ensures
            final(self).next_docs matches Some(d) && d@ == old(self).next_docs_after(documentation@),
            final(self).documentation == old(self).documentation,
            final(self).same_except(old(self), None),
    {
        match self.next_docs.take() {
            Some(x) => {
                let mut x = x;
                x.append("\n\n");
                x.append(documentation);
                self.next_docs = Some(x);
            },
            None => {
                self.next_docs = Some(documentation.to_owned());
            },
        }
    }

    /// Adds documentation to the type itself, followed by an empty line.
    pub fn document_type(&mut self, documentation: &str) -> (r: &mut Self)
        ensures
            r.type_doc@ == old(self).type_doc@ + documentation@ + "\n\n"@,
            r.documentation == old(self).documentation,
            r.next_docs == old(self).next_docs,
            r.should_be_inlined == old(self).should_be_inlined,
            r.is_user_data == old(self).is_user_data,
            r.ty == old(self).ty,
            r.type_parts == old(self).type_parts,
            r.should_generate_help_method == old(self).should_generate_help_method,
            r.fields == old(self).fields,
            r.static_fields == old(self).static_fields,
            r.all_functions_spec() == old(self).all_functions_spec(),
            *final(self) == *final(r),
    {
        self.type_doc.append(documentation);
        self.type_doc.append("\n\n");
        self
    }

    /// Records a field of the type of `R` under `name`, with the pending documentation.
    pub fn add_field<R: ToTypename>(&mut self, name: &str)
        ensures
            final(self).documentation.map() == old(self).docs_after_copy(encode_utf8(name@)),
            final(self).next_docs is None,
            final(self).same_except(old(self), Some(Slot::Fields)),
            fields_view(final(self).fields@) == fields_view(old(self).fields@).push(
                field_of(encode_utf8(name@), R::type_spec()),
            ),
    {
        self.copy_docs(name.as_bytes());
        let f = Field::from_name_and_type(NameContainer::from_str(name), R::to_typename());
        let ghost before = self.fields@;
        self.fields.push(f);
        assert(fields_view(self.fields@) =~= fields_view(before).push(f@));
    }

    /// Records a static field of the type of `R` under `name`, with the pending documentation:
    /// a field that is read or written through a function rather than a method, which the
    /// proxy of the type keeps.
    pub fn add_static_field<R: ToTypename>(&mut self, name: &str)
        ensures
            final(self).documentation.map() == old(self).docs_after_copy(encode_utf8(name@)),
            final(self).next_docs is None,
            final(self).same_except(old(self), Some(Slot::StaticFields)),
            fields_view(final(self).static_fields@) == fields_view(old(self).static_fields@).push(
                field_of(encode_utf8(name@), R::type_spec()),
            ),
    {
        self.copy_docs(name.as_bytes());
        let f = Field::from_name_and_type(NameContainer::from_str(name), R::to_typename());
        let ghost before = self.static_fields@;
        self.static_fields.push(f);
        assert(fields_view(self.static_fields@) =~= fields_view(before).push(f@));
    }

    /// Records a method of `T` that takes `A` and gives `R`, with the pending documentation.
    pub fn add_method<A: TealMultiValue, R: TealMultiValue, T: ToTypename>(&mut self, name: &str)
        ensures
            final(self).documentation.map() == old(self).docs_after_copy(encode_utf8(name@)),
            final(self).next_docs is None,
            final(self).same_except(old(self), Some(Slot::Methods)),
            added(
                final(self).methods@,
                old(self).methods@,
                encode_utf8(name@),
                false,
                with_self(Some(T::type_spec()), A::params_spec()),
                param_types(R::params_spec()),
            ),
    {
        self.copy_docs(name.as_bytes());
        let f = ExportedFunction::new::<A, R>(name, false, Some(T::to_typename()));
        let ghost before = self.methods@;
        self.methods.push(f);
        assert(self.methods@.drop_last() =~= before);
    }

    /// Records a mutating method of `T` that takes `A` and gives `R`, with the pending
    /// documentation.
    pub fn add_method_mut<A: TealMultiValue, R: TealMultiValue, T: ToTypename>(
        &mut self,
        name: &str,
    )
        ensures
            final(self).documentation.map() == old(self).docs_after_copy(encode_utf8(name@)),
            final(self).next_docs is None,
            final(self).same_except(old(self), Some(Slot::MutMethods)),
            added(
                final(self).mut_methods@,
                old(self).mut_methods@,
                encode_utf8(name@),
                false,
                with_self(Some(T::type_spec()), A::params_spec()),
                param_types(R::params_spec()),
            ),
    {
        self.copy_docs(name.as_bytes());
        let f = ExportedFunction::new::<A, R>(name, false, Some(T::to_typename()));
        let ghost before = self.mut_methods@;
        self.mut_methods.push(f);
        assert(self.mut_methods@.drop_last() =~= before);
    }

    /// Records a function that takes `A` and gives `R`, with the pending documentation.
    pub fn add_function<A: TealMultiValue, R: TealMultiValue>(&mut self, name: &str)
        ensures
            final(self).documentation.map() == old(self).docs_after_copy(encode_utf8(name@)),
            final(self).next_docs is None,
            final(self).same_except(old(self), Some(Slot::Functions)),
            added(
                final(self).functions@,
                old(self).functions@,
                encode_utf8(name@),
                false,
                A::params_spec(),
                param_types(R::params_spec()),
            ),
    {
        self.copy_docs(name.as_bytes());
        let f = ExportedFunction::new::<A, R>(name, false, None);
        let ghost before = self.functions@;
        self.functions.push(f);
        assert(self.functions@.drop_last() =~= before);
    }

    /// Records a mutating function that takes `A` and gives `R`, with the pending documentation.
    pub fn add_function_mut<A: TealMultiValue, R: TealMultiValue>(&mut self, name: &str)
        ensures
            final(self).documentation.map() == old(self).docs_after_copy(encode_utf8(name@)),
            final(self).next_docs is None,
            final(self).same_except(old(self), Some(Slot::MutFunctions)),
            added(
                final(self).mut_functions@,
                old(self).mut_functions@,
                encode_utf8(name@),
                false,
                A::params_spec(),
                param_types(R::params_spec()),
            ),
    {
        self.copy_docs(name.as_bytes());
        let f = ExportedFunction::new::<A, R>(name, false, None);
        let ghost before = self.mut_functions@;
        self.mut_functions.push(f);
        assert(self.mut_functions@.drop_last() =~= before);
    }

    /// Records a meta method of `T` that takes `A` and gives `R`. The pending documentation
    /// goes under the metatable key of `name`.
    pub fn add_meta_method<A: TealMultiValue, R: TealMultiValue, T: ToTypename>(
        &mut self,
        name: MetaMethod,
    )
        ensures
            final(self).documentation.map() == old(self).docs_after_copy(
                encode_utf8(lua_name(name)),
            ),
            final(self).next_docs is None,
            final(self).same_except(old(self), Some(Slot::MetaMethods)),
            added(
                final(self).meta_method@,
                old(self).meta_method@,
                encode_utf8(meta_name(name)),
                true,
                with_self(Some(T::type_spec()), A::params_spec()),
                param_types(R::params_spec()),
            ),
    {
        self.copy_docs(name.name().as_bytes());
        let f = ExportedFunction::new::<A, R>(get_meta_name(name), true, Some(T::to_typename()));
        let ghost before = self.meta_method@;
        self.meta_method.push(f);
        assert(self.meta_method@.drop_last() =~= before);
    }

    /// Records a mutating meta method of `T` that takes `A` and gives `R`. The pending
    /// documentation goes under the metatable key of `name`.
    pub fn add_meta_method_mut<A: TealMultiValue, R: TealMultiValue, T: ToTypename>(
        &mut self,
        name: MetaMethod,
    )
        ensures
            final(self).documentation.map() == old(self).docs_after_copy(
                encode_utf8(lua_name(name)),
            ),
            final(self).next_docs is None,
            final(self).same_except(old(self), Some(Slot::MetaMethodsMut)),
            added(
                final(self).meta_method_mut@,
                old(self).meta_method_mut@,
                encode_utf8(meta_name(name)),
                true,
                with_self(Some(T::type_spec()), A::params_spec()),
                param_types(R::params_spec()),
            ),
    {
        self.copy_docs(name.name().as_bytes());
        let f = ExportedFunction::new::<A, R>(get_meta_name(name), true, Some(T::to_typename()));
        let ghost before = self.meta_method_mut@;
        self.meta_method_mut.push(f);
        assert(self.meta_method_mut@.drop_last() =~= before);
    }

    /// Records a meta function that takes `A` and gives `R`. The pending documentation goes
    /// under the metatable key of `name`.
    pub fn add_meta_function<A: TealMultiValue, R: TealMultiValue>(&mut self, name: MetaMethod)
        ensures
            final(self).documentation.map() == old(self).docs_after_copy(
                encode_utf8(lua_name(name)),
            ),
            final(self).next_docs is None,
            final(self).same_except(old(self), Some(Slot::MetaFunctions)),
            added(
                final(self).meta_function@,
                old(self).meta_function@,
                encode_utf8(meta_name(name)),
                true,
                A::params_spec(),
                param_types(R::params_spec()),
            ),
    {
        self.copy_docs(name.name().as_bytes());
        let f = ExportedFunction::new::<A, R>(get_meta_name(name), true, None);
        let ghost before = self.meta_function@;
        self.meta_function.push(f);
        assert(self.meta_function@.drop_last() =~= before);
    }

    /// Records a mutating meta function that takes `A` and gives `R`. The pending
    /// documentation goes under the metatable key of `name`.
    pub fn add_meta_function_mut<A: TealMultiValue, R: TealMultiValue>(
        &mut self,
        name: MetaMethod,
    )
        ensures
            final(self).documentation.map() == old(self).docs_after_copy(
                encode_utf8(lua_name(name)),
            ),
            final(self).next_docs is None,
            final(self).same_except(old(self), Some(Slot::MetaFunctionsMut)),
            added(
                final(self).meta_function_mut@,
                old(self).meta_function_mut@,
                encode_utf8(meta_name(name)),
                true,
                A::params_spec(),
                param_types(R::params_spec()),
            ),
    {
        self.copy_docs(name.name().as_bytes());
        let f = ExportedFunction::new::<A, R>(get_meta_name(name), true, None);
        let ghost before = self.meta_function_mut@;
        self.meta_function_mut.push(f);
        assert(self.meta_function_mut@.drop_last() =~= before);
    }

    /// Records a static field of the type of `R` under the metatable key of `meta`, with the
    /// pending documentation.
    pub fn add_meta_field_with<R: ToTypename>(&mut self, meta: MetaMethod)
        ensures
            final(self).documentation.map() == old(self).docs_after_copy(
                encode_utf8(lua_name(meta)),
            ),
            final(self).next_docs is None,
            final(self).same_except(old(self), Some(Slot::StaticFields)),
            fields_view(final(self).static_fields@) == fields_view(old(self).static_fields@).push(
                field_of(encode_utf8(lua_name(meta)), R::type_spec()),
            ),
    {
        let name = meta.name();
        self.copy_docs(name.as_bytes());
        let f = Field::from_name_and_type(NameContainer::from_str(name), R::to_typename());
        let ghost before = self.static_fields@;
        self.static_fields.push(f);
        assert(fields_view(self.static_fields@) =~= fields_view(before).push(f@));
    }

    /// Records the function `help`, which takes an optional string and gives a string.
    pub fn generate_help(&mut self)
        ensures
            final(self).documentation == old(self).documentation,
            final(self).next_docs == old(self).next_docs,
            final(self).same_except(old(self), Some(Slot::Functions)),
            added(
                final(self).functions@,
                old(self).functions@,
                encode_utf8("help"@),
                false,
                <Option<String> as TealMultiValue>::params_spec(),
                param_types(<String as TealMultiValue>::params_spec()),
            ),
    {
        let f = ExportedFunction::new::<Option<String>, String>("help", false, None);
        let ghost before = self.functions@;
        self.functions.push(f);
        assert(self.functions@.drop_last() =~= before);
    }
}

// ---------------------------------------------------------------------------------------------
// Writing a record
// ---------------------------------------------------------------------------------------------
/// Names are valid in a concatenation exactly when they are valid in both parts.
pub proof fn lemma_names_valid_concat(a: Seq<ExportedFunction>, b: Seq<ExportedFunction>)
    ensures
        names_valid(a + b) <==> names_valid(a) && names_valid(b),
{
    if names_valid(a + b) {
        assert forall|i: int| 0 <= i < a.len() implies valid_utf8(#[trigger] a[i].name@) by {
            assert((a + b)[i] == a[i]);
        }
        assert forall|i: int| 0 <= i < b.len() implies valid_utf8(#[trigger] b[i].name@) by {
            assert((a + b)[a.len() + i] == b[i]);
        }
    }
    if names_valid(a) && names_valid(b) {
        assert forall|i: int| 0 <= i < (a + b).len() implies valid_utf8(#[trigger] (a + b)[i].name@) by {
            if i < a.len() {
                assert((a + b)[i] == a[i]);
            } else {
                assert((a + b)[i] == b[i - a.len()]);
            }
        }
    }
}

/// True exactly when `name` is among `seen`.
fn contains_name(seen: &Vec<Vec<u8>>, name: &[u8]) -> (r: bool)
    ensures
        r == seen@.map_values(|v: Vec<u8>| v@).contains(name@),
{
    let ghost sv = seen@.map_values(|v: Vec<u8>| v@);
    let mut i: usize = 0;
    while i < seen.len()
        invariant
            i <= seen.len(),
            sv == seen@.map_values(|v: Vec<u8>| v@),
            forall|j: int| 0 <= j < i ==> sv[j] != name@,
        decreases seen.len() - i,
    {
        if bytes_eq(seen[i].as_slice(), name) {
            assert(sv[i as int] == name@);
            return true;
        }
        i = i + 1;
    }
    assert(!sv.contains(name@)) by {
        if sv.contains(name@) {
            let k = choose|k: int| 0 <= k < sv.len() && sv[k] == name@;
            assert(sv[k] != name@);
        }
    }
    false
}

/// The line that declares a field.
fn field_declaration(f: &Field, docs: &DocMap) -> (r: Vec<char>)
    ensures
        r@ == field_line(docs.map(), f@),
{
    let mut out: Vec<char> = Vec::new();
    match docs.get(f.name.as_bytes()) {
        Some(doc) => {
            let d = to_chars(doc.as_str());
            let mut block = prefix_lines(&d, "--");
            out.append(&mut block);
        },
        None => {},
    }
    assert(out@ == doc_comment(docs.map(), f.name@));
    let name = from_utf8_lossy(f.name.as_bytes());
    push_chars(&mut out, &name);
    push_str(&mut out, " : ");
    let t = type_parts_to_str(clone_parts(&f.teal_type));
    push_str(&mut out, t.as_str());
    out
}

/// Adds the lines of the fields of `list` whose name is not in `seen` yet, and their names.
fn add_field_lines(
    list: &Vec<Field>,
    seen: &mut Vec<Vec<u8>>,
    out: &mut Vec<Vec<char>>,
    docs: &DocMap,
    Ghost(prev): Ghost<Seq<FieldV>>,
)
    requires
        old(seen)@.map_values(|v: Vec<u8>| v@) == field_names(first_by_name(prev)),
        old(out)@.map_values(|v: Vec<char>| v@) == field_lines(first_by_name(prev), docs.map()),
    ensures
        final(seen)@.map_values(|v: Vec<u8>| v@) == field_names(
            first_by_name(prev + fields_view(list@)),
        ),
        final(out)@.map_values(|v: Vec<char>| v@) == field_lines(
            first_by_name(prev + fields_view(list@)),
            docs.map(),
        ),
{
    let ghost lv = fields_view(list@);
    let mut i: usize = 0;
    while i < list.len()
        invariant
            i <= list.len(),
            lv == fields_view(list@),
            seen@.map_values(|v: Vec<u8>| v@) == field_names(first_by_name(prev + lv.take(i as int))),
            out@.map_values(|v: Vec<char>| v@) == field_lines(
                first_by_name(prev + lv.take(i as int)),
                docs.map(),
            ),
        decreases list.len() - i,
    {
        let ghost cur = prev + lv.take(i as int);
        let ghost next = prev + lv.take(i + 1);
        assert(next.drop_last() =~= cur);
        assert(next.last() == list@[i as int]@);
        let f = &list[i];
        if !contains_name(seen, f.name.as_bytes()) {
            let ghost sb = seen@;
            let ghost ob = out@;
            seen.push(copy_bytes(f.name.as_bytes()));
            out.push(field_declaration(f, docs));
            assert(seen@.map_values(|v: Vec<u8>| v@) =~= sb.map_values(|v: Vec<u8>| v@).push(
                f.name@,
            ));
            assert(out@.map_values(|v: Vec<char>| v@) =~= ob.map_values(|v: Vec<char>| v@).push(
                field_line(docs.map(), f@),
            ));
            assert(field_names(first_by_name(cur).push(f@)) =~= field_names(first_by_name(cur)).push(
                f.name@,
            ));
            assert(field_lines(first_by_name(cur).push(f@), docs.map()) =~= field_lines(
                first_by_name(cur),
                docs.map(),
            ).push(field_line(docs.map(), f@)));
        }
        i = i + 1;
    }
    assert(lv.take(list.len() as int) =~= lv);
}

/// The lines that declare the fields and then the static fields, each name once.
fn field_declarations(fields: &Vec<Field>, static_fields: &Vec<Field>, docs: &DocMap) -> (r: Vec<
    Vec<char>,
>)
    ensures
        r@.map_values(|v: Vec<char>| v@) == field_lines(
            first_by_name(fields_view(fields@ + static_fields@)),
            docs.map(),
        ),
{
    let mut seen: Vec<Vec<u8>> = Vec::new();
    let mut out: Vec<Vec<char>> = Vec::new();
    assert(seen@.map_values(|v: Vec<u8>| v@) =~= field_names(first_by_name(Seq::empty())));
    assert(out@.map_values(|v: Vec<char>| v@) =~= field_lines(
        first_by_name(Seq::empty()),
        docs.map(),
    ));
    add_field_lines(fields, &mut seen, &mut out, docs, Ghost(Seq::empty()));
    assert(Seq::<FieldV>::empty() + fields_view(fields@) =~= fields_view(fields@));
    add_field_lines(static_fields, &mut seen, &mut out, docs, Ghost(fields_view(fields@)));
    assert(fields_view(fields@) + fields_view(static_fields@) =~= fields_view(
        fields@ + static_fields@,
    ));
    out
}

/// The declaration of each function; fails exactly when a name is not valid UTF-8.
fn declarations_of(fs: &Vec<ExportedFunction>, docs: &DocMap) -> (r: Result<
    Vec<Vec<char>>,
    std::string::FromUtf8Error,
>)
    ensures
        r is Ok <==> names_valid(fs@),
        r matches Ok(v) ==> v@.map_values(|x: Vec<char>| x@) == declarations(fs@, docs.map()),
{
    let mut out: Vec<Vec<char>> = Vec::new();
    let mut i: usize = 0;
    while i < fs.len()
        invariant
            i <= fs.len(),
            forall|j: int| 0 <= j < i ==> valid_utf8(#[trigger] fs@[j].name@),
            out@.map_values(|x: Vec<char>| x@) == declarations(fs@.take(i as int), docs.map()),
        decreases fs.len() - i,
    {
        match fs[i].generate(docs) {
            Ok(text) => {
                let ghost ob = out@;
                out.push(to_chars(text.as_str()));
                assert(fs@.take(i + 1) =~= fs@.take(i as int).push(fs@[i as int]));
                assert(out@.map_values(|x: Vec<char>| x@) =~= ob.map_values(|x: Vec<char>| x@).push(
                    fs@[i as int].declaration(docs.map()),
                ));
                assert(declarations(fs@.take(i + 1), docs.map()) =~= declarations(
                    fs@.take(i as int),
                    docs.map(),
                ).push(fs@[i as int].declaration(docs.map())));
            },
            Err(e) => {
                assert(!valid_utf8(fs@[i as int].name@));
                return Err(e);
            },
        }
        i = i + 1;
    }
    assert(fs@.take(fs.len() as int) =~= fs@);
    Ok(out)
}

/// The section of a record with the given heading: each entry indented by two tabs, the
/// entries separated by empty lines; nothing without entries.
fn combine_function_names(function_list: Vec<Vec<char>>, top_doc: &str) -> (r: Vec<char>)
    ensures
        r@ == section(function_list@.map_values(|v: Vec<char>| v@), top_doc@),
{
    let ghost lv = function_list@.map_values(|v: Vec<char>| v@);
    if function_list.len() == 0 {
        return Vec::new();
    }
    let mut list: Vec<Vec<char>> = Vec::new();
    let mut i: usize = 0;
    while i < function_list.len()
        invariant
            i <= function_list.len(),
            lv == function_list@.map_values(|v: Vec<char>| v@),
            list@.map_values(|v: Vec<char>| v@) == indented(lv.take(i as int)),
        decreases function_list.len() - i,
    {
        let ghost lb = list@;
        list.push(prefix_lines(&function_list[i], "\t\t"));
        assert(list@.map_values(|v: Vec<char>| v@) =~= lb.map_values(|v: Vec<char>| v@).push(
            prefix_each(lines(lv[i as int]), "\t\t"@),
        ));
        assert(indented(lv.take(i + 1)) =~= indented(lv.take(i as int)).push(
            prefix_each(lines(lv[i as int]), "\t\t"@),
        ));
        i = i + 1;
    }
    assert(lv.take(function_list.len() as int) =~= lv);
    let combined = join_texts(&list, "\n");
    let mut out: Vec<char> = Vec::new();
    push_str(&mut out, "\t\t-- ");
    push_str(&mut out, top_doc);
    push_str(&mut out, "\n");
    push_chars(&mut out, &combined);
    push_str(&mut out, "\n");
    out
}

/// Appends the section of the declarations of `fs`; fails exactly when a name is not valid
/// UTF-8, and then leaves `out` as it was.
fn append_section(
    out: &mut Vec<char>,
    fs: &Vec<ExportedFunction>,
    docs: &DocMap,
    top_doc: &str,
) -> (r: Result<(), std::string::FromUtf8Error>)
    ensures
        r is Ok <==> names_valid(fs@),
        r is Ok ==> final(out)@ == old(out)@ + section(declarations(fs@, docs.map()), top_doc@),
        r is Err ==> final(out)@ == old(out)@,
{
    match declarations_of(fs, docs) {
        Ok(list) => {
            let mut text = combine_function_names(list, top_doc);
            out.append(&mut text);
            Ok(())
        },
        Err(e) => Err(e),
    }
}

/// The header of a record named `tn`.
fn header(tn: &String, inlined: bool, user_data: bool) -> (r: Vec<char>)
    ensures
        r@ == header_of(tn@, inlined, user_data),
{
    let mut head: Vec<char> = Vec::new();
    if inlined {
        push_str(&mut head, "-- ");
        push_str(&mut head, tn.as_str());
        push_str(&mut head, "\n");
    } else {
        push_str(&mut head, "record ");
        push_str(&mut head, tn.as_str());
        push_str(&mut head, "\n");
        let userdata_string: Vec<char> = if user_data {
            to_chars("userdata")
        } else {
            Vec::new()
        };
        let mut marks = prefix_lines(&userdata_string, "\t");
        head.append(&mut marks);
    }
    prefix_lines(&head, "\t")
}

impl RecordGenerator {
    /// Names are valid in all lists exactly when they are valid in each.
    proof fn lemma_all_names_valid(&self)
        ensures
            self.all_names_valid() <==> (names_valid(self.methods@) && names_valid(
                self.mut_methods@,
            ) && names_valid(self.functions@) && names_valid(self.mut_functions@) && names_valid(
                self.meta_method@,
            ) && names_valid(self.meta_method_mut@) && names_valid(self.meta_function@)
                && names_valid(self.meta_function_mut@)),
    {
        let s1 = self.methods@ + self.mut_methods@;
        let s2 = s1 + self.functions@;
        let s3 = s2 + self.mut_functions@;
        let s4 = s3 + self.meta_method@;
        let s5 = s4 + self.meta_method_mut@;
        let s6 = s5 + self.meta_function@;
        lemma_names_valid_concat(self.methods@, self.mut_methods@);
        lemma_names_valid_concat(s1, self.functions@);
        lemma_names_valid_concat(s2, self.mut_functions@);
        lemma_names_valid_concat(s3, self.meta_method@);
        lemma_names_valid_concat(s4, self.meta_method_mut@);
        lemma_names_valid_concat(s5, self.meta_function@);
        lemma_names_valid_concat(s6, self.meta_function_mut@);
    }

    /// The sections of the methods and functions; fails exactly when a name is not valid UTF-8.
    fn function_sections(&self) -> (r: Result<Vec<char>, std::string::FromUtf8Error>)
        ensures
            r is Ok <==> self.all_names_valid(),
            r matches Ok(v) ==> v@ == self.functions_text(),
    {
        proof {
            self.lemma_all_names_valid();
        }
        let docs = &self.documentation;
        let mut out: Vec<char> = Vec::new();
        append_section(&mut out, &self.methods, docs, "Pure methods")?;
        append_section(&mut out, &self.mut_methods, docs, "Mutating methods")?;
        append_section(&mut out, &self.functions, docs, "Pure functions")?;
        append_section(&mut out, &self.mut_functions, docs, "Mutating functions")?;
        append_section(&mut out, &self.meta_method, docs, "Meta methods")?;
        append_section(&mut out, &self.meta_method_mut, docs, "Mutating MetaMethods")?;
        append_section(&mut out, &self.meta_function, docs, "Meta functions")?;
        append_section(&mut out, &self.meta_function_mut, docs, "Mutating meta functions")?;
        Ok(out)
    }

    /// Writes the record in Teal syntax. Fails exactly when the name of a method or function
    /// is not valid UTF-8.
    pub fn generate(self) -> (r: Result<String, std::string::FromUtf8Error>)
        ensures
            r is Ok <==> self.all_names_valid(),
            r matches Ok(s) ==> s@ == self.record_text(),
    {
        let tn = type_parts_to_str(clone_parts(&self.type_parts));
        let fields = field_declarations(&self.fields, &self.static_fields, &self.documentation);
        let fields = combine_function_names(fields, "Fields");
        let functions = match self.function_sections() {
            Ok(v) => v,
            Err(e) => {
                return Err(e);
            },
        };
        let head = header(&tn, self.should_be_inlined, self.is_user_data);
        let doc_chars = to_chars(self.type_doc.as_str());
        let mut out = prefix_lines(&doc_chars, "--");
        push_chars(&mut out, &head);
        push_str(&mut out, "\n");
        push_chars(&mut out, &fields);
        push_chars(&mut out, &functions);
        push_str(&mut out, "\n");
        if !self.should_be_inlined {
            push_str(&mut out, "\tend");
        }
        Ok(string_from_chars(&out))
    }
}

// ---------------------------------------------------------------------------------------------
// Type generators
// ---------------------------------------------------------------------------------------------
/// How a type is written down in a `.d.tl` file.
pub enum TypeGenerator {
    /// The type is represented as a record.
    Record(Box<RecordGenerator>),
    /// The type is represented as an enum.
    Enum(EnumGenerator),
}

impl TypeGenerator {
    /// The type that this generator describes.
    pub open spec fn ty_spec(&self) -> Type {
        match self {
            TypeGenerator::Record(x) => x.ty,
            TypeGenerator::Enum(x) => x.ty,
        }
    }

    /// Writes the type in Teal syntax. A record fails exactly when the name of one of its
    /// methods or functions is not valid UTF-8; an enum never fails.
    pub fn generate(self) -> (r: Result<String, std::string::FromUtf8Error>)
        ensures
            match self {
                TypeGenerator::Record(x) => {
                    &&& (r is Ok <==> x.all_names_valid())
                    &&& (r matches Ok(s) ==> s@ == x.record_text())
                },
                TypeGenerator::Enum(x) => r matches Ok(s) && s@ == enum_text(
                    parts_view(x.name@),
                    x.variants@.map_values(|v: NameContainer| v@),
                ),
            },
    {
        match self {
            TypeGenerator::Record(x) => (*x).generate(),
            TypeGenerator::Enum(x) => Ok(x.generate()),
        }
    }

    /// The type that this generator describes.
    pub fn typename(&self) -> (r: &Type)
        ensures
            *r == self.ty_spec(),
    {
        match self {
            TypeGenerator::Record(record_generator) => &record_generator.ty,
            TypeGenerator::Enum(enum_generator) => &enum_generator.ty,
        }
    }

    /// True exactly for a record that should be inlined.
    pub fn is_inlined(&self) -> (r: bool)
        ensures
            r == (self matches TypeGenerator::Record(x) && x.should_be_inlined),
    {
        match self {
            TypeGenerator::Record(record_generator) => record_generator.should_be_inlined,
            TypeGenerator::Enum(_) => false,
        }
    }

    /// The record generator, for a record.
    pub fn record(&self) -> (r: Option<&RecordGenerator>)
        ensures
            match self {
                TypeGenerator::Record(x) => r matches Some(g) && *g == **x,
                TypeGenerator::Enum(_) => r is None,
            },
    {
        match self {
            TypeGenerator::Record(record_generator) => Some(&**record_generator),
            TypeGenerator::Enum(_) => None,
        }
    }
}

impl From<EnumGenerator> for TypeGenerator {
    fn from(a: EnumGenerator) -> (r: Self) {
        TypeGenerator::Enum(a)
    }
}

impl vstd::std_specs::convert::FromSpecImpl<EnumGenerator> for TypeGenerator {
    open spec fn obeys_from_spec() -> bool {
        true
    }

    open spec fn from_spec(a: EnumGenerator) -> TypeGenerator {
        TypeGenerator::Enum(a)
    }
}

impl From<RecordGenerator> for TypeGenerator {
    fn from(a: RecordGenerator) -> (r: Self) {
        TypeGenerator::Record(Box::new(a))
    }
}

impl vstd::std_specs::convert::FromSpecImpl<RecordGenerator> for TypeGenerator {
    open spec fn obeys_from_spec() -> bool {
        true
    }

    open spec fn from_spec(a: RecordGenerator) -> TypeGenerator {
        TypeGenerator::Record(Box::new(a))
    }
}

impl From<Box<RecordGenerator>> for RecordGenerator {
    fn from(x: Box<RecordGenerator>) -> (r: Self) {
        *x
    }
}

impl vstd::std_specs::convert::FromSpecImpl<Box<RecordGenerator>> for RecordGenerator {
    open spec fn obeys_from_spec() -> bool {
        true
    }

    open spec fn from_spec(x: Box<RecordGenerator>) -> RecordGenerator {
        *x
    }
}

/// Creates the body of a type: the fields and functions it exposes.
pub trait TypeBody {
    /// The generator that [`TypeBody::get_type_body`] gives. A type that does not state it
    /// leaves it unknown.
    open spec fn body_spec() -> TypeGenerator {
        arbitrary()
    }

    /// Fills in the generator from which the `.d.tl` file is written.
    fn get_type_body() -> (r: TypeGenerator)
        ensures
            r == Self::body_spec(),
    ;
}

} // verus!

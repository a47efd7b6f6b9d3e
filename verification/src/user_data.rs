//! The parts of exposing a type to Lua that decide what gets documented: the documentation
//! kept while methods and fields are registered, the pages of `.help()`, the proxy type of a
//! userdata, and the type of a typed function.
use vstd::prelude::*;
use vstd::utf8::encode_utf8;

use crate::exported_function::{param_types, with_self, ExportedFunction};
use crate::name_container::{copy_bytes, entry_keys, DocMap, NameContainer};
use crate::name_part::{parts_text, parts_view, NamePart, NamePartV};
use crate::teal_parts::{teal_parts, type_to_string, type_to_teal_parts, AsPartOf};
use crate::to_typename::{one_param, TealMultiValue, ToTypename};
use crate::type_generator::{EnumGenerator, RecordGenerator, TypeBody, TypeGenerator};
use crate::types::{FunctionParam, Name, SingleType, Type, TypeV};

verus! {

// ---------------------------------------------------------------------------------------------
// Proxies
// ---------------------------------------------------------------------------------------------
/// The type of the proxy of a userdata: a single type gets `Class` after its name, so that the
/// proxy of `MyType` is `MyTypeClass`; any other type stays as it is.
pub open spec fn proxy_type_view(t: TypeV) -> TypeV {
    match t {
        TypeV::Single { name, kind, generics } => TypeV::Single {
            name: name + "Class"@,
            kind,
            generics,
        },
        _ => t,
    }
}

/// The proxy type of a given type.
pub fn proxy_type(t: Type) -> (r: Type)
    ensures
        r@ == proxy_type_view(t@),
{
    match t {
        Type::Single(s) => {
            let mut name = String::from_str(s.name.as_str());
            name.append("Class");
            Type::Single(SingleType { name: Name(name), kind: s.kind, generics: s.generics })
        },
        other => other,
    }
}

/// The type of the proxy of a userdata of type `T`, whose static methods and fields it holds.
pub fn user_data_proxy_typename<T: ToTypename>() -> (r: Type)
    ensures
        r@ == proxy_type_view(T::type_spec()),
{
    proxy_type(T::to_typename())
}

/// The documentation of a proxy type whose rendered name, without its last part, is `name`.
pub open spec fn proxy_doc(name: Seq<NamePartV>) -> Seq<char> {
    "Collection of static methods for [`"@ + parts_text(name.drop_last()) + "`]."@
}

/// `r` is the body of a proxy made from `body`, where the proxy's type renders as `parts`: a
/// record keeps only what is static (functions, meta functions, and the static fields, among
/// them the fields read or written through functions) and gets the proxy's name and
/// documentation; an enum gets the proxy's name.
pub open spec fn proxy_body(r: TypeGenerator, body: TypeGenerator, parts: Seq<NamePartV>) -> bool {
    match (body, r) {
        (TypeGenerator::Record(x), TypeGenerator::Record(y)) => {
            &&& parts_view(y.type_parts@) == parts
            &&& y.type_doc@ == proxy_doc(parts)
            &&& y.fields@.len() == 0
            &&& y.methods@.len() == 0
            &&& y.mut_methods@.len() == 0
            &&& y.meta_method@.len() == 0
            &&& y.meta_method_mut@.len() == 0
            &&& y.should_be_inlined == x.should_be_inlined
            &&& y.is_user_data == x.is_user_data
            &&& y.ty == x.ty
            &&& y.static_fields == x.static_fields
            &&& y.functions == x.functions
            &&& y.mut_functions == x.mut_functions
            &&& y.meta_function == x.meta_function
            &&& y.meta_function_mut == x.meta_function_mut
            &&& y.documentation == x.documentation
            &&& y.next_docs == x.next_docs
            &&& y.should_generate_help_method == x.should_generate_help_method
        },
        (TypeGenerator::Enum(x), TypeGenerator::Enum(y)) => {
            &&& parts_view(y.name@) == parts
            &&& y.ty == x.ty
            &&& y.variants == x.variants
            &&& y.type_doc == x.type_doc
        },
        _ => false,
    }
}

/// The body of the proxy of a type with the given body, where the proxy has the type
/// `proxy`, whose rendering must not be empty.
pub fn proxy_type_body_of(body: TypeGenerator, proxy: &Type) -> (r: TypeGenerator)
    requires
        teal_parts(proxy@, false, AsPartOf::Other).len() > 0,
    ensures
        proxy_body(r, body, teal_parts(proxy@, false, AsPartOf::Other)),
{
    let type_parts = type_to_teal_parts(proxy, false);
    match body {
        TypeGenerator::Record(record_generator) => {
            let x = *record_generator;
            let mut type_doc = String::from_str("Collection of static methods for [`");
            let mut i: usize = 0;
            let n: usize = type_parts.len() - 1;
            let ghost pv = parts_view(type_parts@);
            while i < n
                invariant
                    i <= n,
                    n == type_parts@.len() - 1,
                    pv == parts_view(type_parts@),
                    type_doc@ == "Collection of static methods for [`"@ + parts_text(
                        pv.take(i as int),
                    ),
                decreases n - i,
            {
                proof {
                    crate::name_part::lemma_parts_text_push(pv.take(i as int), pv[i as int]);
                    assert(pv.take(i + 1) =~= pv.take(i as int).push(pv[i as int]));
                }
                type_doc.append(type_parts[i].as_ref_str().as_str());
                i = i + 1;
            }
            type_doc.append("`].");
            proof {
                assert(pv.take(n as int) =~= pv.drop_last());
            }
            let y = RecordGenerator {
                type_parts,
                type_doc,
                fields: Vec::new(),
                methods: Vec::new(),
                mut_methods: Vec::new(),
                meta_method: Vec::new(),
                meta_method_mut: Vec::new(),
                should_be_inlined: x.should_be_inlined,
                is_user_data: x.is_user_data,
                ty: x.ty,
                static_fields: x.static_fields,
                functions: x.functions,
                mut_functions: x.mut_functions,
                meta_function: x.meta_function,
                meta_function_mut: x.meta_function_mut,
                documentation: x.documentation,
                next_docs: x.next_docs,
                should_generate_help_method: x.should_generate_help_method,
            };
            TypeGenerator::Record(Box::new(y))
        },
        TypeGenerator::Enum(enum_generator) => {
            TypeGenerator::Enum(
                EnumGenerator {
                    name: type_parts,
                    ty: enum_generator.ty,
                    variants: enum_generator.variants,
                    type_doc: enum_generator.type_doc,
                },
            )
        },
    }
}

/// The body of the proxy of a userdata of type `T`: the static methods and fields of `T`.
pub fn user_data_proxy_type_body<T: ToTypename + TypeBody>() -> (r: TypeGenerator)
    requires
        teal_parts(proxy_type_view(T::type_spec()), false, AsPartOf::Other).len() > 0,
    ensures
        proxy_body(r, T::body_spec(), teal_parts(proxy_type_view(T::type_spec()), false, AsPartOf::Other)),
{
    let body = T::get_type_body();
    let proxy = user_data_proxy_typename::<T>();
    proxy_type_body_of(body, &proxy)
}

// ---------------------------------------------------------------------------------------------
// Documentation of a userdata
// ---------------------------------------------------------------------------------------------
/// Calls `bstr::ByteVec::push_char`, which appends the UTF-8 encoding of the character.
#[verifier::external_body]
fn push_char(v: &mut Vec<u8>, c: char)
    ensures
        final(v)@ == old(v)@ + encode_utf8(seq![c]),
{
    bstr::ByteVec::push_char(v, c)
}

/// The pending documentation, or nothing.
pub open spec fn pending_text(next_docs: Option<String>) -> Seq<char> {
    match next_docs {
        Some(d) => d@,
        None => seq![],
    }
}

/// The type of a function that takes `A` and gives `R`, with a first parameter `self` of the
/// type of `T` for a method.
pub open spec fn function_type_view(
    params: Seq<crate::types::ParamV>,
    rets: Seq<TypeV>,
    self_type: Option<TypeV>,
) -> TypeV {
    TypeV::Function { params: with_self(self_type, params), results: rets }
}

/// The names, each followed by a new line.
pub open spec fn key_listing(keys: Seq<Seq<u8>>) -> Seq<u8>
    decreases keys.len(),
{
    if keys.len() == 0 {
        seq![]
    } else {
        key_listing(keys.drop_last()) + keys.last() + encode_utf8(seq!['\n'])
    }
}

/// What `.help()` answers when it is given no key: the documentation of the type, then the
/// names of the pages that can be asked for, in the order they were documented.
pub open spec fn help_index(type_doc: Seq<char>, docs: DocMap) -> Seq<u8> {
    encode_utf8(type_doc + "\n"@ + "Available pages:\n"@) + key_listing(entry_keys(docs.entries()))
}

/// The answer of `.help()` for a name that has no page.
pub open spec fn help_not_found() -> Seq<char> {
    "The given key is not found. Use `.help()` to list available pages."@
}

/// What `.help(key)` answers: the page of the key, or a note that there is none.
pub open spec fn help_answer(docs: Map<Seq<u8>, Seq<char>>, key: Seq<u8>) -> Seq<u8> {
    if docs.contains_key(key) {
        encode_utf8(docs[key])
    } else {
        encode_utf8(help_not_found())
    }
}

/// The documentation kept while the methods and fields of a userdata are registered, from
/// which its `.help()` pages are answered.
pub struct UserDataDocs {
    /// The page of each method and field.
    pub documentation: DocMap,
    /// Documentation for the type itself.
    pub type_doc: String,
    /// Documentation for the next method or field.
    pub next_docs: Option<String>,
}

impl UserDataDocs {
    /// No pages, no documentation.
    pub fn new() -> (r: Self)
        ensures
            r.documentation.entries().len() == 0,
            r.type_doc@.len() == 0,
            r.next_docs is None,
    {
        UserDataDocs { documentation: DocMap::new(), type_doc: String::new(), next_docs: None }
    }

    /// Writes the page of a method (with `self_type`) or function `to` that takes `A` and gives
    /// `R`: its type, then the pending documentation, which is then cleared.
    pub fn copy_method_docs<A: TealMultiValue, R: TealMultiValue, T: ToTypename>(
        &mut self,
        to: &str,
        self_type: bool,
    )
        ensures
            final(self).documentation.map() == old(self).documentation.map().insert(
                encode_utf8(to@),
                parts_text(
                    teal_parts(
                        function_type_view(
                            A::params_spec(),
                            param_types(R::params_spec()),
                            if self_type {
                                Some(T::type_spec())
                            } else {
                                None
                            },
                        ),
                        false,
                        AsPartOf::Other,
                    ),
                ) + "\n\ndocs:\n"@ + pending_text(old(self).next_docs),
            ),
            final(self).next_docs is None,
            final(self).type_doc == old(self).type_doc,
    {
        let extra_self = if self_type {
            Some(T::to_typename())
        } else {
            None
        };
        let type_def = ExportedFunction::new::<A, R>(to, false, extra_self);
        let generated = type_to_string(&type_def.into_type(), false);
        let mut docs = generated;
        docs.append("\n\ndocs:\n");
        match self.next_docs.take() {
            Some(d) => docs.append(d.as_str()),
            None => {},
        }
        self.documentation.insert(copy_bytes(to.as_bytes()), docs);
    }

    /// Adds the pending documentation, which is then cleared, to the page of the field `name`
    /// of the type of `F`; a field without a page gets one that starts with its type.
    pub fn copy_field_docs<F: ToTypename>(&mut self, name: &str)
        ensures
            final(self).documentation.map() == old(self).documentation.map().insert(
                encode_utf8(name@),
                (if old(self).documentation.map().contains_key(encode_utf8(name@)) {
                    old(self).documentation.map()[encode_utf8(name@)]
                } else {
                    parts_text(teal_parts(F::type_spec(), false, AsPartOf::Other))
                        + "\n\n docs:\n"@
                }) + pending_text(old(self).next_docs),
            ),
            final(self).next_docs is None,
            final(self).type_doc == old(self).type_doc,
    {
        let key = copy_bytes(name.as_bytes());
        let mut current_doc = match self.documentation.remove(key.as_slice()) {
            Some(d) => d,
            None => {
                let mut text = type_to_string(&F::to_typename(), false);
                text.append("\n\n docs:\n");
                text
            },
        };
        match self.next_docs.take() {
            Some(d) => current_doc.append(d.as_str()),
            None => {},
        }
        self.documentation.insert(key, current_doc);
        assert(self.documentation.map() =~= old(self).documentation.map().insert(
            encode_utf8(name@),
            current_doc@,
        ));
    }

    /// Adds documentation to the next method or field, as a paragraph of its own after what is
    /// pending: the two are separated by an empty line.
    pub fn document(&mut self, documentation: &str)
        ensures
            final(self).next_docs is Some,
            final(self).next_docs->0@ == match old(self).next_docs {
                Some(x) => x@ + "\n\n"@ + documentation@,
                None => documentation@,
            },
            final(self).documentation == old(self).documentation,
            final(self).type_doc == old(self).type_doc,
    {
        match self.next_docs.take() {
            Some(x) => {
                let mut x = x;
                x.append("\n\n");
                x.append(documentation);
                self.next_docs = Some(x);
            },
            None => {
                self.next_docs = Some(documentation.to_owned());
            },
        }
    }

    /// Adds a line of documentation to the type itself.
    pub fn document_type(&mut self, documentation: &str)
        ensures
            final(self).type_doc@ == old(self).type_doc@ + documentation@ + "\n"@,
            final(self).documentation == old(self).documentation,
            final(self).next_docs == old(self).next_docs,
    {
        self.type_doc.append(documentation);
        self.type_doc.append("\n");
    }

    /// A copy of the pages and the documentation.
    pub fn copy(&self) -> (r: Self)
        ensures
            r.documentation.entries() == self.documentation.entries(),
            r.type_doc@ == self.type_doc@,
            pending_text(r.next_docs) == pending_text(self.next_docs),
            r.next_docs is Some <==> self.next_docs is Some,
    {
        let next_docs = match &self.next_docs {
            Some(d) => Some(d.clone()),
            None => None,
        };
        UserDataDocs {
            documentation: self.documentation.copy(),
            type_doc: self.type_doc.clone(),
            next_docs,
        }
    }

    /// What `.help()` answers: with a key, the page of that key or a note that there is none;
    /// without one, the documentation of the type and the list of pages.
    pub fn help_page(&self, key: Option<Vec<u8>>) -> (r: Vec<u8>)
        ensures
            match key {
                Some(k) => r@ == help_answer(self.documentation.map(), k@),
                None => r@ == help_index(self.type_doc@, self.documentation),
            },
    {
        match key {
            Some(k) => match self.documentation.get(k.as_slice()) {
                Some(page) => copy_bytes(page.as_str().as_bytes()),
                None => copy_bytes(
                    "The given key is not found. Use `.help()` to list available pages.".as_bytes(),
                ),
            },
            None => {
                let mut head = self.type_doc.clone();
                head.append("\n");
                head.append("Available pages:\n");
                let mut out = copy_bytes(head.as_str().as_bytes());
                let ghost keys = entry_keys(self.documentation.entries());
                let mut i: usize = 0;
                let n = self.documentation.len();
                while i < n
                    invariant
                        i <= n,
                        n == self.documentation.entries().len(),
                        keys == entry_keys(self.documentation.entries()),
                        out@ == encode_utf8(self.type_doc@ + "\n"@ + "Available pages:\n"@)
                            + key_listing(keys.take(i as int)),
                    decreases n - i,
                {
                    let (name, _) = self.documentation.entry(i);
                    let mut name_bytes = copy_bytes(name);
                    out.append(&mut name_bytes);
                    push_char(&mut out, '\n');
                    proof {
                        assert(keys.take(i + 1).drop_last() =~= keys.take(i as int));
                        assert(keys.take(i + 1).last() == keys[i as int]);
                    }
                    i = i + 1;
                }
                proof {
                    assert(keys.len() == n);
                    assert(keys.take(n as int) =~= keys);
                }
                out
            },
        }
    }
}

// ---------------------------------------------------------------------------------------------
// Typed functions
// ---------------------------------------------------------------------------------------------
/// The type of a Lua function that takes `P` and gives `R`.
pub fn typed_function_typename<P: TealMultiValue, R: TealMultiValue>() -> (r: Type)
    ensures
        r@ == (TypeV::Function { params: P::params_spec(), results: param_types(R::params_spec()) }),
{
    Type::Function(
        crate::types::FunctionRepresentation { params: P::get_types_as_params(), returns: R::get_types() },
    )
}

/// Marks what may be sent to another thread; every type may be.
pub trait MaybeSend {}

impl<T> MaybeSend for T {}

// ---------------------------------------------------------------------------------------------
// Converting Lua values
// ---------------------------------------------------------------------------------------------
/// Checks that a Lua sequence of `len` values fits an array of length `n`: it fails, with both
/// lengths, exactly when they differ.
pub fn check_array_len(len: usize, n: usize) -> (r: Result<(), (usize, usize)>)
    ensures
        r is Ok <==> len == n,
        r matches Err(e) ==> e == (len, n),
{
    if len == n {
        Ok(())
    } else {
        Err((len, n))
    }
}

} // verus!

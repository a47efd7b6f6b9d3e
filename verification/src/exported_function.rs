//! The type of a function that a type exposes.
use vstd::prelude::*;
use vstd::utf8::{decode_utf8, encode_utf8, valid_utf8};

use crate::name_container::{DocMap, NameContainer};
use crate::name_part::parts_text;
use crate::teal_parts::{
    dedup, fn_generic_names, fn_generic_types, fn_generics, gen_types_params, gen_types_seq,
    names_view, teal_parts, type_to_string, AsPartOf,
};
use crate::text::{lines, prefix_each, prefix_lines, push_str, string_from_chars, string_from_utf8, to_chars};
use crate::to_typename::TealMultiValue;
use crate::types::{
    clone_params, clone_types, lemma_params_view, lemma_params_view_ext, params_view,
    types_view, FunctionParam, FunctionRepresentation, Name, ParamV, Type, TypeV,
};

verus! {

/// Contains the data needed to write down the type of a function.
pub struct ExportedFunction {
    /// Name of the function.
    pub name: NameContainer,
    /// The parameters that this function requires.
    pub params: Vec<FunctionParam>,
    /// The return types of the function.
    pub returns: Vec<Type>,
    /// If this function is a meta method.
    pub is_meta_method: bool,
}

/// The view of an optional type.
pub open spec fn opt_type_view(t: Option<Type>) -> Option<TypeV> {
    match t {
        Some(x) => Some(x@),
        None => None,
    }
}

/// The parameters of a method: a parameter `self` of the given type first, where there is one.
pub open spec fn with_self(extra_self: Option<TypeV>, params: Seq<ParamV>) -> Seq<ParamV> {
    match extra_self {
        Some(t) => seq![ParamV { name: Some("self"@), ty: t }] + params,
        None => params,
    }
}

/// The types of a sequence of parameters.
pub open spec fn param_types(ps: Seq<ParamV>) -> Seq<TypeV> {
    ps.map_values(|p: ParamV| p.ty)
}

/// The documentation registered under `name`, each line as a Lua comment.
pub open spec fn doc_comment(docs: Map<Seq<u8>, Seq<char>>, name: Seq<u8>) -> Seq<char> {
    if docs.contains_key(name) {
        prefix_each(lines(docs[name]), "--"@)
    } else {
        seq![]
    }
}

impl ExportedFunction {
    /// The function type: its parameters and return types.
    pub open spec fn fn_type(&self) -> TypeV {
        TypeV::Function { params: params_view(self.params@), results: types_view(self.returns@) }
    }

    /// The line of a record that declares this function, with its documentation above it.
    pub open spec fn declaration(&self, docs: Map<Seq<u8>, Seq<char>>) -> Seq<char> {
        doc_comment(docs, self.name@) + (if self.is_meta_method {
            "metamethod "@
        } else {
            seq![]
        }) + decode_utf8(self.name@) + ": "@ + parts_text(
            teal_parts(self.fn_type(), false, AsPartOf::Other),
        )
    }

    /// Turns the exported function into just its type representation.
    pub fn into_type(&self) -> (r: Type)
        ensures
            r@ == self.fn_type(),
    {
        Type::Function(
            FunctionRepresentation {
                params: clone_params(&self.params),
                returns: clone_types(&self.returns),
            },
        )
    }

    /// Creates an ExportedFunction with the given name, parameters and return values.
    /// `extra_self`, where given, becomes a first parameter named `self`.
    pub fn new<A: TealMultiValue, R: TealMultiValue>(
        name: &str,
        is_meta_method: bool,
        extra_self: Option<Type>,
    ) -> (r: Self)
        ensures
            r.name@ == encode_utf8(name@),
            r.is_meta_method == is_meta_method,
            params_view(r.params@) == with_self(opt_type_view(extra_self), A::params_spec()),
            types_view(r.returns@) == param_types(R::params_spec()),
    {
        let params = A::get_types_as_params();
        let ghost pv = params_view(params@);
        let ghost extra_view = opt_type_view(extra_self);
        let params = match extra_self {
            Some(extra_self) => {
                let mut new_params: Vec<FunctionParam> = Vec::new();
                let first = FunctionParam { param_name: Some(Name::new("self")), ty: extra_self };
                new_params.push(first);
                let mut rest = params;
                let ghost rest_seq = rest@;
                new_params.append(&mut rest);
                proof {
                    lemma_params_view(rest_seq);
                    lemma_params_view_ext(
                        new_params@,
                        seq![ParamV { name: Some("self"@), ty: extra_view->0 }] + pv,
                    );
                }
                new_params
            },
            None => params,
        };
        Self {
            name: NameContainer::from_str(name),
            is_meta_method,
            params,
            returns: R::get_types(),
        }
    }

    /// Gets all the generics that this function uses, each distinct name once.
    pub fn get_generics(&self) -> (r: Vec<&Name>)
        ensures
            names_view(r@) == fn_generic_names(params_view(self.params@), types_view(self.returns@)),
            names_view(r@).no_duplicates(),
    {
        let r = fn_generics(&self.params, &self.returns);
        proof {
            crate::teal_parts::lemma_dedup_extend_unique(
                Seq::<Seq<char>>::empty(),
                crate::teal_parts::names_of(
                    gen_types_params(params_view(self.params@)) + gen_types_seq(
                        types_view(self.returns@),
                    ),
                ),
            );
        }
        r
    }

    /// Gets all the generic types that this function uses, each distinct type once.
    pub fn get_generic_types(&self) -> (r: Vec<Type>)
        ensures
            types_view(r@) == dedup(
                gen_types_params(params_view(self.params@)) + gen_types_seq(types_view(self.returns@)),
            ),
            types_view(r@).no_duplicates(),
    {
        fn_generic_types(&self.params, &self.returns)
    }

    /// Writes the line of a record that declares this function, with the documentation
    /// registered under its name above it. Fails exactly when the name is not valid UTF-8.
    pub fn generate(&self, documentation: &DocMap) -> (r: Result<String, std::string::FromUtf8Error>)
        ensures
            r is Ok <==> valid_utf8(self.name@),
            r matches Ok(s) ==> s@ == self.declaration(documentation.map()),
    {
        let signature = type_to_string(&self.into_type(), false);
        let mut out: Vec<char> = Vec::new();
        match documentation.get(self.name.as_bytes()) {
            Some(doc) => {
                let doc_chars = to_chars(doc.as_str());
                let block = prefix_lines(&doc_chars, "--");
                let mut block = block;
                out.append(&mut block);
            },
            None => {},
        }
        assert(out@ == doc_comment(documentation.map(), self.name@));
        if self.is_meta_method {
            push_str(&mut out, "metamethod ");
        }
        let ghost name_view = self.name@;
        let ghost head = out@;
        match string_from_utf8(crate::name_container::copy_bytes(self.name.as_bytes())) {
            Ok(name) => {
                push_str(&mut out, name.as_str());
                push_str(&mut out, ": ");
                push_str(&mut out, signature.as_str());
                Ok(string_from_chars(&out))
            },
            Err(e) => Err(e),
        }
    }
}

impl Clone for ExportedFunction {
    fn clone(&self) -> (r: Self)
        ensures
            r.name@ == self.name@,
            params_view(r.params@) == params_view(self.params@),
            types_view(r.returns@) == types_view(self.returns@),
            r.is_meta_method == self.is_meta_method,
    {
        ExportedFunction {
            name: self.name.clone(),
            params: clone_params(&self.params),
            returns: clone_types(&self.returns),
            is_meta_method: self.is_meta_method,
        }
    }
}

} // verus!

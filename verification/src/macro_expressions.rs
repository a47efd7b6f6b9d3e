//! Teal macro expressions: functions that the Teal compiler inlines.
use vstd::prelude::*;
use vstd::utf8::encode_utf8;

use crate::name_container::NameContainer;
use crate::text::utf8_lossy;
use crate::to_typename::ToTypename;
use crate::type_generator::{fields_view, Field, FieldV};
use crate::types::{
    lemma_params_view, lemma_params_view_ext, lemma_types_view_ext, params_view, types_view,
    FunctionParam, FunctionRepresentation, Name, ParamV, Type, TypeV,
};

verus! {

/// Teal supports [macro expressions](https://teal-language.org/book/macroexp.html):
/// functions that get inlined by the compiler.
///
/// The emitted syntax looks like
/// `[metamethod] {name}: function[<{generics}>]({args}): {return} = macroexp({args}):{returns} {expr} end`.
pub struct MacroExpr {
    /// The name of the macro expression.
    pub name: NameContainer,
    /// This is used to create the signature.
    pub signature: FunctionRepresentation,
    /// The expression. You have to add the `return` keyword yourself. The `end` is added automatically.
    pub expr: String,
    /// Whether the macro expression defines a metamethod.
    pub is_meta_method: bool,
}

/// The parameters made from fields: each named after its field, which may not be valid UTF-8.
pub open spec fn fields_as_params(args: Seq<FieldV>) -> Seq<ParamV> {
    args.map_values(|f: FieldV| ParamV { name: Some(utf8_lossy(f.name)), ty: f.ty })
}

impl MacroExpr {
    /// Creates a new macro expression that returns one value.
    pub fn new(name: &str, args: Vec<Field>, return_type: Type, expr: String, is_meta_method: bool) -> (r: Self)
        ensures
            r.name@ == encode_utf8(name@),
            params_view(r.signature.params@) == fields_as_params(fields_view(args@)),
            types_view(r.signature.returns@) == seq![return_type@],
            r.expr == expr,
            r.is_meta_method == is_meta_method,
    {
        let ghost fv = fields_view(args@);
        let mut args = args;
        let mut rev: Vec<FunctionParam> = Vec::new();
        let ghost n = args.len();
        while args.len() > 0
            invariant
                args.len() + rev.len() == n,
                fv.len() == n,
                forall|j: int| 0 <= j < args.len() ==> (#[trigger] args@[j])@ == fv[j],
                forall|j: int|
                    0 <= j < rev.len() ==> (#[trigger] rev@[j])@ == fields_as_params(fv)[n - 1 - j],
            decreases args.len(),
        {
            let f = args.pop().unwrap();
            let p = FunctionParam { param_name: Some(Name(f.name.to_string())), ty: f.ty };
            rev.push(p);
        }
        let mut params: Vec<FunctionParam> = Vec::new();
        while rev.len() > 0
            invariant
                rev.len() + params.len() == n,
                fv.len() == n,
                forall|j: int|
                    0 <= j < rev.len() ==> (#[trigger] rev@[j])@ == fields_as_params(fv)[n - 1 - j],
                forall|j: int| 0 <= j < params.len() ==> (#[trigger] params@[j])@ == fields_as_params(fv)[j],
            decreases rev.len(),
        {
            let p = rev.pop().unwrap();
            params.push(p);
        }
        proof {
            lemma_params_view_ext(params@, fields_as_params(fv));
        }
        let mut rets: Vec<Type> = Vec::new();
        rets.push(return_type);
        proof {
            lemma_types_view_ext(rets@, seq![return_type@]);
        }
        Self {
            name: NameContainer::from_str(name),
            signature: FunctionRepresentation { params, returns: rets },
            expr,
            is_meta_method,
        }
    }

    /// Creates a new macro expression that acts as a metamethod.
    pub fn new_meta(name: &str, args: Vec<Field>, return_type: Type, expr: String) -> (r: Self)
        ensures
            r.name@ == encode_utf8(name@),
            params_view(r.signature.params@) == fields_as_params(fields_view(args@)),
            types_view(r.signature.returns@) == seq![return_type@],
            r.expr == expr,
            r.is_meta_method,
    {
        Self::new(name, args, return_type, expr, true)
    }

    /// Creates a new macro expression that acts as a normal method.
    pub fn new_method(name: &str, args: Vec<Field>, return_type: Type, expr: String) -> (r: Self)
        ensures
            r.name@ == encode_utf8(name@),
            params_view(r.signature.params@) == fields_as_params(fields_view(args@)),
            types_view(r.signature.returns@) == seq![return_type@],
            r.expr == expr,
            !r.is_meta_method,
    {
        Self::new(name, args, return_type, expr, false)
    }
}

/// Registers macro expressions on a type.
pub trait TealDataMacros<T: ToTypename> {
    /// Adds a macro expression that gives a value of the type of `R`.
    fn add_macro<R: ToTypename>(&mut self, name: &str, args: Vec<Field>, expr: String) -> &mut Self;

    /// Adds a macro expression that defines a meta method and gives a value of the type of `R`.
    fn add_meta_method_macro<R: ToTypename>(
        &mut self,
        name: &str,
        args: Vec<Field>,
        expr: String,
    ) -> &mut Self;

    /// Adds documentation to the next macro expression.
    fn document(&mut self, documentation: &str) -> &mut Self;
}

} // verus!

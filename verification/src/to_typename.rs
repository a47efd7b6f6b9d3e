//! Turning Rust types into their Teal type representation.
use vstd::prelude::*;

use crate::name_part::{parts_view, NamePart, NamePartV, TealType};
use crate::types::{
    lemma_params_view, lemma_params_view_push, params_view, types_view, FunctionParam,
    FunctionRepresentation, KindOfType, MapRepresentation, Name, ParamV, Type, TypeV,
};

verus! {

/// bstr's `BString`, a byte string; only its type is used here.
#[verifier::external_type_specification]
#[verifier::external_body]
pub struct ExBString(bstr::BString);

/// mlua's `Table`; only its type is used here.
#[verifier::external_type_specification]
#[verifier::external_body]
pub struct ExLuaTable(mlua::Table);

/// mlua's `Value`; only its type is used here.
#[verifier::external_type_specification]
#[verifier::external_body]
pub struct ExLuaValue(mlua::Value);

/// mlua's `String`; only its type is used here.
#[verifier::external_type_specification]
#[verifier::external_body]
pub struct ExLuaString(mlua::String);

/// mlua's `Function`; only its type is used here.
#[verifier::external_type_specification]
#[verifier::external_body]
pub struct ExLuaFunction(mlua::Function);

/// mlua's `Thread`; only its type is used here.
#[verifier::external_type_specification]
#[verifier::external_body]
pub struct ExLuaThread(mlua::Thread);

/// mlua's `Variadic`; only its type is used here.
#[verifier::external_type_specification]
#[verifier::external_body]
#[verifier::reject_recursive_types(T)]
pub struct ExLuaVariadic<T>(mlua::Variadic<T>);

/// mlua's `UserDataRef`; only its type is used here.
#[verifier::external_type_specification]
#[verifier::external_body]
#[verifier::reject_recursive_types(T)]
pub struct ExLuaUserDataRef<T: 'static>(mlua::UserDataRef<T>);

/// mlua's `UserDataRefMut`; only its type is used here.
#[verifier::external_type_specification]
#[verifier::external_body]
#[verifier::reject_recursive_types(T)]
pub struct ExLuaUserDataRefMut<T: 'static>(mlua::UserDataRefMut<T>);

/// A builtin type of the given name, without generics.
pub open spec fn builtin(name: Seq<char>) -> TypeV {
    TypeV::Single { name, kind: KindOfType::Builtin, generics: seq![] }
}

/// Turns a Rust type into a type representation for Lua/Teal.
pub trait ToTypename {
    /// The view of the type representation. Every type of this library states its own; for a
    /// type that does not, nothing is known of it.
    open spec fn type_spec() -> TypeV {
        arbitrary()
    }

    /// Generates the type representation.
    fn to_typename() -> (r: Type)
        ensures
            r@ == Self::type_spec(),
    ;

    /// The views of the parameters that this type stands for.
    open spec fn param_spec() -> Seq<ParamV> {
        seq![ParamV { name: None, ty: Self::type_spec() }]
    }

    /// Generates the type representation when used as a parameter.
    /// [`default_function_param`] gives the usual answer: one parameter without a name.
    fn to_function_param() -> (r: Vec<FunctionParam>)
        ensures
            params_view(r@) == Self::param_spec(),
    ;
}

/// One parameter without a name, of the given type.
pub fn one_param(ty: Type) -> (r: Vec<FunctionParam>)
    ensures
        params_view(r@) == seq![ParamV { name: None, ty: ty@ }],
{
    let mut v: Vec<FunctionParam> = Vec::new();
    let p = FunctionParam { param_name: None, ty };
    v.push(p);
    proof {
        lemma_params_view_push(Seq::<FunctionParam>::empty(), p);
        assert(Seq::<FunctionParam>::empty().push(p) =~= v@);
    }
    v
}

/// One parameter without a name, of the type of `T`: what `to_function_param` gives
/// for most types.
pub fn default_function_param<T: ToTypename>() -> (r: Vec<FunctionParam>)
    ensures
        params_view(r@) == seq![ParamV { name: None, ty: T::type_spec() }],
{
    one_param(T::to_typename())
}

/// The older way to describe a type: as it is written in a `.d.tl` file, in parts.
pub trait TypeName {
    /// The view of the parts that [`TypeName::get_type_parts`] gives. A type that does not
    /// state it leaves it unknown.
    open spec fn type_parts_spec() -> Seq<NamePartV> {
        arbitrary()
    }

    /// The type as it shows up in the generated `.d.tl` file.
    fn get_type_parts() -> (r: Vec<NamePart>)
        ensures
            parts_view(r@) == Self::type_parts_spec(),
    ;

    /// The type as it shows up where it describes a global value; the same as
    /// [`TypeName::get_type_parts`] unless a type says otherwise.
    fn get_type_parts_as_global() -> (r: Vec<NamePart>)
        default_ensures
            parts_view(r@) == Self::type_parts_spec(),
    {
        Self::get_type_parts()
    }

    /// Whether the type is built in, comes from a library, or stands in for a generic.
    fn get_type_kind() -> (r: KindOfType)
        default_ensures
            r == KindOfType::External,
    {
        KindOfType::External
    }

    /// Adds every child type of this type; a type has none unless it says otherwise.
    fn collect_children(children: &mut Vec<TealType>)
        default_ensures
            final(children)@ == old(children)@,
    {
    }
}

/// A collection of types, as used for the parameters and the return types of functions.
/// Order *is* important.
pub trait TealMultiValue {
    /// The views of the parameters.
    spec fn params_spec() -> Seq<ParamV>;

    /// Gets the type representations as used for function parameters.
    fn get_types_as_params() -> (r: Vec<FunctionParam>)
        ensures
            params_view(r@) == Self::params_spec(),
    ;

    /// Gets the types contained in this collection.
    fn get_types() -> (r: Vec<Type>)
        ensures
            types_view(r@) == Self::params_spec().map_values(|p: ParamV| p.ty),
    {
        let params = Self::get_types_as_params();
        let ghost pv = params_view(params@);
        proof {
            lemma_params_view(params@);
        }
        let mut types: Vec<Type> = Vec::new();
        let mut i: usize = 0;
        while i < params.len()
            invariant
                i <= params.len(),
                pv == Self::params_spec(),
                pv.len() == params.len(),
                forall|j: int| 0 <= j < params.len() ==> #[trigger] params@[j]@ == pv[j],
                types@.len() == i,
                forall|j: int| 0 <= j < i ==> crate::types::type_view(#[trigger] types@[j]) == pv[j].ty,
            decreases params.len() - i,
        {
            assert(params@[i as int]@ == pv[i as int]);
            let t = params[i].ty.deep_clone();
            types.push(t);
            i = i + 1;
        }
        proof {
            crate::types::lemma_types_view_ext(types@, pv.map_values(|p: ParamV| p.ty));
        }
        types
    }
}

/// Appends the parameters of `src`.
pub fn append_params(dst: &mut Vec<FunctionParam>, src: Vec<FunctionParam>)
    ensures
        params_view(final(dst)@) == params_view(old(dst)@) + params_view(src@),
{
    let mut src = src;
    let ghost sv = src@;
    dst.append(&mut src);
    proof {
        lemma_params_view(old(dst)@);
        lemma_params_view(sv);
        crate::types::lemma_params_view_ext(dst@, params_view(old(dst)@) + params_view(sv));
    }
}

impl TealMultiValue for () {
    open spec fn params_spec() -> Seq<ParamV> {
        seq![]
    }

    fn get_types_as_params() -> (r: Vec<FunctionParam>) {
        let v: Vec<FunctionParam> = Vec::new();
        assert(params_view(v@) =~= Seq::<ParamV>::empty());
        v
    }
}

impl<A: ToTypename> TealMultiValue for A {
    open spec fn params_spec() -> Seq<ParamV> {
        A::param_spec()
    }

    fn get_types_as_params() -> (r: Vec<FunctionParam>) {
        A::to_function_param()
    }
}


impl<A: ToTypename> TealMultiValue for (A,) {
    open spec fn params_spec() -> Seq<ParamV> {
        seq![] + A::param_spec()
    }

    fn get_types_as_params() -> (r: Vec<FunctionParam>) {
        let mut params: Vec<FunctionParam> = Vec::new();
        assert(params_view(params@) =~= Seq::<ParamV>::empty());
        append_params(&mut params, A::to_function_param());
        params
    }
}

impl<A: ToTypename, B: ToTypename> TealMultiValue for (A, B) {
    open spec fn params_spec() -> Seq<ParamV> {
        seq![] + A::param_spec() + B::param_spec()
    }

    fn get_types_as_params() -> (r: Vec<FunctionParam>) {
        let mut params: Vec<FunctionParam> = Vec::new();
        assert(params_view(params@) =~= Seq::<ParamV>::empty());
        append_params(&mut params, A::to_function_param());
        append_params(&mut params, B::to_function_param());
        params
    }
}

impl<A: ToTypename, B: ToTypename, C: ToTypename> TealMultiValue for (A, B, C) {
    open spec fn params_spec() -> Seq<ParamV> {
        seq![] + A::param_spec() + B::param_spec() + C::param_spec()
    }

    fn get_types_as_params() -> (r: Vec<FunctionParam>) {
        let mut params: Vec<FunctionParam> = Vec::new();
        assert(params_view(params@) =~= Seq::<ParamV>::empty());
        append_params(&mut params, A::to_function_param());
        append_params(&mut params, B::to_function_param());
        append_params(&mut params, C::to_function_param());
        params
    }
}

impl<A: ToTypename, B: ToTypename, C: ToTypename, D: ToTypename> TealMultiValue for (A, B, C, D) {
    open spec fn params_spec() -> Seq<ParamV> {
        seq![] + A::param_spec() + B::param_spec() + C::param_spec() + D::param_spec()
    }

    fn get_types_as_params() -> (r: Vec<FunctionParam>) {
        let mut params: Vec<FunctionParam> = Vec::new();
        assert(params_view(params@) =~= Seq::<ParamV>::empty());
        append_params(&mut params, A::to_function_param());
        append_params(&mut params, B::to_function_param());
        append_params(&mut params, C::to_function_param());
        append_params(&mut params, D::to_function_param());
        params
    }
}

impl<A: ToTypename, B: ToTypename, C: ToTypename, D: ToTypename, E: ToTypename> TealMultiValue for (A, B, C, D, E) {
    open spec fn params_spec() -> Seq<ParamV> {
        seq![] + A::param_spec() + B::param_spec() + C::param_spec() + D::param_spec() + E::param_spec()
    }

    fn get_types_as_params() -> (r: Vec<FunctionParam>) {
        let mut params: Vec<FunctionParam> = Vec::new();
        assert(params_view(params@) =~= Seq::<ParamV>::empty());
        append_params(&mut params, A::to_function_param());
        append_params(&mut params, B::to_function_param());
        append_params(&mut params, C::to_function_param());
        append_params(&mut params, D::to_function_param());
        append_params(&mut params, E::to_function_param());
        params
    }
}

impl<A: ToTypename, B: ToTypename, C: ToTypename, D: ToTypename, E: ToTypename, F: ToTypename> TealMultiValue for (A, B, C, D, E, F) {
    open spec fn params_spec() -> Seq<ParamV> {
        seq![] + A::param_spec() + B::param_spec() + C::param_spec() + D::param_spec() + E::param_spec() + F::param_spec()
    }

    fn get_types_as_params() -> (r: Vec<FunctionParam>) {
        let mut params: Vec<FunctionParam> = Vec::new();
        assert(params_view(params@) =~= Seq::<ParamV>::empty());
        append_params(&mut params, A::to_function_param());
        append_params(&mut params, B::to_function_param());
        append_params(&mut params, C::to_function_param());
        append_params(&mut params, D::to_function_param());
        append_params(&mut params, E::to_function_param());
        append_params(&mut params, F::to_function_param());
        params
    }
}

impl<A: ToTypename, B: ToTypename, C: ToTypename, D: ToTypename, E: ToTypename, F: ToTypename, G: ToTypename> TealMultiValue for (A, B, C, D, E, F, G) {
    open spec fn params_spec() -> Seq<ParamV> {
        seq![] + A::param_spec() + B::param_spec() + C::param_spec() + D::param_spec() + E::param_spec() + F::param_spec() + G::param_spec()
    }

    fn get_types_as_params() -> (r: Vec<FunctionParam>) {
        let mut params: Vec<FunctionParam> = Vec::new();
        assert(params_view(params@) =~= Seq::<ParamV>::empty());
        append_params(&mut params, A::to_function_param());
        append_params(&mut params, B::to_function_param());
        append_params(&mut params, C::to_function_param());
        append_params(&mut params, D::to_function_param());
        append_params(&mut params, E::to_function_param());
        append_params(&mut params, F::to_function_param());
        append_params(&mut params, G::to_function_param());
        params
    }
}

impl<A: ToTypename, B: ToTypename, C: ToTypename, D: ToTypename, E: ToTypename, F: ToTypename, G: ToTypename, H: ToTypename> TealMultiValue for (A, B, C, D, E, F, G, H) {
    open spec fn params_spec() -> Seq<ParamV> {
        seq![] + A::param_spec() + B::param_spec() + C::param_spec() + D::param_spec() + E::param_spec() + F::param_spec() + G::param_spec() + H::param_spec()
    }

    fn get_types_as_params() -> (r: Vec<FunctionParam>) {
        let mut params: Vec<FunctionParam> = Vec::new();
        assert(params_view(params@) =~= Seq::<ParamV>::empty());
        append_params(&mut params, A::to_function_param());
        append_params(&mut params, B::to_function_param());
        append_params(&mut params, C::to_function_param());
        append_params(&mut params, D::to_function_param());
        append_params(&mut params, E::to_function_param());
        append_params(&mut params, F::to_function_param());
        append_params(&mut params, G::to_function_param());
        append_params(&mut params, H::to_function_param());
        params
    }
}

impl<A: ToTypename, B: ToTypename, C: ToTypename, D: ToTypename, E: ToTypename, F: ToTypename, G: ToTypename, H: ToTypename, I: ToTypename> TealMultiValue for (A, B, C, D, E, F, G, H, I) {
    open spec fn params_spec() -> Seq<ParamV> {
        seq![] + A::param_spec() + B::param_spec() + C::param_spec() + D::param_spec() + E::param_spec() + F::param_spec() + G::param_spec() + H::param_spec() + I::param_spec()
    }

    fn get_types_as_params() -> (r: Vec<FunctionParam>) {
        let mut params: Vec<FunctionParam> = Vec::new();
        assert(params_view(params@) =~= Seq::<ParamV>::empty());
        append_params(&mut params, A::to_function_param());
        append_params(&mut params, B::to_function_param());
        append_params(&mut params, C::to_function_param());
        append_params(&mut params, D::to_function_param());
        append_params(&mut params, E::to_function_param());
        append_params(&mut params, F::to_function_param());
        append_params(&mut params, G::to_function_param());
        append_params(&mut params, H::to_function_param());
        append_params(&mut params, I::to_function_param());
        params
    }
}

impl<A: ToTypename, B: ToTypename, C: ToTypename, D: ToTypename, E: ToTypename, F: ToTypename, G: ToTypename, H: ToTypename, I: ToTypename, J: ToTypename> TealMultiValue for (A, B, C, D, E, F, G, H, I, J) {
    open spec fn params_spec() -> Seq<ParamV> {
        seq![] + A::param_spec() + B::param_spec() + C::param_spec() + D::param_spec() + E::param_spec() + F::param_spec() + G::param_spec() + H::param_spec() + I::param_spec() + J::param_spec()
    }

    fn get_types_as_params() -> (r: Vec<FunctionParam>) {
        let mut params: Vec<FunctionParam> = Vec::new();
        assert(params_view(params@) =~= Seq::<ParamV>::empty());
        append_params(&mut params, A::to_function_param());
        append_params(&mut params, B::to_function_param());
        append_params(&mut params, C::to_function_param());
        append_params(&mut params, D::to_function_param());
        append_params(&mut params, E::to_function_param());
        append_params(&mut params, F::to_function_param());
        append_params(&mut params, G::to_function_param());
        append_params(&mut params, H::to_function_param());
        append_params(&mut params, I::to_function_param());
        append_params(&mut params, J::to_function_param());
        params
    }
}

impl<A: ToTypename, B: ToTypename, C: ToTypename, D: ToTypename, E: ToTypename, F: ToTypename, G: ToTypename, H: ToTypename, I: ToTypename, J: ToTypename, K: ToTypename> TealMultiValue for (A, B, C, D, E, F, G, H, I, J, K) {
    open spec fn params_spec() -> Seq<ParamV> {
        seq![] + A::param_spec() + B::param_spec() + C::param_spec() + D::param_spec() + E::param_spec() + F::param_spec() + G::param_spec() + H::param_spec() + I::param_spec() + J::param_spec() + K::param_spec()
    }

    fn get_types_as_params() -> (r: Vec<FunctionParam>) {
        let mut params: Vec<FunctionParam> = Vec::new();
        assert(params_view(params@) =~= Seq::<ParamV>::empty());
        append_params(&mut params, A::to_function_param());
        append_params(&mut params, B::to_function_param());
        append_params(&mut params, C::to_function_param());
        append_params(&mut params, D::to_function_param());
        append_params(&mut params, E::to_function_param());
        append_params(&mut params, F::to_function_param());
        append_params(&mut params, G::to_function_param());
        append_params(&mut params, H::to_function_param());
        append_params(&mut params, I::to_function_param());
        append_params(&mut params, J::to_function_param());
        append_params(&mut params, K::to_function_param());
        params
    }
}

impl<A: ToTypename, B: ToTypename, C: ToTypename, D: ToTypename, E: ToTypename, F: ToTypename, G: ToTypename, H: ToTypename, I: ToTypename, J: ToTypename, K: ToTypename, L: ToTypename> TealMultiValue for (A, B, C, D, E, F, G, H, I, J, K, L) {
    open spec fn params_spec() -> Seq<ParamV> {
        seq![] + A::param_spec() + B::param_spec() + C::param_spec() + D::param_spec() + E::param_spec() + F::param_spec() + G::param_spec() + H::param_spec() + I::param_spec() + J::param_spec() + K::param_spec() + L::param_spec()
    }

    fn get_types_as_params() -> (r: Vec<FunctionParam>) {
        let mut params: Vec<FunctionParam> = Vec::new();
        assert(params_view(params@) =~= Seq::<ParamV>::empty());
        append_params(&mut params, A::to_function_param());
        append_params(&mut params, B::to_function_param());
        append_params(&mut params, C::to_function_param());
        append_params(&mut params, D::to_function_param());
        append_params(&mut params, E::to_function_param());
        append_params(&mut params, F::to_function_param());
        append_params(&mut params, G::to_function_param());
        append_params(&mut params, H::to_function_param());
        append_params(&mut params, I::to_function_param());
        append_params(&mut params, J::to_function_param());
        append_params(&mut params, K::to_function_param());
        append_params(&mut params, L::to_function_param());
        params
    }
}

impl<A: ToTypename, B: ToTypename, C: ToTypename, D: ToTypename, E: ToTypename, F: ToTypename, G: ToTypename, H: ToTypename, I: ToTypename, J: ToTypename, K: ToTypename, L: ToTypename, M: ToTypename> TealMultiValue for (A, B, C, D, E, F, G, H, I, J, K, L, M) {
    open spec fn params_spec() -> Seq<ParamV> {
        seq![] + A::param_spec() + B::param_spec() + C::param_spec() + D::param_spec() + E::param_spec() + F::param_spec() + G::param_spec() + H::param_spec() + I::param_spec() + J::param_spec() + K::param_spec() + L::param_spec() + M::param_spec()
    }

    fn get_types_as_params() -> (r: Vec<FunctionParam>) {
        let mut params: Vec<FunctionParam> = Vec::new();
        assert(params_view(params@) =~= Seq::<ParamV>::empty());
        append_params(&mut params, A::to_function_param());
        append_params(&mut params, B::to_function_param());
        append_params(&mut params, C::to_function_param());
        append_params(&mut params, D::to_function_param());
        append_params(&mut params, E::to_function_param());
        append_params(&mut params, F::to_function_param());
        append_params(&mut params, G::to_function_param());
        append_params(&mut params, H::to_function_param());
        append_params(&mut params, I::to_function_param());
        append_params(&mut params, J::to_function_param());
        append_params(&mut params, K::to_function_param());
        append_params(&mut params, L::to_function_param());
        append_params(&mut params, M::to_function_param());
        params
    }
}

impl<A: ToTypename, B: ToTypename, C: ToTypename, D: ToTypename, E: ToTypename, F: ToTypename, G: ToTypename, H: ToTypename, I: ToTypename, J: ToTypename, K: ToTypename, L: ToTypename, M: ToTypename, N: ToTypename> TealMultiValue for (A, B, C, D, E, F, G, H, I, J, K, L, M, N) {
    open spec fn params_spec() -> Seq<ParamV> {
        seq![] + A::param_spec() + B::param_spec() + C::param_spec() + D::param_spec() + E::param_spec() + F::param_spec() + G::param_spec() + H::param_spec() + I::param_spec() + J::param_spec() + K::param_spec() + L::param_spec() + M::param_spec() + N::param_spec()
    }

    fn get_types_as_params() -> (r: Vec<FunctionParam>) {
        let mut params: Vec<FunctionParam> = Vec::new();
        assert(params_view(params@) =~= Seq::<ParamV>::empty());
        append_params(&mut params, A::to_function_param());
        append_params(&mut params, B::to_function_param());
        append_params(&mut params, C::to_function_param());
        append_params(&mut params, D::to_function_param());
        append_params(&mut params, E::to_function_param());
        append_params(&mut params, F::to_function_param());
        append_params(&mut params, G::to_function_param());
        append_params(&mut params, H::to_function_param());
        append_params(&mut params, I::to_function_param());
        append_params(&mut params, J::to_function_param());
        append_params(&mut params, K::to_function_param());
        append_params(&mut params, L::to_function_param());
        append_params(&mut params, M::to_function_param());
        append_params(&mut params, N::to_function_param());
        params
    }
}

impl<A: ToTypename, B: ToTypename, C: ToTypename, D: ToTypename, E: ToTypename, F: ToTypename, G: ToTypename, H: ToTypename, I: ToTypename, J: ToTypename, K: ToTypename, L: ToTypename, M: ToTypename, N: ToTypename, O: ToTypename> TealMultiValue for (A, B, C, D, E, F, G, H, I, J, K, L, M, N, O) {
    open spec fn params_spec() -> Seq<ParamV> {
        seq![] + A::param_spec() + B::param_spec() + C::param_spec() + D::param_spec() + E::param_spec() + F::param_spec() + G::param_spec() + H::param_spec() + I::param_spec() + J::param_spec() + K::param_spec() + L::param_spec() + M::param_spec() + N::param_spec() + O::param_spec()
    }

    fn get_types_as_params() -> (r: Vec<FunctionParam>) {
        let mut params: Vec<FunctionParam> = Vec::new();
        assert(params_view(params@) =~= Seq::<ParamV>::empty());
        append_params(&mut params, A::to_function_param());
        append_params(&mut params, B::to_function_param());
        append_params(&mut params, C::to_function_param());
        append_params(&mut params, D::to_function_param());
        append_params(&mut params, E::to_function_param());
        append_params(&mut params, F::to_function_param());
        append_params(&mut params, G::to_function_param());
        append_params(&mut params, H::to_function_param());
        append_params(&mut params, I::to_function_param());
        append_params(&mut params, J::to_function_param());
        append_params(&mut params, K::to_function_param());
        append_params(&mut params, L::to_function_param());
        append_params(&mut params, M::to_function_param());
        append_params(&mut params, N::to_function_param());
        append_params(&mut params, O::to_function_param());
        params
    }
}

impl<A: ToTypename, B: ToTypename, C: ToTypename, D: ToTypename, E: ToTypename, F: ToTypename, G: ToTypename, H: ToTypename, I: ToTypename, J: ToTypename, K: ToTypename, L: ToTypename, M: ToTypename, N: ToTypename, O: ToTypename, P: ToTypename> TealMultiValue for (A, B, C, D, E, F, G, H, I, J, K, L, M, N, O, P) {
    open spec fn params_spec() -> Seq<ParamV> {
        seq![] + A::param_spec() + B::param_spec() + C::param_spec() + D::param_spec() + E::param_spec() + F::param_spec() + G::param_spec() + H::param_spec() + I::param_spec() + J::param_spec() + K::param_spec() + L::param_spec() + M::param_spec() + N::param_spec() + O::param_spec() + P::param_spec()
    }

    fn get_types_as_params() -> (r: Vec<FunctionParam>) {
        let mut params: Vec<FunctionParam> = Vec::new();
        assert(params_view(params@) =~= Seq::<ParamV>::empty());
        append_params(&mut params, A::to_function_param());
        append_params(&mut params, B::to_function_param());
        append_params(&mut params, C::to_function_param());
        append_params(&mut params, D::to_function_param());
        append_params(&mut params, E::to_function_param());
        append_params(&mut params, F::to_function_param());
        append_params(&mut params, G::to_function_param());
        append_params(&mut params, H::to_function_param());
        append_params(&mut params, I::to_function_param());
        append_params(&mut params, J::to_function_param());
        append_params(&mut params, K::to_function_param());
        append_params(&mut params, L::to_function_param());
        append_params(&mut params, M::to_function_param());
        append_params(&mut params, N::to_function_param());
        append_params(&mut params, O::to_function_param());
        append_params(&mut params, P::to_function_param());
        params
    }
}

impl ToTypename for bool {
    open spec fn type_spec() -> TypeV {
        builtin("boolean"@)
    }

    fn to_typename() -> (r: Type) {
        Type::new_single("boolean", KindOfType::Builtin)
    }

    fn to_function_param() -> (r: Vec<FunctionParam>) {
        one_param(Self::to_typename())
    }
}

impl ToTypename for String {
    open spec fn type_spec() -> TypeV {
        builtin("string"@)
    }

    fn to_typename() -> (r: Type) {
        Type::new_single("string", KindOfType::Builtin)
    }

    fn to_function_param() -> (r: Vec<FunctionParam>) {
        one_param(Self::to_typename())
    }
}

impl ToTypename for bstr::BString {
    open spec fn type_spec() -> TypeV {
        builtin("string"@)
    }

    fn to_typename() -> (r: Type) {
        Type::new_single("string", KindOfType::Builtin)
    }

    fn to_function_param() -> (r: Vec<FunctionParam>) {
        one_param(Self::to_typename())
    }
}

impl ToTypename for mlua::String {
    open spec fn type_spec() -> TypeV {
        builtin("string"@)
    }

    fn to_typename() -> (r: Type) {
        Type::new_single("string", KindOfType::Builtin)
    }

    fn to_function_param() -> (r: Vec<FunctionParam>) {
        one_param(Self::to_typename())
    }
}

impl<'a> ToTypename for &'a str {
    open spec fn type_spec() -> TypeV {
        builtin("string"@)
    }

    fn to_typename() -> (r: Type) {
        Type::new_single("string", KindOfType::Builtin)
    }

    fn to_function_param() -> (r: Vec<FunctionParam>) {
        one_param(Self::to_typename())
    }
}

impl ToTypename for i8 {
    open spec fn type_spec() -> TypeV {
        builtin("integer"@)
    }

    fn to_typename() -> (r: Type) {
        Type::new_single("integer", KindOfType::Builtin)
    }

    fn to_function_param() -> (r: Vec<FunctionParam>) {
        one_param(Self::to_typename())
    }
}

impl ToTypename for u8 {
    open spec fn type_spec() -> TypeV {
        builtin("integer"@)
    }

    fn to_typename() -> (r: Type) {
        Type::new_single("integer", KindOfType::Builtin)
    }

    fn to_function_param() -> (r: Vec<FunctionParam>) {
        one_param(Self::to_typename())
    }
}

impl ToTypename for u16 {
    open spec fn type_spec() -> TypeV {
        builtin("integer"@)
    }

    fn to_typename() -> (r: Type) {
        Type::new_single("integer", KindOfType::Builtin)
    }

    fn to_function_param() -> (r: Vec<FunctionParam>) {
        one_param(Self::to_typename())
    }
}

impl ToTypename for i16 {
    open spec fn type_spec() -> TypeV {
        builtin("integer"@)
    }

    fn to_typename() -> (r: Type) {
        Type::new_single("integer", KindOfType::Builtin)
    }

    fn to_function_param() -> (r: Vec<FunctionParam>) {
        one_param(Self::to_typename())
    }
}

impl ToTypename for u32 {
    open spec fn type_spec() -> TypeV {
        builtin("integer"@)
    }

    fn to_typename() -> (r: Type) {
        Type::new_single("integer", KindOfType::Builtin)
    }

    fn to_function_param() -> (r: Vec<FunctionParam>) {
        one_param(Self::to_typename())
    }
}

impl ToTypename for i32 {
    open spec fn type_spec() -> TypeV {
        builtin("integer"@)
    }

    fn to_typename() -> (r: Type) {
        Type::new_single("integer", KindOfType::Builtin)
    }

    fn to_function_param() -> (r: Vec<FunctionParam>) {
        one_param(Self::to_typename())
    }
}

impl ToTypename for u64 {
    open spec fn type_spec() -> TypeV {
        builtin("integer"@)
    }

    fn to_typename() -> (r: Type) {
        Type::new_single("integer", KindOfType::Builtin)
    }

    fn to_function_param() -> (r: Vec<FunctionParam>) {
        one_param(Self::to_typename())
    }
}

impl ToTypename for i64 {
    open spec fn type_spec() -> TypeV {
        builtin("integer"@)
    }

    fn to_typename() -> (r: Type) {
        Type::new_single("integer", KindOfType::Builtin)
    }

    fn to_function_param() -> (r: Vec<FunctionParam>) {
        one_param(Self::to_typename())
    }
}

impl ToTypename for u128 {
    open spec fn type_spec() -> TypeV {
        builtin("integer"@)
    }

    fn to_typename() -> (r: Type) {
        Type::new_single("integer", KindOfType::Builtin)
    }

    fn to_function_param() -> (r: Vec<FunctionParam>) {
        one_param(Self::to_typename())
    }
}

impl ToTypename for i128 {
    open spec fn type_spec() -> TypeV {
        builtin("integer"@)
    }

    fn to_typename() -> (r: Type) {
        Type::new_single("integer", KindOfType::Builtin)
    }

    fn to_function_param() -> (r: Vec<FunctionParam>) {
        one_param(Self::to_typename())
    }
}

impl ToTypename for isize {
    open spec fn type_spec() -> TypeV {
        builtin("integer"@)
    }

    fn to_typename() -> (r: Type) {
        Type::new_single("integer", KindOfType::Builtin)
    }

    fn to_function_param() -> (r: Vec<FunctionParam>) {
        one_param(Self::to_typename())
    }
}

impl ToTypename for usize {
    open spec fn type_spec() -> TypeV {
        builtin("integer"@)
    }

    fn to_typename() -> (r: Type) {
        Type::new_single("integer", KindOfType::Builtin)
    }

    fn to_function_param() -> (r: Vec<FunctionParam>) {
        one_param(Self::to_typename())
    }
}

impl ToTypename for mlua::Thread {
    open spec fn type_spec() -> TypeV {
        builtin("thread"@)
    }

    fn to_typename() -> (r: Type) {
        Type::new_single("thread", KindOfType::Builtin)
    }

    fn to_function_param() -> (r: Vec<FunctionParam>) {
        one_param(Self::to_typename())
    }
}

impl ToTypename for mlua::Value {
    open spec fn type_spec() -> TypeV {
        builtin("any"@)
    }

    fn to_typename() -> (r: Type) {
        Type::new_single("any", KindOfType::Builtin)
    }

    fn to_function_param() -> (r: Vec<FunctionParam>) {
        one_param(Self::to_typename())
    }
}

impl ToTypename for mlua::Table {
    open spec fn type_spec() -> TypeV {
        TypeV::Mapping { key: Box::new(builtin("any"@)), value: Box::new(builtin("any"@)) }
    }

    fn to_typename() -> (r: Type) {
        Type::Mapping(
            MapRepresentation {
                key: Box::new(mlua::Value::to_typename()),
                value: Box::new(mlua::Value::to_typename()),
            },
        )
    }

    fn to_function_param() -> (r: Vec<FunctionParam>) {
        one_param(Self::to_typename())
    }
}

impl ToTypename for mlua::Function {
    open spec fn type_spec() -> TypeV {
        TypeV::Function {
            params: seq![ParamV { name: Some("..."@), ty: builtin("any"@) }],
            results: seq![builtin("any..."@)],
        }
    }

    fn to_typename() -> (r: Type) {
        let mut params: Vec<FunctionParam> = Vec::new();
        let p = FunctionParam {
            param_name: Some(Name::new("...")),
            ty: Type::new_single("any", KindOfType::Builtin),
        };
        params.push(p);
        let mut rets: Vec<Type> = Vec::new();
        let t = Type::new_single("any...", KindOfType::Builtin);
        rets.push(t);
        proof {
            lemma_params_view_push(Seq::<FunctionParam>::empty(), p);
            assert(Seq::<FunctionParam>::empty().push(p) =~= params@);
            crate::types::lemma_types_view_push(Seq::<Type>::empty(), t);
            assert(Seq::<Type>::empty().push(t) =~= rets@);
        }
        Type::Function(FunctionRepresentation { params, returns: rets })
    }

    fn to_function_param() -> (r: Vec<FunctionParam>) {
        one_param(Self::to_typename())
    }
}

impl<T: ToTypename> ToTypename for mlua::Variadic<T> {
    open spec fn type_spec() -> TypeV {
        TypeV::Variadic(Box::new(T::type_spec()))
    }

    fn to_typename() -> (r: Type) {
        Type::Variadic(Box::new(T::to_typename()))
    }

    open spec fn param_spec() -> Seq<ParamV> {
        seq![ParamV { name: Some("..."@), ty: Self::type_spec() }]
    }

    fn to_function_param() -> (r: Vec<FunctionParam>) {
        let mut v: Vec<FunctionParam> = Vec::new();
        let p = FunctionParam { param_name: Some(Name::new("...")), ty: Self::to_typename() };
        v.push(p);
        proof {
            lemma_params_view_push(Seq::<FunctionParam>::empty(), p);
            assert(Seq::<FunctionParam>::empty().push(p) =~= v@);
        }
        v
    }
}

impl<T: ToTypename + 'static> ToTypename for mlua::UserDataRef<T> {
    open spec fn type_spec() -> TypeV {
        T::type_spec()
    }

    fn to_typename() -> (r: Type) {
        T::to_typename()
    }

    open spec fn param_spec() -> Seq<ParamV> {
        T::param_spec()
    }

    fn to_function_param() -> (r: Vec<FunctionParam>) {
        T::to_function_param()
    }
}

impl<T: ToTypename + 'static> ToTypename for mlua::UserDataRefMut<T> {
    open spec fn type_spec() -> TypeV {
        T::type_spec()
    }

    fn to_typename() -> (r: Type) {
        T::to_typename()
    }

    open spec fn param_spec() -> Seq<ParamV> {
        T::param_spec()
    }

    fn to_function_param() -> (r: Vec<FunctionParam>) {
        T::to_function_param()
    }
}

impl<T: ToTypename> ToTypename for Vec<T> {
    open spec fn type_spec() -> TypeV {
        TypeV::Array(Box::new(T::type_spec()))
    }

    fn to_typename() -> (r: Type) {
        Type::Array(Box::new(T::to_typename()))
    }

    fn to_function_param() -> (r: Vec<FunctionParam>) {
        one_param(Self::to_typename())
    }
}

impl<T: ToTypename, const N: usize> ToTypename for [T; N] {
    open spec fn type_spec() -> TypeV {
        TypeV::Array(Box::new(T::type_spec()))
    }

    fn to_typename() -> (r: Type) {
        Vec::<T>::to_typename()
    }

    fn to_function_param() -> (r: Vec<FunctionParam>) {
        one_param(Self::to_typename())
    }
}

impl<T: ToTypename> ToTypename for Option<T> {
    open spec fn type_spec() -> TypeV {
        T::type_spec()
    }

    fn to_typename() -> (r: Type) {
        T::to_typename()
    }

    fn to_function_param() -> (r: Vec<FunctionParam>) {
        one_param(Self::to_typename())
    }
}

impl<K: ToTypename, V: ToTypename> ToTypename for std::collections::HashMap<K, V> {
    open spec fn type_spec() -> TypeV {
        TypeV::Mapping { key: Box::new(K::type_spec()), value: Box::new(V::type_spec()) }
    }

    fn to_typename() -> (r: Type) {
        Type::Mapping(
            MapRepresentation { key: Box::new(K::to_typename()), value: Box::new(V::to_typename()) },
        )
    }

    fn to_function_param() -> (r: Vec<FunctionParam>) {
        one_param(Self::to_typename())
    }
}

impl<K: ToTypename, V: ToTypename> ToTypename for std::collections::BTreeMap<K, V> {
    open spec fn type_spec() -> TypeV {
        TypeV::Mapping { key: Box::new(K::type_spec()), value: Box::new(V::type_spec()) }
    }

    fn to_typename() -> (r: Type) {
        Type::Mapping(
            MapRepresentation { key: Box::new(K::to_typename()), value: Box::new(V::to_typename()) },
        )
    }

    fn to_function_param() -> (r: Vec<FunctionParam>) {
        one_param(Self::to_typename())
    }
}

} // verus!

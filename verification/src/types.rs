//! The type representation: what a Lua/Teal type looks like, and its mathematical view.
use vstd::prelude::*;

verus! {

/// Keeps track of any special treatment a type needs to get.
#[derive(PartialEq, Eq, Structural, Clone, Copy, Debug, Hash)]
pub enum KindOfType {
    /// The type is built in to teal. Never do anything special in this case.
    Builtin,
    /// The type comes from a library (including this one).
    External,
    /// The type represents a generic type parameter.
    ///
    /// When used it turns the method/function into a generic method/function.
    Generic,
}

impl KindOfType {
    /// True exactly for `KindOfType::Generic`.
    pub fn is_generic(&self) -> (r: bool)
        ensures
            r <==> *self == KindOfType::Generic,
    {
        *self == KindOfType::Generic
    }

    /// True exactly for `KindOfType::Builtin`.
    pub fn is_builtin(&self) -> (r: bool)
        ensures
            r <==> *self == KindOfType::Builtin,
    {
        *self == KindOfType::Builtin
    }

    /// True exactly for `KindOfType::External`.
    pub fn is_external(&self) -> (r: bool)
        ensures
            r <==> *self == KindOfType::External,
    {
        *self == KindOfType::External
    }
}

impl Default for KindOfType {
    /// The default kind is `External`.
    fn default() -> (r: Self)
        ensures
            r == KindOfType::External,
    {
        KindOfType::External
    }
}

/// The name of a type.
pub struct Name(pub String);

impl View for Name {
    type V = Seq<char>;

    open spec fn view(&self) -> Seq<char> {
        self.0@
    }
}

impl Name {
    /// Creates a name holding the given text.
    pub fn new(name: &str) -> (r: Name)
        ensures
            r@ == name@,
    {
        Name(name.to_owned())
    }

    /// The text of the name.
    pub fn as_str(&self) -> (r: &str)
        ensures
            r@ == self@,
    {
        self.0.as_str()
    }
}

impl Clone for Name {
    fn clone(&self) -> (r: Self)
        ensures
            r@ == self@,
    {
        Name(self.0.clone())
    }
}

/// A singular type.
pub struct SingleType {
    /// The name of the type.
    pub name: Name,
    /// The kind of type that is being represented.
    pub kind: KindOfType,
    /// If a type has generics then they are stored here.
    pub generics: Vec<Type>,
}

/// A parameter for a function.
pub struct FunctionParam {
    /// The name of the parameter, if it has one.
    pub param_name: Option<Name>,
    /// The type of the parameter.
    pub ty: Type,
}

/// The representation of a function type.
pub struct FunctionRepresentation {
    /// The parameters.
    pub params: Vec<FunctionParam>,
    /// The return types.
    pub returns: Vec<Type>,
}

/// The representation of a `Map<K, V>` type.
pub struct MapRepresentation {
    /// The type of the key.
    pub key: Box<Type>,
    /// The type of the value.
    pub value: Box<Type>,
}

/// A type.
pub enum Type {
    /// The type is a function.
    Function(FunctionRepresentation),
    /// The type is a simple, singular type.
    Single(SingleType),
    /// The type is a map from keys to values (think `HashMap<K, V>` and similar).
    Mapping(MapRepresentation),
    /// The type is a union (`A | B`).
    Or(Vec<Type>),
    /// The type is an array.
    Array(Box<Type>),
    /// Expands to `(A, B, C)`; useful for parameters and return types.
    Tuple(Vec<Type>),
    /// The given type may be repeated any amount of times.
    Variadic(Box<Type>),
}

/// The mathematical value of a [`Type`]: the same tree, with every text a sequence of characters.
pub enum TypeV {
    Function { params: Seq<ParamV>, results: Seq<TypeV> },
    Single { name: Seq<char>, kind: KindOfType, generics: Seq<TypeV> },
    Mapping { key: Box<TypeV>, value: Box<TypeV> },
    Or(Seq<TypeV>),
    Array(Box<TypeV>),
    Tuple(Seq<TypeV>),
    Variadic(Box<TypeV>),
}

/// The mathematical value of a [`FunctionParam`].
pub struct ParamV {
    pub name: Option<Seq<char>>,
    pub ty: TypeV,
}

pub open spec fn opt_name_view(n: Option<Name>) -> Option<Seq<char>> {
    match n {
        Some(x) => Some(x@),
        None => None,
    }
}

pub open spec fn type_view(t: Type) -> TypeV
    decreases t,
{
    match t {
        Type::Function(f) => TypeV::Function {
            params: params_view(f.params@),
            results: types_view(f.returns@),
        },
        Type::Single(s) => TypeV::Single {
            name: s.name.0@,
            kind: s.kind,
            generics: types_view(s.generics@),
        },
        Type::Mapping(m) => TypeV::Mapping {
            key: Box::new(type_view(*m.key)),
            value: Box::new(type_view(*m.value)),
        },
        Type::Or(v) => TypeV::Or(types_view(v@)),
        Type::Array(b) => TypeV::Array(Box::new(type_view(*b))),
        Type::Tuple(v) => TypeV::Tuple(types_view(v@)),
        Type::Variadic(b) => TypeV::Variadic(Box::new(type_view(*b))),
    }
}

/// The views of a sequence of types, element by element.
pub open spec fn types_view(s: Seq<Type>) -> Seq<TypeV>
    decreases s,
{
    if s.len() == 0 {
        seq![]
    } else {
        types_view(s.drop_last()).push(type_view(s.last()))
    }
}

/// The views of a sequence of parameters, element by element.
pub open spec fn params_view(s: Seq<FunctionParam>) -> Seq<ParamV>
    decreases s,
{
    if s.len() == 0 {
        seq![]
    } else {
        params_view(s.drop_last()).push(
            ParamV { name: opt_name_view(s.last().param_name), ty: type_view(s.last().ty) },
        )
    }
}

impl View for Type {
    type V = TypeV;

    open spec fn view(&self) -> TypeV {
        type_view(*self)
    }
}

impl View for FunctionParam {
    type V = ParamV;

    open spec fn view(&self) -> ParamV {
        ParamV { name: opt_name_view(self.param_name), ty: type_view(self.ty) }
    }
}

pub proof fn lemma_types_view(s: Seq<Type>)
    ensures
        types_view(s).len() == s.len(),
        forall|i: int| 0 <= i < s.len() ==> #[trigger] types_view(s)[i] == type_view(s[i]),
    decreases s.len(),
{
    if s.len() > 0 {
        lemma_types_view(s.drop_last());
    }
}

pub proof fn lemma_params_view(s: Seq<FunctionParam>)
    ensures
        params_view(s).len() == s.len(),
        forall|i: int| 0 <= i < s.len() ==> #[trigger] params_view(s)[i] == s[i]@,
    decreases s.len(),
{
    if s.len() > 0 {
        lemma_params_view(s.drop_last());
    }
}

/// The view of a sequence is fixed by the views of its elements.
pub proof fn lemma_types_view_ext(s: Seq<Type>, t: Seq<TypeV>)
    requires
        s.len() == t.len(),
        forall|i: int| 0 <= i < s.len() ==> type_view(#[trigger] s[i]) == t[i],
    ensures
        types_view(s) == t,
{
    lemma_types_view(s);
    assert(types_view(s) =~= t);
}

pub proof fn lemma_params_view_ext(s: Seq<FunctionParam>, t: Seq<ParamV>)
    requires
        s.len() == t.len(),
        forall|i: int| 0 <= i < s.len() ==> (#[trigger] s[i])@ == t[i],
    ensures
        params_view(s) == t,
{
    lemma_params_view(s);
    assert(params_view(s) =~= t);
}

/// Views of a vector with an element pushed on the end.
pub proof fn lemma_types_view_push(s: Seq<Type>, t: Type)
    ensures
        types_view(s.push(t)) == types_view(s).push(type_view(t)),
{
    assert(s.push(t).drop_last() =~= s);
}

pub proof fn lemma_params_view_push(s: Seq<FunctionParam>, p: FunctionParam)
    ensures
        params_view(s.push(p)) == params_view(s).push(p@),
{
    assert(s.push(p).drop_last() =~= s);
}

impl Type {
    /// Creates a new singular type without generics.
    pub fn new_single(name: &str, kind: KindOfType) -> (r: Self)
        ensures
            r@ == (TypeV::Single { name: name@, kind, generics: seq![] }),
    {
        Self::new_single_with_generics(name, kind, Vec::new())
    }

    /// Same as `new_single`, but with generics.
    pub fn new_single_with_generics(name: &str, kind: KindOfType, generics: Vec<Type>) -> (r: Self)
        ensures
            r@ == (TypeV::Single { name: name@, kind, generics: types_view(generics@) }),
    {
        Type::Single(SingleType { name: Name::new(name), kind, generics })
    }

    /// Returns `Some(x)` if `self` is `Single(x)`, otherwise `None`.
    pub fn single(&self) -> (r: Option<&SingleType>)
        ensures
            match *self {
                Type::Single(x) => r == Some(&x),
                _ => r is None,
            },
    {
        if let Type::Single(x) = self {
            Some(x)
        } else {
            None
        }
    }

    /// A copy with the same view.
    pub fn deep_clone(&self) -> (r: Type)
        ensures
            r@ == self@,
        decreases self,
    {
        match self {
            Type::Function(f) => Type::Function(
                FunctionRepresentation {
                    params: clone_params(&f.params),
                    returns: clone_types(&f.returns),
                },
            ),
            Type::Single(s) => Type::Single(
                SingleType {
                    name: s.name.clone(),
                    kind: s.kind,
                    generics: clone_types(&s.generics),
                },
            ),
            Type::Mapping(m) => {
                let k = (*m.key).deep_clone();
                let v = (*m.value).deep_clone();
                Type::Mapping(MapRepresentation { key: Box::new(k), value: Box::new(v) })
            },
            Type::Or(v) => Type::Or(clone_types(v)),
            Type::Array(b) => Type::Array(Box::new((**b).deep_clone())),
            Type::Tuple(v) => Type::Tuple(clone_types(v)),
            Type::Variadic(b) => Type::Variadic(Box::new((**b).deep_clone())),
        }
    }

    /// True exactly when both types have the same view.
    pub fn deep_eq(&self, other: &Type) -> (r: bool)
        ensures
            r == (self@ == other@),
        decreases self,
    {
        match (self, other) {
            (Type::Function(a), Type::Function(b)) => {
                params_eq(&a.params, &b.params) && types_eq(&a.returns, &b.returns)
            },
            (Type::Single(a), Type::Single(b)) => {
                a.name.0 == b.name.0 && a.kind == b.kind && types_eq(&a.generics, &b.generics)
            },
            (Type::Mapping(a), Type::Mapping(b)) => {
                let k = (*a.key).deep_eq(&*b.key);
                let v = (*a.value).deep_eq(&*b.value);
                k && v
            },
            (Type::Or(a), Type::Or(b)) => types_eq(a, b),
            (Type::Array(a), Type::Array(b)) => (**a).deep_eq(&**b),
            (Type::Tuple(a), Type::Tuple(b)) => types_eq(a, b),
            (Type::Variadic(a), Type::Variadic(b)) => (**a).deep_eq(&**b),
            _ => false,
        }
    }
}

impl FunctionParam {
    /// A copy with the same view.
    pub fn deep_clone(&self) -> (r: FunctionParam)
        ensures
            r@ == self@,
        decreases self,
    {
        let param_name = match &self.param_name {
            Some(n) => Some(n.clone()),
            None => None,
        };
        FunctionParam { param_name, ty: self.ty.deep_clone() }
    }
}

/// Copies every type of `v`, keeping the views.
pub fn clone_types(v: &Vec<Type>) -> (r: Vec<Type>)
    ensures
        types_view(r@) == types_view(v@),
    decreases v,
{
    let mut r: Vec<Type> = Vec::new();
    let mut i: usize = 0;
    while i < v.len()
        invariant
            i <= v.len(),
            r@.len() == i,
            forall|j: int| 0 <= j < i ==> type_view(#[trigger] r@[j]) == type_view(v@[j]),
        decreases v.len() - i,
    {
        proof {
            assert(decreases_to!(v => v[i as int]));
        }
        let t = v[i].deep_clone();
        r.push(t);
        i = i + 1;
    }
    proof {
        lemma_types_view(v@);
        lemma_types_view_ext(r@, types_view(v@));
    }
    r
}

/// Copies every parameter of `v`, keeping the views.
pub fn clone_params(v: &Vec<FunctionParam>) -> (r: Vec<FunctionParam>)
    ensures
        params_view(r@) == params_view(v@),
    decreases v,
{
    let mut r: Vec<FunctionParam> = Vec::new();
    let mut i: usize = 0;
    while i < v.len()
        invariant
            i <= v.len(),
            r@.len() == i,
            forall|j: int| 0 <= j < i ==> (#[trigger] r@[j])@ == v@[j]@,
        decreases v.len() - i,
    {
        proof {
            assert(decreases_to!(v => v[i as int]));
        }
        let t = v[i].deep_clone();
        r.push(t);
        i = i + 1;
    }
    proof {
        lemma_params_view(v@);
        lemma_params_view_ext(r@, params_view(v@));
    }
    r
}

/// True exactly when both vectors of types have the same views.
pub fn types_eq(a: &Vec<Type>, b: &Vec<Type>) -> (r: bool)
    ensures
        r == (types_view(a@) == types_view(b@)),
    decreases a,
{
    proof {
        lemma_types_view(a@);
        lemma_types_view(b@);
    }
    if a.len() != b.len() {
        return false;
    }
    let mut i: usize = 0;
    while i < a.len()
        invariant
            i <= a.len(),
            a.len() == b.len(),
            types_view(a@).len() == a.len(),
            types_view(b@).len() == b.len(),
            forall|j: int| 0 <= j < a.len() ==> #[trigger] types_view(a@)[j] == type_view(a@[j]),
            forall|j: int| 0 <= j < b.len() ==> #[trigger] types_view(b@)[j] == type_view(b@[j]),
            forall|j: int| 0 <= j < i ==> type_view(#[trigger] a@[j]) == type_view(b@[j]),
        decreases a.len() - i,
    {
        proof {
            assert(decreases_to!(a => a[i as int]));
        }
        if !a[i].deep_eq(&b[i]) {
            assert(types_view(a@)[i as int] != types_view(b@)[i as int]);
            return false;
        }
        i = i + 1;
    }
    assert(types_view(a@) =~= types_view(b@));
    true
}

/// True exactly when both vectors of parameters have the same views.
pub fn params_eq(a: &Vec<FunctionParam>, b: &Vec<FunctionParam>) -> (r: bool)
    ensures
        r == (params_view(a@) == params_view(b@)),
    decreases a,
{
    proof {
        lemma_params_view(a@);
        lemma_params_view(b@);
    }
    if a.len() != b.len() {
        return false;
    }
    let mut i: usize = 0;
    while i < a.len()
        invariant
            i <= a.len(),
            a.len() == b.len(),
            params_view(a@).len() == a.len(),
            params_view(b@).len() == b.len(),
            forall|j: int| 0 <= j < a.len() ==> #[trigger] params_view(a@)[j] == a@[j]@,
            forall|j: int| 0 <= j < b.len() ==> #[trigger] params_view(b@)[j] == b@[j]@,
            forall|j: int| 0 <= j < i ==> (#[trigger] a@[j])@ == b@[j]@,
        decreases a.len() - i,
    {
        proof {
            assert(decreases_to!(a => a[i as int]));
        }
        let names_equal = match (&a[i].param_name, &b[i].param_name) {
            (Some(x), Some(y)) => x.0 == y.0,
            (None, None) => true,
            _ => false,
        };
        if !names_equal || !a[i].ty.deep_eq(&b[i].ty) {
            assert(params_view(a@)[i as int] != params_view(b@)[i as int]);
            return false;
        }
        i = i + 1;
    }
    assert(params_view(a@) =~= params_view(b@));
    true
}

impl Clone for Type {
    fn clone(&self) -> (r: Self)
        ensures
            r@ == self@,
    {
        self.deep_clone()
    }
}

impl Clone for FunctionParam {
    fn clone(&self) -> (r: Self)
        ensures
            r@ == self@,
    {
        self.deep_clone()
    }
}

impl PartialEq for Type {
    fn eq(&self, other: &Self) -> (r: bool) {
        self.deep_eq(other)
    }
}

impl vstd::std_specs::cmp::PartialEqSpecImpl for Type {
    open spec fn obeys_eq_spec() -> bool {
        true
    }

    open spec fn eq_spec(&self, other: &Self) -> bool {
        self@ == other@
    }
}

impl Eq for Type {
}

impl From<Box<Type>> for Type {
    fn from(value: Box<Type>) -> (r: Type) {
        *value
    }
}

impl vstd::std_specs::convert::FromSpecImpl<Box<Type>> for Type {
    open spec fn obeys_from_spec() -> bool {
        true
    }

    open spec fn from_spec(v: Box<Type>) -> Type {
        *v
    }
}

} // verus!

//! The pieces that a rendered type is made of.
use vstd::prelude::*;

use crate::types::KindOfType;

verus! {

/// Represents a type as it is written down.
pub struct TealType {
    /// Name of the type.
    pub name: String,
    /// If the type is built in, a generic or from a library.
    pub type_kind: KindOfType,
    /// Any generics that this type has.
    pub generics: Option<Vec<TealType>>,
}

/// The parts that a name consists of.
pub enum NamePart {
    /// A piece of normal text that is part of the type,
    /// such as the `function(` part inside `function(integer):string`.
    Symbol(String),
    /// A piece of the type that is actually a full type,
    /// such as the `integer` part inside of `function(integer):string`.
    Type(TealType),
}

/// The mathematical value of a [`TealType`].
pub struct TealTypeV {
    pub name: Seq<char>,
    pub type_kind: KindOfType,
    pub generics: Option<Seq<TealTypeV>>,
}

/// The mathematical value of a [`NamePart`].
pub enum NamePartV {
    Symbol(Seq<char>),
    Type(TealTypeV),
}

pub open spec fn teal_type_view(t: TealType) -> TealTypeV
    decreases t,
{
    TealTypeV {
        name: t.name@,
        type_kind: t.type_kind,
        generics: match t.generics {
            Some(v) => Some(teal_types_view(v@)),
            None => None,
        },
    }
}

pub open spec fn teal_types_view(s: Seq<TealType>) -> Seq<TealTypeV>
    decreases s,
{
    if s.len() == 0 {
        seq![]
    } else {
        teal_types_view(s.drop_last()).push(teal_type_view(s.last()))
    }
}

impl View for TealType {
    type V = TealTypeV;

    open spec fn view(&self) -> TealTypeV {
        teal_type_view(*self)
    }
}

impl View for NamePart {
    type V = NamePartV;

    open spec fn view(&self) -> NamePartV {
        match *self {
            NamePart::Symbol(s) => NamePartV::Symbol(s@),
            NamePart::Type(t) => NamePartV::Type(t@),
        }
    }
}

/// The views of a sequence of parts.
pub open spec fn parts_view(s: Seq<NamePart>) -> Seq<NamePartV> {
    s.map_values(|p: NamePart| p@)
}

/// A symbol part holding the given text.
pub open spec fn sym(s: Seq<char>) -> NamePartV {
    NamePartV::Symbol(s)
}

/// The text that a part stands for: the symbol itself, or the name of the type.
pub open spec fn part_text(p: NamePartV) -> Seq<char> {
    match p {
        NamePartV::Symbol(s) => s,
        NamePartV::Type(t) => t.name,
    }
}

/// The text of a sequence of parts, one after the other.
pub open spec fn parts_text(s: Seq<NamePartV>) -> Seq<char>
    decreases s.len(),
{
    if s.len() == 0 {
        seq![]
    } else {
        parts_text(s.drop_last()) + part_text(s.last())
    }
}

pub proof fn lemma_parts_text_push(s: Seq<NamePartV>, p: NamePartV)
    ensures
        parts_text(s.push(p)) == parts_text(s) + part_text(p),
{
    assert(s.push(p).drop_last() =~= s);
}


impl NamePart {
    /// Creates a [`NamePart::Symbol`] holding the given text.
    pub fn symbol(symbol: &str) -> (r: Self)
        ensures
            r@ == sym(symbol@),
    {
        NamePart::Symbol(symbol.to_owned())
    }

    /// The text of this part: the symbol, or the name of the type.
    pub fn as_ref_str(&self) -> (r: &String)
        ensures
            r@ == part_text(self@),
    {
        match self {
            NamePart::Symbol(x) => x,
            NamePart::Type(x) => &x.name,
        }
    }

    /// Checks if `self` is of the `Symbol(_)` variant.
    pub fn is_symbol(&self) -> (r: bool)
        ensures
            r <==> self@ is Symbol,
    {
        matches!(self, NamePart::Symbol(_))
    }

    /// The text of this part, as an owned string.
    pub fn to_string(&self) -> (r: String)
        ensures
            r@ == part_text(self@),
    {
        self.as_ref_str().clone()
    }
}

impl TealType {
    /// A copy with the same view.
    pub fn deep_clone(&self) -> (r: TealType)
        ensures
            r@ == self@,
        decreases self,
    {
        let generics = match &self.generics {
            Some(v) => Some(clone_teal_types(v)),
            None => None,
        };
        TealType { name: self.name.clone(), type_kind: self.type_kind, generics }
    }
}

impl TealType {
    /// True exactly when both types have the same view.
    pub fn deep_eq(&self, other: &TealType) -> (r: bool)
        ensures
            r == (self@ == other@),
        decreases self,
    {
        if self.name != other.name || self.type_kind != other.type_kind {
            return false;
        }
        match (&self.generics, &other.generics) {
            (Some(a), Some(b)) => teal_types_eq(a, b),
            (None, None) => true,
            _ => false,
        }
    }
}

/// True exactly when both vectors of types have the same views.
pub fn teal_types_eq(a: &Vec<TealType>, b: &Vec<TealType>) -> (r: bool)
    ensures
        r == (teal_types_view(a@) == teal_types_view(b@)),
    decreases a,
{
    proof {
        lemma_teal_types_view(a@);
        lemma_teal_types_view(b@);
    }
    if a.len() != b.len() {
        return false;
    }
    let mut i: usize = 0;
    while i < a.len()
        invariant
            i <= a.len(),
            a.len() == b.len(),
            teal_types_view(a@).len() == a.len(),
            teal_types_view(b@).len() == b.len(),
            forall|j: int| 0 <= j < a.len() ==> #[trigger] teal_types_view(a@)[j] == a@[j]@,
            forall|j: int| 0 <= j < b.len() ==> #[trigger] teal_types_view(b@)[j] == b@[j]@,
            forall|j: int| 0 <= j < i ==> (#[trigger] a@[j])@ == b@[j]@,
        decreases a.len() - i,
    {
        proof {
            assert(decreases_to!(a => a[i as int]));
        }
        if !a[i].deep_eq(&b[i]) {
            assert(teal_types_view(a@)[i as int] != teal_types_view(b@)[i as int]);
            return false;
        }
        i = i + 1;
    }
    assert(teal_types_view(a@) =~= teal_types_view(b@));
    true
}

pub proof fn lemma_teal_types_view(s: Seq<TealType>)
    ensures
        teal_types_view(s).len() == s.len(),
        forall|i: int| 0 <= i < s.len() ==> #[trigger] teal_types_view(s)[i] == s[i]@,
    decreases s.len(),
{
    if s.len() > 0 {
        lemma_teal_types_view(s.drop_last());
    }
}

/// Copies every element, keeping the views.
pub fn clone_teal_types(v: &Vec<TealType>) -> (r: Vec<TealType>)
    ensures
        teal_types_view(r@) == teal_types_view(v@),
    decreases v,
{
    let mut r: Vec<TealType> = Vec::new();
    let mut i: usize = 0;
    while i < v.len()
        invariant
            i <= v.len(),
            r@.len() == i,
            forall|j: int| 0 <= j < i ==> (#[trigger] r@[j])@ == v@[j]@,
        decreases v.len() - i,
    {
        proof {
            assert(decreases_to!(v => v[i as int]));
        }
        let t = v[i].deep_clone();
        r.push(t);
        i = i + 1;
    }
    proof {
        lemma_teal_types_view(v@);
        lemma_teal_types_view(r@);
        assert(teal_types_view(r@) =~= teal_types_view(v@));
    }
    r
}

impl Clone for TealType {
    fn clone(&self) -> (r: Self)
        ensures
            r@ == self@,
    {
        self.deep_clone()
    }
}

impl Clone for NamePart {
    fn clone(&self) -> (r: Self)
        ensures
            r@ == self@,
    {
        match self {
            NamePart::Symbol(s) => NamePart::Symbol(s.clone()),
            NamePart::Type(t) => NamePart::Type(t.deep_clone()),
        }
    }
}

impl From<String> for NamePart {
    fn from(x: String) -> (r: NamePart) {
        NamePart::Symbol(x)
    }
}

impl vstd::std_specs::convert::FromSpecImpl<String> for NamePart {
    open spec fn obeys_from_spec() -> bool {
        true
    }

    open spec fn from_spec(v: String) -> NamePart {
        NamePart::Symbol(v)
    }
}

impl From<NamePart> for String {
    fn from(x: NamePart) -> (r: String) {
        match x {
            NamePart::Symbol(x) => x,
            NamePart::Type(x) => x.name,
        }
    }
}

impl vstd::std_specs::convert::FromSpecImpl<NamePart> for String {
    open spec fn obeys_from_spec() -> bool {
        true
    }

    open spec fn from_spec(v: NamePart) -> String {
        match v {
            NamePart::Symbol(x) => x,
            NamePart::Type(x) => x.name,
        }
    }
}

/// Turns an entire rendered type into the text it stands for.
pub fn type_parts_to_str(x: Vec<NamePart>) -> (r: String)
    ensures
        r@ == parts_text(parts_view(x@)),
{
    let mut out = String::new();
    let mut i: usize = 0;
    while i < x.len()
        invariant
            i <= x.len(),
            out@ == parts_text(parts_view(x@.take(i as int))),
        decreases x.len() - i,
    {
        proof {
            assert(parts_view(x@.take(i + 1)).drop_last() =~= parts_view(x@.take(i as int)));
            assert(parts_view(x@.take(i + 1)).last() == x@[i as int]@);
        }
        out.append(x[i].as_ref_str().as_str());
        i = i + 1;
    }
    assert(x@.take(x.len() as int) =~= x@);
    out
}

} // verus!

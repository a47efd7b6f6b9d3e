//! How the type of a typed Lua function is written down, from the rendered parts of its
//! parameters and of its return values.
use vstd::prelude::*;

use crate::name_part::{
    lemma_teal_types_view, parts_view, sym, teal_types_view, NamePart, NamePartV, TealType,
    TealTypeV,
};
use crate::teal_parts::{
    add_unique, append_parts, dedup, dedup_extend, lemma_dedup_extend_push, push_part, push_sym,
};
use crate::types::KindOfType;

verus! {

/// The generic types that `parts` name, in order, repeats included.
pub open spec fn generic_teal_types(parts: Seq<NamePartV>) -> Seq<TealTypeV>
    decreases parts.len(),
{
    if parts.len() == 0 {
        seq![]
    } else {
        generic_teal_types(parts.drop_last()) + match parts.last() {
            NamePartV::Type(t) => if t.type_kind == KindOfType::Generic {
                seq![t]
            } else {
                seq![]
            },
            NamePartV::Symbol(_) => seq![],
        }
    }
}

/// The types that `parts` name, in order, repeats included.
pub open spec fn teal_types_in(parts: Seq<NamePartV>) -> Seq<TealTypeV>
    decreases parts.len(),
{
    if parts.len() == 0 {
        seq![]
    } else {
        teal_types_in(parts.drop_last()) + match parts.last() {
            NamePartV::Type(t) => seq![t],
            NamePartV::Symbol(_) => seq![],
        }
    }
}

/// `function(params):(rets)`.
pub open spec fn function_parts(params: Seq<NamePartV>, rets: Seq<NamePartV>) -> Seq<NamePartV> {
    seq![sym("function("@)] + params + seq![sym("):("@)] + rets + seq![sym(")"@)]
}

/// The generic types, separated by `,`.
pub open spec fn generic_list(g: Seq<TealTypeV>) -> Seq<NamePartV>
    decreases g.len(),
{
    if g.len() == 0 {
        seq![]
    } else if g.len() == 1 {
        seq![NamePartV::Type(g[0])]
    } else {
        generic_list(g.drop_last()) + seq![sym(","@), NamePartV::Type(g.last())]
    }
}

/// `function<generics>(params):(rets)` where the parameters and return values name generic
/// types, each listed once in the order it first occurs; else `function(params):(rets)`.
pub open spec fn function_parts_as_global(params: Seq<NamePartV>, rets: Seq<NamePartV>) -> Seq<
    NamePartV,
> {
    let g = dedup(generic_teal_types(params + rets));
    if g.len() == 0 {
        function_parts(params, rets)
    } else {
        seq![sym("function<"@)] + generic_list(g) + seq![sym(">("@)] + params + seq![sym("):("@)]
            + rets + seq![sym(")"@)]
    }
}

/// True exactly when a type with the view of `x` is in `v`.
fn contains_teal_type(v: &Vec<TealType>, x: &TealType) -> (r: bool)
    ensures
        r == teal_types_view(v@).contains(x@),
{
    proof {
        lemma_teal_types_view(v@);
    }
    let ghost tv = teal_types_view(v@);
    let mut i: usize = 0;
    while i < v.len()
        invariant
            i <= v.len(),
            tv == teal_types_view(v@),
            tv.len() == v.len(),
            forall|j: int| 0 <= j < v.len() ==> #[trigger] tv[j] == v@[j]@,
            forall|j: int| 0 <= j < i ==> tv[j] != x@,
        decreases v.len() - i,
    {
        if v[i].deep_eq(x) {
            assert(tv[i as int] == x@);
            return true;
        }
        i = i + 1;
    }
    assert(!tv.contains(x@)) by {
        if tv.contains(x@) {
            let k = choose|k: int| 0 <= k < tv.len() && tv[k] == x@;
            assert(tv[k] != x@);
        }
    }
    false
}

/// Appends a copy of `t`, keeping the views.
fn push_teal_type(v: &mut Vec<TealType>, t: &TealType)
    ensures
        teal_types_view(final(v)@) == teal_types_view(old(v)@).push(t@),
{
    let c = t.deep_clone();
    let ghost before = v@;
    v.push(c);
    assert(v@.drop_last() =~= before);
}

proof fn lemma_step(prev: Seq<NamePartV>, p: Seq<NamePartV>, i: int)
    requires
        0 <= i < p.len(),
    ensures
        (prev + p.take(i + 1)).drop_last() == prev + p.take(i),
        (prev + p.take(i + 1)).last() == p[i],
{
    assert((prev + p.take(i + 1)).drop_last() =~= prev + p.take(i));
}

/// Adds the generic types of `parts` that are not in `generics` yet, in order.
fn add_generics(parts: &Vec<NamePart>, generics: &mut Vec<TealType>, Ghost(prev): Ghost<Seq<NamePartV>>)
    requires
        teal_types_view(old(generics)@) == dedup(generic_teal_types(prev)),
    ensures
        teal_types_view(final(generics)@) == dedup(generic_teal_types(prev + parts_view(parts@))),
{
    let ghost pv = parts_view(parts@);
    let mut i: usize = 0;
    while i < parts.len()
        invariant
            i <= parts.len(),
            pv == parts_view(parts@),
            teal_types_view(generics@) == dedup(generic_teal_types(prev + pv.take(i as int))),
        decreases parts.len() - i,
    {
        proof {
            lemma_step(prev, pv, i as int);
        }
        let ghost g = generic_teal_types(prev + pv.take(i as int));
        match &parts[i] {
            NamePart::Type(x) => {
                if x.type_kind.is_generic() {
                    proof {
                        assert(g + seq![x@] =~= g.push(x@));
                        lemma_dedup_extend_push(Seq::<TealTypeV>::empty(), g, x@);
                    }
                    if !contains_teal_type(generics, x) {
                        push_teal_type(generics, x);
                    }
                } else {
                    assert(g + Seq::<TealTypeV>::empty() =~= g);
                }
            },
            NamePart::Symbol(_) => {
                assert(g + Seq::<TealTypeV>::empty() =~= g);
            },
        }
        i = i + 1;
    }
    assert(pv.take(parts.len() as int) =~= pv);
}

/// Appends every type that `parts` name.
fn add_children(parts: &Vec<NamePart>, children: &mut Vec<TealType>)
    ensures
        teal_types_view(final(children)@) == teal_types_view(old(children)@) + teal_types_in(
            parts_view(parts@),
        ),
{
    let ghost pv = parts_view(parts@);
    let ghost start = teal_types_view(children@);
    let mut i: usize = 0;
    while i < parts.len()
        invariant
            i <= parts.len(),
            pv == parts_view(parts@),
            teal_types_view(children@) == start + teal_types_in(pv.take(i as int)),
        decreases parts.len() - i,
    {
        proof {
            assert(pv.take(i + 1).drop_last() =~= pv.take(i as int));
            assert(pv.take(i + 1).last() == pv[i as int]);
        }
        let ghost t = teal_types_in(pv.take(i as int));
        match &parts[i] {
            NamePart::Type(x) => {
                push_teal_type(children, x);
                assert(start + t + seq![x@] =~= (start + t).push(x@));
            },
            NamePart::Symbol(_) => {
                assert(t + Seq::<TealTypeV>::empty() =~= t);
            },
        }
        i = i + 1;
    }
    assert(pv.take(parts.len() as int) =~= pv);
}

/// The type of a function with the given parameters and return values:
/// `function(params):(rets)`. The return values come already rendered, as one sequence of
/// parts with their separators, so how many there are is not known here and they are always
/// put in parentheses; [`crate::teal_parts::type_to_teal_parts`], which sees the return types,
/// writes a single one after `: `.
pub fn function_type_parts(params: Vec<NamePart>, rets: Vec<NamePart>) -> (r: Vec<NamePart>)
    ensures
        parts_view(r@) == function_parts(parts_view(params@), parts_view(rets@)),
{
    let ghost pv = parts_view(params@);
    let ghost rv = parts_view(rets@);
    let mut v: Vec<NamePart> = Vec::new();
    push_sym(&mut v, "function(");
    append_parts(&mut v, params);
    push_sym(&mut v, "):(");
    append_parts(&mut v, rets);
    push_sym(&mut v, ")");
    assert(parts_view(v@) =~= function_parts(pv, rv));
    v
}

/// The type of a function as it is written for a global value: with its generic types listed
/// before the parameters, each once, when it has any. The return values are put in
/// parentheses, as in [`function_type_parts`].
pub fn function_type_parts_as_global(params: Vec<NamePart>, rets: Vec<NamePart>) -> (r: Vec<
    NamePart,
>)
    ensures
        parts_view(r@) == function_parts_as_global(parts_view(params@), parts_view(rets@)),
{
    let ghost pv = parts_view(params@);
    let ghost rv = parts_view(rets@);
    let mut generics: Vec<TealType> = Vec::new();
    proof {
        assert(generic_teal_types(Seq::<NamePartV>::empty()) =~= Seq::<TealTypeV>::empty());
        assert(teal_types_view(generics@) =~= dedup(Seq::<TealTypeV>::empty()));
    }
    add_generics(&params, &mut generics, Ghost(Seq::empty()));
    assert(Seq::<NamePartV>::empty() + pv =~= pv);
    add_generics(&rets, &mut generics, Ghost(pv));
    proof {
        lemma_teal_types_view(generics@);
    }
    let ghost g = teal_types_view(generics@);
    if generics.len() == 0 {
        return function_type_parts(params, rets);
    }
    let mut v: Vec<NamePart> = Vec::new();
    push_sym(&mut v, "function<");
    let mut k: usize = 0;
    while k < generics.len()
        invariant
            0 < generics.len(),
            k <= generics.len(),
            g == teal_types_view(generics@),
            g.len() == generics.len(),
            forall|j: int| 0 <= j < generics.len() ==> #[trigger] g[j] == generics@[j]@,
            parts_view(v@) == seq![sym("function<"@)] + generic_list(g.take(k as int)),
        decreases generics.len() - k,
    {
        proof {
            assert(g.take(k + 1).drop_last() =~= g.take(k as int));
            assert(g.take(k + 1).last() == g[k as int]);
        }
        if k > 0 {
            push_sym(&mut v, ",");
        }
        let t = generics[k].deep_clone();
        push_part(&mut v, NamePart::Type(t));
        proof {
            if k == 0 {
                assert(g.take(1) =~= seq![g[0]]);
                assert(generic_list(g.take(0)) =~= Seq::<NamePartV>::empty());
            }
            assert(parts_view(v@) =~= seq![sym("function<"@)] + generic_list(g.take(k + 1)));
        }
        k = k + 1;
    }
    assert(g.take(generics.len() as int) =~= g);
    push_sym(&mut v, ">(");
    append_parts(&mut v, params);
    push_sym(&mut v, "):(");
    append_parts(&mut v, rets);
    push_sym(&mut v, ")");
    assert(parts_view(v@) =~= function_parts_as_global(pv, rv));
    v
}

/// Appends every type named by the parameters and then by the return values.
pub fn collect_function_children(
    params: &Vec<NamePart>,
    rets: &Vec<NamePart>,
    children: &mut Vec<TealType>,
)
    ensures
        teal_types_view(final(children)@) == teal_types_view(old(children)@) + teal_types_in(
            parts_view(params@),
        ) + teal_types_in(parts_view(rets@)),
{
    add_children(params, children);
    add_children(rets, children);
}

} // verus!

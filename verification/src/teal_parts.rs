//! Rendering a [`Type`] in Teal syntax, and finding the generics that a type uses.
use vstd::prelude::*;

use crate::name_part::{
    parts_text, parts_view, sym, type_parts_to_str, NamePart, NamePartV, TealType, TealTypeV,
};
use crate::types::{
    lemma_params_view, lemma_types_view, lemma_types_view_push, params_view, type_view,
    types_view, FunctionParam, FunctionRepresentation, KindOfType, Name, ParamV, Type, TypeV,
};

verus! {

/// Where a type stands while it is being rendered.
#[derive(PartialEq, Eq, Structural, Clone, Copy, Debug)]
pub enum AsPartOf {
    /// The type of a function parameter.
    Param,
    /// The type of a function return value.
    Return,
    /// Anywhere else.
    Other,
}

/// A part naming a type, with no generics of its own.
pub open spec fn type_part(name: Seq<char>, kind: KindOfType) -> NamePartV {
    NamePartV::Type(TealTypeV { name, type_kind: kind, generics: None })
}

/// `items` one after the other, with `sep` between two neighbours.
pub open spec fn join(items: Seq<Seq<NamePartV>>, sep: Seq<char>) -> Seq<NamePartV>
    decreases items.len(),
{
    if items.len() == 0 {
        seq![]
    } else if items.len() == 1 {
        items[0]
    } else {
        join(items.drop_last(), sep) + seq![sym(sep)] + items.last()
    }
}

/// The rendering of a type: `is_callback` leaves out the generic header of a function,
/// `ctx` says whether the type is a parameter, a return value or something else.
/// A function with one return value ends in `: ` and that value, as in
/// `function<T>(T): T`; one with several ends in `:(` and the values separated by ` , `, then
/// `)`; one with none ends after its parameters.
pub open spec fn teal_parts(t: TypeV, is_callback: bool, ctx: AsPartOf) -> Seq<NamePartV>
    decreases t,
{
    match t {
        TypeV::Single { name, kind, generics } => seq![type_part(name, kind)] + if generics.len()
            == 0 {
            seq![]
        } else {
            seq![sym("<"@)] + join_types(generics, is_callback, AsPartOf::Other, ","@) + seq![
                sym(">"@),
            ]
        },
        TypeV::Array(x) => seq![sym("{"@)] + teal_parts(*x, true, AsPartOf::Other) + seq![
            sym("}"@),
        ],
        TypeV::Mapping { key, value } => seq![sym("{"@)] + teal_parts(*key, true, AsPartOf::Other)
            + seq![sym(" : "@)] + teal_parts(*value, true, AsPartOf::Other) + seq![sym("}"@)],
        TypeV::Or(xs) => if xs.len() == 0 {
            seq![]
        } else {
            seq![sym("("@)] + join_types(xs, true, ctx, " | "@) + seq![sym(")"@)]
        },
        TypeV::Tuple(xs) => if xs.len() == 0 {
            seq![]
        } else {
            seq![sym("("@)] + join_types(xs, true, ctx, " , "@) + seq![sym(")"@)]
        },
        TypeV::Function { params, results: rets } => seq![sym("function"@)] + generic_header(
            fn_generic_names(params, rets),
            is_callback,
        ) + seq![sym("("@)] + join_params(params) + seq![sym(")"@)] + if rets.len() == 0 {
            seq![]
        } else if rets.len() == 1 {
            seq![sym(": "@)] + join_returns(rets)
        } else {
            seq![sym(":("@)] + join_returns(rets) + seq![sym(")"@)]
        },
        TypeV::Variadic(x) => teal_parts(*x, is_callback, ctx),
    }
}

/// The renderings of `xs`, separated by `sep`.
pub open spec fn join_types(xs: Seq<TypeV>, is_callback: bool, ctx: AsPartOf, sep: Seq<char>) -> Seq<
    NamePartV,
>
    decreases xs,
{
    if xs.len() == 0 {
        seq![]
    } else if xs.len() == 1 {
        teal_parts(xs[0], is_callback, ctx)
    } else {
        join_types(xs.drop_last(), is_callback, ctx, sep) + seq![sym(sep)] + teal_parts(
            xs.last(),
            is_callback,
            ctx,
        )
    }
}

/// The name shown before a parameter's type: `...` for a variadic, else its own name.
pub open spec fn shown_param_name(p: ParamV) -> Option<Seq<char>> {
    if p.ty is Variadic {
        Some("..."@)
    } else {
        p.name
    }
}

/// The rendering of one parameter of a function.
pub open spec fn param_parts(p: ParamV) -> Seq<NamePartV>
    decreases p,
{
    let head: Seq<NamePartV> = match shown_param_name(p) {
        Some(n) => seq![sym(n), sym(":"@)],
        None => seq![],
    };
    head + teal_parts(p.ty, true, AsPartOf::Param)
}

/// The parameters of a function, separated by ` , `.
pub open spec fn join_params(ps: Seq<ParamV>) -> Seq<NamePartV>
    decreases ps,
{
    if ps.len() == 0 {
        seq![]
    } else if ps.len() == 1 {
        param_parts(ps[0])
    } else {
        join_params(ps.drop_last()) + seq![sym(" , "@)] + param_parts(ps.last())
    }
}

/// `...` after a variadic return type, else nothing.
pub open spec fn variadic_suffix(r: TypeV) -> Seq<NamePartV> {
    if r is Variadic {
        seq![sym("..."@)]
    } else {
        seq![]
    }
}

/// The rendering of one return type of a function; a variadic gets a trailing `...`.
pub open spec fn return_parts(r: TypeV) -> Seq<NamePartV> {
    teal_parts(r, true, AsPartOf::Return) + variadic_suffix(r)
}

/// The return types of a function, separated by ` , `.
pub open spec fn join_returns(rs: Seq<TypeV>) -> Seq<NamePartV>
    decreases rs,
{
    if rs.len() == 0 {
        seq![]
    } else if rs.len() == 1 {
        teal_parts(rs[0], true, AsPartOf::Return) + variadic_suffix(rs[0])
    } else {
        join_returns(rs.drop_last()) + seq![sym(" , "@)] + teal_parts(
            rs.last(),
            true,
            AsPartOf::Return,
        ) + variadic_suffix(rs.last())
    }
}

/// The generic names of a function, as parts.
pub open spec fn generic_parts(names: Seq<Seq<char>>) -> Seq<NamePartV>
    decreases names.len(),
{
    if names.len() == 0 {
        seq![]
    } else if names.len() == 1 {
        seq![type_part(names[0], KindOfType::Generic)]
    } else {
        generic_parts(names.drop_last()) + seq![sym(","@)] + seq![
            type_part(names.last(), KindOfType::Generic),
        ]
    }
}

/// `<A,B>` when the function is not a callback and has generics, else nothing.
pub open spec fn generic_header(names: Seq<Seq<char>>, is_callback: bool) -> Seq<NamePartV> {
    if !is_callback && names.len() > 0 {
        seq![sym("<"@)] + generic_parts(names) + seq![sym(">"@)]
    } else {
        seq![]
    }
}

// ---------------------------------------------------------------------------------------------
// Generics
// ---------------------------------------------------------------------------------------------
/// `s` with `x` added at the end, unless it is already there.
pub open spec fn add_unique<A>(s: Seq<A>, x: A) -> Seq<A> {
    if s.contains(x) {
        s
    } else {
        s.push(x)
    }
}

/// `d` extended by the elements of `s` in order, each only if it is not there yet.
pub open spec fn dedup_extend<A>(d: Seq<A>, s: Seq<A>) -> Seq<A>
    decreases s.len(),
{
    if s.len() == 0 {
        d
    } else {
        add_unique(dedup_extend(d, s.drop_last()), s.last())
    }
}

/// The distinct elements of `s`, in the order of their first occurrence.
pub open spec fn dedup<A>(s: Seq<A>) -> Seq<A> {
    dedup_extend(seq![], s)
}

/// The generic types that a type uses, in order of occurrence, repeats included.
/// A generic is a `Single` of kind `Generic`; the generics of a `Single` are not searched.
pub open spec fn gen_types(t: TypeV) -> Seq<TypeV>
    decreases t,
{
    match t {
        TypeV::Function { params, results: rets } => gen_types_params(params) + gen_types_seq(rets),
        TypeV::Array(x) => gen_types(*x),
        TypeV::Single { name, kind, generics } => if kind == KindOfType::Generic {
            seq![t]
        } else {
            seq![]
        },
        TypeV::Or(xs) => gen_types_seq(xs),
        TypeV::Tuple(xs) => gen_types_seq(xs),
        TypeV::Mapping { key, value } => gen_types(*key) + gen_types(*value),
        TypeV::Variadic(x) => gen_types(*x),
    }
}

pub open spec fn gen_types_seq(xs: Seq<TypeV>) -> Seq<TypeV>
    decreases xs,
{
    if xs.len() == 0 {
        seq![]
    } else {
        gen_types_seq(xs.drop_last()) + gen_types(xs.last())
    }
}

pub open spec fn gen_types_params(ps: Seq<ParamV>) -> Seq<TypeV>
    decreases ps,
{
    if ps.len() == 0 {
        seq![]
    } else {
        gen_types_params(ps.drop_last()) + gen_types(ps.last().ty)
    }
}

/// The name of a `Single`, and nothing for the other variants.
pub open spec fn single_name(t: TypeV) -> Seq<char> {
    match t {
        TypeV::Single { name, .. } => name,
        _ => seq![],
    }
}

/// The names of the generics that a type uses, in order of occurrence, repeats included.
pub open spec fn gen_names(t: TypeV) -> Seq<Seq<char>> {
    names_of(gen_types(t))
}

/// The names of a sequence of types.
pub open spec fn names_of(s: Seq<TypeV>) -> Seq<Seq<char>> {
    s.map_values(|x: TypeV| single_name(x))
}

/// The distinct generic names of a function with these parameters and rets.
pub open spec fn fn_generic_names(params: Seq<ParamV>, rets: Seq<TypeV>) -> Seq<Seq<char>> {
    dedup(names_of((gen_types_params(params) + gen_types_seq(rets))))
}

pub proof fn lemma_dedup_extend_concat<A>(d: Seq<A>, a: Seq<A>, b: Seq<A>)
    ensures
        dedup_extend(d, a + b) == dedup_extend(dedup_extend(d, a), b),
    decreases b.len(),
{
    if b.len() == 0 {
        assert(a + b =~= a);
    } else {
        lemma_dedup_extend_concat(d, a, b.drop_last());
        assert((a + b).drop_last() =~= a + b.drop_last());
        assert((a + b).last() == b.last());
    }
}

pub proof fn lemma_dedup_extend_push<A>(d: Seq<A>, a: Seq<A>, x: A)
    ensures
        dedup_extend(d, a.push(x)) == add_unique(dedup_extend(d, a), x),
{
    assert(a.push(x).drop_last() =~= a);
}

/// Every element of a deduplicated sequence occurs once.
pub proof fn lemma_dedup_extend_unique<A>(d: Seq<A>, s: Seq<A>)
    requires
        d.no_duplicates(),
    ensures
        dedup_extend(d, s).no_duplicates(),
        forall|x: A| #[trigger] dedup_extend(d, s).contains(x) <==> (d.contains(x) || s.contains(x)),
    decreases s.len(),
{
    if s.len() > 0 {
        lemma_dedup_extend_unique(d, s.drop_last());
        let e = dedup_extend(d, s.drop_last());
        assert forall|x: A| #[trigger] dedup_extend(d, s).contains(x) <==> (d.contains(x)
            || s.contains(x)) by {
            if s.contains(x) && !s.drop_last().contains(x) {
                let k = choose|k: int| 0 <= k < s.len() && s[k] == x;
                if k < s.len() - 1 {
                    assert(s.drop_last()[k] == x);
                }
            }
            if s.drop_last().contains(x) {
                let k = choose|k: int| 0 <= k < s.drop_last().len() && s.drop_last()[k] == x;
                assert(s[k] == x);
            }
            if !e.contains(s.last()) {
                if e.push(s.last()).contains(x) && x != s.last() {
                    let k = choose|k: int| 0 <= k < e.push(s.last()).len() && e.push(s.last())[k] == x;
                    assert(e[k] == x);
                }
                if e.contains(x) {
                    let k = choose|k: int| 0 <= k < e.len() && e[k] == x;
                    assert(e.push(s.last())[k] == x);
                }
                assert(e.push(s.last())[e.len() as int] == s.last());
            }
        }
        if !e.contains(s.last()) {
            assert(e.push(s.last()).no_duplicates()) by {
                assert forall|i: int, j: int|
                    0 <= i < e.push(s.last()).len() && 0 <= j < e.push(s.last()).len() && i
                        != j implies e.push(s.last())[i] != e.push(s.last())[j] by {
                    if i < e.len() && j < e.len() {
                    } else if i < e.len() {
                        assert(e.contains(e[i]));
                    } else {
                        assert(e.contains(e[j]));
                    }
                }
            }
        }
    }
}

// ---------------------------------------------------------------------------------------------
// Executable rendering
// ---------------------------------------------------------------------------------------------
pub(crate) fn push_sym(dst: &mut Vec<NamePart>, s: &str)
    ensures
        parts_view(final(dst)@) == parts_view(old(dst)@).push(sym(s@)),
{
    dst.push(NamePart::symbol(s));
    proof {
        assert(parts_view(dst@) =~= parts_view(old(dst)@).push(sym(s@)));
    }
}

pub(crate) fn push_part(dst: &mut Vec<NamePart>, p: NamePart)
    ensures
        parts_view(final(dst)@) == parts_view(old(dst)@).push(p@),
{
    let ghost pv = p@;
    dst.push(p);
    proof {
        assert(parts_view(dst@) =~= parts_view(old(dst)@).push(pv));
    }
}

pub(crate) fn append_parts(dst: &mut Vec<NamePart>, src: Vec<NamePart>)
    ensures
        parts_view(final(dst)@) == parts_view(old(dst)@) + parts_view(src@),
{
    let mut src = src;
    let ghost src_view = src@;
    dst.append(&mut src);
    proof {
        assert(parts_view(dst@) =~= parts_view(old(dst)@) + parts_view(src_view));
    }
}

proof fn lemma_join_types_step(xs: Seq<TypeV>, i: int, cb: bool, ctx: AsPartOf, sep: Seq<char>)
    requires
        0 <= i < xs.len(),
    ensures
        join_types(xs.take(i + 1), cb, ctx, sep) == if i == 0 {
            teal_parts(xs[0], cb, ctx)
        } else {
            join_types(xs.take(i), cb, ctx, sep) + seq![sym(sep)] + teal_parts(xs[i], cb, ctx)
        },
{
    assert(xs.take(i + 1).drop_last() =~= xs.take(i));
    assert(xs.take(i + 1).last() == xs[i]);
    assert(xs.take(i + 1)[0] == xs[0]);
}

/// The renderings of `xs`, separated by `sep`.
fn join_type_parts(xs: &Vec<Type>, cb: bool, ctx: AsPartOf, sep: &str) -> (r: Vec<NamePart>)
    ensures
        parts_view(r@) == join_types(types_view(xs@), cb, ctx, sep@),
    decreases xs,
{
    let ghost tv = types_view(xs@);
    proof {
        lemma_types_view(xs@);
    }
    let mut parts: Vec<NamePart> = Vec::new();
    let mut i: usize = 0;
    while i < xs.len()
        invariant
            i <= xs.len(),
            tv == types_view(xs@),
            tv.len() == xs.len(),
            forall|j: int| 0 <= j < xs.len() ==> #[trigger] tv[j] == type_view(xs@[j]),
            parts_view(parts@) == join_types(tv.take(i as int), cb, ctx, sep@),
        decreases xs.len() - i,
    {
        proof {
            assert(decreases_to!(xs => xs[i as int]));
            lemma_join_types_step(tv, i as int, cb, ctx, sep@);
        }
        if i > 0 {
            push_sym(&mut parts, sep);
        }
        let sub = teal_parts_of(&xs[i], cb, ctx);
        append_parts(&mut parts, sub);
        i = i + 1;
    }
    assert(tv.take(xs.len() as int) =~= tv);
    parts
}

proof fn lemma_join_params_step(ps: Seq<ParamV>, i: int)
    requires
        0 <= i < ps.len(),
    ensures
        join_params(ps.take(i + 1)) == if i == 0 {
            param_parts(ps[0])
        } else {
            join_params(ps.take(i)) + seq![sym(" , "@)] + param_parts(ps[i])
        },
{
    assert(ps.take(i + 1).drop_last() =~= ps.take(i));
    assert(ps.take(i + 1).last() == ps[i]);
    assert(ps.take(i + 1)[0] == ps[0]);
}

proof fn lemma_join_returns_step(rs: Seq<TypeV>, i: int)
    requires
        0 <= i < rs.len(),
    ensures
        join_returns(rs.take(i + 1)) == if i == 0 {
            return_parts(rs[0])
        } else {
            join_returns(rs.take(i)) + seq![sym(" , "@)] + return_parts(rs[i])
        },
{
    assert(rs.take(i + 1).drop_last() =~= rs.take(i));
    assert(rs.take(i + 1).last() == rs[i]);
    assert(rs.take(i + 1)[0] == rs[0]);
}

proof fn lemma_generic_parts_step(ns: Seq<Seq<char>>, i: int)
    requires
        0 <= i < ns.len(),
    ensures
        generic_parts(ns.take(i + 1)) == if i == 0 {
            seq![type_part(ns[0], KindOfType::Generic)]
        } else {
            generic_parts(ns.take(i)) + seq![sym(","@)] + seq![
                type_part(ns[i], KindOfType::Generic),
            ]
        },
{
    assert(ns.take(i + 1).drop_last() =~= ns.take(i));
    assert(ns.take(i + 1).last() == ns[i]);
    assert(ns.take(i + 1)[0] == ns[0]);
}

/// The rendering of one parameter.
fn param_parts_of(p: &FunctionParam) -> (r: Vec<NamePart>)
    ensures
        parts_view(r@) == param_parts(p@),
    decreases p,
{
    let mut parts: Vec<NamePart> = Vec::new();
    let is_variadic = matches!(&p.ty, Type::Variadic(_));
    if is_variadic {
        push_sym(&mut parts, "...");
        push_sym(&mut parts, ":");
    } else {
        match &p.param_name {
            Some(n) => {
                push_sym(&mut parts, n.0.as_str());
                push_sym(&mut parts, ":");
            },
            None => {},
        }
    }
    let sub = teal_parts_of(&p.ty, true, AsPartOf::Param);
    append_parts(&mut parts, sub);
    proof {
        let head: Seq<NamePartV> = match shown_param_name(p@) {
            Some(n) => seq![sym(n), sym(":"@)],
            None => seq![],
        };
        assert(parts_view(parts@) =~= head + teal_parts(p.ty@, true, AsPartOf::Param));
    }
    parts
}

/// The rendering of a function type.
fn function_parts_of(f: &FunctionRepresentation, is_callback: bool) -> (r: Vec<NamePart>)
    ensures
        parts_view(r@) == teal_parts(
            TypeV::Function { params: params_view(f.params@), results: types_view(f.returns@) },
            is_callback,
            AsPartOf::Other,
        ),
    decreases f,
{
    let ghost pv = params_view(f.params@);
    let ghost rv = types_view(f.returns@);
    proof {
        lemma_params_view(f.params@);
        lemma_types_view(f.returns@);
    }
    let mut parts: Vec<NamePart> = Vec::new();
    push_sym(&mut parts, "function");
    let generics = fn_generics(&f.params, &f.returns);
    let ghost names = fn_generic_names(pv, rv);
    assert(names_view(generics@) == names);
    let ghost before_header = parts_view(parts@);
    if !is_callback && generics.len() > 0 {
        push_sym(&mut parts, "<");
        let ghost at = parts_view(parts@);
        let mut k: usize = 0;
        while k < generics.len()
            invariant
                k <= generics.len(),
                names_view(generics@) == names,
                names.len() == generics.len(),
                parts_view(parts@) == at + generic_parts(names.take(k as int)),
            decreases generics.len() - k,
        {
            proof {
                lemma_generic_parts_step(names, k as int);
                assert(names[k as int] == generics@[k as int]@);
            }
            if k > 0 {
                push_sym(&mut parts, ",");
            }
            let g = generics[k];
            let part = NamePart::Type(
                TealType { name: g.0.clone(), type_kind: KindOfType::Generic, generics: None },
            );
            assert(part@ == type_part(names[k as int], KindOfType::Generic));
            push_part(&mut parts, part);
            proof {
                assert(parts_view(parts@) =~= at + generic_parts(names.take(k + 1)));
            }
            k = k + 1;
        }
        assert(names.take(generics.len() as int) =~= names);
        push_sym(&mut parts, ">");
        assert(parts_view(parts@) =~= before_header + generic_header(names, is_callback));
    } else {
        assert(parts_view(parts@) =~= before_header + generic_header(names, is_callback));
    }
    push_sym(&mut parts, "(");
    let ghost at_params = parts_view(parts@);
    let mut i: usize = 0;
    while i < f.params.len()
        invariant
            i <= f.params.len(),
            pv == params_view(f.params@),
            pv.len() == f.params.len(),
            forall|j: int| 0 <= j < f.params.len() ==> #[trigger] pv[j] == f.params@[j]@,
            parts_view(parts@) == at_params + join_params(pv.take(i as int)),
        decreases f.params.len() - i,
    {
        proof {
            assert(decreases_to!(f.params => f.params[i as int]));
            lemma_join_params_step(pv, i as int);
        }
        if i > 0 {
            push_sym(&mut parts, " , ");
        }
        let sub = param_parts_of(&f.params[i]);
        append_parts(&mut parts, sub);
        proof {
            assert(parts_view(parts@) =~= at_params + join_params(pv.take(i + 1)));
        }
        i = i + 1;
    }
    assert(pv.take(f.params.len() as int) =~= pv);
    push_sym(&mut parts, ")");
    let ghost at_returns = parts_view(parts@);
    if f.returns.len() > 0 {
        if f.returns.len() == 1 {
            push_sym(&mut parts, ": ");
        } else {
            push_sym(&mut parts, ":(");
        }
        let ghost at_r = parts_view(parts@);
        let mut i: usize = 0;
        while i < f.returns.len()
            invariant
                i <= f.returns.len(),
                rv == types_view(f.returns@),
                rv.len() == f.returns.len(),
                forall|j: int| 0 <= j < f.returns.len() ==> #[trigger] rv[j] == type_view(
                    f.returns@[j],
                ),
                parts_view(parts@) == at_r + join_returns(rv.take(i as int)),
            decreases f.returns.len() - i,
        {
            proof {
                assert(decreases_to!(f.returns => f.returns[i as int]));
                lemma_join_returns_step(rv, i as int);
            }
            if i > 0 {
                push_sym(&mut parts, " , ");
            }
            let sub = teal_parts_of(&f.returns[i], true, AsPartOf::Return);
            append_parts(&mut parts, sub);
            if matches!(&f.returns[i], Type::Variadic(_)) {
                push_sym(&mut parts, "...");
            }
            proof {
                assert(parts_view(parts@) =~= at_r + join_returns(rv.take(i + 1)));
            }
            i = i + 1;
        }
        assert(rv.take(f.returns.len() as int) =~= rv);
        if f.returns.len() > 1 {
            push_sym(&mut parts, ")");
        }
    }
    proof {
        let tail: Seq<NamePartV> = if rv.len() == 0 {
            seq![]
        } else if rv.len() == 1 {
            seq![sym(": "@)] + join_returns(rv)
        } else {
            seq![sym(":("@)] + join_returns(rv) + seq![sym(")"@)]
        };
        assert(parts_view(parts@) =~= at_returns + tail);
        assert(parts_view(parts@) =~= seq![sym("function"@)] + generic_header(names, is_callback)
            + seq![sym("("@)] + join_params(pv) + seq![sym(")"@)] + tail);
    }
    parts
}

/// Renders a type in parts: `is_callback` leaves out the generic header of a function type.
fn teal_parts_of(a: &Type, is_callback: bool, ctx: AsPartOf) -> (r: Vec<NamePart>)
    ensures
        parts_view(r@) == teal_parts(a@, is_callback, ctx),
    decreases a,
{
    match a {
        Type::Single(s) => {
            let mut parts: Vec<NamePart> = Vec::new();
            push_part(
                &mut parts,
                NamePart::Type(TealType { name: s.name.0.clone(), type_kind: s.kind, generics: None }),
            );
            if s.generics.len() > 0 {
                push_sym(&mut parts, "<");
                let sub = join_type_parts(&s.generics, is_callback, AsPartOf::Other, ",");
                append_parts(&mut parts, sub);
                push_sym(&mut parts, ">");
            }
            proof {
                lemma_types_view(s.generics@);
                assert(parts_view(parts@) =~= teal_parts(a@, is_callback, ctx));
            }
            parts
        },
        Type::Array(x) => {
            let mut parts: Vec<NamePart> = Vec::new();
            push_sym(&mut parts, "{");
            let sub = teal_parts_of(&**x, true, AsPartOf::Other);
            append_parts(&mut parts, sub);
            push_sym(&mut parts, "}");
            proof {
                assert(parts_view(parts@) =~= teal_parts(a@, is_callback, ctx));
            }
            parts
        },
        Type::Mapping(m) => {
            let mut parts: Vec<NamePart> = Vec::new();
            push_sym(&mut parts, "{");
            let k = teal_parts_of(&*m.key, true, AsPartOf::Other);
            append_parts(&mut parts, k);
            push_sym(&mut parts, " : ");
            let v = teal_parts_of(&*m.value, true, AsPartOf::Other);
            append_parts(&mut parts, v);
            push_sym(&mut parts, "}");
            proof {
                assert(parts_view(parts@) =~= teal_parts(a@, is_callback, ctx));
            }
            parts
        },
        Type::Or(xs) => {
            proof {
                lemma_types_view(xs@);
            }
            if xs.len() == 0 {
                let parts: Vec<NamePart> = Vec::new();
                assert(parts_view(parts@) =~= teal_parts(a@, is_callback, ctx));
                return parts;
            }
            let mut parts: Vec<NamePart> = Vec::new();
            push_sym(&mut parts, "(");
            let sub = join_type_parts(xs, true, ctx, " | ");
            append_parts(&mut parts, sub);
            push_sym(&mut parts, ")");
            proof {
                assert(parts_view(parts@) =~= teal_parts(a@, is_callback, ctx));
            }
            parts
        },
        Type::Tuple(xs) => {
            proof {
                lemma_types_view(xs@);
            }
            if xs.len() == 0 {
                let parts: Vec<NamePart> = Vec::new();
                assert(parts_view(parts@) =~= teal_parts(a@, is_callback, ctx));
                return parts;
            }
            let mut parts: Vec<NamePart> = Vec::new();
            push_sym(&mut parts, "(");
            let sub = join_type_parts(xs, true, ctx, " , ");
            append_parts(&mut parts, sub);
            push_sym(&mut parts, ")");
            proof {
                assert(parts_view(parts@) =~= teal_parts(a@, is_callback, ctx));
            }
            parts
        },
        Type::Function(f) => function_parts_of(f, is_callback),
        Type::Variadic(x) => teal_parts_of(&**x, is_callback, ctx),
    }
}

/// Turns a type into parts that are close to how it is displayed in Teal, keeping type information intact.
pub fn type_to_teal_parts(a: &Type, is_callback: bool) -> (r: Vec<NamePart>)
    ensures
        parts_view(r@) == teal_parts(a@, is_callback, AsPartOf::Other),
{
    teal_parts_of(a, is_callback, AsPartOf::Other)
}

/// Turns a type into readable text, in Teal's syntax.
pub fn type_to_string(a: &Type, is_callback: bool) -> (r: String)
    ensures
        r@ == parts_text(teal_parts(a@, is_callback, AsPartOf::Other)),
{
    type_parts_to_str(type_to_teal_parts(a, is_callback))
}

// ---------------------------------------------------------------------------------------------
// Executable generics
// ---------------------------------------------------------------------------------------------
/// The views of a sequence of name references.
pub open spec fn names_view(s: Seq<&Name>) -> Seq<Seq<char>> {
    s.map_values(|n: &Name| n@)
}

fn add_unique_name<'a>(acc: &mut Vec<&'a Name>, n: &'a Name)
    ensures
        names_view(final(acc)@) == add_unique(names_view(old(acc)@), n@),
{
    let ghost old_view = names_view(acc@);
    let mut i: usize = 0;
    while i < acc.len()
        invariant
            i <= acc.len(),
            old_view == names_view(acc@),
            forall|j: int| 0 <= j < i ==> acc@[j]@ != n@,
        decreases acc.len() - i,
    {
        if acc[i].0 == n.0 {
            assert(old_view[i as int] == n@);
            assert(old_view.contains(n@));
            return;
        }
        i = i + 1;
    }
    assert(!old_view.contains(n@)) by {
        if old_view.contains(n@) {
            let k = choose|k: int| 0 <= k < old_view.len() && old_view[k] == n@;
            assert(acc@[k]@ == n@);
        }
    }
    acc.push(n);
    assert(names_view(acc@) =~= old_view.push(n@));
}

pub proof fn lemma_gen_names_concat(a: Seq<TypeV>, b: Seq<TypeV>)
    ensures
        names_of(a + b) == names_of(a) + names_of(b),
{
    assert(names_of(a + b) =~= names_of(a) + names_of(b));
}

fn collect_fn_generic_names<'a>(f: &'a FunctionRepresentation, acc: &mut Vec<&'a Name>)
    ensures
        names_view(final(acc)@) == dedup_extend(
            names_view(old(acc)@),
            names_of(gen_types_params(params_view(f.params@)) + gen_types_seq(types_view(f.returns@))),
        ),
    decreases f,
{
    collect_generic_names_params(&f.params, acc);
    collect_generic_names_seq(&f.returns, acc);
    proof {
        lemma_gen_names_concat(gen_types_params(params_view(f.params@)), gen_types_seq(types_view(f.returns@)));
        lemma_dedup_extend_concat(
            names_view(old(acc)@),
            names_of(gen_types_params(params_view(f.params@))),
            names_of(gen_types_seq(types_view(f.returns@))),
        );
    }
}

/// Adds the generic names of `t`, each unless it is already in `acc`.
fn collect_generic_names<'a>(t: &'a Type, acc: &mut Vec<&'a Name>)
    ensures
        names_view(final(acc)@) == dedup_extend(names_view(old(acc)@), gen_names(t@)),
    decreases t,
{
    match t {
        Type::Function(f) => collect_fn_generic_names(f, acc),
        Type::Array(x) => collect_generic_names(&**x, acc),
        Type::Single(s) => {
            if s.kind == KindOfType::Generic {
                add_unique_name(acc, &s.name);
                proof {
                    assert(gen_types(t@) =~= seq![t@]);
                    assert(gen_names(t@) =~= seq![s.name@]);
                    lemma_dedup_extend_push(names_view(old(acc)@), Seq::<Seq<char>>::empty(), s.name@);
                    assert(Seq::<Seq<char>>::empty().push(s.name@) =~= seq![s.name@]);
                    assert(dedup_extend(names_view(old(acc)@), Seq::<Seq<char>>::empty()) == names_view(old(acc)@));
                }
            } else {
                assert(gen_names(t@) =~= Seq::<Seq<char>>::empty());
            }
        },
        Type::Or(xs) => collect_generic_names_seq(xs, acc),
        Type::Tuple(xs) => collect_generic_names_seq(xs, acc),
        Type::Mapping(m) => {
            collect_generic_names(&*m.key, acc);
            collect_generic_names(&*m.value, acc);
            proof {
                lemma_gen_names_concat(gen_types(m.key@), gen_types(m.value@));
                lemma_dedup_extend_concat(
                    names_view(old(acc)@),
                    gen_names(m.key@),
                    gen_names(m.value@),
                );
            }
        },
        Type::Variadic(x) => collect_generic_names(&**x, acc),
    }
}

fn collect_generic_names_seq<'a>(xs: &'a Vec<Type>, acc: &mut Vec<&'a Name>)
    ensures
        names_view(final(acc)@) == dedup_extend(
            names_view(old(acc)@),
            names_of(gen_types_seq(types_view(xs@))),
        ),
    decreases xs,
{
    let ghost tv = types_view(xs@);
    let ghost start = names_view(acc@);
    proof {
        lemma_types_view(xs@);
    }
    let mut i: usize = 0;
    while i < xs.len()
        invariant
            i <= xs.len(),
            tv == types_view(xs@),
            tv.len() == xs.len(),
            forall|j: int| 0 <= j < xs.len() ==> #[trigger] tv[j] == type_view(xs@[j]),
            names_view(acc@) == dedup_extend(
                start,
                names_of(gen_types_seq(tv.take(i as int))),
            ),
        decreases xs.len() - i,
    {
        proof {
            assert(decreases_to!(xs => xs[i as int]));
        }
        let ghost before = names_view(acc@);
        collect_generic_names(&xs[i], acc);
        proof {
            assert(tv.take(i + 1).drop_last() =~= tv.take(i as int));
            assert(tv.take(i + 1).last() == tv[i as int]);
            lemma_gen_names_concat(gen_types_seq(tv.take(i as int)), gen_types(tv[i as int]));
            lemma_dedup_extend_concat(
                start,
                names_of(gen_types_seq(tv.take(i as int))),
                gen_names(tv[i as int]),
            );
        }
        i = i + 1;
    }
    assert(tv.take(xs.len() as int) =~= tv);
}

fn collect_generic_names_params<'a>(ps: &'a Vec<FunctionParam>, acc: &mut Vec<&'a Name>)
    ensures
        names_view(final(acc)@) == dedup_extend(
            names_view(old(acc)@),
            names_of(gen_types_params(params_view(ps@))),
        ),
    decreases ps,
{
    let ghost pv = params_view(ps@);
    let ghost start = names_view(acc@);
    proof {
        lemma_params_view(ps@);
    }
    let mut i: usize = 0;
    while i < ps.len()
        invariant
            i <= ps.len(),
            pv == params_view(ps@),
            pv.len() == ps.len(),
            forall|j: int| 0 <= j < ps.len() ==> #[trigger] pv[j] == ps@[j]@,
            names_view(acc@) == dedup_extend(
                start,
                names_of(gen_types_params(pv.take(i as int))),
            ),
        decreases ps.len() - i,
    {
        proof {
            assert(decreases_to!(ps => ps[i as int]));
        }
        collect_generic_names(&ps[i].ty, acc);
        proof {
            assert(pv.take(i + 1).drop_last() =~= pv.take(i as int));
            assert(pv.take(i + 1).last() == pv[i as int]);
            lemma_gen_names_concat(gen_types_params(pv.take(i as int)), gen_types(pv[i as int].ty));
            lemma_dedup_extend_concat(
                start,
                names_of(gen_types_params(pv.take(i as int))),
                gen_names(pv[i as int].ty),
            );
        }
        i = i + 1;
    }
    assert(pv.take(ps.len() as int) =~= pv);
}

/// The distinct generic names used by a function with these parameters and return types.
pub fn fn_generics<'a>(params: &'a Vec<FunctionParam>, rets: &'a Vec<Type>) -> (r: Vec<&'a Name>)
    ensures
        names_view(r@) == fn_generic_names(params_view(params@), types_view(rets@)),
{
    let mut acc: Vec<&'a Name> = Vec::new();
    assert(names_view(acc@) =~= Seq::<Seq<char>>::empty());
    collect_generic_names_params(params, &mut acc);
    collect_generic_names_seq(rets, &mut acc);
    proof {
        lemma_gen_names_concat(
            gen_types_params(params_view(params@)),
            gen_types_seq(types_view(rets@)),
        );
        lemma_dedup_extend_concat(
            Seq::<Seq<char>>::empty(),
            names_of(gen_types_params(params_view(params@))),
            names_of(gen_types_seq(types_view(rets@))),
        );
    }
    acc
}

/// Gets the names of the generics of any given type: each distinct name once,
/// in the order in which they first occur.
pub fn get_generics(to_check: &Type) -> (r: Vec<&Name>)
    ensures
        names_view(r@) == dedup(gen_names(to_check@)),
        names_view(r@).no_duplicates(),
{
    let mut acc: Vec<&Name> = Vec::new();
    assert(names_view(acc@) =~= Seq::<Seq<char>>::empty());
    collect_generic_names(to_check, &mut acc);
    proof {
        lemma_dedup_extend_unique(Seq::<Seq<char>>::empty(), gen_names(to_check@));
    }
    acc
}

// The generic types themselves.
fn add_unique_type(acc: &mut Vec<Type>, t: &Type)
    ensures
        types_view(final(acc)@) == add_unique(types_view(old(acc)@), t@),
{
    let ghost old_view = types_view(acc@);
    proof {
        lemma_types_view(acc@);
    }
    let mut i: usize = 0;
    while i < acc.len()
        invariant
            i <= acc.len(),
            old_view == types_view(acc@),
            old_view.len() == acc.len(),
            forall|j: int| 0 <= j < acc.len() ==> #[trigger] old_view[j] == type_view(acc@[j]),
            forall|j: int| 0 <= j < i ==> type_view(acc@[j]) != t@,
        decreases acc.len() - i,
    {
        if acc[i].deep_eq(t) {
            assert(old_view[i as int] == t@);
            assert(old_view.contains(t@));
            return;
        }
        i = i + 1;
    }
    assert(!old_view.contains(t@)) by {
        if old_view.contains(t@) {
            let k = choose|k: int| 0 <= k < old_view.len() && old_view[k] == t@;
            assert(type_view(acc@[k]) == t@);
        }
    }
    let c = t.deep_clone();
    acc.push(c);
    proof {
        lemma_types_view_push(old(acc)@, c);
    }
}

fn collect_generic_types(t: &Type, acc: &mut Vec<Type>)
    ensures
        types_view(final(acc)@) == dedup_extend(types_view(old(acc)@), gen_types(t@)),
    decreases t,
{
    match t {
        Type::Function(f) => {
            collect_generic_types_params(&f.params, acc);
            collect_generic_types_seq(&f.returns, acc);
            proof {
                assert(t@ == (TypeV::Function {
                    params: params_view(f.params@),
                    results: types_view(f.returns@),
                }));
                assert(gen_types(t@) == gen_types_params(params_view(f.params@)) + gen_types_seq(
                    types_view(f.returns@),
                ));
                lemma_dedup_extend_concat(
                    types_view(old(acc)@),
                    gen_types_params(params_view(f.params@)),
                    gen_types_seq(types_view(f.returns@)),
                );
            }
        },
        Type::Array(x) => collect_generic_types(&**x, acc),
        Type::Single(s) => {
            if s.kind == KindOfType::Generic {
                add_unique_type(acc, t);
                proof {
                    assert(gen_types(t@) =~= seq![t@]);
                    lemma_dedup_extend_push(types_view(old(acc)@), Seq::<TypeV>::empty(), t@);
                    assert(Seq::<TypeV>::empty().push(t@) =~= seq![t@]);
                    assert(dedup_extend(types_view(old(acc)@), Seq::<TypeV>::empty()) == types_view(old(acc)@));
                }
            } else {
                assert(gen_types(t@) =~= Seq::<TypeV>::empty());
            }
        },
        Type::Or(xs) => collect_generic_types_seq(xs, acc),
        Type::Tuple(xs) => collect_generic_types_seq(xs, acc),
        Type::Mapping(m) => {
            collect_generic_types(&*m.key, acc);
            collect_generic_types(&*m.value, acc);
            proof {
                lemma_dedup_extend_concat(
                    types_view(old(acc)@),
                    gen_types(m.key@),
                    gen_types(m.value@),
                );
            }
        },
        Type::Variadic(x) => collect_generic_types(&**x, acc),
    }
}

fn collect_generic_types_seq(xs: &Vec<Type>, acc: &mut Vec<Type>)
    ensures
        types_view(final(acc)@) == dedup_extend(types_view(old(acc)@), gen_types_seq(types_view(xs@))),
    decreases xs,
{
    let ghost tv = types_view(xs@);
    let ghost start = types_view(acc@);
    proof {
        lemma_types_view(xs@);
    }
    let mut i: usize = 0;
    while i < xs.len()
        invariant
            i <= xs.len(),
            tv == types_view(xs@),
            tv.len() == xs.len(),
            forall|j: int| 0 <= j < xs.len() ==> #[trigger] tv[j] == type_view(xs@[j]),
            types_view(acc@) == dedup_extend(start, gen_types_seq(tv.take(i as int))),
        decreases xs.len() - i,
    {
        proof {
            assert(decreases_to!(xs => xs[i as int]));
        }
        collect_generic_types(&xs[i], acc);
        proof {
            assert(tv.take(i + 1).drop_last() =~= tv.take(i as int));
            assert(tv.take(i + 1).last() == tv[i as int]);
            lemma_dedup_extend_concat(start, gen_types_seq(tv.take(i as int)), gen_types(tv[i as int]));
        }
        i = i + 1;
    }
    assert(tv.take(xs.len() as int) =~= tv);
}

fn collect_generic_types_params(ps: &Vec<FunctionParam>, acc: &mut Vec<Type>)
    ensures
        types_view(final(acc)@) == dedup_extend(
            types_view(old(acc)@),
            gen_types_params(params_view(ps@)),
        ),
    decreases ps,
{
    let ghost pv = params_view(ps@);
    let ghost start = types_view(acc@);
    proof {
        lemma_params_view(ps@);
    }
    let mut i: usize = 0;
    while i < ps.len()
        invariant
            i <= ps.len(),
            pv == params_view(ps@),
            pv.len() == ps.len(),
            forall|j: int| 0 <= j < ps.len() ==> #[trigger] pv[j] == ps@[j]@,
            types_view(acc@) == dedup_extend(start, gen_types_params(pv.take(i as int))),
        decreases ps.len() - i,
    {
        proof {
            assert(decreases_to!(ps => ps[i as int]));
        }
        collect_generic_types(&ps[i].ty, acc);
        proof {
            assert(pv.take(i + 1).drop_last() =~= pv.take(i as int));
            assert(pv.take(i + 1).last() == pv[i as int]);
            lemma_dedup_extend_concat(start, gen_types_params(pv.take(i as int)), gen_types(pv[i as int].ty));
        }
        i = i + 1;
    }
    assert(pv.take(ps.len() as int) =~= pv);
}

/// The distinct generic types used by a function with these parameters and return types.
pub fn fn_generic_types(params: &Vec<FunctionParam>, rets: &Vec<Type>) -> (r: Vec<Type>)
    ensures
        types_view(r@) == dedup(gen_types_params(params_view(params@)) + gen_types_seq(types_view(rets@))),
        types_view(r@).no_duplicates(),
{
    let mut acc: Vec<Type> = Vec::new();
    assert(types_view(acc@) =~= Seq::<TypeV>::empty());
    collect_generic_types_params(params, &mut acc);
    collect_generic_types_seq(rets, &mut acc);
    proof {
        lemma_dedup_extend_concat(
            Seq::<TypeV>::empty(),
            gen_types_params(params_view(params@)),
            gen_types_seq(types_view(rets@)),
        );
        lemma_dedup_extend_unique(
            Seq::<TypeV>::empty(),
            gen_types_params(params_view(params@)) + gen_types_seq(types_view(rets@)),
        );
    }
    acc
}

/// Gets the generic types of any given type: each distinct type once,
/// in the order in which they first occur.
pub fn get_generic_types(to_check: &Type) -> (r: Vec<Type>)
    ensures
        types_view(r@) == dedup(gen_types(to_check@)),
        types_view(r@).no_duplicates(),
{
    let mut acc: Vec<Type> = Vec::new();
    assert(types_view(acc@) =~= Seq::<TypeV>::empty());
    collect_generic_types(to_check, &mut acc);
    proof {
        lemma_dedup_extend_unique(Seq::<TypeV>::empty(), gen_types(to_check@));
    }
    acc
}

} // verus!

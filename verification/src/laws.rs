//! Properties that hold across the functions of the library, stated over the views and spec
//! functions that their contracts use.
use vstd::prelude::*;
use vstd::utf8::{decode_utf8, encode_utf8, encode_utf8_decode_utf8, encode_utf8_valid_utf8, valid_utf8};

use crate::exported_function::{doc_comment, ExportedFunction};
use crate::text::{lines, prefix_each};
use crate::name_container::DocMap;
use crate::teal_parts::{
    generic_header, generic_parts, teal_parts, type_part, AsPartOf,
    dedup, fn_generic_names, gen_names, gen_types, gen_types_params, gen_types_seq,
    lemma_dedup_extend_unique, names_of, single_name,
};
use crate::type_generator::{field_names, first_by_name, FieldV, RecordGenerator, TypeGenerator};
use crate::type_walker::inlined;
use crate::types::{params_view, types_view, KindOfType, ParamV, Type, TypeV};
use crate::to_typename::{TealMultiValue, ToTypename};
use crate::type_generator::field_line;
use crate::name_part::{parts_text, sym};
use crate::text::utf8_lossy;
use crate::name_part::{NamePartV, TealTypeV};
use crate::typed_function::generic_teal_types;
use crate::user_data::{help_answer, pending_text, UserDataDocs};

verus! {

/// Every kind of type is exactly one of generic, builtin and external.
pub proof fn law_kind_exactly_one(k: KindOfType)
    ensures
        k == KindOfType::Generic || k == KindOfType::Builtin || k == KindOfType::External,
        k == KindOfType::Generic ==> k != KindOfType::Builtin && k != KindOfType::External,
        k == KindOfType::Builtin ==> k != KindOfType::External,
{
}

/// A single type made without generics is the one made with an empty list of generics.
pub proof fn law_new_single_is_without_generics(name: Seq<char>, kind: KindOfType)
    ensures
        (TypeV::Single { name, kind, generics: seq![] }) == (TypeV::Single {
            name,
            kind,
            generics: types_view(Seq::<Type>::empty()),
        }),
{
    assert(types_view(Seq::<Type>::empty()) =~= Seq::<TypeV>::empty());
}

/// The generics of an exported function are the generics of its type: the same names, and
/// the same generic types, each once and in the same order.
pub proof fn law_function_generics_are_those_of_its_type(f: ExportedFunction)
    ensures
        fn_generic_names(params_view(f.params@), types_view(f.returns@)) == dedup(
            gen_names(f.fn_type()),
        ),
        dedup(gen_types_params(params_view(f.params@)) + gen_types_seq(types_view(f.returns@)))
            == dedup(gen_types(f.fn_type())),
{
}

/// A name is among the generic names of a type exactly when it is the name of one of its
/// generic types.
pub proof fn law_generic_names_are_names_of_generic_types(t: TypeV, n: Seq<char>)
    ensures
        dedup(gen_names(t)).contains(n) <==> names_of(dedup(gen_types(t))).contains(n),
{
    let g = gen_types(t);
    lemma_dedup_extend_unique(Seq::<Seq<char>>::empty(), names_of(g));
    lemma_dedup_extend_unique(Seq::<TypeV>::empty(), g);
    let d = dedup(g);
    if names_of(g).contains(n) {
        let i = choose|i: int| 0 <= i < names_of(g).len() && names_of(g)[i] == n;
        assert(g.contains(g[i]));
        assert(d.contains(g[i]));
        let j = choose|j: int| 0 <= j < d.len() && d[j] == g[i];
        assert(names_of(d)[j] == n);
    }
    if names_of(d).contains(n) {
        let j = choose|j: int| 0 <= j < names_of(d).len() && names_of(d)[j] == n;
        assert(d.contains(d[j]));
        assert(g.contains(d[j]));
        let i = choose|i: int| 0 <= i < g.len() && g[i] == d[j];
        assert(names_of(g)[i] == n);
    }
    assert(dedup(gen_names(t)) == crate::teal_parts::dedup_extend(Seq::<Seq<char>>::empty(), names_of(g)));
}

/// The fields that a record declares have distinct names, and every name of a field or
/// static field is declared.
pub proof fn law_fields_declared_once(s: Seq<FieldV>)
    ensures
        field_names(first_by_name(s)).no_duplicates(),
        forall|n: Seq<u8>|
            #[trigger] field_names(first_by_name(s)).contains(n) <==> field_names(s).contains(n),
    decreases s.len(),
{
    if s.len() == 0 {
        assert(field_names(first_by_name(s)) =~= Seq::<Seq<u8>>::empty());
        assert(field_names(s) =~= Seq::<Seq<u8>>::empty());
    } else {
        let rest = s.drop_last();
        let f = s.last();
        law_fields_declared_once(rest);
        let p = first_by_name(rest);
        assert(field_names(s) =~= field_names(rest).push(f.name));
        if field_names(p).contains(f.name) {
            assert forall|n: Seq<u8>|
                #[trigger] field_names(first_by_name(s)).contains(n) <==> field_names(s).contains(n) by {
                if field_names(s).contains(n) && !field_names(rest).contains(n) {
                    let k = choose|k: int| 0 <= k < field_names(s).len() && field_names(s)[k] == n;
                    if k < rest.len() {
                        assert(field_names(rest)[k] == n);
                    }
                }
                if field_names(rest).contains(n) {
                    let k = choose|k: int| 0 <= k < field_names(rest).len() && field_names(rest)[k] == n;
                    assert(field_names(s)[k] == n);
                }
            }
        } else {
            assert(first_by_name(s) == p.push(f));
            let a = field_names(p).push(f.name);
            assert(field_names(p.push(f)) =~= a);
            assert(field_names(s)[rest.len() as int] == f.name);
            assert forall|n: Seq<u8>| #[trigger] a.contains(n) implies field_names(s).contains(n) by {
                if n == f.name {
                    assert(field_names(s)[rest.len() as int] == n);
                } else {
                    let j = choose|j: int| 0 <= j < a.len() && a[j] == n;
                    assert(field_names(p)[j] == n);
                    assert(field_names(p).contains(n));
                    assert(field_names(rest).contains(n));
                    let k = choose|k: int| 0 <= k < field_names(rest).len() && field_names(rest)[k] == n;
                    assert(field_names(s)[k] == n);
                }
            }
            assert forall|n: Seq<u8>| #[trigger] field_names(s).contains(n) implies a.contains(n) by {
                let k = choose|k: int| 0 <= k < field_names(s).len() && field_names(s)[k] == n;
                if k == rest.len() {
                    assert(a[field_names(p).len() as int] == n);
                } else {
                    assert(field_names(rest)[k] == n);
                    assert(field_names(rest).contains(n));
                    assert(field_names(p).contains(n));
                    let j = choose|j: int| 0 <= j < field_names(p).len() && field_names(p)[j] == n;
                    assert(a[j] == n);
                }
            }
            assert(field_names(first_by_name(s)) == a);
        }
    }
}

/// Documentation given in two calls before something is added is kept under its name as two
/// paragraphs, separated by an empty line.
pub proof fn law_document_paragraphs(
    g0: RecordGenerator,
    g1: RecordGenerator,
    g2: RecordGenerator,
    a: Seq<char>,
    b: Seq<char>,
    key: Seq<u8>,
)
    requires
        g0.next_docs is None,
        g1.next_docs matches Some(d) && d@ == g0.next_docs_after(a),
        g2.next_docs matches Some(d) && d@ == g1.next_docs_after(b),
        !g2.documentation.map().contains_key(key),
    ensures
        g2.docs_after_copy(key).contains_key(key),
        g2.docs_after_copy(key)[key] == a + "\n\n"@ + b,
{
}

/// Documentation added for a name that has some already is appended to it as a new paragraph.
pub proof fn law_documentation_accumulates(g: RecordGenerator, key: Seq<u8>, d: Seq<char>)
    requires
        g.next_docs matches Some(x) && x@ == d,
        g.documentation.map().contains_key(key),
    ensures
        g.docs_after_copy(key)[key] == g.documentation.map()[key] + "\n\n"@ + d,
        forall|k: Seq<u8>|
            k != key ==> #[trigger] g.docs_after_copy(key).contains_key(k)
                == g.documentation.map().contains_key(k),
{
}

/// Once a page is written under a name, `.help(name)` answers with it; the answers for the
/// other names stay as they were.
pub proof fn law_help_reads_what_was_written(
    before: DocMap,
    after: DocMap,
    key: Seq<u8>,
    page: Seq<char>,
    other: Seq<u8>,
)
    requires
        after.map() == before.map().insert(key, page),
        other != key,
    ensures
        help_answer(after.map(), key) == encode_utf8(page),
        help_answer(after.map(), other) == help_answer(before.map(), other),
{
}

/// A type added inline is a record that is inlined, or an enum; adding it inline twice
/// changes nothing more.
pub proof fn law_inlined(g: TypeGenerator)
    ensures
        inlined(g) is Record <==> g is Record,
        inlined(g) is Record ==> inlined(g)->Record_0.should_be_inlined,
        inlined(inlined(g)) == inlined(g),
{
}

/// A name made from a text gives that text back.
pub proof fn law_name_round_trip(s: Seq<char>, bytes: Seq<u8>, back: Seq<char>)
    requires
        bytes == encode_utf8(s),
        valid_utf8(bytes) ==> back == decode_utf8(bytes),
    ensures
        back == s,
{
    encode_utf8_valid_utf8(s);
    encode_utf8_decode_utf8(s);
}

/// A function written for a global value lists each of its generic types once, and exactly the
/// generic types that its parameters and return values name.
pub proof fn law_global_function_generics_once(params: Seq<NamePartV>, rets: Seq<NamePartV>)
    ensures
        dedup(generic_teal_types(params + rets)).no_duplicates(),
        forall|t: TealTypeV|
            #[trigger] dedup(generic_teal_types(params + rets)).contains(t)
                <==> generic_teal_types(params + rets).contains(t),
{
    lemma_dedup_extend_unique(Seq::<TealTypeV>::empty(), generic_teal_types(params + rets));
}

/// The documentation registered under the name of a function is written above its declaration,
/// each line as a comment.
pub proof fn law_documentation_above_declaration(
    f: ExportedFunction,
    docs: Map<Seq<u8>, Seq<char>>,
)
    requires
        docs.contains_key(f.name@),
    ensures
        f.declaration(docs) == prefix_each(lines(docs[f.name@]), "--"@) + f.declaration(
            Map::empty(),
        ),
{
    assert(!Map::<Seq<u8>, Seq<char>>::empty().contains_key(f.name@));
    assert(doc_comment(Map::<Seq<u8>, Seq<char>>::empty(), f.name@) =~= Seq::<char>::empty());
}

/// Documentation given in two calls before a method or field of a userdata is registered ends
/// up on its help page as two paragraphs, separated by an empty line.
pub proof fn law_help_documentation_paragraphs(
    d0: UserDataDocs,
    d1: UserDataDocs,
    d2: UserDataDocs,
    a: Seq<char>,
    b: Seq<char>,
)
    requires
        d0.next_docs is None,
        d1.next_docs is Some,
        d1.next_docs->0@ == match d0.next_docs {
            Some(x) => x@ + "\n\n"@ + a,
            None => a,
        },
        d2.next_docs is Some,
        d2.next_docs->0@ == match d1.next_docs {
            Some(x) => x@ + "\n\n"@ + b,
            None => b,
        },
    ensures
        pending_text(d2.next_docs) == a + "\n\n"@ + b,
{
}

// ---------------------------------------------------------------------------------------------
// The generic header of a function type
// ---------------------------------------------------------------------------------------------
/// The generic parts of `names` are the names in order, as generic types, with `,` between
/// two neighbours.
proof fn lemma_generic_parts_shape(names: Seq<Seq<char>>)
    requires
        names.len() > 0,
    ensures
        generic_parts(names).len() == 2 * names.len() - 1,
        forall|i: int|
            0 <= i < names.len() ==> #[trigger] generic_parts(names)[2 * i] == type_part(
                names[i],
                KindOfType::Generic,
            ),
        forall|i: int| 0 <= i < names.len() - 1 ==> #[trigger] generic_parts(names)[2 * i + 1] == sym(","@),
    decreases names.len(),
{
    if names.len() > 1 {
        let prev = names.drop_last();
        lemma_generic_parts_shape(prev);
        let g = generic_parts(names);
        let gp = generic_parts(prev);
        assert(g == gp + seq![sym(","@)] + seq![type_part(names.last(), KindOfType::Generic)]);
        assert forall|i: int| 0 <= i < names.len() implies #[trigger] g[2 * i] == type_part(
            names[i],
            KindOfType::Generic,
        ) by {
            if i < names.len() - 1 {
                assert(gp[2 * i] == type_part(prev[i], KindOfType::Generic));
            }
        }
        assert forall|i: int| 0 <= i < names.len() - 1 implies #[trigger] g[2 * i + 1] == sym(","@) by {
            if i < names.len() - 2 {
                assert(gp[2 * i + 1] == sym(","@));
            }
        }
    }
}

/// A function type written for a value (not as a callback) declares, between `function<` and
/// `>(`, every distinct generic name that its parameters and return values use, once each and
/// in the order of first use, separated by `,`.
pub proof fn law_function_header_declares_every_generic(
    params: Seq<ParamV>,
    rets: Seq<TypeV>,
    ctx: AsPartOf,
)
    requires
        fn_generic_names(params, rets).len() > 0,
    ensures
        teal_parts(TypeV::Function { params, results: rets }, false, ctx)[0] == sym("function"@),
        teal_parts(TypeV::Function { params, results: rets }, false, ctx)[1] == sym("<"@),
        forall|i: int|
            0 <= i < fn_generic_names(params, rets).len() ==> #[trigger] teal_parts(
                TypeV::Function { params, results: rets },
                false,
                ctx,
            )[2 + 2 * i] == type_part(fn_generic_names(params, rets)[i], KindOfType::Generic),
        forall|i: int|
            0 <= i < fn_generic_names(params, rets).len() - 1 ==> #[trigger] teal_parts(
                TypeV::Function { params, results: rets },
                false,
                ctx,
            )[3 + 2 * i] == sym(","@),
        teal_parts(TypeV::Function { params, results: rets }, false, ctx)[2 * fn_generic_names(params, rets).len() as int + 1] == sym(">"@),
        teal_parts(TypeV::Function { params, results: rets }, false, ctx)[2 * fn_generic_names(params, rets).len() as int + 2] == sym("("@),
{
    let names = fn_generic_names(params, rets);
    lemma_generic_parts_shape(names);
    let g = generic_parts(names);
    let r = teal_parts(TypeV::Function { params, results: rets }, false, ctx);
    let head = seq![sym("function"@)] + (seq![sym("<"@)] + g + seq![sym(">"@)]) + seq![sym("("@)];
    assert(generic_header(names, false) == seq![sym("<"@)] + g + seq![sym(">"@)]);
    assert(r.subrange(0, head.len() as int) =~= head);
    assert forall|i: int| 0 <= i < names.len() implies #[trigger] r[2 + 2 * i] == type_part(
        names[i],
        KindOfType::Generic,
    ) by {
        assert(r[2 + 2 * i] == r.subrange(0, head.len() as int)[2 + 2 * i]);
        assert(head[2 + 2 * i] == g[2 * i]);
    }
    assert forall|i: int| 0 <= i < names.len() - 1 implies #[trigger] r[3 + 2 * i] == sym(","@) by {
        assert(r[3 + 2 * i] == r.subrange(0, head.len() as int)[3 + 2 * i]);
        assert(head[3 + 2 * i] == g[2 * i + 1]);
    }
    assert(r[0] == head[0]);
    assert(r[1] == head[1]);
    assert(r[2 * names.len() as int + 1] == head[2 * names.len() as int + 1]);
    assert(r[2 * names.len() as int + 2] == head[2 * names.len() as int + 2]);
}

/// A function type with no generics, or written as a callback, has no header: its parameters
/// open right after `function`.
pub proof fn law_function_without_header(
    params: Seq<ParamV>,
    rets: Seq<TypeV>,
    is_callback: bool,
    ctx: AsPartOf,
)
    requires
        is_callback || fn_generic_names(params, rets).len() == 0,
    ensures
        teal_parts(TypeV::Function { params, results: rets }, is_callback, ctx)[0] == sym("function"@),
        teal_parts(TypeV::Function { params, results: rets }, is_callback, ctx)[1] == sym("("@),
{
    assert(generic_header(fn_generic_names(params, rets), is_callback) =~= Seq::<NamePartV>::empty());
}

// ---------------------------------------------------------------------------------------------
// Fields
// ---------------------------------------------------------------------------------------------
/// The documentation registered under the name of a field is written above its declaration,
/// each line as a comment.
pub proof fn law_documentation_above_field(docs: Map<Seq<u8>, Seq<char>>, f: FieldV)
    requires
        docs.contains_key(f.name),
    ensures
        field_line(docs, f) == prefix_each(lines(docs[f.name]), "--"@) + field_line(Map::empty(), f),
{
    assert(!Map::<Seq<u8>, Seq<char>>::empty().contains_key(f.name));
    assert(doc_comment(Map::<Seq<u8>, Seq<char>>::empty(), f.name) =~= Seq::<char>::empty());
    assert(field_line(Map::empty(), f) =~= utf8_lossy(f.name) + " : "@ + parts_text(f.teal_type));
}

// ---------------------------------------------------------------------------------------------
// The types of collections
// ---------------------------------------------------------------------------------------------
/// A map, hashed or ordered, is a mapping from the type of its keys to the type of its values;
/// a vector or an array is an array of its elements; an option has the type of what it holds.
pub proof fn law_collection_types<K: ToTypename, V: ToTypename, const N: usize>()
    ensures
        <std::collections::HashMap<K, V> as ToTypename>::type_spec() == (TypeV::Mapping {
            key: Box::new(K::type_spec()),
            value: Box::new(V::type_spec()),
        }),
        <std::collections::BTreeMap<K, V> as ToTypename>::type_spec() == (TypeV::Mapping {
            key: Box::new(K::type_spec()),
            value: Box::new(V::type_spec()),
        }),
        <std::collections::BTreeMap<K, V> as ToTypename>::type_spec() == <std::collections::HashMap<
            K,
            V,
        > as ToTypename>::type_spec(),
        <Vec<V> as ToTypename>::type_spec() == TypeV::Array(Box::new(V::type_spec())),
        <[V; N] as ToTypename>::type_spec() == <Vec<V> as ToTypename>::type_spec(),
        <Option<V> as ToTypename>::type_spec() == V::type_spec(),
{
}

// ---------------------------------------------------------------------------------------------
// Collecting generics
// ---------------------------------------------------------------------------------------------
/// The generics of a sequence of types hold those of each of its types.
proof fn lemma_gen_types_seq_holds(xs: Seq<TypeV>, i: int, x: TypeV)
    requires
        0 <= i < xs.len(),
        gen_types(xs[i]).contains(x),
    ensures
        gen_types_seq(xs).contains(x),
    decreases xs.len(),
{
    let rest = xs.drop_last();
    let g = gen_types_seq(xs);
    assert(g == gen_types_seq(rest) + gen_types(xs.last()));
    if i == xs.len() - 1 {
        let k = choose|k: int| 0 <= k < gen_types(xs.last()).len() && gen_types(xs.last())[k] == x;
        assert(g[gen_types_seq(rest).len() + k] == x);
    } else {
        assert(rest[i] == xs[i]);
        lemma_gen_types_seq_holds(rest, i, x);
        let k = choose|k: int| 0 <= k < gen_types_seq(rest).len() && gen_types_seq(rest)[k] == x;
        assert(g[k] == x);
    }
}

/// The generics of a sequence of parameters hold those of each parameter's type.
proof fn lemma_gen_types_params_holds(ps: Seq<ParamV>, i: int, x: TypeV)
    requires
        0 <= i < ps.len(),
        gen_types(ps[i].ty).contains(x),
    ensures
        gen_types_params(ps).contains(x),
    decreases ps.len(),
{
    let rest = ps.drop_last();
    let g = gen_types_params(ps);
    assert(g == gen_types_params(rest) + gen_types(ps.last().ty));
    if i == ps.len() - 1 {
        let k = choose|k: int| 0 <= k < gen_types(ps.last().ty).len() && gen_types(ps.last().ty)[k] == x;
        assert(g[gen_types_params(rest).len() + k] == x);
    } else {
        assert(rest[i] == ps[i]);
        lemma_gen_types_params_holds(rest, i, x);
        let k = choose|k: int| 0 <= k < gen_types_params(rest).len() && gen_types_params(rest)[k] == x;
        assert(g[k] == x);
    }
}

proof fn lemma_concat_holds(a: Seq<TypeV>, b: Seq<TypeV>, x: TypeV)
    requires
        a.contains(x) || b.contains(x),
    ensures
        (a + b).contains(x),
{
    if a.contains(x) {
        let k = choose|k: int| 0 <= k < a.len() && a[k] == x;
        assert((a + b)[k] == x);
    } else {
        let k = choose|k: int| 0 <= k < b.len() && b[k] == x;
        assert((a + b)[a.len() + k] == x);
    }
}

/// Every generic that occurs anywhere in a type is collected: a generic type is its own
/// generic, and the generics of a map, an array, a variadic, a union, a tuple or a function
/// hold those of its keys and values, elements, members, parameters and return values. So a
/// generic reachable through any of these is among the generics of the type, and its name is
/// among the names that `get_generics` gives.
pub proof fn law_every_generic_is_collected(t: TypeV, x: TypeV)
    ensures
        (t matches TypeV::Single { kind, .. } && kind == KindOfType::Generic) ==> gen_types(t).contains(t),
        (t matches TypeV::Mapping { key, value } && (gen_types(*key).contains(x) || gen_types(
            *value,
        ).contains(x))) ==> gen_types(t).contains(x),
        (t matches TypeV::Array(e) && gen_types(*e).contains(x)) ==> gen_types(t).contains(x),
        (t matches TypeV::Variadic(e) && gen_types(*e).contains(x)) ==> gen_types(t).contains(x),
        t matches TypeV::Or(xs) ==> forall|i: int|
            0 <= i < xs.len() && #[trigger] gen_types(xs[i]).contains(x) ==> gen_types(t).contains(x),
        t matches TypeV::Tuple(xs) ==> forall|i: int|
            0 <= i < xs.len() && #[trigger] gen_types(xs[i]).contains(x) ==> gen_types(t).contains(x),
        t matches TypeV::Function { params, .. } ==> forall|i: int|
            0 <= i < params.len() && #[trigger] gen_types(params[i].ty).contains(x) ==> gen_types(
                t,
            ).contains(x),
        t matches TypeV::Function { results, .. } ==> forall|i: int|
            0 <= i < results.len() && #[trigger] gen_types(results[i]).contains(x) ==> gen_types(
                t,
            ).contains(x),
        gen_types(t).contains(x) ==> dedup(gen_names(t)).contains(single_name(x)),
{
    match t {
        TypeV::Single { kind, .. } => {
            if kind == KindOfType::Generic {
                assert(gen_types(t)[0] == t);
            }
        },
        TypeV::Mapping { key, value } => {
            if gen_types(*key).contains(x) || gen_types(*value).contains(x) {
                lemma_concat_holds(gen_types(*key), gen_types(*value), x);
            }
        },
        TypeV::Or(xs) => {
            assert forall|i: int|
                0 <= i < xs.len() && #[trigger] gen_types(xs[i]).contains(x) implies gen_types(
                t,
            ).contains(x) by {
                lemma_gen_types_seq_holds(xs, i, x);
            }
        },
        TypeV::Tuple(xs) => {
            assert forall|i: int|
                0 <= i < xs.len() && #[trigger] gen_types(xs[i]).contains(x) implies gen_types(
                t,
            ).contains(x) by {
                lemma_gen_types_seq_holds(xs, i, x);
            }
        },
        TypeV::Function { params, results } => {
            assert forall|i: int|
                0 <= i < params.len() && #[trigger] gen_types(params[i].ty).contains(x) implies gen_types(
                t,
            ).contains(x) by {
                lemma_gen_types_params_holds(params, i, x);
                lemma_concat_holds(gen_types_params(params), gen_types_seq(results), x);
            }
            assert forall|i: int|
                0 <= i < results.len() && #[trigger] gen_types(results[i]).contains(x) implies gen_types(
                t,
            ).contains(x) by {
                lemma_gen_types_seq_holds(results, i, x);
                lemma_concat_holds(gen_types_params(params), gen_types_seq(results), x);
            }
        },
        _ => {},
    }
    if gen_types(t).contains(x) {
        let k = choose|k: int| 0 <= k < gen_types(t).len() && gen_types(t)[k] == x;
        assert(names_of(gen_types(t))[k] == single_name(x));
        lemma_dedup_extend_unique(Seq::<Seq<char>>::empty(), names_of(gen_types(t)));
        assert(gen_names(t).contains(single_name(x)));
    }
}

// ---------------------------------------------------------------------------------------------
// Parameters of tuples
// ---------------------------------------------------------------------------------------------
/// The parameters of a tuple are those of its elements, in the order of the tuple: a tuple has
/// the parameters of the tuple without its last element, followed by those of the last element;
/// the empty tuple has none, and a single type has its own.
pub proof fn law_tuple_parameters_in_order<A: ToTypename, B: ToTypename, C: ToTypename, D: ToTypename, E: ToTypename, F: ToTypename, G: ToTypename, H: ToTypename, I: ToTypename, J: ToTypename, K: ToTypename, L: ToTypename, M: ToTypename, N: ToTypename, O: ToTypename, P: ToTypename>()
    ensures
        <(A,) as TealMultiValue>::params_spec() == A::param_spec(),
        <(A, B) as TealMultiValue>::params_spec() == <(A,) as TealMultiValue>::params_spec()
            + B::param_spec(),
        <(A, B, C) as TealMultiValue>::params_spec() == <(A, B) as TealMultiValue>::params_spec()
            + C::param_spec(),
        <(A, B, C, D) as TealMultiValue>::params_spec() == <(A, B, C) as TealMultiValue>::params_spec()
            + D::param_spec(),
        <(A, B, C, D, E) as TealMultiValue>::params_spec() == <(A, B, C, D) as TealMultiValue>::params_spec()
            + E::param_spec(),
        <(A, B, C, D, E, F) as TealMultiValue>::params_spec() == <(A, B, C, D, E) as TealMultiValue>::params_spec()
            + F::param_spec(),
        <(A, B, C, D, E, F, G) as TealMultiValue>::params_spec() == <(A, B, C, D, E, F) as TealMultiValue>::params_spec()
            + G::param_spec(),
        <(A, B, C, D, E, F, G, H) as TealMultiValue>::params_spec() == <(A, B, C, D, E, F, G) as TealMultiValue>::params_spec()
            + H::param_spec(),
        <(A, B, C, D, E, F, G, H, I) as TealMultiValue>::params_spec() == <(A, B, C, D, E, F, G, H) as TealMultiValue>::params_spec()
            + I::param_spec(),
        <(A, B, C, D, E, F, G, H, I, J) as TealMultiValue>::params_spec() == <(A, B, C, D, E, F, G, H, I) as TealMultiValue>::params_spec()
            + J::param_spec(),
        <(A, B, C, D, E, F, G, H, I, J, K) as TealMultiValue>::params_spec() == <(A, B, C, D, E, F, G, H, I, J) as TealMultiValue>::params_spec()
            + K::param_spec(),
        <(A, B, C, D, E, F, G, H, I, J, K, L) as TealMultiValue>::params_spec() == <(A, B, C, D, E, F, G, H, I, J, K) as TealMultiValue>::params_spec()
            + L::param_spec(),
        <(A, B, C, D, E, F, G, H, I, J, K, L, M) as TealMultiValue>::params_spec() == <(A, B, C, D, E, F, G, H, I, J, K, L) as TealMultiValue>::params_spec()
            + M::param_spec(),
        <(A, B, C, D, E, F, G, H, I, J, K, L, M, N) as TealMultiValue>::params_spec() == <(A, B, C, D, E, F, G, H, I, J, K, L, M) as TealMultiValue>::params_spec()
            + N::param_spec(),
        <(A, B, C, D, E, F, G, H, I, J, K, L, M, N, O) as TealMultiValue>::params_spec() == <(A, B, C, D, E, F, G, H, I, J, K, L, M, N) as TealMultiValue>::params_spec()
            + O::param_spec(),
        <(A, B, C, D, E, F, G, H, I, J, K, L, M, N, O, P) as TealMultiValue>::params_spec() == <(A, B, C, D, E, F, G, H, I, J, K, L, M, N, O) as TealMultiValue>::params_spec()
            + P::param_spec(),
        <() as TealMultiValue>::params_spec() == Seq::<ParamV>::empty(),
        <A as TealMultiValue>::params_spec() == A::param_spec(),
{
    assert(Seq::<ParamV>::empty() + A::param_spec() =~= A::param_spec());
}

} // verus!

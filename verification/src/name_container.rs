//! Names as raw bytes, and the documentation registered under them.
use vstd::prelude::*;

use crate::text::{from_utf8_lossy, string_from_chars, utf8_lossy};
use vstd::utf8::{decode_utf8, encode_utf8, valid_utf8};
use crate::to_typename::{builtin, one_param, ToTypename};
use crate::types::{FunctionParam, KindOfType, ParamV, Type, TypeV};

verus! {

/// Simple wrapper around `Vec<u8>`.
#[derive(Debug)]
pub struct NameContainer(pub Vec<u8>);

impl View for NameContainer {
    type V = Seq<u8>;

    open spec fn view(&self) -> Seq<u8> {
        self.0@
    }
}

/// A copy of the bytes.
pub fn copy_bytes(b: &[u8]) -> (r: Vec<u8>)
    ensures
        r@ == b@,
{
    let mut r: Vec<u8> = Vec::new();
    let mut i: usize = 0;
    while i < b.len()
        invariant
            i <= b.len(),
            r@ == b@.take(i as int),
        decreases b.len() - i,
    {
        r.push(b[i]);
        assert(b@.take(i + 1) =~= b@.take(i as int).push(b@[i as int]));
        i = i + 1;
    }
    assert(b@.take(b.len() as int) =~= b@);
    r
}

/// True exactly when both byte sequences are equal.
pub fn bytes_eq(a: &[u8], b: &[u8]) -> (r: bool)
    ensures
        r == (a@ == b@),
{
    if a.len() != b.len() {
        return false;
    }
    let mut i: usize = 0;
    while i < a.len()
        invariant
            i <= a.len(),
            a.len() == b.len(),
            forall|j: int| 0 <= j < i ==> a@[j] == b@[j],
        decreases a.len() - i,
    {
        if a[i] != b[i] {
            return false;
        }
        i = i + 1;
    }
    assert(a@ =~= b@);
    true
}

impl NameContainer {
    /// The UTF-8 bytes of the given text.
    pub fn from_str(s: &str) -> (r: NameContainer)
        ensures
            r@ == encode_utf8(s@),
    {
        NameContainer(copy_bytes(s.as_bytes()))
    }

    /// The bytes of the name.
    pub fn as_bytes(&self) -> (r: &[u8])
        ensures
            r@ == self@,
    {
        self.0.as_slice()
    }

    /// The name as text; invalid UTF-8 is replaced as `String::from_utf8_lossy` does.
    pub fn to_string(&self) -> (r: String)
        ensures
            r@ == utf8_lossy(self@),
            valid_utf8(self@) ==> r@ == decode_utf8(self@),
    {
        string_from_chars(&from_utf8_lossy(self.0.as_slice()))
    }

    /// True exactly when the name holds the UTF-8 bytes of `other`.
    pub fn eq_str(&self, other: &str) -> (r: bool)
        ensures
            r == (self@ == encode_utf8(other@)),
    {
        bytes_eq(self.0.as_slice(), other.as_bytes())
    }
}

impl Clone for NameContainer {
    fn clone(&self) -> (r: Self)
        ensures
            r@ == self@,
    {
        NameContainer(copy_bytes(self.0.as_slice()))
    }
}

impl PartialEq for NameContainer {
    fn eq(&self, other: &Self) -> (r: bool) {
        bytes_eq(self.0.as_slice(), other.0.as_slice())
    }
}

impl vstd::std_specs::cmp::PartialEqSpecImpl for NameContainer {
    open spec fn obeys_eq_spec() -> bool {
        true
    }

    open spec fn eq_spec(&self, other: &Self) -> bool {
        self@ == other@
    }
}

impl Eq for NameContainer {
}

impl From<Vec<u8>> for NameContainer {
    fn from(s: Vec<u8>) -> (r: Self) {
        NameContainer(s)
    }
}

impl vstd::std_specs::convert::FromSpecImpl<Vec<u8>> for NameContainer {
    open spec fn obeys_from_spec() -> bool {
        true
    }

    open spec fn from_spec(v: Vec<u8>) -> NameContainer {
        NameContainer(v)
    }
}

impl ToTypename for NameContainer {
    open spec fn type_spec() -> TypeV {
        builtin("string"@)
    }

    fn to_typename() -> (r: Type) {
        Type::new_single("string", KindOfType::Builtin)
    }

    fn to_function_param() -> (r: Vec<FunctionParam>) {
        one_param(Self::to_typename())
    }
}

/// Documentation registered under names: each name at most once, in the order
/// in which the names were first registered.
pub struct DocMap {
    entries: Vec<(Vec<u8>, String)>,
}

/// The keys of a sequence of entries.
pub open spec fn entry_keys(s: Seq<(Seq<u8>, Seq<char>)>) -> Seq<Seq<u8>> {
    s.map_values(|e: (Seq<u8>, Seq<char>)| e.0)
}

/// The views of stored entries.
pub open spec fn entries_view(v: Seq<(Vec<u8>, String)>) -> Seq<(Seq<u8>, Seq<char>)> {
    v.map_values(|e: (Vec<u8>, String)| (e.0@, e.1@))
}

/// The entries as a map from name to documentation.
pub open spec fn entries_map(s: Seq<(Seq<u8>, Seq<char>)>) -> Map<Seq<u8>, Seq<char>>
    decreases s.len(),
{
    if s.len() == 0 {
        Map::empty()
    } else {
        entries_map(s.drop_last()).insert(s.last().0, s.last().1)
    }
}

impl DocMap {
    /// The entries, in the order in which the names were first registered.
    pub closed spec fn entries(&self) -> Seq<(Seq<u8>, Seq<char>)> {
        entries_view(self.entries@)
    }

    /// The documentation of each name.
    pub open spec fn map(&self) -> Map<Seq<u8>, Seq<char>> {
        entries_map(self.entries())
    }

    /// Each name occurs once.
    #[verifier::type_invariant]
    closed spec fn wf(&self) -> bool {
        entry_keys(self.entries()).no_duplicates()
    }

    /// An empty map.
    pub fn new() -> (r: DocMap)
        ensures
            r.entries() == Seq::<(Seq<u8>, Seq<char>)>::empty(),
    {
        let entries: Vec<(Vec<u8>, String)> = Vec::new();
        assert(entries_view(entries@) =~= Seq::<(Seq<u8>, Seq<char>)>::empty());
        DocMap { entries }
    }

    /// The number of names.
    pub fn len(&self) -> (r: usize)
        ensures
            r == self.entries().len(),
    {
        self.entries.len()
    }

    /// The name and the documentation of entry `i`.
    pub fn entry(&self, i: usize) -> (r: (&[u8], &String))
        requires
            i < self.entries().len(),
        ensures
            r.0@ == self.entries()[i as int].0,
            r.1@ == self.entries()[i as int].1,
    {
        (self.entries[i].0.as_slice(), &self.entries[i].1)
    }

    /// The position of `key`, if it is there.
    pub fn position(&self, key: &[u8]) -> (r: Option<usize>)
        ensures
            r matches Some(i) ==> i < self.entries().len() && self.entries()[i as int].0 == key@,
            r is None ==> !entry_keys(self.entries()).contains(key@),
    {
        let mut i: usize = 0;
        while i < self.entries.len()
            invariant
                i <= self.entries.len(),
                forall|j: int| 0 <= j < i ==> self.entries()[j].0 != key@,
            decreases self.entries.len() - i,
        {
            if bytes_eq(self.entries[i].0.as_slice(), key) {
                return Some(i);
            }
            i = i + 1;
        }
        assert(!entry_keys(self.entries()).contains(key@)) by {
            if entry_keys(self.entries()).contains(key@) {
                let k = choose|k: int|
                    0 <= k < entry_keys(self.entries()).len() && entry_keys(self.entries())[k]
                        == key@;
                assert(self.entries()[k].0 == key@);
            }
        }
        None
    }

    /// The documentation of `key`, if it is there.
    pub fn get(&self, key: &[u8]) -> (r: Option<&String>)
        ensures
            r matches Some(s) ==> self.map().contains_key(key@) && s@ == self.map()[key@],
            r is None ==> !self.map().contains_key(key@),
    {
        proof {
            use_type_invariant(self);
            lemma_entries_map(self.entries());
        }
        match self.position(key) {
            Some(i) => {
                proof {
                    lemma_entries_map_at(self.entries(), i as int);
                }
                Some(&self.entries[i].1)
            },
            None => None,
        }
    }

    /// Sets the documentation of `key`: in place where the name is there, else as a new last entry.
    pub fn insert(&mut self, key: Vec<u8>, value: String)
        ensures
            final(self).map() == old(self).map().insert(key@, value@),
            entry_keys(old(self).entries()).contains(key@) ==> entry_keys(final(self).entries())
                == entry_keys(old(self).entries()),
            !entry_keys(old(self).entries()).contains(key@) ==> entry_keys(final(self).entries())
                == entry_keys(old(self).entries()).push(key@),
    {
        proof {
            use_type_invariant(&*self);
        }
        let ghost kv = key@;
        let ghost vv = value@;
        let ghost before = self.entries();
        let pos = self.position(key.as_slice());
        let mut entries: Vec<(Vec<u8>, String)> = Vec::new();
        std::mem::swap(&mut entries, &mut self.entries);
        assert(entries_view(entries@) == before);
        match pos {
            Some(i) => {
                assert(entry_keys(before)[i as int] == kv);
                entries.set(i, (key, value));
                proof {
                    assert(entries_view(entries@) =~= before.update(i as int, (kv, vv)));
                    assert(entry_keys(entries_view(entries@)) =~= entry_keys(before));
                    assert(before[i as int].0 == kv);
                    lemma_entries_map_update(before, i as int, vv);
                }
            },
            None => {
                entries.push((key, value));
                proof {
                    assert(entries_view(entries@) =~= before.push((kv, vv)));
                    assert(entries_view(entries@).drop_last() =~= before);
                    assert(entry_keys(entries_view(entries@)) =~= entry_keys(before).push(kv));
                    lemma_push_unique(entry_keys(before), kv);
                }
            },
        }
        self.entries = entries;
    }

    /// Removes `key` and gives back its documentation, if it was there.
    /// The other entries keep their order.
    pub fn remove(&mut self, key: &[u8]) -> (r: Option<String>)
        ensures
            final(self).map() == old(self).map().remove(key@),
            r matches Some(s) ==> old(self).map().contains_key(key@) && s@ == old(self).map()[key@],
            r is None ==> !old(self).map().contains_key(key@),
            r is None ==> final(self).entries() == old(self).entries(),
            r is Some ==> exists|i: int|
                0 <= i < old(self).entries().len() && (#[trigger] old(self).entries()[i]).0 == key@
                    && final(self).entries() == old(self).entries().remove(i),
    {
        proof {
            use_type_invariant(&*self);
            lemma_entries_map(self.entries());
        }
        let ghost before = self.entries();
        match self.position(key) {
            Some(i) => {
                proof {
                    lemma_entries_map_at(before, i as int);
                    lemma_entries_map_remove(before, i as int);
                }
                let mut entries: Vec<(Vec<u8>, String)> = Vec::new();
                std::mem::swap(&mut entries, &mut self.entries);
                let e = entries.remove(i);
                assert(entries_view(entries@) =~= before.remove(i as int));
                self.entries = entries;
                assert(self.entries() == before.remove(i as int));
                Some(e.1)
            },
            None => {
                assert(self.map().remove(key@) =~= self.map());
                None
            },
        }
    }

    /// A copy with the same entries.
    pub fn copy(&self) -> (r: DocMap)
        ensures
            r.entries() == self.entries(),
    {
        let mut entries: Vec<(Vec<u8>, String)> = Vec::new();
        let mut i: usize = 0;
        while i < self.entries.len()
            invariant
                i <= self.entries.len(),
                entries@.len() == i,
                entries_view(entries@) == self.entries().take(i as int),
            decreases self.entries.len() - i,
        {
            let k = copy_bytes(self.entries[i].0.as_slice());
            let v = self.entries[i].1.clone();
            assert(k@ == self.entries()[i as int].0);
            assert(v@ == self.entries()[i as int].1);
            entries.push((k, v));
            assert(entries_view(entries@).len() == i + 1);
            assert(entries_view(entries@)[i as int] == self.entries()[i as int]);
            assert(entries_view(entries@) =~= self.entries().take(i + 1));
            i = i + 1;
        }
        assert(self.entries().take(self.entries.len() as int) =~= self.entries());
        proof {
            use_type_invariant(self);
        }
        DocMap { entries }
    }
}

proof fn lemma_push_unique(s: Seq<Seq<u8>>, k: Seq<u8>)
    requires
        s.no_duplicates(),
        !s.contains(k),
    ensures
        s.push(k).no_duplicates(),
{
    assert forall|i: int, j: int| 0 <= i < s.push(k).len() && 0 <= j < s.push(k).len() && i != j implies s.push(
        k,
    )[i] != s.push(k)[j] by {
        if i < s.len() && j < s.len() {
        } else if i < s.len() {
            assert(s.contains(s[i]));
        } else {
            assert(s.contains(s[j]));
        }
    }
}

/// A name is in the map exactly when it is one of the keys.
pub proof fn lemma_entries_map(s: Seq<(Seq<u8>, Seq<char>)>)
    ensures
        forall|k: Seq<u8>| #[trigger] entries_map(s).contains_key(k) <==> entry_keys(s).contains(k),
    decreases s.len(),
{
    if s.len() > 0 {
        lemma_entries_map(s.drop_last());
        assert forall|k: Seq<u8>| #[trigger] entries_map(s).contains_key(k) <==> entry_keys(
            s,
        ).contains(k) by {
            assert(entries_map(s) == entries_map(s.drop_last()).insert(s.last().0, s.last().1));
            assert(entries_map(s.drop_last()).contains_key(k) <==> entry_keys(s.drop_last()).contains(k));
            assert(entry_keys(s) =~= entry_keys(s.drop_last()).push(s.last().0));
            if entry_keys(s.drop_last()).contains(k) {
                let j = choose|j: int|
                    0 <= j < entry_keys(s.drop_last()).len() && entry_keys(s.drop_last())[j] == k;
                assert(entry_keys(s)[j] == k);
            }
            if entry_keys(s).contains(k) && k != s.last().0 {
                let j = choose|j: int| 0 <= j < entry_keys(s).len() && entry_keys(s)[j] == k;
                assert(entry_keys(s.drop_last())[j] == k);
            }
            assert(entry_keys(s)[s.len() - 1] == s.last().0);
        }
    }
}

/// With distinct keys, the map gives each key the value of its entry.
pub proof fn lemma_entries_map_at(s: Seq<(Seq<u8>, Seq<char>)>, i: int)
    requires
        entry_keys(s).no_duplicates(),
        0 <= i < s.len(),
    ensures
        entries_map(s).contains_key(s[i].0),
        entries_map(s)[s[i].0] == s[i].1,
    decreases s.len(),
{
    lemma_entries_map(s);
    assert(entry_keys(s)[i] == s[i].0);
    if i < s.len() - 1 {
        let t = s.drop_last();
        assert(entry_keys(t) =~= entry_keys(s).drop_last());
        assert(entry_keys(t).no_duplicates()) by {
            assert forall|a: int, b: int|
                0 <= a < entry_keys(t).len() && 0 <= b < entry_keys(t).len() && a != b implies entry_keys(
                t,
            )[a] != entry_keys(t)[b] by {
                assert(entry_keys(t)[a] == entry_keys(s)[a]);
                assert(entry_keys(t)[b] == entry_keys(s)[b]);
            }
        }
        lemma_entries_map_at(t, i);
        assert(t[i] == s[i]);
        assert(entry_keys(s)[s.len() - 1] == s.last().0);
        assert(s.last().0 != s[i].0);
    }
}

proof fn lemma_keys_drop_last(s: Seq<(Seq<u8>, Seq<char>)>)
    requires
        s.len() > 0,
        entry_keys(s).no_duplicates(),
    ensures
        entry_keys(s.drop_last()) == entry_keys(s).drop_last(),
        entry_keys(s.drop_last()).no_duplicates(),
        !entry_keys(s.drop_last()).contains(s.last().0),
{
    let t = s.drop_last();
    assert(entry_keys(t) =~= entry_keys(s).drop_last());
    assert forall|a: int, b: int|
        0 <= a < entry_keys(t).len() && 0 <= b < entry_keys(t).len() && a != b implies entry_keys(
        t,
    )[a] != entry_keys(t)[b] by {
        assert(entry_keys(t)[a] == entry_keys(s)[a]);
        assert(entry_keys(t)[b] == entry_keys(s)[b]);
    }
    if entry_keys(t).contains(s.last().0) {
        let a = choose|a: int| 0 <= a < entry_keys(t).len() && entry_keys(t)[a] == s.last().0;
        assert(entry_keys(s)[a] == entry_keys(s)[s.len() - 1]);
    }
}

proof fn lemma_entries_map_update(s: Seq<(Seq<u8>, Seq<char>)>, i: int, v: Seq<char>)
    requires
        0 <= i < s.len(),
        entry_keys(s).no_duplicates(),
    ensures
        entries_map(s.update(i, (s[i].0, v))) == entries_map(s).insert(s[i].0, v),
    decreases s.len(),
{
    let u = s.update(i, (s[i].0, v));
    if i == s.len() - 1 {
        assert(u.drop_last() =~= s.drop_last());
        assert(entries_map(u) =~= entries_map(s).insert(s[i].0, v));
    } else {
        lemma_keys_drop_last(s);
        lemma_entries_map_update(s.drop_last(), i, v);
        assert(u.drop_last() =~= s.drop_last().update(i, (s[i].0, v)));
        assert(u.last() == s.last());
        assert(entry_keys(s)[i] == s[i].0);
        assert(entry_keys(s)[s.len() - 1] == s.last().0);
        assert(s.last().0 != s[i].0);
        assert(entries_map(u) =~= entries_map(s).insert(s[i].0, v));
    }
}

proof fn lemma_entries_map_remove(s: Seq<(Seq<u8>, Seq<char>)>, i: int)
    requires
        entry_keys(s).no_duplicates(),
        0 <= i < s.len(),
    ensures
        entries_map(s.remove(i)) == entries_map(s).remove(s[i].0),
        entry_keys(s.remove(i)).no_duplicates(),
    decreases s.len(),
{
    let r = s.remove(i);
    assert(entry_keys(r) =~= entry_keys(s).remove(i));
    assert forall|a: int, b: int|
        0 <= a < entry_keys(r).len() && 0 <= b < entry_keys(r).len() && a != b implies entry_keys(
        r,
    )[a] != entry_keys(r)[b] by {
        let a2 = if a < i { a } else { a + 1 };
        let b2 = if b < i { b } else { b + 1 };
        assert(entry_keys(r)[a] == entry_keys(s)[a2]);
        assert(entry_keys(r)[b] == entry_keys(s)[b2]);
    }
    lemma_keys_drop_last(s);
    lemma_entries_map(s.drop_last());
    if i == s.len() - 1 {
        assert(r =~= s.drop_last());
        assert(!entries_map(s.drop_last()).contains_key(s.last().0));
        assert(entries_map(r) =~= entries_map(s).remove(s[i].0));
    } else {
        lemma_entries_map_remove(s.drop_last(), i);
        assert(r.drop_last() =~= s.drop_last().remove(i));
        assert(r.last() == s.last());
        assert(entry_keys(s)[i] == s[i].0);
        assert(entry_keys(s)[s.len() - 1] == s.last().0);
        assert(s.last().0 != s[i].0);
        assert(entries_map(r) =~= entries_map(s).remove(s[i].0));
    }
}

} // verus!

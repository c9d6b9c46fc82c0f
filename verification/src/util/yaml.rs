//! Variable documents: nested, ordered, string-keyed mappings of scalars,
//! sequences and mappings, and the deep merge that blends one over another.

use crate::util::text::{str_eq, text_list, text_option};
use vstd::prelude::*;
use vstd::string::*;

verus! {

/// What a variable document is, as a mathematical value.
pub enum Node {
    Null,
    Bool(bool),
    Int(int),
    Text(Seq<char>),
    List(Seq<Node>),
    Dict(Seq<(Seq<char>, Node)>),
}

/// The entries of a mapping, in insertion order.
pub type Entries = Seq<(Seq<char>, Node)>;

/// A variable value.
#[derive(Debug, PartialEq)]
pub enum Datum {
    Null,
    Bool(bool),
    Number(i64),
    Text(String),
    Sequence(Vec<Datum>),
    Mapping(Mapping),
}

/// An ordered mapping from names to values. No two entries have the same name.
#[derive(Debug, PartialEq)]
pub struct Mapping {
    pub(crate) entries: Vec<(String, Datum)>,
}

impl View for Datum {
    type V = Node;

    open spec fn view(&self) -> Node
        decreases self,
    {
        match self {
            Datum::Null => Node::Null,
            Datum::Bool(b) => Node::Bool(*b),
            Datum::Number(n) => Node::Int(*n as int),
            Datum::Text(s) => Node::Text(s@),
            Datum::Sequence(items) => Node::List(
                Seq::new(
                    items.len() as nat,
                    |i: int|
                        if 0 <= i < items.len() {
                            items[i]@
                        } else {
                            Node::Null
                        },
                ),
            ),
            Datum::Mapping(m) => Node::Dict(m@),
        }
    }
}

/// The entries of a mapping as mathematical values.
pub open spec fn entries_view(entries: Vec<(String, Datum)>) -> Entries
    decreases entries,
{
    Seq::new(
        entries.len() as nat,
        |i: int|
            if 0 <= i < entries.len() {
                (entries[i].0@, entries[i].1@)
            } else {
                (Seq::empty(), Node::Null)
            },
    )
}

impl View for Mapping {
    type V = Entries;

    closed spec fn view(&self) -> Entries
        decreases self,
    {
        entries_view(self.entries)
    }
}

/// The index of the first entry of `m` named `k`, or the length of `m` where there is none.
pub open spec fn position(m: Entries, k: Seq<char>) -> int
    decreases m.len(),
{
    if m.len() == 0 {
        0
    } else if m[0].0 == k {
        0
    } else {
        1 + position(m.drop_first(), k)
    }
}

pub open spec fn has_key(m: Entries, k: Seq<char>) -> bool {
    position(m, k) < m.len()
}

/// The value of the first entry of `m` named `k`.
pub open spec fn find(m: Entries, k: Seq<char>) -> Option<Node> {
    if has_key(m, k) {
        Some(m[position(m, k)].1)
    } else {
        None
    }
}

/// `m` with `k` bound to `v`: in place where `m` has `k`, else at the end.
pub open spec fn put(m: Entries, k: Seq<char>, v: Node) -> Entries {
    if has_key(m, k) {
        m.update(position(m, k), (k, v))
    } else {
        m.push((k, v))
    }
}

/// `m` with the first `n` entries of `other` bound in it, in their order.
/// Unlike a merge, this replaces whole values.
pub open spec fn put_all(m: Entries, other: Entries, n: nat) -> Entries
    decreases n,
{
    if n == 0 || n > other.len() {
        m
    } else {
        put(put_all(m, other, (n - 1) as nat), other[n - 1].0, other[n - 1].1)
    }
}

/// No two entries of `m` have the same name.
pub open spec fn distinct_keys(m: Entries) -> bool {
    forall|i: int, j: int| 0 <= i < j < m.len() ==> (#[trigger] m[i]).0 != (#[trigger] m[j]).0
}

/// The deep merge of `b` over `a`: two mappings are merged name by name,
/// anything else is replaced by `b`.
pub open spec fn blend(a: Node, b: Node) -> Node
    decreases b, 0nat,
{
    match (a, b) {
        (Node::Dict(x), Node::Dict(y)) => Node::Dict(blend_entries(x, y, y.len())),
        _ => b,
    }
}

/// `x` with the first `n` entries of `y` merged over it, in their order.
pub open spec fn blend_entries(x: Entries, y: Entries, n: nat) -> Entries
    decreases y, n,
{
    if n == 0 || n > y.len() {
        x
    } else {
        let done = blend_entries(x, y, (n - 1) as nat);
        let k = y[n - 1].0;
        match find(done, k) {
            Some(under) => put(done, k, blend(under, y[n - 1].1)),
            None => done.push((k, y[n - 1].1)),
        }
    }
}

/// What a name is bound to after a merge, from what it was bound to on each side.
pub open spec fn overlay(under: Option<Node>, over: Option<Node>) -> Option<Node> {
    match (under, over) {
        (_, None) => under,
        (None, Some(y)) => Some(y),
        (Some(x), Some(y)) => Some(blend(x, y)),
    }
}

/// The view of a value that may be absent.
pub open spec fn node_option(o: Option<&Datum>) -> Option<Node> {
    match o {
        Some(v) => Some(v@),
        None => None,
    }
}

/// `position` is the least index with the name, when there is one.
pub proof fn lemma_position_is_first(m: Entries, k: Seq<char>)
    ensures
        0 <= position(m, k) <= m.len(),
        has_key(m, k) ==> m[position(m, k)].0 == k,
        forall|j: int| 0 <= j < position(m, k) ==> (#[trigger] m[j]).0 != k,
    decreases m.len(),
{
    if m.len() > 0 && m[0].0 != k {
        let rest = m.drop_first();
        lemma_position_is_first(rest, k);
        assert forall|j: int| 0 <= j < position(m, k) implies (#[trigger] m[j]).0 != k by {
            if j > 0 {
                assert(m[j] == rest[j - 1]);
            }
        }
    }
}

/// An index with the name, before which no entry has it, is the `position`.
pub proof fn lemma_first_is_position(m: Entries, k: Seq<char>, i: int)
    requires
        0 <= i <= m.len(),
        forall|j: int| 0 <= j < i ==> (#[trigger] m[j]).0 != k,
        i < m.len() ==> m[i].0 == k,
    ensures
        position(m, k) == i,
    decreases m.len(),
{
    if m.len() > 0 && i > 0 {
        let rest = m.drop_first();
        assert(m[0].0 != k);
        assert forall|j: int| 0 <= j < i - 1 implies (#[trigger] rest[j]).0 != k by {
            assert(rest[j] == m[j + 1]);
        }
        lemma_first_is_position(rest, k, i - 1);
    }
}

/// After `put`, the name that was bound has the new value and every other
/// name is bound as before.
pub proof fn lemma_find_put(m: Entries, k: Seq<char>, v: Node, q: Seq<char>)
    ensures
        find(put(m, k, v), q) == if q == k {
            Some(v)
        } else {
            find(m, q)
        },
{
    let after = put(m, k, v);
    let p = position(m, k);
    let pq = position(m, q);
    lemma_position_is_first(m, k);
    lemma_position_is_first(m, q);
    if q == k {
        lemma_first_is_position(after, k, p);
    } else if pq < m.len() {
        lemma_first_is_position(after, q, pq);
    } else {
        lemma_first_is_position(after, q, after.len() as int);
    }
}

/// `put` keeps names distinct.
pub proof fn lemma_put_distinct(m: Entries, k: Seq<char>, v: Node)
    requires
        distinct_keys(m),
    ensures
        distinct_keys(put(m, k, v)),
{
    lemma_position_is_first(m, k);
    let after = put(m, k, v);
    assert forall|i: int, j: int| 0 <= i < j < after.len() implies (#[trigger] after[i]).0 != (
    #[trigger] after[j]).0 by {
        if has_key(m, k) {
            assert(after[i].0 == m[i].0);
            assert(after[j].0 == m[j].0);
        } else if j < m.len() {
            assert(after[i] == m[i]);
            assert(after[j] == m[j]);
        } else {
            assert(after[i] == m[i]);
        }
    }
}

/// What a name is bound to in a prefix that is one entry longer.
proof fn lemma_find_take(y: Entries, n: int, q: Seq<char>)
    requires
        0 < n <= y.len(),
        distinct_keys(y),
    ensures
        find(y.take(n), q) == if y[n - 1].0 == q {
            Some(y[n - 1].1)
        } else {
            find(y.take(n - 1), q)
        },
{
    let short = y.take(n - 1);
    let long = y.take(n);
    let ps = position(short, q);
    lemma_position_is_first(short, q);
    if y[n - 1].0 == q {
        assert forall|j: int| 0 <= j < n - 1 implies (#[trigger] long[j]).0 != q by {
            assert(long[j] == y[j]);
            assert(y[j].0 != y[n - 1].0);
        }
        lemma_first_is_position(long, q, n - 1);
    } else if ps < short.len() {
        assert forall|j: int| 0 <= j < ps implies (#[trigger] long[j]).0 != q by {
            assert(long[j] == short[j]);
        }
        assert(long[ps] == short[ps]);
        lemma_first_is_position(long, q, ps);
    } else {
        assert forall|j: int| 0 <= j < n implies (#[trigger] long[j]).0 != q by {
            if j < n - 1 {
                assert(long[j] == short[j]);
            }
        }
        lemma_first_is_position(long, q, n);
    }
}

/// Merging a prefix of `y` over `x` binds each name to the overlay of what it
/// is bound to in `x` and in that prefix.
pub proof fn lemma_blend_prefix_find(x: Entries, y: Entries, n: nat, q: Seq<char>)
    requires
        n <= y.len(),
        distinct_keys(y),
    ensures
        find(blend_entries(x, y, n), q) == overlay(find(x, q), find(y.take(n as int), q)),
    decreases n,
{
    if n == 0 {
        assert(y.take(0) =~= Seq::<(Seq<char>, Node)>::empty());
    } else {
        let done = blend_entries(x, y, (n - 1) as nat);
        let k = y[n - 1].0;
        let v = y[n - 1].1;
        lemma_blend_prefix_find(x, y, (n - 1) as nat, q);
        lemma_blend_prefix_find(x, y, (n - 1) as nat, k);
        lemma_find_take(y, n as int, q);
        lemma_find_take(y, n as int, k);
        let short = y.take(n - 1);
        lemma_position_is_first(short, k);
        assert(!has_key(short, k)) by {
            if has_key(short, k) {
                assert(short[position(short, k)] == y[position(short, k)]);
            }
        }
        match find(done, k) {
            Some(under) => {
                lemma_find_put(done, k, blend(under, v), q);
            },
            None => {
                assert(done.push((k, v)) == put(done, k, v));
                lemma_find_put(done, k, v, q);
            },
        }
    }
}

/// Blending precedence for one merge: after `y` is merged over `x`, a name
/// that only one side binds keeps that binding, and a name that both bind is
/// bound to the deep merge of the two values, so to the value of `y` itself
/// unless both values are mappings.
pub proof fn lemma_blend_find(x: Entries, y: Entries, q: Seq<char>)
    requires
        distinct_keys(y),
    ensures
        find(blend_entries(x, y, y.len()), q) == overlay(find(x, q), find(y, q)),
{
    lemma_blend_prefix_find(x, y, y.len(), q);
    assert(y.take(y.len() as int) =~= y);
}

/// A value that is no mapping replaces whatever lies under it.
pub proof fn lemma_overlay_replaces(under: Option<Node>, over: Node)
    requires
        !(over is Dict),
    ensures
        overlay(under, Some(over)) == Some(over),
{
}

/// Merging keeps the names of a mapping distinct.
pub proof fn lemma_blend_distinct(x: Entries, y: Entries, n: nat)
    requires
        distinct_keys(x),
    ensures
        distinct_keys(blend_entries(x, y, n)),
    decreases n,
{
    if n == 0 || n > y.len() {
    } else {
        let done = blend_entries(x, y, (n - 1) as nat);
        let k = y[n - 1].0;
        lemma_blend_distinct(x, y, (n - 1) as nat);
        match find(done, k) {
            Some(under) => {
                lemma_put_distinct(done, k, blend(under, y[n - 1].1));
            },
            None => {
                assert(done.push((k, y[n - 1].1)) == put(done, k, y[n - 1].1));
                lemma_put_distinct(done, k, y[n - 1].1);
            },
        }
    }
}

impl Datum {
    /// A deep copy.
    pub fn duplicate(&self) -> (r: Datum)
        ensures
            r@ == self@,
        decreases self,
    {
        match self {
            Datum::Null => Datum::Null,
            Datum::Bool(b) => Datum::Bool(*b),
            Datum::Number(n) => Datum::Number(*n),
            Datum::Text(s) => Datum::Text(s.clone()),
            Datum::Sequence(items) => {
                let mut out: Vec<Datum> = Vec::new();
                let mut i: usize = 0;
                while i < items.len()
                    invariant
                        self is Sequence,
                        self->Sequence_0 == *items,
                        i <= items.len(),
                        out.len() == i,
                        forall|j: int| 0 <= j < i ==> (#[trigger] out[j])@ == items[j]@,
                    decreases items.len() - i,
                {
                    proof {
                        assert(decreases_to!(*items => items[i as int]));
                        assert(decreases_to!(*self => self->Sequence_0));
                    }
                    let copy = items[i].duplicate();
                    out.push(copy);
                    i += 1;
                }
                let r = Datum::Sequence(out);
                assert(r@->List_0 =~= self@->List_0);
                r
            },
            Datum::Mapping(m) => Datum::Mapping(m.duplicate()),
        }
    }
}

/// The index of the first of `entries` named `key`.
fn find_entry(entries: &Vec<(String, Datum)>, key: &str) -> (r: Option<usize>)
    ensures
        match r {
            Some(i) => has_key(entries_view(*entries), key@) && i == position(
                entries_view(*entries),
                key@,
            ),
            None => !has_key(entries_view(*entries), key@),
        },
{
    let ghost m = entries_view(*entries);
    let mut i: usize = 0;
    while i < entries.len()
        invariant
            m == entries_view(*entries),
            i <= entries.len(),
            forall|j: int| 0 <= j < i ==> (#[trigger] m[j]).0 != key@,
        decreases entries.len() - i,
    {
        if str_eq(entries[i].0.as_str(), key) {
            proof {
                lemma_first_is_position(m, key@, i as int);
            }
            return Some(i);
        }
        i += 1;
    }
    proof {
        lemma_first_is_position(m, key@, i as int);
    }
    None
}

/// Binds `key` to `value` in `entries`: in place where the name exists, else at the end.
fn put_entry(entries: &mut Vec<(String, Datum)>, key: String, value: Datum)
    ensures
        entries_view(*final(entries)) == put(entries_view(*old(entries)), key@, value@),
{
    match find_entry(entries, key.as_str()) {
        Some(i) => {
            entries.set(i, (key, value));
        },
        None => {
            entries.push((key, value));
        },
    }
    assert(entries_view(*entries) =~= put(entries_view(*old(entries)), key@, value@));
}

/// A deep copy of `entries`.
fn copy_entries(entries: &Vec<(String, Datum)>) -> (r: Vec<(String, Datum)>)
    ensures
        entries_view(r) == entries_view(*entries),
    decreases entries,
{
    let mut out: Vec<(String, Datum)> = Vec::new();
    let mut i: usize = 0;
    while i < entries.len()
        invariant
            i <= entries.len(),
            out.len() == i,
            forall|j: int|
                0 <= j < i ==> (#[trigger] out[j]).0@ == entries[j].0@ && out[j].1@
                    == entries[j].1@,
        decreases entries.len() - i,
    {
        proof {
            assert(decreases_to!(*entries => entries[i as int]));
            assert(decreases_to!(entries[i as int] => entries[i as int].1));
        }
        let key = entries[i].0.clone();
        let value = entries[i].1.duplicate();
        out.push((key, value));
        i += 1;
    }
    assert(entries_view(out) =~= entries_view(*entries));
    out
}

impl Mapping {
    /// The invariant of every mapping: no two entries have the same name.
    #[verifier::type_invariant]
    pub open spec fn wf(self) -> bool {
        distinct_keys(self@)
    }

    pub fn new() -> (r: Mapping)
        ensures
            r@ == Seq::<(Seq<char>, Node)>::empty(),
    {
        let entries: Vec<(String, Datum)> = Vec::new();
        assert(entries_view(entries) =~= Seq::<(Seq<char>, Node)>::empty());
        Mapping { entries }
    }

    pub fn len(&self) -> (n: usize)
        ensures
            n == self@.len(),
    {
        self.entries.len()
    }

    pub fn is_empty(&self) -> (r: bool)
        ensures
            r == (self@.len() == 0),
    {
        self.entries.len() == 0
    }

    /// The name of the entry at `i`.
    pub fn key_at(&self, i: usize) -> (r: &String)
        requires
            i < self@.len(),
        ensures
            r@ == self@[i as int].0,
    {
        &self.entries[i].0
    }

    /// The value of the entry at `i`.
    pub fn value_at(&self, i: usize) -> (r: &Datum)
        requires
            i < self@.len(),
        ensures
            r@ == self@[i as int].1,
    {
        &self.entries[i].1
    }

    /// A deep copy.
    pub fn duplicate(&self) -> (r: Mapping)
        ensures
            r@ == self@,
        decreases self,
    {
        proof {
            use_type_invariant(self);
        }
        Mapping { entries: copy_entries(&self.entries) }
    }

    /// The index of the first entry named `key`.
    pub fn index_of(&self, key: &str) -> (r: Option<usize>)
        ensures
            match r {
                Some(i) => has_key(self@, key@) && i == position(self@, key@),
                None => !has_key(self@, key@),
            },
    {
        find_entry(&self.entries, key)
    }

    pub fn contains_key(&self, key: &str) -> (r: bool)
        ensures
            r == has_key(self@, key@),
    {
        self.index_of(key).is_some()
    }

    /// The value of the first entry named `key`.
    pub fn get(&self, key: &str) -> (r: Option<&Datum>)
        ensures
            node_option(r) == find(self@, key@),
    {
        match self.index_of(key) {
            Some(i) => Some(&self.entries[i].1),
            None => None,
        }
    }

    /// Binds `key` to `value`: in place where the name exists, else at the end.
    pub fn insert(&mut self, key: String, value: Datum)
        ensures
            final(self)@ == put(old(self)@, key@, value@),
    {
        proof {
            use_type_invariant(&*self);
            lemma_put_distinct(self@, key@, value@);
        }
        let mut entries: Vec<(String, Datum)> = Vec::new();
        assert(entries_view(entries) =~= Seq::<(Seq<char>, Node)>::empty());
        std::mem::swap(&mut self.entries, &mut entries);
        put_entry(&mut entries, key, value);
        std::mem::swap(&mut self.entries, &mut entries);
    }

    /// Binds every name of `other` to a copy of its value there, replacing whole values.
    pub fn update(&mut self, other: &Mapping)
        ensures
            final(self)@ == put_all(old(self)@, other@, other@.len()),
    {
        let mut i: usize = 0;
        while i < other.len()
            invariant
                i <= other@.len(),
                self@ == put_all(old(self)@, other@, i as nat),
            decreases other@.len() - i,
        {
            let key = other.key_at(i).clone();
            let value = other.value_at(i).duplicate();
            self.insert(key, value);
            i += 1;
        }
    }

    /// This mapping with `over` deeply merged over it.
    pub fn merged(&self, over: &Mapping) -> (r: Mapping)
        ensures
            r@ == blend_entries(self@, over@, over@.len()),
        decreases over,
    {
        let mut out = copy_entries(&self.entries);
        let mut i: usize = 0;
        while i < over.entries.len()
            invariant
                i <= over.entries.len(),
                entries_view(out) == blend_entries(self@, over@, i as nat),
            decreases over.entries.len() - i,
        {
            proof {
                assert(decreases_to!(over.entries => over.entries[i as int]));
                assert(decreases_to!(over.entries[i as int] => over.entries[i as int].1));
            }
            let key = over.entries[i].0.clone();
            match find_entry(&out, key.as_str()) {
                Some(at) => {
                    let value = blended(&out[at].1, &over.entries[i].1);
                    put_entry(&mut out, key, value);
                },
                None => {
                    let value = over.entries[i].1.duplicate();
                    put_entry(&mut out, key, value);
                },
            }
            i += 1;
        }
        proof {
            use_type_invariant(self);
            lemma_blend_distinct(self@, over@, over@.len());
        }
        Mapping { entries: out }
    }
}

/// A YAML value as the YAML library holds it.
#[verifier::external_type_specification]
#[verifier::external_body]
pub struct ExYamlValue(serde_yaml::Value);

/// What a value of the YAML library stands for.
pub uninterp spec fn yaml_node(v: serde_yaml::Value) -> Node;

/// The text that the YAML library writes for a document, where it can write one.
pub uninterp spec fn yaml_document(doc: Node) -> Option<Seq<char>>;

/// The entries that stand for `names` bound to `values`, pair by pair.
pub open spec fn yaml_entries(names: Seq<String>, values: Seq<serde_yaml::Value>) -> Entries {
    Seq::new(names.len(), |i: int| (names[i]@, yaml_node(values[i])))
}

/// `serde_yaml::Value::Null`, the null value of the YAML library.
#[verifier::external_body]
fn yaml_null() -> (r: serde_yaml::Value)
    ensures
        yaml_node(r) == Node::Null,
{
    serde_yaml::Value::Null
}

/// `serde_yaml::Value::Bool`, which holds the boolean as it is.
#[verifier::external_body]
fn yaml_bool(b: bool) -> (r: serde_yaml::Value)
    ensures
        yaml_node(r) == Node::Bool(b),
{
    serde_yaml::Value::Bool(b)
}

/// `serde_yaml::Number::from` a signed integer, inside `serde_yaml::Value::Number`:
/// the number with that value.
#[verifier::external_body]
fn yaml_number(n: i64) -> (r: serde_yaml::Value)
    ensures
        yaml_node(r) == Node::Int(n as int),
{
    serde_yaml::Value::Number(serde_yaml::Number::from(n))
}

/// `serde_yaml::Value::String`, which holds the text as it is.
#[verifier::external_body]
fn yaml_text(s: &str) -> (r: serde_yaml::Value)
    ensures
        yaml_node(r) == Node::Text(s@),
{
    serde_yaml::Value::String(s.to_owned())
}

/// `serde_yaml::Value::Sequence`, which holds the items in their order.
#[verifier::external_body]
fn yaml_sequence(items: Vec<serde_yaml::Value>) -> (r: serde_yaml::Value)
    ensures
        yaml_node(r) == Node::List(Seq::new(items.len() as nat, |i: int| yaml_node(items[i]))),
{
    serde_yaml::Value::Sequence(items)
}

/// `serde_yaml::Mapping` collected from pairs of a name and a value: where the
/// names are distinct it holds one entry for each pair, in their order, under
/// the name as a string.
#[verifier::external_body]
fn yaml_mapping(names: Vec<String>, values: Vec<serde_yaml::Value>) -> (r: serde_yaml::Value)
    requires
        names.len() == values.len(),
        text_list(names@).no_duplicates(),
    ensures
        yaml_node(r) == Node::Dict(yaml_entries(names@, values@)),
{
    let keys = names.into_iter().map(serde_yaml::Value::String);
    serde_yaml::Value::Mapping(keys.zip(values).collect())
}

/// `serde_yaml::to_string`: the YAML text of a value, which depends on nothing
/// but the value; `None` where the library reports an error.
#[verifier::external_body]
fn yaml_to_string(v: &serde_yaml::Value) -> (r: Option<String>)
    ensures
        text_option(r) == yaml_document(yaml_node(*v)),
{
    serde_yaml::to_string(v).ok()
}

impl Datum {
    /// The same value, as the YAML library holds it.
    pub(crate) fn to_yaml(&self) -> (r: serde_yaml::Value)
        ensures
            yaml_node(r) == self@,
        decreases self,
    {
        match self {
            Datum::Null => yaml_null(),
            Datum::Bool(b) => yaml_bool(*b),
            Datum::Number(n) => yaml_number(*n),
            Datum::Text(s) => yaml_text(s.as_str()),
            Datum::Sequence(items) => {
                let mut out: Vec<serde_yaml::Value> = Vec::new();
                let mut i: usize = 0;
                while i < items.len()
                    invariant
                        self is Sequence,
                        self->Sequence_0 == *items,
                        i <= items.len(),
                        out.len() == i,
                        forall|j: int| 0 <= j < i ==> yaml_node(#[trigger] out[j]) == items[j]@,
                    decreases items.len() - i,
                {
                    proof {
                        assert(decreases_to!(*items => items[i as int]));
                        assert(decreases_to!(*self => self->Sequence_0));
                    }
                    let item = items[i].to_yaml();
                    out.push(item);
                    i += 1;
                }
                assert(Seq::new(out.len() as nat, |i: int| yaml_node(out[i])) =~= self@->List_0);
                yaml_sequence(out)
            },
            Datum::Mapping(m) => m.to_yaml(),
        }
    }
}

impl Mapping {
    /// The same mapping, as the YAML library holds it.
    pub(crate) fn to_yaml(&self) -> (r: serde_yaml::Value)
        ensures
            yaml_node(r) == Node::Dict(self@),
        decreases self,
    {
        let mut names: Vec<String> = Vec::new();
        let mut values: Vec<serde_yaml::Value> = Vec::new();
        let mut i: usize = 0;
        while i < self.entries.len()
            invariant
                i <= self.entries.len(),
                names.len() == i,
                values.len() == i,
                forall|j: int|
                    0 <= j < i ==> (#[trigger] names[j])@ == self.entries[j].0@ && yaml_node(
                        values[j],
                    ) == self.entries[j].1@,
            decreases self.entries.len() - i,
        {
            proof {
                assert(decreases_to!(self.entries => self.entries[i as int]));
                assert(decreases_to!(self.entries[i as int] => self.entries[i as int].1));
            }
            names.push(self.entries[i].0.clone());
            let value = self.entries[i].1.to_yaml();
            values.push(value);
            i += 1;
        }
        proof {
            use_type_invariant(self);
            assert(yaml_entries(names@, values@) =~= self@);
            assert forall|a: int, b: int|
                0 <= a < names.len() && 0 <= b < names.len() && a != b implies text_list(names@)[a]
                != text_list(names@)[b] by {
                assert(self@[a].0 == names[a]@);
                assert(self@[b].0 == names[b]@);
            }
        }
        yaml_mapping(names, values)
    }

    /// The mapping as YAML text.
    pub fn to_yaml_text(&self) -> (r: Option<String>)
        ensures
            text_option(r) == yaml_document(Node::Dict(self@)),
    {
        let value = self.to_yaml();
        yaml_to_string(&value)
    }
}

/// A number of a document as a value: the number itself where it is a
/// 64-bit signed integer, else the text that is written for it.
pub fn number_value(integer: Option<i64>, written: String) -> (r: Datum)
    ensures
        r@ == (match integer {
            Some(n) => Node::Int(n as int),
            None => Node::Text(written@),
        }),
{
    match integer {
        Some(n) => Datum::Number(n),
        None => Datum::Text(written),
    }
}

/// The name that a key of a document stands for: a text is its own name, a
/// truth value or a number is named by the text that is written for it, and
/// nothing else is a name.
pub fn key_name(key: &Datum, written: &str) -> (r: Option<String>)
    ensures
        text_option(r) == (match key@ {
            Node::Text(t) => Some(t),
            Node::Bool(_) => Some(written@),
            Node::Int(_) => Some(written@),
            _ => None,
        }),
{
    match key {
        Datum::Text(t) => Some(t.clone()),
        Datum::Bool(_) => Some(String::from_str(written)),
        Datum::Number(_) => Some(String::from_str(written)),
        _ => None,
    }
}

/// `b` deeply merged over `a`.
pub fn blended(a: &Datum, b: &Datum) -> (r: Datum)
    ensures
        r@ == blend(a@, b@),
    decreases b,
{
    match (a, b) {
        (Datum::Mapping(x), Datum::Mapping(y)) => Datum::Mapping(x.merged(y)),
        _ => b.duplicate(),
    }
}

/// Merges `b` deeply over `a`, in place.
pub fn blend_variables(a: &mut Datum, b: Datum)
    ensures
        final(a)@ == blend(old(a)@, b@),
{
    let r = blended(a, &b);
    *a = r;
}

} // verus!

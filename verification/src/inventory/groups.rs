//! Groups: named sets of variables that hosts and other groups belong to.
//!
//! Groups refer to their parents by name, and a table resolves the names. The
//! graph of parents may hold cycles: every traversal is bounded by a depth.

use crate::util::text::{str_eq, text_list};
use crate::util::yaml::{Entries, Mapping};
use vstd::prelude::*;
use vstd::string::*;

verus! {

/// A named set of variables with the names of its parent groups.
#[derive(Debug)]
pub struct Group {
    pub name: String,
    pub parents: Vec<String>,
    pub variables: Mapping,
}

pub struct GroupView {
    pub name: Seq<char>,
    pub parents: Seq<Seq<char>>,
    pub variables: Entries,
}

impl View for Group {
    type V = GroupView;

    open spec fn view(&self) -> GroupView {
        GroupView {
            name: self.name@,
            parents: text_list(self.parents@),
            variables: self.variables@,
        }
    }
}

/// The groups of an inventory. A name stands for the first group that has it.
#[derive(Debug)]
pub struct GroupTable {
    pub groups: Vec<Group>,
}

pub type Table = Seq<GroupView>;

impl View for GroupTable {
    type V = Table;

    open spec fn view(&self) -> Table {
        Seq::new(self.groups.len() as nat, |i: int| self.groups[i]@)
    }
}

/// The first group of `t` named `name`.
pub open spec fn lookup_group(t: Table, name: Seq<char>) -> Option<GroupView>
    decreases t.len(),
{
    if t.len() == 0 {
        None
    } else if t[0].name == name {
        Some(t[0])
    } else {
        lookup_group(t.drop_first(), name)
    }
}

/// The parents of the group named `name`; none where the table has no such group.
pub open spec fn parents_of(t: Table, name: Seq<char>) -> Seq<Seq<char>> {
    match lookup_group(t, name) {
        Some(g) => g.parents,
        None => Seq::empty(),
    }
}

/// The own variables of the group named `name`; none where the table has no such group.
pub open spec fn variables_of(t: Table, name: Seq<char>) -> Entries {
    match lookup_group(t, name) {
        Some(g) => g.variables,
        None => Seq::empty(),
    }
}

/// The names met on a walk that starts at `names` and climbs at most `fuel`
/// levels of parents, in the order of the walk, each as often as it is met.
pub open spec fn walk(t: Table, names: Seq<Seq<char>>, fuel: nat) -> Seq<Seq<char>>
    decreases fuel, names.len(),
{
    if names.len() == 0 {
        Seq::empty()
    } else {
        let n = names.last();
        let above = if fuel > 0 {
            walk(t, parents_of(t, n), (fuel - 1) as nat)
        } else {
            Seq::empty()
        };
        walk(t, names.drop_last(), fuel) + seq![n] + above
    }
}

/// `acc` with `x` at the end, unless it holds `x` already.
pub open spec fn add_new(acc: Seq<Seq<char>>, x: Seq<char>) -> Seq<Seq<char>> {
    if acc.contains(x) {
        acc
    } else {
        acc.push(x)
    }
}

/// `acc` followed by those of `xs` that it lacks, each once, in the order in
/// which they first occur.
pub open spec fn add_all(acc: Seq<Seq<char>>, xs: Seq<Seq<char>>) -> Seq<Seq<char>>
    decreases xs.len(),
{
    if xs.len() == 0 {
        acc
    } else {
        add_new(add_all(acc, xs.drop_last()), xs.last())
    }
}

/// The groups that a member of `names` reaches: `names` themselves and what
/// lies at most `depth_limit + 1` levels of parents above them, each once, in
/// the order in which the walk first meets them.
pub open spec fn ancestors(t: Table, names: Seq<Seq<char>>, depth_limit: nat) -> Seq<Seq<char>> {
    add_all(Seq::empty(), walk(t, names, depth_limit + 1))
}

/// `to` is `from` or lies at most `hops` levels of parents above it.
pub open spec fn reaches(t: Table, from: Seq<char>, to: Seq<char>, hops: nat) -> bool
    decreases hops,
{
    from == to || (hops > 0 && exists|i: int|
        0 <= i < parents_of(t, from).len() && reaches(
            t,
            #[trigger] parents_of(t, from)[i],
            to,
            (hops - 1) as nat,
        ))
}

/// Some member of `names` reaches `to` within `hops` levels of parents.
pub open spec fn reaches_from(t: Table, names: Seq<Seq<char>>, to: Seq<char>, hops: nat) -> bool {
    exists|i: int| 0 <= i < names.len() && reaches(t, #[trigger] names[i], to, hops)
}

proof fn lemma_concat_contains(a: Seq<Seq<char>>, b: Seq<Seq<char>>, x: Seq<char>)
    ensures
        (a + b).contains(x) <==> a.contains(x) || b.contains(x),
{
    if a.contains(x) {
        let i = choose|i: int| 0 <= i < a.len() && a[i] == x;
        assert((a + b)[i] == x);
    }
    if b.contains(x) {
        let i = choose|i: int| 0 <= i < b.len() && b[i] == x;
        assert((a + b)[a.len() + i] == x);
    }
    if (a + b).contains(x) {
        let i = choose|i: int| 0 <= i < (a + b).len() && (a + b)[i] == x;
        if i < a.len() {
            assert(a[i] == x);
        } else {
            assert(b[i - a.len()] == x);
        }
    }
}

/// A walk meets exactly the groups that its starting points reach within its bound.
pub proof fn lemma_walk_reaches(t: Table, names: Seq<Seq<char>>, fuel: nat, x: Seq<char>)
    ensures
        walk(t, names, fuel).contains(x) <==> reaches_from(t, names, x, fuel),
    decreases fuel, names.len(),
{
    if names.len() > 0 {
        let n = names.last();
        let rest = names.drop_last();
        let above = if fuel > 0 {
            walk(t, parents_of(t, n), (fuel - 1) as nat)
        } else {
            Seq::<Seq<char>>::empty()
        };
        lemma_walk_reaches(t, rest, fuel, x);
        if fuel > 0 {
            lemma_walk_reaches(t, parents_of(t, n), (fuel - 1) as nat, x);
        }
        lemma_concat_contains(walk(t, rest, fuel) + seq![n], above, x);
        lemma_concat_contains(walk(t, rest, fuel), seq![n], x);
        assert(seq![n].contains(x) <==> n == x) by {
            if n == x {
                assert(seq![n][0] == x);
            }
        }
        assert(reaches(t, n, x, fuel) <==> (n == x || above.contains(x)));
        if reaches_from(t, names, x, fuel) {
            let i = choose|i: int| 0 <= i < names.len() && reaches(t, #[trigger] names[i], x, fuel);
            if i < names.len() - 1 {
                assert(rest[i] == names[i]);
            }
        }
        if reaches_from(t, rest, x, fuel) {
            let i = choose|i: int| 0 <= i < rest.len() && reaches(t, #[trigger] rest[i], x, fuel);
            assert(names[i] == rest[i]);
        }
        if reaches(t, n, x, fuel) {
            assert(names[names.len() - 1] == n);
        }
    }
}

/// The depth bound: the ancestors of `names` are exactly the groups that a
/// member of `names` reaches within `depth_limit + 1` levels of parents, each
/// listed once. What lies farther up a chain is cut off, and a cycle among the
/// parents adds nothing.
pub proof fn lemma_ancestors_bounded(
    t: Table,
    names: Seq<Seq<char>>,
    depth_limit: nat,
    x: Seq<char>,
)
    ensures
        ancestors(t, names, depth_limit).contains(x) <==> reaches_from(
            t,
            names,
            x,
            depth_limit + 1,
        ),
        ancestors(t, names, depth_limit).no_duplicates(),
{
    let met = walk(t, names, depth_limit + 1);
    lemma_walk_reaches(t, names, depth_limit + 1, x);
    lemma_add_all_contains(Seq::empty(), met, x);
    lemma_add_all_no_duplicates(Seq::empty(), met);
}

pub proof fn lemma_add_all_one(acc: Seq<Seq<char>>, x: Seq<char>)
    ensures
        add_all(acc, seq![x]) == add_new(acc, x),
{
    let one = seq![x];
    assert(one.drop_last() =~= Seq::<Seq<char>>::empty());
    assert(add_all(acc, one.drop_last()) == acc);
    assert(one.last() == x);
}

pub proof fn lemma_add_all_concat(acc: Seq<Seq<char>>, a: Seq<Seq<char>>, b: Seq<Seq<char>>)
    ensures
        add_all(acc, a + b) == add_all(add_all(acc, a), b),
    decreases b.len(),
{
    if b.len() == 0 {
        assert(a + b =~= a);
    } else {
        assert((a + b).drop_last() =~= a + b.drop_last());
        assert((a + b).last() == b.last());
        lemma_add_all_concat(acc, a, b.drop_last());
    }
}

/// `add_all` keeps what `acc` holds, adds every member of `xs`, and nothing else.
pub proof fn lemma_add_all_contains(acc: Seq<Seq<char>>, xs: Seq<Seq<char>>, x: Seq<char>)
    ensures
        add_all(acc, xs).contains(x) <==> acc.contains(x) || xs.contains(x),
    decreases xs.len(),
{
    if xs.len() > 0 {
        let before = add_all(acc, xs.drop_last());
        lemma_add_all_contains(acc, xs.drop_last(), x);
        if xs.contains(x) {
            let i = choose|i: int| 0 <= i < xs.len() && xs[i] == x;
            if i < xs.len() - 1 {
                assert(xs.drop_last()[i] == x);
            }
        }
        if xs.drop_last().contains(x) {
            let i = choose|i: int| 0 <= i < xs.drop_last().len() && xs.drop_last()[i] == x;
            assert(xs[i] == x);
        }
        if !before.contains(xs.last()) {
            let after = before.push(xs.last());
            assert(after[before.len() as int] == xs.last());
            if before.contains(x) {
                let i = choose|i: int| 0 <= i < before.len() && before[i] == x;
                assert(after[i] == x);
            }
            if after.contains(x) {
                let i = choose|i: int| 0 <= i < after.len() && after[i] == x;
                if i < before.len() {
                    assert(before[i] == x);
                }
            }
        }
        assert(xs[xs.len() - 1] == xs.last());
    }
}

/// `add_all` adds nothing twice.
pub proof fn lemma_add_all_no_duplicates(acc: Seq<Seq<char>>, xs: Seq<Seq<char>>)
    requires
        acc.no_duplicates(),
    ensures
        add_all(acc, xs).no_duplicates(),
    decreases xs.len(),
{
    if xs.len() > 0 {
        lemma_add_all_no_duplicates(acc, xs.drop_last());
    }
}

impl Group {
    pub fn new(name: &str) -> (r: Group)
        ensures
            r@ == (GroupView { name: name@, parents: Seq::empty(), variables: Seq::empty() }),
    {
        let r = Group { name: String::from_str(name), parents: Vec::new(), variables: Mapping::new() };
        assert(text_list(r.parents@) =~= Seq::<Seq<char>>::empty());
        r
    }

    /// Makes the group named `parent` a parent of this one, unless it is one already.
    pub fn add_parent(&mut self, parent: &str)
        ensures
            final(self)@ == (GroupView {
                parents: add_new(old(self)@.parents, parent@),
                ..old(self)@
            }),
    {
        push_new(&mut self.parents, parent);
    }

    pub fn get_variables(&self) -> (r: Mapping)
        ensures
            r@ == self@.variables,
    {
        self.variables.duplicate()
    }

    pub fn set_variables(&mut self, variables: Mapping)
        ensures
            final(self)@ == (GroupView { variables: variables@, ..old(self)@ }),
    {
        self.variables = variables;
    }
}

/// Whether `names` holds `name`.
pub fn holds_name(names: &Vec<String>, name: &str) -> (r: bool)
    ensures
        r == text_list(names@).contains(name@),
{
    let mut i: usize = 0;
    while i < names.len()
        invariant
            i <= names.len(),
            forall|j: int| 0 <= j < i ==> text_list(names@)[j] != name@,
        decreases names.len() - i,
    {
        if str_eq(names[i].as_str(), name) {
            assert(text_list(names@)[i as int] == name@);
            return true;
        }
        i += 1;
    }
    false
}

/// Appends `name` to `names`, unless they hold it already.
pub fn push_new(names: &mut Vec<String>, name: &str)
    ensures
        text_list(final(names)@) == add_new(text_list(old(names)@), name@),
{
    if !holds_name(names, name) {
        names.push(String::from_str(name));
        assert(text_list(names@) =~= text_list(old(names)@).push(name@));
    }
}

/// A copy of `names`.
pub fn copy_names(names: &Vec<String>) -> (r: Vec<String>)
    ensures
        text_list(r@) == text_list(names@),
{
    let mut out: Vec<String> = Vec::new();
    let mut i: usize = 0;
    while i < names.len()
        invariant
            i <= names.len(),
            out.len() == i,
            forall|j: int| 0 <= j < i ==> (#[trigger] out[j])@ == names[j]@,
        decreases names.len() - i,
    {
        out.push(names[i].clone());
        i += 1;
    }
    assert(text_list(out@) =~= text_list(names@));
    out
}

impl GroupTable {
    pub fn new() -> (r: GroupTable)
        ensures
            r@ == Seq::<GroupView>::empty(),
    {
        let r = GroupTable { groups: Vec::new() };
        assert(r@ =~= Seq::<GroupView>::empty());
        r
    }

    /// Adds a group at the end of the table.
    pub fn add(&mut self, group: Group)
        ensures
            final(self)@ == old(self)@.push(group@),
    {
        self.groups.push(group);
        assert(self@ =~= old(self)@.push(group@));
    }

    /// The index of the first group named `name`.
    pub fn index_of(&self, name: &str) -> (r: Option<usize>)
        ensures
            match r {
                Some(i) => i < self@.len() && lookup_group(self@, name@) == Some(self@[i as int]),
                None => lookup_group(self@, name@) is None,
            },
    {
        let ghost t = self@;
        let mut i: usize = 0;
        assert(t.skip(0) =~= t);
        while i < self.groups.len()
            invariant
                t == self@,
                i <= self.groups.len(),
                lookup_group(t, name@) == lookup_group(t.skip(i as int), name@),
            decreases self.groups.len() - i,
        {
            assert(t.skip(i as int).drop_first() =~= t.skip(i + 1));
            if str_eq(self.groups[i].name.as_str(), name) {
                return Some(i);
            }
            i += 1;
        }
        None
    }

    /// Adds to `out`, in the order of the walk, the groups met on a walk that
    /// starts at `names` and climbs at most `fuel` levels of parents.
    fn collect(&self, names: &Vec<String>, fuel: usize, out: &mut Vec<String>)
        ensures
            text_list(final(out)@) == add_all(
                text_list(old(out)@),
                walk(self@, text_list(names@), fuel as nat),
            ),
        decreases fuel, names.len(),
    {
        let ghost all = text_list(names@);
        let ghost start = text_list(out@);
        let mut i: usize = 0;
        assert(all.take(0) =~= Seq::<Seq<char>>::empty());
        while i < names.len()
            invariant
                all == text_list(names@),
                i <= names.len(),
                text_list(out@) == add_all(start, walk(self@, all.take(i as int), fuel as nat)),
            decreases names.len() - i,
        {
            let ghost done = walk(self@, all.take(i as int), fuel as nat);
            let ghost name = all[i as int];
            let ghost above = if fuel > 0 {
                walk(self@, parents_of(self@, name), (fuel - 1) as nat)
            } else {
                Seq::<Seq<char>>::empty()
            };
            proof {
                assert(all.take(i + 1).drop_last() =~= all.take(i as int));
                assert(all.take(i + 1).last() == name);
                assert(walk(self@, all.take(i + 1), fuel as nat) == done + seq![name] + above);
                lemma_add_all_concat(start, done + seq![name], above);
                lemma_add_all_concat(start, done, seq![name]);
                lemma_add_all_one(add_all(start, done), name);
            }
            push_new(out, names[i].as_str());
            if fuel > 0 {
                match self.index_of(names[i].as_str()) {
                    Some(at) => {
                        self.collect(&self.groups[at].parents, fuel - 1, out);
                    },
                    None => {},
                }
            }
            i += 1;
        }
        assert(all.take(names.len() as int) =~= all);
    }

    /// The groups that lie at most `depth_limit + 1` levels of parents above
    /// the group named `name`, each once, in the order of the walk.
    pub fn get_ancestor_groups(&self, name: &str, depth_limit: usize) -> (r: Vec<String>)
        ensures
            text_list(r@) == add_all(
                Seq::empty(),
                walk(self@, parents_of(self@, name@), depth_limit as nat),
            ),
    {
        let mut out: Vec<String> = Vec::new();
        assert(text_list(out@) =~= Seq::<Seq<char>>::empty());
        match self.index_of(name) {
            Some(at) => {
                self.collect(&self.groups[at].parents, depth_limit, &mut out);
            },
            None => {},
        }
        out
    }

    /// The members of `names` and the groups that they reach within
    /// `depth_limit + 1` levels of parents, each once, in the order of the walk.
    pub fn ancestors_of(&self, names: &Vec<String>, depth_limit: usize) -> (r: Vec<String>)
        ensures
            text_list(r@) == ancestors(self@, text_list(names@), depth_limit as nat),
    {
        let ghost all = text_list(names@);
        let mut out: Vec<String> = Vec::new();
        assert(text_list(out@) =~= Seq::<Seq<char>>::empty());
        let mut i: usize = 0;
        assert(all.take(0) =~= Seq::<Seq<char>>::empty());
        while i < names.len()
            invariant
                all == text_list(names@),
                i <= names.len(),
                text_list(out@) == add_all(
                    Seq::empty(),
                    walk(self@, all.take(i as int), (depth_limit + 1) as nat),
                ),
            decreases names.len() - i,
        {
            let ghost done = walk(self@, all.take(i as int), (depth_limit + 1) as nat);
            let ghost name = all[i as int];
            let ghost above = walk(self@, parents_of(self@, name), depth_limit as nat);
            proof {
                assert(all.take(i + 1).drop_last() =~= all.take(i as int));
                assert(all.take(i + 1).last() == name);
                assert(walk(self@, all.take(i + 1), (depth_limit + 1) as nat) == done + seq![name]
                    + above);
                lemma_add_all_concat(Seq::empty(), done + seq![name], above);
                lemma_add_all_concat(Seq::empty(), done, seq![name]);
                lemma_add_all_one(add_all(Seq::empty(), done), name);
            }
            push_new(&mut out, names[i].as_str());
            match self.index_of(names[i].as_str()) {
                Some(at) => {
                    self.collect(&self.groups[at].parents, depth_limit, &mut out);
                },
                None => {},
            }
            i += 1;
        }
        assert(all.take(names.len() as int) =~= all);
        out
    }
}

} // verus!

//! Hosts: identity, group membership, variables, facts and per-run caches.

use crate::inventory::groups::{
    ancestors, copy_names, holds_name, push_new, add_new, variables_of, GroupTable, Table,
};
use crate::util::text::{starts_with, text_list, text_option, text_result};
use crate::util::yaml::{
    blend_entries, distinct_keys, find, lemma_blend_find, lemma_find_put, overlay, put, put_all,
    yaml_document, Entries, Mapping, Node, Datum,
};
use vstd::prelude::*;
use vstd::string::*;

verus! {

/// The operating system families for which remote commands are defined.
#[derive(Clone, Copy, Debug, PartialEq, Eq, Structural)]
pub enum HostOSType {
    Linux,
    MacOS,
}

/// The package manager to prefer where a platform offers more than one.
#[derive(Clone, Copy, Debug)]
pub enum PackagePreference {
    Dnf,
    Yum,
}

/// A managed endpoint.
#[derive(Debug)]
pub struct Host {
    pub name: String,
    pub groups: Vec<String>,
    pub variables: Mapping,
    pub os_type: Option<HostOSType>,
    checksum_cache: Mapping,
    checksum_cache_task_id: usize,
    facts: Mapping,
    pub package_preference: Option<PackagePreference>,
    notified_handlers: Vec<(usize, String)>,
}

pub struct HostView {
    pub name: Seq<char>,
    /// The names of the groups that the host is a direct member of.
    pub groups: Seq<Seq<char>>,
    /// The variables declared for the host itself.
    pub variables: Entries,
    pub os_type: Option<HostOSType>,
    /// What was discovered of the host.
    pub facts: Entries,
    /// The content hashes known for remote paths.
    pub checksums: Map<Seq<char>, Seq<char>>,
    /// The highest unit-of-work id that asked for a content hash.
    pub checksum_task: nat,
    /// The signals raised, each with the id of its play.
    pub notified: Set<(int, Seq<char>)>,
    pub package_preference: Option<PackagePreference>,
}

/// The texts that a mapping binds names to.
pub open spec fn checksum_map(m: Entries) -> Map<Seq<char>, Seq<char>> {
    Map::new(|k: Seq<char>| find(m, k) matches Some(Node::Text(_)), |k: Seq<char>| find(m, k)->0->Text_0)
}

pub open spec fn signal_set(v: Seq<(usize, String)>) -> Set<(int, Seq<char>)> {
    Set::new(
        |p: (int, Seq<char>)|
            exists|i: int| 0 <= i < v.len() && (#[trigger] v[i]).0 == p.0 && v[i].1@ == p.1,
    )
}

/// The operating system family that a platform probe names.
pub open spec fn classify(probe: Seq<char>) -> Option<HostOSType> {
    if "Linux"@.is_prefix_of(probe) {
        Some(HostOSType::Linux)
    } else if "Darwin"@.is_prefix_of(probe) {
        Some(HostOSType::MacOS)
    } else {
        None
    }
}

/// The own variables of the first `n` of the groups `names`, merged in their order.
pub open spec fn blend_groups(t: Table, names: Seq<Seq<char>>, n: nat) -> Entries
    decreases n,
{
    if n == 0 || n > names.len() {
        Seq::empty()
    } else {
        let theirs = variables_of(t, names[n - 1]);
        blend_entries(blend_groups(t, names, (n - 1) as nat), theirs, theirs.len())
    }
}

/// The depth to which the groups of a host are followed for its variables.
pub const BLEND_DEPTH: usize = 20;

/// The depth to which the groups of a host are followed for a test of membership.
pub const MEMBERSHIP_DEPTH: usize = 10;

/// The variables of all ancestor groups of a host, merged in the order of the walk.
pub open spec fn group_layer(h: HostView, t: Table) -> Entries {
    let above = ancestors(t, h.groups, BLEND_DEPTH as nat);
    blend_groups(t, above, above.len())
}

/// The variables visible on a host: those of its ancestor groups, its own
/// merged over them, and its facts merged over both.
pub open spec fn blended_variables(h: HostView, t: Table) -> Entries {
    let mine = blend_entries(group_layer(h, t), h.variables, h.variables.len());
    blend_entries(mine, h.facts, h.facts.len())
}

/// The YAML text of a mapping, or the complaint where there is none.
pub open spec fn yaml_or(m: Entries, complaint: Seq<char>) -> Result<Seq<char>, Seq<char>> {
    match yaml_document(Node::Dict(m)) {
        Some(text) => Ok(text),
        None => Err(complaint),
    }
}

/// The host after the content hash of `path` was recorded.
pub open spec fn after_set_checksum(h: HostView, path: Seq<char>, checksum: Seq<char>) -> HostView {
    HostView { checksums: h.checksums.insert(path, checksum), ..h }
}

/// The host after the unit of work `task_id` asked for a content hash.
pub open spec fn after_get_checksum(h: HostView, task_id: nat) -> HostView {
    if task_id > h.checksum_task {
        HostView { checksums: Map::empty(), checksum_task: task_id, ..h }
    } else {
        h
    }
}

/// The content hash that the host holds for `path`.
pub open spec fn cached_checksum(h: HostView, path: Seq<char>) -> Option<Seq<char>> {
    if h.checksums.dom().contains(path) {
        Some(h.checksums[path])
    } else {
        None
    }
}

/// A content hash that was recorded is found again by any unit of work whose
/// id is not above the highest seen.
pub proof fn lemma_checksum_cached(h: HostView, path: Seq<char>, checksum: Seq<char>, task_id: nat)
    requires
        task_id <= h.checksum_task,
    ensures
        cached_checksum(
            after_get_checksum(after_set_checksum(h, path, checksum), task_id),
            path,
        ) == Some(checksum),
{
}

/// A unit of work with an id above the highest seen finds nothing, for any
/// path: every entry is gone, and the id becomes the highest seen. The
/// highest id seen never goes down.
pub proof fn lemma_checksum_cache_monotone(h: HostView, task_id: nat, path: Seq<char>)
    ensures
        task_id > h.checksum_task ==> cached_checksum(after_get_checksum(h, task_id), path)
            is None && after_get_checksum(h, task_id).checksums == Map::<
            Seq<char>,
            Seq<char>,
        >::empty(),
        after_get_checksum(h, task_id).checksum_task >= h.checksum_task,
        after_get_checksum(h, task_id).checksum_task >= task_id,
{
}

impl View for Host {
    type V = HostView;

    closed spec fn view(&self) -> HostView {
        HostView {
            name: self.name@,
            groups: text_list(self.groups@),
            variables: self.variables@,
            os_type: self.os_type,
            facts: self.facts@,
            checksums: checksum_map(self.checksum_cache@),
            checksum_task: self.checksum_cache_task_id as nat,
            notified: signal_set(self.notified_handlers@),
            package_preference: self.package_preference,
        }
    }
}

/// Blending precedence: facts over the host's own variables over those of its
/// ancestor groups. A name is bound to the overlay of its three bindings, so
/// to the value of the topmost layer that binds it, except that mappings
/// bound under one name in several layers are merged name by name.
pub proof fn lemma_blending_precedence(h: HostView, t: Table, k: Seq<char>)
    requires
        distinct_keys(h.variables),
        distinct_keys(h.facts),
    ensures
        find(blended_variables(h, t), k) == overlay(
            overlay(find(group_layer(h, t), k), find(h.variables, k)),
            find(h.facts, k),
        ),
        (find(h.facts, k) matches Some(v) && !(v is Dict)) ==> find(blended_variables(h, t), k)
            == find(h.facts, k),
        find(h.facts, k) is None && (find(h.variables, k) matches Some(v) && !(v is Dict))
            ==> find(blended_variables(h, t), k) == find(h.variables, k),
        find(h.facts, k) is None && find(h.variables, k) is None ==> find(
            blended_variables(h, t),
            k,
        ) == find(group_layer(h, t), k),
{
    let mine = blend_entries(group_layer(h, t), h.variables, h.variables.len());
    lemma_blend_find(group_layer(h, t), h.variables, k);
    lemma_blend_find(mine, h.facts, k);
}

/// Among the ancestor groups, one that comes later in the walk lies over those before it.
pub proof fn lemma_group_precedence(t: Table, names: Seq<Seq<char>>, n: nat, k: Seq<char>)
    requires
        0 < n <= names.len(),
        distinct_keys(variables_of(t, names[n - 1])),
    ensures
        find(blend_groups(t, names, n), k) == overlay(
            find(blend_groups(t, names, (n - 1) as nat), k),
            find(variables_of(t, names[n - 1]), k),
        ),
{
    lemma_blend_find(blend_groups(t, names, (n - 1) as nat), variables_of(t, names[n - 1]), k);
}

impl Host {
    pub fn new(name: &str) -> (r: Host)
        ensures
            r@ == (HostView {
                name: name@,
                groups: Seq::empty(),
                variables: Seq::empty(),
                os_type: None,
                facts: Seq::empty(),
                checksums: Map::empty(),
                checksum_task: 0,
                notified: Set::empty(),
                package_preference: None,
            }),
    {
        let r = Host {
            name: String::from_str(name),
            variables: Mapping::new(),
            groups: Vec::new(),
            os_type: None,
            checksum_cache: Mapping::new(),
            checksum_cache_task_id: 0,
            facts: Mapping::new(),
            notified_handlers: Vec::new(),
            package_preference: None,
        };
        assert(r@.groups =~= Seq::<Seq<char>>::empty());
        assert(r@.checksums =~= Map::<Seq<char>, Seq<char>>::empty());
        assert(r@.notified =~= Set::<(int, Seq<char>)>::empty());
        r
    }

    /// Raises `signal` for the play `play_number`. Raising it again changes nothing.
    pub fn notify(&mut self, play_number: usize, signal: &str)
        ensures
            final(self)@ == (HostView {
                notified: old(self)@.notified.insert((play_number as int, signal@)),
                ..old(self)@
            }),
    {
        if !self.is_notified(play_number, signal) {
            self.notified_handlers.push((play_number, String::from_str(signal)));
            let ghost before = old(self).notified_handlers@;
            let ghost after = self.notified_handlers@;
            assert forall|p: (int, Seq<char>)|
                signal_set(after).contains(p) <==> signal_set(before).insert(
                    (play_number as int, signal@),
                ).contains(p) by {
                if signal_set(before).contains(p) {
                    let i = choose|i: int|
                        0 <= i < before.len() && (#[trigger] before[i]).0 == p.0 && before[i].1@
                            == p.1;
                    assert(after[i] == before[i]);
                }
                if p == (play_number as int, signal@) {
                    assert(after[before.len() as int].0 == p.0);
                }
                if signal_set(after).contains(p) {
                    let i = choose|i: int|
                        0 <= i < after.len() && (#[trigger] after[i]).0 == p.0 && after[i].1@
                            == p.1;
                    if i < before.len() {
                        assert(after[i] == before[i]);
                    }
                }
            }
            assert(signal_set(after) =~= signal_set(before).insert((play_number as int, signal@)));
        } else {
            assert(self@.notified =~= old(self)@.notified.insert((play_number as int, signal@)));
        }
    }

    /// Whether `signal` was raised for the play `play_number`.
    pub fn is_notified(&self, play_number: usize, signal: &str) -> (r: bool)
        ensures
            r == self@.notified.contains((play_number as int, signal@)),
    {
        let mut i: usize = 0;
        while i < self.notified_handlers.len()
            invariant
                i <= self.notified_handlers.len(),
                forall|j: int|
                    0 <= j < i ==> !((#[trigger] self.notified_handlers[j]).0 == play_number
                        && self.notified_handlers[j].1@ == signal@),
            decreases self.notified_handlers.len() - i,
        {
            if self.notified_handlers[i].0 == play_number && crate::util::text::str_eq(
                self.notified_handlers[i].1.as_str(),
                signal,
            ) {
                return true;
            }
            i += 1;
        }
        false
    }

    /// Records the content hash of a remote path.
    pub fn set_checksum_cache(&mut self, path: &str, checksum: &str)
        ensures
            final(self)@ == after_set_checksum(old(self)@, path@, checksum@),
    {
        let value = Datum::Text(String::from_str(checksum));
        proof {
            assert forall|q: Seq<char>|
                find(put(self.checksum_cache@, path@, value@), q) == if q == path@ {
                    Some(value@)
                } else {
                    find(self.checksum_cache@, q)
                } by {
                lemma_find_put(self.checksum_cache@, path@, value@, q);
            }
        }
        self.checksum_cache.insert(String::from_str(path), value);
        assert(self@.checksums =~= old(self)@.checksums.insert(path@, checksum@));
    }

    /// The content hash recorded for a remote path. A unit of work with a
    /// higher id than any before it finds the cache empty: the whole cache is
    /// dropped first, not only the entry asked for.
    pub fn get_checksum_cache(&mut self, task_id: usize, path: &str) -> (r: Option<String>)
        ensures
            final(self)@ == after_get_checksum(old(self)@, task_id as nat),
            text_option(r) == cached_checksum(final(self)@, path@),
    {
        if task_id > self.checksum_cache_task_id {
            self.checksum_cache_task_id = task_id;
            self.checksum_cache = Mapping::new();
            assert(self@.checksums =~= Map::<Seq<char>, Seq<char>>::empty());
        }
        match self.checksum_cache.get(path) {
            Some(Datum::Text(sum)) => Some(sum.clone()),
            _ => None,
        }
    }

    /// Classifies the host from the output of its platform probe.
    pub fn set_os_info(&mut self, uname_output: &str) -> (r: Result<(), String>)
        ensures
            match classify(uname_output@) {
                Some(os) => r is Ok && final(self)@ == (HostView {
                    os_type: Some(os),
                    ..old(self)@
                }),
                None => final(self)@ == old(self)@ && (r matches Err(e) && e@
                    == "OS Type could not be detected from uname -a: "@ + uname_output@),
            },
    {
        if starts_with(uname_output, "Linux") {
            self.os_type = Some(HostOSType::Linux);
            Ok(())
        } else if starts_with(uname_output, "Darwin") {
            self.os_type = Some(HostOSType::MacOS);
            Ok(())
        } else {
            let mut msg = String::from_str("OS Type could not be detected from uname -a: ");
            msg.append(uname_output);
            Err(msg)
        }
    }

    /// The operating system family of the host, once it is classified.
    pub fn get_os_type(&self) -> (r: Option<HostOSType>)
        ensures
            r == self@.os_type,
    {
        self.os_type
    }

    /// The names of the groups that the host is a direct member of.
    pub fn get_groups(&self) -> (r: Vec<String>)
        ensures
            text_list(r@) == self@.groups,
    {
        copy_names(&self.groups)
    }

    pub fn has_group(&self, group_name: &str) -> (r: bool)
        ensures
            r == self@.groups.contains(group_name@),
    {
        holds_name(&self.groups, group_name)
    }

    /// Whether the host is a member of the group, directly or through the
    /// parents of its groups, followed to the depth of membership tests.
    pub fn has_ancestor_group(&self, table: &GroupTable, group_name: &str) -> (r: bool)
        ensures
            r == ancestors(table@, self@.groups, MEMBERSHIP_DEPTH as nat).contains(group_name@),
    {
        let above = table.ancestors_of(&self.groups, MEMBERSHIP_DEPTH);
        holds_name(&above, group_name)
    }

    pub fn get_group_names(&self) -> (r: Vec<String>)
        ensures
            text_list(r@) == self@.groups,
    {
        self.get_groups()
    }

    /// Makes the host a member of the group named `name`, unless it is one already.
    pub fn add_group(&mut self, name: &str)
        ensures
            final(self)@ == (HostView { groups: add_new(old(self)@.groups, name@), ..old(self)@ }),
    {
        push_new(&mut self.groups, name);
    }

    /// The groups of the host and those that they reach within
    /// `depth_limit + 1` levels of parents, each once, in the order of the walk.
    pub fn get_ancestor_groups(&self, table: &GroupTable, depth_limit: usize) -> (r: Vec<String>)
        ensures
            text_list(r@) == ancestors(table@, self@.groups, depth_limit as nat),
    {
        table.ancestors_of(&self.groups, depth_limit)
    }

    pub fn get_ancestor_group_names(&self, table: &GroupTable) -> (r: Vec<String>)
        ensures
            text_list(r@) == ancestors(table@, self@.groups, BLEND_DEPTH as nat),
    {
        self.get_ancestor_groups(table, BLEND_DEPTH)
    }

    pub fn get_variables(&self) -> (r: Mapping)
        ensures
            r@ == self@.variables,
    {
        self.variables.duplicate()
    }

    pub fn set_variables(&mut self, variables: Mapping)
        ensures
            final(self)@ == (HostView { variables: variables@, ..old(self)@ }),
    {
        self.variables = variables;
    }

    /// Binds each name of `mapping` in the host's own variables, replacing whole values.
    pub fn update_variables(&mut self, mapping: Mapping)
        ensures
            final(self)@ == (HostView {
                variables: put_all(old(self)@.variables, mapping@, mapping@.len()),
                ..old(self)@
            }),
    {
        self.variables.update(&mapping);
    }

    /// The variables visible on the host. The stored state is left as it is.
    pub fn get_blended_variables(&self, table: &GroupTable) -> (r: Mapping)
        ensures
            r@ == blended_variables(self@, table@),
    {
        let above = table.ancestors_of(&self.groups, BLEND_DEPTH);
        let ghost names = text_list(above@);
        let mut blended = Mapping::new();
        let mut i: usize = 0;
        while i < above.len()
            invariant
                names == text_list(above@),
                i <= above.len(),
                blended@ == blend_groups(table@, names, i as nat),
            decreases above.len() - i,
        {
            match table.index_of(above[i].as_str()) {
                Some(at) => {
                    blended = blended.merged(&table.groups[at].variables);
                },
                None => {},
            }
            i += 1;
        }
        let mine = blended.merged(&self.variables);
        mine.merged(&self.facts)
    }

    /// The host's own variables as YAML text.
    pub fn get_variables_yaml(&self) -> (r: Result<String, String>)
        ensures
            text_result(r) == yaml_or(self@.variables, "error loading variables"@),
    {
        match self.variables.to_yaml_text() {
            Some(text) => Ok(text),
            None => Err(String::from_str("error loading variables")),
        }
    }

    /// The variables visible on the host as YAML text.
    pub fn get_blended_variables_yaml(&self, table: &GroupTable) -> (r: Result<String, String>)
        ensures
            text_result(r) == yaml_or(
                blended_variables(self@, table@),
                "error loading blended variables"@,
            ),
    {
        match self.get_blended_variables(table).to_yaml_text() {
            Some(text) => Ok(text),
            None => Err(String::from_str("error loading blended variables")),
        }
    }

    /// Merges what was discovered into the facts of the host.
    pub fn update_facts(&mut self, mapping: &Mapping)
        ensures
            final(self)@ == (HostView {
                facts: blend_entries(old(self)@.facts, mapping@, mapping@.len()),
                ..old(self)@
            }),
    {
        self.facts = self.facts.merged(mapping);
    }

    /// As `update_facts`, for a mapping that the caller gives away.
    pub fn update_facts2(&mut self, mapping: Mapping)
        ensures
            final(self)@ == (HostView {
                facts: blend_entries(old(self)@.facts, mapping@, mapping@.len()),
                ..old(self)@
            }),
    {
        self.update_facts(&mapping);
    }
}

} // verus!

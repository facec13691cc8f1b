//! The read-only deployment record handed in by the deployment store, and
//! its origin metadata: the key-value description of how the deployment was
//! produced.

use vstd::prelude::*;
use vstd::string::StringExecFns;

use crate::textutil::str_eq;

verus! {

/// One `key=value` pair of an origin group.
#[derive(Clone, Debug, PartialEq, Eq)]
pub struct OriginEntry {
    pub key: String,
    pub value: String,
}

/// One named group of origin entries.
#[derive(Clone, Debug, PartialEq, Eq)]
pub struct OriginGroup {
    pub name: String,
    pub entries: Vec<OriginEntry>,
}

/// A deployment's origin: grouped key-value metadata describing how the
/// deployment was produced.
#[derive(Clone, Debug, PartialEq, Eq)]
pub struct Origin {
    pub groups: Vec<OriginGroup>,
}

/// One deployment generation as the store reports it.
#[derive(Clone, Debug, PartialEq, Eq)]
pub struct Deployment {
    /// The state root (OS instance group) the deployment belongs to.
    pub stateroot: String,
    /// The boot preference order among all deployments; lower boots first.
    pub index: u64,
    /// Whether the deployment is staged to become the next boot target.
    pub is_staged: bool,
    /// Whether the deployment is pinned against garbage collection.
    pub is_pinned: bool,
    /// The checksum of the deployed commit.
    pub checksum: String,
    /// The monotonic serial of this deployment within its state root.
    pub deploy_serial: u64,
    /// The origin metadata, if the deployment has any.
    pub origin: Option<Origin>,
    /// The `options` line of the deployment's boot configuration, if any.
    pub bootconfig_options: Option<String>,
}

/// Store-level identity of deployments: same state root, commit and serial.
pub open spec fn same_deployment(a: Deployment, b: Deployment) -> bool {
    a.stateroot@ == b.stateroot@ && a.checksum@ == b.checksum@ && a.deploy_serial
        == b.deploy_serial
}

/// Store-level identity of deployments: same state root, commit and serial.
pub fn deployment_equal(a: &Deployment, b: &Deployment) -> (r: bool)
    ensures
        r == same_deployment(*a, *b),
{
    str_eq(a.stateroot.as_str(), b.stateroot.as_str()) && str_eq(
        a.checksum.as_str(),
        b.checksum.as_str(),
    ) && a.deploy_serial == b.deploy_serial
}

/// The first group at or after `i` named `name`, or the number of groups
/// when there is none.
pub open spec fn first_group_from(groups: Seq<OriginGroup>, name: Seq<char>, i: int) -> int
    decreases groups.len() - i,
{
    if i < groups.len() {
        if groups[i].name@ == name {
            i
        } else {
            first_group_from(groups, name, i + 1)
        }
    } else {
        i
    }
}

/// The first entry at or after `i` with key `key`, or the number of
/// entries when there is none.
pub open spec fn first_entry_from(entries: Seq<OriginEntry>, key: Seq<char>, i: int) -> int
    decreases entries.len() - i,
{
    if i < entries.len() {
        if entries[i].key@ == key {
            i
        } else {
            first_entry_from(entries, key, i + 1)
        }
    } else {
        i
    }
}

impl Origin {
    /// Whether the origin has a group of the given name.
    pub open spec fn spec_has_group(self, name: Seq<char>) -> bool {
        first_group_from(self.groups@, name, 0) < self.groups@.len()
    }

    /// The value under `group` and `key`, if both exist.
    pub open spec fn spec_value(self, group: Seq<char>, key: Seq<char>) -> Option<Seq<char>> {
        let gi = first_group_from(self.groups@, group, 0);
        if gi < self.groups@.len() {
            let entries = self.groups@[gi].entries@;
            let ei = first_entry_from(entries, key, 0);
            if ei < entries.len() {
                Some(entries[ei].value@)
            } else {
                None
            }
        } else {
            None
        }
    }

    /// Whether the origin has a group of the given name.
    pub fn has_group(&self, name: &str) -> (r: bool)
        ensures
            r == self.spec_has_group(name@),
    {
        let n = self.groups.len();
        let mut i: usize = 0;
        while i < n
            invariant
                n == self.groups@.len(),
                i <= n,
                first_group_from(self.groups@, name@, 0) == first_group_from(
                    self.groups@,
                    name@,
                    i as int,
                ),
            decreases n - i,
        {
            if str_eq(self.groups[i].name.as_str(), name) {
                return true;
            }
            assert(first_group_from(self.groups@, name@, i as int) == first_group_from(
                self.groups@,
                name@,
                i + 1,
            ));
            i += 1;
        }
        false
    }

    /// The value under `group` and `key`, if both exist.
    pub fn lookup(&self, group: &str, key: &str) -> (r: Option<&String>)
        ensures
            match r {
                Some(v) => self.spec_value(group@, key@) == Some(v@),
                None => self.spec_value(group@, key@) is None,
            },
    {
        let n = self.groups.len();
        let mut i: usize = 0;
        while i < n
            invariant
                n == self.groups@.len(),
                i <= n,
                first_group_from(self.groups@, group@, 0) == first_group_from(
                    self.groups@,
                    group@,
                    i as int,
                ),
            decreases n - i,
        {
            if str_eq(self.groups[i].name.as_str(), group) {
                assert(first_group_from(self.groups@, group@, i as int) == i);
                let entries = &self.groups[i].entries;
                let m = entries.len();
                let mut j: usize = 0;
                while j < m
                    invariant
                        i < self.groups@.len(),
                        first_group_from(self.groups@, group@, 0) == i,
                        entries@ == self.groups@[i as int].entries@,
                        m == entries@.len(),
                        j <= m,
                        first_entry_from(entries@, key@, 0) == first_entry_from(
                            entries@,
                            key@,
                            j as int,
                        ),
                    decreases m - j,
                {
                    if str_eq(entries[j].key.as_str(), key) {
                        assert(first_entry_from(entries@, key@, j as int) == j);
                        return Some(&entries[j].value);
                    }
                    assert(first_entry_from(entries@, key@, j as int) == first_entry_from(
                        entries@,
                        key@,
                        j + 1,
                    ));
                    j += 1;
                }
                assert(first_entry_from(entries@, key@, m as int) == m);
                return None;
            }
            assert(first_group_from(self.groups@, group@, i as int) == first_group_from(
                self.groups@,
                group@,
                i + 1,
            ));
            i += 1;
        }
        None
    }
}

} // verus!

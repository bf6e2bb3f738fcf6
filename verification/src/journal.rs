//! Change journal, activity log and data paths: the parts that are not file
//! access (which the host performs).

use vstd::prelude::*;
use crate::text::{copy_string, push_str};
use crate::types::{count_failed, count_skipped, count_succeeded, GroupResult, TweakResult};

verus! {

/// Where change sets are recorded.
pub struct Journal {
    pub dir: String,
}

impl Journal {
    pub fn new(dir: String) -> (j: Journal)
        ensures
            j.dir@ == dir@,
    {
        Journal { dir }
    }
}

/// The counts a change-set summary shows: applied, failed and skipped results.
pub fn summary_counts(results: Vec<TweakResult>) -> (r: (Vec<TweakResult>, usize, usize, usize))
    ensures
        r.0 == results,
        r.1 == count_succeeded(results@),
        r.2 == count_failed(results@),
        r.3 == count_skipped(results@),
{
    let g = GroupResult { label: String::new(), results, restore_point_created: false };
    let a = g.success_count();
    let f = g.failed_count();
    let s = g.skipped_count();
    (g.results, a, f, s)
}

// ---------------------------------------------------------------- listing order

/// Record `a` is listed before record `b`: it is newer, or as new and earlier
/// in the directory listing.
pub open spec fn listed_before(stamps: Seq<i128>, a: int, b: int) -> bool {
    stamps[a] > stamps[b] || (stamps[a] == stamps[b] && a < b)
}

/// `order` lists each of the `stamps@.len()` records once, newest first, and
/// records of the same time in their original order.
pub open spec fn newest_first_spec(stamps: Seq<i128>, order: Seq<usize>) -> bool {
    &&& order.len() == stamps.len()
    &&& forall|k: int| 0 <= k < order.len() ==> order[k] < stamps.len()
    &&& forall|a: int, b: int| 0 <= a < b < order.len() ==> order[a] != order[b]
    &&& forall|a: int, b: int| 0 <= a < b < order.len() ==> listed_before(stamps, order[a] as int, order[b] as int)
}

/// The order in which stored records (backups, change sets) are listed, given
/// their creation times: newest first, ties in their original order.
pub fn newest_first(stamps: &Vec<i128>) -> (order: Vec<usize>)
    ensures
        newest_first_spec(stamps@, order@),
{
    let ghost st = stamps@;
    let mut order: Vec<usize> = Vec::new();
    let mut i: usize = 0;
    while i < stamps.len()
        invariant
            st == stamps@,
            i <= st.len(),
            order@.len() == i,
            forall|k: int| 0 <= k < order@.len() ==> order@[k] < i,
            forall|a: int, b: int| 0 <= a < b < order@.len() ==> order@[a] != order@[b],
            forall|a: int, b: int|
                0 <= a < b < order@.len() ==> listed_before(st, order@[a] as int, order@[b] as int),
        decreases stamps.len() - i,
    {
        let key = stamps[i];
        let mut j: usize = 0;
        while j < order.len() && stamps[order[j]] >= key
            invariant
                st == stamps@,
                i < st.len(),
                key == st[i as int],
                j <= order@.len(),
                forall|k: int| 0 <= k < order@.len() ==> order@[k] < i,
                forall|k: int| 0 <= k < j ==> st[order@[k] as int] >= key,
            decreases order.len() - j,
        {
            j = j + 1;
        }
        let ghost old_order = order@;
        proof {
            assert forall|k: int| j <= k < old_order.len() implies st[old_order[k] as int] < key by {
                if k > j {
                    assert(listed_before(st, old_order[j as int] as int, old_order[k] as int));
                }
            }
        }
        order.insert(j, i);
        assert forall|a: int, b: int| 0 <= a < b < order@.len() implies listed_before(
            st,
            order@[a] as int,
            order@[b] as int,
        ) by {
            if b < j {
                assert(order@[a] == old_order[a] && order@[b] == old_order[b]);
            } else if b == j {
                assert(order@[a] == old_order[a]);
            } else if a < j {
                assert(order@[a] == old_order[a] && order@[b] == old_order[b - 1]);
            } else if a == j {
                assert(order@[b] == old_order[b - 1]);
            } else {
                assert(order@[a] == old_order[a - 1] && order@[b] == old_order[b - 1]);
            }
        }
        i = i + 1;
    }
    order
}

/// Where the activity log lives.
pub struct ActivityLog {
    pub path: String,
}

impl ActivityLog {
    pub fn new(path: String) -> (l: ActivityLog)
        ensures
            l.path@ == path@,
    {
        ActivityLog { path }
    }
}

/// `root` joined with a relative name, Windows style.
pub open spec fn join_spec(root: Seq<char>, name: Seq<char>) -> Seq<char> {
    if root.len() > 0 && (root.last() == '\\' || root.last() == '/') {
        root + name
    } else {
        root + "\\"@ + name
    }
}

fn join(root: &String, name: &str) -> (r: String)
    ensures
        r@ == join_spec(root@, name@),
{
    let c = crate::text::chars_of(root.as_str());
    let mut r = copy_string(root);
    if !(c.len() > 0 && (c[c.len() - 1] == '\\' || c[c.len() - 1] == '/')) {
        push_str(&mut r, "\\");
    }
    push_str(&mut r, name);
    r
}

/// The application's data directory and the folders and files in it.
pub struct AppPaths {
    pub root: String,
}

impl AppPaths {
    /// The backups folder.
    pub fn backups(&self) -> (p: String)
        ensures
            p@ == join_spec(self.root@, "backups"@),
    {
        join(&self.root, "backups")
    }

    /// The logs folder.
    pub fn logs(&self) -> (p: String)
        ensures
            p@ == join_spec(self.root@, "logs"@),
    {
        join(&self.root, "logs")
    }

    /// The change-set folder.
    pub fn changes(&self) -> (p: String)
        ensures
            p@ == join_spec(self.root@, "changes"@),
    {
        join(&self.root, "changes")
    }

    /// The settings file.
    pub fn settings(&self) -> (p: String)
        ensures
            p@ == join_spec(self.root@, "settings.json"@),
    {
        join(&self.root, "settings.json")
    }
}

} // verus!

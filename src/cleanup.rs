use vstd::prelude::*;

use crate::run_id::parse_u64_spec;
use crate::text::chars_of;

verus! {

/// One entry found at the leaf level `<root>/<owner>/<repository>/<entry>` of
/// the previews tree.
#[derive(Debug)]
pub struct PreviewEntry {
    /// The entry's file name.
    pub name: String,
    /// Whether the entry is a directory.
    pub is_dir: bool,
    /// Whole seconds since the entry was last modified.
    pub age_secs: u64,
}

/// Whether `name` names a preview directory: an unsigned integer.
pub open spec fn is_preview_name(name: Seq<char>) -> bool {
    parse_u64_spec(name) is Some
}

/// Whether the entry `e` is a preview directory older than `retention_secs`.
pub open spec fn is_expired(e: PreviewEntry, retention_secs: i64) -> bool {
    e.is_dir && is_preview_name(e.name@) && e.age_secs > retention_secs
}

/// The positions, in order, of the expired entries among the first `n` of `entries`.
pub open spec fn expired_indices(entries: Seq<PreviewEntry>, retention_secs: i64, n: int) -> Seq<usize>
    decreases n,
{
    if n <= 0 {
        Seq::empty()
    } else if is_expired(entries[n - 1], retention_secs) {
        expired_indices(entries, retention_secs, n - 1).push((n - 1) as usize)
    } else {
        expired_indices(entries, retention_secs, n - 1)
    }
}

/// Whether `name` names a preview directory.
pub fn is_preview_dir_name(name: &str) -> (r: bool)
    ensures
        r == is_preview_name(name@),
{
    let chars = chars_of(name);
    crate::run_id::parse_u64_chars(&chars).is_some()
}

/// Whether `entry` is to be deleted: a directory with an integer name whose
/// age exceeds the retention threshold.
pub fn is_expired_preview(entry: &PreviewEntry, retention_secs: i64) -> (r: bool)
    ensures
        r == is_expired(*entry, retention_secs),
{
    entry.is_dir && is_preview_dir_name(entry.name.as_str()) && (entry.age_secs as i128) > (retention_secs as i128)
}

/// The positions of the entries that a sweep with the given retention
/// threshold (in seconds) deletes, in the order given.
///
/// Each selected entry is a directory whose name is an unsigned integer and
/// whose age exceeds the threshold; every such entry is selected exactly once,
/// so the number selected is the number of deletions.
pub fn select_expired(entries: &Vec<PreviewEntry>, retention_secs: i64) -> (r: Vec<usize>)
    ensures
        r@ == expired_indices(entries@, retention_secs, entries@.len() as int),
        forall|k: int| 0 <= k < r@.len() ==> r@[k] < entries@.len() && is_expired(
            entries@[r@[k] as int],
            retention_secs,
        ),
        forall|i: int|
            0 <= i < entries@.len() && is_expired(#[trigger] entries@[i], retention_secs) ==> r@.contains(
                i as usize,
            ),
        forall|j: int, k: int| 0 <= j < k < r@.len() ==> r@[j] < r@[k],
{
    let mut r: Vec<usize> = Vec::new();
    let mut i: usize = 0;
    while i < entries.len()
        invariant
            i <= entries@.len(),
            r@ == expired_indices(entries@, retention_secs, i as int),
            forall|k: int| 0 <= k < r@.len() ==> r@[k] < i && is_expired(
                entries@[r@[k] as int],
                retention_secs,
            ),
            forall|m: int|
                0 <= m < i && is_expired(#[trigger] entries@[m], retention_secs) ==> r@.contains(
                    m as usize,
                ),
            forall|j: int, k: int| 0 <= j < k < r@.len() ==> r@[j] < r@[k],
        decreases entries@.len() - i,
    {
        if is_expired_preview(&entries[i], retention_secs) {
            let ghost before = r@;
            r.push(i);
            proof {
                assert forall|m: int|
                    0 <= m < i + 1 && is_expired(#[trigger] entries@[m], retention_secs) implies r@.contains(
                    m as usize,
                ) by {
                    if m < i {
                        let k = choose|k: int| 0 <= k < before.len() && before[k] == m as usize;
                        assert(r@[k] == m as usize);
                    } else {
                        assert(r@[before.len() as int] == m as usize);
                    }
                }
            }
        }
        i = i + 1;
    }
    r
}

} // verus!

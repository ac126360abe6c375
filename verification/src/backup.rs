//! Dated snapshots of the document: their names, which of them to keep, and
//! which of them to recover from.
//!
//! A snapshot is a copy of the document's file, named after the calendar
//! date on which it was made. A name holds its date as `YYYY-MM-DD`, so the
//! names sort as the dates do, and the newest snapshot has the name that
//! sorts last.

use crate::document::AppData;
use crate::text::{
    begins_with, comes_before, has_prefix, lemma_sorts_before_irreflexive,
    lemma_sorts_before_total, lemma_sorts_before_transitive, same_text, text_before,
};
use vstd::prelude::*;
use vstd::seq_lib::*;
use vstd::string::*;
use vstd::utf8::*;

verus! {

/// The number of snapshots that pruning leaves.
pub const KEPT_BACKUPS: usize = 7;

/// The name of the snapshot made on `date`.
pub open spec fn backup_name(date: Seq<char>) -> Seq<char> {
    "data.backup."@ + date + ".json"@
}

/// The name is that of a snapshot.
pub open spec fn is_backup(name: Seq<char>) -> bool {
    begins_with(name, "data.backup."@)
}

/// The name of the snapshot made on `date`, a calendar date `YYYY-MM-DD`.
pub fn backup_file_name(date: &str) -> (name: String)
    ensures
        name@ == backup_name(date@),
{
    let mut name = "data.backup.".to_owned();
    name.append(date);
    name.append(".json");
    name
}

/// Whether the name is that of a snapshot.
pub fn is_backup_name(name: &str) -> (r: bool)
    ensures
        r == is_backup(name@),
{
    has_prefix(name, "data.backup.")
}

/// A snapshot is due: the document's file exists, and none of the names is
/// that of the snapshot of `today`.
pub open spec fn snapshot_due(primary_exists: bool, existing: Seq<String>, today: Seq<char>) -> bool {
    primary_exists && forall|i: int| 0 <= i < existing.len() ==> (#[trigger] existing[i])@
        != backup_name(today)
}

/// The name of the snapshot to make now, if one is to be made: `today`'s,
/// where the document's file exists and the snapshot of `today` does not.
/// `existing` holds the names in the directory of snapshots.
pub fn snapshot_if_needed(primary_exists: bool, existing: &Vec<String>, today: &str) -> (r: Option<
    String,
>)
    ensures
        r is Some <==> snapshot_due(primary_exists, existing@, today@),
        r matches Some(name) ==> name@ == backup_name(today@),
{
    if !primary_exists {
        return None;
    }
    let name = backup_file_name(today);
    let n: usize = existing.len();
    let mut i: usize = 0;
    while i < n
        invariant
            n == existing@.len(),
            i <= n,
            name@ == backup_name(today@),
            forall|j: int| 0 <= j < i ==> (#[trigger] existing@[j])@ != backup_name(today@),
        decreases n - i,
    {
        if same_text(existing[i].as_str(), name.as_str()) {
            return None;
        }
        i = i + 1;
    }
    Some(name)
}

/// Once the snapshot of a day is made, no other is due on that day.
pub proof fn law_one_snapshot_a_day(primary_exists: bool, existing: Seq<String>, name: String, today: Seq<char>)
    requires
        name@ == backup_name(today),
    ensures
        !snapshot_due(primary_exists, existing.push(name), today),
{
    assert(existing.push(name)[existing.len() as int] == name);
}

/// Without the document's file no snapshot is made.
pub proof fn law_no_snapshot_without_document(existing: Seq<String>, today: Seq<char>)
    ensures
        !snapshot_due(false, existing, today),
{
}

/// No name of the list sorts before a name that follows it: the newest
/// snapshot stands first.
pub open spec fn newest_first(names: Seq<String>) -> bool {
    forall|i: int, j: int|
        0 <= i < j < names.len() ==> !text_before((#[trigger] names[i])@, (#[trigger] names[j])@)
}

/// The names of snapshots among `names`, in the order of `names`.
pub open spec fn backups_among(names: Seq<String>) -> Seq<String> {
    names.filter(|name: String| is_backup(name@))
}

/// The names of the snapshots among `names`, the newest first.
pub fn backups_newest_first(names: &Vec<String>) -> (sorted: Vec<String>)
    ensures
        newest_first(sorted@),
        sorted@.to_multiset() == backups_among(names@).to_multiset(),
{
    let mut sorted: Vec<String> = Vec::new();
    let n: usize = names.len();
    let mut i: usize = 0;
    proof {
        reveal(Seq::filter);
        assert(names@.take(0) =~= Seq::<String>::empty());
    }
    while i < n
        invariant
            n == names@.len(),
            i <= n,
            newest_first(sorted@),
            sorted@.to_multiset() == backups_among(names@.take(i as int)).to_multiset(),
        decreases n - i,
    {
        let ghost seen = names@.take(i as int);
        let ghost next = names@.take(i + 1);
        proof {
            reveal(Seq::filter);
            assert(next.drop_last() =~= seen);
            assert(next.last() == names@[i as int]);
        }
        if is_backup_name(names[i].as_str()) {
            let name = names[i].clone();
            let m: usize = sorted.len();
            let mut k: usize = 0;
            while k < m && !comes_before(sorted[k].as_str(), name.as_str())
                invariant
                    m == sorted@.len(),
                    k <= m,
                    forall|j: int| 0 <= j < k ==> !text_before((#[trigger] sorted@[j])@, name@),
                decreases m - k,
            {
                k = k + 1;
            }
            let ghost before = sorted@;
            sorted.insert(k, name);
            proof {
                to_multiset_insert(before, k as int, name);
                to_multiset_build(backups_among(seen), name);
                assert(backups_among(next) == backups_among(seen).push(name));
                assert forall|p: int, q: int| 0 <= p < q < sorted@.len() implies !text_before(
                    (#[trigger] sorted@[p])@,
                    (#[trigger] sorted@[q])@,
                ) by {
                    if q == k {
                        assert(sorted@[p] == before[p]);
                    } else if p == k {
                        assert(sorted@[q] == before[q - 1]);
                        let first = encode_utf8(before[k as int]@);
                        let new = encode_utf8(name@);
                        let other = encode_utf8(before[q - 1]@);
                        assert(text_before(before[k as int]@, name@));
                        if text_before(name@, before[q - 1]@) {
                            lemma_sorts_before_transitive(first, new, other);
                            lemma_sorts_before_irreflexive(first);
                            if k < q - 1 {
                                assert(!text_before(before[k as int]@, before[q - 1]@));
                            }
                        }
                    } else {
                        let old_p = if p < k {
                            p
                        } else {
                            p - 1
                        };
                        let old_q = if q < k {
                            q
                        } else {
                            q - 1
                        };
                        assert(sorted@[p] == before[old_p]);
                        assert(sorted@[q] == before[old_q]);
                    }
                }
            }
        } else {
            assert(backups_among(next) == backups_among(seen));
        }
        i = i + 1;
    }
    assert(names@.take(n as int) =~= names@);
    sorted
}

/// The snapshots to keep and those to remove.
#[derive(Debug, Clone, PartialEq, Eq)]
pub struct Retention {
    pub keep: Vec<String>,
    pub remove: Vec<String>,
}

/// Which snapshots stay and which go: the seven newest stay. `names` holds
/// the names in the directory of snapshots, in any order; names of other
/// files are passed over.
pub fn prune_old_backups(names: &Vec<String>) -> (plan: Retention)
    ensures
        newest_first(plan.keep@ + plan.remove@),
        (plan.keep@ + plan.remove@).to_multiset() == backups_among(names@).to_multiset(),
        plan.keep@.len() == if backups_among(names@).len() <= KEPT_BACKUPS {
            backups_among(names@).len()
        } else {
            KEPT_BACKUPS as nat
        },
{
    let mut keep = backups_newest_first(names);
    proof {
        keep@.to_multiset_ensures();
        backups_among(names@).to_multiset_ensures();
    }
    let ghost sorted = keep@;
    let remove = if keep.len() > KEPT_BACKUPS {
        keep.split_off(KEPT_BACKUPS)
    } else {
        Vec::new()
    };
    assert(keep@ + remove@ =~= sorted);
    Retention { keep, remove }
}

/// Pruning keeps the newest: no snapshot that stays is older than one that goes.
pub proof fn law_pruning_keeps_the_newest(keep: Seq<String>, remove: Seq<String>)
    requires
        newest_first(keep + remove),
    ensures
        forall|i: int, j: int|
            0 <= i < keep.len() && 0 <= j < remove.len() ==> !text_before(
                (#[trigger] keep[i])@,
                (#[trigger] remove[j])@,
            ),
{
    let all = keep + remove;
    assert forall|i: int, j: int| 0 <= i < keep.len() && 0 <= j < remove.len() implies !text_before(
        (#[trigger] keep[i])@,
        (#[trigger] remove[j])@,
    ) by {
        assert(all[i] == keep[i]);
        assert(all[keep.len() + j] == remove[j]);
    }
}

/// One snapshot as it was found: its name, and the document in it where the
/// file could be read and held a document.
#[derive(Debug, Clone, PartialEq, Eq)]
pub struct BackupAttempt {
    pub name: String,
    pub parsed: Option<AppData>,
}

/// The snapshot can be recovered from.
pub open spec fn usable(attempt: BackupAttempt) -> bool {
    is_backup(attempt.name@) && attempt.parsed is Some
}

/// The snapshot at `i` is the newest that can be recovered from, and the
/// first such in the list.
pub open spec fn newest_usable(attempts: Seq<BackupAttempt>, i: int) -> bool {
    &&& 0 <= i < attempts.len()
    &&& usable(attempts[i])
    &&& forall|j: int|
        0 <= j < attempts.len() && usable(#[trigger] attempts[j]) ==> !text_before(
            attempts[i].name@,
            attempts[j].name@,
        )
    &&& forall|j: int|
        0 <= j < i && usable(#[trigger] attempts[j]) ==> text_before(
            attempts[j].name@,
            attempts[i].name@,
        )
}

/// Where in the list the newest snapshot stands that can be recovered from.
pub fn newest_parseable(attempts: &Vec<BackupAttempt>) -> (r: Option<usize>)
    ensures
        r is None <==> forall|j: int| 0 <= j < attempts@.len() ==> !usable(#[trigger] attempts@[j]),
        r matches Some(i) ==> newest_usable(attempts@, i as int),
{
    let n: usize = attempts.len();
    let mut best: Option<usize> = None;
    let mut i: usize = 0;
    while i < n
        invariant
            n == attempts@.len(),
            i <= n,
            best is None <==> forall|j: int| 0 <= j < i ==> !usable(#[trigger] attempts@[j]),
            best matches Some(b) ==> b < i && newest_usable(attempts@.take(i as int), b as int),
        decreases n - i,
    {
        let ghost seen = attempts@.take(i as int);
        let ghost next = attempts@.take(i + 1);
        let attempt = &attempts[i];
        let is_usable: bool = attempt.parsed.is_some() && is_backup_name(attempt.name.as_str());
        match best {
            None => {
                if is_usable {
                    best = Some(i);
                    assert(newest_usable(next, i as int)) by {
                        lemma_sorts_before_irreflexive(encode_utf8(attempt.name@));
                        assert forall|j: int| 0 <= j < next.len() && usable(#[trigger] next[j])
                            implies j == i by {
                            assert(next[j] == attempts@[j]);
                        }
                    }
                }
            },
            Some(b) => {
                let newer: bool = is_usable && comes_before(
                    attempts[b].name.as_str(),
                    attempt.name.as_str(),
                );
                proof {
                    assert forall|j: int| 0 <= j < seen.len() implies #[trigger] next[j]
                        == seen[j] by {}
                    assert(next[i as int] == attempts@[i as int]);
                    let held = encode_utf8(attempts@[b as int].name@);
                    let new = encode_utf8(attempt.name@);
                    if newer {
                        lemma_sorts_before_irreflexive(new);
                        assert forall|j: int|
                            0 <= j < next.len() && usable(#[trigger] next[j]) implies !text_before(
                            next[i as int].name@,
                            next[j].name@,
                        ) by {
                            if j < i {
                                assert(usable(seen[j]));
                                let other = encode_utf8(seen[j].name@);
                                if text_before(attempt.name@, seen[j].name@) {
                                    lemma_sorts_before_transitive(held, new, other);
                                }
                            }
                        }
                        assert forall|j: int| 0 <= j < i && usable(#[trigger] next[j]) implies text_before(
                            next[j].name@,
                            next[i as int].name@,
                        ) by {
                            assert(usable(seen[j]));
                            let other = encode_utf8(seen[j].name@);
                            lemma_sorts_before_total(other, held);
                            if other == held {
                            } else if j != b {
                                lemma_sorts_before_transitive(other, held, new);
                            }
                        }
                        assert(newest_usable(next, i as int));
                    } else {
                        assert forall|j: int|
                            0 <= j < next.len() && usable(#[trigger] next[j]) implies !text_before(
                            next[b as int].name@,
                            next[j].name@,
                        ) by {
                            if j < i {
                                assert(usable(seen[j]));
                            }
                        }
                        assert forall|j: int| 0 <= j < b && usable(#[trigger] next[j]) implies text_before(
                            next[j].name@,
                            next[b as int].name@,
                        ) by {
                            assert(usable(seen[j]));
                        }
                        assert(newest_usable(next, b as int));
                    }
                }
                if newer {
                    best = Some(i);
                }
            },
        }
        i = i + 1;
    }
    assert(attempts@.take(n as int) =~= attempts@);
    best
}

/// The document of the newest snapshot that holds one, and nothing where no
/// snapshot does. A snapshot that could not be read or holds no document is
/// passed over, however new it is.
pub fn recover(attempts: Vec<BackupAttempt>) -> (r: Option<AppData>)
    ensures
        r is None <==> forall|j: int| 0 <= j < attempts@.len() ==> !usable(#[trigger] attempts@[j]),
        r matches Some(data) ==> exists|i: int|
            newest_usable(attempts@, i) && attempts@[i].parsed == Some(data),
{
    match newest_parseable(&attempts) {
        None => None,
        Some(i) => {
            let mut attempts = attempts;
            let ghost found = attempts@;
            let chosen = attempts.swap_remove(i);
            assert(newest_usable(found, i as int) && found[i as int].parsed == chosen.parsed);
            chosen.parsed
        },
    }
}

} // verus!

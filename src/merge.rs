//! Merging remote changes into local records, and the laws the merge obeys.

use vstd::prelude::*;
use vstd::string::StringExecFns;

use crate::record::Record;

verus! {

/// Every record carries an id.
pub open spec fn all_have_ids(records: Seq<Record>) -> bool {
    forall|i: int| 0 <= i < records.len() ==> (#[trigger] records[i]).spec_id() is Some
}

/// No two records share an id.
pub open spec fn distinct_ids(records: Seq<Record>) -> bool {
    forall|i: int, j: int|
        0 <= i < j < records.len() ==> #[trigger] records[i].key() != #[trigger] records[j].key()
}

/// The records are exactly the values of `m`, each under its own id, once each.
pub open spec fn lists_map(records: Seq<Record>, m: Map<Seq<char>, Record>) -> bool {
    &&& all_have_ids(records)
    &&& distinct_ids(records)
    &&& forall|i: int|
        0 <= i < records.len() ==> #[trigger] m.contains_key(records[i].key()) && m[records[i].key()]
            == records[i]
    &&& forall|k: Seq<char>|
        #[trigger] m.contains_key(k) ==> exists|i: int|
            0 <= i < records.len() && records[i].key() == k
}

/// Records indexed by id; of two with one id, the later one stays.
pub open spec fn index_by_id(records: Seq<Record>) -> Map<Seq<char>, Record>
    decreases records.len(),
{
    if records.len() == 0 {
        Map::empty()
    } else {
        index_by_id(records.drop_last()).insert(records.last().key(), records.last())
    }
}

/// One remote change: a tombstone removes its id, other content replaces it.
pub open spec fn apply_change(m: Map<Seq<char>, Record>, change: Record) -> Map<Seq<char>, Record> {
    if change.spec_deleted() {
        m.remove(change.key())
    } else {
        m.insert(change.key(), change)
    }
}

/// Remote changes applied from the last one received to the first.
pub open spec fn apply_changes(m: Map<Seq<char>, Record>, changes: Seq<Record>) -> Map<
    Seq<char>,
    Record,
>
    decreases changes.len(),
{
    if changes.len() == 0 {
        m
    } else {
        apply_change(apply_changes(m, changes.subrange(1, changes.len() as int)), changes[0])
    }
}

/// The record set that results from merging `changes` into `local`, by id.
pub open spec fn merged(local: Seq<Record>, changes: Seq<Record>) -> Map<Seq<char>, Record> {
    apply_changes(index_by_id(local), changes)
}

fn find_by_id(records: &Vec<Record>, id: &String) -> (r: Option<usize>)
    requires
        all_have_ids(records@),
    ensures
        match r {
            Some(i) => i < records.len() && records[i as int].key() == id@,
            None => forall|i: int| 0 <= i < records.len() ==> records[i].key() != id@,
        },
{
    let mut i: usize = 0;
    while i < records.len()
        invariant
            i <= records.len(),
            all_have_ids(records@),
            forall|j: int| 0 <= j < i ==> records[j].key() != id@,
        decreases records.len() - i,
    {
        if records[i].has_id(id) {
            return Some(i);
        }
        i = i + 1;
    }
    None
}

fn upsert(records: &mut Vec<Record>, rec: Record, Ghost(m): Ghost<Map<Seq<char>, Record>>)
    requires
        lists_map(old(records)@, m),
        rec.spec_id() is Some,
    ensures
        lists_map(final(records)@, m.insert(rec.key(), rec)),
{
    let id = String::from_str(rec.id());
    let ghost before = records@;
    let ghost m2 = m.insert(rec.key(), rec);
    match find_by_id(records, &id) {
        Some(i) => {
            records.set(i, rec);
            assert forall|a: int, b: int| 0 <= a < b < records.len() implies #[trigger] records[a].key()
                != #[trigger] records[b].key() by {
                assert(before[a].key() != before[b].key());
            }
            assert forall|k: Seq<char>| #[trigger] m2.contains_key(k) implies exists|j: int|
                0 <= j < records.len() && records[j].key() == k by {
                if k != rec.key() {
                    let j = choose|j: int| 0 <= j < before.len() && before[j].key() == k;
                    assert(records[j].key() == k);
                } else {
                    assert(records[i as int].key() == k);
                }
            }
            assert forall|j: int| 0 <= j < records.len() implies #[trigger] m2.contains_key(
                records[j].key(),
            ) && m2[records[j].key()] == records[j] by {
                if j != i {
                    assert(before[j].key() != before[i as int].key() || j == i);
                    assert(m.contains_key(before[j].key()));
                }
            }
        },
        None => {
            records.push(rec);
            let ghost n = before.len() as int;
            assert forall|a: int, b: int| 0 <= a < b < records.len() implies #[trigger] records[a].key()
                != #[trigger] records[b].key() by {
                if b < n {
                    assert(before[a].key() != before[b].key());
                } else {
                    assert(before[a].key() != id@);
                }
            }
            assert forall|k: Seq<char>| #[trigger] m2.contains_key(k) implies exists|j: int|
                0 <= j < records.len() && records[j].key() == k by {
                if k != rec.key() {
                    let j = choose|j: int| 0 <= j < before.len() && before[j].key() == k;
                    assert(records[j].key() == k);
                } else {
                    assert(records[n].key() == k);
                }
            }
            assert forall|j: int| 0 <= j < records.len() implies #[trigger] m2.contains_key(
                records[j].key(),
            ) && m2[records[j].key()] == records[j] by {
                if j < n {
                    assert(m.contains_key(before[j].key()));
                }
            }
        },
    }
}

fn remove_id(records: &mut Vec<Record>, id: &String, Ghost(m): Ghost<Map<Seq<char>, Record>>)
    requires
        lists_map(old(records)@, m),
    ensures
        lists_map(final(records)@, m.remove(id@)),
{
    let ghost before = records@;
    let ghost m2 = m.remove(id@);
    match find_by_id(records, id) {
        Some(i) => {
            records.remove(i);
            assert forall|a: int| 0 <= a < records.len() implies #[trigger] records[a] == (if a < i {
                before[a]
            } else {
                before[a + 1]
            }) by {}
            assert forall|a: int, b: int| 0 <= a < b < records.len() implies #[trigger] records[a].key()
                != #[trigger] records[b].key() by {
                let a0 = if a < i { a } else { a + 1 };
                let b0 = if b < i { b } else { b + 1 };
                assert(records[a] == before[a0]);
                assert(records[b] == before[b0]);
                assert(before[a0].key() != before[b0].key());
            }
            assert forall|k: Seq<char>| #[trigger] m2.contains_key(k) implies exists|j: int|
                0 <= j < records.len() && records[j].key() == k by {
                let j = choose|j: int| 0 <= j < before.len() && before[j].key() == k;
                assert(j != i);
                let j2 = if j < i { j } else { j - 1 };
                assert(records[j2] == before[j]);
            }
            assert forall|j: int| 0 <= j < records.len() implies #[trigger] m2.contains_key(
                records[j].key(),
            ) && m2[records[j].key()] == records[j] by {
                let j0 = if j < i { j } else { j + 1 };
                assert(records[j] == before[j0]);
                assert(before[j0].key() != before[i as int].key());
                assert(m.contains_key(before[j0].key()));
            }
        },
        None => {
            assert(m2 =~= m) by {
                if m.contains_key(id@) {
                    let j = choose|j: int| 0 <= j < before.len() && before[j].key() == id@;
                }
            }
        },
    }
}

/// Merges remote changes into local records.
///
/// Local records are indexed by id, the later of two with one id winning. The
/// changes are then applied from the last received to the first: a tombstone
/// removes its id, any other entry replaces the record with its id. The result
/// holds each remaining record once; its order carries no meaning.
pub fn merge_changes(local_records: Vec<Record>, remote_changes: Vec<Record>) -> (r: Vec<Record>)
    requires
        all_have_ids(local_records@),
        all_have_ids(remote_changes@),
    ensures
        lists_map(r@, merged(local_records@, remote_changes@)),
{
    let ghost local = local_records@;
    let ghost changes = remote_changes@;
    let mut local_records = local_records;
    let mut remote_changes = remote_changes;
    let mut by_id: Vec<Record> = Vec::new();
    let mut i: usize = 0;
    assert(index_by_id(local.subrange(0, 0)) =~= Map::empty());
    let total: usize = local_records.len();
    while i < total
        invariant
            i + local_records.len() == local.len(),
            total == local.len(),
            local_records@ == local.subrange(i as int, local.len() as int),
            all_have_ids(local),
            lists_map(by_id@, index_by_id(local.subrange(0, i as int))),
        decreases total - i,
    {
        let rec = local_records.remove(0);
        assert(rec == local[i as int]);
        assert(local.subrange(0, i + 1).drop_last() =~= local.subrange(0, i as int));
        upsert(&mut by_id, rec, Ghost(index_by_id(local.subrange(0, i as int))));
        i = i + 1;
        assert(local_records@ =~= local.subrange(i as int, local.len() as int));
    }
    assert(local.subrange(0, i as int) =~= local);
    let ghost base = index_by_id(local);
    assert(changes.subrange(changes.len() as int, changes.len() as int) =~= Seq::<Record>::empty());
    while remote_changes.len() > 0
        invariant
            remote_changes@ == changes.subrange(0, remote_changes.len() as int),
            remote_changes.len() <= changes.len(),
            all_have_ids(changes),
            lists_map(
                by_id@,
                apply_changes(base, changes.subrange(remote_changes.len() as int, changes.len() as int)),
            ),
        decreases remote_changes.len(),
    {
        let ghost k = (remote_changes.len() - 1) as int;
        let ghost m = apply_changes(base, changes.subrange(k + 1, changes.len() as int));
        let change = remote_changes.pop().unwrap();
        assert(change == changes[k]);
        assert(changes.subrange(k, changes.len() as int).subrange(1, changes.len() - k)
            =~= changes.subrange(k + 1, changes.len() as int));
        if change.deleted() {
            let id = String::from_str(change.id());
            remove_id(&mut by_id, &id, Ghost(m));
        } else {
            upsert(&mut by_id, change, Ghost(m));
        }
        assert(remote_changes@ =~= changes.subrange(0, remote_changes.len() as int));
    }
    assert(changes.subrange(0, changes.len() as int) =~= changes);
    by_id
}

} // verus!

verus! {

/// The content entries of `changes`, by id, the earliest one winning.
pub open spec fn content_of(changes: Seq<Record>) -> Map<Seq<char>, Record>
    decreases changes.len(),
{
    if changes.len() == 0 {
        Map::empty()
    } else {
        let rest = content_of(changes.subrange(1, changes.len() as int));
        if changes[0].spec_deleted() {
            rest
        } else {
            rest.insert(changes[0].key(), changes[0])
        }
    }
}

/// `i` is the earliest position of `changes` whose entry has id `x`.
pub open spec fn first_entry_for(changes: Seq<Record>, x: Seq<char>, i: int) -> bool {
    &&& 0 <= i < changes.len()
    &&& changes[i].key() == x
    &&& forall|j: int| 0 <= j < i ==> changes[j].key() != x
}

proof fn index_keys(records: Seq<Record>, k: Seq<char>)
    ensures
        index_by_id(records).contains_key(k) <==> exists|j: int|
            0 <= j < records.len() && records[j].key() == k,
    decreases records.len(),
{
    if records.len() > 0 {
        let init = records.drop_last();
        index_keys(init, k);
        if index_by_id(init).contains_key(k) {
            let j = choose|j: int| 0 <= j < init.len() && init[j].key() == k;
            assert(records[j].key() == k);
        }
        if exists|j: int| 0 <= j < records.len() && records[j].key() == k {
            let j = choose|j: int| 0 <= j < records.len() && records[j].key() == k;
            if j < records.len() - 1 {
                assert(init[j].key() == k);
            }
        }
    }
}

proof fn index_of_listing(records: Seq<Record>, m: Map<Seq<char>, Record>)
    requires
        lists_map(records, m),
    ensures
        index_by_id(records) == m,
    decreases records.len(),
{
    if records.len() == 0 {
        assert(m =~= Map::empty()) by {
            assert forall|k: Seq<char>| !m.contains_key(k) by {
                if m.contains_key(k) {
                    let i = choose|i: int| 0 <= i < records.len() && records[i].key() == k;
                }
            }
        }
    } else {
        let n = records.len() - 1;
        let init = records.drop_last();
        let last = records.last();
        let m0 = m.remove(last.key());
        assert(m.contains_key(records[n].key()));
        assert forall|i: int| 0 <= i < init.len() implies #[trigger] m0.contains_key(init[i].key())
            && m0[init[i].key()] == init[i] by {
            assert(records[i].key() != records[n].key());
            assert(m.contains_key(records[i].key()));
        }
        assert forall|k: Seq<char>| #[trigger] m0.contains_key(k) implies exists|i: int|
            0 <= i < init.len() && init[i].key() == k by {
            let i = choose|i: int| 0 <= i < records.len() && records[i].key() == k;
            assert(init[i].key() == k);
        }
        assert forall|a: int, b: int| 0 <= a < b < init.len() implies #[trigger] init[a].key()
            != #[trigger] init[b].key() by {
            assert(records[a].key() != records[b].key());
        }
        index_of_listing(init, m0);
        assert(m0.insert(last.key(), last) =~= m);
    }
}

proof fn apply_at_key(m: Map<Seq<char>, Record>, changes: Seq<Record>, x: Seq<char>)
    ensures
        (forall|j: int| 0 <= j < changes.len() ==> changes[j].key() != x) ==> (apply_changes(
            m,
            changes,
        ).contains_key(x) == m.contains_key(x) && (m.contains_key(x) ==> apply_changes(
            m,
            changes,
        )[x] == m[x])),
        forall|i: int|
            first_entry_for(changes, x, i) ==> (apply_changes(m, changes).contains_key(x)
                == !changes[i].spec_deleted() && (!changes[i].spec_deleted() ==> apply_changes(
                m,
                changes,
            )[x] == changes[i])),
    decreases changes.len(),
{
    if changes.len() > 0 {
        let rest = changes.subrange(1, changes.len() as int);
        apply_at_key(m, rest, x);
        if changes[0].key() != x {
            if forall|j: int| 0 <= j < changes.len() ==> changes[j].key() != x {
                assert forall|j: int| 0 <= j < rest.len() implies rest[j].key() != x by {
                    assert(changes[j + 1].key() != x);
                }
            }
            assert forall|i: int| first_entry_for(changes, x, i) implies first_entry_for(
                rest,
                x,
                i - 1,
            ) by {
                assert forall|j: int| 0 <= j < i - 1 implies rest[j].key() != x by {
                    assert(changes[j + 1].key() != x);
                }
            }
        } else {
            assert forall|i: int| first_entry_for(changes, x, i) implies i == 0 by {
                if i > 0 {
                    assert(changes[0].key() != x);
                }
            }
        }
    }
}

/// Where no id of the remote changes occurs among the local records, nor twice
/// among the changes, the merge keeps every local record and adds every content
/// entry; tombstones change nothing.
pub proof fn merge_disjoint(local: Seq<Record>, changes: Seq<Record>)
    requires
        all_have_ids(local),
        all_have_ids(changes),
        distinct_ids(changes),
        forall|i: int, j: int|
            0 <= i < local.len() && 0 <= j < changes.len() ==> #[trigger] local[i].key()
                != #[trigger] changes[j].key(),
    ensures
        merged(local, changes) == index_by_id(local).union_prefer_right(content_of(changes)),
    decreases changes.len(),
{
    if changes.len() > 0 {
        let rest = changes.subrange(1, changes.len() as int);
        assert forall|a: int, b: int| 0 <= a < b < rest.len() implies #[trigger] rest[a].key()
            != #[trigger] rest[b].key() by {
            assert(changes[a + 1].key() != changes[b + 1].key());
        }
        assert forall|i: int, j: int|
            0 <= i < local.len() && 0 <= j < rest.len() implies #[trigger] local[i].key()
            != #[trigger] rest[j].key() by {
            assert(local[i].key() != changes[j + 1].key());
        }
        merge_disjoint(local, rest);
        let k0 = changes[0].key();
        index_keys(local, k0);
        assert(!index_by_id(local).contains_key(k0)) by {
            if index_by_id(local).contains_key(k0) {
                let j = choose|j: int| 0 <= j < local.len() && local[j].key() == k0;
                assert(local[j].key() != changes[0].key());
            }
        }
        content_keys(rest, k0);
        assert(!content_of(rest).contains_key(k0)) by {
            if content_of(rest).contains_key(k0) {
                let j = choose|j: int| 0 <= j < rest.len() && rest[j].key() == k0;
                assert(changes[0].key() != changes[j + 1].key());
            }
        }
        let lhs = merged(local, changes);
        let rhs = index_by_id(local).union_prefer_right(content_of(changes));
        assert(lhs =~= rhs);
    }
}

proof fn content_keys(changes: Seq<Record>, k: Seq<char>)
    ensures
        content_of(changes).contains_key(k) ==> exists|j: int|
            0 <= j < changes.len() && changes[j].key() == k,
    decreases changes.len(),
{
    if changes.len() > 0 {
        let rest = changes.subrange(1, changes.len() as int);
        content_keys(rest, k);
        if content_of(rest).contains_key(k) {
            let j = choose|j: int| 0 <= j < rest.len() && rest[j].key() == k;
            assert(changes[j + 1].key() == k);
        }
        if !changes[0].spec_deleted() && changes[0].key() == k {
            assert(changes[0].key() == k);
        }
    }
}

/// A local record whose id has a tombstone as its earliest entry among the
/// remote changes is absent after the merge.
pub proof fn merge_removes_tombstoned(local: Seq<Record>, changes: Seq<Record>, x: Seq<char>, i: int)
    requires
        all_have_ids(local),
        all_have_ids(changes),
        first_entry_for(changes, x, i),
        changes[i].spec_deleted(),
    ensures
        !merged(local, changes).contains_key(x),
{
    apply_at_key(index_by_id(local), changes, x);
}

/// Merging the same remote changes a second time, into the result of the first
/// merge, changes nothing.
pub proof fn merge_idempotent(local: Seq<Record>, changes: Seq<Record>, once: Seq<Record>)
    requires
        all_have_ids(local),
        all_have_ids(changes),
        lists_map(once, merged(local, changes)),
    ensures
        merged(once, changes) == merged(local, changes),
{
    let m = merged(local, changes);
    index_of_listing(once, m);
    let twice = apply_changes(m, changes);
    assert forall|x: Seq<char>| #[trigger] twice.contains_key(x) == m.contains_key(x) && (
    twice.contains_key(x) ==> twice[x] == m[x]) by {
        apply_at_key(m, changes, x);
        apply_at_key(index_by_id(local), changes, x);
        if exists|i: int| first_entry_for(changes, x, i) {
            let i = choose|i: int| first_entry_for(changes, x, i);
        } else {
            assert forall|j: int| 0 <= j < changes.len() implies changes[j].key() != x by {
                if changes[j].key() == x {
                    first_position(changes, x, j);
                }
            }
        }
    }
    assert(twice =~= m);
}

proof fn first_position(changes: Seq<Record>, x: Seq<char>, j: int)
    requires
        0 <= j < changes.len(),
        changes[j].key() == x,
    ensures
        exists|i: int| first_entry_for(changes, x, i),
    decreases j,
{
    if exists|k: int| 0 <= k < j && changes[k].key() == x {
        let k = choose|k: int| 0 <= k < j && changes[k].key() == x;
        first_position(changes, x, k);
    } else {
        assert(first_entry_for(changes, x, j));
    }
}

} // verus!

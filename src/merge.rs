use vstd::prelude::*;
use crate::framework::Framework;

verus! {

/// Some descriptor of `s` is called `n`.
pub open spec fn has_name(s: Seq<Framework>, n: Seq<char>) -> bool {
    exists|i: int| 0 <= i < s.len() && (#[trigger] s[i]).name@ == n
}

/// `local` with each descriptor of `remote`, taken in order, appended when no
/// descriptor already present carries its name.
pub open spec fn merged(local: Seq<Framework>, remote: Seq<Framework>) -> Seq<Framework>
    decreases remote.len(),
{
    if remote.len() == 0 {
        local
    } else {
        let prev = merged(local, remote.drop_last());
        if has_name(prev, remote.last().name@) {
            prev
        } else {
            prev.push(remote.last())
        }
    }
}

/// Whether some descriptor of `frameworks` is called `name`.
pub fn contains_name(frameworks: &Vec<Framework>, name: &String) -> (r: bool)
    ensures
        r == has_name(frameworks@, name@),
{
    let mut j: usize = 0;
    while j < frameworks.len()
        invariant
            j <= frameworks@.len(),
            forall|k: int| 0 <= k < j ==> (#[trigger] frameworks@[k]).name@ != name@,
        decreases frameworks@.len() - j,
    {
        if frameworks[j].name == *name {
            return true;
        }
        j += 1;
    }
    false
}

/// Appends to `local` each descriptor of `remote` whose name is not yet
/// present, in the order of `remote`, and returns the result with the number
/// of descriptors added. Descriptors already in `local` stay as they are.
pub fn merge_frameworks(local: Vec<Framework>, remote: Vec<Framework>) -> (r: (
    Vec<Framework>,
    usize,
))
    ensures
        r.0@ == merged(local@, remote@),
        r.1 == r.0@.len() - local@.len(),
        r.1 == 0 <==> r.0@ == local@,
{
    let mut result = local;
    let mut added: usize = 0;
    let mut i: usize = 0;
    while i < remote.len()
        invariant
            i <= remote@.len(),
            result@ == merged(local@, remote@.take(i as int)),
            added <= i,
            added == result@.len() - local@.len(),
        decreases remote@.len() - i,
    {
        assert(remote@.take(i as int + 1).drop_last() == remote@.take(i as int));
        if !contains_name(&result, &remote[i].name) {
            result.push(remote[i].duplicate());
            added += 1;
        }
        i += 1;
    }
    assert(remote@.take(remote@.len() as int) == remote@);
    proof {
        lemma_merge_keeps_local(local@, remote@);
        if added == 0 {
            assert(result@ == result@.take(local@.len() as int));
        }
    }
    (result, added)
}

/// Brings `remote` into `local`. The registry comes back to be saved only
/// when the merge added a descriptor, so that a merge that adds nothing
/// leaves the stored file alone. The count of descriptors added comes back
/// in either case.
pub fn update_frameworks(local: Vec<Framework>, remote: Vec<Framework>) -> (r: (
    Option<Vec<Framework>>,
    usize,
))
    ensures
        r.1 == merged(local@, remote@).len() - local@.len(),
        r.0 is Some <==> r.1 > 0,
        r.0 is None <==> merged(local@, remote@) == local@,
        r.0 matches Some(v) ==> v@ == merged(local@, remote@),
{
    let (result, added) = merge_frameworks(local, remote);
    if added > 0 {
        (Some(result), added)
    } else {
        (None, 0)
    }
}

/// Merging keeps `local` as it is, at the front of the result, and every
/// descriptor after it comes from `remote` and carries a name that no
/// descriptor of `local` has.
pub proof fn lemma_merge_keeps_local(local: Seq<Framework>, remote: Seq<Framework>)
    ensures
        merged(local, remote).len() >= local.len(),
        merged(local, remote).take(local.len() as int) == local,
        forall|k: int|
            local.len() <= k < merged(local, remote).len() ==> remote.contains(
                #[trigger] merged(local, remote)[k],
            ) && !has_name(local, merged(local, remote)[k].name@),
    decreases remote.len(),
{
    if remote.len() > 0 {
        let prev = merged(local, remote.drop_last());
        lemma_merge_keeps_local(local, remote.drop_last());
        assert forall|k: int| local.len() <= k < prev.len() implies remote.contains(
            #[trigger] prev[k],
        ) by {
            let j = choose|j: int| 0 <= j < remote.drop_last().len() && remote.drop_last()[j]
                == prev[k];
            assert(remote[j] == prev[k]);
        }
        if !has_name(prev, remote.last().name@) {
            let m = prev.push(remote.last());
            assert(m.take(local.len() as int) == prev.take(local.len() as int));
            assert(remote[remote.len() - 1] == m[prev.len() as int]);
            if has_name(local, remote.last().name@) {
                let i = choose|i: int| 0 <= i < local.len() && (#[trigger] local[i]).name@
                    == remote.last().name@;
                assert(prev[i] == local[i]);
            }
        }
    }
}

/// Growing a registry keeps every name it had.
proof fn lemma_has_name_prefix(s: Seq<Framework>, t: Seq<Framework>, n: Seq<char>)
    requires
        has_name(s, n),
        t.len() >= s.len(),
        t.take(s.len() as int) == s,
    ensures
        has_name(t, n),
{
    let i = choose|i: int| 0 <= i < s.len() && (#[trigger] s[i]).name@ == n;
    assert(t[i] == t.take(s.len() as int)[i]);
}

/// After a merge every name of `remote` is present.
proof fn lemma_merge_covers(local: Seq<Framework>, remote: Seq<Framework>)
    ensures
        forall|j: int| 0 <= j < remote.len() ==> has_name(merged(local, remote), #[trigger] remote[j].name@),
    decreases remote.len(),
{
    if remote.len() > 0 {
        let prev = merged(local, remote.drop_last());
        let m = merged(local, remote);
        lemma_merge_covers(local, remote.drop_last());
        if !has_name(prev, remote.last().name@) {
            assert(m.take(prev.len() as int) == prev);
            assert(m[prev.len() as int] == remote.last());
        }
        assert forall|j: int| 0 <= j < remote.len() implies has_name(m, #[trigger] remote[j].name@) by {
            if j < remote.len() - 1 {
                assert(remote.drop_last()[j] == remote[j]);
                if m != prev {
                    lemma_has_name_prefix(prev, m, remote[j].name@);
                }
            }
        }
    }
}

/// Merging descriptors whose names are all present changes nothing.
proof fn lemma_merge_known(local: Seq<Framework>, remote: Seq<Framework>)
    requires
        forall|j: int| 0 <= j < remote.len() ==> has_name(local, #[trigger] remote[j].name@),
    ensures
        merged(local, remote) == local,
    decreases remote.len(),
{
    if remote.len() > 0 {
        assert forall|j: int| 0 <= j < remote.drop_last().len() implies has_name(
            local,
            #[trigger] remote.drop_last()[j].name@,
        ) by {
            assert(remote.drop_last()[j] == remote[j]);
        }
        lemma_merge_known(local, remote.drop_last());
        assert(has_name(local, remote[remote.len() - 1].name@));
    }
}

/// Merging the same remote list a second time adds nothing.
pub proof fn lemma_merge_idempotent(local: Seq<Framework>, remote: Seq<Framework>)
    ensures
        merged(merged(local, remote), remote) == merged(local, remote),
{
    lemma_merge_covers(local, remote);
    lemma_merge_known(merged(local, remote), remote);
}

} // verus!

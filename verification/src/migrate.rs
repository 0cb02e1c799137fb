//! The migration runner: every script of an ordered set is applied at most
//! once, in the order of the set, and the ledger remembers which ones were.
use vstd::prelude::*;
use crate::store::Store;

verus! {

/// A schema change: its identifier and the script that performs it.
#[derive(Debug, PartialEq, Eq)]
pub struct Migration {
    pub id: String,
    pub script: String,
}

/// The identifiers of a migration set, in its order.
pub open spec fn identifiers(migrations: Seq<Migration>) -> Seq<Seq<char>> {
    Seq::new(migrations.len(), |i: int| migrations[i].id@)
}

/// Whether the script at position `i` is due: neither the ledger nor an
/// earlier position of the set names its identifier.
pub open spec fn is_due(ids: Seq<Seq<char>>, ledger: Seq<Seq<char>>, i: int) -> bool {
    &&& 0 <= i < ids.len()
    &&& !ledger.contains(ids[i])
    &&& forall|j: int| 0 <= j < i ==> ids[j] != ids[i]
}

/// Whether `run` names the position `i`.
pub open spec fn names(run: Seq<usize>, i: int) -> bool {
    exists|a: int| 0 <= a < run.len() && run[a] as int == i
}

/// Whether `run` holds exactly the due positions among the first `n`, in
/// rising order.
pub open spec fn is_run(ids: Seq<Seq<char>>, ledger: Seq<Seq<char>>, n: int, run: Seq<usize>) -> bool {
    &&& forall|a: int, b: int| 0 <= a < b < run.len() ==> run[a] < run[b]
    &&& forall|a: int| 0 <= a < run.len() ==> run[a] < n && is_due(ids, ledger, run[a] as int)
    &&& forall|i: int| 0 <= i < n && is_due(ids, ledger, i) ==> names(run, i)
}

/// The ledger once the scripts at the positions `run` have been applied.
pub open spec fn ledger_after(ids: Seq<Seq<char>>, ledger: Seq<Seq<char>>, run: Seq<usize>) -> Seq<Seq<char>> {
    ledger + Seq::new(run.len(), |k: int| ids[run[k] as int])
}

/// Every identifier has a first position in the set.
pub proof fn lemma_first_position(ids: Seq<Seq<char>>, i: int) -> (j: int)
    requires
        0 <= i < ids.len(),
    ensures
        0 <= j <= i,
        ids[j] == ids[i],
        forall|k: int| 0 <= k < j ==> ids[k] != ids[i],
    decreases i,
{
    if exists|k: int| 0 <= k < i && ids[k] == ids[i] {
        let k = choose|k: int| 0 <= k < i && ids[k] == ids[i];
        lemma_first_position(ids, k)
    } else {
        i
    }
}

/// Once the due scripts of a set have been applied, none of the set is due:
/// a second pass over the same set applies nothing.
pub proof fn lemma_nothing_due_after_run(ids: Seq<Seq<char>>, ledger: Seq<Seq<char>>, run: Seq<usize>)
    requires
        is_run(ids, ledger, ids.len() as int, run),
    ensures
        forall|i: int| !is_due(ids, ledger_after(ids, ledger, run), i),
        is_run(ids, ledger_after(ids, ledger, run), ids.len() as int, Seq::<usize>::empty()),
{
    let after = ledger_after(ids, ledger, run);
    assert forall|i: int| !is_due(ids, after, i) by {
        if 0 <= i < ids.len() {
            if ledger.contains(ids[i]) {
                let k = choose|k: int| 0 <= k < ledger.len() && ledger[k] == ids[i];
                assert(after[k] == ids[i]);
            } else {
                let j = lemma_first_position(ids, i);
                assert(is_due(ids, ledger, j));
                assert(names(run, j));
                let a = choose|a: int| 0 <= a < run.len() && run[a] as int == j;
                assert(after[ledger.len() + a] == ids[j]);
            }
            assert(after.contains(ids[i]));
        }
    }
}

/// Applies the due scripts of `migrations` to the ledger, in the order of
/// the set, and returns their positions in that order.
///
/// The caller runs the scripts at the returned positions. A script whose
/// identifier the ledger names is never returned, so a second pass over
/// the same set returns nothing and leaves the ledger as it is.
pub fn run_migration(migrations: &Vec<Migration>, store: &mut Store) -> (run: Vec<usize>)
    requires
        old(store)@.wf(),
    ensures
        final(store)@.wf(),
        is_run(identifiers(migrations@), old(store)@.ledger, migrations@.len() as int, run@),
        final(store)@ == (crate::store::StoreState {
            ledger: ledger_after(identifiers(migrations@), old(store)@.ledger, run@),
            ..old(store)@
        }),
{
    let ghost ids = identifiers(migrations@);
    let ghost ledger = old(store)@.ledger;
    let mut run: Vec<usize> = Vec::new();
    let mut i: usize = 0;
    while i < migrations.len()
        invariant
            i <= migrations.len(),
            ids == identifiers(migrations@),
            ledger == old(store)@.ledger,
            store@.wf(),
            is_run(ids, ledger, i as int, run@),
            store@ == (crate::store::StoreState { ledger: ledger_after(ids, ledger, run@), ..old(store)@ }),
        decreases migrations.len() - i,
    {
        let ghost before = store@.ledger;
        let ghost run_before = run@;
        let fresh: bool = store.record_migration(&migrations[i].id);
        proof {
            assert(ids[i as int] == migrations@[i as int].id@);
            if before.contains(ids[i as int]) {
                let k = choose|k: int| 0 <= k < before.len() && before[k] == ids[i as int];
                if k >= ledger.len() {
                    let a = k - ledger.len();
                    assert(before[k] == ids[run_before[a] as int]);
                    assert(run_before[a] < i);
                }
            } else {
                assert forall|j: int| 0 <= j < i implies ids[j] != ids[i as int] by {
                    if ids[j] == ids[i as int] {
                        let j0 = lemma_first_position(ids, j);
                        if ledger.contains(ids[j0]) {
                            let k = choose|k: int| 0 <= k < ledger.len() && ledger[k] == ids[j0];
                            assert(before[k] == ids[j0]);
                        } else {
                            assert(is_due(ids, ledger, j0));
                            assert(names(run_before, j0));
                            let a = choose|a: int| 0 <= a < run_before.len() && run_before[a] as int == j0;
                            assert(before[ledger.len() + a] == ids[j0]);
                        }
                        assert(before.contains(ids[i as int]));
                    }
                }
                if ledger.contains(ids[i as int]) {
                    let k = choose|k: int| 0 <= k < ledger.len() && ledger[k] == ids[i as int];
                    assert(before[k] == ids[i as int]);
                }
                assert(is_due(ids, ledger, i as int));
            }
        }
        if fresh {
            run.push(i);
            proof {
                assert(run@[run_before.len() as int] == i);
                assert(store@.ledger =~= ledger_after(ids, ledger, run@));
                assert forall|x: int| 0 <= x < i + 1 && is_due(ids, ledger, x) implies names(run@, x) by {
                    if x < i {
                        assert(names(run_before, x));
                        let a = choose|a: int| 0 <= a < run_before.len() && run_before[a] as int == x;
                        assert(run@[a] as int == x);
                    }
                }
            }
        }
        i += 1;
    }
    run
}

} // verus!

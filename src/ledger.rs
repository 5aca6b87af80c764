//! The contribution ledger as a sequence of `(contributor, amount)` entries,
//! at most one entry per contributor, and the facts about it that the
//! campaign relies on.

use vstd::prelude::*;

verus! {

/// No contributor has two entries.
pub open spec fn keys_unique(l: Seq<(u64, u128)>) -> bool {
    forall|i: int, j: int| 0 <= i < j < l.len() ==> l[i].0 != l[j].0
}

/// The amount recorded for `who`, zero where it has no entry.
pub open spec fn deposit_in(l: Seq<(u64, u128)>, who: u64) -> nat
    decreases l.len(),
{
    if l.len() == 0 {
        0
    } else if l.last().0 == who {
        l.last().1 as nat
    } else {
        deposit_in(l.drop_last(), who)
    }
}

/// The sum of all amounts in the ledger.
pub open spec fn ledger_total(l: Seq<(u64, u128)>) -> nat
    decreases l.len(),
{
    if l.len() == 0 {
        0
    } else {
        ledger_total(l.drop_last()) + l.last().1 as nat
    }
}

/// A contributor without an entry has nothing recorded.
pub proof fn lemma_absent(l: Seq<(u64, u128)>, who: u64)
    requires
        forall|i: int| 0 <= i < l.len() ==> l[i].0 != who,
    ensures
        deposit_in(l, who) == 0,
    decreases l.len(),
{
    if l.len() > 0 {
        lemma_absent(l.drop_last(), who);
    }
}

/// The entry of a contributor holds what is recorded for it.
pub proof fn lemma_entry(l: Seq<(u64, u128)>, i: int)
    requires
        keys_unique(l),
        0 <= i < l.len(),
    ensures
        deposit_in(l, l[i].0) == l[i].1 as nat,
    decreases l.len(),
{
    if i < l.len() - 1 {
        lemma_entry(l.drop_last(), i);
    }
}

/// Each amount is part of the total.
pub proof fn lemma_deposit_le_total(l: Seq<(u64, u128)>, who: u64)
    ensures
        deposit_in(l, who) <= ledger_total(l),
    decreases l.len(),
{
    if l.len() > 0 {
        lemma_deposit_le_total(l.drop_last(), who);
    }
}

/// Replacing the amount of an existing entry changes that contributor's
/// record and the total, and nothing else.
pub proof fn lemma_set_entry(l: Seq<(u64, u128)>, i: int, v: u128)
    requires
        keys_unique(l),
        0 <= i < l.len(),
    ensures
        keys_unique(l.update(i, (l[i].0, v))),
        ledger_total(l.update(i, (l[i].0, v))) + l[i].1 == ledger_total(l) + v,
        forall|p: u64|
            #![trigger deposit_in(l.update(i, (l[i].0, v)), p)]
            deposit_in(l.update(i, (l[i].0, v)), p) == if p == l[i].0 {
                v as nat
            } else {
                deposit_in(l, p)
            },
    decreases l.len(),
{
    let u = l.update(i, (l[i].0, v));
    assert forall|a: int, b: int| 0 <= a < b < u.len() implies u[a].0 != u[b].0 by {
        assert(u[a].0 == l[a].0 && u[b].0 == l[b].0);
    }
    if i == l.len() - 1 {
        assert(u.drop_last() =~= l.drop_last());
    } else {
        let d = l.drop_last();
        lemma_set_entry(d, i, v);
        assert(u.drop_last() =~= d.update(i, (d[i].0, v)));
        assert(u.last() == l.last());
        assert(l.last().0 != l[i].0);
    }
    assert forall|p: u64| #[trigger]
        deposit_in(u, p) == if p == l[i].0 {
            v as nat
        } else {
            deposit_in(l, p)
        } by {
        assert(deposit_in(u, p) == if u.last().0 == p {
            u.last().1 as nat
        } else {
            deposit_in(u.drop_last(), p)
        });
    }
}

/// Appending an entry for a new contributor.
pub proof fn lemma_push_entry(l: Seq<(u64, u128)>, who: u64, v: u128)
    requires
        keys_unique(l),
        forall|i: int| 0 <= i < l.len() ==> l[i].0 != who,
    ensures
        keys_unique(l.push((who, v))),
        ledger_total(l.push((who, v))) == ledger_total(l) + v,
        forall|p: u64|
            #![trigger deposit_in(l.push((who, v)), p)]
            deposit_in(l.push((who, v)), p) == if p == who {
                v as nat
            } else {
                deposit_in(l, p)
            },
{
    assert(l.push((who, v)).drop_last() =~= l);
}

} // verus!

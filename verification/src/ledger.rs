use vstd::prelude::*;

verus! {

// The contribution ledger is modelled as a sequence of
// (contributor, cumulative amount) pairs.  Lookup and update act on the
// first pair holding the key; the campaign's well-formedness keeps keys
// unique, so that pair is the only one.

/// Index of the first ledger entry for `who`, or `s.len()` if there is none.
pub open spec fn ledger_find(s: Seq<(u64, int)>, who: u64) -> int
    decreases s.len(),
{
    if s.len() == 0 {
        0
    } else if s[0].0 == who {
        0
    } else {
        1 + ledger_find(s.drop_first(), who)
    }
}

/// The cumulative amount recorded for `who`, 0 if there is no entry.
pub open spec fn ledger_get(s: Seq<(u64, int)>, who: u64) -> int {
    let i: int = ledger_find(s, who);
    if i < s.len() {
        s[i].1
    } else {
        0
    }
}

/// The ledger after `add` is credited to `who`: the existing entry is
/// increased, or a fresh entry is appended.
pub open spec fn ledger_put(s: Seq<(u64, int)>, who: u64, add: int) -> Seq<(u64, int)> {
    let i: int = ledger_find(s, who);
    if i < s.len() {
        s.update(i, (who, s[i].1 + add))
    } else {
        s.push((who, add))
    }
}

/// The sum of all recorded amounts.
pub open spec fn ledger_sum(s: Seq<(u64, int)>) -> int
    decreases s.len(),
{
    if s.len() == 0 {
        0
    } else {
        s[0].1 + ledger_sum(s.drop_first())
    }
}

/// No two entries record the same contributor.
pub open spec fn ledger_keys_unique(s: Seq<(u64, int)>) -> bool {
    forall|i: int, j: int| 0 <= i < j < s.len() ==> s[i].0 != s[j].0
}

/// Every entry records a strictly positive amount.
pub open spec fn ledger_entries_positive(s: Seq<(u64, int)>) -> bool {
    forall|i: int| 0 <= i < s.len() ==> s[i].1 > 0
}

pub proof fn lemma_find_characterizes(s: Seq<(u64, int)>, who: u64)
    ensures
        0 <= ledger_find(s, who) <= s.len(),
        ledger_find(s, who) < s.len() ==> s[ledger_find(s, who)].0 == who,
        forall|j: int| 0 <= j < ledger_find(s, who) ==> s[j].0 != who,
    decreases s.len(),
{
    if s.len() > 0 && s[0].0 != who {
        lemma_find_characterizes(s.drop_first(), who);
        assert forall|j: int| 0 <= j < ledger_find(s, who) implies s[j].0 != who by {
            if j > 0 {
                assert(s.drop_first()[j - 1] == s[j]);
            }
        }
    }
}

/// `ledger_find` returns the index of the first entry holding `who`.
pub proof fn lemma_find_is_first(s: Seq<(u64, int)>, who: u64, i: int)
    requires
        0 <= i < s.len(),
        s[i].0 == who,
        forall|j: int| 0 <= j < i ==> s[j].0 != who,
    ensures
        ledger_find(s, who) == i,
    decreases s.len(),
{
    if i > 0 {
        let t = s.drop_first();
        assert(t[i - 1] == s[i]);
        assert forall|j: int| 0 <= j < i - 1 implies t[j].0 != who by {
            assert(t[j] == s[j + 1]);
        }
        lemma_find_is_first(t, who, i - 1);
    }
}

/// A ledger without an entry for `who` records 0 for `who`.
pub proof fn lemma_absent_get_zero(s: Seq<(u64, int)>, who: u64)
    requires
        forall|i: int| 0 <= i < s.len() ==> s[i].0 != who,
    ensures
        ledger_find(s, who) == s.len(),
        ledger_get(s, who) == 0,
{
    lemma_find_characterizes(s, who);
}

proof fn lemma_positive_drop_first(s: Seq<(u64, int)>)
    requires
        s.len() > 0,
        ledger_entries_positive(s),
    ensures
        ledger_entries_positive(s.drop_first()),
{
    assert forall|j: int| 0 <= j < s.drop_first().len() implies s.drop_first()[j].1 > 0 by {
        assert(s.drop_first()[j] == s[j + 1]);
    }
}

pub proof fn lemma_sum_nonneg(s: Seq<(u64, int)>)
    requires
        ledger_entries_positive(s),
    ensures
        ledger_sum(s) >= 0,
    decreases s.len(),
{
    if s.len() > 0 {
        lemma_positive_drop_first(s);
        lemma_sum_nonneg(s.drop_first());
    }
}

/// Each single entry is bounded by the sum of all entries.
pub proof fn lemma_entry_le_sum(s: Seq<(u64, int)>, i: int)
    requires
        ledger_entries_positive(s),
        0 <= i < s.len(),
    ensures
        s[i].1 <= ledger_sum(s),
    decreases s.len(),
{
    lemma_positive_drop_first(s);
    if i == 0 {
        lemma_sum_nonneg(s.drop_first());
    } else {
        lemma_entry_le_sum(s.drop_first(), i - 1);
        assert(s.drop_first()[i - 1] == s[i]);
    }
}

proof fn lemma_sum_update(s: Seq<(u64, int)>, i: int, v: int)
    requires
        0 <= i < s.len(),
    ensures
        ledger_sum(s.update(i, (s[i].0, v))) == ledger_sum(s) - s[i].1 + v,
    decreases s.len(),
{
    let t = s.update(i, (s[i].0, v));
    if i == 0 {
        assert(t.drop_first() =~= s.drop_first());
    } else {
        assert(s.drop_first()[i - 1] == s[i]);
        assert(t.drop_first() =~= s.drop_first().update(i - 1, (s[i].0, v)));
        lemma_sum_update(s.drop_first(), i - 1, v);
    }
}

proof fn lemma_sum_push(s: Seq<(u64, int)>, p: (u64, int))
    ensures
        ledger_sum(s.push(p)) == ledger_sum(s) + p.1,
    decreases s.len(),
{
    if s.len() == 0 {
        assert(s.push(p).len() == 1);
        assert(s.push(p)[0] == p);
        assert(s.push(p).drop_first() =~= Seq::<(u64, int)>::empty());
        assert(ledger_sum(s.push(p).drop_first()) == 0);
    } else {
        assert(s.push(p)[0] == s[0]);
        assert(s.push(p).drop_first() =~= s.drop_first().push(p));
        lemma_sum_push(s.drop_first(), p);
    }
}

/// Crediting `add` to `who` raises the sum of the ledger by exactly `add`.
pub proof fn lemma_put_sum(s: Seq<(u64, int)>, who: u64, add: int)
    ensures
        ledger_sum(ledger_put(s, who, add)) == ledger_sum(s) + add,
{
    let i: int = ledger_find(s, who);
    lemma_find_characterizes(s, who);
    if i < s.len() {
        lemma_sum_update(s, i, s[i].1 + add);
    } else {
        lemma_sum_push(s, (who, add));
    }
}

/// Crediting `add` to `who` raises `who`'s recorded amount by exactly `add`.
pub proof fn lemma_put_get(s: Seq<(u64, int)>, who: u64, add: int)
    ensures
        ledger_get(ledger_put(s, who, add), who) == ledger_get(s, who) + add,
{
    let i: int = ledger_find(s, who);
    lemma_find_characterizes(s, who);
    let p = ledger_put(s, who, add);
    if i < s.len() {
        assert forall|j: int| 0 <= j < i implies p[j].0 != who by {
            assert(p[j] == s[j]);
        }
        lemma_find_is_first(p, who, i);
    } else {
        assert(p[s.len() as int].0 == who);
        assert forall|j: int| 0 <= j < s.len() implies p[j].0 != who by {
            assert(p[j] == s[j]);
        }
        lemma_find_is_first(p, who, s.len() as int);
    }
}

/// Crediting `who` leaves every other contributor's recorded amount unchanged.
pub proof fn lemma_put_get_other(s: Seq<(u64, int)>, who: u64, add: int, other: u64)
    requires
        other != who,
    ensures
        ledger_get(ledger_put(s, who, add), other) == ledger_get(s, other),
{
    let i: int = ledger_find(s, who);
    let k: int = ledger_find(s, other);
    lemma_find_characterizes(s, who);
    lemma_find_characterizes(s, other);
    let p = ledger_put(s, who, add);
    if k < s.len() {
        // the entry for `other` sits untouched at the same index
        assert(k != i);
        assert(p[k] == s[k]);
        assert forall|j: int| 0 <= j < k implies p[j].0 != other by {
            if j != i {
                assert(p[j] == s[j]);
            }
        }
        lemma_find_is_first(p, other, k);
    } else {
        // no entry for `other` before, and none after
        assert forall|j: int| 0 <= j < p.len() implies p[j].0 != other by {
            if j < s.len() && j != i {
                assert(p[j] == s[j]);
            }
        }
        lemma_absent_get_zero(p, other);
        lemma_absent_get_zero(s, other);
    }
}

/// Crediting a positive amount keeps keys unique and entries positive.
pub proof fn lemma_put_preserves_shape(s: Seq<(u64, int)>, who: u64, add: int)
    requires
        ledger_keys_unique(s),
        ledger_entries_positive(s),
        add > 0,
    ensures
        ledger_keys_unique(ledger_put(s, who, add)),
        ledger_entries_positive(ledger_put(s, who, add)),
{
    let i: int = ledger_find(s, who);
    lemma_find_characterizes(s, who);
    let p = ledger_put(s, who, add);
    if i < s.len() {
        assert forall|a: int, b: int| 0 <= a < b < p.len() implies p[a].0 != p[b].0 by {
            assert(p[a].0 == s[a].0);
            assert(p[b].0 == s[b].0);
        }
        assert forall|a: int| 0 <= a < p.len() implies p[a].1 > 0 by {
            if a != i {
                assert(p[a] == s[a]);
            }
        }
    } else {
        assert forall|a: int, b: int| 0 <= a < b < p.len() implies p[a].0 != p[b].0 by {
            assert(p[a] == s[a]);
            if b < s.len() {
                assert(p[b] == s[b]);
            }
        }
        assert forall|a: int| 0 <= a < p.len() implies p[a].1 > 0 by {
            if a < s.len() {
                assert(p[a] == s[a]);
            }
        }
    }
}

} // verus!

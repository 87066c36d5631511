//! Flat function tables: cloning, ordinal splicing, and in-place hooking.
//!
//! A function table is a vector of function addresses indexed by ordinal.
//! `spliced` is the mathematical description shared by every hook in this
//! crate: the table with a chosen set of ordinals overwritten and every other
//! entry untouched. `FunctionTableHook` overwrites entries of a table in
//! place and restores the previously captured snapshot on teardown; unlike a
//! virtual-dispatch hook there is no separate owned copy, so no buffer
//! lifetime question arises.

use vstd::prelude::*;

verus! {

/// Every override names an ordinal inside the table.
pub open spec fn ordinals_in_range(overrides: Seq<(usize, usize)>, len: nat) -> bool {
    forall|k: int| 0 <= k < overrides.len() ==> (#[trigger] overrides[k]).0 < len
}

/// No ordinal is overridden twice.
pub open spec fn distinct_ordinals(overrides: Seq<(usize, usize)>) -> bool {
    forall|k1: int, k2: int|
        0 <= k1 < k2 < overrides.len() ==> (#[trigger] overrides[k1]).0 != (
        #[trigger] overrides[k2]).0
}

/// Some override names ordinal `i`.
pub open spec fn overridden(overrides: Seq<(usize, usize)>, i: int) -> bool {
    exists|k: int| 0 <= k < overrides.len() && (#[trigger] overrides[k]).0 == i
}

/// The table with each override `(ordinal, function)` written over the
/// corresponding entry, applied left to right.
pub open spec fn spliced(table: Seq<usize>, overrides: Seq<(usize, usize)>) -> Seq<usize>
    decreases overrides.len(),
{
    if overrides.len() == 0 {
        table
    } else {
        spliced(table, overrides.drop_last()).update(
            overrides.last().0 as int,
            overrides.last().1,
        )
    }
}

/// Splicing never changes the table's length.
pub proof fn lemma_spliced_len(table: Seq<usize>, overrides: Seq<(usize, usize)>)
    requires
        ordinals_in_range(overrides, table.len()),
    ensures
        spliced(table, overrides).len() == table.len(),
    decreases overrides.len(),
{
    if overrides.len() > 0 {
        let prefix = overrides.drop_last();
        assert(ordinals_in_range(prefix, table.len())) by {
            assert forall|k: int| 0 <= k < prefix.len() implies (#[trigger] prefix[k]).0
                < table.len() by {
                assert(prefix[k] == overrides[k]);
            }
        }
        lemma_spliced_len(table, prefix);
    }
}

/// An entry whose ordinal no override names keeps the original function:
/// splicing touches only the chosen ordinals.
pub proof fn lemma_spliced_miss(table: Seq<usize>, overrides: Seq<(usize, usize)>, i: int)
    requires
        ordinals_in_range(overrides, table.len()),
        0 <= i < table.len(),
        !overridden(overrides, i),
    ensures
        spliced(table, overrides)[i] == table[i],
    decreases overrides.len(),
{
    if overrides.len() > 0 {
        let prefix = overrides.drop_last();
        assert(ordinals_in_range(prefix, table.len()) && !overridden(prefix, i)) by {
            assert forall|k: int| 0 <= k < prefix.len() implies (#[trigger] prefix[k]).0
                < table.len() && prefix[k].0 != i by {
                assert(prefix[k] == overrides[k]);
            }
        }
        lemma_spliced_miss(table, prefix, i);
        lemma_spliced_len(table, prefix);
        assert(overrides.last().0 != i);
    }
}

/// Ordinal-correct splicing: with distinct ordinals, the entry at override
/// `k`'s ordinal holds exactly override `k`'s function.
pub proof fn lemma_spliced_hit(table: Seq<usize>, overrides: Seq<(usize, usize)>, k: int)
    requires
        ordinals_in_range(overrides, table.len()),
        distinct_ordinals(overrides),
        0 <= k < overrides.len(),
    ensures
        spliced(table, overrides)[overrides[k].0 as int] == overrides[k].1,
    decreases overrides.len(),
{
    let prefix = overrides.drop_last();
    assert(ordinals_in_range(prefix, table.len()) && distinct_ordinals(prefix)) by {
        assert forall|k1: int, k2: int| 0 <= k1 < k2 < prefix.len() implies (
        #[trigger] prefix[k1]).0 != (#[trigger] prefix[k2]).0 by {
            assert(prefix[k1] == overrides[k1] && prefix[k2] == overrides[k2]);
        }
        assert forall|j: int| 0 <= j < prefix.len() implies (#[trigger] prefix[j]).0
            < table.len() by {
            assert(prefix[j] == overrides[j]);
        }
    }
    lemma_spliced_len(table, prefix);
    if k == overrides.len() - 1 {
    } else {
        assert(prefix[k] == overrides[k]);
        lemma_spliced_hit(table, prefix, k);
        assert(overrides.last().0 != overrides[k].0);
    }
}

/// Ordinal-correct forwarding: splicing a set of distinct ordinals
/// dispatches each hooked ordinal to its replacement and leaves every other
/// ordinal's function in place. Since each hooked ordinal's captured
/// original is the entry the table held exactly there, a replacement
/// forwarding to its capture calls the function it displaced — never a
/// neighbouring entry.
pub proof fn lemma_ordinal_correct_forwarding(table: Seq<usize>, overrides: Seq<(usize, usize)>)
    requires
        ordinals_in_range(overrides, table.len()),
        distinct_ordinals(overrides),
    ensures
        forall|k: int|
            0 <= k < overrides.len() ==> spliced(table, overrides)[(
            #[trigger] overrides[k]).0 as int] == overrides[k].1,
        forall|i: int|
            0 <= i < table.len() && !overridden(overrides, i) ==> spliced(table, overrides)[i]
                == table[i],
{
    assert forall|k: int| 0 <= k < overrides.len() implies spliced(table, overrides)[(
    #[trigger] overrides[k]).0 as int] == overrides[k].1 by {
        lemma_spliced_hit(table, overrides, k);
    }
    assert forall|i: int|
        0 <= i < table.len() && !overridden(overrides, i) implies spliced(table, overrides)[i]
        == table[i] by {
        lemma_spliced_miss(table, overrides, i);
    }
}

/// Clone independence: writing `g` at ordinal `i` of a clone changes exactly
/// that entry of the clone and no entry of the table it was cloned from; a
/// write into the source table likewise leaves the clone untouched.
pub proof fn lemma_clone_independence(
    table: Seq<usize>,
    clone: Seq<usize>,
    i: int,
    g: usize,
    h: usize,
)
    requires
        clone == table,
        0 <= i < clone.len(),
    ensures
        clone.update(i, g)[i] == g,
        forall|j: int| 0 <= j < table.len() && j != i ==> clone.update(i, g)[j] == table[j],
        forall|j: int| 0 <= j < clone.len() && j != i ==> table.update(i, h)[j] == clone[j],
{
}

/// Copies a table entry for entry; the copy holds exactly the same function
/// addresses and shares no storage with the source.
pub fn clone_table(table: &Vec<usize>) -> (c: Vec<usize>)
    ensures
        c@ == table@,
{
    let mut c: Vec<usize> = Vec::new();
    let mut i: usize = 0;

    while i < table.len()
        invariant
            i <= table@.len(),
            c@ == table@.subrange(0, i as int),
        decreases table@.len() - i,
    {
        c.push(table[i]);
        assert(c@ =~= table@.subrange(0, i + 1 as int));
        i += 1;
    }

    assert(c@ =~= table@);
    c
}

/// An installed flat-table hook: the snapshot captured before the overwrite,
/// ready to be written back on teardown.
pub struct FunctionTableHook {
    snapshot: Vec<usize>,
}

impl FunctionTableHook {
    /// The table contents captured at installation.
    pub closed spec fn captured(&self) -> Seq<usize> {
        self.snapshot@
    }

    /// Overwrites the chosen ordinals of a live table in place, capturing the
    /// whole prior table as the restoration snapshot.
    pub fn install(table: &mut Vec<usize>, overrides: &Vec<(usize, usize)>) -> (h:
        FunctionTableHook)
        requires
            ordinals_in_range(overrides@, old(table)@.len()),
            distinct_ordinals(overrides@),
        ensures
            h.captured() == old(table)@,
            final(table)@ == spliced(old(table)@, overrides@),
    {
        let snapshot = clone_table(table);
        let ghost original = table@;
        let mut k: usize = 0;

        while k < overrides.len()
            invariant
                k <= overrides@.len(),
                ordinals_in_range(overrides@, original.len()),
                table@ == spliced(original, overrides@.subrange(0, k as int)),
            decreases overrides@.len() - k,
        {
            proof {
                lemma_spliced_len(original, overrides@.subrange(0, k as int));
            }
            let (ordinal, function) = overrides[k];
            table[ordinal] = function;
            proof {
                let prev = overrides@.subrange(0, k as int);
                let next = overrides@.subrange(0, k + 1 as int);
                assert(next.drop_last() =~= prev);
                assert(next.last() == overrides@[k as int]);
            }
            k += 1;
        }

        proof {
            assert(overrides@.subrange(0, overrides@.len() as int) =~= overrides@);
        }

        FunctionTableHook { snapshot }
    }

    /// Tears the hook down by re-applying the captured snapshot: the table
    /// holds exactly what it held before installation.
    pub fn restore(self, table: &mut Vec<usize>)
        ensures
            final(table)@ == self.captured(),
    {
        *table = self.snapshot;
    }
}

} // verus!

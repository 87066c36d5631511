//! Virtual-dispatch table hooks.
//!
//! A `VTableHook` clones an object's dispatch table verbatim, overwrites the
//! chosen ordinals in the clone while capturing each original entry for
//! forwarding, and swaps the object's table pointer to the clone with a
//! reversible patch. Teardown order is enforced by contract: the pointer
//! patch must be restored before the clone may be released, since the object
//! keeps dereferencing the clone until the pointer reverts.

use vstd::prelude::*;
use crate::memory;
use crate::memory::Patch;
use crate::table::clone_table;
use crate::table::distinct_ordinals;
use crate::table::lemma_spliced_len;
use crate::table::lemma_spliced_miss;
use crate::table::ordinals_in_range;
use crate::table::overridden;
use crate::table::spliced;

verus! {

/// Alignment of a dispatch-table pointer in the 32-bit target process.
pub const POINTER_ALIGN: usize = 4;

/// Why installing a vtable hook failed. Either way, nothing was written.
#[derive(Debug)]
pub enum Error {
    /// The object's table pointer is null.
    NullVtable,
    /// The object's table-pointer field is at an unusable address.
    Patch(memory::Error),
}

/// An object's dispatch table, hooked: the owned clone the object now
/// dispatches through, the captured original entry of every overridden
/// ordinal, and the patch that swapped the object's table pointer.
#[derive(Debug)]
pub struct VTableHook {
    buffer: Vec<usize>,
    originals: Vec<(usize, usize)>,
    pointer_patch: Patch<usize>,
}

impl VTableHook {
    /// The contents of the owned clone the object dispatches through.
    pub closed spec fn buffer(&self) -> Seq<usize> {
        self.buffer@
    }

    /// The `(ordinal, original function)` pairs captured at installation.
    pub closed spec fn originals(&self) -> Seq<(usize, usize)> {
        self.originals@
    }

    /// The hook is installed while its pointer patch is unrestored.
    pub closed spec fn installed(&self) -> bool {
        self.pointer_patch.is_active()
    }

    /// The table address the object held before the swap.
    pub closed spec fn original_table_address(&self) -> usize {
        self.pointer_patch.captured()
    }

    /// Clones the object's dispatch table, overwrites the chosen ordinals in
    /// the clone (capturing each entry's original function for forwarding),
    /// and patches the object's table pointer to `buffer_address`, where the
    /// runtime layer places the clone.
    ///
    /// `table_pointer` is the object's table-pointer field, living at
    /// `object_address`; `table` holds the entries read through it.
    pub fn install(
        object_address: usize,
        table_pointer: &mut usize,
        table: &Vec<usize>,
        overrides: &Vec<(usize, usize)>,
        buffer_address: usize,
    ) -> (r: Result<VTableHook, Error>)
        requires
            ordinals_in_range(overrides@, table@.len()),
            distinct_ordinals(overrides@),
        ensures
            r is Ok <==> *old(table_pointer) != 0 && memory::address_ok(
                object_address,
                POINTER_ALIGN,
            ),
            r matches Ok(h) ==> {
                &&& h.installed()
                &&& h.buffer() == spliced(table@, overrides@)
                &&& h.originals().len() == overrides@.len()
                &&& forall|k: int|
                    0 <= k < overrides@.len() ==> #[trigger] h.originals()[k] == (
                    overrides@[k].0,
                    table@[overrides@[k].0 as int],
                    )
                &&& *final(table_pointer) == buffer_address
                &&& h.original_table_address() == *old(table_pointer)
            },
            r is Err ==> *final(table_pointer) == *old(table_pointer),
            r matches Err(e) ==> {
                &&& e is NullVtable <==> *old(table_pointer) == 0
                &&& e matches Error::Patch(pe) ==> pe == memory::check_error(
                    object_address,
                    POINTER_ALIGN,
                )
            },
    {
        if *table_pointer == 0 {
            return Err(Error::NullVtable);
        }

        let mut buffer = clone_table(table);
        let mut originals: Vec<(usize, usize)> = Vec::new();
        let mut k: usize = 0;

        while k < overrides.len()
            invariant
                k <= overrides@.len(),
                ordinals_in_range(overrides@, table@.len()),
                distinct_ordinals(overrides@),
                buffer@ == spliced(table@, overrides@.subrange(0, k as int)),
                originals@.len() == k,
                forall|j: int|
                    0 <= j < k ==> #[trigger] originals@[j] == (
                    overrides@[j].0,
                    table@[overrides@[j].0 as int],
                    ),
            decreases overrides@.len() - k,
        {
            let ghost prev = overrides@.subrange(0, k as int);
            proof {
                lemma_spliced_len(table@, prev);
                assert(!overridden(prev, overrides@[k as int].0 as int)) by {
                    assert forall|j: int| 0 <= j < prev.len() implies (#[trigger] prev[j]).0
                        != overrides@[k as int].0 by {
                        assert(prev[j] == overrides@[j]);
                    }
                }
                lemma_spliced_miss(table@, prev, overrides@[k as int].0 as int);
            }
            let (ordinal, function) = overrides[k];
            let original = buffer[ordinal];
            assert(original == table@[ordinal as int]);
            originals.push((ordinal, original));
            buffer[ordinal] = function;
            proof {
                let next = overrides@.subrange(0, k + 1 as int);
                assert(next.drop_last() =~= prev);
                assert(next.last() == overrides@[k as int]);
            }
            k += 1;
        }

        proof {
            assert(overrides@.subrange(0, overrides@.len() as int) =~= overrides@);
        }

        let pointer_patch = match Patch::new(
            object_address,
            POINTER_ALIGN,
            table_pointer,
            buffer_address,
        ) {
            Ok(p) => p,
            Err(e) => {
                return Err(Error::Patch(e));
            },
        };

        Ok(VTableHook { buffer, originals, pointer_patch })
    }

    /// The whole clone, for the runtime layer to place at the buffer
    /// address before the pointer swap lands.
    pub fn entries(&self) -> (t: &Vec<usize>)
        ensures
            t@ == self.buffer(),
    {
        &self.buffer
    }

    /// The function the swapped table dispatches for `ordinal`.
    pub fn entry(&self, ordinal: usize) -> (f: usize)
        requires
            ordinal < self.buffer().len(),
        ensures
            f == self.buffer()[ordinal as int],
    {
        self.buffer[ordinal]
    }

    /// The captured original function a replacement must forward to: exactly
    /// the entry the original table held at `ordinal`, or `None` when the
    /// ordinal was never overridden.
    pub fn forward_target(&self, ordinal: usize) -> (r: Option<usize>)
        ensures
            r matches Some(f) ==> exists|k: int|
                0 <= k < self.originals().len() && #[trigger] self.originals()[k] == (
                ordinal,
                f,
                ),
            r is None ==> forall|k: int|
                0 <= k < self.originals().len() ==> (#[trigger] self.originals()[k]).0
                    != ordinal,
    {
        let mut k: usize = 0;

        while k < self.originals.len()
            invariant
                k <= self.originals@.len(),
                forall|j: int|
                    0 <= j < k ==> (#[trigger] self.originals@[j]).0 != ordinal,
            decreases self.originals@.len() - k,
        {
            let (o, f) = self.originals[k];
            if o == ordinal {
                assert(self.originals()[k as int] == (ordinal, f));
                return Some(f);
            }
            k += 1;
        }

        None
    }

    /// Restores the table-pointer patch: the object dispatches through its
    /// original table again. The clone stays allocated and untouched — it
    /// must, since a concurrent dispatch may still be walking it until the
    /// pointer write lands.
    pub fn teardown(&mut self, table_pointer: &mut usize)
        requires
            old(self).installed(),
        ensures
            !final(self).installed(),
            *final(table_pointer) == old(self).original_table_address(),
            final(self).buffer() == old(self).buffer(),
            final(self).originals() == old(self).originals(),
            final(self).original_table_address() == old(self).original_table_address(),
    {
        self.pointer_patch.restore(table_pointer);
    }

    /// Consumes the hook and frees the cloned buffer, returning how many
    /// entries were released. Refused while the hook is still installed:
    /// releasing first would leave the object dispatching through freed
    /// memory, so teardown of the pointer patch strictly precedes release.
    pub fn release(self) -> (entries: usize)
        requires
            !self.installed(),
        ensures
            entries == self.buffer().len(),
    {
        self.buffer.len()
    }
}

} // verus!

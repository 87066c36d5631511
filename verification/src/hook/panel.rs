//! The panel hook: clones the panel's dispatch table, redirects the paint
//! traversal, and swaps the panel's table pointer to the clone.

use vstd::prelude::*;
use crate::game::vgui2;
use crate::memory;
use crate::module;
use crate::table::spliced;
use crate::vtable::POINTER_ALIGN;
use crate::vtable::VTableHook;

verus! {

/// Why the panel hook could not be installed.
#[derive(Debug)]
pub enum Error {
    /// Resolving the toolkit module or its panel interface failed.
    Module(module::Error),
    /// The named interface has a null dispatch-table pointer.
    NullVtable(String),
    /// The panel's table-pointer field could not be patched.
    Patch(memory::Error),
}

/// An installed panel hook, holding the cloned table the panel dispatches
/// through and the pointer patch that swapped it in.
pub struct Hook {
    vtable: VTableHook,
}

impl Hook {
    /// The contents of the owned clone the panel dispatches through.
    pub closed spec fn buffer(&self) -> Seq<usize> {
        self.vtable.buffer()
    }

    /// The paint-traversal entry the original table held, kept for
    /// forwarding.
    pub closed spec fn original_paint_traverse(&self) -> usize {
        self.vtable.originals()[0].1
    }

    /// The hook is installed while its pointer patch is unrestored.
    pub closed spec fn installed(&self) -> bool {
        self.vtable.installed()
    }

    /// The table address the panel held before the swap.
    pub closed spec fn original_table_address(&self) -> usize {
        self.vtable.original_table_address()
    }

    /// Clones the panel's dispatch table, writes the replacement over the
    /// paint-traversal ordinal while capturing the original entry, and
    /// patches the panel's table pointer to `buffer_address`.
    ///
    /// `table_pointer` is the panel's table-pointer field, living at
    /// `panel_address`; `table` holds the entries read through it.
    pub fn new(
        panel_address: usize,
        table_pointer: &mut usize,
        table: &Vec<usize>,
        paint_traverse: usize,
        buffer_address: usize,
    ) -> (r: Result<Hook, Error>)
        requires
            table@.len() == vgui2::NUM_VTABLE_ENTRIES,
        ensures
            r is Ok <==> *old(table_pointer) != 0 && memory::address_ok(
                panel_address,
                POINTER_ALIGN,
            ),
            r matches Ok(h) ==> {
                &&& h.installed()
                &&& h.buffer() == table@.update(
                    vgui2::Vtable::PaintTraverse.spec_index() as int,
                    paint_traverse,
                )
                &&& h.original_paint_traverse() == table@[vgui2::Vtable::PaintTraverse.spec_index() as int]
                &&& *final(table_pointer) == buffer_address
                &&& h.original_table_address() == *old(table_pointer)
            },
            r is Err ==> *final(table_pointer) == *old(table_pointer),
            r matches Err(e) ==> {
                &&& (e matches Error::NullVtable(n) ==> n@ == vgui2::INTERFACE@)
                &&& (e is NullVtable <==> *old(table_pointer) == 0)
                &&& (e matches Error::Patch(pe) ==> pe == memory::check_error(
                    panel_address,
                    POINTER_ALIGN,
                ))
                &&& !(e is Module)
            },
    {
        let mut overrides: Vec<(usize, usize)> = Vec::new();
        overrides.push((vgui2::Vtable::PaintTraverse.index(), paint_traverse));

        let vtable = match VTableHook::install(
            panel_address,
            table_pointer,
            table,
            &overrides,
            buffer_address,
        ) {
            Ok(v) => v,
            Err(crate::vtable::Error::NullVtable) => {
                return Err(Error::NullVtable(vgui2::INTERFACE.to_owned()));
            },
            Err(crate::vtable::Error::Patch(e)) => {
                return Err(Error::Patch(e));
            },
        };

        proof {
            let ov = overrides@;
            assert(ov.drop_last() =~= Seq::<(usize, usize)>::empty());
            assert(spliced(table@, Seq::<(usize, usize)>::empty()) == table@);
            assert(vtable.buffer() == table@.update(
                vgui2::Vtable::PaintTraverse.spec_index() as int,
                paint_traverse,
            ));
            assert(vtable.originals()[0] == (
                vgui2::Vtable::PaintTraverse.spec_index(),
                table@[vgui2::Vtable::PaintTraverse.spec_index() as int],
            ));
        }

        Ok(Hook { vtable })
    }

    /// The whole clone, for the runtime layer to place at the buffer
    /// address before the pointer swap lands.
    pub fn cloned_table(&self) -> (t: &Vec<usize>)
        ensures
            t@ == self.buffer(),
    {
        self.vtable.entries()
    }

    /// Restores the panel's table pointer to the original table. The clone
    /// stays allocated until `release`, as the panel may still be
    /// dispatching through it up to the moment the pointer write lands.
    pub fn teardown(&mut self, table_pointer: &mut usize)
        requires
            old(self).installed(),
        ensures
            !final(self).installed(),
            *final(table_pointer) == old(self).original_table_address(),
            final(self).buffer() == old(self).buffer(),
            final(self).original_paint_traverse() == old(self).original_paint_traverse(),
    {
        self.vtable.teardown(table_pointer);
    }

    /// Consumes the hook and frees the cloned table. Refused while the hook
    /// is installed: the pointer patch must be restored first, or the panel
    /// would dispatch through freed memory.
    pub fn release(self) -> (entries: usize)
        requires
            !self.installed(),
        ensures
            entries == self.buffer().len(),
    {
        self.vtable.release()
    }
}

} // verus!

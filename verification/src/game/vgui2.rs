//! The interface-toolkit panel: the dispatch table whose paint traversal the
//! panel hook splices.

use vstd::prelude::*;

verus! {

/// Name under which the toolkit module's factory exports the panel.
pub const INTERFACE: &'static str = "VGUI_Panel007";

/// Number of entries in the panel dispatch table of the target build.
pub const NUM_VTABLE_ENTRIES: usize = 60;

/// Known ordinals of the panel dispatch table.
#[derive(Clone, Copy, Debug, PartialEq, Eq, Structural)]
pub enum Vtable {
    GetName,
    PaintTraverse,
    NumEntries,
}

impl Vtable {
    /// The fixed index of this entry in the table.
    pub open spec fn spec_index(self) -> usize {
        match self {
            Vtable::GetName => 36,
            Vtable::PaintTraverse => 41,
            Vtable::NumEntries => 60,
        }
    }

    /// The fixed index of this entry in the table.
    pub fn index(self) -> (i: usize)
        ensures
            i == self.spec_index(),
    {
        match self {
            Vtable::GetName => 36,
            Vtable::PaintTraverse => 41,
            Vtable::NumEntries => 60,
        }
    }
}

/// The panel object's dispatch table contents.
pub struct Panel {
    pub vtable: Vec<usize>,
}

impl Panel {
    /// The table holds exactly the target build's entry count.
    pub open spec fn wf(&self) -> bool {
        self.vtable@.len() == NUM_VTABLE_ENTRIES
    }

    /// Resolves the function address a table slot holds: the single audited
    /// point where an ordinal becomes a callable address.
    pub fn get_virtual_function_address(&self, function: Vtable) -> (address: usize)
        requires
            self.wf(),
            function.spec_index() < NUM_VTABLE_ENTRIES,
        ensures
            address == self.vtable@[function.spec_index() as int],
    {
        let i = function.index();
        self.vtable[i]
    }

    /// Resolves the name query: the dispatch target the runtime layer calls
    /// to read a panel's name.
    pub fn get_name(&self) -> (address: usize)
        requires
            self.wf(),
        ensures
            address == self.vtable@[Vtable::GetName.spec_index() as int],
    {
        self.get_virtual_function_address(Vtable::GetName)
    }
}

} // verus!

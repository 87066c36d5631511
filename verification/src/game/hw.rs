//! The renderer's surface interface: a dispatch table used to draw text.

use vstd::prelude::*;

verus! {

/// Name under which the renderer module's factory exports the surface.
pub const INTERFACE: &'static str = "VGUI_Surface026";

/// Number of entries in the surface dispatch table of the target build.
pub const NUM_VTABLE_ENTRIES: usize = 91;

/// Known ordinals of the surface dispatch table.
#[derive(Clone, Copy, Debug, PartialEq, Eq, Structural)]
pub enum Vtable {
    SetTextColor,
    SetTextPos,
    PrintText,
}

impl Vtable {
    /// The fixed index of this entry in the table.
    pub open spec fn spec_index(self) -> usize {
        match self {
            Vtable::SetTextColor => 15,
            Vtable::SetTextPos => 16,
            Vtable::PrintText => 18,
        }
    }

    /// The fixed index of this entry in the table.
    pub fn index(self) -> (i: usize)
        ensures
            i == self.spec_index(),
    {
        match self {
            Vtable::SetTextColor => 15,
            Vtable::SetTextPos => 16,
            Vtable::PrintText => 18,
        }
    }
}

/// The surface object's dispatch table contents.
pub struct Surface {
    pub vtable: Vec<usize>,
}

impl Surface {
    /// The table holds exactly the target build's entry count.
    pub open spec fn wf(&self) -> bool {
        self.vtable@.len() == NUM_VTABLE_ENTRIES
    }

    /// Resolves the function address a table slot holds: the single audited
    /// point where an ordinal becomes a callable address.
    pub fn get_virtual_function_address(&self, function: Vtable) -> (address: usize)
        requires
            self.wf(),
            function.spec_index() < NUM_VTABLE_ENTRIES,
        ensures
            address == self.vtable@[function.spec_index() as int],
    {
        let i = function.index();
        self.vtable[i]
    }

    /// Resolves a text draw: the dispatch target for the print entry, and
    /// the length argument the call hands along with the text. The runtime
    /// layer performs the dispatch itself, passing the implementation-defined
    /// extra slot ahead of the declared parameters.
    pub fn print_text(&self, text: &Vec<u16>) -> (r: (usize, i32))
        requires
            self.wf(),
            text@.len() <= i32::MAX,
        ensures
            r.0 == self.vtable@[Vtable::PrintText.spec_index() as int],
            r.1 == text@.len() as i32,
    {
        let target = self.get_virtual_function_address(Vtable::PrintText);
        let len = text.len() as i32;
        (target, len)
    }
}

} // verus!

//! The engine function table: the flat table of client-to-engine entry
//! points, read for discovery but never spliced.

use vstd::prelude::*;

verus! {

/// Number of entries in the engine function table of the target build.
pub const NUM_ENGINE_FUNCS: usize = 131;

/// Known ordinals of the engine function table.
#[derive(Clone, Copy, Debug, PartialEq, Eq, Structural)]
pub enum EngineFuncsTable {
    HookUserMsg,
    GetLocalPlayer,
    NumEntries,
}

impl EngineFuncsTable {
    /// The fixed index of this entry in the table.
    pub open spec fn spec_index(self) -> usize {
        match self {
            EngineFuncsTable::HookUserMsg => 18,
            EngineFuncsTable::GetLocalPlayer => 51,
            EngineFuncsTable::NumEntries => 131,
        }
    }

    /// The fixed index of this entry in the table.
    pub fn index(self) -> (i: usize)
        ensures
            i == self.spec_index(),
    {
        match self {
            EngineFuncsTable::HookUserMsg => 18,
            EngineFuncsTable::GetLocalPlayer => 51,
            EngineFuncsTable::NumEntries => 131,
        }
    }
}

/// The engine function table's contents, one function address per ordinal.
pub struct EngineFuncs {
    pub functions: Vec<usize>,
}

impl EngineFuncs {
    /// The table holds exactly the target build's entry count.
    pub open spec fn wf(&self) -> bool {
        self.functions@.len() == NUM_ENGINE_FUNCS
    }

    /// Wraps table contents read from the target process.
    pub fn new(functions: Vec<usize>) -> (e: EngineFuncs)
        requires
            functions@.len() == NUM_ENGINE_FUNCS,
        ensures
            e.wf(),
            e.functions@ == functions@,
    {
        EngineFuncs { functions }
    }

    /// Resolves the function address a table slot holds: the single audited
    /// point where an ordinal becomes a callable address.
    pub fn function(&self, f: EngineFuncsTable) -> (address: usize)
        requires
            self.wf(),
            f.spec_index() < NUM_ENGINE_FUNCS,
        ensures
            address == self.functions@[f.spec_index() as int],
    {
        let i = f.index();
        self.functions[i]
    }
}

} // verus!

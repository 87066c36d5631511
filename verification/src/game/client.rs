//! The client function table: the flat table of engine-to-client entry
//! points the client hook splices.

use vstd::prelude::*;

verus! {

/// Number of entries in the client function table of the target build.
pub const NUM_CLIENT_FUNCS: usize = 43;

/// Known ordinals of the client function table.
#[derive(Clone, Copy, Debug, PartialEq, Eq, Structural)]
pub enum ClientFuncsTable {
    CreateMove,
    CalcRefDef,
    HudAddEntity,
    HudProcessPlayerState,
    HudFrame,
    NumEntries,
}

impl ClientFuncsTable {
    /// The fixed index of this entry in the table.
    pub open spec fn spec_index(self) -> usize {
        match self {
            ClientFuncsTable::CreateMove => 14,
            ClientFuncsTable::CalcRefDef => 19,
            ClientFuncsTable::HudAddEntity => 20,
            ClientFuncsTable::HudProcessPlayerState => 28,
            ClientFuncsTable::HudFrame => 33,
            ClientFuncsTable::NumEntries => 43,
        }
    }

    /// The fixed index of this entry in the table.
    pub fn index(self) -> (i: usize)
        ensures
            i == self.spec_index(),
    {
        match self {
            ClientFuncsTable::CreateMove => 14,
            ClientFuncsTable::CalcRefDef => 19,
            ClientFuncsTable::HudAddEntity => 20,
            ClientFuncsTable::HudProcessPlayerState => 28,
            ClientFuncsTable::HudFrame => 33,
            ClientFuncsTable::NumEntries => 43,
        }
    }
}

/// The client function table's contents, one function address per ordinal.
pub struct ClientFuncs {
    pub functions: Vec<usize>,
}

impl ClientFuncs {
    /// The table holds exactly the target build's entry count.
    pub open spec fn wf(&self) -> bool {
        self.functions@.len() == NUM_CLIENT_FUNCS
    }

    /// Wraps table contents read from the target process.
    pub fn new(functions: Vec<usize>) -> (c: ClientFuncs)
        requires
            functions@.len() == NUM_CLIENT_FUNCS,
        ensures
            c.wf(),
            c.functions@ == functions@,
    {
        ClientFuncs { functions }
    }

    /// Redirects one entry of the table to `hooked`, leaving every other
    /// entry untouched.
    pub fn hook(&mut self, function: ClientFuncsTable, hooked: usize)
        requires
            old(self).wf(),
            function.spec_index() < NUM_CLIENT_FUNCS,
        ensures
            final(self).wf(),
            final(self).functions@ == old(self).functions@.update(
                function.spec_index() as int,
                hooked,
            ),
    {
        let i = function.index();
        self.functions[i] = hooked;
    }
}

/// A studio model's mouth state.
#[derive(Clone, Copy, Debug, PartialEq, Eq, Structural)]
pub struct Mouth {
    pub mouth_open: u8,
    pub snd_count: u8,
    pub snd_avg: i32,
}

/// The kind of model a renderable entity carries.
#[derive(Clone, Copy, Debug, PartialEq, Eq, Structural)]
pub enum ModType {
    Brush,
    Sprite,
    Alias,
    Studio,
}

/// How a model's animation frames are synchronised.
#[derive(Clone, Copy, Debug, PartialEq, Eq, Structural)]
pub enum SyncType {
    Sync,
    Rand,
}

} // verus!

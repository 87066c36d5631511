//! The client hook: splices the client function table in place, tracks
//! rendered entities by slot, and holds the movement-button rule applied in
//! the spliced movement entry.

use vstd::prelude::*;
use crate::game::client::ClientFuncs;
use crate::game::client::ClientFuncsTable;
use crate::game::client::NUM_CLIENT_FUNCS;
use crate::table::FunctionTableHook;
use crate::table::spliced;

verus! {

/// Capacity of the entity slot array, one slot per possible entity index.
pub const MAX_ENTITIES: usize = 8192;

/// Jump bit of the command-button mask.
pub const IN_JUMP: u16 = 2;

/// On-ground bit of the movement flags.
pub const FL_ONGROUND: i32 = 512;

/// The replacement entry points the hook writes over the client table, one
/// per spliced ordinal.
pub struct ClientReplacements {
    pub create_move: usize,
    pub calc_ref_def: usize,
    pub hud_add_entity: usize,
    pub hud_process_player_state: usize,
    pub hud_frame: usize,
}

impl ClientReplacements {
    /// The overrides the hook applies, in installation order.
    pub open spec fn overrides(&self) -> Seq<(usize, usize)> {
        seq![
            (ClientFuncsTable::CreateMove.spec_index(), self.create_move),
            (ClientFuncsTable::CalcRefDef.spec_index(), self.calc_ref_def),
            (ClientFuncsTable::HudAddEntity.spec_index(), self.hud_add_entity),
            (ClientFuncsTable::HudProcessPlayerState.spec_index(), self.hud_process_player_state),
            (ClientFuncsTable::HudFrame.spec_index(), self.hud_frame),
        ]
    }
}

/// An installed client hook: the whole prior table captured for restoration.
pub struct Hook {
    table_hook: FunctionTableHook,
}

impl Hook {
    /// The table contents captured at installation.
    pub closed spec fn captured(&self) -> Seq<usize> {
        self.table_hook.captured()
    }

    /// The captured table has the target build's entry count.
    pub open spec fn wf(&self) -> bool {
        self.captured().len() == NUM_CLIENT_FUNCS
    }

    /// Splices the five replacement entry points into the live client table,
    /// capturing the prior table for restoration and forwarding.
    pub fn new(client_funcs: &mut ClientFuncs, replacements: &ClientReplacements) -> (h: Hook)
        requires
            old(client_funcs).wf(),
        ensures
            h.wf(),
            h.captured() == old(client_funcs).functions@,
            final(client_funcs).wf(),
            final(client_funcs).functions@ == spliced(
                old(client_funcs).functions@,
                replacements.overrides(),
            ),
    {
        let mut overrides: Vec<(usize, usize)> = Vec::new();
        overrides.push((ClientFuncsTable::CreateMove.index(), replacements.create_move));
        overrides.push((ClientFuncsTable::CalcRefDef.index(), replacements.calc_ref_def));
        overrides.push((ClientFuncsTable::HudAddEntity.index(), replacements.hud_add_entity));
        overrides.push((
            ClientFuncsTable::HudProcessPlayerState.index(),
            replacements.hud_process_player_state,
        ));
        overrides.push((ClientFuncsTable::HudFrame.index(), replacements.hud_frame));
        assert(overrides@ =~= replacements.overrides());

        let table_hook = FunctionTableHook::install(&mut client_funcs.functions, &overrides);
        proof {
            crate::table::lemma_spliced_len(
                old(client_funcs).functions@,
                replacements.overrides(),
            );
        }

        Hook { table_hook }
    }

    /// Tears the hook down by writing the captured table back: the client
    /// table holds exactly what it held before installation.
    pub fn restore(self, client_funcs: &mut ClientFuncs)
        requires
            self.wf(),
        ensures
            final(client_funcs).wf(),
            final(client_funcs).functions@ == self.captured(),
    {
        self.table_hook.restore(&mut client_funcs.functions);
    }
}

/// What the movement-button rule decides for one command: with the jump
/// button held, jumping is let through only on the ground or deep enough in
/// water; releasing the button is never synthesised, and a command without
/// the jump button is untouched.
pub open spec fn bunny_hop_spec(buttons: u16, flags: i32, water_level: i32) -> u16 {
    if buttons & IN_JUMP != IN_JUMP {
        buttons
    } else if flags & FL_ONGROUND == FL_ONGROUND || water_level >= 2 {
        buttons
    } else {
        buttons & !IN_JUMP
    }
}

/// Applies the movement-button rule to one command's button mask, given the
/// player's movement flags and water level.
pub fn bunny_hop(buttons: u16, flags: i32, water_level: i32) -> (r: u16)
    ensures
        r == bunny_hop_spec(buttons, flags, water_level),
{
    if buttons & IN_JUMP != IN_JUMP {
        return buttons;
    }

    let cleared = buttons & !IN_JUMP;
    let on_ground = flags & FL_ONGROUND == FL_ONGROUND;

    if on_ground || water_level >= 2 {
        assert(cleared | 2u16 == buttons) by (bit_vector)
            requires
                cleared == buttons & !2u16,
                buttons & 2u16 == 2u16,
        ;
        cleared | IN_JUMP
    } else {
        cleared
    }
}

/// The name ends in the model-file suffix `.mdl`.
pub open spec fn is_model_spec(name: Seq<u8>) -> bool {
    &&& name.len() >= 4
    &&& name[name.len() - 4] == 0x2eu8
    &&& name[name.len() - 3] == 0x6du8
    &&& name[name.len() - 2] == 0x64u8
    &&& name[name.len() - 1] == 0x6cu8
}

/// Whether a model name names a studio model file.
pub fn is_model(name: &[u8]) -> (r: bool)
    ensures
        r == is_model_spec(name@),
{
    let n = name.len();
    if n < 4 {
        return false;
    }
    name[n - 4] == 0x2e && name[n - 3] == 0x6d && name[n - 2] == 0x64 && name[n - 1] == 0x6c
}

/// The trailing path component of a model name: everything after the final
/// path separator, or the whole name when it has none.
pub fn model_basename(name: &[u8]) -> (r: &[u8])
    ensures
        exists|s: int|
            {
                &&& 0 <= s <= name@.len()
                &&& #[trigger] r@ == name@.subrange(s, name@.len() as int)
                &&& (s == 0 || name@[s - 1] == 0x2fu8)
                &&& forall|j: int| s <= j < name@.len() ==> name@[j] != 0x2fu8
            },
{
    let n = name.len();
    let mut i: usize = n;

    while i > 0
        invariant
            i <= n,
            n == name@.len(),
            forall|j: int| i <= j < n ==> name@[j] != 0x2fu8,
        decreases i,
    {
        if name[i - 1] == 0x2f {
            let r = vstd::slice::slice_subrange(name, i, n);
            assert(i == 0 || name@[i - 1] == 0x2fu8);
            return r;
        }
        i -= 1;
    }

    let r = vstd::slice::slice_subrange(name, 0, n);
    assert(r@ == name@.subrange(0, name@.len() as int));
    r
}

/// Which way one observation changed an entity slot.
#[derive(Clone, Copy, Debug, PartialEq, Eq, Structural)]
pub enum SlotChange {
    /// A live entity was recorded in its empty slot.
    Added,
    /// A dead entity was cleared from its slot.
    Removed,
    /// The observation left the slots as they were.
    Unchanged,
}

/// An observation is acted on only for a real entity with a usable index and
/// a studio-model name.
pub open spec fn manageable(ent: usize, index: i32, modelname: Option<&Vec<u8>>) -> bool {
    &&& ent != 0
    &&& (modelname matches Some(n) && is_model_spec(n@))
    &&& 0 < index < MAX_ENTITIES
}

/// The rendered entities currently tracked, one slot per entity index; a
/// slot holds the entity's address, or null when the index is untracked.
pub struct EntityList {
    pub slots: Vec<usize>,
}

impl EntityList {
    /// One slot per possible entity index.
    pub open spec fn wf(&self) -> bool {
        self.slots@.len() == MAX_ENTITIES
    }

    /// A list with every slot empty.
    pub fn new() -> (l: EntityList)
        ensures
            l.wf(),
            forall|i: int| 0 <= i < MAX_ENTITIES ==> l.slots@[i] == 0,
    {
        let mut slots: Vec<usize> = Vec::new();
        let mut i: usize = 0;

        while i < MAX_ENTITIES
            invariant
                i <= MAX_ENTITIES,
                slots@.len() == i,
                forall|j: int| 0 <= j < i ==> slots@[j] == 0,
            decreases MAX_ENTITIES - i,
        {
            slots.push(0);
            i += 1;
        }

        EntityList { slots }
    }

    /// Observes one entity the renderer reported: records a live entity in
    /// its empty slot, clears a dead entity's slot, and ignores null
    /// entities, null or non-model names, and out-of-range indices.
    pub fn manage_entity(
        &mut self,
        ent: usize,
        index: i32,
        alive: bool,
        modelname: Option<&Vec<u8>>,
    ) -> (c: SlotChange)
        requires
            old(self).wf(),
        ensures
            final(self).wf(),
            !manageable(ent, index, modelname) ==> (c is Unchanged && final(self).slots@ == old(
                self,
            ).slots@),
            manageable(ent, index, modelname) ==> {
                let i = index as int;
                if alive && old(self).slots@[i] == 0 {
                    c is Added && final(self).slots@ == old(self).slots@.update(i, ent)
                } else if !alive && old(self).slots@[i] != 0 {
                    c is Removed && final(self).slots@ == old(self).slots@.update(i, 0usize)
                } else {
                    c is Unchanged && final(self).slots@ == old(self).slots@
                }
            },
    {
        if ent == 0 {
            return SlotChange::Unchanged;
        }

        let name = match modelname {
            Some(n) => n,
            None => {
                return SlotChange::Unchanged;
            },
        };

        if index <= 0 || index >= MAX_ENTITIES as i32 {
            return SlotChange::Unchanged;
        }

        if !is_model(name.as_slice()) {
            return SlotChange::Unchanged;
        }

        let i = index as usize;

        if alive {
            if self.slots[i] == 0 {
                self.slots[i] = ent;
                return SlotChange::Added;
            }
        } else {
            if self.slots[i] != 0 {
                self.slots[i] = 0;
                return SlotChange::Removed;
            }
        }

        SlotChange::Unchanged
    }
}

} // verus!

//! The hook set and its lifecycle: discovery of the target's internal
//! structures by byte scanning, installation of every hook, and guaranteed
//! restoration in reverse order of installation.
//!
//! Discovery works entirely on the renderer module's mapped bytes. The
//! engine's fade-message string is located, then the instruction pushing its
//! address; the code around that instruction embeds the addresses of the
//! engine function table, the player-movement state and the client function
//! table, and the registration code reached from the engine table leads to
//! the user-message list head.

use vstd::prelude::*;
use vstd::bytes::spec_u32_from_le_bytes;
use vstd::bytes::spec_u32_to_le_bytes;
use vstd::bytes::u32_from_le_bytes;
use vstd::bytes::u32_to_le_bytes;
use crate::game::client::ClientFuncs;
use crate::game::engine::EngineFuncsTable;
use crate::game::hw;
use crate::game::vgui2;
use crate::memory;
use crate::module;
use crate::module::GameModule;
use crate::module::InterfaceHandle;
use crate::module::Module;
use crate::module::first_match_index;
use crate::module::lemma_first_match_index;
use crate::module::pattern_found;
use crate::table::spliced;

pub mod client;
pub mod opengl;
pub mod panel;
pub mod user_msg;

verus! {

/// Why the hook set could not be installed. Whatever failed, no partial hook
/// state is left behind: everything installed before the failing step is
/// restored before the error propagates.
#[derive(Debug)]
pub enum Error {
    /// Resolving a module or an interface failed.
    Module(module::Error),
    /// Installing the panel hook failed.
    Panel(panel::Error),
    /// A string literal the discovery scans for is absent from the image.
    NotFoundStringLit(String),
    /// A byte pattern or embedded structure the discovery relies on is
    /// absent from the image.
    NotFoundBytes(String),
    /// A discovered pointer failed validation.
    Patch(memory::Error),
}

/// Alignment required of the discovered engine structures.
pub const STRUCT_ALIGN: usize = 4;

/// The fade-message string the discovery scan locates.
pub open spec fn screen_fade_name() -> Seq<u8> {
    seq![0x53u8, 0x63u8, 0x72u8, 0x65u8, 0x65u8, 0x6eu8, 0x46u8, 0x61u8, 0x64u8, 0x65u8]
}

/// Builds the fade-message string's bytes: `ScreenFade`.
fn screen_fade_pattern() -> (r: Vec<u8>)
    ensures
        r@ == screen_fade_name(),
{
    let mut r: Vec<u8> = Vec::new();
    r.push(0x53);
    r.push(0x63);
    r.push(0x72);
    r.push(0x65);
    r.push(0x65);
    r.push(0x6e);
    r.push(0x46);
    r.push(0x61);
    r.push(0x64);
    r.push(0x65);
    assert(r@ =~= screen_fade_name());
    r
}

/// The instruction that pushes `address` as an immediate operand.
pub open spec fn push_instruction(address: u32) -> Seq<u8> {
    seq![0x68u8] + spec_u32_to_le_bytes(address)
}

/// Discovery can locate the push instruction: the fade-message string
/// occurs in the image, and so does a push of the address of its earliest
/// occurrence.
pub open spec fn screen_fade_discoverable(image: Seq<u8>, base: int) -> bool {
    &&& pattern_found(image, screen_fade_name())
    &&& pattern_found(
        image,
        push_instruction((base + first_match_index(image, screen_fade_name())) as u32),
    )
}

/// The absolute address of the located push instruction, where discovery
/// succeeds.
pub open spec fn screen_fade_address(image: Seq<u8>, base: int) -> int {
    base + first_match_index(
        image,
        push_instruction((base + first_match_index(image, screen_fade_name())) as u32),
    )
}

/// The little-endian pointer stored in the image at offset `off`.
pub open spec fn pointer_field(image: Seq<u8>, off: int) -> u32 {
    spec_u32_from_le_bytes(image.subrange(off, off + 4))
}

/// A 32-bit sum in the target's wrapping address arithmetic.
pub open spec fn wrap32(x: int) -> u32 {
    (x % 0x100000000) as u32
}

/// The chase from the registration entry point to the user-message list
/// head stays inside the image and ends in a usable pointer.
pub open spec fn user_msg_resolvable(
    image: Seq<u8>,
    base: int,
    size: int,
    hook_user_msg: int,
) -> bool {
    let op_off = hook_user_msg - base + 9;
    let rel = pointer_field(image, op_off);
    let inner = wrap32(rel + hook_user_msg + 13);
    let head_off = inner - base + 13;
    &&& base <= hook_user_msg
    &&& op_off + 4 <= size
    &&& base <= inner
    &&& head_off + 4 <= size
    &&& memory::address_ok(pointer_field(image, head_off) as usize, STRUCT_ALIGN)
}

/// The user-message list head the chase resolves, where it resolves.
pub open spec fn user_msg_head(image: Seq<u8>, base: int, hook_user_msg: int) -> usize {
    let op_off = hook_user_msg - base + 9;
    let rel = pointer_field(image, op_off);
    let inner = wrap32(rel + hook_user_msg + 13);
    let head_off = inner - base + 13;
    pointer_field(image, head_off) as usize
}

/// Reads the little-endian pointer stored in the image at offset `offset`.
pub fn read_le_u32(image: &[u8], offset: usize) -> (x: u32)
    requires
        offset + 4 <= image@.len(),
        image@.len() <= usize::MAX,
    ensures
        x == pointer_field(image@, offset as int),
{
    let window = vstd::slice::slice_subrange(image, offset, offset + 4);
    u32_from_le_bytes(window)
}

/// Locates the instruction pushing the address of the fade-message string:
/// first the string itself, then a push of the exact address it was found
/// at. Returns the instruction's absolute address.
pub fn get_screen_fade_instruction(hw_module: &Module, image: &[u8]) -> (r: Result<usize, Error>)
    requires
        hw_module.wf(),
        image@.len() == hw_module.size,
        hw_module.end <= u32::MAX,
    ensures
        r is Ok <==> screen_fade_discoverable(image@, hw_module.base as int),
        r matches Ok(address) ==> (hw_module.base <= address && address == screen_fade_address(
            image@,
            hw_module.base as int,
        )),
        r matches Err(e) ==> ({
            if !pattern_found(image@, screen_fade_name()) {
                e matches Error::NotFoundStringLit(n) && n@ == "ScreenFade"@
            } else {
                e matches Error::NotFoundBytes(n) && n@ == "push ScreenFade instruction"@
            }
        }),
{
    let pattern = screen_fade_pattern();

    let screen_fade = match hw_module.find_bytes(image, pattern.as_slice()) {
        Some(address) => address,
        None => {
            return Err(Error::NotFoundStringLit("ScreenFade".to_owned()));
        },
    };
    proof {
        lemma_first_match_index(
            image@,
            screen_fade_name(),
            screen_fade - hw_module.base,
        );
    }

    assert(screen_fade <= u32::MAX);
    let le = u32_to_le_bytes(screen_fade as u32);
    let mut push_pattern: Vec<u8> = Vec::new();
    push_pattern.push(0x68);
    push_pattern.push(le[0]);
    push_pattern.push(le[1]);
    push_pattern.push(le[2]);
    push_pattern.push(le[3]);
    assert(push_pattern@ =~= push_instruction((hw_module.base + (screen_fade - hw_module.base))
        as u32));

    match hw_module.find_bytes(image, push_pattern.as_slice()) {
        Some(address) => {
            proof {
                lemma_first_match_index(image@, push_pattern@, address - hw_module.base);
            }
            Ok(address)
        },
        None => Err(Error::NotFoundBytes("push ScreenFade instruction".to_owned())),
    }
}

/// Reads and validates one pointer embedded in the code near the push
/// instruction, `offset` bytes past it. A read falling outside the image is
/// reported as the named structure being absent; a null or misaligned
/// pointer is reported with its diagnostic.
fn read_pointer_field(
    hw_module: &Module,
    image: &[u8],
    screen_fade: usize,
    offset: usize,
    what: &str,
) -> (r: Result<usize, Error>)
    requires
        hw_module.wf(),
        image@.len() == hw_module.size,
        hw_module.base <= screen_fade,
        offset <= 64,
    ensures
        r is Ok <==> (screen_fade - hw_module.base + offset + 4 <= hw_module.size
            && memory::address_ok(
            pointer_field(image@, screen_fade - hw_module.base + offset) as usize,
            STRUCT_ALIGN,
        )),
        r matches Ok(p) ==> p == pointer_field(
            image@,
            screen_fade - hw_module.base + offset,
        ) as usize,
        r matches Err(e) ==> ({
            if screen_fade - hw_module.base + offset + 4 <= hw_module.size {
                e matches Error::Patch(pe) && pe == memory::check_error(
                    pointer_field(image@, screen_fade - hw_module.base + offset) as usize,
                    STRUCT_ALIGN,
                )
            } else {
                e matches Error::NotFoundBytes(n) && n@ == what@
            }
        }),
{
    let sf_off = screen_fade - hw_module.base;

    if sf_off > image.len() || image.len() - sf_off < offset + 4 {
        return Err(Error::NotFoundBytes(what.to_owned()));
    }

    let pointer = read_le_u32(image, sf_off + offset) as usize;

    match memory::ptr_check(pointer, STRUCT_ALIGN) {
        Ok(()) => Ok(pointer),
        Err(e) => Err(Error::Patch(e)),
    }
}

/// Offset, past the push instruction, of the embedded engine-function-table
/// pointer.
pub const ENGINE_FUNCS_OFFSET: usize = 13;

/// Offset, past the push instruction, of the embedded client-function-table
/// pointer.
pub const CLIENT_FUNCS_OFFSET: usize = 19;

/// Offset, past the push instruction, of the embedded player-movement-state
/// pointer.
pub const PLAYER_MOVE_OFFSET: usize = 36;

/// Resolves the engine function table's address from the code past the push
/// instruction.
pub fn init_engine_funcs(hw_module: &Module, image: &[u8], screen_fade: usize) -> (r: Result<
    usize,
    Error,
>)
    requires
        hw_module.wf(),
        image@.len() == hw_module.size,
        hw_module.base <= screen_fade,
    ensures
        r is Ok <==> (screen_fade - hw_module.base + ENGINE_FUNCS_OFFSET + 4 <= hw_module.size
            && memory::address_ok(
            pointer_field(image@, screen_fade - hw_module.base + ENGINE_FUNCS_OFFSET) as usize,
            STRUCT_ALIGN,
        )),
        r matches Ok(p) ==> p == pointer_field(
            image@,
            screen_fade - hw_module.base + ENGINE_FUNCS_OFFSET,
        ) as usize,
{
    read_pointer_field(hw_module, image, screen_fade, ENGINE_FUNCS_OFFSET, "engine functions")
}

/// Resolves the player-movement state's address from the code past the push
/// instruction.
pub fn init_player_move(hw_module: &Module, image: &[u8], screen_fade: usize) -> (r: Result<
    usize,
    Error,
>)
    requires
        hw_module.wf(),
        image@.len() == hw_module.size,
        hw_module.base <= screen_fade,
    ensures
        r is Ok <==> (screen_fade - hw_module.base + PLAYER_MOVE_OFFSET + 4 <= hw_module.size
            && memory::address_ok(
            pointer_field(image@, screen_fade - hw_module.base + PLAYER_MOVE_OFFSET) as usize,
            STRUCT_ALIGN,
        )),
        r matches Ok(p) ==> p == pointer_field(
            image@,
            screen_fade - hw_module.base + PLAYER_MOVE_OFFSET,
        ) as usize,
{
    read_pointer_field(hw_module, image, screen_fade, PLAYER_MOVE_OFFSET, "player move")
}

/// Resolves the client function table's address from the code past the push
/// instruction.
pub fn init_client_funcs(hw_module: &Module, image: &[u8], screen_fade: usize) -> (r: Result<
    usize,
    Error,
>)
    requires
        hw_module.wf(),
        image@.len() == hw_module.size,
        hw_module.base <= screen_fade,
    ensures
        r is Ok <==> (screen_fade - hw_module.base + CLIENT_FUNCS_OFFSET + 4 <= hw_module.size
            && memory::address_ok(
            pointer_field(image@, screen_fade - hw_module.base + CLIENT_FUNCS_OFFSET) as usize,
            STRUCT_ALIGN,
        )),
        r matches Ok(p) ==> p == pointer_field(
            image@,
            screen_fade - hw_module.base + CLIENT_FUNCS_OFFSET,
        ) as usize,
{
    read_pointer_field(hw_module, image, screen_fade, CLIENT_FUNCS_OFFSET, "client functions")
}

/// Resolves the user-message list head. The registration entry point's code
/// calls an inner function through a relative operand; the inner function's
/// code embeds the list head's address. All reads stay within the image, and
/// the call target is resolved in the target's wrapping 32-bit address
/// arithmetic.
pub fn init_user_msg(hw_module: &Module, image: &[u8], hook_user_msg: usize) -> (r: Result<
    usize,
    Error,
>)
    requires
        hw_module.wf(),
        image@.len() == hw_module.size,
        hw_module.end <= u32::MAX,
        hook_user_msg <= u32::MAX,
    ensures
        r is Ok <==> user_msg_resolvable(
            image@,
            hw_module.base as int,
            hw_module.size as int,
            hook_user_msg as int,
        ),
        r matches Ok(head) ==> (head == user_msg_head(
            image@,
            hw_module.base as int,
            hook_user_msg as int,
        ) && memory::address_ok(head, STRUCT_ALIGN)),
        r matches Err(e) ==> ({
            let op_off = hook_user_msg - hw_module.base + 9;
            let rel = pointer_field(image@, op_off);
            let inner = wrap32(rel + hook_user_msg + 13);
            let head_off = inner - hw_module.base + 13;
            if !(hw_module.base <= hook_user_msg && op_off + 4 <= hw_module.size) {
                e matches Error::NotFoundBytes(n) && n@ == "user message registration"@
            } else if !(hw_module.base <= inner && head_off + 4 <= hw_module.size) {
                e matches Error::NotFoundBytes(n) && n@ == "user message list head"@
            } else {
                e matches Error::Patch(pe) && pe == memory::check_error(
                    pointer_field(image@, head_off) as usize,
                    STRUCT_ALIGN,
                )
            }
        }),
{
    if hook_user_msg < hw_module.base {
        return Err(Error::NotFoundBytes("user message registration".to_owned()));
    }

    let op_off = hook_user_msg - hw_module.base;

    if op_off > image.len() || image.len() - op_off < 13 {
        return Err(Error::NotFoundBytes("user message registration".to_owned()));
    }

    let rel = read_le_u32(image, op_off + 9);

    let inner64: u64 = rel as u64 + hook_user_msg as u64 + 13;
    let inner: u32 = (inner64 % 0x100000000u64) as u32;
    assert(inner == wrap32(rel + hook_user_msg + 13));

    let base32 = hw_module.base as u32;

    if inner < base32 {
        return Err(Error::NotFoundBytes("user message list head".to_owned()));
    }

    let head_off = (inner - base32) as usize;

    if head_off > image.len() || image.len() - head_off < 17 {
        return Err(Error::NotFoundBytes("user message list head".to_owned()));
    }

    let head = read_le_u32(image, head_off + 13) as usize;

    match memory::ptr_check(head, STRUCT_ALIGN) {
        Ok(()) => Ok(head),
        Err(e) => Err(Error::Patch(e)),
    }
}

/// Everything installation needs of its inputs, spelt out over the image
/// and the handed-in pointers: discovery must succeed, every discovered or
/// handed-in pointer must be usable, every embedded read must stay inside
/// the image, and the panel's table pointer must be non-null. Installation
/// succeeds on exactly these inputs.
pub open spec fn installable(
    hw: Module,
    image: Seq<u8>,
    surface_interface: usize,
    panel_interface: usize,
    panel_table_pointer: usize,
) -> bool {
    let base = hw.base as int;
    let size = hw.size as int;
    let sf = screen_fade_address(image, base);
    let engine = pointer_field(image, sf - base + ENGINE_FUNCS_OFFSET) as usize;
    let entry_off = EngineFuncsTable::HookUserMsg.spec_index() * 4;
    let hook_user_msg = pointer_field(image, engine - base + entry_off) as int;
    &&& screen_fade_discoverable(image, base)
    &&& memory::address_ok(surface_interface, STRUCT_ALIGN)
    &&& sf - base + ENGINE_FUNCS_OFFSET + 4 <= size
    &&& memory::address_ok(engine, STRUCT_ALIGN)
    &&& sf - base + PLAYER_MOVE_OFFSET + 4 <= size
    &&& memory::address_ok(
        pointer_field(image, sf - base + PLAYER_MOVE_OFFSET) as usize,
        STRUCT_ALIGN,
    )
    &&& base <= engine
    &&& engine - base + entry_off + 4 <= size
    &&& user_msg_resolvable(image, base, size, hook_user_msg)
    &&& sf - base + CLIENT_FUNCS_OFFSET + 4 <= size
    &&& memory::address_ok(
        pointer_field(image, sf - base + CLIENT_FUNCS_OFFSET) as usize,
        STRUCT_ALIGN,
    )
    &&& memory::address_ok(panel_interface, STRUCT_ALIGN)
    &&& panel_table_pointer != 0
}

/// The installed hook set, together with the discovered context the
/// replacement functions need: the validated surface interface and the
/// addresses of the engine structures. An explicit context object in place
/// of process-wide mutable state.
pub struct Hook {
    /// The validated surface interface.
    pub surface: InterfaceHandle,
    /// Address of the engine function table.
    pub engine_funcs: usize,
    /// Address of the player-movement state.
    pub player_move: usize,
    /// Address of the user-message list head.
    pub user_msg: usize,
    /// Address of the live client function table.
    pub client_funcs_address: usize,
    /// The installed client-table hook.
    pub client: client::Hook,
    /// The installed panel hook.
    pub panel: panel::Hook,
    /// The (empty) user-message hook set.
    pub user_msg_hook: user_msg::Hook,
}

impl Hook {
    /// Discovers the target's structures in the renderer image, validates
    /// the interfaces, and installs the client and panel hooks. If any step
    /// fails, whatever was installed before it is restored before the error
    /// propagates: no partial hook state survives a failed installation.
    pub fn new(
        hw_module: &GameModule,
        image: &[u8],
        surface_interface: usize,
        vgui2_module: &GameModule,
        panel_interface: usize,
        panel_table_pointer: &mut usize,
        panel_table: &Vec<usize>,
        paint_traverse: usize,
        panel_buffer_address: usize,
        client_funcs: &mut ClientFuncs,
        replacements: &client::ClientReplacements,
    ) -> (r: Result<Hook, Error>)
        requires
            hw_module.module.wf(),
            image@.len() == hw_module.module.size,
            hw_module.module.end <= u32::MAX,
            panel_table@.len() == vgui2::NUM_VTABLE_ENTRIES,
            old(client_funcs).wf(),
        ensures
            final(client_funcs).wf(),
            r is Ok <==> installable(
                hw_module.module,
                image@,
                surface_interface,
                panel_interface,
                *old(panel_table_pointer),
            ),
            r matches Ok(h) ==> {
                &&& h.client.wf()
                &&& h.client.captured() == old(client_funcs).functions@
                &&& final(client_funcs).functions@ == spliced(
                    old(client_funcs).functions@,
                    replacements.overrides(),
                )
                &&& h.panel.installed()
                &&& h.panel.buffer() == panel_table@.update(
                    vgui2::Vtable::PaintTraverse.spec_index() as int,
                    paint_traverse,
                )
                &&& h.panel.original_paint_traverse() == panel_table@[vgui2::Vtable::PaintTraverse.spec_index() as int]
                &&& *final(panel_table_pointer) == panel_buffer_address
                &&& h.panel.original_table_address() == *old(panel_table_pointer)
                &&& h.surface.wf()
                &&& h.surface.address == surface_interface
                &&& memory::address_ok(h.engine_funcs, STRUCT_ALIGN)
                &&& memory::address_ok(h.player_move, STRUCT_ALIGN)
                &&& memory::address_ok(h.user_msg, STRUCT_ALIGN)
                &&& memory::address_ok(h.client_funcs_address, STRUCT_ALIGN)
            },
            r is Err ==> {
                &&& final(client_funcs).functions@ == old(client_funcs).functions@
                &&& *final(panel_table_pointer) == *old(panel_table_pointer)
            },
    {
        let screen_fade = match get_screen_fade_instruction(&hw_module.module, image) {
            Ok(address) => address,
            Err(e) => {
                return Err(e);
            },
        };

        let surface = match hw_module.create_interface(
            hw::INTERFACE,
            surface_interface,
            STRUCT_ALIGN,
        ) {
            Ok(handle) => handle,
            Err(e) => {
                return Err(Error::Module(e));
            },
        };

        let engine_funcs = match init_engine_funcs(&hw_module.module, image, screen_fade) {
            Ok(address) => address,
            Err(e) => {
                return Err(e);
            },
        };

        let player_move = match init_player_move(&hw_module.module, image, screen_fade) {
            Ok(address) => address,
            Err(e) => {
                return Err(e);
            },
        };

        // The registration entry point sits in the engine table, which lives
        // inside the renderer image: read it out of the mapped bytes.
        if engine_funcs < hw_module.module.base {
            return Err(Error::NotFoundBytes("engine functions".to_owned()));
        }
        let engine_off = engine_funcs - hw_module.module.base;
        let entry_off = EngineFuncsTable::HookUserMsg.index() * 4;
        if engine_off > image.len() || image.len() - engine_off < entry_off + 4 {
            return Err(Error::NotFoundBytes("engine functions".to_owned()));
        }
        let hook_user_msg = read_le_u32(image, engine_off + entry_off) as usize;

        let user_msg = match init_user_msg(&hw_module.module, image, hook_user_msg) {
            Ok(address) => address,
            Err(e) => {
                return Err(e);
            },
        };

        let client_funcs_address = match init_client_funcs(&hw_module.module, image, screen_fade) {
            Ok(address) => address,
            Err(e) => {
                return Err(e);
            },
        };

        let client_hook = client::Hook::new(client_funcs, replacements);

        let panel_handle = match vgui2_module.create_interface(
            vgui2::INTERFACE,
            panel_interface,
            STRUCT_ALIGN,
        ) {
            Ok(handle) => handle,
            Err(e) => {
                client_hook.restore(client_funcs);
                return Err(Error::Panel(panel::Error::Module(e)));
            },
        };

        let panel_hook = match panel::Hook::new(
            panel_handle.address,
            panel_table_pointer,
            panel_table,
            paint_traverse,
            panel_buffer_address,
        ) {
            Ok(p) => p,
            Err(e) => {
                client_hook.restore(client_funcs);
                return Err(Error::Panel(e));
            },
        };

        let user_msg_hook = match user_msg::Hook::new() {
            Ok(u) => u,
            Err(_) => {
                proof {
                    assert(false);
                }
                vstd::pervasive::unreached()
            },
        };

        Ok(Hook {
            surface,
            engine_funcs,
            player_move,
            user_msg,
            client_funcs_address,
            client: client_hook,
            panel: panel_hook,
            user_msg_hook,
        })
    }

    /// Unwinds the hook set in strict reverse order of installation: the
    /// panel hook's pointer patch is restored and only then its clone
    /// released, and the client table is written back last. Both tables end
    /// holding exactly what they held before installation.
    pub fn teardown(self, panel_table_pointer: &mut usize, client_funcs: &mut ClientFuncs)
        requires
            self.panel.installed(),
            self.client.wf(),
        ensures
            *final(panel_table_pointer) == self.panel.original_table_address(),
            final(client_funcs).wf(),
            final(client_funcs).functions@ == self.client.captured(),
    {
        let Hook { client, panel, .. } = self;
        let mut panel = panel;

        panel.teardown(panel_table_pointer);
        panel.release();

        client.restore(client_funcs);
    }
}

/// The whole lifecycle on one set of discovered inputs: install every hook,
/// let the runtime layer idle until told to stop, and unwind in reverse
/// order. Whether installation succeeds or fails at any step, the client
/// table and the panel's table pointer end exactly as they began.
pub fn run(
    hw_module: &GameModule,
    image: &[u8],
    surface_interface: usize,
    vgui2_module: &GameModule,
    panel_interface: usize,
    panel_table_pointer: &mut usize,
    panel_table: &Vec<usize>,
    paint_traverse: usize,
    panel_buffer_address: usize,
    client_funcs: &mut ClientFuncs,
    replacements: &client::ClientReplacements,
) -> (r: Result<(), Error>)
    requires
        hw_module.module.wf(),
        image@.len() == hw_module.module.size,
        hw_module.module.end <= u32::MAX,
        panel_table@.len() == vgui2::NUM_VTABLE_ENTRIES,
        old(client_funcs).wf(),
    ensures
        r is Ok <==> installable(
            hw_module.module,
            image@,
            surface_interface,
            panel_interface,
            *old(panel_table_pointer),
        ),
        final(client_funcs).wf(),
        final(client_funcs).functions@ == old(client_funcs).functions@,
        *final(panel_table_pointer) == *old(panel_table_pointer),
{
    let hook = match Hook::new(
        hw_module,
        image,
        surface_interface,
        vgui2_module,
        panel_interface,
        panel_table_pointer,
        panel_table,
        paint_traverse,
        panel_buffer_address,
        client_funcs,
        replacements,
    ) {
        Ok(h) => h,
        Err(e) => {
            return Err(e);
        },
    };

    // The runtime layer idles here until an external stop signal arrives.
    hook.teardown(panel_table_pointer, client_funcs);

    Ok(())
}

} // verus!

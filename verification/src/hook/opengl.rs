//! The renderer-primitive hook: records the exported drawing entry point a
//! detour redirects, so the replacement can forward to it.

use vstd::prelude::*;

verus! {

/// The exported symbol the hook resolves, with its terminator, exactly as
/// the export table spells it: `glBegin`.
pub open spec fn gl_begin_symbol() -> Seq<u8> {
    seq![0x67u8, 0x6cu8, 0x42u8, 0x65u8, 0x67u8, 0x69u8, 0x6eu8, 0u8]
}

/// Builds the symbol name handed to the export lookup.
pub fn gl_begin_symbol_bytes() -> (r: Vec<u8>)
    ensures
        r@ == gl_begin_symbol(),
{
    let mut r: Vec<u8> = Vec::new();
    r.push(0x67);
    r.push(0x6c);
    r.push(0x42);
    r.push(0x65);
    r.push(0x67);
    r.push(0x69);
    r.push(0x6e);
    r.push(0);
    assert(r@ =~= gl_begin_symbol());
    r
}

/// Why the drawing hook could not be installed.
#[derive(Debug)]
pub enum Error {
    /// The named export is absent from the renderer module.
    GetProcAddress(Vec<u8>),
}

/// An installed drawing hook: the address of the original exported entry
/// point, captured before the detour redirects it, for forwarding.
#[derive(Debug)]
pub struct Hook {
    pub original_gl_begin: usize,
}

impl Hook {
    /// Records the resolved drawing entry point the detour will redirect;
    /// `gl_begin` is the export lookup's result (`None` when absent). The
    /// detour transaction itself is performed by the runtime layer.
    pub fn new(gl_begin: Option<usize>) -> (r: Result<Hook, Error>)
        ensures
            r is Ok <==> gl_begin is Some,
            r matches Ok(h) ==> gl_begin matches Some(a) && h.original_gl_begin == a,
            r matches Err(e) ==> e matches Error::GetProcAddress(n) && n@ == gl_begin_symbol(),
    {
        match gl_begin {
            Some(address) => Ok(Hook { original_gl_begin: address }),
            None => Err(Error::GetProcAddress(gl_begin_symbol_bytes())),
        }
    }
}

} // verus!

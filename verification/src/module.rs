//! Loaded-module introspection and byte-pattern scanning.
//!
//! A `Module` holds the numeric metadata of one module mapped in the target
//! process: name, base address, image size, and one-past-the-end address. The
//! scan functions take the module's mapped bytes as a plain byte slice (read
//! out of the process by the runtime layer) and resolve addresses of byte
//! patterns inside it. `GameModule` adds the exported interface factory.

use vstd::prelude::*;
use vstd::string::StringSliceAdditionalSpecFns;

verus! {

/// What went wrong while resolving a module or one of its interfaces.
#[derive(Debug)]
pub enum ErrorKind {
    /// No module of the requested name is loaded.
    NullModule,
    /// The loader refused to report the module's base address and size.
    GetModuleInformation,
    /// The module does not export the interface factory.
    GetCreateInterface,
    /// The interface name cannot become a C string: it holds an interior
    /// terminator byte at the given index.
    StrConversion(String, usize),
    /// The factory returned a bad pointer for the named interface.
    BadInterface(String, crate::memory::Error),
}

/// A module-level failure: the module's name, and what went wrong.
#[derive(Debug)]
pub struct Error {
    pub module: String,
    pub kind: ErrorKind,
}

impl Error {
    /// Pairs a module name with a failure kind.
    pub fn new(module: &str, kind: ErrorKind) -> (e: Error)
        ensures
            e.module@ == module@,
            e.kind == kind,
    {
        Error { module: module.to_owned(), kind }
    }
}

/// `pattern` occurs in `image` at offset `k`.
pub open spec fn match_at(image: Seq<u8>, pattern: Seq<u8>, k: int) -> bool {
    &&& 0 <= k
    &&& k + pattern.len() <= image.len()
    &&& forall|i: int| 0 <= i < pattern.len() ==> image[k + i] == pattern[i]
}

/// `k` is the earliest offset at which `pattern` occurs in `image`.
pub open spec fn first_match_at(image: Seq<u8>, pattern: Seq<u8>, k: int) -> bool {
    &&& match_at(image, pattern, k)
    &&& forall|j: int| 0 <= j < k ==> !match_at(image, pattern, j)
}

/// `pattern` occurs somewhere in `image` — equivalently, it has an earliest
/// occurrence.
pub open spec fn pattern_found(image: Seq<u8>, pattern: Seq<u8>) -> bool {
    exists|k: int| first_match_at(image, pattern, k)
}

/// The earliest offset at which `pattern` occurs, where it occurs at all.
pub open spec fn first_match_index(image: Seq<u8>, pattern: Seq<u8>) -> int {
    choose|k: int| first_match_at(image, pattern, k)
}

/// A pattern has at most one earliest occurrence.
pub proof fn lemma_first_match_unique(image: Seq<u8>, pattern: Seq<u8>, k1: int, k2: int)
    requires
        first_match_at(image, pattern, k1),
        first_match_at(image, pattern, k2),
    ensures
        k1 == k2,
{
}

/// An earliest occurrence pins down `first_match_index`.
pub proof fn lemma_first_match_index(image: Seq<u8>, pattern: Seq<u8>, k: int)
    requires
        first_match_at(image, pattern, k),
    ensures
        pattern_found(image, pattern),
        first_match_index(image, pattern) == k,
{
    let c = first_match_index(image, pattern);
    assert(first_match_at(image, pattern, c));
    lemma_first_match_unique(image, pattern, c, k);
}

/// The masked pattern occurs at offset `k`: every fixed byte agrees, and a
/// `None` entry matches any byte.
pub open spec fn match_masked_at(image: Seq<u8>, pattern: Seq<Option<u8>>, k: int) -> bool {
    &&& 0 <= k
    &&& k + pattern.len() <= image.len()
    &&& forall|i: int|
        0 <= i < pattern.len() ==> (#[trigger] pattern[i] matches Some(b) ==> image[k + i] == b)
}

/// `k` is the earliest offset at which the masked pattern occurs.
pub open spec fn first_masked_match_at(image: Seq<u8>, pattern: Seq<Option<u8>>, k: int) -> bool {
    &&& match_masked_at(image, pattern, k)
    &&& forall|j: int| 0 <= j < k ==> !match_masked_at(image, pattern, j)
}

/// One module mapped in the target process. Immutable numeric metadata; the
/// mapped bytes themselves are read by the runtime layer and handed to the
/// scan functions as a slice of length `size`.
#[derive(Debug)]
pub struct Module {
    pub name: String,
    pub base: usize,
    pub size: usize,
    pub end: usize,
}

impl Module {
    /// The end address is exactly one past the mapped range.
    pub open spec fn wf(&self) -> bool {
        self.end == self.base + self.size
    }

    /// Builds the metadata of a loaded module from what the loader reported:
    /// `handle` is the module handle the loader returned (null when the
    /// module is not loaded), and `info` the queried base address and image
    /// size (`None` when the query failed).
    pub fn from(name: &str, handle: usize, info: Option<(usize, usize)>) -> (r: Result<
        Module,
        Error,
    >)
        requires
            info matches Some(i) ==> i.0 + i.1 <= usize::MAX,
        ensures
            handle == 0 ==> (r matches Err(e) && e.module@ == name@ && e.kind is NullModule),
            handle != 0 && info is None ==> (r matches Err(e) && e.module@ == name@
                && e.kind is GetModuleInformation),
            handle != 0 ==> (info matches Some(i) ==> (r matches Ok(m) && m.wf()
                && m.name@ == name@ && m.base == i.0 && m.size == i.1)),
    {
        if handle == 0 {
            return Err(Error::new(name, ErrorKind::NullModule));
        }

        match info {
            None => Err(Error::new(name, ErrorKind::GetModuleInformation)),
            Some((base, size)) => Ok(Module { name: name.to_owned(), base, size, end: base + size }),
        }
    }

    /// Compares `find_me` against `image` at offset `k`.
    fn eq_at(image: &[u8], find_me: &[u8], k: usize) -> (b: bool)
        requires
            k + find_me@.len() <= image@.len(),
            image@.len() <= usize::MAX,
        ensures
            b == match_at(image@, find_me@, k as int),
    {
        let mut i: usize = 0;
        while i < find_me.len()
            invariant
                i <= find_me@.len(),
                k + find_me@.len() <= image@.len(),
                image@.len() <= usize::MAX,
                forall|j: int| 0 <= j < i ==> image@[k + j] == find_me@[j],
            decreases find_me@.len() - i,
        {
            assert(k + i < image@.len());
            if image[k + i] != find_me[i] {
                assert(!match_at(image@, find_me@, k as int));
                return false;
            }
            i += 1;
        }
        true
    }

    /// Scans the module's mapped bytes for the first window equal to
    /// `find_me` and returns its absolute address, or `None` when the pattern
    /// occurs nowhere in the image.
    pub fn find_bytes(&self, image: &[u8], find_me: &[u8]) -> (r: Option<usize>)
        requires
            self.wf(),
            image@.len() == self.size,
            1 <= find_me@.len(),
        ensures
            r matches Some(address) ==> (self.base <= address && first_match_at(
                image@,
                find_me@,
                address - self.base,
            )),
            r is None ==> forall|k: int| !match_at(image@, find_me@, k),
    {
        if find_me.len() > image.len() {
            return None;
        }

        let last: usize = image.len() - find_me.len();
        let mut k: usize = 0;

        while k <= last
            invariant
                self.wf(),
                image@.len() == self.size,
                1 <= find_me@.len(),
                last + find_me@.len() == image@.len(),
                k <= last + 1,
                forall|j: int| 0 <= j < k ==> !match_at(image@, find_me@, j),
            decreases last + 1 - k,
        {
            if Self::eq_at(image, find_me, k) {
                return Some(self.base + k);
            }
            k += 1;
        }

        None
    }

    /// Scans for a string's bytes, exactly as present in the target binary;
    /// the caller controls whether a terminator byte is part of the pattern.
    pub fn find_string(&self, image: &[u8], string: &str) -> (r: Option<usize>)
        requires
            self.wf(),
            image@.len() == self.size,
            1 <= string.spec_bytes().len(),
        ensures
            r matches Some(address) ==> (self.base <= address && first_match_at(
                image@,
                string.spec_bytes(),
                address - self.base,
            )),
            r is None ==> forall|k: int| !match_at(image@, string.spec_bytes(), k),
    {
        self.find_bytes(image, string.as_bytes())
    }

    /// Compares the masked pattern against `image` at offset `k`.
    fn masked_eq_at(image: &[u8], pattern: &[Option<u8>], k: usize) -> (b: bool)
        requires
            k + pattern@.len() <= image@.len(),
            image@.len() <= usize::MAX,
        ensures
            b == match_masked_at(image@, pattern@, k as int),
    {
        let mut i: usize = 0;
        while i < pattern.len()
            invariant
                i <= pattern@.len(),
                k + pattern@.len() <= image@.len(),
                image@.len() <= usize::MAX,
                forall|j: int|
                    0 <= j < i ==> (#[trigger] pattern@[j] matches Some(b) ==> image@[k + j] == b),
            decreases pattern@.len() - i,
        {
            assert(k + i < image@.len());
            match pattern[i] {
                Some(b) => {
                    if image[k + i] != b {
                        assert(!match_masked_at(image@, pattern@, k as int));
                        return false;
                    }
                },
                None => {},
            }
            i += 1;
        }
        true
    }

    /// Scans for the first window matching a masked pattern, where a `None`
    /// entry stands for a wildcard byte, and returns its absolute address.
    pub fn find_pattern(&self, image: &[u8], pattern: &[Option<u8>]) -> (r: Option<usize>)
        requires
            self.wf(),
            image@.len() == self.size,
            1 <= pattern@.len(),
        ensures
            r matches Some(address) ==> (self.base <= address && first_masked_match_at(
                image@,
                pattern@,
                address - self.base,
            )),
            r is None ==> forall|k: int| !match_masked_at(image@, pattern@, k),
    {
        if pattern.len() > image.len() {
            return None;
        }

        let last: usize = image.len() - pattern.len();
        let mut k: usize = 0;

        while k <= last
            invariant
                self.wf(),
                image@.len() == self.size,
                1 <= pattern@.len(),
                last + pattern@.len() == image@.len(),
                k <= last + 1,
                forall|j: int| 0 <= j < k ==> !match_masked_at(image@, pattern@, j),
            decreases last + 1 - k,
        {
            if Self::masked_eq_at(image, pattern, k) {
                return Some(self.base + k);
            }
            k += 1;
        }

        None
    }
}

/// A validated pointer to a foreign interface object: non-null and correctly
/// aligned for the structure the caller asserts it to be.
#[derive(Debug)]
pub struct InterfaceHandle {
    pub address: usize,
    pub align: usize,
}

impl InterfaceHandle {
    pub open spec fn wf(&self) -> bool {
        1 <= self.align && crate::memory::address_ok(self.address, self.align)
    }
}

/// A module that exports an interface factory, with the factory's resolved
/// address cached.
#[derive(Debug)]
pub struct GameModule {
    pub module: Module,
    pub factory: usize,
}

impl GameModule {
    /// Pairs a module with its exported factory address, as resolved by the
    /// runtime layer (`None` when the export is absent).
    pub fn from(module: Module, create_interface: Option<usize>) -> (r: Result<GameModule, Error>)
        ensures
            create_interface is None ==> (r matches Err(e) && e.module@ == module.name@
                && e.kind is GetCreateInterface),
            create_interface matches Some(a) ==> (r matches Ok(g) && g.module == module
                && g.factory == a),
    {
        match create_interface {
            None => Err(Error::new(module.name.as_str(), ErrorKind::GetCreateInterface)),
            Some(address) => Ok(GameModule { module, factory: address }),
        }
    }

    /// Prepares an interface name for the factory's C calling convention:
    /// rejects names holding an interior terminator byte, reporting the index
    /// of the first one, and otherwise appends the terminator.
    pub fn interface_name_bytes(&self, name: &str) -> (r: Result<Vec<u8>, Error>)
        ensures
            r is Ok <==> forall|i: int|
                0 <= i < name.spec_bytes().len() ==> name.spec_bytes()[i] != 0,
            r matches Ok(v) ==> v@ == name.spec_bytes().push(0u8),
            r matches Err(e) ==> (e.module@ == self.module.name@
                && (e.kind matches ErrorKind::StrConversion(n, p) && n@ == name@
                && name.spec_bytes()[p as int] == 0 && (forall|j: int|
                0 <= j < p ==> name.spec_bytes()[j] != 0))),
    {
        let bytes = name.as_bytes();
        let mut i: usize = 0;

        while i < bytes.len()
            invariant
                i <= bytes@.len(),
                bytes@ == name.spec_bytes(),
                forall|j: int| 0 <= j < i ==> name.spec_bytes()[j] != 0,
            decreases bytes@.len() - i,
        {
            if bytes[i] == 0 {
                return Err(Error::new(
                    self.module.name.as_str(),
                    ErrorKind::StrConversion(name.to_owned(), i),
                ));
            }
            i += 1;
        }

        let mut out = vstd::slice::slice_to_vec(bytes);
        out.push(0);
        Ok(out)
    }

    /// Validates the pointer the factory returned for the named interface:
    /// null or misaligned pointers are rejected as `BadInterface`, with the
    /// underlying pointer diagnostic attached. `align` is the alignment the
    /// interface structure requires.
    pub fn create_interface(&self, name: &str, returned: usize, align: usize) -> (r: Result<
        InterfaceHandle,
        Error,
    >)
        requires
            1 <= align,
        ensures
            r is Ok <==> crate::memory::address_ok(returned, align),
            r matches Ok(h) ==> (h.wf() && h.address == returned && h.align == align),
            r matches Err(e) ==> (e.module@ == self.module.name@
                && (e.kind matches ErrorKind::BadInterface(n, me) && n@ == name@
                && me == crate::memory::check_error(returned, align))),
    {
        match crate::memory::ptr_check(returned, align) {
            Ok(()) => Ok(InterfaceHandle { address: returned, align }),
            Err(e) => Err(Error::new(
                self.module.name.as_str(),
                ErrorKind::BadInterface(name.to_owned(), e),
            )),
        }
    }
}

} // verus!

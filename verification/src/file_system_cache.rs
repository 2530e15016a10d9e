//! The directory-backed store for compiled module artifacts.
//!
//! The cache owns only its configuration: a base path and the version tag of
//! the artifacts it may read and write. Entries live under
//! `<base_path>/<version tag>/<checksum hex>`; the version tag combines the
//! serialization format version with the build identifier of the running
//! execution engine, so artifacts written under incompatible binary layouts
//! are never read as if they were compatible.
//!
//! The cache itself performs no filesystem calls. It derives the exact paths
//! the unverified runner must touch, and it maps the runner's observed
//! outcome of each filesystem action to the operation's result — in
//! particular to the deterministic, platform-independent errors of
//! [`crate::errors`].

use vstd::prelude::*;
use vstd::string::StringExecFns;

use crate::checksum::{hex_of, Checksum};
use crate::errors::{VmError, VmResult};

verus! {

/// Base-ten digit character for a value below ten.
pub open spec fn decimal_digit(d: nat) -> char {
    if d == 0 {
        '0'
    } else if d == 1 {
        '1'
    } else if d == 2 {
        '2'
    } else if d == 3 {
        '3'
    } else if d == 4 {
        '4'
    } else if d == 5 {
        '5'
    } else if d == 6 {
        '6'
    } else if d == 7 {
        '7'
    } else if d == 8 {
        '8'
    } else {
        '9'
    }
}

/// Base-ten rendering of a number, most significant digit first, without
/// leading zeros (a lone zero renders as "0").
pub open spec fn decimal_of(n: nat) -> Seq<char>
    decreases n,
{
    if n < 10 {
        seq![decimal_digit(n)]
    } else {
        decimal_of(n / 10).push(decimal_digit(n % 10))
    }
}

/// The version-tag path segment partitioning the cache: the serialization
/// format version ("v4"), bumped whenever the on-disk module representation
/// changes incompatibly, followed by the build identifier of the running
/// execution engine. Two artifacts under the same tag are binary-layout
/// compatible; artifacts under different tags are never read interchangeably.
pub open spec fn version_tag(wasmer_module_version: u32) -> Seq<char> {
    "v4-wasmer"@ + decimal_of(wasmer_module_version as nat)
}

/// Path of the active versioned directory under a base path.
pub open spec fn modules_path(base: Seq<char>, wasmer_module_version: u32) -> Seq<char> {
    base + "/"@ + version_tag(wasmer_module_version)
}

/// Path of the entry file that stores the artifact with the given checksum.
pub open spec fn entry_path(
    base: Seq<char>,
    wasmer_module_version: u32,
    checksum: Seq<u8>,
) -> Seq<char> {
    modules_path(base, wasmer_module_version) + "/"@ + hex_of(checksum)
}

/// One-character string holding a single base-ten digit.
fn decimal_digit_str(d: u32) -> (r: &'static str)
    requires
        d < 10,
    ensures
        r@ == seq![decimal_digit(d as nat)],
{
    let r: &'static str = match d {
        0 => "0",
        1 => "1",
        2 => "2",
        3 => "3",
        4 => "4",
        5 => "5",
        6 => "6",
        7 => "7",
        8 => "8",
        _ => "9",
    };
    proof {
        reveal_strlit("0");
        reveal_strlit("1");
        reveal_strlit("2");
        reveal_strlit("3");
        reveal_strlit("4");
        reveal_strlit("5");
        reveal_strlit("6");
        reveal_strlit("7");
        reveal_strlit("8");
        reveal_strlit("9");
        assert(r@ =~= seq![decimal_digit(d as nat)]);
    }
    r
}

/// Appends the base-ten rendering of `n` to `s`.
fn push_decimal(n: u32, s: &mut String)
    ensures
        final(s)@ == old(s)@ + decimal_of(n as nat),
    decreases n,
{
    if n >= 10 {
        push_decimal(n / 10, s);
    }
    s.append(decimal_digit_str(n % 10));
    proof {
        assert((n / 10) as nat == n as nat / 10);
        assert((n % 10) as nat == n as nat % 10);
        assert(final(s)@ =~= old(s)@ + decimal_of(n as nat));
    }
}

/// A compiled module artifact in the engine's serialized on-disk
/// representation: exactly the bytes its cache entry file holds. The engine's
/// serializer produces these bytes and its deserializer consumes them; the
/// cache never inspects them.
#[derive(Debug, PartialEq, Eq)]
pub struct Module {
    bytes: Vec<u8>,
}

impl View for Module {
    type V = Seq<u8>;

    closed spec fn view(&self) -> Seq<u8> {
        self.bytes@
    }
}

impl Module {
    /// Wraps serialized artifact bytes produced by the engine.
    pub fn from_bytes(bytes: Vec<u8>) -> (r: Module)
        ensures
            r@ == bytes@,
    {
        Module { bytes }
    }

    /// The serialized representation, as written to a cache entry file.
    pub fn as_bytes(&self) -> (r: &Vec<u8>)
        ensures
            r@ == self@,
    {
        &self.bytes
    }

    /// The serialized byte length.
    pub fn len(&self) -> (r: usize)
        ensures
            r == self@.len(),
    {
        self.bytes.len()
    }
}

/// Construction failure. System-specific detail is deliberately absent so
/// the same failure is reported identically on every operating system.
#[derive(Clone, Copy, Debug, PartialEq, Eq)]
pub enum NewFileSystemCacheError {
    /// Metadata of the supplied path could not be retrieved.
    CouldntGetMetadata,
    /// The supplied path is read-only.
    ReadonlyPath,
    /// The supplied path exists but is not a directory.
    ExistsButNoDirectory,
    /// The supplied path did not exist and could not be created.
    CouldntCreatePath,
}

impl NewFileSystemCacheError {
    /// The description this error renders to.
    pub open spec fn spec_message(self) -> Seq<char> {
        match self {
            NewFileSystemCacheError::CouldntGetMetadata => "Could not get metadata of cache path"@,
            NewFileSystemCacheError::ReadonlyPath => "The supplied path is readonly"@,
            NewFileSystemCacheError::ExistsButNoDirectory => "The supplied path already exists but is no directory"@,
            NewFileSystemCacheError::CouldntCreatePath => "Could not create cache path"@,
        }
    }

    /// The description of this error.
    pub fn message(&self) -> (r: &'static str)
        ensures
            r@ == self.spec_message(),
    {
        match self {
            NewFileSystemCacheError::CouldntGetMetadata => "Could not get metadata of cache path",
            NewFileSystemCacheError::ReadonlyPath => "The supplied path is readonly",
            NewFileSystemCacheError::ExistsButNoDirectory => "The supplied path already exists but is no directory",
            NewFileSystemCacheError::CouldntCreatePath => "Could not create cache path",
        }
    }
}

/// What the runner observed about the base path before constructing a cache:
/// the outcome of probing the path and, where it was missing, of attempting
/// to create it together with its missing parents.
#[derive(Clone, Copy, Debug, PartialEq, Eq)]
pub enum PathStatus {
    /// The path exists but its metadata could not be retrieved.
    MetadataUnavailable,
    /// The path exists and is a directory.
    Directory { readonly: bool },
    /// The path exists but is not a directory.
    NotADirectory,
    /// The path did not exist and was created, with its missing parents.
    Created,
    /// The path did not exist and could not be created.
    CreateFailed,
}

/// Outcome the runner observed when fetching an entry file for a load.
pub enum LoadOutcome {
    /// No file exists at the entry path: a cache miss.
    Missing,
    /// A file exists but could not be opened or read.
    Unreadable,
    /// The file's bytes were read but the engine's structural decode of them
    /// failed.
    Undecodable,
    /// The artifact was materialized from the file's bytes.
    Loaded { module: Module },
}

/// Outcome the runner observed when writing an entry file for a store.
#[derive(Clone, Copy, Debug, PartialEq, Eq)]
pub enum StoreOutcome {
    /// The versioned directory was absent and could not be created.
    DirectoryUnavailable,
    /// The entry file could not be written.
    WriteFailed,
    /// The entry file was written completely.
    Written,
}

/// Outcome the runner observed when deleting an entry file.
#[derive(Clone, Copy, Debug, PartialEq, Eq)]
pub enum RemoveOutcome {
    /// No file exists at the entry path.
    Missing,
    /// The file existed and was deleted.
    Removed,
    /// The file exists but could not be deleted.
    RemoveFailed,
}

/// Representation of a directory that contains compiled module artifacts.
///
/// Beyond its configuration the cache holds no state: every operation works
/// on the path derived from the current version tag and the checksum it is
/// given.
#[derive(Debug)]
pub struct FileSystemCache {
    /// The base path this cache operates in. Within this path, versioned
    /// directories are created.
    base_path: String,
    wasmer_module_version: u32,
}

impl FileSystemCache {
    /// The base path this cache operates in.
    pub closed spec fn spec_base_path(self) -> Seq<char> {
        self.base_path@
    }

    /// The build identifier of the execution engine this cache serves.
    pub closed spec fn spec_wasmer_module_version(self) -> u32 {
        self.wasmer_module_version
    }

    /// Construct a new cache around the path whose observed state is
    /// `status`; `wasmer_module_version` is the build identifier of the
    /// running engine, resolved once by the caller.
    ///
    /// Trust boundary: a later load interprets entry files as raw
    /// machine-layout dumps without structural validation, so the caller
    /// must only point the cache at a directory whose contents it trusts —
    /// empty, or previously written by a binary-compatible engine. Malformed
    /// bytes placed at an entry path can violate memory safety of the
    /// process that decodes them.
    pub fn new(
        path: String,
        wasmer_module_version: u32,
        status: PathStatus,
    ) -> (r: Result<FileSystemCache, NewFileSystemCacheError>)
        ensures
            status == PathStatus::MetadataUnavailable ==> r == Err::<FileSystemCache,
                NewFileSystemCacheError,
            >(NewFileSystemCacheError::CouldntGetMetadata),
            status == (PathStatus::Directory { readonly: true }) ==> r == Err::<FileSystemCache,
                NewFileSystemCacheError,
            >(NewFileSystemCacheError::ReadonlyPath),
            status == PathStatus::NotADirectory ==> r == Err::<FileSystemCache,
                NewFileSystemCacheError,
            >(NewFileSystemCacheError::ExistsButNoDirectory),
            status == PathStatus::CreateFailed ==> r == Err::<FileSystemCache,
                NewFileSystemCacheError,
            >(NewFileSystemCacheError::CouldntCreatePath),
            status == (PathStatus::Directory { readonly: false }) || status == PathStatus::Created
                ==> (r matches Ok(c) && c.spec_base_path() == path@
                && c.spec_wasmer_module_version() == wasmer_module_version),
    {
        match status {
            PathStatus::MetadataUnavailable => Err(NewFileSystemCacheError::CouldntGetMetadata),
            PathStatus::Directory { readonly } => {
                if readonly {
                    Err(NewFileSystemCacheError::ReadonlyPath)
                } else {
                    Ok(FileSystemCache { base_path: path, wasmer_module_version })
                }
            },
            PathStatus::NotADirectory => Err(NewFileSystemCacheError::ExistsButNoDirectory),
            PathStatus::Created => Ok(FileSystemCache { base_path: path, wasmer_module_version }),
            PathStatus::CreateFailed => Err(NewFileSystemCacheError::CouldntCreatePath),
        }
    }

    /// The path of the directory holding the modules of the current version
    /// tag.
    pub fn latest_modules_path(&self) -> (r: String)
        ensures
            r@ == modules_path(self.spec_base_path(), self.spec_wasmer_module_version()),
    {
        let mut p = self.base_path.clone();
        p.append("/");
        p.append("v4-wasmer");
        push_decimal(self.wasmer_module_version, &mut p);
        proof {
            assert(p@ =~= modules_path(self.spec_base_path(), self.spec_wasmer_module_version()));
        }
        p
    }

    /// The path of the entry file for `checksum` under the active versioned
    /// directory.
    pub fn module_file_path(&self, checksum: &Checksum) -> (r: String)
        ensures
            r@ == entry_path(
                self.spec_base_path(),
                self.spec_wasmer_module_version(),
                checksum@,
            ),
    {
        let mut p = self.latest_modules_path();
        p.append("/");
        let hexname = checksum.to_hex();
        p.append(hexname.as_str());
        proof {
            assert(p@ =~= entry_path(
                self.spec_base_path(),
                self.spec_wasmer_module_version(),
                checksum@,
            ));
        }
        p
    }

    /// Result of loading the serialized module stored for `checksum`, given
    /// what the runner observed at the entry path: either the materialized
    /// module with its estimated in-memory size, "absent" for a miss, or a
    /// deterministic cache error.
    ///
    /// A miss is not an error: absent entries and failures are disjoint
    /// outcomes, and only environment faults and structural decode failures
    /// are errors.
    pub fn load(&self, checksum: &Checksum, fetched: LoadOutcome) -> (r: VmResult<
        Option<(Module, usize)>,
    >)
        ensures
            fetched is Missing ==> (r matches Ok(o) && o is None),
            fetched is Unreadable ==> (r matches Err(e) && e.spec_message()
                == "Error opening module file"@),
            fetched is Undecodable ==> (r matches Err(e) && e.spec_message()
                == "Error deserializing module"@),
            fetched matches LoadOutcome::Loaded { module } ==> (r matches Ok(o) && o matches Some(
                p,
            ) && p.0@ == module@ && p.1 == module@.len()),
    {
        match fetched {
            LoadOutcome::Missing => Ok(None),
            LoadOutcome::Unreadable => Err(VmError::cache_err("Error opening module file")),
            LoadOutcome::Undecodable => Err(VmError::cache_err("Error deserializing module")),
            LoadOutcome::Loaded { module } => {
                let size = module.len();
                Ok(Some((module, size)))
            },
        }
    }

    /// Result of storing `module` for `checksum`, given what the runner
    /// observed while creating the versioned directory and writing the entry
    /// file: the on-disk byte length of the entry just written — a good
    /// approximation of the in-memory module size, not an exact measure — or
    /// a deterministic cache error.
    pub fn store(&mut self, checksum: &Checksum, module: &Module, written: StoreOutcome) -> (r:
        VmResult<usize>)
        ensures
            final(self).spec_base_path() == old(self).spec_base_path(),
            final(self).spec_wasmer_module_version() == old(self).spec_wasmer_module_version(),
            written == StoreOutcome::DirectoryUnavailable ==> (r matches Err(e) && e.spec_message()
                == "Error creating modules directory"@),
            written == StoreOutcome::WriteFailed ==> (r matches Err(e) && e.spec_message()
                == "Error writing module to disk"@),
            written == StoreOutcome::Written ==> r == Ok::<usize, VmError>(module@.len() as usize),
    {
        match written {
            StoreOutcome::DirectoryUnavailable => Err(
                VmError::cache_err("Error creating modules directory"),
            ),
            StoreOutcome::WriteFailed => Err(VmError::cache_err("Error writing module to disk")),
            StoreOutcome::Written => Ok(module.len()),
        }
    }

    /// Result of removing the entry stored for `checksum`, given what the
    /// runner observed at the entry path: `true` if a file existed and was
    /// deleted, `false` if none existed (not an error), or a deterministic
    /// cache error when an existing file could not be deleted.
    pub fn remove(&mut self, checksum: &Checksum, outcome: RemoveOutcome) -> (r: VmResult<bool>)
        ensures
            final(self).spec_base_path() == old(self).spec_base_path(),
            final(self).spec_wasmer_module_version() == old(self).spec_wasmer_module_version(),
            outcome == RemoveOutcome::Missing ==> r == Ok::<bool, VmError>(false),
            outcome == RemoveOutcome::Removed ==> r == Ok::<bool, VmError>(true),
            outcome == RemoveOutcome::RemoveFailed ==> (r matches Err(e) && e.spec_message()
                == "Error deleting module from disk"@),
    {
        match outcome {
            RemoveOutcome::Missing => Ok(false),
            RemoveOutcome::Removed => Ok(true),
            RemoveOutcome::RemoveFailed => Err(
                VmError::cache_err("Error deleting module from disk"),
            ),
        }
    }
}

/// A base-ten rendering has at least one digit, and at least two for a
/// number of ten or more.
proof fn lemma_decimal_len(n: nat)
    ensures
        decimal_of(n).len() >= 1,
        n >= 10 ==> decimal_of(n).len() >= 2,
    decreases n,
{
    if n >= 10 {
        lemma_decimal_len(n / 10);
    }
}

/// Base-ten renderings are injective: equal digit sequences mean equal
/// numbers.
proof fn lemma_decimal_injective(a: nat, b: nat)
    requires
        decimal_of(a) == decimal_of(b),
    ensures
        a == b,
    decreases a,
{
    lemma_decimal_len(a);
    lemma_decimal_len(b);
    if a < 10 && b < 10 {
        assert(decimal_of(a)[0] == decimal_digit(a));
        assert(decimal_of(b)[0] == decimal_digit(b));
    } else if a >= 10 && b >= 10 {
        let pa = decimal_of(a / 10);
        let pb = decimal_of(b / 10);
        assert(decimal_of(a).last() == decimal_digit(a % 10));
        assert(decimal_of(b).last() == decimal_digit(b % 10));
        assert(a % 10 == b % 10);
        assert(decimal_of(a).drop_last() =~= pa);
        assert(decimal_of(b).drop_last() =~= pb);
        lemma_decimal_injective(a / 10, b / 10);
        vstd::arithmetic::div_mod::lemma_fundamental_div_mod(a as int, 10);
        vstd::arithmetic::div_mod::lemma_fundamental_div_mod(b as int, 10);
    } else if a < 10 {
        assert(decimal_of(a).len() == 1);
        assert(decimal_of(b).len() >= 2);
    } else {
        assert(decimal_of(b).len() == 1);
        assert(decimal_of(a).len() >= 2);
    }
}

/// In two concatenations sharing their prefix whose suffixes have equal
/// length, the middle parts (and the suffixes) coincide.
proof fn lemma_cancel_middle(
    p: Seq<char>,
    a1: Seq<char>,
    a2: Seq<char>,
    s1: Seq<char>,
    s2: Seq<char>,
)
    requires
        p + a1 + s1 == p + a2 + s2,
        s1.len() == s2.len(),
    ensures
        a1 == a2,
        s1 == s2,
{
    assert((p + a1 + s1).len() == (p + a2 + s2).len());
    assert((p + a1 + s1).len() == p.len() + a1.len() + s1.len());
    assert((p + a2 + s2).len() == p.len() + a2.len() + s2.len());
    assert(a1.len() == a2.len());
    assert forall|i: int| 0 <= i < a1.len() implies a1[i] == a2[i] by {
        assert((p + a1 + s1)[p.len() + i] == a1[i]);
        assert((p + a2 + s2)[p.len() + i] == a2[i]);
    }
    assert(a1 =~= a2);
    assert forall|i: int| 0 <= i < s1.len() implies s1[i] == s2[i] by {
        assert((p + a1 + s1)[p.len() + a1.len() + i] == s1[i]);
        assert((p + a2 + s2)[p.len() + a2.len() + i] == s2[i]);
    }
    assert(s1 =~= s2);
}

/// Version isolation: caches over the same base path but with different
/// engine build identifiers — hence different version tags — never touch
/// the same entry file, not even for equally long (or equal) checksums.
/// Artifacts written under one binary layout are therefore invisible to a
/// cache expecting another.
pub proof fn lemma_version_isolation(
    base: Seq<char>,
    v1: u32,
    v2: u32,
    c1: Seq<u8>,
    c2: Seq<u8>,
)
    requires
        v1 != v2,
        c1.len() == c2.len(),
    ensures
        entry_path(base, v1, c1) != entry_path(base, v2, c2),
{
    let p = base + "/"@ + "v4-wasmer"@;
    let a1 = decimal_of(v1 as nat);
    let a2 = decimal_of(v2 as nat);
    let s1 = "/"@ + crate::checksum::hex_of(c1);
    let s2 = "/"@ + crate::checksum::hex_of(c2);
    crate::checksum::lemma_hex_of_len(c1);
    crate::checksum::lemma_hex_of_len(c2);
    assert(entry_path(base, v1, c1) =~= p + a1 + s1);
    assert(entry_path(base, v2, c2) =~= p + a2 + s2);
    if entry_path(base, v1, c1) == entry_path(base, v2, c2) {
        lemma_cancel_middle(p, a1, a2, s1, s2);
        lemma_decimal_injective(v1 as nat, v2 as nat);
    }
}

/// Estimates the in-memory size of a module from the byte length its entry
/// file was observed to have on disk, `None` when the file's metadata could
/// not be retrieved. The on-disk length is a good approximation of the
/// in-memory size because the serialization format is a near-literal dump of
/// the module's memory layout; it must not be treated as exact.
pub fn estimate_module_size(file_length: Option<u64>) -> (r: VmResult<usize>)
    requires
        file_length matches Some(n) ==> n <= usize::MAX,
    ensures
        file_length matches Some(n) ==> r == Ok::<usize, VmError>(n as usize),
        file_length is None ==> (r matches Err(e) && e.spec_message()
            == "Error getting file metadata"@),
{
    match file_length {
        Some(n) => Ok(n as usize),
        None => Err(VmError::cache_err("Error getting file metadata")),
    }
}

} // verus!

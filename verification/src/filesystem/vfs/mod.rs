//! The virtual filesystem: the trait that the embedding program implements,
//! and the calls that go through the one that was set.
use vstd::prelude::*;

pub mod walkdir;

verus! {

/// What a virtual filesystem call can fail with.
#[derive(Clone, Copy, Debug, PartialEq, Eq, Structural)]
pub enum VirtualFilesystemError {
    AlreadySet,
    NotSet,
    FileNotFound,
    FileAlreadyExists,
    PermissionDenied,
    InvalidPath,
    FileCreateError,
}

impl VirtualFilesystemError {
    /// The text that `message` gives.
    pub open spec fn spec_message(self) -> Seq<char> {
        match self {
            VirtualFilesystemError::AlreadySet => "Filesystem already set"@,
            VirtualFilesystemError::NotSet => "Filesystem not set"@,
            VirtualFilesystemError::FileNotFound => "File not found"@,
            VirtualFilesystemError::FileAlreadyExists => "File already exists"@,
            VirtualFilesystemError::PermissionDenied => "Permission denied"@,
            VirtualFilesystemError::InvalidPath => "Invalid path"@,
            VirtualFilesystemError::FileCreateError => "Failed to create file"@,
        }
    }

    /// The message of the error, as its `Display` writes it.
    pub fn message(&self) -> (r: &'static str)
        ensures
            r@ == self.spec_message(),
    {
        match self {
            VirtualFilesystemError::AlreadySet => "Filesystem already set",
            VirtualFilesystemError::NotSet => "Filesystem not set",
            VirtualFilesystemError::FileNotFound => "File not found",
            VirtualFilesystemError::FileAlreadyExists => "File already exists",
            VirtualFilesystemError::PermissionDenied => "Permission denied",
            VirtualFilesystemError::InvalidPath => "Invalid path",
            VirtualFilesystemError::FileCreateError => "Failed to create file",
        }
    }
}

/// What a virtual filesystem tells of a file or directory.
#[derive(Debug)]
pub struct VirtualMetadata {
    pub is_dir: bool,
    pub name: String,
    pub size: u64,
    pub file_count: u64,
}

impl VirtualMetadata {
    pub fn is_file(&self) -> (r: bool)
        ensures
            r == !self.is_dir,
    {
        !self.is_dir
    }

    pub fn is_dir(&self) -> (r: bool)
        ensures
            r == self.is_dir,
    {
        self.is_dir
    }
}

/// An entry of a directory listing.
#[derive(Debug)]
pub struct VirtualEntry {
    pub is_dir: bool,
    pub path: String,
    pub name: String,
}

impl VirtualEntry {
    /// The entry at `path` that `metadata` describes.
    pub fn from_metadata(path: String, metadata: VirtualMetadata) -> (r: VirtualEntry)
        ensures
            r.is_dir == metadata.is_dir,
            r.path == path,
            r.name == metadata.name,
    {
        VirtualEntry { is_dir: metadata.is_dir, path, name: metadata.name }
    }
}

/// A filesystem that the embedding program provides.
pub trait VirtualFilesystem {
    /// The metadata of `path`. For a directory the size and file count are
    /// not computed; for a file they are its size and 0.
    fn metadata(&self, path: String) -> Result<VirtualMetadata, VirtualFilesystemError>;

    /// The entries of the directory `path`. A directory entry carries the
    /// summed size of its contents and the number of files in it; a file
    /// entry its size and a file count of 1.
    fn read_dir(&self, path: String) -> Result<Vec<VirtualMetadata>, VirtualFilesystemError>;

    /// The top entries of the directory `path`, without sizes.
    fn list_dir(&self, path: String) -> Result<Vec<VirtualEntry>, VirtualFilesystemError>;

    /// Creates the directory `folder` (a relative path) inside `path`, and
    /// returns its path.
    fn create_dir(&self, path: String, folder: String) -> Result<String, VirtualFilesystemError>;

    /// Opens a file and returns its file descriptor.
    fn open_file(&self, path: String) -> Result<i32, VirtualFilesystemError>;

    /// Creates the file `file` (a relative path) inside `path` and returns its
    /// file descriptor.
    fn create_file(&self, path: String, file: String) -> Result<i32, VirtualFilesystemError>;
}

/// Whether `r` is an answer that the filesystem `vfs` may give when asked
/// for the metadata of `path`.
pub open spec fn answers_metadata<V: VirtualFilesystem>(
    vfs: V,
    path: Seq<char>,
    r: Result<VirtualMetadata, VirtualFilesystemError>,
) -> bool {
    exists|p: String| p@ == path && call_ensures(V::metadata, (&vfs, p), r)
}

/// Whether `r` is an answer that `vfs` may give when asked for the entries,
/// with sizes, of the directory `path`.
pub open spec fn answers_read_dir<V: VirtualFilesystem>(
    vfs: V,
    path: Seq<char>,
    r: Result<Vec<VirtualMetadata>, VirtualFilesystemError>,
) -> bool {
    exists|p: String| p@ == path && call_ensures(V::read_dir, (&vfs, p), r)
}

/// Whether `r` is an answer that `vfs` may give when asked for the top
/// entries of the directory `path`.
pub open spec fn answers_list_dir<V: VirtualFilesystem>(
    vfs: V,
    path: Seq<char>,
    r: Result<Vec<VirtualEntry>, VirtualFilesystemError>,
) -> bool {
    exists|p: String| p@ == path && call_ensures(V::list_dir, (&vfs, p), r)
}

/// Whether `r` is an answer that `vfs` may give when asked to create the
/// directory `folder` inside `path`.
pub open spec fn answers_create_dir<V: VirtualFilesystem>(
    vfs: V,
    path: Seq<char>,
    folder: Seq<char>,
    r: Result<String, VirtualFilesystemError>,
) -> bool {
    exists|p: String, f: String| p@ == path && f@ == folder && call_ensures(V::create_dir, (&vfs, p, f), r)
}

/// Whether `r` is an answer that `vfs` may give when asked to open the file
/// `path`.
pub open spec fn answers_open_file<V: VirtualFilesystem>(vfs: V, path: Seq<char>, r: Result<i32, VirtualFilesystemError>) -> bool {
    exists|p: String| p@ == path && call_ensures(V::open_file, (&vfs, p), r)
}

/// Whether `r` is an answer that `vfs` may give when asked to create the
/// file `file` inside `path`.
pub open spec fn answers_create_file<V: VirtualFilesystem>(
    vfs: V,
    path: Seq<char>,
    file: Seq<char>,
    r: Result<i32, VirtualFilesystemError>,
) -> bool {
    exists|p: String, f: String| p@ == path && f@ == file && call_ensures(V::create_file, (&vfs, p, f), r)
}

/// Sets the virtual filesystem, once: a second call leaves the first in place
/// and fails with `AlreadySet`.
pub fn set_virtual_filesystem<V: VirtualFilesystem>(slot: &mut Option<V>, vfs: V) -> (r: Result<
    (),
    VirtualFilesystemError,
>)
    ensures
        (*old(slot)) is Some ==> r == Err::<(), VirtualFilesystemError>(
            VirtualFilesystemError::AlreadySet,
        ) && *final(slot) == *old(slot),
        (*old(slot)) is None ==> r is Ok && *final(slot) == Some(vfs),
{
    if slot.is_some() {
        Err(VirtualFilesystemError::AlreadySet)
    } else {
        *slot = Some(vfs);
        Ok(())
    }
}

/// The metadata of `path` from the filesystem that was set: its answer,
/// asked with `path`, as it came; `NotSet` when none was.
pub fn metadata<V: VirtualFilesystem>(slot: &Option<V>, path: &str) -> (r: Result<
    VirtualMetadata,
    VirtualFilesystemError,
>)
    ensures
        slot is None ==> r is Err && r->Err_0 == VirtualFilesystemError::NotSet,
        slot is Some ==> answers_metadata(slot->0, path@, r),
{
    match slot {
        Some(vfs) => vfs.metadata(crate::text::to_owned_string(path)),
        None => Err(VirtualFilesystemError::NotSet),
    }
}

/// The entries of the directory `path`, with sizes: the answer of the
/// filesystem that was set, asked with `path`, as it came; `NotSet` when no
/// filesystem was set.
pub fn read_dir<V: VirtualFilesystem>(slot: &Option<V>, path: &str) -> (r: Result<
    Vec<VirtualMetadata>,
    VirtualFilesystemError,
>)
    ensures
        slot is None ==> r is Err && r->Err_0 == VirtualFilesystemError::NotSet,
        slot is Some ==> answers_read_dir(slot->0, path@, r),
{
    match slot {
        Some(vfs) => vfs.read_dir(crate::text::to_owned_string(path)),
        None => Err(VirtualFilesystemError::NotSet),
    }
}

/// The top entries of the directory `path`: the answer of the filesystem
/// that was set, asked with `path`, as it came; `NotSet` when no filesystem
/// was set.
pub fn list_dir<V: VirtualFilesystem>(slot: &Option<V>, path: &str) -> (r: Result<
    Vec<VirtualEntry>,
    VirtualFilesystemError,
>)
    ensures
        slot is None ==> r is Err && r->Err_0 == VirtualFilesystemError::NotSet,
        slot is Some ==> answers_list_dir(slot->0, path@, r),
{
    match slot {
        Some(vfs) => vfs.list_dir(crate::text::to_owned_string(path)),
        None => Err(VirtualFilesystemError::NotSet),
    }
}

/// Creates the directory `folder` inside `path`: the answer of the
/// filesystem that was set, asked with `path` and `folder` in that order, as
/// it came; `NotSet` when no filesystem was set.
pub fn create_dir<V: VirtualFilesystem>(slot: &Option<V>, path: &str, folder: &str) -> (r:
    Result<String, VirtualFilesystemError>)
    ensures
        slot is None ==> r is Err && r->Err_0 == VirtualFilesystemError::NotSet,
        slot is Some ==> answers_create_dir(slot->0, path@, folder@, r),
{
    match slot {
        Some(vfs) => vfs.create_dir(
            crate::text::to_owned_string(path),
            crate::text::to_owned_string(folder),
        ),
        None => Err(VirtualFilesystemError::NotSet),
    }
}

/// Opens the file `path` and returns its file descriptor: the answer of the
/// filesystem that was set, asked with `path`, as it came; `NotSet` when no
/// filesystem was set.
pub fn open_file<V: VirtualFilesystem>(slot: &Option<V>, path: &str) -> (r: Result<
    i32,
    VirtualFilesystemError,
>)
    ensures
        slot is None ==> r is Err && r->Err_0 == VirtualFilesystemError::NotSet,
        slot is Some ==> answers_open_file(slot->0, path@, r),
{
    match slot {
        Some(vfs) => vfs.open_file(crate::text::to_owned_string(path)),
        None => Err(VirtualFilesystemError::NotSet),
    }
}

/// Creates the file `file` inside `path` and returns its file descriptor:
/// the answer of the filesystem that was set, asked with `path` and `file`
/// in that order, as it came; `NotSet` when no filesystem was set.
pub fn create_file<V: VirtualFilesystem>(slot: &Option<V>, path: &str, file: &str) -> (r:
    Result<i32, VirtualFilesystemError>)
    ensures
        slot is None ==> r is Err && r->Err_0 == VirtualFilesystemError::NotSet,
        slot is Some ==> answers_create_file(slot->0, path@, file@, r),
{
    match slot {
        Some(vfs) => vfs.create_file(
            crate::text::to_owned_string(path),
            crate::text::to_owned_string(file),
        ),
        None => Err(VirtualFilesystemError::NotSet),
    }
}

} // verus!

//! An abstraction of the filesystem for systems that reach files through a
//! service of their own (the Storage Access Framework on Android): the
//! embedding program implements [`vfs::VirtualFilesystem`] and hands it over.
pub mod vfs;

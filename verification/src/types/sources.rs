//! Summing up the sources of an outgoing transfer on a virtual filesystem:
//! their total size, how many files they hold, their names, and the name and
//! MIME type of a single file.
use vstd::prelude::*;
use crate::filesystem::vfs::{
    answers_metadata, answers_read_dir, metadata, read_dir, VirtualFilesystem, VirtualFilesystemError,
    VirtualMetadata,
};
use crate::text::{chars_of, substring};
use crate::types::transfer::{SourcePathError, Transfer, TransferView, opt_chars};

verus! {

/// The MIME type that `mime_guess` gives for the file extension `ext`: the
/// first type it knows for it, or `application/octet-stream`.
pub uninterp spec fn mime_type_for_extension(ext: Seq<char>) -> Seq<char>;

/// `mime_guess::from_ext(ext).first_or_octet_stream()`, as the text of the
/// type's essence; named by [`mime_type_for_extension`].
#[verifier::external_body]
fn guess_mime_type(ext: &str) -> (r: String)
    ensures
        r@ == mime_type_for_extension(ext@),
{
    mime_guess::from_ext(ext).first_or_octet_stream().essence_str().to_string()
}

/// The MIME type that `mime_guess` gives for the file at `path`, by its
/// extension: the first type it knows, or `application/octet-stream`.
pub uninterp spec fn mime_type_for_path(path: Seq<char>) -> Seq<char>;

/// `mime_guess::from_path(path).first_or_octet_stream()`, as the text of
/// the type's essence; named by [`mime_type_for_path`].
#[verifier::external_body]
fn guess_mime_type_for_path(path: &str) -> (r: String)
    ensures
        r@ == mime_type_for_path(path@),
{
    mime_guess::from_path(path).first_or_octet_stream().essence_str().to_string()
}

/// What follows the first `.` of `name`, or nothing when it has none
/// (`split_once('.')`).
pub open spec fn extension_of(name: Seq<char>) -> Seq<char> {
    if exists|i: int| 0 <= i < name.len() && name[i] == '.' {
        let i = choose|i: int|
            0 <= i < name.len() && name[i] == '.' && forall|j: int| 0 <= j < i ==> name[j] != '.';
        name.subrange(i + 1, name.len() as int)
    } else {
        Seq::empty()
    }
}

/// The extension of a file name (see [`extension_of`]).
pub fn extension(name: &str) -> (r: String)
    ensures
        r@ == extension_of(name@),
{
    let chars = chars_of(name);
    let n = chars.len();
    let mut i: usize = 0;
    while i < n
        invariant
            n == chars@.len(),
            chars@ == name@,
            i <= n,
            forall|j: int| 0 <= j < i ==> chars@[j] != '.',
        decreases n - i,
    {
        if chars[i] == '.' {
            proof {
                let k = choose|k: int|
                    0 <= k < name@.len() && name@[k] == '.' && forall|j: int| 0 <= j < k ==> name@[j] != '.';
                assert(0 <= i < name@.len() && name@[i as int] == '.' && forall|j: int| 0 <= j < i ==> name@[j] != '.');
                if k < i {
                    assert(chars@[k] != '.');
                } else if k > i {
                    assert(name@[i as int] != '.');
                }
            }
            return substring(&chars, i + 1, n);
        }
        i = i + 1;
    }
    String::new()
}

/// The sum of the sizes and of the file counts of directory entries, each
/// wrapping around at 2^64.
pub open spec fn sum_sizes(entries: Seq<VirtualMetadata>) -> u64
    decreases entries.len(),
{
    if entries.len() == 0 {
        0
    } else {
        ((sum_sizes(entries.drop_last()) + entries.last().size) % 0x1_0000_0000_0000_0000) as u64
    }
}

pub open spec fn sum_counts(entries: Seq<VirtualMetadata>) -> u64
    decreases entries.len(),
{
    if entries.len() == 0 {
        0
    } else {
        ((sum_counts(entries.drop_last()) + entries.last().file_count) % 0x1_0000_0000_0000_0000) as u64
    }
}

/// What a source adds to the summary: a directory the sizes and file counts
/// of its entries, a file its size and one file.
pub open spec fn source_size(meta: VirtualMetadata, entries: Seq<VirtualMetadata>) -> u64 {
    if meta.is_dir { sum_sizes(entries) } else { meta.size }
}

pub open spec fn source_count(meta: VirtualMetadata, entries: Seq<VirtualMetadata>) -> u64 {
    if meta.is_dir { sum_counts(entries) } else { 1 }
}

/// What processing the sources found.
#[derive(Debug)]
pub struct SourceSummary {
    pub total_bytes: u64,
    pub file_count: u64,
    pub entry_names: Vec<String>,
    pub single_name: Option<String>,
    pub single_mime_type: Option<String>,
}

/// The summary of one single file: its size, one file, its name, and the
/// MIME type of its extension.
pub fn single_file_summary(meta: &VirtualMetadata) -> (r: SourceSummary)
    requires
        !meta.is_dir,
    ensures
        r.total_bytes == meta.size,
        r.file_count == 1,
        r.entry_names.deep_view() == seq![meta.name@],
        opt_chars(r.single_name) == Some(meta.name@),
        opt_chars(r.single_mime_type) == Some(mime_type_for_extension(extension_of(meta.name@))),
{
    let ext = extension(meta.name.as_str());
    let mime = guess_mime_type(ext.as_str());
    let mut names: Vec<String> = Vec::new();
    names.push(meta.name.clone());
    assert(names.deep_view() =~= seq![meta.name@]);
    SourceSummary {
        total_bytes: meta.size,
        file_count: 1,
        entry_names: names,
        single_name: Some(meta.name.clone()),
        single_mime_type: Some(mime),
    }
}

/// The summary of one single file of the local filesystem at `path`: its
/// size, one file, its name, and the MIME type of its path.
pub fn local_single_file_summary(meta: &VirtualMetadata, path: &str) -> (r: SourceSummary)
    requires
        !meta.is_dir,
    ensures
        r.total_bytes == meta.size,
        r.file_count == 1,
        r.entry_names.deep_view() == seq![meta.name@],
        opt_chars(r.single_name) == Some(meta.name@),
        opt_chars(r.single_mime_type) == Some(mime_type_for_path(path@)),
{
    let mime = guess_mime_type_for_path(path);
    let mut names: Vec<String> = Vec::new();
    names.push(meta.name.clone());
    assert(names.deep_view() =~= seq![meta.name@]);
    SourceSummary {
        total_bytes: meta.size,
        file_count: 1,
        entry_names: names,
        single_name: Some(meta.name.clone()),
        single_mime_type: Some(mime),
    }
}

/// Adds a source to a summary of several: its size and file count (see
/// [`source_size`]) wrapping around at 2^64, and its name.
pub fn add_source(summary: &mut SourceSummary, meta: &VirtualMetadata, entries: &Vec<VirtualMetadata>)
    ensures
        final(summary).total_bytes == ((old(summary).total_bytes + source_size(*meta, entries@))
            % 0x1_0000_0000_0000_0000) as u64,
        final(summary).file_count == ((old(summary).file_count + source_count(*meta, entries@))
            % 0x1_0000_0000_0000_0000) as u64,
        final(summary).entry_names.deep_view() == old(summary).entry_names.deep_view().push(meta.name@),
        final(summary).single_name == old(summary).single_name,
        final(summary).single_mime_type == old(summary).single_mime_type,
{
    let mut size: u64 = 0;
    let mut count: u64 = 0;
    if meta.is_dir {
        let mut i: usize = 0;
        while i < entries.len()
            invariant
                i <= entries@.len(),
                size == sum_sizes(entries@.subrange(0, i as int)),
                count == sum_counts(entries@.subrange(0, i as int)),
            decreases entries@.len() - i,
        {
            assert(entries@.subrange(0, i + 1).drop_last() == entries@.subrange(0, i as int));
            size = size.wrapping_add(entries[i].size);
            count = count.wrapping_add(entries[i].file_count);
            i = i + 1;
        }
        assert(entries@.subrange(0, entries@.len() as int) == entries@);
    } else {
        size = meta.size;
        count = 1;
    }
    summary.total_bytes = summary.total_bytes.wrapping_add(size);
    summary.file_count = summary.file_count.wrapping_add(count);
    let ghost names = summary.entry_names.deep_view();
    summary.entry_names.push(meta.name.clone());
    assert(summary.entry_names.deep_view() =~= names.push(meta.name@));
}

/// An empty summary of several sources.
pub fn empty_summary() -> (r: SourceSummary)
    ensures
        r.total_bytes == 0,
        r.file_count == 0,
        r.entry_names.deep_view().len() == 0,
        r.single_name is None,
        r.single_mime_type is None,
{
    let r = SourceSummary { total_bytes: 0, file_count: 0, entry_names: Vec::new(), single_name: None, single_mime_type: None };
    assert(r.entry_names.deep_view() =~= Seq::<Seq<char>>::empty());
    r
}

/// What was found of one source: its metadata, for a directory the entries
/// that listing it gave (none for a file), and whether the source has a
/// name to list (a path such as `/` has none: it adds its size and files,
/// but no name).
#[derive(Debug)]
pub struct GatheredSource {
    pub meta: VirtualMetadata,
    pub entries: Vec<VirtualMetadata>,
    pub named: bool,
}

/// The total size of several sources (see [`source_size`]), wrapping
/// around at 2^64.
pub open spec fn gathered_total(g: Seq<GatheredSource>) -> u64
    decreases g.len(),
{
    if g.len() == 0 {
        0
    } else {
        ((gathered_total(g.drop_last()) + source_size(g.last().meta, g.last().entries@))
            % 0x1_0000_0000_0000_0000) as u64
    }
}

/// The file count of several sources (see [`source_count`]), wrapping
/// around at 2^64.
pub open spec fn gathered_count(g: Seq<GatheredSource>) -> u64
    decreases g.len(),
{
    if g.len() == 0 {
        0
    } else {
        ((gathered_count(g.drop_last()) + source_count(g.last().meta, g.last().entries@))
            % 0x1_0000_0000_0000_0000) as u64
    }
}

/// The names of the named sources among several, in order.
pub open spec fn gathered_names(g: Seq<GatheredSource>) -> Seq<Seq<char>>
    decreases g.len(),
{
    if g.len() == 0 {
        Seq::empty()
    } else if g.last().named {
        gathered_names(g.drop_last()).push(g.last().meta.name@)
    } else {
        gathered_names(g.drop_last())
    }
}

/// Whether the sources are one single named file.
pub open spec fn is_single_file(g: Seq<GatheredSource>) -> bool {
    g.len() == 1 && !g[0].meta.is_dir && g[0].named
}

/// Whether `s` sums up the sources `g`: one single file gives its size, one
/// file, its name, and the MIME type of its extension; anything else the
/// total size and file count of all sources, the names of the named ones
/// in order, and no single name or type.
pub open spec fn summarizes(s: SourceSummary, g: Seq<GatheredSource>) -> bool {
    if is_single_file(g) {
        &&& s.total_bytes == g[0].meta.size
        &&& s.file_count == 1
        &&& s.entry_names.deep_view() == seq![g[0].meta.name@]
        &&& opt_chars(s.single_name) == Some(g[0].meta.name@)
        &&& opt_chars(s.single_mime_type) == Some(mime_type_for_extension(extension_of(g[0].meta.name@)))
    } else {
        summarizes_several(s, g)
    }
}

/// Whether `s` sums up the sources `g` taken as several: their total size
/// and file count, the names of the named ones in order, and no single name
/// or type.
pub open spec fn summarizes_several(s: SourceSummary, g: Seq<GatheredSource>) -> bool {
    &&& s.total_bytes == gathered_total(g)
    &&& s.file_count == gathered_count(g)
    &&& s.entry_names.deep_view() == gathered_names(g)
    &&& s.single_name is None
    &&& s.single_mime_type is None
}

/// Whether `g` is what was gathered from the filesystem `vfs` for the
/// sources `paths`: one named record per path, in order, whose metadata is
/// the filesystem's answer for that path, and whose entries are its answer
/// when listing that path for a directory, none for a file.
pub open spec fn gathered_for<V: VirtualFilesystem>(vfs: V, g: Seq<GatheredSource>, paths: Seq<String>) -> bool {
    &&& g.len() == paths.len()
    &&& forall|i: int| 0 <= i < g.len() ==> (#[trigger] g[i]).named
    &&& forall|i: int|
        0 <= i < g.len() ==> answers_metadata(vfs, paths[i]@, Ok((#[trigger] g[i]).meta))
    &&& forall|i: int|
        0 <= i < g.len() && (#[trigger] g[i]).meta.is_dir ==> answers_read_dir(vfs, paths[i]@, Ok(g[i].entries))
    &&& forall|i: int| 0 <= i < g.len() && !(#[trigger] g[i]).meta.is_dir ==> g[i].entries@.len() == 0
}

/// Whether `e` is an error that the filesystem `vfs` may give when asked
/// for the metadata of one of the sources `paths`, or for the listing of
/// one of them.
pub open spec fn failed_on<V: VirtualFilesystem>(vfs: V, paths: Seq<String>, e: VirtualFilesystemError) -> bool {
    exists|i: int|
        0 <= i < paths.len() && (answers_metadata(vfs, (#[trigger] paths[i])@, Err(e)) || answers_read_dir(
            vfs,
            paths[i]@,
            Err(e),
        ))
}

/// Sums up sources whose metadata and listings were gathered (see
/// [`summarizes`]).
pub fn summarize_gathered(g: &Vec<GatheredSource>) -> (r: SourceSummary)
    ensures
        summarizes(r, g@),
{
    if g.len() == 1 && !g[0].meta.is_dir && g[0].named {
        return single_file_summary(&g[0].meta);
    }
    let mut summary = empty_summary();
    let mut i: usize = 0;
    while i < g.len()
        invariant
            i <= g@.len(),
            summary.total_bytes == gathered_total(g@.subrange(0, i as int)),
            summary.file_count == gathered_count(g@.subrange(0, i as int)),
            summary.entry_names.deep_view() == gathered_names(g@.subrange(0, i as int)),
            summary.single_name is None,
            summary.single_mime_type is None,
        decreases g@.len() - i,
    {
        proof {
            assert(g@.subrange(0, i + 1).drop_last() == g@.subrange(0, i as int));
        }
        let ghost names = summary.entry_names.deep_view();
        add_source(&mut summary, &g[i].meta, &g[i].entries);
        if !g[i].named {
            let ghost before = summary.entry_names@;
            summary.entry_names.pop();
            proof {
                assert(before.map_values(|x: String| x@) =~= names.push(g@[i as int].meta.name@));
                assert(summary.entry_names@ == before.drop_last());
                assert(summary.entry_names.deep_view() =~= names) by {
                    assert forall|k: int| 0 <= k < names.len() implies summary.entry_names.deep_view()[k]
                        == names[k] by {
                        assert(before.map_values(|x: String| x@)[k] == before[k]@);
                    }
                }
            }
        }
        i = i + 1;
    }
    proof {
        assert(g@.subrange(0, g@.len() as int) == g@);
    }
    summary
}

/// Sums up sources gathered from the local filesystem, the first of them at
/// `first_path`: one single file gives its size, one file, its name and the
/// MIME type of its path, and fails with `UnsupportedPathType` when its path
/// has no file name; anything else is summed up as several sources (see
/// [`summarizes_several`]).
pub fn summarize_local(g: &Vec<GatheredSource>, first_path: &str) -> (r: Result<SourceSummary, SourcePathError>)
    ensures
        g@.len() == 1 && !g@[0].meta.is_dir && g@[0].named ==> {
            &&& r is Ok
            &&& r->Ok_0.total_bytes == g@[0].meta.size
            &&& r->Ok_0.file_count == 1
            &&& r->Ok_0.entry_names.deep_view() == seq![g@[0].meta.name@]
            &&& opt_chars(r->Ok_0.single_name) == Some(g@[0].meta.name@)
            &&& opt_chars(r->Ok_0.single_mime_type) == Some(mime_type_for_path(first_path@))
        },
        g@.len() == 1 && !g@[0].meta.is_dir && !g@[0].named ==> r is Err && r->Err_0 is UnsupportedPathType
            && r->Err_0->UnsupportedPathType_0@ == first_path@,
        !(g@.len() == 1 && !g@[0].meta.is_dir) ==> r is Ok && summarizes_several(r->Ok_0, g@),
{
    if g.len() == 1 && !g[0].meta.is_dir {
        if g[0].named {
            return Ok(local_single_file_summary(&g[0].meta, first_path));
        }
        return Err(SourcePathError::UnsupportedPathType(crate::text::to_owned_string(first_path)));
    }
    Ok(summarize_gathered(g))
}

/// Sums up the sources `paths` through the virtual filesystem: gathers the
/// metadata of each, and the listing of each directory, then sums them up
/// with [`summarize_gathered`]. A single path that is a file is only asked
/// for its metadata. A failure of the filesystem fails the whole.
pub fn summarize_sources<V: VirtualFilesystem>(vfs: &Option<V>, paths: &Vec<String>) -> (r: Result<
    SourceSummary,
    SourcePathError,
>)
    ensures
        r is Ok && paths@.len() > 0 ==> vfs is Some,
        r is Ok ==> exists|g: Seq<GatheredSource>| gathered_for(vfs->0, g, paths@) && summarizes(r->Ok_0, g),
        r is Err ==> r->Err_0 is VirtualFilesystemError,
        r is Err && vfs is Some ==> failed_on(vfs->0, paths@, r->Err_0->VirtualFilesystemError_0),
        paths@.len() == 0 ==> r is Ok && r->Ok_0.total_bytes == 0 && r->Ok_0.file_count == 0
            && r->Ok_0.entry_names.deep_view().len() == 0
            && r->Ok_0.single_name is None && r->Ok_0.single_mime_type is None,
        vfs is None && paths@.len() > 0 ==> r == Err::<SourceSummary, SourcePathError>(
            SourcePathError::VirtualFilesystemError(VirtualFilesystemError::NotSet),
        ),
{
    if paths.len() == 1 {
        let meta = match metadata(vfs, paths[0].as_str()) {
            Ok(m) => m,
            Err(e) => {
                assert(vfs is Some ==> answers_metadata(vfs->0, paths@[0]@, Err(e)));
                return Err(SourcePathError::VirtualFilesystemError(e));
            },
        };
        if !meta.is_dir {
            let mut g: Vec<GatheredSource> = Vec::new();
            g.push(GatheredSource { meta, entries: Vec::new(), named: true });
            let s = summarize_gathered(&g);
            assert(gathered_for(vfs->0, g@, paths@));
            return Ok(s);
        }
    }
    let mut g: Vec<GatheredSource> = Vec::new();
    let mut i: usize = 0;
    while i < paths.len()
        invariant
            i <= paths@.len(),
            g@.len() == i,
            forall|k: int| 0 <= k < g@.len() ==> (#[trigger] g@[k]).named,
            forall|k: int| 0 <= k < g@.len() && !(#[trigger] g@[k]).meta.is_dir ==> g@[k].entries@.len() == 0,
            vfs is Some ==> forall|k: int|
                0 <= k < g@.len() ==> answers_metadata(vfs->0, paths@[k]@, Ok((#[trigger] g@[k]).meta)),
            vfs is Some ==> forall|k: int|
                0 <= k < g@.len() && (#[trigger] g@[k]).meta.is_dir ==> answers_read_dir(
                    vfs->0,
                    paths@[k]@,
                    Ok(g@[k].entries),
                ),
            vfs is None ==> i == 0,
        decreases paths@.len() - i,
    {
        let meta = match metadata(vfs, paths[i].as_str()) {
            Ok(m) => m,
            Err(e) => {
                assert(vfs is Some ==> answers_metadata(vfs->0, paths@[i as int]@, Err(e)));
                return Err(SourcePathError::VirtualFilesystemError(e));
            },
        };
        let entries = if meta.is_dir {
            match read_dir(vfs, paths[i].as_str()) {
                Ok(v) => v,
                Err(e) => {
                    assert(vfs is Some ==> answers_read_dir(vfs->0, paths@[i as int]@, Err(e)));
                    return Err(SourcePathError::VirtualFilesystemError(e));
                },
            }
        } else {
            Vec::new()
        };
        g.push(GatheredSource { meta, entries, named: true });
        i = i + 1;
    }
    let s = summarize_gathered(&g);
    proof {
        if paths@.len() > 0 {
            assert(gathered_for(vfs->0, g@, paths@));
        }
        if paths@.len() == 0 {
            assert(gathered_names(g@) =~= Seq::<Seq<char>>::empty());
        }
    }
    Ok(s)
}

/// `t` with the summary of its sources in place.
pub open spec fn with_summary(t: TransferView, s: SourceSummary) -> TransferView {
    TransferView {
        total_bytes: s.total_bytes,
        file_count: s.file_count,
        entry_names: s.entry_names.deep_view(),
        single_name: opt_chars(s.single_name),
        single_mime_type: opt_chars(s.single_mime_type),
        ..t
    }
}

impl Transfer {
    /// Sums up the sources `paths` of this transfer (see
    /// [`summarize_sources`]) and keeps the summary; on a failure the
    /// transfer is left as it was. No sources make an empty summary; sources
    /// with no filesystem set fail with `NotSet`.
    pub fn process_paths<V: VirtualFilesystem>(&mut self, vfs: &Option<V>, paths: &Vec<String>) -> (r: Result<
        (),
        SourcePathError,
    >)
        ensures
            r is Err ==> final(self)@ == old(self)@,
            r is Ok ==> exists|s: SourceSummary, g: Seq<GatheredSource>|
                final(self)@ == with_summary(old(self)@, s) && gathered_for(vfs->0, g, paths@) && summarizes(s, g),
            r is Err && vfs is Some ==> r->Err_0 is VirtualFilesystemError && failed_on(
                vfs->0,
                paths@,
                r->Err_0->VirtualFilesystemError_0,
            ),
            paths@.len() == 0 ==> r is Ok && final(self)@ == (TransferView {
                total_bytes: 0,
                file_count: 0,
                entry_names: Seq::<Seq<char>>::empty(),
                single_name: None,
                single_mime_type: None,
                ..old(self)@
            }),
            vfs is None && paths@.len() > 0 ==> r == Err::<(), SourcePathError>(
                SourcePathError::VirtualFilesystemError(VirtualFilesystemError::NotSet),
            ),
    {
        let s = summarize_sources(vfs, paths)?;
        proof {
            if paths@.len() == 0 {
                assert(s.entry_names.deep_view() =~= Seq::<Seq<char>>::empty());
            }
        }
        self.apply_summary(s);
        Ok(())
    }

    /// Keeps the summary of this transfer's sources.
    pub fn apply_summary(&mut self, s: SourceSummary)
        ensures
            final(self)@ == with_summary(old(self)@, s),
    {
        let ghost before = self@;
        let ghost summary = s;
        self.total_bytes = s.total_bytes;
        self.file_count = s.file_count;
        self.single_name = s.single_name;
        self.single_mime_type = s.single_mime_type;
        self.entry_names = s.entry_names;
        assert(self@ == with_summary(before, summary));
    }
}

} // verus!

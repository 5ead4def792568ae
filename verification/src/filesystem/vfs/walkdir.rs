//! A breadth-first walk of a virtual directory tree.
use vstd::prelude::*;
use std::collections::VecDeque;
use crate::filesystem::vfs::{answers_list_dir, list_dir, VirtualEntry, VirtualFilesystem, VirtualFilesystemError};
use crate::text::push_char;

verus! {

/// An entry met on a walk: where it is, and the path of its parent relative
/// to the root of the walk.
#[derive(Debug)]
pub struct WalkDirEntry {
    pub is_dir: bool,
    pub path: String,
    pub name: String,
    pub base_path: String,
}

/// The path of an entry relative to the walk's root: its name, after its
/// parent's relative path and a `/` unless the parent is the root's parent.
pub open spec fn relative_path_of(base_path: Seq<char>, name: Seq<char>) -> Seq<char> {
    if base_path.len() == 0 {
        name
    } else {
        base_path + seq!['/'] + name
    }
}

impl WalkDirEntry {
    pub fn relative_path(&self) -> (r: String)
        ensures
            r@ == relative_path_of(self.base_path@, self.name@),
    {
        if self.base_path.unicode_len() == 0 {
            self.name.clone()
        } else {
            let mut s = self.base_path.clone();
            push_char(&mut s, '/');
            s.append(self.name.as_str());
            s
        }
    }

    pub fn is_file(&self) -> (r: bool)
        ensures
            r == !self.is_dir,
    {
        !self.is_dir
    }

    pub fn is_dir(&self) -> (r: bool)
        ensures
            r == self.is_dir,
    {
        self.is_dir
    }
}

/// The walk entry that stands for the listed child `child` of `parent`.
pub open spec fn is_child_entry(e: WalkDirEntry, parent: WalkDirEntry, child: VirtualEntry) -> bool {
    &&& e.is_dir == child.is_dir
    &&& e.name == child.name
    &&& e.path == child.path
    &&& e.base_path@ == relative_path_of(parent.base_path@, parent.name@)
}

/// Whether `after` is the queue `rest` with the children of `parent` from
/// the listing `listing` queued behind it: all of them, in listing order,
/// when the listing succeeded; none when it failed.
pub open spec fn queued_listing(
    rest: Seq<WalkDirEntry>,
    after: Seq<WalkDirEntry>,
    parent: WalkDirEntry,
    listing: Result<Vec<VirtualEntry>, VirtualFilesystemError>,
) -> bool {
    match listing {
        Ok(children) => {
            &&& after.len() == rest.len() + children@.len()
            &&& after.subrange(0, rest.len() as int) == rest
            &&& forall|i: int|
                0 <= i < children@.len() ==> is_child_entry(#[trigger] after[rest.len() + i], parent, children@[i])
        },
        Err(_) => after == rest,
    }
}

/// A breadth-first walk: the entries still to be yielded, in order.
pub struct VirtualWalkDir {
    queue: VecDeque<WalkDirEntry>,
}

impl View for VirtualWalkDir {
    type V = Seq<WalkDirEntry>;

    closed spec fn view(&self) -> Seq<WalkDirEntry> {
        self.queue@
    }
}

impl VirtualWalkDir {
    /// A walk with nothing to yield.
    pub fn empty() -> (r: VirtualWalkDir)
        ensures
            r@.len() == 0,
    {
        VirtualWalkDir { queue: VecDeque::new() }
    }

    /// A walk that yields the root directory first.
    pub fn new(root_path: String, root_name: String) -> (r: VirtualWalkDir)
        ensures
            r@.len() == 1,
            r@[0].is_dir,
            r@[0].path == root_path,
            r@[0].name == root_name,
            r@[0].base_path@.len() == 0,
    {
        let mut queue = VecDeque::new();
        queue.push_back(WalkDirEntry { is_dir: true, path: root_path, name: root_name, base_path: String::new() });
        VirtualWalkDir { queue }
    }

    /// Queues the listed children of `parent`, in listing order.
    pub fn push_children(&mut self, parent: &WalkDirEntry, children: Vec<VirtualEntry>)
        ensures
            final(self)@.len() == old(self)@.len() + children@.len(),
            final(self)@.subrange(0, old(self)@.len() as int) == old(self)@,
            forall|i: int|
                0 <= i < children@.len() ==> is_child_entry(
                    #[trigger] final(self)@[old(self)@.len() + i],
                    *parent,
                    children@[i],
                ),
    {
        let base = parent.relative_path();
        let ghost start = self.queue@;
        let mut children = children;
        let ghost all = children@;
        let mut k: usize = 0;
        let n = children.len();
        while k < n
            invariant
                n == all.len(),
                k <= n,
                children@ == all.subrange(k as int, n as int),
                base@ == relative_path_of(parent.base_path@, parent.name@),
                self.queue@.len() == start.len() + k,
                self.queue@.subrange(0, start.len() as int) == start,
                forall|i: int|
                    0 <= i < k ==> is_child_entry(
                        #[trigger] self.queue@[start.len() + i],
                        *parent,
                        all[i],
                    ),
            decreases n - k,
        {
            let child = children.remove(0);
            assert(child == all[k as int]);
            self.queue.push_back(WalkDirEntry {
                is_dir: child.is_dir,
                name: child.name,
                path: child.path,
                base_path: base.clone(),
            });
            assert(self.queue@.subrange(0, start.len() as int) =~= start);
            k = k + 1;
        }
    }

    /// The next entry of the walk, or `None` once every entry was yielded.
    /// When the entry is a directory, its children are listed and queued;
    /// a directory that cannot be listed is yielded with none (so with no
    /// filesystem set, nothing is queued). The walk never fails.
    pub fn next<V: VirtualFilesystem>(&mut self, vfs: &Option<V>) -> (r: Result<
        Option<WalkDirEntry>,
        VirtualFilesystemError,
    >)
        ensures
            r is Ok,
            old(self)@.len() == 0 ==> r->Ok_0 is None && final(self)@ == old(self)@,
            old(self)@.len() > 0 ==> {
                &&& r->Ok_0 == Some(old(self)@[0])
                &&& final(self)@.len() >= old(self)@.len() - 1
                &&& final(self)@.subrange(0, old(self)@.len() - 1) == old(self)@.drop_first()
                &&& !old(self)@[0].is_dir ==> final(self)@ == old(self)@.drop_first()
                &&& vfs is None ==> final(self)@ == old(self)@.drop_first()
                &&& old(self)@[0].is_dir && vfs is Some ==> exists|
                    listing: Result<Vec<VirtualEntry>, VirtualFilesystemError>,
                |
                    #![trigger queued_listing(old(self)@.drop_first(), final(self)@, old(self)@[0], listing)]
                    answers_list_dir(vfs->0, old(self)@[0].path@, listing) && queued_listing(
                        old(self)@.drop_first(),
                        final(self)@,
                        old(self)@[0],
                        listing,
                    )
            },
    {
        match self.queue.pop_front() {
            None => Ok(None),
            Some(current) => {
                if current.is_dir {
                    let listing = list_dir(vfs, current.path.as_str());
                    let ghost answer = listing;
                    match listing {
                        Ok(children) => {
                            self.push_children(&current, children);
                        },
                        Err(_) => {},
                    }
                    assert(queued_listing(old(self)@.drop_first(), self.queue@, current, answer));
                }
                Ok(Some(current))
            },
        }
    }
}

} // verus!

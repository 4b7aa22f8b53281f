//! A file system that lives in memory: inodes in a table, directories as
//! maps from names to inode numbers, and link counts that decide when an
//! inode goes away.
//!
//! The contents of files are not kept here; a file records its length and,
//! for a symbolic link, its target.

pub mod store;

use crate::file::fs::Metadata;
use crate::time::TimeValue;
use crate::vfs::error::VfsError;
use crate::vfs::node::NodeType;
use crate::vfs::tmp::store::{
    dir_entries, entries_get, entries_insert, entries_is_empty, entries_len, entries_list, entries_new,
    entries_remove, slab_get, slab_get_mut, slab_insert, slab_items, slab_new, slab_try_remove,
    slab_vacant, slab_vacant_key, DirEntries,
};
use vstd::prelude::*;

verus! {

/// What a file records of its content.
pub struct FileContent {
    /// The length of the file content.
    pub length: u64,
    /// The target, where the file is a symbolic link.
    pub symlink: Option<String>,
}

/// What an inode holds besides its metadata.
pub enum NodeContent {
    File(FileContent),
    Dir(DirEntries),
}

/// An inode: metadata, content, and the number of open handles on it.
pub struct Inode {
    metadata: Metadata,
    content: NodeContent,
    handles: u64,
}

/// The content of an inode as the contracts see it.
pub enum ContentView {
    File { length: u64, symlink: Option<Seq<char>> },
    Dir { entries: Map<Seq<char>, u64> },
}

/// An inode as the contracts see it.
pub struct InodeView {
    pub metadata: Metadata,
    pub content: ContentView,
    pub handles: u64,
}

impl View for Inode {
    type V = InodeView;

    closed spec fn view(&self) -> InodeView {
        InodeView {
            metadata: self.metadata,
            content: match self.content {
                NodeContent::File(file) => ContentView::File {
                    length: file.length,
                    symlink: match file.symlink {
                        Some(target) => Some(target@),
                        None => None,
                    },
                },
                NodeContent::Dir(entries) => ContentView::Dir { entries: dir_entries(entries) },
            },
            handles: self.handles,
        }
    }
}

/// The inode with its link count set to `nlink`.
pub open spec fn spec_with_nlink(inode: InodeView, nlink: u64) -> InodeView {
    InodeView { metadata: Metadata { nlink, ..inode.metadata }, ..inode }
}

/// The inode with `target` entered under `name`, where it is a directory.
pub open spec fn spec_with_entry(inode: InodeView, name: Seq<char>, target: u64) -> InodeView {
    match inode.content {
        ContentView::Dir { entries } => InodeView {
            content: ContentView::Dir { entries: entries.insert(name, target) },
            ..inode
        },
        ContentView::File { .. } => inode,
    }
}

/// The inode without an entry under `name`, where it is a directory.
pub open spec fn spec_without_entry(inode: InodeView, name: Seq<char>) -> InodeView {
    match inode.content {
        ContentView::Dir { entries } => InodeView {
            content: ContentView::Dir { entries: entries.remove(name) },
            ..inode
        },
        ContentView::File { .. } => inode,
    }
}

/// The file system after one more link to inode `ino` has been counted.
/// The count stops at the largest number it can hold.
pub open spec fn spec_add_link(fs: Map<int, InodeView>, ino: int) -> Map<int, InodeView> {
    if fs.contains_key(ino) {
        let nlink = fs[ino].metadata.nlink;
        fs.insert(
            ino,
            spec_with_nlink(
                fs[ino],
                if nlink == u64::MAX {
                    nlink
                } else {
                    (nlink + 1) as u64
                },
            ),
        )
    } else {
        fs
    }
}

/// An inode can go away once nothing links to it and nothing holds it
/// open; a directory must have lost its entries first.
pub open spec fn spec_unused(inode: InodeView) -> bool {
    &&& inode.metadata.nlink == 0
    &&& inode.handles == 0
    &&& match inode.content {
        ContentView::File { .. } => true,
        ContentView::Dir { entries } => entries == Map::<Seq<char>, u64>::empty(),
    }
}

/// The file system after `count` links to inode `ino` have gone: the link
/// count drops, not below zero, and an inode that is unused after that
/// leaves the table.
pub open spec fn spec_release(fs: Map<int, InodeView>, ino: int, count: u64) -> Map<
    int,
    InodeView,
> {
    if fs.contains_key(ino) {
        let nlink = fs[ino].metadata.nlink;
        let left = spec_with_nlink(
            fs[ino],
            if nlink < count {
                0
            } else {
                (nlink - count) as u64
            },
        );
        if spec_unused(left) {
            fs.remove(ino)
        } else {
            fs.insert(ino, left)
        }
    } else {
        fs
    }
}

/// A new inode: no links, no handles, owned by the superuser, all times
/// zero; a directory without entries, or an empty file.
pub open spec fn spec_fresh(ino: u64, node_type: NodeType, permission: u16) -> InodeView {
    InodeView {
        metadata: Metadata {
            device: 0,
            inode: ino,
            nlink: 0,
            mode: permission,
            node_type,
            uid: 0,
            gid: 0,
            size: 0,
            block_size: 0,
            blocks: 0,
            rdev: 0,
            atime: TimeValue { secs: 0, nanos: 0 },
            mtime: TimeValue { secs: 0, nanos: 0 },
            ctime: TimeValue { secs: 0, nanos: 0 },
        },
        content: if node_type == NodeType::Directory {
            ContentView::Dir { entries: Map::empty() }
        } else {
            ContentView::File { length: 0, symlink: None }
        },
        handles: 0,
    }
}

/// The file system after `target` has been entered under `name` in the
/// directory `dir`.
pub open spec fn spec_set_entry(
    fs: Map<int, InodeView>,
    dir: int,
    name: Seq<char>,
    target: u64,
) -> Map<int, InodeView> {
    if fs.contains_key(dir) {
        fs.insert(dir, spec_with_entry(fs[dir], name, target))
    } else {
        fs
    }
}

/// The file system after the entry under `name` has been taken out of the
/// directory `dir`.
pub open spec fn spec_remove_entry(fs: Map<int, InodeView>, dir: int, name: Seq<char>) -> Map<
    int,
    InodeView,
> {
    if fs.contains_key(dir) {
        fs.insert(dir, spec_without_entry(fs[dir], name))
    } else {
        fs
    }
}

/// The file system after the inode `ino` has been made. A directory
/// starts with an entry for itself and one for its parent, which is the
/// directory itself where no parent is given; both are counted as links.
pub open spec fn spec_inode_new(
    fs: Map<int, InodeView>,
    ino: u64,
    parent: Option<u64>,
    node_type: NodeType,
    permission: u16,
) -> Map<int, InodeView> {
    let made = fs.insert(ino as int, spec_fresh(ino, node_type, permission));
    if node_type == NodeType::Directory {
        let up = match parent {
            Some(p) => p,
            None => ino,
        };
        let own = spec_set_entry(spec_add_link(made, ino as int), ino as int, seq!['.'], ino);
        spec_set_entry(spec_add_link(own, up as int), ino as int, seq!['.', '.'], up)
    } else {
        made
    }
}

/// The entries of the directory `dir`, or why it has none to show.
pub open spec fn spec_as_dir(fs: Map<int, InodeView>, dir: int) -> Result<
    Map<Seq<char>, u64>,
    VfsError,
> {
    if !fs.contains_key(dir) {
        Err(VfsError::NotFound)
    } else {
        match fs[dir].content {
            ContentView::Dir { entries } => Ok(entries),
            ContentView::File { .. } => Err(VfsError::NotADirectory),
        }
    }
}

/// What a lookup of `name` in the directory `dir` gives: the inode that
/// the name stands for and its node type.
pub open spec fn spec_lookup(fs: Map<int, InodeView>, dir: int, name: Seq<char>) -> Result<
    (u64, NodeType),
    VfsError,
> {
    match spec_as_dir(fs, dir) {
        Err(e) => Err(e),
        Ok(entries) => if !entries.contains_key(name) || !fs.contains_key(entries[name] as int) {
            Err(VfsError::NotFound)
        } else {
            Ok((entries[name], fs[entries[name] as int].metadata.node_type))
        },
    }
}

/// Whether a new name can be entered in the directory `dir`.
pub open spec fn spec_can_enter(fs: Map<int, InodeView>, dir: int, name: Seq<char>) -> Result<
    (),
    VfsError,
> {
    match spec_as_dir(fs, dir) {
        Err(e) => Err(e),
        Ok(entries) => if entries.contains_key(name) {
            Err(VfsError::AlreadyExists)
        } else {
            Ok(())
        },
    }
}

/// The file system after the inode `ino` has been made in the directory
/// `dir` under `name`.
pub open spec fn spec_create(
    fs: Map<int, InodeView>,
    dir: u64,
    name: Seq<char>,
    ino: u64,
    node_type: NodeType,
    permission: u16,
) -> Map<int, InodeView> {
    spec_set_entry(
        spec_add_link(spec_inode_new(fs, ino, Some(dir), node_type, permission), ino as int),
        dir as int,
        name,
        ino,
    )
}

/// The file system after `target` has got the further name `name` in the
/// directory `dir`.
pub open spec fn spec_link(fs: Map<int, InodeView>, dir: u64, name: Seq<char>, target: u64) -> Map<
    int,
    InodeView,
> {
    spec_set_entry(spec_add_link(fs, target as int), dir as int, name, target)
}

/// What stands in the way of removing `name` from the directory `dir`: a
/// name that is not there, or one that stands for a directory which holds
/// more than the entries for itself and its parent.
pub open spec fn spec_can_unlink(fs: Map<int, InodeView>, dir: int, name: Seq<char>) -> Result<
    u64,
    VfsError,
> {
    match spec_as_dir(fs, dir) {
        Err(e) => Err(e),
        Ok(entries) => if !entries.contains_key(name) {
            Err(VfsError::NotFound)
        } else if fs.contains_key(entries[name] as int) && (fs[entries[name] as int].content
            matches ContentView::Dir { entries: inner } && inner.dom().len() > 2) {
            Err(VfsError::DirectoryNotEmpty)
        } else {
            Ok(entries[name])
        },
    }
}

/// The file system after `name`, which stood for `target`, has been
/// removed from the directory `dir`.
pub open spec fn spec_unlink(fs: Map<int, InodeView>, dir: u64, name: Seq<char>, target: u64) -> Map<
    int,
    InodeView,
> {
    spec_release(spec_remove_entry(fs, dir as int, name), target as int, 1)
}

/// What a rename comes to. Where the new name stands already for the inode
/// that the old name stands for, nothing is to be done. Otherwise the old
/// name must exist in a directory, and the target directory must be one.
pub open spec fn spec_rename_result(
    fs: Map<int, InodeView>,
    src_dir: u64,
    src_name: Seq<char>,
    dst_dir: u64,
    dst_name: Seq<char>,
) -> Result<(), VfsError> {
    if spec_lookup(fs, dst_dir as int, dst_name) is Ok && spec_lookup(
        fs,
        src_dir as int,
        src_name,
    ) is Err {
        Err(spec_lookup(fs, src_dir as int, src_name)->Err_0)
    } else if spec_lookup(fs, dst_dir as int, dst_name) is Ok && spec_lookup(
        fs,
        dst_dir as int,
        dst_name,
    )->Ok_0.0 == spec_lookup(fs, src_dir as int, src_name)->Ok_0.0 {
        Ok(())
    } else {
        match spec_as_dir(fs, src_dir as int) {
            Err(e) => Err(e),
            Ok(entries) => if !entries.contains_key(src_name) {
                Err(VfsError::NotFound)
            } else {
                match spec_as_dir(spec_remove_entry(fs, src_dir as int, src_name), dst_dir as int) {
                    Err(e) => Err(e),
                    Ok(_) => Ok(()),
                }
            },
        }
    }
}

/// The file system after a rename. A rename that finds nothing to do, or
/// that fails at the old name, changes nothing. One that fails at the
/// target directory has taken the old name away already, and with it one
/// link to its inode. One that succeeds has entered the inode under the
/// new name, and what the new name stood for before has lost a link.
pub open spec fn spec_rename(
    fs: Map<int, InodeView>,
    src_dir: u64,
    src_name: Seq<char>,
    dst_dir: u64,
    dst_name: Seq<char>,
) -> Map<int, InodeView> {
    let already = spec_lookup(fs, dst_dir as int, dst_name);
    if already is Ok && (spec_lookup(fs, src_dir as int, src_name) is Err || already->Ok_0.0
        == spec_lookup(fs, src_dir as int, src_name)->Ok_0.0) {
        fs
    } else {
        match spec_as_dir(fs, src_dir as int) {
            Err(_) => fs,
            Ok(entries) => if !entries.contains_key(src_name) {
                fs
            } else {
                let moved = entries[src_name];
                let taken = spec_remove_entry(fs, src_dir as int, src_name);
                match spec_as_dir(taken, dst_dir as int) {
                    Err(_) => spec_release(taken, moved as int, 1),
                    Ok(there) => {
                        let entered = spec_set_entry(taken, dst_dir as int, dst_name, moved);
                        if there.contains_key(dst_name) {
                            spec_release(entered, there[dst_name] as int, 1)
                        } else {
                            entered
                        }
                    },
                }
            },
        }
    }
}

/// The metadata that an inode reports: what is kept, with the size read
/// from the content, the length of a file or the number of entries of a
/// directory.
pub open spec fn spec_metadata(inode: InodeView) -> Metadata {
    Metadata {
        size: match inode.content {
            ContentView::File { length, .. } => length,
            ContentView::Dir { entries } => entries.dom().len() as u64,
        },
        ..inode.metadata
    }
}

/// A change of metadata: each part that is given replaces what is kept.
#[derive(Clone, Copy, Debug)]
pub struct MetadataUpdate {
    pub mode: Option<u16>,
    pub owner: Option<(u32, u32)>,
    pub atime: Option<TimeValue>,
    pub mtime: Option<TimeValue>,
}

/// The metadata after a change.
pub open spec fn spec_updated(metadata: Metadata, update: MetadataUpdate) -> Metadata {
    Metadata {
        mode: match update.mode {
            Some(mode) => mode,
            None => metadata.mode,
        },
        uid: match update.owner {
            Some(owner) => owner.0,
            None => metadata.uid,
        },
        gid: match update.owner {
            Some(owner) => owner.1,
            None => metadata.gid,
        },
        atime: match update.atime {
            Some(atime) => atime,
            None => metadata.atime,
        },
        mtime: match update.mtime {
            Some(mtime) => mtime,
            None => metadata.mtime,
        },
        ..metadata
    }
}

/// The content of the file `ino`, or why it has none.
pub open spec fn spec_as_file(fs: Map<int, InodeView>, ino: int) -> Result<
    (u64, Option<Seq<char>>),
    VfsError,
> {
    if !fs.contains_key(ino) {
        Err(VfsError::NotFound)
    } else {
        match fs[ino].content {
            ContentView::File { length, symlink } => Ok((length, symlink)),
            ContentView::Dir { .. } => Err(VfsError::IsADirectory),
        }
    }
}

/// `pairs` lists the entries of a directory: every entry once, in some
/// order.
pub open spec fn spec_is_listing(entries: Map<Seq<char>, u64>, pairs: Seq<(Seq<char>, u64)>) -> bool {
    &&& pairs.len() == entries.dom().len()
    &&& forall|i: int|
        0 <= i < pairs.len() ==> entries.contains_key((#[trigger] pairs[i]).0) && entries[pairs[i].0]
            == pairs[i].1
    &&& forall|i: int, j: int|
        0 <= i < j < pairs.len() ==> (#[trigger] pairs[i]).0 != (#[trigger] pairs[j]).0
}

/// The file system after the entries `pairs` of the directory `dir` have
/// been dropped one after the other: each is taken out of the directory,
/// and the inode that it stood for loses a link.
pub open spec fn spec_drop_entries(
    fs: Map<int, InodeView>,
    dir: int,
    pairs: Seq<(Seq<char>, u64)>,
) -> Map<int, InodeView>
    decreases pairs.len(),
{
    if pairs.len() == 0 {
        fs
    } else {
        spec_drop_entries(
            spec_release(spec_remove_entry(fs, dir, pairs[0].0), pairs[0].1 as int, 1),
            dir,
            pairs.drop_first(),
        )
    }
}

/// The file system with one handle fewer on inode `ino`.
pub open spec fn spec_handle_closed(fs: Map<int, InodeView>, ino: int) -> Map<int, InodeView> {
    if fs.contains_key(ino) {
        fs.insert(
            ino,
            InodeView {
                handles: if fs[ino].handles == 0 {
                    0
                } else {
                    (fs[ino].handles - 1) as u64
                },
                ..fs[ino]
            },
        )
    } else {
        fs
    }
}

/// The file system after a handle on inode `ino` has been closed, where
/// `pairs` is the order in which the entries of a directory were dropped.
/// Closing a handle on a directory drops all its entries; then the inode
/// goes away if it is unused.
pub open spec fn spec_close_node(
    fs: Map<int, InodeView>,
    ino: int,
    pairs: Seq<(Seq<char>, u64)>,
) -> Map<int, InodeView> {
    spec_release(spec_drop_entries(spec_handle_closed(fs, ino), ino, pairs), ino, 0)
}

/// A file system in memory.
pub struct MemoryFs {
    inodes: slab::Slab<Inode>,
}

impl View for MemoryFs {
    type V = Map<int, InodeView>;

    closed spec fn view(&self) -> Map<int, InodeView> {
        Map::new(
            |ino: int| slab_items(self.inodes).contains_key(ino - 1),
            |ino: int| slab_items(self.inodes)[ino - 1]@,
        )
    }
}

impl MemoryFs {
    /// Every inode is stored under its number less one, and knows its
    /// number.
    pub closed spec fn wf(&self) -> bool {
        forall|key: int| #[trigger]
            slab_items(self.inodes).contains_key(key) ==> 0 <= key < usize::MAX && key < u64::MAX
                && slab_items(self.inodes)[key].metadata.inode == key + 1
    }

    /// In a well-formed file system every inode has a positive number and
    /// knows it.
    pub proof fn lemma_numbers(&self)
        requires
            self.wf(),
        ensures
            forall|ino: int| #[trigger]
                self@.contains_key(ino) ==> 0 < ino <= u64::MAX && self@[ino].metadata.inode == ino,
    {
        assert forall|ino: int| #[trigger] self@.contains_key(ino) implies 0 < ino <= u64::MAX
            && self@[ino].metadata.inode == ino by {
            assert(slab_items(self.inodes).contains_key(ino - 1));
        }
    }

    proof fn lemma_insert(before: MemoryFs, after: MemoryFs, key: int, inode: Inode)
        requires
            slab_items(after.inodes) == slab_items(before.inodes).insert(key, inode),
        ensures
            after@ == before@.insert(key + 1, inode@),
    {
        assert(after@ =~= before@.insert(key + 1, inode@));
    }

    proof fn lemma_remove(before: MemoryFs, after: MemoryFs, key: int)
        requires
            slab_items(after.inodes) == slab_items(before.inodes).remove(key),
        ensures
            after@ == before@.remove(key + 1),
    {
        assert(after@ =~= before@.remove(key + 1));
    }

    fn get(&self, ino: u64) -> (inode: Option<&Inode>)
        requires
            self.wf(),
        ensures
            inode is Some <==> self@.contains_key(ino as int),
            inode matches Some(found) ==> found@ == self@[ino as int],
    {
        if ino == 0 || ino - 1 > usize::MAX as u64 {
            proof {
                if self@.contains_key(ino as int) {
                    assert(slab_items(self.inodes).contains_key(ino - 1));
                }
            }
            return None;
        }
        slab_get(&self.inodes, (ino - 1) as usize)
    }

    /// The number that the next inode gets.
    pub closed spec fn next_ino(&self) -> int {
        slab_vacant(self.inodes) + 1
    }

    /// No number is left for another inode.
    pub open spec fn full(&self) -> bool {
        self.next_ino() > usize::MAX || self.next_ino() > u64::MAX
    }

    /// An inode table without inodes.
    pub fn empty() -> (fs: MemoryFs)
        ensures
            fs.wf(),
            fs.next_ino() == 1,
            fs@ == Map::<int, InodeView>::empty(),
    {
        let fs = MemoryFs { inodes: slab_new() };
        assert(fs@ =~= Map::<int, InodeView>::empty());
        fs
    }

    /// Whether an inode with number `ino` exists.
    pub fn contains(&self, ino: u64) -> (found: bool)
        requires
            self.wf(),
        ensures
            found == self@.contains_key(ino as int),
    {
        self.get(ino).is_some()
    }

    /// Counts one more link to inode `ino`, as every directory entry that
    /// comes to point to it does. Tells whether the inode exists.
    pub fn add_link(&mut self, ino: u64) -> (found: bool)
        requires
            old(self).wf(),
        ensures
            final(self).wf(),
            found == old(self)@.contains_key(ino as int),
            final(self)@ == spec_add_link(old(self)@, ino as int),
    {
        if ino == 0 || ino - 1 > usize::MAX as u64 {
            proof {
                if self@.contains_key(ino as int) {
                    assert(slab_items(self.inodes).contains_key(ino - 1));
                }
            }
            return false;
        }
        let ghost before = *self;
        match slab_get_mut(&mut self.inodes, (ino - 1) as usize) {
            None => false,
            Some(inode) => {
                if inode.metadata.nlink < u64::MAX {
                    inode.metadata.nlink = inode.metadata.nlink + 1;
                }
                proof {
                    Self::lemma_insert(before, *self, ino - 1, *inode);
                }
                true
            },
        }
    }

    /// Takes `count` links to inode `ino` away, as every directory entry
    /// that ceases to point to it does, and lets the inode go once it is
    /// unused.
    pub fn release_inode(&mut self, ino: u64, count: u64)
        requires
            old(self).wf(),
        ensures
            final(self).wf(),
            final(self)@ == spec_release(old(self)@, ino as int, count),
    {
        if ino == 0 || ino - 1 > usize::MAX as u64 {
            proof {
                if self@.contains_key(ino as int) {
                    assert(slab_items(self.inodes).contains_key(ino - 1));
                }
            }
            return ;
        }
        let key: usize = (ino - 1) as usize;
        let ghost before = *self;
        let ghost left: Inode;
        let unused = match slab_get_mut(&mut self.inodes, key) {
            None => {
                return ;
            },
            Some(inode) => {
                if inode.metadata.nlink < count {
                    inode.metadata.nlink = 0;
                } else {
                    inode.metadata.nlink = inode.metadata.nlink - count;
                }
                let empty = match &inode.content {
                    NodeContent::File(_) => true,
                    NodeContent::Dir(entries) => entries_is_empty(entries),
                };
                proof {
                    left = *inode;
                }
                inode.metadata.nlink == 0 && inode.handles == 0 && empty
            },
        };
        proof {
            Self::lemma_insert(before, *self, ino - 1, left);
        }
        if unused {
            let ghost kept = *self;
            let _ = slab_try_remove(&mut self.inodes, key);
            proof {
                Self::lemma_remove(kept, *self, ino - 1);
                assert(self@ =~= before@.remove(ino as int));
            }
        }
    }

    fn set_entry(&mut self, dir: u64, name: String, target: u64) -> (before: Option<u64>)
        requires
            old(self).wf(),
            spec_as_dir(old(self)@, dir as int) is Ok,
        ensures
            final(self).wf(),
            final(self)@ == spec_set_entry(old(self)@, dir as int, name@, target),
            before == if spec_as_dir(old(self)@, dir as int)->Ok_0.contains_key(name@) {
                Some(spec_as_dir(old(self)@, dir as int)->Ok_0[name@])
            } else {
                None
            },
    {
        proof {
            assert(slab_items(self.inodes).contains_key(dir - 1));
        }
        let ghost old_fs = *self;
        match slab_get_mut(&mut self.inodes, (dir - 1) as usize) {
            None => None,
            Some(inode) => {
                let before = match &mut inode.content {
                    NodeContent::Dir(entries) => entries_insert(entries, name, target),
                    NodeContent::File(_) => None,
                };
                proof {
                    Self::lemma_insert(old_fs, *self, dir - 1, *inode);
                }
                before
            },
        }
    }

    fn remove_entry(&mut self, dir: u64, name: &str) -> (before: Option<u64>)
        requires
            old(self).wf(),
            spec_as_dir(old(self)@, dir as int) is Ok,
        ensures
            final(self).wf(),
            final(self)@ == spec_remove_entry(old(self)@, dir as int, name@),
            before == if spec_as_dir(old(self)@, dir as int)->Ok_0.contains_key(name@) {
                Some(spec_as_dir(old(self)@, dir as int)->Ok_0[name@])
            } else {
                None
            },
    {
        proof {
            assert(slab_items(self.inodes).contains_key(dir - 1));
        }
        let ghost old_fs = *self;
        match slab_get_mut(&mut self.inodes, (dir - 1) as usize) {
            None => None,
            Some(inode) => {
                let before = match &mut inode.content {
                    NodeContent::Dir(entries) => entries_remove(entries, name),
                    NodeContent::File(_) => None,
                };
                proof {
                    Self::lemma_insert(old_fs, *self, dir - 1, *inode);
                }
                before
            },
        }
    }

    /// Whether `dir` is a directory, and if not, why not.
    pub fn as_dir(&self, dir: u64) -> (r: Result<(), VfsError>)
        requires
            self.wf(),
        ensures
            r is Ok <==> spec_as_dir(self@, dir as int) is Ok,
            r matches Err(e) ==> spec_as_dir(self@, dir as int) == Err::<
                Map<Seq<char>, u64>,
                VfsError,
            >(e),
    {
        match self.get(dir) {
            None => Err(VfsError::NotFound),
            Some(inode) => match &inode.content {
                NodeContent::Dir(_) => Ok(()),
                NodeContent::File(_) => Err(VfsError::NotADirectory),
            },
        }
    }

    /// Makes a new inode and returns its number. `parent` must exist where
    /// it is given; otherwise nothing is made.
    pub fn inode_new(&mut self, parent: Option<u64>, node_type: NodeType, permission: u16) -> (r:
        Result<u64, VfsError>)
        requires
            old(self).wf(),
        ensures
            final(self).wf(),
            match r {
                Ok(ino) => {
                    &&& ino == old(self).next_ino()
                    &&& !old(self)@.contains_key(ino as int)
                    &&& !old(self).full()
                    &&& parent matches Some(p) ==> old(self)@.contains_key(p as int)
                    &&& final(self)@ == spec_inode_new(
                        old(self)@,
                        ino,
                        parent,
                        node_type,
                        permission,
                    )
                },
                Err(e) => {
                    &&& final(self)@ == old(self)@
                    &&& e == if parent matches Some(p) && !old(self)@.contains_key(p as int) {
                        VfsError::NotFound
                    } else {
                        VfsError::OutOfRange
                    }
                    &&& e == VfsError::OutOfRange ==> old(self).full()
                },
            },
    {
        match parent {
            Some(p) => {
                if !self.contains(p) {
                    return Err(VfsError::NotFound);
                }
            },
            None => {},
        }
        let key = slab_vacant_key(&self.inodes);
        proof {
            if key == usize::MAX {
                assert(!slab_items(self.inodes).contains_key(key as int));
            }
        }
        if key as u64 >= u64::MAX || key == usize::MAX {
            return Err(VfsError::OutOfRange);
        }
        let ino: u64 = key as u64 + 1;
        let zero = TimeValue { secs: 0, nanos: 0 };
        let metadata = Metadata {
            device: 0,
            inode: ino,
            nlink: 0,
            mode: permission,
            node_type,
            uid: 0,
            gid: 0,
            size: 0,
            block_size: 0,
            blocks: 0,
            rdev: 0,
            atime: zero,
            mtime: zero,
            ctime: zero,
        };
        let is_dir = match node_type {
            NodeType::Directory => true,
            _ => false,
        };
        let content = if is_dir {
            NodeContent::Dir(entries_new())
        } else {
            NodeContent::File(FileContent { length: 0, symlink: None })
        };
        let ghost before = *self;
        let inode = Inode { metadata, content, handles: 0 };
        let ghost made = inode;
        let _ = slab_insert(&mut self.inodes, inode);
        proof {
            Self::lemma_insert(before, *self, key as int, made);
            assert(made@ == spec_fresh(ino, node_type, permission));
        }
        if is_dir {
            proof {
                reveal_strlit(".");
                reveal_strlit("..");
            }
            let up = match parent {
                Some(p) => p,
                None => ino,
            };
            let _ = self.add_link(ino);
            let dot: String = ".".to_owned();
            assert(dot@ =~= seq!['.']);
            let _ = self.set_entry(ino, dot, ino);
            let _ = self.add_link(up);
            let dotdot: String = "..".to_owned();
            assert(dotdot@ =~= seq!['.', '.']);
            let _ = self.set_entry(ino, dotdot, up);
        }
        Ok(ino)
    }

    /// A file system with nothing in it but its root directory, which has
    /// inode number one and is its own parent.
    pub fn new() -> (fs: MemoryFs)
        ensures
            fs.wf(),
            fs@ == spec_inode_new(
                Map::<int, InodeView>::empty(),
                1,
                None,
                NodeType::Directory,
                0o755,
            ),
    {
        let mut fs = MemoryFs::empty();
        let key = slab_vacant_key(&fs.inodes);
        let made = fs.inode_new(None, NodeType::Directory, 0o755);
        fs
    }

    /// Looks `name` up in the directory `dir`.
    pub fn lookup(&self, dir: u64, name: &str) -> (r: Result<(u64, NodeType), VfsError>)
        requires
            self.wf(),
        ensures
            r == spec_lookup(self@, dir as int, name@),
    {
        let inode = match self.get(dir) {
            None => {
                return Err(VfsError::NotFound);
            },
            Some(inode) => inode,
        };
        let entries = match &inode.content {
            NodeContent::Dir(entries) => entries,
            NodeContent::File(_) => {
                return Err(VfsError::NotADirectory);
            },
        };
        let target = match entries_get(entries, name) {
            Some(target) => target,
            None => {
                return Err(VfsError::NotFound);
            },
        };
        match self.get(target) {
            Some(found) => Ok((target, found.metadata.node_type)),
            None => Err(VfsError::NotFound),
        }
    }

    fn can_enter(&self, dir: u64, name: &str) -> (r: Result<(), VfsError>)
        requires
            self.wf(),
        ensures
            r == spec_can_enter(self@, dir as int, name@),
    {
        let inode = match self.get(dir) {
            None => {
                return Err(VfsError::NotFound);
            },
            Some(inode) => inode,
        };
        match &inode.content {
            NodeContent::Dir(entries) => {
                if entries_get(entries, name).is_some() {
                    Err(VfsError::AlreadyExists)
                } else {
                    Ok(())
                }
            },
            NodeContent::File(_) => Err(VfsError::NotADirectory),
        }
    }

    /// Makes a new inode and enters it in the directory `dir` under `name`,
    /// which must not be in use there.
    pub fn create(&mut self, dir: u64, name: String, node_type: NodeType, permission: u16) -> (r:
        Result<u64, VfsError>)
        requires
            old(self).wf(),
        ensures
            final(self).wf(),
            match r {
                Ok(ino) => {
                    &&& spec_can_enter(old(self)@, dir as int, name@) is Ok
                    &&& ino == old(self).next_ino()
                    &&& !old(self)@.contains_key(ino as int)
                    &&& final(self)@ == spec_create(
                        old(self)@,
                        dir,
                        name@,
                        ino,
                        node_type,
                        permission,
                    )
                },
                Err(e) => {
                    &&& final(self)@ == old(self)@
                    &&& match spec_can_enter(old(self)@, dir as int, name@) {
                        Err(f) => e == f,
                        Ok(_) => e == VfsError::OutOfRange && old(self).full(),
                    }
                },
            },
    {
        match self.can_enter(dir, name.as_str()) {
            Ok(()) => {},
            Err(e) => {
                return Err(e);
            },
        }
        let ino = match self.inode_new(Some(dir), node_type, permission) {
            Ok(ino) => ino,
            Err(e) => {
                return Err(e);
            },
        };
        let _ = self.add_link(ino);
        let _ = self.set_entry(dir, name, ino);
        Ok(ino)
    }

    /// Enters the inode `target` in the directory `dir` under the further
    /// name `name`, which must not be in use there.
    pub fn link(&mut self, dir: u64, name: String, target: u64) -> (r: Result<
        (u64, NodeType),
        VfsError,
    >)
        requires
            old(self).wf(),
        ensures
            final(self).wf(),
            match r {
                Ok(entry) => {
                    &&& spec_can_enter(old(self)@, dir as int, name@) is Ok
                    &&& old(self)@.contains_key(target as int)
                    &&& entry == (target, old(self)@[target as int].metadata.node_type)
                    &&& final(self)@ == spec_link(old(self)@, dir, name@, target)
                },
                Err(e) => {
                    &&& final(self)@ == old(self)@
                    &&& match spec_can_enter(old(self)@, dir as int, name@) {
                        Err(f) => e == f,
                        Ok(_) => e == VfsError::NotFound && !old(self)@.contains_key(
                            target as int,
                        ),
                    }
                },
            },
    {
        match self.can_enter(dir, name.as_str()) {
            Ok(()) => {},
            Err(e) => {
                return Err(e);
            },
        }
        let node_type = match self.get(target) {
            Some(inode) => inode.metadata.node_type,
            None => {
                return Err(VfsError::NotFound);
            },
        };
        let _ = self.add_link(target);
        let _ = self.set_entry(dir, name, target);
        Ok((target, node_type))
    }

    fn can_unlink(&self, dir: u64, name: &str) -> (r: Result<u64, VfsError>)
        requires
            self.wf(),
        ensures
            r == spec_can_unlink(self@, dir as int, name@),
    {
        let inode = match self.get(dir) {
            None => {
                return Err(VfsError::NotFound);
            },
            Some(inode) => inode,
        };
        let entries = match &inode.content {
            NodeContent::Dir(entries) => entries,
            NodeContent::File(_) => {
                return Err(VfsError::NotADirectory);
            },
        };
        let target = match entries_get(entries, name) {
            Some(target) => target,
            None => {
                return Err(VfsError::NotFound);
            },
        };
        match self.get(target) {
            Some(found) => match &found.content {
                NodeContent::Dir(inner) => {
                    if entries_len(inner) > 2 {
                        return Err(VfsError::DirectoryNotEmpty);
                    }
                },
                NodeContent::File(_) => {},
            },
            None => {},
        }
        Ok(target)
    }

    /// Removes `name` from the directory `dir`. The inode that the name
    /// stood for loses a link, and goes away where it was its last and
    /// nothing holds the inode open.
    pub fn unlink(&mut self, dir: u64, name: &str) -> (r: Result<(), VfsError>)
        requires
            old(self).wf(),
        ensures
            final(self).wf(),
            match spec_can_unlink(old(self)@, dir as int, name@) {
                Ok(target) => r is Ok && final(self)@ == spec_unlink(old(self)@, dir, name@, target),
                Err(e) => r == Err::<(), VfsError>(e) && final(self)@ == old(self)@,
            },
    {
        let target = match self.can_unlink(dir, name) {
            Ok(target) => target,
            Err(e) => {
                return Err(e);
            },
        };
        let _ = self.remove_entry(dir, name);
        self.release_inode(target, 1);
        Ok(())
    }

    /// Gives the inode behind `src_name` in `src_dir` the name `dst_name` in
    /// `dst_dir`.
    pub fn rename(&mut self, src_dir: u64, src_name: &str, dst_dir: u64, dst_name: String) -> (r:
        Result<(), VfsError>)
        requires
            old(self).wf(),
        ensures
            final(self).wf(),
            r == spec_rename_result(old(self)@, src_dir, src_name@, dst_dir, dst_name@),
            final(self)@ == spec_rename(old(self)@, src_dir, src_name@, dst_dir, dst_name@),
    {
        match self.lookup(dst_dir, dst_name.as_str()) {
            Ok(entry) => {
                let src_entry = match self.lookup(src_dir, src_name) {
                    Ok(src_entry) => src_entry,
                    Err(e) => {
                        return Err(e);
                    },
                };
                if entry.0 == src_entry.0 {
                    return Ok(());
                }
            },
            Err(_) => {},
        }
        match self.as_dir(src_dir) {
            Ok(()) => {},
            Err(e) => {
                return Err(e);
            },
        }
        let moved = match self.remove_entry(src_dir, src_name) {
            Some(moved) => moved,
            None => {
                proof {
                    let entries = spec_as_dir(old(self)@, src_dir as int)->Ok_0;
                    assert(entries.remove(src_name@) =~= entries);
                    assert(self@ =~= old(self)@);
                }
                return Err(VfsError::NotFound);
            },
        };
        match self.as_dir(dst_dir) {
            Ok(()) => {},
            Err(e) => {
                self.release_inode(moved, 1);
                return Err(e);
            },
        }
        match self.set_entry(dst_dir, dst_name, moved) {
            Some(replaced) => {
                self.release_inode(replaced, 1);
            },
            None => {},
        }
        Ok(())
    }

    /// The metadata of inode `ino`.
    pub fn metadata(&self, ino: u64) -> (r: Result<Metadata, VfsError>)
        requires
            self.wf(),
        ensures
            r == if self@.contains_key(ino as int) {
                Ok::<Metadata, VfsError>(spec_metadata(self@[ino as int]))
            } else {
                Err::<Metadata, VfsError>(VfsError::NotFound)
            },
    {
        match self.get(ino) {
            None => Err(VfsError::NotFound),
            Some(inode) => {
                let size: u64 = match &inode.content {
                    NodeContent::File(file) => file.length,
                    NodeContent::Dir(entries) => entries_len(entries) as u64,
                };
                Ok(Metadata { size, ..inode.metadata })
            },
        }
    }

    /// Changes the metadata of inode `ino`.
    pub fn update_metadata(&mut self, ino: u64, update: MetadataUpdate) -> (r: Result<
        (),
        VfsError,
    >)
        requires
            old(self).wf(),
        ensures
            final(self).wf(),
            r is Ok <==> old(self)@.contains_key(ino as int),
            r is Err ==> r == Err::<(), VfsError>(VfsError::NotFound) && final(self)@ == old(self)@,
            r is Ok ==> final(self)@ == old(self)@.insert(
                ino as int,
                InodeView {
                    metadata: spec_updated(old(self)@[ino as int].metadata, update),
                    ..old(self)@[ino as int]
                },
            ),
    {
        if ino == 0 || ino - 1 > usize::MAX as u64 {
            proof {
                if self@.contains_key(ino as int) {
                    assert(slab_items(self.inodes).contains_key(ino - 1));
                }
            }
            return Err(VfsError::NotFound);
        }
        let ghost before = *self;
        match slab_get_mut(&mut self.inodes, (ino - 1) as usize) {
            None => Err(VfsError::NotFound),
            Some(inode) => {
                match update.mode {
                    Some(mode) => {
                        inode.metadata.mode = mode;
                    },
                    None => {},
                }
                match update.owner {
                    Some((uid, gid)) => {
                        inode.metadata.uid = uid;
                        inode.metadata.gid = gid;
                    },
                    None => {},
                }
                match update.atime {
                    Some(atime) => {
                        inode.metadata.atime = atime;
                    },
                    None => {},
                }
                match update.mtime {
                    Some(mtime) => {
                        inode.metadata.mtime = mtime;
                    },
                    None => {},
                }
                proof {
                    Self::lemma_insert(before, *self, ino - 1, *inode);
                }
                Ok(())
            },
        }
    }

    /// Sets the length of the file `ino`.
    pub fn set_len(&mut self, ino: u64, len: u64) -> (r: Result<(), VfsError>)
        requires
            old(self).wf(),
        ensures
            final(self).wf(),
            match spec_as_file(old(self)@, ino as int) {
                Ok((_, symlink)) => r is Ok && final(self)@ == old(self)@.insert(
                    ino as int,
                    InodeView {
                        content: ContentView::File { length: len, symlink },
                        ..old(self)@[ino as int]
                    },
                ),
                Err(e) => r == Err::<(), VfsError>(e) && final(self)@ == old(self)@,
            },
    {
        if ino == 0 || ino - 1 > usize::MAX as u64 {
            proof {
                if self@.contains_key(ino as int) {
                    assert(slab_items(self.inodes).contains_key(ino - 1));
                }
            }
            return Err(VfsError::NotFound);
        }
        let ghost before = *self;
        match slab_get_mut(&mut self.inodes, (ino - 1) as usize) {
            None => Err(VfsError::NotFound),
            Some(inode) => {
                let r = match &mut inode.content {
                    NodeContent::File(file) => {
                        file.length = len;
                        Ok(())
                    },
                    NodeContent::Dir(_) => Err(VfsError::IsADirectory),
                };
                proof {
                    Self::lemma_insert(before, *self, ino - 1, *inode);
                    if r is Err {
                        assert(self@ =~= before@);
                    }
                }
                r
            },
        }
    }

    /// Makes the file `ino` a symbolic link to `target`; its length becomes
    /// the number of bytes of the target.
    pub fn set_symlink(&mut self, ino: u64, target: &str) -> (r: Result<(), VfsError>)
        requires
            old(self).wf(),
        ensures
            final(self).wf(),
            match spec_as_file(old(self)@, ino as int) {
                Ok(_) => r is Ok && final(self)@ == old(self)@.insert(
                    ino as int,
                    InodeView {
                        content: ContentView::File {
                            length: vstd::utf8::encode_utf8(target@).len() as u64,
                            symlink: Some(target@),
                        },
                        ..old(self)@[ino as int]
                    },
                ),
                Err(e) => r == Err::<(), VfsError>(e) && final(self)@ == old(self)@,
            },
    {
        if ino == 0 || ino - 1 > usize::MAX as u64 {
            proof {
                if self@.contains_key(ino as int) {
                    assert(slab_items(self.inodes).contains_key(ino - 1));
                }
            }
            return Err(VfsError::NotFound);
        }
        let ghost before = *self;
        match slab_get_mut(&mut self.inodes, (ino - 1) as usize) {
            None => Err(VfsError::NotFound),
            Some(inode) => {
                let r = match &mut inode.content {
                    NodeContent::File(file) => {
                        file.length = target.as_bytes().len() as u64;
                        file.symlink = Some(target.to_owned());
                        Ok(())
                    },
                    NodeContent::Dir(_) => Err(VfsError::IsADirectory),
                };
                proof {
                    Self::lemma_insert(before, *self, ino - 1, *inode);
                    if r is Err {
                        assert(self@ =~= before@);
                    }
                }
                r
            },
        }
    }

    /// Reads at most `room` bytes of the target of the symbolic link `ino`.
    /// The content of any other file is not kept here and cannot be read;
    /// nor can a link be read from anywhere but its start.
    pub fn read_at(&self, ino: u64, room: usize, offset: u64) -> (r: Result<Vec<u8>, VfsError>)
        requires
            self.wf(),
        ensures
            match spec_as_file(self@, ino as int) {
                Err(e) => r == Err::<Vec<u8>, VfsError>(e),
                Ok((_, symlink)) => match symlink {
                    Some(target) if offset == 0 => r matches Ok(bytes) && bytes@
                        == crate::vfs::file::spec_read_window(
                        vstd::utf8::encode_utf8(target),
                        0,
                        room as int,
                    ),
                    _ => r == Err::<Vec<u8>, VfsError>(VfsError::InvalidInput),
                },
            },
    {
        let inode = match self.get(ino) {
            None => {
                return Err(VfsError::NotFound);
            },
            Some(inode) => inode,
        };
        match &inode.content {
            NodeContent::Dir(_) => Err(VfsError::IsADirectory),
            NodeContent::File(file) => match &file.symlink {
                Some(target) => {
                    if offset != 0 {
                        return Err(VfsError::InvalidInput);
                    }
                    Ok(crate::vfs::file::read_window(target.as_str().as_bytes(), 0, room))
                },
                None => Err(VfsError::InvalidInput),
            },
        }
    }

    /// Lists the entries of the directory `dir` from position `offset` on,
    /// in the order in which the directory keeps them, which is not
    /// specified but stays the same while the directory is not changed. An
    /// entry whose inode is gone is listed with an unknown type.
    pub fn read_dir(&self, dir: u64, offset: u64) -> (r: Result<Vec<Listed>, VfsError>)
        requires
            self.wf(),
        ensures
            match spec_as_dir(self@, dir as int) {
                Err(e) => r == Err::<Vec<Listed>, VfsError>(e),
                Ok(entries) => {
                    &&& r matches Ok(list)
                    &&& list@.len() == if offset >= entries.dom().len() {
                        0
                    } else {
                        entries.dom().len() - offset
                    }
                    &&& forall|i: int|
                        0 <= i < list@.len() ==> {
                            let item = #[trigger] list@[i];
                            &&& entries.contains_key(item.name@)
                            &&& entries[item.name@] == item.ino
                            &&& item.offset == offset + i + 1
                            &&& item.node_type == if self@.contains_key(item.ino as int) {
                                self@[item.ino as int].metadata.node_type
                            } else {
                                NodeType::Unknown
                            }
                        }
                    &&& forall|i: int, j: int|
                        0 <= i < j < list@.len() ==> (#[trigger] list@[i]).name@
                            != (#[trigger] list@[j]).name@
                },
            },
    {
        let inode = match self.get(dir) {
            None => {
                return Err(VfsError::NotFound);
            },
            Some(inode) => inode,
        };
        let entries = match &inode.content {
            NodeContent::Dir(entries) => entries,
            NodeContent::File(_) => {
                return Err(VfsError::NotADirectory);
            },
        };
        let pairs = entries_list(entries);
        let mut list: Vec<Listed> = Vec::new();
        if offset >= pairs.len() as u64 {
            return Ok(list);
        }
        let start: usize = offset as usize;
        let mut i: usize = start;
        while i < pairs.len()
            invariant
                self.wf(),
                start == offset,
                start <= i <= pairs@.len(),
                list@.len() == i - start,
                forall|k: int|
                    0 <= k < list@.len() ==> {
                        let item = #[trigger] list@[k];
                        &&& item.name@ == pairs@[start + k].0@
                        &&& item.ino == pairs@[start + k].1
                        &&& item.offset == offset + k + 1
                        &&& item.node_type == if self@.contains_key(item.ino as int) {
                            self@[item.ino as int].metadata.node_type
                        } else {
                            NodeType::Unknown
                        }
                    },
            decreases pairs@.len() - i,
        {
            let name = pairs[i].0.clone();
            let ino = pairs[i].1;
            let node_type = match self.get(ino) {
                Some(found) => found.metadata.node_type,
                None => NodeType::Unknown,
            };
            list.push(Listed { name, ino, node_type, offset: i as u64 + 1 });
            i = i + 1;
        }
        proof {
            assert forall|a: int, b: int| 0 <= a < b < list@.len() implies (#[trigger] list@[a]).name@
                != (#[trigger] list@[b]).name@ by {
                assert(pairs@[start + a].0@ != pairs@[start + b].0@);
            }
        }
        Ok(list)
    }

    /// Counts one more open handle on inode `ino`. Tells whether the inode
    /// exists.
    pub fn open_node(&mut self, ino: u64) -> (found: bool)
        requires
            old(self).wf(),
        ensures
            final(self).wf(),
            found == old(self)@.contains_key(ino as int),
            found ==> final(self)@ == old(self)@.insert(
                ino as int,
                InodeView {
                    handles: if old(self)@[ino as int].handles == u64::MAX {
                        u64::MAX
                    } else {
                        (old(self)@[ino as int].handles + 1) as u64
                    },
                    ..old(self)@[ino as int]
                },
            ),
            !found ==> final(self)@ == old(self)@,
    {
        if ino == 0 || ino - 1 > usize::MAX as u64 {
            proof {
                if self@.contains_key(ino as int) {
                    assert(slab_items(self.inodes).contains_key(ino - 1));
                }
            }
            return false;
        }
        let ghost before = *self;
        match slab_get_mut(&mut self.inodes, (ino - 1) as usize) {
            None => false,
            Some(inode) => {
                if inode.handles < u64::MAX {
                    inode.handles = inode.handles + 1;
                }
                proof {
                    Self::lemma_insert(before, *self, ino - 1, *inode);
                }
                true
            },
        }
    }

    fn handle_closed(&mut self, ino: u64) -> (pairs: Vec<(String, u64)>)
        requires
            old(self).wf(),
        ensures
            final(self).wf(),
            final(self)@ == spec_handle_closed(old(self)@, ino as int),
            match spec_as_dir(old(self)@, ino as int) {
                Ok(entries) => spec_is_listing(
                    entries,
                    Seq::new(pairs@.len(), |i: int| (pairs@[i].0@, pairs@[i].1)),
                ),
                Err(_) => pairs@.len() == 0,
            },
    {
        if ino == 0 || ino - 1 > usize::MAX as u64 {
            proof {
                if self@.contains_key(ino as int) {
                    assert(slab_items(self.inodes).contains_key(ino - 1));
                }
            }
            return Vec::new();
        }
        let ghost before = *self;
        match slab_get_mut(&mut self.inodes, (ino - 1) as usize) {
            None => Vec::new(),
            Some(inode) => {
                if inode.handles > 0 {
                    inode.handles = inode.handles - 1;
                }
                let pairs = match &inode.content {
                    NodeContent::Dir(entries) => entries_list(entries),
                    NodeContent::File(_) => Vec::new(),
                };
                proof {
                    Self::lemma_insert(before, *self, ino - 1, *inode);
                }
                pairs
            },
        }
    }

    /// Closes an open handle on inode `ino`. A directory loses all its
    /// entries at that moment, each of them giving up its link; then the
    /// inode goes away if it is unused. The entries are dropped in the
    /// order in which the directory keeps them.
    pub fn close_node(&mut self, ino: u64)
        requires
            old(self).wf(),
        ensures
            final(self).wf(),
            exists|pairs: Seq<(Seq<char>, u64)>|
                {
                    &&& match spec_as_dir(old(self)@, ino as int) {
                        Ok(entries) => spec_is_listing(entries, pairs),
                        Err(_) => pairs.len() == 0,
                    }
                    &&& final(self)@ == #[trigger] spec_close_node(old(self)@, ino as int, pairs)
                },
    {
        let pairs = self.handle_closed(ino);
        let ghost closed = self@;
        let ghost order = Seq::new(pairs@.len(), |i: int| (pairs@[i].0@, pairs@[i].1));
        let mut i: usize = 0;
        proof {
            assert(order.skip(0) =~= order);
        }
        while i < pairs.len()
            invariant
                self.wf(),
                i <= pairs@.len(),
                order == Seq::new(pairs@.len(), |k: int| (pairs@[k].0@, pairs@[k].1)),
                spec_drop_entries(closed, ino as int, order) == spec_drop_entries(
                    self@,
                    ino as int,
                    order.skip(i as int),
                ),
            decreases pairs@.len() - i,
        {
            proof {
                assert(order.skip(i as int)[0] == order[i as int]);
                assert(order.skip(i as int).drop_first() =~= order.skip(i + 1));
            }
            let name = pairs[i].0.as_str();
            let target = pairs[i].1;
            let ghost step = self@;
            match self.as_dir(ino) {
                Ok(()) => {
                    let _ = self.remove_entry(ino, name);
                },
                Err(_) => {
                    assert(spec_remove_entry(step, ino as int, name@) =~= step);
                },
            }
            assert(self@ == spec_remove_entry(step, ino as int, order[i as int].0));
            self.release_inode(target, 1);
            i = i + 1;
        }
        proof {
            assert(order.skip(i as int) =~= Seq::<(Seq<char>, u64)>::empty());
        }
        self.release_inode(ino, 0);
        proof {
            assert(self@ == spec_close_node(old(self)@, ino as int, order));
        }
    }
}

/// One entry of a directory listing.
pub struct Listed {
    /// The name of the entry.
    pub name: String,
    /// The inode that the name stands for.
    pub ino: u64,
    /// The type of that inode.
    pub node_type: NodeType,
    /// The position of the entry that follows.
    pub offset: u64,
}

/// The name under which the file system is known.
pub fn filesystem_name() -> (name: &'static str)
    ensures
        name@ == "tmpfs"@,
{
    "tmpfs"
}

/// The magic number that the file system reports in its statistics.
pub const TMPFS_MAGIC: u32 = 0x01021994;

} // verus!

//! Where the file system keeps its inodes and its directory entries: a
//! `slab` table and `hashbrown` maps, reached through functions whose
//! contracts are taken on trust.

use crate::vfs::tmp::Inode;
use vstd::prelude::*;

verus! {

#[verifier::external_type_specification]
#[verifier::external_body]
#[verifier::reject_recursive_types(T)]
pub struct ExSlab<T>(slab::Slab<T>);

/// The entries of one directory: a `hashbrown` map from names to inode
/// numbers. The verifier does not look inside; what the map holds is known
/// by [`dir_entries`].
#[verifier::external_body]
pub struct DirEntries {
    map: hashbrown::HashMap<String, u64>,
}

/// What a directory map holds: the inode number that each name stands for.
pub uninterp spec fn dir_entries(entries: DirEntries) -> Map<Seq<char>, u64>;

/// What an inode table holds: the inode stored under each key.
pub uninterp spec fn slab_items(slab: slab::Slab<Inode>) -> Map<int, Inode>;

/// The key that the next insertion into an inode table uses.
pub uninterp spec fn slab_vacant(slab: slab::Slab<Inode>) -> int;

/// A directory map that holds nothing.
pub open spec fn spec_no_entries() -> Map<Seq<char>, u64> {
    Map::empty()
}

/// An inode table that holds nothing.
pub open spec fn spec_no_inodes() -> Map<int, Inode> {
    Map::empty()
}

/// Trusted: `hashbrown::HashMap::new` makes a map that holds nothing.
#[verifier::external_body]
pub(crate) fn entries_new() -> (made: DirEntries)
    ensures
        dir_entries(made) == spec_no_entries(),
{
    DirEntries { map: hashbrown::HashMap::new() }
}

/// Trusted: `hashbrown::HashMap::len` is the number of keys of the map.
#[verifier::external_body]
pub(crate) fn entries_len(entries: &DirEntries) -> (len: usize)
    ensures
        len == dir_entries(*entries).dom().len(),
{
    entries.map.len()
}

/// Trusted: `hashbrown::HashMap::is_empty` tells whether the map holds
/// nothing.
#[verifier::external_body]
pub(crate) fn entries_is_empty(entries: &DirEntries) -> (empty: bool)
    ensures
        empty == (dir_entries(*entries) == spec_no_entries()),
{
    entries.map.is_empty()
}

/// Trusted: `hashbrown::HashMap::get` finds the value stored under a key,
/// if the map holds the key.
#[verifier::external_body]
pub(crate) fn entries_get(entries: &DirEntries, name: &str) -> (ino: Option<u64>)
    ensures
        ino == if dir_entries(*entries).contains_key(name@) {
            Some(dir_entries(*entries)[name@])
        } else {
            None
        },
{
    entries.map.get(name).copied()
}

/// Trusted: `hashbrown::HashMap::insert` stores the value under the key,
/// replacing what was stored there, and returns what it replaced.
#[verifier::external_body]
pub(crate) fn entries_insert(entries: &mut DirEntries, name: String, ino: u64) -> (before: Option<u64>)
    ensures
        dir_entries(*final(entries)) == dir_entries(*old(entries)).insert(name@, ino),
        before == if dir_entries(*old(entries)).contains_key(name@) {
            Some(dir_entries(*old(entries))[name@])
        } else {
            None
        },
{
    entries.map.insert(name, ino)
}

/// Trusted: `hashbrown::HashMap::remove` takes the key out of the map and
/// returns the value that was stored under it, if there was one.
#[verifier::external_body]
pub(crate) fn entries_remove(entries: &mut DirEntries, name: &str) -> (before: Option<u64>)
    ensures
        dir_entries(*final(entries)) == dir_entries(*old(entries)).remove(name@),
        before == if dir_entries(*old(entries)).contains_key(name@) {
            Some(dir_entries(*old(entries))[name@])
        } else {
            None
        },
{
    entries.map.remove(name)
}

/// Trusted: `hashbrown::HashMap::iter` visits every pair of the map once,
/// in an order that is not specified; the pairs are copied into a vector
/// as they come.
#[verifier::external_body]
pub(crate) fn entries_list(entries: &DirEntries) -> (pairs: Vec<(String, u64)>)
    ensures
        pairs@.len() == dir_entries(*entries).dom().len(),
        forall|i: int|
            0 <= i < pairs@.len() ==> dir_entries(*entries).contains_key((#[trigger] pairs@[i]).0@)
                && dir_entries(*entries)[pairs@[i].0@] == pairs@[i].1,
        forall|i: int, j: int|
            0 <= i < j < pairs@.len() ==> (#[trigger] pairs@[i]).0@ != (#[trigger] pairs@[j]).0@,
{
    entries.map.iter().map(|(name, ino)| (name.clone(), *ino)).collect()
}

/// Trusted: `slab::Slab::new` makes a table that holds nothing and whose
/// first insertion uses key zero.
#[verifier::external_body]
pub(crate) fn slab_new() -> (table: slab::Slab<Inode>)
    ensures
        slab_items(table) == spec_no_inodes(),
        slab_vacant(table) == 0,
{
    slab::Slab::new()
}

/// Trusted: `slab::Slab::vacant_key` tells the key that the next insertion
/// uses, under which nothing is stored.
#[verifier::external_body]
pub(crate) fn slab_vacant_key(slab: &slab::Slab<Inode>) -> (key: usize)
    ensures
        key == slab_vacant(*slab),
        !slab_items(*slab).contains_key(key as int),
{
    slab.vacant_key()
}

/// Trusted: `slab::Slab::insert` stores the value under the vacant key and
/// returns that key.
#[verifier::external_body]
pub(crate) fn slab_insert(slab: &mut slab::Slab<Inode>, inode: Inode) -> (key: usize)
    ensures
        key == slab_vacant(*old(slab)),
        slab_items(*final(slab)) == slab_items(*old(slab)).insert(key as int, inode),
{
    slab.insert(inode)
}

/// Trusted: `slab::Slab::get` finds the value stored under a key.
#[verifier::external_body]
pub(crate) fn slab_get(slab: &slab::Slab<Inode>, key: usize) -> (inode: Option<&Inode>)
    ensures
        inode is Some <==> slab_items(*slab).contains_key(key as int),
        inode matches Some(found) ==> *found == slab_items(*slab)[key as int],
{
    slab.get(key)
}

/// Trusted: `slab::Slab::get_mut` lends the value stored under a key for
/// change; what the borrower leaves behind is what the table holds under
/// the key afterwards, and nothing else changes.
#[verifier::external_body]
pub(crate) fn slab_get_mut(slab: &mut slab::Slab<Inode>, key: usize) -> (inode: Option<&mut Inode>)
    ensures
        inode is Some <==> slab_items(*old(slab)).contains_key(key as int),
        inode matches Some(found) ==> *found == slab_items(*old(slab))[key as int] && slab_items(
            *final(slab),
        ) == slab_items(*old(slab)).insert(key as int, *final(found)),
        inode is None ==> slab_items(*final(slab)) == slab_items(*old(slab)),
{
    slab.get_mut(key)
}

/// Trusted: `slab::Slab::try_remove` takes the value stored under a key out
/// of the table and returns it, if there was one.
#[verifier::external_body]
pub(crate) fn slab_try_remove(slab: &mut slab::Slab<Inode>, key: usize) -> (inode: Option<Inode>)
    ensures
        inode is Some <==> slab_items(*old(slab)).contains_key(key as int),
        inode matches Some(found) ==> found == slab_items(*old(slab))[key as int],
        slab_items(*final(slab)) == slab_items(*old(slab)).remove(key as int),
{
    slab.try_remove(key)
}

} // verus!

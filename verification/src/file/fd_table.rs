//! The table of file descriptors of a process.

use crate::vfs::error::VfsError;
use vstd::prelude::*;

verus! {

/// What a descriptor stands for: an open file, known by its handle, and
/// whether the descriptor is closed when the process executes a new
/// program.
#[derive(Clone, Copy, Debug, PartialEq, Eq, Structural)]
pub struct FileDescriptor {
    pub file: u64,
    pub cloexec: bool,
}

/// The descriptors of a process: a fixed number of slots, numbered from
/// zero, each free or taken.
pub struct FdTable {
    slots: Vec<Option<FileDescriptor>>,
}

impl View for FdTable {
    type V = Seq<Option<FileDescriptor>>;

    closed spec fn view(&self) -> Seq<Option<FileDescriptor>> {
        self.slots@
    }
}

/// The slot that `fd` names, if it names one: a negative number or one
/// beyond the table names none.
pub open spec fn spec_slot(table: Seq<Option<FileDescriptor>>, fd: int) -> Option<FileDescriptor> {
    if 0 <= fd < table.len() {
        table[fd]
    } else {
        None
    }
}

/// `fd` is the highest slot that is taken.
pub open spec fn spec_highest_taken(table: Seq<Option<FileDescriptor>>, fd: int) -> bool {
    &&& 0 <= fd < table.len()
    &&& table[fd] is Some
    &&& forall|j: int| fd < j < table.len() ==> table[j] is None
}

impl FdTable {
    /// A table of `limit` free slots.
    pub fn new(limit: usize) -> (table: FdTable)
        ensures
            table@.len() == limit,
            forall|i: int| 0 <= i < limit ==> table@[i] is None,
    {
        let mut slots: Vec<Option<FileDescriptor>> = Vec::new();
        let mut i: usize = 0;
        while i < limit
            invariant
                i <= limit,
                slots@.len() == i,
                forall|j: int| 0 <= j < i ==> slots@[j] is None,
            decreases limit - i,
        {
            slots.push(None);
            i = i + 1;
        }
        FdTable { slots }
    }

    /// What `fd` stands for.
    pub fn get(&self, fd: i32) -> (entry: Option<FileDescriptor>)
        ensures
            entry == spec_slot(self@, fd as int),
    {
        if fd < 0 || fd as usize >= self.slots.len() {
            None
        } else {
            self.slots[fd as usize]
        }
    }

    /// Takes the lowest free slot for `entry` and returns its number; fails
    /// where every slot is taken.
    pub fn add(&mut self, entry: FileDescriptor) -> (r: Result<usize, VfsError>)
        ensures
            match r {
                Ok(fd) => {
                    &&& fd < old(self)@.len()
                    &&& old(self)@[fd as int] is None
                    &&& forall|j: int| 0 <= j < fd ==> old(self)@[j] is Some
                    &&& final(self)@ == old(self)@.update(fd as int, Some(entry))
                },
                Err(e) => {
                    &&& e == VfsError::TooManyOpenFiles
                    &&& forall|j: int| 0 <= j < old(self)@.len() ==> old(self)@[j] is Some
                    &&& final(self)@ == old(self)@
                },
            },
    {
        let mut i: usize = 0;
        while i < self.slots.len()
            invariant
                i <= self.slots@.len(),
                self.slots@ == old(self).slots@,
                forall|j: int| 0 <= j < i ==> self.slots@[j] is Some,
            decreases self.slots@.len() - i,
        {
            if self.slots[i].is_none() {
                self.slots[i] = Some(entry);
                return Ok(i);
            }
            i = i + 1;
        }
        Err(VfsError::TooManyOpenFiles)
    }

    /// Takes the slot `fd` for `entry`; fails where `fd` names no slot or
    /// the slot is taken.
    pub fn add_at(&mut self, fd: i32, entry: FileDescriptor) -> (r: Result<(), VfsError>)
        ensures
            r is Ok <==> 0 <= fd < old(self)@.len() && old(self)@[fd as int] is None,
            r is Ok ==> final(self)@ == old(self)@.update(fd as int, Some(entry)),
            r is Err ==> r == Err::<(), VfsError>(VfsError::BadFileDescriptor) && final(self)@
                == old(self)@,
    {
        if fd < 0 || fd as usize >= self.slots.len() {
            return Err(VfsError::BadFileDescriptor);
        }
        if self.slots[fd as usize].is_some() {
            return Err(VfsError::BadFileDescriptor);
        }
        self.slots[fd as usize] = Some(entry);
        Ok(())
    }

    /// Frees the slot `fd` and returns what it stood for.
    pub fn remove(&mut self, fd: i32) -> (entry: Option<FileDescriptor>)
        ensures
            entry == spec_slot(old(self)@, fd as int),
            final(self)@ == if entry is Some {
                old(self)@.update(fd as int, None)
            } else {
                old(self)@
            },
    {
        if fd < 0 || fd as usize >= self.slots.len() {
            return None;
        }
        let entry = self.slots[fd as usize];
        if entry.is_some() {
            self.slots[fd as usize] = None;
        }
        entry
    }

    /// Sets whether `fd` is closed on execution; tells whether `fd` stands
    /// for anything.
    pub fn set_cloexec(&mut self, fd: i32, cloexec: bool) -> (found: bool)
        ensures
            found == spec_slot(old(self)@, fd as int) is Some,
            found ==> final(self)@ == old(self)@.update(
                fd as int,
                Some(FileDescriptor { cloexec, ..old(self)@[fd as int]->Some_0 }),
            ),
            !found ==> final(self)@ == old(self)@,
    {
        match self.get(fd) {
            None => false,
            Some(entry) => {
                self.slots[fd as usize] = Some(FileDescriptor { cloexec, ..entry });
                true
            },
        }
    }

    /// The highest descriptor in use.
    pub fn max_id(&self) -> (max: Option<usize>)
        ensures
            match max {
                Some(fd) => spec_highest_taken(self@, fd as int),
                None => forall|j: int| 0 <= j < self@.len() ==> self@[j] is None,
            },
    {
        let mut i: usize = self.slots.len();
        while i > 0
            invariant
                i <= self.slots@.len(),
                forall|j: int| i <= j < self.slots@.len() ==> self.slots@[j] is None,
            decreases i,
        {
            i = i - 1;
            if self.slots[i].is_some() {
                return Some(i);
            }
        }
        None
    }
}

} // verus!

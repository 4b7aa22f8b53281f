//! Simple directories: nodes whose children are given by a pair of
//! operations, listing and lookup.

use crate::vfs::error::VfsError;
use crate::vfs::name::{
    lemma_less_irreflexive, lemma_less_total, lemma_less_transitive, less, spec_less,
};
use vstd::prelude::*;
use vstd::utf8::encode_utf8;

verus! {

/// What a name in a simple directory stands for: a directory or a file,
/// each known by the handle of its operations.
#[derive(Clone, Copy, Debug, PartialEq, Eq, Structural)]
pub enum NodeOpsMux {
    Dir(u64),
    File(u64),
}

/// Operations for a simple directory.
pub trait SimpleDirOps: Sized {
    /// The names of the children, in the order in which they are listed.
    spec fn spec_names(&self) -> Seq<Seq<char>>;

    /// What a lookup of `name` gives.
    spec fn spec_lookup(&self, name: Seq<char>) -> Result<NodeOpsMux, VfsError>;

    /// Whether the directory may be cached.
    spec fn spec_cacheable(&self) -> bool;

    /// Get the names of all children in the directory.
    fn child_names(&self) -> (names: Vec<String>)
        ensures
            names@.len() == self.spec_names().len(),
            forall|i: int| 0 <= i < names@.len() ==> (#[trigger] names@[i])@ == self.spec_names()[i],
    ;

    /// Look up a child directory or file by name.
    fn lookup_child(&self, name: &str) -> (r: Result<NodeOpsMux, VfsError>)
        ensures
            r == self.spec_lookup(name@),
    ;

    /// Check if the directory is cacheable.
    fn is_cacheable(&self) -> (cacheable: bool)
        ensures
            cacheable == self.spec_cacheable(),
    ;
}

/// One name of a directory mapping and what it stands for.
pub struct Mapping {
    name: String,
    ops: NodeOpsMux,
}

/// A mapping of directory names to entries, kept in the order of the
/// names.
pub struct DirMapping {
    entries: Vec<Mapping>,
}

impl DirMapping {
    /// The names of the mapping, in their order.
    pub closed spec fn names(&self) -> Seq<Seq<char>> {
        Seq::new(self.entries@.len(), |i: int| self.entries@[i].name@)
    }

    /// What the names stand for, in the order of the names.
    pub closed spec fn targets(&self) -> Seq<NodeOpsMux> {
        Seq::new(self.entries@.len(), |i: int| self.entries@[i].ops)
    }

    /// The names stand in the strict order of strings, so that none occurs
    /// twice.
    pub open spec fn wf(&self) -> bool {
        &&& self.names().len() == self.targets().len()
        &&& forall|i: int, j: int|
            0 <= i < j < self.names().len() ==> spec_less(
                encode_utf8(#[trigger] self.names()[i]),
                encode_utf8(#[trigger] self.names()[j]),
            )
    }

    /// `name` stands at place `i` and at no place before it.
    pub open spec fn first_at(&self, name: Seq<char>, i: int) -> bool {
        &&& 0 <= i < self.names().len()
        &&& self.names()[i] == name
        &&& forall|j: int| 0 <= j < i ==> self.names()[j] != name
    }

    /// What `name` stands for in the mapping.
    pub open spec fn get(&self, name: Seq<char>) -> Option<NodeOpsMux> {
        if exists|i: int| self.first_at(name, i) {
            Some(self.targets()[choose|i: int| self.first_at(name, i)])
        } else {
            None
        }
    }

    /// A name that stands at a place and at none before it stands for what
    /// is kept there.
    pub proof fn lemma_first(&self, name: Seq<char>, i: int)
        requires
            self.first_at(name, i),
        ensures
            self.get(name) == Some(self.targets()[i]),
    {
        let k = choose|k: int| self.first_at(name, k);
        assert(self.first_at(name, k));
        assert(k == i);
    }

    /// A name that stands nowhere stands for nothing.
    pub proof fn lemma_absent(&self, name: Seq<char>)
        requires
            forall|j: int| 0 <= j < self.names().len() ==> self.names()[j] != name,
        ensures
            self.get(name) is None,
    {
        if exists|i: int| self.first_at(name, i) {
            let i = choose|i: int| self.first_at(name, i);
            assert(self.names()[i] == name);
        }
    }

    /// In a well-formed mapping a name found at a place stands for what is
    /// kept at that place.
    pub proof fn lemma_get(&self, i: int)
        requires
            self.wf(),
            0 <= i < self.names().len(),
        ensures
            self.get(self.names()[i]) == Some(self.targets()[i]),
    {
        let name = self.names()[i];
        assert forall|j: int| 0 <= j < i implies self.names()[j] != name by {
            lemma_less_irreflexive(encode_utf8(name));
            assert(spec_less(encode_utf8(self.names()[j]), encode_utf8(self.names()[i])));
        }
        self.lemma_first(name, i);
    }

    /// Create a new empty directory mapping.
    pub fn new() -> (mapping: DirMapping)
        ensures
            mapping.wf(),
            mapping.names().len() == 0,
    {
        DirMapping { entries: Vec::new() }
    }

    /// Number of names in the mapping.
    pub fn len(&self) -> (n: usize)
        ensures
            n == self.names().len(),
    {
        self.entries.len()
    }

    /// The place of `name` in the order: the number of names before it, and
    /// whether the name at that place is `name` itself.
    fn position(&self, name: &str) -> (at: (usize, bool))
        requires
            self.wf(),
        ensures
            at.0 <= self.names().len(),
            forall|j: int|
                0 <= j < at.0 ==> spec_less(
                    encode_utf8(#[trigger] self.names()[j]),
                    encode_utf8(name@),
                ),
            at.1 ==> at.0 < self.names().len() && self.names()[at.0 as int] == name@,
            !at.1 ==> forall|j: int|
                at.0 <= j < self.names().len() ==> spec_less(
                    encode_utf8(name@),
                    encode_utf8(#[trigger] self.names()[j]),
                ),
    {
        let mut i: usize = 0;
        while i < self.entries.len()
            invariant
                self.wf(),
                i <= self.entries@.len(),
                forall|j: int|
                    0 <= j < i ==> spec_less(
                        encode_utf8(#[trigger] self.names()[j]),
                        encode_utf8(name@),
                    ),
            decreases self.entries@.len() - i,
        {
            let here = self.entries[i].name.as_str();
            assert(here@ == self.names()[i as int]);
            if !less(here.as_bytes(), name.as_bytes()) {
                let same = !less(name.as_bytes(), here.as_bytes());
                proof {
                    lemma_less_total(encode_utf8(here@), encode_utf8(name@));
                    if same {
                        vstd::utf8::encode_utf8_decode_utf8(here@);
                        vstd::utf8::encode_utf8_decode_utf8(name@);
                    } else {
                        assert forall|j: int| i <= j < self.names().len() implies spec_less(
                            encode_utf8(name@),
                            encode_utf8(#[trigger] self.names()[j]),
                        ) by {
                            if j > i {
                                assert(spec_less(
                                    encode_utf8(self.names()[i as int]),
                                    encode_utf8(self.names()[j]),
                                ));
                                lemma_less_transitive(
                                    encode_utf8(name@),
                                    encode_utf8(here@),
                                    encode_utf8(self.names()[j]),
                                );
                            }
                        }
                    }
                }
                return (i, same);
            }
            i = i + 1;
        }
        (i, false)
    }

    /// Add a new entry to the directory mapping. A name that is in the
    /// mapping already stands for `ops` from now on.
    pub fn add(&mut self, name: String, ops: NodeOpsMux)
        requires
            old(self).wf(),
        ensures
            final(self).wf(),
            final(self).get(name@) == Some(ops),
            forall|other: Seq<char>| other != name@ ==> final(self).get(other) == old(self).get(other),
            final(self).names().len() == if old(self).get(name@) is Some {
                old(self).names().len()
            } else {
                old(self).names().len() + 1
            },
    {
        let (at, found) = self.position(name.as_str());
        let ghost before = *self;
        let ghost key = name@;
        if found {
            self.entries[at] = Mapping { name, ops };
            proof {
                assert(self.names() =~= before.names());
                assert(self.targets() =~= before.targets().update(at as int, ops));
            }
        } else {
            self.entries.insert(at, Mapping { name, ops });
            proof {
                assert(self.names() =~= before.names().insert(at as int, key));
                assert(self.targets() =~= before.targets().insert(at as int, ops));
                assert forall|i: int, j: int| 0 <= i < j < self.names().len() implies spec_less(
                    encode_utf8(#[trigger] self.names()[i]),
                    encode_utf8(#[trigger] self.names()[j]),
                ) by {
                    let bi = if i < at {
                        i
                    } else {
                        i - 1
                    };
                    let bj = if j < at {
                        j
                    } else {
                        j - 1
                    };
                    if i != at && j != at {
                        assert(spec_less(
                            encode_utf8(before.names()[bi]),
                            encode_utf8(before.names()[bj]),
                        ));
                    } else if i == at {
                        assert(spec_less(encode_utf8(key), encode_utf8(before.names()[bj])));
                    } else {
                        assert(spec_less(encode_utf8(before.names()[bi]), encode_utf8(key)));
                    }
                }
            }
        }
        proof {
            self.lemma_get(at as int);
            assert forall|other: Seq<char>| other != key implies self.get(other) == before.get(
                other,
            ) by {
                if exists|i: int| before.first_at(other, i) {
                    let i = choose|i: int| before.first_at(other, i);
                    before.lemma_first(other, i);
                    let k = if found || i < at {
                        i
                    } else {
                        i + 1
                    };
                    assert(self.names()[k] == other);
                    self.lemma_get(k);
                } else {
                    assert forall|j: int| 0 <= j < self.names().len() implies self.names()[j]
                        != other by {
                        if self.names()[j] == other {
                            let k = if found || j < at {
                                j
                            } else {
                                j - 1
                            };
                            assert(before.names()[k] == other);
                            before.lemma_get(k);
                        }
                    }
                    self.lemma_absent(other);
                }
            }
            if before.get(key) is Some {
                let i = choose|i: int| before.first_at(key, i);
                assert(before.names()[i] == key);
                if !found {
                    lemma_less_irreflexive(encode_utf8(key));
                    if i < at {
                        assert(spec_less(encode_utf8(before.names()[i]), encode_utf8(key)));
                    } else {
                        assert(spec_less(encode_utf8(key), encode_utf8(before.names()[i])));
                    }
                }
            } else if found {
                before.lemma_get(at as int);
            }
        }
    }
}

impl SimpleDirOps for DirMapping {
    open spec fn spec_names(&self) -> Seq<Seq<char>> {
        self.names()
    }

    /// A name that the mapping does not hold is not found. The answers are
    /// those of a well-formed mapping.
    open spec fn spec_lookup(&self, name: Seq<char>) -> Result<NodeOpsMux, VfsError> {
        match self.get(name) {
            Some(ops) => Ok(ops),
            None => Err(VfsError::NotFound),
        }
    }

    open spec fn spec_cacheable(&self) -> bool {
        true
    }

    fn child_names(&self) -> (names: Vec<String>) {
        let mut names: Vec<String> = Vec::new();
        let mut i: usize = 0;
        while i < self.entries.len()
            invariant
                i <= self.entries@.len(),
                names@.len() == i,
                forall|j: int| 0 <= j < i ==> (#[trigger] names@[j])@ == self.names()[j],
            decreases self.entries@.len() - i,
        {
            names.push(self.entries[i].name.clone());
            i = i + 1;
        }
        names
    }

    fn lookup_child(&self, name: &str) -> (r: Result<NodeOpsMux, VfsError>) {
        let owned: String = name.to_owned();
        let mut i: usize = 0;
        while i < self.entries.len()
            invariant
                i <= self.entries@.len(),
                owned@ == name@,
                forall|j: int| 0 <= j < i ==> #[trigger] self.names()[j] != name@,
            decreases self.entries@.len() - i,
        {
            if self.entries[i].name == owned {
                proof {
                    assert(self.names()[i as int] == name@);
                    self.lemma_first(name@, i as int);
                }
                return Ok(self.entries[i].ops);
            }
            i = i + 1;
        }
        proof {
            self.lemma_absent(name@);
        }
        Err(VfsError::NotFound)
    }

    fn is_cacheable(&self) -> (cacheable: bool) {
        true
    }
}

impl Default for DirMapping {
    fn default() -> (mapping: DirMapping)
        ensures
            mapping.wf(),
            mapping.names().len() == 0,
    {
        DirMapping::new()
    }
}

/// Two directories seen as one: the children of the first, then those of
/// the second.
pub struct ChainedDirOps<A, B>(pub A, pub B);

impl<A: SimpleDirOps, B: SimpleDirOps> SimpleDirOps for ChainedDirOps<A, B> {
    open spec fn spec_names(&self) -> Seq<Seq<char>> {
        self.0.spec_names() + self.1.spec_names()
    }

    /// The first directory is asked first; the second only where the first
    /// does not find the name. Any other failure of the first is final.
    open spec fn spec_lookup(&self, name: Seq<char>) -> Result<NodeOpsMux, VfsError> {
        match self.0.spec_lookup(name) {
            Ok(ops) => Ok(ops),
            Err(VfsError::NotFound) => self.1.spec_lookup(name),
            Err(e) => Err(e),
        }
    }

    open spec fn spec_cacheable(&self) -> bool {
        self.0.spec_cacheable() && self.1.spec_cacheable()
    }

    fn child_names(&self) -> (names: Vec<String>) {
        let mut names = self.0.child_names();
        let mut more = self.1.child_names();
        let ghost first = names@;
        let ghost second = more@;
        names.append(&mut more);
        assert(names@ =~= first + second);
        names
    }

    fn lookup_child(&self, name: &str) -> (r: Result<NodeOpsMux, VfsError>) {
        match self.0.lookup_child(name) {
            Ok(ops) => Ok(ops),
            Err(VfsError::NotFound) => self.1.lookup_child(name),
            Err(e) => Err(e),
        }
    }

    fn is_cacheable(&self) -> (cacheable: bool) {
        self.0.is_cacheable() && self.1.is_cacheable()
    }
}

/// Combines two directories into one.
pub fn chain<A: SimpleDirOps, B: SimpleDirOps>(first: A, second: B) -> (both: ChainedDirOps<A, B>)
    ensures
        both.0 == first,
        both.1 == second,
{
    ChainedDirOps(first, second)
}

/// The names that a listing of a simple directory goes through from
/// position `offset` on: the directory itself, its parent, then the
/// children.
pub open spec fn spec_listing(children: Seq<Seq<char>>, offset: int) -> Seq<Seq<char>> {
    let all = seq![seq!['.'], seq!['.', '.']] + children;
    if offset >= all.len() {
        Seq::empty()
    } else {
        all.skip(offset)
    }
}

/// Lists the names of a simple directory from position `offset` on. The
/// name at place `i` of the result has position `offset + i` in the
/// directory, and the entry that follows it has the next position.
pub fn read_dir<O: SimpleDirOps>(ops: &O, offset: u64) -> (names: Vec<String>)
    ensures
        names@.len() == spec_listing(ops.spec_names(), offset as int).len(),
        forall|i: int|
            0 <= i < names@.len() ==> (#[trigger] names@[i])@ == spec_listing(
                ops.spec_names(),
                offset as int,
            )[i],
{
    let children = ops.child_names();
    let mut names: Vec<String> = Vec::new();
    let ghost all = seq![seq!['.'], seq!['.', '.']] + ops.spec_names();
    proof {
        reveal_strlit(".");
        reveal_strlit("..");
    }
    if offset == 0 {
        let dot: String = ".".to_owned();
        assert(dot@ =~= seq!['.']);
        names.push(dot);
    }
    if offset <= 1 {
        let dotdot: String = "..".to_owned();
        assert(dotdot@ =~= seq!['.', '.']);
        names.push(dotdot);
    }
    let mut i: usize = if offset <= 2 {
        0
    } else if offset - 2 > children.len() as u64 {
        children.len()
    } else {
        (offset - 2) as usize
    };
    let ghost start = i;
    let ghost head = names@.len();
    while i < children.len()
        invariant
            start <= i <= children@.len(),
            children@.len() == ops.spec_names().len(),
            forall|j: int|
                0 <= j < children@.len() ==> (#[trigger] children@[j])@ == ops.spec_names()[j],
            all == seq![seq!['.'], seq!['.', '.']] + ops.spec_names(),
            names@.len() == head + (i - start),
            head == if offset == 0 {
                2int
            } else if offset == 1 {
                1int
            } else {
                0int
            },
            start == if offset <= 2 {
                0int
            } else if offset - 2 > children@.len() {
                children@.len() as int
            } else {
                offset - 2
            },
            forall|j: int|
                0 <= j < names@.len() ==> offset + j < all.len() && (#[trigger] names@[j])@
                    == all[offset + j],
        decreases children@.len() - i,
    {
        names.push(children[i].clone());
        i = i + 1;
    }
    names
}

} // verus!

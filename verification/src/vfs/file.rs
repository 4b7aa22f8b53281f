//! Simple files: nodes whose whole content is produced and replaced in one
//! piece by a pair of operations.

use crate::vfs::error::VfsError;
use vstd::prelude::*;

verus! {

/// Operations for a simple file.
pub trait SimpleFileOps {
    /// What must hold of the implementation for its operations to be called.
    spec fn ready(&self) -> bool;

    /// `r` is an answer that reading the content can give.
    spec fn reads(&self, r: Result<Seq<u8>, VfsError>) -> bool;

    /// `r` is an answer that replacing the content with `data` can give.
    spec fn writes(&self, data: Seq<u8>, r: Result<(), VfsError>) -> bool;

    /// Reads all content in the file.
    fn read_all(&self) -> (r: Result<Vec<u8>, VfsError>)
        requires
            self.ready(),
        ensures
            self.reads(spec_content(r)),
    ;

    /// Replaces the file's content with `data`.
    fn write_all(&self, data: &[u8]) -> (r: Result<(), VfsError>)
        requires
            self.ready(),
        ensures
            self.writes(data@, r),
    ;
}

/// The answer of a read with the content taken as a sequence of bytes.
pub open spec fn spec_content(r: Result<Vec<u8>, VfsError>) -> Result<Seq<u8>, VfsError> {
    match r {
        Ok(data) => Ok(data@),
        Err(e) => Err(e),
    }
}

/// Type representing operation applied to a simple file.
pub enum SimpleFileOperation<'a> {
    /// Reading the file's content
    Read,
    /// Replacing the file's content
    Write(&'a [u8]),
}

/// A wrapper that makes a simple file out of one function that serves both
/// operations.
pub struct RwFile<F>(F);

impl<F, R> RwFile<F> where
    F: Fn(SimpleFileOperation) -> Result<Option<R>, VfsError>,
    R: Into<Vec<u8>>,
 {
    /// The function that serves the file.
    pub closed spec fn spec_imp(&self) -> F {
        self.0
    }

    /// Creates a new `RwFile`.
    pub fn new(imp: F) -> (file: Self)
        ensures
            file.spec_imp() == imp,
    {
        RwFile(imp)
    }
}

impl<F, R> SimpleFileOps for RwFile<F> where
    F: Fn(SimpleFileOperation) -> Result<Option<R>, VfsError>,
    R: Into<Vec<u8>>,
 {
    /// The function takes every operation, and answers a read with content
    /// or with an error.
    open spec fn ready(&self) -> bool {
        &&& forall|op: SimpleFileOperation| call_requires(self.spec_imp(), (op,))
        &&& forall|r: Result<Option<R>, VfsError>|
            call_ensures(self.spec_imp(), (SimpleFileOperation::Read,), r) ==> r is Err
                || r->Ok_0 is Some
    }

    /// A read fails as the function fails when it is asked to read; what
    /// the content is where it succeeds is the function's own business.
    open spec fn reads(&self, r: Result<Seq<u8>, VfsError>) -> bool {
        exists|answer: Result<Option<R>, VfsError>|
            {
                &&& #[trigger] call_ensures(self.spec_imp(), (SimpleFileOperation::Read,), answer)
                &&& match r {
                    Ok(_) => answer is Ok,
                    Err(e) => answer == Err::<Option<R>, VfsError>(e),
                }
            }
    }

    /// A write succeeds or fails as the function does when it is handed
    /// `data` to write.
    open spec fn writes(&self, data: Seq<u8>, r: Result<(), VfsError>) -> bool {
        exists|handed: &[u8], answer: Result<Option<R>, VfsError>|
            {
                &&& handed@ == data
                &&& #[trigger] call_ensures(
                    self.spec_imp(),
                    (SimpleFileOperation::Write(handed),),
                    answer,
                )
                &&& match r {
                    Ok(_) => answer is Ok,
                    Err(e) => answer == Err::<Option<R>, VfsError>(e),
                }
            }
    }

    fn read_all(&self) -> (r: Result<Vec<u8>, VfsError>) {
        assert(call_requires(self.spec_imp(), (SimpleFileOperation::Read,)));
        match (self.0)(SimpleFileOperation::Read) {
            Ok(content) => Ok(content.unwrap().into()),
            Err(e) => Err(e),
        }
    }

    fn write_all(&self, data: &[u8]) -> (r: Result<(), VfsError>) {
        assert(call_requires(self.spec_imp(), (SimpleFileOperation::Write(data),)));
        match (self.0)(SimpleFileOperation::Write(data)) {
            Ok(_) => Ok(()),
            Err(e) => Err(e),
        }
    }
}

/// A wrapper that makes a simple file out of a function that produces its
/// content. Such a file cannot be written.
pub struct ReadFile<F>(F);

impl<F, R> ReadFile<F> where F: Fn() -> Result<R, VfsError>, R: Into<Vec<u8>> {
    /// The function that produces the content.
    pub closed spec fn spec_imp(&self) -> F {
        self.0
    }

    /// Creates a new `ReadFile`.
    pub fn new(imp: F) -> (file: Self)
        ensures
            file.spec_imp() == imp,
    {
        ReadFile(imp)
    }
}

impl<F, R> SimpleFileOps for ReadFile<F> where F: Fn() -> Result<R, VfsError>, R: Into<Vec<u8>> {
    open spec fn ready(&self) -> bool {
        call_requires(self.spec_imp(), ())
    }

    open spec fn reads(&self, r: Result<Seq<u8>, VfsError>) -> bool {
        exists|answer: Result<R, VfsError>|
            {
                &&& #[trigger] call_ensures(self.spec_imp(), (), answer)
                &&& match r {
                    Ok(_) => answer is Ok,
                    Err(e) => answer == Err::<R, VfsError>(e),
                }
            }
    }

    /// Every write is refused.
    open spec fn writes(&self, data: Seq<u8>, r: Result<(), VfsError>) -> bool {
        r == Err::<(), VfsError>(VfsError::BadFileDescriptor)
    }

    fn read_all(&self) -> (r: Result<Vec<u8>, VfsError>) {
        match (self.0)() {
            Ok(content) => Ok(content.into()),
            Err(e) => Err(e),
        }
    }

    fn write_all(&self, _data: &[u8]) -> (r: Result<(), VfsError>) {
        Err(VfsError::BadFileDescriptor)
    }
}

/// The part of `data` that a read of at most `room` bytes at `offset`
/// returns.
pub open spec fn spec_read_window(data: Seq<u8>, offset: int, room: int) -> Seq<u8> {
    if offset >= data.len() {
        Seq::empty()
    } else if data.len() - offset <= room {
        data.subrange(offset, data.len() as int)
    } else {
        data.subrange(offset, offset + room)
    }
}

/// The content of a file that held `data` after `buf` is written at
/// `offset`. A write from the start that covers the old content replaces
/// it; any other write keeps what it does not cover and fills a gap
/// between the old end and `offset` with zeros.
pub open spec fn spec_written(data: Seq<u8>, buf: Seq<u8>, offset: int) -> Seq<u8> {
    if offset == 0 && buf.len() >= data.len() {
        buf
    } else {
        Seq::new(
            if offset + buf.len() > data.len() {
                (offset + buf.len()) as nat
            } else {
                data.len()
            },
            |i: int|
                if offset <= i < offset + buf.len() {
                    buf[i - offset]
                } else if i < data.len() {
                    data[i]
                } else {
                    0u8
                },
        )
    }
}

/// The content of a file that held `data` after its length is set to
/// `len`: cut off, or filled up with zeros.
pub open spec fn spec_resized(data: Seq<u8>, len: int) -> Seq<u8> {
    Seq::new(
        len as nat,
        |i: int|
            if i < data.len() {
                data[i]
            } else {
                0u8
            },
    )
}

/// The bytes that a read of at most `room` bytes at `offset` takes out of
/// `data`.
pub fn read_window(data: &[u8], offset: u64, room: usize) -> (out: Vec<u8>)
    ensures
        out@ == spec_read_window(data@, offset as int, room as int),
{
    let mut out: Vec<u8> = Vec::new();
    if offset >= data.len() as u64 {
        return out;
    }
    let start: usize = offset as usize;
    let rest: usize = data.len() - start;
    let count: usize = if rest <= room {
        rest
    } else {
        room
    };
    let mut i: usize = 0;
    while i < count
        invariant
            i <= count,
            start + count <= data@.len(),
            data@.len() <= usize::MAX,
            out@ == data@.subrange(start as int, start + i),
        decreases count - i,
    {
        out.push(data[start + i]);
        i = i + 1;
        assert(out@ =~= data@.subrange(start as int, start + i));
    }
    out
}

/// The content of a file that held `data` after `buf` is written at
/// `offset`, or `None` where the end of the write lies beyond what the
/// machine can address.
pub fn written(data: &[u8], buf: &[u8], offset: u64) -> (out: Option<Vec<u8>>)
    ensures
        out is None <==> offset + buf@.len() > usize::MAX,
        out matches Some(content) ==> content@ == spec_written(data@, buf@, offset as int),
{
    if offset > usize::MAX as u64 || buf.len() > usize::MAX - offset as usize {
        return None;
    }
    let start: usize = offset as usize;
    let end: usize = start + buf.len();
    let total: usize = if end > data.len() {
        end
    } else {
        data.len()
    };
    let whole: bool = start == 0 && buf.len() >= data.len();
    let mut out: Vec<u8> = Vec::new();
    let mut i: usize = 0;
    while i < total
        invariant
            i <= total,
            end == start + buf@.len(),
            total == if end > data@.len() {
                end as int
            } else {
                data@.len() as int
            },
            out@.len() == i,
            forall|j: int|
                0 <= j < i ==> out@[j] == if start <= j < end {
                    buf@[j - start]
                } else if j < data@.len() {
                    data@[j]
                } else {
                    0u8
                },
        decreases total - i,
    {
        let byte: u8 = if start <= i && i < end {
            buf[i - start]
        } else if i < data.len() {
            data[i]
        } else {
            0
        };
        out.push(byte);
        i = i + 1;
    }
    assert(out@ =~= spec_written(data@, buf@, offset as int));
    Some(out)
}

/// The content of a file that held `data` after its length is set to `len`.
pub fn resized(data: &[u8], len: usize) -> (out: Vec<u8>)
    ensures
        out@ == spec_resized(data@, len as int),
{
    let mut out: Vec<u8> = Vec::new();
    let mut i: usize = 0;
    while i < len
        invariant
            i <= len,
            out@.len() == i,
            forall|j: int|
                0 <= j < i ==> out@[j] == if j < data@.len() {
                    data@[j]
                } else {
                    0u8
                },
        decreases len - i,
    {
        let byte: u8 = if i < data.len() {
            data[i]
        } else {
            0
        };
        out.push(byte);
        i = i + 1;
    }
    assert(out@ =~= spec_resized(data@, len as int));
    out
}

/// A file node on top of a pair of whole-content operations.
pub struct SimpleFile<O> {
    ops: O,
}

impl<O: SimpleFileOps> SimpleFile<O> {
    /// The operations that the file rests on.
    pub closed spec fn spec_ops(&self) -> O {
        self.ops
    }

    /// Creates a simple file from given file operations.
    pub fn new(ops: O) -> (file: Self)
        ensures
            file.spec_ops() == ops,
    {
        SimpleFile { ops }
    }

    /// The length of the content.
    pub fn len(&self) -> (r: Result<u64, VfsError>)
        requires
            self.spec_ops().ready(),
        ensures
            match r {
                Ok(len) => exists|data: Seq<u8>|
                    #[trigger] self.spec_ops().reads(Ok(data)) && len == data.len(),
                Err(e) => self.spec_ops().reads(Err(e)),
            },
    {
        match self.ops.read_all() {
            Ok(data) => Ok(data.len() as u64),
            Err(e) => Err(e),
        }
    }

    /// Reads at most `room` bytes at `offset`: the part of the content
    /// that the operations hand over which lies there.
    pub fn read_at(&self, room: usize, offset: u64) -> (r: Result<Vec<u8>, VfsError>)
        requires
            self.spec_ops().ready(),
        ensures
            match r {
                Ok(bytes) => exists|data: Seq<u8>|
                    #[trigger] self.spec_ops().reads(Ok(data)) && bytes@ == spec_read_window(
                        data,
                        offset as int,
                        room as int,
                    ),
                Err(e) => self.spec_ops().reads(Err(e)),
            },
    {
        match self.ops.read_all() {
            Ok(data) => Ok(read_window(data.as_slice(), offset, room)),
            Err(e) => Err(e),
        }
    }

    /// Writes `buf` at `offset` and returns the number of bytes written.
    /// The content is read, overlaid with `buf`, and handed back whole. A
    /// write whose end lies beyond what the machine can address is invalid.
    pub fn write_at(&self, buf: &[u8], offset: u64) -> (r: Result<usize, VfsError>)
        requires
            self.spec_ops().ready(),
        ensures
            match r {
                Ok(count) => count == buf@.len() && exists|data: Seq<u8>|
                    #[trigger] self.spec_ops().reads(Ok(data)) && self.spec_ops().writes(
                        spec_written(data, buf@, offset as int),
                        Ok(()),
                    ),
                Err(e) => self.spec_ops().reads(Err(e)) || exists|data: Seq<u8>|
                    #[trigger] self.spec_ops().reads(Ok(data)) && if offset + buf@.len()
                        > usize::MAX {
                        e == VfsError::InvalidInput
                    } else {
                        self.spec_ops().writes(spec_written(data, buf@, offset as int), Err(e))
                    },
            },
    {
        let data = match self.ops.read_all() {
            Ok(data) => data,
            Err(e) => {
                return Err(e);
            },
        };
        let content = match written(data.as_slice(), buf, offset) {
            Some(content) => content,
            None => {
                assert(self.spec_ops().reads(Ok(data@)));
                return Err(VfsError::InvalidInput);
            },
        };
        assert(self.spec_ops().reads(Ok(data@)));
        let done = self.ops.write_all(content.as_slice());
        match done {
            Ok(unit) => {
                assert(unit == ());
                assert(done == Ok::<(), VfsError>(()));
                assert(self.spec_ops().writes(
                    spec_written(data@, buf@, offset as int),
                    Ok::<(), VfsError>(()),
                ));
                Ok(buf.len())
            },
            Err(e) => Err(e),
        }
    }

    /// Appends `buf` and returns the number of bytes written and the new
    /// length.
    pub fn append(&self, buf: &[u8]) -> (r: Result<(usize, u64), VfsError>)
        requires
            self.spec_ops().ready(),
        ensures
            match r {
                Ok((count, len)) => count == buf@.len() && exists|data: Seq<u8>|
                    #[trigger] self.spec_ops().reads(Ok(data)) && len == data.len() + buf@.len()
                        && self.spec_ops().writes(data + buf@, Ok(())),
                Err(e) => self.spec_ops().reads(Err(e)) || exists|data: Seq<u8>|
                    #[trigger] self.spec_ops().reads(Ok(data)) && if data.len() + buf@.len()
                        > usize::MAX {
                        e == VfsError::InvalidInput
                    } else {
                        self.spec_ops().writes(data + buf@, Err(e))
                    },
            },
    {
        let mut data = match self.ops.read_all() {
            Ok(data) => data,
            Err(e) => {
                return Err(e);
            },
        };
        let ghost before = data@;
        assert(self.spec_ops().reads(Ok(before)));
        if buf.len() > usize::MAX - data.len() {
            return Err(VfsError::InvalidInput);
        }
        data.extend_from_slice(buf);
        let done = self.ops.write_all(data.as_slice());
        match done {
            Ok(unit) => {
                assert(unit == ());
                assert(done == Ok::<(), VfsError>(()));
                assert(data@ =~= before + buf@);
                assert(self.spec_ops().writes(before + buf@, Ok::<(), VfsError>(())));
                Ok((buf.len(), data.len() as u64))
            },
            Err(e) => {
                assert(data@ =~= before + buf@);
                Err(e)
            },
        }
    }

    /// Cuts the content off at `len`, or fills it up to `len` with zeros.
    /// Content that has the length already is not written again.
    pub fn set_len(&self, len: u64) -> (r: Result<(), VfsError>)
        requires
            self.spec_ops().ready(),
        ensures
            match r {
                Ok(_) => exists|data: Seq<u8>|
                    #[trigger] self.spec_ops().reads(Ok(data)) && (data.len() == len
                        || self.spec_ops().writes(spec_resized(data, len as int), Ok(()))),
                Err(e) => self.spec_ops().reads(Err(e)) || exists|data: Seq<u8>|
                    #[trigger] self.spec_ops().reads(Ok(data)) && data.len() != len && if len
                        > usize::MAX {
                        e == VfsError::InvalidInput
                    } else {
                        self.spec_ops().writes(spec_resized(data, len as int), Err(e))
                    },
            },
    {
        let data = match self.ops.read_all() {
            Ok(data) => data,
            Err(e) => {
                return Err(e);
            },
        };
        assert(self.spec_ops().reads(Ok(data@)));
        if len == data.len() as u64 {
            return Ok(());
        }
        if len > usize::MAX as u64 {
            return Err(VfsError::InvalidInput);
        }
        let content = resized(data.as_slice(), len as usize);
        let done = self.ops.write_all(content.as_slice());
        match done {
            Ok(unit) => {
                assert(unit == ());
                Ok(())
            },
            Err(e) => Err(e),
        }
    }

    /// Makes the content the target of a symbolic link.
    pub fn set_symlink(&self, target: &str) -> (r: Result<(), VfsError>)
        requires
            self.spec_ops().ready(),
        ensures
            self.spec_ops().writes(vstd::utf8::encode_utf8(target@), r),
    {
        self.ops.write_all(target.as_bytes())
    }
}

} // verus!

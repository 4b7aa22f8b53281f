//! Typed pointers into user memory. A pointer is only an address tagged with
//! an element type: it promises nothing until one of the validating
//! accessors has gone through.

use crate::errno::SysError;
use crate::mm::fault::AccessSpan;
use crate::mm::region::{
    read_region, spec_after_check, spec_after_write, spec_bytes_match, spec_check_region,
    spec_read_region, spec_region_valid, write_region,
};
use crate::mm::scan::{
    scan_until_sentinel, spec_after_failed_scan, spec_after_scan, spec_sentinel_at,
};
use crate::mm::space::{AccessFlags, SpaceView, UserMemory};
use crate::mm::text::{decode_text, spec_decode_text, spec_text_matches};
use core::marker::PhantomData;
use vstd::layout::{align_of, layout_for_type_is_valid, size_of};
use vstd::prelude::*;

verus! {

/// What a validated read of `count` elements of `size` bytes at `addr`
/// gives. No elements, no check: the read succeeds whatever the address. A
/// byte count beyond the machine word lies out of range.
pub open spec fn spec_read_elements(
    view: SpaceView,
    addr: int,
    count: int,
    size: int,
    align: int,
    flags: AccessFlags,
) -> Result<Seq<u8>, SysError> {
    if count == 0 {
        Ok(Seq::empty())
    } else if count * size > usize::MAX {
        Err(SysError::InvalidAddress)
    } else {
        spec_read_region(view, addr, count * size, align, flags)
    }
}

/// The space after a validated read of `count` elements of `size` bytes
/// at `addr`.
pub open spec fn spec_after_elements(
    view: SpaceView,
    addr: int,
    count: int,
    size: int,
    align: int,
    flags: AccessFlags,
) -> SpaceView {
    if count == 0 || count * size > usize::MAX {
        view
    } else {
        spec_after_check(view, addr, count * size, align, flags)
    }
}

/// An address that is no multiple of the alignment fails every validation
/// that looks at one element or more, whatever the mappings grant.
pub proof fn lemma_misaligned_fails(
    view: SpaceView,
    addr: int,
    count: int,
    size: int,
    align: int,
    flags: AccessFlags,
)
    requires
        addr % align != 0,
        count > 0,
    ensures
        spec_check_region(view, addr, size, align, flags) == Err::<(), SysError>(
            SysError::InvalidAddress,
        ),
        spec_read_region(view, addr, size, align, flags) == Err::<Seq<u8>, SysError>(
            SysError::InvalidAddress,
        ),
        spec_read_elements(view, addr, count, size, align, flags) == Err::<Seq<u8>, SysError>(
            SysError::InvalidAddress,
        ),
        spec_after_check(view, addr, size, align, flags) == view,
        spec_after_elements(view, addr, count, size, align, flags) == view,
{
}

fn read_elements<M: UserMemory>(
    mem: &mut M,
    addr: usize,
    count: usize,
    size: usize,
    align: usize,
    flags: AccessFlags,
) -> (r: Result<Vec<u8>, SysError>)
    requires
        old(mem).inv(),
        align > 0,
        flags.read,
    ensures
        final(mem).inv(),
        spec_bytes_match(
            r,
            spec_read_elements(
                old(mem).view(),
                addr as int,
                count as int,
                size as int,
                align as int,
                flags,
            ),
        ),
        final(mem).view() == spec_after_elements(
            old(mem).view(),
            addr as int,
            count as int,
            size as int,
            align as int,
            flags,
        ),
{
    if count == 0 {
        return Ok(Vec::new());
    }
    match count.checked_mul(size) {
        None => Err(SysError::InvalidAddress),
        Some(bytes) => read_region(mem, addr, bytes, align, flags),
    }
}

/// The result `r` of reading the run of `size`-byte elements at `addr` up
/// to its sentinel, and the space `after` it, agree with the space before.
///
/// A run that starts at a multiple of `align` and has a sentinel gives the
/// elements before the sentinel, and the pages up to the sentinel are
/// backed. Elements of no bytes give an empty run without a look at
/// memory. Any other run is an invalid address: a misaligned one changes
/// nothing, and one without a sentinel has backed the pages before the one
/// that refused the access.
pub open spec fn spec_run_matches(
    r: Result<Vec<u8>, SysError>,
    view: SpaceView,
    after: SpaceView,
    addr: int,
    size: int,
    align: int,
    flags: AccessFlags,
) -> bool {
    if addr % align != 0 {
        r == Err::<Vec<u8>, SysError>(SysError::InvalidAddress) && after == view
    } else if size == 0 {
        r matches Ok(data) && data@.len() == 0 && after == view
    } else {
        match r {
            Ok(data) => exists|n: int|
                {
                    &&& #[trigger] spec_sentinel_at(view, addr, size, flags, n)
                    &&& data@ == view.range(addr, n * size)
                    &&& after == spec_after_scan(view, addr, size, n)
                },
            Err(e) => {
                &&& e == SysError::InvalidAddress
                &&& forall|n: int| !spec_sentinel_at(view, addr, size, flags, n)
                &&& spec_after_failed_scan(view, addr, flags, after)
            },
        }
    }
}

fn read_run<M: UserMemory>(
    mem: &mut M,
    span: &mut AccessSpan,
    addr: usize,
    size: usize,
    align: usize,
    flags: AccessFlags,
) -> (r: Result<Vec<u8>, SysError>)
    requires
        old(mem).inv(),
        !old(span).is_active(),
        align > 0,
        flags.read,
    ensures
        final(mem).inv(),
        !final(span).is_active(),
        spec_run_matches(
            r,
            old(mem).view(),
            final(mem).view(),
            addr as int,
            size as int,
            align as int,
            flags,
        ),
{
    if addr % align != 0 {
        return Err(SysError::InvalidAddress);
    }
    if size == 0 {
        return Ok(Vec::new());
    }
    span.begin();
    let scanned = scan_until_sentinel(mem, &*span, addr, size, flags);
    span.end();
    match scanned {
        Ok((len, data)) => {
            assert(spec_sentinel_at(old(mem).view(), addr as int, size as int, flags, len as int));
            Ok(data)
        },
        Err(e) => Err(e),
    }
}

/// A pointer to user memory that may be written through.
#[derive(PartialEq)]
pub struct UserPtr<T> {
    addr: usize,
    marker: PhantomData<T>,
}

/// A pointer to user memory that is only read through.
#[derive(PartialEq)]
pub struct UserConstPtr<T> {
    addr: usize,
    marker: PhantomData<T>,
}

impl<T> Clone for UserPtr<T> {
    fn clone(&self) -> (ptr: Self)
        ensures
            ptr == *self,
    {
        UserPtr { addr: self.addr, marker: PhantomData }
    }
}

impl<T> Copy for UserPtr<T> {

}

impl<T> Clone for UserConstPtr<T> {
    fn clone(&self) -> (ptr: Self)
        ensures
            ptr == *self,
    {
        UserConstPtr { addr: self.addr, marker: PhantomData }
    }
}

impl<T> Copy for UserConstPtr<T> {

}

impl<T> From<usize> for UserPtr<T> {
    fn from(value: usize) -> (ptr: Self) {
        UserPtr { addr: value, marker: PhantomData }
    }
}

impl<T> vstd::std_specs::convert::FromSpecImpl<usize> for UserPtr<T> {
    open spec fn obeys_from_spec() -> bool {
        true
    }

    open spec fn from_spec(value: usize) -> Self {
        Self::spec_at(value)
    }
}

impl<T> From<usize> for UserConstPtr<T> {
    fn from(value: usize) -> (ptr: Self) {
        UserConstPtr { addr: value, marker: PhantomData }
    }
}

impl<T> vstd::std_specs::convert::FromSpecImpl<usize> for UserConstPtr<T> {
    open spec fn obeys_from_spec() -> bool {
        true
    }

    open spec fn from_spec(value: usize) -> Self {
        Self::spec_at(value)
    }
}

impl<T> Default for UserPtr<T> {
    /// The null pointer.
    fn default() -> (ptr: Self)
        ensures
            ptr.spec_address() == 0,
    {
        UserPtr { addr: 0, marker: PhantomData }
    }
}

impl<T> Default for UserConstPtr<T> {
    /// The null pointer.
    fn default() -> (ptr: Self)
        ensures
            ptr.spec_address() == 0,
    {
        UserConstPtr { addr: 0, marker: PhantomData }
    }
}

impl<T> UserPtr<T> {
    /// The address that the pointer holds.
    pub closed spec fn spec_address(&self) -> usize {
        self.addr
    }

    /// The pointer to `addr`.
    pub closed spec fn spec_at(addr: usize) -> Self {
        UserPtr { addr, marker: PhantomData }
    }

    /// The pointer to an address holds that address.
    pub proof fn lemma_at(addr: usize)
        ensures
            Self::spec_at(addr).spec_address() == addr,
    {
    }

    /// A pointer to `addr`.
    pub fn new(addr: usize) -> (ptr: UserPtr<T>)
        ensures
            ptr == Self::spec_at(addr),
            ptr.spec_address() == addr,
    {
        UserPtr { addr, marker: PhantomData }
    }

    /// The address that the pointer holds.
    #[verifier::when_used_as_spec(spec_address)]
    pub fn address(&self) -> (addr: usize)
        ensures
            addr == self.spec_address(),
    {
        self.addr
    }

    /// The same address, seen as a pointer to another element type.
    pub fn cast<U>(self) -> (ptr: UserPtr<U>)
        ensures
            ptr.spec_address() == self.spec_address(),
    {
        UserPtr { addr: self.addr, marker: PhantomData }
    }

    /// Whether the pointer holds address zero.
    pub fn is_null(&self) -> (null: bool)
        ensures
            null == (self.spec_address() == 0),
    {
        self.addr == 0
    }

    /// Validates one `T` at the pointer for reading and writing and returns
    /// its bytes.
    pub fn get_as_mut<M: UserMemory>(self, mem: &mut M) -> (r: Result<Vec<u8>, SysError>)
        requires
            old(mem).inv(),
        ensures
            final(mem).inv(),
            spec_bytes_match(
                r,
                spec_read_region(
                    old(mem).view(),
                    self.spec_address() as int,
                    size_of::<T>() as int,
                    align_of::<T>() as int,
                    AccessFlags::read_write(),
                ),
            ),
            final(mem).view() == spec_after_check(
                old(mem).view(),
                self.spec_address() as int,
                size_of::<T>() as int,
                align_of::<T>() as int,
                AccessFlags::read_write(),
            ),
    {
        layout_for_type_is_valid::<T>();
        read_region(
            mem,
            self.addr,
            core::mem::size_of::<T>(),
            core::mem::align_of::<T>(),
            AccessFlags::read_write(),
        )
    }

    /// Validates `len` elements at the pointer for reading and writing and
    /// returns their bytes. An empty slice needs no validation.
    pub fn get_as_mut_slice<M: UserMemory>(self, mem: &mut M, len: usize) -> (r: Result<
        Vec<u8>,
        SysError,
    >)
        requires
            old(mem).inv(),
        ensures
            final(mem).inv(),
            spec_bytes_match(
                r,
                spec_read_elements(
                    old(mem).view(),
                    self.spec_address() as int,
                    len as int,
                    size_of::<T>() as int,
                    align_of::<T>() as int,
                    AccessFlags::read_write(),
                ),
            ),
            final(mem).view() == spec_after_elements(
                old(mem).view(),
                self.spec_address() as int,
                len as int,
                size_of::<T>() as int,
                align_of::<T>() as int,
                AccessFlags::read_write(),
            ),
    {
        layout_for_type_is_valid::<T>();
        read_elements(
            mem,
            self.addr,
            len,
            core::mem::size_of::<T>(),
            core::mem::align_of::<T>(),
            AccessFlags::read_write(),
        )
    }

    /// Validates the elements at the pointer up to the first one made of
    /// zero bytes, for reading and writing, and returns the bytes of the
    /// elements before it.
    pub fn get_as_mut_null_terminated<M: UserMemory>(
        self,
        mem: &mut M,
        span: &mut AccessSpan,
    ) -> (r: Result<Vec<u8>, SysError>)
        requires
            old(mem).inv(),
            !old(span).is_active(),
        ensures
            final(mem).inv(),
            !final(span).is_active(),
            spec_run_matches(
                r,
                old(mem).view(),
                final(mem).view(),
                self.spec_address() as int,
                size_of::<T>() as int,
                align_of::<T>() as int,
                AccessFlags::read_write(),
            ),
    {
        layout_for_type_is_valid::<T>();
        read_run(
            mem,
            span,
            self.addr,
            core::mem::size_of::<T>(),
            core::mem::align_of::<T>(),
            AccessFlags::read_write(),
        )
    }

    /// Validates the region that `data` would fill from the pointer on for
    /// writing, and stores `data` there.
    pub fn write_bytes<M: UserMemory>(self, mem: &mut M, data: &[u8]) -> (r: Result<(), SysError>)
        requires
            old(mem).inv(),
        ensures
            final(mem).inv(),
            r is Ok <==> spec_region_valid(
                old(mem).view(),
                self.spec_address() as int,
                data@.len() as int,
                align_of::<T>() as int,
                AccessFlags::read_write(),
            ),
            r is Err ==> r == Err::<(), SysError>(SysError::InvalidAddress),
            final(mem).view() == spec_after_write(
                old(mem).view(),
                self.spec_address() as int,
                data@,
                align_of::<T>() as int,
            ),
    {
        layout_for_type_is_valid::<T>();
        write_region(mem, self.addr, data, core::mem::align_of::<T>())
    }
}

impl<T> UserConstPtr<T> {
    /// The address that the pointer holds.
    pub closed spec fn spec_address(&self) -> usize {
        self.addr
    }

    /// The pointer to `addr`.
    pub closed spec fn spec_at(addr: usize) -> Self {
        UserConstPtr { addr, marker: PhantomData }
    }

    /// The pointer to an address holds that address.
    pub proof fn lemma_at(addr: usize)
        ensures
            Self::spec_at(addr).spec_address() == addr,
    {
    }

    /// A pointer to `addr`.
    pub fn new(addr: usize) -> (ptr: UserConstPtr<T>)
        ensures
            ptr == Self::spec_at(addr),
            ptr.spec_address() == addr,
    {
        UserConstPtr { addr, marker: PhantomData }
    }

    /// The address that the pointer holds.
    #[verifier::when_used_as_spec(spec_address)]
    pub fn address(&self) -> (addr: usize)
        ensures
            addr == self.spec_address(),
    {
        self.addr
    }

    /// The same address, seen as a pointer to another element type.
    pub fn cast<U>(self) -> (ptr: UserConstPtr<U>)
        ensures
            ptr.spec_address() == self.spec_address(),
    {
        UserConstPtr { addr: self.addr, marker: PhantomData }
    }

    /// Whether the pointer holds address zero.
    pub fn is_null(&self) -> (null: bool)
        ensures
            null == (self.spec_address() == 0),
    {
        self.addr == 0
    }

    /// Validates one `T` at the pointer for reading and returns its bytes.
    pub fn get_as_ref<M: UserMemory>(self, mem: &mut M) -> (r: Result<Vec<u8>, SysError>)
        requires
            old(mem).inv(),
        ensures
            final(mem).inv(),
            spec_bytes_match(
                r,
                spec_read_region(
                    old(mem).view(),
                    self.spec_address() as int,
                    size_of::<T>() as int,
                    align_of::<T>() as int,
                    AccessFlags::read_only(),
                ),
            ),
            final(mem).view() == spec_after_check(
                old(mem).view(),
                self.spec_address() as int,
                size_of::<T>() as int,
                align_of::<T>() as int,
                AccessFlags::read_only(),
            ),
    {
        layout_for_type_is_valid::<T>();
        read_region(
            mem,
            self.addr,
            core::mem::size_of::<T>(),
            core::mem::align_of::<T>(),
            AccessFlags::read_only(),
        )
    }

    /// Validates `len` elements at the pointer for reading and returns their
    /// bytes. An empty slice needs no validation.
    pub fn get_as_slice<M: UserMemory>(self, mem: &mut M, len: usize) -> (r: Result<
        Vec<u8>,
        SysError,
    >)
        requires
            old(mem).inv(),
        ensures
            final(mem).inv(),
            spec_bytes_match(
                r,
                spec_read_elements(
                    old(mem).view(),
                    self.spec_address() as int,
                    len as int,
                    size_of::<T>() as int,
                    align_of::<T>() as int,
                    AccessFlags::read_only(),
                ),
            ),
            final(mem).view() == spec_after_elements(
                old(mem).view(),
                self.spec_address() as int,
                len as int,
                size_of::<T>() as int,
                align_of::<T>() as int,
                AccessFlags::read_only(),
            ),
    {
        layout_for_type_is_valid::<T>();
        read_elements(
            mem,
            self.addr,
            len,
            core::mem::size_of::<T>(),
            core::mem::align_of::<T>(),
            AccessFlags::read_only(),
        )
    }

    /// Validates the elements at the pointer up to the first one made of
    /// zero bytes, for reading, and returns the bytes of the elements before
    /// it.
    pub fn get_as_null_terminated<M: UserMemory>(self, mem: &mut M, span: &mut AccessSpan) -> (r:
        Result<Vec<u8>, SysError>)
        requires
            old(mem).inv(),
            !old(span).is_active(),
        ensures
            final(mem).inv(),
            !final(span).is_active(),
            spec_run_matches(
                r,
                old(mem).view(),
                final(mem).view(),
                self.spec_address() as int,
                size_of::<T>() as int,
                align_of::<T>() as int,
                AccessFlags::read_only(),
            ),
    {
        layout_for_type_is_valid::<T>();
        read_run(
            mem,
            span,
            self.addr,
            core::mem::size_of::<T>(),
            core::mem::align_of::<T>(),
            AccessFlags::read_only(),
        )
    }
}

/// What loading the zero-terminated text at `addr` gives: its bytes up to
/// the terminator where the run has one and the bytes are valid UTF-8.
pub open spec fn spec_load_string(view: SpaceView, addr: int) -> Result<Seq<u8>, SysError> {
    if exists|n: int| spec_sentinel_at(view, addr, 1, AccessFlags::read_only(), n) {
        let n = choose|n: int| spec_sentinel_at(view, addr, 1, AccessFlags::read_only(), n);
        spec_decode_text(view.range(addr, n))
    } else {
        Err(SysError::InvalidAddress)
    }
}

/// `after` is the space after the zero-terminated text at `addr` has been
/// loaded: the pages up to the terminator are backed, or, where there is
/// none, the pages before the one that refused the access.
pub open spec fn spec_after_load_string(view: SpaceView, addr: int, after: SpaceView) -> bool {
    if exists|n: int| spec_sentinel_at(view, addr, 1, AccessFlags::read_only(), n) {
        after == spec_after_scan(
            view,
            addr,
            1,
            choose|n: int| spec_sentinel_at(view, addr, 1, AccessFlags::read_only(), n),
        )
    } else {
        spec_after_failed_scan(view, addr, AccessFlags::read_only(), after)
    }
}

impl UserConstPtr<u8> {
    /// Validates the zero-terminated text at the pointer and returns it as a
    /// string, without the terminator.
    pub fn get_as_str<M: UserMemory>(self, mem: &mut M, span: &mut AccessSpan) -> (r: Result<
        String,
        SysError,
    >)
        requires
            old(mem).inv(),
            !old(span).is_active(),
        ensures
            final(mem).inv(),
            !final(span).is_active(),
            spec_text_matches(r, spec_load_string(old(mem).view(), self.spec_address() as int)),
            spec_after_load_string(
                old(mem).view(),
                self.spec_address() as int,
                final(mem).view(),
            ),
    {
        vm_load_string(mem, span, self.addr)
    }
}

/// Loads the zero-terminated text at `addr` as a string, without the
/// terminator.
pub fn vm_load_string<M: UserMemory>(mem: &mut M, span: &mut AccessSpan, addr: usize) -> (r: Result<
    String,
    SysError,
>)
    requires
        old(mem).inv(),
        !old(span).is_active(),
    ensures
        final(mem).inv(),
        !final(span).is_active(),
        spec_text_matches(r, spec_load_string(old(mem).view(), addr as int)),
        spec_after_load_string(old(mem).view(), addr as int, final(mem).view()),
{
    match read_run(mem, span, addr, 1, 1, AccessFlags::read_only()) {
        Ok(bytes) => {
            proof {
                let view = old(mem).view();
                let flags = AccessFlags::read_only();
                let n = choose|n: int|
                    {
                        &&& #[trigger] spec_sentinel_at(view, addr as int, 1, flags, n)
                        &&& bytes@ == view.range(addr as int, n * 1)
                        &&& mem.view() == spec_after_scan(view, addr as int, 1, n)
                    };
                let m = choose|m: int| spec_sentinel_at(view, addr as int, 1, flags, m);
                crate::mm::scan::lemma_sentinel_unique(view, addr as int, 1, flags, n, m);
            }
            decode_text(bytes)
        },
        Err(e) => Err(e),
    }
}

} // verus!

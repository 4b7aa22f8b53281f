//! Conversions between the values that user space passes for socket
//! options and the values that the network stack works with.

use crate::errno::SysError;
use crate::time::{TimeValue, TimeValueLike, Timeval};
use vstd::prelude::*;
use vstd::std_specs::convert::{TryFromSpec, TryIntoSpec};

verus! {

/// An option that is an integer on both sides, of different widths.
pub struct Int<T>(T);

impl<T: TryFrom<i32> + TryInto<i32>> Int<T> {
    /// The option value for `val`; fails where `val` does not fit.
    pub fn sys_to_rust(val: i32) -> (r: Result<T, SysError>)
        ensures
            <T as TryFromSpec<i32>>::obeys_try_from_spec() ==> match <T as TryFromSpec<
                i32,
            >>::try_from_spec(val) {
                Ok(v) => r == Ok::<T, SysError>(v),
                Err(_) => r == Err::<T, SysError>(SysError::InvalidArgument),
            },
    {
        match T::try_from(val) {
            Ok(v) => Ok(v),
            Err(_) => Err(SysError::InvalidArgument),
        }
    }

    /// The integer that user space sees for `val`; fails where `val` does
    /// not fit.
    pub fn rust_to_sys(val: T) -> (r: Result<i32, SysError>)
        ensures
            <T as TryIntoSpec<i32>>::obeys_try_into_spec() ==> match <T as TryIntoSpec<
                i32,
            >>::try_into_spec(val) {
                Ok(v) => r == Ok::<i32, SysError>(v),
                Err(_) => r == Err::<i32, SysError>(SysError::InvalidArgument),
            },
    {
        match val.try_into() {
            Ok(v) => Ok(v),
            Err(_) => Err(SysError::InvalidArgument),
        }
    }
}

/// An option that is a flag: user space passes an integer, zero for off.
pub struct IntBool;

impl IntBool {
    /// Any integer but zero switches the flag on.
    pub fn sys_to_rust(val: i32) -> (r: Result<bool, SysError>)
        ensures
            r == Ok::<bool, SysError>(val != 0),
    {
        Ok(val != 0)
    }

    /// One for a flag that is on, zero for one that is off.
    pub fn rust_to_sys(val: bool) -> (r: Result<i32, SysError>)
        ensures
            r == Ok::<i32, SysError>(if val { 1i32 } else { 0i32 }),
    {
        Ok(if val { 1 } else { 0 })
    }
}

/// An option that is a span of time, passed as seconds and microseconds.
pub struct Duration;

impl Duration {
    /// The span that `val` stands for; fails on a negative field or on a
    /// million microseconds or more.
    pub fn sys_to_rust(val: Timeval) -> (r: Result<TimeValue, SysError>)
        ensures
            r == val.spec_try_into_time_value(),
            r matches Ok(tv) ==> tv.wf(),
    {
        val.try_into_time_value()
    }

    /// Seconds and microseconds of `val`.
    pub fn rust_to_sys(val: TimeValue) -> (r: Result<Timeval, SysError>)
        requires
            val.wf(),
        ensures
            r == Ok::<Timeval, SysError>(Timeval::spec_from_time_value(val)),
    {
        Ok(Timeval::from_time_value(val))
    }
}

/// The credentials of a peer as user space lays them out.
#[derive(Clone, Copy, Debug, PartialEq, Eq, Structural)]
pub struct RawCredentials {
    pub pid: u32,
    pub uid: u32,
    pub gid: u32,
}

/// The credentials of a peer as the network stack keeps them.
#[derive(Clone, Copy, Debug, PartialEq, Eq, Structural)]
pub struct UnixCredentials {
    pub pid: u32,
    pub uid: u32,
    pub gid: u32,
}

/// An option that holds the credentials of a peer.
pub struct Ucred;

impl Ucred {
    /// The same three identities, field by field.
    pub fn sys_to_rust(val: RawCredentials) -> (r: Result<UnixCredentials, SysError>)
        ensures
            r == Ok::<UnixCredentials, SysError>(
                UnixCredentials { pid: val.pid, uid: val.uid, gid: val.gid },
            ),
    {
        Ok(UnixCredentials { pid: val.pid, uid: val.uid, gid: val.gid })
    }

    /// The same three identities, field by field.
    pub fn rust_to_sys(val: UnixCredentials) -> (r: Result<RawCredentials, SysError>)
        ensures
            r == Ok::<RawCredentials, SysError>(
                RawCredentials { pid: val.pid, uid: val.uid, gid: val.gid },
            ),
    {
        Ok(RawCredentials { pid: val.pid, uid: val.uid, gid: val.gid })
    }
}

} // verus!

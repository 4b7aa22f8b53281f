//! Time values as they cross the system-call boundary.

use crate::errno::SysError;
use vstd::prelude::*;

verus! {

/// A span of time: whole seconds and the nanoseconds of the second under
/// way.
#[derive(Clone, Copy, Debug, PartialEq, Eq, Structural)]
pub struct TimeValue {
    pub secs: u64,
    pub nanos: u32,
}

impl TimeValue {
    /// The nanoseconds stay below one second.
    pub open spec fn wf(self) -> bool {
        self.nanos < 1_000_000_000
    }
}

/// Seconds and nanoseconds as user space hands them over.
#[derive(Clone, Copy, Debug, PartialEq, Eq, Structural)]
pub struct Timespec {
    pub tv_sec: i64,
    pub tv_nsec: i64,
}

/// Seconds and microseconds as user space hands them over.
#[derive(Clone, Copy, Debug, PartialEq, Eq, Structural)]
pub struct Timeval {
    pub tv_sec: i64,
    pub tv_usec: i64,
}

/// Conversion between [`TimeValue`] and the forms that user space uses.
pub trait TimeValueLike: Sized {
    /// The user-space form of `tv`.
    spec fn spec_from_time_value(tv: TimeValue) -> Self;

    /// The time value that `self` stands for, or the error that rejects it.
    spec fn spec_try_into_time_value(self) -> Result<TimeValue, SysError>;

    /// Converts from a time value. Seconds beyond the signed range wrap.
    fn from_time_value(tv: TimeValue) -> (r: Self)
        requires
            tv.wf(),
        ensures
            r == Self::spec_from_time_value(tv),
    ;

    /// Converts into a time value; fails on a negative field or a
    /// sub-second part that reaches a full second.
    fn try_into_time_value(self) -> (r: Result<TimeValue, SysError>)
        ensures
            r == self.spec_try_into_time_value(),
            r matches Ok(tv) ==> tv.wf(),
    ;
}

impl TimeValueLike for TimeValue {
    open spec fn spec_from_time_value(tv: TimeValue) -> TimeValue {
        tv
    }

    open spec fn spec_try_into_time_value(self) -> Result<TimeValue, SysError> {
        if self.wf() {
            Ok(self)
        } else {
            Err(SysError::InvalidArgument)
        }
    }

    fn from_time_value(tv: TimeValue) -> (r: TimeValue) {
        tv
    }

    fn try_into_time_value(self) -> (r: Result<TimeValue, SysError>) {
        if self.nanos < 1_000_000_000 {
            Ok(self)
        } else {
            Err(SysError::InvalidArgument)
        }
    }
}

impl TimeValueLike for Timespec {
    open spec fn spec_from_time_value(tv: TimeValue) -> Timespec {
        Timespec { tv_sec: tv.secs as i64, tv_nsec: tv.nanos as i64 }
    }

    open spec fn spec_try_into_time_value(self) -> Result<TimeValue, SysError> {
        if self.tv_nsec < 0 || self.tv_nsec > 999_999_999 || self.tv_sec < 0 {
            Err(SysError::InvalidArgument)
        } else {
            Ok(TimeValue { secs: self.tv_sec as u64, nanos: self.tv_nsec as u32 })
        }
    }

    fn from_time_value(tv: TimeValue) -> (r: Timespec) {
        Timespec { tv_sec: #[verifier::truncate] (tv.secs as i64), tv_nsec: tv.nanos as i64 }
    }

    fn try_into_time_value(self) -> (r: Result<TimeValue, SysError>) {
        if self.tv_nsec < 0 || self.tv_nsec > 999_999_999 || self.tv_sec < 0 {
            return Err(SysError::InvalidArgument);
        }
        Ok(TimeValue { secs: self.tv_sec as u64, nanos: self.tv_nsec as u32 })
    }
}

impl TimeValueLike for Timeval {
    open spec fn spec_from_time_value(tv: TimeValue) -> Timeval {
        Timeval { tv_sec: tv.secs as i64, tv_usec: (tv.nanos / 1000) as i64 }
    }

    open spec fn spec_try_into_time_value(self) -> Result<TimeValue, SysError> {
        if self.tv_usec < 0 || self.tv_usec > 999_999 || self.tv_sec < 0 {
            Err(SysError::InvalidArgument)
        } else {
            Ok(TimeValue { secs: self.tv_sec as u64, nanos: (self.tv_usec * 1000) as u32 })
        }
    }

    fn from_time_value(tv: TimeValue) -> (r: Timeval) {
        Timeval {
            tv_sec: #[verifier::truncate] (tv.secs as i64),
            tv_usec: (tv.nanos / 1000) as i64,
        }
    }

    fn try_into_time_value(self) -> (r: Result<TimeValue, SysError>) {
        if self.tv_usec < 0 || self.tv_usec > 999_999 || self.tv_sec < 0 {
            return Err(SysError::InvalidArgument);
        }
        Ok(TimeValue { secs: self.tv_sec as u64, nanos: self.tv_usec as u32 * 1000 })
    }
}

/// Counts the interrupts taken. The count wraps at the machine word.
pub struct IrqCounter {
    count: usize,
}

impl IrqCounter {
    /// The interrupts counted so far.
    pub closed spec fn spec_count(&self) -> usize {
        self.count
    }

    /// A counter at zero.
    pub fn new() -> (counter: IrqCounter)
        ensures
            counter.spec_count() == 0,
    {
        IrqCounter { count: 0 }
    }

    /// Counts one more interrupt.
    pub fn inc_irq_cnt(&mut self)
        ensures
            final(self).spec_count() == if old(self).spec_count() == usize::MAX {
                0
            } else {
                old(self).spec_count() + 1
            },
    {
        self.count = self.count.wrapping_add(1);
    }

    /// The interrupts counted so far.
    pub fn irq_cnt(&self) -> (count: usize)
        ensures
            count == self.spec_count(),
    {
        self.count
    }
}

} // verus!

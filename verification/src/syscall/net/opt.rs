//! Socket options: which options the calls know, how user space passes
//! each of them, and the checks on the length of the value.

use crate::vfs::error::VfsError;
use vstd::prelude::*;

verus! {

pub const SOL_SOCKET: u32 = 1;

pub const PROTO_IP: u32 = 0;

pub const PROTO_TCP: u32 = 6;

pub const SO_REUSEADDR: u32 = 2;

pub const SO_ERROR: u32 = 4;

pub const SO_DONTROUTE: u32 = 5;

pub const SO_SNDBUF: u32 = 7;

pub const SO_RCVBUF: u32 = 8;

pub const SO_KEEPALIVE: u32 = 9;

pub const SO_PASSCRED: u32 = 16;

pub const SO_PEERCRED: u32 = 17;

pub const SO_RCVTIMEO: u32 = 20;

pub const SO_SNDTIMEO: u32 = 21;

pub const TCP_NODELAY: u32 = 1;

pub const TCP_MAXSEG: u32 = 2;

pub const TCP_INFO: u32 = 11;

pub const IP_TTL: u32 = 2;

/// The options that `getsockopt` and `setsockopt` know.
#[derive(Clone, Copy, Debug, PartialEq, Eq, Structural)]
pub enum SocketOption {
    ReuseAddress,
    Error,
    DontRoute,
    SendBuffer,
    ReceiveBuffer,
    KeepAlive,
    ReceiveTimeout,
    SendTimeout,
    PassCredentials,
    PeerCredentials,
    NoDelay,
    MaxSegment,
    TcpInfo,
    Ttl,
}

/// How user space passes the value of an option.
#[derive(Clone, Copy, Debug, PartialEq, Eq, Structural)]
pub enum OptionForm {
    /// As the option's own record, without conversion.
    Raw,
    /// As an integer that is zero for "off".
    IntBool,
    /// As an integer for a size.
    IntUsize,
    /// As an integer for a value of eight bits.
    IntU8,
    /// As seconds and microseconds.
    Duration,
    /// As the three identities of a peer.
    Ucred,
}

/// The option that a level and a name stand for, if they stand for one.
pub open spec fn spec_socket_option(level: u32, optname: u32) -> Option<SocketOption> {
    if level == SOL_SOCKET {
        if optname == SO_REUSEADDR {
            Some(SocketOption::ReuseAddress)
        } else if optname == SO_ERROR {
            Some(SocketOption::Error)
        } else if optname == SO_DONTROUTE {
            Some(SocketOption::DontRoute)
        } else if optname == SO_SNDBUF {
            Some(SocketOption::SendBuffer)
        } else if optname == SO_RCVBUF {
            Some(SocketOption::ReceiveBuffer)
        } else if optname == SO_KEEPALIVE {
            Some(SocketOption::KeepAlive)
        } else if optname == SO_RCVTIMEO {
            Some(SocketOption::ReceiveTimeout)
        } else if optname == SO_SNDTIMEO {
            Some(SocketOption::SendTimeout)
        } else if optname == SO_PASSCRED {
            Some(SocketOption::PassCredentials)
        } else if optname == SO_PEERCRED {
            Some(SocketOption::PeerCredentials)
        } else {
            None
        }
    } else if level == PROTO_TCP {
        if optname == TCP_NODELAY {
            Some(SocketOption::NoDelay)
        } else if optname == TCP_MAXSEG {
            Some(SocketOption::MaxSegment)
        } else if optname == TCP_INFO {
            Some(SocketOption::TcpInfo)
        } else {
            None
        }
    } else if level == PROTO_IP && optname == IP_TTL {
        Some(SocketOption::Ttl)
    } else {
        None
    }
}

impl SocketOption {
    /// How user space passes the value of the option.
    pub open spec fn spec_form(self) -> OptionForm {
        match self {
            SocketOption::ReuseAddress => OptionForm::IntBool,
            SocketOption::Error => OptionForm::Raw,
            SocketOption::DontRoute => OptionForm::IntBool,
            SocketOption::SendBuffer => OptionForm::IntUsize,
            SocketOption::ReceiveBuffer => OptionForm::IntUsize,
            SocketOption::KeepAlive => OptionForm::IntBool,
            SocketOption::ReceiveTimeout => OptionForm::Duration,
            SocketOption::SendTimeout => OptionForm::Duration,
            SocketOption::PassCredentials => OptionForm::IntBool,
            SocketOption::PeerCredentials => OptionForm::Ucred,
            SocketOption::NoDelay => OptionForm::IntBool,
            SocketOption::MaxSegment => OptionForm::IntUsize,
            SocketOption::TcpInfo => OptionForm::Raw,
            SocketOption::Ttl => OptionForm::IntU8,
        }
    }

    /// How user space passes the value of the option.
    pub fn form(self) -> (form: OptionForm)
        ensures
            form == self.spec_form(),
    {
        match self {
            SocketOption::ReuseAddress => OptionForm::IntBool,
            SocketOption::Error => OptionForm::Raw,
            SocketOption::DontRoute => OptionForm::IntBool,
            SocketOption::SendBuffer => OptionForm::IntUsize,
            SocketOption::ReceiveBuffer => OptionForm::IntUsize,
            SocketOption::KeepAlive => OptionForm::IntBool,
            SocketOption::ReceiveTimeout => OptionForm::Duration,
            SocketOption::SendTimeout => OptionForm::Duration,
            SocketOption::PassCredentials => OptionForm::IntBool,
            SocketOption::PeerCredentials => OptionForm::Ucred,
            SocketOption::NoDelay => OptionForm::IntBool,
            SocketOption::MaxSegment => OptionForm::IntUsize,
            SocketOption::TcpInfo => OptionForm::Raw,
            SocketOption::Ttl => OptionForm::IntU8,
        }
    }
}

/// Finds the option that a level and a name stand for; an unknown pair is
/// an option that the protocol does not have.
pub fn socket_option(level: u32, optname: u32) -> (r: Result<SocketOption, VfsError>)
    ensures
        r == match spec_socket_option(level, optname) {
            Some(option) => Ok::<SocketOption, VfsError>(option),
            None => Err::<SocketOption, VfsError>(VfsError::NoProtocolOption),
        },
{
    let found = if level == SOL_SOCKET {
        if optname == SO_REUSEADDR {
            Some(SocketOption::ReuseAddress)
        } else if optname == SO_ERROR {
            Some(SocketOption::Error)
        } else if optname == SO_DONTROUTE {
            Some(SocketOption::DontRoute)
        } else if optname == SO_SNDBUF {
            Some(SocketOption::SendBuffer)
        } else if optname == SO_RCVBUF {
            Some(SocketOption::ReceiveBuffer)
        } else if optname == SO_KEEPALIVE {
            Some(SocketOption::KeepAlive)
        } else if optname == SO_RCVTIMEO {
            Some(SocketOption::ReceiveTimeout)
        } else if optname == SO_SNDTIMEO {
            Some(SocketOption::SendTimeout)
        } else if optname == SO_PASSCRED {
            Some(SocketOption::PassCredentials)
        } else if optname == SO_PEERCRED {
            Some(SocketOption::PeerCredentials)
        } else {
            None
        }
    } else if level == PROTO_TCP {
        if optname == TCP_NODELAY {
            Some(SocketOption::NoDelay)
        } else if optname == TCP_MAXSEG {
            Some(SocketOption::MaxSegment)
        } else if optname == TCP_INFO {
            Some(SocketOption::TcpInfo)
        } else {
            None
        }
    } else if level == PROTO_IP && optname == IP_TTL {
        Some(SocketOption::Ttl)
    } else {
        None
    };
    match found {
        Some(option) => Ok(option),
        None => Err(VfsError::NoProtocolOption),
    }
}

/// The length that `getsockopt` reports for a value of `size` bytes, where
/// user space has made room for `len` bytes: the room must not be less
/// than the value.
pub fn sys_getsockopt(len: u32, size: usize) -> (r: Result<u32, VfsError>)
    ensures
        r == if len < size {
            Err::<u32, VfsError>(VfsError::InvalidInput)
        } else {
            Ok::<u32, VfsError>(size as u32)
        },
{
    if (len as usize) < size {
        return Err(VfsError::InvalidInput);
    }
    Ok(size as u32)
}

/// `setsockopt` takes a value of exactly the size of the option.
pub fn sys_setsockopt(len: u32, size: usize) -> (r: Result<(), VfsError>)
    ensures
        r is Ok <==> len == size,
        r is Err ==> r == Err::<(), VfsError>(VfsError::InvalidInput),
{
    if len as usize != size {
        return Err(VfsError::InvalidInput);
    }
    Ok(())
}

} // verus!

use vstd::prelude::*;

verus! {

/// Error codes returned by the networking layer (POSIX errno names).
#[allow(non_camel_case_types)]
#[derive(Debug, Clone, Copy, PartialEq, Eq, Structural)]
pub enum SysError {
    EAGAIN,
    EBADF,
    EEXIST,
    EINVAL,
    EINTR,
    ENOTCONN,
    EADDRINUSE,
    EADDRNOTAVAIL,
    EOPNOTSUPP,
    ECONNREFUSED,
    EINPROGRESS,
}

} // verus!

use vstd::prelude::*;

verus! {

/// Status codes of the native runtime that a host handler may report.
#[derive(Clone, Copy, Debug, PartialEq, Eq, Structural)]
pub enum StatusCode {
    UnknownError,
    NoMemory,
    InvalidOperation,
    BadValue,
    BadType,
    NameNotFound,
    PermissionDenied,
    NoInit,
    AlreadyExists,
    DeadObject,
    FailedTransaction,
    BadIndex,
    NotEnoughData,
    WouldBlock,
    TimedOut,
    UnknownTransaction,
    FdsNotAllowed,
    UnexpectedNull,
}

/// The native `status_t` value that stands for success.
pub const STATUS_OK: i32 = 0;

/// The native `status_t` value of each failure kind.
pub open spec fn code_of(s: StatusCode) -> i32 {
    match s {
        StatusCode::UnknownError => -2147483648i32,
        StatusCode::NoMemory => -12i32,
        StatusCode::InvalidOperation => -38i32,
        StatusCode::BadValue => -22i32,
        StatusCode::BadType => -2147483647i32,
        StatusCode::NameNotFound => -2i32,
        StatusCode::PermissionDenied => -1i32,
        StatusCode::NoInit => -19i32,
        StatusCode::AlreadyExists => -17i32,
        StatusCode::DeadObject => -32i32,
        StatusCode::FailedTransaction => -2147483646i32,
        StatusCode::BadIndex => -75i32,
        StatusCode::NotEnoughData => -61i32,
        StatusCode::WouldBlock => -11i32,
        StatusCode::TimedOut => -110i32,
        StatusCode::UnknownTransaction => -74i32,
        StatusCode::FdsNotAllowed => -2147483641i32,
        StatusCode::UnexpectedNull => -2147483640i32,
    }
}

impl StatusCode {
    /// The native `status_t` value of this failure kind.
    pub fn native_code(&self) -> (r: i32)
        ensures
            r == code_of(*self),
    {
        match self {
            StatusCode::UnknownError => -2147483648i32,
            StatusCode::NoMemory => -12i32,
            StatusCode::InvalidOperation => -38i32,
            StatusCode::BadValue => -22i32,
            StatusCode::BadType => -2147483647i32,
            StatusCode::NameNotFound => -2i32,
            StatusCode::PermissionDenied => -1i32,
            StatusCode::NoInit => -19i32,
            StatusCode::AlreadyExists => -17i32,
            StatusCode::DeadObject => -32i32,
            StatusCode::FailedTransaction => -2147483646i32,
            StatusCode::BadIndex => -75i32,
            StatusCode::NotEnoughData => -61i32,
            StatusCode::WouldBlock => -11i32,
            StatusCode::TimedOut => -110i32,
            StatusCode::UnknownTransaction => -74i32,
            StatusCode::FdsNotAllowed => -2147483641i32,
            StatusCode::UnexpectedNull => -2147483640i32,
        }
    }
}

/// The native status that a handler's result stands for.
pub open spec fn status_of(r: Result<(), StatusCode>) -> i32 {
    match r {
        Ok(()) => STATUS_OK,
        Err(e) => code_of(e),
    }
}

/// Maps a host handler's result to the native status returned to the caller.
pub fn transact_status(r: &Result<(), StatusCode>) -> (s: i32)
    ensures
        s == status_of(*r),
{
    match r {
        Ok(()) => STATUS_OK,
        Err(e) => e.native_code(),
    }
}

/// Every failure kind has a negative native code of its own: no two kinds
/// share a code, and none is mistaken for success.
pub proof fn lemma_status_one_to_one(a: Result<(), StatusCode>, b: Result<(), StatusCode>)
    ensures
        status_of(a) == status_of(b) <==> (a is Ok && b is Ok) || (a is Err && b is Err
            && a->Err_0 == b->Err_0),
        a is Err ==> status_of(a) < 0,
{
    match a {
        Ok(()) => match b {
            Ok(()) => {},
            Err(y) => {
                assert(code_of(y) != 0);
            },
        },
        Err(x) => match b {
            Ok(()) => {},
            Err(y) => {
                assert(code_of(x) == code_of(y) ==> x == y);
            },
        },
    }
}

} // verus!

//! The answers of the HTTP service.

use vstd::prelude::*;

verus! {

pub const RSP_CODE_SUCCESS: i32 = 0;
pub const RSP_CODE_FAILED: i32 = -1;

/// An answer: a code, a message, and the data of a success.
pub struct Rsp<TData> {
    pub code: i32,
    pub msg: &'static str,
    pub data: Option<TData>,
}

impl<TData> Rsp<TData> {
    /// A success that carries `data`.
    pub fn success(data: TData) -> (r: Self)
        ensures
            r.code == RSP_CODE_SUCCESS,
            r.msg@ == "success"@,
            r.data == Some(data),
    {
        Rsp { code: RSP_CODE_SUCCESS, msg: "success", data: Some(data) }
    }

    /// A failure, without data.
    pub fn failed() -> (r: Self)
        ensures
            r.code == RSP_CODE_FAILED,
            r.msg@ == "failed"@,
            r.data is None,
    {
        Rsp { code: RSP_CODE_FAILED, msg: "failed", data: None }
    }
}

} // verus!

//! The uniform envelope around every response body.
use vstd::prelude::*;

verus! {

/// `status` is "success" with `data` present, or "error" with `message`
/// present.
#[derive(Debug)]
pub struct ApiResponse<T> {
    pub status: String,
    pub data: Option<T>,
    pub message: Option<String>,
}

impl<T> ApiResponse<T> {
    pub fn success(data: T) -> (r: Self)
        ensures
            r.status@ == "success"@,
            r.data == Some(data),
            r.message is None,
    {
        ApiResponse { status: String::from_str("success"), data: Some(data), message: None }
    }

    pub fn error(message: String) -> (r: Self)
        ensures
            r.status@ == "error"@,
            r.data is None,
            r.message == Some(message),
    {
        ApiResponse { status: String::from_str("error"), data: None, message: Some(message) }
    }
}

} // verus!

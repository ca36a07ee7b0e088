//! The success envelope every handler answers with.
use vstd::prelude::*;

verus! {

pub struct ApiResponse<T> {
    pub success: bool,
    pub data: Option<T>,
    pub message: String,
}

impl<T> ApiResponse<T> {
    pub fn success(data: T, message: &str) -> (r: ApiResponse<T>)
        ensures
            r.success == true,
            r.data matches Some(d) && d == data,
            r.message@ == message@,
    {
        ApiResponse { success: true, data: Some(data), message: message.to_owned() }
    }
}

impl ApiResponse<()> {
    pub fn success_no_data(message: &str) -> (r: ApiResponse<()>)
        ensures
            r.success == true,
            r.data matches Some(d),
            r.message@ == message@,
    {
        ApiResponse { success: true, data: Some(()), message: message.to_owned() }
    }
}

} // verus!

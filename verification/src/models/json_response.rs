use vstd::prelude::*;

verus! {

/// The envelope of every successful answer: a status and the data.
#[derive(Debug)]
pub struct JsonResponse<T> {
    pub status: u16,
    pub data: T,
}

impl<T> JsonResponse<T> {
    /// Wraps `data` with the status 200.
    pub fn success(data: T) -> (response: JsonResponse<T>)
        ensures
            response.status == 200,
            response.data == data,
    {
        JsonResponse { status: 200, data }
    }

    /// Wraps `data` with a status of the caller's choice.
    pub fn with_status(status: u16, data: T) -> (response: JsonResponse<T>)
        ensures
            response.status == status,
            response.data == data,
    {
        JsonResponse { status, data }
    }
}

} // verus!

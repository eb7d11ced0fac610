use vstd::prelude::*;

verus! {

/// The envelope of every answer: a status code, and a message or data.
#[derive(Debug, Clone)]
pub struct Response<T> {
    pub status: u16,
    pub message: Option<String>,
    pub data: Option<T>,
}

/// A successful answer carrying `data`.
pub fn success<T>(status: u16, data: Option<T>) -> (r: Response<T>)
    ensures
        r.status == status,
        r.message is None,
        r.data == data,
{
    Response { status, message: None, data }
}

/// A failed answer carrying `message`.
pub fn error(status: u16, message: String) -> (r: Response<()>)
    ensures
        r.status == status,
        r.message == Some(message),
        r.data is None,
{
    Response { status, message: Some(message), data: None }
}

} // verus!

//! The envelope every HTTP answer travels in.

use vstd::prelude::*;

verus! {

/// Status of an answer that names none.
pub const STATUS_OK: u16 = 200;

/// Status of an answer that reports an upstream failure.
pub const STATUS_INTERNAL_SERVER_ERROR: u16 = 500;

/// Whether `code` is one of the 2xx statuses.
pub open spec fn spec_is_success(code: u16) -> bool {
    200 <= code < 300
}

/// Whether `code` is one of the 2xx statuses.
pub fn is_success(code: u16) -> (b: bool)
    ensures
        b == spec_is_success(code),
{
    300 > code && code >= 200
}

/// An answer on its way out: the payload or the message, and the status
/// it will be sent with. A message is present only where `success` is
/// false; the constructors see to it, and [`Response::respond_to`] sees to
/// it for whatever it is given.
#[derive(Clone, Debug)]
pub struct Response<T> {
    pub success: bool,
    /// Milliseconds since the epoch at which the answer was sent.
    pub timestamp: u64,
    pub data: Option<T>,
    /// Present only on failures.
    pub message: Option<String>,
    /// The HTTP status; absent means 200.
    pub code: Option<u16>,
}

impl<T> Response<T> {
    /// The answer that carries `data`.
    pub fn success(data: T) -> (r: Response<T>)
        ensures
            r.success,
            r.timestamp == 0,
            r.data == Some(data),
            r.message is None,
            r.code is None,
    {
        Response { success: true, data: Some(data), message: None, code: None, timestamp: 0 }
    }

    /// The answer that reports a failure with `message` under status `code`.
    pub fn error(message: String, code: u16) -> (r: Response<T>)
        ensures
            !r.success,
            r.timestamp == 0,
            r.data is None,
            r.message == Some(message),
            r.code == Some(code),
    {
        Response { success: false, data: None, message: Some(message), code: Some(code), timestamp: 0 }
    }

    /// The HTTP status the answer goes out with.
    pub open spec fn spec_status(&self) -> u16 {
        match self.code {
            Some(code) => code,
            None => STATUS_OK,
        }
    }

    /// The HTTP status the answer goes out with.
    pub fn status(&self) -> (code: u16)
        ensures
            code == self.spec_status(),
    {
        match self.code {
            Some(code) => code,
            None => STATUS_OK,
        }
    }

    /// Whether the answer goes out as a success: its status is one of 2xx
    /// and it carries no message. An answer with a message reports a
    /// failure, whatever its status.
    pub open spec fn goes_out_as_success(&self) -> bool {
        spec_is_success(self.spec_status()) && self.message is None
    }

    /// The answer as it is sent at `now_millis` milliseconds since the
    /// epoch: stamped with the time, and `success` set anew from the status
    /// and the message, so that a message goes out only with `success`
    /// false.
    pub fn respond_to(self, now_millis: u64) -> (r: Response<T>)
        ensures
            r.success == self.goes_out_as_success(),
            r.message is Some ==> !r.success,
            r.timestamp == now_millis,
            r.data == self.data,
            r.message == self.message,
            r.code == self.code,
    {
        let success = is_success(self.status()) && self.message.is_none();
        Response {
            success,
            timestamp: now_millis,
            data: self.data,
            message: self.message,
            code: self.code,
        }
    }
}

impl<T> Default for Response<T> {
    /// The empty answer: no payload, no message, no status, not stamped.
    fn default() -> (r: Response<T>)
        ensures
            !r.success,
            r.timestamp == 0,
            r.data is None,
            r.message is None,
            r.code is None,
    {
        Response { success: false, timestamp: 0, data: None, message: None, code: None }
    }
}

} // verus!

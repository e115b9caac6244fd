use vstd::prelude::*;

verus! {

/// An HTTP status code: a number from 100 to 999.
#[derive(Debug, Clone, Copy)]
pub struct StatusCode {
    code: u16,
}

/// The reason phrase that the `http` crate's table gives for a status code, if it
/// has one for it.
pub uninterp spec fn canonical_reason_of(code: int) -> Option<Seq<char>>;

/// The standard reason phrase of the status code numbered `code`, where there is
/// one: written out for the four codes with which errors are answered, and the
/// `http` crate's for every other.
pub open spec fn reason_phrase(code: int) -> Option<Seq<char>> {
    if code == 400 {
        Some("Bad Request"@)
    } else if code == 404 {
        Some("Not Found"@)
    } else if code == 408 {
        Some("Request Timeout"@)
    } else if code == 500 {
        Some("Internal Server Error"@)
    } else {
        canonical_reason_of(code)
    }
}

impl View for StatusCode {
    type V = int;

    closed spec fn view(&self) -> int {
        self.code as int
    }
}

impl StatusCode {
    #[verifier::type_invariant]
    spec fn in_range(self) -> bool {
        100 <= self.code < 1000
    }

    /// The status code with the number `src`, where `src` is from 100 to 999.
    pub fn from_u16(src: u16) -> (status: Option<StatusCode>)
        ensures
            100 <= src < 1000 ==> (status matches Some(s) && s@ == src),
            !(100 <= src < 1000) ==> status is None,
    {
        if src < 100 || src >= 1000 {
            None
        } else {
            Some(StatusCode { code: src })
        }
    }

    /// The number of the status code.
    pub fn as_u16(&self) -> (code: u16)
        ensures
            code == self@,
            100 <= code < 1000,
    {
        proof {
            use_type_invariant(self);
        }
        self.code
    }

    /// 400 Bad Request.
    pub fn bad_request() -> (status: StatusCode)
        ensures
            status@ == 400,
    {
        StatusCode { code: 400 }
    }

    /// 404 Not Found.
    pub fn not_found() -> (status: StatusCode)
        ensures
            status@ == 404,
    {
        StatusCode { code: 404 }
    }

    /// 408 Request Timeout.
    pub fn request_timeout() -> (status: StatusCode)
        ensures
            status@ == 408,
    {
        StatusCode { code: 408 }
    }

    /// 500 Internal Server Error.
    pub fn internal_server_error() -> (status: StatusCode)
        ensures
            status@ == 500,
    {
        StatusCode { code: 500 }
    }

    /// The standard reason phrase of the status code, where there is one.
    pub fn canonical_reason(&self) -> (reason: Option<&'static str>)
        ensures
            match reason {
                Some(phrase) => reason_phrase(self@) == Some(phrase@),
                None => reason_phrase(self@) is None,
            },
    {
        http_canonical_reason(self.as_u16())
    }
}

/// Calls `http::StatusCode::canonical_reason` on the status code numbered `code`.
///
/// Trusted: the phrase returned is the one that the `http` crate's table holds for
/// `code`, which is a function of `code` alone; for 400, 404, 408 and 500 the
/// table reads "Bad Request", "Not Found", "Request Timeout" and
/// "Internal Server Error". `http::StatusCode::from_u16` accepts every number
/// from 100 to 999, so the conversion does not fail.
#[verifier::external_body]
fn http_canonical_reason(code: u16) -> (reason: Option<&'static str>)
    requires
        100 <= code < 1000,
    ensures
        match reason {
            Some(phrase) => canonical_reason_of(code as int) == Some(phrase@),
            None => canonical_reason_of(code as int) is None,
        },
        code == 400 ==> reason == Some("Bad Request"),
        code == 404 ==> reason == Some("Not Found"),
        code == 408 ==> reason == Some("Request Timeout"),
        code == 500 ==> reason == Some("Internal Server Error"),
{
    match http::StatusCode::from_u16(code) {
        Ok(status) => status.canonical_reason(),
        Err(_) => None,
    }
}

} // verus!

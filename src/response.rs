//! Response classification for one arrival: what the boundary renders.
use vstd::prelude::*;

verus! {

/// The `status` field of a response body.
#[derive(Debug, Clone, Copy, PartialEq, Eq, Structural)]
pub enum ResponseStatus {
    Success,
    Timeout,
    Error,
}

/// The status class of a reply, one per outcome of an arrival.
#[derive(Debug, Clone, Copy, PartialEq, Eq, Structural)]
pub enum StatusClass {
    Success,
    RequestTimeout,
    Conflict,
    ServiceUnavailable,
}

impl StatusClass {
    pub open spec fn spec_code(self) -> u16 {
        match self {
            StatusClass::Success => 200,
            StatusClass::RequestTimeout => 408,
            StatusClass::Conflict => 409,
            StatusClass::ServiceUnavailable => 503,
        }
    }

    /// The numeric HTTP status code of this class.
    #[verifier::when_used_as_spec(spec_code)]
    pub fn code(self) -> (r: u16)
        ensures
            r == self.spec_code(),
    {
        match self {
            StatusClass::Success => 200,
            StatusClass::RequestTimeout => 408,
            StatusClass::Conflict => 409,
            StatusClass::ServiceUnavailable => 503,
        }
    }
}

/// The body of a reply.
#[derive(Debug)]
pub struct ApiResponse {
    pub status: ResponseStatus,
    pub message: String,
    /// Present on timeout replies only.
    pub timeout_duration_sec: Option<u64>,
}

/// `"[<unique_id>] <text>"`: a message tagged with the key it answers.
pub open spec fn tagged(unique_id: Seq<char>, text: Seq<char>) -> Seq<char> {
    "["@ + unique_id + "] "@ + text
}

pub open spec fn timed_out_text() -> Seq<char> {
    "Request timed out"@
}

pub open spec fn unavailable_text() -> Seq<char> {
    "Service temporarily unavailable"@
}

pub open spec fn first_party_text() -> Seq<char> {
    "Welcome! (first party)"@
}

pub open spec fn second_party_text() -> Seq<char> {
    "Welcome! (second party)"@
}

pub open spec fn conflict_text() -> Seq<char> {
    "Only 2 parties allowed at a time"@
}

impl ApiResponse {
    /// This body has the given status, message and timeout field.
    pub open spec fn reads(
        self,
        status: ResponseStatus,
        message: Seq<char>,
        timeout_duration_sec: Option<u64>,
    ) -> bool {
        &&& self.status == status
        &&& self.message@ == message
        &&& self.timeout_duration_sec == timeout_duration_sec
    }

    /// A success body whose message is `message` tagged with `unique_id`.
    pub fn success(message: &str, unique_id: &str) -> (r: Self)
        ensures
            r.reads(ResponseStatus::Success, tagged(unique_id@, message@), None),
    {
        let mut text = String::from_str("[");
        text.append(unique_id);
        text.append("] ");
        text.append(message);
        ApiResponse { status: ResponseStatus::Success, message: text, timeout_duration_sec: None }
    }

    /// A timeout body for `unique_id`, carrying the configured wait in seconds.
    pub fn timeout(duration_secs: u64, unique_id: &str) -> (r: Self)
        ensures
            r.reads(
                ResponseStatus::Timeout,
                tagged(unique_id@, timed_out_text()),
                Some(duration_secs),
            ),
    {
        let mut text = String::from_str("[");
        text.append(unique_id);
        text.append("] ");
        text.append("Request timed out");
        ApiResponse {
            status: ResponseStatus::Timeout,
            message: text,
            timeout_duration_sec: Some(duration_secs),
        }
    }

    /// An error body carrying `message` as it is.
    pub fn error(message: &str) -> (r: Self)
        ensures
            r.reads(ResponseStatus::Error, message@, None),
    {
        ApiResponse {
            status: ResponseStatus::Error,
            message: String::from_str(message),
            timeout_duration_sec: None,
        }
    }

    /// The reply given when the registry could not be locked without waiting.
    pub fn service_unavailable() -> (r: Reply)
        ensures
            r.is_unavailable(),
    {
        Reply {
            status: StatusClass::ServiceUnavailable,
            body: Self::error("Service temporarily unavailable"),
        }
    }
}

/// A status class together with the body rendered under it.
#[derive(Debug)]
pub struct Reply {
    pub status: StatusClass,
    pub body: ApiResponse,
}

impl Reply {
    /// Registry contention.
    pub open spec fn is_unavailable(self) -> bool {
        &&& self.status == StatusClass::ServiceUnavailable
        &&& self.body.reads(ResponseStatus::Error, unavailable_text(), None)
    }

    /// A pairing acknowledged to a party of `unique_id`, with `text` naming its role.
    pub open spec fn is_success(self, unique_id: Seq<char>, text: Seq<char>) -> bool {
        &&& self.status == StatusClass::Success
        &&& self.body.reads(ResponseStatus::Success, tagged(unique_id, text), None)
    }

    /// A first party of `unique_id` left alone for `timeout_secs` seconds.
    pub open spec fn is_timeout(self, unique_id: Seq<char>, timeout_secs: u64) -> bool {
        &&& self.status == StatusClass::RequestTimeout
        &&& self.body.reads(
            ResponseStatus::Timeout,
            tagged(unique_id, timed_out_text()),
            Some(timeout_secs),
        )
    }

    /// An arrival beyond the second while a pairing is open.
    pub open spec fn is_conflict(self) -> bool {
        &&& self.status == StatusClass::Conflict
        &&& self.body.reads(ResponseStatus::Error, conflict_text(), None)
    }
}

} // verus!

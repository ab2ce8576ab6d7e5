use vstd::prelude::*;

use crate::errors::StoreError;

verus! {

/// The code every failure is reported under.
pub open spec fn generic_code() -> Seq<char> {
    "601"@
}

/// The uniform reply: a payload on success, an error on failure.
pub struct ApiResponse<P> {
    pub error: Option<ApiErrorPayload>,
    pub payload: Option<P>,
}

/// What went wrong, for the caller.
pub struct ApiErrorPayload {
    pub code: String,
    pub msg: String,
    pub note: Option<String>,
}

/// An error code with its message.
pub struct ApiErrorCode {
    pub code: String,
    pub msg: String,
}

impl<P> ApiResponse<P> {
    /// A failure reply under the generic code whose note is `note`.
    pub open spec fn fails_with(&self, note: Seq<char>) -> bool {
        &&& self.payload is None
        &&& self.error matches Some(e) && e.code@ == generic_code() && e.msg@ == "-"@ && (e.note matches Some(
            n,
        ) && n@ == note)
    }

    /// A reply carrying `payload`.
    pub fn new_success(payload: P) -> (r: ApiResponse<P>)
        ensures
            r.error is None,
            r.payload == Some(payload),
    {
        ApiResponse { error: None, payload: Some(payload) }
    }

    /// A failure reply under the generic code, with `note` as its explanation.
    pub fn new_error(note: String) -> (r: ApiResponse<P>)
        ensures
            r.payload is None,
            r.error matches Some(e) && e.code@ == generic_code() && e.msg@ == "-"@ && e.note == Some(note),
            r.fails_with(note@),
    {
        ApiResponse {
            error: Some(ApiErrorPayload { code: "601".to_owned(), msg: "-".to_owned(), note: Some(note) }),
            payload: None,
        }
    }

    /// A failure reply whose note is `context` followed by a description of `e`.
    pub fn from_failure(context: &str, e: StoreError) -> (r: ApiResponse<P>)
        ensures
            r.fails_with(context@ + e.describe_spec()),
    {
        let note = context.to_owned().concat(e.describe());
        ApiResponse::new_error(note)
    }
}

} // verus!

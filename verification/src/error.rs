use vstd::prelude::*;

verus! {

/// Every way a request can be refused, with the HTTP status and body text it answers with.
#[derive(Clone, Copy, Debug, PartialEq, Eq, Structural)]
pub enum ApiError {
    /// No `X-User-Id` header was sent.
    MissingUserId,
    /// The `X-User-Id` header holds bytes that are not visible ASCII.
    InvalidUserIdHeader,
    /// The `X-User-Id` header is not a UUID.
    InvalidUserId,
    /// A content id is not a UUID.
    InvalidContentId,
    /// A batch names more than [`crate::likes::MAX_BATCH_ITEMS`] items.
    BatchTooLarge,
    /// The pagination cursor does not decode to a timestamp.
    InvalidCursor,
    /// The leaderboard window is not one of `24h`, `7d`, `30d`, `all`.
    InvalidWindow,
    /// The database reported a failure.
    Database,
}

/// The HTTP status code of each error.
pub open spec fn status_of(e: ApiError) -> u16 {
    match e {
        ApiError::MissingUserId => 401,
        ApiError::Database => 500,
        _ => 400,
    }
}

/// The response body of each error.
pub open spec fn message_of(e: ApiError) -> Seq<char> {
    match e {
        ApiError::MissingUserId => "Missing X-User-Id header"@,
        ApiError::InvalidUserIdHeader => "Invalid X-User-Id header"@,
        ApiError::InvalidUserId => "Invalid user_id"@,
        ApiError::InvalidContentId => "INVALID_CONTENT_ID"@,
        ApiError::BatchTooLarge => "BATCH_TOO_LARGE"@,
        ApiError::InvalidCursor => "INVALID_CURSOR"@,
        ApiError::InvalidWindow => "INVALID_WINDOW"@,
        ApiError::Database => "DB error"@,
    }
}

impl ApiError {
    /// The HTTP status code this error is answered with.
    pub fn status(&self) -> (r: u16)
        ensures
            r == status_of(*self),
    {
        match self {
            ApiError::MissingUserId => 401,
            ApiError::Database => 500,
            _ => 400,
        }
    }

    /// The text of the response body.
    pub fn message(&self) -> (r: String)
        ensures
            r@ == message_of(*self),
    {
        match self {
            ApiError::MissingUserId => String::from_str("Missing X-User-Id header"),
            ApiError::InvalidUserIdHeader => String::from_str("Invalid X-User-Id header"),
            ApiError::InvalidUserId => String::from_str("Invalid user_id"),
            ApiError::InvalidContentId => String::from_str("INVALID_CONTENT_ID"),
            ApiError::BatchTooLarge => String::from_str("BATCH_TOO_LARGE"),
            ApiError::InvalidCursor => String::from_str("INVALID_CURSOR"),
            ApiError::InvalidWindow => String::from_str("INVALID_WINDOW"),
            ApiError::Database => String::from_str("DB error"),
        }
    }
}

} // verus!

use vstd::prelude::*;

verus! {

/// Relies on uuid::Uuid::new_v4: a random identifier, taken as its 128-bit value.
#[verifier::external_body]
pub(crate) fn new_uuid() -> (r: u128) {
    uuid::Uuid::new_v4().as_u128()
}

/// Uniform envelope around every HTTP response body.
#[derive(Debug)]
pub struct ApiResponse<T> {
    pub success: bool,
    pub data: Option<T>,
    pub message: Option<String>,
}

impl<T> ApiResponse<T> {
    /// A successful response carrying `data`.
    pub fn ok(data: T) -> (r: ApiResponse<T>)
        ensures
            r.success,
            r.data == Some(data),
            r.message.is_none(),
    {
        ApiResponse { success: true, data: Some(data), message: None }
    }

    /// A failed response carrying no data and the message `message`.
    pub fn failure(message: String) -> (r: ApiResponse<T>)
        ensures
            !r.success,
            r.data.is_none(),
            r.message == Some(message),
    {
        ApiResponse { success: false, data: None, message: Some(message) }
    }
}

/// A stored document. Identifiers are 128-bit UUID values, the content is
/// JSON text, and the timestamps are microseconds since the Unix epoch, UTC.
#[derive(Clone, Debug, PartialEq, Eq)]
pub struct Document {
    pub id: u128,
    pub title: String,
    pub content: String,
    pub created_at: i64,
    pub updated_at: i64,
}

/// Body of a document creation: the content may be left out.
#[derive(Clone, Debug, PartialEq, Eq)]
pub struct CreateDocumentRequest {
    pub title: String,
    pub content: Option<String>,
}

/// Body of a document update: both fields are replaced.
#[derive(Clone, Debug, PartialEq, Eq)]
pub struct UpdateDocumentRequest {
    pub title: String,
    pub content: String,
}

/// One page of documents together with the number of documents stored.
#[derive(Clone, Debug, PartialEq, Eq)]
pub struct DocumentListResponse {
    pub documents: Vec<Document>,
    pub total: i64,
}

/// A message that a client sends over its connection. Payloads the hub
/// relays without reading (`operation`, `position`) are JSON text.
#[derive(Clone, Debug, PartialEq, Eq)]
pub enum WsMessage {
    Join { document_id: u128, user_id: String },
    Leave { document_id: u128, user_id: String },
    Operation { document_id: u128, operation: String },
    CursorMove { document_id: u128, user_id: String, position: String },
}

/// A message that the hub fans out to the other subscribers of a document.
#[derive(Clone, Debug, PartialEq, Eq)]
pub enum Outbound {
    UserJoined { user_id: String },
    UserLeft { user_id: String },
    Operation { operation: String },
    CursorMove { user_id: String, position: String },
}

} // verus!

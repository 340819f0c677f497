use crate::models::{
    new_uuid,
    ApiResponse, CreateDocumentRequest, Document, DocumentListResponse,
};
use vstd::prelude::*;

verus! {

/// The most documents that one listing returns.
pub const LIST_LIMIT: i64 = 50;

/// Why a document request failed.
#[derive(Clone, Copy, Debug, PartialEq, Eq, Structural)]
pub enum StoreError {
    /// The store could not be reached or the query failed.
    Persistence,
    /// No document has the requested id.
    NotFound,
}

impl StoreError {
    /// The HTTP status that reports this error.
    pub fn status(&self) -> (r: u16)
        ensures
            r == (match *self {
                StoreError::Persistence => 500u16,
                StoreError::NotFound => 404u16,
            }),
    {
        match self {
            StoreError::Persistence => 500,
            StoreError::NotFound => 404,
        }
    }

    /// The message shown to the caller: no internal detail.
    pub fn message(&self) -> (r: String)
        ensures
            r@ == (match *self {
                StoreError::Persistence => "Database error"@,
                StoreError::NotFound => "Document not found"@,
            }),
    {
        match self {
            StoreError::Persistence => {
                proof {
                    reveal_strlit("Database error");
                }
                "Database error".to_owned()
            },
            StoreError::NotFound => {
                proof {
                    reveal_strlit("Document not found");
                }
                "Document not found".to_owned()
            },
        }
    }

    /// The failed envelope that reports this error.
    pub fn to_response<T>(&self) -> (r: ApiResponse<T>)
        ensures
            !r.success,
            r.data.is_none(),
            r.message.is_some(),
            r.message.unwrap()@ == (match *self {
                StoreError::Persistence => "Database error"@,
                StoreError::NotFound => "Document not found"@,
            }),
    {
        ApiResponse::failure(self.message())
    }
}

/// JSON text of the empty object, the content of a document created without one.
pub open spec fn empty_content() -> Seq<char> {
    "{}"@
}

/// The content a new document gets: the given one, or the empty object.
pub fn content_or_default(content: Option<String>) -> (r: String)
    ensures
        r@ == (match content {
            Some(c) => c@,
            None => empty_content(),
        }),
{
    match content {
        Some(c) => c,
        None => {
            proof {
                reveal_strlit("{}");
            }
            "{}".to_owned()
        },
    }
}

/// The row that creating a document with identity `id` at time `now` stores.
pub fn new_document_at(req: CreateDocumentRequest, id: u128, now: i64) -> (d: Document)
    ensures
        d.id == id,
        d.title == req.title,
        d.content@ == (match req.content {
            Some(c) => c@,
            None => empty_content(),
        }),
        d.created_at == now,
        d.updated_at == now,
{
    Document {
        id,
        title: req.title,
        content: content_or_default(req.content),
        created_at: now,
        updated_at: now,
    }
}

/// Relies on chrono::Utc::now and DateTime::timestamp_micros: the current
/// time in microseconds since the Unix epoch.
#[verifier::external_body]
fn now_micros() -> (r: i64) {
    chrono::Utc::now().timestamp_micros()
}

/// The row that creating a document stores, with a fresh random identity
/// and the current time as both timestamps.
pub fn new_document(req: CreateDocumentRequest) -> (d: Document)
    ensures
        d.title == req.title,
        d.content@ == (match req.content {
            Some(c) => c@,
            None => empty_content(),
        }),
        d.created_at == d.updated_at,
{
    let id = new_uuid();
    let now = now_micros();
    new_document_at(req, id, now)
}

/// The current time for an update, in microseconds since the Unix epoch.
pub fn update_time() -> (r: i64) {
    now_micros()
}

/// The outcome of a lookup by id: the document, or `NotFound`.
pub fn found(row: Option<Document>) -> (r: Result<Document, StoreError>)
    ensures
        match row {
            Some(d) => r == Ok::<Document, StoreError>(d),
            None => r == Err::<Document, StoreError>(StoreError::NotFound),
        },
{
    match row {
        Some(d) => Ok(d),
        None => Err(StoreError::NotFound),
    }
}

/// The envelope of a listing: the page of documents and the full count.
pub fn list_response(documents: Vec<Document>, total: i64) -> (r: ApiResponse<
    DocumentListResponse,
>)
    ensures
        r.success,
        r.message.is_none(),
        r.data == Some(DocumentListResponse { documents, total }),
{
    ApiResponse::ok(DocumentListResponse { documents, total })
}

/// The envelope that the health check answers with.
pub fn health_status() -> (r: ApiResponse<String>)
    ensures
        r.success,
        r.message.is_none(),
        r.data.is_some(),
        r.data.unwrap()@ == "Server is running"@,
{
    proof {
        reveal_strlit("Server is running");
    }
    ApiResponse::ok("Server is running".to_owned())
}

} // verus!

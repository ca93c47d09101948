use vstd::prelude::*;

verus! {

/// A stored message as it is listed back to a client: the key it was stored
/// under and its text.
#[derive(Debug, Clone, PartialEq, Eq)]
pub struct MessageEntry {
    pub id: String,
    pub content: String,
}

impl View for MessageEntry {
    type V = (Seq<char>, Seq<char>);

    open spec fn view(&self) -> (Seq<char>, Seq<char>) {
        (self.id@, self.content@)
    }
}

/// The answer a handler sends back.
///
/// - `Status(text)`: the request was carried out; the body is `{"status": text}`.
/// - `Failure(error)`: the store or the queue refused; the body is `{"erro": error}`.
/// - `Messages(entries)`: the stored messages; the body is
///   `{"messages": [{"id": .., "content": ..}, ..]}`.
/// - `QueueMessages(bodies)`: the bodies taken from the queue; the body is
///   `{"messages": [body, ..]}`.
#[derive(Debug, Clone, PartialEq, Eq)]
pub enum ApiResponse {
    Status(String),
    Failure(String),
    Messages(Vec<MessageEntry>),
    QueueMessages(Vec<String>),
}

/// The mathematical value of an [`ApiResponse`].
pub enum ResponseView {
    Status(Seq<char>),
    Failure(Seq<char>),
    Messages(Seq<(Seq<char>, Seq<char>)>),
    QueueMessages(Seq<Seq<char>>),
}

/// The texts of a vector of strings.
pub open spec fn texts(v: Seq<String>) -> Seq<Seq<char>> {
    v.map_values(|s: String| s@)
}

/// The views of a vector of entries.
pub open spec fn entries_view(v: Seq<MessageEntry>) -> Seq<(Seq<char>, Seq<char>)> {
    v.map_values(|e: MessageEntry| e@)
}

impl View for ApiResponse {
    type V = ResponseView;

    open spec fn view(&self) -> ResponseView {
        match self {
            ApiResponse::Status(s) => ResponseView::Status(s@),
            ApiResponse::Failure(e) => ResponseView::Failure(e@),
            ApiResponse::Messages(v) => ResponseView::Messages(entries_view(v@)),
            ApiResponse::QueueMessages(v) => ResponseView::QueueMessages(texts(v@)),
        }
    }
}

/// The value of a result whose both sides are strings.
pub open spec fn result_view(r: Result<String, String>) -> Result<Seq<char>, Seq<char>> {
    match r {
        Ok(s) => Ok(s@),
        Err(e) => Err(e@),
    }
}

/// The value of a result that carries nothing on success and a string on failure.
pub open spec fn unit_result_view(r: Result<(), String>) -> Result<(), Seq<char>> {
    match r {
        Ok(()) => Ok(()),
        Err(e) => Err(e@),
    }
}

/// The value of a result that carries strings on success and a string on failure.
pub open spec fn texts_result_view(r: Result<Vec<String>, String>) -> Result<Seq<Seq<char>>, Seq<char>> {
    match r {
        Ok(v) => Ok(texts(v@)),
        Err(e) => Err(e@),
    }
}

} // verus!

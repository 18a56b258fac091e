use vstd::prelude::*;
use crate::model::Node;
use crate::store::SearchError;

verus! {

/// How serious a log record is.
#[derive(Clone, Copy, Debug, PartialEq, Eq, Structural)]
pub enum LogLevel {
    Info,
    Error,
}

/// What is recorded of one index attempt: the document, how long the
/// attempt took, and the failure if there was one.
pub struct IndexLog {
    pub level: LogLevel,
    pub document_id: String,
    pub duration_ms: u64,
    pub error: Option<String>,
}

impl IndexLog {
    /// The message of the record.
    pub fn message(&self) -> (r: &'static str)
        ensures
            self.level == LogLevel::Info ==> r@ == "Indexed document"@,
            self.level == LogLevel::Error ==> r@ == "Failed to index document"@,
    {
        match self.level {
            LogLevel::Info => "Indexed document",
            LogLevel::Error => "Failed to index document",
        }
    }
}

/// What the caller of an index attempt sees, and the one record kept of it.
/// A failure is recorded and never reported: indexing is best effort, so the
/// caller always sees success.
pub fn index_report(document_id: &String, outcome: Result<(), String>, duration_ms: u64) -> (r: (
    Result<(), SearchError>,
    IndexLog,
))
    ensures
        r.0 is Ok,
        r.1.document_id@ == document_id@,
        r.1.duration_ms == duration_ms,
        outcome is Ok ==> r.1.level == LogLevel::Info && r.1.error is None,
        outcome is Err ==> r.1.level == LogLevel::Error && r.1.error is Some && r.1.error->Some_0@
            == outcome->Err_0@,
{
    let log = match outcome {
        Ok(()) => IndexLog { level: LogLevel::Info, document_id: document_id.clone(), duration_ms, error: None },
        Err(e) => IndexLog { level: LogLevel::Error, document_id: document_id.clone(), duration_ms, error: Some(e) },
    };
    (Ok(()), log)
}

/// What the caller of a search sees, from what the backend gave: its
/// failure, a body without a result list (`None`), or the nodes of its hits
/// in rank order. A failure is always reported, never turned into an empty
/// result.
pub fn search_outcome(response: Result<Option<Vec<Node>>, String>) -> (r: Result<Vec<Node>, SearchError>)
    ensures
        response is Err ==> r is Err && r->Err_0 == SearchError::Backend(response->Err_0),
        response matches Ok(None) ==> r matches Err(SearchError::InvalidResponse),
        response matches Ok(Some(nodes)) ==> r matches Ok(out) && out == nodes,
{
    match response {
        Err(e) => Err(SearchError::Backend(e)),
        Ok(None) => Err(SearchError::InvalidResponse),
        Ok(Some(nodes)) => Ok(nodes),
    }
}

} // verus!

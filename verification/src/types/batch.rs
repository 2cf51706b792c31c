//! Batch operation types for the gateway.

use vstd::prelude::*;

use crate::json::JsonValue;
use crate::text::decimal;
use crate::types::completion::ChatCompletion;

verus! {

/// Status of a batch job.
#[derive(Debug, Clone, Copy, PartialEq, Eq, Structural)]
pub enum BatchStatus {
    /// Batch is being validated.
    Validating,
    /// Batch validation or processing failed.
    Failed,
    /// Batch is currently being processed.
    InProgress,
    /// Batch is being finalized.
    Finalizing,
    /// Batch has completed successfully.
    Completed,
    /// Batch has expired.
    Expired,
    /// Batch is being cancelled.
    Cancelling,
    /// Batch has been cancelled.
    Cancelled,
}

/// The wire (snake_case) name of a batch status.
pub open spec fn status_name(s: BatchStatus) -> Seq<char> {
    match s {
        BatchStatus::Validating => "validating"@,
        BatchStatus::Failed => "failed"@,
        BatchStatus::InProgress => "in_progress"@,
        BatchStatus::Finalizing => "finalizing"@,
        BatchStatus::Completed => "completed"@,
        BatchStatus::Expired => "expired"@,
        BatchStatus::Cancelling => "cancelling"@,
        BatchStatus::Cancelled => "cancelled"@,
    }
}

impl BatchStatus {
    /// The wire name of the status.
    pub fn as_str(&self) -> (r: &'static str)
        ensures
            r@ == status_name(*self),
    {
        match self {
            BatchStatus::Validating => "validating",
            BatchStatus::Failed => "failed",
            BatchStatus::InProgress => "in_progress",
            BatchStatus::Finalizing => "finalizing",
            BatchStatus::Completed => "completed",
            BatchStatus::Expired => "expired",
            BatchStatus::Cancelling => "cancelling",
            BatchStatus::Cancelled => "cancelled",
        }
    }

    /// The status whose wire name is `name`, if any.
    pub fn from_name(name: &str) -> (r: Option<BatchStatus>)
        ensures
            r matches Some(s) ==> status_name(s) == name@,
            r is None ==> forall|s: BatchStatus| status_name(s) != name@,
    {
        let all = [
            BatchStatus::Validating,
            BatchStatus::Failed,
            BatchStatus::InProgress,
            BatchStatus::Finalizing,
            BatchStatus::Completed,
            BatchStatus::Expired,
            BatchStatus::Cancelling,
            BatchStatus::Cancelled,
        ];
        let n = String::from_str(name);
        let mut i: usize = 0;
        while i < 8
            invariant
                i <= 8,
                n@ == name@,
                all@ == seq![
                    BatchStatus::Validating,
                    BatchStatus::Failed,
                    BatchStatus::InProgress,
                    BatchStatus::Finalizing,
                    BatchStatus::Completed,
                    BatchStatus::Expired,
                    BatchStatus::Cancelling,
                    BatchStatus::Cancelled,
                ],
                forall|j: int| 0 <= j < i ==> status_name(#[trigger] all@[j]) != name@,
            decreases 8 - i,
        {
            let s = all[i];
            let w = String::from_str(s.as_str());
            if w == n {
                return Some(s);
            }
            i = i + 1;
        }
        assert forall|s: BatchStatus| status_name(s) != name@ by {
            match s {
                BatchStatus::Validating => assert(all@[0] == s),
                BatchStatus::Failed => assert(all@[1] == s),
                BatchStatus::InProgress => assert(all@[2] == s),
                BatchStatus::Finalizing => assert(all@[3] == s),
                BatchStatus::Completed => assert(all@[4] == s),
                BatchStatus::Expired => assert(all@[5] == s),
                BatchStatus::Cancelling => assert(all@[6] == s),
                BatchStatus::Cancelled => assert(all@[7] == s),
            }
        }
        None
    }
}

/// Request counts for a batch job.
#[derive(Debug, Clone, Copy, PartialEq, Eq, Structural)]
pub struct BatchRequestCounts {
    /// Total number of requests in the batch.
    pub total: u32,
    /// Number of completed requests.
    pub completed: u32,
    /// Number of failed requests.
    pub failed: u32,
}

/// A batch job returned by the gateway.
#[derive(Debug, Clone)]
pub struct Batch {
    /// Unique batch identifier.
    pub id: String,
    /// Object type (always "batch").
    pub object: String,
    /// The API endpoint used for the batch.
    pub endpoint: String,
    /// Current status of the batch.
    pub status: BatchStatus,
    /// Unix timestamp of when the batch was created.
    pub created_at: i64,
    /// The time window for batch completion.
    pub completion_window: String,
    /// The provider processing the batch.
    pub provider: Option<String>,
    /// Input file ID.
    pub input_file_id: Option<String>,
    /// Output file ID (when completed).
    pub output_file_id: Option<String>,
    /// Error file ID (when there are errors).
    pub error_file_id: Option<String>,
    /// Request counts.
    pub request_counts: Option<BatchRequestCounts>,
    /// User-provided metadata, as key-value pairs.
    pub metadata: Option<Vec<(String, String)>>,
    /// Unix timestamp of when processing started.
    pub in_progress_at: Option<i64>,
    /// Unix timestamp of when the batch completed.
    pub completed_at: Option<i64>,
}

/// A single request within a batch.
#[derive(Debug, Clone)]
pub struct BatchRequestItem {
    /// A unique identifier for this request within the batch.
    pub custom_id: String,
    /// The request body (typically containing `messages`, `max_tokens`, etc.).
    pub body: JsonValue,
}

/// Parameters for creating a batch job.
#[derive(Debug, Clone)]
pub struct CreateBatchParams {
    /// The model to use, in `provider:model` format.
    pub model: String,
    /// The list of requests to process.
    pub requests: Vec<BatchRequestItem>,
    /// The time window for batch completion (e.g., "24h").
    pub completion_window: Option<String>,
    /// User-provided metadata key-value pairs.
    pub metadata: Option<Vec<(String, String)>>,
}

impl CreateBatchParams {
    /// Batch parameters with the required fields only.
    pub fn new(model: &str, requests: Vec<BatchRequestItem>) -> (r: Self)
        ensures
            r.model@ == model@,
            r.requests == requests,
            r.completion_window is None,
            r.metadata is None,
    {
        CreateBatchParams {
            model: String::from_str(model),
            requests,
            completion_window: None,
            metadata: None,
        }
    }

    /// Set the completion window (e.g., "24h").
    pub fn completion_window(self, window: &str) -> (r: Self)
        ensures
            r.model == self.model,
            r.requests == self.requests,
            r.completion_window matches Some(w) && w@ == window@,
            r.metadata == self.metadata,
    {
        CreateBatchParams { completion_window: Some(String::from_str(window)), ..self }
    }

    /// Set metadata key-value pairs.
    pub fn metadata(self, metadata: Vec<(String, String)>) -> (r: Self)
        ensures
            r == (CreateBatchParams { metadata: Some(metadata), ..self }),
    {
        CreateBatchParams { metadata: Some(metadata), ..self }
    }
}

/// Options for listing batch jobs.
#[derive(Debug, Clone)]
pub struct ListBatchesOptions {
    /// Cursor for pagination: return batches after this ID.
    pub after: Option<String>,
    /// Maximum number of batches to return.
    pub limit: Option<u32>,
}

impl Default for ListBatchesOptions {
    fn default() -> (r: Self)
        ensures
            r.after is None,
            r.limit is None,
    {
        ListBatchesOptions { after: None, limit: None }
    }
}

/// The query pairs of a list request: the provider, then the cursor and the
/// limit where they are set.
pub open spec fn list_query(provider: Seq<char>, options: ListBatchesOptions) -> Seq<
    (Seq<char>, Seq<char>),
> {
    let base = seq![("provider"@, provider)];
    let with_after = match options.after {
        Some(a) => base.push(("after"@, a@)),
        None => base,
    };
    match options.limit {
        Some(l) => with_after.push(("limit"@, decimal(l as nat))),
        None => with_after,
    }
}

/// The texts of a list of string pairs.
pub open spec fn pairs_view(v: Seq<(String, String)>) -> Seq<(Seq<char>, Seq<char>)> {
    v.map_values(|p: (String, String)| (p.0@, p.1@))
}

impl ListBatchesOptions {
    /// The query pairs of a list request for `provider` with these options.
    pub fn query(&self, provider: &str) -> (r: Vec<(String, String)>)
        ensures
            pairs_view(r@) == list_query(provider@, *self),
    {
        let mut q: Vec<(String, String)> = Vec::new();
        q.push((String::from_str("provider"), String::from_str(provider)));
        proof {
            reveal_strlit("provider");
            reveal_strlit("after");
            reveal_strlit("limit");
        }
        let ghost base = pairs_view(q@);
        assert(base =~= seq![("provider"@, provider@)]);
        match &self.after {
            Some(a) => q.push((String::from_str("after"), a.clone())),
            None => {},
        }
        let ghost mid = pairs_view(q@);
        match self.limit {
            Some(l) => q.push((String::from_str("limit"), crate::text::u64_to_decimal(l as u64))),
            None => {},
        }
        assert(pairs_view(q@) =~= list_query(provider@, *self));
        q
    }
}

/// An error for a single batch result item.
#[derive(Debug, Clone)]
pub struct BatchResultError {
    /// Error code.
    pub code: String,
    /// Human-readable error message.
    pub message: String,
}

/// A single result item from a batch.
#[derive(Debug, Clone)]
pub struct BatchResultItem {
    /// The custom ID matching the original request.
    pub custom_id: String,
    /// The completion result (if successful).
    pub result: Option<ChatCompletion>,
    /// The error (if failed).
    pub error: Option<BatchResultError>,
}

/// Results of a completed batch job.
#[derive(Debug, Clone)]
pub struct BatchResult {
    /// The individual result items.
    pub results: Vec<BatchResultItem>,
}

} // verus!

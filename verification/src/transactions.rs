//! Batch submission and batch status requests: the query they carry, and the reply each
//! outcome of the validator earns.
use vstd::prelude::*;
use vstd::string::*;

use crate::text::{split, split_by};

verus! {

/// The query of a submission that waits: how long to wait for the batches to commit.
#[derive(Clone, Copy, Debug)]
pub struct TxnQuery {
    pub wait: u32,
}

/// The query of a batch status request: an optional wait, and the batch ids separated by
/// commas.
#[derive(Clone, Debug)]
pub struct StatusQuery {
    pub wait: Option<u32>,
    pub ids: String,
}

/// The status of one batch as the validator reports it.
#[derive(Clone, Debug)]
pub struct BatchStatus {
    pub id: String,
    pub status: String,
}

/// The HTTP status of a reply.
#[derive(Clone, Copy, Debug, PartialEq, Eq, Structural)]
pub enum HttpStatus {
    Created,
    Accepted,
    BadRequest,
    UnprocessableEntity,
    InternalServerError,
}

/// The numeric code of each status.
pub open spec fn status_code(s: HttpStatus) -> u16 {
    match s {
        HttpStatus::Created => 201,
        HttpStatus::Accepted => 202,
        HttpStatus::BadRequest => 400,
        HttpStatus::UnprocessableEntity => 422,
        HttpStatus::InternalServerError => 500,
    }
}

impl HttpStatus {
    /// The numeric code of the status.
    pub fn code(&self) -> (c: u16)
        ensures
            c == status_code(*self),
    {
        match self {
            HttpStatus::Created => 201,
            HttpStatus::Accepted => 202,
            HttpStatus::BadRequest => 400,
            HttpStatus::UnprocessableEntity => 422,
            HttpStatus::InternalServerError => 500,
        }
    }
}

/// Why the validator could not take or report on batches.
#[derive(Clone, Debug)]
pub enum TransactionError {
    BatchParseError(String),
    InvalidBatch(String),
    NoResource(String),
    InvalidId(String),
    MessagingError(String),
    InternalError(String),
}

/// The errors that the client caused.
pub open spec fn is_client_error(err: TransactionError) -> bool {
    match err {
        TransactionError::BatchParseError(_) => true,
        TransactionError::InvalidBatch(_) => true,
        TransactionError::NoResource(_) => true,
        TransactionError::InvalidId(_) => true,
        _ => false,
    }
}

/// A failed request's reply: its status, and the error whose text is the message.
#[derive(Clone, Debug)]
pub struct ErrorReply {
    pub status: HttpStatus,
    pub error: TransactionError,
}

/// A successful submission's reply: its status, and the batch statuses.
#[derive(Clone, Debug)]
pub struct BatchReply {
    pub status: HttpStatus,
    pub statuses: Vec<BatchStatus>,
}

/// What a batch status request asks the validator: the batch ids, and how long to wait.
#[derive(Clone, Debug)]
pub struct StatusRequest {
    pub ids: Vec<String>,
    pub wait: u32,
}

/// The status text of a committed batch.
pub open spec fn committed() -> Seq<char> {
    "COMMITTED"@
}

/// Every batch of the list is committed.
pub open spec fn all_committed(statuses: Seq<BatchStatus>) -> bool {
    forall|i: int| 0 <= i < statuses.len() ==> (#[trigger] statuses[i]).status@ == committed()
}

/// Law: a list counts as committed exactly when each of its batches, wherever it stands,
/// reports the status "COMMITTED".
pub proof fn lemma_all_committed_means_each(statuses: Seq<BatchStatus>)
    ensures
        all_committed(statuses) <==> forall|i: int|
            0 <= i < statuses.len() ==> (#[trigger] statuses[i]).status@ == "COMMITTED"@,
{
}

/// Law: one batch that is not committed, at any position, makes a waited submission's reply
/// 202 Accepted rather than 201 Created.
pub proof fn lemma_uncommitted_batch_is_accepted(statuses: Seq<BatchStatus>, i: int)
    requires
        0 <= i < statuses.len(),
        statuses[i].status@ != "COMMITTED"@,
    ensures
        !all_committed(statuses),
        (if all_committed(statuses) {
            HttpStatus::Created
        } else {
            HttpStatus::Accepted
        }) == HttpStatus::Accepted,
{
}

/// Law: when every batch is committed the reply is 201 Created; an empty list counts as
/// committed.
pub proof fn lemma_committed_batches_are_created(statuses: Seq<BatchStatus>)
    requires
        forall|i: int| 0 <= i < statuses.len() ==> (#[trigger] statuses[i]).status@ == "COMMITTED"@,
    ensures
        all_committed(statuses),
        all_committed(Seq::<BatchStatus>::empty()),
{
}

/// Whether every batch of the list reports the status "COMMITTED".
pub fn every_batch_committed(statuses: &Vec<BatchStatus>) -> (res: bool)
    ensures
        res == all_committed(statuses@),
        res <==> forall|i: int|
            0 <= i < statuses@.len() ==> (#[trigger] statuses@[i]).status@ == "COMMITTED"@,
{
    let committed_text = String::from_str("COMMITTED");
    let mut i: usize = 0;
    while i < statuses.len()
        invariant
            i <= statuses.len(),
            committed_text@ == committed(),
            forall|j: int| 0 <= j < i ==> (#[trigger] statuses@[j]).status@ == committed(),
        decreases statuses.len() - i,
    {
        if statuses[i].status != committed_text {
            return false;
        }
        i = i + 1;
    }
    true
}

/// The reply to an error of the validator: 400 for the errors that the client caused, 500 for
/// the others.
pub fn map_error(err: TransactionError) -> (reply: ErrorReply)
    ensures
        reply.error == err,
        reply.status == (if is_client_error(err) {
            HttpStatus::BadRequest
        } else {
            HttpStatus::InternalServerError
        }),
{
    let status = match &err {
        TransactionError::BatchParseError(_) | TransactionError::InvalidBatch(_)
        | TransactionError::NoResource(_) | TransactionError::InvalidId(_) => HttpStatus::BadRequest,
        _ => HttpStatus::InternalServerError,
    };
    ErrorReply { status, error: err }
}

/// The reply to a submission that waited, given what the validator answered: 201 with the
/// statuses when every batch committed, 202 with them when some did not; an error is
/// answered as `map_error` says.
pub fn submit_txns_wait(outcome: Result<Vec<BatchStatus>, TransactionError>) -> (res: Result<
    BatchReply,
    ErrorReply,
>)
    ensures
        outcome matches Ok(statuses) ==> (res matches Ok(reply) && reply.statuses == statuses
            && reply.status == (if all_committed(statuses@) {
            HttpStatus::Created
        } else {
            HttpStatus::Accepted
        })),
        outcome matches Err(err) ==> (res matches Err(reply) && reply.error == err && reply.status
            == (if is_client_error(err) {
            HttpStatus::BadRequest
        } else {
            HttpStatus::InternalServerError
        })),
{
    match outcome {
        Ok(statuses) => {
            let status = if every_batch_committed(&statuses) {
                HttpStatus::Created
            } else {
                HttpStatus::Accepted
            };
            Ok(BatchReply { status, statuses })
        },
        Err(err) => Err(map_error(err)),
    }
}

/// The reply to a submission, or to a batch status request, given what the validator
/// answered: the statuses as they came, or the error answered as `map_error` says.
pub fn submit_txns(outcome: Result<Vec<BatchStatus>, TransactionError>) -> (res: Result<
    Vec<BatchStatus>,
    ErrorReply,
>)
    ensures
        outcome matches Ok(statuses) ==> res == Ok::<Vec<BatchStatus>, ErrorReply>(statuses),
        outcome matches Err(err) ==> (res matches Err(reply) && reply.error == err && reply.status
            == (if is_client_error(err) {
            HttpStatus::BadRequest
        } else {
            HttpStatus::InternalServerError
        })),
{
    match outcome {
        Ok(statuses) => Ok(statuses),
        Err(err) => Err(map_error(err)),
    }
}

/// What a batch status query asks: the ids are the pieces of its id list between commas, and
/// the wait is the one given, or 0.
pub fn get_batch_status(query: &StatusQuery) -> (req: StatusRequest)
    ensures
        req.ids.deep_view() == split_by(query.ids@, ','),
        req.wait == (match query.wait {
            Some(w) => w,
            None => 0u32,
        }),
{
    let wait = match query.wait {
        Some(w) => w,
        None => 0,
    };
    let ids = split(query.ids.as_str(), ',');
    StatusRequest { ids, wait }
}

} // verus!

use dgc_api::transactions::{
    get_batch_status, map_error, submit_txns, submit_txns_wait, BatchStatus, HttpStatus,
    StatusQuery, TransactionError, TxnQuery,
};

fn status(id: &str, s: &str) -> BatchStatus {
    BatchStatus { id: id.to_string(), status: s.to_string() }
}

#[test]
fn all_committed_batches_are_created() {
    let reply = submit_txns_wait(Ok(vec![status("a", "COMMITTED"), status("b", "COMMITTED")])).unwrap();
    assert_eq!(reply.status, HttpStatus::Created);
    assert_eq!(reply.status.code(), 201);
    assert_eq!(reply.statuses.len(), 2);
    assert_eq!(reply.statuses[1].id, "b");
}

#[test]
fn a_pending_batch_is_only_accepted() {
    let reply = submit_txns_wait(Ok(vec![status("a", "COMMITTED"), status("b", "PENDING")])).unwrap();
    assert_eq!(reply.status, HttpStatus::Accepted);
    assert_eq!(reply.status.code(), 202);
}

#[test]
fn no_batches_count_as_all_committed() {
    let reply = submit_txns_wait(Ok(vec![])).unwrap();
    assert_eq!(reply.status, HttpStatus::Created);
}

#[test]
fn committed_must_match_exactly() {
    let reply = submit_txns_wait(Ok(vec![status("a", "committed")])).unwrap();
    assert_eq!(reply.status, HttpStatus::Accepted);
}

#[test]
fn client_errors_are_bad_requests() {
    for err in [
        TransactionError::BatchParseError("p".to_string()),
        TransactionError::InvalidBatch("b".to_string()),
        TransactionError::NoResource("r".to_string()),
        TransactionError::InvalidId("i".to_string()),
    ] {
        let reply = map_error(err);
        assert_eq!(reply.status, HttpStatus::BadRequest);
        assert_eq!(reply.status.code(), 400);
    }
}

#[test]
fn other_errors_are_internal_errors() {
    for err in [
        TransactionError::MessagingError("m".to_string()),
        TransactionError::InternalError("x".to_string()),
    ] {
        let reply = map_error(err);
        assert_eq!(reply.status, HttpStatus::InternalServerError);
        assert_eq!(reply.status.code(), 500);
    }
}

#[test]
fn map_error_keeps_the_error_for_the_message() {
    let reply = map_error(TransactionError::InvalidId("12".to_string()));
    assert_eq!(format!("{:?}", reply.error), "InvalidId(\"12\")");
}

#[test]
fn submission_errors_go_through_map_error() {
    let reply = submit_txns_wait(Err(TransactionError::InvalidBatch("bad".to_string()))).unwrap_err();
    assert_eq!(reply.status, HttpStatus::BadRequest);
    let reply = submit_txns(Err(TransactionError::MessagingError("down".to_string()))).unwrap_err();
    assert_eq!(reply.status, HttpStatus::InternalServerError);
}

#[test]
fn submission_statuses_pass_through() {
    let statuses = submit_txns(Ok(vec![status("x", "INVALID")])).unwrap();
    assert_eq!(statuses.len(), 1);
    assert_eq!(statuses[0].status, "INVALID");
}

#[test]
fn batch_status_query_splits_ids_and_defaults_wait() {
    let req = get_batch_status(&StatusQuery { wait: None, ids: "1,2,3".to_string() });
    assert_eq!(req.ids, vec!["1".to_string(), "2".to_string(), "3".to_string()]);
    assert_eq!(req.wait, 0);
    let req = get_batch_status(&StatusQuery { wait: Some(30), ids: "abc".to_string() });
    assert_eq!(req.ids, vec!["abc".to_string()]);
    assert_eq!(req.wait, 30);
}

#[test]
fn txn_query_carries_its_wait() {
    let q = TxnQuery { wait: 5 };
    assert_eq!(q.wait, 5);
}

#[test]
fn status_codes() {
    assert_eq!(HttpStatus::UnprocessableEntity.code(), 422);
}

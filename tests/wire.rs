use topic_comments::comment::{Comment, StoreError};
use topic_comments::pipeline::UpdatePipeline;
use topic_comments::redis::{decode_topics, ListOp, Redis, TopicDecodeError, RECENT_TOPICS_KEY};
use topic_comments::response::{HandlerResponse, Operation, FAILURE_STATUS};
use topic_comments::service::finish_submission;

#[test]
fn decode_reads_big_endian_identifiers() {
    let mut first = vec![0u8; 16];
    first[15] = 1;
    let second: Vec<u8> = (1..=16u8).collect();
    let got = decode_topics(&vec![first, second]).unwrap();
    assert_eq!(got, vec![1u128, 0x0102030405060708090a0b0c0d0e0f10u128]);
}

#[test]
fn decode_rejects_wrong_length() {
    let raw = vec![vec![0u8; 16], vec![1u8; 15], vec![2u8; 17]];
    assert_eq!(decode_topics(&raw), Err(TopicDecodeError { index: 1 }));
    assert_eq!(decode_topics(&Vec::new()), Ok(Vec::new()));
}

#[test]
fn promote_batch_commands() {
    let r = Redis::standard();
    assert_eq!(r.key(), RECENT_TOPICS_KEY);
    assert_eq!(r.capacity(), 10);
    assert_eq!(r.range_stop(), 9);
    assert_eq!(r.promote_ops(42), vec![ListOp::RemoveAll(42), ListOp::PushFront(42), ListOp::TrimTo(9)]);
    let small = Redis::with_key("k".to_string(), 3);
    assert_eq!(small.promote_ops(1), vec![ListOp::RemoveAll(1), ListOp::PushFront(1), ListOp::TrimTo(2)]);
}

#[test]
fn failure_codes_per_operation() {
    let a: HandlerResponse<()> = HandlerResponse::failure(Operation::AddComment);
    assert_eq!(a, HandlerResponse::Fail { code: 1, message: "Failed to add comment".to_string() });
    let g: HandlerResponse<()> = HandlerResponse::from_outcome(Operation::GetComments, Err(StoreError::QueryError));
    assert_eq!(g, HandlerResponse::Fail { code: 2, message: "Failed to get comments".to_string() });
    let t: HandlerResponse<Vec<u128>> =
        HandlerResponse::from_outcome(Operation::GetRecentTopics, Err(StoreError::StoreUnavailable));
    assert_eq!(t, HandlerResponse::Fail { code: 3, message: "Failed to get recent topics".to_string() });
    assert_eq!(t.status_code(Operation::GetRecentTopics), FAILURE_STATUS);
    let ok: HandlerResponse<Vec<u128>> = HandlerResponse::from_outcome::<StoreError>(Operation::GetRecentTopics, Ok(vec![1]));
    assert_eq!(ok, HandlerResponse::Success(vec![1]));
    assert_eq!(ok.status_code(Operation::GetRecentTopics), 200);
}

#[test]
fn store_failure_leaves_pipeline_alone() {
    let mut p = UpdatePipeline::new(2);
    let (resp, sat) = finish_submission(Err(StoreError::PersistenceError), &mut p);
    assert_eq!(resp, HandlerResponse::Fail { code: 1, message: "Failed to add comment".to_string() });
    assert_eq!(resp.status_code(Operation::AddComment), 500);
    assert_eq!(sat, None);
    assert_eq!(p.pending(), 0);
    let c = Comment { topic_id: 8, sender: "s".to_string(), text: "t".to_string(), timestamp: 1 };
    let (resp, sat) = finish_submission(Ok(c.clone()), &mut p);
    assert_eq!(resp.status_code(Operation::AddComment), 201);
    assert_eq!(resp, HandlerResponse::Success(c));
    assert_eq!(sat, None);
    assert_eq!(p.next(), Some(8));
}

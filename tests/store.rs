use topic_comments::comment::{Comment, CommentRequest, CommentStore};
use topic_comments::pipeline::{PipelineSaturated, UpdatePipeline};
use topic_comments::recency::RecencyList;
use topic_comments::response::HandlerResponse;
use topic_comments::service::{process_pending, submit_comment};

fn req(topic: u128, text: &str) -> CommentRequest {
    CommentRequest { topic_id: topic, sender: "ann".to_string(), text: text.to_string() }
}

#[test]
fn appended_comment_is_listed_with_its_time() {
    let mut store = CommentStore::new();
    let c = store.append_at(req(5, "hello"), 1_000);
    assert_eq!(c.timestamp, 1_000);
    assert_eq!(c.topic_id, 5);
    assert_eq!(c.text, "hello");
    assert_eq!(store.list_by_topic(5), vec![c]);
    assert_eq!(store.list_by_topic(6), Vec::<Comment>::new());
}

#[test]
fn append_with_clock_is_listed() {
    let mut store = CommentStore::new();
    let c = store.append(req(1, "now"));
    assert!(c.timestamp > 0);
    assert_eq!(store.list_by_topic(1), vec![c]);
}

#[test]
fn listing_is_chronological() {
    let mut store = CommentStore::new();
    store.append_at(req(2, "c"), 30);
    store.append_at(req(1, "x"), 5);
    store.append_at(req(2, "a"), 10);
    store.append_at(req(2, "b"), 20);
    store.append_at(req(2, "a2"), 10);
    let listed = store.list_by_topic(2);
    let times: Vec<i64> = listed.iter().map(|c| c.timestamp).collect();
    assert_eq!(times, vec![10, 10, 20, 30]);
    let texts: Vec<&str> = listed.iter().map(|c| c.text.as_str()).collect();
    assert_eq!(texts, vec!["a", "a2", "b", "c"]);
    assert_eq!(store.len(), 5);
}

#[test]
fn submission_succeeds_with_saturated_pipeline() {
    let mut store = CommentStore::new();
    let mut pipeline = UpdatePipeline::new(1);
    assert!(pipeline.notify(99).is_ok());
    let (resp, sat) = submit_comment(&mut store, &mut pipeline, req(3, "hi"), 77);
    let expected = Comment { topic_id: 3, sender: "ann".to_string(), text: "hi".to_string(), timestamp: 77 };
    assert_eq!(resp, HandlerResponse::Success(expected.clone()));
    assert_eq!(sat, Some(PipelineSaturated { topic_id: 3 }));
    assert_eq!(store.list_by_topic(3), vec![expected]);
    assert_eq!(pipeline.dropped(), 1);
}

#[test]
fn submissions_reach_tracker_in_order() {
    let mut store = CommentStore::new();
    let mut pipeline = UpdatePipeline::with_default_capacity();
    let mut tracker = RecencyList::new(3);
    for (k, topic) in [1u128, 2, 1, 3].iter().enumerate() {
        let (resp, sat) = submit_comment(&mut store, &mut pipeline, req(*topic, "t"), k as i64);
        assert!(resp.is_success());
        assert_eq!(sat, None);
    }
    assert_eq!(process_pending(&mut pipeline, &mut tracker), 4);
    assert_eq!(pipeline.pending(), 0);
    assert_eq!(tracker.top(3), vec![3, 1, 2]);
}

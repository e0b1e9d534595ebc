use topic_comments::pipeline::{
    ConsumerAction, ConsumerEvent, ConsumerState, PipelineSaturated, UpdatePipeline, PIPELINE_CAPACITY,
};

#[test]
fn saturated_pipeline_drops_and_reports() {
    let mut p = UpdatePipeline::with_default_capacity();
    assert_eq!(p.capacity(), PIPELINE_CAPACITY);
    let mut saturations = 0u32;
    for k in 0..150u128 {
        match p.notify(k) {
            Ok(()) => {}
            Err(e) => {
                assert_eq!(e, PipelineSaturated { topic_id: k });
                saturations += 1;
            }
        }
    }
    assert!(saturations >= 50);
    assert_eq!(saturations, 50);
    assert_eq!(p.dropped(), 50);
    assert_eq!(p.pending(), 100);
}

#[test]
fn queue_is_first_in_first_out() {
    let mut p = UpdatePipeline::new(3);
    assert!(p.notify(7).is_ok());
    assert!(p.notify(8).is_ok());
    assert_eq!(p.next(), Some(7));
    assert!(p.notify(9).is_ok());
    assert_eq!(p.next(), Some(8));
    assert_eq!(p.next(), Some(9));
    assert_eq!(p.next(), None);
    assert_eq!(p.dropped(), 0);
}

#[test]
fn consumer_transitions() {
    let s = ConsumerState::start();
    assert_eq!(s, ConsumerState::Idle);
    let (s, a) = s.step(ConsumerEvent::Received(4));
    assert_eq!((s, a), (ConsumerState::Promoting(4), ConsumerAction::Promote(4)));
    let (s2, a2) = s.step(ConsumerEvent::PromotionFailed);
    assert_eq!((s2, a2), (ConsumerState::Idle, ConsumerAction::Discard(4)));
    let (s3, a3) = s.step(ConsumerEvent::Promoted);
    assert_eq!((s3, a3), (ConsumerState::Idle, ConsumerAction::Wait));
    let (s4, a4) = s3.step(ConsumerEvent::Closed);
    assert_eq!((s4, a4), (ConsumerState::Finished, ConsumerAction::Stop));
    assert!(s4.is_finished());
    let (s5, a5) = s4.step(ConsumerEvent::Received(1));
    assert_eq!((s5, a5), (ConsumerState::Finished, ConsumerAction::Stop));
}

use stocks::consensus::{recent_news_fresh_enough, thesis_crossing_topic, ThesisTopic};

#[test]
fn recent_news_freshness_requires_three_articles_in_two_weeks() {
    assert!(!recent_news_fresh_enough(0));
    assert!(!recent_news_fresh_enough(2));
    assert!(recent_news_fresh_enough(3));
}

#[test]
fn crossing_without_open_thesis_does_not_emit_thesis_event() {
    assert_eq!(thesis_crossing_topic(false, false), None);
    assert_eq!(thesis_crossing_topic(false, true), None);
}

#[test]
fn crossing_with_open_thesis_routes_to_lifecycle_subjects() {
    assert_eq!(thesis_crossing_topic(true, false), Some(ThesisTopic::Updated));
    assert_eq!(thesis_crossing_topic(true, true), Some(ThesisTopic::Fulfilled));
}

#[test]
fn thesis_topics_publish_on_thesis_subjects() {
    assert_eq!(ThesisTopic::Updated.subject(), "thesis.updated");
    assert_eq!(ThesisTopic::Fulfilled.subject(), "thesis.fulfilled");
    assert!(recent_news_fresh_enough(u32::MAX));
}

//! Row shapes, write validations, and the engagement outcomes.

use forum_core::db::defs::{DBQuery, DBTable};
use forum_core::db::table::{Counter, Record, Tag, UserStatus};
use forum_core::error::{ClientError, Error};
use forum_core::flow::{engagement_outcome, reply_updated, validate_reply, validate_topic};

#[test]
fn record_holds_its_id() {
    let r = Record::new("topic:abc".to_string());
    assert_eq!(r.id(), "topic:abc");
}

#[test]
fn counter_getters() {
    let c = Counter::new(3, 1, 7, Some(42));
    assert_eq!(c.likes(), 3);
    assert_eq!(c.shares(), 1);
    assert_eq!(c.replies(), 7);
    assert_eq!(c.views(), Some(42));
    let c = Counter::new(0, 0, 0, None);
    assert_eq!(c.views(), None);
}

#[test]
fn user_status_getters() {
    let s = UserStatus::new(5, true, false, true);
    assert_eq!(s.identity(), 5);
    assert!(s.is_liked());
    assert!(!s.is_owner());
    assert!(s.is_shared());
}

#[test]
fn tag_holds_its_name() {
    let t = Tag::new("rust".to_string());
    assert_eq!(t.name(), "rust");
}

#[test]
fn table_names() {
    assert_eq!(DBTable::TAG, "tag");
    assert_eq!(DBTable::USER, "user");
    assert_eq!(DBTable::TOPIC, "topic");
    assert_eq!(DBTable::REPLY, "reply");
}

#[test]
fn queries_bind_expected_parameters() {
    assert!(DBQuery::SELECT_ID.contains("$thing"));
    assert!(DBQuery::SELECT_ONLY_USER_FROM_EMAIL.contains("$email"));
    assert!(DBQuery::CREATE_USER.contains("$password"));
    assert!(DBQuery::CREATE_REPLY.contains("$topic"));
    assert!(DBQuery::LIKE_POST.contains("$post"));
    assert!(DBQuery::SHARE_POST.contains("$user"));
}

#[test]
fn missing_topic_is_its_own_error() {
    let r = validate_topic(None);
    assert!(matches!(r, Err(Error::Client(ClientError::TopicNotFound))));
    let ok = validate_topic(Some(Record::new("t1".to_string()))).unwrap();
    assert_eq!(ok.id(), "t1");
}

#[test]
fn missing_reply_is_its_own_error() {
    let r = validate_reply(None);
    assert!(matches!(r, Err(Error::Client(ClientError::ReplyNotFound))));
    let ok = validate_reply(Some(Record::new("r1".to_string()))).unwrap();
    assert_eq!(ok.id(), "r1");
}

#[test]
fn engagement_on_missing_post_is_denied() {
    assert!(engagement_outcome(Some("post1".to_string())).is_ok());
    let r = engagement_outcome(None);
    assert!(matches!(r, Err(Error::Client(ClientError::Unauthorized))));
}

#[test]
fn reply_update_without_store_ack_is_denied() {
    let r = reply_updated("t1", None);
    assert!(matches!(r, Err(Error::Client(ClientError::Unauthorized))));
    let (key, ev) = reply_updated("t1", Some("r2".to_string())).unwrap();
    assert_eq!(key, "t1");
    assert_eq!(ev.id(), "r2");
    assert_eq!(ev.kind(), "Updated");
    assert_eq!(ev.class(), "Reply");
}

#[test]
fn parse_tags_normalizes_and_dedups() {
    let tags = forum_core::flow::parse_tags("#Rust  rust #WEB dev");
    assert_eq!(tags.len(), 3);
    assert!(tags.contains(&"rust".to_string()));
    assert!(tags.contains(&"web".to_string()));
    assert!(tags.contains(&"dev".to_string()));
}

#[test]
fn parse_tags_empty_and_blank() {
    assert!(forum_core::flow::parse_tags("").is_empty());
    assert!(forum_core::flow::parse_tags("   \t\n ").is_empty());
}

#[test]
fn parse_tags_hash_handling() {
    // Leading '#' marks are stripped, however many; a mark inside a word
    // stays; a word of marks alone normalizes to the empty tag.
    assert_eq!(forum_core::flow::parse_tags("###Deep"), vec!["deep".to_string()]);
    assert_eq!(forum_core::flow::parse_tags("#"), vec!["".to_string()]);
    assert_eq!(forum_core::flow::parse_tags("c#"), vec!["c#".to_string()]);
}

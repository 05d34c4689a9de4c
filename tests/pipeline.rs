use eater::config::RunConfiguration;
use eater::deletion::{
    backoff_for, interpret, DeleteReply, DeleteStep, DeletionExecutor, RateLimitSignal,
};
use eater::filter::filter_messages;
use eater::message::{Identity, Message};
use eater::paginate::{PageReply, PageStep, Paginator};

fn msg(id: &str, kind: i32, author: &str) -> Message {
    Message::new(id.to_string(), kind, author.to_string(), vec![])
}

fn ids(messages: &[Message]) -> Vec<String> {
    messages.iter().map(|m| m.id.clone()).collect()
}

fn body(text: &str, retry_after: Option<u64>) -> DeleteReply {
    DeleteReply::Body {
        text: text.to_string(),
        rate_limit: retry_after.map(|r| RateLimitSignal { retry_after: r }),
    }
}

#[test]
fn page_is_reversed_and_cursor_moves_to_newest() {
    let mut p = Paginator::new("0".to_string());
    let step = p.on_reply(PageReply::Page(vec![msg("5", 0, "a"), msg("4", 0, "a"), msg("3", 0, "a")]));
    assert_eq!(step, PageStep::Fetch);
    assert_eq!(p.cursor, "5");
    assert_eq!(ids(&p.messages), vec!["3", "4", "5"]);
    let step = p.on_reply(PageReply::Page(vec![]));
    assert_eq!(step, PageStep::Finished);
    assert!(p.finished);
    assert_eq!(ids(&p.messages), vec!["3", "4", "5"]);
}

#[test]
fn pages_accumulate_oldest_first() {
    let mut p = Paginator::new("0".to_string());
    assert_eq!(p.on_page(vec![msg("2", 0, "a"), msg("1", 0, "a")]), PageStep::Fetch);
    assert_eq!(p.cursor, "2");
    assert_eq!(p.on_page(vec![msg("5", 0, "a"), msg("4", 0, "a"), msg("3", 0, "a")]), PageStep::Fetch);
    assert_eq!(p.cursor, "5");
    assert_eq!(ids(&p.messages), vec!["1", "2", "3", "4", "5"]);
    assert_eq!(p.on_page(vec![]), PageStep::Finished);
    assert_eq!(p.cursor, "5");
}

#[test]
fn too_many_requests_waits_without_moving() {
    let mut p = Paginator::new("7".to_string());
    assert_eq!(p.on_reply(PageReply::TooManyRequests), PageStep::Wait(5000));
    assert_eq!(p.cursor, "7");
    assert!(p.messages.is_empty());
    assert!(!p.finished);
}

#[test]
fn failed_listing_aborts() {
    let mut p = Paginator::new("0".to_string());
    assert_eq!(p.on_reply(PageReply::Failed), PageStep::Failed);
    assert_eq!(p.cursor, "0");
}

#[test]
fn finished_walk_takes_nothing_more() {
    let mut p = Paginator::new("0".to_string());
    assert_eq!(p.on_page(vec![]), PageStep::Finished);
    assert_eq!(p.on_page(vec![msg("9", 0, "a")]), PageStep::Finished);
    assert_eq!(p.cursor, "0");
    assert!(p.messages.is_empty());
}

#[test]
fn default_target_is_own_identity_and_types_filter() {
    let me = Identity { id: "42".to_string(), display_name: "me".to_string() };
    let cfg = RunConfiguration::resolve("c".to_string(), "t".to_string(), None, None, None, &me);
    assert_eq!(cfg.target, "42");
    assert_eq!(cfg.start, "0");
    assert!(cfg.excluded.is_empty());
    let all = vec![
        msg("1", 0, "42"),
        msg("2", 1, "42"),
        msg("3", 4, "42"),
        msg("4", 6, "42"),
        msg("5", 0, "7"),
        msg("6", 19, "42"),
    ];
    let out = filter_messages(&all, &cfg.target, &cfg.excluded);
    assert_eq!(ids(&out), vec!["1", "3", "4"]);
}

#[test]
fn resolve_keeps_given_values() {
    let me = Identity { id: "42".to_string(), display_name: "me".to_string() };
    let cfg = RunConfiguration::resolve(
        "c".to_string(),
        "t".to_string(),
        Some("100".to_string()),
        Some("9".to_string()),
        Some(vec!["3".to_string()]),
        &me,
    );
    assert_eq!(cfg.channel_id, "c");
    assert_eq!(cfg.token, "t");
    assert_eq!(cfg.start, "100");
    assert_eq!(cfg.target, "9");
    assert_eq!(cfg.excluded, vec!["3".to_string()]);
}

#[test]
fn exclusion_removes_exactly_the_listed_ids() {
    let all = vec![msg("1", 0, "a"), msg("2", 0, "a"), msg("3", 0, "a"), msg("4", 0, "b")];
    let excluded = vec!["2".to_string(), "4".to_string(), "99".to_string()];
    let out = filter_messages(&all, &"a".to_string(), &excluded);
    assert_eq!(ids(&out), vec!["1", "3"]);
}

#[test]
fn filtering_twice_changes_nothing() {
    let all = vec![msg("1", 0, "a"), msg("2", 1, "a"), msg("3", 6, "a"), msg("4", 0, "b")];
    let excluded = vec!["1".to_string()];
    let target = "a".to_string();
    let once = filter_messages(&all, &target, &excluded);
    let twice = filter_messages(&once, &target, &excluded);
    assert_eq!(ids(&once), vec!["3"]);
    assert_eq!(ids(&twice), ids(&once));
}

#[test]
fn filter_of_nothing_is_empty() {
    let out = filter_messages(&vec![], &"a".to_string(), &vec![]);
    assert!(out.is_empty());
}

#[test]
fn duplicate_keeps_attachments() {
    let m = Message::new("1".to_string(), 0, "a".to_string(), vec!["x".to_string(), "y".to_string()]);
    let c = m.duplicate();
    assert_eq!(c.id, "1");
    assert_eq!(c.author_id, "a");
    assert_eq!(c.attachment_ids, vec!["x".to_string(), "y".to_string()]);
}

#[test]
fn scripted_deletion_ends_after_three_attempts() {
    let mut ex = DeletionExecutor::new(&vec![msg("10", 0, "a")]);
    let script = vec![
        DeleteReply::TransportError,
        body("{\"message\":\"rate limited\",\"retry_after\":2000}", Some(2000)),
        body("", None),
    ];
    let mut attempts = 0;
    let mut waited_before_last = 0;
    let mut steps = vec![];
    for reply in &script {
        assert!(!ex.is_done());
        assert_eq!(ex.current(), Some(&"10".to_string()));
        attempts += 1;
        let step = ex.on_reply(reply);
        if let DeleteStep::Backoff(ms) = step {
            waited_before_last += ms;
        }
        steps.push(step);
    }
    assert_eq!(attempts, 3);
    assert_eq!(steps, vec![DeleteStep::Resend, DeleteStep::Backoff(3000), DeleteStep::Deleted(1200)]);
    assert!(waited_before_last >= 3000);
    assert!(ex.is_done());
    assert_eq!(ex.current(), None);
}

#[test]
fn rate_limit_body_gives_backoff_plus_margin() {
    assert_eq!(backoff_for(500), 1500);
    let reply = body("{\"message\":\"rate limited\",\"retry_after\":500}", Some(500));
    assert_eq!(interpret(&reply), DeleteStep::Backoff(1500));
}

#[test]
fn backoff_holds_at_largest_value() {
    assert_eq!(backoff_for(u64::MAX), u64::MAX);
    assert_eq!(backoff_for(u64::MAX - 1000), u64::MAX);
    assert_eq!(backoff_for(0), 1000);
}

#[test]
fn unrecognized_body_retries_without_moving_on() {
    let mut ex = DeletionExecutor::new(&vec![msg("1", 0, "a"), msg("2", 0, "a")]);
    assert_eq!(ex.on_reply(&body("{\"code\":50013}", None)), DeleteStep::Unrecognized);
    assert_eq!(ex.next, 0);
    assert_eq!(ex.on_reply(&body("", None)), DeleteStep::Deleted(1200));
    assert_eq!(ex.current(), Some(&"2".to_string()));
    assert_eq!(ex.on_reply(&body("", None)), DeleteStep::Deleted(1200));
    assert!(ex.is_done());
}

#[test]
fn executor_keeps_message_order() {
    let ex = DeletionExecutor::new(&vec![msg("3", 0, "a"), msg("1", 0, "a"), msg("2", 0, "a")]);
    assert_eq!(ex.ids, vec!["3".to_string(), "1".to_string(), "2".to_string()]);
    assert_eq!(ex.next, 0);
}

use autobuild::config::WebhookConfig;
use autobuild::notify::{payload, Delivery, NotificationBatcher, Notice, Severity};

fn webhook(url: &str, window: u64) -> WebhookConfig {
    WebhookConfig { url: url.to_string(), prefix: "[repo]".to_string(), message_interval: window }
}

fn notice(severity: Severity, message: &str) -> Notice {
    Notice::new(severity, message.to_string())
}

fn sent_digest(d: Delivery) -> String {
    match d {
        Delivery::Send { digest, .. } => digest,
        other => panic!("expected a digest to send, got {}", matches!(other, Delivery::Held)),
    }
}

#[test]
fn first_notice_is_sent_at_once() {
    let mut b = NotificationBatcher::for_webhook(&webhook("http://hook", 60));
    let d = b.notify(notice(Severity::Info, "hello"), 1000, "2024-01-01 00:00:00");
    assert_eq!(sent_digest(d), "[repo] [2024-01-01 00:00:00]\n[INFO] hello\n");
    assert!(b.is_sending());
}

#[test]
fn burst_within_window_is_one_digest_in_order() {
    let mut b = NotificationBatcher::for_webhook(&webhook("http://hook", 60));
    let d = b.notify(notice(Severity::Info, "start"), 1000, "t0");
    assert!(matches!(d, Delivery::Send { .. }));
    b.delivery_finished(true);
    assert!(b.pending().is_empty());
    assert!(matches!(b.notify(notice(Severity::Info, "one"), 1010, "t1"), Delivery::Held));
    assert!(matches!(b.notify(notice(Severity::Success, "two"), 1030, "t2"), Delivery::Held));
    assert!(matches!(b.notify(notice(Severity::Error, "three"), 1059, "t3"), Delivery::Held));
    assert_eq!(b.pending().len(), 3);
    let d = b.notify(notice(Severity::Info, "four"), 1060, "t4");
    assert_eq!(
        sent_digest(d),
        "[repo] [t4]\n[INFO] one\n[SUCCESS] two\n[ERROR] three\n[INFO] four\n"
    );
    b.delivery_finished(true);
    assert!(b.pending().is_empty());
    assert!(matches!(b.notify(notice(Severity::Info, "five"), 1100, "t5"), Delivery::Held));
}

#[test]
fn failed_delivery_is_retried_by_next_notice() {
    let mut b = NotificationBatcher::for_webhook(&webhook("http://hook", 60));
    assert!(matches!(b.notify(notice(Severity::Info, "a"), 500, "t0"), Delivery::Send { .. }));
    b.delivery_finished(false);
    assert!(!b.is_sending());
    assert_eq!(b.pending().len(), 1);
    let d = b.notify(notice(Severity::Error, "b"), 500, "t1");
    assert_eq!(sent_digest(d), "[repo] [t1]\n[INFO] a\n[ERROR] b\n");
    b.delivery_finished(true);
    assert!(b.pending().is_empty());
}

#[test]
fn notices_during_a_delivery_wait_for_the_next_digest() {
    let mut b = NotificationBatcher::for_webhook(&webhook("http://hook", 0));
    assert!(matches!(b.notify(notice(Severity::Info, "a"), 10, "t0"), Delivery::Send { .. }));
    assert!(matches!(b.notify(notice(Severity::Info, "b"), 20, "t1"), Delivery::Held));
    b.delivery_finished(true);
    assert_eq!(b.pending().len(), 1);
    assert_eq!(b.pending()[0].message, "b");
    let d = b.notify(notice(Severity::Info, "c"), 20, "t2");
    assert_eq!(sent_digest(d), "[repo] [t2]\n[INFO] b\n[INFO] c\n");
}

#[test]
fn empty_url_logs_locally_and_sends_nothing() {
    let mut b = NotificationBatcher::for_webhook(&webhook("", 60));
    for (i, m) in ["x", "", "{\"k\": 1}", "long\nmessage"].iter().enumerate() {
        match b.notify(notice(Severity::Error, m), 100 + i as i64, "t") {
            Delivery::LogOnly { line } => assert_eq!(line, format!("[ERROR] {}\n", m)),
            _ => panic!("no delivery may be attempted without an endpoint"),
        }
    }
    assert!(!b.is_sending());
    assert!(b.pending().is_empty());
}

#[test]
fn payload_wraps_escaped_digest() {
    assert_eq!(
        payload("a \"b\"\nc"),
        "{\"msgtype\":\"text\",\"text\":{\"content\":\"a \\\"b\\\"\\nc\"}}"
    );
}

#[test]
fn send_carries_payload_of_digest() {
    let mut b = NotificationBatcher::for_webhook(&webhook("http://hook", 60));
    match b.notify(notice(Severity::Success, "ok"), 0, "now") {
        Delivery::Send { digest, payload: p } => {
            assert_eq!(digest, "[repo] [now]\n[SUCCESS] ok\n");
            assert_eq!(p, "{\"msgtype\":\"text\",\"text\":{\"content\":\"[repo] [now]\\n[SUCCESS] ok\\n\"}}");
        }
        _ => panic!("expected a digest to send"),
    }
}

#[test]
fn delivery_finished_without_delivery_changes_nothing() {
    let mut b = NotificationBatcher::for_webhook(&webhook("http://hook", 60));
    b.delivery_finished(true);
    assert!(matches!(b.notify(notice(Severity::Info, "a"), 0, "t"), Delivery::Send { .. }));
}

#[test]
fn severity_labels() {
    assert_eq!(Severity::Info.label(), "INFO");
    assert_eq!(Severity::Success.label(), "SUCCESS");
    assert_eq!(Severity::Error.label(), "ERROR");
}

use deckshot::database::PersistentQueue;
use deckshot::retry::{record_delivery, retry_apply, retry_snapshot};
use deckshot::steam::GameScreenshot;
use deckshot::watcher::{is_screenshot_path, FsEvent, FsEventKind};

fn count(queue: &PersistentQueue, path: &str) -> usize {
    queue.list().iter().filter(|p| p.as_str() == path).count()
}

#[test]
fn delivered_screenshot_never_enters_queue() {
    let mut queue = PersistentQueue::open("/tmp/deckshot-test-queue-delivered.db").unwrap();
    let before = queue.list();
    record_delivery(&mut queue, "/x/730/screenshots/1.jpg", true).unwrap();
    assert_eq!(queue.list(), before);
}

#[test]
fn failed_screenshot_queued_exactly_once_more() {
    let mut queue = PersistentQueue::open("/tmp/deckshot-test-queue-failed.db").unwrap();
    let path = "/x/730/screenshots/2.jpg";
    let before = count(&queue, path);
    record_delivery(&mut queue, path, false).unwrap();
    assert_eq!(count(&queue, path), before + 1);
    // a second failure makes a defined duplicate, not an error
    record_delivery(&mut queue, path, false).unwrap();
    assert_eq!(count(&queue, path), before + 2);
    // clean the two entries up for the next run
    retry_apply(&mut queue, path, true).unwrap();
    retry_apply(&mut queue, path, true).unwrap();
    assert_eq!(count(&queue, path), before);
}

#[test]
fn empty_queue_retry_cycle_is_noop() {
    let queue = PersistentQueue::open("/tmp/deckshot-test-queue-empty.db").unwrap();
    let snapshot = retry_snapshot(&queue);
    assert!(snapshot.is_empty());
    // nothing to walk: the cycle attempts no delivery and removes nothing
}

#[test]
fn enqueued_then_redelivered_is_absent() {
    let mut queue = PersistentQueue::open("/tmp/deckshot-test-queue-roundtrip.db").unwrap();
    let path = "/x/730/screenshots/3.jpg";
    assert_eq!(count(&queue, path), 0);
    record_delivery(&mut queue, path, false).unwrap();
    assert_eq!(count(&queue, path), 1);
    let snapshot = retry_snapshot(&queue);
    assert!(snapshot.iter().any(|p| p == path));
    assert_eq!(retry_apply(&mut queue, path, true).unwrap(), true);
    assert_eq!(count(&queue, path), 0);
}

#[test]
fn still_failing_entry_stays_queued() {
    let mut queue = PersistentQueue::open("/tmp/deckshot-test-queue-failing.db").unwrap();
    let path = "/x/730/screenshots/4.jpg";
    let before = count(&queue, path);
    record_delivery(&mut queue, path, false).unwrap();
    assert_eq!(retry_apply(&mut queue, path, false).unwrap(), false);
    assert_eq!(count(&queue, path), before + 1);
    retry_apply(&mut queue, path, true).unwrap();
}

#[test]
fn queue_survives_reopening() {
    let path = "/x/730/screenshots/5.jpg";
    {
        let mut queue = PersistentQueue::open("/tmp/deckshot-test-queue-reopen.db").unwrap();
        let before = count(&queue, path);
        assert_eq!(before, 0);
        queue.enqueue(path).unwrap();
    }
    let mut queue = PersistentQueue::open("/tmp/deckshot-test-queue-reopen.db").unwrap();
    assert_eq!(count(&queue, path), 1);
    assert_eq!(queue.remove_value(path).unwrap(), true);
    assert_eq!(count(&queue, path), 0);
}

#[test]
fn remove_value_takes_oldest_occurrence_only() {
    let mut queue = PersistentQueue::open("/tmp/deckshot-test-queue-oldest.db").unwrap();
    let path = "/x/730/screenshots/6.jpg";
    let other = "/x/730/screenshots/7.jpg";
    queue.enqueue(path).unwrap();
    queue.enqueue(other).unwrap();
    queue.enqueue(path).unwrap();
    assert_eq!(count(&queue, path), 2);
    assert_eq!(queue.remove_value(path).unwrap(), true);
    assert_eq!(count(&queue, path), 1);
    assert_eq!(count(&queue, other), 1);
    assert_eq!(queue.remove_value(path).unwrap(), true);
    assert_eq!(queue.remove_value(other).unwrap(), true);
    assert_eq!(queue.remove_value(path).unwrap(), false);
}

#[test]
fn close_write_screenshot_event_reaches_queue_on_failure() {
    // the watcher reports a finished write under .../730/screenshots/
    let path = "/home/deck/.local/share/Steam/userdata/1/760/remote/730/screenshots/1.jpg";
    let event = FsEvent { kind: FsEventKind::CloseWrite, paths: vec![path.to_string()] };
    let accepted = event.accepted_paths();
    assert_eq!(accepted, vec![path.to_string()]);
    let screenshot = GameScreenshot::from_path(accepted[0].as_str());
    assert_eq!(screenshot.game_id, 730);
    // the delivery attempt hits a network failure
    let mut queue = PersistentQueue::open("/tmp/deckshot-test-queue-scenario.db").unwrap();
    let before = count(&queue, path);
    record_delivery(&mut queue, screenshot.path.as_str(), false).unwrap();
    assert_eq!(count(&queue, path), before + 1);
    retry_apply(&mut queue, path, true).unwrap();
}

#[test]
fn reopening_preserves_pending_entries_in_order() {
    let first = "/x/730/screenshots/a.jpg";
    let second = "/x/440/screenshots/b.jpg";
    let third = "/x/730/screenshots/c.jpg";
    {
        let mut queue = PersistentQueue::open("/tmp/deckshot-test-queue-order.db").unwrap();
        assert!(queue.list().is_empty());
        queue.enqueue(first).unwrap();
        queue.enqueue(second).unwrap();
        queue.enqueue(third).unwrap();
    }
    let mut queue = PersistentQueue::open("/tmp/deckshot-test-queue-order.db").unwrap();
    assert_eq!(queue.list(), vec![first.to_string(), second.to_string(), third.to_string()]);
    queue.remove_value(first).unwrap();
    queue.remove_value(second).unwrap();
    queue.remove_value(third).unwrap();
}

#[test]
fn save_queues_the_screenshot_path() {
    let mut queue = PersistentQueue::open("/tmp/deckshot-test-queue-save.db").unwrap();
    let screenshot = GameScreenshot::from_path("/x/730/screenshots/8.jpg");
    let before = count(&queue, screenshot.path.as_str());
    screenshot.save(&mut queue).unwrap();
    assert_eq!(count(&queue, screenshot.path.as_str()), before + 1);
    queue.remove_value(screenshot.path.as_str()).unwrap();
}

#[test]
fn thumbnail_event_is_rejected_before_delivery() {
    let event = FsEvent {
        kind: FsEventKind::CloseWrite,
        paths: vec!["/x/730/thumbnails/1.jpg".to_string()],
    };
    assert!(event.accepted_paths().is_empty());
}

#[test]
fn non_close_write_events_are_discarded() {
    let event = FsEvent {
        kind: FsEventKind::Other,
        paths: vec!["/x/730/screenshots/1.jpg".to_string()],
    };
    assert!(event.accepted_paths().is_empty());
}

#[test]
fn filter_takes_jpg_without_thumbnail_marker() {
    assert!(is_screenshot_path("/x/730/screenshots/1.jpg"));
    assert!(!is_screenshot_path("/x/730/screenshots/1.png"));
    assert!(!is_screenshot_path("/x/730/thumbnails/1.jpg"));
    assert!(!is_screenshot_path("/x/730/screenshots/thumbnail.jpg"));
}

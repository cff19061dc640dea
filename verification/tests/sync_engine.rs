use chat_core::channel::DispatchChannel;
use chat_core::channel::renderable;
use chat_core::msg::ReceivedMessage;
use chat_core::poller::Poller;
use chat_core::sweeper::Sweep;

fn remote_msg(content: &str, created_at: &str) -> ReceivedMessage {
    ReceivedMessage {
        content: content.to_string(),
        username: "alice".to_string(),
        created_at: created_at.to_string(),
        user_id: "4c4e9e3e-0b3a-4d5c-9f6a-1b2c3d4e5f60".to_string(),
        skip_polling: false,
    }
}

const T0_MS: i64 = 1577836800000; // 2020-01-01T00:00:00Z

#[test]
fn poller_forwards_batch_in_order_and_advances_cursor() {
    let mut poller = Poller::new();
    assert_eq!(poller.cursor(), None);
    let batch = vec![
        remote_msg("first", "2020-01-01T00:00:00Z"),
        remote_msg("second", "2020-01-01T00:00:01Z"),
        remote_msg("third", "2020-01-01T00:00:02Z"),
    ];
    let fwd = poller.tick(batch);
    assert_eq!(fwd.len(), 3);
    assert_eq!(fwd[0].content, "first");
    assert_eq!(fwd[1].content, "second");
    assert_eq!(fwd[2].content, "third");
    assert!(fwd.iter().all(|m| !m.skip_polling));
    assert_eq!(poller.cursor(), Some(T0_MS + 2000));

    let mut channel = DispatchChannel::new();
    for m in fwd {
        channel.enqueue(m);
    }
    let drained = channel.drain();
    assert_eq!(drained.len(), 3);
    assert_eq!(drained[0].created_at, "2020-01-01T00:00:00Z");
    assert_eq!(drained[1].created_at, "2020-01-01T00:00:01Z");
    assert_eq!(drained[2].created_at, "2020-01-01T00:00:02Z");
}

#[test]
fn poller_reverses_newest_first_window_to_chronological_order() {
    let mut poller = Poller::new();
    let window = vec![
        remote_msg("third", "2020-01-01T00:00:02Z"),
        remote_msg("second", "2020-01-01T00:00:01Z"),
        remote_msg("first", "2020-01-01T00:00:00Z"),
    ];
    let fwd = poller.tick_window(window);
    assert_eq!(fwd.len(), 3);
    assert_eq!(fwd[0].content, "first");
    assert_eq!(fwd[1].content, "second");
    assert_eq!(fwd[2].content, "third");
    assert_eq!(poller.cursor(), Some(T0_MS + 2000));
}

#[test]
fn poller_never_forwards_a_record_twice() {
    let mut poller = Poller::new();
    let first = vec![
        remote_msg("hello", "2020-01-01T00:00:00Z"),
        remote_msg("again", "2020-01-01T00:00:01Z"),
    ];
    let fwd1 = poller.tick(first);
    assert_eq!(fwd1.len(), 2);

    // The same window reappears on the next fetch: nothing is re-forwarded.
    let second = vec![
        remote_msg("hello", "2020-01-01T00:00:00Z"),
        remote_msg("again", "2020-01-01T00:00:01Z"),
    ];
    let fwd2 = poller.tick(second);
    assert_eq!(fwd2.len(), 0);
    assert_eq!(poller.cursor(), Some(T0_MS + 1000));

    // A genuinely newer record still comes through.
    let third = vec![
        remote_msg("again", "2020-01-01T00:00:01Z"),
        remote_msg("new", "2020-01-01T00:00:05Z"),
    ];
    let fwd3 = poller.tick(third);
    assert_eq!(fwd3.len(), 1);
    assert_eq!(fwd3[0].content, "new");
    assert_eq!(poller.cursor(), Some(T0_MS + 5000));
}

#[test]
fn poller_drops_unparseable_timestamps() {
    let mut poller = Poller::new();
    let batch = vec![
        remote_msg("bad", "not-a-timestamp"),
        remote_msg("good", "2020-01-01T00:00:01Z"),
    ];
    let fwd = poller.tick(batch);
    assert_eq!(fwd.len(), 1);
    assert_eq!(fwd[0].content, "good");
    assert_eq!(poller.cursor(), Some(T0_MS + 1000));

    let only_bad = vec![remote_msg("worse", "2020-99-99T99:99:99Z")];
    let fwd2 = poller.tick(only_bad);
    assert_eq!(fwd2.len(), 0);
    assert_eq!(poller.cursor(), Some(T0_MS + 1000));
}

#[test]
fn poller_cursor_never_rewinds() {
    let mut poller = Poller::new();
    let fwd1 = poller.tick(vec![remote_msg("late", "2020-01-01T00:00:10Z")]);
    assert_eq!(fwd1.len(), 1);
    assert_eq!(poller.cursor(), Some(T0_MS + 10000));

    // An out-of-order window of strictly older records forwards nothing and
    // leaves the cursor where it stood.
    let fwd2 = poller.tick(vec![
        remote_msg("early", "2020-01-01T00:00:03Z"),
        remote_msg("earlier", "2020-01-01T00:00:01Z"),
    ]);
    assert_eq!(fwd2.len(), 0);
    assert_eq!(poller.cursor(), Some(T0_MS + 10000));
}

#[test]
fn channel_is_fifo_and_drain_empties() {
    let mut channel = DispatchChannel::new();
    assert_eq!(channel.len(), 0);
    assert_eq!(channel.drain().len(), 0); // empty drain is a no-op

    channel.enqueue(remote_msg("a", "2020-01-01T00:00:00Z"));
    channel.enqueue(remote_msg("b", "2020-01-01T00:00:01Z"));
    channel.enqueue(remote_msg("c", "2020-01-01T00:00:02Z"));
    assert_eq!(channel.len(), 3);

    let drained = channel.drain();
    assert_eq!(drained.len(), 3);
    assert_eq!(drained[0].content, "a");
    assert_eq!(drained[1].content, "b");
    assert_eq!(drained[2].content, "c");
    assert_eq!(channel.len(), 0);
    assert_eq!(channel.drain().len(), 0);
}

#[test]
fn renderable_excludes_locally_originated_entries() {
    let mut own = remote_msg("mine", "2020-01-01T00:00:01Z");
    own.skip_polling = true;
    let batch = vec![
        remote_msg("polled", "2020-01-01T00:00:00Z"),
        own,
        remote_msg("other", "2020-01-01T00:00:02Z"),
    ];
    let shown = renderable(batch);
    assert_eq!(shown.len(), 2);
    assert_eq!(shown[0].content, "polled");
    assert_eq!(shown[1].content, "other");
}

fn enumerated_ids(n: usize) -> Vec<String> {
    (0..n).map(|i| format!("id-{}", i)).collect()
}

#[test]
fn sweeper_splits_250_ids_into_batches_of_100_100_50() {
    let mut sweep = Sweep::new(enumerated_ids(250));
    assert_eq!(sweep.total_batches(), 3);

    let b1 = sweep.next_batch().unwrap();
    assert_eq!(b1.len(), 100);
    assert_eq!(b1[0], "id-0");
    assert_eq!(b1[99], "id-99");

    let b2 = sweep.next_batch().unwrap();
    assert_eq!(b2.len(), 100);
    assert_eq!(b2[0], "id-100");
    assert_eq!(b2[99], "id-199");

    let b3 = sweep.next_batch().unwrap();
    assert_eq!(b3.len(), 50);
    assert_eq!(b3[0], "id-200");
    assert_eq!(b3[49], "id-249");

    assert!(sweep.next_batch().is_none());
}

#[test]
fn sweeper_aborts_after_failed_batch_leaving_rest_undeleted() {
    let mut sweep = Sweep::new(enumerated_ids(250));
    assert_eq!(sweep.next_batch().unwrap().len(), 100);
    assert_eq!(sweep.next_batch().unwrap().len(), 100);

    // Batch 2 failed: the sweep aborts and batch 3's ids stay undeleted
    // until the next sweep re-enumerates them.
    sweep.batch_failed();
    assert!(sweep.next_batch().is_none());
    assert_eq!(sweep.remaining(), 50);

    let mut next_sweep = Sweep::new(enumerated_ids(50));
    assert_eq!(next_sweep.total_batches(), 1);
    assert_eq!(next_sweep.next_batch().unwrap().len(), 50);
    assert!(next_sweep.next_batch().is_none());
}

#[test]
fn sweeper_with_no_ids_issues_no_batch() {
    let mut sweep = Sweep::new(Vec::new());
    assert_eq!(sweep.total_batches(), 0);
    assert!(sweep.next_batch().is_none());
    assert_eq!(sweep.remaining(), 0);
}

use feed_relay::detect::{fingerprint_of, is_new, LastMessage};
use feed_relay::errors::{
    DeliveryError, FetchError, HistoryLookupError, ParseError, TickError,
};
use feed_relay::feed::parse_feed;
use feed_relay::item::{latest_item, normalize_item, FeedItem, RawItem};
use feed_relay::render::{
    footer_line, render, thumbnail_source, MessagePayload, RenderMode, ACCENT_COLOR,
};
use feed_relay::schedule::{JobState, Scheduler};
use feed_relay::tick::{conclude_send, evaluate_tick, run_tick, TickOutcome};

fn raw(title: Option<&str>, description: Option<&str>, link: Option<&str>, author: Option<&str>) -> RawItem {
    RawItem {
        title: title.map(String::from),
        description: description.map(String::from),
        link: link.map(String::from),
        author: author.map(String::from),
    }
}

fn last_plain(content: &str) -> LastMessage {
    LastMessage { content: String::from(content), embed_title: None }
}

fn last_rich(title: &str) -> LastMessage {
    LastMessage { content: String::new(), embed_title: Some(String::from(title)) }
}

/// What the channel remembers of a delivered payload, as the next tick's
/// history query would hand it back.
fn stored(payload: &MessagePayload) -> LastMessage {
    match payload {
        MessagePayload::Plain { body } => last_plain(body),
        MessagePayload::Rich { title, .. } => last_rich(title),
    }
}

const FEED_XML: &str = "<rss version=\"2.0\"><channel>\
<title>News</title><link>https://x</link><description>d</description>\
<item><title>T1</title><link>https://x/1</link><description>D1</description>\
<author>A1</author></item>\
<item><title>T2</title><link>https://x/2</link><description>D2</description></item>\
</channel></rss>";

const EMPTY_FEED_XML: &str = "<rss version=\"2.0\"><channel>\
<title>News</title><link>https://x</link><description>d</description>\
</channel></rss>";

#[test]
fn scenario_duplicate_link_means_no_send() {
    let items = vec![raw(None, None, Some("https://x/1"), None)];
    let history = Ok(Some(last_plain("https://x/1")));
    let outcome = evaluate_tick(&items, &history, RenderMode::Plain);
    assert!(matches!(outcome, TickOutcome::Duplicate));
}

#[test]
fn scenario_new_link_means_one_send() {
    let items = vec![raw(None, None, Some("https://x/2"), None)];
    let history = Ok(Some(last_plain("https://x/1")));
    let outcome = evaluate_tick(&items, &history, RenderMode::Plain);
    match outcome {
        TickOutcome::Announce(MessagePayload::Plain { body }) => {
            assert_eq!(body, "https://x/2");
        }
        other => panic!("expected a plain announcement, got {:?}", other),
    }
}

#[test]
fn scenario_fetch_timeout_fails_tick_and_job_rearms() {
    let fetch: Result<Vec<u8>, FetchError> = Err(FetchError::Timeout);
    let history = Ok(Some(last_plain("https://x/1")));
    let outcome = run_tick(&fetch, &history, RenderMode::Plain);
    assert!(matches!(
        outcome,
        TickOutcome::Failed(TickError::Fetch(FetchError::Timeout))
    ));

    // The failed tick re-arms the job: the next firing can begin a new tick.
    let mut job = Scheduler::new(60);
    job.arm();
    job.begin_tick();
    job.finish_tick(&outcome);
    assert_eq!(job.state, JobState::Armed);
    assert_eq!(job.announcements, 0);
    job.begin_tick();
    assert_eq!(job.state, JobState::Running);
}

#[test]
fn scenario_rich_card_from_full_item() {
    let items = vec![raw(Some("T"), Some("D"), Some("L"), Some("A"))];
    let history = Ok(Some(last_rich("Old")));
    let outcome = evaluate_tick(&items, &history, RenderMode::Rich);
    match outcome {
        TickOutcome::Announce(MessagePayload::Rich { title, body, url, thumbnail, color, footer }) => {
            assert_eq!(title, "T");
            assert_eq!(body, "D");
            assert_eq!(url, "L");
            assert_eq!(footer, "By A");
            assert_eq!(thumbnail, thumbnail_source());
            assert_eq!(color, ACCENT_COLOR);
        }
        other => panic!("expected a rich announcement, got {:?}", other),
    }
}

#[test]
fn missing_author_renders_by_unknown() {
    let item = FeedItem {
        title: String::from("T"),
        description: String::from("D"),
        link: String::from("L"),
        author: None,
    };
    match render(&item, RenderMode::Rich) {
        MessagePayload::Rich { footer, .. } => assert_eq!(footer, "By Unknown"),
        other => panic!("expected a rich payload, got {:?}", other),
    }
    assert_eq!(footer_line(&None), "By Unknown");
}

#[test]
fn unchanged_feed_second_tick_is_duplicate() {
    let items = vec![raw(Some("T"), Some("D"), Some("https://x/9"), None)];

    // First tick: the channel last shows an older announcement.
    let history1 = Ok(Some(last_plain("https://x/8")));
    let first = evaluate_tick(&items, &history1, RenderMode::Plain);
    let payload = match first {
        TickOutcome::Announce(p) => p,
        other => panic!("expected an announcement, got {:?}", other),
    };

    // Second tick: the feed is unchanged and the channel now ends with the
    // announcement the first tick delivered.
    let history2 = Ok(Some(stored(&payload)));
    let second = evaluate_tick(&items, &history2, RenderMode::Plain);
    assert!(matches!(second, TickOutcome::Duplicate));
}

#[test]
fn unchanged_feed_second_tick_is_duplicate_rich() {
    let items = vec![raw(Some("T"), Some("D"), Some("https://x/9"), Some("A"))];
    let history1 = Ok(Some(last_rich("Old")));
    let first = evaluate_tick(&items, &history1, RenderMode::Rich);
    let payload = match first {
        TickOutcome::Announce(p) => p,
        other => panic!("expected an announcement, got {:?}", other),
    };
    let history2 = Ok(Some(stored(&payload)));
    let second = evaluate_tick(&items, &history2, RenderMode::Rich);
    assert!(matches!(second, TickOutcome::Duplicate));
}

#[test]
fn only_newest_item_is_considered() {
    let a = raw(Some("A"), None, Some("https://x/a"), None);
    let with_tail = vec![
        a.clone(),
        raw(Some("B"), None, Some("https://x/1"), None),
        raw(None, None, None, None),
    ];
    let alone = vec![a];
    let history = Ok(Some(last_plain("https://x/1")));

    let one = evaluate_tick(&with_tail, &history, RenderMode::Plain);
    let two = evaluate_tick(&alone, &history, RenderMode::Plain);

    // B matches the fingerprint and C has no link, yet neither matters:
    // both feeds announce A.
    match (one, two) {
        (
            TickOutcome::Announce(MessagePayload::Plain { body: b1 }),
            TickOutcome::Announce(MessagePayload::Plain { body: b2 }),
        ) => {
            assert_eq!(b1, "https://x/a");
            assert_eq!(b2, "https://x/a");
        }
        other => panic!("expected two plain announcements, got {:?}", other),
    }
}

#[test]
fn empty_channel_treats_item_as_new() {
    let items = vec![raw(None, None, Some("https://x/3"), None)];
    let history = Ok(None);
    let outcome = evaluate_tick(&items, &history, RenderMode::Plain);
    assert!(matches!(outcome, TickOutcome::Announce(_)));
}

#[test]
fn last_message_without_card_treats_rich_item_as_new() {
    let items = vec![raw(Some("T"), None, Some("https://x/3"), None)];
    let history = Ok(Some(last_plain("just chatter")));
    let outcome = evaluate_tick(&items, &history, RenderMode::Rich);
    assert!(matches!(outcome, TickOutcome::Announce(_)));
}

#[test]
fn unreadable_history_fails_tick() {
    let items = vec![raw(None, None, Some("https://x/3"), None)];
    let history = Err(HistoryLookupError::Unreadable);
    let outcome = evaluate_tick(&items, &history, RenderMode::Plain);
    assert!(matches!(
        outcome,
        TickOutcome::Failed(TickError::History(HistoryLookupError::Unreadable))
    ));
}

#[test]
fn empty_feed_fails_tick() {
    let items: Vec<RawItem> = Vec::new();
    let history = Ok(None);
    let outcome = evaluate_tick(&items, &history, RenderMode::Plain);
    assert!(matches!(
        outcome,
        TickOutcome::Failed(TickError::Parse(ParseError::EmptyFeed))
    ));
}

#[test]
fn newest_item_without_link_fails_tick() {
    let items = vec![
        raw(Some("T"), Some("D"), None, None),
        raw(None, None, Some("https://x/1"), None),
    ];
    let history = Ok(None);
    let outcome = evaluate_tick(&items, &history, RenderMode::Plain);
    assert!(matches!(
        outcome,
        TickOutcome::Failed(TickError::Parse(ParseError::MissingLink))
    ));
}

#[test]
fn malformed_document_fails_tick() {
    let fetch: Result<Vec<u8>, FetchError> = Ok(b"not a feed at all".to_vec());
    let history = Ok(None);
    let outcome = run_tick(&fetch, &history, RenderMode::Plain);
    assert!(matches!(
        outcome,
        TickOutcome::Failed(TickError::Parse(ParseError::Malformed))
    ));
}

#[test]
fn non_success_status_fails_tick() {
    let fetch: Result<Vec<u8>, FetchError> = Err(FetchError::HttpStatus(503));
    let history = Ok(None);
    let outcome = run_tick(&fetch, &history, RenderMode::Plain);
    assert!(matches!(
        outcome,
        TickOutcome::Failed(TickError::Fetch(FetchError::HttpStatus(503)))
    ));
}

#[test]
fn connection_failure_fails_tick() {
    let fetch: Result<Vec<u8>, FetchError> = Err(FetchError::Connection);
    let history = Ok(None);
    let outcome = run_tick(&fetch, &history, RenderMode::Plain);
    assert!(matches!(
        outcome,
        TickOutcome::Failed(TickError::Fetch(FetchError::Connection))
    ));
}

#[test]
fn whole_tick_announces_newest_parsed_item() {
    let fetch: Result<Vec<u8>, FetchError> = Ok(FEED_XML.as_bytes().to_vec());
    let history = Ok(Some(last_plain("https://x/0")));
    let outcome = run_tick(&fetch, &history, RenderMode::Plain);
    match outcome {
        TickOutcome::Announce(MessagePayload::Plain { body }) => {
            assert_eq!(body, "https://x/1");
        }
        other => panic!("expected a plain announcement, got {:?}", other),
    }
}

#[test]
fn whole_tick_suppresses_already_announced_item() {
    let fetch: Result<Vec<u8>, FetchError> = Ok(FEED_XML.as_bytes().to_vec());
    let history = Ok(Some(last_plain("https://x/1")));
    let outcome = run_tick(&fetch, &history, RenderMode::Plain);
    assert!(matches!(outcome, TickOutcome::Duplicate));
}

#[test]
fn parse_feed_reads_items_in_document_order() {
    let items = parse_feed(FEED_XML.as_bytes()).expect("the document is a well-formed feed");
    assert_eq!(items.len(), 2);
    assert_eq!(items[0].title.as_deref(), Some("T1"));
    assert_eq!(items[0].link.as_deref(), Some("https://x/1"));
    assert_eq!(items[0].description.as_deref(), Some("D1"));
    assert_eq!(items[0].author.as_deref(), Some("A1"));
    assert_eq!(items[1].title.as_deref(), Some("T2"));
    assert_eq!(items[1].author, None);
}

#[test]
fn parse_feed_rejects_malformed_bytes() {
    assert!(matches!(parse_feed(b"<html></html>"), Err(ParseError::Malformed)));
}

#[test]
fn parse_feed_accepts_feed_without_items() {
    let items = parse_feed(EMPTY_FEED_XML.as_bytes()).expect("well-formed feed");
    assert_eq!(items.len(), 0);
    assert!(matches!(latest_item(&items), Err(ParseError::EmptyFeed)));
}

#[test]
fn normalization_fills_missing_fields() {
    let item = normalize_item(&raw(None, None, Some("https://x/1"), None))
        .expect("an item with a link normalizes");
    assert_eq!(item.title, "");
    assert_eq!(item.description, "");
    assert_eq!(item.link, "https://x/1");
    assert_eq!(item.author, None);

    assert!(normalize_item(&raw(Some("T"), None, None, None)).is_none());
}

#[test]
fn fingerprints_follow_the_mode() {
    let msg = LastMessage {
        content: String::from("body"),
        embed_title: Some(String::from("card")),
    };
    assert_eq!(fingerprint_of(&msg, RenderMode::Plain).as_deref(), Some("body"));
    assert_eq!(fingerprint_of(&msg, RenderMode::Rich).as_deref(), Some("card"));
    assert_eq!(fingerprint_of(&last_plain("x"), RenderMode::Rich), None);
}

#[test]
fn novelty_comparison_is_exact() {
    let item = FeedItem {
        title: String::from("T"),
        description: String::new(),
        link: String::from("https://x/1"),
        author: None,
    };
    assert!(!is_new(&item, &Some(String::from("https://x/1")), RenderMode::Plain));
    assert!(is_new(&item, &Some(String::from("https://x/2")), RenderMode::Plain));
    assert!(is_new(&item, &None, RenderMode::Plain));
    assert!(!is_new(&item, &Some(String::from("T")), RenderMode::Rich));
    assert!(is_new(&item, &Some(String::from("https://x/1")), RenderMode::Rich));
}

#[test]
fn delivery_rejection_is_surfaced_not_retried() {
    assert_eq!(conclude_send(&Ok(())), None);
    assert_eq!(
        conclude_send(&Err(DeliveryError::Rejected)),
        Some(TickError::Delivery(DeliveryError::Rejected))
    );
}

#[test]
fn scheduler_counts_announcements_and_never_stops() {
    let mut job = Scheduler::new(60);
    assert_eq!(job.state, JobState::Idle);
    assert_eq!(job.period_secs, 60);

    job.arm();
    assert_eq!(job.state, JobState::Armed);

    // A tick that announces.
    job.begin_tick();
    let announced = TickOutcome::Announce(MessagePayload::Plain {
        body: String::from("https://x/1"),
    });
    job.finish_tick(&announced);
    assert_eq!(job.state, JobState::Armed);
    assert_eq!(job.ticks_completed, 1);
    assert_eq!(job.announcements, 1);

    // A tick that found nothing new.
    job.begin_tick();
    job.finish_tick(&TickOutcome::Duplicate);
    assert_eq!(job.state, JobState::Armed);
    assert_eq!(job.announcements, 1);

    // A tick that failed: the job is still armed afterwards.
    job.begin_tick();
    job.finish_tick(&TickOutcome::Failed(TickError::Fetch(FetchError::Timeout)));
    assert_eq!(job.state, JobState::Armed);
    assert_eq!(job.ticks_started, 3);
    assert_eq!(job.ticks_completed, 3);
    assert_eq!(job.announcements, 1);
}

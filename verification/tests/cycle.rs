use feed_courier::article::Article;
use feed_courier::cycle::{
    begin_cycle, scan_articles, select_feed, start_cycle, step, Action, Candidate, CycleState,
    Event, Failure, Outcome, POLL_INTERVAL_SECS, PROCESSING_PAUSE_SECS,
};

fn article(link: Option<&str>, title: Option<&str>) -> Article {
    Article { link: link.map(String::from), title: title.map(String::from), content: None }
}

fn candidate(link: &str, title: Option<&str>) -> Candidate {
    Candidate { link: link.to_string(), title: title.map(String::from) }
}

fn rest(outcome: Outcome) -> (CycleState, Action) {
    (CycleState::Idle, Action::Rest { outcome, seconds: 6 })
}

const FEED: &str = "<?xml version=\"1.0\" encoding=\"UTF-8\"?>\
<rss version=\"2.0\"><channel><title>Feed</title><link>https://example.com/</link>\
<description>Example</description>\
<item><title>No link here</title></item>\
<item><title>First</title><link>https://example.com/1</link></item>\
<item><link>https://example.com/2</link></item>\
</channel></rss>";

#[test]
fn intervals_are_fixed() {
    assert_eq!(POLL_INTERVAL_SECS, 6);
    assert_eq!(PROCESSING_PAUSE_SECS, 5);
}

#[test]
fn begin_without_feed_rests_at_once() {
    assert_eq!(begin_cycle(None), rest(Outcome::NoFeeds));
}

#[test]
fn begin_with_feed_asks_for_its_document() {
    assert_eq!(
        begin_cycle(Some("https://a.example/rss".to_string())),
        (
            CycleState::Fetching { feed: "https://a.example/rss".to_string() },
            Action::Fetch { url: "https://a.example/rss".to_string() },
        )
    );
}

#[test]
fn select_from_empty_directory_gives_nothing() {
    assert_eq!(select_feed(&Vec::new(), &mut rand::thread_rng()), None);
}

#[test]
fn select_gives_one_of_the_feeds() {
    let feeds = vec!["a".to_string(), "b".to_string(), "c".to_string()];
    for _ in 0..50 {
        let selected = select_feed(&feeds, &mut rand::thread_rng()).unwrap();
        assert!(feeds.contains(&selected));
    }
    let single = vec!["only".to_string()];
    assert_eq!(select_feed(&single, &mut rand::thread_rng()), Some("only".to_string()));
}

#[test]
fn select_reaches_every_feed() {
    let feeds = vec!["a".to_string(), "b".to_string()];
    let mut seen_a = false;
    let mut seen_b = false;
    for _ in 0..500 {
        match select_feed(&feeds, &mut rand::thread_rng()).unwrap().as_str() {
            "a" => seen_a = true,
            _ => seen_b = true,
        }
    }
    assert!(seen_a && seen_b);
}

#[test]
fn start_with_empty_directory_skips_the_cycle() {
    assert_eq!(start_cycle(&Vec::new(), &mut rand::thread_rng()), rest(Outcome::NoFeeds));
}

#[test]
fn start_fetches_one_of_the_feeds() {
    let feeds = vec!["a".to_string(), "b".to_string()];
    for _ in 0..20 {
        match start_cycle(&feeds, &mut rand::thread_rng()) {
            (CycleState::Fetching { feed }, Action::Fetch { url }) => {
                assert_eq!(feed, url);
                assert!(feeds.contains(&url));
            }
            other => panic!("unexpected start: {:?}", other),
        }
    }
}

#[test]
fn scan_passes_over_articles_without_link() {
    let articles = vec![
        article(None, Some("no link")),
        article(None, None),
        article(Some("L3"), Some("third")),
        article(Some("L4"), None),
    ];
    let (state, action) = scan_articles(articles.clone(), 0);
    assert_eq!(action, Action::CheckSeen { link: "L3".to_string() });
    assert_eq!(
        state,
        CycleState::Scanning { candidate: candidate("L3", Some("third")), articles, next: 3 }
    );
}

#[test]
fn scan_of_unlinked_articles_finds_nothing_new() {
    let articles = vec![article(None, Some("a")), article(None, Some("b"))];
    assert_eq!(scan_articles(articles, 0), rest(Outcome::NothingNew));
    assert_eq!(scan_articles(Vec::new(), 0), rest(Outcome::NothingNew));
}

#[test]
fn scan_starts_where_it_is_told() {
    let articles = vec![article(Some("L1"), None), article(Some("L2"), None)];
    let (_, action) = scan_articles(articles.clone(), 1);
    assert_eq!(action, Action::CheckSeen { link: "L2".to_string() });
    assert_eq!(scan_articles(articles.clone(), 2), rest(Outcome::NothingNew));
    assert_eq!(scan_articles(articles, 7), rest(Outcome::NothingNew));
}

#[test]
fn fetched_document_is_read_and_scanned() {
    let state = CycleState::Fetching { feed: "https://example.com/feed".to_string() };
    let (state, action) = step(state, Event::Fetched { document: FEED.as_bytes().to_vec() });
    assert_eq!(action, Action::CheckSeen { link: "https://example.com/1".to_string() });
    match state {
        CycleState::Scanning { candidate: found, articles, next } => {
            assert_eq!(found, candidate("https://example.com/1", Some("First")));
            assert_eq!(next, 2);
            assert_eq!(
                articles,
                vec![
                    article(None, Some("No link here")),
                    article(Some("https://example.com/1"), Some("First")),
                    article(Some("https://example.com/2"), None),
                ]
            );
        }
        other => panic!("unexpected state: {:?}", other),
    }
}

#[test]
fn fetched_document_that_is_no_feed_ends_the_cycle() {
    let state = CycleState::Fetching { feed: "f".to_string() };
    assert_eq!(
        step(state, Event::Fetched { document: b"<html><body>not a feed</body></html>".to_vec() }),
        rest(Outcome::Failed(Failure::Parse))
    );
    let state = CycleState::Fetching { feed: "f".to_string() };
    assert_eq!(
        step(state, Event::Fetched { document: Vec::new() }),
        rest(Outcome::Failed(Failure::Parse))
    );
}

#[test]
fn fetched_feed_without_items_has_nothing_new() {
    let document = "<rss version=\"2.0\"><channel><title>T</title></channel></rss>";
    let state = CycleState::Fetching { feed: "f".to_string() };
    assert_eq!(
        step(state, Event::Fetched { document: document.as_bytes().to_vec() }),
        rest(Outcome::NothingNew)
    );
}

#[test]
fn failed_fetch_ends_the_cycle() {
    let state = CycleState::Fetching { feed: "f".to_string() };
    assert_eq!(step(state, Event::FetchFailed), rest(Outcome::Failed(Failure::Fetch)));
}

#[test]
fn unrecorded_candidate_is_recorded_first() {
    let state = CycleState::Scanning {
        candidate: candidate("L1", Some("T")),
        articles: vec![article(Some("L1"), Some("T")), article(Some("L2"), None)],
        next: 1,
    };
    assert_eq!(
        step(state, Event::Counted { count: 0 }),
        (
            CycleState::Recording { candidate: candidate("L1", Some("T")) },
            Action::Record { link: "L1".to_string() },
        )
    );
}

#[test]
fn recorded_candidate_is_passed_over() {
    let articles = vec![
        article(Some("L1"), Some("T")),
        article(None, Some("unlinked")),
        article(Some("L3"), None),
    ];
    let state = CycleState::Scanning {
        candidate: candidate("L1", Some("T")),
        articles: articles.clone(),
        next: 1,
    };
    assert_eq!(
        step(state, Event::Counted { count: 1 }),
        (
            CycleState::Scanning { candidate: candidate("L3", None), articles, next: 3 },
            Action::CheckSeen { link: "L3".to_string() },
        )
    );
}

#[test]
fn any_count_but_zero_means_recorded() {
    for count in [2, 17, i64::MAX, -1, i64::MIN] {
        let state = CycleState::Scanning {
            candidate: candidate("L1", None),
            articles: vec![article(Some("L1"), None)],
            next: 1,
        };
        assert_eq!(step(state, Event::Counted { count }), rest(Outcome::NothingNew));
    }
}

#[test]
fn failed_check_ends_the_cycle() {
    let state = CycleState::Scanning {
        candidate: candidate("L1", None),
        articles: vec![article(Some("L1"), None), article(Some("L2"), None)],
        next: 1,
    };
    assert_eq!(step(state, Event::StoreFailed), rest(Outcome::Failed(Failure::Store)));
}

#[test]
fn confirmed_insertion_is_followed_by_the_pause() {
    let state = CycleState::Recording { candidate: candidate("L1", None) };
    assert_eq!(
        step(state, Event::Recorded),
        (CycleState::Pausing { candidate: candidate("L1", None) }, Action::Pause { seconds: 5 })
    );
}

#[test]
fn refused_insertion_ends_the_cycle() {
    let state = CycleState::Recording { candidate: candidate("L1", None) };
    assert_eq!(step(state, Event::StoreFailed), rest(Outcome::Failed(Failure::Store)));
}

#[test]
fn summary_is_asked_for_by_link_after_the_pause() {
    let state = CycleState::Pausing { candidate: candidate("L1", Some("T")) };
    assert_eq!(
        step(state, Event::PauseElapsed),
        (
            CycleState::Enriching { candidate: candidate("L1", Some("T")) },
            Action::Enrich { reference: "L1".to_string() },
        )
    );
}

#[test]
fn summary_is_delivered_with_title_and_link() {
    let state = CycleState::Enriching { candidate: candidate("https://example.com/1", Some("First")) };
    assert_eq!(
        step(state, Event::Enriched { summary: "Summary.".to_string() }),
        (
            CycleState::Delivering { candidate: candidate("https://example.com/1", Some("First")) },
            Action::Deliver {
                message: "<b># First</b> | <a href=\"https://example.com/1\">источник</a>\n\nSummary.\n\n<a href=\"https://t.me/Tech_Chronicle/\">Tech Chronicle</a>".to_string(),
            },
        )
    );
}

#[test]
fn missing_title_is_replaced_by_the_placeholder() {
    let state = CycleState::Enriching { candidate: candidate("L", None) };
    let (_, action) = step(state, Event::Enriched { summary: "S".to_string() });
    assert_eq!(
        action,
        Action::Deliver {
            message: "<b># No Title</b> | <a href=\"L\">источник</a>\n\nS\n\n<a href=\"https://t.me/Tech_Chronicle/\">Tech Chronicle</a>".to_string(),
        }
    );
}

#[test]
fn failed_summary_ends_the_cycle() {
    let state = CycleState::Enriching { candidate: candidate("L", None) };
    assert_eq!(step(state, Event::EnrichmentFailed), rest(Outcome::Failed(Failure::Enrichment)));
}

#[test]
fn delivery_ends_the_cycle_either_way() {
    let state = CycleState::Delivering { candidate: candidate("L", None) };
    assert_eq!(step(state, Event::Delivered), rest(Outcome::Delivered));
    let state = CycleState::Delivering { candidate: candidate("L", None) };
    assert_eq!(step(state, Event::DeliveryFailed), rest(Outcome::Failed(Failure::Delivery)));
}

#[test]
fn events_out_of_turn_end_the_cycle() {
    let events = || {
        vec![
            Event::Fetched { document: Vec::new() },
            Event::FetchFailed,
            Event::Counted { count: 0 },
            Event::Recorded,
            Event::StoreFailed,
            Event::PauseElapsed,
            Event::Enriched { summary: "S".to_string() },
            Event::EnrichmentFailed,
            Event::Delivered,
            Event::DeliveryFailed,
        ]
    };
    for event in events() {
        assert_eq!(step(CycleState::Idle, event), rest(Outcome::OutOfTurn));
    }
    for event in events() {
        let awaited = matches!(event, Event::PauseElapsed);
        let state = CycleState::Pausing { candidate: candidate("L", None) };
        let (next, _) = step(state, event);
        assert_eq!(matches!(next, CycleState::Enriching { .. }), awaited);
        assert_eq!(matches!(next, CycleState::Idle), !awaited);
    }
    let state = CycleState::Recording { candidate: candidate("L", None) };
    assert_eq!(step(state, Event::Delivered), rest(Outcome::OutOfTurn));
    let state = CycleState::Fetching { feed: "f".to_string() };
    assert_eq!(step(state, Event::Counted { count: 0 }), rest(Outcome::OutOfTurn));
    let state = CycleState::Delivering { candidate: candidate("L", None) };
    assert_eq!(step(state, Event::Enriched { summary: "S".to_string() }), rest(Outcome::OutOfTurn));
}

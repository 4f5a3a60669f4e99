use githubstats::github::{
    Action, Event, Fetch, FetchError, FetchTarget, Phase, PER_PAGE, RATE_LIMIT_MS, STATUS_OK,
};
use githubstats::StatType;

fn list_target() -> FetchTarget {
    FetchTarget::RepoList { owner: String::from("octo") }
}

fn response(link: Option<&str>, body: &str) -> Event<u32> {
    Event::Response { status: STATUS_OK, link: link.map(String::from), body: String::from(body) }
}

/// Runs a listing against pages served from the network; records the actions.
fn run_pages(pages: &[(Option<&str>, &str, Vec<u32>)]) -> (Fetch<u32>, Vec<Action>) {
    let (mut f, first) = Fetch::<u32>::start(list_target());
    let mut actions = vec![first];
    for (link, body, items) in pages {
        actions.push(f.step(Event::Missing));
        actions.push(f.step(Event::Slept));
        actions.push(f.step(response(*link, body)));
        actions.push(f.step(Event::Stored));
        actions.push(f.step(Event::Decoded { items: items.clone() }));
    }
    (f, actions)
}

#[test]
fn three_pages_are_fetched_in_order() {
    let next = "<https://api.github.com/x?page=9>; rel=\"next\"";
    let (f, actions) = run_pages(&[
        (Some(next), "[1]", vec![1, 2]),
        (Some(next), "[2]", vec![3]),
        (None, "[3]", vec![4, 5]),
    ]);
    let gets: Vec<&String> = actions
        .iter()
        .filter_map(|a| match a {
            Action::Get { url } => Some(url),
            _ => None,
        })
        .collect();
    assert_eq!(gets.len(), 3);
    for (i, url) in gets.iter().enumerate() {
        let want = format!(
            "https://api.github.com/users/octo/repos?type=all&sort=created&direction=asc&per_page={}&page={}",
            PER_PAGE,
            i + 1
        );
        assert_eq!(**url, want);
    }
    assert!(matches!(actions.last(), Some(Action::Finish)));
    assert!(f.phase == Phase::Done);
    assert_eq!(f.items, vec![1, 2, 3, 4, 5]);
    assert_eq!(f.page, 3);
}

#[test]
fn every_request_follows_a_pause() {
    let next = "<https://x.test/?page=2>; rel=\"next\"";
    let (_, actions) = run_pages(&[(Some(next), "[1]", vec![1]), (None, "[2]", vec![2])]);
    assert!(!matches!(actions[0], Action::Get { .. }));
    for i in 0..actions.len() {
        if let Action::Get { .. } = actions[i] {
            assert!(i > 0);
            assert!(matches!(actions[i - 1], Action::Sleep { millis } if millis == RATE_LIMIT_MS));
        }
    }
    assert_eq!(RATE_LIMIT_MS, 300);
}

#[test]
fn first_action_inspects_the_first_page_entry() {
    let (_, a) = Fetch::<u32>::start(list_target());
    match a {
        Action::Inspect { dir, path } => {
            assert_eq!(dir, "cache/repos/octo");
            assert_eq!(path, "cache/repos/octo/_RESOURCES_p1.json");
        }
        _ => panic!("expected an inspection"),
    }
}

#[test]
fn fresh_entry_is_read_without_request() {
    let (mut f, _) = Fetch::<u32>::start(list_target());
    match f.step(Event::Present { age_secs: 10 }) {
        Action::Read { path } => assert_eq!(path, "cache/repos/octo/_RESOURCES_p1.json"),
        _ => panic!("expected a read"),
    }
    match f.step(Event::Loaded { body: String::from("[7]") }) {
        Action::Decode { body } => assert_eq!(body, "[7]"),
        _ => panic!("expected a decode"),
    }
    // A short cached page is the last one of the list.
    assert!(matches!(f.step(Event::Decoded { items: vec![7] }), Action::Finish));
    assert_eq!(f.items, vec![7]);
}

#[test]
fn full_cached_page_is_followed_by_the_next() {
    let (mut f, _) = Fetch::<u32>::start(list_target());
    f.step(Event::Present { age_secs: 10 });
    f.step(Event::Loaded { body: String::from("[...]") });
    let full: Vec<u32> = (0..PER_PAGE as u32).collect();
    match f.step(Event::Decoded { items: full.clone() }) {
        Action::Inspect { path, .. } => assert_eq!(path, "cache/repos/octo/_RESOURCES_p2.json"),
        _ => panic!("expected the next page"),
    }
    assert_eq!(f.page, 2);
    // Page 2 comes from the network; its missing `next` link ends the list.
    f.step(Event::Missing);
    match f.step(Event::Slept) {
        Action::Get { url } => assert!(url.ends_with("&page=2")),
        _ => panic!("expected a request"),
    }
    f.step(response(None, "[1]"));
    f.step(Event::Stored);
    assert!(matches!(f.step(Event::Decoded { items: vec![1000] }), Action::Finish));
    assert_eq!(f.items.len(), PER_PAGE as usize + 1);
    assert_eq!(f.items[0], 0);
    assert_eq!(f.items[PER_PAGE as usize], 1000);
}

#[test]
fn full_cached_traffic_payload_ends_the_fetch() {
    let target = FetchTarget::Traffic {
        owner: String::from("octo"),
        repo: String::from("tool"),
        kind: StatType::Clones,
    };
    let (mut f, _) = Fetch::<u32>::start(target);
    f.step(Event::Present { age_secs: 1 });
    f.step(Event::Loaded { body: String::from("{}") });
    let full: Vec<u32> = (0..PER_PAGE as u32).collect();
    assert!(matches!(f.step(Event::Decoded { items: full }), Action::Finish));
}

#[test]
fn stale_entry_is_removed_and_fetched_once() {
    let target = FetchTarget::Traffic {
        owner: String::from("octo"),
        repo: String::from("tool"),
        kind: StatType::Views,
    };
    let (mut f, _) = Fetch::<u32>::start(target);
    match f.step(Event::Present { age_secs: 3600 }) {
        Action::Remove { path } => assert_eq!(path, "cache/repos/octo/tool_views.json"),
        _ => panic!("expected a removal"),
    }
    assert!(matches!(f.step(Event::Removed), Action::Sleep { millis: 300 }));
    match f.step(Event::Slept) {
        Action::Get { url } => {
            assert_eq!(url, "https://api.github.com/repos/octo/tool/traffic/views?per=day")
        }
        _ => panic!("expected a request"),
    }
    // A traffic fetch ignores pagination links.
    let link = Some("<https://x.test/?page=2>; rel=\"next\"");
    match f.step(response(link, "{\"views\":[]}")) {
        Action::Store { path, body } => {
            assert_eq!(path, "cache/repos/octo/tool_views.json");
            assert_eq!(body, "{\"views\":[]}");
        }
        _ => panic!("expected a store"),
    }
    match f.step(Event::Stored) {
        Action::Decode { body } => assert_eq!(body, "{\"views\":[]}"),
        _ => panic!("expected a decode"),
    }
    assert!(matches!(f.step(Event::Decoded { items: vec![] }), Action::Finish));
}

#[test]
fn bad_status_fails() {
    let (mut f, _) = Fetch::<u32>::start(list_target());
    f.step(Event::Missing);
    f.step(Event::Slept);
    let a = f.step(Event::Response { status: 404, link: None, body: String::from("x") });
    assert!(matches!(a, Action::Fail { error: FetchError::Status(404) }));
    assert!(f.is_over());
}

#[test]
fn empty_body_fails() {
    let (mut f, _) = Fetch::<u32>::start(list_target());
    f.step(Event::Missing);
    f.step(Event::Slept);
    assert!(matches!(f.step(response(None, "")), Action::Fail { error: FetchError::Empty }));
    let (mut g, _) = Fetch::<u32>::start(list_target());
    g.step(Event::Present { age_secs: 1 });
    let a = g.step(Event::Loaded { body: String::new() });
    assert!(matches!(a, Action::Fail { error: FetchError::Empty }));
}

#[test]
fn decode_network_and_io_failures() {
    let (mut f, _) = Fetch::<u32>::start(list_target());
    f.step(Event::Present { age_secs: 1 });
    f.step(Event::Loaded { body: String::from("{") });
    let a = f.step(Event::DecodeFailed { reason: String::from("eof") });
    assert!(matches!(a, Action::Fail { error: FetchError::Decode(ref r) } if r == "eof"));

    let (mut g, _) = Fetch::<u32>::start(list_target());
    g.step(Event::Missing);
    g.step(Event::Slept);
    let a = g.step(Event::NetworkFailed { reason: String::from("timeout") });
    assert!(matches!(a, Action::Fail { error: FetchError::Network(ref r) } if r == "timeout"));

    let (mut h, _) = Fetch::<u32>::start(list_target());
    let a = h.step(Event::IoFailed { reason: String::from("denied") });
    assert!(matches!(a, Action::Fail { error: FetchError::Io(ref r) } if r == "denied"));
}

#[test]
fn unexpected_event_fails() {
    let (mut f, _) = Fetch::<u32>::start(list_target());
    let a = f.step(Event::Slept);
    assert!(matches!(a, Action::Fail { error: FetchError::Unexpected }));
    assert!(f.phase == Phase::Failed);
}

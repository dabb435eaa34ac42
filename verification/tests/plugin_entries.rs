use gsearch::plugin::{
    get_matches_step, info, open_command, prepare_query, results_to_matches, same_query, stale_matches, typing,
    Config, Match, MatchesAction, MatchesEvent, MatchesState, QueryStep,
};
use gsearch::search::{Engines, SearchArguments, SearchResult, SearchTask};
use gsearch::search_thread::ResultWait;

fn typing_entry() -> Match {
    Match {
        title: "Typing...".into(),
        description: Some("still typing...".into()),
        icon: None,
        id: Some(0),
        use_pango: false,
    }
}

#[test]
fn configuration_defaults() {
    let c = Config::default();
    assert_eq!(c.prefix, "@");
    assert_eq!(c.max_results, 3);
    assert_eq!(c.type_max_delay, 400);
    assert_eq!(c.socket_path, "/tmp/gsearch.sock");
    let i = info();
    assert_eq!(i.name, "GSearch");
    assert_eq!(i.icon, "internet-web-browser");
}

#[test]
fn input_handling() {
    assert_eq!(prepare_query("rust", "@"), QueryStep::Ignore);
    assert_eq!(prepare_query("", "@"), QueryStep::Ignore);
    assert_eq!(prepare_query("@", "@"), QueryStep::Typing);
    assert_eq!(prepare_query("@r", "@"), QueryStep::Typing);
    assert_eq!(prepare_query("@é", "@"), QueryStep::Search("é".into()));
    assert_eq!(prepare_query("@rust", "@"), QueryStep::Search("rust".into()));
    assert_eq!(prepare_query("@a@b", "@"), QueryStep::Search("ab".into()));
    assert_eq!(prepare_query("g:rust lang", "g:"), QueryStep::Search("rust lang".into()));
    assert_eq!(prepare_query("xy", ""), QueryStep::Search("xy".into()));
}

#[test]
fn typing_and_stale_entries() {
    assert_eq!(typing(), vec![typing_entry()]);
    let stored = vec![Match { title: "s".into(), description: None, icon: Some("i".into()), id: Some(4), use_pango: true }];
    assert_eq!(stale_matches(true, &stored), stored);
    assert_eq!(stale_matches(false, &stored), vec![typing_entry()]);
    assert!(same_query("rust", "rust"));
    assert!(!same_query("rust", "rus"));
    assert!(!same_query("rust", "rusk"));
}

#[test]
fn entries_from_results() {
    let results = vec![
        SearchResult {
            title: "Rust".into(),
            link: "https://rust-lang.org".into(),
            cite: String::new(),
            image: String::new(),
            description: "A language".into(),
            updated: String::new(),
            page: 1,
        },
        SearchResult {
            title: "Crates".into(),
            link: "https://crates.io".into(),
            cite: String::new(),
            image: String::new(),
            description: "Packages".into(),
            updated: String::new(),
            page: 1,
        },
    ];
    let m = results_to_matches(&results);
    assert_eq!(m.len(), 2);
    assert_eq!(m[0].title, "A language \n <span weight='bold'>Rust</span> ");
    assert_eq!(m[0].description.as_deref(), Some("https://rust-lang.org"));
    assert_eq!(m[1].id, Some(1));
    assert!(m.iter().all(|x| x.use_pango && x.icon.is_none()));
    assert!(results_to_matches(&Vec::new()).is_empty());
}

#[test]
fn opening_a_selection() {
    let mut m = typing_entry();
    m.description = Some("https://x.org".into());
    assert_eq!(open_command(&m).as_deref(), Some("xdg-open \"https://x.org\""));
    m.description = None;
    assert_eq!(open_command(&m), None);
}

fn result(t: &str) -> SearchResult {
    SearchResult {
        title: t.into(),
        link: format!("https://{}", t),
        cite: String::new(),
        image: String::new(),
        description: "d".into(),
        updated: String::new(),
        page: 1,
    }
}

#[test]
fn answering_input_step_by_step() {
    let c = Config::default();
    assert_eq!(
        get_matches_step(MatchesState::Begin, &c, MatchesEvent::Input("rust".into())),
        (MatchesState::Done, MatchesAction::Reply(vec![]))
    );
    assert_eq!(
        get_matches_step(MatchesState::Begin, &c, MatchesEvent::Input("@r".into())),
        (MatchesState::Done, MatchesAction::Reply(vec![typing_entry()]))
    );
    let (s, a) = get_matches_step(MatchesState::Begin, &c, MatchesEvent::Input("@rust".into()));
    assert_eq!(s, MatchesState::Settling("rust".into()));
    assert_eq!(a, MatchesAction::Settle { query: "rust".into(), millis: 400 });
    // typing went on: nothing published yet
    let ev = MatchesEvent::DelayOver { current_query: "rusty".into(), has_result: false, stored: vec![] };
    assert_eq!(
        get_matches_step(s, &c, ev),
        (MatchesState::Done, MatchesAction::Reply(vec![typing_entry()]))
    );
    let s = MatchesState::Settling("rust".into());
    let ev = MatchesEvent::DelayOver { current_query: "rust".into(), has_result: false, stored: vec![] };
    let (s, a) = get_matches_step(s, &c, ev);
    assert_eq!(s, MatchesState::Queuing);
    assert_eq!(
        a,
        MatchesAction::Submit(SearchTask {
            engine: Engines::GoogleAlt,
            query: "rust".into(),
            args: Some(SearchArguments::new(1, 3))
        })
    );
    let (s, a) = get_matches_step(s, &c, MatchesEvent::Submitted(7));
    assert_eq!((&s, &a), (&MatchesState::Waiting(ResultWait::FirstUpdate(7)), &MatchesAction::AwaitUpdate));
    let (s, a) = get_matches_step(s, &c, MatchesEvent::LastFinished(6));
    assert_eq!(a, MatchesAction::AwaitUpdate);
    let (s, a) = get_matches_step(s, &c, MatchesEvent::LastFinished(7));
    assert_eq!((&s, &a), (&MatchesState::Fetching, &MatchesAction::FetchResults));
    let (s, a) = get_matches_step(s, &c, MatchesEvent::Results(vec![result("a"), result("b")]));
    assert_eq!(s, MatchesState::Done);
    match a {
        MatchesAction::Publish(v) => {
            assert_eq!(v.len(), 2);
            assert_eq!(v[1].description.as_deref(), Some("https://b"));
            assert_eq!(v[1].id, Some(1));
        }
        other => panic!("unexpected {:?}", other),
    }
}

#[test]
fn answering_with_another_tasks_results() {
    let c = Config::default();
    let s = MatchesState::Waiting(ResultWait::FirstUpdate(3));
    let (s, a) = get_matches_step(s, &c, MatchesEvent::LastFinished(3));
    assert_eq!(a, MatchesAction::ReadLastFinished);
    let (s, a) = get_matches_step(s, &c, MatchesEvent::LastFinished(4));
    assert_eq!((&s, &a), (&MatchesState::Notifying, &MatchesAction::AwaitNotification));
    let stored = vec![typing_entry()];
    assert_eq!(
        get_matches_step(s, &c, MatchesEvent::Notified(stored.clone())),
        (MatchesState::Done, MatchesAction::Reply(stored))
    );
    // an event that does not fit the state
    assert_eq!(
        get_matches_step(MatchesState::Queuing, &c, MatchesEvent::LastFinished(1)),
        (MatchesState::Done, MatchesAction::Reply(vec![]))
    );
    let stored = vec![typing_entry()];
    let ev = MatchesEvent::DelayOver { current_query: "x".into(), has_result: true, stored: stored.clone() };
    assert_eq!(
        get_matches_step(MatchesState::Settling("y".into()), &c, ev),
        (MatchesState::Done, MatchesAction::Reply(stored))
    );
}

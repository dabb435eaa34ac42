use gsearch::search::{Engines, SearchArguments, SearchResult};
use gsearch::search_thread::{
    command_wait_secs, is_inactive, next_step, stealth_search_task, thread_search_task, BrowserCommand, Error, ResultWait, ThreadAction, ThreadEvent,
    ThreadStep, WaitAction,
};

fn results() -> Vec<SearchResult> {
    vec![SearchResult {
        title: "t".into(),
        link: "l".into(),
        cite: String::new(),
        image: String::new(),
        description: String::new(),
        updated: String::new(),
        page: 1,
    }]
}

#[test]
fn inactivity_limit() {
    assert!(!is_inactive(0));
    assert!(!is_inactive(30_000_000_000));
    assert!(is_inactive(30_000_000_001));
}

#[test]
fn commands_and_events() {
    assert_eq!(
        next_step(ThreadEvent::Received(BrowserCommand::Search("rust".into()))),
        ThreadStep { action: ThreadAction::RunSearch("rust".into()), touch: true }
    );
    assert_eq!(
        next_step(ThreadEvent::Received(BrowserCommand::GetPage)),
        ThreadStep { action: ThreadAction::SendPage, touch: true }
    );
    assert_eq!(
        next_step(ThreadEvent::Received(BrowserCommand::KeepAlive)),
        ThreadStep { action: ThreadAction::Continue, touch: true }
    );
    assert_eq!(
        next_step(ThreadEvent::Received(BrowserCommand::Shutdown)),
        ThreadStep { action: ThreadAction::Stop, touch: true }
    );
    assert_eq!(next_step(ThreadEvent::ChannelClosed), ThreadStep { action: ThreadAction::Stop, touch: false });
    assert_eq!(next_step(ThreadEvent::TimedOut), ThreadStep { action: ThreadAction::Continue, touch: false });
}

#[test]
fn waiting_for_a_result() {
    // the task was reached at the first update, and is still the last one
    let (w, a) = ResultWait::submitted(5);
    assert_eq!(a, WaitAction::AwaitUpdate);
    let (w, a) = w.step(5);
    assert_eq!(a, WaitAction::ReadLastFinished);
    assert_eq!(w.step(5), (ResultWait::Done(5), WaitAction::TakeResult));
    // not reached at the first update: wait once more
    let (w, _) = ResultWait::submitted(5);
    let (w, a) = w.step(4);
    assert_eq!((w, a), (ResultWait::SecondUpdate(5), WaitAction::AwaitUpdate));
    assert_eq!(w.step(5), (ResultWait::Done(5), WaitAction::TakeResult));
    assert_eq!(w.step(6), (ResultWait::Done(5), WaitAction::NoResult));
    // a newer task finished meanwhile
    let (w, _) = ResultWait::submitted(0);
    let (w, _) = w.step(1000);
    assert_eq!(w.step(7), (ResultWait::Done(0), WaitAction::NoResult));
    assert_eq!(ResultWait::Done(1).step(1), (ResultWait::Done(1), WaitAction::NoResult));
}

#[test]
fn search_requests() {
    let t = stealth_search_task("rust".into(), 3);
    assert_eq!(t.engine, Engines::GoogleAlt);
    assert_eq!(t.query, "rust");
    assert_eq!(t.args, Some(SearchArguments::new(1, 3)));
    assert_ne!(Error::ChannelClosed, Error::ResponseChannelClosed);
    let _ = results();
}

#[test]
fn thread_settings() {
    assert_eq!(command_wait_secs(), 5);
    let t = thread_search_task("go".into());
    assert_eq!(t.engine, Engines::GoogleAlt);
    assert_eq!(t.query, "go");
    assert_eq!(t.args, Some(SearchArguments::new(1, 3)));
}

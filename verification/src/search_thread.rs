//! The decisions of the browser thread: when it shuts down, what each
//! command asks of it, and which results a search hands back.

use vstd::prelude::*;

use crate::search::{Engines, SearchArguments, SearchResult, SearchTask};

verus! {

/// Failures of the browser thread's interface.
#[derive(Debug, PartialEq, Eq)]
pub enum Error {
    BrowserConnection(String),
    ChannelClosed,
    ResponseChannelClosed,
    JoinError(String),
}

/// A command sent to the browser thread (the reply channels stay with the
/// caller).
#[derive(Debug, PartialEq, Eq)]
pub enum BrowserCommand {
    Search(String),
    GetPage,
    KeepAlive,
    Shutdown,
}

/// What the browser thread observed while waiting for a command.
#[derive(Debug, PartialEq, Eq)]
pub enum ThreadEvent {
    Received(BrowserCommand),
    ChannelClosed,
    TimedOut,
}

/// What the browser thread does next.
#[derive(Debug, PartialEq, Eq)]
pub enum ThreadAction {
    /// Run a search for the query and reply with its results.
    RunSearch(String),
    /// Reply with the page the thread works on.
    SendPage,
    /// Wait for the next command.
    Continue,
    /// Stop the task queue and end the thread.
    Stop,
}

/// The thread's reaction to one event.
#[derive(Debug, PartialEq, Eq)]
pub struct ThreadStep {
    pub action: ThreadAction,
    /// Whether the event counts as activity (resets the idle clock).
    pub touch: bool,
}

/// How long, in nanoseconds, the thread may stay idle before it ends.
pub open spec fn idle_limit_nanos() -> u128 {
    30_000_000_000
}

/// How long, in seconds, the thread waits for a command before checking
/// its idle time again.
pub fn command_wait_secs() -> (r: u64)
    ensures
        r == 5,
{
    5
}

/// The task a search command of the browser thread becomes: the stealth
/// engine, first page, at most three results.
pub fn thread_search_task(query: String) -> (r: SearchTask)
    ensures
        r.engine == Engines::GoogleAlt,
        r.query@ == query@,
        r.args == Some(SearchArguments::new_spec(1, 3)),
{
    stealth_search_task(query, 3)
}

/// Whether the thread has been idle for longer than its limit.
pub fn is_inactive(idle_nanos: u128) -> (r: bool)
    ensures
        r == (idle_nanos > idle_limit_nanos()),
{
    idle_nanos > 30_000_000_000
}

/// The reaction to `event`: a received command counts as activity and is
/// carried out; a closed channel ends the thread; a timeout changes
/// nothing.
pub fn next_step(event: ThreadEvent) -> (r: ThreadStep)
    ensures
        r.touch == (event is Received),
        r.action == (match event {
            ThreadEvent::Received(BrowserCommand::Search(q)) => ThreadAction::RunSearch(q),
            ThreadEvent::Received(BrowserCommand::GetPage) => ThreadAction::SendPage,
            ThreadEvent::Received(BrowserCommand::KeepAlive) => ThreadAction::Continue,
            ThreadEvent::Received(BrowserCommand::Shutdown) => ThreadAction::Stop,
            ThreadEvent::ChannelClosed => ThreadAction::Stop,
            ThreadEvent::TimedOut => ThreadAction::Continue,
        }),
{
    match event {
        ThreadEvent::Received(command) => {
            let action = match command {
                BrowserCommand::Search(q) => ThreadAction::RunSearch(q),
                BrowserCommand::GetPage => ThreadAction::SendPage,
                BrowserCommand::KeepAlive => ThreadAction::Continue,
                BrowserCommand::Shutdown => ThreadAction::Stop,
            };
            ThreadStep { action, touch: true }
        },
        ThreadEvent::ChannelClosed => ThreadStep { action: ThreadAction::Stop, touch: false },
        ThreadEvent::TimedOut => ThreadStep { action: ThreadAction::Continue, touch: false },
    }
}

/// The task a search request becomes: the stealth engine, first page, at
/// most `max_results` results.
pub fn stealth_search_task(query: String, max_results: u32) -> (r: SearchTask)
    ensures
        r.engine == Engines::GoogleAlt,
        r.query@ == query@,
        r.args == Some(SearchArguments::new_spec(1, max_results)),
{
    SearchTask { engine: Engines::GoogleAlt, query, args: Some(SearchArguments::new(1, max_results)) }
}

/// Where a submitted search stands while its caller waits for the result.
/// Each step is fed the number of the last finished task, read right after
/// the previous action was carried out.
#[derive(Debug, Clone, Copy, PartialEq, Eq, Structural)]
pub enum ResultWait {
    /// One result update was awaited.
    FirstUpdate(u32),
    /// A second result update was awaited, as the task was not reached yet.
    SecondUpdate(u32),
    /// The last finished task is read once more before deciding.
    FinalCheck(u32),
    /// Decided.
    Done(u32),
}

/// What the waiting caller does next.
#[derive(Debug, Clone, Copy, PartialEq, Eq, Structural)]
pub enum WaitAction {
    /// Await the next result update, then read the last finished task.
    AwaitUpdate,
    /// Read the last finished task.
    ReadLastFinished,
    /// The queue holds the submitted task's results: take them.
    TakeResult,
    /// The queue's results belong to another task.
    NoResult,
}

/// The step taken from `state` when the last finished task is `last`.
pub open spec fn wait_step(state: ResultWait, last: u32) -> (ResultWait, WaitAction) {
    match state {
        ResultWait::FirstUpdate(id) => if id > last {
            (ResultWait::SecondUpdate(id), WaitAction::AwaitUpdate)
        } else {
            (ResultWait::FinalCheck(id), WaitAction::ReadLastFinished)
        },
        ResultWait::SecondUpdate(id) | ResultWait::FinalCheck(id) => if id == last {
            (ResultWait::Done(id), WaitAction::TakeResult)
        } else {
            (ResultWait::Done(id), WaitAction::NoResult)
        },
        ResultWait::Done(id) => (ResultWait::Done(id), WaitAction::NoResult),
    }
}

impl ResultWait {
    /// The task numbered `task_id` was queued: await one result update.
    pub fn submitted(task_id: u32) -> (r: (ResultWait, WaitAction))
        ensures
            r == (ResultWait::FirstUpdate(task_id), WaitAction::AwaitUpdate),
    {
        (ResultWait::FirstUpdate(task_id), WaitAction::AwaitUpdate)
    }

    /// The next state and action, given the last finished task `last`: after
    /// the first update, a task not reached yet (`task_id > last`) is
    /// awaited once more, else the last finished task is read again; the
    /// next reading decides whether the results are the submitted task's.
    pub fn step(self, last: u32) -> (r: (ResultWait, WaitAction))
        ensures
            r == wait_step(self, last),
    {
        match self {
            ResultWait::FirstUpdate(id) => if id > last {
                (ResultWait::SecondUpdate(id), WaitAction::AwaitUpdate)
            } else {
                (ResultWait::FinalCheck(id), WaitAction::ReadLastFinished)
            },
            ResultWait::SecondUpdate(id) | ResultWait::FinalCheck(id) => if id == last {
                (ResultWait::Done(id), WaitAction::TakeResult)
            } else {
                (ResultWait::Done(id), WaitAction::NoResult)
            },
            ResultWait::Done(id) => (ResultWait::Done(id), WaitAction::NoResult),
        }
    }
}

/// Waiting for a submitted task ends after at most two more readings, and
/// takes the results only when the deciding reading names that task.
pub proof fn law_wait_ends(task_id: u32, l1: u32, l2: u32)
    ensures
        ({
            let (s1, a1) = wait_step(ResultWait::FirstUpdate(task_id), l1);
            let (s2, a2) = wait_step(s1, l2);
            &&& a1 == WaitAction::AwaitUpdate || a1 == WaitAction::ReadLastFinished
            &&& a2 == WaitAction::TakeResult || a2 == WaitAction::NoResult
            &&& (a2 == WaitAction::TakeResult <==> task_id == l2)
            &&& s2 == ResultWait::Done(task_id)
        }),
{
}

} // verus!

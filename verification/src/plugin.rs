//! The launcher-plugin side: configuration, how typed input becomes a
//! search query, and how search results become launcher entries.

use vstd::prelude::*;

use crate::search::{Engines, SearchArguments, SearchResult, SearchTask, results_view};
use crate::search_thread::{stealth_search_task, wait_step, ResultWait, WaitAction};
use crate::text::{has_prefix, remove_all, remove_all_occurrences, starts_with};

verus! {

/// Plugin configuration.
#[derive(Debug, PartialEq, Eq)]
pub struct Config {
    /// Input must start with this to be treated as a search.
    pub prefix: String,
    /// How many results to show.
    pub max_results: u32,
    /// How long to wait, in milliseconds, for typing to settle.
    pub type_max_delay: u32,
    /// Where the search service listens.
    pub socket_path: String,
}

impl Default for Config {
    fn default() -> (r: Self)
        ensures
            r.prefix@ == "@"@,
            r.max_results == 3,
            r.type_max_delay == 400,
            r.socket_path@ == "/tmp/gsearch.sock"@,
    {
        Config {
            prefix: String::from_str("@"),
            max_results: 3,
            type_max_delay: 400,
            socket_path: String::from_str("/tmp/gsearch.sock"),
        }
    }
}

/// One entry shown by the launcher.
#[derive(Debug, PartialEq, Eq)]
pub struct Match {
    pub title: String,
    pub description: Option<String>,
    pub icon: Option<String>,
    pub id: Option<u64>,
    pub use_pango: bool,
}

/// The abstract content of a `Match`.
pub struct MatchView {
    pub title: Seq<char>,
    pub description: Option<Seq<char>>,
    pub icon: Option<Seq<char>>,
    pub id: Option<u64>,
    pub use_pango: bool,
}

impl View for Match {
    type V = MatchView;

    open spec fn view(&self) -> MatchView {
        MatchView {
            title: self.title@,
            description: self.description.deep_view(),
            icon: self.icon.deep_view(),
            id: self.id,
            use_pango: self.use_pango,
        }
    }
}

impl Clone for Match {
    fn clone(&self) -> (r: Self)
        ensures
            r@ == self@,
    {
        let description = match &self.description {
            Some(d) => Some(d.clone()),
            None => None,
        };
        let icon = match &self.icon {
            Some(i) => Some(i.clone()),
            None => None,
        };
        Match { title: self.title.clone(), description, icon, id: self.id, use_pango: self.use_pango }
    }
}

/// The views of a sequence of entries.
pub open spec fn matches_view(v: Seq<Match>) -> Seq<MatchView> {
    v.map_values(|m: Match| m@)
}

/// The name and icon the plugin shows itself with.
#[derive(Debug, PartialEq, Eq)]
pub struct PluginInfo {
    pub name: String,
    pub icon: String,
}

/// The plugin's name and icon.
pub fn info() -> (r: PluginInfo)
    ensures
        r.name@ == "GSearch"@,
        r.icon@ == "internet-web-browser"@,
{
    PluginInfo {
        name: String::from_str("GSearch"),
        icon: String::from_str("internet-web-browser"),
    }
}

/// The entry shown while the user is still typing.
pub open spec fn typing_entry() -> MatchView {
    MatchView {
        title: "Typing..."@,
        description: Some("still typing..."@),
        icon: None,
        id: Some(0),
        use_pango: false,
    }
}

/// The entries shown while the user is still typing.
pub fn typing() -> (r: Vec<Match>)
    ensures
        matches_view(r@) == seq![typing_entry()],
{
    let r = vec![
        Match {
            title: String::from_str("Typing..."),
            description: Some(String::from_str("still typing...")),
            icon: None,
            id: Some(0),
            use_pango: false,
        },
    ];
    assert(matches_view(r@) =~= seq![typing_entry()]);
    r
}

/// What to do with the launcher's input.
#[derive(Debug, PartialEq, Eq)]
pub enum QueryStep {
    /// The input is not for this plugin: show nothing.
    Ignore,
    /// The query is too short yet: show the typing entry.
    Typing,
    /// Search for this query.
    Search(String),
}

/// The query typed after the prefix: the input with every occurrence of
/// the prefix removed.
pub open spec fn query_of(input: Seq<char>, prefix: Seq<char>) -> Seq<char> {
    remove_all(input, prefix)
}

/// A query shorter than two bytes in UTF-8.
pub open spec fn query_too_short(q: Seq<char>) -> bool {
    vstd::utf8::encode_utf8(q).len() < 2
}

/// Decides what the input asks for: input that does not start with the
/// prefix is ignored; a query shorter than two bytes (UTF-8) means the
/// user is still typing; anything else is searched for.
pub fn prepare_query(input: &str, prefix: &str) -> (r: QueryStep)
    ensures
        !starts_with(input@, prefix@) ==> r is Ignore,
        starts_with(input@, prefix@) ==> {
            let q = query_of(input@, prefix@);
            if query_too_short(q) {
                r is Typing
            } else {
                r matches QueryStep::Search(s) && s@ == q
            }
        },
{
    if !has_prefix(input, prefix) {
        return QueryStep::Ignore;
    }
    let q = remove_all_occurrences(input, prefix);
    let qc = crate::text::chars_of(q.as_str());
    proof {
        lemma_short_encoding(q@);
    }
    if qc.len() == 0 || (qc.len() == 1 && (qc[0] as u32) < 0x80) {
        QueryStep::Typing
    } else {
        QueryStep::Search(q)
    }
}

/// A text takes fewer than two bytes in UTF-8 exactly when it is empty or
/// is a single ASCII character.
pub proof fn lemma_short_encoding(q: Seq<char>)
    ensures
        (vstd::utf8::encode_utf8(q).len() < 2) <==> (q.len() == 0 || (q.len() == 1 && (q[0] as u32) < 0x80)),
{
    let e = vstd::utf8::encode_utf8(q);
    if q.len() == 0 {
    } else {
        let rest = q.drop_first();
        assert(e == vstd::utf8::encode_scalar(q[0] as u32) + vstd::utf8::encode_utf8(rest));
        if q.len() == 1 {
            assert(rest.len() == 0);
            assert(vstd::utf8::encode_utf8(rest).len() == 0);
        } else {
            assert(vstd::utf8::encode_utf8(rest) == vstd::utf8::encode_scalar(rest[0] as u32)
                + vstd::utf8::encode_utf8(rest.drop_first()));
        }
    }
}

/// What is shown when the query changed during the typing delay: the
/// stored entries once a search has stored some, else the typing entry.
pub fn stale_matches(has_result: bool, stored: &Vec<Match>) -> (r: Vec<Match>)
    ensures
        matches_view(r@) == (if has_result {
            matches_view(stored@)
        } else {
            seq![typing_entry()]
        }),
{
    if has_result {
        let mut out: Vec<Match> = Vec::new();
        let mut i: usize = 0;
        while i < stored.len()
            invariant
                i <= stored@.len(),
                out@.len() == i,
                forall|j: int| 0 <= j < i ==> (#[trigger] out@[j])@ == stored@[j]@,
            decreases stored@.len() - i,
        {
            out.push(stored[i].clone());
            i = i + 1;
        }
        assert(matches_view(out@) =~= matches_view(stored@));
        out
    } else {
        typing()
    }
}

/// Whether the query typed so far is still the one this request started
/// with.
pub fn same_query(current: &str, input: &str) -> (r: bool)
    ensures
        r == (current@ == input@),
{
    let a = crate::text::chars_of(current);
    let b = crate::text::chars_of(input);
    if a.len() != b.len() {
        return false;
    }
    let mut i: usize = 0;
    while i < a.len()
        invariant
            a@ == current@,
            b@ == input@,
            a@.len() == b@.len(),
            i <= a@.len(),
            forall|j: int| 0 <= j < i ==> a@[j] == b@[j],
        decreases a@.len() - i,
    {
        if a[i] != b[i] {
            return false;
        }
        i = i + 1;
    }
    assert(a@ =~= b@);
    true
}

/// The title shown for a result: its description, then its title in bold.
pub open spec fn result_title(description: Seq<char>, title: Seq<char>) -> Seq<char> {
    description + " \n <span weight='bold'>"@ + title + "</span> "@
}

/// The entry shown for the `i`-th result: marked-up title, the link as
/// description, numbered by position.
pub open spec fn result_entry(r: crate::search::SearchResultView, i: int) -> MatchView {
    MatchView {
        title: result_title(r.description, r.title),
        description: Some(r.link),
        icon: None,
        id: Some(i as u64),
        use_pango: true,
    }
}

/// The `i`-th entry for a list of results shows the `i`-th result: it links
/// to that result's address, is numbered `i`, uses markup, has no icon, and
/// its title starts with the result's description and ends with the
/// result's title in bold (closed by `</span> `).
pub proof fn law_entry_shows_its_result(results: Seq<SearchResult>, i: int)
    requires
        0 <= i < results.len(),
    ensures
        ({
            let e = result_entries(results)[i];
            let r = results[i];
            &&& result_entries(results).len() == results.len()
            &&& e.description == Some(r.link@)
            &&& e.id == Some(i as u64)
            &&& e.use_pango
            &&& e.icon is None
            &&& e.title.take(r.description@.len() as int) == r.description@
            &&& e.title.skip(e.title.len() - (r.title@.len() + 8)) == r.title@ + seq!['<', '/', 's', 'p', 'a', 'n', '>', ' ']
        }),
{
    reveal_strlit("</span> ");
    let r = results[i];
    let e = result_entries(results)[i];
    assert(results_view(results)[i] == r@);
    let tail = r.title@ + "</span> "@;
    assert(e.title == r.description@ + " \n <span weight='bold'>"@ + tail);
    assert(e.title.take(r.description@.len() as int) =~= r.description@);
    assert(e.title.skip(e.title.len() - (r.title@.len() + 8)) =~= tail);
    assert(tail =~= r.title@ + seq!['<', '/', 's', 'p', 'a', 'n', '>', ' ']);
}

/// The launcher entries for `results`, in order.
pub fn results_to_matches(results: &Vec<SearchResult>) -> (r: Vec<Match>)
    ensures
        matches_view(r@) == Seq::new(results@.len(), |i: int| result_entry(results_view(results@)[i], i)),
{
    let mut out: Vec<Match> = Vec::new();
    let mut i: usize = 0;
    while i < results.len()
        invariant
            i <= results@.len(),
            out@.len() == i,
            forall|j: int| 0 <= j < i ==> (#[trigger] out@[j])@ == result_entry(results@[j]@, j),
        decreases results@.len() - i,
    {
        let res = &results[i];
        let mut title = res.description.clone();
        title.append(" \n <span weight='bold'>");
        title.append(res.title.as_str());
        title.append("</span> ");
        let m = Match {
            title,
            description: Some(res.link.clone()),
            icon: None,
            id: Some(i as u64),
            use_pango: true,
        };
        out.push(m);
        i = i + 1;
    }
    assert(matches_view(out@) =~= Seq::new(results@.len(), |i: int| result_entry(results_view(results@)[i], i)));
    out
}

/// The shell command that opens a selected entry: `xdg-open "<link>"`, or
/// nothing for an entry without a link.
pub fn open_command(selection: &Match) -> (r: Option<String>)
    ensures
        match selection.description.deep_view() {
            None => r is None,
            Some(d) => r matches Some(c) && c@ == "xdg-open \""@ + d + "\""@,
        },
{
    match &selection.description {
        None => None,
        Some(d) => {
            let mut c = String::from_str("xdg-open \"");
            c.append(d.as_str());
            c.append("\"");
            Some(c)
        },
    }
}


// ------------------------------------------------ answering launcher input

/// Where the answer to one launcher input stands.
#[derive(Debug, PartialEq, Eq)]
pub enum MatchesState {
    /// Nothing happened yet.
    Begin,
    /// The query was recorded as the current one; the typing delay runs.
    Settling(String),
    /// The search task is being queued.
    Queuing,
    /// The task is queued; its result is awaited.
    Waiting(ResultWait),
    /// The queue holds the submitted task's results, which are being read.
    Fetching,
    /// Another task's results are awaited from whoever publishes them.
    Notifying,
    /// Answered.
    Done,
}

/// What the caller observed after carrying out the last action.
#[derive(Debug, PartialEq, Eq)]
pub enum MatchesEvent {
    /// The launcher's input.
    Input(String),
    /// The typing delay is over: the query recorded as current now, whether
    /// results were ever published, and the published entries.
    DelayOver { current_query: String, has_result: bool, stored: Vec<Match> },
    /// The search task was queued under this number.
    Submitted(u32),
    /// The number of the last finished task.
    LastFinished(u32),
    /// The queue's results.
    Results(Vec<SearchResult>),
    /// Entries were published; these are the published entries.
    Notified(Vec<Match>),
}

/// What the caller does next.
#[derive(Debug, PartialEq, Eq)]
pub enum MatchesAction {
    /// Answer with these entries.
    Reply(Vec<Match>),
    /// Record `query` as the current query, then sleep `millis`
    /// milliseconds and report `DelayOver`.
    Settle { query: String, millis: u32 },
    /// Queue the given task and report `Submitted`.
    Submit(SearchTask),
    /// Await a result update, then report `LastFinished`.
    AwaitUpdate,
    /// Report `LastFinished`.
    ReadLastFinished,
    /// Read the queue's results and report `Results`.
    FetchResults,
    /// Store these entries as the published ones, mark that results exist,
    /// wake those awaiting publication, and answer with them.
    Publish(Vec<Match>),
    /// Await a publication, then report `Notified`.
    AwaitNotification,
}

/// The entries for `results`: see `results_to_matches`.
pub open spec fn result_entries(results: Seq<SearchResult>) -> Seq<MatchView> {
    Seq::new(results.len(), |i: int| result_entry(results_view(results)[i], i))
}

/// The step taken while answering launcher input. `config` supplies the
/// prefix, the typing delay and the number of results. An event that does
/// not fit the state ends the answer with no entries.
pub fn get_matches_step(state: MatchesState, config: &Config, event: MatchesEvent) -> (r: (MatchesState, MatchesAction))
    ensures
        match (state, event) {
            (MatchesState::Begin, MatchesEvent::Input(input)) => {
                let q = query_of(input@, config.prefix@);
                if !starts_with(input@, config.prefix@) {
                    &&& r.0 == MatchesState::Done
                    &&& r.1 matches MatchesAction::Reply(v) && v@.len() == 0
                } else if query_too_short(q) {
                    &&& r.0 == MatchesState::Done
                    &&& r.1 matches MatchesAction::Reply(v) && matches_view(v@) == seq![typing_entry()]
                } else {
                    &&& r.0 matches MatchesState::Settling(s) && s@ == q
                    &&& r.1 matches MatchesAction::Settle { query, millis } && query@ == q
                        && millis == config.type_max_delay
                }
            },
            (MatchesState::Settling(q), MatchesEvent::DelayOver { current_query, has_result, stored }) => {
                if current_query@ != q@ {
                    &&& r.0 == MatchesState::Done
                    &&& r.1 matches MatchesAction::Reply(v) && matches_view(v@) == (if has_result {
                        matches_view(stored@)
                    } else {
                        seq![typing_entry()]
                    })
                } else {
                    &&& r.0 == MatchesState::Queuing
                    &&& r.1 matches MatchesAction::Submit(t) && t.engine == Engines::GoogleAlt
                        && t.query@ == q@
                        && t.args == Some(SearchArguments::new_spec(1, config.max_results))
                }
            },
            (MatchesState::Queuing, MatchesEvent::Submitted(id)) => r == (
                MatchesState::Waiting(ResultWait::FirstUpdate(id)),
                MatchesAction::AwaitUpdate,
            ),
            (MatchesState::Waiting(w), MatchesEvent::LastFinished(last)) => {
                let (w2, a) = wait_step(w, last);
                match a {
                    WaitAction::AwaitUpdate => r == (MatchesState::Waiting(w2), MatchesAction::AwaitUpdate),
                    WaitAction::ReadLastFinished => r == (MatchesState::Waiting(w2), MatchesAction::ReadLastFinished),
                    WaitAction::TakeResult => r == (MatchesState::Fetching, MatchesAction::FetchResults),
                    WaitAction::NoResult => r == (MatchesState::Notifying, MatchesAction::AwaitNotification),
                }
            },
            (MatchesState::Fetching, MatchesEvent::Results(results)) => {
                &&& r.0 == MatchesState::Done
                &&& r.1 matches MatchesAction::Publish(v) && matches_view(v@) == result_entries(results@)
            },
            (MatchesState::Notifying, MatchesEvent::Notified(stored)) => {
                &&& r.0 == MatchesState::Done
                &&& r.1 matches MatchesAction::Reply(v) && matches_view(v@) == matches_view(stored@)
            },
            _ => {
                &&& r.0 == MatchesState::Done
                &&& r.1 matches MatchesAction::Reply(v) && v@.len() == 0
            },
        },
{
    match (state, event) {
        (MatchesState::Begin, MatchesEvent::Input(input)) => {
            match prepare_query(input.as_str(), config.prefix.as_str()) {
                QueryStep::Ignore => (MatchesState::Done, MatchesAction::Reply(Vec::new())),
                QueryStep::Typing => (MatchesState::Done, MatchesAction::Reply(typing())),
                QueryStep::Search(q) => {
                    let query = q.clone();
                    (MatchesState::Settling(q), MatchesAction::Settle { query, millis: config.type_max_delay })
                },
            }
        },
        (MatchesState::Settling(q), MatchesEvent::DelayOver { current_query, has_result, stored }) => {
            if !same_query(current_query.as_str(), q.as_str()) {
                (MatchesState::Done, MatchesAction::Reply(stale_matches(has_result, &stored)))
            } else {
                (MatchesState::Queuing, MatchesAction::Submit(stealth_search_task(q, config.max_results)))
            }
        },
        (MatchesState::Queuing, MatchesEvent::Submitted(id)) => {
            let (w, _) = ResultWait::submitted(id);
            (MatchesState::Waiting(w), MatchesAction::AwaitUpdate)
        },
        (MatchesState::Waiting(w), MatchesEvent::LastFinished(last)) => {
            let (w2, a) = w.step(last);
            match a {
                WaitAction::AwaitUpdate => (MatchesState::Waiting(w2), MatchesAction::AwaitUpdate),
                WaitAction::ReadLastFinished => (MatchesState::Waiting(w2), MatchesAction::ReadLastFinished),
                WaitAction::TakeResult => (MatchesState::Fetching, MatchesAction::FetchResults),
                WaitAction::NoResult => (MatchesState::Notifying, MatchesAction::AwaitNotification),
            }
        },
        (MatchesState::Fetching, MatchesEvent::Results(results)) => {
            (MatchesState::Done, MatchesAction::Publish(results_to_matches(&results)))
        },
        (MatchesState::Notifying, MatchesEvent::Notified(stored)) => {
            (MatchesState::Done, MatchesAction::Reply(stale_matches(true, &stored)))
        },
        _ => (MatchesState::Done, MatchesAction::Reply(Vec::new())),
    }
}

} // verus!

//! The polling cycle as a state machine: from the state of the cycle and the
//! answer to the last request, the next state and the next request.
//!
//! The caller owns every effect. It performs the request that an [`Action`]
//! names, reports what came of it as an [`Event`], and sleeps when told to
//! rest. The machine never asks for more than one delivery per cycle.

use crate::article::{
    articles_view, parsed_articles, read_articles, text_view, Article, ArticleView,
};
use crate::message::{format_message, message_text, shown_title, NO_TITLE};
use rand::rngs::ThreadRng;
use rand::seq::SliceRandom;
use vstd::prelude::*;

verus! {

/// Seconds between the end of one cycle and the start of the next.
pub const POLL_INTERVAL_SECS: u64 = 6;

/// Seconds to let pass between recording an article and handling it further.
pub const PROCESSING_PAUSE_SECS: u64 = 5;

/// The step of a cycle that went wrong.
#[derive(Clone, Copy, Debug, PartialEq, Eq, Structural)]
pub enum Failure {
    /// The feed document could not be fetched.
    Fetch,
    /// The fetched document is not a feed.
    Parse,
    /// The store did not answer a check or refused an insertion.
    Store,
    /// No summary was obtained.
    Enrichment,
    /// The message was not accepted by the channel.
    Delivery,
}

/// How a cycle ended.
#[derive(Clone, Copy, Debug, PartialEq, Eq, Structural)]
pub enum Outcome {
    /// The directory holds no feed: nothing was attempted.
    NoFeeds,
    /// Every article of the feed lacks a link or is recorded already.
    NothingNew,
    /// One article was recorded, summarized and delivered.
    Delivered,
    /// The cycle was given up at the named step.
    Failed(Failure),
    /// An answer arrived that the cycle was not waiting for.
    OutOfTurn,
}

/// What the cycle keeps of the article it is dealing with.
#[derive(Clone, Debug, PartialEq, Eq)]
pub struct Candidate {
    pub link: String,
    pub title: Option<String>,
}

/// The mathematical model of a [`Candidate`].
pub struct CandidateView {
    pub link: Seq<char>,
    pub title: Option<Seq<char>>,
}

impl View for Candidate {
    type V = CandidateView;

    open spec fn view(&self) -> CandidateView {
        CandidateView { link: self.link@, title: text_view(self.title) }
    }
}

/// Where a cycle stands. Every state but `Idle` waits for the answer to the
/// request that was issued on entering it.
#[derive(Clone, Debug, PartialEq, Eq)]
pub enum CycleState {
    /// Between cycles.
    Idle,
    /// Waiting for the document of the chosen feed.
    Fetching { feed: String },
    /// Waiting to hear whether `candidate` is recorded. The articles from
    /// index `next` on have not been looked at yet.
    Scanning { candidate: Candidate, articles: Vec<Article>, next: usize },
    /// Waiting for the insertion of `candidate` to be confirmed.
    Recording { candidate: Candidate },
    /// Waiting for the processing pause to pass.
    Pausing { candidate: Candidate },
    /// Waiting for the summary of `candidate`.
    Enriching { candidate: Candidate },
    /// Waiting for the message about `candidate` to be accepted.
    Delivering { candidate: Candidate },
}

/// The mathematical model of a [`CycleState`]. Of a scan it keeps the articles
/// still to be looked at, not those already passed.
pub enum CycleStateView {
    Idle,
    Fetching { feed: Seq<char> },
    Scanning { candidate: CandidateView, remaining: Seq<ArticleView> },
    Recording { candidate: CandidateView },
    Pausing { candidate: CandidateView },
    Enriching { candidate: CandidateView },
    Delivering { candidate: CandidateView },
}

/// The articles of a scan that come at or after index `next`.
pub open spec fn remaining_from(articles: Seq<ArticleView>, next: int) -> Seq<ArticleView> {
    if 0 <= next <= articles.len() {
        articles.skip(next)
    } else {
        Seq::empty()
    }
}

impl View for CycleState {
    type V = CycleStateView;

    open spec fn view(&self) -> CycleStateView {
        match *self {
            CycleState::Idle => CycleStateView::Idle,
            CycleState::Fetching { feed } => CycleStateView::Fetching { feed: feed@ },
            CycleState::Scanning { candidate, articles, next } => CycleStateView::Scanning {
                candidate: candidate@,
                remaining: remaining_from(articles_view(articles@), next as int),
            },
            CycleState::Recording { candidate } => CycleStateView::Recording {
                candidate: candidate@,
            },
            CycleState::Pausing { candidate } => CycleStateView::Pausing { candidate: candidate@ },
            CycleState::Enriching { candidate } => CycleStateView::Enriching {
                candidate: candidate@,
            },
            CycleState::Delivering { candidate } => CycleStateView::Delivering {
                candidate: candidate@,
            },
        }
    }
}

/// What the caller is asked to do next.
#[derive(Clone, Debug, PartialEq, Eq)]
pub enum Action {
    /// Fetch the document at `url`.
    Fetch { url: String },
    /// Ask the store how many records carry `link`.
    CheckSeen { link: String },
    /// Insert a record for `link` into the store.
    Record { link: String },
    /// Wait for `seconds`, then report that the pause has passed.
    Pause { seconds: u64 },
    /// Ask for a summary of the article at `reference`.
    Enrich { reference: String },
    /// Post `message` to the channel.
    Deliver { message: String },
    /// The cycle is over: note `outcome`, sleep for `seconds`, start anew.
    Rest { outcome: Outcome, seconds: u64 },
}

/// The mathematical model of an [`Action`].
pub enum ActionView {
    Fetch { url: Seq<char> },
    CheckSeen { link: Seq<char> },
    Record { link: Seq<char> },
    Pause { seconds: u64 },
    Enrich { reference: Seq<char> },
    Deliver { message: Seq<char> },
    Rest { outcome: Outcome, seconds: u64 },
}

impl View for Action {
    type V = ActionView;

    open spec fn view(&self) -> ActionView {
        match *self {
            Action::Fetch { url } => ActionView::Fetch { url: url@ },
            Action::CheckSeen { link } => ActionView::CheckSeen { link: link@ },
            Action::Record { link } => ActionView::Record { link: link@ },
            Action::Pause { seconds } => ActionView::Pause { seconds },
            Action::Enrich { reference } => ActionView::Enrich { reference: reference@ },
            Action::Deliver { message } => ActionView::Deliver { message: message@ },
            Action::Rest { outcome, seconds } => ActionView::Rest { outcome, seconds },
        }
    }
}

/// What came of the last request.
#[derive(Clone, Debug, PartialEq, Eq)]
pub enum Event {
    /// The feed document arrived.
    Fetched { document: Vec<u8> },
    /// The feed document could not be fetched.
    FetchFailed,
    /// The store counted `count` records with the link asked about.
    Counted { count: i64 },
    /// The store accepted the insertion.
    Recorded,
    /// The store failed to answer, or refused the insertion.
    StoreFailed,
    /// The processing pause has passed.
    PauseElapsed,
    /// The summarizer answered with `summary`.
    Enriched { summary: String },
    /// The summarizer gave no summary.
    EnrichmentFailed,
    /// The channel accepted the message.
    Delivered,
    /// The channel did not accept the message.
    DeliveryFailed,
}

/// The mathematical model of an [`Event`].
pub enum EventView {
    Fetched { document: Seq<u8> },
    FetchFailed,
    Counted { count: i64 },
    Recorded,
    StoreFailed,
    PauseElapsed,
    Enriched { summary: Seq<char> },
    EnrichmentFailed,
    Delivered,
    DeliveryFailed,
}

impl View for Event {
    type V = EventView;

    open spec fn view(&self) -> EventView {
        match *self {
            Event::Fetched { document } => EventView::Fetched { document: document@ },
            Event::FetchFailed => EventView::FetchFailed,
            Event::Counted { count } => EventView::Counted { count },
            Event::Recorded => EventView::Recorded,
            Event::StoreFailed => EventView::StoreFailed,
            Event::PauseElapsed => EventView::PauseElapsed,
            Event::Enriched { summary } => EventView::Enriched { summary: summary@ },
            Event::EnrichmentFailed => EventView::EnrichmentFailed,
            Event::Delivered => EventView::Delivered,
            Event::DeliveryFailed => EventView::DeliveryFailed,
        }
    }
}

/// A state together with the request issued on entering it.
pub type Step = (CycleStateView, ActionView);

/// The end of a cycle with the given outcome.
pub open spec fn rest(outcome: Outcome) -> Step {
    (CycleStateView::Idle, ActionView::Rest { outcome, seconds: POLL_INTERVAL_SECS })
}

/// The start of a cycle, given the feed that was selected, if any.
pub open spec fn begin(selected: Option<Seq<char>>) -> Step {
    match selected {
        Some(feed) => (CycleStateView::Fetching { feed }, ActionView::Fetch { url: feed }),
        None => rest(Outcome::NoFeeds),
    }
}

/// The scan of a list of articles: the first one that carries a link becomes
/// the candidate and the store is asked about it; articles without a link are
/// passed over; a list without any linked article ends the cycle.
pub open spec fn scan(articles: Seq<ArticleView>) -> Step
    decreases articles.len(),
{
    if articles.len() == 0 {
        rest(Outcome::NothingNew)
    } else {
        match articles[0].link {
            Some(link) => (
                CycleStateView::Scanning {
                    candidate: CandidateView { link, title: articles[0].title },
                    remaining: articles.skip(1),
                },
                ActionView::CheckSeen { link },
            ),
            None => scan(articles.skip(1)),
        }
    }
}

/// What follows the arrival of a feed document, given what reading it yields.
pub open spec fn after_reading(parsed: Option<Seq<ArticleView>>) -> Step {
    match parsed {
        Some(articles) => scan(articles),
        None => rest(Outcome::Failed(Failure::Parse)),
    }
}

/// The transition function of the cycle.
pub open spec fn next(state: CycleStateView, event: EventView) -> Step {
    match (state, event) {
        (CycleStateView::Fetching { .. }, EventView::Fetched { document }) => after_reading(
            parsed_articles(document),
        ),
        (CycleStateView::Fetching { .. }, EventView::FetchFailed) => rest(
            Outcome::Failed(Failure::Fetch),
        ),
        (CycleStateView::Scanning { candidate, remaining }, EventView::Counted { count }) => {
            if count == 0 {
                (
                    CycleStateView::Recording { candidate },
                    ActionView::Record { link: candidate.link },
                )
            } else {
                scan(remaining)
            }
        },
        (CycleStateView::Scanning { .. }, EventView::StoreFailed) => rest(
            Outcome::Failed(Failure::Store),
        ),
        (CycleStateView::Recording { candidate }, EventView::Recorded) => (
            CycleStateView::Pausing { candidate },
            ActionView::Pause { seconds: PROCESSING_PAUSE_SECS },
        ),
        (CycleStateView::Recording { .. }, EventView::StoreFailed) => rest(
            Outcome::Failed(Failure::Store),
        ),
        (CycleStateView::Pausing { candidate }, EventView::PauseElapsed) => (
            CycleStateView::Enriching { candidate },
            ActionView::Enrich { reference: candidate.link },
        ),
        (CycleStateView::Enriching { candidate }, EventView::Enriched { summary }) => (
            CycleStateView::Delivering { candidate },
            ActionView::Deliver {
                message: message_text(shown_title(candidate.title), candidate.link, summary),
            },
        ),
        (CycleStateView::Enriching { .. }, EventView::EnrichmentFailed) => rest(
            Outcome::Failed(Failure::Enrichment),
        ),
        (CycleStateView::Delivering { .. }, EventView::Delivered) => rest(Outcome::Delivered),
        (CycleStateView::Delivering { .. }, EventView::DeliveryFailed) => rest(
            Outcome::Failed(Failure::Delivery),
        ),
        _ => rest(Outcome::OutOfTurn),
    }
}

#[verifier::external_type_specification]
#[verifier::external_body]
pub struct ExThreadRng(ThreadRng);

/// Calls `SliceRandom::choose` of the `rand` crate on the list: `None` for an
/// empty list, else a reference to one of its elements. Which one is left
/// open.
#[verifier::external_body]
fn choose_feed<'a>(feeds: &'a Vec<String>, rng: &mut ThreadRng) -> (chosen: Option<&'a String>)
    ensures
        feeds@.len() == 0 <==> chosen is None,
        chosen matches Some(feed) ==> exists|i: int| 0 <= i < feeds@.len() && feeds@[i] == *feed,
{
    feeds.choose(rng)
}

/// Picks one feed of the directory at random. An empty directory gives
/// `None`; any other gives one of its addresses.
pub fn select_feed(feeds: &Vec<String>, rng: &mut ThreadRng) -> (selected: Option<String>)
    ensures
        feeds@.len() == 0 <==> selected is None,
        selected matches Some(feed) ==> exists|i: int|
            0 <= i < feeds@.len() && (#[trigger] feeds@[i])@ == feed@,
{
    match choose_feed(feeds, rng) {
        Some(feed) => Some(feed.clone()),
        None => None,
    }
}

fn end_cycle(outcome: Outcome) -> (step: (CycleState, Action))
    ensures
        (step.0@, step.1@) == rest(outcome),
{
    (CycleState::Idle, Action::Rest { outcome, seconds: POLL_INTERVAL_SECS })
}

/// Starts a cycle on the feed that was selected: asks for its document, or
/// rests at once where no feed was selected.
pub fn begin_cycle(selected: Option<String>) -> (step: (CycleState, Action))
    ensures
        (step.0@, step.1@) == begin(text_view(selected)),
{
    match selected {
        Some(feed) => {
            let url = feed.clone();
            (CycleState::Fetching { feed }, Action::Fetch { url })
        },
        None => end_cycle(Outcome::NoFeeds),
    }
}

/// Leaves `Idle`: selects one feed of the directory at random and starts a
/// cycle on it. With an empty directory the cycle is over at once.
pub fn start_cycle(feeds: &Vec<String>, rng: &mut ThreadRng) -> (step: (CycleState, Action))
    ensures
        feeds@.len() == 0 ==> (step.0@, step.1@) == begin(None),
        feeds@.len() > 0 ==> exists|i: int|
            0 <= i < feeds@.len() && (step.0@, step.1@) == begin(Some((#[trigger] feeds@[i])@)),
{
    begin_cycle(select_feed(feeds, rng))
}

fn copy_text(text: &Option<String>) -> (copy: Option<String>)
    ensures
        text_view(copy) == text_view(*text),
{
    match text {
        Some(text) => Some(text.clone()),
        None => None,
    }
}

/// Scans `articles` from index `from` on for the first one that carries a
/// link, and asks the store about it. Without such an article the cycle ends
/// with nothing new.
pub fn scan_articles(articles: Vec<Article>, from: usize) -> (step: (CycleState, Action))
    ensures
        (step.0@, step.1@) == scan(remaining_from(articles_view(articles@), from as int)),
{
    let ghost all = articles_view(articles@);
    let mut i: usize = from;
    while i < articles.len()
        invariant
            from <= i,
            all == articles_view(articles@),
            scan(remaining_from(all, from as int)) == scan(remaining_from(all, i as int)),
        decreases articles@.len() - i,
    {
        proof {
            assert(all.skip(i as int)[0] == articles@[i as int]@);
            assert(all.skip(i as int).skip(1) == all.skip(i + 1));
        }
        if let Some(link) = &articles[i].link {
            let candidate = Candidate { link: link.clone(), title: copy_text(&articles[i].title) };
            let link = link.clone();
            return (CycleState::Scanning { candidate, articles, next: i + 1 }, Action::CheckSeen {
                link,
            });
        }
        i = i + 1;
    }
    end_cycle(Outcome::NothingNew)
}

/// Takes the cycle one step further: given the state and what came of its
/// request, the next state and the next request. An event that the state does
/// not wait for ends the cycle as out of turn.
pub fn step(state: CycleState, event: Event) -> (moved: (CycleState, Action))
    ensures
        (moved.0@, moved.1@) == next(state@, event@),
{
    match state {
        CycleState::Idle => end_cycle(Outcome::OutOfTurn),
        CycleState::Fetching { feed } => match event {
            Event::Fetched { document } => match read_articles(document.as_slice()) {
                Ok(articles) => {
                    assert(articles_view(articles@).skip(0) == articles_view(articles@));
                    scan_articles(articles, 0)
                },
                Err(_) => end_cycle(Outcome::Failed(Failure::Parse)),
            },
            Event::FetchFailed => end_cycle(Outcome::Failed(Failure::Fetch)),
            _ => end_cycle(Outcome::OutOfTurn),
        },
        CycleState::Scanning { candidate, articles, next } => match event {
            Event::Counted { count } => {
                if count == 0 {
                    let link = candidate.link.clone();
                    (CycleState::Recording { candidate }, Action::Record { link })
                } else {
                    scan_articles(articles, next)
                }
            },
            Event::StoreFailed => end_cycle(Outcome::Failed(Failure::Store)),
            _ => end_cycle(Outcome::OutOfTurn),
        },
        CycleState::Recording { candidate } => match event {
            Event::Recorded => (
                CycleState::Pausing { candidate },
                Action::Pause { seconds: PROCESSING_PAUSE_SECS },
            ),
            Event::StoreFailed => end_cycle(Outcome::Failed(Failure::Store)),
            _ => end_cycle(Outcome::OutOfTurn),
        },
        CycleState::Pausing { candidate } => match event {
            Event::PauseElapsed => {
                let reference = candidate.link.clone();
                (CycleState::Enriching { candidate }, Action::Enrich { reference })
            },
            _ => end_cycle(Outcome::OutOfTurn),
        },
        CycleState::Enriching { candidate } => match event {
            Event::Enriched { summary } => {
                let message = match &candidate.title {
                    Some(title) => format_message(
                        title.as_str(),
                        candidate.link.as_str(),
                        summary.as_str(),
                    ),
                    None => format_message(NO_TITLE, candidate.link.as_str(), summary.as_str()),
                };
                (CycleState::Delivering { candidate }, Action::Deliver { message })
            },
            Event::EnrichmentFailed => end_cycle(Outcome::Failed(Failure::Enrichment)),
            _ => end_cycle(Outcome::OutOfTurn),
        },
        CycleState::Delivering { candidate } => match event {
            Event::Delivered => end_cycle(Outcome::Delivered),
            Event::DeliveryFailed => end_cycle(Outcome::Failed(Failure::Delivery)),
            _ => end_cycle(Outcome::OutOfTurn),
        },
    }
}

} // verus!

//! What holds of the polling cycle whatever the outside world answers, and
//! what a cycle does when the world answers faithfully.

use crate::article::{parsed_articles, ArticleView};
use crate::cycle::{
    begin, next, rest, scan, ActionView, CandidateView, CycleStateView, EventView, Failure,
    Outcome, Step, POLL_INTERVAL_SECS, PROCESSING_PAUSE_SECS,
};
use crate::message::{message_text, shown_title};
use crate::store::StoreModel;
use vstd::prelude::*;

verus! {

/// The requests that the cycle issues when it is fed `events`, one after the
/// other, starting in `state`.
pub open spec fn drive(state: CycleStateView, events: Seq<EventView>) -> Seq<ActionView>
    decreases events.len(),
{
    if events.len() == 0 {
        Seq::empty()
    } else {
        let (state, action) = next(state, events[0]);
        seq![action] + drive(state, events.skip(1))
    }
}

/// Once a cycle is over, nothing but rest is asked for until a new one is
/// started, whatever arrives.
pub proof fn law_idle_only_rests(events: Seq<EventView>)
    ensures
        drive(CycleStateView::Idle, events).len() == events.len(),
        forall|i: int|
            0 <= i < events.len() ==> (#[trigger] drive(CycleStateView::Idle, events)[i]) is Rest,
    decreases events.len(),
{
    if events.len() > 0 {
        law_idle_only_rests(events.skip(1));
    }
}

/// A failed fetch ends the cycle: whatever arrives afterwards, neither the
/// store nor the summarizer nor the channel is asked for anything.
pub proof fn law_failed_fetch_ends_cycle(feed: Seq<char>, later: Seq<EventView>)
    ensures
        next(CycleStateView::Fetching { feed }, EventView::FetchFailed) == rest(
            Outcome::Failed(Failure::Fetch),
        ),
        forall|i: int|
            0 <= i <= later.len() ==> (#[trigger] drive(
                CycleStateView::Fetching { feed },
                seq![EventView::FetchFailed] + later,
            )[i]) is Rest,
{
    let events = seq![EventView::FetchFailed] + later;
    assert(events.skip(1) == later);
    law_idle_only_rests(later);
}

/// A failed existence check ends the cycle: whatever arrives afterwards, no
/// insertion, no summary and no delivery is asked for.
pub proof fn law_failed_check_ends_cycle(
    candidate: CandidateView,
    remaining: Seq<ArticleView>,
    later: Seq<EventView>,
)
    ensures
        next(CycleStateView::Scanning { candidate, remaining }, EventView::StoreFailed) == rest(
            Outcome::Failed(Failure::Store),
        ),
        forall|i: int|
            0 <= i <= later.len() ==> (#[trigger] drive(
                CycleStateView::Scanning { candidate, remaining },
                seq![EventView::StoreFailed] + later,
            )[i]) is Rest,
{
    let events = seq![EventView::StoreFailed] + later;
    assert(events.skip(1) == later);
    law_idle_only_rests(later);
}

/// Whether `link` is the link of one of `articles`.
pub open spec fn links_to(articles: Seq<ArticleView>, link: Seq<char>) -> bool {
    exists|k: int| 0 <= k < articles.len() && (#[trigger] articles[k]).link == Some(link)
}

/// Whether `state` can be a state of a cycle on `articles`: the article it
/// deals with is one of them and carries the link, and what remains to be
/// scanned is a tail of them.
pub open spec fn belongs(state: CycleStateView, articles: Seq<ArticleView>) -> bool {
    match state {
        CycleStateView::Idle => true,
        CycleStateView::Fetching { .. } => false,
        CycleStateView::Scanning { candidate, remaining } => links_to(articles, candidate.link)
            && exists|n: int| 0 <= n <= articles.len() && remaining == #[trigger] articles.skip(n),
        CycleStateView::Recording { candidate } => links_to(articles, candidate.link),
        CycleStateView::Pausing { candidate } => links_to(articles, candidate.link),
        CycleStateView::Enriching { candidate } => links_to(articles, candidate.link),
        CycleStateView::Delivering { candidate } => links_to(articles, candidate.link),
    }
}

/// Whether `action` is a request that a cycle on `articles` may issue: one
/// that names a link names the link of one of them.
pub open spec fn concerns(action: ActionView, articles: Seq<ArticleView>) -> bool {
    match action {
        ActionView::Fetch { .. } => false,
        ActionView::CheckSeen { link } => links_to(articles, link),
        ActionView::Record { link } => links_to(articles, link),
        ActionView::Enrich { reference } => links_to(articles, reference),
        ActionView::Pause { .. } => true,
        ActionView::Deliver { .. } => true,
        ActionView::Rest { .. } => true,
    }
}

/// What the cycle keeps of an article that carries a link.
pub open spec fn candidate_of(article: ArticleView) -> CandidateView
    recommends
        article.link is Some,
{
    CandidateView { link: article.link->0, title: article.title }
}

/// A scan stops at the first article that carries a link, however many
/// without one precede it: that article becomes the candidate, the store is
/// asked about its link, and the articles after it remain to be scanned.
pub proof fn law_scan_stops_at_first_link(articles: Seq<ArticleView>, k: int)
    requires
        0 <= k < articles.len(),
        articles[k].link is Some,
        forall|j: int| 0 <= j < k ==> (#[trigger] articles[j]).link is None,
    ensures
        scan(articles) == (
            CycleStateView::Scanning {
                candidate: candidate_of(articles[k]),
                remaining: articles.skip(k + 1),
            },
            ActionView::CheckSeen { link: articles[k].link->0 },
        ),
    decreases articles.len(),
{
    if k > 0 {
        let tail = articles.skip(1);
        assert(articles[0].link is None);
        assert(tail[k - 1] == articles[k]);
        assert forall|j: int| 0 <= j < k - 1 implies (#[trigger] tail[j]).link is None by {
            assert(tail[j] == articles[j + 1]);
        }
        assert(tail.skip(k) == articles.skip(k + 1));
        law_scan_stops_at_first_link(tail, k - 1);
    }
}

/// A scan of articles of which none carries a link ends the cycle with
/// nothing new, and asks the store nothing.
pub proof fn law_scan_without_links_rests(articles: Seq<ArticleView>)
    requires
        forall|j: int| 0 <= j < articles.len() ==> (#[trigger] articles[j]).link is None,
    ensures
        scan(articles) == rest(Outcome::NothingNew),
    decreases articles.len(),
{
    if articles.len() > 0 {
        let tail = articles.skip(1);
        assert(articles[0].link is None);
        assert forall|j: int| 0 <= j < tail.len() implies (#[trigger] tail[j]).link is None by {
            assert(tail[j] == articles[j + 1]);
        }
        law_scan_without_links_rests(tail);
    }
}

/// The scan of a tail of `articles` yields a state of a cycle on `articles`
/// and a request that concerns them.
pub proof fn law_scan_belongs(articles: Seq<ArticleView>, n: int)
    requires
        0 <= n <= articles.len(),
    ensures
        belongs(scan(articles.skip(n)).0, articles),
        concerns(scan(articles.skip(n)).1, articles),
    decreases articles.len() - n,
{
    let tail = articles.skip(n);
    if tail.len() > 0 {
        assert(tail[0] == articles[n]);
        assert(tail.skip(1) == articles.skip(n + 1));
        if tail[0].link is None {
            law_scan_belongs(articles, n + 1);
        }
    }
}

/// No request of a cycle touches an article without a link: from a state of
/// a cycle on `articles`, whatever arrives, the next state is again one of
/// that cycle, and the next request, where it names a link to check, record
/// or summarize, names the link of one of the articles.
pub proof fn law_only_linked_articles_are_touched(
    articles: Seq<ArticleView>,
    state: CycleStateView,
    event: EventView,
)
    requires
        belongs(state, articles),
    ensures
        belongs(next(state, event).0, articles),
        concerns(next(state, event).1, articles),
{
    match state {
        CycleStateView::Scanning { candidate, remaining } => {
            let n = choose|n: int| 0 <= n <= articles.len() && remaining == #[trigger] articles.skip(n);
            law_scan_belongs(articles, n);
        },
        _ => {},
    }
}

/// Whatever arrives and in whatever order, a cycle on `articles` never asks
/// to check, record or summarize anything but the link of one of them.
pub proof fn law_requests_concern_linked_articles(
    articles: Seq<ArticleView>,
    state: CycleStateView,
    events: Seq<EventView>,
)
    requires
        belongs(state, articles),
    ensures
        drive(state, events).len() == events.len(),
        forall|i: int|
            0 <= i < events.len() ==> concerns(#[trigger] drive(state, events)[i], articles),
    decreases events.len(),
{
    if events.len() > 0 {
        law_only_linked_articles_are_touched(articles, state, events[0]);
        law_requests_concern_linked_articles(
            articles,
            next(state, events[0]).0,
            events.skip(1),
        );
    }
}

/// A world that answers every request faithfully: a store that holds what
/// was inserted, and for each address the document behind it, for each
/// link the summary of its article, for each message whether the channel
/// takes it, each of them possibly failing.
pub struct World {
    pub store: StoreModel,
    pub documents: spec_fn(Seq<char>) -> Option<Seq<u8>>,
    pub summaries: spec_fn(Seq<char>) -> Option<Seq<char>>,
    pub channel: spec_fn(Seq<char>) -> bool,
}

impl World {
    /// The same world with another store.
    pub open spec fn with_store(self, store: StoreModel) -> World {
        World {
            store,
            documents: self.documents,
            summaries: self.summaries,
            channel: self.channel,
        }
    }

    /// How the world answers a request, and what it is afterwards. Only an
    /// accepted insertion changes it.
    pub open spec fn answer(self, action: ActionView) -> (World, EventView) {
        match action {
            ActionView::Fetch { url } => match (self.documents)(url) {
                Some(document) => (self, EventView::Fetched { document }),
                None => (self, EventView::FetchFailed),
            },
            ActionView::CheckSeen { link } => (
                self,
                EventView::Counted { count: self.store.reported_count(link) },
            ),
            ActionView::Record { link } => if self.store.accepts(link) {
                (self.with_store(self.store.inserted(link)), EventView::Recorded)
            } else {
                (self, EventView::StoreFailed)
            },
            ActionView::Pause { .. } => (self, EventView::PauseElapsed),
            ActionView::Enrich { reference } => match (self.summaries)(reference) {
                Some(summary) => (self, EventView::Enriched { summary }),
                None => (self, EventView::EnrichmentFailed),
            },
            ActionView::Deliver { message } => if (self.channel)(message) {
                (self, EventView::Delivered)
            } else {
                (self, EventView::DeliveryFailed)
            },
            // A rest asks nothing of the world; a cycle played by `run` ends with it.
            ActionView::Rest { .. } => (self, EventView::PauseElapsed),
        }
    }
}

/// A cycle played against `world`: the requests issued from `step` on, up to
/// and including the rest that ends the cycle, and the world afterwards.
/// `fuel` bounds the number of requests that are answered.
pub open spec fn run(step: Step, world: World, fuel: nat) -> (Seq<ActionView>, World)
    decreases fuel,
{
    if step.1 is Rest || fuel == 0 {
        (seq![step.1], world)
    } else {
        let (world, event) = world.answer(step.1);
        let (trace, world) = run(next(step.0, event), world, (fuel - 1) as nat);
        (seq![step.1] + trace, world)
    }
}

/// The existence checks that a scan of `articles` makes when every linked
/// article turns out to be recorded: one for each article that carries a
/// link, in order, and none for the others.
pub open spec fn checks(articles: Seq<ArticleView>) -> Seq<ActionView>
    decreases articles.len(),
{
    if articles.len() == 0 {
        Seq::empty()
    } else {
        let first = match articles[0].link {
            Some(link) => seq![ActionView::CheckSeen { link }],
            None => Seq::empty(),
        };
        first + checks(articles.skip(1))
    }
}

/// How a cycle ends once a summary was asked for.
pub open spec fn conclusion(candidate: CandidateView, world: World) -> Seq<ActionView> {
    match (world.summaries)(candidate.link) {
        Some(summary) => {
            let message = message_text(shown_title(candidate.title), candidate.link, summary);
            let outcome = if (world.channel)(message) {
                Outcome::Delivered
            } else {
                Outcome::Failed(Failure::Delivery)
            };
            seq![
                ActionView::Deliver { message },
                ActionView::Rest { outcome, seconds: POLL_INTERVAL_SECS },
            ]
        },
        None => seq![
            ActionView::Rest {
                outcome: Outcome::Failed(Failure::Enrichment),
                seconds: POLL_INTERVAL_SECS,
            },
        ],
    }
}

/// What a cycle asks for about an article that is not recorded yet: the
/// check, one insertion, the pause, one summary, and at most one delivery.
pub open spec fn handling(candidate: CandidateView, world: World) -> Seq<ActionView> {
    seq![
        ActionView::CheckSeen { link: candidate.link },
        ActionView::Record { link: candidate.link },
        ActionView::Pause { seconds: PROCESSING_PAUSE_SECS },
        ActionView::Enrich { reference: candidate.link },
    ] + conclusion(candidate, world)
}

/// Against a faithful world a cycle handles the first article that carries a
/// link and is not recorded, and nothing else: it checks the linked articles
/// before it, finds them recorded, then checks, records, summarizes and
/// delivers this one. The articles after it are not touched, exactly one
/// insertion is made, and the link is recorded afterwards whether or not
/// summary and delivery succeed.
pub proof fn law_cycle_handles_first_new_article(
    articles: Seq<ArticleView>,
    k: int,
    world: World,
    fuel: nat,
)
    requires
        0 <= k < articles.len(),
        articles[k].link is Some,
        !world.store.holds(articles[k].link->0),
        forall|j: int|
            0 <= j < k && (#[trigger] articles[j]).link is Some ==> world.store.holds(
                articles[j].link->0,
            ),
        fuel >= k + 5,
    ensures
        run(scan(articles), world, fuel) == (
            checks(articles.take(k)) + handling(candidate_of(articles[k]), world),
            world.with_store(world.store.inserted(articles[k].link->0)),
        ),
    decreases articles.len(),
{
    let tail = articles.skip(1);
    if k == 0 {
        let candidate = candidate_of(articles[0]);
        let link = candidate.link;
        let recorded = world.with_store(world.store.inserted(link));
        assert(articles.take(0) == Seq::<ArticleView>::empty());
        assert(checks(articles.take(0)) == Seq::<ActionView>::empty());
        reveal_with_fuel(run, 6);
        let (trace, after) = run(scan(articles), world, fuel);
        assert(after == recorded);
        assert(trace == handling(candidate, world));
        assert(checks(articles.take(k)) + handling(candidate, world) == handling(
            candidate,
            world,
        ));
    } else {
        assert(tail[k - 1] == articles[k]);
        assert forall|j: int|
            0 <= j < k - 1 && (#[trigger] tail[j]).link is Some implies world.store.holds(
            tail[j].link->0,
        ) by {
            assert(tail[j] == articles[j + 1]);
        }
        assert(articles.take(k)[0] == articles[0]);
        assert(articles.take(k).skip(1) == tail.take(k - 1));
        let rest_of_trace = checks(tail.take(k - 1)) + handling(candidate_of(articles[k]), world);
        match articles[0].link {
            Some(link) => {
                assert(world.store.holds(link));
                law_cycle_handles_first_new_article(tail, k - 1, world, (fuel - 1) as nat);
                assert(checks(articles.take(k)) == seq![ActionView::CheckSeen { link }] + checks(
                    tail.take(k - 1),
                ));
                assert(run(scan(articles), world, fuel).0 == seq![ActionView::CheckSeen { link }]
                    + rest_of_trace);
                assert(seq![ActionView::CheckSeen { link }] + rest_of_trace == checks(
                    articles.take(k),
                ) + handling(candidate_of(articles[k]), world));
            },
            None => {
                law_cycle_handles_first_new_article(tail, k - 1, world, fuel);
                assert(checks(articles.take(k)) == checks(tail.take(k - 1)));
            },
        }
    }
}

/// Against a faithful world a cycle on a feed whose linked articles are all
/// recorded asks the store once about each of them, in order, and then
/// rests with nothing new; the store is left as it was.
pub proof fn law_cycle_without_new_article_rests(
    articles: Seq<ArticleView>,
    world: World,
    fuel: nat,
)
    requires
        forall|j: int|
            0 <= j < articles.len() && (#[trigger] articles[j]).link is Some ==> world.store.holds(
                articles[j].link->0,
            ),
        fuel >= articles.len(),
    ensures
        run(scan(articles), world, fuel) == (
            checks(articles) + seq![
                ActionView::Rest { outcome: Outcome::NothingNew, seconds: POLL_INTERVAL_SECS },
            ],
            world,
        ),
    decreases articles.len(),
{
    let done = seq![
        ActionView::Rest { outcome: Outcome::NothingNew, seconds: POLL_INTERVAL_SECS },
    ];
    if articles.len() == 0 {
        assert(checks(articles) + done == done);
    } else {
        let tail = articles.skip(1);
        assert forall|j: int|
            0 <= j < tail.len() && (#[trigger] tail[j]).link is Some implies world.store.holds(
            tail[j].link->0,
        ) by {
            assert(tail[j] == articles[j + 1]);
        }
        match articles[0].link {
            Some(link) => {
                assert(world.store.holds(link));
                law_cycle_without_new_article_rests(tail, world, (fuel - 1) as nat);
                assert(run(scan(articles), world, fuel).0 == seq![ActionView::CheckSeen { link }]
                    + (checks(tail) + done));
                assert(seq![ActionView::CheckSeen { link }] + (checks(tail) + done) == checks(
                    articles,
                ) + done);
            },
            None => {
                law_cycle_without_new_article_rests(tail, world, fuel);
            },
        }
    }
}

/// A whole cycle against a faithful world starts with the fetch of the
/// selected feed. Where the document cannot be had, or is no feed, the cycle
/// rests at once and asks nothing else; otherwise it goes on with the scan of
/// the articles read from the document.
pub proof fn law_cycle_starts_with_the_fetch(feed: Seq<char>, world: World, fuel: nat)
    requires
        fuel >= 1,
    ensures
        run(begin(Some(feed)), world, fuel) == match (world.documents)(feed) {
            None => (
                seq![
                    ActionView::Fetch { url: feed },
                    ActionView::Rest {
                        outcome: Outcome::Failed(Failure::Fetch),
                        seconds: POLL_INTERVAL_SECS,
                    },
                ],
                world,
            ),
            Some(document) => match parsed_articles(document) {
                None => (
                    seq![
                        ActionView::Fetch { url: feed },
                        ActionView::Rest {
                            outcome: Outcome::Failed(Failure::Parse),
                            seconds: POLL_INTERVAL_SECS,
                        },
                    ],
                    world,
                ),
                Some(articles) => {
                    let (trace, after) = run(scan(articles), world, (fuel - 1) as nat);
                    (seq![ActionView::Fetch { url: feed }] + trace, after)
                },
            },
        },
{
    reveal_with_fuel(run, 2);
    let failed_fetch = seq![
        ActionView::Fetch { url: feed },
        ActionView::Rest { outcome: Outcome::Failed(Failure::Fetch), seconds: POLL_INTERVAL_SECS },
    ];
    let failed_parse = seq![
        ActionView::Fetch { url: feed },
        ActionView::Rest { outcome: Outcome::Failed(Failure::Parse), seconds: POLL_INTERVAL_SECS },
    ];
    assert(seq![failed_fetch[0]] + seq![failed_fetch[1]] == failed_fetch);
    assert(seq![failed_parse[0]] + seq![failed_parse[1]] == failed_parse);
}

/// The number of insertions among the requests of `trace`.
pub open spec fn insertions(trace: Seq<ActionView>) -> nat
    decreases trace.len(),
{
    if trace.len() == 0 {
        0
    } else {
        insertions(trace.drop_last()) + if trace.last() is Record {
            1nat
        } else {
            0nat
        }
    }
}

/// The number of deliveries among the requests of `trace`.
pub open spec fn deliveries(trace: Seq<ActionView>) -> nat
    decreases trace.len(),
{
    if trace.len() == 0 {
        0
    } else {
        deliveries(trace.drop_last()) + if trace.last() is Deliver {
            1nat
        } else {
            0nat
        }
    }
}

proof fn lemma_counts_add(a: Seq<ActionView>, b: Seq<ActionView>)
    ensures
        insertions(a + b) == insertions(a) + insertions(b),
        deliveries(a + b) == deliveries(a) + deliveries(b),
    decreases b.len(),
{
    if b.len() == 0 {
        assert(a + b == a);
    } else {
        assert((a + b).drop_last() == a + b.drop_last());
        lemma_counts_add(a, b.drop_last());
    }
}

proof fn lemma_checks_only_check(articles: Seq<ArticleView>)
    ensures
        insertions(checks(articles)) == 0,
        deliveries(checks(articles)) == 0,
    decreases articles.len(),
{
    if articles.len() > 0 {
        let first = match articles[0].link {
            Some(link) => seq![ActionView::CheckSeen { link }],
            None => Seq::empty(),
        };
        lemma_checks_only_check(articles.skip(1));
        lemma_counts_add(first, checks(articles.skip(1)));
        reveal_with_fuel(insertions, 2);
        reveal_with_fuel(deliveries, 2);
    }
}

/// For a feed whose first new article is preceded only by recorded ones, a
/// cycle against a faithful world makes exactly one insertion, and exactly
/// one delivery where a summary was obtained, none where it was not.
pub proof fn law_one_insertion_one_delivery(
    articles: Seq<ArticleView>,
    k: int,
    world: World,
    fuel: nat,
)
    requires
        0 <= k < articles.len(),
        articles[k].link is Some,
        !world.store.holds(articles[k].link->0),
        forall|j: int|
            0 <= j < k && (#[trigger] articles[j]).link is Some ==> world.store.holds(
                articles[j].link->0,
            ),
        fuel >= k + 5,
    ensures
        insertions(run(scan(articles), world, fuel).0) == 1,
        deliveries(run(scan(articles), world, fuel).0) == if (world.summaries)(
            articles[k].link->0,
        ) is Some {
            1nat
        } else {
            0nat
        },
{
    let candidate = candidate_of(articles[k]);
    law_cycle_handles_first_new_article(articles, k, world, fuel);
    lemma_checks_only_check(articles.take(k));
    lemma_counts_add(checks(articles.take(k)), handling(candidate, world));
    let opening = seq![
        ActionView::CheckSeen { link: candidate.link },
        ActionView::Record { link: candidate.link },
        ActionView::Pause { seconds: PROCESSING_PAUSE_SECS },
        ActionView::Enrich { reference: candidate.link },
    ];
    lemma_counts_add(opening, conclusion(candidate, world));
    reveal_with_fuel(insertions, 5);
    reveal_with_fuel(deliveries, 5);
    assert(opening.drop_last().drop_last().drop_last().drop_last().len() == 0);
    let closing = conclusion(candidate, world);
    assert(closing.len() == 2 ==> closing.drop_last().drop_last().len() == 0);
    assert(closing.len() == 1 ==> closing.drop_last().len() == 0);
}

/// Two cycles that share one store.
pub struct Race {
    pub first: Step,
    pub second: Step,
    pub world: World,
}

/// One cycle has its pending request answered by the world and moves on. A
/// cycle that is at rest stays as it is.
pub open spec fn advance(step: Step, world: World) -> (Step, World) {
    if step.1 is Rest {
        (step, world)
    } else {
        let (world, event) = world.answer(step.1);
        (next(step.0, event), world)
    }
}

/// The two cycles take turns as `schedule` says: `true` lets the first one
/// have a request answered, `false` the second.
pub open spec fn interleave(race: Race, schedule: Seq<bool>) -> Race
    decreases schedule.len(),
{
    if schedule.len() == 0 {
        race
    } else {
        let moved = if schedule[0] {
            let (first, world) = advance(race.first, race.world);
            Race { first, second: race.second, world }
        } else {
            let (second, world) = advance(race.second, race.world);
            Race { first: race.first, second, world }
        };
        interleave(moved, schedule.skip(1))
    }
}

/// A schedule in which each of the two cycles gets two requests answered:
/// its existence check and, where that found nothing, its insertion.
pub open spec fn two_turns_each(schedule: Seq<bool>) -> bool {
    &&& schedule.len() == 4
    &&& (if schedule[0] { 1int } else { 0int }) + (if schedule[1] { 1int } else { 0int }) + (
    if schedule[2] { 1int } else { 0int }) + (if schedule[3] { 1int } else { 0int }) == 2
}

/// Whether a cycle has reserved `link` for itself: its check found nothing,
/// its insertion was accepted, and it goes on to deliver.
pub open spec fn has_reserved(step: Step, link: Seq<char>) -> bool {
    step.0 matches CycleStateView::Pausing { candidate } && candidate.link == link
}

/// Two cycles that are both about to check the same link.
pub open spec fn racing(
    link: Seq<char>,
    first_title: Option<Seq<char>>,
    second_title: Option<Seq<char>>,
    world: World,
) -> Race {
    Race {
        first: (
            CycleStateView::Scanning {
                candidate: CandidateView { link, title: first_title },
                remaining: Seq::empty(),
            },
            ActionView::CheckSeen { link },
        ),
        second: (
            CycleStateView::Scanning {
                candidate: CandidateView { link, title: second_title },
                remaining: Seq::empty(),
            },
            ActionView::CheckSeen { link },
        ),
        world,
    }
}

/// Checking and then inserting is not atomic. When two cycles check and
/// insert the same link, never recorded before, against one store, then
/// however their requests interleave at most one of them reserves the link,
/// if and only if the store enforces uniqueness. Without the constraint both
/// may pass the check before either inserts; both insertions succeed, the
/// link is recorded twice, and both go on to deliver.
pub proof fn law_double_delivery_iff_no_uniqueness(
    link: Seq<char>,
    first_title: Option<Seq<char>>,
    second_title: Option<Seq<char>>,
    world: World,
)
    requires
        !world.store.holds(link),
    ensures
        world.store.unique <==> (forall|schedule: Seq<bool>| #[trigger]
            two_turns_each(schedule) ==> {
                let end = interleave(racing(link, first_title, second_title, world), schedule);
                !(has_reserved(end.first, link) && has_reserved(end.second, link))
            }),
        !world.store.unique ==> {
            let end = interleave(
                racing(link, first_title, second_title, world),
                seq![true, false, true, false],
            );
            &&& has_reserved(end.first, link)
            &&& has_reserved(end.second, link)
            &&& end.world.store.records.count(link) == 2
        },
{
    broadcast use vstd::multiset::group_multiset_axioms;

    let start = racing(link, first_title, second_title, world);
    let clash = seq![true, false, true, false];
    reveal_with_fuel(interleave, 5);
    reveal_with_fuel(scan, 2);
    assert(two_turns_each(clash));
    if world.store.unique {
        assert forall|schedule: Seq<bool>| #[trigger] two_turns_each(schedule) implies {
            let end = interleave(start, schedule);
            !(has_reserved(end.first, link) && has_reserved(end.second, link))
        } by {
            let s1 = schedule.skip(1);
            let s2 = s1.skip(1);
            let s3 = s2.skip(1);
            assert(s1[0] == schedule[1] && s2[0] == schedule[2] && s3[0] == schedule[3]);
            assert(s3.skip(1).len() == 0);
        }
    } else {
        let c1 = clash.skip(1);
        let c2 = c1.skip(1);
        let c3 = c2.skip(1);
        assert(c1[0] == false && c2[0] == true && c3[0] == false);
        assert(c3.skip(1).len() == 0);
        let end = interleave(start, clash);
        assert(has_reserved(end.first, link));
        assert(has_reserved(end.second, link));
        assert(end.world.store.records.count(link) == 2);
    }
}

} // verus!

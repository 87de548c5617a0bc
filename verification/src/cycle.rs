//! One refresh, step by step.
//!
//! A refresh alternates fetching with deciding what to fetch next. The
//! fetching is the caller's; the deciding is done here. A [`Cycle`] holds
//! what is known so far and asks for the first thing that is missing: the tag
//! catalogue, the archived threads, the active threads, then for each
//! eligible thread its messages, page by page, and a probe of each surviving
//! attachment. The caller performs the [`Action`] and reports back with an
//! [`Event`]; [`Cycle::step`] takes that in and either asks for the next
//! thing or ends the cycle with its outcome: the [`Harvest`], or the listing
//! that failed.

use vstd::prelude::*;
use crate::aggregate::{Harvest, HarvestView, ThreadHarvest, ThreadHarvestView};
use crate::classify::{Probe, ProbeView};
use crate::error::{ExtractionError, UpstreamFetchError};
use crate::extract::{surviving, surviving_attachments};
use crate::forum::{Message, MessageView, Thread, ThreadView};
use crate::listing::{eligible, eligible_threads};
use crate::model::{Tag, TagView};

verus! {

/// What a cycle asks its caller to do next.
#[derive(Debug, PartialEq, Eq)]
pub enum Action {
    /// Fetch the tag catalogue of the forum.
    FetchCatalogue,
    /// List the archived threads of the forum.
    FetchArchivedThreads,
    /// List the active threads of the guild.
    FetchActiveThreads,
    /// Fetch a page of the messages of `thread`: the one that lies before the
    /// message `before`, or the first where `before` is `None`.
    FetchMessages { thread: u64, before: Option<u64> },
    /// Probe the resource at `source` for its content type.
    Probe { source: String },
}

/// What an [`Action`] is in contracts.
#[verifier::ext_equal]
pub enum ActionView {
    FetchCatalogue,
    FetchArchivedThreads,
    FetchActiveThreads,
    FetchMessages { thread: u64, before: Option<u64> },
    Probe { source: Seq<char> },
}

impl View for Action {
    type V = ActionView;

    open spec fn view(&self) -> ActionView {
        match self {
            Action::FetchCatalogue => ActionView::FetchCatalogue,
            Action::FetchArchivedThreads => ActionView::FetchArchivedThreads,
            Action::FetchActiveThreads => ActionView::FetchActiveThreads,
            Action::FetchMessages { thread, before } => ActionView::FetchMessages {
                thread: *thread,
                before: *before,
            },
            Action::Probe { source } => ActionView::Probe { source: source@ },
        }
    }
}

/// What the caller reports back after an [`Action`].
#[derive(Debug, PartialEq, Eq)]
pub enum Event {
    /// The tag catalogue, or `None` where it could not be fetched.
    Catalogue(Option<Vec<Tag>>),
    /// The archived threads, or `None` where they could not be listed.
    ArchivedThreads(Option<Vec<Thread>>),
    /// The active threads, or `None` where they could not be listed.
    ActiveThreads(Option<Vec<Thread>>),
    /// A page of messages, empty where the thread has no more, or the reason
    /// why the page could not be fetched.
    Messages(Result<Vec<Message>, ExtractionError>),
    /// What probing the attachment found.
    Probed(Probe),
}

/// What an [`Event`] is in contracts.
#[verifier::ext_equal]
pub enum EventView {
    Catalogue(Option<Seq<TagView>>),
    ArchivedThreads(Option<Seq<ThreadView>>),
    ActiveThreads(Option<Seq<ThreadView>>),
    Messages(Result<Seq<MessageView>, ExtractionError>),
    Probed(ProbeView),
}

impl View for Event {
    type V = EventView;

    open spec fn view(&self) -> EventView {
        match self {
            Event::Catalogue(catalogue) => EventView::Catalogue(catalogue.deep_view()),
            Event::ArchivedThreads(threads) => EventView::ArchivedThreads(threads.deep_view()),
            Event::ActiveThreads(threads) => EventView::ActiveThreads(threads.deep_view()),
            Event::Messages(Ok(page)) => EventView::Messages(Ok(page.deep_view())),
            Event::Messages(Err(e)) => EventView::Messages(Err(*e)),
            Event::Probed(found) => EventView::Probed(found@),
        }
    }
}

/// A refresh under way: what has been fetched so far.
#[derive(Debug)]
pub struct Cycle {
    forum_id: u64,
    catalogue: Option<Vec<Tag>>,
    archived: Option<Vec<Thread>>,
    threads: Option<Vec<Thread>>,
    done: Vec<ThreadHarvest>,
    fetched: Vec<Message>,
    sources: Option<Vec<String>>,
    probes: Vec<Probe>,
}

/// What a [`Cycle`] is in contracts.
#[verifier::ext_equal]
pub struct CycleView {
    /// The forum whose threads are aggregated.
    pub forum_id: u64,
    /// The tag catalogue, once it is fetched.
    pub catalogue: Option<Seq<TagView>>,
    /// The archived threads, once they are listed.
    pub archived: Option<Seq<ThreadView>>,
    /// The eligible threads, once the active threads are listed too.
    pub threads: Option<Seq<ThreadView>>,
    /// The harvests of the threads that are dealt with, in thread order. The
    /// thread in hand is the one behind them.
    pub done: Seq<ThreadHarvestView>,
    /// The messages of the thread in hand that are fetched so far.
    pub fetched: Seq<MessageView>,
    /// The surviving attachments of the thread in hand, once all of its
    /// messages are fetched.
    pub sources: Option<Seq<Seq<char>>>,
    /// What the probes of the thread in hand found so far.
    pub probes: Seq<ProbeView>,
}

/// How a step ends: with the cycle going on and the next thing to do, or
/// with the outcome of the refresh.
#[derive(Debug)]
pub enum Step {
    Continue(Cycle, Action),
    Finished(Result<Harvest, UpstreamFetchError>),
}

/// What a [`Step`] is in contracts.
#[verifier::ext_equal]
pub enum StepView {
    Continue(CycleView, ActionView),
    Finished(Result<HarvestView, UpstreamFetchError>),
}

/// Whether a harvest holds a probe for each surviving attachment of its
/// thread, and none where the messages of the thread were not fetched.
pub open spec fn probed_in_full(harvest: ThreadHarvestView) -> bool {
    match harvest.messages {
        Ok(messages) => harvest.probes.len() == surviving(messages).len(),
        Err(_) => harvest.probes.len() == 0,
    }
}

/// Whether a harvest covers `threads`: it holds one harvest for each of
/// them, in their order, and each is probed in full.
pub open spec fn covers(harvest: HarvestView, threads: Seq<ThreadView>) -> bool {
    &&& harvest.threads.len() == threads.len()
    &&& forall|i: int|
        0 <= i < threads.len() ==> (#[trigger] harvest.threads[i]).thread == threads[i]
            && probed_in_full(harvest.threads[i])
}

/// Whether what a cycle holds fits together: nothing is known before what
/// has to be known first, the threads dealt with are the first of the
/// eligible ones with a thread still to go, and the probes belong to the
/// surviving attachments of the thread in hand with one still to come.
pub open spec fn well_formed(c: CycleView) -> bool {
    &&& c.archived is Some ==> c.catalogue is Some
    &&& c.threads is Some ==> c.archived is Some
    &&& c.threads is None ==> c.done.len() == 0 && c.fetched.len() == 0 && c.sources is None
    &&& c.threads matches Some(threads) ==> c.done.len() < threads.len() && forall|i: int|
        0 <= i < c.done.len() ==> (#[trigger] c.done[i]).thread == threads[i] && probed_in_full(
            c.done[i],
        )
    &&& c.sources is None ==> c.probes.len() == 0
    &&& c.sources matches Some(sources) ==> sources == surviving(c.fetched) && c.probes.len()
        < sources.len()
}

/// Where the next page of a thread starts, given the messages fetched so far:
/// before the last of them, and at the newest message of the thread where
/// none is fetched yet.
pub open spec fn next_page(fetched: Seq<MessageView>) -> Option<u64> {
    if fetched.len() == 0 {
        None
    } else {
        Some(fetched.last().id)
    }
}

/// The cycle at its start: nothing is known.
pub open spec fn initial(forum_id: u64) -> CycleView {
    CycleView {
        forum_id,
        catalogue: None,
        archived: None,
        threads: None,
        done: Seq::empty(),
        fetched: Seq::empty(),
        sources: None,
        probes: Seq::empty(),
    }
}

/// What a cycle waits for: the first thing that it does not know yet.
pub open spec fn awaited(c: CycleView) -> ActionView {
    if c.catalogue is None {
        ActionView::FetchCatalogue
    } else if c.archived is None {
        ActionView::FetchArchivedThreads
    } else if c.threads is None {
        ActionView::FetchActiveThreads
    } else if c.sources is None {
        ActionView::FetchMessages {
            thread: c.threads->0[c.done.len() as int].id,
            before: next_page(c.fetched),
        }
    } else {
        ActionView::Probe { source: c.sources->0[c.probes.len() as int] }
    }
}

/// The cycle goes on from `c`, with what `c` waits for as the next action.
pub open spec fn proceed(c: CycleView) -> StepView {
    StepView::Continue(c, awaited(c))
}

/// The thread in hand is dealt with: its harvest joins the others. Where it
/// was the last eligible thread the cycle ends with the harvest of all;
/// otherwise the next thread is taken in hand.
pub open spec fn thread_closed(
    c: CycleView,
    messages: Result<Seq<MessageView>, ExtractionError>,
    probes: Seq<ProbeView>,
) -> StepView {
    let threads = c.threads->0;
    let done = c.done.push(
        ThreadHarvestView { thread: threads[c.done.len() as int], messages, probes },
    );
    if done.len() == threads.len() {
        StepView::Finished(Ok(HarvestView { catalogue: c.catalogue->0, threads: done }))
    } else {
        proceed(
            CycleView { done, fetched: Seq::empty(), sources: None, probes: Seq::empty(), ..c },
        )
    }
}

/// What a step makes of a cycle and an event.
///
/// - A listing that failed ends the cycle with the error that names it.
/// - A listing that came is kept. With the active threads the eligible
///   threads are settled; where there is none, the cycle ends with a harvest
///   without threads.
/// - A page of messages is put behind those fetched so far. An empty page
///   says that the thread is exhausted: its surviving attachments are then to
///   be probed, or, where none survives, the thread is dealt with.
/// - A page that could not be fetched ends the thread: it is recorded with
///   that error and without probes.
/// - A probe is kept; with the last one the thread is dealt with.
/// - An event that does not answer what the cycle waits for changes nothing.
pub open spec fn stepped(c: CycleView, event: EventView) -> StepView {
    match (awaited(c), event) {
        (ActionView::FetchCatalogue, EventView::Catalogue(None)) => StepView::Finished(
            Err(UpstreamFetchError::TagCatalogue),
        ),
        (ActionView::FetchCatalogue, EventView::Catalogue(Some(catalogue))) => proceed(
            CycleView { catalogue: Some(catalogue), ..c },
        ),
        (ActionView::FetchArchivedThreads, EventView::ArchivedThreads(None)) => StepView::Finished(
            Err(UpstreamFetchError::ArchivedThreads),
        ),
        (ActionView::FetchArchivedThreads, EventView::ArchivedThreads(Some(archived))) => proceed(
            CycleView { archived: Some(archived), ..c },
        ),
        (ActionView::FetchActiveThreads, EventView::ActiveThreads(None)) => StepView::Finished(
            Err(UpstreamFetchError::ActiveThreads),
        ),
        (ActionView::FetchActiveThreads, EventView::ActiveThreads(Some(active))) => {
            let threads = eligible(c.archived->0, active, c.forum_id);
            if threads.len() == 0 {
                StepView::Finished(
                    Ok(HarvestView { catalogue: c.catalogue->0, threads: Seq::empty() }),
                )
            } else {
                proceed(CycleView { threads: Some(threads), ..c })
            }
        },
        (ActionView::FetchMessages { .. }, EventView::Messages(Err(e))) => thread_closed(
            c,
            Err(e),
            Seq::empty(),
        ),
        (ActionView::FetchMessages { .. }, EventView::Messages(Ok(page))) => {
            if page.len() > 0 {
                proceed(CycleView { fetched: c.fetched + page, ..c })
            } else if surviving(c.fetched).len() == 0 {
                thread_closed(c, Ok(c.fetched), Seq::empty())
            } else {
                proceed(CycleView { sources: Some(surviving(c.fetched)), ..c })
            }
        },
        (ActionView::Probe { .. }, EventView::Probed(found)) => {
            if c.probes.len() + 1 == c.sources->0.len() {
                thread_closed(c, Ok(c.fetched), c.probes.push(found))
            } else {
                proceed(CycleView { probes: c.probes.push(found), ..c })
            }
        },
        _ => proceed(c),
    }
}

/// The threads that a cycle is to cover once `event` is taken in: the
/// eligible threads, as they are settled already or as the event settles
/// them.
pub open spec fn threads_to_cover(c: CycleView, event: EventView) -> Seq<ThreadView> {
    match (c.threads, event) {
        (Some(threads), _) => threads,
        (None, EventView::ActiveThreads(Some(active))) => eligible(
            c.archived->0,
            active,
            c.forum_id,
        ),
        (None, _) => Seq::empty(),
    }
}

/// A cycle that goes on stays well formed.
pub proof fn lemma_step_keeps_well_formed(c: CycleView, event: EventView)
    requires
        well_formed(c),
    ensures
        stepped(c, event) matches StepView::Continue(next, action) ==> well_formed(next) && action
            == awaited(next) && next.forum_id == c.forum_id,
{
}

/// What a cycle knows it keeps: the catalogue, the listings and the harvests
/// of the threads dealt with stay as they are while the cycle goes on.
pub proof fn lemma_knowledge_is_kept(c: CycleView, event: EventView)
    requires
        well_formed(c),
    ensures
        stepped(c, event) matches StepView::Continue(next, _) ==> {
            &&& c.catalogue is Some ==> next.catalogue == c.catalogue
            &&& c.archived is Some ==> next.archived == c.archived
            &&& c.threads is Some ==> next.threads == c.threads
            &&& c.done.len() <= next.done.len()
            &&& forall|i: int| 0 <= i < c.done.len() ==> next.done[i] == c.done[i]
        },
{
}

/// A listing that fails ends the cycle at once, with the error that names the
/// listing; nothing more is fetched.
pub proof fn lemma_failed_listing_ends_the_cycle(c: CycleView)
    requires
        well_formed(c),
    ensures
        c.catalogue is None ==> stepped(c, EventView::Catalogue(None)) == StepView::Finished(
            Err(UpstreamFetchError::TagCatalogue),
        ),
        c.catalogue is Some && c.archived is None ==> stepped(c, EventView::ArchivedThreads(None))
            == StepView::Finished(Err(UpstreamFetchError::ArchivedThreads)),
        c.archived is Some && c.threads is None ==> stepped(c, EventView::ActiveThreads(None))
            == StepView::Finished(Err(UpstreamFetchError::ActiveThreads)),
{
}

/// Once the listings are in, nothing ends the cycle with an error: a thread
/// that cannot be fetched is recorded and the cycle goes on.
pub proof fn lemma_no_thread_fails_the_cycle(c: CycleView, event: EventView)
    requires
        well_formed(c),
        c.threads is Some,
    ensures
        !(stepped(c, event) matches StepView::Finished(Err(_))),
{
}

/// A cycle that ends well ends with a harvest that holds the catalogue as it
/// was fetched and covers the eligible threads: one harvest for each, in
/// their order, each with a probe for every surviving attachment.
pub proof fn lemma_finished_harvest_is_complete(c: CycleView, event: EventView)
    requires
        well_formed(c),
    ensures
        stepped(c, event) matches StepView::Finished(Ok(harvest)) ==> c.catalogue == Some(
            harvest.catalogue,
        ) && covers(harvest, threads_to_cover(c, event)),
{
    match stepped(c, event) {
        StepView::Finished(Ok(harvest)) => {
            if c.threads is Some {
                let threads = c.threads->0;
                assert forall|i: int| 0 <= i < threads.len() implies (
                #[trigger] harvest.threads[i]).thread == threads[i] && probed_in_full(
                    harvest.threads[i],
                ) by {
                    if i < c.done.len() {
                        assert(harvest.threads[i] == c.done[i]);
                    }
                }
            }
        },
        _ => {},
    }
}

/// While the messages of a thread are fetched, each page is asked for behind
/// the last message that came, so that no message comes twice and none is
/// left out.
pub proof fn lemma_pages_follow_each_other(c: CycleView, page: Seq<MessageView>)
    requires
        well_formed(c),
        c.threads is Some,
        c.sources is None,
        page.len() > 0,
    ensures
        stepped(c, EventView::Messages(Ok(page))) matches StepView::Continue(next, action)
            && next.fetched == c.fetched + page && action == (ActionView::FetchMessages {
            thread: c.threads->0[c.done.len() as int].id,
            before: Some(page.last().id),
        }),
{
}

impl View for Cycle {
    type V = CycleView;

    closed spec fn view(&self) -> CycleView {
        CycleView {
            forum_id: self.forum_id,
            catalogue: self.catalogue.deep_view(),
            archived: self.archived.deep_view(),
            threads: self.threads.deep_view(),
            done: self.done.deep_view(),
            fetched: self.fetched.deep_view(),
            sources: self.sources.deep_view(),
            probes: self.probes.deep_view(),
        }
    }
}

impl View for Step {
    type V = StepView;

    open spec fn view(&self) -> StepView {
        match self {
            Step::Continue(cycle, action) => StepView::Continue(cycle@, action@),
            Step::Finished(Ok(harvest)) => StepView::Finished(Ok(harvest@)),
            Step::Finished(Err(e)) => StepView::Finished(Err(*e)),
        }
    }
}

impl Cycle {
    #[verifier::type_invariant]
    spec fn fits_together(&self) -> bool {
        well_formed(self@)
    }

    /// Starts a refresh of the forum `forum_id`: nothing is known yet, and
    /// the first thing to fetch is the tag catalogue.
    pub fn start(forum_id: u64) -> (step: Step)
        ensures
            step@ == StepView::Continue(initial(forum_id), ActionView::FetchCatalogue),
    {
        let cycle = Cycle {
            forum_id,
            catalogue: None,
            archived: None,
            threads: None,
            done: Vec::new(),
            fetched: Vec::new(),
            sources: None,
            probes: Vec::new(),
        };
        Step::Continue(cycle, Action::FetchCatalogue)
    }

    /// What the cycle waits for.
    pub fn awaiting(&self) -> (action: Action)
        ensures
            action@ == awaited(self@),
    {
        proof {
            use_type_invariant(self);
        }
        if self.catalogue.is_none() {
            Action::FetchCatalogue
        } else if self.archived.is_none() {
            Action::FetchArchivedThreads
        } else {
            match &self.threads {
                None => Action::FetchActiveThreads,
                Some(threads) => match &self.sources {
                    None => {
                        let before = if self.fetched.len() == 0 {
                            None
                        } else {
                            Some(self.fetched[self.fetched.len() - 1].id)
                        };
                        Action::FetchMessages { thread: threads[self.done.len()].id, before }
                    },
                    Some(sources) => Action::Probe { source: sources[self.probes.len()].clone() },
                },
            }
        }
    }

    /// Goes on with this cycle: it stays as it is, and what it waits for is
    /// the next action.
    fn go_on(self) -> (step: Step)
        ensures
            step@ == proceed(self@),
    {
        let action = self.awaiting();
        Step::Continue(self, action)
    }

    /// Deals with the thread in hand: its harvest joins the others, and the
    /// cycle ends or takes the next thread in hand.
    fn close_thread(
        forum_id: u64,
        catalogue: Vec<Tag>,
        archived: Vec<Thread>,
        threads: Vec<Thread>,
        done: Vec<ThreadHarvest>,
        messages: Result<Vec<Message>, ExtractionError>,
        probes: Vec<Probe>,
    ) -> (step: Step)
        requires
            done.len() < threads.len(),
            forall|i: int|
                0 <= i < done.len() ==> (#[trigger] done.deep_view()[i]).thread
                    == threads.deep_view()[i] && probed_in_full(done.deep_view()[i]),
            match messages {
                Ok(fetched) => probes.len() == surviving(fetched.deep_view()).len(),
                Err(_) => probes.len() == 0,
            },
        ensures
            step@ == thread_closed(
                CycleView {
                    forum_id,
                    catalogue: Some(catalogue.deep_view()),
                    archived: Some(archived.deep_view()),
                    threads: Some(threads.deep_view()),
                    done: done.deep_view(),
                    fetched: Seq::empty(),
                    sources: None,
                    probes: Seq::empty(),
                },
                match messages {
                    Ok(fetched) => Ok(fetched.deep_view()),
                    Err(e) => Err(e),
                },
                probes.deep_view(),
            ),
    {
        let ghost before = done.deep_view();
        let harvest = ThreadHarvest { thread: threads[done.len()].clone(), messages, probes };
        let mut done = done;
        done.push(harvest);
        assert(done.deep_view() =~= before.push(harvest@));
        if done.len() == threads.len() {
            Step::Finished(Ok(Harvest { catalogue, threads: done }))
        } else {
            let cycle = Cycle {
                forum_id,
                catalogue: Some(catalogue),
                archived: Some(archived),
                threads: Some(threads),
                done,
                fetched: Vec::new(),
                sources: None,
                probes: Vec::new(),
            };
            cycle.go_on()
        }
    }

    /// Takes in what the caller reports and says how the refresh goes on:
    /// with the next thing to fetch, or not at all, since it is finished.
    ///
    /// The cycle that goes on is well formed and waits for the action that
    /// is returned with it.
    pub fn step(self, event: Event) -> (step: Step)
        ensures
            step@ == stepped(self@, event@),
            step matches Step::Continue(next, action) ==> well_formed(next@) && action@ == awaited(
                next@,
            ),
    {
        proof {
            use_type_invariant(&self);
            lemma_step_keeps_well_formed(self@, event@);
        }
        let Cycle { forum_id, catalogue, archived, threads, done, fetched, sources, probes } = self;
        match (catalogue, archived, threads, sources, event) {
            (None, _, _, _, Event::Catalogue(None)) => Step::Finished(
                Err(UpstreamFetchError::TagCatalogue),
            ),
            (None, archived, threads, sources, Event::Catalogue(Some(catalogue))) => {
                let cycle = Cycle {
                    forum_id,
                    catalogue: Some(catalogue),
                    archived,
                    threads,
                    done,
                    fetched,
                    sources,
                    probes,
                };
                cycle.go_on()
            },
            (Some(_), None, _, _, Event::ArchivedThreads(None)) => {
                Step::Finished(Err(UpstreamFetchError::ArchivedThreads))
            },
            (Some(catalogue), None, threads, sources, Event::ArchivedThreads(Some(archived))) => {
                let cycle = Cycle {
                    forum_id,
                    catalogue: Some(catalogue),
                    archived: Some(archived),
                    threads,
                    done,
                    fetched,
                    sources,
                    probes,
                };
                cycle.go_on()
            },
            (Some(_), Some(_), None, _, Event::ActiveThreads(None)) => {
                Step::Finished(Err(UpstreamFetchError::ActiveThreads))
            },
            (Some(catalogue), Some(archived), None, sources, Event::ActiveThreads(Some(active))) => {
                let threads = eligible_threads(&archived, &active, forum_id);
                if threads.len() == 0 {
                    let none: Vec<ThreadHarvest> = Vec::new();
                    assert(none.deep_view() =~= Seq::empty());
                    Step::Finished(Ok(Harvest { catalogue, threads: none }))
                } else {
                    let cycle = Cycle {
                        forum_id,
                        catalogue: Some(catalogue),
                        archived: Some(archived),
                        threads: Some(threads),
                        done,
                        fetched,
                        sources,
                        probes,
                    };
                    cycle.go_on()
                }
            },
            (Some(catalogue), Some(archived), Some(threads), None, Event::Messages(Err(e))) => {
                let none: Vec<Probe> = Vec::new();
                assert(none.deep_view() =~= Seq::empty());
                Cycle::close_thread(forum_id, catalogue, archived, threads, done, Err(e), none)
            },
            (Some(catalogue), Some(archived), Some(threads), None, Event::Messages(Ok(page))) => {
                if page.len() > 0 {
                    let mut fetched = fetched;
                    let mut page = page;
                    fetched.append(&mut page);
                    let cycle = Cycle {
                        forum_id,
                        catalogue: Some(catalogue),
                        archived: Some(archived),
                        threads: Some(threads),
                        done,
                        fetched,
                        sources: None,
                        probes,
                    };
                    cycle.go_on()
                } else {
                    let survivors = surviving_attachments(&fetched);
                    if survivors.len() == 0 {
                        assert(probes.deep_view() =~= Seq::empty());
                        Cycle::close_thread(
                            forum_id,
                            catalogue,
                            archived,
                            threads,
                            done,
                            Ok(fetched),
                            probes,
                        )
                    } else {
                        let cycle = Cycle {
                            forum_id,
                            catalogue: Some(catalogue),
                            archived: Some(archived),
                            threads: Some(threads),
                            done,
                            fetched,
                            sources: Some(survivors),
                            probes,
                        };
                        cycle.go_on()
                    }
                }
            },
            (
                Some(catalogue),
                Some(archived),
                Some(threads),
                Some(sources),
                Event::Probed(found),
            ) => {
                let ghost before = probes.deep_view();
                let mut probes = probes;
                probes.push(found);
                assert(probes.deep_view() =~= before.push(found@));
                if probes.len() == sources.len() {
                    Cycle::close_thread(
                        forum_id,
                        catalogue,
                        archived,
                        threads,
                        done,
                        Ok(fetched),
                        probes,
                    )
                } else {
                    let cycle = Cycle {
                        forum_id,
                        catalogue: Some(catalogue),
                        archived: Some(archived),
                        threads: Some(threads),
                        done,
                        fetched,
                        sources: Some(sources),
                        probes,
                    };
                    cycle.go_on()
                }
            },
            (catalogue, archived, threads, sources, _) => {
                let cycle = Cycle {
                    forum_id,
                    catalogue,
                    archived,
                    threads,
                    done,
                    fetched,
                    sources,
                    probes,
                };
                cycle.go_on()
            },
        }
    }
}

} // verus!

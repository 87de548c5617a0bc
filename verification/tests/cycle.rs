use gal::aggregate::aggregate;
use gal::cycle::{Action, Cycle, Event, Step};
use gal::extract::MODERATION_EMOJI;
use gal::{
    Cache, ExtractionError, Harvest, Media, Message, Probe, Reaction, Tag, Thread, ThreadHarvest,
    UpstreamFetchError,
};

const FORUM_ID: u64 = 77;

fn forum_thread(id: u64) -> Thread {
    Thread { id, parent_id: Some(FORUM_ID), name: format!("t{}", id), applied_tags: vec![1] }
}

fn other_thread(id: u64) -> Thread {
    Thread { id, parent_id: Some(5), name: format!("t{}", id), applied_tags: vec![] }
}

fn art() -> Vec<Tag> {
    vec![Tag { id: 1, name: "art".to_string() }]
}

fn note(id: u64, attachments: &[&str]) -> Message {
    Message {
        id,
        author: "ann".to_string(),
        reactions: vec![],
        attachments: attachments.iter().map(|a| a.to_string()).collect(),
    }
}

fn marked_note(id: u64, attachments: &[&str]) -> Message {
    Message {
        id,
        author: "bob".to_string(),
        reactions: vec![Reaction::Unicode(MODERATION_EMOJI.to_string())],
        attachments: attachments.iter().map(|a| a.to_string()).collect(),
    }
}

fn gif() -> Probe {
    Probe::ContentType(b"image/gif".to_vec())
}

/// Takes a step that has to go on apart into the cycle and what it asks for.
fn going_on(step: Step) -> (Cycle, Action) {
    match step {
        Step::Continue(cycle, action) => (cycle, action),
        Step::Finished(outcome) => panic!("the cycle ended early: {:?}", outcome),
    }
}

/// Takes a step that has to end the cycle apart into its outcome.
fn ended(step: Step) -> Result<Harvest, UpstreamFetchError> {
    match step {
        Step::Finished(outcome) => outcome,
        Step::Continue(_, action) => panic!("the cycle goes on with {:?}", action),
    }
}

/// Runs a cycle up to the point where the threads are settled.
fn listed(archived: Vec<Thread>, active: Vec<Thread>) -> Step {
    let (cycle, _) = going_on(Cycle::start(FORUM_ID));
    let (cycle, _) = going_on(cycle.step(Event::Catalogue(Some(art()))));
    let (cycle, _) = going_on(cycle.step(Event::ArchivedThreads(Some(archived))));
    cycle.step(Event::ActiveThreads(Some(active)))
}

#[test]
fn cycle_starts_by_asking_for_the_catalogue() {
    let (cycle, action) = going_on(Cycle::start(FORUM_ID));
    assert_eq!(action, Action::FetchCatalogue);
    assert_eq!(cycle.awaiting(), Action::FetchCatalogue);
}

#[test]
fn listings_are_asked_for_in_turn() {
    let (cycle, _) = going_on(Cycle::start(FORUM_ID));
    let (cycle, action) = going_on(cycle.step(Event::Catalogue(Some(art()))));
    assert_eq!(action, Action::FetchArchivedThreads);
    let (cycle, action) = going_on(cycle.step(Event::ArchivedThreads(Some(vec![forum_thread(1)]))));
    assert_eq!(action, Action::FetchActiveThreads);
    let (_, action) = going_on(cycle.step(Event::ActiveThreads(Some(vec![]))));
    assert_eq!(action, Action::FetchMessages { thread: 1, before: None });
}

#[test]
fn catalogue_that_cannot_be_fetched_ends_the_cycle() {
    let (cycle, _) = going_on(Cycle::start(FORUM_ID));
    assert_eq!(ended(cycle.step(Event::Catalogue(None))), Err(UpstreamFetchError::TagCatalogue));
}

#[test]
fn archived_threads_that_cannot_be_listed_end_the_cycle() {
    let (cycle, _) = going_on(Cycle::start(FORUM_ID));
    let (cycle, _) = going_on(cycle.step(Event::Catalogue(Some(art()))));
    assert_eq!(
        ended(cycle.step(Event::ArchivedThreads(None))),
        Err(UpstreamFetchError::ArchivedThreads)
    );
}

#[test]
fn active_threads_that_cannot_be_listed_end_the_cycle() {
    let (cycle, _) = going_on(Cycle::start(FORUM_ID));
    let (cycle, _) = going_on(cycle.step(Event::Catalogue(Some(art()))));
    let (cycle, _) = going_on(cycle.step(Event::ArchivedThreads(Some(vec![]))));
    assert_eq!(
        ended(cycle.step(Event::ActiveThreads(None))),
        Err(UpstreamFetchError::ActiveThreads)
    );
}

#[test]
fn forum_without_threads_ends_with_an_empty_harvest() {
    let outcome = ended(listed(vec![], vec![other_thread(3)]));
    assert_eq!(outcome, Ok(Harvest { catalogue: art(), threads: vec![] }));
}

#[test]
fn event_that_was_not_asked_for_changes_nothing() {
    let (cycle, _) = going_on(Cycle::start(FORUM_ID));
    let (cycle, action) = going_on(cycle.step(Event::Probed(gif())));
    assert_eq!(action, Action::FetchCatalogue);
    let (cycle, action) = going_on(cycle.step(Event::ArchivedThreads(None)));
    assert_eq!(action, Action::FetchCatalogue);
    let (cycle, action) = going_on(cycle.step(Event::Messages(Ok(vec![]))));
    assert_eq!(action, Action::FetchCatalogue);
    let (cycle, action) = going_on(cycle.step(Event::Catalogue(Some(art()))));
    assert_eq!(action, Action::FetchArchivedThreads);
    let (_, action) = going_on(cycle.step(Event::Catalogue(None)));
    assert_eq!(action, Action::FetchArchivedThreads);
}

#[test]
fn messages_are_fetched_page_by_page_until_a_page_is_empty() {
    let (cycle, action) = going_on(listed(vec![forum_thread(1)], vec![]));
    assert_eq!(action, Action::FetchMessages { thread: 1, before: None });
    let page = vec![note(9, &[]), note(8, &[])];
    let (cycle, action) = going_on(cycle.step(Event::Messages(Ok(page))));
    assert_eq!(action, Action::FetchMessages { thread: 1, before: Some(8) });
    let (cycle, action) = going_on(cycle.step(Event::Messages(Ok(vec![note(5, &["a1"])]))));
    assert_eq!(action, Action::FetchMessages { thread: 1, before: Some(5) });
    let (cycle, action) = going_on(cycle.step(Event::Messages(Ok(vec![]))));
    assert_eq!(action, Action::Probe { source: "a1".to_string() });
    let outcome = ended(cycle.step(Event::Probed(gif())));
    assert_eq!(
        outcome,
        Ok(Harvest {
            catalogue: art(),
            threads: vec![ThreadHarvest {
                thread: forum_thread(1),
                messages: Ok(vec![note(9, &[]), note(8, &[]), note(5, &["a1"])]),
                probes: vec![gif()],
            }],
        })
    );
}

#[test]
fn only_surviving_attachments_are_probed_and_in_their_order() {
    let (cycle, _) = going_on(listed(vec![forum_thread(1)], vec![]));
    let page = vec![note(9, &["a1", "a2"]), marked_note(8, &["b1"]), note(7, &["c1"])];
    let (cycle, _) = going_on(cycle.step(Event::Messages(Ok(page))));
    let (cycle, action) = going_on(cycle.step(Event::Messages(Ok(vec![]))));
    assert_eq!(action, Action::Probe { source: "a1".to_string() });
    let (cycle, action) = going_on(cycle.step(Event::Probed(gif())));
    assert_eq!(action, Action::Probe { source: "a2".to_string() });
    let (cycle, action) = going_on(cycle.step(Event::Probed(Probe::TimedOut)));
    assert_eq!(action, Action::Probe { source: "c1".to_string() });
    let outcome = ended(cycle.step(Event::Probed(Probe::Undeclared)));
    let harvest = outcome.unwrap();
    assert_eq!(harvest.threads[0].probes, vec![gif(), Probe::TimedOut, Probe::Undeclared]);
}

#[test]
fn thread_without_surviving_attachments_is_not_probed() {
    let (cycle, _) = going_on(listed(vec![forum_thread(1), forum_thread(2)], vec![]));
    let (cycle, _) = going_on(cycle.step(Event::Messages(Ok(vec![marked_note(9, &["b1"])]))));
    let (cycle, action) = going_on(cycle.step(Event::Messages(Ok(vec![]))));
    assert_eq!(action, Action::FetchMessages { thread: 2, before: None });
    let outcome = ended(cycle.step(Event::Messages(Ok(vec![]))));
    assert_eq!(
        outcome,
        Ok(Harvest {
            catalogue: art(),
            threads: vec![
                ThreadHarvest {
                    thread: forum_thread(1),
                    messages: Ok(vec![marked_note(9, &["b1"])]),
                    probes: vec![],
                },
                ThreadHarvest { thread: forum_thread(2), messages: Ok(vec![]), probes: vec![] },
            ],
        })
    );
}

#[test]
fn thread_that_cannot_be_fetched_is_recorded_and_the_cycle_goes_on() {
    let (cycle, _) = going_on(listed(vec![forum_thread(1)], vec![forum_thread(2)]));
    let (cycle, action) =
        going_on(cycle.step(Event::Messages(Err(ExtractionError::PermissionDenied))));
    assert_eq!(action, Action::FetchMessages { thread: 2, before: None });
    let (cycle, _) = going_on(cycle.step(Event::Messages(Ok(vec![note(4, &["d1"])]))));
    let (cycle, _) = going_on(cycle.step(Event::Messages(Ok(vec![]))));
    let outcome = ended(cycle.step(Event::Probed(gif())));
    assert_eq!(
        outcome,
        Ok(Harvest {
            catalogue: art(),
            threads: vec![
                ThreadHarvest {
                    thread: forum_thread(1),
                    messages: Err(ExtractionError::PermissionDenied),
                    probes: vec![],
                },
                ThreadHarvest {
                    thread: forum_thread(2),
                    messages: Ok(vec![note(4, &["d1"])]),
                    probes: vec![gif()],
                },
            ],
        })
    );
}

#[test]
fn page_that_fails_after_others_came_drops_the_whole_thread() {
    let (cycle, _) = going_on(listed(vec![forum_thread(1)], vec![]));
    let (cycle, _) = going_on(cycle.step(Event::Messages(Ok(vec![note(9, &["a1"])]))));
    let outcome = ended(cycle.step(Event::Messages(Err(ExtractionError::FetchFailed))));
    assert_eq!(
        outcome,
        Ok(Harvest {
            catalogue: art(),
            threads: vec![ThreadHarvest {
                thread: forum_thread(1),
                messages: Err(ExtractionError::FetchFailed),
                probes: vec![],
            }],
        })
    );
}

#[test]
fn threads_are_taken_archived_first_then_active_of_the_forum_each_once() {
    let archived = vec![forum_thread(1), forum_thread(2)];
    let active = vec![other_thread(3), forum_thread(2), forum_thread(4)];
    let (cycle, action) = going_on(listed(archived, active));
    assert_eq!(action, Action::FetchMessages { thread: 1, before: None });
    let (cycle, action) = going_on(cycle.step(Event::Messages(Ok(vec![]))));
    assert_eq!(action, Action::FetchMessages { thread: 2, before: None });
    let (cycle, action) = going_on(cycle.step(Event::Messages(Ok(vec![]))));
    assert_eq!(action, Action::FetchMessages { thread: 4, before: None });
    let harvest = ended(cycle.step(Event::Messages(Ok(vec![])))).unwrap();
    let ids: Vec<u64> = harvest.threads.iter().map(|h| h.thread.id).collect();
    assert_eq!(ids, vec![1, 2, 4]);
}

#[test]
fn finished_cycle_aggregates_into_the_snapshot() {
    let (cycle, _) = going_on(listed(vec![], vec![forum_thread(1)]));
    let page = vec![note(9, &["a.png"]), marked_note(8, &["b.png"])];
    let (cycle, _) = going_on(cycle.step(Event::Messages(Ok(page))));
    let (cycle, _) = going_on(cycle.step(Event::Messages(Ok(vec![]))));
    let outcome = ended(cycle.step(Event::Probed(Probe::ContentType(b"image/png".to_vec()))));
    assert_eq!(
        aggregate(&outcome),
        Ok(Cache {
            tags: art(),
            items: vec![Media {
                source: "a.png".to_string(),
                tags: art(),
                media_type: "image/png".to_string(),
            }],
        })
    );
}

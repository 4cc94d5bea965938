use download_orchestrator::download::{Action, DownloadTask, Event};
use download_orchestrator::location::Location;
use download_orchestrator::orchestrator::Orchestrator;

fn urls(n: usize) -> Vec<String> {
    (0..n).map(|i| format!("https://example.com/file{}.bin", i)).collect()
}

#[test]
fn new_orchestrator_has_nothing_started() {
    let o = Orchestrator::new(urls(4), 2);
    assert_eq!(o.total(), 4);
    assert_eq!(o.limit(), 2);
    assert_eq!(o.active_count(), 0);
    assert_eq!(o.completed(), 0);
    assert!(!o.is_idle());
    assert_eq!(o.aggregate().position, 0);
    assert_eq!(o.aggregate().length, 4);
    assert_eq!(o.aggregate().label, "total  ");
    assert!(!o.aggregate().finished);
    assert_eq!(o.location(3).map(|s| s.as_str()), Some("https://example.com/file3.bin"));
    assert_eq!(o.location(4), None);
}

#[test]
fn no_more_tasks_start_than_the_limit_allows() {
    let mut o = Orchestrator::new(urls(4), 2);
    assert_eq!(o.start_next(), Some(0));
    assert_eq!(o.start_next(), Some(1));
    assert_eq!(o.start_next(), None);
    assert_eq!(o.active_count(), 2);
    assert!(o.complete(1));
    assert_eq!(o.active_count(), 1);
    assert_eq!(o.start_next(), Some(2));
    assert_eq!(o.start_next(), None);
    assert!(o.complete(0));
    assert_eq!(o.start_next(), Some(3));
    assert_eq!(o.start_next(), None);
    assert!(o.complete(3));
    assert_eq!(o.start_next(), None);
    assert!(!o.is_idle());
    assert!(o.complete(2));
    assert!(o.is_idle());
    assert_eq!(o.completed(), 4);
    assert_eq!(o.aggregate().position, 4);
}

#[test]
fn every_submitted_task_completes_under_any_limit() {
    for limit in 1..6usize {
        for total in 1..8usize {
            let mut o = Orchestrator::new(urls(total), limit);
            let mut in_flight: Vec<usize> = Vec::new();
            while !o.is_idle() {
                while let Some(task) = o.start_next() {
                    in_flight.push(task);
                }
                assert!(o.active_count() <= limit);
                assert_eq!(o.active_count(), in_flight.len());
                let task = in_flight.pop().expect("a task in flight");
                assert!(o.complete(task));
                assert!(o.aggregate().position <= total as u64);
            }
            assert_eq!(o.completed(), total);
            assert_eq!(o.aggregate().position, total as u64);
            assert!(o.finish());
            assert!(o.aggregate().finished);
        }
    }
}

#[test]
fn completing_a_task_that_is_not_in_flight_changes_nothing() {
    let mut o = Orchestrator::new(urls(3), 2);
    assert!(!o.complete(0));
    assert_eq!(o.start_next(), Some(0));
    assert!(!o.complete(1));
    assert!(!o.complete(7));
    assert!(o.complete(0));
    assert!(!o.complete(0));
    assert_eq!(o.completed(), 1);
    assert_eq!(o.aggregate().position, 1);
}

#[test]
fn aggregate_closes_only_when_the_run_is_at_rest() {
    let mut o = Orchestrator::new(urls(1), 1);
    assert!(!o.finish());
    assert!(!o.aggregate().finished);
    assert_eq!(o.aggregate().label, "total  ");
    assert_eq!(o.start_next(), Some(0));
    assert!(!o.finish());
    assert!(o.complete(0));
    assert!(o.finish());
    assert!(o.aggregate().finished);
    assert_eq!(o.aggregate().label, "done");
    assert_eq!(o.aggregate().position, 1);
    assert_eq!(o.aggregate().length, 1);
}

#[test]
fn empty_run_is_at_rest_at_once() {
    let mut o = Orchestrator::new(Vec::new(), 3);
    assert!(o.is_idle());
    assert_eq!(o.start_next(), None);
    assert!(o.finish());
    assert_eq!(o.aggregate().position, 0);
    assert!(o.aggregate().finished);
}

#[test]
fn two_downloads_side_by_side() {
    let locations = vec![
        "https://example.com/files/a.bin".to_string(),
        "https://example.com/files/b.bin".to_string(),
    ];
    let mut o = Orchestrator::new(locations, 2);
    let first = o.start_next().expect("the first task");
    let second = o.start_next().expect("the second task");
    assert_eq!((first, second), (0, 1));
    assert_eq!(o.active_count(), 2);

    let mut a = DownloadTask::new(Location::parse(o.location(first).unwrap()).unwrap());
    let mut b = DownloadTask::new(Location::parse(o.location(second).unwrap()).unwrap());
    a.step(Event::Probed { status: 200, content_length: Some(b"5".to_vec()) });
    b.step(Event::Probed { status: 200, content_length: Some(b"0".to_vec()) });
    a.step(Event::SinkCreated);
    b.step(Event::SinkCreated);
    a.step(Event::BodyStarted);
    b.step(Event::BodyStarted);
    b.step(Event::Chunk(3));
    a.step(Event::Chunk(5));
    b.step(Event::ChunkWritten);
    a.step(Event::ChunkWritten);
    b.step(Event::BodyEnded);
    assert_eq!(b.step(Event::Flushed), Action::Succeed);
    assert!(o.complete(second));
    assert_eq!(o.aggregate().position, 1);
    a.step(Event::BodyEnded);
    assert_eq!(a.step(Event::Flushed), Action::Succeed);
    assert!(o.complete(first));

    assert_eq!(a.destination, "a.bin");
    assert_eq!(a.written, 5);
    assert_eq!(b.destination, "b.bin");
    assert_eq!(b.written, 3);
    assert!(o.is_idle());
    assert!(o.finish());
    assert_eq!(o.aggregate().position, 2);
    assert_eq!(o.aggregate().length, 2);
    assert!(o.aggregate().finished);
}

#[test]
fn failed_task_counts_and_leaves_its_siblings_running() {
    let mut o = Orchestrator::new(urls(2), 2);
    let first = o.start_next().unwrap();
    let second = o.start_next().unwrap();
    let mut a = DownloadTask::new(Location::parse(o.location(first).unwrap()).unwrap());
    let mut b = DownloadTask::new(Location::parse(o.location(second).unwrap()).unwrap());
    a.step(Event::Probed { status: 404, content_length: None });
    assert!(a.is_over());
    assert!(o.complete(first));
    assert_eq!(o.active_count(), 1);
    assert_eq!(o.aggregate().position, 1);
    b.step(Event::Probed { status: 200, content_length: None });
    b.step(Event::SinkCreated);
    b.step(Event::BodyStarted);
    b.step(Event::Chunk(1));
    b.step(Event::ChunkWritten);
    b.step(Event::BodyEnded);
    assert_eq!(b.step(Event::Flushed), Action::Succeed);
    assert!(o.complete(second));
    assert!(o.is_idle());
    assert_eq!(o.aggregate().position, 2);
}

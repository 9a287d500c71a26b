use std::cell::Cell;
use std::rc::Rc;

use threadpool::{
    DispatchAction, DispatchEvent, Dispatcher, JobOutcome, JobQueue, Phase, PoolCreationError,
    Roster, Route, SubmitError, Take, Worker, WorkerStep,
};

#[test]
fn it_works() {
}

#[test]
fn build_rejects_zero_workers() {
    assert!(matches!(Roster::build(0), Err(PoolCreationError::InvalidSize)));
}

#[test]
fn build_spawns_one_worker_per_id() {
    for size in 1..6usize {
        let roster = Roster::build(size).unwrap();
        assert_eq!(roster.size(), size);
        assert_eq!(roster.worker_ids(), (0..size).collect::<Vec<usize>>());
        assert!(roster.is_active());
    }
}

#[test]
fn shutdown_joins_in_ascending_order_once() {
    let mut roster = Roster::build(3).unwrap();
    assert_eq!(roster.next_to_join(), None);
    assert!(roster.begin_shutdown());
    assert!(!roster.is_active());
    assert!(!roster.begin_shutdown());
    assert_eq!(roster.next_to_join(), Some(0));
    assert_eq!(roster.next_to_join(), Some(1));
    assert_eq!(roster.next_to_join(), Some(2));
    assert_eq!(roster.next_to_join(), None);
    assert!(!roster.begin_shutdown());
    assert_eq!(roster.next_to_join(), None);
}

#[test]
fn every_submitted_job_runs_exactly_once() {
    let runs = Rc::new(Cell::new(0u32));
    let mut queue: JobQueue<Box<dyn FnOnce()>> = JobQueue::new();
    for _ in 0..10 {
        let runs = Rc::clone(&runs);
        let job: Box<dyn FnOnce()> = Box::new(move || runs.set(runs.get() + 1));
        assert!(queue.push(job).is_ok());
    }
    assert_eq!(queue.len(), 10);
    queue.close();
    let mut taken = 0;
    loop {
        match queue.take() {
            Take::Job(job) => {
                job();
                taken += 1;
            }
            Take::Empty => panic!("a closed queue never asks to wait"),
            Take::Closed => break,
        }
    }
    assert_eq!(taken, 10);
    assert_eq!(runs.get(), 10);
    assert!(matches!(queue.take(), Take::Closed));
}

#[test]
fn queue_hands_out_jobs_in_order() {
    let mut queue = JobQueue::new();
    assert!(queue.push(7u32).is_ok());
    assert!(queue.push(8u32).is_ok());
    assert!(matches!(queue.take(), Take::Job(7)));
    assert!(matches!(queue.take(), Take::Job(8)));
    assert!(matches!(queue.take(), Take::Empty));
}

#[test]
fn submit_after_shutdown_is_rejected() {
    let mut queue = JobQueue::new();
    assert!(queue.push(1u32).is_ok());
    queue.close();
    assert!(queue.is_closed());
    assert_eq!(queue.push(2u32), Err(SubmitError::PoolClosed));
    queue.close();
    assert_eq!(queue.push(3u32), Err(SubmitError::PoolClosed));
    assert!(matches!(queue.take(), Take::Job(1)));
    assert!(matches!(queue.take(), Take::Closed));
    assert_eq!(queue.push(4u32), Err(SubmitError::PoolClosed));
}

#[test]
fn stop_before_any_item_forwards_nothing() {
    let mut dispatcher = Dispatcher::new();
    assert!(!dispatcher.is_stopped());
    assert!(matches!(dispatcher.on_event(DispatchEvent::Stop), DispatchAction::Halt));
    assert!(dispatcher.is_stopped());
    assert!(matches!(
        dispatcher.on_event(DispatchEvent::WorkItem(5u32)),
        DispatchAction::Discard(5)
    ));
}

#[test]
fn items_before_stop_are_forwarded() {
    let mut dispatcher = Dispatcher::new();
    let events = vec![
        DispatchEvent::WorkItem(1u32),
        DispatchEvent::WorkItem(2),
        DispatchEvent::WorkItem(3),
        DispatchEvent::Stop,
        DispatchEvent::WorkItem(4),
    ];
    let mut forwarded = Vec::new();
    for event in events {
        match dispatcher.on_event(event) {
            DispatchAction::Forward(w) => forwarded.push(w),
            DispatchAction::Halt => break,
            DispatchAction::Discard(_) => panic!("nothing is discarded before stop"),
        }
    }
    assert_eq!(forwarded, vec![1, 2, 3]);
}

#[test]
fn second_stop_halts_again() {
    let mut dispatcher: Dispatcher<u32> = Dispatcher::new();
    assert!(matches!(dispatcher.on_event(DispatchEvent::Stop), DispatchAction::Halt));
    assert!(matches!(dispatcher.on_event(DispatchEvent::Stop), DispatchAction::Halt));
}

#[test]
fn failed_job_leaves_worker_taking_jobs() {
    let mut worker = Worker::new(2);
    assert_eq!(worker.id(), 2);
    assert_eq!(worker.phase(), Phase::Idle);
    assert_eq!(worker.on_take(&Take::Job(())), WorkerStep::Run);
    assert_eq!(worker.phase(), Phase::Running);
    worker.on_finish(JobOutcome::Failed);
    assert_eq!(worker.phase(), Phase::Idle);
    assert_eq!(worker.on_take(&Take::Job(())), WorkerStep::Run);
    worker.on_finish(JobOutcome::Completed);
    assert_eq!(worker.on_take(&Take::<()>::Empty), WorkerStep::Wait);
    assert_eq!(worker.phase(), Phase::Idle);
    assert_eq!(worker.on_take(&Take::<()>::Closed), WorkerStep::Exit);
    assert_eq!(worker.phase(), Phase::Exited);
}

#[test]
fn request_lines_pick_routes() {
    assert_eq!(Route::of_request_line("GET / HTTP/1.1"), Route::Index);
    assert_eq!(Route::of_request_line("GET /sleep HTTP/1.1"), Route::Sleep);
    assert_eq!(Route::of_request_line("GET /nofile HTTP/1.1"), Route::NoFile);
    assert_eq!(Route::of_request_line("GET /other HTTP/1.1"), Route::NotFound);
    assert_eq!(Route::of_request_line("GET / HTTP/1.0"), Route::NotFound);
    assert_eq!(Route::of_request_line(""), Route::NotFound);
}

#[test]
fn routes_answer_as_expected() {
    assert_eq!(Route::Index.status_line(), "HTTP/1.1 200 OK");
    assert_eq!(Route::Index.file_name(), Some("hello.html"));
    assert_eq!(Route::NotFound.status_line(), "HTTP/1.1 404 NOT FOUND");
    assert_eq!(Route::NotFound.file_name(), Some("404.html"));
    assert_eq!(Route::NoFile.file_name(), None);
    assert_eq!(Route::Sleep.file_name(), None);
    assert!(Route::Sleep.delays());
    assert!(!Route::NoFile.delays());
}

use httpqueue::codes::{classify, Outcome, ERROR_IO_PENDING};
use httpqueue::operation::OpState;
use httpqueue::request::Buffer;
use httpqueue::session::{
    Plan, Release, Session, Setup, Step, WinError, QUEUE_FLAG_CONTROLLER, QUEUE_FLAG_OPEN_EXISTING,
};

fn run_to_end(mut setup: Setup, values: &[u64]) -> Setup {
    for v in values {
        assert!(setup.next_step().is_some());
        setup.succeeded(*v);
    }
    assert_eq!(setup.next_step(), None);
    setup
}

fn controller(named: bool) -> Session {
    let setup = Setup::create(named);
    run_to_end(setup, &[0, 11, 22, 33, 0]).into_session()
}

#[test]
fn create_steps_in_order() {
    let mut setup = Setup::create(false);
    let expected = [
        Step::Initialize,
        Step::CreateServerSession,
        Step::CreateUrlGroup,
        Step::CreateRequestQueue,
        Step::BindUrlGroup,
    ];
    for step in expected {
        assert_eq!(setup.next_step(), Some(step));
        setup.succeeded(5);
    }
    assert_eq!(setup.next_step(), None);
}

#[test]
fn queue_flags_follow_role() {
    assert_eq!(Setup::create(true).queue_flags(), QUEUE_FLAG_CONTROLLER);
    assert_eq!(Setup::create(true).queue_flags(), 2);
    assert_eq!(Setup::create(false).queue_flags(), 0);
    assert_eq!(Setup::open().queue_flags(), QUEUE_FLAG_OPEN_EXISTING);
    assert_eq!(Setup::open().queue_flags(), 1);
}

#[test]
fn create_rollback_releases_newest_first() {
    let setup = run_to_end(Setup::create(false), &[0, 11, 22, 33, 0]);
    assert_eq!(setup.done, 5);

    let mut s = Setup::create(false);
    let (err, undo) = s.failed(7);
    assert_eq!(err, WinError { call: Step::Initialize, code: 7 });
    assert!(undo.is_empty());

    s.succeeded(0);
    let (err, undo) = s.failed(8);
    assert_eq!(err, WinError { call: Step::CreateServerSession, code: 8 });
    assert!(undo.is_empty());

    s.succeeded(11);
    let (err, undo) = s.failed(9);
    assert_eq!(err.call, Step::CreateUrlGroup);
    assert_eq!(undo, vec![Release::CloseServerSession(11)]);

    s.succeeded(22);
    let (err, undo) = s.failed(10);
    assert_eq!(err.call, Step::CreateRequestQueue);
    assert_eq!(undo, vec![Release::CloseUrlGroup(22), Release::CloseServerSession(11)]);

    s.succeeded(33);
    let (err, undo) = s.failed(87);
    assert_eq!(err, WinError { call: Step::BindUrlGroup, code: 87 });
    assert_eq!(
        undo,
        vec![Release::CloseHandle(33), Release::CloseUrlGroup(22), Release::CloseServerSession(11)]
    );
}

#[test]
fn close_releases_once() {
    let mut session = controller(false);
    assert!(!session.is_controller());
    assert!(!session.is_closed());
    let first = session.close();
    assert_eq!(
        first,
        vec![Release::CloseUrlGroup(22), Release::CloseServerSession(11), Release::CloseHandle(33)]
    );
    assert!(session.is_closed());
    for _ in 0..5 {
        assert!(session.close().is_empty());
    }
}

#[test]
fn worker_close_releases_only_queue() {
    let setup = run_to_end(Setup::open(), &[0, 44]);
    let mut worker = setup.into_session();
    assert!(!worker.is_controller());
    assert_eq!(worker.url_group(), 0);
    assert_eq!(worker.close(), vec![Release::CloseHandle(44)]);
    assert!(worker.close().is_empty());
}

#[test]
fn listen_maps_failure() {
    let session = controller(true);
    assert_eq!(session.listen(0), Ok(()));
    assert_eq!(
        session.listen(183),
        Err(WinError { call: Step::AddUrlToUrlGroup, code: 183 })
    );
}

#[test]
fn request_setup_failure_closes_duplicate() {
    let session = controller(false);
    let mut setup = session.request();
    assert_eq!(setup.plan, Plan::Duplicate { source: 33 });
    assert_eq!(setup.next_step(), Some(Step::DuplicateHandle));
    let (err, undo) = setup.failed(6);
    assert_eq!(err.call, Step::DuplicateHandle);
    assert!(undo.is_empty());
    setup.succeeded(90);
    assert_eq!(setup.next_step(), Some(Step::BindCompletion));
    let (err, undo) = setup.failed(5);
    assert_eq!(err, WinError { call: Step::BindCompletion, code: 5 });
    assert_eq!(undo, vec![Release::CloseHandle(90)]);
}

#[test]
fn scenario_create_listen_request_receive() {
    let session = controller(false);
    assert_eq!(session.url_group(), 22);
    assert!(session.listen(0).is_ok());
    let request_setup = run_to_end(session.request(), &[90, 0]);
    let mut request = request_setup.into_request();
    assert_eq!(request.handle.raw(), 90);
    assert_eq!(request.handle.holders(), 1);

    let mut op = request.receive(0, Buffer::Auto(4096));
    assert_eq!(op.capacity, 4096);
    assert_eq!(op.id, 0);
    assert!(!op.issued(ERROR_IO_PENDING, 0));
    assert!(op.must_wait());
    assert_eq!(op.result(), None);
    assert!(op.notified(0, 512));
    assert_eq!(op.state, OpState::Completed { code: 0, bytes: 512 });
    assert_eq!(classify(op.result().unwrap().0), Outcome::Complete);
    assert_eq!(request.handle.holders(), 2);
    assert_eq!(request.settle(&op), None);
    assert_eq!(request.handle.holders(), 1);
}

#[test]
fn scenario_worker_opens_shared_queue() {
    let owner = controller(true);
    assert!(owner.is_controller());
    let mut opening = Setup::open();
    assert_eq!(opening.next_step(), Some(Step::Initialize));
    opening.succeeded(0);
    assert_eq!(opening.next_step(), Some(Step::OpenRequestQueue));
    opening.succeeded(44);
    let worker = opening.into_session();
    assert!(!worker.is_controller());
    let mut request = run_to_end(worker.request(), &[91, 0]).into_request();
    let mut op = request.receive(0, Buffer::Auto(4096));
    assert!(op.issued(0, 300));
    assert_eq!(op.result(), Some((0, 300)));
}

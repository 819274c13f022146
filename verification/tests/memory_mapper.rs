use rs_ipc::memory_mapper::{
    Layout, Setup, SetupAction, SetupEvent, TeardownAction, INVALID,
};
use rs_ipc::SharedMemoryMapper;

/// Answers the actions of a setup in turn, and returns what they were.
fn run(setup: &mut Setup, events: &[SetupEvent]) -> Vec<SetupAction> {
    let mut done = Vec::new();
    for event in events {
        done.push(setup.action().unwrap());
        setup.resume(*event);
    }
    done
}

const GOOD: [SetupEvent; 7] = [
    SetupEvent::Done,
    SetupEvent::Done,
    SetupEvent::Size(4096),
    SetupEvent::Address(0x1000),
    SetupEvent::Done,
    SetupEvent::Done,
    SetupEvent::Cast(true),
];

#[test]
fn a_new_object_is_zeroed() {
    let mut setup = SharedMemoryMapper::create(100);
    assert_eq!(
        run(&mut setup, &GOOD),
        vec![
            SetupAction::Open { create: true },
            SetupAction::Resize { size: 100 },
            SetupAction::Stat,
            SetupAction::MapMemory { size: 4096 },
            SetupAction::Advise { size: 4096 },
            SetupAction::Zero { size: 4096 },
            SetupAction::Cast { size: 4096 },
        ]
    );
    assert_eq!(setup.action(), None);
    let mapper = setup.outcome().unwrap().unwrap();
    assert_eq!(mapper.mapped_memory_size(), 4096);
    assert!(mapper.created);
}

#[test]
fn an_object_that_is_there_is_left_alone() {
    let mut setup = SharedMemoryMapper::open();
    let done = run(
        &mut setup,
        &[
            SetupEvent::Done,
            SetupEvent::Size(64),
            SetupEvent::Address(0x1000),
            SetupEvent::Failed(7),
            SetupEvent::Done,
            SetupEvent::Cast(true),
        ],
    );
    assert_eq!(
        done,
        vec![
            SetupAction::Open { create: false },
            SetupAction::Stat,
            SetupAction::MapMemory { size: 64 },
            SetupAction::Advise { size: 64 },
            SetupAction::ReportAdvice { errno: 7 },
            SetupAction::Cast { size: 64 },
        ]
    );
    let mapper = setup.outcome().unwrap().unwrap();
    assert!(!mapper.created);
}

#[test]
fn each_failure_of_a_creation_unlinks() {
    // Which of the calls fail for good once the object is open.
    for n in [1, 2, 3] {
        let mut setup = SharedMemoryMapper::create(100);
        let _ = run(&mut setup, &GOOD[..n]);
        setup.resume(SetupEvent::Failed(5));
        assert_eq!(setup.action(), Some(SetupAction::Unlink));
        setup.resume(SetupEvent::Done);
        assert_eq!(setup.outcome(), Some(Err(5)));
    }
    let mut setup = SharedMemoryMapper::create(100);
    setup.resume(SetupEvent::Failed(13));
    assert_eq!(setup.outcome(), Some(Err(13)));
}

#[test]
fn unsuitable_memory_is_invalid() {
    let mut setup = SharedMemoryMapper::create(100);
    let _ = run(&mut setup, &GOOD[..6]);
    setup.resume(SetupEvent::Cast(false));
    assert_eq!(setup.action(), Some(SetupAction::Unlink));
    setup.resume(SetupEvent::Failed(1));
    assert_eq!(setup.outcome(), Some(Err(INVALID)));

    let mut setup = SharedMemoryMapper::open();
    let _ = run(&mut setup, &[SetupEvent::Done, SetupEvent::Size(64)]);
    setup.resume(SetupEvent::Address(0));
    assert_eq!(setup.outcome(), Some(Err(INVALID)));
}

#[test]
fn a_setup_under_way_has_no_outcome() {
    let mut setup = SharedMemoryMapper::open();
    assert_eq!(setup.outcome(), None);
    // An event that answers nothing changes nothing.
    setup.resume(SetupEvent::Cast(true));
    assert_eq!(setup, SharedMemoryMapper::open());
}

#[test]
fn a_mapping_is_given_back() {
    let mut teardown = SharedMemoryMapper { mapped_size: 9, created: true }.teardown();
    assert_eq!(teardown.action(), Some(TeardownAction::Unmap { size: 9 }));
    teardown.resume(Some(22));
    assert_eq!(teardown.action(), Some(TeardownAction::ReportUnmap { errno: 22 }));
    teardown.resume(None);
    assert_eq!(teardown.action(), Some(TeardownAction::Unlink));
    teardown.resume(Some(2));
    assert_eq!(teardown.action(), Some(TeardownAction::ReportUnlink { errno: 2 }));
    teardown.resume(None);
    assert_eq!(teardown.action(), None);

    let mut teardown = SharedMemoryMapper { mapped_size: 9, created: false }.teardown();
    teardown.resume(None);
    assert_eq!(teardown.action(), None);
}

#[test]
fn the_payload_comes_after_the_header() {
    let layout = Layout { header_size: 40, alignment: 8 };
    assert_eq!(layout.payload_size(0x1000, 100), Some(60));
    assert_eq!(layout.payload_size(0x1000, 41), Some(1));
    assert_eq!(layout.payload_size(0x1000, 40), None);
    assert_eq!(layout.payload_size(0x1000, 3), None);
    assert_eq!(layout.payload_size(0x1004, 100), None);
    assert_eq!(layout.buffer_space(100), 60);
    assert_eq!(layout.buffer_space(3), 0);
}

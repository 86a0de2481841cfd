use shapes_demo::channel::ShutdownChannel;
use shapes_demo::event_loop::drain;
use shapes_demo::event_loop::publisher_iteration;
use shapes_demo::event_loop::subscriber_iteration;
use shapes_demo::event_loop::LoopState;
use shapes_demo::event_loop::PublisherAction;
use shapes_demo::event_loop::PublisherRole;
use shapes_demo::event_loop::ReadOutcome;
use shapes_demo::event_loop::SampleQueue;
use shapes_demo::event_loop::Source;
use shapes_demo::event_loop::SubscriberAction;
use shapes_demo::motion::Shape;
use shapes_demo::motion::DA_HEIGHT;
use shapes_demo::motion::DA_WIDTH;

#[test]
fn channel_drains_to_empty() {
    let mut c = ShutdownChannel::new();
    assert!(!c.try_drain());
    c.notify();
    assert!(c.try_drain());
    assert!(!c.try_drain());
}

#[test]
fn channel_absorbs_a_second_notification() {
    let mut c = ShutdownChannel::new();
    c.notify();
    c.notify();
    assert!(c.try_drain());
    assert!(!c.try_drain());
}

#[test]
fn quiet_publisher_iteration_ticks() {
    let mut c = ShutdownChannel::new();
    let (acts, st) = publisher_iteration(&mut c, &vec![]);
    assert_eq!(acts, vec![PublisherAction::PublishTick]);
    assert_eq!(st, LoopState::Running);
}

#[test]
fn notified_publisher_iteration_quits_without_publishing() {
    let mut c = ShutdownChannel::new();
    c.notify();
    let (acts, st) = publisher_iteration(&mut c, &vec![Source::Shutdown]);
    assert_eq!(acts, vec![PublisherAction::Quit]);
    assert_eq!(st, LoopState::Stopped);
}

#[test]
fn spurious_shutdown_readiness_is_not_a_fault() {
    // The shutdown source fires but the slot is empty: the loop goes on;
    // the tick belongs to the timed-out waits, not to this one.
    let mut c = ShutdownChannel::new();
    let (acts, st) = publisher_iteration(&mut c, &vec![Source::Shutdown]);
    assert_eq!(acts, vec![]);
    assert_eq!(st, LoopState::Running);
}

#[test]
fn unexpected_source_is_reported_and_survived() {
    let mut c = ShutdownChannel::new();
    let (acts, st) = publisher_iteration(&mut c, &vec![Source::Other(7)]);
    assert_eq!(acts, vec![PublisherAction::ReportAnomaly(Source::Other(7))]);
    assert_eq!(st, LoopState::Running);
}

#[test]
fn publisher_stops_before_later_sources() {
    let mut c = ShutdownChannel::new();
    c.notify();
    let (acts, st) = publisher_iteration(&mut c, &vec![Source::Shutdown, Source::Other(9)]);
    assert_eq!(acts, vec![PublisherAction::Quit]);
    assert_eq!(st, LoopState::Stopped);
}

#[test]
fn quiet_subscriber_iteration_does_nothing() {
    let mut c = ShutdownChannel::new();
    let (acts, st) = subscriber_iteration(&mut c, &vec![]);
    assert_eq!(acts, vec![]);
    assert_eq!(st, LoopState::Running);
}

#[test]
fn data_ready_asks_for_a_drain() {
    let mut c = ShutdownChannel::new();
    let (acts, st) = subscriber_iteration(&mut c, &vec![Source::DataReady]);
    assert_eq!(acts, vec![SubscriberAction::DrainReader]);
    assert_eq!(st, LoopState::Running);
}

#[test]
fn subscriber_quit_is_the_last_action() {
    let mut c = ShutdownChannel::new();
    c.notify();
    let (acts, st) = subscriber_iteration(
        &mut c,
        &vec![Source::DataReady, Source::Shutdown, Source::DataReady],
    );
    assert_eq!(acts, vec![SubscriberAction::DrainReader, SubscriberAction::Quit]);
    assert_eq!(st, LoopState::Stopped);
}

#[test]
fn drain_reports_everything_in_arrival_order() {
    let mut q = SampleQueue::new();
    q.arrive(ReadOutcome::Decoded(Shape {
        color: String::from("RED"),
        x: 1,
        y: 2,
        shapesize: 21,
    }));
    q.arrive(ReadOutcome::Disposed(String::from("GREEN")));
    q.arrive(ReadOutcome::ReadError(String::from("would block")));
    q.arrive(ReadOutcome::Decoded(Shape {
        color: String::from("RED"),
        x: 3,
        y: 4,
        shapesize: 21,
    }));
    let reports = drain(&mut q);
    assert_eq!(reports.len(), 4);
    match &reports[0] {
        ReadOutcome::Decoded(s) => {
            assert_eq!(s.color, "RED");
            assert_eq!((s.x, s.y, s.shapesize), (1, 2, 21));
        }
        _ => panic!("first report must be the first decoded sample"),
    }
    assert!(matches!(&reports[1], ReadOutcome::Disposed(k) if k == "GREEN"));
    assert!(matches!(&reports[2], ReadOutcome::ReadError(m) if m == "would block"));
    assert!(matches!(&reports[3], ReadOutcome::Decoded(s) if s.x == 3 && s.y == 4));
    assert_eq!(q.len(), 0);
    assert!(drain(&mut q).is_empty());
}

#[test]
fn publisher_role_starts_at_the_origin_with_the_color() {
    let role = PublisherRole::new(String::from("RED"));
    assert_eq!(role.sample.color, "RED");
    assert_eq!((role.sample.x, role.sample.y), (0, 0));
    assert_eq!(role.sample.shapesize, 21);
    assert!(role.xv != 0);
    assert!(role.yv != 0);
}

#[test]
fn ticking_role_emits_in_bounds_samples_every_tick() {
    // A reliable RED publisher: every tick yields a full sample with the
    // configured color, moving inside the field.
    let mut role = PublisherRole::new(String::from("RED"));
    let mut previous = (role.sample.x, role.sample.y);
    let mut moved = false;
    for _ in 0..500 {
        let s = role.tick();
        assert_eq!(s.color, "RED");
        assert_eq!(s.shapesize, 21);
        assert!(11 <= s.x && s.x <= DA_WIDTH - 11);
        assert!(11 <= s.y && s.y <= DA_HEIGHT - 11);
        assert_eq!((s.x, s.y), (role.sample.x, role.sample.y));
        if (s.x, s.y) != previous {
            moved = true;
        }
        previous = (s.x, s.y);
    }
    assert!(moved);
}

#[test]
fn shutdown_scenario_end_to_end() {
    // A full little run: ticks happen while quiet; once the notification is
    // enqueued, the next iteration that sees the shutdown source terminates
    // and nothing is published after it.
    let mut c = ShutdownChannel::new();
    let mut published = 0;
    let mut state = LoopState::Running;
    for round in 0..5 {
        if round == 3 {
            c.notify();
        }
        let sources = if round >= 3 { vec![Source::Shutdown] } else { vec![] };
        let (acts, st) = publisher_iteration(&mut c, &sources);
        for a in &acts {
            if *a == PublisherAction::PublishTick {
                assert_eq!(st, LoopState::Running);
                published += 1;
            }
        }
        state = st;
        if state == LoopState::Stopped {
            break;
        }
    }
    assert_eq!(state, LoopState::Stopped);
    assert_eq!(published, 3);
}

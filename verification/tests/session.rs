use hit_detect::command::Command;
use hit_detect::geometry::{Circle, Point};
use hit_detect::session::{
    Fault, Session, Severity, Status, EXIT_FAILURE, EXIT_SUCCESS, FRAME_TIMEOUT_MS,
};

fn square(x: i32, y: i32) -> Vec<Point> {
    vec![Point::new(x, y), Point::new(x + 2, y), Point::new(x, y + 2), Point::new(x + 2, y + 2)]
}

#[test]
fn frame_timeout_is_five_seconds() {
    assert_eq!(FRAME_TIMEOUT_MS, 5000);
}

#[test]
fn new_session_runs() {
    let session = Session::new();
    assert_eq!(session.status(), Status::Running);
    assert!(!session.tracker().trigger());
    assert!(session.tracker().hits().is_empty());
    assert!(session.wants_frame(true));
    assert_eq!(session.exit_code(), EXIT_SUCCESS);
    assert_eq!(EXIT_SUCCESS, 0);
}

#[test]
fn fault_severities() {
    assert_eq!(Fault::Configuration.severity(), Severity::Recovered);
    assert_eq!(Fault::Capture.severity(), Severity::Recovered);
    assert_eq!(Fault::Transport.severity(), Severity::Fatal);
    assert_eq!(Fault::Decode.severity(), Severity::Fatal);
    assert_eq!(Fault::Processing.severity(), Severity::Fatal);
}

#[test]
fn no_frame_is_wanted_once_grabbing_stopped() {
    let mut session = Session::new();
    assert!(!session.wants_frame(false));
    session.process(square(10, 10));
    assert!(session.wants_frame(true));
    assert!(!session.wants_frame(false));
    assert_eq!(session.exit_code(), 0);
}

#[test]
fn quit_leaves_the_session_alone_and_the_loop_ends_when_grabbing_stops() {
    let mut session = Session::new();
    session.process(square(10, 10));
    let mut grabbing = true;
    let mut iterations = 0;
    while session.wants_frame(grabbing) {
        iterations += 1;
        session.process(square(10, 10));
        if session.key_pressed('q' as i32) == Command::Quit {
            grabbing = false;
        }
    }
    assert_eq!(iterations, 1);
    assert_eq!(session.status(), Status::Running);
    assert!(session.tracker().trigger());
    assert_eq!(session.tracker().hits(), &vec![Point::new(11, 11)]);
    assert_eq!(session.exit_code(), EXIT_SUCCESS);
}

#[test]
fn capture_fault_changes_nothing() {
    let mut session = Session::new();
    session.process(square(10, 10));
    assert_eq!(session.report(Fault::Capture), Severity::Recovered);
    assert_eq!(session.status(), Status::Running);
    assert!(session.tracker().trigger());
    assert_eq!(session.tracker().hits(), &vec![Point::new(11, 11)]);
    assert!(session.wants_frame(true));
    // the run of detections goes on across the failed frame
    let rendering = session.process(square(10, 10));
    assert!(!rendering.detection.recorded);
    assert_eq!(session.tracker().hits().len(), 1);

    session.process(Vec::new());
    assert_eq!(session.report(Fault::Capture), Severity::Recovered);
    assert!(!session.tracker().trigger());
    assert_eq!(session.tracker().hits(), &vec![Point::new(11, 11)]);
    assert_eq!(session.exit_code(), EXIT_SUCCESS);
}

#[test]
fn configuration_fault_changes_nothing() {
    let mut session = Session::new();
    assert_eq!(session.report(Fault::Configuration), Severity::Recovered);
    assert_eq!(session.status(), Status::Running);
    assert!(session.wants_frame(true));
}

#[test]
fn timeout_ends_the_loop_with_a_failure() {
    let mut session = Session::new();
    session.process(square(10, 10));
    assert_eq!(session.report(Fault::Transport), Severity::Fatal);
    assert_eq!(session.status(), Status::Failed(Fault::Transport));
    assert!(!session.wants_frame(true));
    assert!(!session.wants_frame(false));
    assert_eq!(session.exit_code(), EXIT_FAILURE);
    assert_ne!(session.exit_code(), 0);
    assert!(session.tracker().trigger());
    assert_eq!(session.tracker().hits(), &vec![Point::new(11, 11)]);
}

#[test]
fn decode_and_processing_faults_end_the_loop() {
    for fault in [Fault::Decode, Fault::Processing] {
        let mut session = Session::new();
        assert_eq!(session.report(fault), Severity::Fatal);
        assert_eq!(session.status(), Status::Failed(fault));
        assert!(!session.wants_frame(true));
        assert_eq!(session.exit_code(), EXIT_FAILURE);
    }
}

#[test]
fn first_fatal_fault_sticks() {
    let mut session = Session::new();
    session.report(Fault::Decode);
    assert_eq!(session.report(Fault::Transport), Severity::Fatal);
    assert_eq!(session.report(Fault::Capture), Severity::Recovered);
    session.process(square(1, 1));
    session.key_pressed('r' as i32);
    session.key_pressed('q' as i32);
    assert_eq!(session.status(), Status::Failed(Fault::Decode));
    assert!(!session.wants_frame(true));
}

#[test]
fn session_runs_the_four_frame_scenario() {
    let mut session = Session::new();

    let first = session.process(square(10, 10));
    assert_eq!(first.detection.centroid, Some(Point::new(11, 11)));
    assert!(first.detection.recorded);
    assert_eq!(
        first.circles,
        vec![
            Circle { center: Point::new(11, 11), radius: 20 },
            Circle { center: Point::new(11, 11), radius: 5 },
        ]
    );
    assert!(session.tracker().trigger());
    assert_eq!(session.key_pressed(-1), Command::Ignore);

    let second = session.process(square(10, 10));
    assert_eq!(second.detection.centroid, Some(Point::new(11, 11)));
    assert!(!second.detection.recorded);
    assert_eq!(second.circles, first.circles);
    assert!(session.tracker().trigger());
    assert_eq!(session.tracker().hits().len(), 1);

    let third = session.process(Vec::new());
    assert_eq!(third.detection.centroid, None);
    assert!(!third.detection.recorded);
    assert_eq!(third.circles, vec![Circle { center: Point::new(11, 11), radius: 5 }]);
    assert!(!session.tracker().trigger());
    assert_eq!(session.tracker().hits(), &vec![Point::new(11, 11)]);

    let fourth = session.process(square(50, 50));
    assert_eq!(fourth.detection.centroid, Some(Point::new(51, 51)));
    assert!(fourth.detection.recorded);
    assert_eq!(
        fourth.circles,
        vec![
            Circle { center: Point::new(51, 51), radius: 20 },
            Circle { center: Point::new(11, 11), radius: 5 },
            Circle { center: Point::new(51, 51), radius: 5 },
        ]
    );
    assert!(session.tracker().trigger());
    assert_eq!(session.tracker().hits(), &vec![Point::new(11, 11), Point::new(51, 51)]);
}

#[test]
fn reset_key_clears_hits_and_nothing_else() {
    let mut session = Session::new();
    session.process(square(10, 10));
    session.process(Vec::new());
    session.process(square(50, 50));
    assert_eq!(session.tracker().hits().len(), 2);
    assert_eq!(session.key_pressed('r' as i32), Command::Reset);
    assert!(session.tracker().hits().is_empty());
    assert!(session.tracker().trigger());
    assert_eq!(session.status(), Status::Running);
    // still inside the same run: nothing new is recorded, only the centroid is drawn
    let rendering = session.process(square(50, 50));
    assert!(!rendering.detection.recorded);
    assert_eq!(rendering.circles, vec![Circle { center: Point::new(51, 51), radius: 20 }]);

    session.process(Vec::new());
    assert_eq!(session.key_pressed('r' as i32), Command::Reset);
    assert!(!session.tracker().trigger());
    assert!(session.tracker().hits().is_empty());
}

#[test]
fn other_keys_change_nothing() {
    let mut session = Session::new();
    session.process(square(10, 10));
    for key in [-1, 0, 'a' as i32, 'q' as i32, 'R' as i32] {
        session.key_pressed(key);
        assert!(session.tracker().trigger());
        assert_eq!(session.tracker().hits(), &vec![Point::new(11, 11)]);
        assert_eq!(session.status(), Status::Running);
    }
}

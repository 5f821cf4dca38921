use std::time::{Duration, Instant};
use workout_logger::app_state::{PersistedState, TemplateApp};
use workout_logger::fetch::{complete_fetch, fetch_delivery, lifts_url, FetchError, LIFTS_PATH};
use workout_logger::lift::{build_draft, Lift, LiftType, NewLift, Timestamp};

fn lift(id: i32, name: &str, weight: i32) -> Lift {
    Lift {
        id,
        lift: name.to_string(),
        weight,
        reps: 5,
        rpe: 8,
        time: Timestamp { secs: 1_700_000_000 + id as i64, nanos: 0 },
    }
}

fn now() -> Timestamp {
    let t = chrono::Utc::now();
    Timestamp { secs: t.timestamp(), nanos: t.timestamp_subsec_nanos() }
}

fn ids(app: &TemplateApp) -> Vec<i32> {
    app.lifts.iter().map(|l| l.id).collect()
}

#[test]
fn empty_frame_leaves_state_unchanged() {
    let mut app = TemplateApp::new(None);
    app.lifts = vec![lift(1, "Bench", 135), lift(2, "Squat", 225)];
    app.submitlift_open = true;
    app.lift_type = LiftType::Deadlift;
    let before = app.lifts.clone();
    app.reconcile();
    app.reconcile();
    assert_eq!(app.lifts, before);
    assert!(app.submitlift_open);
    assert_eq!(app.lift_type, LiftType::Deadlift);
}

#[test]
fn delivery_replaces_not_merges() {
    let mut app = TemplateApp::new(None);
    app.lifts = vec![lift(1, "Bench", 135), lift(2, "Squat", 225)];
    let mut tx = app.sender();
    tx.deliver(vec![lift(3, "Deadlift", 315)]);
    app.reconcile();
    assert_eq!(ids(&app), vec![3]);
    assert_eq!(app.lifts[0], lift(3, "Deadlift", 315));
}

#[test]
fn apply_deliveries_exact() {
    let mut app = TemplateApp::new(None);
    app.lifts = vec![lift(1, "Bench", 135)];
    app.apply_deliveries(vec![]);
    assert_eq!(ids(&app), vec![1]);
    app.apply_deliveries(vec![vec![lift(4, "Squat", 200), lift(5, "Bench", 100)]]);
    assert_eq!(ids(&app), vec![4, 5]);
    app.apply_deliveries(vec![vec![lift(6, "Squat", 200)], vec![]]);
    assert!(app.lifts.is_empty());
}

#[test]
fn try_receive_on_empty_channel_returns_at_once() {
    let rt = tokio::runtime::Runtime::new().unwrap();
    let mut app = TemplateApp::new(None);
    let senders: usize = 16;
    let mut handles = Vec::new();
    for i in 0..senders {
        let mut tx = app.sender();
        handles.push(rt.spawn(async move {
            tx.deliver(vec![lift(i as i32, "Bench", 100)]);
        }));
    }
    // Draining while senders may still be running never waits for them.
    let start = Instant::now();
    let early = app.channel.try_receive_all();
    assert!(start.elapsed() < Duration::from_secs(1));
    for h in handles {
        rt.block_on(h).unwrap();
    }
    let rest = app.channel.try_receive_all();
    assert_eq!(early.len() + rest.len(), senders);
    let start = Instant::now();
    assert!(app.channel.try_receive_all().is_empty());
    assert!(start.elapsed() < Duration::from_secs(1));
}

#[test]
fn later_delivery_wins_within_one_frame() {
    let mut app = TemplateApp::new(None);
    let mut tx = app.sender();
    tx.deliver(vec![lift(1, "Bench", 135)]);
    tx.deliver(vec![lift(2, "Squat", 225), lift(3, "Squat", 235)]);
    app.reconcile();
    assert_eq!(ids(&app), vec![2, 3]);
}

#[test]
fn draft_for_squat() {
    let before = chrono::Utc::now().timestamp();
    let d = build_draft(LiftType::Squat, 225, 5, 8, now());
    let after = chrono::Utc::now().timestamp();
    assert_eq!(d.lift, "Squat");
    assert_eq!(d.weight, 225);
    assert_eq!(d.reps, 5);
    assert_eq!(d.rpe, 8);
    assert!(d.time.secs >= before && d.time.secs <= after);
    assert!(d.time.nanos < 1_000_000_000);
}

#[test]
fn draft_at_given_time_keeps_it() {
    let t = Timestamp { secs: 1_700_000_123, nanos: 456 };
    let d = build_draft(LiftType::Deadlift, 405, 3, 9, t);
    assert_eq!(d.lift, "Deadlift");
    assert_eq!((d.weight, d.reps, d.rpe), (405, 3, 9));
    assert_eq!(d.time, t);
}

#[test]
fn failing_transport_changes_nothing() {
    let rt = tokio::runtime::Runtime::new().unwrap();
    let mut app = TemplateApp::new(None);
    app.lifts = vec![lift(7, "Bench", 150)];
    let mut tx = app.sender();
    let launched = rt.spawn(async move {
        let a = complete_fetch(&mut tx, Err(FetchError::Transport));
        let b = complete_fetch(&mut tx, Err(FetchError::Status(503)));
        let c = complete_fetch(&mut tx, Err(FetchError::Decode));
        (a, b, c)
    });
    assert_eq!(rt.block_on(launched).unwrap(), (false, false, false));
    for _ in 0..5 {
        app.reconcile();
    }
    assert_eq!(app.lifts, vec![lift(7, "Bench", 150)]);
    assert!(!app.submitlift_open);
}

#[test]
fn successful_fetch_is_delivered() {
    let mut app = TemplateApp::new(None);
    let mut tx = app.sender();
    assert!(complete_fetch(&mut tx, Ok(vec![lift(8, "Squat", 300)])));
    app.reconcile();
    assert_eq!(ids(&app), vec![8]);
}

#[test]
fn fetch_delivery_by_outcome() {
    let ok = fetch_delivery(Ok(vec![lift(1, "Bench", 135)]));
    assert_eq!(ok, Some(vec![lift(1, "Bench", 135)]));
    assert_eq!(fetch_delivery(Err(FetchError::Transport)), None);
    assert_eq!(fetch_delivery(Err(FetchError::Status(404))), None);
    assert_eq!(fetch_delivery(Err(FetchError::Decode)), None);
}

#[test]
fn endpoint_address() {
    assert_eq!(LIFTS_PATH, "/api/workout/lifts");
    assert_eq!(lifts_url("http://192.168.1.38:8080"), "http://192.168.1.38:8080/api/workout/lifts");
    assert_eq!(lifts_url(""), "/api/workout/lifts");
}

#[test]
fn category_names() {
    assert_eq!(LiftType::Bench.name(), "Bench");
    assert_eq!(LiftType::Squat.name(), "Squat");
    assert_eq!(LiftType::Deadlift.name(), "Deadlift");
}

#[test]
fn first_start_state() {
    let app = TemplateApp::new(None);
    assert!(app.lifts.is_empty());
    assert!(!app.submitlift_open);
    assert_eq!(app.lift_type, LiftType::Bench);
    assert_eq!(app.new_lift.lift, "Bench");
    assert_eq!((app.new_lift.weight, app.new_lift.reps, app.new_lift.rpe), (0, 0, 0));
    let d = TemplateApp::default();
    assert!(d.lifts.is_empty());
}

#[test]
fn restored_state() {
    let saved = PersistedState {
        lifts: vec![lift(9, "Deadlift", 400)],
        submitlift_open: true,
        new_lift: NewLift {
            lift: "Squat".to_string(),
            weight: 250,
            reps: 4,
            rpe: 7,
            time: Timestamp { secs: 0, nanos: 0 },
        },
        lift_type: LiftType::Squat,
    };
    let mut app = TemplateApp::new(Some(saved));
    assert_eq!(ids(&app), vec![9]);
    assert!(app.submitlift_open);
    assert_eq!(app.new_lift.weight, 250);
    assert_eq!(app.lift_type, LiftType::Squat);
    // The restored state has a working channel of its own.
    app.sender().deliver(vec![]);
    app.reconcile();
    assert!(app.lifts.is_empty());
}

#[test]
fn submit_closes_form_and_names_category() {
    let mut app = TemplateApp::new(None);
    app.toggle_submit_form();
    assert!(app.submitlift_open);
    app.lift_type = LiftType::Deadlift;
    app.new_lift.weight = 315;
    app.new_lift.reps = 2;
    app.new_lift.rpe = 10;
    let t = Timestamp { secs: 1_700_000_500, nanos: 7 };
    let d = app.submit(t);
    assert!(!app.submitlift_open);
    assert_eq!(app.new_lift.lift, "Deadlift");
    assert_eq!(d.lift, "Deadlift");
    assert_eq!((d.weight, d.reps, d.rpe), (315, 2, 10));
    assert_eq!(d.time, t);
    app.toggle_submit_form();
    app.toggle_submit_form();
    assert!(!app.submitlift_open);
}

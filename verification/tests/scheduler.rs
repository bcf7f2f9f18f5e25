use hearth::messages::JobRequest;
use hearth::scheduler::{
    after_ping, DistributeError, PingOutcome, SchedulerAction, SchedulerEvent, SchedulerState,
};

fn request(r: &str, g: &str) -> JobRequest {
    JobRequest { request_id: r.to_string(), guild_id: g.to_string() }
}

fn pong(w: &str) -> SchedulerEvent {
    SchedulerEvent::InternalPongResponse { worker_id: w.to_string() }
}

fn is_job_id(id: &str) -> bool {
    id.chars().count() == 21
        && id.chars().all(|c| c == '_' || c == '-' || c.is_ascii_alphanumeric())
}

#[test]
fn distribute_without_workers_is_refused() {
    let mut s = SchedulerState::new();
    let r = s.distribute_job(&request("r1", "g1"));
    assert!(matches!(r, Err(DistributeError::NoWorkersRegistered)));
    assert_eq!(s.round_robin_index(), 0);
    assert!(s.workers().is_empty());
}

#[test]
fn distribution_error_message() {
    assert_eq!(
        DistributeError::NoWorkersRegistered.message(),
        "No Workers Registered! Can't distribute Job!"
    );
}

#[test]
fn job_request_without_workers_reports_error() {
    let mut s = SchedulerState::new();
    match s.handle_event(SchedulerEvent::ExternalQueueJob(request("req-7", "guild-9"))) {
        SchedulerAction::ReportError(e) => {
            assert_eq!(e.error, "No Workers Registered! Can't distribute Job!");
            assert_eq!(e.request_id, "req-7");
            assert_eq!(e.job_id, "N/A");
            assert_eq!(e.guild_id, "guild-9");
        }
        other => panic!("unexpected action {:?}", other),
    }
}

#[test]
fn pong_registers_worker_once() {
    let mut s = SchedulerState::new();
    match s.handle_event(pong("w1")) {
        SchedulerAction::WorkerAdded { worker_id } => assert_eq!(worker_id, "w1"),
        other => panic!("unexpected action {:?}", other),
    }
    assert!(matches!(s.handle_event(pong("w1")), SchedulerAction::Nothing));
    assert!(matches!(s.handle_event(pong("w2")), SchedulerAction::WorkerAdded { .. }));
    assert!(!s.register_worker("w2".to_string()));
    assert_eq!(s.workers(), vec!["w1".to_string(), "w2".to_string()]);
    assert!(s.is_registered(&"w2".to_string()));
    assert!(!s.is_registered(&"w3".to_string()));
}

#[test]
fn round_robin_cycles_through_workers() {
    let mut s = SchedulerState::new();
    s.register_worker("a".to_string());
    s.register_worker("b".to_string());
    s.register_worker("c".to_string());
    let mut got = Vec::new();
    for i in 0..7 {
        let job = s.distribute_job(&request(&format!("r{}", i), "g")).unwrap();
        assert!(is_job_id(&job.job_id));
        assert_eq!(job.request_id, format!("r{}", i));
        assert_eq!(job.guild_id, "g");
        got.push(job.worker_id);
    }
    assert_eq!(got, vec!["a", "b", "c", "a", "b", "c", "a"]);
    assert_eq!(s.round_robin_index(), 1);
}

#[test]
fn assign_job_uses_given_id_and_wraps() {
    let mut s = SchedulerState::new();
    s.register_worker("a".to_string());
    s.register_worker("b".to_string());
    let j1 = s.assign_job(&request("r", "g"), "id-1".to_string()).unwrap();
    assert_eq!(j1.job_id, "id-1");
    assert_eq!(j1.worker_id, "a");
    assert_eq!(s.round_robin_index(), 1);
    let j2 = s.assign_job(&request("r", "g"), "id-2".to_string()).unwrap();
    assert_eq!(j2.worker_id, "b");
    assert_eq!(s.round_robin_index(), 0);
}

#[test]
fn fresh_job_ids_differ() {
    let mut s = SchedulerState::new();
    s.register_worker("a".to_string());
    let a = s.distribute_job(&request("r", "g")).unwrap();
    let b = s.distribute_job(&request("r", "g")).unwrap();
    assert!(is_job_id(&a.job_id) && is_job_id(&b.job_id));
    assert_ne!(a.job_id, b.job_id);
}

#[test]
fn shutdown_removes_worker_and_resets_rotation() {
    let mut s = SchedulerState::new();
    for w in ["a", "b", "c"] {
        s.register_worker(w.to_string());
    }
    s.distribute_job(&request("r", "g")).unwrap();
    s.distribute_job(&request("r", "g")).unwrap();
    assert_eq!(s.round_robin_index(), 2);
    let a = s.handle_event(SchedulerEvent::WorkerShutdownAlert { worker_id: "b".to_string() });
    assert!(matches!(a, SchedulerAction::Nothing));
    assert_eq!(s.workers(), vec!["a".to_string(), "c".to_string()]);
    assert_eq!(s.round_robin_index(), 0);
    let job = s.distribute_job(&request("r", "g")).unwrap();
    assert_eq!(job.worker_id, "a");
}

#[test]
fn shutdown_of_last_worker_then_request_is_refused() {
    let mut s = SchedulerState::new();
    s.register_worker("only".to_string());
    s.remove_worker(&"only".to_string());
    assert!(s.workers().is_empty());
    assert!(matches!(
        s.handle_event(SchedulerEvent::ExternalQueueJob(request("r", "g"))),
        SchedulerAction::ReportError(_)
    ));
}

#[test]
fn register_then_remove_restores_workers() {
    let mut s = SchedulerState::new();
    s.register_worker("a".to_string());
    s.register_worker("b".to_string());
    let before = s.workers();
    s.register_worker("new".to_string());
    s.remove_worker(&"new".to_string());
    assert_eq!(s.workers(), before);
}

#[test]
fn job_request_with_workers_queues_job() {
    let mut s = SchedulerState::new();
    s.register_worker("w".to_string());
    match s.handle_event_with_job_id(
        SchedulerEvent::ExternalQueueJob(request("r", "g")),
        "fixed".to_string(),
    ) {
        SchedulerAction::QueueJob(job) => {
            assert_eq!(job.job_id, "fixed");
            assert_eq!(job.worker_id, "w");
            assert_eq!(job.request_id, "r");
            assert_eq!(job.guild_id, "g");
        }
        other => panic!("unexpected action {:?}", other),
    }
    assert!(matches!(s.handle_event(SchedulerEvent::Ignored), SchedulerAction::Nothing));
    assert_eq!(s.round_robin_index(), 0);
}

#[test]
fn ping_round_stops_after_five_pings() {
    let mut sent = 0u32;
    let mut rounds = 0;
    loop {
        let (n, outcome) = after_ping(sent, 0);
        sent = n;
        rounds += 1;
        if outcome != PingOutcome::Continue {
            assert_eq!(outcome, PingOutcome::StoppedWithoutWorkers);
            break;
        }
    }
    assert_eq!(rounds, 5);
    assert_eq!(after_ping(4, 3), (5, PingOutcome::StoppedWithWorkers(3)));
    assert_eq!(after_ping(1, 3), (2, PingOutcome::Continue));
}

#[test]
fn payloads_drive_the_scheduler() {
    let mut s = SchedulerState::new();
    assert!(s.handle_payload(b"not json").is_err());
    assert!(s.workers().is_empty());

    let (a, _) = s.handle_payload(br#"{"type":"InternalPongResponse","worker_id":"w1"}"#).unwrap();
    assert!(matches!(a, SchedulerAction::WorkerAdded { ref worker_id } if worker_id == "w1"));

    let (a, _) = s
        .handle_payload(br#"{"type":"ExternalQueueJob","request_id":"r1","guild_id":"g1"}"#)
        .unwrap();
    match a {
        SchedulerAction::QueueJob(job) => {
            assert_eq!(job.worker_id, "w1");
            assert_eq!(job.request_id, "r1");
            assert_eq!(job.guild_id, "g1");
            assert!(is_job_id(&job.job_id));
        }
        other => panic!("unexpected action {:?}", other),
    }

    let (a, _) = s.handle_payload(br#"{"type":"InternalPingPongRequest"}"#).unwrap();
    assert!(matches!(a, SchedulerAction::Nothing));

    let (a, _) = s
        .handle_payload(br#"{"type":"WorkerShutdownAlert","worker_id":"w1","affected_guild_ids":[]}"#)
        .unwrap();
    assert!(matches!(a, SchedulerAction::Nothing));
    assert!(s.workers().is_empty());
}

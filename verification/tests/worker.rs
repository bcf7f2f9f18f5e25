use hearth::messages::Job;
use hearth::worker::{DirectMessage, WorkerAction, WorkerEvent, WorkerPayload, WorkerState};

fn job(id: &str, worker: &str, guild: &str) -> Job {
    Job {
        job_id: id.to_string(),
        worker_id: worker.to_string(),
        request_id: "req".to_string(),
        guild_id: guild.to_string(),
    }
}

fn dwc(id: &str, worker: &str, request: Option<&str>) -> WorkerEvent {
    WorkerEvent::DirectWorkerCommunication(DirectMessage {
        job_id: id.to_string(),
        guild_id: "g".to_string(),
        worker_id: worker.to_string(),
        request_id: request.map(|r| r.to_string()),
    })
}

#[test]
fn job_for_this_worker_is_started() {
    let mut w = WorkerState::new(Some("me".to_string()));
    match w.handle_event(WorkerEvent::InternalWorkerQueueJob(job("j1", "me", "g1"))) {
        WorkerAction::StartJob(j) => assert_eq!(j.job_id, "j1"),
        other => panic!("unexpected action {:?}", other),
    }
    assert_eq!(w.guild_ids(), vec!["g1".to_string()]);
    assert_eq!(w.job_ids(), vec!["j1".to_string()]);
    assert!(w.has_job(&"j1".to_string()));
}

#[test]
fn job_for_other_worker_is_ignored() {
    let mut w = WorkerState::new(Some("me".to_string()));
    assert!(matches!(
        w.handle_event(WorkerEvent::InternalWorkerQueueJob(job("j1", "other", "g1"))),
        WorkerAction::Nothing
    ));
    assert!(w.guild_ids().is_empty());
    assert!(w.job_ids().is_empty());
    assert!(matches!(w.handle_event(dwc("j1", "other", None)), WorkerAction::Nothing));
}

#[test]
fn direct_message_for_started_job_is_routed() {
    let mut w = WorkerState::new(Some("me".to_string()));
    w.handle_event(WorkerEvent::InternalWorkerQueueJob(job("j1", "me", "g1")));
    match w.handle_event(dwc("j1", "me", None)) {
        WorkerAction::RouteToJob { job_id } => assert_eq!(job_id, "j1"),
        other => panic!("unexpected action {:?}", other),
    }
    assert_eq!(w.job_ids(), vec!["j1".to_string()]);
}

#[test]
fn direct_message_without_channel_restarts_job_once() {
    let mut w = WorkerState::new(Some("me".to_string()));
    match w.handle_event(dwc("j9", "me", Some("r9"))) {
        WorkerAction::RestartJob(j) => {
            assert_eq!(j.job_id, "j9");
            assert_eq!(j.worker_id, "me");
            assert_eq!(j.request_id, "r9");
            assert_eq!(j.guild_id, "g");
        }
        other => panic!("unexpected action {:?}", other),
    }
    assert!(matches!(
        w.handle_event(dwc("j9", "me", Some("r9"))),
        WorkerAction::RouteToJob { .. }
    ));
    assert_eq!(w.guild_ids(), vec!["g".to_string()]);
}

#[test]
fn ping_is_answered_with_own_id() {
    let mut w = WorkerState::new(Some("worker-42".to_string()));
    match w.handle_event(WorkerEvent::InternalPingPongRequest) {
        WorkerAction::SendPong { worker_id } => assert_eq!(worker_id, "worker-42"),
        other => panic!("unexpected action {:?}", other),
    }
    assert!(matches!(w.handle_event(WorkerEvent::Ignored), WorkerAction::Nothing));
}

#[test]
fn same_job_twice_records_guild_twice_and_one_channel() {
    let mut w = WorkerState::new(Some("me".to_string()));
    assert!(w.accept_job(&job("j", "me", "g")));
    assert!(w.accept_job(&job("j", "me", "g")));
    assert_eq!(w.guild_ids(), vec!["g".to_string(), "g".to_string()]);
    assert_eq!(w.job_ids(), vec!["j".to_string()]);
    assert_eq!(w.worker_id(), Some("me".to_string()));
}

const DWC: &[u8] = br#"{"type":"DirectWorkerCommunication","job_id":"j1","guild_id":"g","voice_channel_id":null,"play_audio_url":null,"action_type":{"type":"PausePlayback"},"request_id":"r1","new_volume":null,"seek_position":null,"loop_times":null,"worker_id":"me"}"#;

#[test]
fn payloads_drive_the_worker() {
    let mut w = WorkerState::new(Some("me".to_string()));
    assert!(w.handle_payload(b"{").is_err());

    match w.handle_payload(DWC).unwrap() {
        WorkerPayload::Handled(WorkerAction::RestartJob(j), _) => {
            assert_eq!(j.job_id, "j1");
            assert_eq!(j.request_id, "r1");
        }
        _ => panic!("unexpected outcome"),
    }
    assert!(matches!(
        w.handle_payload(DWC).unwrap(),
        WorkerPayload::Handled(WorkerAction::RouteToJob { .. }, _)
    ));
    match w.handle_payload(br#"{"type":"InternalPingPongRequest"}"#).unwrap() {
        WorkerPayload::Handled(WorkerAction::SendPong { worker_id }, _) => assert_eq!(worker_id, "me"),
        _ => panic!("unexpected outcome"),
    }
    let queue = br#"{"type":"InternalWorkerQueueJob","job_id":"j2","worker_id":"me","request_id":"r","guild_id":"g2"}"#;
    assert!(matches!(
        w.handle_payload(queue).unwrap(),
        WorkerPayload::Handled(WorkerAction::StartJob(_), _)
    ));
    assert_eq!(w.job_ids(), vec!["j1".to_string(), "j2".to_string()]);
}

#[test]
fn worker_without_id_cannot_answer() {
    let mut w = WorkerState::new(None);
    assert!(matches!(
        w.handle_payload(br#"{"type":"InternalPingPongRequest"}"#).unwrap(),
        WorkerPayload::Unanswerable(WorkerEvent::InternalPingPongRequest, _)
    ));
    assert!(!w.can_handle(&WorkerEvent::InternalPingPongRequest));
    assert!(w.can_handle(&WorkerEvent::Ignored));
    assert!(w.job_ids().is_empty());
}

#[test]
fn ended_job_is_started_again() {
    let mut w = WorkerState::new(Some("me".to_string()));
    w.accept_job(&job("j1", "me", "g1"));
    w.accept_job(&job("j2", "me", "g2"));
    w.end_job(&"j1".to_string());
    assert_eq!(w.job_ids(), vec!["j2".to_string()]);
    assert_eq!(w.guild_ids(), vec!["g1".to_string(), "g2".to_string()]);
    assert!(matches!(w.handle_event(dwc("j1", "me", Some("r"))), WorkerAction::RestartJob(_)));
    assert!(matches!(w.handle_event(dwc("j1", "me", Some("r"))), WorkerAction::RouteToJob { .. }));
    w.end_job(&"unknown".to_string());
    assert_eq!(w.job_ids(), vec!["j2".to_string(), "j1".to_string()]);
}

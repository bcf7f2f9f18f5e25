use hearth::track::{loop_count, plan_track_command, TrackCommand, TrackError, TrackRequest};

#[test]
fn no_track_refuses_every_action() {
    for r in [
        TrackRequest::Pause,
        TrackRequest::Resume,
        TrackRequest::Seek { position: Some(5) },
        TrackRequest::LoopXTimes { times: None },
        TrackRequest::LoopIndefinitely,
        TrackRequest::ForceStopLoop,
    ] {
        let e = plan_track_command(false, r).unwrap_err();
        assert_eq!(e, TrackError::TrackNotFound);
        assert_eq!(e.message(), "Track not found");
    }
}

#[test]
fn simple_actions_map_to_commands() {
    assert!(matches!(plan_track_command(true, TrackRequest::Pause), Ok(TrackCommand::Pause)));
    assert!(matches!(plan_track_command(true, TrackRequest::Resume), Ok(TrackCommand::Play)));
    assert!(matches!(
        plan_track_command(true, TrackRequest::LoopIndefinitely),
        Ok(TrackCommand::EnableLoop)
    ));
    assert!(matches!(
        plan_track_command(true, TrackRequest::ForceStopLoop),
        Ok(TrackCommand::DisableLoop)
    ));
}

#[test]
fn seek_needs_position() {
    assert!(matches!(
        plan_track_command(true, TrackRequest::Seek { position: Some(90_000) }),
        Ok(TrackCommand::Seek { millis: 90_000 })
    ));
    let e = plan_track_command(true, TrackRequest::Seek { position: None }).unwrap_err();
    assert_eq!(e, TrackError::MissingSeekPosition);
    assert_eq!(e.message(), "Failed to get seek position");
}

#[test]
fn loop_count_checks() {
    let e = loop_count(None).unwrap_err();
    assert_eq!(e, TrackError::MissingLoopTimes);
    assert_eq!(e.message(), "Failed to get Loop Times");

    let e = loop_count(Some(u32::MAX as usize)).unwrap_err();
    assert_eq!(e, TrackError::LoopTimesRejected);
    assert_eq!(e.message(), "Loop Times must be greater than zero");

    assert_eq!(loop_count(Some(3)), Ok(3));
    assert_eq!(loop_count(Some(0)), Ok(0));
    assert_eq!(loop_count(Some(u32::MAX as usize - 1)), Ok(u32::MAX - 1));
}

#[test]
fn loop_count_out_of_range() {
    if usize::BITS > 32 {
        let e = loop_count(Some(u32::MAX as usize + 1)).unwrap_err();
        assert_eq!(e, TrackError::LoopTimesOutOfRange);
        assert_eq!(e.message(), "Loop Times exceeds supported range");
    }
}

#[test]
fn counted_loop_command() {
    match plan_track_command(true, TrackRequest::LoopXTimes { times: Some(4) }) {
        Ok(TrackCommand::LoopFor { times }) => assert_eq!(times, 4),
        other => panic!("unexpected {:?}", other),
    }
}

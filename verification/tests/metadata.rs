use hearth::metadata::{MetadataContext, MetadataError};
use hearth::track::TrackError;

#[test]
fn metadata_without_request_fails() {
    let c = MetadataContext::new();
    let e = c.codec_metadata(None, None, 3).unwrap_err();
    assert_eq!(e, MetadataError::MissingJobId);
    assert_eq!(e.message(), "Failed to get JOB ID. While getting Metadata");
    assert_eq!(MetadataError::MissingGuildId.message(), "Failed to get JOB ID. While getting Metadata");
}

#[test]
fn metadata_after_request() {
    let mut c = MetadataContext::new();
    c.prepare_metadata(true, "r".to_string(), "j".to_string(), "g".to_string()).unwrap();
    let m = c.codec_metadata(Some(200), Some(48000), 17).unwrap();
    assert_eq!(m.job_id, "j");
    assert_eq!(m.guild_id, "g");
    assert_eq!(m.position, Some(17));
    assert_eq!(m.duration, Some(200));
    assert_eq!(m.sample_rate, Some(48000));
}

#[test]
fn no_track_records_nothing() {
    let mut c = MetadataContext::new();
    let e = c.prepare_metadata(false, "r".to_string(), "j".to_string(), "g".to_string()).unwrap_err();
    assert_eq!(e, TrackError::TrackNotFound);
    assert_eq!(c.job_id(), None);
    assert_eq!(c.request_id(), None);
    assert_eq!(c.guild_id(), None);
}

#[test]
fn first_request_wins() {
    let mut c = MetadataContext::new();
    c.remember("r1".to_string(), "j1".to_string(), "g1".to_string());
    c.remember("r2".to_string(), "j2".to_string(), "g2".to_string());
    assert_eq!(c.request_id(), Some("r1".to_string()));
    assert_eq!(c.job_id(), Some("j1".to_string()));
    assert_eq!(c.guild_id(), Some("g1".to_string()));
}

#[test]
fn metadata_error_report_text() {
    let mut c = MetadataContext::new();
    c.remember("r".to_string(), "j".to_string(), "g".to_string());
    let rep = c.metadata_error_report(&MetadataError::MissingGuildId);
    assert_eq!(
        rep.error,
        "Failed to perform Metadata Extraction with error: Failed to get JOB ID. While getting Metadata"
    );
    assert_eq!(rep.request_id, "r");
    assert_eq!(rep.job_id, "j");
    assert_eq!(rep.guild_id, "g");
}

use hearth::player::{
    audio_url, build_stream_client, stream_headers, stream_user_agent, HeaderName, PlaybackError,
};

#[test]
fn audio_url_required() {
    assert_eq!(audio_url(Some("https://x/y.mp3".to_string())).unwrap(), "https://x/y.mp3");
    let e = audio_url(None).unwrap_err();
    assert_eq!(e, PlaybackError::MissingAudioURL);
    assert_eq!(e.message(), "Missing Audio URL");
    assert_eq!(
        PlaybackError::ClientBuildFailed.message(),
        "Failed to build HTTP client for direct stream playback"
    );
}

#[test]
fn headers_for_https_url() {
    let h = stream_headers("https://cdn.example.com/audio/track.mp3?x=1");
    assert_eq!(h.len(), 3);
    assert_eq!(h[0].name, HeaderName::Accept);
    assert_eq!(h[0].value, "*/*");
    assert_eq!(h[1].name, HeaderName::Referer);
    assert_eq!(h[1].value, "https://cdn.example.com/");
    assert_eq!(h[2].name, HeaderName::Origin);
    assert_eq!(h[2].value, "https://cdn.example.com");
}

#[test]
fn headers_keep_non_default_port() {
    let h = stream_headers("http://example.org:8080/stream");
    assert_eq!(h[1].value, "http://example.org:8080/");
    assert_eq!(h[2].value, "http://example.org:8080");
}

#[test]
fn headers_for_unparsable_url() {
    let h = stream_headers("not a url");
    assert_eq!(h.len(), 1);
    assert_eq!(h[0].name, HeaderName::Accept);
}

#[test]
fn headers_for_opaque_origin() {
    let h = stream_headers("data:audio/mp3,abc");
    assert_eq!(h.len(), 3);
    assert_eq!(h[1].value, "null/");
    assert_eq!(h[2].value, "null");
}

const BROWSER: &str = "Mozilla/5.0 (X11; Linux x86_64) AppleWebKit/537.36 (KHTML, like Gecko) Chrome/136.0.0.0 Safari/537.36";

#[test]
fn client_with_port_keeps_headers() {
    let c = build_stream_client("https://cdn.example.com:8443/a/b.mp3?x=1").unwrap();
    assert_eq!(c.user_agent(), BROWSER);
    assert!(c.cookie_store());
    let h = c.headers();
    assert_eq!(h.len(), 3);
    assert_eq!((h[0].name, h[0].value.as_str()), (HeaderName::Accept, "*/*"));
    assert_eq!((h[1].name, h[1].value.as_str()), (HeaderName::Referer, "https://cdn.example.com:8443/"));
    assert_eq!((h[2].name, h[2].value.as_str()), (HeaderName::Origin, "https://cdn.example.com:8443"));
    let _client = c.into_client();
}

#[test]
fn client_drops_default_port_and_path() {
    let c = build_stream_client("https://example.com:443/x.mp3").unwrap();
    let h = c.headers();
    assert_eq!(h.len(), 3);
    assert_eq!(h[1].value, "https://example.com/");
    assert_eq!(h[2].value, "https://example.com");
}

#[test]
fn client_for_unparsable_url() {
    let c = build_stream_client("not a url").unwrap();
    assert_eq!(c.headers().len(), 1);
    assert_eq!(c.headers()[0].name, HeaderName::Accept);
    assert_eq!(stream_user_agent(), BROWSER);
}

use vstd::prelude::*;
use vstd::string::StringExecFns;

use crate::messages::opt_view;

verus! {

#[verifier::external_type_specification]
#[verifier::external_body]
pub struct ExClient(reqwest::Client);

#[verifier::external_type_specification]
#[verifier::external_body]
pub struct ExReqwestError(reqwest::Error);

/// Why a direct link could not be played.
#[derive(Debug, Clone, Copy, PartialEq, Eq, Structural)]
pub enum PlaybackError {
    MissingAudioURL,
    ClientBuildFailed,
}

impl PlaybackError {
    pub open spec fn spec_message(self) -> Seq<char> {
        match self {
            PlaybackError::MissingAudioURL => "Missing Audio URL"@,
            PlaybackError::ClientBuildFailed => "Failed to build HTTP client for direct stream playback"@,
        }
    }

    /// The text of the error, as it is reported.
    pub fn message(&self) -> (m: String)
        ensures
            m@ == self.spec_message(),
    {
        match self {
            PlaybackError::MissingAudioURL => String::from_str("Missing Audio URL"),
            PlaybackError::ClientBuildFailed => String::from_str(
                "Failed to build HTTP client for direct stream playback",
            ),
        }
    }
}

/// The URL to play: a play action must carry one.
pub fn audio_url(play_audio_url: Option<String>) -> (r: Result<String, PlaybackError>)
    ensures
        match play_audio_url {
            Some(u) => r matches Ok(s) && s@ == u@,
            None => r matches Err(e) && e == PlaybackError::MissingAudioURL,
        },
{
    match play_audio_url {
        Some(u) => Ok(u),
        None => Err(PlaybackError::MissingAudioURL),
    }
}

// ---------------------------------------------------------------------------
// Headers of a direct stream request
// ---------------------------------------------------------------------------

/// The ASCII serialisation of the origin of a URL, `None` when the text does
/// not parse as a URL (the WHATWG URL rules, as the `url` crate has them).
pub uninterp spec fn url_origin(url: Seq<char>) -> Option<Seq<char>>;

/// `url::Url::parse`, then `Url::origin` and `Origin::ascii_serialization` on
/// the parsed URL. The result is a function of the text alone; which text it is
/// takes the URL standard to state, so it is only named (`url_origin`).
#[verifier::external_body]
fn origin_of(url: &str) -> (r: Option<String>)
    ensures
        opt_view(r) == url_origin(url@),
{
    match url::Url::parse(url) {
        Ok(parsed) => Some(parsed.origin().ascii_serialization()),
        Err(_) => None,
    }
}

/// A header value that HTTP accepts: every byte of its UTF-8 text is a tab or
/// at least a space and not DEL. Characters outside ASCII encode to bytes of
/// 128 and more, so they are accepted.
pub open spec fn header_value_ok(s: Seq<char>) -> bool {
    forall|i: int| 0 <= i < s.len() ==> #[trigger] header_char_ok(s[i])
}

pub open spec fn header_char_ok(c: char) -> bool {
    c == '\t' || (' ' <= c && c != '\x7f')
}

/// `reqwest::header::HeaderValue::from_str` (from the `http` crate): its source
/// refuses the text exactly when some byte is neither a tab nor at least 32
/// and other than 127.
#[verifier::external_body]
fn header_value_accepted(value: &str) -> (ok: bool)
    ensures
        ok == header_value_ok(value@),
{
    reqwest::header::HeaderValue::from_str(value).is_ok()
}

/// The headers that a direct stream request sends besides the user agent.
#[derive(Debug, Clone, Copy, PartialEq, Eq, Structural)]
pub enum HeaderName {
    Accept,
    Referer,
    Origin,
}

#[derive(Debug)]
pub struct StreamHeader {
    pub name: HeaderName,
    pub value: String,
}

pub struct StreamHeaderView {
    pub name: HeaderName,
    pub value: Seq<char>,
}

impl View for StreamHeader {
    type V = StreamHeaderView;

    open spec fn view(&self) -> StreamHeaderView {
        StreamHeaderView { name: self.name, value: self.value@ }
    }
}

pub open spec fn header_views(h: Seq<StreamHeader>) -> Seq<StreamHeaderView> {
    h.map_values(|x: StreamHeader| x@)
}

/// `Accept: */*`; and when the URL parses, `Referer` with its origin and a
/// slash, and `Origin` with its origin, each only when HTTP accepts the value.
pub open spec fn spec_stream_headers(url: Seq<char>) -> Seq<StreamHeaderView> {
    let accept = seq![StreamHeaderView { name: HeaderName::Accept, value: "*/*"@ }];
    match url_origin(url) {
        None => accept,
        Some(o) => {
            let referer = o + "/"@;
            accept + (if header_value_ok(referer) {
                seq![StreamHeaderView { name: HeaderName::Referer, value: referer }]
            } else {
                Seq::empty()
            }) + (if header_value_ok(o) {
                seq![StreamHeaderView { name: HeaderName::Origin, value: o }]
            } else {
                Seq::empty()
            })
        },
    }
}

/// The headers of a direct stream request for a URL.
pub fn stream_headers(request_url: &str) -> (h: Vec<StreamHeader>)
    ensures
        header_views(h@) == spec_stream_headers(request_url@),
        forall|i: int| 0 <= i < h@.len() ==> header_value_ok(#[trigger] h@[i].value@),
{
    let mut headers: Vec<StreamHeader> = Vec::new();
    let accept = String::from_str("*/*");
    proof {
        reveal_strlit("*/*");
        assert(header_char_ok(accept@[0]));
        assert(header_char_ok(accept@[1]));
        assert(header_char_ok(accept@[2]));
    }
    headers.push(StreamHeader { name: HeaderName::Accept, value: accept });
    let ghost accept_seq = header_views(headers@);
    assert(accept_seq =~= seq![StreamHeaderView { name: HeaderName::Accept, value: "*/*"@ }]);
    match origin_of(request_url) {
        None => {},
        Some(origin) => {
            let mut referer = origin.clone();
            referer.append("/");
            if header_value_accepted(referer.as_str()) {
                headers.push(StreamHeader { name: HeaderName::Referer, value: referer });
            }
            let ghost mid = header_views(headers@);
            if header_value_accepted(origin.as_str()) {
                headers.push(StreamHeader { name: HeaderName::Origin, value: origin });
            }
            proof {
                let o = url_origin(request_url@).unwrap();
                let referer_v = o + "/"@;
                let r_part = if header_value_ok(referer_v) {
                    seq![StreamHeaderView { name: HeaderName::Referer, value: referer_v }]
                } else {
                    Seq::<StreamHeaderView>::empty()
                };
                let o_part = if header_value_ok(o) {
                    seq![StreamHeaderView { name: HeaderName::Origin, value: o }]
                } else {
                    Seq::<StreamHeaderView>::empty()
                };
                assert(mid =~= accept_seq + r_part);
                assert(header_views(headers@) =~= accept_seq + r_part + o_part);
            }
        },
    }
    headers
}

/// The user agent of direct stream requests.
pub open spec fn spec_stream_user_agent() -> Seq<char> {
    "Mozilla/5.0 (X11; Linux x86_64) AppleWebKit/537.36 (KHTML, like Gecko) Chrome/136.0.0.0 Safari/537.36"@
}

pub fn stream_user_agent() -> (s: String)
    ensures
        s@ == spec_stream_user_agent(),
        header_value_ok(s@),
{
    proof {
        lemma_user_agent_ok();
    }
    String::from_str(
        "Mozilla/5.0 (X11; Linux x86_64) AppleWebKit/537.36 (KHTML, like Gecko) Chrome/136.0.0.0 Safari/537.36",
    )
}

/// An HTTP client for a direct stream, with the headers, user agent and
/// cookie setting that it was built with.
pub struct StreamClient {
    client: reqwest::Client,
    headers: Vec<StreamHeader>,
    user_agent: String,
    cookie_store: bool,
}

pub struct StreamClientView {
    pub headers: Seq<StreamHeaderView>,
    pub user_agent: Seq<char>,
    pub cookie_store: bool,
}

impl View for StreamClient {
    type V = StreamClientView;

    closed spec fn view(&self) -> StreamClientView {
        StreamClientView {
            headers: header_views(self.headers@),
            user_agent: self.user_agent@,
            cookie_store: self.cookie_store,
        }
    }
}

impl StreamClient {
    /// The default headers of the client besides the user agent.
    pub fn headers(&self) -> (h: &Vec<StreamHeader>)
        ensures
            header_views(h@) == self@.headers,
    {
        &self.headers
    }

    /// The user agent of the client.
    pub fn user_agent(&self) -> (u: &String)
        ensures
            u@ == self@.user_agent,
    {
        &self.user_agent
    }

    /// Whether the client keeps the cookies it receives.
    pub fn cookie_store(&self) -> (c: bool)
        ensures
            c == self@.cookie_store,
    {
        self.cookie_store
    }

    /// The client itself, to make requests with.
    pub fn into_client(self) -> reqwest::Client {
        self.client
    }
}

/// `reqwest::Client::builder()` with the cookie store on or off as given, the
/// given user agent and the given headers as default headers (turned into a
/// `HeaderMap` one by one, each value accepted, see `requires`), then
/// `build()`. `user_agent` records an error when its value is not a valid
/// header value, and `build` then fails. `build` also sets up rustls with the
/// process-wide crypto provider (ring, unless the program installed another
/// one) and fails when that provider has no usable cipher suite or key
/// exchange group; since that is state of the process, success is not
/// promised. A built client keeps the headers, user agent and cookie setting
/// it was given.
#[verifier::external_body]
fn build_client(headers: Vec<StreamHeader>, user_agent: String, cookie_store: bool) -> (r: Result<
    StreamClient,
    reqwest::Error,
>)
    requires
        forall|i: int| 0 <= i < headers@.len() ==> header_value_ok(#[trigger] headers@[i].value@),
    ensures
        !header_value_ok(user_agent@) ==> r is Err,
        r matches Ok(c) ==> c@.headers == header_views(headers@) && c@.user_agent == user_agent@
            && c@.cookie_store == cookie_store,
{
    let mut map = reqwest::header::HeaderMap::new();
    for h in headers.iter() {
        let name = match h.name {
            HeaderName::Accept => reqwest::header::ACCEPT,
            HeaderName::Referer => reqwest::header::REFERER,
            HeaderName::Origin => reqwest::header::ORIGIN,
        };
        map.insert(name, reqwest::header::HeaderValue::from_str(&h.value).unwrap());
    }
    let builder = reqwest::Client::builder().cookie_store(cookie_store).user_agent(user_agent.as_str());
    match builder.default_headers(map).build() {
        Ok(client) => Ok(StreamClient { client, headers, user_agent, cookie_store }),
        Err(e) => Err(e),
    }
}

/// The HTTP client for a direct stream: the headers of `stream_headers` for the
/// URL, a cookie store and the browser user agent (a valid header value). A
/// failure of the TLS set-up is reported as `ClientBuildFailed`.
pub fn build_stream_client(request_url: &str) -> (r: Result<StreamClient, PlaybackError>)
    ensures
        r matches Ok(c) ==> c@.headers == spec_stream_headers(request_url@) && c@.user_agent
            == spec_stream_user_agent() && c@.cookie_store,
        r matches Err(e) ==> e == PlaybackError::ClientBuildFailed,
{
    let headers = stream_headers(request_url);
    let user_agent = stream_user_agent();
    match build_client(headers, user_agent, true) {
        Ok(client) => Ok(client),
        Err(_) => Err(PlaybackError::ClientBuildFailed),
    }
}

/// The browser user agent is a valid header value.
proof fn lemma_user_agent_ok()
    ensures
        header_value_ok(spec_stream_user_agent()),
{
    reveal_strlit(
        "Mozilla/5.0 (X11; Linux x86_64) AppleWebKit/537.36 (KHTML, like Gecko) Chrome/136.0.0.0 Safari/537.36",
    );
}

} // verus!

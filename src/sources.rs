use vstd::prelude::*;
use vstd::string::StringExecFns;
use crate::component::{Emission, PipelineComponent};
use crate::message::Message;
use crate::task::ConfigurationError;

verus! {

#[verifier::external_type_specification]
#[verifier::external_body]
pub struct ExUrl(url::Url);

#[verifier::external_type_specification]
#[verifier::external_body]
pub struct ExUrlParseError(url::ParseError);

/// Whether `input` parses as an absolute URL.
pub uninterp spec fn url_parses(input: Seq<char>) -> bool;

/// Relies on `url::Url::parse`: parses an absolute URL; whether it can
/// depends on the text alone.
#[verifier::external_body]
fn url_parse(input: &str) -> (r: Result<url::Url, url::ParseError>)
    ensures
        r.is_ok() == url_parses(input@),
{
    url::Url::parse(input)
}

/// Relies on `url::Url::scheme`: the scheme of the URL.
#[verifier::external_body]
fn url_scheme(u: &url::Url) -> (r: String) {
    u.scheme().to_string()
}

/// Relies on `url::Url::set_scheme`: whether the scheme could be changed.
#[verifier::external_body]
fn url_set_scheme(u: &mut url::Url, scheme: &str) -> (r: bool) {
    u.set_scheme(scheme).is_ok()
}

/// Relies on `url::Url::domain`: the domain of the host, if the host is one.
#[verifier::external_body]
fn url_domain(u: &url::Url) -> (r: Option<String>) {
    u.domain().map(|d| d.to_string())
}

/// Relies on `url::Url::set_host`: replaces the host.
#[verifier::external_body]
fn url_set_host(u: &mut url::Url, host: &str) -> (r: Result<(), url::ParseError>) {
    u.set_host(Some(host))
}

/// Relies on `url::Url::set_path`: replaces the path.
#[verifier::external_body]
fn url_set_path(u: &mut url::Url, path: &str) {
    u.set_path(path)
}

/// Relies on `url::Url::query_pairs_mut` and its `append_pair`: adds one
/// encoded `name=value` pair to the query.
#[verifier::external_body]
fn url_append_pair(u: &mut url::Url, name: &str, value: &str) {
    u.query_pairs_mut().append_pair(name, value);
}

/// Relies on `url::Url::as_str`: the serialization of the URL.
#[verifier::external_body]
fn url_text(u: &url::Url) -> (r: String) {
    u.as_str().to_string()
}

/// A source that emits each line of a file.
pub struct FileSource {
    path: String,
}

impl FileSource {
    pub closed spec fn path(&self) -> String {
        self.path
    }

    pub fn new(path: String) -> (r: Self)
        ensures
            r.path() == path,
    {
        FileSource { path }
    }

    pub fn path_str(&self) -> (r: &str)
        ensures
            r@ == self.path()@,
    {
        self.path.as_str()
    }
}

/// A source that emits each text frame of a WebSocket.
pub struct WebSocketSource {
    url: String,
}

impl WebSocketSource {
    pub closed spec fn url(&self) -> String {
        self.url
    }

    pub fn new(url: String) -> (r: Self)
        ensures
            r.url() == url,
    {
        WebSocketSource { url }
    }

    pub fn url_str(&self) -> (r: &str)
        ensures
            r@ == self.url()@,
    {
        self.url.as_str()
    }
}

impl Default for WebSocketSource {
    fn default() -> (r: Self)
        ensures
            r.url()@ == "ws://localhost:8080"@,
    {
        WebSocketSource { url: "ws://localhost:8080".to_owned() }
    }
}

/// A source that emits each message published on an MQTT topic, reached
/// over a WebSocket.
pub struct WebSocketMqttSource {
    url: String,
    topic: String,
    client_id: String,
}

impl WebSocketMqttSource {
    pub closed spec fn url(&self) -> String {
        self.url
    }

    pub closed spec fn topic(&self) -> String {
        self.topic
    }

    pub closed spec fn client_id(&self) -> String {
        self.client_id
    }

    pub fn new(url: String, topic: String, client_id: String) -> (r: Self)
        ensures
            r.url() == url,
            r.topic() == topic,
            r.client_id() == client_id,
    {
        WebSocketMqttSource { url, topic, client_id }
    }

    /// The broker URL with the client id as its query.
    pub fn connection_url(&self) -> (r: String)
        ensures
            r@ == self.url()@ + "?client_id="@ + self.client_id()@,
    {
        self.url.clone().concat("?client_id=").concat(self.client_id.as_str())
    }

    pub fn topic_str(&self) -> (r: &str)
        ensures
            r@ == self.topic()@,
    {
        self.topic.as_str()
    }
}

impl Default for WebSocketMqttSource {
    fn default() -> (r: Self)
        ensures
            r.url()@ == "ws://localhost:8883"@,
            r.topic()@ == "test"@,
            r.client_id()@ == "test_client"@,
    {
        WebSocketMqttSource {
            url: "ws://localhost:8883".to_owned(),
            topic: "test".to_owned(),
            client_id: "test_client".to_owned(),
        }
    }
}

/// A source that emits the text of every new post of the Bluesky firehose.
pub struct BlueskyFirehoseSource {
    url: String,
}

impl BlueskyFirehoseSource {
    pub closed spec fn url(&self) -> String {
        self.url
    }

    /// The source on the public relay.
    pub fn new() -> (r: Self)
        ensures
            r.url()@ == "wss://bsky.network/xrpc/com.atproto.sync.subscribeRepos"@,
    {
        BlueskyFirehoseSource { url: "wss://bsky.network/xrpc/com.atproto.sync.subscribeRepos".to_owned() }
    }

    pub fn url_str(&self) -> (r: &str)
        ensures
            r@ == self.url()@,
    {
        self.url.as_str()
    }
}

/// The parts set on a server URL to reach its streaming endpoint.
pub struct StreamingEndpoint {
    pub scheme: String,
    pub host: String,
    pub path: String,
    pub query: Vec<(String, String)>,
}

/// A source that emits the content of every status of a Mastodon server's
/// public stream.
pub struct MastodonFirehoseSource {
    server_url: String,
    access_token: Option<String>,
}

/// The scheme of the streaming endpoint for a server reached with `scheme`.
pub open spec fn streaming_scheme_of(scheme: Seq<char>) -> Seq<char> {
    if scheme == "https"@ {
        "wss"@
    } else {
        "ws"@
    }
}

/// The host of the streaming endpoint for a server of domain `domain`.
pub open spec fn streaming_host_of(domain: Option<Seq<char>>) -> Seq<char> {
    "streaming."@ + match domain {
        Some(d) => d,
        None => "mastodon.social"@,
    }
}

impl MastodonFirehoseSource {
    pub closed spec fn server_url(&self) -> String {
        self.server_url
    }

    pub closed spec fn access_token(&self) -> Option<String> {
        self.access_token
    }

    pub fn new(server_url: String) -> (r: Self)
        ensures
            r.server_url() == server_url,
            r.access_token().is_none(),
    {
        MastodonFirehoseSource { server_url, access_token: None }
    }

    pub fn with_token(server_url: String, access_token: String) -> (r: Self)
        ensures
            r.server_url() == server_url,
            r.access_token() == Some(access_token),
    {
        MastodonFirehoseSource { server_url, access_token: Some(access_token) }
    }

    /// `wss` for a server reached over `https`, `ws` otherwise.
    pub fn streaming_scheme(scheme: &String) -> (r: String)
        ensures
            r@ == streaming_scheme_of(scheme@),
    {
        let https = "https".to_owned();
        if *scheme == https {
            "wss".to_owned()
        } else {
            "ws".to_owned()
        }
    }

    /// `streaming.` followed by the server's domain, or by `mastodon.social`
    /// when the server has none.
    pub fn streaming_host(domain: &Option<String>) -> (r: String)
        ensures
            r@ == streaming_host_of(
                match domain {
                    Some(d) => Some(d@),
                    None => None,
                },
            ),
    {
        match domain {
            Some(d) => "streaming.".to_owned().concat(d.as_str()),
            None => "streaming.".to_owned().concat("mastodon.social"),
        }
    }

    /// Whether a streaming event of this name carries a new status.
    pub fn wants_event(event: &str) -> (r: bool)
        ensures
            r == (event@ == "update"@),
    {
        let e = event.to_owned();
        e == "update".to_owned()
    }

    /// What is set on the server URL to reach its public stream, given the
    /// scheme and domain the server URL has: the WebSocket scheme, the
    /// streaming host, the streaming path, and the stream and access token
    /// (empty without one) as query pairs.
    pub fn streaming_endpoint(&self, scheme: &String, domain: &Option<String>) -> (r: StreamingEndpoint)
        ensures
            r.scheme@ == streaming_scheme_of(scheme@),
            r.host@ == streaming_host_of(
                match domain {
                    Some(d) => Some(d@),
                    None => None,
                },
            ),
            r.path@ == "/api/v1/streaming"@,
            r.query.len() == 2,
            r.query[0].0@ == "stream"@,
            r.query[0].1@ == "public"@,
            r.query[1].0@ == "access_token"@,
            r.query[1].1@ == match self.access_token() {
                Some(t) => t@,
                None => ""@,
            },
    {
        let token = match &self.access_token {
            Some(t) => t.clone(),
            None => "".to_owned(),
        };
        let mut query: Vec<(String, String)> = Vec::new();
        query.push(("stream".to_owned(), "public".to_owned()));
        query.push(("access_token".to_owned(), token));
        StreamingEndpoint {
            scheme: MastodonFirehoseSource::streaming_scheme(scheme),
            host: MastodonFirehoseSource::streaming_host(domain),
            path: "/api/v1/streaming".to_owned(),
            query,
        }
    }

    /// The URL of the server's public streaming endpoint: the server URL
    /// with the parts of `streaming_endpoint` set on it. Fails with
    /// `InvalidUrl` when the server URL does not parse (or the host does not
    /// fit), and with `UnsupportedScheme` when the scheme cannot be switched.
    pub fn build_websocket_url(&self) -> (r: Result<String, ConfigurationError>)
        ensures
            !url_parses(self.server_url()@) ==> r matches Err(ConfigurationError::InvalidUrl(_)),
            r is Ok ==> url_parses(self.server_url()@),
            r matches Err(ConfigurationError::UnsupportedScheme) ==> url_parses(self.server_url()@),
    {
        let mut url = match url_parse(self.server_url.as_str()) {
            Ok(u) => u,
            Err(e) => return Err(ConfigurationError::InvalidUrl(e)),
        };
        let plan = self.streaming_endpoint(&url_scheme(&url), &url_domain(&url));
        if !url_set_scheme(&mut url, plan.scheme.as_str()) {
            return Err(ConfigurationError::UnsupportedScheme);
        }
        match url_set_host(&mut url, plan.host.as_str()) {
            Ok(()) => {},
            Err(e) => return Err(ConfigurationError::InvalidUrl(e)),
        }
        url_set_path(&mut url, plan.path.as_str());
        let mut i: usize = 0;
        while i < plan.query.len()
            invariant
                i <= plan.query.len(),
            decreases plan.query.len() - i,
        {
            url_append_pair(&mut url, plan.query[i].0.as_str(), plan.query[i].1.as_str());
            i = i + 1;
        }
        Ok(url_text(&url))
    }
}

impl Default for MastodonFirehoseSource {
    fn default() -> (r: Self)
        ensures
            r.server_url()@ == "https://mastodon.social"@,
            r.access_token().is_none(),
    {
        MastodonFirehoseSource::new("https://mastodon.social".to_owned())
    }
}

impl PipelineComponent for FileSource {
    type Input = ();
    type Output = String;

    fn accepts(&self, n_inputs: usize, n_outputs: usize) -> (r: bool) {
        true
    }

    fn on_start(&mut self, n_inputs: usize, n_outputs: usize) -> (r: Vec<Emission<String>>) {
        Vec::new()
    }

    fn on_message(&mut self, msg: Message<()>, n_inputs: usize, n_outputs: usize) -> (r: Vec<Emission<String>>) {
        Vec::new()
    }

    fn on_end(&mut self, n_inputs: usize, n_outputs: usize) -> (r: Vec<Emission<String>>) {
        Vec::new()
    }
}

impl PipelineComponent for WebSocketSource {
    type Input = ();
    type Output = String;

    fn accepts(&self, n_inputs: usize, n_outputs: usize) -> (r: bool) {
        true
    }

    fn on_start(&mut self, n_inputs: usize, n_outputs: usize) -> (r: Vec<Emission<String>>) {
        Vec::new()
    }

    fn on_message(&mut self, msg: Message<()>, n_inputs: usize, n_outputs: usize) -> (r: Vec<Emission<String>>) {
        Vec::new()
    }

    fn on_end(&mut self, n_inputs: usize, n_outputs: usize) -> (r: Vec<Emission<String>>) {
        Vec::new()
    }
}

impl PipelineComponent for WebSocketMqttSource {
    type Input = ();
    type Output = String;

    fn accepts(&self, n_inputs: usize, n_outputs: usize) -> (r: bool) {
        true
    }

    fn on_start(&mut self, n_inputs: usize, n_outputs: usize) -> (r: Vec<Emission<String>>) {
        Vec::new()
    }

    fn on_message(&mut self, msg: Message<()>, n_inputs: usize, n_outputs: usize) -> (r: Vec<Emission<String>>) {
        Vec::new()
    }

    fn on_end(&mut self, n_inputs: usize, n_outputs: usize) -> (r: Vec<Emission<String>>) {
        Vec::new()
    }
}

impl PipelineComponent for BlueskyFirehoseSource {
    type Input = ();
    type Output = String;

    fn accepts(&self, n_inputs: usize, n_outputs: usize) -> (r: bool) {
        true
    }

    fn on_start(&mut self, n_inputs: usize, n_outputs: usize) -> (r: Vec<Emission<String>>) {
        Vec::new()
    }

    fn on_message(&mut self, msg: Message<()>, n_inputs: usize, n_outputs: usize) -> (r: Vec<Emission<String>>) {
        Vec::new()
    }

    fn on_end(&mut self, n_inputs: usize, n_outputs: usize) -> (r: Vec<Emission<String>>) {
        Vec::new()
    }
}

impl PipelineComponent for MastodonFirehoseSource {
    type Input = ();
    type Output = String;

    fn accepts(&self, n_inputs: usize, n_outputs: usize) -> (r: bool) {
        true
    }

    fn on_start(&mut self, n_inputs: usize, n_outputs: usize) -> (r: Vec<Emission<String>>) {
        Vec::new()
    }

    fn on_message(&mut self, msg: Message<()>, n_inputs: usize, n_outputs: usize) -> (r: Vec<Emission<String>>) {
        Vec::new()
    }

    fn on_end(&mut self, n_inputs: usize, n_outputs: usize) -> (r: Vec<Emission<String>>) {
        Vec::new()
    }
}

} // verus!

//! The OpenAI upstream provider: its metadata and the choice of egress
//! protocol for a model.
use crate::text::{
    ascii_lower, chars_of, contains_chars, contains_run, first_segment, first_segment_end,
    last_segment, last_segment_start, lemma_first_segment_at, lemma_last_segment_at, lower_ascii,
    to_ascii_lower,
};
use vstd::prelude::*;

verus! {

#[verifier::external_type_specification]
#[verifier::external_body]
pub struct ExJsonValue(serde_json::Value);

/// A family of upstream wire protocols.
#[derive(Debug, Clone, Copy, PartialEq, Eq, Structural)]
pub enum ProtocolSuite {
    /// The OpenAI Responses API.
    OpenAiResponses,
    /// The OpenAI-compatible endpoint family (chat completions, images, ...).
    OpenAiCompatible,
}

/// How requests to a provider are authenticated.
#[derive(Debug, Clone, Copy, PartialEq, Eq, Structural)]
pub enum AuthMode {
    /// An `Authorization: Bearer <key>` header.
    Bearer,
}

/// One endpoint of a protocol suite, by name and version.
#[derive(Debug, Clone)]
pub struct ProtocolEndpoint {
    pub suite: ProtocolSuite,
    pub name: String,
    pub version: String,
}

/// The mathematical value of an endpoint.
pub struct EndpointView {
    pub suite: ProtocolSuite,
    pub name: Seq<char>,
    pub version: Seq<char>,
}

impl View for ProtocolEndpoint {
    type V = EndpointView;

    open spec fn view(&self) -> EndpointView {
        EndpointView { suite: self.suite, name: self.name@, version: self.version@ }
    }
}

/// The endpoint value with these parts.
pub open spec fn endpoint(suite: ProtocolSuite, name: Seq<char>, version: Seq<char>) -> EndpointView {
    EndpointView { suite, name, version }
}

impl ProtocolEndpoint {
    /// An endpoint of `suite` named `name` at version `version`.
    pub fn new(suite: ProtocolSuite, name: &str, version: &str) -> (e: Self)
        ensures
            e@ == endpoint(suite, name@, version@),
    {
        ProtocolEndpoint { suite, name: name.to_owned(), version: version.to_owned() }
    }
}

/// The endpoint that a suite is reached at unless a model needs another one.
/// The endpoint names are an assumption of this library, as no source of the
/// protocol catalogue is at hand: `responses` at `v1` for the Responses API,
/// and `chat-completions` at `v1` for the OpenAI-compatible family.
pub open spec fn default_endpoint_of(suite: ProtocolSuite) -> EndpointView {
    match suite {
        ProtocolSuite::OpenAiResponses => endpoint(suite, "responses"@, "v1"@),
        ProtocolSuite::OpenAiCompatible => endpoint(suite, "chat-completions"@, "v1"@),
    }
}

impl ProtocolSuite {
    /// The suite's default endpoint.
    pub fn default_endpoint(self) -> (e: ProtocolEndpoint)
        ensures
            e@ == default_endpoint_of(self),
    {
        match self {
            ProtocolSuite::OpenAiResponses => ProtocolEndpoint::new(self, "responses", "v1"),
            ProtocolSuite::OpenAiCompatible => ProtocolEndpoint::new(
                self,
                "chat-completions",
                "v1",
            ),
        }
    }
}

/// Static description of an upstream provider.
#[derive(Debug)]
pub struct ProviderMetadata {
    pub display_name: String,
    pub base_url: String,
    pub auth_mode: AuthMode,
    pub channels: Vec<String>,
    pub protocols: Vec<ProtocolEndpoint>,
    /// Provider-specific default request settings, as JSON.
    pub defaults: serde_json::Value,
}

/// The mathematical value of provider metadata (the JSON defaults aside).
pub struct MetadataView {
    pub display_name: Seq<char>,
    pub base_url: Seq<char>,
    pub auth_mode: AuthMode,
    pub channels: Seq<Seq<char>>,
    pub protocols: Seq<EndpointView>,
}

impl View for ProviderMetadata {
    type V = MetadataView;

    open spec fn view(&self) -> MetadataView {
        MetadataView {
            display_name: self.display_name@,
            base_url: self.base_url@,
            auth_mode: self.auth_mode,
            channels: self.channels@.map_values(|c: String| c@),
            protocols: self.protocols@.map_values(|p: ProtocolEndpoint| p@),
        }
    }
}

/// The endpoint for image generation.
pub open spec fn images_generations() -> EndpointView {
    endpoint(ProtocolSuite::OpenAiCompatible, "images-generations"@, "v1"@)
}

/// The endpoint for image edits.
pub open spec fn images_edits() -> EndpointView {
    endpoint(ProtocolSuite::OpenAiCompatible, "images-edits"@, "v1"@)
}

/// What the OpenAI provider declares about itself.
pub open spec fn openai_metadata() -> MetadataView {
    MetadataView {
        display_name: "OpenAI"@,
        base_url: "https://api.openai.com/v1"@,
        auth_mode: AuthMode::Bearer,
        channels: seq!["default"@],
        protocols: seq![
            default_endpoint_of(ProtocolSuite::OpenAiResponses),
            images_generations(),
            images_edits(),
        ],
    }
}

/// `serde_json::Value::Object(serde_json::Map::new())`, the value that
/// `json!({})` builds: an empty JSON object. Nothing about the value is
/// stated, since the library never reads it.
#[verifier::external_body]
fn empty_json_object() -> serde_json::Value {
    serde_json::Value::Object(serde_json::Map::new())
}

/// The OpenAI provider.
pub struct OpenAiProvider {
    metadata: ProviderMetadata,
}

impl View for OpenAiProvider {
    type V = MetadataView;

    closed spec fn view(&self) -> MetadataView {
        self.metadata@
    }
}

impl OpenAiProvider {
    /// Every OpenAI provider carries the fixed OpenAI metadata.
    #[verifier::type_invariant]
    spec fn fixed_metadata(self) -> bool {
        self.metadata@ == openai_metadata()
    }
}

/// Whether a model id names an OpenAI image model: the id, with any
/// `:tag` suffix and any `owner/` prefixes cut off, contains `image` or
/// `dall-e`, ASCII case ignored.
pub open spec fn image_model(model_id: Seq<char>) -> bool {
    let body = lower_ascii(last_segment(first_segment(model_id, ':'), '/'));
    contains_run(body, "image"@) || contains_run(body, "dall-e"@)
}

/// Heuristic: `true` when the model id looks like an OpenAI image-generation
/// model (e.g. `gpt-image-1`, `dall-e-3`).
pub fn is_image_model(model_id: &str) -> (b: bool)
    ensures
        b == image_model(model_id@),
{
    let cs = chars_of(model_id);
    let end = first_segment_end(&cs, ':');
    let start = last_segment_start(&cs, end, '/');
    let ghost seg = cs@.subrange(start as int, end as int);
    let mut body: Vec<char> = Vec::new();
    let mut i = start;
    while i < end
        invariant
            start <= i <= end <= cs.len(),
            seg == cs@.subrange(start as int, end as int),
            body@ == lower_ascii(seg.take(i - start)),
        decreases end - i,
    {
        body.push(to_ascii_lower(cs[i]));
        assert(lower_ascii(seg.take(i - start + 1)) =~= lower_ascii(seg.take(i - start)).push(
            ascii_lower(seg[i - start]),
        ));
        i = i + 1;
    }
    assert(seg.take(end - start) =~= seg);
    let image: Vec<char> = vec!['i', 'm', 'a', 'g', 'e'];
    let dall_e: Vec<char> = vec!['d', 'a', 'l', 'l', '-', 'e'];
    proof {
        reveal_strlit("image");
        reveal_strlit("dall-e");
        assert(image@ =~= "image"@);
        assert(dall_e@ =~= "dall-e"@);
    }
    contains_chars(&body, &image) || contains_chars(&body, &dall_e)
}

impl OpenAiProvider {
    /// The provider with its fixed metadata.
    pub fn new() -> (p: Self)
        ensures
            p@ == openai_metadata(),
    {
        let mut channels: Vec<String> = Vec::new();
        channels.push("default".to_owned());
        let mut protocols: Vec<ProtocolEndpoint> = Vec::new();
        protocols.push(ProtocolSuite::OpenAiResponses.default_endpoint());
        protocols.push(ProtocolEndpoint::new(ProtocolSuite::OpenAiCompatible, "images-generations", "v1"));
        protocols.push(ProtocolEndpoint::new(ProtocolSuite::OpenAiCompatible, "images-edits", "v1"));
        let metadata = ProviderMetadata {
            display_name: "OpenAI".to_owned(),
            base_url: "https://api.openai.com/v1".to_owned(),
            auth_mode: AuthMode::Bearer,
            channels,
            protocols,
            defaults: empty_json_object(),
        };
        assert(metadata@.channels =~= seq!["default"@]);
        assert(metadata@.protocols =~= openai_metadata().protocols);
        OpenAiProvider { metadata }
    }

    /// The provider's identifier.
    pub fn id(&self) -> (id: &str)
        ensures
            id@ == "openai"@,
    {
        "openai"
    }

    /// The provider's metadata.
    pub fn metadata(&self) -> (m: &ProviderMetadata)
        ensures
            m@ == self@,
            m@ == openai_metadata(),
    {
        proof {
            use_type_invariant(self);
        }
        &self.metadata
    }

    /// The protocol endpoints the provider declares.
    pub fn supported_protocols(&self) -> (ps: &[ProtocolEndpoint])
        ensures
            ps@.map_values(|p: ProtocolEndpoint| p@) == self@.protocols,
            self@.protocols == openai_metadata().protocols,
    {
        proof {
            use_type_invariant(self);
        }
        self.metadata.protocols.as_slice()
    }

    /// The endpoint that requests for `model_id` are sent to: image models
    /// go to image generation, everything else to the Responses API.
    pub fn egress_protocol_for_model(&self, model_id: &str) -> (e: ProtocolEndpoint)
        ensures
            e@ == (if image_model(model_id@) {
                images_generations()
            } else {
                default_endpoint_of(ProtocolSuite::OpenAiResponses)
            }),
            self@.protocols.contains(e@),
    {
        proof {
            use_type_invariant(self);
            assert(self@.protocols[0] == default_endpoint_of(ProtocolSuite::OpenAiResponses));
            assert(self@.protocols[1] == images_generations());
        }
        if is_image_model(model_id) {
            ProtocolEndpoint::new(ProtocolSuite::OpenAiCompatible, "images-generations", "v1")
        } else {
            ProtocolSuite::OpenAiResponses.default_endpoint()
        }
    }
}

impl Default for OpenAiProvider {
    fn default() -> (p: Self)
        ensures
            p@ == openai_metadata(),
    {
        Self::new()
    }
}


/// No character of `s` is `:` or `/`.
pub open spec fn plain_name(s: Seq<char>) -> bool {
    forall|i: int| 0 <= i < s.len() ==> s[i] != ':' && s[i] != '/'
}

/// How model ids are read: a `:tag` suffix and `owner/` prefixes do not
/// matter; a bare name is an image model exactly when, ASCII case ignored,
/// it contains `image` or `dall-e`; in particular every bare name with
/// `image` or `dall-e` in it is one, in any ASCII case.
pub proof fn lemma_image_model_reading(s: Seq<char>, t: Seq<char>, o: Seq<char>, a: Seq<char>, b: Seq<char>)
    ensures
        (forall|i: int| 0 <= i < s.len() ==> s[i] != ':') ==> image_model(s + seq![':'] + t)
            == image_model(s),
        plain_name(s) && (forall|i: int| 0 <= i < o.len() ==> o[i] != ':') ==> image_model(
            o + seq!['/'] + s,
        ) == image_model(s),
        plain_name(s) ==> image_model(s) == (contains_run(lower_ascii(s), "image"@) || contains_run(
            lower_ascii(s),
            "dall-e"@,
        )),
        plain_name(a) && plain_name(b) ==> image_model(a + "image"@ + b) && image_model(
            a + "dall-e"@ + b,
        ) && image_model(a + "IMAGE"@ + b) && image_model(a + "DALL-E"@ + b),
{
    let st = s + seq![':'] + t;
    if forall|i: int| 0 <= i < s.len() ==> s[i] != ':' {
        assert forall|j: int| 0 <= j < s.len() implies st[j] != ':' by {
            assert(st[j] == s[j]);
        }
        lemma_first_segment_at(st, ':', s.len() as int);
        assert(st.take(s.len() as int) =~= s);
        lemma_first_segment_at(s, ':', s.len() as int);
        assert(s.take(s.len() as int) =~= s);
    }
    if plain_name(s) {
        lemma_plain_name_segments(s);
    }
    let os = o + seq!['/'] + s;
    if plain_name(s) && (forall|i: int| 0 <= i < o.len() ==> o[i] != ':') {
        assert forall|j: int| 0 <= j < os.len() implies os[j] != ':' by {
            if j < o.len() {
                assert(os[j] == o[j]);
            } else if j > o.len() {
                assert(os[j] == s[j - o.len() - 1]);
            }
        }
        lemma_first_segment_at(os, ':', os.len() as int);
        assert(os.take(os.len() as int) =~= os);
        assert forall|j: int| o.len() + 1 <= j < os.len() implies os[j] != '/' by {
            assert(os[j] == s[j - o.len() - 1]);
        }
        lemma_last_segment_at(os, '/', (o.len() + 1) as int);
        assert(os.subrange((o.len() + 1) as int, os.len() as int) =~= s);
    }
    if plain_name(a) && plain_name(b) {
        reveal_strlit("image");
        reveal_strlit("dall-e");
        reveal_strlit("IMAGE");
        reveal_strlit("DALL-E");
        assert(lower_ascii("image"@) =~= "image"@);
        assert(lower_ascii("dall-e"@) =~= "dall-e"@);
        assert(lower_ascii("IMAGE"@) =~= "image"@);
        assert(lower_ascii("DALL-E"@) =~= "dall-e"@);
        lemma_bare_run(a, "image"@, b, "image"@);
        lemma_bare_run(a, "dall-e"@, b, "dall-e"@);
        lemma_bare_run(a, "IMAGE"@, b, "image"@);
        lemma_bare_run(a, "DALL-E"@, b, "dall-e"@);
    }
}

proof fn lemma_plain_name_segments(s: Seq<char>)
    requires
        plain_name(s),
    ensures
        last_segment(first_segment(s, ':'), '/') == s,
{
    lemma_first_segment_at(s, ':', s.len() as int);
    assert(s.take(s.len() as int) =~= s);
    lemma_last_segment_at(s, '/', 0);
    assert(s.subrange(0, s.len() as int) =~= s);
}

proof fn lemma_bare_run(a: Seq<char>, n: Seq<char>, b: Seq<char>, lower: Seq<char>)
    requires
        plain_name(a),
        plain_name(b),
        plain_name(n),
        lower_ascii(n) == lower,
    ensures
        contains_run(lower_ascii(a + n + b), lower),
        image_model(a + n + b) == (contains_run(lower_ascii(a + n + b), "image"@) || contains_run(
            lower_ascii(a + n + b),
            "dall-e"@,
        )),
{
    let s = a + n + b;
    assert forall|i: int| 0 <= i < s.len() implies s[i] != ':' && s[i] != '/' by {
        if i < a.len() {
            assert(s[i] == a[i]);
        } else if i < a.len() + n.len() {
            assert(s[i] == n[i - a.len()]);
        } else {
            assert(s[i] == b[i - a.len() - n.len()]);
        }
    }
    lemma_plain_name_segments(s);
    let l = lower_ascii(s);
    assert(l.subrange(a.len() as int, (a.len() + n.len()) as int) =~= lower);
}

} // verus!

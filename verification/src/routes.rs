//! Completion routes: request model, bearer-token authentication, and the
//! synthesizer that turns a parsed request into either a full completion
//! body or a primed stream session.

use crate::corpus::{concat_prefix, Corpus};
use crate::stream::{requested_or_total, session_take, StreamSession};
use crate::template::{
    chat_completion_text, dec_rep, format_usize, render_chat_completion, ERROR_INVALID_API_KEY,
    ERROR_MISSING_API_KEY,
};
use vstd::prelude::*;
use vstd::string::*;

verus! {

/// Application state: the optional bearer token and the configured
/// inter-token latency in milliseconds.
#[derive(Clone)]
pub struct AppState {
    pub token: Option<String>,
    pub inter_token_latency: u64,
}

/// A parsed completion request: the optional token budget, the streaming
/// flag, and the usage-reporting flag. Unrecognized fields of the inbound
/// payload are accepted and dropped before the request reaches the core;
/// they are never interpreted.
pub struct Request {
    pub max_tokens: Option<usize>,
    pub stream: Option<bool>,
    pub include_usage: Option<bool>,
}

/// The usage object of a completion response; `prompt_tokens` is always 0,
/// as this mock performs no prompt accounting.
#[derive(Clone, Copy, Debug, PartialEq, Eq, Structural)]
pub struct Usage {
    pub prompt_tokens: i32,
    pub completion_tokens: i32,
    pub total_tokens: i32,
}

impl Default for Usage {
    /// An all-zero usage object.
    fn default() -> (u: Usage)
        ensures
            u.prompt_tokens == 0,
            u.completion_tokens == 0,
            u.total_tokens == 0,
    {
        Usage { prompt_tokens: 0, completion_tokens: 0, total_tokens: 0 }
    }
}

/// Character-for-character string equality.
fn str_eq(a: &str, b: &str) -> (r: bool)
    ensures
        r == (a@ == b@),
{
    let na = a.unicode_len();
    let nb = b.unicode_len();
    if na != nb {
        return false;
    }
    let mut i: usize = 0;
    while i < na
        invariant
            na == a@.len(),
            na == b@.len(),
            i <= na,
            forall|j: int| 0 <= j < i ==> a@[j] == b@[j],
        decreases na - i,
    {
        if a.get_char(i) != b.get_char(i) {
            return false;
        }
        i = i + 1;
    }
    proof {
        assert(a@ =~= b@);
    }
    true
}

/// Whether a presented bearer token is acceptable: when no token is
/// configured, every request passes; otherwise the presented token must
/// match the configured one exactly.
pub fn validate_bearer_token(provided_token: &str, expected_token: &Option<String>) -> (r: bool)
    ensures
        r == (match expected_token {
            Some(e) => provided_token@ == e@,
            None => true,
        }),
{
    match expected_token {
        Some(expected) => str_eq(provided_token, expected.as_str()),
        None => true,
    }
}

/// The three outcomes of authentication.
#[derive(Clone, Copy, Debug, PartialEq, Eq, Structural)]
pub enum AuthOutcome {
    /// No token configured, or the presented token matches.
    Authorized,
    /// A token is configured and the request presented none.
    MissingKey,
    /// A token is configured and the presented token differs.
    InvalidKey,
}

/// The authentication decision as a function of the configured and the
/// presented token.
pub open spec fn auth_decision(expected: Option<Seq<char>>, provided: Option<Seq<char>>) -> AuthOutcome {
    match expected {
        None => AuthOutcome::Authorized,
        Some(e) => match provided {
            None => AuthOutcome::MissingKey,
            Some(p) => if p == e {
                AuthOutcome::Authorized
            } else {
                AuthOutcome::InvalidKey
            },
        },
    }
}

/// Authenticate a request: reject when a token is configured and the
/// request lacks one or presents a mismatched one, accept otherwise.
pub fn authorize(expected: &Option<String>, provided: Option<&str>) -> (o: AuthOutcome)
    ensures
        o == auth_decision(expected.deep_view(), provided.deep_view()),
{
    match expected {
        None => AuthOutcome::Authorized,
        Some(_) => match provided {
            None => AuthOutcome::MissingKey,
            Some(p) => {
                if validate_bearer_token(p, expected) {
                    AuthOutcome::Authorized
                } else {
                    AuthOutcome::InvalidKey
                }
            },
        },
    }
}

/// The fixed error body for a failed authentication, none for a successful
/// one.
pub fn auth_error_body(o: &AuthOutcome) -> (r: Option<&'static str>)
    ensures
        (o is Authorized) ==> r is None,
        (o is MissingKey) ==> (r matches Some(b) && b@ == ERROR_MISSING_API_KEY@),
        (o is InvalidKey) ==> (r matches Some(b) && b@ == ERROR_INVALID_API_KEY@),
{
    match o {
        AuthOutcome::Authorized => None,
        AuthOutcome::MissingKey => Some(ERROR_MISSING_API_KEY),
        AuthOutcome::InvalidKey => Some(ERROR_INVALID_API_KEY),
    }
}

/// The effective token count of a non-streaming completion: the requested
/// budget, capped by the corpus size.
pub open spec fn effective_tokens(requested: nat, total: nat) -> nat {
    if requested < total {
        requested
    } else {
        total
    }
}

/// Slice the corpus for a non-streaming completion: the concatenation of
/// its first `effective_tokens` tokens, and that count. An absent budget,
/// or one at least the corpus size, takes the precomputed full
/// concatenation without re-slicing.
pub fn synthesize_content(corpus: &Corpus, max_tokens: Option<usize>) -> (r: (String, usize))
    requires
        corpus.wf(),
    ensures
        r.1 == effective_tokens(requested_or_total(max_tokens, corpus@.len()), corpus@.len()),
        r.0@ == concat_prefix(corpus@, r.1 as int),
{
    let total = corpus.total_count();
    match max_tokens {
        None => (corpus.full_text().clone(), total),
        Some(m) => {
            if m >= total {
                (corpus.full_text().clone(), total)
            } else {
                (corpus.join_prefix(m), m)
            }
        },
    }
}

/// A budget of at least the corpus size is the full-corpus case: the
/// effective count is the total count, and the sliced content is the full
/// corpus concatenation.
pub proof fn lemma_full_budget_content(toks: Seq<Seq<char>>, requested: nat)
    requires
        requested >= toks.len(),
    ensures
        effective_tokens(requested, toks.len()) == toks.len(),
        concat_prefix(toks, effective_tokens(requested, toks.len()) as int) == crate::corpus::concat_all(
            toks,
        ),
{
}

/// The non-streaming completion body for a request: the sliced content
/// rendered into the full completion template, with `completion_tokens`
/// and `total_tokens` both the effective count.
pub fn completion_body(corpus: &Corpus, max_tokens: Option<usize>) -> (r: String)
    requires
        corpus.wf(),
    ensures
        ({
            let eff = effective_tokens(requested_or_total(max_tokens, corpus@.len()), corpus@.len());
            r@ == chat_completion_text(concat_prefix(corpus@, eff as int), eff, eff)
        }),
{
    let (content, eff) = synthesize_content(corpus, max_tokens);
    render_chat_completion(content.as_str(), eff, eff)
}

/// What the synthesizer hands back: one fully rendered completion body, or
/// a primed stream session for the streaming path.
pub enum OutputMode {
    Completion(String),
    Streaming(StreamSession),
}

/// Route a request to the non-streaming or the streaming path by its
/// `stream` flag.
pub fn synthesize(corpus: &Corpus, request: &Request) -> (r: OutputMode)
    requires
        corpus.wf(),
    ensures
        request.stream == Some(true) ==> (r matches OutputMode::Streaming(s) && s.wf()
            && s.toks() == corpus@.subrange(
            0,
            session_take(
                requested_or_total(request.max_tokens, corpus@.len()),
                corpus@.len(),
            ) as int,
        ) && s.usage_requested() == (request.include_usage == Some(true)) && s.emitted()
            == Seq::<crate::stream::FrameModel>::empty()),
        request.stream != Some(true) ==> (r matches OutputMode::Completion(body) && ({
            let eff = effective_tokens(
                requested_or_total(request.max_tokens, corpus@.len()),
                corpus@.len(),
            );
            body@ == chat_completion_text(concat_prefix(corpus@, eff as int), eff, eff)
        })),
{
    let streaming = match request.stream {
        Some(true) => true,
        _ => false,
    };
    if streaming {
        let include_usage = match request.include_usage {
            Some(true) => true,
            _ => false,
        };
        OutputMode::Streaming(StreamSession::new(corpus, request.max_tokens, include_usage))
    } else {
        OutputMode::Completion(completion_body(corpus, request.max_tokens))
    }
}

/// A routed response: an authentication error body, a completion body, or
/// a live stream session.
pub enum RouteResponse {
    Unauthorized(String),
    Completion(String),
    Stream(StreamSession),
}

/// The completion endpoint's decision logic: authenticate against the
/// configured token, then dispatch on the `stream` flag.
pub fn handle_completions(state: &AppState, bearer: Option<&str>, corpus: &Corpus, request: &Request) -> (r:
    RouteResponse)
    requires
        corpus.wf(),
    ensures
        ({
            let decision = auth_decision(state.token.deep_view(), bearer.deep_view());
            &&& (decision is MissingKey ==> (r matches RouteResponse::Unauthorized(b) && b@
                == ERROR_MISSING_API_KEY@))
            &&& (decision is InvalidKey ==> (r matches RouteResponse::Unauthorized(b) && b@
                == ERROR_INVALID_API_KEY@))
            &&& (decision is Authorized && request.stream == Some(true) ==> (r
                matches RouteResponse::Stream(s) && s.wf() && s.toks() == corpus@.subrange(
                0,
                session_take(
                    requested_or_total(request.max_tokens, corpus@.len()),
                    corpus@.len(),
                ) as int,
            ) && s.usage_requested() == (request.include_usage == Some(true)) && s.emitted()
                == Seq::<crate::stream::FrameModel>::empty()))
            &&& (decision is Authorized && request.stream != Some(true) ==> (r
                matches RouteResponse::Completion(body) && ({
                let eff = effective_tokens(
                    requested_or_total(request.max_tokens, corpus@.len()),
                    corpus@.len(),
                );
                body@ == chat_completion_text(concat_prefix(corpus@, eff as int), eff, eff)
            })))
        }),
{
    let outcome = authorize(&state.token, bearer);
    match auth_error_body(&outcome) {
        Some(body) => RouteResponse::Unauthorized(String::from_str(body)),
        None => match synthesize(corpus, request) {
            OutputMode::Completion(body) => RouteResponse::Completion(body),
            OutputMode::Streaming(s) => RouteResponse::Stream(s),
        },
    }
}

/// The diagnostics line of the token-count endpoint.
pub fn max_tokens_message(corpus: &Corpus) -> (r: String)
    ensures
        r@ == "Max tokens: "@ + dec_rep(corpus@.len()),
{
    let mut s = String::from_str("Max tokens: ");
    let n = format_usize(corpus.total_count());
    s.append(n.as_str());
    s
}

} // verus!

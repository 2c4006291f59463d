//! The dispatch layer: a tagged union over the provider-bound agents, built
//! from the configuration, exposing the four completion operations as pure
//! request builders and outcome forwarders. The layer transforms nothing: a
//! request carries the caller's arguments unchanged under the handle's own
//! provider tag, and a provider's reply is handed back as it came.

use crate::settings::{Provider, Settings};
use vstd::prelude::*;
use vstd::string::StringExecFns;

verus! {

/// What this layer reads of a provider-bound agent: the model identifier and
/// the system preamble it was built with.
#[verifier::ext_equal]
pub struct AgentModel {
    pub model: Seq<char>,
    pub preamble: Option<Seq<char>>,
}

/// The text an optional string holds, if any.
pub open spec fn opt_text(o: Option<String>) -> Option<Seq<char>> {
    match o {
        Some(s) => Some(s@),
        None => None,
    }
}

/// Accumulates agent construction options before finalization.
#[derive(Debug)]
pub struct AgentBuilder {
    pub model: String,
    pub preamble: Option<String>,
}

impl View for AgentBuilder {
    type V = AgentModel;

    open spec fn view(&self) -> AgentModel {
        AgentModel { model: self.model@, preamble: opt_text(self.preamble) }
    }
}

/// An immutable, finalized agent configuration.
#[derive(Debug, PartialEq, Eq)]
pub struct AgentCore {
    pub model: String,
    pub preamble: Option<String>,
}

impl View for AgentCore {
    type V = AgentModel;

    open spec fn view(&self) -> AgentModel {
        AgentModel { model: self.model@, preamble: opt_text(self.preamble) }
    }
}

impl AgentBuilder {
    /// A fresh builder for the given model, with no preamble yet.
    pub fn new(model: String) -> (b: AgentBuilder)
        ensures
            b@ == (AgentModel { model: model@, preamble: None }),
    {
        AgentBuilder { model, preamble: None }
    }

    /// Sets the system preamble, replacing any earlier one.
    pub fn preamble(self, text: String) -> (b: AgentBuilder)
        ensures
            b@ == (AgentModel { model: self@.model, preamble: Some(text@) }),
    {
        AgentBuilder { model: self.model, preamble: Some(text) }
    }

    /// Finalization: a pure transformation of the accumulated options into an
    /// immutable agent configuration.
    pub fn build(self) -> (c: AgentCore)
        ensures
            c@ == self@,
    {
        AgentCore { model: self.model, preamble: self.preamble }
    }
}

/// A caller-supplied hook that customizes the agent builder once, before
/// finalization. `spec_build` is the hook's own description of what it does;
/// `build` must do exactly that.
pub trait Builder: Sized {
    spec fn spec_build(self, b: AgentModel) -> AgentModel;

    fn build(self, b: AgentBuilder) -> (r: AgentBuilder)
        ensures
            r@ == self.spec_build(b@),
    ;
}

/// A hook that installs a fixed system preamble.
#[derive(Debug)]
pub struct PreambleBuilder {
    pub text: String,
}

impl Builder for PreambleBuilder {
    open spec fn spec_build(self, b: AgentModel) -> AgentModel {
        AgentModel { model: b.model, preamble: Some(self.text@) }
    }

    fn build(self, b: AgentBuilder) -> (r: AgentBuilder) {
        b.preamble(self.text)
    }
}

/// A hook that leaves the builder as it found it.
#[derive(Debug)]
pub struct IdentityBuilder;

impl Builder for IdentityBuilder {
    open spec fn spec_build(self, b: AgentModel) -> AgentModel {
        b
    }

    fn build(self, b: AgentBuilder) -> (r: AgentBuilder) {
        b
    }
}

/// Who spoke a message of the chat history.
#[derive(Debug, Clone, Copy, PartialEq, Eq)]
pub enum Role {
    User,
    Assistant,
}

/// One prior turn of a conversation, supplied by the caller.
#[derive(Debug, Clone, PartialEq, Eq)]
pub struct Message {
    pub role: Role,
    pub content: String,
}

/// An error the provider raised for a single-turn or chat request. This layer
/// adds no error kinds of its own: the text is the provider's, forwarded.
#[derive(Debug, Clone, PartialEq, Eq)]
pub struct PromptError {
    pub message: String,
}

/// An error the provider raised while opening or delivering a streamed
/// response; forwarded unchanged, like `PromptError`.
#[derive(Debug, Clone, PartialEq, Eq)]
#[verifier::ext_equal]
pub struct CompletionError {
    pub message: String,
}

impl CompletionError {
    /// An owned copy carrying the same message.
    pub fn duplicate(&self) -> (e: CompletionError)
        ensures
            e == *self,
    {
        let e = CompletionError { message: self.message.clone() };
        proof {
            assert(e =~= *self);
        }
        e
    }
}

/// What a completion request looks like once the dispatch layer has decided
/// it: the provider to call, the agent configuration to call it with, and the
/// caller's arguments, all unchanged.
#[verifier::ext_equal]
pub struct RequestModel {
    pub provider: Provider,
    pub model: Seq<char>,
    pub preamble: Option<Seq<char>>,
    pub prompt: Seq<char>,
    pub history: Seq<Message>,
}

/// A completion request bound for one provider, carrying the caller's
/// arguments verbatim.
#[derive(Debug, Clone, PartialEq, Eq)]
pub struct ChatRequest {
    pub provider: Provider,
    pub model: String,
    pub preamble: Option<String>,
    pub prompt: String,
    pub history: Vec<Message>,
}

impl View for ChatRequest {
    type V = RequestModel;

    open spec fn view(&self) -> RequestModel {
        RequestModel {
            provider: self.provider,
            model: self.model@,
            preamble: opt_text(self.preamble),
            prompt: self.prompt@,
            history: self.history@,
        }
    }
}

fn clone_opt_text(o: &Option<String>) -> (r: Option<String>)
    ensures
        r == *o,
{
    match o {
        Some(s) => Some(s.clone()),
        None => None,
    }
}

/// The dispatch handle: one provider-bound agent behind a tag, so call sites
/// need not know which provider backs it.
#[derive(Debug, PartialEq, Eq)]
pub enum SAgent {
    OpenAI(AgentCore),
    Anthropic(AgentCore),
    Azure(AgentCore),
}

impl SAgent {
    /// The provider tag of the handle.
    pub open spec fn provider(self) -> Provider {
        match self {
            SAgent::OpenAI(_) => Provider::OpenAI,
            SAgent::Anthropic(_) => Provider::Anthropic,
            SAgent::Azure(_) => Provider::Azure,
        }
    }

    /// The agent configuration behind the tag.
    pub open spec fn agent_core(self) -> AgentCore {
        match self {
            SAgent::OpenAI(c) => c,
            SAgent::Anthropic(c) => c,
            SAgent::Azure(c) => c,
        }
    }

    /// The provider tag, for callers outside ghost code.
    pub fn provider_tag(&self) -> (p: Provider)
        ensures
            p == self.provider(),
    {
        match self {
            SAgent::OpenAI(_) => Provider::OpenAI,
            SAgent::Anthropic(_) => Provider::Anthropic,
            SAgent::Azure(_) => Provider::Azure,
        }
    }

    fn core_ref(&self) -> (c: &AgentCore)
        ensures
            *c == self.agent_core(),
    {
        match self {
            SAgent::OpenAI(c) => c,
            SAgent::Anthropic(c) => c,
            SAgent::Azure(c) => c,
        }
    }

    /// The request this handle decides for a chat with the given prompt and
    /// history.
    pub open spec fn spec_chat_request(self, prompt: Seq<char>, history: Seq<Message>) -> RequestModel {
        RequestModel {
            provider: self.provider(),
            model: self.agent_core()@.model,
            preamble: self.agent_core()@.preamble,
            prompt,
            history,
        }
    }

    /// The request this handle decides for a single-turn prompt: a chat with
    /// no history.
    pub open spec fn spec_prompt_request(self, prompt: Seq<char>) -> RequestModel {
        self.spec_chat_request(prompt, Seq::empty())
    }

    /// Decides the request for a chat: the correspondingly-tagged provider is
    /// addressed with the caller's prompt and history unchanged.
    pub fn chat_request(&self, prompt: String, history: Vec<Message>) -> (r: ChatRequest)
        ensures
            r@ == self.spec_chat_request(prompt@, history@),
    {
        let chosen = self.core_ref();
        let r = ChatRequest {
            provider: self.provider_tag(),
            model: chosen.model.clone(),
            preamble: clone_opt_text(&chosen.preamble),
            prompt,
            history,
        };
        proof {
            assert(r@ =~= self.spec_chat_request(r.prompt@, r.history@));
        }
        r
    }

    /// Decides the request for a single-turn prompt; identical to a chat
    /// request with an empty history.
    pub fn prompt_request(&self, prompt: String) -> (r: ChatRequest)
        ensures
            r@ == self.spec_prompt_request(prompt@),
    {
        self.chat_request(prompt, Vec::new())
    }

    /// Decides the request for a streamed chat: the same request as the
    /// non-streamed chat, fragment delivery being the transport's affair.
    pub fn stream_chat_request(&self, prompt: &str, history: Vec<Message>) -> (r: ChatRequest)
        ensures
            r@ == self.spec_chat_request(prompt@, history@),
    {
        self.chat_request(prompt.to_owned(), history)
    }

    /// Decides the request for a streamed single-turn prompt.
    pub fn stream_prompt_request(&self, prompt: &str) -> (r: ChatRequest)
        ensures
            r@ == self.spec_prompt_request(prompt@),
    {
        self.chat_request(prompt.to_owned(), Vec::new())
    }

    /// Forwards the provider's reply to a single-turn prompt unchanged: this
    /// layer transforms neither responses nor errors.
    pub fn prompt_outcome(&self, reply: Result<String, PromptError>) -> (r: Result<
        String,
        PromptError,
    >)
        ensures
            r == reply,
    {
        reply
    }

    /// Forwards the provider's reply to a chat unchanged.
    pub fn chat_outcome(&self, reply: Result<String, PromptError>) -> (r: Result<
        String,
        PromptError,
    >)
        ensures
            r == reply,
    {
        reply
    }
}

/// Law: every request a handle decides — single-turn or chat, streamed or
/// not — addresses the provider whose tag the handle carries, which
/// `Settings::agent` guarantees is the configured one; no operation crosses
/// to another provider's implementation.
pub proof fn lemma_operations_forward_to_the_handles_provider(
    a: SAgent,
    prompt: Seq<char>,
    history: Seq<Message>,
)
    ensures
        a.spec_chat_request(prompt, history).provider == a.provider(),
        a.spec_prompt_request(prompt).provider == a.provider(),
{
}

/// Law: a single-turn prompt is dispatched exactly as a chat with an empty
/// history; the two operations address the same provider with the same
/// arguments, so an identical provider response yields an identical result.
pub proof fn lemma_prompt_is_chat_with_empty_history(a: SAgent, prompt: Seq<char>)
    ensures
        a.spec_prompt_request(prompt) == a.spec_chat_request(prompt, Seq::<Message>::empty()),
{
}

/// What draining a stream assembles, fragment by fragment, onto text already
/// gathered: the fragments in arrival order, or the first failure.
pub open spec fn drain_from(
    acc: Seq<char>,
    chunks: Seq<Result<String, CompletionError>>,
) -> Result<Seq<char>, CompletionError>
    decreases chunks.len(),
{
    if chunks.len() == 0 {
        Ok(acc)
    } else {
        match chunks[0] {
            Err(e) => Err(e),
            Ok(s) => drain_from(acc + s@, chunks.drop_first()),
        }
    }
}

/// The text a fully drained stream yields: every delivered fragment in order,
/// or the provider's error if a fragment failed.
pub open spec fn spec_drain(chunks: Seq<Result<String, CompletionError>>) -> Result<
    Seq<char>,
    CompletionError,
> {
    drain_from(Seq::empty(), chunks)
}

/// The concatenation of the delivered fragments, failures contributing
/// nothing.
pub open spec fn concat_ok_texts(chunks: Seq<Result<String, CompletionError>>) -> Seq<char>
    decreases chunks.len(),
{
    if chunks.len() == 0 {
        Seq::empty()
    } else {
        (match chunks[0] {
            Ok(s) => s@,
            Err(_) => Seq::empty(),
        }) + concat_ok_texts(chunks.drop_first())
    }
}

proof fn lemma_drain_from_concat(acc: Seq<char>, chunks: Seq<Result<String, CompletionError>>)
    requires
        forall|i: int| 0 <= i < chunks.len() ==> chunks[i] is Ok,
    ensures
        drain_from(acc, chunks) == Ok::<Seq<char>, CompletionError>(acc + concat_ok_texts(chunks)),
    decreases chunks.len(),
{
    if chunks.len() == 0 {
        assert(acc + concat_ok_texts(chunks) =~= acc);
    } else {
        let rest = chunks.drop_first();
        assert forall|i: int| 0 <= i < rest.len() implies rest[i] is Ok by {
            assert(rest[i] == chunks[i + 1]);
        }
        match chunks[0] {
            Ok(s) => {
                lemma_drain_from_concat(acc + s@, rest);
                assert((acc + s@) + concat_ok_texts(rest) =~= acc + (s@ + concat_ok_texts(rest)));
            },
            Err(_) => {
                assert(false);
            },
        }
    }
}

/// Law: when every fragment of a streamed response arrives, draining the
/// stream yields `Ok` of exactly the fragments' concatenation — the same text
/// the non-streamed prompt hands back when the provider's full response is
/// that concatenation, since prompt outcomes are forwarded unchanged.
pub proof fn lemma_drain_concatenates(chunks: Seq<Result<String, CompletionError>>)
    requires
        forall|i: int| 0 <= i < chunks.len() ==> chunks[i] is Ok,
    ensures
        spec_drain(chunks) == Ok::<Seq<char>, CompletionError>(concat_ok_texts(chunks)),
{
    lemma_drain_from_concat(Seq::empty(), chunks);
    assert(Seq::empty() + concat_ok_texts(chunks) =~= concat_ok_texts(chunks));
}

/// Drains a streamed response completely: concatenates the fragments in
/// arrival order into one text, or surfaces the provider's error unchanged.
pub fn drain_stream(chunks: &Vec<Result<String, CompletionError>>) -> (r: Result<
    String,
    CompletionError,
>)
    ensures
        r matches Ok(text) ==> spec_drain(chunks@) == Ok::<Seq<char>, CompletionError>(text@),
        r matches Err(e) ==> spec_drain(chunks@) == Err::<Seq<char>, CompletionError>(e),
{
    let mut acc = String::new();
    let mut i: usize = 0;
    proof {
        assert(chunks@.skip(0) =~= chunks@);
    }
    while i < chunks.len()
        invariant
            i <= chunks.len(),
            drain_from(acc@, chunks@.skip(i as int)) == spec_drain(chunks@),
        decreases chunks.len() - i,
    {
        proof {
            assert(chunks@.skip(i as int).drop_first() =~= chunks@.skip(i as int + 1));
        }
        match &chunks[i] {
            Ok(s) => {
                acc.append(s.as_str());
            },
            Err(e) => {
                return Err(e.duplicate());
            },
        }
        i = i + 1;
    }
    proof {
        assert(chunks@.skip(i as int) =~= Seq::<Result<String, CompletionError>>::empty());
    }
    Ok(acc)
}

impl Settings {
    /// Constructs the dispatch handle for the configured provider, after the
    /// caller's hook has customized the builder exactly once.
    ///
    /// The handle's tag always matches the provider selector of the settings
    /// that produced it: there is no cross-provider mismatch path.
    pub fn agent<B: Builder>(&self, builder: B) -> (a: SAgent)
        ensures
            a.provider() == self.provider,
            a.agent_core()@ == builder.spec_build(
                (AgentModel { model: self.model@, preamble: None }),
            ),
    {
        let base = AgentBuilder::new(self.model.clone());
        let hooked = builder.build(base);
        let built = hooked.build();
        match self.provider {
            Provider::OpenAI => SAgent::OpenAI(built),
            Provider::Anthropic => SAgent::Anthropic(built),
            Provider::Azure => SAgent::Azure(built),
        }
    }
}

} // verus!


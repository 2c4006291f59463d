use agent_dispatch::dispatch::{
    drain_stream, AgentCore, CompletionError, IdentityBuilder, Message, PreambleBuilder,
    PromptError, Role, SAgent,
};
use agent_dispatch::settings::{Provider, Settings};

fn settings_for(provider: Provider) -> Settings {
    let tag = match provider {
        Provider::OpenAI => "OpenAI",
        Provider::Anthropic => "Anthropic",
        Provider::Azure => "Azure",
    };
    Settings::from_fields(false, tag, "some-model".to_string()).unwrap()
}

/// A test double standing in for the provider-bound implementations: each
/// tag answers with its own fixed reply.
fn double_reply(provider: Provider) -> String {
    match provider {
        Provider::OpenAI => "reply-from-openai".to_string(),
        Provider::Anthropic => "reply-from-anthropic".to_string(),
        Provider::Azure => "reply-from-azure".to_string(),
    }
}

#[test]
fn agent_tag_matches_configuration() {
    for provider in [Provider::OpenAI, Provider::Anthropic, Provider::Azure] {
        let agent = settings_for(provider).agent(IdentityBuilder);
        assert_eq!(agent.provider_tag(), provider);
        match (&agent, provider) {
            (SAgent::OpenAI(_), Provider::OpenAI) => {}
            (SAgent::Anthropic(_), Provider::Anthropic) => {}
            (SAgent::Azure(_), Provider::Azure) => {}
            _ => panic!("dispatch handle variant does not match the configured provider"),
        }
    }
}

#[test]
fn all_four_operations_forward_to_the_matching_provider() {
    for provider in [Provider::OpenAI, Provider::Anthropic, Provider::Azure] {
        let agent = settings_for(provider).agent(IdentityBuilder);
        let history = vec![Message {
            role: Role::User,
            content: "earlier".to_string(),
        }];

        let r = agent.prompt_request("hi".to_string());
        assert_eq!(r.provider, provider);
        let r = agent.chat_request("hi".to_string(), history.clone());
        assert_eq!(r.provider, provider);
        let r = agent.stream_prompt_request("hi");
        assert_eq!(r.provider, provider);
        let r = agent.stream_chat_request("hi", history);
        assert_eq!(r.provider, provider);

        // The correspondingly-tagged double answers, and the dispatch layer
        // hands its reply through unchanged.
        let req = agent.prompt_request("hi".to_string());
        let reply = double_reply(req.provider);
        assert_eq!(agent.prompt_outcome(Ok(reply.clone())), Ok(reply));
    }
}

#[test]
fn requests_carry_the_arguments_unchanged() {
    let agent = settings_for(Provider::Anthropic).agent(PreambleBuilder {
        text: "you are a pirate.".to_string(),
    });
    let history = vec![
        Message {
            role: Role::User,
            content: "ahoy".to_string(),
        },
        Message {
            role: Role::Assistant,
            content: "ahoy yourself".to_string(),
        },
    ];
    let r = agent.chat_request("how is the weather?".to_string(), history.clone());
    assert_eq!(r.provider, Provider::Anthropic);
    assert_eq!(r.model, "some-model");
    assert_eq!(r.preamble, Some("you are a pirate.".to_string()));
    assert_eq!(r.prompt, "how is the weather?");
    assert_eq!(r.history, history);
}

#[test]
fn builder_hook_sets_the_preamble() {
    let agent = settings_for(Provider::OpenAI).agent(PreambleBuilder {
        text: "you are a pirate.".to_string(),
    });
    match agent {
        SAgent::OpenAI(core) => {
            assert_eq!(
                core,
                AgentCore {
                    model: "some-model".to_string(),
                    preamble: Some("you are a pirate.".to_string()),
                }
            );
        }
        other => panic!("expected an OpenAI-tagged handle, got {other:?}"),
    }
}

#[test]
fn streamed_requests_equal_their_non_streamed_counterparts() {
    let agent = settings_for(Provider::Azure).agent(IdentityBuilder);
    let history = vec![Message {
        role: Role::User,
        content: "before".to_string(),
    }];
    assert_eq!(
        agent.stream_prompt_request("hi"),
        agent.prompt_request("hi".to_string())
    );
    assert_eq!(
        agent.stream_chat_request("hi", history.clone()),
        agent.chat_request("hi".to_string(), history)
    );
}

#[test]
fn prompt_equals_chat_with_empty_history() {
    let agent = settings_for(Provider::OpenAI).agent(IdentityBuilder);
    let a = agent.prompt_request("hi".to_string());
    let b = agent.chat_request("hi".to_string(), Vec::new());
    assert_eq!(a, b);

    // With the same underlying provider response, the two operations hand
    // back the same result.
    let reply = Ok("the same answer".to_string());
    assert_eq!(agent.prompt_outcome(reply.clone()), agent.chat_outcome(reply));
}

#[test]
fn prompt_errors_are_forwarded_unchanged() {
    let agent = settings_for(Provider::Azure).agent(IdentityBuilder);
    let err = PromptError {
        message: "rate limited".to_string(),
    };
    assert_eq!(agent.prompt_outcome(Err(err.clone())), Err(err));
}

#[test]
fn draining_a_stream_concatenates_the_fragments() {
    let chunks = vec![
        Ok("po".to_string()),
        Ok("ng".to_string()),
    ];
    assert_eq!(drain_stream(&chunks), Ok("pong".to_string()));
}

#[test]
fn drained_stream_equals_the_non_streamed_prompt() {
    let agent = settings_for(Provider::OpenAI).agent(IdentityBuilder);
    // One underlying provider response, delivered whole and in fragments.
    let full = "it was a dark and stormy night".to_string();
    let chunks: Vec<Result<String, CompletionError>> = vec![
        Ok("it was a dark".to_string()),
        Ok(" and stormy".to_string()),
        Ok(" night".to_string()),
    ];
    let streamed = drain_stream(&chunks).unwrap();
    let prompted = agent.prompt_outcome(Ok(full)).unwrap();
    assert_eq!(streamed, prompted);
}

#[test]
fn stream_failures_are_forwarded_unchanged() {
    let chunks = vec![
        Ok("partial".to_string()),
        Err(CompletionError {
            message: "connection reset".to_string(),
        }),
        Ok("never seen".to_string()),
    ];
    assert_eq!(
        drain_stream(&chunks),
        Err(CompletionError {
            message: "connection reset".to_string(),
        })
    );
}

#[test]
fn empty_stream_drains_to_empty_text() {
    let chunks: Vec<Result<String, CompletionError>> = Vec::new();
    assert_eq!(drain_stream(&chunks), Ok(String::new()));
}

#[test]
fn end_to_end_openai_echo() {
    // The end-to-end scenario: a config for OpenAI with model gpt-4, a
    // stubbed provider client that echoes "pong" for any prompt.
    let text = "debug = false\nmodel = \"gpt-4\"\n\n[provider]\ntype = \"OpenAI\"\n";
    let settings = Settings::from_toml(text).unwrap();
    assert_eq!(settings.debug, false);
    assert_eq!(settings.provider, Provider::OpenAI);
    assert_eq!(settings.model, "gpt-4");

    let agent = settings.agent(IdentityBuilder);
    assert!(matches!(agent, SAgent::OpenAI(_)));

    let req = agent.prompt_request("hi".to_string());
    assert_eq!(req.provider, Provider::OpenAI);
    assert_eq!(req.model, "gpt-4");
    let stub_client = |_prompt: &str| -> Result<String, PromptError> { Ok("pong".to_string()) };
    let reply = stub_client(&req.prompt);
    assert_eq!(agent.prompt_outcome(reply), Ok("pong".to_string()));
}

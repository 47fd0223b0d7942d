use loreweaver::budget::Fraction;
use loreweaver::prompt::{PromptRequest, PromptResponse, Sampling};
use loreweaver::turn::{Generating, Loading, Prompting, Saving, Summarizing};
use loreweaver::models::{Models, Token};
use loreweaver::types::{LoomError, StorageError, WeaveError, WrapperRole};
use loreweaver::{Config, ContextMessage, Loom, Loreweaver, MessageParams, TapestryFragment};

const SYSTEM: &str = "You are a narrator.";

fn start(msg: &str) -> Loading {
    Loreweaver::new(Config::default())
        .weave(
            "story:1".to_string(),
            SYSTEM.to_string(),
            None,
            msg.to_string(),
            Some("ann".to_string()),
        )
        .unwrap()
}

fn reply_of(text: &str) -> Result<PromptResponse, String> {
    Ok(PromptResponse { choices: vec![Some(text.to_string())] })
}

fn stored_message(role: &str, author: &str, content: &str) -> ContextMessage {
    ContextMessage {
        role: role.to_string(),
        account_id: author.to_string(),
        content: content.to_string(),
        timestamp: "2024-01-01T00:00:00+00:00".to_string(),
    }
}

fn system_params(content: &str) -> MessageParams {
    MessageParams { role: WrapperRole::System, content: content.to_string(), name: None }
}

fn user_params(author: &str, content: &str) -> MessageParams {
    MessageParams {
        role: WrapperRole::User,
        content: content.to_string(),
        name: Some(author.to_string()),
    }
}

fn generating(next: Result<Prompting, LoomError>) -> Generating {
    match next {
        Ok(Prompting::Generate(stage)) => stage,
        other => panic!("expected a response request, got {:?}", other),
    }
}

fn summarizing(next: Result<Prompting, LoomError>) -> Summarizing {
    match next {
        Ok(Prompting::Summarize(stage)) => stage,
        other => panic!("expected a summary request, got {:?}", other),
    }
}

fn nearly_full() -> TapestryFragment {
    TapestryFragment {
        context_tokens: 405,
        context_messages: vec![
            stored_message("user", "ann", "Tell me a story."),
            stored_message("assistant", "ann", "Once upon a time."),
        ],
    }
}

#[test]
fn default_config() {
    let config = Config::default();
    assert_eq!(config.model, Models::GPT3);
    assert_eq!(config.summary_percentage.numerator(), 1);
    assert_eq!(config.summary_percentage.denominator(), 10);
    assert_eq!(
        config.sampling,
        Sampling { temperature: 0, presence_penalty: 0, frequency_penalty: 0 }
    );
}

#[test]
fn reservation_is_a_tenth_of_the_window() {
    let weaver = Loreweaver::new(Config::default());
    assert_eq!(weaver.tokens_available(Models::GPT3, None), 409);
    assert_eq!(weaver.tokens_available(Models::GPT4, None), 819);
    assert_eq!(weaver.tokens_available(Models::GPT3, Some(1000)), 100);
    assert_eq!(weaver.tokens_available(Models::GPT3, Some(0)), 0);
}

#[test]
fn reservation_follows_the_configured_share() {
    let config = Config {
        summary_percentage: Fraction::new(1, 4).unwrap(),
        ..Config::default()
    };
    let weaver = Loreweaver::new(config);
    assert_eq!(weaver.tokens_available(Models::GPT3, None), 1024);
    assert_eq!(weaver.tokens_available(Models::GPT4, Some(10)), 2);
}

#[test]
fn window_over_the_models_is_a_bad_config() {
    let weaver = Loreweaver::new(Config::default());
    let started = weaver.weave(
        "story:1".to_string(),
        SYSTEM.to_string(),
        Some(4097),
        "hello".to_string(),
        None,
    );
    match started {
        Err(LoomError::Weave(WeaveError::BadConfig(text))) => assert_eq!(
            text,
            "Custom max tokens cannot be greater than model gpt-3.5-turbo max tokens: 4096"
        ),
        other => panic!("expected a bad config, got {:?}", other),
    }
}

#[test]
fn bad_config_comes_before_anything_else() {
    let config = Config { model: Models::GPT4, ..Config::default() };
    let started = Loreweaver::new(config).weave(
        "story:1".to_string(),
        SYSTEM.to_string(),
        Some(u64::MAX),
        "a ".repeat(250_001),
        None,
    );
    match started {
        Err(LoomError::Weave(WeaveError::BadConfig(text))) => assert_eq!(
            text,
            "Custom max tokens cannot be greater than model gpt-4 max tokens: 8192"
        ),
        other => panic!("expected a bad config, got {:?}", other),
    }
}

#[test]
fn window_of_the_models_size_is_accepted() {
    let weaver = Loreweaver::new(Config::default());
    let started = weaver.weave(
        "story:1".to_string(),
        SYSTEM.to_string(),
        Some(4096),
        "hello".to_string(),
        None,
    );
    let stage = generating(started.unwrap().fetched(Ok(None)));
    assert_eq!(stage.request.max_tokens, 408);
}

#[test]
fn smaller_window_gives_a_smaller_reservation() {
    let weaver = Loreweaver::new(Config::default());
    let started = weaver.weave(
        "story:1".to_string(),
        SYSTEM.to_string(),
        Some(1000),
        "hello".to_string(),
        None,
    );
    let stage = generating(started.unwrap().fetched(Ok(None)));
    assert_eq!(stage.request.max_tokens, 99);
}

#[test]
fn message_too_long_to_count_exhausts_the_budget() {
    let started = Loreweaver::new(Config::default()).weave(
        "story:1".to_string(),
        SYSTEM.to_string(),
        None,
        "a ".repeat(250_001),
        None,
    );
    assert!(matches!(started, Err(LoomError::Weave(WeaveError::BudgetExhausted))));
}

#[test]
fn turn_is_keyed_by_the_identifier() {
    let loading = start("hello");
    assert_eq!(loading.turn.key(), "story:1");
}

#[test]
fn fetch_failure_fails_the_turn() {
    let next = start("hello").fetched(Err(StorageError::Redis("connection refused".to_string())));
    assert!(matches!(
        next,
        Err(LoomError::Storage(StorageError::Redis(reason))) if reason == "connection refused"
    ));
    let next = start("hello").fetched(Err(StorageError::Parsing));
    assert!(matches!(next, Err(LoomError::Storage(StorageError::Parsing))));
}

#[test]
fn first_turn_starts_from_the_empty_fragment() {
    let stage = generating(start("hello").fetched(Ok(None)));
    assert!(!stage.summarized);
    assert_eq!(stage.fragment, TapestryFragment::new());
    assert_eq!(
        stage.request,
        PromptRequest {
            model: Models::GPT3,
            messages: vec![
                system_params(SYSTEM),
                user_params("ann", "hello"),
                system_params("Respond with 306 words or less"),
            ],
            max_tokens: 408,
            sampling: Sampling { temperature: 0, presence_penalty: 0, frequency_penalty: 0 },
        }
    );
}

#[test]
fn first_turn_saves_the_exchange() {
    let stage = generating(start("hello").fetched(Ok(None)));
    let saving = stage.answered(reply_of("hello world")).unwrap();
    assert_eq!(saving.key, "story:1");
    assert!(!saving.is_new_fragment);
    assert_eq!(saving.response, "hello world");
    assert_eq!(saving.fragment.context_tokens, 1 + 2);
    assert_eq!(saving.fragment.context_messages.len(), 2);
    let user = &saving.fragment.context_messages[0];
    assert_eq!(user.role, "user");
    assert_eq!(user.account_id, "ann");
    assert_eq!(user.content, "hello");
    let assistant = &saving.fragment.context_messages[1];
    assert_eq!(assistant.role, "assistant");
    assert_eq!(assistant.account_id, "ann");
    assert_eq!(assistant.content, "hello world");
    assert_eq!(saving.saved(Ok(())), Ok("hello world".to_string()));
}

#[test]
fn new_messages_carry_a_timestamp() {
    let stage = generating(start("hello").fetched(Ok(None)));
    let saving = stage.answered(reply_of("hi")).unwrap();
    for message in &saving.fragment.context_messages {
        assert!(message.timestamp.len() >= 20);
        assert!(message.timestamp.contains('T'));
    }
}

#[test]
fn author_is_empty_where_none_is_given() {
    let loading = Loreweaver::new(Config::default())
        .weave("story:1".to_string(), SYSTEM.to_string(), None, "hello".to_string(), None)
        .unwrap();
    let stage = generating(loading.fetched(Ok(None)));
    assert_eq!(stage.request.messages[1], user_params("", "hello"));
    let saving = stage.answered(reply_of("hi")).unwrap();
    assert_eq!(saving.fragment.context_messages[0].account_id, "");
    assert_eq!(saving.fragment.context_messages[1].account_id, "");
}

#[test]
fn later_turn_continues_the_stored_fragment() {
    let stored = TapestryFragment {
        context_tokens: 9,
        context_messages: vec![
            stored_message("user", "ann", "Tell me a story."),
            stored_message("assistant", "ann", "Once upon a time."),
        ],
    };
    let stage = generating(start("hello").fetched(Ok(Some(stored.clone()))));
    assert!(!stage.summarized);
    assert_eq!(stage.fragment, stored);
    assert_eq!(stage.request.max_tokens, 409 - 9 - 1);
    assert_eq!(stage.request.messages.len(), 5);
    assert_eq!(stage.request.messages[0], system_params(SYSTEM));
    assert_eq!(stage.request.messages[1], user_params("ann", "Tell me a story."));
    assert_eq!(stage.request.messages[3], user_params("ann", "hello"));
    assert_eq!(stage.request.messages[4], system_params("Respond with 299 words or less"));
    let saving = stage.answered(reply_of("hello world")).unwrap();
    assert!(!saving.is_new_fragment);
    assert_eq!(saving.fragment.context_tokens, 9 + 1 + 2);
    assert_eq!(saving.fragment.context_messages.len(), 4);
    assert_eq!(saving.fragment.context_messages[0], stored.context_messages[0]);
    assert_eq!(saving.fragment.context_messages[1], stored.context_messages[1]);
    assert_eq!(saving.fragment.context_messages[2].role, "user");
    assert_eq!(saving.fragment.context_messages[2].content, "hello");
    assert_eq!(saving.fragment.context_messages[3].role, "assistant");
    assert_eq!(saving.fragment.context_messages[3].content, "hello world");
}

#[test]
fn balanced_fragment_stays_balanced_over_turns() {
    let mut stored: Option<TapestryFragment> = None;
    let exchanges = vec![("hello", "hello world"), ("one two three", "four five"), ("", "ok")];
    for (msg, reply) in exchanges {
        let stage = generating(start(msg).fetched(Ok(stored)));
        let saving = stage.answered(reply_of(reply)).unwrap();
        assert_eq!(saving.fragment.recount(), Some(saving.fragment.context_tokens));
        stored = Some(saving.fragment);
    }
    assert_eq!(stored.unwrap().context_messages.len(), 6);
}

#[test]
fn unknown_stored_role_fails_the_turn() {
    let stored = TapestryFragment {
        context_tokens: 3,
        context_messages: vec![
            stored_message("user", "ann", "hi"),
            stored_message("tool", "", "x"),
        ],
    };
    let next = start("hello").fetched(Ok(Some(stored)));
    assert!(matches!(
        next,
        Err(LoomError::Weave(WeaveError::InvalidRole(role))) if role == "tool"
    ));
}

#[test]
fn nearly_full_fragment_asks_for_a_summary() {
    let msg = "one two three four five six";
    assert!(msg.to_string().count_tokens().unwrap() >= 4);
    let stage = summarizing(start(msg).fetched(Ok(Some(nearly_full()))));
    assert_eq!(stage.request.model, Models::GPT3);
    assert_eq!(stage.request.max_tokens, 4);
    assert_eq!(
        stage.request.messages,
        vec![
            system_params(SYSTEM),
            user_params("ann", "Tell me a story."),
            MessageParams {
                role: WrapperRole::Assistant,
                content: "Once upon a time.".to_string(),
                name: Some("ann".to_string()),
            },
            system_params(
                "Generate a summary of the entire adventure so far. Respond with 3 words or less"
            ),
        ]
    );
}

#[test]
fn fragment_over_the_reservation_gets_no_summary_tokens() {
    let stored = TapestryFragment { context_tokens: 5000, context_messages: vec![] };
    let stage = summarizing(start("hello").fetched(Ok(Some(stored))));
    assert_eq!(stage.request.max_tokens, 0);
    assert_eq!(
        stage.request.messages[1],
        system_params(
            "Generate a summary of the entire adventure so far. Respond with 0 words or less"
        )
    );
}

#[test]
fn compaction_starts_exactly_at_the_reservation() {
    let below = TapestryFragment { context_tokens: 407, context_messages: vec![] };
    let stage = generating(start("hello").fetched(Ok(Some(below))));
    assert_eq!(stage.request.max_tokens, 1);
    let at = TapestryFragment { context_tokens: 408, context_messages: vec![] };
    let stage = summarizing(start("hello").fetched(Ok(Some(at))));
    assert_eq!(stage.request.max_tokens, 1);
}

#[test]
fn compacted_turn_saves_a_new_fragment_of_four_messages() {
    let msg = "one two three four five six";
    let msg_tokens = msg.to_string().count_tokens().unwrap();
    let stage = summarizing(start(msg).fetched(Ok(Some(nearly_full()))));
    let stage = stage.summarized(reply_of("hello world")).unwrap();
    assert!(stage.summarized);
    assert_eq!(stage.fragment.context_tokens, 2);
    assert_eq!(stage.fragment.context_messages.len(), 2);
    assert_eq!(stage.request.max_tokens, 409 - 2 - msg_tokens);
    assert_eq!(stage.request.messages.len(), 5);
    assert_eq!(stage.request.messages[0], system_params(SYSTEM));
    assert_eq!(stage.request.messages[1], system_params(SYSTEM));
    assert_eq!(stage.request.messages[2], system_params("hello world"));
    assert_eq!(stage.request.messages[3], user_params("ann", msg));
    let saving = stage.answered(reply_of("hello")).unwrap();
    assert!(saving.is_new_fragment);
    assert_eq!(saving.key, "story:1");
    assert_eq!(saving.fragment.context_tokens, 2 + msg_tokens + 1);
    let messages = &saving.fragment.context_messages;
    assert_eq!(messages.len(), 4);
    assert_eq!((messages[0].role.as_str(), messages[0].content.as_str()), ("system", SYSTEM));
    assert_eq!(messages[0].account_id, "");
    assert_eq!(
        (messages[1].role.as_str(), messages[1].content.as_str()),
        ("system", "hello world")
    );
    assert_eq!(messages[1].account_id, "");
    assert_eq!((messages[2].role.as_str(), messages[2].content.as_str()), ("user", msg));
    assert_eq!(messages[2].account_id, "ann");
    assert_eq!((messages[3].role.as_str(), messages[3].content.as_str()), ("assistant", "hello"));
    assert_eq!(messages[3].account_id, "ann");
    assert_eq!(saving.saved(Ok(())), Ok("hello".to_string()));
}

#[test]
fn summary_that_leaves_nothing_exhausts_the_budget() {
    let config = Config {
        summary_percentage: Fraction::new(1, 1000).unwrap(),
        ..Config::default()
    };
    let loading = Loreweaver::new(config)
        .weave(
            "story:1".to_string(),
            SYSTEM.to_string(),
            None,
            "one two three four five six".to_string(),
            None,
        )
        .unwrap();
    let stage = summarizing(loading.fetched(Ok(None)));
    assert_eq!(stage.request.max_tokens, 4);
    let next = stage.summarized(reply_of("hello"));
    assert!(matches!(next, Err(LoomError::Weave(WeaveError::BudgetExhausted))));
}

#[test]
fn summary_that_leaves_exactly_nothing_exhausts_the_budget() {
    let msg = "hello world";
    let stored = TapestryFragment { context_tokens: 409, context_messages: vec![] };
    let stage = summarizing(start(msg).fetched(Ok(Some(stored))));
    let summary = "hello".to_string() + &" hello".repeat(406);
    assert_eq!(summary.count_tokens(), Some(407));
    let next = stage.summarized(reply_of(&summary));
    assert!(matches!(next, Err(LoomError::Weave(WeaveError::BudgetExhausted))));
}

#[test]
fn summary_that_leaves_one_token_is_enough() {
    let msg = "hello world";
    let stored = TapestryFragment { context_tokens: 409, context_messages: vec![] };
    let stage = summarizing(start(msg).fetched(Ok(Some(stored))));
    let summary = "hello".to_string() + &" hello".repeat(405);
    assert_eq!(summary.count_tokens(), Some(406));
    let stage = stage.summarized(reply_of(&summary)).unwrap();
    assert_eq!(stage.request.max_tokens, 1);
    assert_eq!(stage.request.messages[4], system_params("Respond with 0 words or less"));
}

#[test]
fn summary_too_long_to_count_exhausts_the_budget() {
    let stage = summarizing(start("one two three four five six").fetched(Ok(Some(nearly_full()))));
    let next = stage.summarized(reply_of(&"a ".repeat(250_001)));
    assert!(matches!(next, Err(LoomError::Weave(WeaveError::BudgetExhausted))));
}

#[test]
fn failed_summary_fails_the_turn() {
    let stage = summarizing(start("one two three four five six").fetched(Ok(Some(nearly_full()))));
    let next = stage.summarized(Err("rate limited".to_string()));
    assert!(matches!(
        next,
        Err(LoomError::Weave(WeaveError::CompletionFailed(reason))) if reason == "rate limited"
    ));
}

#[test]
fn summary_without_content_fails_the_turn() {
    let stage = summarizing(start("one two three four five six").fetched(Ok(Some(nearly_full()))));
    let next = stage.summarized(Ok(PromptResponse { choices: vec![None] }));
    assert!(matches!(
        next,
        Err(LoomError::Weave(WeaveError::CompletionFailed(reason)))
            if reason == "Failed to get content from OpenAI response"
    ));
}

#[test]
fn failed_response_fails_the_turn() {
    let stage = generating(start("hello").fetched(Ok(None)));
    let next: Result<Saving, LoomError> = stage.answered(Err("timeout".to_string()));
    assert!(matches!(
        next,
        Err(LoomError::Weave(WeaveError::CompletionFailed(reason))) if reason == "timeout"
    ));
}

#[test]
fn response_without_choices_fails_the_turn() {
    let stage = generating(start("hello").fetched(Ok(None)));
    let next = stage.answered(Ok(PromptResponse { choices: vec![] }));
    assert!(matches!(
        next,
        Err(LoomError::Weave(WeaveError::CompletionFailed(reason)))
            if reason == "Failed to get content from OpenAI response"
    ));
}

#[test]
fn reply_too_long_to_count_exhausts_the_budget() {
    let stage = generating(start("hello").fetched(Ok(None)));
    let next = stage.answered(reply_of(&"a ".repeat(250_001)));
    assert!(matches!(next, Err(LoomError::Weave(WeaveError::BudgetExhausted))));
}

#[test]
fn save_failure_fails_the_turn() {
    let stage = generating(start("hello").fetched(Ok(None)));
    let saving = stage.answered(reply_of("hi")).unwrap();
    let response = saving.saved(Err(StorageError::Redis("read only".to_string())));
    assert_eq!(response, Err(LoomError::Storage(StorageError::Redis("read only".to_string()))));
}

#[test]
fn content_is_that_of_the_first_choice() {
    let response = PromptResponse {
        choices: vec![Some("first".to_string()), Some("second".to_string())],
    };
    assert_eq!(Loreweaver::get_content(&response), Ok("first".to_string()));
    let response = PromptResponse { choices: vec![None, Some("second".to_string())] };
    assert_eq!(
        Loreweaver::get_content(&response),
        Err(LoomError::Weave(WeaveError::CompletionFailed(
            "Failed to get content from OpenAI response".to_string()
        )))
    );
}

#[test]
fn prompt_carries_the_configuration() {
    let config = Config {
        model: Models::GPT4,
        summary_percentage: Fraction::tenth(),
        sampling: Sampling { temperature: 800, presence_penalty: -500, frequency_penalty: 250 },
    };
    let weaver = Loreweaver::new(config);
    let messages = vec![system_params("a"), user_params("ann", "b")];
    let request = weaver.prompt(messages.clone(), 77);
    assert_eq!(
        request,
        PromptRequest {
            model: Models::GPT4,
            messages,
            max_tokens: 77,
            sampling: Sampling { temperature: 800, presence_penalty: -500, frequency_penalty: 250 },
        }
    );
}

#[test]
fn requests_carry_the_configuration() {
    let config = Config {
        model: Models::GPT4,
        summary_percentage: Fraction::tenth(),
        sampling: Sampling { temperature: 800, presence_penalty: -500, frequency_penalty: 250 },
    };
    let loading = Loreweaver::new(config)
        .weave("k".to_string(), SYSTEM.to_string(), None, "hello".to_string(), None)
        .unwrap();
    let stage = generating(loading.fetched(Ok(None)));
    assert_eq!(stage.request.model, Models::GPT4);
    assert_eq!(stage.request.max_tokens, 818);
    assert_eq!(stage.request.sampling, config.sampling);
}

use chat_stream::aggregator::ReplyAggregator;
use chat_stream::record::GenerationResponse;
use chat_stream::session::Session;

fn two_model_session() -> Session {
    Session::new(vec!["qwen3:30B".to_string(), "qwen2.5:14B".to_string()])
}

fn fragment_record(response: &str, done: bool) -> GenerationResponse {
    GenerationResponse {
        model: "m".to_string(),
        created_at: "t".to_string(),
        response: response.to_string(),
        done,
        total_duration: None,
        load_duration: None,
        prompt_eval_count: None,
        prompt_eval_duration: None,
        eval_count: None,
        eval_duration: None,
        thinking: None,
    }
}

#[test]
fn a_new_session_selects_the_first_model() {
    let session = two_model_session();
    assert_eq!(session.selected_model, "qwen3:30B");
    assert_eq!(session.model_list.len(), 2);
    assert!(session.messages.is_empty());
    assert!(session.pending_input.is_empty());
}

#[test]
fn blank_input_is_not_submitted() {
    let mut session = two_model_session();
    assert!(session.submit().is_none());
    session.set_input("   \t ".to_string());
    assert!(session.submit().is_none());
    assert!(session.messages.is_empty());
}

#[test]
fn submit_appends_the_user_message_untrimmed() {
    let mut session = two_model_session();
    session.set_input(" hello there ".to_string());
    let prompt = session.submit().expect("a non-blank input is accepted");
    assert_eq!(prompt, " hello there ");
    assert!(session.pending_input.is_empty());
    assert_eq!(session.messages.len(), 1);
    assert_eq!(session.messages[0].sender, "You");
    assert_eq!(session.messages[0].text, " hello there ");
}

#[test]
fn select_model_needs_a_known_name() {
    let mut session = two_model_session();
    assert!(session.select_model(&"qwen2.5:14B".to_string()));
    assert_eq!(session.selected_model, "qwen2.5:14B");
    assert!(!session.select_model(&"no-such-model".to_string()));
    assert_eq!(session.selected_model, "qwen2.5:14B");
}

#[test]
fn add_model_keeps_the_list_unique() {
    let mut session = two_model_session();
    assert!(session.add_model("fresh".to_string()));
    assert_eq!(session.model_list.len(), 3);
    assert_eq!(session.selected_model, "fresh");
    // The same name again does not enter the list twice.
    assert!(!session.add_model("qwen3:30B".to_string()));
    assert_eq!(session.model_list.len(), 3);
    assert_eq!(session.selected_model, "qwen3:30B");
}

#[test]
fn add_generated_model_registers_and_selects_it() {
    let mut session = two_model_session();
    let name = session.add_generated_model();
    assert!(name.starts_with("next-model-"));
    assert_eq!(name.chars().count(), 47);
    assert_eq!(session.selected_model, name);
    assert_eq!(session.model_list.len(), 3);
    // Appended at the end; the existing entries are untouched.
    assert_eq!(session.model_list[0], "qwen3:30B");
    assert_eq!(session.model_list[1], "qwen2.5:14B");
    assert_eq!(session.model_list[2], name);
}

#[test]
fn two_fragments_grow_one_reply_entry() {
    let mut session = two_model_session();
    let mut aggregator = ReplyAggregator::new();
    aggregator.fold_record(&mut session, &fragment_record("Hello", false));
    assert_eq!(session.messages.len(), 1);
    assert_eq!(session.messages[0].sender, "AI");
    assert_eq!(session.messages[0].text, "Hello");
    aggregator.fold_record(&mut session, &fragment_record(" world", true));
    // Still exactly one entry, mutated in place: never two AI messages.
    assert_eq!(session.messages.len(), 1);
    assert_eq!(session.messages[0].sender, "AI");
    assert_eq!(session.messages[0].text, "Hello world");
}

#[test]
fn fragments_are_joined_with_no_separator() {
    let mut session = two_model_session();
    let mut aggregator = ReplyAggregator::new();
    let saw_final = aggregator.fold_all(
        &mut session,
        &vec![
            fragment_record("to", false),
            fragment_record("ken", false),
            fragment_record("s", true),
        ],
    );
    assert!(saw_final);
    assert_eq!(session.messages.len(), 1);
    assert_eq!(session.messages[0].text, "tokens");
}

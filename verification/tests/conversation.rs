use rustybot::BotError;
use rustybot::Conversation;
use rustybot::Role;
use rustybot::orchestrator::run_scripted;

fn some(s: &str) -> Option<String> {
    Some(s.to_string())
}

#[test]
fn end_to_end_two_turns() {
    let prompts = vec!["Hi".to_string(), "Bye".to_string()];
    let responses = vec![vec![some("Hello")], vec![some("Farewell")]];
    let conv = run_scripted("You are terse.".to_string(), prompts, &responses)
        .expect("every call succeeds");
    let hist = &conv.history;
    assert_eq!(hist.len(), 5);
    assert_eq!(hist[0].role, Role::System);
    assert_eq!(hist[0].content, "You are terse.");
    assert_eq!(hist[1].role, Role::User);
    assert_eq!(hist[1].content, "Hi");
    assert_eq!(hist[2].role, Role::Assistant);
    assert_eq!(hist[2].content, "Hello");
    assert_eq!(hist[3].role, Role::User);
    assert_eq!(hist[3].content, "Bye");
    assert_eq!(hist[4].role, Role::Assistant);
    assert_eq!(hist[4].content, "Farewell");
}

#[test]
fn zero_prompts_leaves_only_system_message() {
    let conv = run_scripted("sys".to_string(), Vec::new(), &Vec::new()).expect("no calls made");
    assert_eq!(conv.history.len(), 1);
    assert_eq!(conv.history[0].role, Role::System);
    assert_eq!(conv.history[0].content, "sys");
    assert_eq!(conv.completed, 0);
    assert!(!conv.pending);
}

#[test]
fn history_follows_role_pattern_for_three_turns() {
    let prompts = vec!["a".to_string(), "b".to_string(), "c".to_string()];
    let responses = vec![vec![some("ra")], vec![some("rb")], vec![some("rc")]];
    let conv = run_scripted("s".to_string(), prompts, &responses).expect("all succeed");
    assert_eq!(conv.history.len(), 7);
    for (i, m) in conv.history.iter().enumerate() {
        let expected = if i == 0 {
            Role::System
        } else if i % 2 == 1 {
            Role::User
        } else {
            Role::Assistant
        };
        assert_eq!(m.role, expected);
    }
}

#[test]
fn request_holds_all_prior_turns_plus_new_prompt() {
    let mut conv = Conversation::new(
        "s".to_string(),
        vec!["one".to_string(), "two".to_string()],
    );

    let req1 = conv.start_turn().expect("first prompt remains");
    assert_eq!(req1.messages().len(), 2);
    assert_eq!(req1.messages()[0].role, Role::System);
    assert_eq!(req1.messages()[1].role, Role::User);
    assert_eq!(req1.messages()[1].content, "one");
    conv.finish_turn(&vec![some("first reply")]).expect("usable reply");

    let req2 = conv.start_turn().expect("second prompt remains");
    assert_eq!(req2.messages().len(), 4);
    assert_eq!(req2.messages()[2].role, Role::Assistant);
    assert_eq!(req2.messages()[2].content, "first reply");
    assert_eq!(req2.messages()[3].role, Role::User);
    assert_eq!(req2.messages()[3].content, "two");
    conv.finish_turn(&vec![some("second reply")]).expect("usable reply");

    assert!(conv.start_turn().is_none());
    assert_eq!(conv.history.len(), 5);
}

#[test]
fn first_choice_taken_verbatim() {
    let mut conv = Conversation::new("s".to_string(), vec!["q".to_string()]);
    conv.start_turn().expect("one prompt");
    let before = conv.history.len();
    let reply = conv
        .finish_turn(&vec![some("X"), None, some("")])
        .expect("first choice is usable");
    assert_eq!(reply, "X");
    assert_eq!(conv.history.len(), before + 1);
    assert_eq!(conv.history.last().unwrap().role, Role::Assistant);
    assert_eq!(conv.history.last().unwrap().content, "X");
}

#[test]
fn empty_choices_skipped_for_first_usable() {
    let mut conv = Conversation::new("s".to_string(), vec!["q".to_string()]);
    conv.start_turn().expect("one prompt");
    let reply = conv
        .finish_turn(&vec![None, some(""), some("Y"), some("Z")])
        .expect("a later choice is usable");
    assert_eq!(reply, "Y");
}

#[test]
fn zero_choices_yield_empty_response_error() {
    let mut conv = Conversation::new("s".to_string(), vec!["q".to_string()]);
    conv.start_turn().expect("one prompt");
    let before = conv.history.len();
    let err = conv.finish_turn(&Vec::new()).expect_err("no choice at all");
    assert_eq!(err, BotError::EmptyResponseError);
    assert_eq!(conv.history.len(), before);
    assert_eq!(conv.history.last().unwrap().role, Role::User);
}

#[test]
fn all_unusable_choices_yield_empty_response_error() {
    let mut conv = Conversation::new("s".to_string(), vec!["q".to_string()]);
    conv.start_turn().expect("one prompt");
    let err = conv
        .finish_turn(&vec![None, some(""), None])
        .expect_err("nothing usable");
    assert_eq!(err, BotError::EmptyResponseError);
    assert_eq!(conv.history.len(), 2);
}

#[test]
fn failed_second_call_leaves_prior_turns_and_its_prompt() {
    let mut conv = Conversation::new(
        "s".to_string(),
        vec!["one".to_string(), "two".to_string()],
    );
    conv.start_turn().expect("first prompt");
    conv.finish_turn(&vec![some("ok")]).expect("usable reply");
    conv.start_turn().expect("second prompt");
    let err = conv.finish_turn(&Vec::new()).expect_err("second call fails");
    assert_eq!(err, BotError::EmptyResponseError);
    // All of the completed first turn, plus the second user message and no
    // assistant reply for it.
    assert_eq!(conv.history.len(), 4);
    assert_eq!(conv.history[3].role, Role::User);
    assert_eq!(conv.history[3].content, "two");
    assert_eq!(conv.completed, 1);
    assert!(conv.pending);
}

#[test]
fn scripted_run_stops_at_first_unusable_response() {
    let prompts = vec!["a".to_string(), "b".to_string()];
    let responses = vec![vec![some("ra")], Vec::new()];
    let err = run_scripted("s".to_string(), prompts, &responses).expect_err("second turn fails");
    assert_eq!(err, BotError::EmptyResponseError);
}

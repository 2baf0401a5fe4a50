use scoop::error::TurnError;
use scoop::message::{Message, Role};
use scoop::reply::assemble;
use scoop::request::{RequestConfig, MAX_TOKENS};
use scoop::session::{
    help_banner, interpret, read_command, Action, Command, Phase, Session, CLEAR_SCREEN,
    HELP_TITLE, REPLY_PROMPT, USER_PROMPT,
};
use scoop::skin::get_skin;

fn history(session: &Session) -> Vec<(Role, String)> {
    session
        .conversation()
        .messages()
        .iter()
        .map(|message| (message.role, message.content.clone()))
        .collect()
}

fn sent(action: Action) -> Vec<(Role, String)> {
    match action {
        Action::Send(request) => {
            request.messages.iter().map(|message| (message.role, message.content.clone())).collect()
        }
        other => panic!("expected a request, got {other:?}"),
    }
}

fn user(text: &str) -> (Role, String) {
    (Role::User, text.to_string())
}

fn assistant(text: &str) -> (Role, String) {
    (Role::Assistant, text.to_string())
}

#[test]
fn command_words_are_recognised() {
    assert!(matches!(interpret("q"), Command::Quit));
    assert!(matches!(interpret("cls"), Command::ClearScreen));
    assert!(matches!(interpret("h"), Command::Help));
    assert!(matches!(interpret(""), Command::Help));
    assert!(matches!(interpret("n"), Command::NewConversation));
}

#[test]
fn anything_else_is_a_message() {
    for text in ["hello", "Q", "quit", "q q", "cls ", "help", "nn", "N", "?", "\u{1f43c}"] {
        match interpret(text) {
            Command::Chat(message) => assert_eq!(message, text),
            other => panic!("{text}: {other:?}"),
        }
    }
}

#[test]
fn lines_are_trimmed_before_they_are_read() {
    assert!(matches!(read_command("q\n"), Command::Quit));
    assert!(matches!(read_command("  cls\r\n"), Command::ClearScreen));
    assert!(matches!(read_command("\n"), Command::Help));
    assert!(matches!(read_command("   \t "), Command::Help));
    assert!(matches!(read_command(" h "), Command::Help));
    assert!(matches!(read_command("\tn\n"), Command::NewConversation));
    match read_command("  hello  world \n") {
        Command::Chat(message) => assert_eq!(message, "hello  world"),
        other => panic!("{other:?}"),
    }
}

#[test]
fn session_starts_idle_and_empty() {
    let session = Session::new(RequestConfig::default());
    assert_eq!(session.phase(), Phase::Idle);
    assert!(session.conversation().is_empty());
    assert_eq!(session.endpoint(), "https://spark-api-open.xf-yun.com/v1/chat/completions");
}

#[test]
fn quit_ends_the_session() {
    let mut session = Session::new(RequestConfig::default());
    assert!(matches!(session.handle_line("q\n"), Action::Exit));
    assert_eq!(session.phase(), Phase::Finished);
    assert!(session.conversation().is_empty());
}

#[test]
fn clear_screen_and_help_leave_the_conversation_alone() {
    let mut session = Session::new(RequestConfig::default());
    session.handle_line("hello\n");
    session.finish_turn(Ok("Hi".to_string()));
    let before = history(&session);
    assert!(matches!(session.handle_line("cls\n"), Action::ClearScreen));
    assert_eq!(session.phase(), Phase::Idle);
    assert_eq!(history(&session), before);
    assert!(matches!(session.handle_line("h\n"), Action::ShowHelp));
    assert_eq!(session.phase(), Phase::Idle);
    assert_eq!(history(&session), before);
    assert!(matches!(session.handle_line("\n"), Action::ShowHelp));
    assert_eq!(session.phase(), Phase::Idle);
    assert_eq!(history(&session), before);
}

#[test]
fn message_after_reset_is_sent_alone() {
    let mut session = Session::new(RequestConfig::default());
    session.handle_line("first\n");
    session.finish_turn(Ok("one".to_string()));
    session.handle_line("second\n");
    session.finish_turn(Ok("two".to_string()));
    assert_eq!(session.conversation().len(), 4);
    assert!(matches!(session.handle_line("n\n"), Action::Prompt));
    assert_eq!(session.phase(), Phase::Idle);
    assert!(session.conversation().is_empty());
    assert_eq!(sent(session.handle_line("third\n")), vec![user("third")]);
    session.finish_turn(Ok("three".to_string()));
    assert_eq!(
        sent(session.handle_line("fourth\n")),
        vec![user("third"), assistant("three"), user("fourth")]
    );
}

#[test]
fn request_carries_the_whole_history_and_the_fixed_settings() {
    let mut session = Session::new(RequestConfig::default());
    session.handle_line("a\n");
    session.finish_turn(Ok("b".to_string()));
    match session.handle_line(" c \n") {
        Action::Send(request) => {
            assert_eq!(request.model, "generalv3.5");
            assert_eq!(request.max_tokens, 4096);
            assert_eq!(request.max_tokens, MAX_TOKENS);
            assert!(request.stream);
            assert_eq!(request.messages.len(), 3);
            assert_eq!(request.messages[2].content, "c");
            assert_eq!(request.messages[2].role, Role::User);
        }
        other => panic!("{other:?}"),
    }
    assert_eq!(session.phase(), Phase::Requesting);
}

#[test]
fn request_asks_the_configured_model() {
    let config = RequestConfig { model: "other".to_string(), endpoint: "http://localhost/".to_string() };
    let mut session = Session::new(config);
    assert_eq!(session.endpoint(), "http://localhost/");
    match session.handle_line("hi") {
        Action::Send(request) => assert_eq!(request.model, "other"),
        other => panic!("{other:?}"),
    }
}

#[test]
fn hello_is_answered_from_the_stream() {
    let mut session = Session::new(RequestConfig::default());
    assert_eq!(sent(session.handle_line("hello\n")), vec![user("hello")]);
    assert_eq!(history(&session), vec![user("hello")]);
    let stream: Vec<Vec<u8>> = vec![
        b"data: {\"choices\":[{\"delta\":{\"content\":\"Hi\"}}]}\n".to_vec(),
        b"data: {\"choices\":[{\"delta\":{\"content\":\" there\"}}]}\n".to_vec(),
        b"data: [DONE]\n".to_vec(),
    ];
    let reply = assemble(&stream);
    assert_eq!(reply, "Hi there");
    assert_eq!(session.finish_turn(Ok(reply)), None);
    assert_eq!(history(&session), vec![user("hello"), assistant("Hi there")]);
    assert_eq!(session.phase(), Phase::Idle);
}

#[test]
fn failed_turn_leaves_the_question_unanswered() {
    let mut session = Session::new(RequestConfig::default());
    session.handle_line("hello\n");
    assert_eq!(session.finish_turn(Err(TurnError::Transport)), Some(TurnError::Transport));
    assert_eq!(history(&session), vec![user("hello")]);
    assert_eq!(session.phase(), Phase::Idle);
    assert_eq!(sent(session.handle_line("again\n")), vec![user("hello"), user("again")]);
    assert_eq!(session.finish_turn(Err(TurnError::RequestBuild)), Some(TurnError::RequestBuild));
    assert_eq!(history(&session), vec![user("hello"), user("again")]);
    assert_eq!(session.phase(), Phase::Idle);
}

#[test]
fn empty_reply_is_still_a_reply() {
    let mut session = Session::new(RequestConfig::default());
    session.handle_line("hello\n");
    assert_eq!(session.finish_turn(Ok(String::new())), None);
    assert_eq!(history(&session), vec![user("hello"), assistant("")]);
}

#[test]
fn messages_are_built_with_their_roles() {
    let question = Message::user("a".to_string());
    let answer = Message::assistant("b".to_string());
    assert_eq!(question.role, Role::User);
    assert_eq!(question.content, "a");
    assert_eq!(answer.role, Role::Assistant);
    assert_eq!(answer.content, "b");
    assert_eq!(Role::User.as_str(), "user");
    assert_eq!(Role::Assistant.as_str(), "assistant");
    let copy = answer.clone();
    assert_eq!(copy.role, Role::Assistant);
    assert_eq!(copy.content, "b");
}

#[test]
fn console_texts_are_fixed() {
    assert_eq!(USER_PROMPT, "\u{1f43c}: ");
    assert_eq!(REPLY_PROMPT, "\u{1f916}: ");
    assert_eq!(CLEAR_SCREEN, "\u{1b}[2J\u{1b}[1;1H");
    assert_eq!(HELP_TITLE, "\t **sparkdesk**");
}

#[test]
fn help_banner_has_a_title_and_four_lines() {
    let lines = help_banner(&get_skin());
    assert_eq!(lines.len(), 5);
    assert!(lines[0].contains("sparkdesk"));
    assert!(!lines[0].contains("**"));
    assert_eq!(lines[1], "\t tips:");
    assert_eq!(lines[2], "\t \u{25cf} q    quit prompt");
    assert_eq!(lines[3], "\t \u{25cf} cls  clear host");
    assert_eq!(lines[4], "\t \u{25cf} n    new conversation");
}

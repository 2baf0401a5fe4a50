//! The session loop as a state machine: what a line of input means, and how
//! each line and each finished turn move the session on.
//!
//! The library decides; its caller reads the lines, carries out the actions
//! and reports how each request ended.

use vstd::prelude::*;
use crate::conversation::Conversation;
use crate::error::TurnError;
use crate::message::{Message, MessageView, Role};
use crate::request::{build_request, request_for, OutboundRequest, RequestConfig, RequestView};
use crate::skin::Skin;
use crate::text::{text_equals, trim, trimmed};

verus! {

/// The prompt that asks the user for a line.
pub const USER_PROMPT: &'static str = "🐼: ";

/// The prompt that stands before a streamed reply.
pub const REPLY_PROMPT: &'static str = "🤖: ";

/// The control sequence that clears the terminal and homes the cursor.
pub const CLEAR_SCREEN: &'static str = "\x1b[2J\x1b[1;1H";

/// The title of the help banner, in markdown.
pub const HELP_TITLE: &'static str = "\t **sparkdesk**";

/// What a line of input asks for.
#[derive(Debug)]
pub enum Command {
    /// `q`: leave the session.
    Quit,
    /// `cls`: clear the terminal.
    ClearScreen,
    /// `h`, or nothing at all: show the help banner.
    Help,
    /// `n`: start a new conversation.
    NewConversation,
    /// Anything else: a message for the model.
    Chat(String),
}

/// A [`Command`] as a mathematical value.
pub enum CommandView {
    Quit,
    ClearScreen,
    Help,
    NewConversation,
    Chat(Seq<char>),
}

impl View for Command {
    type V = CommandView;

    open spec fn view(&self) -> CommandView {
        match self {
            Command::Quit => CommandView::Quit,
            Command::ClearScreen => CommandView::ClearScreen,
            Command::Help => CommandView::Help,
            Command::NewConversation => CommandView::NewConversation,
            Command::Chat(text) => CommandView::Chat(text@),
        }
    }
}

/// What an input stands for once the white space around it is off.
pub open spec fn command_of(input: Seq<char>) -> CommandView {
    if input == "q"@ {
        CommandView::Quit
    } else if input == "cls"@ {
        CommandView::ClearScreen
    } else if input.len() == 0 || input == "h"@ {
        CommandView::Help
    } else if input == "n"@ {
        CommandView::NewConversation
    } else {
        CommandView::Chat(input)
    }
}

/// What a line of input stands for.
pub open spec fn command_in(line: Seq<char>) -> CommandView {
    command_of(trimmed(line))
}

/// Tells what an input stands for once the white space around it is off.
pub fn interpret(input: &str) -> (command: Command)
    ensures
        command@ == command_of(input@),
{
    if text_equals(input, "q") {
        Command::Quit
    } else if text_equals(input, "cls") {
        Command::ClearScreen
    } else if input.is_empty() || text_equals(input, "h") {
        Command::Help
    } else if text_equals(input, "n") {
        Command::NewConversation
    } else {
        Command::Chat(String::from_str(input))
    }
}

/// Tells what a line of input stands for.
pub fn read_command(line: &str) -> (command: Command)
    ensures
        command@ == command_in(line@),
{
    interpret(trim(line))
}

/// Where a session stands between two steps. Interpreting a line and
/// showing the banner happen within one step, and have no phase of their
/// own.
#[derive(Clone, Copy, Debug, PartialEq, Eq, Structural)]
pub enum Phase {
    /// Waiting for a line of input.
    Idle,
    /// Waiting for the end of a request.
    Requesting,
    /// Left by the user; nothing follows.
    Finished,
}

/// What the caller is to do after a line of input.
#[derive(Debug)]
pub enum Action {
    /// Leave the loop.
    Exit,
    /// Write [`CLEAR_SCREEN`], then ask for the next line.
    ClearScreen,
    /// Show the help banner, then ask for the next line.
    ShowHelp,
    /// Ask for the next line.
    Prompt,
    /// Send the request, stream the reply, and report how it ended.
    Send(OutboundRequest),
}

/// An [`Action`] as a mathematical value.
pub enum ActionView {
    Exit,
    ClearScreen,
    ShowHelp,
    Prompt,
    Send(RequestView),
}

impl View for Action {
    type V = ActionView;

    open spec fn view(&self) -> ActionView {
        match self {
            Action::Exit => ActionView::Exit,
            Action::ClearScreen => ActionView::ClearScreen,
            Action::ShowHelp => ActionView::ShowHelp,
            Action::Prompt => ActionView::Prompt,
            Action::Send(request) => ActionView::Send(request@),
        }
    }
}

/// A session as a mathematical value.
pub struct SessionView {
    /// The model that every request of the session asks.
    pub model: Seq<char>,
    /// The completions URL that every request of the session goes to.
    pub endpoint: Seq<char>,
    /// The conversation so far.
    pub history: Seq<MessageView>,
    pub phase: Phase,
}

/// A session at its start: idle, with nothing said.
pub open spec fn started(model: Seq<char>, endpoint: Seq<char>) -> SessionView {
    SessionView { model, endpoint, history: Seq::empty(), phase: Phase::Idle }
}

/// The session after a line of input.
pub open spec fn after_line(session: SessionView, line: Seq<char>) -> SessionView {
    match command_in(line) {
        CommandView::Quit => SessionView { phase: Phase::Finished, ..session },
        CommandView::ClearScreen => session,
        CommandView::Help => session,
        CommandView::NewConversation => SessionView { history: Seq::empty(), ..session },
        CommandView::Chat(text) => SessionView {
            history: session.history.push(MessageView { role: Role::User, content: text }),
            phase: Phase::Requesting,
            ..session
        },
    }
}

/// What the caller is to do after a line of input.
pub open spec fn action_for(session: SessionView, line: Seq<char>) -> ActionView {
    match command_in(line) {
        CommandView::Quit => ActionView::Exit,
        CommandView::ClearScreen => ActionView::ClearScreen,
        CommandView::Help => ActionView::ShowHelp,
        CommandView::NewConversation => ActionView::Prompt,
        CommandView::Chat(_) => ActionView::Send(
            request_for(session.model, after_line(session, line).history),
        ),
    }
}

/// The session after a request has ended: with the reply, where there is
/// one, as the model's message behind the user's; without a reply, with the
/// history as it was.
pub open spec fn after_turn(session: SessionView, reply: Option<Seq<char>>) -> SessionView {
    match reply {
        Some(text) => SessionView {
            history: session.history.push(MessageView { role: Role::Assistant, content: text }),
            phase: Phase::Idle,
            ..session
        },
        None => SessionView { phase: Phase::Idle, ..session },
    }
}

/// One session: its conversation, and where it stands.
pub struct Session {
    config: RequestConfig,
    conversation: Conversation,
    phase: Phase,
}

impl View for Session {
    type V = SessionView;

    closed spec fn view(&self) -> SessionView {
        SessionView {
            model: self.config.model@,
            endpoint: self.config.endpoint@,
            history: self.conversation@,
            phase: self.phase,
        }
    }
}

impl Session {
    /// Starts a session: idle, with an empty conversation.
    pub fn new(config: RequestConfig) -> (session: Session)
        ensures
            session@ == started(config.model@, config.endpoint@),
    {
        Session { config, conversation: Conversation::new(), phase: Phase::Idle }
    }

    /// Returns where the session stands.
    pub fn phase(&self) -> (phase: Phase)
        ensures
            phase == self@.phase,
    {
        self.phase
    }

    /// Returns the conversation so far.
    pub fn conversation(&self) -> (conversation: &Conversation)
        ensures
            conversation@ == self@.history,
    {
        &self.conversation
    }

    /// Returns the completions URL of the session.
    pub fn endpoint(&self) -> (endpoint: &str)
        ensures
            endpoint@ == self@.endpoint,
    {
        self.config.endpoint.as_str()
    }

    /// Takes a line of input while idle, and tells the caller what to do.
    pub fn handle_line(&mut self, line: &str) -> (action: Action)
        requires
            old(self)@.phase == Phase::Idle,
        ensures
            final(self)@ == after_line(old(self)@, line@),
            action@ == action_for(old(self)@, line@),
    {
        match read_command(line) {
            Command::Quit => {
                self.phase = Phase::Finished;
                Action::Exit
            },
            Command::ClearScreen => Action::ClearScreen,
            Command::Help => Action::ShowHelp,
            Command::NewConversation => {
                self.conversation.clear();
                Action::Prompt
            },
            Command::Chat(text) => {
                self.conversation.append(Message::user(text));
                self.phase = Phase::Requesting;
                Action::Send(build_request(&self.config, &self.conversation))
            },
        }
    }

    /// Takes the end of a request: the assembled reply, or the failure that
    /// cut the turn short. A failure is handed back for the caller to
    /// report; either way the session is idle again.
    pub fn finish_turn(&mut self, outcome: Result<String, TurnError>) -> (failure: Option<
        TurnError,
    >)
        requires
            old(self)@.phase == Phase::Requesting,
        ensures
            match outcome {
                Ok(reply) => final(self)@ == after_turn(old(self)@, Some(reply@)) && failure
                    is None,
                Err(error) => final(self)@ == after_turn(old(self)@, None) && failure == Some(
                    error,
                ),
            },
    {
        self.phase = Phase::Idle;
        match outcome {
            Ok(reply) => {
                self.conversation.append(Message::assistant(reply));
                None
            },
            Err(error) => Some(error),
        }
    }
}

/// The lines of the help banner, the title styled by the skin.
pub fn help_banner(skin: &Skin) -> (lines: Vec<String>)
    ensures
        lines.len() == 5,
        lines@[1]@ == "\t tips:"@,
        lines@[2]@ == "\t ● q    quit prompt"@,
        lines@[3]@ == "\t ● cls  clear host"@,
        lines@[4]@ == "\t ● n    new conversation"@,
{
    let mut lines: Vec<String> = Vec::new();
    lines.push(skin.inline(HELP_TITLE));
    lines.push(String::from_str("\t tips:"));
    lines.push(String::from_str("\t ● q    quit prompt"));
    lines.push(String::from_str("\t ● cls  clear host"));
    lines.push(String::from_str("\t ● n    new conversation"));
    lines
}

/// The command words are four different words, none of them empty.
pub proof fn lemma_command_words_differ()
    ensures
        "q"@.len() == 1,
        "cls"@.len() == 3,
        "h"@.len() == 1,
        "n"@.len() == 1,
        "q"@ != "h"@,
        "q"@ != "n"@,
        "h"@ != "n"@,
{
    reveal_strlit("q");
    reveal_strlit("cls");
    reveal_strlit("h");
    reveal_strlit("n");
    assert("q"@[0] == 'q');
    assert("h"@[0] == 'h');
    assert("n"@[0] == 'n');
}

/// `q` ends the session: the caller leaves the loop, the session is
/// finished, and the conversation is as it was.
pub proof fn lemma_quit_ends_the_session(session: SessionView, line: Seq<char>)
    requires
        trimmed(line) == "q"@,
    ensures
        action_for(session, line) == ActionView::Exit,
        after_line(session, line).phase == Phase::Finished,
        after_line(session, line).history == session.history,
{
}

/// `cls` clears the terminal and leaves the session as it was.
pub proof fn lemma_clear_screen_keeps_the_session(session: SessionView, line: Seq<char>)
    requires
        trimmed(line) == "cls"@,
    ensures
        action_for(session, line) == ActionView::ClearScreen,
        after_line(session, line) == session,
{
    lemma_command_words_differ();
}

/// `h` and the empty line show the banner and leave the session as it was.
pub proof fn lemma_help_keeps_the_session(session: SessionView, line: Seq<char>)
    requires
        trimmed(line) == "h"@ || trimmed(line).len() == 0,
    ensures
        action_for(session, line) == ActionView::ShowHelp,
        after_line(session, line) == session,
{
    lemma_command_words_differ();
}

/// `n` puts an idle session back where a session starts.
pub proof fn lemma_reset_is_a_fresh_start(session: SessionView, reset: Seq<char>)
    requires
        session.phase == Phase::Idle,
        trimmed(reset) == "n"@,
    ensures
        action_for(session, reset) == ActionView::Prompt,
        after_line(session, reset) == started(session.model, session.endpoint),
{
    lemma_command_words_differ();
}

/// The request of the first message behind `n` holds that message and
/// nothing from before.
pub proof fn lemma_reset_forgets(session: SessionView, reset: Seq<char>, line: Seq<char>)
    requires
        trimmed(reset) == "n"@,
        command_in(line) is Chat,
    ensures
        action_for(after_line(session, reset), line) == ActionView::Send(
            request_for(
                session.model,
                seq![MessageView { role: Role::User, content: trimmed(line) }],
            ),
        ),
{
    lemma_command_words_differ();
    let fresh = after_line(session, reset);
    assert(fresh.history.push(MessageView { role: Role::User, content: trimmed(line) })
        =~= seq![MessageView { role: Role::User, content: trimmed(line) }]);
}

/// No request goes out without a message: the last one of every request is
/// the user's line, and the history before the line stands in front of it.
pub proof fn lemma_request_ends_with_the_question(session: SessionView, line: Seq<char>)
    requires
        command_in(line) is Chat,
    ensures
        action_for(session, line) is Send,
        action_for(session, line)->Send_0.messages == session.history.push(
            MessageView { role: Role::User, content: trimmed(line) },
        ),
        action_for(session, line)->Send_0.messages.len() > 0,
{
}

/// A turn that fails leaves the user's message as the last of the history,
/// with no reply behind it, and the session idle.
pub proof fn lemma_failed_turn_keeps_the_question(session: SessionView, line: Seq<char>)
    requires
        command_in(line) is Chat,
    ensures
        after_turn(after_line(session, line), None).history == session.history.push(
            MessageView { role: Role::User, content: trimmed(line) },
        ),
        after_turn(after_line(session, line), None).phase == Phase::Idle,
{
}

/// A turn that succeeds puts the user's message and the reply, in this
/// order, behind the history.
pub proof fn lemma_turn_adds_question_and_reply(
    session: SessionView,
    line: Seq<char>,
    reply: Seq<char>,
)
    requires
        command_in(line) is Chat,
    ensures
        after_turn(after_line(session, line), Some(reply)).history == session.history
            + seq![
            MessageView { role: Role::User, content: trimmed(line) },
            MessageView { role: Role::Assistant, content: reply },
        ],
        after_turn(after_line(session, line), Some(reply)).phase == Phase::Idle,
{
    let question = MessageView { role: Role::User, content: trimmed(line) };
    let answer = MessageView { role: Role::Assistant, content: reply };
    assert(session.history.push(question).push(answer) =~= session.history
        + seq![question, answer]);
}

} // verus!

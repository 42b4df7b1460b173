//! The state of the client's form and terminal, and how user messages change it.
//!
//! Connecting and running a command need the network, so a message that asks
//! for either only prepares the work and hands it out as an `Effect`. Whoever
//! carries it out reports the end with `connect_finished` or
//! `command_finished`.

use vstd::prelude::*;
use vstd::string::*;
use crate::command::{
    CommandRun,
    CommandRunView,
    CommandStepView,
    law_output_returned_verbatim,
    result_view,
};
use crate::error::{SshError, SshErrorView};
use crate::protocol::ReplyView;
use crate::session::{
    AttemptView,
    ConnectAttempt,
    SessionView,
    SshSession,
    join_address,
    outcome_view,
    socket_address,
};

verus! {

/// The window title.
pub open spec fn title_text() -> Seq<char> {
    "Client SSH Rust"@
}

/// The port that the form starts with.
pub open spec fn default_port_text() -> Seq<char> {
    "22"@
}

/// The status before anything has been tried.
pub open spec fn ready_text() -> Seq<char> {
    "Prêt à se connecter"@
}

/// The status while a session is being established.
pub open spec fn connecting_text() -> Seq<char> {
    "Tentative de connexion..."@
}

/// The status once a session is established.
pub open spec fn connected_text() -> Seq<char> {
    "Connexion réussie!"@
}

/// The status after a disconnect.
pub open spec fn disconnected_text() -> Seq<char> {
    "Déconnecté"@
}

/// The terminal line written at a disconnect.
pub open spec fn disconnected_line() -> Seq<char> {
    "Déconnecté du serveur"@
}

/// The terminal line written when a session to `host:port` is established.
pub open spec fn connected_line(host: Seq<char>, port: Seq<char>) -> Seq<char> {
    "Connecté à "@ + socket_address(host, port)
}

/// The heading of the terminal of a session to `host:port`.
pub open spec fn terminal_heading_text(host: Seq<char>, port: Seq<char>) -> Seq<char> {
    "Terminal SSH - Connecté à "@ + socket_address(host, port)
}

/// The terminal line that echoes a submitted command.
pub open spec fn prompt_line(command: Seq<char>) -> Seq<char> {
    "$ "@ + command
}

/// The text that an error is shown as.
pub open spec fn error_line(message: Seq<char>) -> Seq<char> {
    "Erreur: "@ + message
}

/// The lines of a terminal, each as a sequence of characters.
pub open spec fn lines_view(lines: Seq<String>) -> Seq<Seq<char>> {
    lines.map_values(|line: String| line@)
}

/// The two screens of the client.
#[derive(Clone, Copy, Debug, PartialEq, Eq, Structural)]
pub enum Screen {
    /// The connection form with the status line.
    Form,
    /// The terminal with its log, the command line and the way out.
    Terminal,
}

/// What the user did.
#[derive(Debug, Clone, PartialEq, Eq)]
pub enum Message {
    HostChanged(String),
    PortChanged(String),
    UsernameChanged(String),
    PasswordChanged(String),
    UseKeyToggled(bool),
    KeyPathChanged(String),
    Connect,
    Disconnect,
    TerminalInputChanged(String),
    ExecuteCommand,
}

/// What a `Message` stands for, with its strings as sequences of characters.
pub enum MessageView {
    HostChanged(Seq<char>),
    PortChanged(Seq<char>),
    UsernameChanged(Seq<char>),
    PasswordChanged(Seq<char>),
    UseKeyToggled(bool),
    KeyPathChanged(Seq<char>),
    Connect,
    Disconnect,
    TerminalInputChanged(Seq<char>),
    ExecuteCommand,
}

impl View for Message {
    type V = MessageView;

    open spec fn view(&self) -> MessageView {
        match *self {
            Message::HostChanged(value) => MessageView::HostChanged(value@),
            Message::PortChanged(value) => MessageView::PortChanged(value@),
            Message::UsernameChanged(value) => MessageView::UsernameChanged(value@),
            Message::PasswordChanged(value) => MessageView::PasswordChanged(value@),
            Message::UseKeyToggled(value) => MessageView::UseKeyToggled(value),
            Message::KeyPathChanged(value) => MessageView::KeyPathChanged(value@),
            Message::Connect => MessageView::Connect,
            Message::Disconnect => MessageView::Disconnect,
            Message::TerminalInputChanged(value) => MessageView::TerminalInputChanged(value@),
            Message::ExecuteCommand => MessageView::ExecuteCommand,
        }
    }
}

/// Work that a message has prepared and that needs the network.
#[derive(Debug, PartialEq, Eq)]
pub enum Effect {
    /// Nothing is to be done.
    Idle,
    /// A session is to be established by driving this attempt to its end.
    Connect(ConnectAttempt),
    /// A command is to be run by driving this run to its end.
    Execute(CommandRun),
    /// The live connection is to be dropped.
    Disconnect,
}

/// What an `Effect` stands for.
pub enum EffectView {
    Idle,
    Connect(AttemptView),
    Execute(CommandRunView),
    Disconnect,
}

impl View for Effect {
    type V = EffectView;

    open spec fn view(&self) -> EffectView {
        match *self {
            Effect::Idle => EffectView::Idle,
            Effect::Connect(attempt) => EffectView::Connect(attempt@),
            Effect::Execute(run) => EffectView::Execute(run@),
            Effect::Disconnect => EffectView::Disconnect,
        }
    }
}

/// What an `SshConnection` stands for.
pub struct ConnectionView {
    pub host: Seq<char>,
    pub port: Seq<char>,
    pub username: Seq<char>,
    pub password: Seq<char>,
    pub use_key: bool,
    pub key_path: Seq<char>,
    pub status: Seq<char>,
    pub connected: bool,
    pub terminal_input: Seq<char>,
    pub terminal_output: Seq<Seq<char>>,
    pub ssh_session: Option<SessionView>,
}

impl ConnectionView {
    /// Whether the state is one that the client can be in: it shows itself as
    /// connected only while it holds a session.
    pub open spec fn well_formed(self) -> bool {
        self.connected ==> self.ssh_session is Some
    }

    /// The state that the client starts in: an empty form for port 22, no
    /// session, an empty terminal.
    pub open spec fn initial() -> ConnectionView {
        ConnectionView {
            host: Seq::empty(),
            port: default_port_text(),
            username: Seq::empty(),
            password: Seq::empty(),
            use_key: false,
            key_path: Seq::empty(),
            status: ready_text(),
            connected: false,
            terminal_input: Seq::empty(),
            terminal_output: Seq::empty(),
            ssh_session: None,
        }
    }

    /// The screen to show: the terminal while the client shows itself as
    /// connected, the form otherwise.
    pub open spec fn screen(self) -> Screen {
        if self.connected {
            Screen::Terminal
        } else {
            Screen::Form
        }
    }

    /// The attempt that a connect message prepares from the form.
    pub open spec fn attempt(self) -> AttemptView {
        AttemptView::start(
            self.host,
            self.port,
            self.username,
            self.password,
            self.use_key,
            self.key_path,
        )
    }

    /// The state after `message`, and the work that the message has prepared.
    ///
    /// An edit replaces the one field it names. A connect message sets the
    /// status and hands out an attempt on the form's parameters. A disconnect
    /// lets go of the session and says so in the status and in the terminal. A
    /// submitted command is echoed to the terminal and handed out as a run if
    /// there is a session; without one the message changes nothing.
    pub open spec fn update(self, message: MessageView) -> (ConnectionView, EffectView) {
        match message {
            MessageView::HostChanged(value) => (
                ConnectionView { host: value, ..self },
                EffectView::Idle,
            ),
            MessageView::PortChanged(value) => (
                ConnectionView { port: value, ..self },
                EffectView::Idle,
            ),
            MessageView::UsernameChanged(value) => (
                ConnectionView { username: value, ..self },
                EffectView::Idle,
            ),
            MessageView::PasswordChanged(value) => (
                ConnectionView { password: value, ..self },
                EffectView::Idle,
            ),
            MessageView::UseKeyToggled(value) => (
                ConnectionView { use_key: value, ..self },
                EffectView::Idle,
            ),
            MessageView::KeyPathChanged(value) => (
                ConnectionView { key_path: value, ..self },
                EffectView::Idle,
            ),
            MessageView::TerminalInputChanged(value) => (
                ConnectionView { terminal_input: value, ..self },
                EffectView::Idle,
            ),
            MessageView::Connect => (
                ConnectionView { status: connecting_text(), ..self },
                EffectView::Connect(self.attempt()),
            ),
            MessageView::Disconnect => (
                ConnectionView {
                    connected: false,
                    ssh_session: None,
                    status: disconnected_text(),
                    terminal_output: self.terminal_output.push(disconnected_line()),
                    ..self
                },
                EffectView::Disconnect,
            ),
            MessageView::ExecuteCommand => if self.ssh_session is Some {
                (
                    ConnectionView {
                        terminal_output: self.terminal_output.push(
                            prompt_line(self.terminal_input),
                        ),
                        ..self
                    },
                    EffectView::Execute(CommandRunView::start(self.terminal_input)),
                )
            } else {
                (self, EffectView::Idle)
            },
        }
    }

    /// The state after an attempt has ended.
    ///
    /// A session is kept, shown as connected, and announced in the status and
    /// in the terminal. An error is shown in the status and the client is
    /// shown as not connected; a session that was held before stays.
    pub open spec fn connect_finished(
        self,
        outcome: Result<SessionView, SshErrorView>,
    ) -> ConnectionView {
        match outcome {
            Ok(session) => ConnectionView {
                status: connected_text(),
                connected: true,
                ssh_session: Some(session),
                terminal_output: self.terminal_output.push(connected_line(self.host, self.port)),
                ..self
            },
            Err(error) => ConnectionView {
                status: error_line(error.message),
                connected: false,
                ..self
            },
        }
    }

    /// The state after a run has ended.
    ///
    /// The output, or the error as text, becomes a new terminal line, and the
    /// input line is cleared. The session and the connected flag stay as they
    /// are: a failed command does not disconnect.
    pub open spec fn command_finished(
        self,
        result: Result<Seq<char>, SshErrorView>,
    ) -> ConnectionView {
        let line = match result {
            Ok(output) => output,
            Err(error) => error_line(error.message),
        };
        ConnectionView {
            terminal_output: self.terminal_output.push(line),
            terminal_input: Seq::empty(),
            ..self
        }
    }
}

/// The state of the connection form and of the terminal, with the session
/// while there is one.
pub struct SshConnection {
    host: String,
    port: String,
    username: String,
    password: String,
    use_key: bool,
    key_path: String,
    status: String,
    connected: bool,
    terminal_input: String,
    terminal_output: Vec<String>,
    ssh_session: Option<SshSession>,
}

impl View for SshConnection {
    type V = ConnectionView;

    closed spec fn view(&self) -> ConnectionView {
        ConnectionView {
            host: self.host@,
            port: self.port@,
            username: self.username@,
            password: self.password@,
            use_key: self.use_key,
            key_path: self.key_path@,
            status: self.status@,
            connected: self.connected,
            terminal_input: self.terminal_input@,
            terminal_output: lines_view(self.terminal_output@),
            ssh_session: match self.ssh_session {
                Some(session) => Some(session@),
                None => None,
            },
        }
    }
}

/// Appending a line to a terminal appends its characters to the terminal's view.
proof fn lemma_lines_push(lines: Seq<String>, line: String)
    ensures
        lines_view(lines.push(line)) == lines_view(lines).push(line@),
{
    assert(lines_view(lines.push(line)) =~= lines_view(lines).push(line@));
}

impl SshConnection {
    /// The state that the client starts in.
    pub fn new() -> (state: SshConnection)
        ensures
            state@ == ConnectionView::initial(),
            state@.well_formed(),
    {
        let state = SshConnection {
            host: String::new(),
            port: "22".to_owned(),
            username: String::new(),
            password: String::new(),
            use_key: false,
            key_path: String::new(),
            status: "Prêt à se connecter".to_owned(),
            connected: false,
            terminal_input: String::new(),
            terminal_output: Vec::new(),
            ssh_session: None,
        };
        assert(lines_view(state.terminal_output@) =~= Seq::<Seq<char>>::empty());
        state
    }

    /// The window title.
    pub fn title(&self) -> (title: String)
        ensures
            title@ == title_text(),
    {
        "Client SSH Rust".to_owned()
    }

    /// Takes a message from the user, changes the state accordingly, and
    /// returns the work that the message has prepared.
    pub fn update(&mut self, message: Message) -> (effect: Effect)
        ensures
            final(self)@ == old(self)@.update(message@).0,
            effect@ == old(self)@.update(message@).1,
            old(self)@.well_formed() ==> final(self)@.well_formed(),
    {
        match message {
            Message::HostChanged(value) => {
                self.host = value;
                Effect::Idle
            },
            Message::PortChanged(value) => {
                self.port = value;
                Effect::Idle
            },
            Message::UsernameChanged(value) => {
                self.username = value;
                Effect::Idle
            },
            Message::PasswordChanged(value) => {
                self.password = value;
                Effect::Idle
            },
            Message::UseKeyToggled(value) => {
                self.use_key = value;
                Effect::Idle
            },
            Message::KeyPathChanged(value) => {
                self.key_path = value;
                Effect::Idle
            },
            Message::TerminalInputChanged(value) => {
                self.terminal_input = value;
                Effect::Idle
            },
            Message::Connect => {
                self.status = "Tentative de connexion...".to_owned();
                Effect::Connect(
                    SshSession::new(
                        self.host.as_str(),
                        self.port.as_str(),
                        self.username.as_str(),
                        self.password.as_str(),
                        self.use_key,
                        self.key_path.as_str(),
                    ),
                )
            },
            Message::Disconnect => {
                let line = "Déconnecté du serveur".to_owned();
                proof {
                    lemma_lines_push(self.terminal_output@, line);
                }
                self.connected = false;
                self.ssh_session = None;
                self.status = "Déconnecté".to_owned();
                self.terminal_output.push(line);
                Effect::Disconnect
            },
            Message::ExecuteCommand => {
                match &self.ssh_session {
                    Some(session) => {
                        let run = session.execute_command(self.terminal_input.as_str());
                        let line = "$ ".to_owned().concat(self.terminal_input.as_str());
                        proof {
                            lemma_lines_push(self.terminal_output@, line);
                        }
                        self.terminal_output.push(line);
                        Effect::Execute(run)
                    },
                    None => Effect::Idle,
                }
            },
        }
    }

    /// Takes the end of an attempt that a connect message had prepared.
    pub fn connect_finished(&mut self, outcome: Result<SshSession, SshError>)
        ensures
            final(self)@ == old(self)@.connect_finished(outcome_view(outcome)),
            old(self)@.well_formed() ==> final(self)@.well_formed(),
    {
        match outcome {
            Ok(session) => {
                let address = join_address(self.host.as_str(), self.port.as_str());
                let line = "Connecté à ".to_owned().concat(address.as_str());
                proof {
                    lemma_lines_push(self.terminal_output@, line);
                }
                self.status = "Connexion réussie!".to_owned();
                self.connected = true;
                self.ssh_session = Some(session);
                self.terminal_output.push(line);
            },
            Err(error) => {
                self.status = "Erreur: ".to_owned().concat(error.message.as_str());
                self.connected = false;
            },
        }
    }

    /// Takes the end of a run that a submitted command had prepared.
    pub fn command_finished(&mut self, result: Result<String, SshError>)
        ensures
            final(self)@ == old(self)@.command_finished(result_view(result)),
            old(self)@.well_formed() ==> final(self)@.well_formed(),
    {
        let line = match result {
            Ok(output) => output,
            Err(error) => "Erreur: ".to_owned().concat(error.message.as_str()),
        };
        proof {
            lemma_lines_push(self.terminal_output@, line);
        }
        self.terminal_output.push(line);
        self.terminal_input = String::new();
    }

    /// The screen to show.
    pub fn screen(&self) -> (screen: Screen)
        ensures
            screen == self@.screen(),
    {
        if self.connected {
            Screen::Terminal
        } else {
            Screen::Form
        }
    }

    /// The heading of the terminal screen, which names the host and port of
    /// the form.
    pub fn terminal_heading(&self) -> (heading: String)
        ensures
            heading@ == terminal_heading_text(self@.host, self@.port),
    {
        let address = join_address(self.host.as_str(), self.port.as_str());
        "Terminal SSH - Connecté à ".to_owned().concat(address.as_str())
    }

    /// The host in the form.
    pub fn host(&self) -> (host: &str)
        ensures
            host@ == self@.host,
    {
        self.host.as_str()
    }

    /// The port in the form.
    pub fn port(&self) -> (port: &str)
        ensures
            port@ == self@.port,
    {
        self.port.as_str()
    }

    /// The user name in the form.
    pub fn username(&self) -> (username: &str)
        ensures
            username@ == self@.username,
    {
        self.username.as_str()
    }

    /// The password in the form.
    pub fn password(&self) -> (password: &str)
        ensures
            password@ == self@.password,
    {
        self.password.as_str()
    }

    /// Whether the form asks for authentication by key file.
    pub fn use_key(&self) -> (use_key: bool)
        ensures
            use_key == self@.use_key,
    {
        self.use_key
    }

    /// The path of the key file in the form.
    pub fn key_path(&self) -> (key_path: &str)
        ensures
            key_path@ == self@.key_path,
    {
        self.key_path.as_str()
    }

    /// The status line.
    pub fn status(&self) -> (status: &str)
        ensures
            status@ == self@.status,
    {
        self.status.as_str()
    }

    /// Whether the client shows itself as connected.
    pub fn connected(&self) -> (connected: bool)
        ensures
            connected == self@.connected,
    {
        self.connected
    }

    /// The command line being typed.
    pub fn terminal_input(&self) -> (input: &str)
        ensures
            input@ == self@.terminal_input,
    {
        self.terminal_input.as_str()
    }

    /// The lines of the terminal, oldest first.
    pub fn terminal_output(&self) -> (lines: &Vec<String>)
        ensures
            lines_view(lines@) == self@.terminal_output,
    {
        &self.terminal_output
    }

    /// The session, while there is one.
    pub fn session(&self) -> (session: Option<&SshSession>)
        ensures
            session is Some <==> self@.ssh_session is Some,
            session matches Some(held) ==> self@.ssh_session == Some(held@),
    {
        self.ssh_session.as_ref()
    }
}

/// The client starts in a state it can be in, and every message and every
/// reported end of an attempt or a run leaves it in one.
pub proof fn law_connected_only_with_session(
    state: ConnectionView,
    message: MessageView,
    outcome: Result<SessionView, SshErrorView>,
    result: Result<Seq<char>, SshErrorView>,
)
    ensures
        ConnectionView::initial().well_formed(),
        state.well_formed() ==> state.update(message).0.well_formed(),
        state.well_formed() ==> state.connect_finished(outcome).well_formed(),
        state.well_formed() ==> state.command_finished(result).well_formed(),
{
}

/// Only a disconnect lets go of the session, and no message but a disconnect
/// changes whether the client shows itself as connected. In particular the
/// end of a run, failed or not, does neither.
pub proof fn law_session_kept_until_disconnect(
    state: ConnectionView,
    message: MessageView,
    result: Result<Seq<char>, SshErrorView>,
)
    ensures
        message !is Disconnect ==> state.update(message).0.ssh_session == state.ssh_session,
        message !is Disconnect ==> state.update(message).0.connected == state.connected,
        state.command_finished(result).ssh_session == state.ssh_session,
        state.command_finished(result).connected == state.connected,
{
}

/// Two commands in a row are independent. After a run has failed, the next
/// submitted command is handed out as a fresh run of that command, and this
/// run yields its output when the peer serves it.
pub proof fn law_failed_command_does_not_affect_next(
    state: ConnectionView,
    error: SshErrorView,
    command: Seq<char>,
    output: Seq<char>,
)
    requires
        state.ssh_session is Some,
    ensures
        ({
            let failed = state.command_finished(Err(error));
            let typed = failed.update(MessageView::TerminalInputChanged(command)).0;
            let next = typed.update(MessageView::ExecuteCommand).1;
            &&& next == EffectView::Execute(CommandRunView::start(command))
            &&& CommandRunView::start(command).run(
                seq![ReplyView::Done, ReplyView::Done, ReplyView::Output(output), ReplyView::Done],
            ) == CommandStepView::Finished(Ok(output))
        }),
{
    law_output_returned_verbatim(command, output);
}

/// Without a session no command is handed out: a submitted command changes
/// nothing then. This is so at the start and after every disconnect.
pub proof fn law_no_command_without_session(state: ConnectionView)
    ensures
        state.ssh_session is None ==> state.update(MessageView::ExecuteCommand) == (
            state,
            EffectView::Idle,
        ),
        ConnectionView::initial().update(MessageView::ExecuteCommand).1 == EffectView::Idle,
        state.update(MessageView::Disconnect).0.update(MessageView::ExecuteCommand).1
            == EffectView::Idle,
{
}

/// The terminal is a log: no message and no reported end removes or changes
/// a line that is there; each adds at most one line at the end.
pub proof fn law_terminal_only_grows(
    state: ConnectionView,
    message: MessageView,
    outcome: Result<SessionView, SshErrorView>,
    result: Result<Seq<char>, SshErrorView>,
)
    ensures
        state.terminal_output.is_prefix_of(state.update(message).0.terminal_output),
        state.update(message).0.terminal_output.len() <= state.terminal_output.len() + 1,
        state.terminal_output.is_prefix_of(state.connect_finished(outcome).terminal_output),
        state.connect_finished(outcome).terminal_output.len() <= state.terminal_output.len() + 1,
        state.command_finished(result).terminal_output == state.terminal_output.push(
            match result {
                Ok(output) => output,
                Err(error) => error_line(error.message),
            },
        ),
{
}

} // verus!

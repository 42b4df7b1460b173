use ssh_client::client::{Effect, Message, Screen, SshConnection};
use ssh_client::command::{CommandRun, CommandStep};
use ssh_client::error::{ErrorKind, SshError};
use ssh_client::protocol::{Reply, Request};
use ssh_client::session::{ConnectAttempt, ConnectStep, SshSession};

fn establish(attempt: ConnectAttempt) -> Result<SshSession, SshError> {
    let mut attempt = attempt;
    for _ in 0..3 {
        attempt = match attempt.advance(Reply::Done) {
            ConnectStep::Continue(next) => next,
            ConnectStep::Finished(outcome) => return outcome,
        };
    }
    match attempt.advance(Reply::Authenticated(true)) {
        ConnectStep::Finished(outcome) => outcome,
        ConnectStep::Continue(attempt) => panic!("the attempt is not over: {:?}", attempt),
    }
}

fn serve(run: CommandRun, output: &str) -> Result<String, SshError> {
    let mut run = run;
    for reply in [Reply::Done, Reply::Done, Reply::Output(String::from(output))] {
        run = match run.advance(reply) {
            CommandStep::Continue(next) => next,
            CommandStep::Finished(result) => return result,
        };
    }
    match run.advance(Reply::Done) {
        CommandStep::Finished(result) => result,
        CommandStep::Continue(run) => panic!("the run is not over: {:?}", run),
    }
}

fn filled_form() -> SshConnection {
    let mut state = SshConnection::new();
    assert_eq!(state.update(Message::HostChanged(String::from("localhost"))), Effect::Idle);
    assert_eq!(state.update(Message::UsernameChanged(String::from("testuser"))), Effect::Idle);
    assert_eq!(state.update(Message::PasswordChanged(String::from("correct"))), Effect::Idle);
    state
}

fn connected() -> SshConnection {
    let mut state = filled_form();
    match state.update(Message::Connect) {
        Effect::Connect(attempt) => state.connect_finished(establish(attempt)),
        other => panic!("no attempt: {:?}", other),
    }
    state
}

fn lines(state: &SshConnection) -> Vec<&str> {
    state.terminal_output().iter().map(|line| line.as_str()).collect()
}

#[test]
fn client_starts_with_an_empty_form_for_port_22() {
    let state = SshConnection::new();
    assert_eq!(state.host(), "");
    assert_eq!(state.port(), "22");
    assert_eq!(state.username(), "");
    assert_eq!(state.password(), "");
    assert!(!state.use_key());
    assert_eq!(state.key_path(), "");
    assert_eq!(state.status(), "Prêt à se connecter");
    assert!(!state.connected());
    assert_eq!(state.terminal_input(), "");
    assert!(state.terminal_output().is_empty());
    assert!(state.session().is_none());
}

#[test]
fn title_is_fixed() {
    assert_eq!(SshConnection::new().title(), "Client SSH Rust");
    assert_eq!(connected().title(), "Client SSH Rust");
}

#[test]
fn edit_changes_the_field_it_names() {
    let mut state = SshConnection::new();
    assert_eq!(state.update(Message::HostChanged(String::from("example.org"))), Effect::Idle);
    assert_eq!(state.update(Message::PortChanged(String::from("2222"))), Effect::Idle);
    assert_eq!(state.update(Message::UsernameChanged(String::from("ops"))), Effect::Idle);
    assert_eq!(state.update(Message::PasswordChanged(String::from("secret"))), Effect::Idle);
    assert_eq!(state.update(Message::UseKeyToggled(true)), Effect::Idle);
    assert_eq!(state.update(Message::KeyPathChanged(String::from("/key"))), Effect::Idle);
    assert_eq!(state.update(Message::TerminalInputChanged(String::from("ls -l"))), Effect::Idle);
    assert_eq!(state.host(), "example.org");
    assert_eq!(state.port(), "2222");
    assert_eq!(state.username(), "ops");
    assert_eq!(state.password(), "secret");
    assert!(state.use_key());
    assert_eq!(state.key_path(), "/key");
    assert_eq!(state.terminal_input(), "ls -l");
    assert_eq!(state.status(), "Prêt à se connecter");
    assert!(!state.connected());
    assert!(state.terminal_output().is_empty());
    assert_eq!(state.update(Message::UseKeyToggled(false)), Effect::Idle);
    assert!(!state.use_key());
    assert_eq!(state.key_path(), "/key");
}

#[test]
fn connect_hands_out_an_attempt_on_the_form() {
    let mut state = filled_form();
    let effect = state.update(Message::Connect);
    assert_eq!(
        effect,
        Effect::Connect(SshSession::new("localhost", "22", "testuser", "correct", false, ""))
    );
    assert_eq!(state.status(), "Tentative de connexion...");
    assert!(!state.connected());
    assert!(state.session().is_none());
    assert!(state.terminal_output().is_empty());
}

#[test]
fn connect_with_key_hands_out_the_key_path() {
    let mut state = filled_form();
    state.update(Message::UseKeyToggled(true));
    state.update(Message::KeyPathChanged(String::from("/home/u/.ssh/id_rsa")));
    let attempt = match state.update(Message::Connect) {
        Effect::Connect(attempt) => attempt,
        other => panic!("no attempt: {:?}", other),
    };
    assert_eq!(
        attempt,
        SshSession::new("localhost", "22", "testuser", "correct", true, "/home/u/.ssh/id_rsa")
    );
}

#[test]
fn established_session_is_kept_and_announced() {
    let state = connected();
    assert_eq!(state.status(), "Connexion réussie!");
    assert!(state.connected());
    assert_eq!(lines(&state), vec!["Connecté à localhost:22"]);
    let session = state.session().expect("a session");
    assert_eq!(session.address(), "localhost:22");
    assert_eq!(session.username(), "testuser");
}

#[test]
fn failed_attempt_is_shown_in_the_status() {
    let mut state = filled_form();
    state.update(Message::Connect);
    state.connect_finished(Err(SshError::new(
        ErrorKind::Authentication,
        String::from("Erreur d'authentification"),
    )));
    assert_eq!(state.status(), "Erreur: Erreur d'authentification");
    assert!(!state.connected());
    assert!(state.session().is_none());
    assert!(state.terminal_output().is_empty());
}

#[test]
fn unverified_session_is_shown_with_the_fixed_text() {
    let mut state = filled_form();
    state.update(Message::Connect);
    state.connect_finished(Err(SshError::not_authenticated()));
    assert_eq!(state.status(), "Erreur: Authentification échouée");
    assert!(!state.connected());
}

#[test]
fn failed_attempt_keeps_a_session_that_was_held() {
    let mut state = connected();
    state.update(Message::Connect);
    state.connect_finished(Err(SshError::new(ErrorKind::Transport, String::from("refused"))));
    assert_eq!(state.status(), "Erreur: refused");
    assert!(!state.connected());
    assert!(state.session().is_some());
    assert_eq!(lines(&state), vec!["Connecté à localhost:22"]);
}

#[test]
fn disconnect_lets_go_of_the_session() {
    let mut state = connected();
    assert_eq!(state.update(Message::Disconnect), Effect::Disconnect);
    assert!(!state.connected());
    assert!(state.session().is_none());
    assert_eq!(state.status(), "Déconnecté");
    assert_eq!(lines(&state), vec!["Connecté à localhost:22", "Déconnecté du serveur"]);
    assert_eq!(state.host(), "localhost");
}

#[test]
fn disconnect_without_a_session_still_says_so() {
    let mut state = SshConnection::new();
    assert_eq!(state.update(Message::Disconnect), Effect::Disconnect);
    assert_eq!(state.status(), "Déconnecté");
    assert_eq!(lines(&state), vec!["Déconnecté du serveur"]);
}

#[test]
fn command_without_a_session_changes_nothing() {
    let mut state = filled_form();
    state.update(Message::TerminalInputChanged(String::from("ls")));
    assert_eq!(state.update(Message::ExecuteCommand), Effect::Idle);
    assert_eq!(state.terminal_input(), "ls");
    assert!(state.terminal_output().is_empty());
    assert_eq!(state.status(), "Prêt à se connecter");
}

#[test]
fn no_command_is_handed_out_after_disconnect() {
    let mut state = connected();
    state.update(Message::Disconnect);
    state.update(Message::TerminalInputChanged(String::from("ls")));
    assert_eq!(state.update(Message::ExecuteCommand), Effect::Idle);
    assert_eq!(lines(&state), vec!["Connecté à localhost:22", "Déconnecté du serveur"]);
}

#[test]
fn connect_and_disconnect_repeat() {
    let mut state = filled_form();
    for round in 1..=3 {
        match state.update(Message::Connect) {
            Effect::Connect(attempt) => state.connect_finished(establish(attempt)),
            other => panic!("no attempt: {:?}", other),
        }
        assert!(state.connected());
        assert!(state.session().is_some());
        assert_eq!(state.update(Message::Disconnect), Effect::Disconnect);
        assert!(!state.connected());
        assert!(state.session().is_none());
        assert_eq!(state.terminal_output().len(), 2 * round);
    }
}

#[test]
fn submitted_command_is_echoed_and_handed_out() {
    let mut state = connected();
    state.update(Message::TerminalInputChanged(String::from("whoami")));
    let run = match state.update(Message::ExecuteCommand) {
        Effect::Execute(run) => run,
        other => panic!("no run: {:?}", other),
    };
    assert_eq!(run.request(), Request::OpenChannel);
    assert_eq!(run, state.session().expect("a session").execute_command("whoami"));
    assert_eq!(lines(&state), vec!["Connecté à localhost:22", "$ whoami"]);
    assert_eq!(state.terminal_input(), "whoami");
}

#[test]
fn whoami_on_localhost_shows_the_user() {
    let mut state = connected();
    state.update(Message::TerminalInputChanged(String::from("whoami")));
    let run = match state.update(Message::ExecuteCommand) {
        Effect::Execute(run) => run,
        other => panic!("no run: {:?}", other),
    };
    let result = serve(run, "testuser\n");
    assert_eq!(result, Ok(String::from("testuser\n")));
    state.command_finished(result);
    assert_eq!(lines(&state), vec!["Connecté à localhost:22", "$ whoami", "testuser\n"]);
    assert_eq!(state.terminal_input(), "");
    assert!(state.connected());
}

#[test]
fn silent_command_adds_an_empty_line() {
    let mut state = connected();
    state.update(Message::TerminalInputChanged(String::from("true")));
    let run = match state.update(Message::ExecuteCommand) {
        Effect::Execute(run) => run,
        other => panic!("no run: {:?}", other),
    };
    state.command_finished(serve(run, ""));
    assert_eq!(lines(&state), vec!["Connecté à localhost:22", "$ true", ""]);
}

#[test]
fn failed_command_is_shown_and_does_not_disconnect() {
    let mut state = connected();
    state.update(Message::TerminalInputChanged(String::from("ls")));
    state.update(Message::ExecuteCommand);
    state.command_finished(Err(SshError::new(ErrorKind::ChannelOpen, String::from("channel refused"))));
    assert_eq!(lines(&state), vec!["Connecté à localhost:22", "$ ls", "Erreur: channel refused"]);
    assert_eq!(state.terminal_input(), "");
    assert!(state.connected());
    assert!(state.session().is_some());
    assert_eq!(state.status(), "Connexion réussie!");

    state.update(Message::TerminalInputChanged(String::from("echo hello")));
    let run = match state.update(Message::ExecuteCommand) {
        Effect::Execute(run) => run,
        other => panic!("no run: {:?}", other),
    };
    let result = serve(run, "hello\n");
    assert_eq!(result, Ok(String::from("hello\n")));
    state.command_finished(result);
    assert_eq!(
        lines(&state),
        vec![
            "Connecté à localhost:22",
            "$ ls",
            "Erreur: channel refused",
            "$ echo hello",
            "hello\n"
        ]
    );
}

#[test]
fn empty_command_is_echoed_as_a_bare_prompt() {
    let mut state = connected();
    let run = match state.update(Message::ExecuteCommand) {
        Effect::Execute(run) => run,
        other => panic!("no run: {:?}", other),
    };
    assert_eq!(run, state.session().expect("a session").execute_command(""));
    assert_eq!(lines(&state), vec!["Connecté à localhost:22", "$ "]);
}

#[test]
fn announcement_names_host_and_port_of_the_form() {
    let mut state = SshConnection::new();
    state.update(Message::HostChanged(String::from("example.org")));
    state.update(Message::PortChanged(String::from("2222")));
    state.update(Message::UsernameChanged(String::from("ops")));
    match state.update(Message::Connect) {
        Effect::Connect(attempt) => state.connect_finished(establish(attempt)),
        other => panic!("no attempt: {:?}", other),
    }
    assert_eq!(lines(&state), vec!["Connecté à example.org:2222"]);
}

#[test]
fn form_is_shown_until_connected_and_after_disconnect() {
    let mut state = filled_form();
    assert_eq!(state.screen(), Screen::Form);
    state.update(Message::Connect);
    assert_eq!(state.screen(), Screen::Form);
    let mut state = connected();
    assert_eq!(state.screen(), Screen::Terminal);
    state.update(Message::TerminalInputChanged(String::from("ls")));
    state.update(Message::ExecuteCommand);
    state.command_finished(Err(SshError::new(ErrorKind::OutputRead, String::from("broken pipe"))));
    assert_eq!(state.screen(), Screen::Terminal);
    state.update(Message::Disconnect);
    assert_eq!(state.screen(), Screen::Form);
}

#[test]
fn form_is_shown_again_after_a_failed_attempt() {
    let mut state = connected();
    state.update(Message::Connect);
    state.connect_finished(Err(SshError::new(ErrorKind::Handshake, String::from("timeout"))));
    assert_eq!(state.screen(), Screen::Form);
    assert_eq!(state.status(), "Erreur: timeout");
}

#[test]
fn terminal_heading_names_host_and_port() {
    assert_eq!(connected().terminal_heading(), "Terminal SSH - Connecté à localhost:22");
    let mut state = SshConnection::new();
    assert_eq!(state.terminal_heading(), "Terminal SSH - Connecté à :22");
    state.update(Message::HostChanged(String::from("example.org")));
    state.update(Message::PortChanged(String::from("2222")));
    assert_eq!(state.terminal_heading(), "Terminal SSH - Connecté à example.org:2222");
}

//! Establishing an authenticated session.
//!
//! An attempt goes through four phases in a fixed order: open the transport,
//! perform the handshake, authenticate, and check that the session reports
//! itself authenticated. The first failure ends the attempt; nothing is tried
//! again. Only an attempt that has passed the last check yields a session.

use vstd::prelude::*;
use vstd::string::*;
use crate::error::{ErrorKind, SshError, SshErrorView, not_authenticated_text};
use crate::protocol::{Reply, ReplyView, Request, RequestView};

verus! {

/// The transport address of a host and a port: the two joined by a colon.
pub open spec fn socket_address(host: Seq<char>, port: Seq<char>) -> Seq<char> {
    host + seq![':'] + port
}

/// Builds the transport address `host:port`.
pub fn join_address(host: &str, port: &str) -> (address: String)
    ensures
        address@ == socket_address(host@, port@),
{
    proof {
        reveal_strlit(":");
    }
    let address = host.to_owned().concat(":").concat(port);
    assert(":"@ =~= seq![':']);
    address
}

/// What remains to be done before an attempt yields a session.
#[derive(Clone, Copy, Debug, PartialEq, Eq, Structural)]
pub enum ConnectPhase {
    /// The transport connection is to be opened.
    Transport,
    /// The handshake is to be performed.
    Handshake,
    /// The user is to be authenticated.
    Authentication,
    /// The session is to be asked whether it is authenticated.
    Verification,
}

/// What an `SshSession` stands for: where it is connected to, and as whom.
pub struct SessionView {
    pub address: Seq<char>,
    pub username: Seq<char>,
}

/// The handle of one authenticated session. It exists from the moment an
/// attempt has passed its last check until it is dropped.
#[derive(Debug, PartialEq, Eq)]
pub struct SshSession {
    address: String,
    username: String,
}

impl View for SshSession {
    type V = SessionView;

    closed spec fn view(&self) -> SessionView {
        SessionView { address: self.address@, username: self.username@ }
    }
}

/// What a `ConnectAttempt` stands for: the connection parameters and the phase.
pub struct AttemptView {
    pub host: Seq<char>,
    pub port: Seq<char>,
    pub username: Seq<char>,
    pub password: Seq<char>,
    pub use_key: bool,
    pub key_path: Seq<char>,
    pub phase: ConnectPhase,
}

/// Where an attempt stands after a reply.
pub enum ConnectStepView {
    /// The attempt goes on; its pending request is to be carried out next.
    Continue(AttemptView),
    /// The attempt is over: with a session, or with the error that ended it.
    Finished(Result<SessionView, SshErrorView>),
}

impl AttemptView {
    /// The attempt on the given parameters before anything has been done.
    pub open spec fn start(
        host: Seq<char>,
        port: Seq<char>,
        username: Seq<char>,
        password: Seq<char>,
        use_key: bool,
        key_path: Seq<char>,
    ) -> AttemptView {
        AttemptView {
            host,
            port,
            username,
            password,
            use_key,
            key_path,
            phase: ConnectPhase::Transport,
        }
    }

    /// Whether the user is authenticated by key file: only if that was asked
    /// for and a path was given. Otherwise the password is used.
    pub open spec fn uses_key(self) -> bool {
        self.use_key && self.key_path.len() > 0
    }

    /// The request that is pending in the attempt's phase.
    pub open spec fn request(self) -> RequestView {
        match self.phase {
            ConnectPhase::Transport => RequestView::OpenTransport {
                address: socket_address(self.host, self.port),
            },
            ConnectPhase::Handshake => RequestView::Handshake,
            ConnectPhase::Authentication => if self.uses_key() {
                RequestView::AuthPublicKey { username: self.username, key_path: self.key_path }
            } else {
                RequestView::AuthPassword { username: self.username, password: self.password }
            },
            ConnectPhase::Verification => RequestView::QueryAuthenticated,
        }
    }

    /// The kind of error that a failure in the attempt's phase is reported as.
    pub open spec fn failure_kind(self) -> ErrorKind {
        match self.phase {
            ConnectPhase::Transport => ErrorKind::Transport,
            ConnectPhase::Handshake => ErrorKind::Handshake,
            ConnectPhase::Authentication => ErrorKind::Authentication,
            ConnectPhase::Verification => ErrorKind::Verification,
        }
    }

    /// The same attempt in another phase.
    pub open spec fn at(self, phase: ConnectPhase) -> AttemptView {
        AttemptView { phase, ..self }
    }

    /// The session that the attempt yields when it succeeds.
    pub open spec fn session(self) -> SessionView {
        SessionView { address: socket_address(self.host, self.port), username: self.username }
    }

    /// Where the attempt stands after `reply`.
    ///
    /// A reply that does not answer the pending request changes nothing. A
    /// failure ends the attempt with the error of its phase and the reported
    /// text. Success moves on to the next phase. The last phase ends the
    /// attempt: with the session if it is authenticated, and with the fixed
    /// verification error if it is not.
    pub open spec fn step(self, reply: ReplyView) -> ConnectStepView {
        match (self.phase, reply) {
            (ConnectPhase::Verification, ReplyView::Authenticated(true)) => {
                ConnectStepView::Finished(Ok(self.session()))
            },
            (ConnectPhase::Verification, ReplyView::Authenticated(false)) => {
                ConnectStepView::Finished(
                    Err(
                        SshErrorView {
                            kind: ErrorKind::Verification,
                            message: not_authenticated_text(),
                        },
                    ),
                )
            },
            (ConnectPhase::Verification, _) => ConnectStepView::Continue(self),
            (ConnectPhase::Transport, ReplyView::Done) => {
                ConnectStepView::Continue(self.at(ConnectPhase::Handshake))
            },
            (ConnectPhase::Handshake, ReplyView::Done) => {
                ConnectStepView::Continue(self.at(ConnectPhase::Authentication))
            },
            (ConnectPhase::Authentication, ReplyView::Done) => {
                ConnectStepView::Continue(self.at(ConnectPhase::Verification))
            },
            (_, ReplyView::Failed(message)) => {
                ConnectStepView::Finished(Err(SshErrorView { kind: self.failure_kind(), message }))
            },
            (_, _) => ConnectStepView::Continue(self),
        }
    }

    /// Where the attempt stands after the replies of a whole script, taken in
    /// order. Replies that come after the attempt is over are not looked at.
    pub open spec fn run(self, replies: Seq<ReplyView>) -> ConnectStepView
        decreases replies.len(),
    {
        if replies.len() == 0 {
            ConnectStepView::Continue(self)
        } else {
            match self.step(replies[0]) {
                ConnectStepView::Continue(next) => next.run(replies.drop_first()),
                finished => finished,
            }
        }
    }
}

/// An attempt to establish a session that is not over yet.
#[derive(Debug, PartialEq, Eq)]
pub struct ConnectAttempt {
    host: String,
    port: String,
    username: String,
    password: String,
    use_key: bool,
    key_path: String,
    phase: ConnectPhase,
}

impl View for ConnectAttempt {
    type V = AttemptView;

    closed spec fn view(&self) -> AttemptView {
        AttemptView {
            host: self.host@,
            port: self.port@,
            username: self.username@,
            password: self.password@,
            use_key: self.use_key,
            key_path: self.key_path@,
            phase: self.phase,
        }
    }
}

/// The result of establishing a session, as a value of the model.
pub open spec fn outcome_view(outcome: Result<SshSession, SshError>) -> Result<
    SessionView,
    SshErrorView,
> {
    match outcome {
        Ok(session) => Ok(session@),
        Err(error) => Err(error@),
    }
}

/// Where an attempt stands after a reply.
#[derive(Debug, PartialEq, Eq)]
pub enum ConnectStep {
    /// The attempt goes on; its pending request is to be carried out next.
    Continue(ConnectAttempt),
    /// The attempt is over: with a session, or with the error that ended it.
    Finished(Result<SshSession, SshError>),
}

impl View for ConnectStep {
    type V = ConnectStepView;

    open spec fn view(&self) -> ConnectStepView {
        match *self {
            ConnectStep::Continue(attempt) => ConnectStepView::Continue(attempt@),
            ConnectStep::Finished(outcome) => ConnectStepView::Finished(outcome_view(outcome)),
        }
    }
}

impl ConnectAttempt {
    /// The phase that the attempt is in.
    pub fn phase(&self) -> (phase: ConnectPhase)
        ensures
            phase == self@.phase,
    {
        self.phase
    }

    /// The request that the driver has to carry out next.
    pub fn request(&self) -> (request: Request)
        ensures
            request@ == self@.request(),
    {
        match self.phase {
            ConnectPhase::Transport => Request::OpenTransport {
                address: join_address(self.host.as_str(), self.port.as_str()),
            },
            ConnectPhase::Handshake => Request::Handshake,
            ConnectPhase::Authentication => {
                if self.use_key && !self.key_path.as_str().is_empty() {
                    Request::AuthPublicKey {
                        username: self.username.clone(),
                        key_path: self.key_path.clone(),
                    }
                } else {
                    Request::AuthPassword {
                        username: self.username.clone(),
                        password: self.password.clone(),
                    }
                }
            },
            ConnectPhase::Verification => Request::QueryAuthenticated,
        }
    }

    /// Takes the reply to the pending request and says where the attempt
    /// stands now.
    pub fn advance(self, reply: Reply) -> (step: ConnectStep)
        ensures
            step@ == self@.step(reply@),
    {
        match self.phase {
            ConnectPhase::Verification => match reply {
                Reply::Authenticated(true) => {
                    let address = join_address(self.host.as_str(), self.port.as_str());
                    ConnectStep::Finished(Ok(SshSession { address, username: self.username }))
                },
                Reply::Authenticated(false) => ConnectStep::Finished(
                    Err(SshError::not_authenticated()),
                ),
                _ => ConnectStep::Continue(self),
            },
            ConnectPhase::Transport => self.settle(reply, ConnectPhase::Handshake),
            ConnectPhase::Handshake => self.settle(reply, ConnectPhase::Authentication),
            ConnectPhase::Authentication => self.settle(reply, ConnectPhase::Verification),
        }
    }

    /// The step out of a phase whose request either is done or has failed.
    fn settle(self, reply: Reply, next: ConnectPhase) -> (step: ConnectStep)
        requires
            self@.phase != ConnectPhase::Verification,
            self@.step(ReplyView::Done) == ConnectStepView::Continue(self@.at(next)),
        ensures
            step@ == self@.step(reply@),
    {
        match reply {
            Reply::Done => ConnectStep::Continue(
                ConnectAttempt {
                    host: self.host,
                    port: self.port,
                    username: self.username,
                    password: self.password,
                    use_key: self.use_key,
                    key_path: self.key_path,
                    phase: next,
                },
            ),
            Reply::Failed(message) => {
                let kind = match self.phase {
                    ConnectPhase::Transport => ErrorKind::Transport,
                    ConnectPhase::Handshake => ErrorKind::Handshake,
                    ConnectPhase::Authentication => ErrorKind::Authentication,
                    ConnectPhase::Verification => ErrorKind::Verification,
                };
                ConnectStep::Finished(Err(SshError::new(kind, message)))
            },
            _ => ConnectStep::Continue(self),
        }
    }
}

impl SshSession {
    /// Begins establishing a session with the given parameters. Nothing has
    /// been sent yet: the attempt that is returned asks for the transport
    /// connection to `host:port` first.
    pub fn new(
        host: &str,
        port: &str,
        username: &str,
        password: &str,
        use_key: bool,
        key_path: &str,
    ) -> (attempt: ConnectAttempt)
        ensures
            attempt@ == AttemptView::start(host@, port@, username@, password@, use_key, key_path@),
    {
        ConnectAttempt {
            host: host.to_owned(),
            port: port.to_owned(),
            username: username.to_owned(),
            password: password.to_owned(),
            use_key,
            key_path: key_path.to_owned(),
            phase: ConnectPhase::Transport,
        }
    }

    /// The transport address that the session is connected to.
    pub fn address(&self) -> (address: &str)
        ensures
            address@ == self@.address,
    {
        self.address.as_str()
    }

    /// The user that the session is authenticated as.
    pub fn username(&self) -> (username: &str)
        ensures
            username@ == self@.username,
    {
        self.username.as_str()
    }
}

/// Reports how establishing a session ended, and lets go of the session if
/// there is one: a connection that was only opened to see whether it can be.
pub fn test_connection(outcome: Result<SshSession, SshError>) -> (verdict: Result<(), SshError>)
    ensures
        verdict == match outcome {
            Ok(_) => Ok::<(), SshError>(()),
            Err(error) => Err(error),
        },
{
    match outcome {
        Ok(_) => Ok(()),
        Err(error) => Err(error),
    }
}

/// Unfolds `run` on a script with a known first reply.
proof fn lemma_run_unfold(attempt: AttemptView, first: ReplyView, rest: Seq<ReplyView>)
    ensures
        attempt.run(seq![first] + rest) == match attempt.step(first) {
            ConnectStepView::Continue(next) => next.run(rest),
            finished => finished,
        },
{
    let script = seq![first] + rest;
    assert(script.len() > 0);
    assert(script[0] == first);
    assert(script.drop_first() =~= rest);
}

/// Unfolds `run` on a script of one reply.
proof fn lemma_run_single(attempt: AttemptView, only: ReplyView)
    ensures
        attempt.run(seq![only]) == attempt.step(only),
{
    assert(seq![only] =~= seq![only] + Seq::empty());
    lemma_run_unfold(attempt, only, Seq::empty());
}

/// A reply changes an attempt exactly if it answers the pending request.
pub proof fn law_unanswered_reply_changes_nothing(attempt: AttemptView, reply: ReplyView)
    ensures
        reply.answers(attempt.request()) <==> attempt.step(reply) != ConnectStepView::Continue(
            attempt,
        ),
{
}

/// A step yields a session exactly if the attempt was waiting for the
/// verification and the session was reported authenticated; the session is
/// then the one of the attempt's parameters.
pub proof fn law_session_only_after_verification(attempt: AttemptView, reply: ReplyView)
    ensures
        attempt.step(reply) is Finished && attempt.step(reply)->Finished_0 is Ok <==> attempt.phase
            == ConnectPhase::Verification && reply == ReplyView::Authenticated(true),
        attempt.step(reply) is Finished && attempt.step(reply)->Finished_0 is Ok ==> attempt.step(
            reply,
        ) == ConnectStepView::Finished(Ok(attempt.session())),
{
}

/// A step ends an attempt with an error exactly if the reply answers the
/// pending request with a failure, or reports the session as not
/// authenticated. The error then has the kind of the attempt's phase; its text
/// is the reported one, or the fixed verification text.
pub proof fn law_first_failure_ends_attempt(attempt: AttemptView, reply: ReplyView)
    ensures
        attempt.step(reply) is Finished && attempt.step(reply)->Finished_0 is Err <==> (reply
            is Failed && attempt.phase != ConnectPhase::Verification) || (attempt.phase
            == ConnectPhase::Verification && reply == ReplyView::Authenticated(false)),
        reply is Failed && attempt.phase != ConnectPhase::Verification ==> attempt.step(reply)
            == ConnectStepView::Finished(
            Err(SshErrorView { kind: attempt.failure_kind(), message: reply->Failed_0 }),
        ),
        attempt.phase == ConnectPhase::Verification && reply == ReplyView::Authenticated(false)
            ==> attempt.step(reply) == ConnectStepView::Finished(
            Err(SshErrorView { kind: ErrorKind::Verification, message: not_authenticated_text() }),
        ),
{
}

/// The phases follow each other in one order: a step that goes on either
/// leaves the attempt as it was or takes it to the next phase, with the same
/// parameters.
pub proof fn law_phases_in_order(attempt: AttemptView, reply: ReplyView)
    ensures
        attempt.step(reply) matches ConnectStepView::Continue(next) ==> next == attempt || (reply
            == ReplyView::Done && match attempt.phase {
            ConnectPhase::Transport => next == attempt.at(ConnectPhase::Handshake),
            ConnectPhase::Handshake => next == attempt.at(ConnectPhase::Authentication),
            ConnectPhase::Authentication => next == attempt.at(ConnectPhase::Verification),
            ConnectPhase::Verification => false,
        }),
{
}

/// Once an attempt is over, nothing that is reported later changes how it
/// ended: there is no retry and no recovery.
pub proof fn law_decided_attempt_stays_decided(
    attempt: AttemptView,
    replies: Seq<ReplyView>,
    more: Seq<ReplyView>,
)
    requires
        attempt.run(replies) is Finished,
    ensures
        attempt.run(replies + more) == attempt.run(replies),
    decreases replies.len(),
{
    if replies.len() > 0 {
        let rest = replies.drop_first();
        assert(replies + more =~= seq![replies[0]] + (rest + more));
        lemma_run_unfold(attempt, replies[0], rest + more);
        match attempt.step(replies[0]) {
            ConnectStepView::Continue(next) => {
                law_decided_attempt_stays_decided(next, rest, more);
            },
            _ => {},
        }
    }
}

/// With a peer that accepts the transport connection, the handshake and the
/// credentials, and a session that reports itself authenticated, the attempt
/// yields the session to `host:port` for the user.
pub proof fn law_accepted_credentials_yield_session(
    host: Seq<char>,
    port: Seq<char>,
    username: Seq<char>,
    password: Seq<char>,
    use_key: bool,
    key_path: Seq<char>,
)
    ensures
        AttemptView::start(host, port, username, password, use_key, key_path).run(
            seq![
                ReplyView::Done,
                ReplyView::Done,
                ReplyView::Done,
                ReplyView::Authenticated(true),
            ],
        ) == ConnectStepView::Finished(
            Ok(SessionView { address: socket_address(host, port), username }),
        ),
{
    let attempt = AttemptView::start(host, port, username, password, use_key, key_path);
    let done = seq![ReplyView::Done];
    let last = seq![ReplyView::Authenticated(true)];
    let script = seq![
        ReplyView::Done,
        ReplyView::Done,
        ReplyView::Done,
        ReplyView::Authenticated(true),
    ];
    assert(script =~= done + (done + (done + last)));
    lemma_run_unfold(attempt, ReplyView::Done, done + (done + last));
    lemma_run_unfold(attempt.at(ConnectPhase::Handshake), ReplyView::Done, done + last);
    lemma_run_unfold(attempt.at(ConnectPhase::Authentication), ReplyView::Done, last);
    lemma_run_single(attempt.at(ConnectPhase::Verification), ReplyView::Authenticated(true));
}

/// When the transport connection cannot be opened, the attempt ends with a
/// transport error that carries the reported text, whatever is reported
/// afterwards: it never succeeds.
pub proof fn law_unreachable_host_is_transport_error(
    host: Seq<char>,
    port: Seq<char>,
    username: Seq<char>,
    password: Seq<char>,
    use_key: bool,
    key_path: Seq<char>,
    message: Seq<char>,
    later: Seq<ReplyView>,
)
    ensures
        AttemptView::start(host, port, username, password, use_key, key_path).run(
            seq![ReplyView::Failed(message)] + later,
        ) == ConnectStepView::Finished(Err(SshErrorView { kind: ErrorKind::Transport, message })),
{
    let attempt = AttemptView::start(host, port, username, password, use_key, key_path);
    lemma_run_unfold(attempt, ReplyView::Failed(message), later);
}

/// When the handshake fails over an open transport, the attempt ends with a
/// handshake error that carries the reported text.
pub proof fn law_failed_handshake_is_handshake_error(
    host: Seq<char>,
    port: Seq<char>,
    username: Seq<char>,
    password: Seq<char>,
    use_key: bool,
    key_path: Seq<char>,
    message: Seq<char>,
    later: Seq<ReplyView>,
)
    ensures
        AttemptView::start(host, port, username, password, use_key, key_path).run(
            seq![ReplyView::Done, ReplyView::Failed(message)] + later,
        ) == ConnectStepView::Finished(Err(SshErrorView { kind: ErrorKind::Handshake, message })),
{
    let attempt = AttemptView::start(host, port, username, password, use_key, key_path);
    let done = seq![ReplyView::Done];
    let failed = seq![ReplyView::Failed(message)];
    let script = seq![ReplyView::Done, ReplyView::Failed(message)] + later;
    assert(script =~= done + (failed + later));
    lemma_run_unfold(attempt, ReplyView::Done, failed + later);
    lemma_run_unfold(attempt.at(ConnectPhase::Handshake), ReplyView::Failed(message), later);
}

/// With a reachable host and credentials that the peer refuses, the attempt
/// ends with an authentication error that carries the reported text, and
/// yields no session, whatever is reported afterwards.
pub proof fn law_refused_credentials_are_authentication_error(
    host: Seq<char>,
    port: Seq<char>,
    username: Seq<char>,
    password: Seq<char>,
    use_key: bool,
    key_path: Seq<char>,
    message: Seq<char>,
    later: Seq<ReplyView>,
)
    ensures
        AttemptView::start(host, port, username, password, use_key, key_path).run(
            seq![ReplyView::Done, ReplyView::Done, ReplyView::Failed(message)] + later,
        ) == ConnectStepView::Finished(
            Err(SshErrorView { kind: ErrorKind::Authentication, message }),
        ),
{
    let attempt = AttemptView::start(host, port, username, password, use_key, key_path);
    let done = seq![ReplyView::Done];
    let failed = seq![ReplyView::Failed(message)];
    let script = seq![ReplyView::Done, ReplyView::Done, ReplyView::Failed(message)] + later;
    assert(script =~= done + (done + (failed + later)));
    lemma_run_unfold(attempt, ReplyView::Done, done + (failed + later));
    lemma_run_unfold(attempt.at(ConnectPhase::Handshake), ReplyView::Done, failed + later);
    lemma_run_unfold(attempt.at(ConnectPhase::Authentication), ReplyView::Failed(message), later);
}

/// When authentication reports no error but the session is not authenticated
/// afterwards, the attempt ends with the verification error and its fixed
/// text, and yields no session.
pub proof fn law_unverified_session_is_verification_error(
    host: Seq<char>,
    port: Seq<char>,
    username: Seq<char>,
    password: Seq<char>,
    use_key: bool,
    key_path: Seq<char>,
    later: Seq<ReplyView>,
)
    ensures
        AttemptView::start(host, port, username, password, use_key, key_path).run(
            seq![
                ReplyView::Done,
                ReplyView::Done,
                ReplyView::Done,
                ReplyView::Authenticated(false),
            ] + later,
        ) == ConnectStepView::Finished(
            Err(SshErrorView { kind: ErrorKind::Verification, message: not_authenticated_text() }),
        ),
{
    let attempt = AttemptView::start(host, port, username, password, use_key, key_path);
    let done = seq![ReplyView::Done];
    let last = seq![ReplyView::Authenticated(false)];
    let script = seq![
        ReplyView::Done,
        ReplyView::Done,
        ReplyView::Done,
        ReplyView::Authenticated(false),
    ] + later;
    assert(script =~= done + (done + (done + (last + later))));
    lemma_run_unfold(attempt, ReplyView::Done, done + (done + (last + later)));
    lemma_run_unfold(attempt.at(ConnectPhase::Handshake), ReplyView::Done, done + (last + later));
    lemma_run_unfold(attempt.at(ConnectPhase::Authentication), ReplyView::Done, last + later);
    lemma_run_unfold(attempt.at(ConnectPhase::Verification), ReplyView::Authenticated(false), later);
}

/// An attempt never succeeds silently: whatever the script, it yields a
/// session only if the session was reported authenticated, and the session is
/// then the one of the attempt's parameters.
pub proof fn law_session_needs_authenticated_report(attempt: AttemptView, replies: Seq<ReplyView>)
    requires
        attempt.run(replies) is Finished,
        attempt.run(replies)->Finished_0 is Ok,
    ensures
        attempt.run(replies) == ConnectStepView::Finished(Ok(attempt.session())),
        replies.contains(ReplyView::Authenticated(true)),
    decreases replies.len(),
{
    if replies.len() > 0 {
        let rest = replies.drop_first();
        match attempt.step(replies[0]) {
            ConnectStepView::Continue(next) => {
                law_session_needs_authenticated_report(next, rest);
                let i = choose|i: int| 0 <= i < rest.len() && rest[i] == ReplyView::Authenticated(true);
                assert(replies[i + 1] == ReplyView::Authenticated(true));
            },
            _ => {
                assert(replies[0] == ReplyView::Authenticated(true));
            },
        }
    }
}

} // verus!

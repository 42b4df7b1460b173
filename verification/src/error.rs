//! Errors of a session, by the step that failed.

use vstd::prelude::*;

verus! {

/// The step of a session's life at which something went wrong.
#[derive(Clone, Copy, Debug, PartialEq, Eq, Structural)]
pub enum ErrorKind {
    /// The transport connection to the host could not be opened.
    Transport,
    /// The protocol handshake over the open transport failed.
    Handshake,
    /// The peer refused the password or the key.
    Authentication,
    /// Authentication reported no error, yet the session is not authenticated.
    Verification,
    /// No execution channel could be opened on the session.
    ChannelOpen,
    /// The request to execute the command was refused.
    ExecRequest,
    /// The output of the command could not be read to its end.
    OutputRead,
    /// Waiting for the channel to close failed.
    CloseWait,
}

/// What an `SshError` stands for: its kind and the characters of its message.
pub struct SshErrorView {
    pub kind: ErrorKind,
    pub message: Seq<char>,
}

/// A failed step, with the diagnostic text that is shown to the user.
#[derive(Clone, Debug, PartialEq, Eq)]
pub struct SshError {
    pub kind: ErrorKind,
    pub message: String,
}

impl View for SshError {
    type V = SshErrorView;

    open spec fn view(&self) -> SshErrorView {
        SshErrorView { kind: self.kind, message: self.message@ }
    }
}

/// The text reported when authentication raised no error but the session is
/// found not to be authenticated afterwards.
pub open spec fn not_authenticated_text() -> Seq<char> {
    "Authentification échouée"@
}

impl SshError {
    /// An error of the given kind with the given diagnostic text.
    pub fn new(kind: ErrorKind, message: String) -> (error: SshError)
        ensures
            error@ == (SshErrorView { kind, message: message@ }),
    {
        SshError { kind, message }
    }

    /// The error of a session that is not authenticated after an
    /// authentication step that reported success.
    pub fn not_authenticated() -> (error: SshError)
        ensures
            error@ == (SshErrorView {
                kind: ErrorKind::Verification,
                message: not_authenticated_text(),
            }),
    {
        SshError { kind: ErrorKind::Verification, message: "Authentification échouée".to_owned() }
    }

    /// The step that failed.
    pub fn kind(&self) -> (kind: ErrorKind)
        ensures
            kind == self@.kind,
    {
        self.kind
    }

    /// The text to display: the diagnostic message, unchanged.
    pub fn to_string(&self) -> (text: String)
        ensures
            text@ == self@.message,
    {
        self.message.clone()
    }
}

} // verus!

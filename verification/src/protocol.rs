//! The requests that the library hands to its driver, and the replies it takes back.
//!
//! The driver owns the network. It carries out one request at a time and
//! reports what happened as a `Reply`; it decides nothing.

use vstd::prelude::*;

verus! {

/// One piece of work on the network.
#[derive(Clone, Debug, PartialEq, Eq)]
pub enum Request {
    /// Open a stream connection to `address`, written `host:port`.
    OpenTransport { address: String },
    /// Perform the protocol handshake over the open stream.
    Handshake,
    /// Authenticate `username` with a plain password.
    AuthPassword { username: String, password: String },
    /// Authenticate `username` with the private key file at `key_path`,
    /// without a passphrase.
    AuthPublicKey { username: String, key_path: String },
    /// Ask the session whether it is authenticated.
    QueryAuthenticated,
    /// Open a fresh execution channel on the session.
    OpenChannel,
    /// Ask the remote shell to execute `command`, passed on as it is.
    Exec { command: String },
    /// Read the channel's output stream to its end.
    ReadOutput,
    /// Wait until the channel has closed.
    WaitClose,
}

/// What a `Request` stands for, with its strings as sequences of characters.
pub enum RequestView {
    OpenTransport { address: Seq<char> },
    Handshake,
    AuthPassword { username: Seq<char>, password: Seq<char> },
    AuthPublicKey { username: Seq<char>, key_path: Seq<char> },
    QueryAuthenticated,
    OpenChannel,
    Exec { command: Seq<char> },
    ReadOutput,
    WaitClose,
}

impl View for Request {
    type V = RequestView;

    open spec fn view(&self) -> RequestView {
        match *self {
            Request::OpenTransport { address } => RequestView::OpenTransport { address: address@ },
            Request::Handshake => RequestView::Handshake,
            Request::AuthPassword { username, password } => RequestView::AuthPassword {
                username: username@,
                password: password@,
            },
            Request::AuthPublicKey { username, key_path } => RequestView::AuthPublicKey {
                username: username@,
                key_path: key_path@,
            },
            Request::QueryAuthenticated => RequestView::QueryAuthenticated,
            Request::OpenChannel => RequestView::OpenChannel,
            Request::Exec { command } => RequestView::Exec { command: command@ },
            Request::ReadOutput => RequestView::ReadOutput,
            Request::WaitClose => RequestView::WaitClose,
        }
    }
}

/// What the driver reports after carrying out a request.
#[derive(Clone, Debug, PartialEq, Eq)]
pub enum Reply {
    /// The request succeeded and has nothing to report.
    Done,
    /// The request failed; the text describes why.
    Failed(String),
    /// The answer to `Request::QueryAuthenticated`.
    Authenticated(bool),
    /// The answer to `Request::ReadOutput`: everything the command wrote.
    Output(String),
}

/// What a `Reply` stands for, with its strings as sequences of characters.
pub enum ReplyView {
    Done,
    Failed(Seq<char>),
    Authenticated(bool),
    Output(Seq<char>),
}

impl View for Reply {
    type V = ReplyView;

    open spec fn view(&self) -> ReplyView {
        match *self {
            Reply::Done => ReplyView::Done,
            Reply::Failed(message) => ReplyView::Failed(message@),
            Reply::Authenticated(authenticated) => ReplyView::Authenticated(authenticated),
            Reply::Output(output) => ReplyView::Output(output@),
        }
    }
}

impl ReplyView {
    /// Whether this reply is one that the given request can be answered with.
    /// Asking whether the session is authenticated cannot fail; reading yields
    /// the output; every other request either is done or has failed.
    pub open spec fn answers(self, request: RequestView) -> bool {
        match request {
            RequestView::QueryAuthenticated => self is Authenticated,
            RequestView::ReadOutput => self is Output || self is Failed,
            _ => self is Done || self is Failed,
        }
    }
}

impl Reply {
    /// Whether this reply is one that `request` can be answered with.
    pub fn answers(&self, request: &Request) -> (fits: bool)
        ensures
            fits == self@.answers(request@),
    {
        match request {
            Request::QueryAuthenticated => match self {
                Reply::Authenticated(_) => true,
                _ => false,
            },
            Request::ReadOutput => match self {
                Reply::Output(_) => true,
                Reply::Failed(_) => true,
                _ => false,
            },
            _ => match self {
                Reply::Done => true,
                Reply::Failed(_) => true,
                _ => false,
            },
        }
    }
}

} // verus!

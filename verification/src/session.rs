//! The lifecycle of the linked account: disconnected, waiting for the
//! account's confirmation, connected.

use crate::events::copy_text;
use vstd::prelude::*;

verus! {

/// The credentials of a linked account, as they are kept between runs.
#[derive(Debug, PartialEq, Clone)]
pub struct Session {
    pub key: String,
    pub secret: Option<String>,
}

impl Session {
    pub fn copy(&self) -> (copy: Session)
        ensures
            copy == *self,
    {
        Session { key: self.key.clone(), secret: copy_text(&self.secret) }
    }
}

#[derive(Debug, PartialEq, Clone)]
pub enum LastFMState {
    Disconnected,
    AwaitingFinalization(String),
    Connected(Session),
}

/// What was found where the session is kept between runs.
#[derive(Debug, PartialEq, Clone)]
pub enum SessionFile {
    /// There is no file.
    Missing,
    /// There is a file, and no session can be read from it.
    Unreadable,
    /// The file holds this session.
    Stored(Session),
}

/// Something to tell the user's log.
#[derive(Debug, PartialEq, Eq, Clone, Copy)]
pub enum Diagnostic {
    /// The kept session could not be read: the account is not signed in.
    SessionUnreadable,
    /// The session file could not be opened for writing.
    SessionNotOpened,
    /// The session could not be written to its file.
    SessionNotWritten,
}

/// How an attempt to keep the session went.
#[derive(Debug, PartialEq, Eq, Clone, Copy)]
pub enum PersistOutcome {
    Written,
    OpenFailed,
    WriteFailed,
}

/// The state in which a run starts.
#[derive(Debug, PartialEq, Clone)]
pub struct Restored {
    pub state: LastFMState,
    pub diagnostic: Option<Diagnostic>,
}

/// What a transition into `Connected` asks of its surroundings.
#[derive(Debug, PartialEq, Clone)]
pub struct Connection {
    /// The session key for which the account's broadcast service is to be
    /// registered anew.
    pub register: String,
    /// The session to write, once, over what the session file holds.
    pub persist: Session,
}

/// The state that `file` starts a run with.
pub open spec fn restored_from(file: SessionFile) -> Restored {
    match file {
        SessionFile::Stored(session) => Restored {
            state: LastFMState::Connected(session),
            diagnostic: None,
        },
        SessionFile::Missing => Restored { state: LastFMState::Disconnected, diagnostic: None },
        SessionFile::Unreadable => Restored {
            state: LastFMState::Disconnected,
            diagnostic: Some(Diagnostic::SessionUnreadable),
        },
    }
}

/// Starts from what was kept: connected with a stored session, disconnected
/// without one, and disconnected with a diagnostic where the file cannot be
/// read.
pub fn restore(file: SessionFile) -> (start: Restored)
    ensures
        start == restored_from(file),
{
    match file {
        SessionFile::Stored(session) => Restored {
            state: LastFMState::Connected(session),
            diagnostic: None,
        },
        SessionFile::Missing => Restored { state: LastFMState::Disconnected, diagnostic: None },
        SessionFile::Unreadable => Restored {
            state: LastFMState::Disconnected,
            diagnostic: Some(Diagnostic::SessionUnreadable),
        },
    }
}

/// What to log after an attempt to keep the session. The state is not
/// touched: a session that could not be kept stays connected, and is asked
/// for again in the next run.
pub fn persist_diagnostic(outcome: PersistOutcome) -> (diagnostic: Option<Diagnostic>)
    ensures
        diagnostic == (match outcome {
            PersistOutcome::Written => None,
            PersistOutcome::OpenFailed => Some(Diagnostic::SessionNotOpened),
            PersistOutcome::WriteFailed => Some(Diagnostic::SessionNotWritten),
        }),
{
    match outcome {
        PersistOutcome::Written => None,
        PersistOutcome::OpenFailed => Some(Diagnostic::SessionNotOpened),
        PersistOutcome::WriteFailed => Some(Diagnostic::SessionNotWritten),
    }
}

impl LastFMState {
    pub open spec fn is_connected_spec(&self) -> bool {
        self is Connected
    }

    #[verifier::when_used_as_spec(is_connected_spec)]
    pub fn is_connected(&self) -> (connected: bool)
        ensures
            connected == self.is_connected_spec(),
    {
        match self {
            LastFMState::Connected(_) => true,
            _ => false,
        }
    }

    pub fn copy(&self) -> (copy: LastFMState)
        ensures
            copy == *self,
    {
        match self {
            LastFMState::Disconnected => LastFMState::Disconnected,
            LastFMState::AwaitingFinalization(token) => LastFMState::AwaitingFinalization(
                token.clone(),
            ),
            LastFMState::Connected(session) => LastFMState::Connected(session.copy()),
        }
    }

    /// The session of a connected account.
    pub fn session(&self) -> (session: Option<Session>)
        ensures
            session == (match *self {
                LastFMState::Connected(s) => Some(s),
                _ => None,
            }),
    {
        match self {
            LastFMState::Connected(s) => Some(s.copy()),
            _ => None,
        }
    }

    /// Begins linking an account: from `Disconnected` to
    /// `AwaitingFinalization(token)`. In any other state nothing changes and
    /// the answer is `false`.
    pub fn begin_linking(&mut self, token: String) -> (begun: bool)
        ensures
            begun == (*old(self) is Disconnected),
            *final(self) == (if *old(self) is Disconnected {
                LastFMState::AwaitingFinalization(token)
            } else {
                *old(self)
            }),
    {
        match self {
            LastFMState::Disconnected => {
                *self = LastFMState::AwaitingFinalization(token);
                true
            },
            _ => false,
        }
    }

    /// The account confirmed `session`: the state becomes
    /// `Connected(session)`, whatever it was, and the answer asks for one
    /// registration and one write of the session.
    pub fn connect(&mut self, session: Session) -> (asked: Connection)
        ensures
            *final(self) == LastFMState::Connected(session),
            asked == (Connection { register: session.key, persist: session }),
    {
        let asked = Connection { register: session.key.clone(), persist: session.copy() };
        *self = LastFMState::Connected(session);
        asked
    }

    /// Signs out: from `Connected` to `Disconnected`, and the session that
    /// ended is returned. In any other state nothing changes.
    pub fn sign_out(&mut self) -> (ended: Option<Session>)
        ensures
            ended == (match *old(self) {
                LastFMState::Connected(s) => Some(s),
                _ => None,
            }),
            *final(self) == (if *old(self) is Connected {
                LastFMState::Disconnected
            } else {
                *old(self)
            }),
    {
        let ended = self.session();
        if ended.is_some() {
            *self = LastFMState::Disconnected;
        }
        ended
    }
}

} // verus!

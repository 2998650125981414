//! How the adapter comes by the API key under which it talks to the
//! dashboard.
//!
//! A key that is on file is used as it is. Else the one-time bootstrap key
//! is read and exchanged for a permanent key, and the permanent key is put
//! on file before it is used: the bootstrap key works once, so a permanent
//! key that is lost cannot be had again.

use vstd::prelude::*;
use crate::error::AdapterError;
use crate::homarr::HomarrClient;
use crate::http::{Body, Method, Payload, Reply, Request, success};
use crate::state::State;
use crate::text::{concat, opt_text, trim, trimmed};

verus! {

/// Where the acquisition of the key stands.
#[derive(Debug, Clone, Copy, PartialEq, Eq, Structural)]
pub enum AuthPhase {
    /// The bootstrap key is being read.
    AwaitKeyFile,
    /// The bootstrap key is being exchanged.
    AwaitRotation,
    /// The permanent key is being put on file.
    AwaitPersist,
    /// The client holds a key that is on file.
    Ready,
    /// No key could be had.
    Failed,
}

/// What the caller is to do next.
#[derive(Debug)]
pub enum AuthAction {
    /// Read the bootstrap key file and report its contents.
    ReadBootstrapKey,
    /// Send the request and report the answer.
    Rotate(Request),
    /// Write the state to disk and report how that went.
    Persist,
    /// Go on: the client is authenticated.
    Ready,
    /// Give up: without a key nothing can be done.
    Fail(AdapterError),
    /// The report does not answer what was asked; nothing has changed.
    OutOfTurn,
}

/// The acquisition of the API key, step by step.
#[derive(Debug, Clone, Copy, PartialEq, Eq, Structural)]
pub struct Authentication {
    pub phase: AuthPhase,
}

/// The complaint about a bootstrap key file that could not be read.
pub open spec fn unreadable_key_message(path: Seq<char>, why: Seq<char>) -> Seq<char> {
    "Failed to read bootstrap API key from "@ + path + ": "@ + why
}

/// Ensure the client is authenticated with a valid API key.
///
/// If a permanent API key is stored in state, the client takes it and is
/// ready: no key is exchanged. Otherwise the bootstrap key is asked for.
pub fn ensure_authenticated(client: &mut HomarrClient, state: &State) -> (r: (
    Authentication,
    AuthAction,
))
    ensures
        final(client).base_url == old(client).base_url,
        match state.api_key {
            Some(key) => {
                &&& final(client).api_key == Some(key)
                &&& r.0.phase == AuthPhase::Ready
                &&& r.1 is Ready
            },
            None => {
                &&& final(client).api_key == old(client).api_key
                &&& r.0.phase == AuthPhase::AwaitKeyFile
                &&& r.1 is ReadBootstrapKey
            },
        },
{
    match &state.api_key {
        Some(key) => {
            client.set_api_key(key.clone());
            (Authentication { phase: AuthPhase::Ready }, AuthAction::Ready)
        },
        None => (Authentication { phase: AuthPhase::AwaitKeyFile }, AuthAction::ReadBootstrapKey),
    }
}

impl Authentication {
    /// Takes the contents of the bootstrap key file at `path`, or the reason
    /// why it could not be read.
    ///
    /// The key is what the file holds between the white space at its ends.
    /// A file that cannot be read, or holds no key, is a `Config` error.
    pub fn on_key_file(&mut self, client: &HomarrClient, path: &str, contents: Result<String, String>) -> (action:
        AuthAction)
        ensures
            if old(self).phase != AuthPhase::AwaitKeyFile {
                action is OutOfTurn && *final(self) == *old(self)
            } else {
                match contents {
                    Err(why) => {
                        &&& final(self).phase == AuthPhase::Failed
                        &&& action matches AuthAction::Fail(AdapterError::Config(m))
                        &&& m@ == unreadable_key_message(path@, why@)
                    },
                    Ok(text) => if trimmed(text@).len() == 0 {
                        &&& final(self).phase == AuthPhase::Failed
                        &&& action matches AuthAction::Fail(AdapterError::Config(m))
                        &&& m@ == "Bootstrap API key file is empty"@
                    } else {
                        &&& final(self).phase == AuthPhase::AwaitRotation
                        &&& action matches AuthAction::Rotate(request)
                        &&& request.method == Method::Post
                        &&& request.url@ == client.base_url@ + "/api/trpc/apiKeys.create"@
                        &&& opt_text(request.api_key) == Some(trimmed(text@))
                        &&& request.body == Body::Json(Payload::Nothing)
                    },
                }
            },
    {
        if self.phase != AuthPhase::AwaitKeyFile {
            return AuthAction::OutOfTurn;
        }
        match contents {
            Err(why) => {
                let mut m = concat("Failed to read bootstrap API key from ", path);
                m.append(": ");
                m.append(why.as_str());
                self.phase = AuthPhase::Failed;
                AuthAction::Fail(AdapterError::Config(m))
            },
            Ok(text) => {
                let key = trim(text.as_str());
                if key.as_str().is_empty() {
                    self.phase = AuthPhase::Failed;
                    AuthAction::Fail(
                        AdapterError::Config("Bootstrap API key file is empty".to_owned()),
                    )
                } else {
                    self.phase = AuthPhase::AwaitRotation;
                    AuthAction::Rotate(client.rotate_api_key_request(key.as_str()))
                }
            },
        }
    }

    /// Takes the answer to the exchange of the bootstrap key.
    ///
    /// The permanent key goes into the state and into the client, and the
    /// state is to be written out before anything else is done. A refusal
    /// is `AuthRejected` and ends the attempt.
    pub fn on_rotated(&mut self, client: &mut HomarrClient, state: &mut State, reply: Reply<String>) -> (action:
        AuthAction)
        ensures
            final(client).base_url == old(client).base_url,
            final(state).same_but_key(*old(state)),
            if old(self).phase != AuthPhase::AwaitRotation {
                &&& action is OutOfTurn
                &&& *final(self) == *old(self)
                &&& final(state).api_key == old(state).api_key
                &&& final(client).api_key == old(client).api_key
            } else {
                match reply {
                    Reply::Answer { status, decoded: Ok(key), .. } if success(status) => {
                        &&& final(self).phase == AuthPhase::AwaitPersist
                        &&& action is Persist
                        &&& final(state).api_key == Some(key)
                        &&& final(client).api_key == Some(key)
                    },
                    _ => {
                        &&& final(self).phase == AuthPhase::Failed
                        &&& final(state).api_key == old(state).api_key
                        &&& final(client).api_key == old(client).api_key
                        &&& action matches AuthAction::Fail(e)
                        &&& rotation_failure(reply, e)
                    },
                }
            },
    {
        if self.phase != AuthPhase::AwaitRotation {
            return AuthAction::OutOfTurn;
        }
        match client.rotate_api_key(reply) {
            Ok(key) => {
                state.api_key = Some(key.clone());
                client.set_api_key(key);
                self.phase = AuthPhase::AwaitPersist;
                AuthAction::Persist
            },
            Err(e) => {
                self.phase = AuthPhase::Failed;
                AuthAction::Fail(e)
            },
        }
    }

    /// Takes the outcome of writing the state out. Only a key that is on
    /// file is used.
    pub fn on_persisted(&mut self, outcome: Result<(), AdapterError>) -> (action: AuthAction)
        ensures
            if old(self).phase != AuthPhase::AwaitPersist {
                action is OutOfTurn && *final(self) == *old(self)
            } else {
                match outcome {
                    Ok(_) => final(self).phase == AuthPhase::Ready && action is Ready,
                    Err(e) => final(self).phase == AuthPhase::Failed && action
                        == AuthAction::Fail(e),
                }
            },
    {
        if self.phase != AuthPhase::AwaitPersist {
            return AuthAction::OutOfTurn;
        }
        match outcome {
            Ok(_) => {
                self.phase = AuthPhase::Ready;
                AuthAction::Ready
            },
            Err(e) => {
                self.phase = AuthPhase::Failed;
                AuthAction::Fail(e)
            },
        }
    }
}

/// The error that a failed exchange of the bootstrap key ends in.
pub open spec fn rotation_failure(reply: Reply<String>, e: AdapterError) -> bool {
    match reply {
        Reply::Failed(why) => e == AdapterError::Http(why),
        Reply::Answer { status, text, decoded } => if !success(status) {
            e == AdapterError::AuthRejected(text)
        } else {
            decoded matches Err(why) && e == AdapterError::Json(why)
        },
    }
}

impl State {
    /// Everything but the API key is the same in `self` and `other`.
    pub open spec fn same_but_key(self, other: State) -> bool {
        &&& self.version == other.version
        &&& self.first_boot_completed == other.first_boot_completed
        &&& self.authelia_sync_completed == other.authelia_sync_completed
        &&& self.removed_apps_by_board@ == other.removed_apps_by_board@
        &&& self.last_sync == other.last_sync
        &&& self.discovered_apps@ == other.discovered_apps@
    }
}

} // verus!

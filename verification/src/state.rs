//! What all requests share.

use std::sync::Arc;

use vstd::prelude::*;

use crate::db::SqliteDb;
use crate::settings::CheckpointMode;

verus! {

/// What all requests share.
#[derive(Debug)]
pub struct AppState {
    pub db: Arc<SqliteDb>,
    /// The bearer token that every request must carry. `None`: requests are
    /// served without one.
    pub auth_token: Option<String>,
    /// The most bytes that the body of a statement request may have. `None`: any
    /// number.
    pub max_body_bytes: Option<usize>,
    /// The checkpoint that follows a statement which leaves durable work.
    pub checkpoint_mode: CheckpointMode,
}

/// What an [`AppState`] stands for.
pub ghost struct StateView {
    pub db: crate::db::DbView,
    pub auth_token: Option<Seq<char>>,
    pub max_body_bytes: Option<usize>,
    pub checkpoint_mode: CheckpointMode,
}

impl View for AppState {
    type V = StateView;

    open spec fn view(&self) -> StateView {
        StateView {
            db: self.db@,
            auth_token: crate::settings::optional_text(self.auth_token),
            max_body_bytes: self.max_body_bytes,
            checkpoint_mode: self.checkpoint_mode,
        }
    }
}

impl Clone for AppState {
    fn clone(&self) -> (copy: Self)
        ensures
            copy@ == self@,
    {
        let auth_token = match &self.auth_token {
            Some(token) => Some(token.clone()),
            None => None,
        };
        AppState {
            db: self.db.clone(),
            auth_token,
            max_body_bytes: self.max_body_bytes,
            checkpoint_mode: self.checkpoint_mode,
        }
    }
}

impl AppState {
    /// No cap on the body, and the checkpoint that is safe everywhere.
    pub fn new(db: Arc<SqliteDb>, auth_token: Option<String>) -> (state: Self)
        ensures
            state@ == (StateView {
                db: db@,
                auth_token: crate::settings::optional_text(auth_token),
                max_body_bytes: None,
                checkpoint_mode: CheckpointMode::Truncate,
            }),
    {
        AppState { db, auth_token, max_body_bytes: None, checkpoint_mode: CheckpointMode::Truncate }
    }

    /// This state with another cap on the body.
    pub fn with_max_body_bytes(self, max: Option<usize>) -> (state: Self)
        ensures
            state@ == (StateView { max_body_bytes: max, ..self@ }),
    {
        AppState {
            db: self.db,
            auth_token: self.auth_token,
            max_body_bytes: max,
            checkpoint_mode: self.checkpoint_mode,
        }
    }

    /// This state with another checkpoint.
    pub fn with_checkpoint_mode(self, mode: CheckpointMode) -> (state: Self)
        ensures
            state@ == (StateView { checkpoint_mode: mode, ..self@ }),
    {
        AppState {
            db: self.db,
            auth_token: self.auth_token,
            max_body_bytes: self.max_body_bytes,
            checkpoint_mode: mode,
        }
    }
}

/// The view leaves nothing out.
pub proof fn law_view_of_the_state(state: AppState)
    ensures
        state@.db == state.db@,
        match state.auth_token {
            Some(token) => state@.auth_token == Some(token@),
            None => state@.auth_token is None,
        },
        state@.max_body_bytes == state.max_body_bytes,
        state@.checkpoint_mode == state.checkpoint_mode,
{
}

/// A new state has no cap on the body and the checkpoint that is safe everywhere;
/// each setting of it changes alone.
pub proof fn law_building_a_state(
    db: Arc<SqliteDb>,
    auth_token: Option<String>,
    state: AppState,
    max: Option<usize>,
    mode: CheckpointMode,
    made: AppState,
)
    ensures
        call_ensures(AppState::new, (db, auth_token), made) ==> {
            &&& made@.db == db@
            &&& match auth_token {
                Some(token) => made@.auth_token == Some(token@),
                None => made@.auth_token is None,
            }
            &&& made@.max_body_bytes is None
            &&& made@.checkpoint_mode is Truncate
        },
        call_ensures(AppState::with_max_body_bytes, (state, max), made) ==> {
            &&& made@.db == state@.db
            &&& made@.auth_token == state@.auth_token
            &&& made@.max_body_bytes == max
            &&& made@.checkpoint_mode == state@.checkpoint_mode
        },
        call_ensures(AppState::with_checkpoint_mode, (state, mode), made) ==> {
            &&& made@.db == state@.db
            &&& made@.auth_token == state@.auth_token
            &&& made@.max_body_bytes == state@.max_body_bytes
            &&& made@.checkpoint_mode == mode
        },
{
}

} // verus!

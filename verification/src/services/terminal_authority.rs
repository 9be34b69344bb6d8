//! The authority that one Terminal session was opened with. It never changes.
use vstd::prelude::*;

use crate::error::{AppError, AppResult};
use crate::operations::PinnedConnection;
use crate::text::{text_equals, Text};

verus! {

/// The scope and the connection that a Terminal session was opened on.
#[derive(PartialEq, Eq)]
pub struct TerminalAuthority {
    pub terminal_session_id: u128,
    pub workspace_id: u128,
    pub account_scope: String,
    pub connection_id: u128,
    pub connection_revision: i64,
    pub client_protocol_version: u16,
}

impl TerminalAuthority {
    /// Whether `pin` is the connection, at the revision and in the scope, that the
    /// session was opened on.
    pub open spec fn covers(self, pin: PinnedConnection) -> bool {
        &&& pin.scope.workspace_id == self.workspace_id
        &&& pin.scope.account_scope.key()@ == self.account_scope@
        &&& pin.connection_id == self.connection_id
        &&& pin.connection_revision == self.connection_revision
    }

    /// Refuses a pin that the session was not opened on.
    pub fn ensure_pin(&self, pin: &PinnedConnection) -> (r: AppResult<()>)
        ensures
            r == if self.covers(*pin) {
                Ok::<(), AppError>(())
            } else {
                Err(
                    AppError::Blocked {
                        reason: Text::Plain("Terminal connection authority is no longer current"),
                    },
                )
            },
    {
        let matches = pin.scope.workspace_id == self.workspace_id && text_equals(
            &pin.scope.account_scope.storage_key(),
            self.account_scope.as_str(),
        ) && pin.connection_id == self.connection_id && pin.connection_revision
            == self.connection_revision;
        if matches {
            Ok(())
        } else {
            Err(
                AppError::Blocked {
                    reason: Text::Plain("Terminal connection authority is no longer current"),
                },
            )
        }
    }
}

} // verus!

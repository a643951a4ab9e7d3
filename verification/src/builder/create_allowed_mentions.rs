//! Which mentions in a message may notify.

use vstd::prelude::*;
use crate::model::id::{RoleId, UserId};

verus! {

/// Which mentions in a message may notify those they name.
#[derive(Clone, Debug, PartialEq, Eq)]
pub struct CreateAllowedMentions {
    /// Whether mentions of everyone notify.
    pub everyone: bool,
    /// The users whose mentions notify.
    pub users: Vec<UserId>,
    /// The roles whose mentions notify.
    pub roles: Vec<RoleId>,
    /// Whether a reply notifies the author of the message it answers.
    pub replied_user: Option<bool>,
}

impl CreateAllowedMentions {
    /// No mention notifies.
    pub fn new() -> (r: Self)
        ensures
            !r.everyone,
            r.users@.len() == 0,
            r.roles@.len() == 0,
            r.replied_user is None,
    {
        CreateAllowedMentions {
            everyone: false,
            users: Vec::new(),
            roles: Vec::new(),
            replied_user: None,
        }
    }
}

} // verus!

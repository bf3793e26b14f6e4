//! The state that the core itself owns: the server's settings, the room
//! locks and the authentication sessions.

use vstd::prelude::*;
use crate::serializer::RoomMutationSerializer;
use crate::uiaa::{AuthType, Uiaa, UiaaView};

verus! {

/// The server's settings and its room locks.
pub struct Globals {
    pub server_name: String,
    pub allow_registration: bool,
    pub roomid_mutex_state: RoomMutationSerializer,
}

/// Everything the account operations share. A host that runs operations side
/// by side lets each step have it to itself.
pub struct Database {
    pub globals: Globals,
    pub uiaa: Uiaa,
}

/// The mathematical value of a [`Database`].
pub struct DatabaseView {
    pub server_name: Seq<char>,
    pub allow_registration: bool,
    /// The rooms that have a lock, each with whether its guard is out.
    pub locks: Map<Seq<char>, bool>,
    pub uiaa: UiaaView,
}

impl View for Database {
    type V = DatabaseView;

    open spec fn view(&self) -> DatabaseView {
        DatabaseView {
            server_name: self.globals.server_name@,
            allow_registration: self.globals.allow_registration,
            locks: self.globals.roomid_mutex_state@,
            uiaa: self.uiaa@,
        }
    }
}

impl Database {
    /// The invariants of the locks and of the session store.
    pub open spec fn wf(&self) -> bool {
        self.globals.roomid_mutex_state.wf() && self.uiaa.wf()
    }

    /// The state of a server that has just started: no lock, no session.
    pub fn new(server_name: &str, allow_registration: bool, verifiers: Vec<AuthType>) -> (res:
        Database)
        ensures
            res.wf(),
            res@.server_name == server_name@,
            res@.allow_registration == allow_registration,
            res@.locks == Map::<Seq<char>, bool>::empty(),
            res@.uiaa.sessions == Map::<Seq<char>, crate::uiaa::SessionView>::empty(),
            res@.uiaa.verifiers == verifiers@.to_set(),
    {
        Database {
            globals: Globals {
                server_name: server_name.to_owned(),
                allow_registration,
                roomid_mutex_state: RoomMutationSerializer::new(),
            },
            uiaa: Uiaa::new(verifiers),
        }
    }
}

} // verus!

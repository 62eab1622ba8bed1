use vstd::prelude::*;

verus! {

/// A client-originated message as the transport hands it on: which game and
/// user it came from, and the raw payload.
pub struct WsClientMessage {
    pub game_id: String,
    pub user_id: String,
    pub payload: String,
}

/// A message passed between the process's own tasks.
pub struct WsInternalMessage {
    pub payload: String,
}

} // verus!

use vstd::prelude::*;

verus! {

/// The kind of a room command, as carried on the command channel and echoed
/// on the broadcast channel.
#[derive(Clone, Copy, Debug, PartialEq, Eq, Structural)]
pub enum Method {
    Send,
    Leave,
    Join,
    Close,
}

/// One command flowing from a connection adapter into a room actor, or
/// echoed outward to every subscriber of the room's broadcast endpoint.
///
/// `Join` and `Leave` carry the user who entered or left; `Send` carries the
/// sender, the room and the message text; `Close` carries nothing.
#[derive(Clone, Debug)]
pub struct RoomCommand {
    pub method: Method,
    pub room_id: Option<String>,
    pub user_id: Option<i32>,
    pub user: Option<String>,
    pub message: Option<String>,
}

impl RoomCommand {
    /// The fields that each command kind promises to carry.
    pub open spec fn wf(self) -> bool {
        match self.method {
            Method::Join => self.user is Some,
            Method::Leave => self.user is Some,
            Method::Send => self.user is Some && self.message is Some,
            Method::Close => true,
        }
    }

    /// A presence notice: `user` entered the room.
    pub fn join(user: String) -> (r: RoomCommand)
        ensures
            r == (RoomCommand {
                method: Method::Join,
                room_id: None,
                user_id: None,
                user: Some(user),
                message: None,
            }),
            r.wf(),
    {
        RoomCommand {
            method: Method::Join,
            room_id: None,
            user_id: None,
            user: Some(user),
            message: None,
        }
    }

    /// A chat message from `user` to the room `room_id`.
    pub fn send(user_id: i32, user: String, room_id: String, message: String) -> (r: RoomCommand)
        ensures
            r == (RoomCommand {
                method: Method::Send,
                room_id: Some(room_id),
                user_id: Some(user_id),
                user: Some(user),
                message: Some(message),
            }),
            r.wf(),
    {
        RoomCommand {
            method: Method::Send,
            room_id: Some(room_id),
            user_id: Some(user_id),
            user: Some(user),
            message: Some(message),
        }
    }

    /// A presence notice: `user` left the room.
    pub fn leave(user: String) -> (r: RoomCommand)
        ensures
            r == (RoomCommand {
                method: Method::Leave,
                room_id: None,
                user_id: None,
                user: Some(user),
                message: None,
            }),
            r.wf(),
    {
        RoomCommand {
            method: Method::Leave,
            room_id: None,
            user_id: None,
            user: Some(user),
            message: None,
        }
    }

    /// The control-plane sentinel that tells every consumer to shut down.
    pub fn close() -> (r: RoomCommand)
        ensures
            r == (RoomCommand {
                method: Method::Close,
                room_id: None,
                user_id: None,
                user: None,
                message: None,
            }),
            r.wf(),
    {
        RoomCommand {
            method: Method::Close,
            room_id: None,
            user_id: None,
            user: None,
            message: None,
        }
    }

    /// A field-by-field copy whose value Verus knows equals the original,
    /// which a derived `Clone` would not give.
    pub fn duplicate(&self) -> (r: RoomCommand)
        ensures
            r == *self,
    {
        RoomCommand {
            method: self.method,
            room_id: clone_opt_string(&self.room_id),
            user_id: clone_opt_i32(&self.user_id),
            user: clone_opt_string(&self.user),
            message: clone_opt_string(&self.message),
        }
    }
}

fn clone_opt_string(s: &Option<String>) -> (r: Option<String>)
    ensures
        r == *s,
{
    match s {
        Some(x) => Some(x.clone()),
        None => None,
    }
}

fn clone_opt_i32(s: &Option<i32>) -> (r: Option<i32>)
    ensures
        r == *s,
{
    match s {
        Some(x) => Some(*x),
        None => None,
    }
}

} // verus!

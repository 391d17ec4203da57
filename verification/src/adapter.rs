use vstd::prelude::*;

verus! {

use crate::frame::StreamCommand;
use crate::frame::StreamMethod;
use crate::frame::join_notice;
use crate::frame::json_frame;
use crate::frame::leave_notice;
use crate::room_command::Method;
use crate::room_command::RoomCommand;

/// What the broadcast-drain activity of one connection does with one
/// envelope received from its room.
#[derive(Clone, Debug)]
pub enum OutboundStep {
    /// Write this JSON text frame to the connection's outbound half.
    Write(String),
    /// The room closed: stop draining and terminate the connection
    /// cleanly.
    Stop,
}

/// Translate one broadcast envelope into the frame this connection must
/// write, or into the order to shut down. `self_user` is the connection's
/// authenticated identity; a `Send` envelope is marked `is_self` exactly
/// when it originated from that identity.
pub fn outbound_frame(cmd: &RoomCommand, self_user: &str) -> (r: OutboundStep)
    requires
        cmd.wf(),
    ensures
        cmd.method == Method::Close ==> (r matches OutboundStep::Stop),
        cmd.method == Method::Join ==> (cmd.user matches Some(u) && (r matches OutboundStep::Write(
            s,
        ) && s@ == json_frame(StreamMethod::Join, join_notice(u@), "System"@, false))),
        cmd.method == Method::Leave ==> (cmd.user matches Some(u) && (
        r matches OutboundStep::Write(s) && s@ == json_frame(
            StreamMethod::Leave,
            leave_notice(u@),
            "System"@,
            false,
        ))),
        cmd.method == Method::Send ==> (cmd.user matches Some(u) && (cmd.message matches Some(m)
            && (r matches OutboundStep::Write(s) && s@ == json_frame(
            StreamMethod::Send,
            m@,
            u@,
            u@ == self_user@,
        )))),
    {
    match cmd.method {
        Method::Close => OutboundStep::Stop,
        Method::Join => {
            match &cmd.user {
                Some(u) => OutboundStep::Write(StreamCommand::join(u.clone())),
                None => {
                    proof {
                        assert(false);
                    }
                    OutboundStep::Stop
                },
            }
        },
        Method::Leave => {
            match &cmd.user {
                Some(u) => OutboundStep::Write(StreamCommand::leave(u.clone())),
                None => {
                    proof {
                        assert(false);
                    }
                    OutboundStep::Stop
                },
            }
        },
        Method::Send => {
            match (&cmd.user, &cmd.message) {
                (Some(u), Some(m)) => {
                    let me: String = self_user.to_owned();
                    if *u == me {
                        OutboundStep::Write(StreamCommand::send_by_self(u.clone(), m.clone()))
                    } else {
                        OutboundStep::Write(StreamCommand::send_by_others(u.clone(), m.clone()))
                    }
                },
                _ => {
                    proof {
                        assert(false);
                    }
                    OutboundStep::Stop
                },
            }
        },
    }
}

/// Translate one parsed inbound frame into the room command to push on the
/// command channel, stamped with this connection's authenticated identity
/// and room. An inbound `Leave` frame is ignored (departure is signalled
/// by the read loop ending, not by a frame).
pub fn inbound_command(
    method: StreamMethod,
    message: String,
    user_id: i32,
    username: &str,
    room_id: &str,
) -> (r: Option<RoomCommand>)
    ensures
        method == StreamMethod::Join ==> (r matches Some(c) && c.method == Method::Join && (
        c.user matches Some(u) && u@ == username@) && c.room_id is None && c.user_id is None
            && c.message is None),
        method == StreamMethod::Send ==> (r matches Some(c) && c.method == Method::Send && (
        c.user matches Some(u) && u@ == username@) && (c.room_id matches Some(i) && i@ == room_id@)
            && c.user_id == Some(user_id) && (c.message matches Some(m) && m@ == message@)),
        method == StreamMethod::Leave ==> r is None,
        r matches Some(c) ==> c.wf(),
{
    match method {
        StreamMethod::Join => Some(RoomCommand::join(username.to_owned())),
        StreamMethod::Send => Some(
            RoomCommand::send(user_id, username.to_owned(), room_id.to_owned(), message),
        ),
        StreamMethod::Leave => None,
    }
}

/// The command the read loop emits unconditionally when it ends — on a
/// clean close frame and on an abrupt transport failure alike — so the
/// room and its members observe the departure either way.
pub fn disconnect_command(username: &str) -> (r: RoomCommand)
    ensures
        r.method == Method::Leave,
        (r.user matches Some(u) && u@ == username@),
        r.room_id is None && r.user_id is None && r.message is None,
        r.wf(),
{
    RoomCommand::leave(username.to_owned())
}

} // verus!

use vstd::prelude::*;

verus! {

use crate::room_command::RoomCommand;

/// Whether a text is accepted as a UUID by the parser of the `uuid`
/// crate; a function of the characters alone.
pub uninterp spec fn uuid_accepts(s: Seq<char>) -> bool;

/// Relies on `uuid::Uuid::try_parse`: acceptance of a UUID text depends
/// on its characters alone.
#[verifier::external_body]
fn is_uuid_text(s: &str) -> (r: bool)
    ensures
        r == uuid_accepts(s@),
{
    uuid::Uuid::try_parse(s).is_ok()
}

/// What the message-persistence sink writes for one command, if anything:
/// the room, the author and the text, taken only when all three are
/// carried and the room id is a well-formed UUID. A command the sink
/// cannot store is skipped, never a failure.
pub fn message_row(cmd: &RoomCommand) -> (r: Option<(String, i32, String)>)
    ensures
        (match r {
            Some(row) => (cmd.room_id matches Some(id) && row.0 == id && uuid_accepts(id@)) && (
            cmd.user_id == Some(row.1)) && (cmd.message matches Some(m) && row.2 == m),
            None => cmd.room_id is None || cmd.user_id is None || cmd.message is None || (
            cmd.room_id matches Some(id) && !uuid_accepts(id@)),
        }),
{
    match (&cmd.room_id, &cmd.user_id, &cmd.message) {
        (Some(id), Some(uid), Some(m)) => {
            if is_uuid_text(id.as_str()) {
                Some((id.clone(), *uid, m.clone()))
            } else {
                None
            }
        },
        _ => None,
    }
}

} // verus!

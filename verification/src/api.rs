use vstd::prelude::*;

verus! {

use vstd::string::StringExecFns;

/// The JSON envelope every API endpoint answers with.
#[derive(Clone, Debug)]
pub struct ApiResponse<T> {
    pub status: String,
    pub code: String,
    pub message: String,
    pub data: Option<T>,
}

impl<T> ApiResponse<T> {
    pub fn success(msg: &str) -> (r: ApiResponse<T>)
        ensures
            r.status@ == "success"@,
            r.code@ == "ok"@,
            r.message@ == msg@,
            r.data is None,
    {
        ApiResponse {
            status: "success".to_owned(),
            code: "ok".to_owned(),
            message: msg.to_owned(),
            data: None,
        }
    }

    pub fn success_with_data(msg: &str, data: T) -> (r: ApiResponse<T>)
        ensures
            r.status@ == "success"@,
            r.code@ == "ok"@,
            r.message@ == msg@,
            r.data == Some(data),
    {
        ApiResponse {
            status: "success".to_owned(),
            code: "ok".to_owned(),
            message: msg.to_owned(),
            data: Some(data),
        }
    }

    pub fn error(code: &str, msg: &str) -> (r: ApiResponse<T>)
        ensures
            r.status@ == "error"@,
            r.code@ == code@,
            r.message@ == msg@,
            r.data is None,
    {
        ApiResponse {
            status: "error".to_owned(),
            code: code.to_owned(),
            message: msg.to_owned(),
            data: None,
        }
    }

    pub fn unauthorized() -> (r: ApiResponse<T>)
        ensures
            r.status@ == "error"@,
            r.code@ == "UNAUTHORZIED"@,
            r.message@ == "Unauthorized operation"@,
            r.data is None,
    {
        ApiResponse {
            status: "error".to_owned(),
            code: "UNAUTHORZIED".to_owned(),
            message: "Unauthorized operation".to_owned(),
            data: None,
        }
    }
}

/// One row of the read-only room listing, served from the durable store.
#[derive(Clone, Debug)]
pub struct Room {
    pub room_id: String,
    pub room_name: String,
}

impl Room {
    pub fn new(room_id: String, room_name: String) -> (r: Room)
        ensures
            r.room_id == room_id,
            r.room_name == room_name,
    {
        Room { room_id, room_name }
    }
}

/// The credentials a signup or login request carries.
#[derive(Clone, Debug)]
pub struct Account {
    pub account: String,
    pub password: String,
}

/// The `Set-Cookie` value that hands a fresh session token to the client.
pub fn session_cookie_value(session_id: &str) -> (r: String)
    ensures
        r@ == "session_id="@ + session_id@ + "; HttpOnly; Path=/; Secure"@,
{
    let mut out: String = "session_id=".to_owned();
    out.append(session_id);
    out.append("; HttpOnly; Path=/; Secure");
    proof {
        assert(out@ =~= "session_id="@ + session_id@ + "; HttpOnly; Path=/; Secure"@);
    }
    out
}

} // verus!

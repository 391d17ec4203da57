use vstd::prelude::*;

verus! {

use crate::api::ApiResponse;
use crate::api::Room;
use crate::session::Session;
use crate::session::SessionManager;
use crate::session::validate_spec;

/// A refused request: the HTTP status to answer with and the error
/// envelope to carry.
#[derive(Clone, Debug)]
pub struct Rejection {
    pub status: u16,
    pub body: ApiResponse<()>,
}

/// The rejection every protected endpoint answers when the presented
/// session is absent from the registry or expired.
pub open spec fn unauthorized_rejection(r: Rejection) -> bool {
    r.status == 401 && r.body.status@ == "error"@ && r.body.code@ == "UNAUTHORZIED"@
        && r.body.message@ == "Unauthorized operation"@ && r.body.data is None
}

/// The rejection for a request that carries no session cookie at all, on
/// the endpoints that distinguish that case.
pub open spec fn missing_session_rejection(r: Rejection) -> bool {
    r.status == 401 && r.body.status@ == "error"@ && r.body.code@ == "Unauthorized"@
        && r.body.message@ == "Invalid Session ID Header"@ && r.body.data is None
}

/// The rejection for a request missing a required query parameter.
pub open spec fn missing_param_rejection(r: Rejection, msg: Seq<char>) -> bool {
    r.status == 400 && r.body.status@ == "error"@ && r.body.code@ == "BAD_REQUEST"@
        && r.body.message@ == msg && r.body.data is None
}

/// Authorization check: the body behind the `auth` endpoint. Validates
/// the presented token (extending its expiry on success, the sliding
/// window) and answers the proper envelope for each outcome.
pub fn auth(sm: &mut SessionManager, session_cookie: Option<&str>, now: u64) -> (r: Result<
    ApiResponse<()>,
    Rejection,
>)
    requires
        old(sm).wf(),
        now + old(sm).window() <= u64::MAX,
    ensures
        final(sm).wf(),
        final(sm).window() == old(sm).window(),
        (match session_cookie {
            None => ((r matches Err(e) && missing_session_rejection(e)) && final(sm)@ == old(
                sm,
            )@),
            Some(t) => (match validate_spec(old(sm)@, t@, now) {
                Some(uid) => ((r matches Ok(a) && a.status@ == "success"@ && a.code@ == "ok"@
                    && a.message@ == "Authorized"@ && a.data is None) && final(sm)@ == old(
                    sm,
                )@.insert(
                    t@,
                    Session { user_id: uid, expiration: (now + old(sm).window()) as u64 },
                )),
                None => ((r matches Err(e) && unauthorized_rejection(e)) && final(sm)@ == old(
                    sm,
                )@),
            }),
        }),
{
    match session_cookie {
        Some(t) => {
            match sm.check_session(t, now) {
                Some(_) => Ok(ApiResponse::success("Authorized")),
                None => Err(Rejection { status: 401, body: ApiResponse::unauthorized() }),
            }
        },
        None => Err(
            Rejection {
                status: 401,
                body: ApiResponse::error("Unauthorized", "Invalid Session ID Header"),
            },
        ),
    }
}

/// Logout: drop the presented session unconditionally; a request without
/// a cookie is refused as unauthorized.
pub fn logout(sm: &mut SessionManager, session_cookie: Option<&str>) -> (r: Result<
    ApiResponse<()>,
    Rejection,
>)
    requires
        old(sm).wf(),
    ensures
        final(sm).wf(),
        final(sm).window() == old(sm).window(),
        (match session_cookie {
            None => ((r matches Err(e) && unauthorized_rejection(e)) && final(sm)@ == old(sm)@),
            Some(t) => ((r matches Ok(a) && a.status@ == "success"@ && a.code@ == "ok"@
                && a.message@ == "Logout"@ && a.data is None) && final(sm)@ == old(sm)@.remove(
                t@,
            )),
        }),
{
    match session_cookie {
        Some(t) => {
            sm.delete_session(t);
            Ok(ApiResponse::success("Logout"))
        },
        None => Err(Rejection { status: 401, body: ApiResponse::unauthorized() }),
    }
}

/// The guard in front of room creation: the session must validate (which
/// extends it) and the `room_name` query parameter must be present;
/// authorization is checked first, before any other failure is reported.
/// On success the caller proceeds to create the room for the returned
/// principal.
pub fn create_room_guard(
    sm: &mut SessionManager,
    session_cookie: Option<&str>,
    room_name: Option<&str>,
    now: u64,
) -> (r: Result<(i32, String), Rejection>)
    requires
        old(sm).wf(),
        now + old(sm).window() <= u64::MAX,
    ensures
        final(sm).wf(),
        final(sm).window() == old(sm).window(),
        (match session_cookie {
            None => ((r matches Err(e) && unauthorized_rejection(e)) && final(sm)@ == old(sm)@),
            Some(t) => (match validate_spec(old(sm)@, t@, now) {
                Some(uid) => (match room_name {
                    None => ((r matches Err(e) && missing_param_rejection(
                        e,
                        "Missing required query parameter: room_name"@,
                    )) && final(sm)@ == old(sm)@.insert(
                        t@,
                        Session { user_id: uid, expiration: (now + old(sm).window()) as u64 },
                    )),
                    Some(n) => ((r matches Ok(ok) && ok.0 == uid && ok.1@ == n@) && final(sm)@
                        == old(sm)@.insert(
                        t@,
                        Session { user_id: uid, expiration: (now + old(sm).window()) as u64 },
                    )),
                }),
                None => ((r matches Err(e) && unauthorized_rejection(e)) && final(sm)@ == old(
                    sm,
                )@),
            }),
        }),
{
    let user = match session_cookie {
        Some(t) => sm.check_session(t, now),
        None => None,
    };
    match user {
        None => Err(Rejection { status: 401, body: ApiResponse::unauthorized() }),
        Some(uid) => {
            match room_name {
                Some(n) => Ok((uid, n.to_owned())),
                None => Err(
                    Rejection {
                        status: 400,
                        body: ApiResponse::error(
                            "BAD_REQUEST",
                            "Missing required query parameter: room_name",
                        ),
                    },
                ),
            }
        },
    }
}

/// The guard in front of joining a room: like `create_room_guard`, with the
/// `room_id` query parameter. Whether that room is alive is a separate
/// question, answered by the room registry afterwards.
pub fn join_room_guard(
    sm: &mut SessionManager,
    session_cookie: Option<&str>,
    room_id: Option<&str>,
    now: u64,
) -> (r: Result<(i32, String), Rejection>)
    requires
        old(sm).wf(),
        now + old(sm).window() <= u64::MAX,
    ensures
        final(sm).wf(),
        final(sm).window() == old(sm).window(),
        (match session_cookie {
            None => ((r matches Err(e) && unauthorized_rejection(e)) && final(sm)@ == old(sm)@),
            Some(t) => (match validate_spec(old(sm)@, t@, now) {
                Some(uid) => (match room_id {
                    None => ((r matches Err(e) && missing_param_rejection(
                        e,
                        "Missing required query parameter: room_id"@,
                    )) && final(sm)@ == old(sm)@.insert(
                        t@,
                        Session { user_id: uid, expiration: (now + old(sm).window()) as u64 },
                    )),
                    Some(n) => ((r matches Ok(ok) && ok.0 == uid && ok.1@ == n@) && final(sm)@
                        == old(sm)@.insert(
                        t@,
                        Session { user_id: uid, expiration: (now + old(sm).window()) as u64 },
                    )),
                }),
                None => ((r matches Err(e) && unauthorized_rejection(e)) && final(sm)@ == old(
                    sm,
                )@),
            }),
        }),
{
    let user = match session_cookie {
        Some(t) => sm.check_session(t, now),
        None => None,
    };
    match user {
        None => Err(Rejection { status: 401, body: ApiResponse::unauthorized() }),
        Some(uid) => {
            match room_id {
                Some(n) => Ok((uid, n.to_owned())),
                None => Err(
                    Rejection {
                        status: 400,
                        body: ApiResponse::error(
                            "BAD_REQUEST",
                            "Missing required query parameter: room_id",
                        ),
                    },
                ),
            }
        },
    }
}

/// The guard in front of the room listing: the caller must be authorized;
/// a request without a cookie gets the distinct missing-header answer.
pub fn rooms_guard(sm: &mut SessionManager, session_cookie: Option<&str>, now: u64) -> (r: Result<
    i32,
    Rejection,
>)
    requires
        old(sm).wf(),
        now + old(sm).window() <= u64::MAX,
    ensures
        final(sm).wf(),
        final(sm).window() == old(sm).window(),
        (match session_cookie {
            None => ((r matches Err(e) && missing_session_rejection(e)) && final(sm)@ == old(
                sm,
            )@),
            Some(t) => (match validate_spec(old(sm)@, t@, now) {
                Some(uid) => (r == Ok::<i32, Rejection>(uid) && final(sm)@ == old(sm)@.insert(
                    t@,
                    Session { user_id: uid, expiration: (now + old(sm).window()) as u64 },
                )),
                None => ((r matches Err(e) && unauthorized_rejection(e)) && final(sm)@ == old(
                    sm,
                )@),
            }),
        }),
{
    match session_cookie {
        Some(t) => {
            match sm.check_session(t, now) {
                Some(uid) => Ok(uid),
                None => Err(Rejection { status: 401, body: ApiResponse::unauthorized() }),
            }
        },
        None => Err(
            Rejection {
                status: 401,
                body: ApiResponse::error("Unauthorized", "Invalid Session ID Header"),
            },
        ),
    }
}

/// The answer for a join of a room id that is not alive: distinct from an
/// authorization failure, so the client can say "room closed" instead of
/// retrying.
pub fn room_not_alive_rejection() -> (r: Rejection)
    ensures
        r.status == 400,
        r.body.status@ == "error"@,
        r.body.code@ == "BAD_REQUEST"@,
        r.body.message@ == "Room is not alive"@,
        r.body.data is None,
{
    Rejection { status: 400, body: ApiResponse::error("BAD_REQUEST", "Room is not alive") }
}

/// The answer when room creation fails as a whole because the durable
/// write failed.
pub fn create_failed_rejection() -> (r: Rejection)
    ensures
        r.status == 500,
        r.body.status@ == "error"@,
        r.body.code@ == "INTERNAL_SERVER_ERROR"@,
        r.body.message@ == "Failed to create chat room."@,
        r.body.data is None,
{
    Rejection {
        status: 500,
        body: ApiResponse::error("INTERNAL_SERVER_ERROR", "Failed to create chat room."),
    }
}

/// The answer when the room listing cannot be read from the durable
/// store.
pub fn rooms_fetch_failed_rejection() -> (r: Rejection)
    ensures
        r.status == 500,
        r.body.status@ == "error"@,
        r.body.code@ == "INTERNAL_SERVER_ERROR"@,
        r.body.message@ == "Failed to fetch rooms"@,
        r.body.data is None,
{
    Rejection {
        status: 500,
        body: ApiResponse::error("INTERNAL_SERVER_ERROR", "Failed to fetch rooms"),
    }
}

/// Shape the raw `(id, name)` rows of the durable store into the room
/// listing payload, keeping order and content.
pub fn rooms_from_rows(rows: Vec<(String, String)>) -> (r: Vec<Room>)
    ensures
        r@.len() == rows@.len(),
        forall|i: int|
            0 <= i < rows@.len() ==> #[trigger] r@[i].room_id == rows@[i].0 && r@[i].room_name
                == rows@[i].1,
{
    let mut out: Vec<Room> = Vec::new();
    let mut i: usize = 0;
    while i < rows.len()
        invariant
            i <= rows@.len(),
            out@.len() == i,
            forall|j: int|
                0 <= j < i ==> #[trigger] out@[j].room_id == rows@[j].0 && out@[j].room_name
                    == rows@[j].1,
        decreases rows@.len() - i,
    {
        let id = rows[i].0.clone();
        let name = rows[i].1.clone();
        out.push(Room::new(id, name));
        i = i + 1;
    }
    out
}

/// How the durable store can fail an account operation; shaped by the
/// caller from the store's error before the verified mapping below turns
/// it into the client-facing answer.
#[derive(Clone, Debug)]
pub enum DbFailure {
    /// A uniqueness rule was violated (the account name is taken).
    UniqueViolation,
    /// Some other failure reported by the database itself.
    DatabaseOther,
    /// The query matched no row (unknown account or wrong password).
    RowNotFound,
    /// Anything else, with its description.
    Other(String),
}

/// The client-facing answer for each way a signup can fail.
pub fn signup_rejection(f: &DbFailure) -> (r: Rejection)
    ensures
        r.body.status@ == "error"@,
        r.body.data is None,
        (match f {
            DbFailure::UniqueViolation => r.status == 409 && r.body.code@ == "DUPLICATE_ENTRY"@
                && r.body.message@
                == "The provided account name is already taken. Please choose a different one."@,
            DbFailure::DatabaseOther => r.status == 500 && r.body.code@
                == "INTERNAL_SERVER_ERROR"@ && r.body.message@ == ""@,
            DbFailure::RowNotFound => r.status == 500 && r.body.code@ == "INTERNAL_SERVER_ERROR"@
                && r.body.message@ == ""@,
            DbFailure::Other(d) => r.status == 500 && r.body.code@ == "INTERNAL_SERVER_ERROR"@
                && r.body.message@ == d@,
        }),
{
    match f {
        DbFailure::UniqueViolation => Rejection {
            status: 409,
            body: ApiResponse::error(
                "DUPLICATE_ENTRY",
                "The provided account name is already taken. Please choose a different one.",
            ),
        },
        DbFailure::DatabaseOther => Rejection {
            status: 500,
            body: ApiResponse::error("INTERNAL_SERVER_ERROR", ""),
        },
        DbFailure::RowNotFound => Rejection {
            status: 500,
            body: ApiResponse::error("INTERNAL_SERVER_ERROR", ""),
        },
        DbFailure::Other(d) => Rejection {
            status: 500,
            body: ApiResponse::error("INTERNAL_SERVER_ERROR", d.as_str()),
        },
    }
}

/// The client-facing answer for each way a login can fail; an unknown
/// account is told apart from a database fault.
pub fn login_rejection(f: &DbFailure) -> (r: Rejection)
    ensures
        r.body.status@ == "error"@,
        r.body.data is None,
        (match f {
            DbFailure::UniqueViolation => r.status == 500 && r.body.code@
                == "INTERNAL_SERVER_ERROR"@ && r.body.message@ == ""@,
            DbFailure::DatabaseOther => r.status == 500 && r.body.code@
                == "INTERNAL_SERVER_ERROR"@ && r.body.message@ == ""@,
            DbFailure::RowNotFound => r.status == 404 && r.body.code@ == "Account not found"@
                && r.body.message@ == "Your account or password is incorrect"@,
            DbFailure::Other(d) => r.status == 500 && r.body.code@ == "INTERNAL_SERVER_ERROR"@
                && r.body.message@ == d@,
        }),
{
    match f {
        DbFailure::UniqueViolation => Rejection {
            status: 500,
            body: ApiResponse::error("INTERNAL_SERVER_ERROR", ""),
        },
        DbFailure::DatabaseOther => Rejection {
            status: 500,
            body: ApiResponse::error("INTERNAL_SERVER_ERROR", ""),
        },
        DbFailure::RowNotFound => Rejection {
            status: 404,
            body: ApiResponse::error("Account not found", "Your account or password is incorrect"),
        },
        DbFailure::Other(d) => Rejection {
            status: 500,
            body: ApiResponse::error("INTERNAL_SERVER_ERROR", d.as_str()),
        },
    }
}

} // verus!

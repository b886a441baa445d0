//! What the server answers to each request, and the line it logs for it.
use vstd::prelude::*;
use crate::shared::SessionId;
use crate::text::{decimal, pad_right, push_decimal, push_padded, same_text};

verus! {

/// An HTTP response of the server, before it is put on the wire.
#[derive(Debug, PartialEq, Eq)]
pub enum Response {
    /// `200 OK` with an empty body.
    Success,
    /// `200 OK` that sets the `session_id` cookie to the given id; the
    /// cookie is HTTP-only, secure, same-site strict, with path `/`.
    SessionCookie(SessionId),
    /// `401 Unauthorized`.
    Unauthorized,
    /// `400 Bad Request` with the given body.
    BadRequest(String),
    /// `500 Internal Server Error`.
    InternalServerError,
}

/// The status code of a response.
pub open spec fn status_of(r: Response) -> u16 {
    match r {
        Response::Success => 200,
        Response::SessionCookie(_) => 200,
        Response::Unauthorized => 401,
        Response::BadRequest(_) => 400,
        Response::InternalServerError => 500,
    }
}

impl Response {
    /// The status code of the response.
    pub fn status(&self) -> (code: u16)
        ensures
            code == status_of(*self),
    {
        match self {
            Response::Success => 200,
            Response::SessionCookie(_) => 200,
            Response::Unauthorized => 401,
            Response::BadRequest(_) => 400,
            Response::InternalServerError => 500,
        }
    }
}

/// Creates the response that matches an authentication request from a
/// session id: `401` without one, `200` with the session cookie with one.
pub fn auth(res: Option<SessionId>) -> (r: Response)
    ensures
        res is None ==> r == Response::Unauthorized,
        res matches Some(id) ==> r == Response::SessionCookie(id),
{
    match res {
        Some(session_id) => Response::SessionCookie(session_id),
        None => Response::Unauthorized,
    }
}

/// From a boolean indicating whether the request was carried out (the
/// state was stored), create a response that is either `200 OK` or
/// `500 Internal Server Error`.
pub fn handle_internal_error(is_internal_error: bool) -> (r: Response)
    ensures
        is_internal_error ==> r == Response::Success,
        !is_internal_error ==> r == Response::InternalServerError,
{
    if is_internal_error {
        Response::Success
    } else {
        Response::InternalServerError
    }
}

/// The body of the answer to an edit of an index where there is no item.
pub open spec fn invalid_index_body() -> Seq<char> {
    "Index is not valid"@
}

/// The answer to `PUT /item/{index}` from the outcome of the edit: `None`
/// when there was no item at the index, else whether the state was stored.
pub fn put_item(edited: Option<bool>) -> (r: Response)
    ensures
        edited is None ==> (r matches Response::BadRequest(body) && body@ == invalid_index_body()),
        edited matches Some(stored) ==> r == handle_internal_error_spec(stored),
{
    match edited {
        None => Response::BadRequest(String::from_str("Index is not valid")),
        Some(stored) => handle_internal_error(stored),
    }
}

/// The response of [`handle_internal_error`].
pub open spec fn handle_internal_error_spec(stored: bool) -> Response {
    if stored {
        Response::Success
    } else {
        Response::InternalServerError
    }
}

/// The log fragment of one handler parameter, given by name and debug text;
/// the server state parameter is not logged.
pub open spec fn param_log(param: (String, String)) -> Seq<char> {
    if param.0@ == "state"@ {
        Seq::empty()
    } else {
        " ["@ + param.0@ + ": "@ + param.1@ + "]"@
    }
}

/// The log fragments of the parameters, in order.
pub open spec fn params_log(params: Seq<(String, String)>) -> Seq<char>
    decreases params.len(),
{
    if params.len() == 0 {
        Seq::empty()
    } else {
        params_log(params.drop_last()) + param_log(params.last())
    }
}

/// The server state parameter never shows in a log line: inserting it
/// anywhere among a handler's parameters leaves their log fragments as they
/// were.
pub proof fn law_state_not_logged(params: Seq<(String, String)>, i: int, state: (String, String))
    requires
        0 <= i <= params.len(),
        state.0@ == "state"@,
    ensures
        params_log(params.insert(i, state)) == params_log(params),
    decreases params.len(),
{
    if i == params.len() {
        assert(params.insert(i, state).drop_last() =~= params);
        assert(params_log(params.insert(i, state)) =~= params_log(params));
    } else {
        law_state_not_logged(params.drop_last(), i, state);
        assert(params.insert(i, state).drop_last() =~= params.drop_last().insert(i, state));
        assert(params.insert(i, state).last() == params.last());
    }
}

/// The line logged for a handled request: method padded to four columns,
/// status code, path in brackets, then each logged parameter, in cyan.
pub open spec fn request_log(method: Seq<char>, status: u16, path: Seq<char>, params: Seq<(String, String)>) -> Seq<char> {
    "\x1b[36m"@ + pad_right(method, 4) + " "@ + decimal(status as nat) + " ("@ + path + ")"@
        + params_log(params) + "\x1b[0m"@
}

/// The line logged for a handled request.
pub fn request_log_line(method: &str, status: u16, path: &str, params: &[(String, String)]) -> (line: String)
    ensures
        line@ == request_log(method@, status, path@, params@),
{
    let mut line = String::from_str("\x1b[36m");
    push_padded(&mut line, method, 4);
    line.append(" ");
    push_decimal(&mut line, status as usize);
    line.append(" (");
    line.append(path);
    line.append(")");
    let ghost prefix = line@;
    let mut i: usize = 0;
    while i < params.len()
        invariant
            i <= params@.len(),
            line@ == prefix + params_log(params@.take(i as int)),
        decreases params.len() - i,
    {
        let ghost before = line@;
        let param = &params[i];
        if !same_text(param.0.as_str(), "state") {
            line.append(" [");
            line.append(param.0.as_str());
            line.append(": ");
            line.append(param.1.as_str());
            line.append("]");
        }
        assert(params@.take(i + 1).drop_last() =~= params@.take(i as int));
        assert(line@ =~= before + param_log(params@[i as int]));
        i += 1;
    }
    assert(params@.take(params@.len() as int) =~= params@);
    line.append("\x1b[0m");
    assert(line@ =~= request_log(method@, status, path@, params@));
    line
}

} // verus!

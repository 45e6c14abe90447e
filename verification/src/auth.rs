//! The credential that a caller may pass through, and the answer to a
//! preflight request.

use crate::error::{AppError, AppErrorView, ErrorKind};
use crate::text::{lemma_index_of, lemma_second_field_has_no_separator, lemma_second_field_is_part,
    same_text, second_field, second_field_of};
use vstd::prelude::*;

verus! {

/// The status that answers a preflight request.
pub const NO_CONTENT: u16 = 204;

/// What looking up the `Authorization` header of a request gave.
#[derive(Debug, Clone, PartialEq)]
pub enum AuthorizationHeader {
    /// The request has no such header.
    Absent,
    /// The header's value is not visible text.
    NotText,
    /// The header's value.
    Text(String),
}

/// The view of an [`AuthorizationHeader`].
pub enum AuthorizationHeaderView {
    Absent,
    NotText,
    Text(Seq<char>),
}

impl View for AuthorizationHeader {
    type V = AuthorizationHeaderView;

    open spec fn view(&self) -> AuthorizationHeaderView {
        match *self {
            AuthorizationHeader::Absent => AuthorizationHeaderView::Absent,
            AuthorizationHeader::NotText => AuthorizationHeaderView::NotText,
            AuthorizationHeader::Text(s) => AuthorizationHeaderView::Text(s@),
        }
    }
}

/// The failure to find a bearer token, with the given message.
pub open spec fn no_token(message: Seq<char>) -> AppErrorView {
    AppErrorView { kind: ErrorKind::AuthPassthroughAbsent, message }
}

/// The bearer token of a request: the second of the fields that a space
/// separates in the header's value, whatever the first one is. It may be
/// empty.
pub open spec fn bearer_token(header: AuthorizationHeaderView) -> Result<Seq<char>, AppErrorView> {
    match header {
        AuthorizationHeaderView::Absent => Err(no_token("Authorization header not found"@)),
        AuthorizationHeaderView::NotText => Err(
            no_token("Authorization header is not a valid string"@),
        ),
        AuthorizationHeaderView::Text(s) => match second_field(s, ' ') {
            Some(token) => Ok(token),
            None => Err(no_token("Bearer Token not found"@)),
        },
    }
}

/// The bearer token of a request, where it has one.
pub open spec fn passed_token(header: AuthorizationHeaderView) -> Option<Seq<char>> {
    match bearer_token(header) {
        Ok(token) => Some(token),
        Err(_) => None,
    }
}

/// The value of an `Authorization` header that carries `token`.
pub open spec fn bearer_value(token: Seq<char>) -> Seq<char> {
    "Bearer "@ + token
}

/// Extracts the bearer token from the `Authorization` header of a request.
pub fn get_bearer_token(header: &AuthorizationHeader) -> (r: Result<String, AppError>)
    ensures
        match r {
            Ok(token) => bearer_token(header@) == Ok::<Seq<char>, AppErrorView>(token@),
            Err(e) => bearer_token(header@) == Err::<Seq<char>, AppErrorView>(e@),
        },
{
    match header {
        AuthorizationHeader::Absent => Err(
            AppError::new(ErrorKind::AuthPassthroughAbsent, "Authorization header not found"),
        ),
        AuthorizationHeader::NotText => Err(
            AppError::new(
                ErrorKind::AuthPassthroughAbsent,
                "Authorization header is not a valid string",
            ),
        ),
        AuthorizationHeader::Text(s) => match second_field_of(s.as_str(), ' ') {
            Some(token) => Ok(token),
            None => Err(AppError::new(ErrorKind::AuthPassthroughAbsent, "Bearer Token not found")),
        },
    }
}

/// Builds the value of the `Authorization` header that hands `token` to the
/// backend.
pub fn set_bearer_auth(token: &str) -> (value: String)
    ensures
        value@ == bearer_value(token@),
{
    let mut value = "Bearer ".to_owned();
    value.append(token);
    value
}

/// Decides whether a request goes on to the handler: one with the method
/// `OPTIONS` is answered at once with an empty 204, every other one passes.
pub fn check_method(method: &str) -> (r: Result<(), u16>)
    ensures
        r == if method@ == "OPTIONS"@ {
            Err::<(), u16>(NO_CONTENT)
        } else {
            Ok::<(), u16>(())
        },
{
    if same_text(method, "OPTIONS") {
        Err(NO_CONTENT)
    } else {
        Ok(())
    }
}

/// A bearer token never holds a space.
pub proof fn lemma_bearer_token_has_no_space(header: AuthorizationHeaderView)
    ensures
        bearer_token(header) matches Ok(token) ==> !token.contains(' '),
{
    match header {
        AuthorizationHeaderView::Text(s) => {
            lemma_second_field_has_no_separator(s, ' ');
        },
        _ => {},
    }
}

/// A token without a space that is handed on with `set_bearer_auth` is the
/// token that `get_bearer_token` finds in the header so made.
pub proof fn lemma_bearer_round_trip(token: Seq<char>)
    requires
        !token.contains(' '),
    ensures
        bearer_token(AuthorizationHeaderView::Text(bearer_value(token))) == Ok::<
            Seq<char>,
            AppErrorView,
        >(token),
{
    reveal_strlit("Bearer ");
    let value = bearer_value(token);
    assert(value.len() == 7 + token.len());
    assert forall|k: int| 0 <= k < 6 implies value[k] != ' ' by {
        assert(value[k] == "Bearer "@[k]);
    }
    assert(value[6] == "Bearer "@[6]);
    lemma_index_of(value, ' ', 6);
    let rest = value.skip(7);
    assert(rest =~= token);
    assert forall|k: int| 0 <= k < token.len() implies token[k] != ' ' by {
        if token[k] == ' ' {
            assert(token.contains(' '));
        }
    }
    lemma_index_of(token, ' ', token.len() as int);
    assert(token.take(token.len() as int) =~= token);
}

/// A bearer token is made of characters of the header's value, so that a
/// token taken from a header of visible text is visible text.
pub proof fn lemma_bearer_token_is_part_of_header(value: Seq<char>)
    ensures
        bearer_token(AuthorizationHeaderView::Text(value)) matches Ok(token) ==> forall|k: int|
            0 <= k < token.len() ==> value.contains(#[trigger] token[k]),
{
    lemma_second_field_is_part(value, ' ');
}

} // verus!

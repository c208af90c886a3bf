use vstd::prelude::*;
use vstd::string::*;
use crate::credentials::argon2_accepts;
use crate::errors::{http_error, status_for, HttpError};
use crate::token::token_names;
use crate::user::{
    is_response_of, msg_internal, pairs_view, present_fields, token_at, ResponseUser, User,
};

verus! {

/// A store operation that did not complete.
#[derive(Debug)]
pub struct StoreFailure;

/// The fields that an update may set, each optional.
#[derive(Debug)]
pub struct UpdateBody {
    pub location: Option<String>,
    pub first_name: Option<String>,
    pub last_name: Option<String>,
}

/// A partial update of one account: set each named field to its value, touch no other.
#[derive(Debug)]
pub struct StoreUpdate {
    pub id: String,
    pub fields: Vec<(String, String)>,
}

pub open spec fn msg_exists() -> Seq<char> {
    "User with this email already exists"@
}

pub open spec fn msg_no_such_email() -> Seq<char> {
    "No user with this email address"@
}

pub open spec fn msg_invalid_password() -> Seq<char> {
    "Invalid password"@
}

pub open spec fn msg_unauthorized() -> Seq<char> {
    "Unauthorized"@
}

pub open spec fn msg_no_such_id() -> Seq<char> {
    "User with this ID doesn't exist"@
}

pub open spec fn bearer_prefix() -> Seq<char> {
    "Bearer "@
}

/// `e` is the error reply for `code` with `message`.
pub open spec fn error_is(e: HttpError, code: i16, message: Seq<char>) -> bool {
    &&& e.status == status_for(code)
    &&& e.error
    &&& e.code == code
    &&& e.message@ == message
}

/// The token that an authorization header carries: the text after a leading `Bearer `,
/// or the whole header without one; `None` where that text is empty.
pub open spec fn header_token(header: Seq<char>) -> Option<Seq<char>> {
    let t = if header.len() >= bearer_prefix().len() && header.take(
        bearer_prefix().len() as int,
    ) == bearer_prefix() {
        header.skip(bearer_prefix().len() as int)
    } else {
        header
    };
    if t.len() == 0 {
        None
    } else {
        Some(t)
    }
}

/// The failure of an authorized request that is settled before the token is checked:
/// no token, then a failed lookup, then no such account.
pub open spec fn access_failure(
    auth_header: Option<String>,
    found: Result<Option<User>, StoreFailure>,
) -> Option<(i16, Seq<char>)> {
    if auth_header is None || header_token(auth_header->Some_0@) is None {
        Some((401i16, msg_unauthorized()))
    } else if found is Err {
        Some((500i16, msg_internal()))
    } else if found == Ok::<Option<User>, StoreFailure>(None) {
        Some((404i16, msg_no_such_id()))
    } else {
        None
    }
}

/// The request carries a token, the account was found, and every set of claims that
/// signs into that token names the account found.
pub open spec fn request_authorized(
    auth_header: Option<String>,
    found: Result<Option<User>, StoreFailure>,
    secret: Seq<u8>,
) -> bool {
    &&& auth_header matches Some(h)
    &&& header_token(h@) matches Some(t)
    &&& found matches Ok(Some(u))
    &&& token_names(t, secret, u.id@, u.email@)
}

/// The reply to a login whose token would be `token`: that token, or an internal error
/// where none can be issued.
pub open spec fn issued_reply(r: Result<String, HttpError>, token: Option<Seq<char>>) -> bool {
    match token {
        Some(x) => r matches Ok(s) && s@ == x,
        None => r matches Err(e) && error_is(e, 500, msg_internal()),
    }
}

/// The (field, value) pairs that an update body sets: the default location, the first
/// and the last name, each only where present.
pub open spec fn body_fields(body: UpdateBody) -> Seq<(Seq<char>, Seq<char>)> {
    let a = match body.location {
        Some(v) => seq![("default_location"@, v@)],
        None => Seq::empty(),
    };
    let b = match body.first_name {
        Some(v) => seq![("first_name"@, v@)],
        None => Seq::empty(),
    };
    let c = match body.last_name {
        Some(v) => seq![("last_name"@, v@)],
        None => Seq::empty(),
    };
    a + b + c
}

/// The error reply for a failed registration check.
pub fn registration_rejected(err: (i16, String)) -> (r: HttpError)
    ensures
        error_is(r, err.0, err.1@),
{
    http_error(err.0, err.1)
}

/// Decides a registration once the store has been asked whether the address is taken.
pub fn create_checked(user: User, taken: Result<bool, StoreFailure>) -> (r: Result<User, HttpError>)
    ensures
        taken is Err ==> (r matches Err(e) && error_is(e, 500, msg_internal())),
        taken == Ok::<bool, StoreFailure>(true) ==> (r matches Err(e) && error_is(e, 400, msg_exists())),
        taken == Ok::<bool, StoreFailure>(false) ==> r == Ok::<User, HttpError>(user),
{
    match taken {
        Err(_) => Err(http_error(500, String::from_str("Internal server error"))),
        Ok(true) => Err(http_error(400, String::from_str("User with this email already exists"))),
        Ok(false) => Ok(user),
    }
}

/// The reply to a registration once the new account has been handed to the store.
pub fn create_finished(user: &User, inserted: Result<(), StoreFailure>) -> (r: Result<ResponseUser, HttpError>)
    ensures
        inserted is Ok ==> (r matches Ok(v) && is_response_of(v, *user)),
        inserted is Err ==> (r matches Err(e) && error_is(e, 500, msg_internal())),
{
    match inserted {
        Ok(()) => Ok(user.response_user()),
        Err(_) => Err(http_error(500, String::from_str("Internal server error"))),
    }
}

/// Decides a login once the account has been looked up by its lowercased address:
/// a token for a known account whose password verifies, else the matching error.
pub fn login(found: Result<Option<User>, StoreFailure>, password: String, secret: &[u8]) -> (r: Result<
    String,
    HttpError,
>)
    ensures
        found is Err ==> (r matches Err(e) && error_is(e, 500, msg_internal())),
        found == Ok::<Option<User>, StoreFailure>(None) ==> (r matches Err(e) && error_is(
            e,
            401,
            msg_no_such_email(),
        )),
        found matches Ok(Some(u)) ==> (!argon2_accepts(password@, u.password@) <==> (r matches Err(
            e,
        ) && error_is(e, 401, msg_invalid_password()))),
        found matches Ok(Some(u)) ==> (argon2_accepts(password@, u.password@) ==> exists|
            issued_at: int,
        | issued_reply(r, #[trigger] token_at(u, issued_at, secret@))),
        r is Ok ==> (found matches Ok(Some(u)) && argon2_accepts(password@, u.password@)),
{
    let user = match found {
        Ok(Some(u)) => u,
        Ok(None) => {
            return Err(http_error(401, String::from_str("No user with this email address")));
        },
        Err(_) => {
            return Err(http_error(500, String::from_str("Internal server error")));
        },
    };
    if !user.valid_password(password) {
        return Err(http_error(401, String::from_str("Invalid password")));
    }
    let token = user.create_token(secret);
    match token {
        Some(t) => Ok(t),
        None => Err(http_error(500, String::from_str("Internal server error"))),
    }
}

/// The token carried by an authorization header; see `header_token`.
pub fn bearer_token(header: &String) -> (r: Option<String>)
    ensures
        r is Some == header_token(header@) is Some,
        r matches Some(t) ==> header_token(header@) == Some(t@),
{
    let h = header.as_str();
    let n = h.unicode_len();
    let prefix = String::from_str("Bearer ");
    proof {
        reveal_strlit("Bearer ");
    }
    let t = if n >= 7 && String::from_str(h.substring_char(0, 7)) == prefix {
        String::from_str(h.substring_char(7, n))
    } else {
        header.clone()
    };
    if t.as_str().unicode_len() == 0 {
        None
    } else {
        Some(t)
    }
}

/// Decides whether a request on an account may go on: a token must come with it, the
/// account must exist, and the token must be valid and name that account.
pub fn user_authorized(
    auth_header: Option<String>,
    found: Result<Option<User>, StoreFailure>,
    secret: &[u8],
) -> (r: Result<User, HttpError>)
    ensures
        access_failure(auth_header, found) matches Some(f) ==> (r matches Err(e) && error_is(
            e,
            f.0,
            f.1,
        )),
        access_failure(auth_header, found) is None ==> (r is Ok || (r matches Err(e) && error_is(
            e,
            401,
            msg_unauthorized(),
        ))),
        r matches Ok(u) ==> found == Ok::<Option<User>, StoreFailure>(Some(u)),
        r is Ok ==> request_authorized(auth_header, found, secret@),
{
    let token = match &auth_header {
        Some(h) => bearer_token(h),
        None => None,
    };
    let token = match token {
        Some(t) => t,
        None => {
            return Err(http_error(401, String::from_str("Unauthorized")));
        },
    };
    let user = match found {
        Ok(Some(u)) => u,
        Ok(None) => {
            return Err(http_error(404, String::from_str("User with this ID doesn't exist")));
        },
        Err(_) => {
            return Err(http_error(500, String::from_str("Internal server error")));
        },
    };
    if user.authorized(token.as_str(), secret) {
        Ok(user)
    } else {
        Err(http_error(401, String::from_str("Unauthorized")))
    }
}

/// Decides a read of an account: its client-facing form, once the request is authorized.
pub fn retrieve(
    auth_header: Option<String>,
    found: Result<Option<User>, StoreFailure>,
    secret: &[u8],
) -> (r: Result<ResponseUser, HttpError>)
    ensures
        access_failure(auth_header, found) matches Some(f) ==> (r matches Err(e) && error_is(
            e,
            f.0,
            f.1,
        )),
        access_failure(auth_header, found) is None ==> (r is Ok || (r matches Err(e) && error_is(
            e,
            401,
            msg_unauthorized(),
        ))),
        r matches Ok(v) ==> (found matches Ok(Some(u)) && is_response_of(v, u)),
        r is Ok ==> request_authorized(auth_header, found, secret@),
{
    match user_authorized(auth_header, found, secret) {
        Ok(u) => Ok(u.response_user()),
        Err(e) => Err(e),
    }
}

impl UpdateBody {
    /// The (field, value) pairs that this body sets, in the order location, first name,
    /// last name; absent fields are left out.
    pub fn update_doc(self) -> (r: Vec<(String, String)>)
        ensures
            pairs_view(r@) == body_fields(self),
    {
        let ghost body = self;
        let data: Vec<(String, Option<String>)> = vec![
            (String::from_str("default_location"), self.location),
            (String::from_str("first_name"), self.first_name),
            (String::from_str("last_name"), self.last_name),
        ];
        let r = User::create_update_doc(data);
        proof {
            reveal_with_fuel(present_fields, 4);
            assert(data@.drop_last().drop_last().drop_last() =~= Seq::<(String, Option<String>)>::empty());
            assert(present_fields(data@) =~= body_fields(body));
        }
        r
    }
}

/// Decides an update of an account: once the request is authorized, the store update
/// that sets exactly the fields present in `body`.
pub fn update(
    auth_header: Option<String>,
    found: Result<Option<User>, StoreFailure>,
    body: UpdateBody,
    secret: &[u8],
) -> (r: Result<StoreUpdate, HttpError>)
    ensures
        access_failure(auth_header, found) matches Some(f) ==> (r matches Err(e) && error_is(
            e,
            f.0,
            f.1,
        )),
        access_failure(auth_header, found) is None ==> (r is Ok || (r matches Err(e) && error_is(
            e,
            401,
            msg_unauthorized(),
        ))),
        r matches Ok(s) ==> (found matches Ok(Some(u)) && s.id@ == u.id@ && pairs_view(s.fields@)
            == body_fields(body)),
        r is Ok ==> request_authorized(auth_header, found, secret@),
{
    let user = match user_authorized(auth_header, found, secret) {
        Ok(u) => u,
        Err(e) => {
            return Err(e);
        },
    };
    Ok(StoreUpdate { id: user.id, fields: body.update_doc() })
}

} // verus!

use vstd::prelude::*;
use vstd::string::*;
use bson::oid::ObjectId;
use crate::credentials::{argon2_accepts, hash_password, is_argon2id_phc, verify_password};
use crate::token::{
    claim_is, decode_identity, hs256_token, months_later, now_timestamp, sign_claims,
    token_expiry, token_names, TokenClaims, TokenIdentity, TOKEN_LIFETIME_MONTHS,
};
use crate::validation::{
    email_shape, email_valid, password_valid_length, passwords_match, MIN_PASSWORD_CHARS,
};

verus! {

/// The lowercase form of a text, character by character as Unicode defines it.
pub uninterp spec fn lower_of(s: Seq<char>) -> Seq<char>;

/// Relies on `str::to_lowercase`: the result depends on the characters alone.
#[verifier::external_body]
fn lowercase(s: &str) -> (r: String)
    ensures
        r@ == lower_of(s@),
{
    s.to_lowercase()
}

/// The address as it is stored and looked up: lowercased.
pub fn normalize_email(email: &String) -> (r: String)
    ensures
        r@ == lower_of(email@),
{
    lowercase(email.as_str())
}

/// Relies on `bson::oid::ObjectId::new` and `ObjectId::to_hex`: a fresh identifier,
/// written as the hex encoding of its twelve bytes.
#[verifier::external_body]
fn fresh_object_id() -> (r: String)
    ensures
        r@.len() == 24,
{
    ObjectId::new().to_hex()
}

/// A reference to the account's customer record in the billing system.
#[derive(Debug)]
pub struct StripeData {
    pub customer_id: String,
    pub product_id: Option<String>,
    pub subscription_id: Option<String>,
    pub subscription_status: Option<String>,
    pub subscription_type: Option<String>,
}

impl StripeData {
    /// Billing data for a freshly created customer: its id, or `"None"` where the billing
    /// system returned none; no product or subscription yet.
    pub fn new(customer_id: Option<String>) -> (r: StripeData)
        ensures
            r.customer_id@ == (match customer_id {
                Some(c) => c@,
                None => "None"@,
            }),
            r.product_id is None,
            r.subscription_id is None,
            r.subscription_status is None,
            r.subscription_type is None,
    {
        let customer_id = match customer_id {
            Some(c) => c,
            None => String::from_str("None"),
        };
        StripeData {
            customer_id,
            product_id: None,
            subscription_id: None,
            subscription_status: None,
            subscription_type: None,
        }
    }
}

/// A registered account as the store keeps it.
#[derive(Debug)]
pub struct User {
    /// The store identifier, as 24 hex digits.
    pub id: String,
    /// The login key, lowercased at creation.
    pub email: String,
    /// The encoded Argon2 hash of the password.
    pub password: String,
    pub first_name: String,
    pub last_name: String,
    pub status: String,
    /// Unix time in seconds.
    pub expiration: i64,
    /// Unix time in seconds.
    pub created_date: i64,
    pub stripe: Option<StripeData>,
    pub reset_code: Option<String>,
    pub avatar: Option<String>,
    pub default_location: String,
    pub session_id: String,
}

/// The account as it is shown to clients: no password hash, no session marker.
#[derive(Debug)]
pub struct ResponseUser {
    pub id: String,
    pub email: String,
    pub first_name: String,
    pub last_name: String,
    pub status: String,
    pub reset_code: String,
    pub avatar: String,
    pub default_location: String,
}

pub open spec fn msg_password_mismatch() -> Seq<char> {
    "Passwords do not match"@
}

pub open spec fn msg_password_short() -> Seq<char> {
    "password must contain at least 10 characters"@
}

pub open spec fn msg_invalid_email() -> Seq<char> {
    "Invalid email"@
}

pub open spec fn msg_internal() -> Seq<char> {
    "Internal server error"@
}

/// The first registration check that fails, in the order confirmation, length, address;
/// `None` where all pass. `email` is the lowercased address.
pub open spec fn registration_error(email: Seq<char>, password: Seq<char>, confirm: Seq<char>) -> Option<
    (i16, Seq<char>),
> {
    if password != confirm {
        Some((400i16, msg_password_mismatch()))
    } else if password.len() < MIN_PASSWORD_CHARS {
        Some((400i16, msg_password_short()))
    } else if !email_shape(email) {
        Some((400i16, msg_invalid_email()))
    } else {
        None
    }
}

/// The text of an optional field, or the empty text where it is absent.
pub open spec fn text_or_empty(o: Option<String>) -> Seq<char> {
    match o {
        Some(s) => s@,
        None => Seq::empty(),
    }
}

/// `r` shows the account `u`: its public fields, with empty text for absent optional ones.
pub open spec fn is_response_of(r: ResponseUser, u: User) -> bool {
    &&& r.id@ == u.id@
    &&& r.email@ == u.email@
    &&& r.first_name@ == u.first_name@
    &&& r.last_name@ == u.last_name@
    &&& r.status@ == u.status@
    &&& r.reset_code@ == text_or_empty(u.reset_code)
    &&& r.avatar@ == text_or_empty(u.avatar)
    &&& r.default_location@ == u.default_location@
}

/// `u` is a new account for the lowercased `email` with the given names, holding a hash
/// that `password` verifies against, and the defaults of a fresh account.
pub open spec fn fresh_user(
    u: User,
    email: Seq<char>,
    password: Seq<char>,
    first_name: Seq<char>,
    last_name: Seq<char>,
) -> bool {
    &&& u.id@.len() == 24
    &&& u.email@ == email
    &&& argon2_accepts(password, u.password@)
    &&& is_argon2id_phc(u.password@)
    &&& u.password@ != password
    &&& u.first_name@ == first_name
    &&& u.last_name@ == last_name
    &&& u.status@ == "active"@
    &&& u.expiration == u.created_date
    &&& u.stripe is None
    &&& u.reset_code is None
    &&& u.avatar is None
    &&& u.default_location@ == "Some Place"@
    &&& u.session_id@ == "12345"@
}

/// The fields of an update document whose value is present, in order, as
/// (field name, new value).
pub open spec fn present_fields(data: Seq<(String, Option<String>)>) -> Seq<(Seq<char>, Seq<char>)>
    decreases data.len(),
{
    if data.len() == 0 {
        Seq::empty()
    } else {
        let rest = present_fields(data.drop_last());
        match data.last().1 {
            Some(v) => rest.push((data.last().0@, v@)),
            None => rest,
        }
    }
}

pub open spec fn pairs_view(v: Seq<(String, String)>) -> Seq<(Seq<char>, Seq<char>)> {
    v.map_values(|p: (String, String)| (p.0@, p.1@))
}

/// Runs the registration checks in their fixed order on the lowercased `email`; the first
/// that fails gives the error.
pub fn check_registration(email: &String, password: &String, confirm_password: &String) -> (r: Result<
    (),
    (i16, String),
>)
    ensures
        r is Ok == registration_error(email@, password@, confirm_password@) is None,
        r matches Err(e) ==> registration_error(email@, password@, confirm_password@) == Some(
            (e.0, e.1@),
        ),
{
    if !passwords_match(password, confirm_password) {
        return Err((400, String::from_str("Passwords do not match")));
    }
    if !password_valid_length(password) {
        return Err((400, String::from_str("password must contain at least 10 characters")));
    }
    if !email_valid(email) {
        return Err((400, String::from_str("Invalid email")));
    }
    Ok(())
}

/// With the confirmation matching, a password of fewer than ten characters is refused
/// for its length whatever the address, and one of ten or more passes that check.
pub proof fn lemma_short_password_refused(email: Seq<char>, password: Seq<char>, confirm: Seq<char>)
    requires
        password == confirm,
    ensures
        password.len() < MIN_PASSWORD_CHARS ==> registration_error(email, password, confirm) == Some(
            (400i16, msg_password_short()),
        ),
        password.len() >= MIN_PASSWORD_CHARS ==> registration_error(email, password, confirm) != Some(
            (400i16, msg_password_short()),
        ),
{
    reveal_strlit("password must contain at least 10 characters");
    reveal_strlit("Invalid email");
    assert(msg_password_short().len() != msg_invalid_email().len());
}

/// The token signed for one account is never taken for another whose id or email differs.
pub proof fn lemma_foreign_token_refused(owner: User, other: User, exp: int, secret: Seq<u8>)
    requires
        owner.id@ != other.id@ || owner.email@ != other.email@,
    ensures
        !token_names(
            hs256_token(owner.id@, owner.email@, owner.session_id@, exp, secret),
            secret,
            other.id@,
            other.email@,
        ),
{
    let t = hs256_token(owner.id@, owner.email@, owner.session_id@, exp, secret);
    assert(t == hs256_token(owner.id@, owner.email@, owner.session_id@, exp, secret));
}

/// The token for `u` issued at `issued_at`, or `None` where its expiry is out of range.
pub open spec fn token_at(u: User, issued_at: int, secret: Seq<u8>) -> Option<Seq<char>> {
    match months_later(issued_at, TOKEN_LIFETIME_MONTHS as nat) {
        Some(exp) => Some(hs256_token(u.id@, u.email@, u.session_id@, exp, secret)),
        None => None,
    }
}

/// The text of an optional string, as an optional character sequence.
pub open spec fn text_view(o: Option<String>) -> Option<Seq<char>> {
    match o {
        Some(s) => Some(s@),
        None => None,
    }
}

impl User {
    /// A new account: the address is lowercased, the checks run in order, and the password
    /// is kept only as a salted hash.
    pub fn new(
        email: String,
        password: String,
        confirm_password: String,
        first_name: String,
        last_name: String,
    ) -> (r: Result<User, (i16, String)>)
        ensures
            registration_error(lower_of(email@), password@, confirm_password@) matches Some(e) ==> r
                matches Err(x) && (x.0, x.1@) == e,
            registration_error(lower_of(email@), password@, confirm_password@) is None ==> (r
                is Ok || (r matches Err(x) && x.0 == 500 && x.1@ == msg_internal())),
            r matches Ok(u) ==> fresh_user(u, lower_of(email@), password@, first_name@, last_name@),
    {
        let email = normalize_email(&email);
        match check_registration(&email, &password, &confirm_password) {
            Err(e) => {
                return Err(e);
            },
            Ok(()) => {},
        }
        let hashed = match hash_password(&password) {
            Some(h) => h,
            None => {
                return Err((500, String::from_str("Internal server error")));
            },
        };
        let now = now_timestamp();
        Ok(User {
            id: fresh_object_id(),
            email,
            password: hashed,
            first_name,
            last_name,
            status: String::from_str("active"),
            expiration: now,
            created_date: now,
            stripe: None,
            reset_code: None,
            avatar: None,
            default_location: String::from_str("Some Place"),
            session_id: String::from_str("12345"),
        })
    }

    /// Whether `password` is the one this account was registered with.
    pub fn valid_password(&self, password: String) -> (r: bool)
        ensures
            r == argon2_accepts(password@, self.password@),
    {
        verify_password(&password, &self.password)
    }

    /// The claims of a token for this account that expires at `exp`.
    pub fn token_claims(&self, exp: i64) -> (r: TokenClaims)
        ensures
            r.id@ == self.id@,
            r.email@ == self.email@,
            r.session@ == self.session_id@,
            r.exp == exp,
    {
        TokenClaims {
            id: self.id.clone(),
            email: self.email.clone(),
            session: self.session_id.clone(),
            exp,
        }
    }

    /// The token issued at `issued_at`: this account's claims with an expiry twelve months
    /// later, signed with `secret`; `None` only where that expiry is out of range.
    pub fn sign_token(&self, issued_at: i64, secret: &[u8]) -> (r: Option<String>)
        ensures
            text_view(r) == token_at(*self, issued_at as int, secret@),
    {
        let exp = match token_expiry(issued_at) {
            Some(e) => e,
            None => {
                return None;
            },
        };
        let claims = self.token_claims(exp);
        Some(sign_claims(&claims, secret))
    }

    /// A token issued now for this account, valid for twelve months.
    pub fn create_token(&self, secret: &[u8]) -> (r: Option<String>)
        ensures
            exists|issued_at: int| text_view(r) == #[trigger] token_at(*self, issued_at, secret@),
    {
        let now = now_timestamp();
        self.sign_token(now, secret)
    }

    /// The client-facing form of the account; absent optional fields read as empty text.
    pub fn response_user(&self) -> (r: ResponseUser)
        ensures
            is_response_of(r, *self),
    {
        ResponseUser {
            id: self.id.clone(),
            email: self.email.clone(),
            first_name: self.first_name.clone(),
            last_name: self.last_name.clone(),
            status: self.status.clone(),
            reset_code: match &self.reset_code {
                Some(a) => a.clone(),
                None => String::new(),
            },
            avatar: match &self.avatar {
                Some(a) => a.clone(),
                None => String::new(),
            },
            default_location: self.default_location.clone(),
        }
    }

    /// Whether decoded token claims name this account: the id and the email claim must be
    /// present and equal to the account's own, and a session claim must be present.
    pub fn identity_matches(&self, identity: &TokenIdentity) -> (r: bool)
        ensures
            r == (claim_is(identity.id, self.id@) && claim_is(identity.email, self.email@)
                && identity.session is Some),
    {
        let id_ok = match &identity.id {
            Some(i) => *i == self.id,
            None => false,
        };
        let email_ok = match &identity.email {
            Some(m) => *m == self.email,
            None => false,
        };
        id_ok && email_ok && identity.session.is_some()
    }

    /// Whether `token` is a valid, unexpired token signed with `secret` that names this
    /// account. An accepted token is one whose signed id and email are this account's, so a
    /// token issued to another account is refused.
    pub fn authorized(&self, token: &str, secret: &[u8]) -> (r: bool)
        ensures
            r ==> token_names(token@, secret@, self.id@, self.email@),
    {
        match decode_identity(token, secret) {
            Some(identity) => self.identity_matches(&identity),
            None => false,
        }
    }

    /// The update document for the given (field name, optional new value) pairs: the
    /// fields whose value is present, in order; absent ones are left out.
    pub fn create_update_doc(data: Vec<(String, Option<String>)>) -> (r: Vec<(String, String)>)
        ensures
            pairs_view(r@) == present_fields(data@),
    {
        let mut r: Vec<(String, String)> = Vec::new();
        let mut i: usize = 0;
        while i < data.len()
            invariant
                i <= data@.len(),
                pairs_view(r@) == present_fields(data@.take(i as int)),
            decreases data@.len() - i,
        {
            let ghost before = r@;
            let (name, value) = (&data[i].0, &data[i].1);
            match value {
                Some(v) => {
                    r.push((name.clone(), v.clone()));
                },
                None => {},
            }
            proof {
                assert(data@.take(i + 1).drop_last() =~= data@.take(i as int));
                assert(pairs_view(r@) =~= present_fields(data@.take(i + 1)));
            }
            i = i + 1;
        }
        assert(data@.take(data@.len() as int) =~= data@);
        r
    }
}

} // verus!

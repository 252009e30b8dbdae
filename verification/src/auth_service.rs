//! Who a caller is: passwords, the claims of a session token, and the
//! header that carries the token.
use vstd::prelude::*;
use crate::config::Config;
use crate::errors::AppError;
use crate::errors::ErrorView;
use crate::text::chars_of;
use crate::text::concat2;
use crate::text::owned;
use crate::text::string_of;

verus! {

/// How long a session token is good for: thirty days, in seconds.
pub const TOKEN_LIFETIME_SECONDS: i64 = 2_592_000;

/// What a session token says.
#[derive(Debug)]
pub struct Claims {
    /// The identifier of the user.
    pub sub: String,
    /// The address of the user.
    pub email: String,
    /// When the token ends, in seconds since 1970.
    pub exp: usize,
}

/// The request to log in.
#[derive(Debug)]
pub struct LoginRequest {
    pub email: String,
    pub password: String,
}

/// The request to log in, with the answer to a challenge.
#[derive(Debug)]
pub struct LoginRequestWithCaptcha {
    pub login: LoginRequest,
    pub captcha_id: String,
    pub captcha_answer: String,
}

/// The answer to a log-in.
#[derive(Debug)]
pub struct AuthResponse {
    pub token: String,
    pub user: UserResponse,
}

/// What a log-in tells of the user.
#[derive(Debug)]
pub struct UserResponse {
    pub id: String,
    pub email: String,
    pub name: String,
}

/// Who makes a request, and from where.
#[derive(Clone, Debug)]
pub struct RequestContext {
    pub user_id: String,
    pub email: String,
    pub ip_address: String,
}

/// What checking a password against a stored hash gives: whether the
/// password is the one that was hashed, or the text of the failure to read
/// the hash. This is the name that this crate has for the result of
/// `PasswordHash::new` and `Argon2::verify_password`.
pub uninterp spec fn password_check(password: Seq<char>, password_hash: Seq<char>) -> Result<
    bool,
    Seq<char>,
>;

/// The view of the result of a check.
pub open spec fn check_view(r: Result<bool, String>) -> Result<bool, Seq<char>> {
    match r {
        Ok(b) => Ok(b),
        Err(text) => Err(text@),
    }
}

/// What checking a password against a hash of it gives: the password is the
/// one that was hashed.
pub open spec fn verified() -> Result<bool, Seq<char>> {
    Ok(true)
}

/// Hashes a password under a new random salt.
///
/// Calls `SaltString::generate` with the random numbers of the operating
/// system and `Argon2::default().hash_password`, and writes the hash as a
/// PHC string. Which hash comes is not stated: the salt is random. Trusted:
/// a hash that comes verifies the password it was made from, as the
/// documentation of argon2 shows with these calls; the check reads the
/// parameters and the salt out of the hash and computes the same. A failure
/// comes as its text.
#[verifier::external_body]
fn argon2_hash(password: &str) -> (r: Result<String, String>)
    ensures
        r matches Ok(hash) ==> password_check(password@, hash@) == verified(),
{
    let salt = argon2::password_hash::SaltString::generate(
        &mut argon2::password_hash::rand_core::OsRng,
    );
    let hasher = argon2::Argon2::default();
    match argon2::PasswordHasher::hash_password(&hasher, password.as_bytes(), &salt) {
        Ok(hash) => Ok(hash.to_string()),
        Err(e) => Err(e.to_string()),
    }
}

/// Checks a password against a stored hash.
///
/// Calls `argon2::PasswordHash::new` and, on the hash it read,
/// `Argon2::default().verify_password`. Trusted: the result is a function of
/// the two texts, named `password_check`. A hash that cannot be read comes as
/// the text of that failure.
#[verifier::external_body]
fn argon2_verify(password: &str, password_hash: &str) -> (r: Result<bool, String>)
    ensures
        check_view(r) == password_check(password@, password_hash@),
{
    let hasher = argon2::Argon2::default();
    match argon2::PasswordHash::new(password_hash) {
        Ok(parsed) => match argon2::PasswordVerifier::verify_password(
            &hasher,
            password.as_bytes(),
            &parsed,
        ) {
            Ok(()) => Ok(true),
            Err(_) => Ok(false),
        },
        Err(e) => Err(e.to_string()),
    }
}

/// What a caller is told after a password was hashed.
pub open spec fn hashing_outcome_spec(hashed: Result<String, String>) -> Result<
    Seq<char>,
    ErrorView,
> {
    match hashed {
        Ok(hash) => Ok(hash@),
        Err(text) => Err(ErrorView::Internal("Failed to hash password: "@ + text@)),
    }
}

/// What a caller is told after a password was checked. A wrong password is
/// told in the words of an unknown address, so that the answer does not say
/// which of the two was wrong.
pub open spec fn verification_outcome_spec(checked: Result<bool, Seq<char>>) -> Result<
    (),
    ErrorView,
> {
    match checked {
        Ok(true) => Ok(()),
        Ok(false) => Err(ErrorView::Auth("Invalid email or password"@)),
        Err(text) => Err(ErrorView::Internal("Failed to parse password hash: "@ + text)),
    }
}

/// The view of a hashing outcome.
pub open spec fn hash_result_view(r: Result<String, AppError>) -> Result<Seq<char>, ErrorView> {
    match r {
        Ok(hash) => Ok(hash@),
        Err(e) => Err(e@),
    }
}

/// The view of a result without a value.
pub open spec fn unit_result_view(r: Result<(), AppError>) -> Result<(), ErrorView> {
    match r {
        Ok(()) => Ok(()),
        Err(e) => Err(e@),
    }
}

/// Turns the outcome of hashing into what the caller is told.
pub fn hashing_outcome(hashed: Result<String, String>) -> (r: Result<String, AppError>)
    ensures
        hash_result_view(r) == hashing_outcome_spec(hashed),
{
    match hashed {
        Ok(hash) => Ok(hash),
        Err(text) => Err(AppError::Internal(concat2("Failed to hash password: ", text.as_str()))),
    }
}

/// Turns the outcome of a check into what the caller is told.
pub fn verification_outcome(checked: Result<bool, String>) -> (r: Result<(), AppError>)
    ensures
        unit_result_view(r) == verification_outcome_spec(check_view(checked)),
{
    match checked {
        Ok(true) => Ok(()),
        Ok(false) => Err(AppError::Auth(owned("Invalid email or password"))),
        Err(text) => Err(
            AppError::Internal(concat2("Failed to parse password hash: ", text.as_str())),
        ),
    }
}

/// The service that knows passwords and tokens.
pub struct AuthService {
    config: Config,
}

impl AuthService {
    /// The settings that the service was made with.
    pub closed spec fn config(&self) -> Config {
        self.config
    }

    /// A service with these settings.
    pub fn new(config: Config) -> (service: Self)
        ensures
            service.config() == config,
    {
        Self { config }
    }

    /// The secret that tokens are signed with.
    pub fn jwt_secret(&self) -> (secret: &String)
        ensures
            *secret == self.config().jwt_secret,
    {
        &self.config.jwt_secret
    }

    /// Hashes a password for storage. The hash that comes verifies the
    /// password, and `verify_password` accepts the two together. Two hashes
    /// of one password differ: each has a salt of its own. A failure is an
    /// internal one.
    pub fn hash_password(&self, password: &str) -> (r: Result<String, AppError>)
        ensures
            r matches Ok(hash) ==> password_check(password@, hash@) == verified()
                && verification_outcome_spec(password_check(password@, hash@)) is Ok,
            r matches Err(e) ==> exists|reason: Seq<char>|
                e@ == ErrorView::Internal(#[trigger] ("Failed to hash password: "@ + reason)),
    {
        let hashed = argon2_hash(password);
        hashing_outcome(hashed)
    }

    /// Checks a password against a stored hash.
    pub fn verify_password(&self, password: &str, password_hash: &str) -> (r: Result<(), AppError>)
        ensures
            unit_result_view(r) == verification_outcome_spec(
                password_check(password@, password_hash@),
            ),
    {
        let checked = argon2_verify(password, password_hash);
        verification_outcome(checked)
    }
}

impl Claims {
    /// The claims of a token issued at `now`, in seconds since 1970, for
    /// thirty days. There are none where the end of the token is not a time
    /// that the claims can hold.
    pub fn issue(user_id: &str, email: &str, now: i64) -> (r: Option<Claims>)
        ensures
            r is Some <==> 0 <= now + TOKEN_LIFETIME_SECONDS <= usize::MAX && now
                + TOKEN_LIFETIME_SECONDS <= i64::MAX,
            r matches Some(claims) ==> claims.sub@ == user_id@ && claims.email@ == email@
                && claims.exp == now + TOKEN_LIFETIME_SECONDS,
    {
        if now > i64::MAX - TOKEN_LIFETIME_SECONDS || now < -TOKEN_LIFETIME_SECONDS {
            return None;
        }
        let end: i64 = now + TOKEN_LIFETIME_SECONDS;
        if end as u64 > usize::MAX as u64 {
            return None;
        }
        Some(Claims { sub: owned(user_id), email: owned(email), exp: end as usize })
    }

    /// Who makes the request that came with these claims from this address.
    pub fn request_context(&self, ip_address: String) -> (context: RequestContext)
        ensures
            context.user_id@ == self.sub@,
            context.email@ == self.email@,
            context.ip_address == ip_address,
    {
        RequestContext { user_id: self.sub.clone(), email: self.email.clone(), ip_address }
    }
}

/// The token in an `Authorization` header: what follows `Bearer ` and one
/// space, in exactly this spelling. A header of another form has no token.
pub open spec fn bearer_token_spec(header: Seq<char>) -> Option<Seq<char>> {
    if header.len() >= 7 && header.take(7) == "Bearer "@ {
        Some(header.skip(7))
    } else {
        None
    }
}

/// The token in an `Authorization` header.
pub fn bearer_token(header: &str) -> (token: Option<String>)
    ensures
        match token {
            Some(t) => bearer_token_spec(header@) == Some(t@),
            None => bearer_token_spec(header@) is None,
        },
{
    let chars = chars_of(header);
    let prefix = chars_of("Bearer ");
    proof {
        reveal_strlit("Bearer ");
    }
    if chars.len() < 7 {
        return None;
    }
    let mut i: usize = 0;
    while i < 7
        invariant
            i <= 7,
            chars@ == header@,
            chars@.len() >= 7,
            prefix@ == "Bearer "@,
            prefix@.len() == 7,
            forall|k: int| 0 <= k < i ==> chars@[k] == prefix@[k],
        decreases 7 - i,
    {
        if chars[i] != prefix[i] {
            assert(chars@.take(7)[i as int] == chars@[i as int]);
            assert(chars@.take(7) != prefix@);
            return None;
        }
        i += 1;
    }
    assert(chars@.take(7) =~= prefix@);
    let token = string_of(&chars, 7, chars.len());
    assert(token@ =~= chars@.skip(7));
    Some(token)
}

/// The answer to a log-in.
pub fn login_response(token: String, id: String, email: String, name: String) -> (r: AuthResponse)
    ensures
        r.token == token,
        r.user.id == id,
        r.user.email == email,
        r.user.name == name,
{
    AuthResponse { token, user: UserResponse { id, email, name } }
}

/// An address may register once: a second registration is not acceptable.
pub fn ensure_unregistered(already_registered: bool) -> (r: Result<(), AppError>)
    ensures
        r is Ok <==> !already_registered,
        r matches Err(e) ==> e@ == ErrorView::Validation("Email already registered"@),
{
    if already_registered {
        Err(AppError::Validation(owned("Email already registered")))
    } else {
        Ok(())
    }
}

/// A user that is not known is told what a wrong password is told.
pub fn unknown_user() -> (e: AppError)
    ensures
        e@ == ErrorView::Auth("Invalid email or password"@),
{
    AppError::Auth(owned("Invalid email or password"))
}

/// A request goes on only with a right answer to its challenge.
pub fn ensure_captcha(valid: bool) -> (r: Result<(), AppError>)
    ensures
        r is Ok <==> valid,
        r matches Err(e) ==> e@ == ErrorView::Auth("Invalid CAPTCHA"@),
{
    if valid {
        Ok(())
    } else {
        Err(AppError::Auth(owned("Invalid CAPTCHA")))
    }
}

} // verus!

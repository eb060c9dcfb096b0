//! Session issuer: registration, login and profile lookup, composed from
//! the credential hasher, the user directory and the token codec.

use crate::auth_middleware::{
    bearer_marker, guard_decision, lemma_guard_passes_issued_token, Rejection,
};
use crate::directory::{
    has_key, inserted, keys_distinct, lemma_insertion_keeps_others, lemma_lookup_absent,
    lemma_lookup_id_finds, lemma_lookup_id_push, lemma_one_insertion_wins, lookup, lookup_id,
    Account, AccountModel, DirectoryModel, UserDirectory,
};
use crate::errors::{InternalFailure, LoginError, RegisterError};
use crate::jwt::{expiry, is_issued_token, issue, issued_token, ClaimsModel};
use crate::security::{hash_password, is_record_of, password_matches, verify_password};
use vstd::prelude::*;

verus! {

/// For how long a token is valid unless configured otherwise: seven days,
/// in seconds.
pub const DEFAULT_TOKEN_VALIDITY: u64 = 604800;

/// What the issuer is configured with, once, at startup.
pub struct AuthConfig {
    /// The secret that tokens are signed with.
    pub jwt_secret: String,
    /// For how many seconds an issued token is valid.
    pub token_validity: u64,
}

/// What a successful registration or login hands back. The password
/// record is no part of it.
#[derive(Clone, Debug)]
pub struct IssuedSession {
    pub user_id: String,
    pub username: String,
    pub token: String,
}

/// An issued session as mathematical values.
pub struct SessionModel {
    pub user_id: Seq<char>,
    pub username: Seq<char>,
    pub token: Seq<char>,
}

impl View for IssuedSession {
    type V = SessionModel;

    open spec fn view(&self) -> SessionModel {
        SessionModel { user_id: self.user_id@, username: self.username@, token: self.token@ }
    }
}

/// The result of a registration or a login as mathematical values.
pub open spec fn session_result<E>(res: Result<IssuedSession, E>) -> Result<SessionModel, E> {
    match res {
        Ok(session) => Ok(session@),
        Err(e) => Err(e),
    }
}

/// The public fields of an account.
#[derive(Clone, Debug)]
pub struct ProfileView {
    pub user_id: String,
    pub username: String,
    pub email: String,
}

/// A profile as mathematical values.
pub struct ProfileModel {
    pub user_id: Seq<char>,
    pub username: Seq<char>,
    pub email: Seq<char>,
}

impl View for ProfileView {
    type V = ProfileModel;

    open spec fn view(&self) -> ProfileModel {
        ProfileModel { user_id: self.user_id@, username: self.username@, email: self.email@ }
    }
}

/// The public fields of `account`.
pub open spec fn public_fields(account: AccountModel) -> ProfileModel {
    ProfileModel { user_id: account.id, username: account.username, email: account.email }
}

/// The account that registering with these values at time `now` files.
pub open spec fn new_account(
    username: Seq<char>,
    email: Seq<char>,
    password_hash: Seq<char>,
    id: Seq<char>,
    now: u64,
) -> AccountModel {
    AccountModel { id, username, email, password_hash, created_at: now }
}

/// What completing a registration at time `now` makes of the directory
/// `dir`, and what the caller gets. A taken email changes nothing.
/// Otherwise the account is filed under `email`, and a token bound to
/// `id` is issued; where that fails the account stays filed.
pub open spec fn enrollment(
    dir: DirectoryModel,
    username: Seq<char>,
    email: Seq<char>,
    password_hash: Seq<char>,
    id: Seq<char>,
    now: u64,
    validity: u64,
    secret: Seq<char>,
) -> (DirectoryModel, Result<SessionModel, RegisterError>) {
    if has_key(dir, email) {
        (dir, Err(RegisterError::EmailTaken))
    } else {
        let filed = dir.push((email, new_account(username, email, password_hash, id, now)));
        match issued_token(id, now, validity, secret) {
            Some(token) => (filed, Ok(SessionModel { user_id: id, username, token })),
            None => (filed, Err(RegisterError::Internal)),
        }
    }
}

/// Whether `after` and `res` are what completing a registration at time
/// `now` makes of `before`, the token of a session being one that
/// verifies.
pub open spec fn is_enrollment(
    after: DirectoryModel,
    res: Result<SessionModel, RegisterError>,
    before: DirectoryModel,
    username: Seq<char>,
    email: Seq<char>,
    password_hash: Seq<char>,
    id: Seq<char>,
    now: u64,
    validity: u64,
    secret: Seq<char>,
) -> bool {
    &&& (after, res) == enrollment(
        before,
        username,
        email,
        password_hash,
        id,
        now,
        validity,
        secret,
    )
    &&& res matches Ok(session) ==> is_issued_token(session.token, id, now, validity, secret)
}

/// Whether `dir` holds an account under `email` whose password record
/// accepts `password`.
pub open spec fn credentials_hold(dir: DirectoryModel, email: Seq<char>, password: Seq<char>) -> bool {
    lookup(dir, email) matches Some(account) && password_matches(password, account.password_hash)
}

/// What a login at time `now` gives. Without an account under `email`,
/// and with a password that the account's record does not accept, the
/// same error comes back. Otherwise a token bound to the account's
/// identifier is issued.
pub open spec fn login_outcome(
    dir: DirectoryModel,
    email: Seq<char>,
    password: Seq<char>,
    now: u64,
    validity: u64,
    secret: Seq<char>,
) -> Result<SessionModel, LoginError> {
    match lookup(dir, email) {
        Some(account) => if password_matches(password, account.password_hash) {
            match issued_token(account.id, now, validity, secret) {
                Some(token) => Ok(
                    SessionModel { user_id: account.id, username: account.username, token },
                ),
                None => Err(LoginError::Internal),
            }
        } else {
            Err(LoginError::InvalidCredentials)
        },
        None => Err(LoginError::InvalidCredentials),
    }
}

/// Whether `res` is what a login at time `now` gives, the token of a
/// session being one that verifies.
pub open spec fn is_login(
    res: Result<SessionModel, LoginError>,
    dir: DirectoryModel,
    email: Seq<char>,
    password: Seq<char>,
    now: u64,
    validity: u64,
    secret: Seq<char>,
) -> bool {
    &&& res == login_outcome(dir, email, password, now, validity, secret)
    &&& res matches Ok(session) ==> is_issued_token(
        session.token,
        session.user_id,
        now,
        validity,
        secret,
    )
}

/// `chrono::Utc::now().timestamp()`: the system clock in seconds relative
/// to the epoch. Nothing is claimed of a clock reading. The call panics
/// where the clock stands before the epoch.
#[verifier::external_body]
fn issuance_clock() -> (seconds: i64) {
    chrono::Utc::now().timestamp()
}

/// `uuid::Uuid::new_v4()`, rendered as text: a random identifier. Nothing
/// is claimed of it. The call panics where the operating system gives no
/// random bytes.
#[verifier::external_body]
fn fresh_account_id() -> (id: String) {
    uuid::Uuid::new_v4().to_string()
}

/// A clock reading as seconds since the epoch; a reading before the epoch
/// has none.
pub fn epoch_seconds(reading: i64) -> (seconds: Option<u64>)
    ensures
        seconds == (if reading >= 0 {
            Some(reading as u64)
        } else {
            None
        }),
{
    if reading >= 0 {
        Some(reading as u64)
    } else {
        None
    }
}

fn same_text(a: &str, b: &str) -> (same: bool)
    ensures
        same == (a@ == b@),
{
    a.to_owned() == b.to_owned()
}

impl AuthConfig {
    /// A configuration with the default validity of seven days.
    pub fn new(jwt_secret: String) -> (config: Self)
        ensures
            config.jwt_secret == jwt_secret,
            config.token_validity == DEFAULT_TOKEN_VALIDITY,
    {
        AuthConfig { jwt_secret, token_validity: DEFAULT_TOKEN_VALIDITY }
    }

    /// The configuration that the settings found at startup give. The
    /// secret is required: without one there is no configuration, and no
    /// default stands in for it. The validity defaults to seven days.
    pub fn from_settings(jwt_secret: Option<String>, token_validity: Option<u64>) -> (config:
        Option<Self>)
        ensures
            match jwt_secret {
                Some(secret) => config matches Some(made) && made.jwt_secret == secret
                    && made.token_validity == (match token_validity {
                    Some(seconds) => seconds,
                    None => DEFAULT_TOKEN_VALIDITY,
                }),
                None => config is None,
            },
    {
        match jwt_secret {
            Some(secret) => {
                let token_validity = match token_validity {
                    Some(seconds) => seconds,
                    None => DEFAULT_TOKEN_VALIDITY,
                };
                Some(AuthConfig { jwt_secret: secret, token_validity })
            },
            None => None,
        }
    }

    /// A configuration under which tokens are valid for `token_validity`
    /// seconds.
    pub fn with_validity(jwt_secret: String, token_validity: u64) -> (config: Self)
        ensures
            config.jwt_secret == jwt_secret,
            config.token_validity == token_validity,
    {
        AuthConfig { jwt_secret, token_validity }
    }
}

/// Issues a token for `user_id` at the time the system clock shows, valid
/// for the configured duration: the outcome is that of issuing at the reading.
pub fn generate_jwt(config: &AuthConfig, user_id: &str) -> (res: Result<String, InternalFailure>)
    ensures
        exists|reading: i64| #[trigger]
            is_issuing_at(
                token_text(res),
                user_id@,
                reading,
                config.token_validity,
                config.jwt_secret@,
            ),
        res matches Ok(token) ==> exists|now: u64| #[trigger]
            is_issued_token(token@, user_id@, now, config.token_validity, config.jwt_secret@),
{
    let reading = issuance_clock();
    let res = match epoch_seconds(reading) {
        Some(now) => issue(user_id, now, config.token_validity, config.jwt_secret.as_str()),
        None => Err(InternalFailure),
    };
    assert(is_issuing_at(
        token_text(res),
        user_id@,
        reading,
        config.token_validity,
        config.jwt_secret@,
    ));
    res
}

/// The token that an issuing handed back, where it handed one back.
pub open spec fn token_text(res: Result<String, InternalFailure>) -> Option<Seq<char>> {
    match res {
        Ok(token) => Some(token@),
        Err(_) => None,
    }
}

/// Whether `outcome` is what issuing a token for `sub` gives when the
/// clock reads `reading`. A reading before the epoch gives no token.
/// Otherwise the token is the one issued at that second, which verifies,
/// or none where the expiry cannot be represented or the signing fails.
pub open spec fn is_issuing_at(
    outcome: Option<Seq<char>>,
    sub: Seq<char>,
    reading: i64,
    validity: u64,
    secret: Seq<char>,
) -> bool {
    if reading < 0 {
        outcome is None
    } else {
        &&& outcome == issued_token(sub, reading as u64, validity, secret)
        &&& outcome matches Some(token) ==> is_issued_token(
            token,
            sub,
            reading as u64,
            validity,
            secret,
        )
    }
}

/// Completes a registration at time `now`, from the password record and
/// the identifier made for it: files the account under `email` unless
/// that is taken, then issues a token bound to the identifier.
pub fn enroll(
    config: &AuthConfig,
    directory: &mut UserDirectory,
    username: &str,
    email: &str,
    password_hash: String,
    id: String,
    now: u64,
) -> (res: Result<IssuedSession, RegisterError>)
    ensures
        keys_distinct(final(directory)@),
        is_enrollment(
            final(directory)@,
            session_result(res),
            old(directory)@,
            username@,
            email@,
            password_hash@,
            id@,
            now,
            config.token_validity,
            config.jwt_secret@,
        ),
{
    let account = Account {
        id: id.clone(),
        username: username.to_owned(),
        email: email.to_owned(),
        password_hash,
        created_at: now,
    };
    match directory.insert_if_absent(email, account) {
        Err(_) => Err(RegisterError::EmailTaken),
        Ok(()) => match issue(id.as_str(), now, config.token_validity, config.jwt_secret.as_str()) {
            Ok(token) => Ok(IssuedSession { user_id: id, username: username.to_owned(), token }),
            Err(_) => Err(RegisterError::Internal),
        },
    }
}

/// Registers an account. A password that differs from its confirmation
/// is refused before anything else is done. Otherwise the password is
/// hashed under a fresh salt, an identifier is drawn, the clock is read,
/// and the registration is completed as [`enroll`] says: whatever record,
/// identifier and time came back, the outcome is the enrollment with
/// them, and the record accepts the password. Where the hashing fails
/// or the clock stands before the epoch, nothing is changed.
pub fn register(
    config: &AuthConfig,
    directory: &mut UserDirectory,
    username: &str,
    email: &str,
    password: &str,
    confirm_password: &str,
) -> (res: Result<IssuedSession, RegisterError>)
    ensures
        keys_distinct(final(directory)@),
        password@ != confirm_password@ ==> final(directory)@ == old(directory)@
            && res matches Err(RegisterError::PasswordMismatch),
        password@ == confirm_password@ ==> {
            ||| final(directory)@ == old(directory)@ && res matches Err(RegisterError::Internal)
            ||| exists|record: Seq<char>, id: Seq<char>, now: u64|
                is_record_of(password@, record) && password_matches(password@, record)
                    && #[trigger] is_enrollment(
                    final(directory)@,
                    session_result(res),
                    old(directory)@,
                    username@,
                    email@,
                    record,
                    id,
                    now,
                    config.token_validity,
                    config.jwt_secret@,
                )
        },
{
    proof {
        use_type_invariant(&*directory);
    }
    if !same_text(password, confirm_password) {
        return Err(RegisterError::PasswordMismatch);
    }
    let password_hash = match hash_password(password) {
        Ok(record) => record,
        Err(_) => {
            return Err(RegisterError::Internal);
        },
    };
    let id = fresh_account_id();
    let now = match epoch_seconds(issuance_clock()) {
        Some(now) => now,
        None => {
            return Err(RegisterError::Internal);
        },
    };
    enroll(config, directory, username, email, password_hash, id, now)
}

/// The account under `email`, where `password` is that account's.
fn account_for<'a>(directory: &'a UserDirectory, email: &str, password: &str) -> (res: Option<
    &'a Account,
>)
    ensures
        res is Some <==> credentials_hold(directory@, email@, password@),
        res matches Some(account) ==> lookup(directory@, email@) == Some(account@),
{
    match directory.get(email) {
        None => None,
        Some(account) => {
            if verify_password(password, account.password_hash.as_str()) {
                Some(account)
            } else {
                None
            }
        },
    }
}

/// Logs in at time `now`: where `email` has an account and `password` is
/// that account's, a fresh token bound to the account's identifier is
/// issued. An unknown email and a wrong password give the same error.
pub fn login_at(
    config: &AuthConfig,
    directory: &UserDirectory,
    email: &str,
    password: &str,
    now: u64,
) -> (res: Result<IssuedSession, LoginError>)
    ensures
        is_login(
            session_result(res),
            directory@,
            email@,
            password@,
            now,
            config.token_validity,
            config.jwt_secret@,
        ),
{
    match account_for(directory, email, password) {
        None => Err(LoginError::InvalidCredentials),
        Some(account) => match issue(
            account.id.as_str(),
            now,
            config.token_validity,
            config.jwt_secret.as_str(),
        ) {
            Ok(token) => Ok(
                IssuedSession {
                    user_id: account.id.clone(),
                    username: account.username.clone(),
                    token,
                },
            ),
            Err(_) => Err(LoginError::Internal),
        },
    }
}

/// Logs in at the time the system clock shows. Wrong credentials are
/// refused whatever the clock shows; with the right ones the outcome is
/// that of [`login_at`] at the time read, or an internal failure where
/// the clock stands before the epoch.
pub fn login(config: &AuthConfig, directory: &UserDirectory, email: &str, password: &str) -> (res:
    Result<IssuedSession, LoginError>)
    ensures
        res matches Err(LoginError::InvalidCredentials) <==> !credentials_hold(
            directory@,
            email@,
            password@,
        ),
        res matches Err(LoginError::Internal) || exists|now: u64| #[trigger]
            is_login(
                session_result(res),
                directory@,
                email@,
                password@,
                now,
                config.token_validity,
                config.jwt_secret@,
            ),
{
    match account_for(directory, email, password) {
        None => {
            assert(is_login(
                session_result::<LoginError>(Err(LoginError::InvalidCredentials)),
                directory@,
                email@,
                password@,
                0,
                config.token_validity,
                config.jwt_secret@,
            ));
            Err(LoginError::InvalidCredentials)
        },
        Some(account) => match epoch_seconds(issuance_clock()) {
            None => Err(LoginError::Internal),
            Some(now) => login_at(config, directory, email, password, now),
        },
    }
}

/// The profile of the account that a verified subject names: its public
/// fields and nothing else. A subject that names no account has none.
pub fn profile(directory: &UserDirectory, verified_subject: &str) -> (res: Option<ProfileView>)
    ensures
        match lookup_id(directory@, verified_subject@) {
            Some(account) => res matches Some(view) && view@ == public_fields(account),
            None => res is None,
        },
{
    match directory.get_by_id(verified_subject) {
        None => None,
        Some(account) => Some(
            ProfileView {
                user_id: account.id.clone(),
                username: account.username.clone(),
                email: account.email.clone(),
            },
        ),
    }
}

/// Once an account is filed under an email that was free, its password
/// record decides every login under that email: the credentials hold for
/// exactly the passwords that the record accepts.
pub proof fn lemma_registered_credentials(
    dir: DirectoryModel,
    email: Seq<char>,
    account: AccountModel,
    password: Seq<char>,
)
    requires
        !has_key(dir, email),
    ensures
        credentials_hold(inserted(dir, email, account).0, email, password) <==> password_matches(
            password,
            account.password_hash,
        ),
{
    lemma_one_insertion_wins(dir, email, account, account);
}

/// A registration changes no login under another email.
pub proof fn lemma_registration_keeps_other_credentials(
    dir: DirectoryModel,
    email: Seq<char>,
    account: AccountModel,
    other: Seq<char>,
    password: Seq<char>,
)
    requires
        other != email,
    ensures
        credentials_hold(inserted(dir, email, account).0, other, password) == credentials_hold(
            dir,
            other,
            password,
        ),
{
    lemma_insertion_keeps_others(dir, email, account, other);
}

/// Under an email without an account no credentials hold, whatever the
/// password.
pub proof fn lemma_unknown_email_has_no_credentials(
    dir: DirectoryModel,
    email: Seq<char>,
    password: Seq<char>,
)
    requires
        !has_key(dir, email),
    ensures
        !credentials_hold(dir, email, password),
{
    lemma_lookup_absent(dir, email);
}

/// Registering twice under one email: whatever the second registration
/// brings, it is told that the email is taken and changes nothing.
pub proof fn lemma_second_registration_is_refused(
    dir: DirectoryModel,
    username: Seq<char>,
    email: Seq<char>,
    password_hash: Seq<char>,
    id: Seq<char>,
    now: u64,
    validity: u64,
    secret: Seq<char>,
    other_username: Seq<char>,
    other_hash: Seq<char>,
    other_id: Seq<char>,
    later: u64,
)
    ensures
        ({
            let first = enrollment(dir, username, email, password_hash, id, now, validity, secret);
            let second = enrollment(
                first.0,
                other_username,
                email,
                other_hash,
                other_id,
                later,
                validity,
                secret,
            );
            &&& second.1 == Err::<SessionModel, RegisterError>(RegisterError::EmailTaken)
            &&& second.0 == first.0
            &&& first.1 is Ok ==> !has_key(dir, email)
        }),
{
    let first = enrollment(dir, username, email, password_hash, id, now, validity, secret);
    if !has_key(dir, email) {
        assert(first.0[dir.len() as int].0 == email);
    }
}

/// After a registration went through, a login under its email succeeds
/// with every password that the filed record accepts, as far as a token
/// can be issued, and is bound to the registered identifier; with every
/// other password it is refused as invalid credentials.
pub proof fn lemma_login_after_registration(
    dir: DirectoryModel,
    username: Seq<char>,
    email: Seq<char>,
    password_hash: Seq<char>,
    id: Seq<char>,
    now: u64,
    validity: u64,
    secret: Seq<char>,
    password: Seq<char>,
    later: u64,
)
    requires
        enrollment(dir, username, email, password_hash, id, now, validity, secret).1 is Ok,
    ensures
        ({
            let after = enrollment(
                dir,
                username,
                email,
                password_hash,
                id,
                now,
                validity,
                secret,
            ).0;
            let outcome = login_outcome(after, email, password, later, validity, secret);
            if password_matches(password, password_hash) {
                outcome == (match issued_token(id, later, validity, secret) {
                    Some(token) => Ok::<SessionModel, LoginError>(
                        SessionModel { user_id: id, username, token },
                    ),
                    None => Err::<SessionModel, LoginError>(LoginError::Internal),
                })
            } else {
                outcome == Err::<SessionModel, LoginError>(LoginError::InvalidCredentials)
            }
        }),
{
    let account = new_account(username, email, password_hash, id, now);
    lemma_one_insertion_wins(dir, email, account, account);
}

/// The profile found for a subject carries that subject as its identifier,
/// and an account filed under a free email is found by its identifier
/// from then on, unless an earlier account carries the same one.
pub proof fn lemma_profile_of_registered_account(
    dir: DirectoryModel,
    email: Seq<char>,
    account: AccountModel,
    subject: Seq<char>,
)
    requires
        !has_key(dir, email),
    ensures
        lookup_id(dir, subject) matches Some(found) ==> public_fields(found).user_id == subject,
        lookup_id(dir, account.id) is None ==> lookup_id(
            inserted(dir, email, account).0,
            account.id,
        ) == Some(account),
        lookup_id(dir, subject) is Some ==> lookup_id(inserted(dir, email, account).0, subject)
            == lookup_id(dir, subject),
{
    lemma_lookup_id_finds(dir, subject);
    lemma_lookup_id_push(dir, (email, account), account.id);
    lemma_lookup_id_push(dir, (email, account), subject);
}

/// From registration to profile: the token of a session that a
/// registration handed out, presented behind the scheme marker before its
/// expiry, passes the guard with the registered identifier as subject,
/// and, no earlier account carrying that identifier, the subject's
/// profile shows the registered name and email.
pub proof fn lemma_session_opens_profile(
    dir: DirectoryModel,
    after: DirectoryModel,
    session: SessionModel,
    username: Seq<char>,
    email: Seq<char>,
    password_hash: Seq<char>,
    id: Seq<char>,
    now: u64,
    validity: u64,
    secret: Seq<char>,
    later: u64,
)
    requires
        is_enrollment(
            after,
            Ok(session),
            dir,
            username,
            email,
            password_hash,
            id,
            now,
            validity,
            secret,
        ),
        later < now + validity,
        lookup_id(dir, id) is None,
    ensures
        session.user_id == id,
        guard_decision(Some(bearer_marker() + session.token), secret, later) == Ok::<
            ClaimsModel,
            Rejection,
        >(ClaimsModel { sub: id, exp: (now + validity) as usize }),
        lookup_id(after, id) matches Some(found) && public_fields(found) == (ProfileModel {
            user_id: id,
            username,
            email,
        }),
{
    let exp = expiry(now, validity)->Some_0;
    lemma_guard_passes_issued_token(session.token, id, exp, secret, later);
    let account = new_account(username, email, password_hash, id, now);
    lemma_lookup_id_push(dir, (email, account), id);
}

} // verus!

//! Account recovery tokens: how one is issued, how long it lives, and the
//! check a token must pass before it recovers an account.

use vstd::prelude::*;
use crate::text::owned;

verus! {

/// How long a recovery token stays valid, in hours.
pub const RECOVERY_TOKEN_EXPIRY_HOURS: i64 = 24;

/// How long a recovery token stays valid, in seconds.
pub open spec fn token_lifetime_secs() -> int {
    RECOVERY_TOKEN_EXPIRY_HOURS * 3600
}

/// `uuid::Uuid::new_v4()` taken as its sixteen bytes (`as_bytes().to_vec()`).
/// The crate masks random bits so that byte 6 carries version 4 in its high
/// nibble and byte 8 the variant bits `10`; which random bytes come back rests
/// on the operating system's generator and is not stated.
#[verifier::external_body]
fn random_uuid_bytes() -> (r: Vec<u8>)
    ensures
        r@.len() == 16,
        r@[6] / 16 == 4,
        r@[8] / 64 == 2,
{
    uuid::Uuid::new_v4().as_bytes().to_vec()
}

/// The expiry time (seconds) of a token created at `now`.
pub fn recovery_token_expiry(now: i64) -> (r: i64)
    requires
        now + token_lifetime_secs() <= i64::MAX,
    ensures
        r == now + token_lifetime_secs(),
{
    now + RECOVERY_TOKEN_EXPIRY_HOURS * 3600
}

/// A freshly issued recovery token and the times stored with it.
pub struct IssuedRecoveryToken {
    /// The secret sent to the account's email address.
    pub token: Vec<u8>,
    /// Creation time, in seconds.
    pub created_at: i64,
    /// Expiry time, in seconds.
    pub expires_at: i64,
}

/// Issues a recovery token at `now` (seconds): sixteen random bytes laid
/// out as a version-4 UUID, valid for the token lifetime.
pub fn issue_recovery_token(now: i64) -> (r: IssuedRecoveryToken)
    requires
        now + token_lifetime_secs() <= i64::MAX,
    ensures
        r.token@.len() == 16,
        r.token@[6] / 16 == 4,
        r.token@[8] / 64 == 2,
        r.created_at == now,
        r.expires_at == now + token_lifetime_secs(),
{
    let token = random_uuid_bytes();
    IssuedRecoveryToken { token, created_at: now, expires_at: recovery_token_expiry(now) }
}

/// The error for an email address that no account uses.
pub open spec fn no_account_text(email: Seq<char>) -> Seq<char> {
    "No account found with email: "@ + email
}

/// The error returned when no account uses `email`.
pub fn no_account_message(email: &str) -> (r: String)
    ensures
        r@ == no_account_text(email@),
{
    let mut m = owned("No account found with email: ");
    m.append(email);
    m
}

/// A stored recovery token.
pub struct RecoveryTokenRow {
    /// The account the token recovers.
    pub account_id: Vec<u8>,
    /// Expiry time, in seconds.
    pub expires_at: i64,
    /// When the token was consumed, if it was.
    pub used_at: Option<i64>,
}

/// Why a recovery token was refused.
#[derive(PartialEq, Eq, Structural, Debug)]
pub enum RecoveryTokenError {
    /// No token with these bytes exists.
    Invalid,
    /// The token was consumed before.
    AlreadyUsed,
    /// The token's expiry time has passed.
    Expired,
}

/// The message of each refusal.
pub open spec fn recovery_error_text(e: RecoveryTokenError) -> Seq<char> {
    match e {
        RecoveryTokenError::Invalid => "Invalid recovery token"@,
        RecoveryTokenError::AlreadyUsed => "Recovery token has already been used"@,
        RecoveryTokenError::Expired => "Recovery token has expired"@,
    }
}

impl RecoveryTokenError {
    /// The refusal's message.
    pub fn message(&self) -> (r: String)
        ensures
            r@ == recovery_error_text(*self),
    {
        match self {
            RecoveryTokenError::Invalid => owned("Invalid recovery token"),
            RecoveryTokenError::AlreadyUsed => owned("Recovery token has already been used"),
            RecoveryTokenError::Expired => owned("Recovery token has expired"),
        }
    }
}

/// The outcome of presenting a token at time `now`: unknown tokens are
/// invalid, consumed ones refused first, then expired ones (strictly after
/// the expiry time); otherwise the account it recovers.
pub open spec fn token_check(row: Option<RecoveryTokenRow>, now: i64) -> Result<Seq<u8>, RecoveryTokenError> {
    match row {
        None => Err(RecoveryTokenError::Invalid),
        Some(t) => if t.used_at is Some {
            Err(RecoveryTokenError::AlreadyUsed)
        } else if now > t.expires_at {
            Err(RecoveryTokenError::Expired)
        } else {
            Ok(t.account_id@)
        },
    }
}

/// Checks a presented token (the stored row, if any) at time `now` and
/// gives back the account it recovers.
pub fn check_recovery_token(row: Option<&RecoveryTokenRow>, now: i64) -> (r: Result<Vec<u8>, RecoveryTokenError>)
    ensures
        match r {
            Ok(a) => token_check(match row { Some(t) => Some(*t), None => None }, now) == Ok::<Seq<u8>, RecoveryTokenError>(a@),
            Err(e) => token_check(match row { Some(t) => Some(*t), None => None }, now) == Err::<Seq<u8>, RecoveryTokenError>(e),
        },
{
    match row {
        None => Err(RecoveryTokenError::Invalid),
        Some(t) => {
            if t.used_at.is_some() {
                Err(RecoveryTokenError::AlreadyUsed)
            } else if now > t.expires_at {
                Err(RecoveryTokenError::Expired)
            } else {
                Ok(t.account_id.clone())
            }
        },
    }
}

/// Consumes a token at time `now`: when it passes the check it is marked
/// used at `now` and the account comes back; a refused token is left as it
/// was.
pub fn consume_recovery_token(row: &mut RecoveryTokenRow, now: i64) -> (r: Result<Vec<u8>, RecoveryTokenError>)
    ensures
        match r {
            Ok(a) => {
                &&& token_check(Some(*old(row)), now) == Ok::<Seq<u8>, RecoveryTokenError>(a@)
                &&& final(row).used_at == Some(now)
                &&& final(row).account_id@ == old(row).account_id@
                &&& final(row).expires_at == old(row).expires_at
            },
            Err(e) => {
                &&& token_check(Some(*old(row)), now) == Err::<Seq<u8>, RecoveryTokenError>(e)
                &&& *final(row) == *old(row)
            },
        },
{
    let checked = check_recovery_token(Some(&*row), now);
    match checked {
        Ok(a) => {
            row.used_at = Some(now);
            Ok(a)
        },
        Err(e) => Err(e),
    }
}

/// Whether the periodic cleanup removes a token with this expiry time at
/// `now`: those whose expiry time lies strictly before `now`.
pub fn recovery_token_is_stale(expires_at: i64, now: i64) -> (r: bool)
    ensures
        r == (expires_at < now),
{
    expires_at < now
}

/// A token issued at `created` and not yet consumed recovers its account
/// exactly up to and including its expiry time, one token lifetime later.
pub proof fn lemma_fresh_token_window(account_id: Seq<u8>, row: RecoveryTokenRow, created: i64, now: i64)
    requires
        row.used_at is None,
        row.account_id@ == account_id,
        row.expires_at == created + token_lifetime_secs(),
    ensures
        token_check(Some(row), now) is Ok <==> now <= created + token_lifetime_secs(),
        now <= created + token_lifetime_secs() ==> token_check(Some(row), now) == Ok::<Seq<u8>, RecoveryTokenError>(account_id),
        now > created + token_lifetime_secs() ==> token_check(Some(row), now) == Err::<Seq<u8>, RecoveryTokenError>(RecoveryTokenError::Expired),
{
}

/// A token recovers at most once: after it has been consumed, every later
/// presentation is refused as already used.
pub proof fn lemma_token_single_use(row: RecoveryTokenRow, used: i64, later: i64)
    requires
        row.used_at == Some(used),
    ensures
        token_check(Some(row), later) == Err::<Seq<u8>, RecoveryTokenError>(RecoveryTokenError::AlreadyUsed),
{
}

/// The cleanup only removes tokens that the check already refuses.
pub proof fn lemma_stale_tokens_refused(row: RecoveryTokenRow, now: i64)
    requires
        row.expires_at < now,
    ensures
        token_check(Some(row), now) is Err,
{
}

/// Recovery tokens live 24 hours: an unused token issued at `created`
/// still recovers its account at `created + 86400` seconds and is refused
/// as expired one second later; an unknown token is always invalid; and a
/// used token is refused as used whether or not it has expired. Each
/// refusal has its own message.
pub proof fn lemma_token_lifetime(row: RecoveryTokenRow, created: i64, now: i64)
    requires
        created + 86401 <= i64::MAX,
    ensures
        token_lifetime_secs() == 86400,
        row.used_at is None && row.expires_at == created + token_lifetime_secs() ==> {
            &&& token_check(Some(row), (created + 86400) as i64) == Ok::<Seq<u8>, RecoveryTokenError>(row.account_id@)
            &&& token_check(Some(row), (created + 86401) as i64) == Err::<Seq<u8>, RecoveryTokenError>(RecoveryTokenError::Expired)
        },
        token_check(None, now) == Err::<Seq<u8>, RecoveryTokenError>(RecoveryTokenError::Invalid),
        row.used_at is Some ==> token_check(Some(row), now) == Err::<Seq<u8>, RecoveryTokenError>(RecoveryTokenError::AlreadyUsed),
        recovery_error_text(RecoveryTokenError::Invalid) == "Invalid recovery token"@,
        recovery_error_text(RecoveryTokenError::AlreadyUsed) == "Recovery token has already been used"@,
        recovery_error_text(RecoveryTokenError::Expired) == "Recovery token has expired"@,
{
}

} // verus!

//! The token service: issues signed session-token pairs, verifies presented
//! tokens against the revocation set, the signature and the expiry — in that
//! order — and records revocations.
//!
//! Every time-dependent operation exists in two forms: one taking the instant
//! `now` explicitly, verified for every possible instant, and one under the
//! service's traditional name that reads the clock and delegates.

use vstd::prelude::*;

use crate::clock::now_unix_seconds;
use crate::config::Config;
use crate::errors::AppError;
use crate::errors::AppResult;
use crate::jwt::decode_of;
use crate::jwt::jwt_decode;
use crate::jwt::jwt_encode;

verus! {

/// The two kinds of session token.
#[derive(PartialEq, Eq, Structural, Clone, Copy, Debug)]
pub enum TokenType {
    Access,
    Refresh,
}

/// The payload of a session token: subject, absolute expiry (Unix seconds)
/// and kind.
#[derive(PartialEq, Eq, Structural, Clone, Copy, Debug)]
pub struct Claims {
    pub sub: u128,
    pub exp: u64,
    pub token_type: TokenType,
}

/// The token kind encoded by the refresh flag inside the signed payload.
pub open spec fn kind_of(refresh: bool) -> TokenType {
    if refresh {
        TokenType::Refresh
    } else {
        TokenType::Access
    }
}

/// The expiry of a token issued at `now` with lifetime `ttl`, saturating at
/// the top of the range.
pub open spec fn expiry_at(now: u64, ttl: u64) -> u64 {
    if now + ttl <= u64::MAX {
        (now + ttl) as u64
    } else {
        u64::MAX
    }
}

/// The complete outcome of verifying `token` at instant `now`: the revocation
/// set wins over everything, then the signature and shape, then the expiry.
pub open spec fn verify_spec(
    secret: Seq<char>,
    revoked: Set<Seq<char>>,
    token: Seq<char>,
    now: u64,
) -> AppResult<Claims> {
    if revoked.contains(token) {
        Err(AppError::InvalidToken)
    } else {
        match decode_of(secret, token) {
            None => Err(AppError::InvalidToken),
            Some((sub, exp, refresh)) => {
                if now >= exp {
                    Err(AppError::TokenExpired)
                } else {
                    Ok(Claims { sub, exp, token_type: kind_of(refresh) })
                }
            },
        }
    }
}

/// The outcome `r` of refreshing `token` at instant `now`: verification
/// failures pass through, a non-refresh kind is rejected, and otherwise a
/// fresh, nonempty access token carrying the same subject is always issued.
pub open spec fn refresh_rel(
    secret: Seq<char>,
    revoked: Set<Seq<char>>,
    access_ttl: u64,
    token: Seq<char>,
    now: u64,
    r: AppResult<String>,
) -> bool {
    match verify_spec(secret, revoked, token, now) {
        Err(e) => r == Err::<String, AppError>(e),
        Ok(c) => {
            if c.token_type != TokenType::Refresh {
                r == Err::<String, AppError>(AppError::InvalidToken)
            } else {
                r matches Ok(t) && t@.len() > 0 && decode_of(secret, t@) == Some(
                    (c.sub, expiry_at(now, access_ttl), false),
                )
            }
        },
    }
}

/// Issues and verifies signed session tokens and keeps the revocation set:
/// the only mutable state of the token service.
pub struct AuthService {
    secret: String,
    access_expiry: u64,
    refresh_expiry: u64,
    revoked: Vec<String>,
}

impl AuthService {
    /// The signing secret.
    pub closed spec fn secret_spec(&self) -> Seq<char> {
        self.secret@
    }

    /// Lifetime of issued access tokens, in seconds.
    pub closed spec fn access_expiry_spec(&self) -> u64 {
        self.access_expiry
    }

    /// Lifetime of issued refresh tokens, in seconds.
    pub closed spec fn refresh_expiry_spec(&self) -> u64 {
        self.refresh_expiry
    }

    /// The revocation set: every token string ever revoked.
    pub closed spec fn revoked_spec(&self) -> Set<Seq<char>> {
        Set::new(|t: Seq<char>| exists|i: int| 0 <= i < self.revoked@.len() && self.revoked@[i]@ == t)
    }

    /// A fresh service with an empty revocation set.
    pub fn new(config: &Config) -> (r: Self)
        ensures
            r.secret_spec() == config.auth.jwt_secret@,
            r.access_expiry_spec() == config.auth.access_token_expiry,
            r.refresh_expiry_spec() == config.auth.refresh_token_expiry,
            r.revoked_spec() == Set::<Seq<char>>::empty(),
    {
        let r = AuthService {
            secret: config.auth.jwt_secret.clone(),
            access_expiry: config.auth.access_token_expiry,
            refresh_expiry: config.auth.refresh_token_expiry,
            revoked: Vec::new(),
        };
        proof {
            assert(r.revoked_spec() =~= Set::<Seq<char>>::empty());
        }
        r
    }

    /// Whether `token` stands in the revocation set.
    fn is_revoked(&self, token: &str) -> (b: bool)
        ensures
            b == self.revoked_spec().contains(token@),
    {
        let owned = token.to_owned();
        let n = self.revoked.len();
        let mut i: usize = 0;
        while i < n
            invariant
                n == self.revoked@.len(),
                i <= n,
                owned@ == token@,
                forall|j: int| 0 <= j < i ==> self.revoked@[j]@ != token@,
            decreases n - i,
        {
            if self.revoked[i] == owned {
                assert(self.revoked@[i as int]@ == token@);
                return true;
            }
            i += 1;
        }
        false
    }

    /// Issue an access/refresh pair for `user_id` as of instant `now`. With
    /// an HMAC secret the signing call answers every request, so issuance
    /// always succeeds and both tokens are nonempty.
    pub fn create_token_pair_at(&self, user_id: u128, now: u64) -> (r: AppResult<(String, String)>)
        ensures
            r is Ok,
            r matches Ok(p) ==> p.0@.len() > 0 && p.1@.len() > 0 && decode_of(
                self.secret_spec(),
                p.0@,
            ) == Some((user_id, expiry_at(now, self.access_expiry_spec()), false)) && decode_of(
                self.secret_spec(),
                p.1@,
            ) == Some((user_id, expiry_at(now, self.refresh_expiry_spec()), true)),
    {
        let access_token = self.create_access_token_at(user_id, now)?;
        let refresh_token = self.create_refresh_token_at(user_id, now)?;
        Ok((access_token, refresh_token))
    }

    /// Issue an access/refresh pair for `user_id` as of the current instant.
    /// Issuance always succeeds and both tokens are nonempty.
    pub fn create_token_pair(&self, user_id: u128) -> (r: AppResult<(String, String)>)
        ensures
            r is Ok,
            r matches Ok(p) ==> p.0@.len() > 0 && p.1@.len() > 0 && (exists|now: u64|
                decode_of(self.secret_spec(), p.0@) == Some(
                    (user_id, expiry_at(now, self.access_expiry_spec()), false),
                ) && decode_of(self.secret_spec(), p.1@) == Some(
                    (user_id, expiry_at(now, self.refresh_expiry_spec()), true),
                )),
    {
        let now = match now_unix_seconds() {
            Some(n) => n,
            None => 0,
        };
        self.create_token_pair_at(user_id, now)
    }

    fn create_access_token_at(&self, user_id: u128, now: u64) -> (r: AppResult<String>)
        ensures
            r is Ok,
            r matches Ok(t) ==> t@.len() > 0 && decode_of(self.secret_spec(), t@) == Some(
                (user_id, expiry_at(now, self.access_expiry_spec()), false),
            ),
    {
        let exp = match now.checked_add(self.access_expiry) {
            Some(e) => e,
            None => u64::MAX,
        };
        match jwt_encode(self.secret.as_str(), user_id, exp, false) {
            Some(t) => Ok(t),
            None => Err(AppError::InternalError("Token creation failed".to_owned())),
        }
    }

    fn create_refresh_token_at(&self, user_id: u128, now: u64) -> (r: AppResult<String>)
        ensures
            r is Ok,
            r matches Ok(t) ==> t@.len() > 0 && decode_of(self.secret_spec(), t@) == Some(
                (user_id, expiry_at(now, self.refresh_expiry_spec()), true),
            ),
    {
        let exp = match now.checked_add(self.refresh_expiry) {
            Some(e) => e,
            None => u64::MAX,
        };
        match jwt_encode(self.secret.as_str(), user_id, exp, true) {
            Some(t) => Ok(t),
            None => Err(AppError::InternalError("Refresh token creation failed".to_owned())),
        }
    }

    /// Verify `token` as of instant `now`: revocation first, then signature
    /// and shape, then expiry.
    pub fn verify_token_at(&self, token: &str, now: u64) -> (r: AppResult<Claims>)
        ensures
            r == verify_spec(self.secret_spec(), self.revoked_spec(), token@, now),
    {
        if self.is_revoked(token) {
            return Err(AppError::InvalidToken);
        }
        match jwt_decode(self.secret.as_str(), token) {
            None => Err(AppError::InvalidToken),
            Some((sub, exp, refresh)) => {
                if now >= exp {
                    Err(AppError::TokenExpired)
                } else {
                    let token_type = if refresh {
                        TokenType::Refresh
                    } else {
                        TokenType::Access
                    };
                    Ok(Claims { sub, exp, token_type })
                }
            },
        }
    }

    /// Verify `token` as of the current instant.
    pub fn verify_token(&self, token: &str) -> (r: AppResult<Claims>)
        ensures
            exists|now: u64| r == verify_spec(self.secret_spec(), self.revoked_spec(), token@, now),
    {
        let now = match now_unix_seconds() {
            Some(n) => n,
            None => 0,
        };
        self.verify_token_at(token, now)
    }

    /// Exchange a refresh token for a fresh access token as of instant `now`.
    /// An access-kind token is rejected as invalid; the refresh token itself
    /// is neither rotated nor revoked.
    pub fn refresh_token_at(&self, refresh_token: &str, now: u64) -> (r: AppResult<String>)
        ensures
            refresh_rel(
                self.secret_spec(),
                self.revoked_spec(),
                self.access_expiry_spec(),
                refresh_token@,
                now,
                r,
            ),
    {
        let claims = match self.verify_token_at(refresh_token, now) {
            Ok(c) => c,
            Err(e) => {
                return Err(e);
            },
        };
        if claims.token_type != TokenType::Refresh {
            return Err(AppError::InvalidToken);
        }
        self.create_access_token_at(claims.sub, now)
    }

    /// Exchange a refresh token for a fresh access token as of the current
    /// instant.
    pub fn refresh_token(&self, refresh_token: &str) -> (r: AppResult<String>)
        ensures
            exists|now: u64|
                refresh_rel(
                    self.secret_spec(),
                    self.revoked_spec(),
                    self.access_expiry_spec(),
                    refresh_token@,
                    now,
                    r,
                ),
    {
        let now = match now_unix_seconds() {
            Some(n) => n,
            None => 0,
        };
        self.refresh_token_at(refresh_token, now)
    }

    /// Add one token to the revocation set. Idempotent and always succeeds;
    /// nothing else about the service changes.
    pub fn invalidate_token(&mut self, token: &str) -> (r: AppResult<()>)
        ensures
            r == Ok::<(), AppError>(()),
            final(self).revoked_spec() == old(self).revoked_spec().insert(token@),
            final(self).secret_spec() == old(self).secret_spec(),
            final(self).access_expiry_spec() == old(self).access_expiry_spec(),
            final(self).refresh_expiry_spec() == old(self).refresh_expiry_spec(),
    {
        self.revoked.push(token.to_owned());
        proof {
            assert forall|t: Seq<char>|
                self.revoked_spec().contains(t)
                    == old(self).revoked_spec().insert(token@).contains(t) by {
                if self.revoked_spec().contains(t) {
                    let i = choose|i: int|
                        0 <= i < self.revoked@.len() && self.revoked@[i]@ == t;
                    if i < old(self).revoked@.len() {
                        assert(old(self).revoked@[i]@ == t);
                    }
                }
                if old(self).revoked_spec().contains(t) {
                    let i = choose|i: int|
                        0 <= i < old(self).revoked@.len() && old(self).revoked@[i]@ == t;
                    assert(self.revoked@[i]@ == t);
                }
                if t == token@ {
                    assert(self.revoked@[self.revoked@.len() - 1]@ == t);
                }
            }
            assert(self.revoked_spec() =~= old(self).revoked_spec().insert(token@));
        }
        Ok(())
    }

    /// Revoke both tokens of a session. Idempotent and always succeeds.
    pub fn logout(&mut self, access_token: &str, refresh_token: &str) -> (r: AppResult<()>)
        ensures
            r == Ok::<(), AppError>(()),
            final(self).revoked_spec() == old(self).revoked_spec().insert(access_token@).insert(
                refresh_token@,
            ),
            final(self).secret_spec() == old(self).secret_spec(),
            final(self).access_expiry_spec() == old(self).access_expiry_spec(),
            final(self).refresh_expiry_spec() == old(self).refresh_expiry_spec(),
    {
        let _ = self.invalidate_token(access_token);
        let _ = self.invalidate_token(refresh_token);
        Ok(())
    }
}

/// Law: a token carrying a valid signature verifies successfully at every
/// instant before its expiry, as long as it has not been revoked, and the
/// claims handed back are exactly the signed ones.
pub proof fn lemma_issued_token_verifies(
    secret: Seq<char>,
    revoked: Set<Seq<char>>,
    token: Seq<char>,
    sub: u128,
    exp: u64,
    refresh: bool,
    now: u64,
)
    requires
        decode_of(secret, token) == Some((sub, exp, refresh)),
        !revoked.contains(token),
        now < exp,
    ensures
        verify_spec(secret, revoked, token, now) == Ok::<Claims, AppError>(
            Claims { sub, exp, token_type: kind_of(refresh) },
        ),
{
}

/// Law: as soon as a token stands in the revocation set, verification fails
/// with `InvalidToken` at every instant — even while the signature is valid
/// and the expiry lies ahead.
pub proof fn lemma_revoked_token_fails(
    secret: Seq<char>,
    revoked: Set<Seq<char>>,
    token: Seq<char>,
    now: u64,
)
    ensures
        verify_spec(secret, revoked.insert(token), token, now) == Err::<Claims, AppError>(
            AppError::InvalidToken,
        ),
{
}

/// Law: presenting an unrevoked, unexpired access-kind token to the refresh
/// operation fails with the wrong-kind error: a new access token is never
/// issued for it.
pub proof fn lemma_refresh_rejects_access_token(
    secret: Seq<char>,
    revoked: Set<Seq<char>>,
    access_ttl: u64,
    token: Seq<char>,
    sub: u128,
    exp: u64,
    now: u64,
    r: AppResult<String>,
)
    requires
        decode_of(secret, token) == Some((sub, exp, false)),
        !revoked.contains(token),
        now < exp,
        refresh_rel(secret, revoked, access_ttl, token, now, r),
    ensures
        r == Err::<String, AppError>(AppError::InvalidToken),
{
}

/// Law: an unrevoked token whose expiry has passed fails with `TokenExpired`.
pub proof fn lemma_expired_token_fails(
    secret: Seq<char>,
    revoked: Set<Seq<char>>,
    token: Seq<char>,
    sub: u128,
    exp: u64,
    refresh: bool,
    now: u64,
)
    requires
        decode_of(secret, token) == Some((sub, exp, refresh)),
        !revoked.contains(token),
        now >= exp,
    ensures
        verify_spec(secret, revoked, token, now) == Err::<Claims, AppError>(AppError::TokenExpired),
{
}

} // verus!

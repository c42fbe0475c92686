//! The authentication service: challenges, the check of a signed response,
//! and bearer tokens.

use crate::didcomm::{json_readable, unpack_envelope};
use crate::dispatch::refused_because;
use crate::errors::{ErrorKind, MediatorError};
use crate::ids::fresh_id;
use crate::messages::{is_expired, PlaintextModel, UnpackMetadata, UnpackedMessage};
use crate::seq_facts::lemma_filter_preserves_order;
use crate::session::{RequestLimits, Session};
use crate::text::{has_prefix, slice_chars, starts_with};
use affinidi_messaging_didcomm::DIDCommAgent;
use vstd::prelude::*;

verus! {

/// A challenge: a nonce bound to a DID for a short while.
#[derive(Debug)]
pub struct AuthChallenge {
    pub nonce: String,
    pub bound_did: String,
    /// The second at which the challenge was issued.
    pub issued_at: u64,
    /// The second from which the challenge is void.
    pub expires_at: u64,
}

/// A challenge.
pub struct ChallengeModel {
    pub nonce: Seq<char>,
    pub bound_did: Seq<char>,
    pub issued_at: u64,
    pub expires_at: u64,
}

impl View for AuthChallenge {
    type V = ChallengeModel;

    open spec fn view(&self) -> ChallengeModel {
        ChallengeModel {
            nonce: self.nonce@,
            bound_did: self.bound_did@,
            issued_at: self.issued_at,
            expires_at: self.expires_at,
        }
    }
}

/// The models of challenges, in order.
pub open spec fn challenge_models(v: Seq<AuthChallenge>) -> Seq<ChallengeModel> {
    v.map_values(|c: AuthChallenge| c@)
}

/// The model of an optional challenge.
pub open spec fn opt_challenge(c: Option<AuthChallenge>) -> Option<ChallengeModel> {
    match c {
        Some(c) => Some(c@),
        None => None,
    }
}

/// The seconds for which a challenge can be answered.
pub open spec fn challenge_seconds() -> int {
    60
}

/// The challenges that are not void at the second `now`.
pub open spec fn unexpired_at(now: u64) -> spec_fn(ChallengeModel) -> bool {
    |c: ChallengeModel| now < c.expires_at
}

/// The challenges with another nonce than `nonce`.
pub open spec fn not_nonce(nonce: Seq<char>) -> spec_fn(ChallengeModel) -> bool {
    |c: ChallengeModel| c.nonce != nonce
}

/// The service: the challenges that it issued and that were neither answered
/// nor dropped, and how long its tokens are good for.
pub struct AuthModel {
    pub outstanding: Seq<ChallengeModel>,
    /// The seconds for which an access token is good.
    pub access_ttl: u64,
    /// The seconds for which a refresh token is good.
    pub refresh_ttl: u64,
}

impl AuthModel {
    /// The invariant of the service: no nonce is outstanding twice, and every
    /// challenge is void sixty seconds after it was issued.
    pub open spec fn valid(self) -> bool {
        &&& forall|i: int, j: int|
            0 <= i < j < self.outstanding.len() ==> (#[trigger] self.outstanding[i]).nonce != (
            #[trigger] self.outstanding[j]).nonce
        &&& forall|i: int|
            0 <= i < self.outstanding.len() ==> (#[trigger] self.outstanding[i]).expires_at
                == self.outstanding[i].issued_at + challenge_seconds()
    }

    /// Whether a challenge with the nonce `nonce` is outstanding.
    pub open spec fn has_nonce(self, nonce: Seq<char>) -> bool {
        exists|i: int| 0 <= i < self.outstanding.len() && self.outstanding[i].nonce == nonce
    }

    /// The service without the challenges that are void at the second `now`.
    pub open spec fn live(self, now: u64) -> AuthModel {
        AuthModel { outstanding: self.outstanding.filter(unexpired_at(now)), ..self }
    }

    /// The service without the challenge of the nonce `nonce`.
    pub open spec fn without_nonce(self, nonce: Seq<char>) -> AuthModel {
        AuthModel { outstanding: self.outstanding.filter(not_nonce(nonce)), ..self }
    }

    /// The challenge that is issued to `did` under `nonce` at the second `now`.
    pub open spec fn new_challenge(did: Seq<char>, nonce: Seq<char>, now: u64) -> ChallengeModel {
        ChallengeModel {
            nonce,
            bound_did: did,
            issued_at: now,
            expires_at: (now + challenge_seconds()) as u64,
        }
    }

    /// Whether a challenge can be issued under `nonce` at the second `now`:
    /// its expiry time must be representable, and the nonce must not be that
    /// of a challenge that is still good.
    pub open spec fn can_issue(self, nonce: Seq<char>, now: u64) -> bool {
        now + challenge_seconds() <= u64::MAX && !self.live(now).has_nonce(nonce)
    }

    /// The service after a challenge was asked for: what is void is dropped,
    /// and the new challenge, if it can be issued, is outstanding.
    pub open spec fn after_issue(self, did: Seq<char>, nonce: Seq<char>, now: u64) -> AuthModel {
        if self.can_issue(nonce, now) {
            AuthModel {
                outstanding: self.live(now).outstanding.push(Self::new_challenge(did, nonce, now)),
                ..self
            }
        } else {
            self.live(now)
        }
    }

    /// Whether a response is accepted at the second `now`: the envelope was
    /// encrypted and its sender authenticated, the body echoes a challenge
    /// that is outstanding and not void, the sender is the DID that the
    /// challenge is bound to, and the message itself has not expired.
    pub open spec fn accepts(
        self,
        msg: PlaintextModel,
        encrypted: bool,
        authenticated: bool,
        echoed: Option<ChallengeModel>,
        now: u64,
    ) -> bool {
        &&& encrypted
        &&& authenticated
        &&& echoed matches Some(c)
        &&& msg.from == Some(c.bound_did)
        &&& self.outstanding.contains(c)
        &&& now < c.expires_at
        &&& !is_expired(msg.expires_time, now)
    }
}

/// Whether `result` is the one failure of authentication: `AuthFailed` of
/// the session, for the same reason whatever went wrong.
pub open spec fn auth_failed<T>(result: Result<T, MediatorError>, session_id: Seq<char>) -> bool {
    refused_because(result, ErrorKind::AuthFailed, session_id, "Authentication failed"@)
}

/// What a bearer token states: whom it is for, when it was issued and from
/// when it is void.
#[derive(Debug)]
pub struct TokenClaims {
    pub sub: String,
    pub iat: u64,
    pub exp: u64,
}

/// The claims as plain values: subject, time of issue, time of expiry.
pub open spec fn claims_view(c: Option<TokenClaims>) -> Option<(Seq<char>, u64, u64)> {
    match c {
        Some(c) => Some((c.sub@, c.iat, c.exp)),
        None => None,
    }
}

/// The pair of tokens that a successful authentication yields.
#[derive(Debug)]
pub struct AuthorizationResponse {
    pub access_token: String,
    pub refresh_token: String,
}

/// The texts of a pair of tokens.
pub open spec fn tokens_view(t: Option<AuthorizationResponse>) -> Option<(Seq<char>, Seq<char>)> {
    match t {
        Some(t) => Some((t.access_token@, t.refresh_token@)),
        None => None,
    }
}

/// The token that states the given claims, signed with the Ed25519 key in
/// the PKCS#8 document `key`; nothing where the key cannot sign. It stands
/// for what `jsonwebtoken::encode` returns.
pub uninterp spec fn jwt_of(sub: Seq<char>, iat: u64, exp: u64, key: Seq<u8>) -> Option<Seq<char>>;

/// The claims of `token` where its signature verifies under the Ed25519
/// public key `public_key` and it states a subject, a time of issue and a
/// time of expiry; nothing otherwise. It stands for what
/// `jsonwebtoken::decode` returns when it is asked to verify the signature
/// and not to judge the times.
pub uninterp spec fn jwt_claims(token: Seq<char>, public_key: Seq<u8>) -> Option<
    (Seq<char>, u64, u64),
>;

/// The challenge that the JSON text `body` states by its members `nonce`,
/// `bound_did`, `issued_at` and `expires_at`; nothing where it is no such
/// text. It stands for what `serde_json::from_str` reads.
pub uninterp spec fn challenge_of(body: Seq<char>) -> Option<ChallengeModel>;

/// The Ed25519 public key of the key pair in the PKCS#8 document `pkcs8`;
/// nothing where the document is refused. It stands for what
/// `ring::signature::Ed25519KeyPair::from_pkcs8` accepts.
pub uninterp spec fn ed25519_public_of(pkcs8: Seq<u8>) -> Option<Seq<u8>>;

/// Calls `jsonwebtoken::encode` with an EdDSA header, the three claims and
/// the key as `EncodingKey::from_ed_der` makes it. Signing with Ed25519 draws
/// nothing at random, so the contract names the result. Not proved.
#[verifier::external_body]
fn sign_claims(sub: &str, iat: u64, exp: u64, key: &[u8]) -> (token: Option<String>)
    ensures
        crate::text::opt_text(token) == jwt_of(sub@, iat, exp, key@),
{
    let mut claims = serde_json::Map::new();
    claims.insert("sub".to_owned(), sub.into());
    claims.insert("iat".to_owned(), iat.into());
    claims.insert("exp".to_owned(), exp.into());
    let header = jsonwebtoken::Header::new(jsonwebtoken::Algorithm::EdDSA);
    jsonwebtoken::encode(&header, &claims, &jsonwebtoken::EncodingKey::from_ed_der(key)).ok()
}

/// Calls `jsonwebtoken::decode` for EdDSA with the key as
/// `DecodingKey::from_ed_der` makes it, with the checks of the expiry time
/// and of the audience switched off and no claim demanded, and picks the
/// three claims out of what it returns. So asked, the crate verifies the signature and reads no clock;
/// the contract names the result. Not proved.
#[verifier::external_body]
fn verified_claims(token: &str, public_key: &[u8]) -> (claims: Option<TokenClaims>)
    ensures
        claims_view(claims) == jwt_claims(token@, public_key@),
{
    let mut validation = jsonwebtoken::Validation::new(jsonwebtoken::Algorithm::EdDSA);
    validation.validate_exp = false;
    validation.validate_aud = false;
    validation.required_spec_claims.clear();
    let key = jsonwebtoken::DecodingKey::from_ed_der(public_key);
    let data = jsonwebtoken::decode::<serde_json::Value>(token, &key, &validation).ok()?;
    Some(
        TokenClaims {
            sub: data.claims.get("sub")?.as_str()?.to_owned(),
            iat: data.claims.get("iat")?.as_u64()?,
            exp: data.claims.get("exp")?.as_u64()?,
        },
    )
}

/// Calls `serde_json::from_str` on the body and picks the four members of a
/// challenge out of the value. The contract names the result. Not proved.
#[verifier::external_body]
fn read_challenge(body: &str) -> (echoed: Option<AuthChallenge>)
    ensures
        opt_challenge(echoed) == challenge_of(body@),
{
    let value: serde_json::Value = serde_json::from_str(body).ok()?;
    Some(
        AuthChallenge {
            nonce: value.get("nonce")?.as_str()?.to_owned(),
            bound_did: value.get("bound_did")?.as_str()?.to_owned(),
            issued_at: value.get("issued_at")?.as_u64()?,
            expires_at: value.get("expires_at")?.as_u64()?,
        },
    )
}

/// Calls `ring::signature::Ed25519KeyPair::from_pkcs8` and copies the public
/// key of the pair. The contract names the result. Not proved.
#[verifier::external_body]
fn public_key_of(pkcs8: &[u8]) -> (public_key: Option<Vec<u8>>)
    ensures
        match public_key {
            Some(k) => ed25519_public_of(pkcs8@) == Some(k@),
            None => ed25519_public_of(pkcs8@) is None,
        },
{
    let pair = ring::signature::Ed25519KeyPair::from_pkcs8(pkcs8).ok()?;
    Some(ring::signature::KeyPair::public_key(&pair).as_ref().to_vec())
}

/// The public key that verifies what the key pair in the PKCS#8 document
/// `pkcs8` signs, if the document holds an Ed25519 key pair.
pub fn jwt_public_key(pkcs8: &[u8]) -> (public_key: Option<Vec<u8>>)
    ensures
        match public_key {
            Some(k) => ed25519_public_of(pkcs8@) == Some(k@),
            None => ed25519_public_of(pkcs8@) is None,
        },
{
    public_key_of(pkcs8)
}

/// The pair of tokens for `did` issued at the second `now`: an access token
/// good for `access_ttl` seconds and a refresh token good for `refresh_ttl`,
/// where both expiry times can be represented and the key signs.
pub open spec fn token_pair(
    did: Seq<char>,
    key: Seq<u8>,
    now: u64,
    access_ttl: u64,
    refresh_ttl: u64,
) -> Option<(Seq<char>, Seq<char>)> {
    if now + access_ttl > u64::MAX || now + refresh_ttl > u64::MAX {
        None
    } else {
        match (
            jwt_of(did, now, (now + access_ttl) as u64, key),
            jwt_of(did, now, (now + refresh_ttl) as u64, key),
        ) {
            (Some(access), Some(refresh)) => Some((access, refresh)),
            _ => None,
        }
    }
}

/// Mints the pair of tokens for `did` at the second `now`.
pub fn mint_tokens(did: &str, key: &[u8], now: u64, access_ttl: u64, refresh_ttl: u64) -> (tokens:
    Option<AuthorizationResponse>)
    ensures
        tokens_view(tokens) == token_pair(did@, key@, now, access_ttl, refresh_ttl),
{
    if access_ttl > u64::MAX - now || refresh_ttl > u64::MAX - now {
        return None;
    }
    let access = sign_claims(did, now, now + access_ttl, key);
    let refresh = sign_claims(did, now, now + refresh_ttl, key);
    match (access, refresh) {
        (Some(access_token), Some(refresh_token)) => Some(
            AuthorizationResponse { access_token, refresh_token },
        ),
        _ => None,
    }
}

/// Whether a token with the given verified claims is good at the second
/// `now`: its signature verified, and `now` is before its expiry time.
pub open spec fn bearer_valid(claims: Option<(Seq<char>, u64, u64)>, now: u64) -> bool {
    claims matches Some(c) && now < c.2
}

/// Judges a token by what the check of its signature returned: it validates
/// exactly if the signature verified and `now` is before the expiry time.
/// Whatever else is wrong, the failure is `AuthFailed`.
pub fn accept_claims(claims: Option<TokenClaims>, session_id: &str, now: u64) -> (result: Result<
    TokenClaims,
    MediatorError,
>)
    ensures
        bearer_valid(claims_view(claims), now) ==> (result matches Ok(c) && Some(c) == claims),
        !bearer_valid(claims_view(claims), now) ==> auth_failed(result, session_id@),
{
    match claims {
        Some(c) => {
            if now < c.exp {
                Ok(c)
            } else {
                Err(MediatorError::new(ErrorKind::AuthFailed, session_id, "Authentication failed"))
            }
        },
        None => Err(
            MediatorError::new(ErrorKind::AuthFailed, session_id, "Authentication failed"),
        ),
    }
}

/// Validates a bearer token under the public key `public_key` at the second
/// `now`: it validates exactly if its signature verifies under that key and
/// `now` is before its expiry time.
pub fn validate_bearer(token: &str, public_key: &[u8], session_id: &str, now: u64) -> (result:
    Result<TokenClaims, MediatorError>)
    ensures
        result is Ok <==> bearer_valid(jwt_claims(token@, public_key@), now),
        result matches Ok(c) ==> jwt_claims(token@, public_key@) == Some((c.sub@, c.iat, c.exp)),
        result is Err ==> auth_failed(result, session_id@),
{
    let claims = verified_claims(token, public_key);
    accept_claims(claims, session_id, now)
}

/// The token in the value of an `Authorization` header: what follows
/// `Bearer ` and a single space, where the value begins so.
pub open spec fn spec_bearer_token(header: Seq<char>) -> Option<Seq<char>> {
    if has_prefix(header, "Bearer "@) {
        Some(header.subrange(7, header.len() as int))
    } else {
        None
    }
}

/// The token in the value of an `Authorization` header.
pub fn bearer_token(header: &str) -> (token: Option<String>)
    ensures
        crate::text::opt_text(token) == spec_bearer_token(header@),
{
    proof {
        reveal_strlit("Bearer ");
    }
    if starts_with(header, "Bearer ") {
        let n = header.unicode_len();
        Some(slice_chars(header, 7, n))
    } else {
        None
    }
}

/// The session of a request that carries the bearer token `token`: the
/// subject of a token that validates is the session's DID.
pub fn session_from_bearer(
    token: &str,
    public_key: &[u8],
    session_id: &str,
    limits: RequestLimits,
    now: u64,
) -> (result: Result<Session, MediatorError>)
    ensures
        result is Ok <==> bearer_valid(jwt_claims(token@, public_key@), now),
        result matches Ok(session) ==> {
            &&& session.wf()
            &&& session.session_id@ == session_id@
            &&& session.limits == limits
            &&& jwt_claims(token@, public_key@) matches Some(c)
            &&& session.did@ == c.0
        },
        result is Err ==> auth_failed(result, session_id@),
{
    match validate_bearer(token, public_key, session_id, now) {
        Ok(claims) => Ok(Session::new(session_id, claims.sub.as_str(), limits)),
        Err(e) => Err(e),
    }
}

/// Which challenges to drop in one pass.
enum Dropping {
    Void { now: u64 },
    Nonce { nonce: String },
}

impl Dropping {
    spec fn keeps(&self) -> spec_fn(ChallengeModel) -> bool {
        match self {
            Dropping::Void { now } => unexpired_at(*now),
            Dropping::Nonce { nonce } => not_nonce(nonce@),
        }
    }

    fn keeps_one(&self, c: &AuthChallenge) -> (kept: bool)
        ensures
            kept == self.keeps()(c@),
    {
        match self {
            Dropping::Void { now } => *now < c.expires_at,
            Dropping::Nonce { nonce } => !(c.nonce == *nonce),
        }
    }
}

/// Drops from `list` what `rule` names and keeps the rest in order.
fn drop_from(list: &mut Vec<AuthChallenge>, rule: &Dropping)
    ensures
        challenge_models(final(list)@) == challenge_models(old(list)@).filter(rule.keeps()),
{
    let total: usize = list.len();
    let ghost before = challenge_models(list@);
    let ghost keep = rule.keeps();
    let ghost mut done: int = 0;
    let mut i: usize = 0;
    proof {
        reveal(Seq::filter);
        assert(before.take(0).filter(keep) =~= Seq::<ChallengeModel>::empty());
        assert(challenge_models(list@).take(0) =~= Seq::<ChallengeModel>::empty());
        assert(challenge_models(list@).skip(0) =~= before.skip(0));
    }
    while i < list.len()
        invariant
            keep == rule.keeps(),
            before.len() == total,
            0 <= i <= list.len(),
            0 <= done <= before.len(),
            list.len() - i == before.len() - done,
            challenge_models(list@).take(i as int) == before.take(done).filter(keep),
            challenge_models(list@).skip(i as int) == before.skip(done),
        decreases list.len() - i,
    {
        let ghost current = challenge_models(list@);
        assert(current[i as int] == current.skip(i as int)[0]);
        assert(before.skip(done)[0] == before[done]);
        assert(before.take(done + 1) =~= before.take(done).push(before[done]));
        proof {
            before.take(done).lemma_filter_push(before[done], keep);
        }
        if rule.keeps_one(&list[i]) {
            proof {
                assert(current.take(i + 1) =~= current.take(i as int).push(current[i as int]));
                assert(current.skip(i + 1) =~= current.skip(i as int).skip(1));
                assert(before.skip(done).skip(1) =~= before.skip(done + 1));
                done = done + 1;
            }
            i += 1;
        } else {
            list.remove(i);
            proof {
                let after = challenge_models(list@);
                assert(after =~= current.remove(i as int));
                assert(after.take(i as int) =~= current.take(i as int));
                assert(after.skip(i as int) =~= current.skip(i as int).skip(1));
                assert(before.skip(done).skip(1) =~= before.skip(done + 1));
                done = done + 1;
            }
        }
    }
    proof {
        assert(challenge_models(list@).take(i as int) =~= challenge_models(list@));
        assert(before.take(done) =~= before);
    }
}

/// Dropping challenges from a valid service leaves a valid service, and
/// what is left was outstanding before and is kept by the rule.
pub proof fn lemma_filter_keeps_valid(m: AuthModel, keep: spec_fn(ChallengeModel) -> bool)
    requires
        m.valid(),
    ensures
        (AuthModel { outstanding: m.outstanding.filter(keep), ..m }).valid(),
        forall|i: int|
            0 <= i < m.outstanding.filter(keep).len() ==> m.outstanding.contains(
                #[trigger] m.outstanding.filter(keep)[i],
            ) && keep(m.outstanding.filter(keep)[i]),
{
    let left = m.outstanding.filter(keep);
    let apart = |a: ChallengeModel, b: ChallengeModel| a.nonce != b.nonce;
    lemma_filter_preserves_order(m.outstanding, keep, apart);
    assert forall|i: int, j: int| 0 <= i < j < left.len() implies (#[trigger] left[i]).nonce != (
    #[trigger] left[j]).nonce by {
        assert(apart(left[i], left[j]));
    }
    assert forall|i: int| 0 <= i < left.len() implies (#[trigger] left[i]).expires_at
        == left[i].issued_at + challenge_seconds() && m.outstanding.contains(left[i]) && keep(
        left[i],
    ) by {
        assert(m.outstanding.contains(left[i]));
        let k = choose|k: int| 0 <= k < m.outstanding.len() && m.outstanding[k] == left[i];
        assert(m.outstanding[k].expires_at == m.outstanding[k].issued_at + challenge_seconds());
        m.outstanding.lemma_filter_pred(keep, i);
    }
}

/// The authentication service.
pub struct AuthService {
    outstanding: Vec<AuthChallenge>,
    access_ttl: u64,
    refresh_ttl: u64,
}

impl View for AuthService {
    type V = AuthModel;

    closed spec fn view(&self) -> AuthModel {
        AuthModel {
            outstanding: challenge_models(self.outstanding@),
            access_ttl: self.access_ttl,
            refresh_ttl: self.refresh_ttl,
        }
    }
}

impl AuthService {
    /// Whether the service is in a state that its operations keep.
    pub open spec fn wf(&self) -> bool {
        self@.valid()
    }

    /// A service without outstanding challenges, whose access tokens are good
    /// for `access_ttl` seconds and whose refresh tokens for `refresh_ttl`.
    pub fn new(access_ttl: u64, refresh_ttl: u64) -> (service: AuthService)
        ensures
            service.wf(),
            service@ == (AuthModel { outstanding: Seq::empty(), access_ttl, refresh_ttl }),
    {
        let service = AuthService { outstanding: Vec::new(), access_ttl, refresh_ttl };
        assert(challenge_models(service.outstanding@) =~= Seq::<ChallengeModel>::empty());
        service
    }

    /// How many challenges are outstanding.
    pub fn outstanding_count(&self) -> (n: usize)
        ensures
            n == self@.outstanding.len(),
    {
        self.outstanding.len()
    }

    /// Whether a challenge with the nonce `nonce` is outstanding.
    fn knows_nonce(&self, nonce: &String) -> (known: bool)
        ensures
            known == self@.has_nonce(nonce@),
    {
        let mut i: usize = 0;
        while i < self.outstanding.len()
            invariant
                0 <= i <= self.outstanding.len(),
                forall|j: int| 0 <= j < i ==> self@.outstanding[j].nonce != nonce@,
            decreases self.outstanding.len() - i,
        {
            if self.outstanding[i].nonce == *nonce {
                assert(self@.outstanding[i as int].nonce == nonce@);
                return true;
            }
            i += 1;
        }
        false
    }

    /// Issues to `did` the challenge with the nonce `nonce`, at the second
    /// `now`. It is void sixty seconds later.
    ///
    /// The challenges that are void by `now` are dropped first. The failure is
    /// an `InternalError`, and comes exactly where the expiry time cannot be
    /// represented or the nonce is that of a challenge that is still good.
    pub fn issue_challenge(&mut self, did: &str, nonce: String, session_id: &str, now: u64) -> (result:
        Result<AuthChallenge, MediatorError>)
        requires
            old(self).wf(),
        ensures
            final(self).wf(),
            final(self)@ == old(self)@.after_issue(did@, nonce@, now),
            old(self)@.can_issue(nonce@, now) ==> (result matches Ok(c) && c@
                == AuthModel::new_challenge(did@, nonce@, now)),
            !old(self)@.can_issue(nonce@, now) ==> refused_because(
                result,
                ErrorKind::InternalError,
                session_id@,
                "Could not issue a challenge"@,
            ),
    {
        proof {
            lemma_filter_keeps_valid(self@, unexpired_at(now));
        }
        drop_from(&mut self.outstanding, &Dropping::Void { now });
        if now > u64::MAX - 60 || self.knows_nonce(&nonce) {
            return Err(
                MediatorError::new(
                    ErrorKind::InternalError,
                    session_id,
                    "Could not issue a challenge",
                ),
            );
        }
        let ghost live = self@;
        let challenge = AuthChallenge {
            nonce: nonce.clone(),
            bound_did: did.to_owned(),
            issued_at: now,
            expires_at: now + 60,
        };
        let issued = AuthChallenge {
            nonce,
            bound_did: did.to_owned(),
            issued_at: now,
            expires_at: now + 60,
        };
        self.outstanding.push(challenge);
        proof {
            assert(challenge_models(self.outstanding@) =~= live.outstanding.push(issued@));
            assert forall|i: int, j: int| 0 <= i < j < self@.outstanding.len() implies (
            #[trigger] self@.outstanding[i]).nonce != (#[trigger] self@.outstanding[j]).nonce by {
                if j == self@.outstanding.len() - 1 {
                    assert(live.outstanding[i].nonce != issued@.nonce);
                } else {
                    assert(live.outstanding[i].nonce != live.outstanding[j].nonce);
                }
            }
        }
        Ok(issued)
    }

    /// Issues a challenge to `did` under a fresh random nonce, at the second
    /// `now`. Whatever nonce was drawn, the outcome is that of
    /// `issue_challenge` for it.
    pub fn begin_challenge(&mut self, did: &str, session_id: &str, now: u64) -> (result: Result<
        AuthChallenge,
        MediatorError,
    >)
        requires
            old(self).wf(),
        ensures
            final(self).wf(),
            result matches Ok(c) ==> {
                &&& c@ == AuthModel::new_challenge(did@, c.nonce@, now)
                &&& old(self)@.can_issue(c.nonce@, now)
                &&& final(self)@ == old(self)@.after_issue(did@, c.nonce@, now)
            },
            result is Err ==> refused_because(
                result,
                ErrorKind::InternalError,
                session_id@,
                "Could not issue a challenge"@,
            ),
    {
        let nonce = fresh_id();
        self.issue_challenge(did, nonce, session_id, now)
    }

    /// Where the challenge equal to `c` stands among the outstanding ones.
    fn position_of(&self, c: &AuthChallenge) -> (at: Option<usize>)
        ensures
            match at {
                Some(i) => i < self@.outstanding.len() && self@.outstanding[i as int] == c@,
                None => !self@.outstanding.contains(c@),
            },
    {
        let mut i: usize = 0;
        while i < self.outstanding.len()
            invariant
                0 <= i <= self.outstanding.len(),
                forall|j: int| 0 <= j < i ==> self@.outstanding[j] != c@,
            decreases self.outstanding.len() - i,
        {
            let o = &self.outstanding[i];
            if o.nonce == c.nonce && o.bound_did == c.bound_did && o.issued_at == c.issued_at
                && o.expires_at == c.expires_at {
                return Some(i);
            }
            i += 1;
        }
        None
    }

    /// Checks a response against the challenge `echoed` that its body states,
    /// at the second `now`.
    ///
    /// A response that is accepted names the DID that has authenticated, and
    /// its challenge is outstanding no longer: it can be answered once. Any
    /// other response fails as `AuthFailed`, whatever is wrong with it, and
    /// changes nothing.
    pub fn check_response(
        &mut self,
        msg: &UnpackedMessage,
        meta: &UnpackMetadata,
        echoed: Option<AuthChallenge>,
        session_id: &str,
        now: u64,
    ) -> (result: Result<String, MediatorError>)
        requires
            old(self).wf(),
        ensures
            final(self).wf(),
            old(self)@.accepts(msg@, meta.encrypted, meta.authenticated, opt_challenge(echoed), now)
                ==> {
                &&& result matches Ok(did)
                &&& did@ == echoed->Some_0.bound_did@
                &&& final(self)@ == old(self)@.without_nonce(echoed->Some_0.nonce@)
            },
            !old(self)@.accepts(
                msg@,
                meta.encrypted,
                meta.authenticated,
                opt_challenge(echoed),
                now,
            ) ==> {
                &&& auth_failed(result, session_id@)
                &&& final(self)@ == old(self)@
            },
    {
        let accepted = match &echoed {
            Some(c) => {
                let from_bound = match &msg.from {
                    Some(sender) => *sender == c.bound_did,
                    None => false,
                };
                meta.encrypted && meta.authenticated && from_bound && now < c.expires_at
                    && !msg.expired_at(now) && self.position_of(c).is_some()
            },
            None => false,
        };
        if !accepted {
            return Err(
                MediatorError::new(ErrorKind::AuthFailed, session_id, "Authentication failed"),
            );
        }
        match echoed {
            Some(c) => {
                proof {
                    lemma_filter_keeps_valid(self@, not_nonce(c.nonce@));
                }
                drop_from(&mut self.outstanding, &Dropping::Nonce { nonce: c.nonce.clone() });
                Ok(c.bound_did)
            },
            None => Err(
                MediatorError::new(ErrorKind::AuthFailed, session_id, "Authentication failed"),
            ),
        }
    }

    /// Answers a challenge response at the second `now`: the response is
    /// checked against the challenge that its body echoes, and where it is
    /// accepted a pair of tokens is minted for the DID with the key `jwt_key`.
    ///
    /// Every failure is `AuthFailed`. A response that is accepted uses its
    /// challenge up, also where no token can be minted.
    pub fn authenticate(
        &mut self,
        msg: &UnpackedMessage,
        meta: &UnpackMetadata,
        jwt_key: &[u8],
        session_id: &str,
        now: u64,
    ) -> (result: Result<AuthorizationResponse, MediatorError>)
        requires
            old(self).wf(),
        ensures
            final(self).wf(),
            authenticated(
                old(self)@,
                final(self)@,
                result,
                msg@,
                meta.encrypted,
                meta.authenticated,
                challenge_of(msg.body@),
                jwt_key@,
                session_id@,
                now,
            ),
    {
        let echoed = read_challenge(msg.body.as_str());
        let did = self.check_response(msg, meta, echoed, session_id, now)?;
        match mint_tokens(did.as_str(), jwt_key, now, self.access_ttl, self.refresh_ttl) {
            Some(tokens) => Ok(tokens),
            None => Err(
                MediatorError::new(ErrorKind::AuthFailed, session_id, "Authentication failed"),
            ),
        }
    }
}

impl AuthService {
    /// Answers a packed challenge response at the second `now`: the envelope
    /// is unpacked with the keys of `agent`, within the given limit of
    /// cryptographic operations, and the message is answered as
    /// `authenticate` answers it.
    ///
    /// Whether the envelope can be unpacked is for the cryptography to say.
    /// Every failure is `AuthFailed`: an envelope that cannot be unpacked is
    /// not told apart from a response that is not accepted, and leaves the
    /// service as it was.
    pub fn authenticate_packed(
        &mut self,
        agent: &DIDCommAgent,
        envelope: &str,
        sender_did: Option<&str>,
        crypto_operations_limit: usize,
        jwt_key: &[u8],
        session_id: &str,
        now: u64,
    ) -> (result: Result<AuthorizationResponse, MediatorError>)
        requires
            old(self).wf(),
        ensures
            final(self).wf(),
            result is Err ==> auth_failed(result, session_id@),
            !json_readable(envelope@) ==> result is Err && final(self)@ == old(self)@,
            (result is Err && final(self)@ == old(self)@) || exists|
                msg: UnpackedMessage,
                meta: UnpackMetadata,
            |
                authenticated(
                    old(self)@,
                    final(self)@,
                    result,
                    msg@,
                    meta.encrypted,
                    meta.authenticated,
                    challenge_of(msg.body@),
                    jwt_key@,
                    session_id@,
                    now,
                ),
    {
        match unpack_envelope(agent, envelope, sender_did, crypto_operations_limit, session_id) {
            Ok((msg, meta)) => {
                let result = self.authenticate(&msg, &meta, jwt_key, session_id, now);
                proof {
                    assert(authenticated(
                        old(self)@,
                        self@,
                        result,
                        msg@,
                        meta.encrypted,
                        meta.authenticated,
                        challenge_of(msg.body@),
                        jwt_key@,
                        session_id@,
                        now,
                    ));
                }
                result
            },
            Err(_) => Err(
                MediatorError::new(ErrorKind::AuthFailed, session_id, "Authentication failed"),
            ),
        }
    }
}

/// Whether `result` and the service `after` are what `authenticate` makes of
/// a response whose body echoes `echoed`.
pub open spec fn authenticated(
    before: AuthModel,
    after: AuthModel,
    result: Result<AuthorizationResponse, MediatorError>,
    msg: PlaintextModel,
    encrypted: bool,
    is_authenticated: bool,
    echoed: Option<ChallengeModel>,
    key: Seq<u8>,
    session_id: Seq<char>,
    now: u64,
) -> bool {
    if before.accepts(msg, encrypted, is_authenticated, echoed, now) {
        let c = echoed->Some_0;
        let tokens = token_pair(c.bound_did, key, now, before.access_ttl, before.refresh_ttl);
        &&& after == before.without_nonce(c.nonce)
        &&& match tokens {
            Some((access, refresh)) => {
                &&& result matches Ok(t)
                &&& t.access_token@ == access
                &&& t.refresh_token@ == refresh
            },
            None => auth_failed(result, session_id),
        }
    } else {
        &&& after == before
        &&& auth_failed(result, session_id)
    }
}

/// A challenge can be answered once: after a response was accepted, no
/// response that echoes a challenge with the same nonce is accepted again,
/// whoever sends it and whenever.
pub proof fn law_replay_fails(
    m: AuthModel,
    nonce: Seq<char>,
    msg: PlaintextModel,
    encrypted: bool,
    is_authenticated: bool,
    echoed: ChallengeModel,
    later: u64,
)
    requires
        echoed.nonce == nonce,
    ensures
        !m.without_nonce(nonce).accepts(msg, encrypted, is_authenticated, Some(echoed), later),
{
    let left = m.without_nonce(nonce).outstanding;
    if left.contains(echoed) {
        let i = choose|i: int| 0 <= i < left.len() && left[i] == echoed;
        m.outstanding.lemma_filter_pred(not_nonce(nonce), i);
        assert(false);
    }
}

/// A challenge stays good while others come and go: asking for another
/// challenge, or the answer to a challenge with another nonce, does not keep
/// a response that would have been accepted from being accepted.
pub proof fn law_valid_response_survives(
    m: AuthModel,
    msg: PlaintextModel,
    echoed: ChallengeModel,
    now: u64,
    other_did: Seq<char>,
    other_nonce: Seq<char>,
    earlier: u64,
)
    requires
        m.valid(),
        m.accepts(msg, true, true, Some(echoed), now),
        earlier <= now,
        other_nonce != echoed.nonce,
    ensures
        m.after_issue(other_did, other_nonce, earlier).accepts(msg, true, true, Some(echoed), now),
        m.without_nonce(other_nonce).accepts(msg, true, true, Some(echoed), now),
{
    let i = choose|i: int| 0 <= i < m.outstanding.len() && m.outstanding[i] == echoed;
    m.outstanding.lemma_filter_contains(unexpired_at(earlier), i);
    m.outstanding.lemma_filter_contains(not_nonce(other_nonce), i);
    let live = m.live(earlier).outstanding;
    let k = choose|k: int| 0 <= k < live.len() && live[k] == echoed;
    if m.can_issue(other_nonce, earlier) {
        let grown = live.push(AuthModel::new_challenge(other_did, other_nonce, earlier));
        assert(grown[k] == echoed);
    }
}

} // verus!

//! Signed bearer tokens: issuing a token for a subject and checking one.
use vstd::prelude::*;
use hmac::{Hmac, Mac};
use jwt::{SignWithKey, VerifyWithKey};
use sha2::Sha256;
use std::collections::BTreeMap;

verus! {

/// The signed payload of a token: the subject's numeric identifier.
#[derive(Clone, Copy, Debug, PartialEq, Eq, Structural)]
pub struct TokenClaims {
    pub id: i32,
}

/// Why a token was not accepted.
#[derive(Clone, Copy, Debug, PartialEq, Eq, Structural)]
pub enum TokenError {
    /// The signature does not match the payload under the given secret.
    InvalidSignature,
    /// The token is not three well-formed segments with an identifier claim,
    /// or it could not be produced.
    Malformed,
}

/// The compact HS256 token that signs the payload `{"id": id}` with `key`.
pub uninterp spec fn hs256_token(id: i32, key: Seq<u8>) -> Seq<char>;

/// The claim entries that an HS256 token carries when its signature checks
/// out under `key`; `None` when the token is rejected.
pub uninterp spec fn hs256_claims(token: Seq<char>, key: Seq<u8>) -> Option<Seq<(Seq<char>, i32)>>;

/// The name of the identifier claim.
pub open spec fn id_claim_name() -> Seq<char> {
    seq!['i', 'd']
}

/// The views of a list of claim entries.
pub open spec fn entries_view(v: Seq<(String, i32)>) -> Seq<(Seq<char>, i32)> {
    v.map_values(|e: (String, i32)| (e.0@, e.1))
}

/// The value of the first entry named `id`, if there is one.
pub open spec fn id_claim(entries: Seq<(Seq<char>, i32)>) -> Option<i32>
    decreases entries.len(),
{
    if entries.len() == 0 {
        None
    } else if entries[0].0 == id_claim_name() {
        Some(entries[0].1)
    } else {
        id_claim(entries.drop_first())
    }
}

/// The claims read from the entries of a token whose signature checked
/// out: the identifier claim, or `Malformed` when there is none.
pub open spec fn claims_outcome(entries: Seq<(Seq<char>, i32)>) -> Result<TokenClaims, TokenError> {
    match id_claim(entries) {
        Some(id) => Ok(TokenClaims { id }),
        None => Err(TokenError::Malformed),
    }
}

/// The number of `.` separators in a token string; a compact token has
/// three segments, so two separators.
pub open spec fn dot_count(s: Seq<char>) -> nat
    decreases s.len(),
{
    if s.len() == 0 {
        0
    } else {
        (if s.last() == '.' { 1nat } else { 0nat }) + dot_count(s.drop_last())
    }
}

/// Relies on `jwt::SignWithKey::sign_with_key` with an `Hmac<Sha256>` key
/// (`hmac::Mac::new_from_slice`, which takes a key of any length): the token
/// for the claims object `{"id": id}` depends on `id` and the key alone.
/// Neither step fails: the key is taken at any length, the claims map
/// always serialises, and HMAC signing always returns `Ok`.
#[verifier::external_body]
fn sign_id_claim(id: i32, key: &[u8]) -> (r: Result<String, TokenError>)
    ensures
        r is Ok,
        r->Ok_0@ == hs256_token(id, key@),
{
    let mac: Hmac<Sha256> = Hmac::new_from_slice(key).map_err(|_| TokenError::Malformed)?;
    BTreeMap::from([("id", id)]).sign_with_key(&mac).map_err(|_| TokenError::Malformed)
}

/// Relies on `jwt::VerifyWithKey::verify_with_key` into a map of integer
/// claims, with an `Hmac<Sha256>` key: the outcome depends on the token and
/// the key alone, and a token that `sign_with_key` made for `{"id": id}`
/// under the same key is accepted with exactly that one claim. A token that
/// is not three `.`-separated segments is refused before any other check
/// (`split_components`), as malformed.
#[verifier::external_body]
fn verify_claims(token: &str, key: &[u8]) -> (r: Result<Vec<(String, i32)>, TokenError>)
    ensures
        r is Ok <==> hs256_claims(token@, key@) is Some,
        r is Ok ==> hs256_claims(token@, key@) == Some(entries_view(r->Ok_0@)),
        forall|id: i32|
            #[trigger] hs256_token(id, key@) == token@ ==> r is Ok && entries_view(r->Ok_0@)
                == seq![(id_claim_name(), id)],
        dot_count(token@) != 2 ==> (r is Err && r->Err_0 == TokenError::Malformed),
{
    let mac: Hmac<Sha256> = Hmac::new_from_slice(key).map_err(|_| TokenError::Malformed)?;
    match VerifyWithKey::<BTreeMap<String, i32>>::verify_with_key(token, &mac) {
        Ok(m) => Ok(m.into_iter().collect()),
        Err(jwt::Error::InvalidSignature) => Err(TokenError::InvalidSignature),
        Err(jwt::Error::RustCryptoMac(_)) => Err(TokenError::InvalidSignature),
        Err(_) => Err(TokenError::Malformed),
    }
}

/// The identifier claim among decoded claim entries: the value of the first
/// entry named `id`.
pub fn id_from_entries(entries: &Vec<(String, i32)>) -> (r: Option<i32>)
    ensures
        r == id_claim(entries_view(entries@)),
{
    let name: String = "id".to_owned();
    proof {
        reveal_strlit("id");
    }
    let mut i: usize = 0;
    assert(entries_view(entries@).skip(0) =~= entries_view(entries@));
    while i < entries.len()
        invariant
            0 <= i <= entries.len(),
            name@ == id_claim_name(),
            id_claim(entries_view(entries@)) == id_claim(entries_view(entries@).skip(i as int)),
        decreases entries.len() - i,
    {
        let ghost rest = entries_view(entries@).skip(i as int);
        assert(rest.drop_first() =~= entries_view(entries@).skip(i + 1));
        if entries[i].0 == name {
            return Some(entries[i].1);
        }
        i = i + 1;
    }
    proof {
        assert(entries_view(entries@).skip(i as int).len() == 0);
    }
    None
}

/// Claims from decoded entries: the identifier claim, or `Malformed` when
/// there is none.
pub fn claims_from_entries(entries: &Vec<(String, i32)>) -> (r: Result<TokenClaims, TokenError>)
    ensures
        r == claims_outcome(entries_view(entries@)),
{
    match id_from_entries(entries) {
        Some(id) => Ok(TokenClaims { id }),
        None => Err(TokenError::Malformed),
    }
}

impl TokenClaims {
    /// Signs these claims with `key` into a token string.
    pub fn issue(&self, key: &[u8]) -> (r: Result<String, TokenError>)
        ensures
            r is Ok,
            r->Ok_0@ == hs256_token(self.id, key@),
    {
        sign_id_claim(self.id, key)
    }

    /// Checks `token` under `key` and returns the claims it carries.
    /// A token issued for some claims under the same key gives back exactly
    /// those claims; a token that is not three `.`-separated segments is
    /// malformed.
    pub fn validate(token: &str, key: &[u8]) -> (r: Result<TokenClaims, TokenError>)
        ensures
            hs256_claims(token@, key@) is Some ==> r == claims_outcome(hs256_claims(token@, key@)->Some_0),
            hs256_claims(token@, key@) is None ==> r is Err,
            dot_count(token@) != 2 ==> r == Err::<TokenClaims, TokenError>(TokenError::Malformed),
            forall|id: i32| #[trigger] hs256_token(id, key@) == token@ ==> r == Ok::<TokenClaims, TokenError>(TokenClaims { id }),
    {
        match verify_claims(token, key) {
            Ok(entries) => {
                let r = claims_from_entries(&entries);
                proof {
                    assert forall|id: i32| #[trigger] hs256_token(id, key@) == token@ implies r == Ok::<TokenClaims, TokenError>(TokenClaims { id }) by {
                        let s = entries_view(entries@);
                        assert(s == seq![(id_claim_name(), id)]);
                        assert(s[0].0 == id_claim_name());
                    }
                }
                r
            },
            Err(e) => Err(e),
        }
    }
}

} // verus!

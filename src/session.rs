//! Stateless, signed, time-limited session tokens.
//!
//! A token is ASCII text: the issue time and the expiry (Unix seconds,
//! 16 hex digits each) and the subject (32 hex digits) form the payload; a `.`
//! and the HMAC-SHA256 tag of the payload under the signing secret, in hex,
//! follow it.
use vstd::prelude::*;
use hmac::Mac;
use crate::hex::{
    hex_bytes, hex_value, hex_width, lemma_hex_bytes_injective, lemma_hex_round_trip,
    lemma_pow16_values, parse_hex, push_hex, push_hex_bytes,
};

verus! {

/// The HMAC-SHA256 tag of `msg` under `key`.
pub uninterp spec fn hmac_sha256_of(key: Seq<u8>, msg: Seq<u8>) -> Seq<u8>;

/// Relies on hmac's `Hmac<Sha256>` (`new_from_slice`, `update`, `finalize`):
/// the tag is a function of key and message, 32 bytes long; a key of any
/// length is accepted.
#[verifier::external_body]
fn hmac_sha256(key: &[u8], msg: &[u8]) -> (r: Vec<u8>)
    ensures
        r@ == hmac_sha256_of(key@, msg@),
        r@.len() == 32,
{
    let mut mac = hmac::Hmac::<sha2::Sha256>::new_from_slice(key).expect("HMAC takes keys of any size");
    mac.update(msg);
    mac.finalize().into_bytes().to_vec()
}

/// Why a presented session token is refused.
#[derive(Debug, Clone, Copy, PartialEq, Eq, Structural)]
pub enum TokenError {
    /// Not in the token layout.
    Malformed,
    /// The tag does not match the payload under this secret.
    BadSignature,
    /// Well signed, but the current time is past its expiry.
    Expired,
}

pub const SESSION_TOKEN_LEN: usize = 129;

const SEPARATOR: u8 = 46;

/// The signed part of a token.
pub open spec fn payload_of(subject: u128, issued_at: u64, expires_at: u64) -> Seq<u8> {
    hex_width(issued_at as nat, 16) + hex_width(expires_at as nat, 16) + hex_width(
        subject as nat,
        32,
    )
}

/// The token for `subject`, signed with `secret`, issued at `issued_at` and
/// expiring at `expires_at`.
pub open spec fn session_token(
    subject: u128,
    secret: Seq<u8>,
    issued_at: u64,
    expires_at: u64,
) -> Seq<u8> {
    let p = payload_of(subject, issued_at, expires_at);
    p + seq![46u8] + hex_bytes(hmac_sha256_of(secret, p))
}

/// What validating `t` with `secret` at time `now` gives: the layout is checked
/// first, the signature next, the expiry last (strictly: `now > expiry` fails).
pub open spec fn validate_spec(t: Seq<u8>, secret: Seq<u8>, now: u64) -> Result<u128, TokenError> {
    if t.len() < 65 || t[64] != 46u8 {
        Err(TokenError::Malformed)
    } else {
        match (
            hex_value(t.subrange(0, 16)),
            hex_value(t.subrange(16, 32)),
            hex_value(t.subrange(32, 64)),
        ) {
            (Some(_), Some(exp), Some(sub)) => {
                if t.subrange(65, t.len() as int) != hex_bytes(hmac_sha256_of(secret, t.subrange(0, 64))) {
                    Err(TokenError::BadSignature)
                } else if now > exp {
                    Err(TokenError::Expired)
                } else {
                    Ok(sub as u128)
                }
            },
            _ => Err(TokenError::Malformed),
        }
    }
}

/// Issues a token for `subject`, valid from `now` for `ttl_minutes` minutes.
pub fn issue(subject: u128, secret: &[u8], now: u64, ttl_minutes: u64) -> (r: Vec<u8>)
    requires
        now + ttl_minutes * 60 <= u64::MAX,
    ensures
        r@ == session_token(subject, secret@, now, (now + ttl_minutes * 60) as u64),
        r@.len() == SESSION_TOKEN_LEN,
{
    let expires_at: u64 = now + ttl_minutes * 60;
    let mut out: Vec<u8> = Vec::new();
    push_hex(&mut out, now as u128, 16);
    push_hex(&mut out, expires_at as u128, 16);
    push_hex(&mut out, subject, 32);
    let ghost p = out@;
    assert(p =~= payload_of(subject, now, expires_at));
    let tag = hmac_sha256(secret, out.as_slice());
    out.push(SEPARATOR);
    push_hex_bytes(&mut out, tag.as_slice());
    proof {
        lemma_pow16_values();
        lemma_hex_round_trip(now as nat, 16);
        lemma_hex_round_trip(expires_at as nat, 16);
        lemma_hex_round_trip(subject as nat, 32);
    }
    out
}

/// Whether `a[off..off + b.len()]` equals `b`; every byte is compared.
fn bytes_equal_at(a: &[u8], off: usize, b: &[u8]) -> (r: bool)
    requires
        off + b@.len() <= a@.len(),
    ensures
        r == (a@.subrange(off as int, off + b@.len()) == b@),
{
    let mut diff: u8 = 0;
    let mut i: usize = 0;
    let alen = a.len();
    while i < b.len()
        invariant
            i <= b@.len(),
            off + b@.len() <= a@.len(),
            alen == a@.len(),
            (diff == 0) == (forall|j: int| 0 <= j < i ==> a@[off + j] == b@[j]),
        decreases b@.len() - i,
    {
        let x = a[off + i];
        let y = b[i];
        assert((diff | (x ^ y)) == 0u8 <==> (diff == 0u8 && x == y)) by (bit_vector);
        diff = diff | (x ^ y);
        i = i + 1;
    }
    let same = diff == 0;
    proof {
        if same {
            assert(a@.subrange(off as int, off + b@.len()) =~= b@);
        } else {
            let j = choose|j: int| 0 <= j < b@.len() && a@[off + j] != b@[j];
            assert(a@.subrange(off as int, off + b@.len())[j] != b@[j]);
        }
    }
    same
}

/// Validates `token` with `secret` at time `now`, giving its subject.
pub fn validate(token: &[u8], secret: &[u8], now: u64) -> (r: Result<u128, TokenError>)
    ensures
        r == validate_spec(token@, secret@, now),
{
    if token.len() < 65 || token[64] != SEPARATOR {
        return Err(TokenError::Malformed);
    }
    proof {
        lemma_pow16_values();
    }
    let issued = parse_hex(token, 0, 16);
    let expiry = parse_hex(token, 16, 32);
    let subject = parse_hex(token, 32, 64);
    match (issued, expiry, subject) {
        (Some(_), Some(exp), Some(sub)) => {
            let mut payload: Vec<u8> = Vec::new();
            let mut i: usize = 0;
            while i < 64
                invariant
                    i <= 64,
                    token@.len() >= 65,
                    payload@ =~= token@.subrange(0, i as int),
                decreases 64 - i,
            {
                payload.push(token[i]);
                i = i + 1;
            }
            let tag = hmac_sha256(secret, payload.as_slice());
            let mut expected: Vec<u8> = Vec::new();
            push_hex_bytes(&mut expected, tag.as_slice());
            assert(expected@ =~= hex_bytes(tag@));
            let signed = token.len() == 65 + expected.len() && bytes_equal_at(token, 65, expected.as_slice());
            proof {
                if token@.len() != 65 + expected@.len() {
                    assert(token@.subrange(65, token@.len() as int).len() != expected@.len());
                }
            }
            if !signed {
                Err(TokenError::BadSignature)
            } else if now as u128 > exp {
                Err(TokenError::Expired)
            } else {
                Ok(sub)
            }
        },
        _ => Err(TokenError::Malformed),
    }
}

proof fn lemma_token_layout(subject: u128, secret: Seq<u8>, issued_at: u64, expires_at: u64)
    ensures
        ({
            let t = session_token(subject, secret, issued_at, expires_at);
            let p = payload_of(subject, issued_at, expires_at);
            &&& t.len() >= 65
            &&& t[64] == 46u8
            &&& t.subrange(0, 64) == p
            &&& t.subrange(65, t.len() as int) == hex_bytes(hmac_sha256_of(secret, p))
            &&& t.subrange(0, 16) == hex_width(issued_at as nat, 16)
            &&& t.subrange(16, 32) == hex_width(expires_at as nat, 16)
            &&& t.subrange(32, 64) == hex_width(subject as nat, 32)
            &&& hex_value(t.subrange(0, 16)) == Some(issued_at as nat)
            &&& hex_value(t.subrange(16, 32)) == Some(expires_at as nat)
            &&& hex_value(t.subrange(32, 64)) == Some(subject as nat)
        }),
{
    lemma_pow16_values();
    lemma_hex_round_trip(issued_at as nat, 16);
    lemma_hex_round_trip(expires_at as nat, 16);
    lemma_hex_round_trip(subject as nat, 32);
    let t = session_token(subject, secret, issued_at, expires_at);
    let p = payload_of(subject, issued_at, expires_at);
    assert(t.subrange(0, 64) =~= p);
    assert(t.subrange(65, t.len() as int) =~= hex_bytes(hmac_sha256_of(secret, p)));
    assert(t.subrange(0, 16) =~= hex_width(issued_at as nat, 16));
    assert(t.subrange(16, 32) =~= hex_width(expires_at as nat, 16));
    assert(t.subrange(32, 64) =~= hex_width(subject as nat, 32));
}

/// A token validated with the secret it was signed with, at any time from its
/// issue up to and including its expiry, gives back its subject.
pub proof fn lemma_issue_then_validate(
    subject: u128,
    secret: Seq<u8>,
    issued_at: u64,
    expires_at: u64,
    now: u64,
)
    requires
        now <= expires_at,
    ensures
        validate_spec(session_token(subject, secret, issued_at, expires_at), secret, now) == Ok::<
            u128,
            TokenError,
        >(subject),
{
    lemma_token_layout(subject, secret, issued_at, expires_at);
}

/// Once its expiry has passed, a token signed with the secret is refused as expired.
pub proof fn lemma_validate_after_expiry(
    subject: u128,
    secret: Seq<u8>,
    issued_at: u64,
    expires_at: u64,
    now: u64,
)
    requires
        now > expires_at,
    ensures
        validate_spec(session_token(subject, secret, issued_at, expires_at), secret, now) == Err::<
            u128,
            TokenError,
        >(TokenError::Expired),
{
    lemma_token_layout(subject, secret, issued_at, expires_at);
}

/// A token checked against another secret, whose tag for the payload differs,
/// is refused for its signature whatever the time.
pub proof fn lemma_validate_other_secret(
    subject: u128,
    secret: Seq<u8>,
    other: Seq<u8>,
    issued_at: u64,
    expires_at: u64,
    now: u64,
)
    requires
        hmac_sha256_of(other, payload_of(subject, issued_at, expires_at)) != hmac_sha256_of(
            secret,
            payload_of(subject, issued_at, expires_at),
        ),
    ensures
        validate_spec(session_token(subject, secret, issued_at, expires_at), other, now) == Err::<
            u128,
            TokenError,
        >(TokenError::BadSignature),
{
    lemma_token_layout(subject, secret, issued_at, expires_at);
    let p = payload_of(subject, issued_at, expires_at);
    if hex_bytes(hmac_sha256_of(secret, p)) == hex_bytes(hmac_sha256_of(other, p)) {
        lemma_hex_bytes_injective(hmac_sha256_of(secret, p), hmac_sha256_of(other, p));
    }
}

} // verus!

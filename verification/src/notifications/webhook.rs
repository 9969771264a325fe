//! Generic webhook notifications: the settings check and the signature
//! that lets a receiver check who sent the body.

use super::slack::NotifierSetupError;
use super::WebhookConfig;
use crate::text::owned;
use sha2::Digest;
use vstd::arithmetic::power2::{lemma2_to64_rest, lemma_pow2_strictly_increases, lemma_pow2_unfold, pow2};
use vstd::prelude::*;

verus! {

impl WebhookConfig {
    /// Whether a webhook notifier can be made from these settings: it must
    /// be enabled and have an address.
    pub fn validate(&self) -> (r: Result<(), NotifierSetupError>)
        ensures
            !self.enabled ==> r == Err::<(), NotifierSetupError>(NotifierSetupError::Disabled),
            self.enabled && self.url is None ==> r == Err::<(), NotifierSetupError>(
                NotifierSetupError::MissingUrl,
            ),
            self.enabled && self.url is Some ==> r is Ok,
    {
        if !self.enabled {
            return Err(NotifierSetupError::Disabled);
        }
        if self.url.is_none() {
            return Err(NotifierSetupError::MissingUrl);
        }
        Ok(())
    }

    /// A webhook notifier sends only when enabled and given an address.
    pub fn is_enabled(&self) -> (r: bool)
        ensures
            r == (self.enabled && self.url is Some),
    {
        self.enabled && self.url.is_some()
    }
}

/// The SHA-256 digest of `data`, as the `sha2` crate computes it.
pub uninterp spec fn sha256_of(data: Seq<u8>) -> Seq<u8>;

/// Calls `sha2::Sha256::digest`: the 32-byte SHA-256 digest of `data`.
#[verifier::external_body]
fn sha256(data: &[u8]) -> (r: Vec<u8>)
    ensures
        r@ == sha256_of(data@),
        r@.len() == 32,
{
    sha2::Sha256::digest(data).to_vec()
}

/// The lowercase hexadecimal digit for `n` (below 16).
pub open spec fn hex_digit(n: u8) -> char {
    if n < 10 {
        (48 + n) as char
    } else {
        (87 + n) as char
    }
}

/// Each byte as two lowercase hexadecimal digits, high nibble first.
pub open spec fn hex_text(bytes: Seq<u8>) -> Seq<char>
    decreases bytes.len(),
{
    if bytes.len() == 0 {
        Seq::empty()
    } else {
        seq![hex_digit(bytes[0] / 16), hex_digit(bytes[0] % 16)] + hex_text(bytes.drop_first())
    }
}

/// Calls `hex::encode`: every byte as two lowercase hexadecimal digits,
/// high nibble first, as its source writes them.
#[verifier::external_body]
fn hex_encode(data: &[u8]) -> (r: String)
    ensures
        r@ == hex_text(data@),
{
    hex::encode(data)
}

/// The block size of SHA-256 in bytes, which HMAC pads its key to.
pub const HMAC_BLOCK: usize = 64;

/// The HMAC key block: the key (hashed first when longer than a block)
/// followed by zero bytes up to the block size.
pub open spec fn hmac_key_block(key: Seq<u8>) -> Seq<u8> {
    let k = if key.len() > HMAC_BLOCK { sha256_of(key) } else { key };
    k + Seq::new((HMAC_BLOCK - k.len()) as nat, |i: int| 0u8)
}

/// Every byte of `k` combined with `pad` by exclusive or.
pub open spec fn xor_each(k: Seq<u8>, pad: u8) -> Seq<u8> {
    Seq::new(k.len(), |i: int| k[i] ^ pad)
}

/// HMAC-SHA256 of `message` under `key` (RFC 2104): the digest of the outer
/// padded key followed by the digest of the inner padded key and the message.
pub open spec fn hmac_sha256(key: Seq<u8>, message: Seq<u8>) -> Seq<u8> {
    let kb = hmac_key_block(key);
    sha256_of(xor_each(kb, 0x5cu8) + sha256_of(xor_each(kb, 0x36u8) + message))
}

/// The signature of `payload` under `secret`: `sha256=` and the hex
/// HMAC-SHA256 of the payload keyed with the secret.
pub open spec fn signature_of(secret: Seq<u8>, payload: Seq<u8>) -> Seq<char> {
    "sha256="@ + hex_text(hmac_sha256(secret, payload))
}

fn key_block(key: &[u8]) -> (r: Vec<u8>)
    ensures
        r@ == hmac_key_block(key@),
{
    let empty: Vec<u8> = Vec::new();
    let mut k: Vec<u8> = if key.len() > HMAC_BLOCK {
        sha256(key)
    } else {
        concat_bytes(key, empty.as_slice())
    };
    let ghost start = k@;
    proof {
        assert(key@ + empty@ =~= key@);
    }
    while k.len() < HMAC_BLOCK
        invariant
            start.len() <= k@.len() <= HMAC_BLOCK,
            k@.subrange(0, start.len() as int) == start,
            forall|i: int| start.len() <= i < k@.len() ==> k@[i] == 0u8,
        decreases HMAC_BLOCK - k@.len(),
    {
        k.push(0u8);
        assert(k@.subrange(0, start.len() as int) =~= start);
    }
    assert(k@ =~= start + Seq::new((HMAC_BLOCK - start.len()) as nat, |i: int| 0u8));
    k
}

fn xor_bytes(k: &[u8], pad: u8) -> (r: Vec<u8>)
    ensures
        r@ == xor_each(k@, pad),
{
    let mut r: Vec<u8> = Vec::new();
    let mut i: usize = 0;
    while i < k.len()
        invariant
            i <= k@.len(),
            r@.len() == i,
            forall|j: int| 0 <= j < i ==> r@[j] == k@[j] ^ pad,
        decreases k@.len() - i,
    {
        r.push(k[i] ^ pad);
        i = i + 1;
    }
    assert(r@ =~= xor_each(k@, pad));
    r
}

fn hmac(key: &[u8], message: &[u8]) -> (r: Vec<u8>)
    ensures
        r@ == hmac_sha256(key@, message@),
{
    let kb = key_block(key);
    let inner_pad = xor_bytes(kb.as_slice(), 0x36u8);
    let inner = sha256(concat_bytes(inner_pad.as_slice(), message).as_slice());
    let outer_pad = xor_bytes(kb.as_slice(), 0x5cu8);
    sha256(concat_bytes(outer_pad.as_slice(), inner.as_slice()).as_slice())
}

fn concat_bytes(a: &[u8], b: &[u8]) -> (r: Vec<u8>)
    ensures
        r@ == a@ + b@,
{
    let mut r: Vec<u8> = Vec::new();
    let mut i: usize = 0;
    while i < a.len()
        invariant
            i <= a@.len(),
            r@ == a@.take(i as int),
        decreases a@.len() - i,
    {
        r.push(a[i]);
        assert(a@.take(i + 1) =~= a@.take(i as int).push(a@[i as int]));
        i = i + 1;
    }
    assert(a@.take(a@.len() as int) =~= a@);
    let mut j: usize = 0;
    while j < b.len()
        invariant
            j <= b@.len(),
            r@ == a@ + b@.take(j as int),
        decreases b@.len() - j,
    {
        r.push(b[j]);
        assert(a@ + b@.take(j + 1) =~= (a@ + b@.take(j as int)).push(b@[j as int]));
        j = j + 1;
    }
    assert(b@.take(b@.len() as int) =~= b@);
    r
}

/// The signature of a webhook body: `sha256=` and the hex HMAC-SHA256 of
/// the body keyed with the shared secret; none without a secret.
pub fn generate_signature(config: &WebhookConfig, payload: &str) -> (r: Option<String>)
    ensures
        match config.secret {
            Some(secret) => r is Some && r->0@ == signature_of(
                vstd::utf8::encode_utf8(secret@),
                vstd::utf8::encode_utf8(payload@),
            ),
            None => r is None,
        },
{
    match &config.secret {
        Some(secret) => {
            let digest = hmac(secret.as_str().as_bytes(), payload.as_bytes());
            let mut sig = owned("sha256=");
            let hex = hex_encode(digest.as_slice());
            sig.append(hex.as_str());
            Some(sig)
        },
        None => None,
    }
}

/// What the webhook sender does after an attempt to deliver.
#[derive(Debug, Clone, Copy, PartialEq, Eq, Structural)]
pub enum DeliveryStep {
    /// The endpoint accepted the notification
    Delivered,
    /// Try again after this many milliseconds
    RetryAfter(u64),
    /// No retries are left
    GiveUp,
}

/// The pause before the retry that follows attempt `attempt` (the first
/// attempt is 0): one second, doubled for every earlier retry.
pub open spec fn retry_pause_ms(attempt: nat) -> nat {
    1000 * pow2(attempt)
}

fn pause_after(attempt: u32) -> (r: u64)
    requires
        attempt <= 54,
    ensures
        r == retry_pause_ms(attempt as nat),
{
    let mut d: u64 = 1000;
    let mut i: u32 = 0;
    proof {
        vstd::arithmetic::power2::lemma2_to64();
        lemma2_to64_rest();
    }
    while i < attempt
        invariant
            i <= attempt <= 54,
            d == 1000 * pow2(i as nat),
            pow2(54) == 0x40000000000000,
        decreases attempt - i,
    {
        proof {
            lemma_pow2_unfold((i + 1) as nat);
            if i + 1 < 54 {
                lemma_pow2_strictly_increases((i + 1) as nat, 54);
            }
        }
        d = d * 2;
        i = i + 1;
    }
    d
}

/// Decides what follows attempt `attempt` (the first is 0) to deliver a
/// notification, of which at most `max_retries` retries are allowed: done
/// when the endpoint accepted it; otherwise, while retries are left,
/// another attempt after the pause of `retry_pause_ms`; else give up.
pub fn delivery_step(attempt: u32, max_retries: u32, delivered: bool) -> (r: DeliveryStep)
    requires
        !delivered && attempt < max_retries ==> attempt <= 54,
    ensures
        delivered ==> r == DeliveryStep::Delivered,
        !delivered && attempt < max_retries ==> r == DeliveryStep::RetryAfter(
            retry_pause_ms(attempt as nat) as u64,
        ),
        !delivered && attempt >= max_retries ==> r == DeliveryStep::GiveUp,
{
    if delivered {
        DeliveryStep::Delivered
    } else if attempt < max_retries {
        DeliveryStep::RetryAfter(pause_after(attempt))
    } else {
        DeliveryStep::GiveUp
    }
}

/// Each retry waits twice as long as the one before it.
pub proof fn lemma_retry_pause_doubles(attempt: nat)
    ensures
        retry_pause_ms(attempt + 1) == 2 * retry_pause_ms(attempt),
        retry_pause_ms(0) == 1000,
{
    lemma_pow2_unfold(attempt + 1);
    vstd::arithmetic::power2::lemma2_to64();
}

} // verus!

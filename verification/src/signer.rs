use vstd::prelude::*;
use vstd::string::StringSliceAdditionalSpecFns;
use hmac::{Hmac, KeyInit, Mac};
use sha2::Sha256;
use crate::decimal::{dec_digits, u64_to_string};
use crate::text::{hex_digit, hex_digit_char};

verus! {

/// The HMAC-SHA256 digest of a message under a key. Only named here: the
/// digest is a function of the key and message bytes alone, in every process
/// and on every machine.
pub uninterp spec fn hmac_sha256(key: Seq<u8>, msg: Seq<u8>) -> Seq<u8>;

/// Relies on hmac's Hmac over sha2's Sha256: computes the keyed digest of
/// the message, 32 bytes as Sha256's output size fixes. Keys of any length
/// are accepted.
#[verifier::external_body]
fn hmac_sha256_digest(key: &[u8], msg: &[u8]) -> (r: Vec<u8>)
    ensures
        r@ == hmac_sha256(key@, msg@),
        r@.len() == 32,
{
    let mut mac = <Hmac<Sha256> as KeyInit>::new_from_slice(key).expect(
        "HMAC accepts keys of any length",
    );
    mac.update(msg);
    mac.finalize().into_bytes().to_vec()
}

/// Lower-case hexadecimal rendering of a byte string: two digits per byte.
pub open spec fn hex_of(bytes: Seq<u8>) -> Seq<char>
    decreases bytes.len(),
{
    if bytes.len() == 0 {
        Seq::empty()
    } else {
        seq![
            hex_digit_char((bytes[0] >> 4) as int),
            hex_digit_char((bytes[0] & 0x0f) as int),
        ] + hex_of(bytes.skip(1))
    }
}

proof fn lemma_hex_of_push(s: Seq<u8>, b: u8)
    ensures
        hex_of(s.push(b)) == hex_of(s) + seq![
            hex_digit_char((b >> 4) as int),
            hex_digit_char((b & 0x0f) as int),
        ],
    decreases s.len(),
{
    let pair = seq![hex_digit_char((b >> 4) as int), hex_digit_char((b & 0x0f) as int)];
    if s.len() == 0 {
        assert(s.push(b).skip(1) =~= Seq::<u8>::empty());
        assert(s.push(b)[0] == b);
        assert(hex_of(s.push(b)) == pair + hex_of(Seq::<u8>::empty()));
        assert(pair + Seq::<char>::empty() =~= Seq::<char>::empty() + pair);
    } else {
        assert(s.push(b).skip(1) =~= s.skip(1).push(b));
        lemma_hex_of_push(s.skip(1), b);
        assert(s.push(b)[0] == s[0]);
        let head = seq![
            hex_digit_char((s[0] >> 4) as int),
            hex_digit_char((s[0] & 0x0f) as int),
        ];
        assert(hex_of(s.push(b)) == head + (hex_of(s.skip(1)) + pair));
        assert(head + (hex_of(s.skip(1)) + pair) =~= (head + hex_of(s.skip(1))) + pair);
    }
}

/// Renders a byte string in lower-case hexadecimal.
pub fn to_hex(bytes: &Vec<u8>) -> (r: String)
    ensures
        r@ == hex_of(bytes@),
{
    let mut out = String::new();
    let n = bytes.len();
    let mut i: usize = 0;
    assert(bytes@.take(0) =~= Seq::<u8>::empty());
    while i < n
        invariant
            i <= n,
            n == bytes@.len(),
            out@ == hex_of(bytes@.take(i as int)),
        decreases n - i,
    {
        let b = bytes[i];
        proof {
            assert(bytes@.take(i as int).push(b) =~= bytes@.take(i + 1));
            lemma_hex_of_push(bytes@.take(i as int), b);
            assert((b >> 4) < 16 && (b & 0x0f) < 16) by (bit_vector);
        }
        let hi = (b >> 4) as u32;
        let lo = (b & 0x0f) as u32;
        let mut two = String::new();
        crate::text::push_char(&mut two, hex_digit(hi));
        crate::text::push_char(&mut two, hex_digit(lo));
        out.append(two.as_str());
        proof {
            assert(out@ =~= hex_of(bytes@.take(i + 1)));
        }
        i = i + 1;
    }
    proof {
        assert(bytes@.take(n as int) =~= bytes@);
    }
    out
}

/// What signing a message with a secret produces: the lower-case hex digest
/// of the keyed hash over the UTF-8 bytes of both.
pub open spec fn signature_of(secret: Seq<char>, message: Seq<char>) -> Seq<char> {
    hex_of(hmac_sha256(vstd::utf8::encode_utf8(secret), vstd::utf8::encode_utf8(message)))
}

proof fn lemma_hex_of_len(bytes: Seq<u8>)
    ensures
        hex_of(bytes).len() == 2 * bytes.len(),
    decreases bytes.len(),
{
    if bytes.len() > 0 {
        lemma_hex_of_len(bytes.skip(1));
    }
}

/// Signs a canonical message with the account secret, proving possession of
/// the secret without transmitting it: sixty-four hex digits, deterministic,
/// no side effects. An empty secret still yields a well-formed (if useless)
/// signature.
pub fn sign(secret: &str, message: &str) -> (r: String)
    ensures
        r@ == signature_of(secret@, message@),
        r@.len() == 64,
{
    let digest = hmac_sha256_digest(secret.as_bytes(), message.as_bytes());
    proof {
        lemma_hex_of_len(digest@);
    }
    to_hex(&digest)
}

/// The canonical message of the streaming handshake: the literal
/// "GET/realtime" followed by the decimal expiry timestamp (milliseconds).
pub open spec fn auth_message_of(expires: nat) -> Seq<char> {
    "GET/realtime"@ + dec_digits(expires)
}

pub fn auth_message(expires: u64) -> (r: String)
    ensures
        r@ == auth_message_of(expires as nat),
{
    let mut s = String::from_str("GET/realtime");
    let digits = u64_to_string(expires);
    s.append(digits.as_str());
    s
}

/// The handshake signature for a given expiry.
pub fn auth_signature(secret: &str, expires: u64) -> (r: String)
    ensures
        r@ == signature_of(secret@, auth_message_of(expires as nat)),
{
    let msg = auth_message(expires);
    sign(secret, msg.as_str())
}

} // verus!

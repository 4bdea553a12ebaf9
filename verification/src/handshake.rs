//! The credential by which a component proves to the server that it knows
//! the shared secret.

use vstd::prelude::*;
use vstd::utf8::encode_utf8;

verus! {

/// The SHA-1 digest of a message.
pub uninterp spec fn sha1_digest(message: Seq<u8>) -> Seq<u8>;

/// Number of bytes of a SHA-1 digest.
pub const SHA1_LEN: usize = 20;

/// The SHA-1 digest of `message`, from `sha1::Sha1::digest`.
///
/// The digest is a function of the message alone and is 20 bytes long. That
/// the crate computes SHA-1 as it is defined is taken on trust.
#[verifier::external_body]
fn sha1(message: &[u8]) -> (digest: Vec<u8>)
    ensures
        digest@ == sha1_digest(message@),
        digest@.len() == SHA1_LEN,
{
    <sha1::Sha1 as sha1::Digest>::digest(message).to_vec()
}

/// The sixteen hexadecimal digits, in lower case.
pub open spec fn hex_digits() -> Seq<char> {
    "0123456789abcdef"@
}

/// The lower-case hexadecimal form of `bytes`: two digits for each byte, the
/// high half first.
pub open spec fn hex_lower(bytes: Seq<u8>) -> Seq<char> {
    Seq::new(
        2 * bytes.len(),
        |i: int|
            if i % 2 == 0 {
                hex_digits()[bytes[i / 2] as int / 16]
            } else {
                hex_digits()[bytes[i / 2] as int % 16]
            },
    )
}

/// The credential that answers the stream identifier `stream_id` under the
/// shared secret `secret`: the hexadecimal SHA-1 digest of the identifier
/// followed by the secret, both as UTF-8.
pub open spec fn credential_of(stream_id: Seq<char>, secret: Seq<char>) -> Seq<char> {
    hex_lower(sha1_digest(encode_utf8(stream_id + secret)))
}

fn hex_digit(value: u8) -> (digit: &'static str)
    requires
        value < 16,
    ensures
        digit@ == seq![hex_digits()[value as int]],
{
    proof {
        reveal_strlit("0123456789abcdef");
        reveal_strlit("0");
        reveal_strlit("1");
        reveal_strlit("2");
        reveal_strlit("3");
        reveal_strlit("4");
        reveal_strlit("5");
        reveal_strlit("6");
        reveal_strlit("7");
        reveal_strlit("8");
        reveal_strlit("9");
        reveal_strlit("a");
        reveal_strlit("b");
        reveal_strlit("c");
        reveal_strlit("d");
        reveal_strlit("e");
        reveal_strlit("f");
    }
    let digit = match value {
        0 => "0",
        1 => "1",
        2 => "2",
        3 => "3",
        4 => "4",
        5 => "5",
        6 => "6",
        7 => "7",
        8 => "8",
        9 => "9",
        10 => "a",
        11 => "b",
        12 => "c",
        13 => "d",
        14 => "e",
        _ => "f",
    };
    assert(digit@ =~= seq![hex_digits()[value as int]]);
    digit
}

/// Writes `bytes` in lower-case hexadecimal.
pub fn to_hex_lower(bytes: &[u8]) -> (text: String)
    ensures
        text@ == hex_lower(bytes@),
{
    let mut text = String::new();
    let mut i: usize = 0;
    while i < bytes.len()
        invariant
            i <= bytes@.len(),
            text@ == hex_lower(bytes@.take(i as int)),
        decreases bytes@.len() - i,
    {
        let byte: u8 = bytes[i];
        let ghost before = text@;
        text.append(hex_digit(byte / 16));
        text.append(hex_digit(byte % 16));
        assert(text@ =~= hex_lower(bytes@.take(i + 1))) by {
            assert(before =~= hex_lower(bytes@.take(i as int)));
        }
        i += 1;
    }
    assert(bytes@.take(i as int) =~= bytes@);
    text
}

/// Computes the handshake credential for a stream.
pub fn handshake_credential(stream_id: &str, secret: &str) -> (credential: String)
    ensures
        credential@ == credential_of(stream_id@, secret@),
        credential@.len() == 2 * SHA1_LEN,
{
    let mut message = stream_id.to_owned();
    message.append(secret);
    let digest = sha1(message.as_str().as_bytes());
    to_hex_lower(digest.as_slice())
}

} // verus!

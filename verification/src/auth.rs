//! Keyed and unkeyed hashing for device identity: HMAC-SHA-256 for
//! heartbeat signatures and SHA-256 for the hardware fingerprint, both
//! rendered as lowercase hex. The digests come from outside crates and
//! are named, not restated; the hex rendering is verified here.
use vstd::prelude::*;
use vstd::string::{StringExecFns, StringSliceAdditionalSpecFns};
use vstd::utf8::encode_utf8;

use crate::text::{spec_digit_char, spec_u64_string};

verus! {

/// The HMAC-SHA-256 tag of a message under a key. The tag depends on the
/// key and message bytes alone.
pub uninterp spec fn spec_hmac_sha256(key: Seq<u8>, message: Seq<u8>) -> Seq<u8>;

/// The SHA-256 digest of a byte sequence. The digest depends on the
/// bytes alone.
pub uninterp spec fn spec_sha256(data: Seq<u8>) -> Seq<u8>;

/// The lowercase hex character for one value below sixteen.
pub open spec fn spec_hex_digit(d: int) -> char {
    if d < 10 {
        spec_digit_char(d)
    } else if d == 10 {
        'a'
    } else if d == 11 {
        'b'
    } else if d == 12 {
        'c'
    } else if d == 13 {
        'd'
    } else if d == 14 {
        'e'
    } else {
        'f'
    }
}

/// The lowercase hex rendering of a byte sequence: two characters per
/// byte, high nibble first.
pub open spec fn spec_hex(bytes: Seq<u8>) -> Seq<char>
    decreases bytes.len(),
{
    if bytes.len() == 0 {
        Seq::empty()
    } else {
        spec_hex(bytes.drop_last()) + seq![
            spec_hex_digit(bytes.last() as int / 16),
            spec_hex_digit(bytes.last() as int % 16),
        ]
    }
}

/// Appends the hex character for one value below sixteen.
fn append_hex_digit(s: &mut String, d: u8)
    requires
        d < 16,
    ensures
        final(s)@ == old(s)@ + seq![spec_hex_digit(d as int)],
{
    proof {
        reveal_strlit("0");
        reveal_strlit("1");
        reveal_strlit("2");
        reveal_strlit("3");
        reveal_strlit("4");
        reveal_strlit("5");
        reveal_strlit("6");
        reveal_strlit("7");
        reveal_strlit("8");
        reveal_strlit("9");
        reveal_strlit("a");
        reveal_strlit("b");
        reveal_strlit("c");
        reveal_strlit("d");
        reveal_strlit("e");
        reveal_strlit("f");
    }
    match d {
        0 => s.append("0"),
        1 => s.append("1"),
        2 => s.append("2"),
        3 => s.append("3"),
        4 => s.append("4"),
        5 => s.append("5"),
        6 => s.append("6"),
        7 => s.append("7"),
        8 => s.append("8"),
        9 => s.append("9"),
        10 => s.append("a"),
        11 => s.append("b"),
        12 => s.append("c"),
        13 => s.append("d"),
        14 => s.append("e"),
        _ => s.append("f"),
    }
    proof {
        assert(s@ =~= old(s)@ + seq![spec_hex_digit(d as int)]);
    }
}

/// Renders a byte sequence as lowercase hex.
pub fn bytes_to_hex(bytes: &[u8]) -> (r: String)
    ensures
        r@ == spec_hex(bytes@),
{
    let mut s = String::new();
    let mut i: usize = 0;
    while i < bytes.len()
        invariant
            i <= bytes@.len(),
            s@ == spec_hex(bytes@.take(i as int)),
        decreases bytes@.len() - i,
    {
        let b = bytes[i];
        append_hex_digit(&mut s, b / 16);
        append_hex_digit(&mut s, b % 16);
        proof {
            assert(bytes@.take(i + 1).drop_last() =~= bytes@.take(i as int));
            assert(bytes@.take(i + 1).last() == bytes@[i as int]);
            assert(s@ =~= spec_hex(bytes@.take(i + 1)));
        }
        i = i + 1;
    }
    proof {
        assert(bytes@.take(bytes@.len() as int) =~= bytes@);
    }
    s
}

/// Relies on `hmac::Hmac<sha2::Sha256>` (`KeyInit::new_from_slice`,
/// `Mac::update`, `Mac::finalize`) for the HMAC-SHA-256 tag: 32 bytes,
/// a function of the key and message bytes alone. HMAC accepts keys of
/// any length, so `new_from_slice` cannot fail here.
#[verifier::external_body]
fn hmac_sha256_tag(key: &[u8], message: &[u8]) -> (r: Vec<u8>)
    ensures
        r@ == spec_hmac_sha256(key@, message@),
        r@.len() == 32,
{
    let mut mac = <hmac::Hmac<sha2::Sha256> as hmac::KeyInit>::new_from_slice(key).expect(
        "HMAC accepts keys of any length",
    );
    hmac::Mac::update(&mut mac, message);
    hmac::Mac::finalize(mac).into_bytes().to_vec()
}

/// Relies on `sha2::Sha256` (`Digest::digest`) for the SHA-256 digest:
/// 32 bytes, a function of the input bytes alone.
#[verifier::external_body]
fn sha256_digest(data: &[u8]) -> (r: Vec<u8>)
    ensures
        r@ == spec_sha256(data@),
        r@.len() == 32,
{
    <sha2::Sha256 as sha2::Digest>::digest(data).to_vec()
}

/// Signs a message with a key: the lowercase hex of the HMAC-SHA-256 tag
/// of the message's bytes under the key's bytes.
pub fn hmac_sha256_hex(key: &str, message: &str) -> (r: String)
    ensures
        r@ == spec_hex(spec_hmac_sha256(key.spec_bytes(), message.spec_bytes())),
{
    let tag = hmac_sha256_tag(key.as_bytes(), message.as_bytes());
    bytes_to_hex(tag.as_slice())
}

/// The SHA-256 digest of a string's bytes, as lowercase hex.
pub fn sha256_hex(data: &str) -> (r: String)
    ensures
        r@ == spec_hex(spec_sha256(data.spec_bytes())),
{
    let digest = sha256_digest(data.as_bytes());
    bytes_to_hex(digest.as_slice())
}

/// The stable identity string hashed into the hardware fingerprint:
/// hostname, processor brand, total memory and architecture, joined with
/// dashes.
pub open spec fn spec_fingerprint_input(
    hostname: Seq<char>,
    cpu_brand: Seq<char>,
    total_memory: int,
    arch: Seq<char>,
) -> Seq<char> {
    hostname + "-"@ + cpu_brand + "-"@ + spec_u64_string(total_memory) + "-"@ + arch
}

/// Builds the identity string for the hardware fingerprint.
pub fn fingerprint_input(hostname: &str, cpu_brand: &str, total_memory: u64, arch: &str) -> (r:
    String)
    ensures
        r@ == spec_fingerprint_input(hostname@, cpu_brand@, total_memory as int, arch@),
{
    let mut s = String::from_str(hostname);
    s.append("-");
    s.append(cpu_brand);
    s.append("-");
    crate::text::append_u64(&mut s, total_memory);
    s.append("-");
    s.append(arch);
    proof {
        assert(s@ =~= spec_fingerprint_input(hostname@, cpu_brand@, total_memory as int, arch@));
    }
    s
}

/// The reproducible hardware fingerprint: the hex SHA-256 of the
/// identity string built from the given stable identifiers.
pub fn hardware_fingerprint(hostname: &str, cpu_brand: &str, total_memory: u64, arch: &str) -> (r:
    String)
    ensures
        r@ == spec_hex(
            spec_sha256(
                encode_utf8(
                    spec_fingerprint_input(hostname@, cpu_brand@, total_memory as int, arch@),
                ),
            ),
        ),
{
    let input = fingerprint_input(hostname, cpu_brand, total_memory, arch);
    sha256_hex(input.as_str())
}

} // verus!

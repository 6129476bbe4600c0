//! Hashing-based primitives: hex encoding and decoding, answer hashing,
//! decipher key chains, register-token decoding, salted passwords and the
//! team-join verification code.
//!
//! The SHA digests themselves come from an outside crate; everything around
//! them — framing, encoding, comparison, expiry — is verified here.
use vstd::prelude::*;
use sha2::Digest;
use rand::RngCore;
use vstd::string::StringSliceAdditionalSpecFns;

verus! {

/// The SHA-256 digest of a byte sequence: 32 bytes depending on the input
/// alone.
pub uninterp spec fn sha256_of(data: Seq<u8>) -> Seq<u8>;

/// The SHA-512 digest of a byte sequence: 64 bytes depending on the input
/// alone.
pub uninterp spec fn sha512_of(data: Seq<u8>) -> Seq<u8>;

/// Relies on sha2's `Sha256`: returns the 32-byte digest of `data`, a pure
/// function of the input bytes.
#[verifier::external_body]
fn sha256(data: &[u8]) -> (r: Vec<u8>)
    ensures
        r@ == sha256_of(data@),
        r@.len() == 32,
{
    sha2::Sha256::digest(data).to_vec()
}

/// Relies on sha2's `Sha512`: returns the 64-byte digest of `data`, a pure
/// function of the input bytes.
#[verifier::external_body]
fn sha512(data: &[u8]) -> (r: Vec<u8>)
    ensures
        r@ == sha512_of(data@),
        r@.len() == 64,
{
    sha2::Sha512::digest(data).to_vec()
}

/// Relies on rand's `OsRng::fill_bytes`: fills the salt from the operating
/// system's entropy source; nothing can be promised of the value.
#[verifier::external_body]
pub fn get_salt<const N: usize>() -> [u8; N] {
    let mut salt = [0u8; N];
    rand::rngs::OsRng.fill_bytes(&mut salt);
    salt
}

/// The lowercase hex character for a nibble.
pub open spec fn hex_digit_char(d: u8) -> char {
    if d == 0 {
        '0'
    } else if d == 1 {
        '1'
    } else if d == 2 {
        '2'
    } else if d == 3 {
        '3'
    } else if d == 4 {
        '4'
    } else if d == 5 {
        '5'
    } else if d == 6 {
        '6'
    } else if d == 7 {
        '7'
    } else if d == 8 {
        '8'
    } else if d == 9 {
        '9'
    } else if d == 10 {
        'a'
    } else if d == 11 {
        'b'
    } else if d == 12 {
        'c'
    } else if d == 13 {
        'd'
    } else if d == 14 {
        'e'
    } else {
        'f'
    }
}

/// The lowercase hex encoding of a byte sequence, as characters: two digits
/// per byte, high nibble first.
pub open spec fn hex_of(data: Seq<u8>) -> Seq<char>
    decreases data.len(),
{
    if data.len() == 0 {
        Seq::empty()
    } else {
        hex_of(data.drop_last()) + seq![
            hex_digit_char(data.last() / 16),
            hex_digit_char(data.last() % 16),
        ]
    }
}

/// A hex encoding spells each byte with exactly two characters.
pub proof fn lemma_hex_of_len(data: Seq<u8>)
    ensures
        hex_of(data).len() == 2 * data.len(),
    decreases data.len(),
{
    if data.len() > 0 {
        lemma_hex_of_len(data.drop_last());
    }
}

/// The lowercase hex encoding as ASCII bytes.
pub open spec fn hex_byte(d: u8) -> u8 {
    if d < 10 {
        (48 + d) as u8
    } else {
        (87 + d) as u8
    }
}

/// The lowercase hex encoding of a byte sequence, as ASCII bytes.
pub open spec fn hex_bytes_of(data: Seq<u8>) -> Seq<u8>
    decreases data.len(),
{
    if data.len() == 0 {
        Seq::empty()
    } else {
        hex_bytes_of(data.drop_last()) + seq![
            hex_byte(data.last() / 16),
            hex_byte(data.last() % 16),
        ]
    }
}

/// Appends the hex character for one nibble.
fn push_hex_digit(s: &mut String, d: u8)
    requires
        d < 16,
    ensures
        final(s)@ == old(s)@ + seq![hex_digit_char(d)],
{
    let piece: &str = if d == 0 {
        "0"
    } else if d == 1 {
        "1"
    } else if d == 2 {
        "2"
    } else if d == 3 {
        "3"
    } else if d == 4 {
        "4"
    } else if d == 5 {
        "5"
    } else if d == 6 {
        "6"
    } else if d == 7 {
        "7"
    } else if d == 8 {
        "8"
    } else if d == 9 {
        "9"
    } else if d == 10 {
        "a"
    } else if d == 11 {
        "b"
    } else if d == 12 {
        "c"
    } else if d == 13 {
        "d"
    } else if d == 14 {
        "e"
    } else {
        "f"
    };
    proof {
        reveal_strlit("0");
        reveal_strlit("1");
        reveal_strlit("2");
        reveal_strlit("3");
        reveal_strlit("4");
        reveal_strlit("5");
        reveal_strlit("6");
        reveal_strlit("7");
        reveal_strlit("8");
        reveal_strlit("9");
        reveal_strlit("a");
        reveal_strlit("b");
        reveal_strlit("c");
        reveal_strlit("d");
        reveal_strlit("e");
        reveal_strlit("f");
        assert(piece@ =~= seq![hex_digit_char(d)]);
    }
    s.append(piece);
}

/// Encodes bytes as a lowercase hex string: two digits per byte.
pub fn hex_encode(data: &[u8]) -> (r: String)
    ensures
        r@ == hex_of(data@),
{
    let mut s = String::new();
    let n = data.len();
    for i in 0..n
        invariant
            n == data@.len(),
            s@ == hex_of(data@.take(i as int)),
    {
        let b = data[i];
        push_hex_digit(&mut s, b / 16);
        push_hex_digit(&mut s, b % 16);
        proof {
            assert(data@.take(i + 1).drop_last() =~= data@.take(i as int));
            assert(data@.take(i + 1).last() == data@[i as int]);
        }
    }
    proof {
        assert(data@.take(n as int) =~= data@);
    }
    s
}

/// Encodes bytes as lowercase hex ASCII bytes.
fn hex_encode_bytes(data: &[u8]) -> (r: Vec<u8>)
    ensures
        r@ == hex_bytes_of(data@),
{
    let mut v: Vec<u8> = Vec::new();
    let n = data.len();
    for i in 0..n
        invariant
            n == data@.len(),
            v@ == hex_bytes_of(data@.take(i as int)),
    {
        let b = data[i];
        let hi = b / 16;
        let lo = b % 16;
        v.push(if hi < 10 { 48 + hi } else { 87 + hi });
        v.push(if lo < 10 { 48 + lo } else { 87 + lo });
        proof {
            assert(data@.take(i + 1).drop_last() =~= data@.take(i as int));
            assert(data@.take(i + 1).last() == data@[i as int]);
            assert(v@ =~= hex_bytes_of(data@.take(i + 1)));
        }
    }
    proof {
        assert(data@.take(n as int) =~= data@);
    }
    v
}

/// The nibble value of an ASCII hex digit; digits of either case count.
pub open spec fn hex_val(c: u8) -> Option<u8> {
    if 48 <= c <= 57 {
        Some((c - 48) as u8)
    } else if 97 <= c <= 102 {
        Some((c - 87) as u8)
    } else if 65 <= c <= 70 {
        Some((c - 55) as u8)
    } else {
        None
    }
}

/// The bytes encoded by an ASCII hex sequence, or `None` when a character
/// is no hex digit or the length is odd.
pub open spec fn hex_decode_spec(s: Seq<u8>) -> Option<Seq<u8>>
    decreases s.len(),
{
    if s.len() == 0 {
        Some(Seq::empty())
    } else if s.len() == 1 {
        None
    } else {
        match (hex_val(s[0]), hex_val(s[1]), hex_decode_spec(s.skip(2))) {
            (Some(h), Some(l), Some(rest)) => Some(seq![(h * 16 + l) as u8] + rest),
            _ => None,
        }
    }
}

/// The nibble value of one ASCII byte.
fn hex_val_exec(c: u8) -> (r: Option<u8>)
    ensures
        r == hex_val(c),
{
    if 48 <= c && c <= 57 {
        Some(c - 48)
    } else if 97 <= c && c <= 102 {
        Some(c - 87)
    } else if 65 <= c && c <= 70 {
        Some(c - 55)
    } else {
        None
    }
}

/// Decodes an ASCII hex sequence into bytes.
pub fn hex_decode(s: &[u8]) -> (r: Option<Vec<u8>>)
    ensures
        match r {
            Some(v) => hex_decode_spec(s@) == Some(v@),
            None => hex_decode_spec(s@) is None,
        },
{
    let n = s.len();
    if n % 2 != 0 {
        proof {
            lemma_hex_decode_odd(s@);
        }
        return None;
    }
    let mut acc: Vec<u8> = Vec::new();
    let mut i: usize = 0;
    proof {
        assert(s@.skip(0) =~= s@);
        assert(Seq::<u8>::empty() + s@ =~= s@);
    }
    while i < n
        invariant
            n == s@.len(),
            n % 2 == 0,
            i % 2 == 0,
            i <= n,
            forall|rest: Seq<u8>|
                hex_decode_spec(s@.skip(i as int)) == Some(rest) ==> hex_decode_spec(s@) == Some(
                    acc@ + rest,
                ),
            hex_decode_spec(s@.skip(i as int)) is None ==> hex_decode_spec(s@) is None,
        decreases n - i,
    {
        let ghost rem = s@.skip(i as int);
        proof {
            assert(rem.len() == n - i >= 2);
            assert(rem[0] == s@[i as int]);
            assert(rem[1] == s@[i as int + 1]);
            assert(rem.skip(2) =~= s@.skip(i as int + 2));
        }
        let h = hex_val_exec(s[i]);
        let l = hex_val_exec(s[i + 1]);
        match (h, l) {
            (Some(h), Some(l)) => {
                let ghost old_acc = acc@;
                acc.push(h * 16 + l);
                proof {
                    assert forall|rest: Seq<u8>|
                        hex_decode_spec(s@.skip(i as int + 2)) == Some(rest) implies hex_decode_spec(
                        s@,
                    ) == Some(acc@ + rest) by {
                        assert(hex_decode_spec(rem) == Some(seq![(h * 16 + l) as u8] + rest));
                        assert(old_acc + (seq![(h * 16 + l) as u8] + rest) =~= acc@ + rest);
                    }
                    if hex_decode_spec(s@.skip(i as int + 2)) is None {
                        assert(hex_decode_spec(rem) is None);
                    }
                }
                i = i + 2;
            },
            _ => {
                proof {
                    assert(hex_decode_spec(rem) is None);
                }
                return None;
            },
        }
    }
    proof {
        assert(s@.skip(n as int) =~= Seq::<u8>::empty());
        assert(hex_decode_spec(Seq::<u8>::empty()) == Some(Seq::<u8>::empty()));
        assert(acc@ + Seq::<u8>::empty() =~= acc@);
    }
    Some(acc)
}

/// Hex sequences of odd length decode to nothing.
proof fn lemma_hex_decode_odd(s: Seq<u8>)
    requires
        s.len() % 2 == 1,
    ensures
        hex_decode_spec(s) is None,
    decreases s.len(),
{
    if s.len() > 1 {
        lemma_hex_decode_odd(s.skip(2));
    }
}

/// Appends a byte slice to a vector.
fn append_bytes(dst: &mut Vec<u8>, src: &[u8])
    ensures
        final(dst)@ == old(dst)@ + src@,
{
    let n = src.len();
    for i in 0..n
        invariant
            n == src@.len(),
            dst@ == old(dst)@ + src@.take(i as int),
    {
        dst.push(src[i]);
        proof {
            assert(old(dst)@ + src@.take(i + 1) =~= (old(dst)@ + src@.take(i as int)).push(
                src@[i as int],
            ));
        }
    }
    proof {
        assert(old(dst)@ + src@.take(n as int) =~= old(dst)@ + src@);
    }
}

/// Compares two byte slices.
fn bytes_eq(a: &[u8], b: &[u8]) -> (r: bool)
    ensures
        r == (a@ == b@),
{
    let n = a.len();
    if n != b.len() {
        return false;
    }
    for i in 0..n
        invariant
            n == a@.len() == b@.len(),
            forall|j: int| 0 <= j < i ==> a@[j] == b@[j],
    {
        if a[i] != b[i] {
            return false;
        }
    }
    proof {
        assert(a@ =~= b@);
    }
    true
}

/// Hashes a plaintext answer under a decipher key: the lowercase hex form
/// of SHA-256 over the key followed by the answer.
pub fn prepare_hashed_answer(answer: &str, key: &str) -> (r: String)
    ensures
        r@ == hex_of(sha256_of(key.spec_bytes() + answer.spec_bytes())),
{
    let mut data: Vec<u8> = Vec::new();
    append_bytes(&mut data, key.as_bytes());
    append_bytes(&mut data, answer.as_bytes());
    let digest = sha256(data.as_slice());
    hex_encode(digest.as_slice())
}

/// Copies `v[from..to]` into a fresh vector.
fn subvec(v: &[u8], from: usize, to: usize) -> (r: Vec<u8>)
    requires
        from <= to <= v@.len(),
    ensures
        r@ == v@.subrange(from as int, to as int),
{
    let mut out: Vec<u8> = Vec::new();
    for i in from..to
        invariant
            from <= i <= to <= v@.len(),
            out@ == v@.subrange(from as int, i as int),
    {
        out.push(v[i]);
        proof {
            assert(v@.subrange(from as int, i + 1) =~= v@.subrange(from as int, i as int).push(
                v@[i as int],
            ));
        }
    }
    out
}

/// The bytewise exclusive-or of two equally long sequences.
pub open spec fn xor_bytes(a: Seq<u8>, b: Seq<u8>) -> Seq<u8> {
    Seq::new(a.len(), |i: int| a[i] ^ b[i])
}

/// Exclusive-ors two equally long byte slices.
fn xor_slices(a: &[u8], b: &[u8]) -> (r: Vec<u8>)
    requires
        a@.len() == b@.len(),
    ensures
        r@ == xor_bytes(a@, b@),
{
    let n = a.len();
    let mut out: Vec<u8> = Vec::new();
    for i in 0..n
        invariant
            n == a@.len() == b@.len(),
            out@.len() == i,
            forall|j: int| 0 <= j < i ==> out@[j] == (a@[j] ^ b@[j]),
    {
        out.push(a[i] ^ b[i]);
    }
    proof {
        assert(out@ =~= xor_bytes(a@, b@));
    }
    out
}

/// Whether a submitted hex digest matches the answer hashed under the key:
/// the submission must decode (either case) to exactly the SHA-256 digest
/// of key followed by answer.
pub fn check_answer(answer: &str, key: &str, submission: &str) -> (r: bool)
    ensures
        r == (hex_decode_spec(submission.spec_bytes()) == Some(
            sha256_of(key.spec_bytes() + answer.spec_bytes()),
        )),
{
    let mut data: Vec<u8> = Vec::new();
    append_bytes(&mut data, key.as_bytes());
    append_bytes(&mut data, answer.as_bytes());
    let digest = sha256(data.as_slice());
    match hex_decode(submission.as_bytes()) {
        None => false,
        Some(decoded) => bytes_eq(decoded.as_slice(), digest.as_slice()),
    }
}

/// How long a register token stays valid.
pub const EXPIRE_MINUTES: u64 = 5;

/// Why a register token was rejected.
#[derive(Debug, Clone)]
pub enum DecodeTokenError {
    /// Expired this many seconds ago.
    Expired(u64),
    /// Well-formed but its hash does not check out; carries the raw input.
    InvalidContent(String),
    /// Not a 128-digit hexadecimal number.
    InvalidFormat,
    Unknown,
}

/// The payload bytes of a 64-byte token: the first half un-masked with the
/// second.
pub open spec fn token_payload(bytes: Seq<u8>) -> Seq<u8> {
    xor_bytes(bytes.subrange(0, 32), bytes.subrange(32, 64))
}

/// Whether the token's trailing hash authenticates its payload under `salt`.
pub open spec fn token_hash_ok(bytes: Seq<u8>, salt: Seq<u8>) -> bool {
    sha256_of(token_payload(bytes) + salt) == bytes.subrange(32, 64)
}

/// The big-endian 32-bit integer held in the four bytes at `at`.
pub open spec fn be_u32_at(b: Seq<u8>, at: int) -> int {
    b[at] * 0x1000000 + b[at + 1] * 0x10000 + b[at + 2] * 0x100 + b[at + 3]
}

/// The issue time in seconds carried by a token payload.
pub open spec fn token_time_secs(payload: Seq<u8>) -> int {
    be_u32_at(payload, 22) * 60
}

/// Whether a token issued at `payload`'s time is stale at `now_secs`.
pub open spec fn token_expired(payload: Seq<u8>, now_secs: u64) -> bool {
    token_time_secs(payload) <= now_secs && now_secs - token_time_secs(payload) > EXPIRE_MINUTES
        * 60
}

/// Decodes and authenticates a register token.
///
/// The input must be 128 hex digits for 64 bytes: a 32-byte masked payload
/// followed by the SHA-256 of payload and `token`.  A valid, unexpired
/// token yields its version byte, mark byte and hex-encoded openid.
pub fn decode_token(hex_input: &str, token: &str, now_secs: u64) -> (r: Result<
    (u8, u8, String),
    DecodeTokenError,
>)
    ensures
        match r {
            Ok((version, mark, openid)) => hex_decode_spec(hex_input.spec_bytes()) matches Some(
                bytes,
            ) && {
                let payload = token_payload(bytes);
                &&& bytes.len() == 64
                &&& token_hash_ok(bytes, token.spec_bytes())
                &&& version == payload[0]
                &&& mark == payload[26]
                &&& openid@ == hex_of(payload.subrange(1, 22))
                &&& !token_expired(payload, now_secs)
            },
            Err(DecodeTokenError::InvalidFormat) => {
                ||| hex_decode_spec(hex_input.spec_bytes()) is None
                ||| hex_decode_spec(hex_input.spec_bytes()) matches Some(bytes) && bytes.len()
                    != 64
            },
            Err(DecodeTokenError::InvalidContent(s)) => hex_decode_spec(hex_input.spec_bytes())
                matches Some(bytes) && {
                &&& bytes.len() == 64
                &&& !token_hash_ok(bytes, token.spec_bytes())
                &&& s@ == hex_input@
            },
            Err(DecodeTokenError::Expired(ago)) => hex_decode_spec(hex_input.spec_bytes())
                matches Some(bytes) && {
                let payload = token_payload(bytes);
                &&& bytes.len() == 64
                &&& token_hash_ok(bytes, token.spec_bytes())
                &&& token_expired(payload, now_secs)
                &&& ago == now_secs - token_time_secs(payload) - EXPIRE_MINUTES * 60
            },
            Err(DecodeTokenError::Unknown) => false,
        },
{
    let bytes = match hex_decode(hex_input.as_bytes()) {
        None => {
            return Err(DecodeTokenError::InvalidFormat);
        },
        Some(b) => b,
    };
    if bytes.len() != 64 {
        return Err(DecodeTokenError::InvalidFormat);
    }
    let encoded = subvec(bytes.as_slice(), 0, 32);
    let received = subvec(bytes.as_slice(), 32, 64);
    let payload = xor_slices(encoded.as_slice(), received.as_slice());

    let mut data: Vec<u8> = Vec::new();
    append_bytes(&mut data, payload.as_slice());
    append_bytes(&mut data, token.as_bytes());
    let calculated = sha256(data.as_slice());
    if !bytes_eq(calculated.as_slice(), received.as_slice()) {
        return Err(DecodeTokenError::InvalidContent(hex_input.to_owned()));
    }

    let version = *vstd::slice::slice_index_get(payload.as_slice(), 0);
    let openid = hex_encode(subvec(payload.as_slice(), 1, 22).as_slice());
    let b22 = *vstd::slice::slice_index_get(payload.as_slice(), 22) as u64;
    let b23 = *vstd::slice::slice_index_get(payload.as_slice(), 23) as u64;
    let b24 = *vstd::slice::slice_index_get(payload.as_slice(), 24) as u64;
    let b25 = *vstd::slice::slice_index_get(payload.as_slice(), 25) as u64;
    let time: u64 = (b22 * 0x1000000 + b23 * 0x10000 + b24 * 0x100 + b25) * 60;
    let mark = *vstd::slice::slice_index_get(payload.as_slice(), 26);

    if time <= now_secs && now_secs - time > EXPIRE_MINUTES * 60 {
        return Err(DecodeTokenError::Expired(now_secs - time - EXPIRE_MINUTES * 60));
    }

    Ok((version, mark, openid))
}

/// The byte form of repeatedly hashing a root key: each step is the hex
/// encoding of the SHA-256 of the previous step.
pub open spec fn chain_bytes(root: Seq<u8>, k: nat) -> Seq<u8>
    decreases k,
{
    if k == 0 {
        root
    } else {
        hex_bytes_of(sha256_of(chain_bytes(root, (k - 1) as nat)))
    }
}

/// The key `n` levels up a decipher chain: the root itself at level 0,
/// and one more round of hex-encoded SHA-256 for each further level.
pub fn cipher_chain(root: &str, n: usize) -> (r: String)
    ensures
        n == 0 ==> r@ == root@,
        n >= 1 ==> r@ == hex_of(sha256_of(chain_bytes(root.spec_bytes(), (n - 1) as nat))),
{
    if n == 0 {
        return root.to_owned();
    }
    let mut v: Vec<u8> = root.as_bytes_vec();
    for k in 0..n - 1
        invariant
            v@ == chain_bytes(root.spec_bytes(), k as nat),
            n >= 1,
    {
        let digest = sha256(v.as_slice());
        v = hex_encode_bytes(digest.as_slice());
    }
    let digest = sha256(v.as_slice());
    hex_encode(digest.as_slice())
}

/// Creates a fresh salted password record: a random 32-byte salt and the
/// SHA-256 of token, password and salt, both as 64 hex digits.  A user row
/// storing exactly these two strings passes [`check_salted_password`] with
/// the same password and token.
pub fn gen_salted_password(password: &str, token: &str) -> (r: (String, String))
    ensures
        exists|salt: Seq<u8>|
            {
                &&& salt.len() == 32
                &&& r.0@ == #[trigger] hex_of(salt)
                &&& r.1@ == hex_of(
                    sha256_of(token.spec_bytes() + password.spec_bytes() + salt),
                )
            },
        r.0@.len() == 64,
        r.1@.len() == 64,
        salted_password_matches(r.0@, r.1@, password.spec_bytes(), token.spec_bytes()),
{
    proof {
        broadcast use vstd::array::group_array_axioms;

    }
    let salt: [u8; 32] = get_salt::<32>();
    let mut data: Vec<u8> = Vec::new();
    append_bytes(&mut data, token.as_bytes());
    append_bytes(&mut data, password.as_bytes());
    append_bytes(&mut data, salt.as_slice());
    let digest = sha256(data.as_slice());
    let r = (hex_encode(salt.as_slice()), hex_encode(digest.as_slice()));
    proof {
        assert(salt@.len() == 32 && r.0@ == hex_of(salt@) && r.1@ == hex_of(
            sha256_of(token.spec_bytes() + password.spec_bytes() + salt@),
        ));
        lemma_hex_of_len(salt@);
        lemma_hex_of_len(digest@);
        lemma_hex_decode_chars_round_trip(salt@);
        lemma_hex_decode_chars_round_trip(digest@);
    }
    r
}

/// The nibble value of a hex digit character; digits of either case count.
pub open spec fn char_hex_val(c: char) -> Option<u8> {
    if 48 <= c as u32 && c as u32 <= 57 {
        Some((c as u32 - 48) as u8)
    } else if 97 <= c as u32 && c as u32 <= 102 {
        Some((c as u32 - 87) as u8)
    } else if 65 <= c as u32 && c as u32 <= 70 {
        Some((c as u32 - 55) as u8)
    } else {
        None
    }
}

/// The bytes encoded by a hex character sequence, or `None` when some
/// character is no hex digit or the length is odd.
pub open spec fn hex_decode_chars_spec(s: Seq<char>) -> Option<Seq<u8>>
    decreases s.len(),
{
    if s.len() == 0 {
        Some(Seq::empty())
    } else if s.len() == 1 {
        None
    } else {
        match (char_hex_val(s[0]), char_hex_val(s[1]), hex_decode_chars_spec(s.skip(2))) {
            (Some(h), Some(l), Some(rest)) => Some(seq![(h * 16 + l) as u8] + rest),
            _ => None,
        }
    }
}

/// Reading the character a nibble encodes to gives the nibble back.
proof fn lemma_char_hex_val_of_digit(d: u8)
    requires
        d < 16,
    ensures
        char_hex_val(hex_digit_char(d)) == Some(d),
{
}

/// A hex encoding decomposes from the front as well as from the back.
proof fn lemma_hex_of_first(b: Seq<u8>)
    requires
        b.len() >= 1,
    ensures
        hex_of(b) == seq![hex_digit_char(b[0] / 16), hex_digit_char(b[0] % 16)] + hex_of(
            b.drop_first(),
        ),
    decreases b.len(),
{
    if b.len() == 1 {
        assert(b.drop_last() =~= Seq::<u8>::empty());
        assert(b.drop_first() =~= Seq::<u8>::empty());
        assert(hex_of(b) =~= seq![hex_digit_char(b[0] / 16), hex_digit_char(b[0] % 16)] + hex_of(
            b.drop_first(),
        ));
    } else {
        lemma_hex_of_first(b.drop_last());
        assert(b.drop_last()[0] == b[0]);
        assert(b.drop_last().drop_first() =~= b.drop_first().drop_last());
        assert(b.drop_first().last() == b.last());
        assert(hex_of(b) =~= seq![hex_digit_char(b[0] / 16), hex_digit_char(b[0] % 16)] + hex_of(
            b.drop_first(),
        ));
    }
}

/// Decoding the characters of a hex encoding gives the bytes back: the
/// codec round-trips.
pub proof fn lemma_hex_decode_chars_round_trip(b: Seq<u8>)
    ensures
        hex_decode_chars_spec(hex_of(b)) == Some(b),
    decreases b.len(),
{
    lemma_hex_of_len(b);
    if b.len() == 0 {
        assert(hex_of(b) =~= Seq::<char>::empty());
        assert(Some(Seq::<u8>::empty()) == Some(b));
    } else {
        let s = hex_of(b);
        lemma_hex_of_first(b);
        lemma_char_hex_val_of_digit((b[0] / 16) as u8);
        lemma_char_hex_val_of_digit((b[0] % 16) as u8);
        assert(s[0] == hex_digit_char(b[0] / 16));
        assert(s[1] == hex_digit_char(b[0] % 16));
        assert(s.skip(2) =~= hex_of(b.drop_first()));
        lemma_hex_decode_chars_round_trip(b.drop_first());
        assert((b[0] / 16) * 16 + (b[0] % 16) == b[0]) by {
            vstd::arithmetic::div_mod::lemma_fundamental_div_mod(b[0] as int, 16);
        }
        assert(seq![b[0]] + b.drop_first() =~= b);
        assert(hex_decode_chars_spec(s) == Some(b));
    }
}

/// Hex character sequences of odd length decode to nothing.
proof fn lemma_hex_decode_chars_odd(s: Seq<char>)
    requires
        s.len() % 2 == 1,
    ensures
        hex_decode_chars_spec(s) is None,
    decreases s.len(),
{
    if s.len() > 1 {
        lemma_hex_decode_chars_odd(s.skip(2));
    }
}

/// Decodes the hex digits of a string into bytes.
fn hex_decode_str(s: &str) -> (r: Option<Vec<u8>>)
    ensures
        match r {
            Some(v) => hex_decode_chars_spec(s@) == Some(v@),
            None => hex_decode_chars_spec(s@) is None,
        },
{
    let n = s.unicode_len();
    if n % 2 != 0 {
        proof {
            lemma_hex_decode_chars_odd(s@);
        }
        return None;
    }
    let mut acc: Vec<u8> = Vec::new();
    let mut i: usize = 0;
    proof {
        assert(s@.skip(0) =~= s@);
        assert forall|rest: Seq<u8>| #[trigger] (acc@ + rest) =~= rest by {}
    }
    while i < n
        invariant
            n == s@.len(),
            n % 2 == 0,
            i % 2 == 0,
            i <= n,
            forall|rest: Seq<u8>|
                hex_decode_chars_spec(s@.skip(i as int)) == Some(rest) ==> hex_decode_chars_spec(
                    s@,
                ) == Some(acc@ + rest),
            hex_decode_chars_spec(s@.skip(i as int)) is None ==> hex_decode_chars_spec(s@) is None,
        decreases n - i,
    {
        let ghost rem = s@.skip(i as int);
        proof {
            assert(rem.len() == n - i >= 2);
            assert(rem[0] == s@[i as int]);
            assert(rem[1] == s@[i as int + 1]);
            assert(rem.skip(2) =~= s@.skip(i as int + 2));
        }
        let c0 = s.get_char(i);
        let c1 = s.get_char(i + 1);
        let h = char_hex_val_exec(c0);
        let l = char_hex_val_exec(c1);
        match (h, l) {
            (Some(h), Some(l)) => {
                let ghost old_acc = acc@;
                acc.push(h * 16 + l);
                proof {
                    assert forall|rest: Seq<u8>|
                        hex_decode_chars_spec(s@.skip(i as int + 2)) == Some(
                            rest,
                        ) implies hex_decode_chars_spec(s@) == Some(acc@ + rest) by {
                        assert(hex_decode_chars_spec(rem) == Some(seq![(h * 16 + l) as u8] + rest));
                        assert(old_acc + (seq![(h * 16 + l) as u8] + rest) =~= acc@ + rest);
                    }
                    if hex_decode_chars_spec(s@.skip(i as int + 2)) is None {
                        assert(hex_decode_chars_spec(rem) is None);
                    }
                }
                i = i + 2;
            },
            _ => {
                proof {
                    assert(hex_decode_chars_spec(rem) is None);
                }
                return None;
            },
        }
    }
    proof {
        assert(s@.skip(n as int) =~= Seq::<char>::empty());
        assert(acc@ + Seq::<u8>::empty() =~= acc@);
    }
    Some(acc)
}

/// The nibble value of one character.
fn char_hex_val_exec(c: char) -> (r: Option<u8>)
    ensures
        r == char_hex_val(c),
{
    let ci = c as u32;
    if 48 <= ci && ci <= 57 {
        Some((ci - 48) as u8)
    } else if 97 <= ci && ci <= 102 {
        Some((ci - 87) as u8)
    } else if 65 <= ci && ci <= 70 {
        Some((ci - 55) as u8)
    } else {
        None
    }
}

/// Whether a stored hex salt and hex password hash fit a password attempt:
/// both must decode to 32 bytes, and the hash must be the SHA-256 of
/// token, attempt and salt.
pub open spec fn salted_password_matches(
    stored_salt: Seq<char>,
    stored_hash: Seq<char>,
    password_input: Seq<u8>,
    token: Seq<u8>,
) -> bool {
    &&& hex_decode_chars_spec(stored_salt) matches Some(salt)
    &&& hex_decode_chars_spec(stored_salt)->Some_0.len() == 32
    &&& hex_decode_chars_spec(stored_hash) matches Some(hash)
    &&& hex_decode_chars_spec(stored_hash)->Some_0.len() == 32
    &&& sha256_of(token + password_input + hex_decode_chars_spec(stored_salt)->Some_0)
        == hex_decode_chars_spec(stored_hash)->Some_0
}

/// Checks a password attempt against a user's stored salted hash, handing
/// the user back only on a match.
pub fn check_salted_password<'a>(
    user: &'a crate::models::User,
    password_input: &str,
    token: &str,
) -> (r: Option<&'a crate::models::User>)
    ensures
        match r {
            Some(u) => u == user && salted_password_matches(
                user.salt@,
                user.password@,
                password_input.spec_bytes(),
                token.spec_bytes(),
            ),
            None => !salted_password_matches(
                user.salt@,
                user.password@,
                password_input.spec_bytes(),
                token.spec_bytes(),
            ),
        },
{
    let salt = match hex_decode_str(user.salt.as_str()) {
        None => {
            return None;
        },
        Some(v) => v,
    };
    if salt.len() != 32 {
        return None;
    }
    let mut data: Vec<u8> = Vec::new();
    append_bytes(&mut data, token.as_bytes());
    append_bytes(&mut data, password_input.as_bytes());
    append_bytes(&mut data, salt.as_slice());
    let calculated = sha256(data.as_slice());
    let expected = match hex_decode_str(user.password.as_str()) {
        None => {
            return None;
        },
        Some(v) => v,
    };
    if expected.len() != 32 {
        return None;
    }
    if bytes_eq(calculated.as_slice(), expected.as_slice()) {
        Some(user)
    } else {
        None
    }
}

/// The little-endian byte form of a 64-bit integer.
pub open spec fn u64_le_bytes(x: u64) -> Seq<u8> {
    seq![
        (x & 0xff) as u8,
        ((x >> 8) & 0xff) as u8,
        ((x >> 16) & 0xff) as u8,
        ((x >> 24) & 0xff) as u8,
        ((x >> 32) & 0xff) as u8,
        ((x >> 40) & 0xff) as u8,
        ((x >> 48) & 0xff) as u8,
        ((x >> 56) & 0xff) as u8,
    ]
}

/// Appends the little-endian bytes of `x`.
fn push_le_bytes(data: &mut Vec<u8>, x: u64)
    ensures
        final(data)@ == old(data)@ + u64_le_bytes(x),
{
    data.push((x & 0xff) as u8);
    data.push(((x >> 8) & 0xff) as u8);
    data.push(((x >> 16) & 0xff) as u8);
    data.push(((x >> 24) & 0xff) as u8);
    data.push(((x >> 32) & 0xff) as u8);
    data.push(((x >> 40) & 0xff) as u8);
    data.push(((x >> 48) & 0xff) as u8);
    data.push(((x >> 56) & 0xff) as u8);
    proof {
        assert(data@ =~= old(data)@ + u64_le_bytes(x));
    }
}

/// The verification code for an identity and secret in one time window:
/// the hex form of SHA-512 over identity, secret and the window number.
pub open spec fn totp_of(identity: Seq<u8>, secret: Seq<u8>, time: u64) -> Seq<char> {
    hex_of(sha512_of(identity + secret + u64_le_bytes(time)))
}

/// The two-minute window a clock reading falls into.
pub fn current_totp_time(now_secs: u64) -> (r: u64)
    ensures
        r == now_secs / 120,
{
    now_secs / 120
}

/// Computes the code for one explicit time window.
fn totp(token_id: &str, secret: &str, time: u64) -> (r: String)
    ensures
        r@ == totp_of(token_id.spec_bytes(), secret.spec_bytes(), time),
        r@.len() == 128,
{
    let mut data: Vec<u8> = Vec::new();
    append_bytes(&mut data, token_id.as_bytes());
    append_bytes(&mut data, secret.as_bytes());
    push_le_bytes(&mut data, time);
    let digest = sha512(data.as_slice());
    let r = hex_encode(digest.as_slice());
    proof {
        lemma_hex_of_len(digest@);
    }
    r
}

/// Generates the current verification code for an identity under a secret:
/// the 128 hex digits of the window's SHA-512.
pub fn gen_totp(identity: &str, secret: &str, now_secs: u64) -> (r: String)
    ensures
        r@ == totp_of(identity.spec_bytes(), secret.spec_bytes(), now_secs / 120),
        r@.len() == 128,
{
    let time = current_totp_time(now_secs);
    totp(identity, secret, time)
}

/// Whether `p` is a character prefix of `s`.
pub open spec fn is_char_prefix(p: Seq<char>, s: Seq<char>) -> bool {
    p.len() <= s.len() && forall|i: int| 0 <= i < p.len() ==> s[i] == p[i]
}

/// Whether `s` starts with `p`.
fn str_starts_with(s: &str, p: &str) -> (r: bool)
    ensures
        r == is_char_prefix(p@, s@),
{
    let pn = p.unicode_len();
    let sn = s.unicode_len();
    if pn > sn {
        return false;
    }
    for i in 0..pn
        invariant
            pn <= sn,
            pn == p@.len(),
            sn == s@.len(),
            forall|j: int| 0 <= j < i ==> s@[j] == p@[j],
    {
        if s.get_char(i) != p.get_char(i) {
            proof {
                assert(s@[i as int] != p@[i as int]);
            }
            return false;
        }
    }
    true
}

/// Checks a presented verification code for an identity under a secret,
/// allowing the neighbouring time windows as clock error; the code must
/// have the fixed length and prefix one of those windows' codes.
pub fn verify_totp(identity: &str, secret: &str, veri_code: &str, now_secs: u64) -> (r: bool)
    ensures
        r == ({
            let t = now_secs / 120;
            let id = identity.spec_bytes();
            let sec = secret.spec_bytes();
            &&& veri_code@.len() == crate::VERICODE_LENGTH
            &&& {
                ||| is_char_prefix(veri_code@, totp_of(id, sec, t))
                ||| t >= 1 && is_char_prefix(veri_code@, totp_of(id, sec, (t - 1) as u64))
                ||| is_char_prefix(veri_code@, totp_of(id, sec, (t + 1) as u64))
            }
        }),
{
    let time = current_totp_time(now_secs);
    if veri_code.unicode_len() != crate::VERICODE_LENGTH {
        return false;
    }
    if str_starts_with(totp(identity, secret, time).as_str(), veri_code) {
        return true;
    }
    if time >= 1 && str_starts_with(totp(identity, secret, time - 1).as_str(), veri_code) {
        return true;
    }
    str_starts_with(totp(identity, secret, time + 1).as_str(), veri_code)
}

} // verus!


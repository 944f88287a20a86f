//! Credential hashing, random tokens and time-based one-time passwords.
//!
//! The digest, the one-time password and the enrolment picture are computed
//! by outside crates. Their results are named by the uninterpreted functions
//! [`sha256`], [`hotp_sha1`] and [`totp_sha1_qr`]; everything around the calls
//! is verified against those names.
use crate::text::{hex_upper, push_char, text_view, to_hex_upper};
use rand::Rng;
use sha2::Digest;
use vstd::prelude::*;
use vstd::utf8::{encode_utf8, encode_utf8_decode_utf8};

verus! {

/// Length, in characters, of a password salt.
pub const SALT_LENGTH: usize = 32;

/// Length, in characters, of a one-time-password secret.
pub const SECRET_LENGTH: usize = 16;

/// Issuer shown by authenticator applications, and the host part of the
/// account label.
pub const WEBSITE_URL: &'static str = "gekinzuku.github.io";

/// Number of digits of a one-time password.
pub const TOTP_DIGITS: usize = 6;

/// Number of neighbouring time steps handed to the one-time-password engine.
pub const TOTP_SKEW: u8 = 1;

/// Length of a time step, in seconds.
pub const TOTP_STEP: u64 = 30;

/// The generator of random numbers that `rand` keeps for each thread.
#[verifier::external_type_specification]
#[verifier::external_body]
pub struct ExThreadRng(rand::rngs::ThreadRng);

/// `rand::thread_rng` hands out the calling thread's generator. Nothing is
/// claimed of it.
pub assume_specification[ rand::thread_rng ]() -> (rng: rand::rngs::ThreadRng)
;

/// `Rng::gen::<u8>`: the next byte of the generator. Any byte can come out,
/// and two draws need not agree, so nothing is claimed of the result.
#[verifier::external_body]
fn next_random_byte(rng: &mut rand::rngs::ThreadRng) -> (byte: u8) {
    rng.gen::<u8>()
}

/// The SHA-256 digest of a byte string, as `sha2` computes it.
pub uninterp spec fn sha256(data: Seq<u8>) -> Seq<u8>;

/// `sha2::Sha256::digest`: the digest of `data`, which is a function of the
/// bytes alone and, by the hasher's output size, 32 bytes long.
#[verifier::external_body]
fn sha256_digest(data: &[u8]) -> (digest: Vec<u8>)
    ensures
        digest@ == sha256(data@),
        digest@.len() == 32,
{
    sha2::Sha256::digest(data).to_vec()
}

/// The HMAC-SHA1 one-time password of `digits` decimal digits that `totp_rs`
/// derives from a secret key and a counter.
pub uninterp spec fn hotp_sha1(secret: Seq<u8>, digits: nat, counter: nat) -> Seq<char>;

/// `totp_rs::TOTP::generate` on an engine made by `TOTP::new_unchecked` with
/// the SHA1 algorithm and no issuer or account name. The crate signs the
/// counter `time / step` with the secret, so the code is a function of the
/// secret, the digit count and that counter. It prints the truncated value
/// zero-padded to `digits` places, hence the length and the alphabet.
/// A step of zero and more than nine digits make the crate's arithmetic
/// fail and are left out.
#[verifier::external_body]
fn totp_sha1_generate(digits: usize, skew: u8, step: u64, secret: &[u8], time: u64) -> (code:
    String)
    requires
        1 <= digits <= 9,
        step > 0,
    ensures
        code@ == hotp_sha1(secret@, digits as nat, (time / step) as nat),
        code@.len() == digits,
        forall|i: int| 0 <= i < code@.len() ==> '0' <= #[trigger] code@[i] <= '9',
{
    totp_rs::TOTP::new_unchecked(
        totp_rs::Algorithm::SHA1,
        digits,
        skew,
        step,
        secret.to_vec(),
        None,
        String::new(),
    ).generate(time)
}

/// The base64 text of the PNG picture of the QR code that `totp_rs` draws
/// for an enrolment address, or `None` where it cannot draw one.
pub uninterp spec fn totp_sha1_qr(
    digits: nat,
    skew: nat,
    step: nat,
    secret: Seq<u8>,
    issuer: Seq<char>,
    account_name: Seq<char>,
) -> Option<Seq<char>>;

/// `totp_rs::TOTP::get_qr_base64` on an engine made by `TOTP::new_unchecked`
/// with the SHA1 algorithm. The crate builds the `otpauth` address from the
/// arguments and draws it; it reports an error, here `None`, where the
/// address is too long for a QR code. The picture is a function of the
/// arguments alone.
#[verifier::external_body]
fn totp_sha1_qr_base64(
    digits: usize,
    skew: u8,
    step: u64,
    secret: &[u8],
    issuer: &str,
    account_name: &str,
) -> (qr: Option<String>)
    ensures
        text_view(qr) == totp_sha1_qr(
            digits as nat,
            skew as nat,
            step as nat,
            secret@,
            issuer@,
            account_name@,
        ),
{
    totp_rs::TOTP::new_unchecked(
        totp_rs::Algorithm::SHA1,
        digits,
        skew,
        step,
        secret.to_vec(),
        Some(issuer.to_string()),
        account_name.to_string(),
    ).get_qr_base64().ok()
}

/// `SystemTime::now` of std, as whole seconds since the Unix epoch; zero
/// where the clock stands before the epoch. The reading depends on the
/// moment of the call, so nothing is claimed of it.
#[verifier::external_body]
pub(crate) fn unix_time_now() -> (seconds: u64) {
    std::time::SystemTime::now().duration_since(
        std::time::UNIX_EPOCH,
    ).unwrap_or_default().as_secs()
}

/// One of the 52 ASCII letters.
pub open spec fn is_ascii_letter(c: char) -> bool {
    ('A' <= c && c <= 'Z') || ('a' <= c && c <= 'z')
}

/// A token of `length` ASCII letters: the shape of every salt and secret.
pub open spec fn is_random_token(token: Seq<char>, length: nat) -> bool {
    &&& token.len() == length
    &&& forall|i: int| 0 <= i < token.len() ==> is_ascii_letter(#[trigger] token[i])
}

/// The letter that stands for a random byte: the byte is reduced modulo 52;
/// the first 26 values give `A` to `Z`, the others `a` to `z`.
pub open spec fn letter_of(byte: u8) -> char {
    if byte % 52 < 26 {
        (65 + byte % 52) as char
    } else {
        (71 + byte % 52) as char
    }
}

/// The digest of a password under a salt: upper-case hexadecimal SHA-256 of
/// the UTF-8 bytes of the password followed by the salt.
pub open spec fn spec_password_hash(password: Seq<char>, salt: Seq<char>) -> Seq<char> {
    hex_upper(sha256(encode_utf8(password + salt)))
}

/// The account label of a user: the user name, `@` and the issuer.
pub open spec fn spec_totp_label(username: Seq<char>) -> Seq<char> {
    username + seq!['@'] + WEBSITE_URL@
}

/// The enrolment payload of a user, or `None` where none can be drawn.
pub open spec fn spec_totp_qr(username: Seq<char>, totp_secret: Seq<char>) -> Option<Seq<char>> {
    totp_sha1_qr(
        TOTP_DIGITS as nat,
        TOTP_SKEW as nat,
        TOTP_STEP as nat,
        encode_utf8(totp_secret),
        WEBSITE_URL@,
        spec_totp_label(username),
    )
}

/// Index of the time step that holds the second `time`.
pub open spec fn spec_time_window(time: u64) -> nat {
    (time / TOTP_STEP) as nat
}

/// The one-time password of a secret in the time step that holds `time`.
pub open spec fn spec_totp(totp_secret: Seq<char>, time: u64) -> Seq<char> {
    hotp_sha1(encode_utf8(totp_secret), TOTP_DIGITS as nat, spec_time_window(time))
}

/// A candidate code is accepted at `time`: the secret is not empty and the
/// candidate is, character for character, the code of the step of `time`.
pub open spec fn spec_valid_totp(totp_secret: Seq<char>, totp_code: Seq<char>, time: u64) -> bool {
    totp_secret.len() > 0 && spec_totp(totp_secret, time) == totp_code
}

/// Credential hasher, random tokens and the one-time-password engine.
pub struct DbCrypto {}

impl DbCrypto {
    /// A fresh salt for hashing a password: `SALT_LENGTH` random letters.
    pub fn gen_rand_salt() -> (salt: String)
        ensures
            is_random_token(salt@, SALT_LENGTH as nat),
    {
        DbCrypto::gen_rand_string(SALT_LENGTH)
    }

    /// A fresh one-time-password secret: `SECRET_LENGTH` random letters.
    pub fn gen_rand_secret() -> (secret: String)
        ensures
            is_random_token(secret@, SECRET_LENGTH as nat),
    {
        DbCrypto::gen_rand_string(SECRET_LENGTH)
    }

    /// The enrolment payload for an authenticator application: the base64
    /// text of a QR picture that carries the secret, the issuer and the
    /// account label. `None` where the outside encoder cannot draw it.
    pub fn gen_totp_qr(username: &str, totp_secret: &str) -> (qr: Option<String>)
        ensures
            text_view(qr) == spec_totp_qr(username@, totp_secret@),
    {
        let mut label = username.to_owned();
        push_char(&mut label, '@');
        label.append(WEBSITE_URL);
        assert(label@ =~= spec_totp_label(username@));
        totp_sha1_qr_base64(
            TOTP_DIGITS,
            TOTP_SKEW,
            TOTP_STEP,
            totp_secret.as_bytes(),
            WEBSITE_URL,
            label.as_str(),
        )
    }

    /// The one-time password of `totp_secret` for the time step that holds
    /// `time`, given in seconds since the Unix epoch.
    pub fn generate_totp(totp_secret: &str, time: u64) -> (code: String)
        ensures
            code@ == spec_totp(totp_secret@, time),
            code@.len() == TOTP_DIGITS,
            forall|i: int| 0 <= i < code@.len() ==> '0' <= #[trigger] code@[i] <= '9',
    {
        totp_sha1_generate(TOTP_DIGITS, TOTP_SKEW, TOTP_STEP, totp_secret.as_bytes(), time)
    }

    /// Whether `totp_code` is the one-time password of `totp_secret` at
    /// `time`. An empty secret is never accepted.
    pub fn is_valid_totp_at(totp_secret: &str, totp_code: &str, time: u64) -> (valid: bool)
        ensures
            valid == spec_valid_totp(totp_secret@, totp_code@, time),
    {
        if totp_secret.is_empty() {
            return false;
        }
        let token = DbCrypto::generate_totp(totp_secret, time);
        let same = same_bytes(token.as_str().as_bytes(), totp_code.as_bytes());
        proof {
            encode_utf8_decode_utf8(token@);
            encode_utf8_decode_utf8(totp_code@);
        }
        same
    }

    /// Whether `totp_code` is the one-time password of `totp_secret` now.
    /// The clock is read once; the answer is that of [`Self::is_valid_totp_at`]
    /// for the second it showed.
    pub fn is_valid_totp(totp_secret: &str, totp_code: &str) -> (valid: bool)
        ensures
            exists|time: u64| valid == spec_valid_totp(totp_secret@, totp_code@, time),
            totp_secret@.len() == 0 ==> !valid,
    {
        let time = unix_time_now();
        DbCrypto::is_valid_totp_at(totp_secret, totp_code, time)
    }

    /// The stored form of a password: the digest of the password followed by
    /// the salt, as 64 upper-case hexadecimal digits.
    pub fn password_to_hash(password: &str, salt: &str) -> (digest: String)
        ensures
            digest@ == spec_password_hash(password@, salt@),
            digest@.len() == 64,
    {
        let mut salted = password.to_owned();
        salted.append(salt);
        DbCrypto::get_sha256_hash(salted.as_str())
    }

    /// The letter that stands for one random byte.
    pub fn letter_for(byte: u8) -> (letter: char)
        ensures
            letter == letter_of(byte),
            is_ascii_letter(letter),
    {
        let index: u8 = byte % 52;
        if index < 26 {
            (65 + index) as char
        } else {
            (71 + index) as char
        }
    }

    /// A string of `length` random letters.
    pub fn gen_rand_string(length: usize) -> (token: String)
        ensures
            is_random_token(token@, length as nat),
    {
        let mut rng = rand::thread_rng();
        let mut token = String::new();
        let mut drawn: usize = 0;
        while drawn < length
            invariant
                drawn <= length,
                is_random_token(token@, drawn as nat),
            decreases length - drawn,
        {
            let byte = next_random_byte(&mut rng);
            push_char(&mut token, DbCrypto::letter_for(byte));
            drawn += 1;
        }
        token
    }

    /// The SHA-256 digest of the UTF-8 bytes of `input`, as 64 upper-case
    /// hexadecimal digits.
    pub fn get_sha256_hash(input: &str) -> (digest: String)
        ensures
            digest@ == hex_upper(sha256(encode_utf8(input@))),
            digest@.len() == 64,
    {
        let digest = sha256_digest(input.as_bytes());
        to_hex_upper(digest.as_slice())
    }
}

/// Whether two byte strings are equal. Strings of one length are compared
/// over their whole length, whatever the position of the first difference.
pub fn same_bytes(left: &[u8], right: &[u8]) -> (same: bool)
    ensures
        same == (left@ == right@),
{
    if left.len() != right.len() {
        return false;
    }
    let mut difference: u8 = 0;
    let mut i: usize = 0;
    assert(left@.take(0) =~= right@.take(0));
    while i < left.len()
        invariant
            i <= left.len(),
            left.len() == right.len(),
            difference == 0 <==> left@.take(i as int) == right@.take(i as int),
        decreases left.len() - i,
    {
        let a: u8 = left[i];
        let b: u8 = right[i];
        let before: u8 = difference;
        difference = difference | (a ^ b);
        proof {
            assert((before | (a ^ b)) == 0 <==> (before == 0 && a == b)) by (bit_vector);
            if left@.take(i + 1) == right@.take(i + 1) {
                assert(left@.take(i as int) =~= left@.take(i + 1).take(i as int));
                assert(right@.take(i as int) =~= right@.take(i + 1).take(i as int));
                assert(left@.take(i + 1)[i as int] == right@.take(i + 1)[i as int]);
            }
            if left@.take(i as int) == right@.take(i as int) && a == b {
                assert(left@.take(i + 1) =~= left@.take(i as int).push(a));
                assert(right@.take(i + 1) =~= right@.take(i as int).push(b));
            }
        }
        i += 1;
    }
    proof {
        assert(left@.take(i as int) =~= left@);
        assert(right@.take(i as int) =~= right@);
    }
    difference == 0
}

/// Hashing is a function of the password and the salt alone: equal
/// passwords under equal salts have equal digests.
pub proof fn lemma_password_hash_deterministic(
    password: Seq<char>,
    salt: Seq<char>,
    other_password: Seq<char>,
    other_salt: Seq<char>,
)
    requires
        password == other_password,
        salt == other_salt,
    ensures
        spec_password_hash(password, salt) == spec_password_hash(other_password, other_salt),
{
}

/// Under two different salts one password gives the hasher two different
/// byte strings to digest.
pub proof fn lemma_distinct_salts_distinct_messages(
    password: Seq<char>,
    salt: Seq<char>,
    other_salt: Seq<char>,
)
    requires
        salt != other_salt,
    ensures
        encode_utf8(password + salt) != encode_utf8(password + other_salt),
{
    let n = password.len() as int;
    let a = password + salt;
    let b = password + other_salt;
    assert(a.subrange(n, a.len() as int) =~= salt);
    assert(b.subrange(n, b.len() as int) =~= other_salt);
    encode_utf8_decode_utf8(a);
    encode_utf8_decode_utf8(b);
}

/// Two moments of one time step have the same one-time password.
pub proof fn lemma_totp_same_window(totp_secret: Seq<char>, time: u64, other_time: u64)
    requires
        spec_time_window(time) == spec_time_window(other_time),
    ensures
        spec_totp(totp_secret, time) == spec_totp(totp_secret, other_time),
{
}

/// The time steps are the half-open intervals of `TOTP_STEP` seconds that
/// start at the multiples of `TOTP_STEP`.
pub proof fn lemma_time_window_bounds(time: u64)
    ensures
        spec_time_window(time) * TOTP_STEP <= time < (spec_time_window(time) + 1) * TOTP_STEP,
{
}

/// The code generated for a moment is accepted at that moment, and at
/// every moment of the same time step, unless the secret is empty.
pub proof fn lemma_generated_code_is_valid(totp_secret: Seq<char>, time: u64, other_time: u64)
    requires
        totp_secret.len() > 0,
        spec_time_window(time) == spec_time_window(other_time),
    ensures
        spec_valid_totp(totp_secret, spec_totp(totp_secret, time), other_time),
{
}

/// A candidate that is not the code of the moment is refused, and with an
/// empty secret every candidate is.
pub proof fn lemma_other_code_is_invalid(totp_secret: Seq<char>, totp_code: Seq<char>, time: u64)
    requires
        totp_code != spec_totp(totp_secret, time) || totp_secret.len() == 0,
    ensures
        !spec_valid_totp(totp_secret, totp_code, time),
{
}

} // verus!

use vstd::prelude::*;
use vstd::string::*;
use vstd::utf8::*;

use aes_gcm_siv::aead::generic_array::GenericArray;
use aes_gcm_siv::aead::Aead;
use aes_gcm_siv::{Aes256GcmSiv, KeyInit};

use crate::hex_codec::{
    hex_decode, hex_decode_spec, hex_encode, hex_encode_spec, hex_error_message, hex_error_text,
    ascii_lowercase, lemma_hex_reencode, lemma_hex_round_trip, HexError,
};

verus! {

#[verifier::external_type_specification]
#[verifier::external_body]
pub struct ExAeadError(aes_gcm_siv::Error);

#[verifier::external_type_specification]
#[verifier::external_body]
pub struct ExUtf8Error(std::str::Utf8Error);

/// The longest plaintext, in bytes, that AES-GCM-SIV seals (2^36).
pub const MAX_PLAINTEXT_LEN: u64 = 68719476736;

/// The length, in bytes, of the authentication tag that follows a sealed message.
pub const TAG_LEN: u64 = 16;

/// The ciphertext (message followed by its tag) that AES-256-GCM-SIV produces
/// for a key, a nonce and a plaintext, with no associated data.
pub uninterp spec fn aes256_gcm_siv_ciphertext(
    key: Seq<u8>,
    nonce: Seq<u8>,
    plaintext: Seq<u8>,
) -> Seq<u8>;

/// Seals a plaintext with `Aead::encrypt` of `aes_gcm_siv::Aes256GcmSiv`.
/// The contract claims what the crate's source shows: success exactly for
/// plaintexts of at most 2^36 bytes, the tag appended to a ciphertext of the
/// plaintext's length, and the result being the cipher's output, named.
#[verifier::external_body]
fn aes256_gcm_siv_encrypt(key: &[u8; 32], nonce: &[u8; 12], plaintext: &[u8]) -> (r: Result<
    Vec<u8>,
    aes_gcm_siv::Error,
>)
    ensures
        r is Ok <==> plaintext@.len() <= MAX_PLAINTEXT_LEN,
        r matches Ok(c) ==> c@ == aes256_gcm_siv_ciphertext(key@, nonce@, plaintext@) && c@.len()
            == plaintext@.len() + TAG_LEN,
{
    let cipher = Aes256GcmSiv::new(GenericArray::from_slice(key));
    cipher.encrypt(GenericArray::from_slice(nonce), plaintext)
}

/// Opens a ciphertext with `Aead::decrypt` of `aes_gcm_siv::Aes256GcmSiv`.
/// The contract claims what the crate's source shows of this deterministic
/// cipher: what it opens is 16 bytes shorter, and sealing it again under the
/// same key and nonce gives the ciphertext back; and a ciphertext that is the
/// sealing of some plaintext opens to that plaintext; a ciphertext whose
/// message part is longer than 2^36 + 16 bytes is refused. It leaves unsaid
/// what a ciphertext of 2^36 + 17 to 2^36 + 32 bytes that is no sealing opens to.
#[verifier::external_body]
fn aes256_gcm_siv_decrypt(key: &[u8; 32], nonce: &[u8; 12], ciphertext: &[u8]) -> (r: Result<
    Vec<u8>,
    aes_gcm_siv::Error,
>)
    ensures
        r matches Ok(p) ==> p@.len() + TAG_LEN == ciphertext@.len() && (p@.len()
            <= MAX_PLAINTEXT_LEN ==> ciphertext@ == aes256_gcm_siv_ciphertext(key@, nonce@, p@)),
        r matches Ok(q) ==> forall|p: Seq<u8>|
            p.len() <= MAX_PLAINTEXT_LEN && ciphertext@ == #[trigger] aes256_gcm_siv_ciphertext(
                key@,
                nonce@,
                p,
            ) ==> q@ == p,
        ciphertext@.len() > MAX_PLAINTEXT_LEN + 2 * TAG_LEN ==> r is Err,
        r is Err ==> forall|p: Seq<u8>|
            p.len() <= MAX_PLAINTEXT_LEN ==> ciphertext@ != #[trigger] aes256_gcm_siv_ciphertext(
                key@,
                nonce@,
                p,
            ),
{
    let cipher = Aes256GcmSiv::new(GenericArray::from_slice(key));
    cipher.decrypt(GenericArray::from_slice(nonce), ciphertext)
}

/// Reads bytes as text with `std::str::from_utf8`, which, as its
/// documentation says, succeeds exactly on valid UTF-8 and then holds the
/// characters the bytes encode.
#[verifier::external_body]
fn str_from_utf8(bytes: &[u8]) -> (r: Result<&str, std::str::Utf8Error>)
    ensures
        r is Ok <==> valid_utf8(bytes@),
        r matches Ok(s) ==> s@ == decode_utf8(bytes@),
{
    std::str::from_utf8(bytes)
}

/// The text that the `Display` impl of the error `std::str::from_utf8`
/// reports for bytes that are not UTF-8 writes (the same text that
/// `String::from_utf8`'s error writes).
pub uninterp spec fn utf8_error_text(bytes: Seq<u8>) -> Seq<char>;

/// Renders the error that `std::str::from_utf8` reports for bytes that are
/// not UTF-8 with its `Display` impl; the contract names the text, which
/// depends on the bytes alone.
#[verifier::external_body]
fn utf8_error_message(bytes: &[u8]) -> (text: String)
    requires
        !valid_utf8(bytes@),
    ensures
        text@ == utf8_error_text(bytes@),
{
    match std::str::from_utf8(bytes) {
        Err(e) => e.to_string(),
        Ok(_) => String::new(),
    }
}

/// `0-9` or `a-f`.
pub open spec fn is_lower_hex_char(c: char) -> bool {
    ('0' <= c <= '9') || ('a' <= c <= 'f')
}

/// The text of a UUID in its simple form: 32 lowercase hexadecimal digits.
pub open spec fn is_simple_uuid_text(s: Seq<char>) -> bool {
    s.len() == 32 && forall|i: int| 0 <= i < 32 ==> is_lower_hex_char(#[trigger] s[i])
}

/// Draws a random version-4 UUID with `uuid::Uuid::new_v4` and renders it in
/// its simple form; the contract claims only the form of the text, which
/// the crate's source writes as 32 lowercase hexadecimal digits. The value is
/// random; the call panics only where the system's random source fails.
#[verifier::external_body]
fn random_simple_uuid() -> (text: String)
    ensures
        is_simple_uuid_text(text@),
{
    uuid::Uuid::new_v4().as_simple().to_string()
}

/// `count` bytes that repeat `raw` from its start, as often as needed.
pub open spec fn cycled_bytes(raw: Seq<u8>, count: nat) -> Seq<u8>
    recommends
        raw.len() > 0,
{
    Seq::new(count, |i: int| raw[i % (raw.len() as int)])
}

/// The 32 key bytes derived from a key text: its UTF-8 bytes, repeated.
pub open spec fn derived_key(input: Seq<char>) -> Seq<u8> {
    cycled_bytes(encode_utf8(input), 32)
}

/// The 12 nonce bytes derived from a nonce text: its UTF-8 bytes, repeated.
pub open spec fn derived_nonce(input: Seq<char>) -> Seq<u8> {
    cycled_bytes(encode_utf8(input), 12)
}

/// The key and the nonce repeat the UTF-8 bytes of their texts unchanged,
/// from the first byte on, cut to 32 and 12 bytes.
pub proof fn lemma_derived_bytes_repeat_input(key_input: Seq<char>, nonce_input: Seq<char>)
    requires
        key_input.len() > 0,
        nonce_input.len() > 0,
    ensures
        derived_key(key_input).len() == 32,
        derived_nonce(nonce_input).len() == 12,
        forall|i: int|
            0 <= i < 32 ==> #[trigger] derived_key(key_input)[i] == encode_utf8(key_input)[i
                % (encode_utf8(key_input).len() as int)],
        forall|i: int|
            0 <= i < 12 ==> #[trigger] derived_nonce(nonce_input)[i] == encode_utf8(nonce_input)[i
                % (encode_utf8(nonce_input).len() as int)],
        encode_utf8(key_input).len() >= 32 ==> derived_key(key_input) == encode_utf8(
            key_input,
        ).subrange(0, 32),
        encode_utf8(nonce_input).len() >= 12 ==> derived_nonce(nonce_input) == encode_utf8(
            nonce_input,
        ).subrange(0, 12),
{
    lemma_utf8_nonempty(key_input);
    lemma_utf8_nonempty(nonce_input);
    let k = encode_utf8(key_input);
    let n = encode_utf8(nonce_input);
    if k.len() >= 32 {
        assert forall|i: int| 0 <= i < 32 implies #[trigger] derived_key(key_input)[i] == k.subrange(
            0,
            32,
        )[i] by {
            vstd::arithmetic::div_mod::lemma_small_mod(i as nat, k.len());
        }
        assert(derived_key(key_input) =~= k.subrange(0, 32));
    }
    if n.len() >= 12 {
        assert forall|i: int| 0 <= i < 12 implies #[trigger] derived_nonce(nonce_input)[i]
            == n.subrange(0, 12)[i] by {
            vstd::arithmetic::div_mod::lemma_small_mod(i as nat, n.len());
        }
        assert(derived_nonce(nonce_input) =~= n.subrange(0, 12));
    }
}

/// The token for a plaintext: the lowercase hexadecimal text of the
/// AES-256-GCM-SIV sealing of its UTF-8 bytes.
pub open spec fn token_text(key: Seq<u8>, nonce: Seq<u8>, plaintext: Seq<char>) -> Seq<char> {
    hex_encode_spec(aes256_gcm_siv_ciphertext(key, nonce, encode_utf8(plaintext)))
}

/// A token service: it seals texts into tokens and opens them again.
pub trait Tokens: Sized {
    fn new(key: &str, iv: &str) -> Self;

    fn new_random() -> Self;

    fn encrypt(&self, plaintext: &str) -> String;

    fn decrypt(&self, ciphertext: &str) -> Result<String, String>;
}

/// Seals texts into hexadecimal tokens with AES-256-GCM-SIV under a fixed
/// key and nonce, and opens such tokens again.
pub struct TokenService {
    key: [u8; 32],
    nonce: [u8; 12],
}

proof fn lemma_utf8_nonempty(s: Seq<char>)
    requires
        s.len() > 0,
    ensures
        encode_utf8(s).len() > 0,
{
    assert(encode_utf8(s) == encode_scalar(s[0] as u32) + encode_utf8(s.drop_first()));
}

impl TokenService {
    pub closed spec fn key_bytes(&self) -> Seq<u8> {
        self.key@
    }

    pub closed spec fn nonce_bytes(&self) -> Seq<u8> {
        self.nonce@
    }

    /// The token that `encrypt` gives for a plaintext.
    pub open spec fn token_for(&self, plaintext: Seq<char>) -> Seq<char> {
        token_text(self.key_bytes(), self.nonce_bytes(), plaintext)
    }

    fn generate_hex(input: &str, count: usize) -> (result: Vec<u8>)
        requires
            input@.len() > 0 || count == 0,
        ensures
            result@ == cycled_bytes(encode_utf8(input@), count as nat),
    {
        let raw = input.as_bytes();
        proof {
            if input@.len() > 0 {
                lemma_utf8_nonempty(input@);
            }
        }
        let mut result: Vec<u8> = Vec::new();
        for x in 0..count
            invariant
                raw@ == encode_utf8(input@),
                count > 0 ==> raw@.len() > 0,
                result@ == cycled_bytes(raw@, x as nat),
        {
            let index = x % raw.len();
            let c = raw[index];
            result.push(c);
            assert(result@ =~= cycled_bytes(raw@, (x + 1) as nat));
        }
        result
    }

    fn key_array(bytes: &Vec<u8>) -> (key: [u8; 32])
        requires
            bytes@.len() == 32,
        ensures
            key@ == bytes@,
    {
        let mut key = [0u8; 32];
        for i in 0..32
            invariant
                bytes@.len() == 32,
                key@.len() == 32,
                forall|j: int| 0 <= j < i ==> key@[j] == bytes@[j],
        {
            key[i] = bytes[i];
        }
        assert(key@ =~= bytes@);
        key
    }

    fn nonce_array(bytes: &Vec<u8>) -> (nonce: [u8; 12])
        requires
            bytes@.len() == 12,
        ensures
            nonce@ == bytes@,
    {
        let mut nonce = [0u8; 12];
        for i in 0..12
            invariant
                bytes@.len() == 12,
                nonce@.len() == 12,
                forall|j: int| 0 <= j < i ==> nonce@[j] == bytes@[j],
        {
            nonce[i] = bytes[i];
        }
        assert(nonce@ =~= bytes@);
        nonce
    }

    /// A service whose key and nonce repeat the UTF-8 bytes of the two texts.
    pub fn new(key_input: &str, nonce_input: &str) -> (service: Self)
        requires
            key_input@.len() > 0,
            nonce_input@.len() > 0,
        ensures
            service.key_bytes() == derived_key(key_input@),
            service.nonce_bytes() == derived_nonce(nonce_input@),
            service.key_bytes().len() == 32,
            service.nonce_bytes().len() == 12,
            forall|i: int|
                0 <= i < 32 ==> #[trigger] service.key_bytes()[i] == key_input.spec_bytes()[i
                    % (key_input.spec_bytes().len() as int)],
            forall|i: int|
                0 <= i < 12 ==> #[trigger] service.nonce_bytes()[i] == nonce_input.spec_bytes()[i
                    % (nonce_input.spec_bytes().len() as int)],
    {
        proof {
            lemma_derived_bytes_repeat_input(key_input@, nonce_input@);
        }
        let key = Self::generate_hex(key_input, 32);
        let nonce = Self::generate_hex(nonce_input, 12);
        TokenService { key: Self::key_array(&key), nonce: Self::nonce_array(&nonce) }
    }

    /// A service whose key and nonce come from two random UUIDs in simple form.
    pub fn new_random() -> (service: Self)
        ensures
            exists|k: Seq<char>, n: Seq<char>|
                is_simple_uuid_text(k) && is_simple_uuid_text(n) && service.key_bytes()
                    == derived_key(k) && service.nonce_bytes() == derived_nonce(n),
    {
        let key_input = random_simple_uuid();
        let nonce_input = random_simple_uuid();
        let service = Self::new(key_input.as_str(), nonce_input.as_str());
        assert(is_simple_uuid_text(key_input@) && is_simple_uuid_text(nonce_input@));
        service
    }

    /// Seals a text: the token is the hexadecimal text of its sealed UTF-8 bytes.
    pub fn encrypt(&self, plaintext: &str) -> (ciphertext: String)
        requires
            plaintext.spec_bytes().len() <= MAX_PLAINTEXT_LEN,
        ensures
            ciphertext@ == self.token_for(plaintext@),
            ciphertext@.len() == 2 * (plaintext.spec_bytes().len() + TAG_LEN),
            forall|i: int| 0 <= i < ciphertext@.len() ==> is_lower_hex_char(#[trigger] ciphertext@[i]),
    {
        let bytes = plaintext.as_bytes();
        match aes256_gcm_siv_encrypt(&self.key, &self.nonce, bytes) {
            Ok(sealed) => {
                let text = hex_encode(sealed.as_slice());
                proof {
                    assert forall|i: int| 0 <= i < text@.len() implies is_lower_hex_char(
                        #[trigger] text@[i],
                    ) by {
                        let b = sealed@[i / 2] as int;
                        assert(0 <= b / 16 < 16 && 0 <= b % 16 < 16);
                    }
                }
                text
            },
            Err(_) => {
                assert(false);
                String::new()
            },
        }
    }

    /// Opens a token. It fails on text that is not hexadecimal, on bytes that
    /// are no sealing under this key and nonce, and on a plaintext that is not
    /// UTF-8; each failure is reported in its own message.
    pub fn decrypt(&self, ciphertext: &str) -> (r: Result<String, String>)
        ensures
            match hex_decode_spec(ciphertext.spec_bytes()) {
                Err(e) => r matches Err(m) && m@ == "Invalid token encoding: "@ + hex_error_text(e),
                Ok(sealed) => {
                    &&& forall|p: Seq<u8>|
                        p.len() <= MAX_PLAINTEXT_LEN && sealed == #[trigger] aes256_gcm_siv_ciphertext(
                            self.key_bytes(),
                            self.nonce_bytes(),
                            p,
                        ) ==> if valid_utf8(p) {
                            r matches Ok(s) && s@ == decode_utf8(p)
                        } else {
                            r matches Err(m) && m@ == "Decrypted token is not valid UTF-8: "@
                                + utf8_error_text(p)
                        }
                    &&& sealed.len() <= MAX_PLAINTEXT_LEN + TAG_LEN && !(exists|p: Seq<u8>|
                        p.len() <= MAX_PLAINTEXT_LEN && sealed == #[trigger] aes256_gcm_siv_ciphertext(
                            self.key_bytes(),
                            self.nonce_bytes(),
                            p,
                        )) ==> (r matches Err(m) && m@ == "Failed to decrypt token"@)
                    &&& sealed.len() < TAG_LEN ==> (r matches Err(m) && m@
                        == "Failed to decrypt token"@)
                    &&& sealed.len() > MAX_PLAINTEXT_LEN + 2 * TAG_LEN ==> (r matches Err(m)
                        && m@ == "Failed to decrypt token"@)
                    &&& r matches Err(m) ==> (m@ == "Failed to decrypt token"@ || (m@.len() >= 36
                        && m@.subrange(0, 36) == "Decrypted token is not valid UTF-8: "@))
                },
            },
            r matches Ok(s) ==> (encode_utf8(s@).len() <= MAX_PLAINTEXT_LEN ==> self.token_for(s@)
                == ascii_lowercase(ciphertext@)),
            forall|p: Seq<char>|
                encode_utf8(p).len() <= MAX_PLAINTEXT_LEN && ciphertext@ == #[trigger] self.token_for(p)
                    ==> (r matches Ok(s) && s@ == p),
    {
        proof {
            reveal_strlit("Invalid token encoding: ");
            reveal_strlit("Failed to decrypt token");
            reveal_strlit("Decrypted token is not valid UTF-8: ");
        }
        let sealed = match hex_decode(ciphertext) {
            Ok(bytes) => bytes,
            Err(e) => {
                let mut message = String::from_str("Invalid token encoding: ");
                let detail = hex_error_message(e);
                message.append(detail.as_str());
                proof {
                    assert forall|p: Seq<char>|
                        encode_utf8(p).len() <= MAX_PLAINTEXT_LEN && ciphertext@ == #[trigger] self.token_for(p)
                            implies false by {
                        self.lemma_token_opens(ciphertext, p);
                    }
                }
                return Err(message);
            },
        };
        let opened = match aes256_gcm_siv_decrypt(&self.key, &self.nonce, sealed.as_slice()) {
            Ok(bytes) => bytes,
            Err(_) => {
                proof {
                    assert forall|p: Seq<char>|
                        encode_utf8(p).len() <= MAX_PLAINTEXT_LEN && ciphertext@ == #[trigger] self.token_for(p)
                            implies false by {
                        self.lemma_token_opens(ciphertext, p);
                        let b = encode_utf8(p);
                        assert(sealed@ == aes256_gcm_siv_ciphertext(self.key_bytes(), self.nonce_bytes(), b));
                    }
                }
                return Err(String::from_str("Failed to decrypt token"));
            },
        };
        let ghost opened_bytes = opened@;
        proof {
            assert(opened_bytes.len() <= MAX_PLAINTEXT_LEN ==> sealed@ == aes256_gcm_siv_ciphertext(
                self.key_bytes(),
                self.nonce_bytes(),
                opened_bytes,
            ));
            assert forall|p: Seq<u8>|
                p.len() <= MAX_PLAINTEXT_LEN && sealed@ == #[trigger] aes256_gcm_siv_ciphertext(
                    self.key_bytes(),
                    self.nonce_bytes(),
                    p,
                ) implies p == opened_bytes by {}
        }
        match str_from_utf8(opened.as_slice()) {
            Ok(text) => {
                proof {
                    assert forall|p: Seq<char>|
                        encode_utf8(p).len() <= MAX_PLAINTEXT_LEN && ciphertext@ == #[trigger] self.token_for(p)
                            implies text@ == p by {
                        self.lemma_token_opens(ciphertext, p);
                    }
                    decode_utf8_encode_utf8(opened_bytes);
                    if opened_bytes.len() <= MAX_PLAINTEXT_LEN {
                        lemma_hex_reencode(ciphertext@, sealed@);
                    }
                }
                Ok(String::from_str(text))
            },
            Err(_) => {
                let mut message = String::from_str("Decrypted token is not valid UTF-8: ");
                let detail = utf8_error_message(opened.as_slice());
                message.append(detail.as_str());
                assert(message@.subrange(0, 36) =~= "Decrypted token is not valid UTF-8: "@);
                proof {
                    assert forall|p: Seq<char>|
                        encode_utf8(p).len() <= MAX_PLAINTEXT_LEN && ciphertext@ == #[trigger] self.token_for(p)
                            implies false by {
                        self.lemma_token_opens(ciphertext, p);
                        encode_utf8_valid_utf8(p);
                    }
                }
                Err(message)
            },
        }
    }

    proof fn lemma_token_opens(&self, ciphertext: &str, p: Seq<char>)
        requires
            ciphertext@ == self.token_for(p),
        ensures
            hex_decode_spec(ciphertext.spec_bytes()) == Ok::<Seq<u8>, HexError>(
                aes256_gcm_siv_ciphertext(self.key_bytes(), self.nonce_bytes(), encode_utf8(p)),
            ),
            valid_utf8(encode_utf8(p)),
            decode_utf8(encode_utf8(p)) == p,
    {
        lemma_hex_round_trip(
            aes256_gcm_siv_ciphertext(self.key_bytes(), self.nonce_bytes(), encode_utf8(p)),
        );
        encode_utf8_valid_utf8(p);
        encode_utf8_decode_utf8(p);
    }
}

} // verus!

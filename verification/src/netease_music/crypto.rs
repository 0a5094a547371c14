//! The encryption of request forms: AES, raw RSA and the session keys.
use vstd::prelude::*;
use vstd::string::*;
use vstd::arithmetic::power::pow;
use vstd::utf8::encode_utf8;
use crate::netease_music::OperationError;
use crate::netease_music::codec::{
    zeros, lemma_be_value_injective,
    base64_encode, base64_len, decimal, decimal_string, json_array, json_array_text, json_object,
    json_object_text, json_quote, json_string, base64_standard, be_value, hex_encode, hex_lower,
    lemma_base64_shape, lemma_encode_utf8_concat, lemma_hex_shape, lemma_leading_zeros_keep_value,
    pad_left,
};

verus! {

/// Initialisation vector of the CBC stages.
pub const IV: &'static str = "0102030405060708";

/// Key of the first CBC stage.
pub const PRESET_KEY: &'static str = "0CoJUm6Qyw8W8jud";

/// The characters that a session key is drawn from.
pub const STD_CHARS: &'static str = "ABCDEFGHIJKLMNOPQRSTUVWXYZabcdefghijklmnopqrstuvwxyz0123456789";

/// Public key that session keys are encrypted with.
pub const PUBLIC_KEY_PEM: &'static str = "-----BEGIN PUBLIC KEY-----\nMIGfMA0GCSqGSIb3DQEBAQUAA4GNADCBiQKBgQDgtQn2JZ34ZC28NWYpAUd98iZ3\n7BUrX/aKzmFbt7clFSs6sXqHauqKWqdtLkF2KexO40H1YTX8z2lSgBBOAxLsvaklV\n8k4cBFK9snQXE9/DDaFt6Rr7iVZMldczhC0JNgTz+SHXT6CBHuX3e9SdB1Ua44onc\naTWz7OBGLbCiK45wIDAQAB\n-----END PUBLIC KEY-----";

/// Key of the ECB stage of the eapi form.
pub const AES_KEY: &'static str = "e82ckenh8dichen8";

/// The largest length that OpenSSL takes for one buffer (a C `int`).
pub open spec fn c_int_max() -> nat {
    0x7fff_ffff
}

/// The block ciphers that forms are encrypted with.
#[derive(Debug, Clone, Copy, PartialEq, Eq, Structural)]
pub enum CipherKind {
    Aes128Cbc,
    Aes128Ecb,
}

#[verifier::external_type_specification]
#[verifier::external_body]
pub struct ExErrorStack(openssl::error::ErrorStack);

/// Calls the `Display` implementation of `ErrorStack` (`to_string`). Nothing is claimed of
/// the text: it is OpenSSL's description of the errors on its queue.
#[verifier::external_body]
fn openssl_error_text(e: &openssl::error::ErrorStack) -> String {
    e.to_string()
}

/// The library error for a refusal by OpenSSL, carrying OpenSSL's message.
fn crypto_error(e: &openssl::error::ErrorStack) -> (r: OperationError)
    ensures
        r is Crypto,
{
    OperationError::Crypto(openssl_error_text(e))
}

/// The view of an optional byte slice.
pub open spec fn opt_bytes(iv: Option<&[u8]>) -> Option<Seq<u8>> {
    match iv {
        Some(v) => Some(v@),
        None => None,
    }
}

/// What `openssl::symm::encrypt` gives for a cipher, key, initialisation vector and data.
pub uninterp spec fn aes_encryption(
    cipher: CipherKind,
    key: Seq<u8>,
    iv: Option<Seq<u8>>,
    data: Seq<u8>,
) -> Seq<u8>;

/// Calls `openssl::symm::encrypt` (padding on). Claimed: a successful result is a function
/// of the cipher, key, vector and data, and is at most one block (16 bytes for AES) longer
/// than the data, as the buffer that the crate allocates and truncates shows. The crate panics
/// on a CBC cipher without a vector of at least the cipher's 16 bytes (`Crypter::new` and
/// `cipher_init` assert it) and on lengths above a C `int`; `requires` leaves those out.
/// Which keys and vectors OpenSSL refuses is left unsaid.
#[verifier::external_body]
fn openssl_encrypt(cipher: CipherKind, key: &[u8], iv: Option<&[u8]>, data: &[u8]) -> (r: Result<
    Vec<u8>,
    openssl::error::ErrorStack,
>)
    requires
        cipher == CipherKind::Aes128Cbc ==> (iv matches Some(v) && v@.len() >= 16),
        key@.len() <= c_int_max(),
        iv matches Some(v) ==> v@.len() <= c_int_max(),
        data@.len() <= c_int_max(),
    ensures
        r is Ok ==> r.unwrap()@ == aes_encryption(cipher, key@, opt_bytes(iv), data@),
        r is Ok ==> r.unwrap()@.len() <= data@.len() + 16,
{
    let t = match cipher {
        CipherKind::Aes128Cbc => openssl::symm::Cipher::aes_128_cbc(),
        CipherKind::Aes128Ecb => openssl::symm::Cipher::aes_128_ecb(),
    };
    openssl::symm::encrypt(t, key, iv, data)
}

/// The requirements of an AES encryption call.
pub open spec fn aes_call_ok(data: Seq<u8>, key: Seq<u8>, iv: Option<Seq<u8>>, cipher: CipherKind) -> bool {
    &&& cipher == CipherKind::Aes128Cbc ==> (iv matches Some(v) && v.len() >= 16)
    &&& key.len() <= c_int_max()
    &&& iv matches Some(v) ==> v.len() <= c_int_max()
    &&& data.len() <= c_int_max()
}

/// The number that a session key yields under the raw RSA public-key operation
/// (`key^e mod n`), for the modulus and exponent read from the public key.
pub open spec fn rsa_value(key: Seq<u8>, n: Seq<u8>, e: Seq<u8>) -> int {
    pow(be_value(key) as int, be_value(e)) % (be_value(n) as int)
}

/// What `openssl::rsa::Rsa::public_key_from_pem` reads from a PEM text: modulus and
/// exponent, big-endian.
pub uninterp spec fn pem_rsa_public_numbers(pem: Seq<u8>) -> (Seq<u8>, Seq<u8>);

/// Calls `openssl::rsa::Rsa::public_key_from_pem`, then `n()`, `e()` and `BigNumRef::to_vec`.
/// Claimed: modulus and exponent are a function of the PEM text; each is at most a C `int`
/// long (`to_vec` allocates `num_bytes()`, an `i32`). The crate panics on a PEM text longer
/// than a C `int`; `requires` leaves that out. Which texts OpenSSL refuses is left unsaid.
#[verifier::external_body]
fn openssl_rsa_public_numbers(pem: &[u8]) -> (r: Result<(Vec<u8>, Vec<u8>), openssl::error::ErrorStack>)
    requires
        pem@.len() <= c_int_max(),
    ensures
        r is Ok ==> (r.unwrap().0@, r.unwrap().1@) == pem_rsa_public_numbers(pem@),
        r is Ok ==> r.unwrap().0@.len() <= c_int_max() && r.unwrap().1@.len() <= c_int_max(),
{
    let rsa = openssl::rsa::Rsa::public_key_from_pem(pem)?;
    Ok((rsa.n().to_vec(), rsa.e().to_vec()))
}

/// Calls `BigNum::from_slice` on the three numbers, `BigNum::mod_exp` and `to_vec`.
/// Claimed, from the documentation of `mod_exp` ("the result of `a^p mod m`") and of
/// `from_slice`/`to_vec` (unsigned big-endian): for a positive modulus, the result encodes
/// `base^exponent mod modulus`. The crate panics on a slice longer than a C `int`;
/// `requires` leaves that out. When OpenSSL refuses is left unsaid.
#[verifier::external_body]
fn openssl_mod_exp(base: &[u8], exponent: &[u8], modulus: &[u8]) -> (r: Result<
    Vec<u8>,
    openssl::error::ErrorStack,
>)
    requires
        base@.len() <= c_int_max(),
        exponent@.len() <= c_int_max(),
        modulus@.len() <= c_int_max(),
    ensures
        r is Ok && be_value(modulus@) > 0 ==> be_value(r.unwrap()@) == pow(
            be_value(base@) as int,
            be_value(exponent@),
        ) % (be_value(modulus@) as int),
{
    let a = openssl::bn::BigNum::from_slice(base)?;
    let p = openssl::bn::BigNum::from_slice(exponent)?;
    let m = openssl::bn::BigNum::from_slice(modulus)?;
    let mut ctx = openssl::bn::BigNumContext::new()?;
    let mut out = openssl::bn::BigNum::new()?;
    out.mod_exp(&a, &p, &m, &mut ctx)?;
    Ok(out.to_vec())
}

/// `block` is what raw RSA with the built-in public key makes of `key`: 128 bytes,
/// big-endian, holding `key^e mod n`.
pub open spec fn rsa_block_of(key: Seq<u8>, block: Seq<u8>) -> bool {
    let (n, e) = pem_rsa_public_numbers(PUBLIC_KEY_PEM.spec_bytes());
    &&& block.len() == 128
    &&& be_value(n) > 0 ==> be_value(block) == rsa_value(key, n, e)
}

/// The session key `key` is sixteen characters of `STD_CHARS`.
pub open spec fn is_session_key(key: Seq<u8>) -> bool {
    &&& key.len() == 16
    &&& forall|i: int| 0 <= i < key.len() ==> STD_CHARS.spec_bytes().contains(#[trigger] key[i])
}

/// The bytes of the literal constants, and that they fit OpenSSL's length limits.
proof fn lemma_constant_bytes()
    ensures
        IV.spec_bytes().len() == 16,
        PRESET_KEY.spec_bytes().len() == 16,
        AES_KEY.spec_bytes().len() == 16,
        STD_CHARS.spec_bytes().len() == 62,
        PUBLIC_KEY_PEM.spec_bytes().len() <= c_int_max(),
{
    reveal_strlit("0102030405060708");
    reveal_strlit("0CoJUm6Qyw8W8jud");
    reveal_strlit("e82ckenh8dichen8");
    reveal_strlit("ABCDEFGHIJKLMNOPQRSTUVWXYZabcdefghijklmnopqrstuvwxyz0123456789");
    reveal_strlit("-----BEGIN PUBLIC KEY-----\nMIGfMA0GCSqGSIb3DQEBAQUAA4GNADCBiQKBgQDgtQn2JZ34ZC28NWYpAUd98iZ3\n7BUrX/aKzmFbt7clFSs6sXqHauqKWqdtLkF2KexO40H1YTX8z2lSgBBOAxLsvaklV\n8k4cBFK9snQXE9/DDaFt6Rr7iVZMldczhC0JNgTz+SHXT6CBHuX3e9SdB1Ua44onc\naTWz7OBGLbCiK45wIDAQAB\n-----END PUBLIC KEY-----");
    vstd::string::is_ascii_spec_bytes(IV);
    vstd::string::is_ascii_spec_bytes(PRESET_KEY);
    vstd::string::is_ascii_spec_bytes(AES_KEY);
    vstd::string::is_ascii_spec_bytes(STD_CHARS);
    vstd::string::is_ascii_spec_bytes(PUBLIC_KEY_PEM);
}

/// Cryptographic helpers of the web API.
pub struct ApiCrypto;

impl ApiCrypto {
    /// Encrypts `data` with the given block cipher, key and initialisation vector,
    /// padding on.
    pub fn aes_encrypt(data: &[u8], key: &[u8], iv: Option<&[u8]>, cipher: CipherKind) -> (r: Result<
        Vec<u8>,
        OperationError,
    >)
        requires
            aes_call_ok(data@, key@, opt_bytes(iv), cipher),
        ensures
            r is Ok ==> r.unwrap()@ == aes_encryption(cipher, key@, opt_bytes(iv), data@),
            r is Ok ==> r.unwrap()@.len() <= data@.len() + 16,
            r is Err ==> (r matches Err(OperationError::Crypto(_))),
    {
        match openssl_encrypt(cipher, key, iv, data) {
            Ok(out) => Ok(out),
            Err(e) => Err(crypto_error(&e)),
        }
    }

    /// AES-128 in CBC mode with the given key and vector.
    pub fn aes_cbc_encrypt(data: &[u8], key: &[u8], iv: &[u8]) -> (r: Result<Vec<u8>, OperationError>)
        requires
            aes_call_ok(data@, key@, Some(iv@), CipherKind::Aes128Cbc),
        ensures
            r is Ok ==> r.unwrap()@ == aes_encryption(CipherKind::Aes128Cbc, key@, Some(iv@), data@),
            r is Ok ==> r.unwrap()@.len() <= data@.len() + 16,
            r is Err ==> (r matches Err(OperationError::Crypto(_))),
    {
        ApiCrypto::aes_encrypt(data, key, Some(iv), CipherKind::Aes128Cbc)
    }

    /// AES-128 in ECB mode with the given key.
    pub fn aes_ecb_encrypt(data: &[u8], key: &[u8]) -> (r: Result<Vec<u8>, OperationError>)
        requires
            aes_call_ok(data@, key@, None, CipherKind::Aes128Ecb),
        ensures
            r is Ok ==> r.unwrap()@ == aes_encryption(CipherKind::Aes128Ecb, key@, None, data@),
            r is Ok ==> r.unwrap()@.len() <= data@.len() + 16,
            r is Err ==> (r matches Err(OperationError::Crypto(_))),
    {
        ApiCrypto::aes_encrypt(data, key, None, CipherKind::Aes128Ecb)
    }

    /// Draws a session key of sixteen characters of `STD_CHARS`; gives it and its reverse.
    pub fn new_len16_rand() -> (r: (Vec<u8>, Vec<u8>))
        ensures
            is_session_key(r.0@),
            r.1@ == r.0@.reverse(),
    {
        proof {
            lemma_constant_bytes();
        }
        let count = STD_CHARS.as_bytes().len() as u64;
        let mut choices: Vec<usize> = Vec::new();
        let mut i: usize = 0;
        while i < 16
            invariant
                i <= 16,
                count == 62,
                choices@.len() == i,
                forall|j: int| 0 <= j < i ==> #[trigger] choices@[j] < 62,
            decreases 16 - i,
        {
            let c = random_below(0, count);
            choices.push(c as usize);
            i = i + 1;
        }
        let r = key_pair_from_choices(&choices);
        assert forall|j: int| 0 <= j < r.0@.len() implies STD_CHARS.spec_bytes().contains(
            #[trigger] r.0@[j],
        ) by {
            assert(r.0@[j] == STD_CHARS.spec_bytes()[choices@[j] as int]);
        }
        r
    }

    /// Encrypts `key` with the built-in RSA public key and no padding: the key is read as
    /// a big-endian number (zero bytes in front up to 128 bytes), raised to the public
    /// exponent modulo the modulus; the result is written big-endian in 128 bytes by
    /// `rsa_block`. A result wider than 128 bytes, which a 1024-bit modulus never gives, is
    /// refused with a `Crypto` error, as is every refusal by OpenSSL.
    pub fn rsa_encrypt_no_padding(key: &[u8]) -> (r: Result<Vec<u8>, OperationError>)
        requires
            key@.len() <= 128,
        ensures
            r is Ok ==> rsa_block_of(key@, r.unwrap()@),
            r is Err ==> (r matches Err(OperationError::Crypto(_))),
    {
        proof {
            lemma_constant_bytes();
        }
        let (n, e) = match openssl_rsa_public_numbers(PUBLIC_KEY_PEM.as_bytes()) {
            Ok(numbers) => numbers,
            Err(e) => return Err(crypto_error(&e)),
        };
        let padded = pad_left(key, 128);
        let encrypted = match openssl_mod_exp(padded.as_slice(), e.as_slice(), n.as_slice()) {
            Ok(v) => v,
            Err(e) => return Err(crypto_error(&e)),
        };
        proof {
            lemma_leading_zeros_keep_value((128 - key@.len()) as nat, key@);
        }
        match rsa_block(encrypted.as_slice()) {
            Some(block) => {
                proof {
                    lemma_leading_zeros_keep_value((128 - encrypted@.len()) as nat, encrypted@);
                }
                Ok(block)
            },
            None => Err(OperationError::Crypto(String::from_str("RSA result wider than the 128-byte block"))),
        }
    }
}

/// The 128-byte block that holds a big-endian RSA result: the result with zero bytes in
/// front; none when the result is wider than 128 bytes.
pub fn rsa_block(encrypted: &[u8]) -> (r: Option<Vec<u8>>)
    ensures
        r is Some <==> encrypted@.len() <= 128,
        r is Some ==> r.unwrap()@ == zeros((128 - encrypted@.len()) as nat) + encrypted@,
{
    if encrypted.len() <= 128 {
        Some(pad_left(encrypted, 128))
    } else {
        None
    }
}

/// Calls `rand::random_range` on `low..high`, the thread-local generator. Claimed: the value
/// lies in the range. The crate panics on an empty range; `requires` leaves it out.
#[verifier::external_body]
fn random_below(low: u64, high: u64) -> (r: u64)
    requires
        low < high,
    ensures
        low <= r < high,
{
    rand::random_range(low..high)
}

/// The session key picked by `choices` (indices into `STD_CHARS`), and its reverse.
pub fn key_pair_from_choices(choices: &Vec<usize>) -> (r: (Vec<u8>, Vec<u8>))
    requires
        forall|j: int| 0 <= j < choices@.len() ==> #[trigger] choices@[j] < 62,
    ensures
        r.0@.len() == choices@.len(),
        forall|j: int| 0 <= j < choices@.len() ==> #[trigger] r.0@[j] == STD_CHARS.spec_bytes()[choices@[j] as int],
        r.1@ == r.0@.reverse(),
{
    proof {
        lemma_constant_bytes();
    }
    let table = STD_CHARS.as_bytes();
    let mut key: Vec<u8> = Vec::new();
    let mut i: usize = 0;
    while i < choices.len()
        invariant
            i <= choices@.len(),
            table@ == STD_CHARS.spec_bytes(),
            table@.len() == 62,
            forall|j: int| 0 <= j < choices@.len() ==> #[trigger] choices@[j] < 62,
            key@.len() == i,
            forall|j: int| 0 <= j < i ==> #[trigger] key@[j] == table@[choices@[j] as int],
        decreases choices.len() - i,
    {
        key.push(table[choices[i]]);
        i = i + 1;
    }
    let mut reversed: Vec<u8> = Vec::new();
    let mut k: usize = key.len();
    while k > 0
        invariant
            k <= key@.len(),
            reversed@.len() == key@.len() - k,
            forall|j: int| 0 <= j < reversed@.len() ==> #[trigger] reversed@[j] == key@[key@.len() - 1 - j],
        decreases k,
    {
        k = k - 1;
        reversed.push(key[k]);
    }
    assert(reversed@ =~= key@.reverse());
    (key, reversed)
}

/// The encrypted form of a weapi request.
pub struct WeapiForm {
    /// Base64 of the data encrypted twice with AES-CBC.
    pub params: String,
    /// Hex of the RSA-encrypted session key.
    pub enc_sec_key: String,
}

/// The `params` field of a weapi form: `text` encrypted with AES-CBC under the preset key,
/// written in base64, that text encrypted with AES-CBC under `key_rev`, written in base64.
pub open spec fn weapi_params(text: Seq<u8>, key_rev: Seq<u8>) -> Seq<char> {
    let first = aes_encryption(CipherKind::Aes128Cbc, PRESET_KEY.spec_bytes(), Some(IV.spec_bytes()), text);
    let second = aes_encryption(
        CipherKind::Aes128Cbc,
        key_rev,
        Some(IV.spec_bytes()),
        encode_utf8(base64_standard(first)),
    );
    base64_standard(second)
}

/// `form` is the weapi form of `text` under the session key `key`.
pub open spec fn weapi_form_of(form: WeapiForm, text: Seq<u8>, key: Seq<u8>) -> bool {
    &&& form.params@ == weapi_params(text, key.reverse())
    &&& exists|block: Seq<u8>| #[trigger] rsa_block_of(key, block) && form.enc_sec_key@ == hex_lower(block)
}

/// Data of `len` bytes, and the base64 text of its first encryption, fit OpenSSL's
/// length limit.
pub open spec fn weapi_text_fits(len: nat) -> bool {
    &&& len <= c_int_max()
    &&& base64_len(len + 16) <= c_int_max()
}

/// Tells whether data of `len` bytes can be put in a weapi form.
pub fn weapi_text_len_fits(len: usize) -> (r: bool)
    ensures
        r == weapi_text_fits(len as nat),
{
    len <= 0x7fff_ffff && (len as u64 + 18) / 3 * 4 <= 0x7fff_ffff
}

/// The weapi form of `text` under the session key `key`, whose reverse is `key_rev`.
pub fn weapi_form_with_keys(text: &[u8], key: &[u8], key_rev: &[u8]) -> (r: Result<WeapiForm, OperationError>)
    requires
        weapi_text_fits(text@.len()),
        key@.len() <= 128,
        key_rev@ == key@.reverse(),
    ensures
        r is Ok ==> weapi_form_of(r.unwrap(), text@, key@),
        r is Ok ==> r.unwrap().params@ == base64_standard(
            aes_encryption(
                CipherKind::Aes128Cbc,
                key@.reverse(),
                Some(IV.spec_bytes()),
                encode_utf8(
                    base64_standard(
                        aes_encryption(CipherKind::Aes128Cbc, PRESET_KEY.spec_bytes(), Some(IV.spec_bytes()), text@),
                    ),
                ),
            ),
        ),
        r is Err ==> (r matches Err(OperationError::Crypto(_))),
{
    proof {
        lemma_constant_bytes();
    }
    let first = ApiCrypto::aes_cbc_encrypt(text, PRESET_KEY.as_bytes(), IV.as_bytes())?;
    proof {
        vstd::arithmetic::div_mod::lemma_div_is_ordered((first@.len() + 2) as int, (text@.len() + 18) as int, 3);
    }
    let first_base64 = base64_encode(first.as_slice());
    proof {
        lemma_base64_shape(first@);
        vstd::utf8::is_ascii_chars_encode_utf8(first_base64@);
    }
    let second = ApiCrypto::aes_cbc_encrypt(first_base64.as_str().as_bytes(), key_rev, IV.as_bytes())?;
    let params = base64_encode(second.as_slice());
    let encrypted_key = ApiCrypto::rsa_encrypt_no_padding(key)?;
    let enc_sec_key = hex_encode(encrypted_key.as_slice());
    let form = WeapiForm { params, enc_sec_key };
    assert(rsa_block_of(key@, encrypted_key@));
    Ok(form)
}

/// The weapi form of `text` under a freshly drawn session key.
pub fn make_weapi_form_for_text(text: &str) -> (r: Result<WeapiForm, OperationError>)
    requires
        weapi_text_fits(text.spec_bytes().len()),
    ensures
        r is Ok ==> exists|key: Seq<u8>| is_session_key(key) && #[trigger] weapi_form_of(r.unwrap(), text.spec_bytes(), key),
        r is Err ==> (r matches Err(OperationError::Crypto(_))),
{
    let (key, key_rev) = ApiCrypto::new_len16_rand();
    let r = weapi_form_with_keys(text.as_bytes(), key.as_slice(), key_rev.as_slice());
    proof {
        if r is Ok {
            assert(is_session_key(key@) && weapi_form_of(r.unwrap(), text.spec_bytes(), key@));
        }
    }
    r
}

/// The JSON object `{"id":<id>}`.
pub open spec fn id_object_text(id: u64) -> Seq<char> {
    json_object(seq![("id"@, decimal(id as nat))])
}

/// The data of a song-detail request: `c` holds, as a JSON string, the array of
/// `{"id":<id>}` objects; `ids` holds, as a JSON string, the array of the ids.
pub open spec fn song_detail_text(ids: Seq<u64>) -> Seq<char> {
    json_object(
        seq![
            ("c"@, json_string(json_array(ids.map_values(|id: u64| id_object_text(id))))),
            ("ids"@, json_string(json_array(ids.map_values(|id: u64| decimal(id as nat))))),
        ],
    )
}

/// Writes the data of a song-detail request for `ids`.
pub fn song_detail_payload(ids: &Vec<u64>) -> (r: String)
    ensures
        r@ == song_detail_text(ids@),
        r@ == json_object(
            seq![
                ("c"@, json_string(json_array(Seq::new(ids@.len(), |i: int| json_object(seq![("id"@, decimal(ids@[i] as nat))]))))),
                ("ids"@, json_string(json_array(Seq::new(ids@.len(), |i: int| decimal(ids@[i] as nat))))),
            ],
        ),
{
    let mut objects: Vec<String> = Vec::new();
    let mut numbers: Vec<String> = Vec::new();
    let mut i: usize = 0;
    while i < ids.len()
        invariant
            i <= ids@.len(),
            objects@.len() == i,
            numbers@.len() == i,
            forall|j: int| 0 <= j < i ==> #[trigger] objects@[j]@ == id_object_text(ids@[j]),
            forall|j: int| 0 <= j < i ==> #[trigger] numbers@[j]@ == decimal(ids@[j] as nat),
        decreases ids.len() - i,
    {
        let number = decimal_string(ids[i]);
        let mut members: Vec<(String, String)> = Vec::new();
        members.push((String::from_str("id"), number.clone()));
        let object = json_object_text(&members);
        assert(members@.map_values(|m: (String, String)| (m.0@, m.1@)) =~= seq![("id"@, decimal(ids@[i as int] as nat))]);
        objects.push(object);
        numbers.push(number);
        i = i + 1;
    }
    assert(objects@.map_values(|v: String| v@) =~= ids@.map_values(|id: u64| id_object_text(id)));
    assert(numbers@.map_values(|v: String| v@) =~= ids@.map_values(|id: u64| decimal(id as nat)));
    let c = json_quote(json_array_text(&objects).as_str());
    let id_list = json_quote(json_array_text(&numbers).as_str());
    let mut members: Vec<(String, String)> = Vec::new();
    members.push((String::from_str("c"), c));
    members.push((String::from_str("ids"), id_list));
    let r = json_object_text(&members);
    assert(members@.map_values(|m: (String, String)| (m.0@, m.1@)) =~= seq![
        ("c"@, json_string(json_array(ids@.map_values(|id: u64| id_object_text(id))))),
        ("ids"@, json_string(json_array(ids@.map_values(|id: u64| decimal(id as nat))))),
    ]);
    proof {
        lemma_song_detail_names_every_id(ids@);
    }
    r
}

/// The weapi form of a song-detail request for `ids`, under a freshly drawn session key.
pub fn make_weapi_form(ids: Vec<u64>) -> (r: Result<WeapiForm, OperationError>)
    requires
        weapi_text_fits(encode_utf8(song_detail_text(ids@)).len()),
    ensures
        r is Ok ==> exists|key: Seq<u8>|
            is_session_key(key) && #[trigger] weapi_form_of(r.unwrap(), encode_utf8(song_detail_text(ids@)), key),
        r is Err ==> (r matches Err(OperationError::Crypto(_))),
{
    let data = song_detail_payload(&ids);
    make_weapi_form_for_text(data.as_str())
}

/// The `header` text of an eapi request with the given request id.
pub open spec fn eapi_header_text(request_id: u64) -> Seq<char> {
    json_object(
        seq![
            ("appver"@, json_string(""@)),
            ("deviceId"@, json_string("pyncm!"@)),
            ("os"@, json_string("pc"@)),
            ("osver"@, json_string(""@)),
            ("requestId"@, json_string(decimal(request_id as nat))),
        ],
    )
}

/// Writes the `header` text of an eapi request with the given request id.
pub fn eapi_header_with_request_id(request_id: u64) -> (r: String)
    ensures
        r@ == eapi_header_text(request_id),
{
    let id_text = decimal_string(request_id);
    let mut members: Vec<(String, String)> = Vec::new();
    members.push((String::from_str("appver"), json_quote("")));
    members.push((String::from_str("deviceId"), json_quote("pyncm!")));
    members.push((String::from_str("os"), json_quote("pc")));
    members.push((String::from_str("osver"), json_quote("")));
    members.push((String::from_str("requestId"), json_quote(id_text.as_str())));
    assert(members@.map_values(|m: (String, String)| (m.0@, m.1@)) =~= seq![
        ("appver"@, json_string(""@)),
        ("deviceId"@, json_string("pyncm!"@)),
        ("os"@, json_string("pc"@)),
        ("osver"@, json_string(""@)),
        ("requestId"@, json_string(decimal(request_id as nat))),
    ]);
    json_object_text(&members)
}

/// The `header` text of an eapi request, with a request id drawn from 20000000..30000000.
pub fn make_eapi_header() -> (r: String)
    ensures
        exists|request_id: u64| 20000000 <= request_id < 30000000 && r@ == #[trigger] eapi_header_text(request_id),
{
    let request_id = random_below(20000000, 30000000);
    eapi_header_with_request_id(request_id)
}

/// The encrypted form of an eapi request.
pub struct EapiForm {
    /// Hex of the AES-ECB encryption of the signed request text.
    pub params: String,
}

/// What `openssl::hash::hash` gives with `MessageDigest::md5()`.
pub uninterp spec fn md5_digest(data: Seq<u8>) -> Seq<u8>;

/// Calls `openssl::hash::hash` with `MessageDigest::md5()`. Claimed: a successful result is a
/// function of the data and is sixteen bytes long (an MD5 digest, as in the crate's example).
/// When OpenSSL refuses is left unsaid.
#[verifier::external_body]
fn openssl_md5(data: &[u8]) -> (r: Result<Vec<u8>, openssl::error::ErrorStack>)
    ensures
        r is Ok ==> r.unwrap()@ == md5_digest(data@),
        r is Ok ==> r.unwrap()@.len() == 16,
{
    let digest = openssl::hash::hash(openssl::hash::MessageDigest::md5(), data)?;
    Ok(digest.to_vec())
}

/// The text that the MD5 digest of an eapi request is taken over.
pub open spec fn eapi_digest_input(path: Seq<char>, payload: Seq<char>) -> Seq<char> {
    "nobody"@ + path + "use"@ + payload + "md5forencrypt"@
}

/// The signed request text: path, payload and the hex MD5 digest, separated by
/// `-36cd479b6b5-`.
pub open spec fn eapi_params_text(path: Seq<char>, payload: Seq<char>) -> Seq<char> {
    path + "-36cd479b6b5-"@ + payload + "-36cd479b6b5-"@ + hex_lower(
        md5_digest(encode_utf8(eapi_digest_input(path, payload))),
    )
}

/// The `params` field of an eapi form: the signed request text encrypted with AES-ECB under
/// `AES_KEY`, in hex.
pub open spec fn eapi_params(path: Seq<char>, payload: Seq<char>) -> Seq<char> {
    hex_lower(
        aes_encryption(
            CipherKind::Aes128Ecb,
            AES_KEY.spec_bytes(),
            None,
            encode_utf8(eapi_params_text(path, payload)),
        ),
    )
}

/// The signed request text of a path and a payload fits OpenSSL's length limit.
pub open spec fn eapi_text_fits(path: Seq<char>, payload: Seq<char>) -> bool {
    encode_utf8(path).len() + encode_utf8(payload).len() + 58 <= c_int_max()
}

/// The eapi form of a request to `path` with the JSON `payload`.
pub fn make_eapi_form(path: String, payload: String) -> (r: Result<EapiForm, OperationError>)
    requires
        eapi_text_fits(path@, payload@),
    ensures
        r is Ok ==> r.unwrap().params@ == eapi_params(path@, payload@),
        r is Err ==> (r matches Err(OperationError::Crypto(_))),
{
    proof {
        lemma_constant_bytes();
    }
    let mut text = String::from_str("nobody");
    text.append(path.as_str());
    text.append("use");
    text.append(payload.as_str());
    text.append("md5forencrypt");
    assert(text@ =~= eapi_digest_input(path@, payload@));
    let digest = match openssl_md5(text.as_str().as_bytes()) {
        Ok(d) => d,
        Err(e) => return Err(crypto_error(&e)),
    };
    let digest_hex = hex_encode(digest.as_slice());
    let mut params = path.clone();
    params.append("-36cd479b6b5-");
    params.append(payload.as_str());
    params.append("-36cd479b6b5-");
    params.append(digest_hex.as_str());
    assert(params@ =~= eapi_params_text(path@, payload@));
    proof {
        let sep = "-36cd479b6b5-"@;
        reveal_strlit("-36cd479b6b5-");
        vstd::utf8::is_ascii_chars_encode_utf8(sep);
        lemma_hex_shape(digest@);
        vstd::utf8::is_ascii_chars_encode_utf8(digest_hex@);
        lemma_encode_utf8_concat(path@, sep);
        lemma_encode_utf8_concat(path@ + sep, payload@);
        lemma_encode_utf8_concat(path@ + sep + payload@, sep);
        lemma_encode_utf8_concat(path@ + sep + payload@ + sep, digest_hex@);
    }
    let encrypted = ApiCrypto::aes_ecb_encrypt(params.as_str().as_bytes(), AES_KEY.as_bytes())?;
    Ok(EapiForm { params: hex_encode(encrypted.as_slice()) })
}

/// Every weapi form carries an `encSecKey` of 256 hex digits (the 128-byte RSA block) and
/// `params` of whole base64 groups (a multiple of four characters).
pub proof fn lemma_weapi_form_shape(form: WeapiForm, text: Seq<u8>, key: Seq<u8>)
    requires
        weapi_form_of(form, text, key),
    ensures
        form.enc_sec_key@.len() == 256,
        form.params@.len() % 4 == 0,
{
    let block = choose|block: Seq<u8>| #[trigger] rsa_block_of(key, block) && form.enc_sec_key@ == hex_lower(block);
    lemma_hex_shape(block);
    let first = aes_encryption(CipherKind::Aes128Cbc, PRESET_KEY.spec_bytes(), Some(IV.spec_bytes()), text);
    let second = aes_encryption(
        CipherKind::Aes128Cbc,
        key.reverse(),
        Some(IV.spec_bytes()),
        encode_utf8(base64_standard(first)),
    );
    lemma_base64_shape(second);
}

/// Every eapi form carries `params` of an even number of hex digits.
pub proof fn lemma_eapi_params_shape(path: Seq<char>, payload: Seq<char>)
    ensures
        eapi_params(path, payload).len() % 2 == 0,
        vstd::utf8::is_ascii_chars(eapi_params(path, payload)),
{
    lemma_hex_shape(
        aes_encryption(
            CipherKind::Aes128Ecb,
            AES_KEY.spec_bytes(),
            None,
            encode_utf8(eapi_params_text(path, payload)),
        ),
    );
}

/// The built-in public key has a positive modulus.
pub open spec fn rsa_modulus_positive() -> bool {
    be_value(pem_rsa_public_numbers(PUBLIC_KEY_PEM.spec_bytes()).0) > 0
}

/// Keys that encode the same number give the same RSA block.
pub proof fn lemma_rsa_block_unique(key1: Seq<u8>, block1: Seq<u8>, key2: Seq<u8>, block2: Seq<u8>)
    requires
        rsa_modulus_positive(),
        rsa_block_of(key1, block1),
        rsa_block_of(key2, block2),
        be_value(key1) == be_value(key2),
    ensures
        block1 == block2,
{
    lemma_be_value_injective(block1, block2);
}

/// Zero bytes in front of a session key do not change its RSA block.
pub proof fn lemma_rsa_leading_zero_key(key: Seq<u8>, block1: Seq<u8>, block2: Seq<u8>)
    requires
        rsa_modulus_positive(),
        rsa_block_of(key, block1),
        rsa_block_of(seq![0u8] + key, block2),
    ensures
        block1 == block2,
{
    assert(zeros(1) =~= seq![0u8]);
    lemma_leading_zeros_keep_value(1, key);
    lemma_rsa_block_unique(key, block1, seq![0u8] + key, block2);
}

/// The `encSecKey` of a weapi form depends on the session key alone, not on the text; forms
/// of one text under one key are equal.
pub proof fn lemma_enc_sec_key_depends_on_key(
    form1: WeapiForm,
    text1: Seq<u8>,
    form2: WeapiForm,
    text2: Seq<u8>,
    key: Seq<u8>,
)
    requires
        rsa_modulus_positive(),
        weapi_form_of(form1, text1, key),
        weapi_form_of(form2, text2, key),
    ensures
        form1.enc_sec_key@ == form2.enc_sec_key@,
        text1 == text2 ==> form1.params@ == form2.params@,
{
    let b1 = choose|block: Seq<u8>| #[trigger] rsa_block_of(key, block) && form1.enc_sec_key@ == hex_lower(block);
    let b2 = choose|block: Seq<u8>| #[trigger] rsa_block_of(key, block) && form2.enc_sec_key@ == hex_lower(block);
    lemma_rsa_block_unique(key, b1, key, b2);
}

/// The `params` of a weapi form are two AES-CBC stages with base64 after each: first the text
/// under the preset key, then that base64 text under the reversed session key, whatever the
/// text is.
pub proof fn lemma_weapi_params_stages(form: WeapiForm, text: Seq<u8>, key: Seq<u8>)
    requires
        weapi_form_of(form, text, key),
    ensures
        form.params@ == base64_standard(
            aes_encryption(
                CipherKind::Aes128Cbc,
                key.reverse(),
                Some(IV.spec_bytes()),
                encode_utf8(
                    base64_standard(
                        aes_encryption(CipherKind::Aes128Cbc, PRESET_KEY.spec_bytes(), Some(IV.spec_bytes()), text),
                    ),
                ),
            ),
        ),
{
}

/// The song-detail data names every requested id, in order: `c` holds one `{"id":<id>}`
/// object per id, `ids` the decimal of each id, both arrays as long as `ids`.
pub proof fn lemma_song_detail_names_every_id(ids: Seq<u64>)
    ensures
        song_detail_text(ids) == json_object(
            seq![
                ("c"@, json_string(json_array(Seq::new(ids.len(), |i: int| json_object(seq![("id"@, decimal(ids[i] as nat))]))))),
                ("ids"@, json_string(json_array(Seq::new(ids.len(), |i: int| decimal(ids[i] as nat))))),
            ],
        ),
{
    assert(ids.map_values(|id: u64| id_object_text(id)) =~= Seq::new(
        ids.len(),
        |i: int| json_object(seq![("id"@, decimal(ids[i] as nat))]),
    ));
    assert(ids.map_values(|id: u64| decimal(id as nat)) =~= Seq::new(ids.len(), |i: int| decimal(ids[i] as nat)));
}

} // verus!

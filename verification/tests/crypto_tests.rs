use base64::Engine;
use musicalus::netease_music::crypto::{
    eapi_header_with_request_id, key_pair_from_choices, make_eapi_form, make_eapi_header,
    make_weapi_form, make_weapi_form_for_text, song_detail_payload, weapi_form_with_keys,
    rsa_block, weapi_text_len_fits, ApiCrypto, CipherKind, AES_KEY, IV, PRESET_KEY, PUBLIC_KEY_PEM,
    STD_CHARS,
};
use musicalus::netease_music::OperationError;
use openssl::symm::{decrypt, Cipher};

fn unhex(s: &str) -> Vec<u8> {
    hex::decode(s).unwrap()
}

#[test]
fn aes_cbc_matches_known_vector() {
    let key: Vec<u8> = (0u8..16).collect();
    let iv = b"\x00\x01\x02\x03\x04\x05\x06\x07\x00\x01\x02\x03\x04\x05\x06\x07";
    let out = ApiCrypto::aes_cbc_encrypt(b"Some Crypto Text", &key, iv).unwrap();
    assert_eq!(out, unhex("b4b9e730d6d6f7de773f1cffb33e445a91d72762874dfb3c5ec459724af47ca1"));
    let same = ApiCrypto::aes_encrypt(b"Some Crypto Text", &key, Some(iv), CipherKind::Aes128Cbc).unwrap();
    assert_eq!(same, out);
}

#[test]
fn aes_ecb_matches_known_vector() {
    let key: Vec<u8> = (0u8..16).collect();
    let data = unhex("00112233445566778899aabbccddeeff");
    let out = ApiCrypto::aes_ecb_encrypt(&data, &key).unwrap();
    assert_eq!(out.len(), 32);
    assert_eq!(&out[..16], &unhex("69c4e0d86a7b0430d8cdb78070b4c55a")[..]);
    assert!(out.len() <= data.len() + 16);
}

#[test]
fn aes_with_wrong_key_length_is_refused() {
    let r = ApiCrypto::aes_ecb_encrypt(b"data", b"short");
    match r {
        Err(OperationError::Crypto(text)) => assert!(!text.is_empty()),
        other => panic!("expected a refusal, got {:?}", other),
    }
}

fn expected_rsa(key: &[u8]) -> Vec<u8> {
    let rsa = openssl::rsa::Rsa::public_key_from_pem(PUBLIC_KEY_PEM.as_bytes()).unwrap();
    let m = openssl::bn::BigNum::from_slice(key).unwrap();
    let mut ctx = openssl::bn::BigNumContext::new().unwrap();
    let mut out = openssl::bn::BigNum::new().unwrap();
    out.mod_exp(&m, rsa.e(), rsa.n(), &mut ctx).unwrap();
    out.to_vec_padded(128).unwrap()
}

#[test]
fn rsa_without_padding_is_raw_modular_exponentiation() {
    let key = b"abcdefghijklmnop";
    let out = ApiCrypto::rsa_encrypt_no_padding(key).unwrap();
    assert_eq!(out.len(), 128);
    assert_eq!(out, expected_rsa(key));
    assert_ne!(&out[112..], &key[..]);
}

#[test]
fn rsa_of_empty_and_full_width_keys() {
    let zero = ApiCrypto::rsa_encrypt_no_padding(&[]).unwrap();
    assert_eq!(zero, vec![0u8; 128]);
    let one = ApiCrypto::rsa_encrypt_no_padding(&[1]).unwrap();
    let mut expected = vec![0u8; 128];
    expected[127] = 1;
    assert_eq!(one, expected);
    let wide = [1u8; 100];
    assert_eq!(ApiCrypto::rsa_encrypt_no_padding(&wide).unwrap(), expected_rsa(&wide));
}

#[test]
fn session_keys_are_drawn_from_the_alphabet() {
    for _ in 0..20 {
        let (key, key_rev) = ApiCrypto::new_len16_rand();
        assert_eq!(key.len(), 16);
        assert!(key.iter().all(|b| STD_CHARS.as_bytes().contains(b)));
        let mut back = key_rev.clone();
        back.reverse();
        assert_eq!(back, key);
    }
}

#[test]
fn key_pair_from_choices_picks_and_reverses() {
    let (key, rev) = key_pair_from_choices(&vec![0, 25, 26, 61, 52]);
    assert_eq!(key, b"AZa90".to_vec());
    assert_eq!(rev, b"09aZA".to_vec());
}

#[test]
fn song_detail_payload_is_the_weapi_data() {
    assert_eq!(
        song_detail_payload(&vec![1, 22]),
        "{\"c\":\"[{\\\"id\\\":1},{\\\"id\\\":22}]\",\"ids\":\"[1,22]\"}"
    );
    assert_eq!(song_detail_payload(&vec![]), "{\"c\":\"[]\",\"ids\":\"[]\"}");
}

fn cbc_decrypt(data: &[u8], key: &[u8]) -> Vec<u8> {
    decrypt(Cipher::aes_128_cbc(), key, Some(IV.as_bytes()), data).unwrap()
}

#[test]
fn weapi_form_decrypts_back_to_the_text() {
    let key = b"ABCDEFGHIJKLMNOP";
    let key_rev: Vec<u8> = key.iter().rev().copied().collect();
    let form = weapi_form_with_keys(b"{}", key, &key_rev).unwrap();
    let second = base64::prelude::BASE64_STANDARD.decode(&form.params).unwrap();
    let first_b64 = cbc_decrypt(&second, &key_rev);
    let first = base64::prelude::BASE64_STANDARD.decode(&first_b64).unwrap();
    assert_eq!(cbc_decrypt(&first, PRESET_KEY.as_bytes()), b"{}".to_vec());
    assert_eq!(form.enc_sec_key, hex::encode(expected_rsa(key)));
    assert_eq!(form.enc_sec_key.len(), 256);
    assert_eq!(form.params.len() % 4, 0);
}

#[test]
fn weapi_forms_of_ids_and_text() {
    let form = make_weapi_form(vec![5, 6]).unwrap();
    assert_eq!(form.enc_sec_key.len(), 256);
    assert!(form.enc_sec_key.chars().all(|c| c.is_ascii_hexdigit() && !c.is_ascii_uppercase()));
    let form = make_weapi_form_for_text("{}").unwrap();
    assert_eq!(form.params.len() % 4, 0);
}

#[test]
fn weapi_length_limit() {
    assert!(weapi_text_len_fits(0));
    assert!(weapi_text_len_fits(1_000_000));
    assert!(!weapi_text_len_fits(2_000_000_000));
    assert!(weapi_text_len_fits(1_610_612_717));
    assert!(!weapi_text_len_fits(1_610_612_718));
}

#[test]
fn eapi_header_text_is_sorted_json() {
    assert_eq!(
        eapi_header_with_request_id(25000000),
        "{\"appver\":\"\",\"deviceId\":\"pyncm!\",\"os\":\"pc\",\"osver\":\"\",\"requestId\":\"25000000\"}"
    );
    let header = make_eapi_header();
    let v: serde_json::Value = serde_json::from_str(&header).unwrap();
    let id: u64 = v["requestId"].as_str().unwrap().parse().unwrap();
    assert!((20000000..30000000).contains(&id));
}

#[test]
fn eapi_form_decrypts_to_the_signed_text() {
    let path = "/api/x".to_string();
    let payload = "{\"a\":1}".to_string();
    let form = make_eapi_form(path.clone(), payload.clone()).unwrap();
    let plain = decrypt(Cipher::aes_128_ecb(), AES_KEY.as_bytes(), None, &unhex(&form.params)).unwrap();
    let digest = openssl::hash::hash(
        openssl::hash::MessageDigest::md5(),
        format!("nobody{path}use{payload}md5forencrypt").as_bytes(),
    )
    .unwrap();
    let expected = format!("{path}-36cd479b6b5-{payload}-36cd479b6b5-{}", hex::encode(&*digest));
    assert_eq!(String::from_utf8(plain).unwrap(), expected);
    assert_eq!(form.params.len() % 2, 0);
}

#[test]
fn eapi_digest_of_empty_parts() {
    let form = make_eapi_form(String::new(), String::new()).unwrap();
    let plain = decrypt(Cipher::aes_128_ecb(), AES_KEY.as_bytes(), None, &unhex(&form.params)).unwrap();
    // md5("nobodyusemd5forencrypt")
    let digest = openssl::hash::hash(openssl::hash::MessageDigest::md5(), b"nobodyusemd5forencrypt").unwrap();
    assert_eq!(plain, format!("-36cd479b6b5--36cd479b6b5-{}", hex::encode(&*digest)).into_bytes());
}

#[test]
fn rsa_block_pads_or_refuses() {
    assert_eq!(rsa_block(&[7, 8]).unwrap().len(), 128);
    assert_eq!(&rsa_block(&[7, 8]).unwrap()[126..], &[7, 8]);
    assert!(rsa_block(&[0u8; 128]).is_some());
    assert!(rsa_block(&[1u8; 129]).is_none());
}

#[test]
fn leading_zero_bytes_do_not_change_the_rsa_result() {
    let key = b"abcdefghijklmnop";
    let mut padded = vec![0u8];
    padded.extend_from_slice(key);
    assert_eq!(
        ApiCrypto::rsa_encrypt_no_padding(key).unwrap(),
        ApiCrypto::rsa_encrypt_no_padding(&padded).unwrap()
    );
}

#[test]
fn enc_sec_key_depends_on_the_key_alone() {
    let key = b"ZYXWVUTSRQPONMLK";
    let key_rev: Vec<u8> = key.iter().rev().copied().collect();
    let a = weapi_form_with_keys(b"{}", key, &key_rev).unwrap();
    let b = weapi_form_with_keys(b"[1,2,3]", key, &key_rev).unwrap();
    assert_eq!(a.enc_sec_key, b.enc_sec_key);
    assert_ne!(a.params, b.params);
    let c = weapi_form_with_keys(b"{}", key, &key_rev).unwrap();
    assert_eq!(a.params, c.params);
}

use musicalus::netease_music::crypto::AES_KEY;
use musicalus::netease_music::protocal::{Audio, Quality};
use musicalus::netease_music::web::session_cookies;
use musicalus::netease_music::{
    album_request, audio_payload, audio_request, audio_url, playlist_request, proxy_headers,
    requested_quality, search_limit, search_request, song_request, vip_request, vip_status,
    Account, AccountAnswer, HttpMethod, OperationError, ProxyHeader,
};
use musicalus::Config;

fn fields(form: &[(String, String)]) -> Vec<(&str, &str)> {
    form.iter().map(|(k, v)| (k.as_str(), v.as_str())).collect()
}

#[test]
fn config_default_and_address() {
    let c = Config::default();
    assert_eq!(c.host, "127.0.0.1");
    assert_eq!(c.port, 8037);
    assert_eq!(c.cookie, "");
    assert_eq!(c.address(), "127.0.0.1:8037");
}

#[test]
fn search_request_fields() {
    let r = search_request("周杰伦 & co", 10);
    assert_eq!(r.method, HttpMethod::Post);
    assert_eq!(r.url, "https://music.163.com/api/cloudsearch/pc");
    assert_eq!(fields(&r.form), vec![("limit", "10"), ("s", "周杰伦 & co"), ("type", "1")]);
    assert_eq!(search_limit(None), 10);
    assert_eq!(search_limit(Some(3)), 3);
}

#[test]
fn playlist_and_album_requests() {
    let r = playlist_request(123);
    assert_eq!(r.url, "https://music.163.com/api/v6/playlist/detail");
    assert_eq!(fields(&r.form), vec![("id", "123"), ("n", "100000"), ("s", "8")]);
    let a = album_request(42);
    assert_eq!(a.method, HttpMethod::Get);
    assert_eq!(a.url, "https://music.163.com/api/v1/album/42");
    assert!(a.form.is_empty());
}

#[test]
fn song_request_without_ids_sends_nothing() {
    assert!(matches!(song_request(&vec![]), Ok(None)));
    let r = song_request(&vec![1, 2]).unwrap().unwrap();
    assert_eq!(r.method, HttpMethod::Post);
    assert_eq!(r.url, "https://music.163.com/weapi/v3/song/detail");
    assert_eq!(r.form.len(), 2);
    assert_eq!(r.form[0].0, "encSecKey");
    assert_eq!(r.form[0].1.len(), 256);
    assert_eq!(r.form[1].0, "params");
}

#[test]
fn vip_request_and_status() {
    let r = vip_request().unwrap();
    assert_eq!(r.url, "https://music.163.com/weapi/nuser/account/get");
    assert_eq!(r.form[0].0, "encSecKey");
    let answer = |v: Option<i64>| AccountAnswer { account: Some(Account { vip_type: v }) };
    assert_eq!(vip_status(&answer(Some(11))), Ok(true));
    assert_eq!(vip_status(&answer(Some(0))), Ok(false));
    assert_eq!(vip_status(&answer(Some(-1))), Ok(false));
    assert_eq!(vip_status(&answer(None)), Err(OperationError::VipTypeMissing));
    assert_eq!(vip_status(&AccountAnswer { account: None }), Err(OperationError::VipTypeMissing));
    assert_eq!(OperationError::VipTypeMissing.message(), "Failed to get VIP type from response");
}

#[test]
fn audio_payload_text() {
    assert_eq!(
        audio_payload(&vec![1, 2], Quality::Lossless, "{\"os\":\"pc\"}"),
        "{\"encodeType\":\"flac\",\"header\":\"{\\\"os\\\":\\\"pc\\\"}\",\"ids\":[1,2],\"level\":\"lossless\"}"
    );
    assert_eq!(requested_quality(None), Quality::Standard);
    assert_eq!(requested_quality(Some(Quality::Exhigh)), Quality::Exhigh);
}

#[test]
fn audio_request_signs_the_payload() {
    let r = audio_request(&vec![33], Quality::Standard).unwrap();
    assert_eq!(r.url, "https://interface3.music.163.com/eapi/song/enhance/player/url/v1");
    assert_eq!(r.form.len(), 1);
    assert_eq!(r.form[0].0, "params");
    let plain = openssl::symm::decrypt(
        openssl::symm::Cipher::aes_128_ecb(),
        AES_KEY.as_bytes(),
        None,
        &hex::decode(&r.form[0].1).unwrap(),
    )
    .unwrap();
    let text = String::from_utf8(plain).unwrap();
    assert!(text.starts_with("/api/song/enhance/player/url/v1-36cd479b6b5-{\"encodeType\":\"flac\""));
    assert!(text.contains("\"ids\":[33],\"level\":\"standard\"}-36cd479b6b5-"));
}

fn entry(url: Option<&str>) -> Audio {
    Audio {
        id: 1,
        url: url.map(|u| u.to_string()),
        encoding: None,
        bitrate: None,
        size: None,
        md5: None,
        duration: None,
        sample_rate: None,
    }
}

#[test]
fn audio_url_takes_the_last_entry() {
    assert_eq!(audio_url(vec![]), Err(OperationError::IdNotFound));
    assert_eq!(audio_url(vec![entry(None)]), Err(OperationError::UrlNotFound));
    assert_eq!(audio_url(vec![entry(Some("a")), entry(Some("b"))]), Ok("b".to_string()));
    assert_eq!(OperationError::IdNotFound.message(), "Id not found");
    assert_eq!(OperationError::UrlNotFound.message(), "Url not found");
}

#[test]
fn proxy_headers_keep_present_ones_and_allow_any_origin() {
    let h = proxy_headers(Some(b"audio/flac".to_vec()), None, Some(b"inline".to_vec()));
    assert_eq!(
        h,
        vec![
            (ProxyHeader::ContentType, b"audio/flac".to_vec()),
            (ProxyHeader::ContentDisposition, b"inline".to_vec()),
            (ProxyHeader::AccessControlAllowOrigin, b"*".to_vec()),
        ]
    );
    assert_eq!(proxy_headers(None, None, None), vec![(ProxyHeader::AccessControlAllowOrigin, b"*".to_vec())]);
}

#[test]
fn session_cookies_carry_the_token() {
    assert_eq!(
        session_cookies("tok"),
        vec!["MUSIC_U=tok".to_string(), "__remember_me=true".to_string(), "os=pc".to_string()]
    );
}

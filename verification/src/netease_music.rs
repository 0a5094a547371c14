pub mod codec;
pub mod crypto;
pub mod protocal;
pub mod web;

use vstd::prelude::*;
use vstd::string::*;
use vstd::utf8::encode_utf8;
use crate::netease_music::codec::{
    decimal, decimal_string, json_array, json_array_text, json_object, json_object_text, json_quote,
    json_string,
};
use crate::netease_music::crypto::{
    eapi_header_text, eapi_params, eapi_text_fits, is_session_key, make_eapi_form, make_eapi_header,
    make_weapi_form_for_text, song_detail_payload, song_detail_text, weapi_form_of,
    weapi_text_fits, WeapiForm,
};
use crate::netease_music::protocal::{quality_text, Audio, Quality};

verus! {

/// Why an operation of the library gave no result.
#[derive(Debug, Clone, PartialEq, Eq)]
pub enum OperationError {
    /// OpenSSL refused an encryption, a digest or the public key; the text is OpenSSL's
    /// message, or says why the result could not be used.
    Crypto(String),
    /// The text is not an absolute URL, or does not take the new host; the text is the
    /// URL parser's message.
    InvalidUrl(String),
    /// The URL has no host.
    UrlWithoutHost,
    /// The URL does not take the new scheme.
    SchemeRefused,
    /// The answer holds no entry for the requested id.
    IdNotFound,
    /// The entry holds no URL.
    UrlNotFound,
    /// The account answer holds no VIP type.
    VipTypeMissing,
}

/// The message that each error carries.
pub open spec fn operation_error_text(e: OperationError) -> Seq<char> {
    match e {
        OperationError::Crypto(text) => text@,
        OperationError::InvalidUrl(text) => text@,
        OperationError::UrlWithoutHost => "without host"@,
        OperationError::SchemeRefused => "failed to set scheme"@,
        OperationError::IdNotFound => "Id not found"@,
        OperationError::UrlNotFound => "Url not found"@,
        OperationError::VipTypeMissing => "Failed to get VIP type from response"@,
    }
}

impl OperationError {
    /// The message of this error.
    pub fn message(&self) -> (r: String)
        ensures
            r@ == operation_error_text(*self),
    {
        match self {
            OperationError::Crypto(text) => text.clone(),
            OperationError::InvalidUrl(text) => text.clone(),
            OperationError::UrlWithoutHost => String::from_str("without host"),
            OperationError::SchemeRefused => String::from_str("failed to set scheme"),
            OperationError::IdNotFound => String::from_str("Id not found"),
            OperationError::UrlNotFound => String::from_str("Url not found"),
            OperationError::VipTypeMissing => String::from_str("Failed to get VIP type from response"),
        }
    }
}

/// How a request is sent.
#[derive(Debug, Clone, Copy, PartialEq, Eq, Structural)]
pub enum HttpMethod {
    Get,
    Post,
}

/// A request to the music API: method, URL and the fields of its urlencoded form.
pub struct ApiRequest {
    pub method: HttpMethod,
    pub url: String,
    pub form: Vec<(String, String)>,
}

/// The view of the fields of a form.
pub open spec fn fields_view(form: Vec<(String, String)>) -> Seq<(Seq<char>, Seq<char>)> {
    form@.map_values(|f: (String, String)| (f.0@, f.1@))
}

/// The form fields of a weapi form.
pub open spec fn weapi_fields(form: WeapiForm) -> Seq<(Seq<char>, Seq<char>)> {
    seq![("encSecKey"@, form.enc_sec_key@), ("params"@, form.params@)]
}

/// `req` posts to `url` the weapi form of `text` under some session key.
pub open spec fn weapi_request_of(req: ApiRequest, url: Seq<char>, text: Seq<u8>) -> bool {
    &&& req.method == HttpMethod::Post
    &&& req.url@ == url
    &&& exists|form: WeapiForm, key: Seq<u8>|
        is_session_key(key) && #[trigger] weapi_form_of(form, text, key) && fields_view(req.form)
            == weapi_fields(form)
}

/// The form fields of a weapi form.
fn weapi_form_fields(form: WeapiForm) -> (r: Vec<(String, String)>)
    ensures
        fields_view(r) == weapi_fields(form),
{
    let mut r: Vec<(String, String)> = Vec::new();
    r.push((String::from_str("encSecKey"), form.enc_sec_key));
    r.push((String::from_str("params"), form.params));
    assert(fields_view(r) =~= weapi_fields(form));
    r
}

/// Address of the song-detail endpoint.
pub const SONG_DETAIL_URL: &'static str = "https://music.163.com/weapi/v3/song/detail";

/// The request for the details of the songs `ids`; none when `ids` is empty.
pub fn song_request(ids: &Vec<u64>) -> (r: Result<Option<ApiRequest>, OperationError>)
    requires
        weapi_text_fits(encode_utf8(song_detail_text(ids@)).len()),
    ensures
        ids@.len() == 0 <==> r matches Ok(None),
        r matches Ok(Some(req)) ==> weapi_request_of(req, SONG_DETAIL_URL@, encode_utf8(song_detail_text(ids@))),
        r is Err ==> (r matches Err(OperationError::Crypto(_))),
{
    if ids.len() == 0 {
        return Ok(None);
    }
    let data = song_detail_payload(ids);
    let form = make_weapi_form_for_text(data.as_str())?;
    let fields = weapi_form_fields(form);
    Ok(Some(ApiRequest { method: HttpMethod::Post, url: String::from_str(SONG_DETAIL_URL), form: fields }))
}

/// Address of the account endpoint.
pub const ACCOUNT_URL: &'static str = "https://music.163.com/weapi/nuser/account/get";

/// The request for the account of the session.
pub fn vip_request() -> (r: Result<ApiRequest, OperationError>)
    ensures
        r is Ok ==> weapi_request_of(r.unwrap(), ACCOUNT_URL@, encode_utf8("{}"@)),
        r is Err ==> (r matches Err(OperationError::Crypto(_))),
{
    proof {
        reveal_strlit("{}");
        vstd::string::is_ascii_spec_bytes("{}");
    }
    let form = make_weapi_form_for_text("{}")?;
    let fields = weapi_form_fields(form);
    Ok(ApiRequest { method: HttpMethod::Post, url: String::from_str(ACCOUNT_URL), form: fields })
}

/// The account part of an account answer: the VIP type, when the answer carries one as a
/// whole number that fits an `i64`.
pub struct Account {
    pub vip_type: Option<i64>,
}

/// What the VIP decision reads of an account answer: its `account` object, if any.
pub struct AccountAnswer {
    pub account: Option<Account>,
}

/// The `account.vipType` of an answer, if present.
pub open spec fn answer_vip_type(answer: AccountAnswer) -> Option<i64> {
    match answer.account {
        Some(a) => a.vip_type,
        None => None,
    }
}

/// The VIP type of an answer is the `vipType` of its account, exactly.
pub proof fn lemma_answer_vip_type(answer: AccountAnswer)
    ensures
        answer.account matches Some(a) ==> answer_vip_type(answer) == a.vip_type,
        answer.account is None ==> answer_vip_type(answer) is None,
{
}

/// Whether the account is a VIP account: its `account.vipType` is above zero.
pub fn vip_status(answer: &AccountAnswer) -> (r: Result<bool, OperationError>)
    ensures
        r == match answer_vip_type(*answer) {
            Some(v) => Ok::<bool, OperationError>(v > 0),
            None => Err(OperationError::VipTypeMissing),
        },
        answer.account matches Some(a) ==> (a.vip_type matches Some(v) ==> r == Ok::<
            bool,
            OperationError,
        >(v > 0)),
        answer.account is None || answer.account.unwrap().vip_type is None ==> r == Err::<
            bool,
            OperationError,
        >(OperationError::VipTypeMissing),
{
    let vip_type = match &answer.account {
        Some(a) => a.vip_type,
        None => None,
    };
    match vip_type {
        Some(v) => Ok(v > 0),
        None => Err(OperationError::VipTypeMissing),
    }
}

/// The quality asked for, `standard` when none is named.
pub fn requested_quality(quality: Option<Quality>) -> (r: Quality)
    ensures
        r == match quality {
            Some(q) => q,
            None => Quality::Standard,
        },
{
    match quality {
        Some(q) => q,
        None => Quality::Standard,
    }
}

/// Path of the audio endpoint, as signed in the eapi form.
pub const AUDIO_PATH: &'static str = "/api/song/enhance/player/url/v1";

/// Address of the audio endpoint.
pub const AUDIO_URL: &'static str = "https://interface3.music.163.com/eapi/song/enhance/player/url/v1";

/// The payload of an audio request: the ids, the quality, the encoding `flac` and the eapi
/// header text, as a JSON object with its keys in order.
pub open spec fn audio_payload_text(ids: Seq<u64>, quality: Quality, header: Seq<char>) -> Seq<char> {
    json_object(
        seq![
            ("encodeType"@, json_string("flac"@)),
            ("header"@, json_string(header)),
            ("ids"@, json_array(ids.map_values(|id: u64| decimal(id as nat)))),
            ("level"@, json_string(quality_text(quality))),
        ],
    )
}

/// Writes the payload of an audio request.
pub fn audio_payload(ids: &Vec<u64>, quality: Quality, header: &str) -> (r: String)
    ensures
        r@ == audio_payload_text(ids@, quality, header@),
        r@ == json_object(
            seq![
                ("encodeType"@, json_string("flac"@)),
                ("header"@, json_string(header@)),
                ("ids"@, json_array(Seq::new(ids@.len(), |i: int| decimal(ids@[i] as nat)))),
                ("level"@, json_string(quality_wire_name(quality))),
            ],
        ),
{
    let mut numbers: Vec<String> = Vec::new();
    let mut i: usize = 0;
    while i < ids.len()
        invariant
            i <= ids@.len(),
            numbers@.len() == i,
            forall|j: int| 0 <= j < i ==> #[trigger] numbers@[j]@ == decimal(ids@[j] as nat),
        decreases ids.len() - i,
    {
        numbers.push(decimal_string(ids[i]));
        i = i + 1;
    }
    assert(numbers@.map_values(|v: String| v@) =~= ids@.map_values(|id: u64| decimal(id as nat)));
    let level = quality.to_string();
    let mut members: Vec<(String, String)> = Vec::new();
    members.push((String::from_str("encodeType"), json_quote("flac")));
    members.push((String::from_str("header"), json_quote(header)));
    members.push((String::from_str("ids"), json_array_text(&numbers)));
    members.push((String::from_str("level"), json_quote(level.as_str())));
    assert(members@.map_values(|m: (String, String)| (m.0@, m.1@)) =~= seq![
        ("encodeType"@, json_string("flac"@)),
        ("header"@, json_string(header@)),
        ("ids"@, json_array(ids@.map_values(|id: u64| decimal(id as nat)))),
        ("level"@, json_string(quality_text(quality))),
    ]);
    let r = json_object_text(&members);
    proof {
        lemma_audio_payload_fields(ids@, quality, header@);
    }
    r
}

/// The wire names of the qualities.
pub open spec fn quality_wire_name(q: Quality) -> Seq<char> {
    match q {
        Quality::Standard => "standard"@,
        Quality::Exhigh => "exhigh"@,
        Quality::Lossless => "lossless"@,
    }
}

/// The audio payload asks for the requested quality by its wire name, names every id in
/// order, asks for `flac` and carries the header text as a JSON string.
pub proof fn lemma_audio_payload_fields(ids: Seq<u64>, quality: Quality, header: Seq<char>)
    ensures
        audio_payload_text(ids, quality, header) == json_object(
            seq![
                ("encodeType"@, json_string("flac"@)),
                ("header"@, json_string(header)),
                ("ids"@, json_array(Seq::new(ids.len(), |i: int| decimal(ids[i] as nat)))),
                ("level"@, json_string(quality_wire_name(quality))),
            ],
        ),
        quality_text(quality) == quality_wire_name(quality),
{
    assert(ids.map_values(|id: u64| decimal(id as nat)) =~= Seq::new(ids.len(), |i: int| decimal(ids[i] as nat)));
}

/// The audio payload fits an eapi form for every request id that the header may carry.
pub open spec fn audio_request_fits(ids: Seq<u64>, quality: Quality) -> bool {
    forall|request_id: u64|
        20000000 <= request_id < 30000000 ==> eapi_text_fits(
            AUDIO_PATH@,
            #[trigger] audio_payload_text(ids, quality, eapi_header_text(request_id)),
        )
}

/// `req` posts to the audio endpoint the eapi form of the audio payload for `ids` and
/// `quality`, with a header whose request id lies in 20000000..30000000.
pub open spec fn audio_request_of(req: ApiRequest, ids: Seq<u64>, quality: Quality) -> bool {
    &&& req.method == HttpMethod::Post
    &&& req.url@ == AUDIO_URL@
    &&& exists|request_id: u64|
        20000000 <= request_id < 30000000 && fields_view(req.form) == seq![
            (
                "params"@,
                eapi_params(AUDIO_PATH@, #[trigger] audio_payload_text(ids, quality, eapi_header_text(request_id))),
            ),
        ]
}

/// The request for the audio files of `ids` in the given quality.
pub fn audio_request(ids: &Vec<u64>, quality: Quality) -> (r: Result<ApiRequest, OperationError>)
    requires
        audio_request_fits(ids@, quality),
    ensures
        r is Ok ==> audio_request_of(r.unwrap(), ids@, quality),
        r is Err ==> (r matches Err(OperationError::Crypto(_))),
{
    let header = make_eapi_header();
    let payload = audio_payload(ids, quality, header.as_str());
    let ghost request_id = choose|request_id: u64| 20000000 <= request_id < 30000000 && header@ == #[trigger] eapi_header_text(request_id);
    assert(eapi_text_fits(AUDIO_PATH@, audio_payload_text(ids@, quality, eapi_header_text(request_id))));
    let form = make_eapi_form(String::from_str(AUDIO_PATH), payload)?;
    let mut fields: Vec<(String, String)> = Vec::new();
    fields.push((String::from_str("params"), form.params));
    let req = ApiRequest { method: HttpMethod::Post, url: String::from_str(AUDIO_URL), form: fields };
    assert(fields_view(req.form) =~= seq![
        ("params"@, eapi_params(AUDIO_PATH@, audio_payload_text(ids@, quality, eapi_header_text(request_id)))),
    ]);
    Ok(req)
}

/// The URL of the audio file of a one-id audio answer: the last entry's URL.
pub fn audio_url(audios: Vec<Audio>) -> (r: Result<String, OperationError>)
    ensures
        audios@.len() == 0 ==> r == Err::<String, OperationError>(OperationError::IdNotFound),
        audios@.len() > 0 ==> match audios@.last().url {
            Some(u) => r matches Ok(t) && t@ == u@,
            None => r == Err::<String, OperationError>(OperationError::UrlNotFound),
        },
{
    let mut audios = audios;
    match audios.pop() {
        None => Err(OperationError::IdNotFound),
        Some(audio) => match audio.url {
            Some(u) => Ok(u),
            None => Err(OperationError::UrlNotFound),
        },
    }
}

/// Address of the search endpoint.
pub const SEARCH_URL: &'static str = "https://music.163.com/api/cloudsearch/pc";

/// The number of results asked for, 10 when none is named.
pub fn search_limit(limit: Option<u64>) -> (r: u64)
    ensures
        r == match limit {
            Some(l) => l,
            None => 10,
        },
{
    match limit {
        Some(l) => l,
        None => 10,
    }
}

/// The search request for songs matching `keyword`, at most `limit` of them.
pub fn search_request(keyword: &str, limit: u64) -> (r: ApiRequest)
    ensures
        r.method == HttpMethod::Post,
        r.url@ == SEARCH_URL@,
        fields_view(r.form) == seq![("limit"@, decimal(limit as nat)), ("s"@, keyword@), ("type"@, "1"@)],
{
    let mut form: Vec<(String, String)> = Vec::new();
    form.push((String::from_str("limit"), decimal_string(limit)));
    form.push((String::from_str("s"), String::from_str(keyword)));
    form.push((String::from_str("type"), String::from_str("1")));
    let r = ApiRequest { method: HttpMethod::Post, url: String::from_str(SEARCH_URL), form };
    assert(fields_view(r.form) =~= seq![("limit"@, decimal(limit as nat)), ("s"@, keyword@), ("type"@, "1"@)]);
    r
}

/// Address of the playlist endpoint.
pub const PLAYLIST_URL: &'static str = "https://music.163.com/api/v6/playlist/detail";

/// The request for the playlist `id`, with up to 100000 tracks.
pub fn playlist_request(id: u64) -> (r: ApiRequest)
    ensures
        r.method == HttpMethod::Post,
        r.url@ == PLAYLIST_URL@,
        fields_view(r.form) == seq![("id"@, decimal(id as nat)), ("n"@, "100000"@), ("s"@, "8"@)],
{
    let mut form: Vec<(String, String)> = Vec::new();
    form.push((String::from_str("id"), decimal_string(id)));
    form.push((String::from_str("n"), String::from_str("100000")));
    form.push((String::from_str("s"), String::from_str("8")));
    let r = ApiRequest { method: HttpMethod::Post, url: String::from_str(PLAYLIST_URL), form };
    assert(fields_view(r.form) =~= seq![("id"@, decimal(id as nat)), ("n"@, "100000"@), ("s"@, "8"@)]);
    r
}

/// Address prefix of the album endpoint.
pub const ALBUM_URL_PREFIX: &'static str = "https://music.163.com/api/v1/album/";

/// The request for the album `id`.
pub fn album_request(id: u64) -> (r: ApiRequest)
    ensures
        r.method == HttpMethod::Get,
        r.url@ == ALBUM_URL_PREFIX@ + decimal(id as nat),
        r.form@.len() == 0,
{
    let mut url = String::from_str(ALBUM_URL_PREFIX);
    let number = decimal_string(id);
    url.append(number.as_str());
    ApiRequest { method: HttpMethod::Get, url, form: Vec::new() }
}

/// The response headers that the audio proxy passes on.
#[derive(Debug, Clone, Copy, PartialEq, Eq, Structural)]
pub enum ProxyHeader {
    ContentType,
    ContentLength,
    ContentDisposition,
    AccessControlAllowOrigin,
}

/// The present headers among content type, length and disposition, in that order, then
/// `Access-Control-Allow-Origin: *`.
pub open spec fn proxy_headers_of(
    content_type: Option<Seq<u8>>,
    content_length: Option<Seq<u8>>,
    content_disposition: Option<Seq<u8>>,
) -> Seq<(ProxyHeader, Seq<u8>)> {
    let a: Seq<(ProxyHeader, Seq<u8>)> = match content_type {
        Some(v) => seq![(ProxyHeader::ContentType, v)],
        None => seq![],
    };
    let b: Seq<(ProxyHeader, Seq<u8>)> = match content_length {
        Some(v) => seq![(ProxyHeader::ContentLength, v)],
        None => seq![],
    };
    let c: Seq<(ProxyHeader, Seq<u8>)> = match content_disposition {
        Some(v) => seq![(ProxyHeader::ContentDisposition, v)],
        None => seq![],
    };
    a + b + c + seq![(ProxyHeader::AccessControlAllowOrigin, seq![42u8])]
}

/// The view of an optional byte buffer.
pub open spec fn opt_buf(v: Option<Vec<u8>>) -> Option<Seq<u8>> {
    match v {
        Some(b) => Some(b@),
        None => None,
    }
}

/// The view of a list of headers.
pub open spec fn headers_view(h: Vec<(ProxyHeader, Vec<u8>)>) -> Seq<(ProxyHeader, Seq<u8>)> {
    h@.map_values(|x: (ProxyHeader, Vec<u8>)| (x.0, x.1@))
}

/// The headers of the proxied audio answer, given those of the upstream answer.
pub fn proxy_headers(
    content_type: Option<Vec<u8>>,
    content_length: Option<Vec<u8>>,
    content_disposition: Option<Vec<u8>>,
) -> (r: Vec<(ProxyHeader, Vec<u8>)>)
    ensures
        headers_view(r) == proxy_headers_of(
            opt_buf(content_type),
            opt_buf(content_length),
            opt_buf(content_disposition),
        ),
{
    let ghost ct = opt_buf(content_type);
    let ghost cl = opt_buf(content_length);
    let ghost cd = opt_buf(content_disposition);
    let mut r: Vec<(ProxyHeader, Vec<u8>)> = Vec::new();
    if let Some(v) = content_type {
        r.push((ProxyHeader::ContentType, v));
    }
    if let Some(v) = content_length {
        r.push((ProxyHeader::ContentLength, v));
    }
    if let Some(v) = content_disposition {
        r.push((ProxyHeader::ContentDisposition, v));
    }
    let mut star: Vec<u8> = Vec::new();
    star.push(42u8);
    r.push((ProxyHeader::AccessControlAllowOrigin, star));
    assert(headers_view(r) =~= proxy_headers_of(ct, cl, cd));
    r
}

} // verus!

//! Requests and answers of the music API, and the repair of audio URLs.
use vstd::prelude::*;
use vstd::string::*;
use crate::netease_music::OperationError;

verus! {

/// The ids that a request names: `id` first, when given, then every id of `ids`, in order.
pub open spec fn requested_ids(id: Option<u64>, ids: Option<Seq<u64>>) -> Seq<u64> {
    let first: Seq<u64> = match id {
        Some(i) => seq![i],
        None => seq![],
    };
    let rest: Seq<u64> = match ids {
        Some(s) => s,
        None => seq![],
    };
    first + rest
}

/// The view of an optional list of ids.
pub open spec fn opt_ids(ids: Option<Vec<u64>>) -> Option<Seq<u64>> {
    match ids {
        Some(v) => Some(v@),
        None => None,
    }
}

/// `id` followed by `ids`, as one list.
fn collect_ids(id: Option<u64>, ids: &Option<Vec<u64>>) -> (r: Vec<u64>)
    ensures
        r@ == requested_ids(id, opt_ids(*ids)),
{
    let mut r: Vec<u64> = Vec::new();
    if let Some(first) = id {
        r.push(first);
    }
    let ghost start = r@;
    if let Some(list) = ids {
        let mut i: usize = 0;
        while i < list.len()
            invariant
                i <= list@.len(),
                r@ == start + list@.take(i as int),
            decreases list.len() - i,
        {
            r.push(list[i]);
            i = i + 1;
            assert(r@ =~= start + list@.take(i as int));
        }
        assert(list@.take(list@.len() as int) =~= list@);
    }
    assert(r@ =~= requested_ids(id, opt_ids(*ids)));
    r
}

/// A request for song details.
pub struct SongsRequest {
    pub id: Option<u64>,
    pub ids: Option<Vec<u64>>,
}

impl SongsRequest {
    /// The requested ids: `id` first, then `ids`.
    pub fn id_list(&self) -> (r: Vec<u64>)
        ensures
            r@ == requested_ids(self.id, opt_ids(self.ids)),
    {
        collect_ids(self.id, &self.ids)
    }
}

/// The answer to a song-detail request.
pub struct Songs {
    pub songs: Vec<Song>,
}

/// A song.
pub struct Song {
    pub id: u64,
    pub name: String,
    pub artists: Option<Vec<Artist>>,
    pub album: Album,
    pub mv_id: Option<u64>,
}

/// An artist.
pub struct Artist {
    pub id: u64,
    pub name: String,
    pub avatar: Option<String>,
}

/// A request for audio files.
pub struct AudiosRequest {
    pub id: Option<u64>,
    pub ids: Option<Vec<u64>>,
    pub quality: Option<Quality>,
}

impl AudiosRequest {
    /// The requested ids: `id` first, then `ids`.
    pub fn id_list(&self) -> (r: Vec<u64>)
        ensures
            r@ == requested_ids(self.id, opt_ids(self.ids)),
    {
        collect_ids(self.id, &self.ids)
    }
}

/// The answer to an audio request.
pub struct Audios {
    pub data: Vec<Audio>,
}

/// The view of an optional string.
pub open spec fn opt_text(s: Option<String>) -> Option<Seq<char>> {
    match s {
        Some(t) => Some(t@),
        None => None,
    }
}

/// `after` is `before` with its URL repaired: an URL that `fix_url` repairs is replaced,
/// one that it refuses is dropped; every other field stays.
pub open spec fn audio_fixed(before: Audio, after: Audio) -> bool {
    &&& opt_text(after.url) == match before.url {
        Some(u) => match fixed_url(u@) {
            Ok(t) => Some(t),
            Err(_) => None,
        },
        None => None,
    }
    &&& after.id == before.id
    &&& after.encoding == before.encoding
    &&& after.bitrate == before.bitrate
    &&& after.size == before.size
    &&& after.md5 == before.md5
    &&& after.duration == before.duration
    &&& after.sample_rate == before.sample_rate
}

impl Audios {
    /// Repairs the URL of every audio entry, in place.
    pub fn fix_urls(&mut self)
        ensures
            final(self).data@.len() == old(self).data@.len(),
            forall|i: int|
                0 <= i < old(self).data@.len() ==> audio_fixed(
                    #[trigger] old(self).data@[i],
                    final(self).data@[i],
                ),
    {
        let ghost before = self.data@;
        let mut i: usize = 0;
        while i < self.data.len()
            invariant
                self.data@.len() == before.len(),
                i <= before.len(),
                forall|j: int| 0 <= j < i ==> audio_fixed(#[trigger] before[j], self.data@[j]),
                forall|j: int| i <= j < before.len() ==> #[trigger] self.data@[j] == before[j],
            decreases before.len() - i,
        {
            self.data[i].fix_url();
            i = i + 1;
        }
    }
}

/// An audio file of a song.
pub struct Audio {
    pub id: u64,
    pub url: Option<String>,
    pub encoding: Option<String>,
    pub bitrate: Option<u64>,
    pub size: Option<u64>,
    pub md5: Option<String>,
    pub duration: Option<u64>,
    pub sample_rate: Option<u64>,
}

impl Audio {
    /// Repairs the URL: a repaired URL replaces it, one that cannot be repaired is dropped.
    pub fn fix_url(&mut self)
        ensures
            audio_fixed(*old(self), *final(self)),
    {
        let fixed = match &self.url {
            Some(url) => Some(fix_url(url.as_str())),
            None => None,
        };
        match fixed {
            Some(Ok(u)) => {
                self.url = Some(u);
            },
            Some(Err(_)) => {
                self.url = None;
            },
            None => {},
        }
    }
}

/// The pattern of the media hosts that are moved: `m704` and `m804` become `m701` and `m801`.
pub const MEDIA_HOST_PATTERN: &'static str = "^m([78])04\\.music\\.126\\.net$";

/// What `url::Url::parse` and `host_str` give for a text: the text of the parse error when
/// it is not a URL, else the host, if the URL has one.
pub uninterp spec fn url_host(url: Seq<char>) -> Result<Option<Seq<char>>, Seq<char>>;

/// What `url::Url::parse`, `set_scheme`, `set_host` and the serialisation give for a text,
/// a scheme and a host: the new URL text; or, when a step refuses, the text of the parse
/// error (parsing or `set_host`), or nothing (`set_scheme`, which gives no error value).
pub uninterp spec fn url_rewritten(url: Seq<char>, scheme: Seq<char>, host: Seq<char>) -> Result<
    Seq<char>,
    Option<Seq<char>>,
>;

/// What `regex::Regex::new(pattern)`, `captures(text)` and `get(group)` give: `None` when the
/// pattern is refused, else the text of the group in the first match, if there is a match
/// and the group takes part in it.
pub uninterp spec fn regex_group(pattern: Seq<char>, text: Seq<char>, group: nat) -> Option<
    Option<Seq<char>>,
>;

/// The view of an optional optional string.
pub open spec fn opt_opt_text(s: Option<Option<String>>) -> Option<Option<Seq<char>>> {
    match s {
        Some(t) => Some(opt_text(t)),
        None => None,
    }
}

/// The view of a host lookup.
pub open spec fn host_view(r: Result<Option<String>, String>) -> Result<Option<Seq<char>>, Seq<char>> {
    match r {
        Ok(h) => Ok(opt_text(h)),
        Err(e) => Err(e@),
    }
}

/// The view of a rewrite.
pub open spec fn rewrite_view(r: Result<String, Option<String>>) -> Result<Seq<char>, Option<Seq<char>>> {
    match r {
        Ok(t) => Ok(t@),
        Err(e) => Err(opt_text(e)),
    }
}

/// Calls `url::Url::parse` and `host_str`; a parse error is turned into its `Display` text.
/// Claimed: the outcome is a function of the text (its name is `url_host`).
#[verifier::external_body]
fn parse_url_host(url: &str) -> (r: Result<Option<String>, String>)
    ensures
        host_view(r) == url_host(url@),
{
    match url::Url::parse(url) {
        Ok(parsed) => Ok(parsed.host_str().map(|h| h.to_string())),
        Err(e) => Err(e.to_string()),
    }
}

/// Calls `url::Url::parse`, `set_scheme`, `set_host` and turns the URL into its text; a
/// `ParseError` is turned into its `Display` text, the unit error of `set_scheme` into
/// `None`. Claimed: the outcome is a function of the three texts (its name is
/// `url_rewritten`).
#[verifier::external_body]
fn rewrite_url(url: &str, scheme: &str, host: &str) -> (r: Result<String, Option<String>>)
    ensures
        rewrite_view(r) == url_rewritten(url@, scheme@, host@),
{
    let mut parsed = url::Url::parse(url).map_err(|e| Some(e.to_string()))?;
    parsed.set_scheme(scheme).map_err(|_| None)?;
    parsed.set_host(Some(host)).map_err(|e| Some(e.to_string()))?;
    Ok(parsed.into())
}

/// Why an URL cannot be repaired, as a mathematical value.
pub enum UrlFault {
    /// Not a URL, or the new host is refused; the URL parser's message.
    Invalid(Seq<char>),
    /// The URL has no host.
    WithoutHost,
    /// The URL does not take the `https` scheme.
    SchemeRefused,
}

/// The fault that an error of `fix_url` stands for.
pub open spec fn url_fault(e: OperationError) -> UrlFault {
    match e {
        OperationError::InvalidUrl(text) => UrlFault::Invalid(text@),
        OperationError::SchemeRefused => UrlFault::SchemeRefused,
        _ => UrlFault::WithoutHost,
    }
}

/// What an URL repair gives for the outcome of the rewrite: a refused scheme is
/// `failed to set scheme`, a parse error is an invalid URL with the error's text.
pub open spec fn rewrite_result(r: Result<Seq<char>, Option<Seq<char>>>) -> Result<Seq<char>, UrlFault> {
    match r {
        Ok(t) => Ok(t),
        Err(None) => Err(UrlFault::SchemeRefused),
        Err(Some(e)) => Err(UrlFault::Invalid(e)),
    }
}

/// The digit that the media-host pattern captures in `host`: `host` is `m`, a `7` or `8`,
/// then `04.music.126.net`, and nothing else.
pub open spec fn media_host_digit(host: Seq<char>) -> Option<Seq<char>> {
    if host.len() >= 2 && host[0] == 'm' && (host[1] == '7' || host[1] == '8') && host.skip(2)
        == "04.music.126.net"@ {
        Some(seq![host[1]])
    } else {
        None
    }
}

/// Calls `regex::Regex::new`, `captures` and `Captures::get`. Claimed: the outcome is a
/// function of the pattern, the text and the group number (its name is `regex_group`).
/// For the media-host pattern and group 1 it is stated, from the crate's documented syntax
/// (`^`/`$` anchor at the ends of the text, `\.` is a literal dot, `[78]` a class, one
/// capture group): the pattern compiles, and group 1 is the digit exactly when the whole
/// text is `m7` or `m8` followed by `04.music.126.net`.
#[verifier::external_body]
fn capture_group(pattern: &str, text: &str, group: usize) -> (r: Option<Option<String>>)
    ensures
        opt_opt_text(r) == regex_group(pattern@, text@, group as nat),
        pattern@ == MEDIA_HOST_PATTERN@ && group == 1 ==> opt_opt_text(r) == Some(
            media_host_digit(text@),
        ),
{
    let re = regex::Regex::new(pattern).ok()?;
    match re.captures(text) {
        Some(caps) => match caps.get(group) {
            Some(m) => Some(Some(m.as_str().to_string())),
            None => Some(None),
        },
        None => Some(None),
    }
}

/// The host that an URL is moved to: with the digit captured from a moved media host,
/// `m<digit>01.music.126.net`; else the host itself.
pub open spec fn media_host_text(host: Seq<char>, digit: Option<Seq<char>>) -> Seq<char> {
    match digit {
        Some(d) => "m"@ + d + "01.music.126.net"@,
        None => host,
    }
}

/// The host that an URL is moved to, given what the media-host pattern captured.
pub fn media_host(host: &str, digit: Option<String>) -> (r: String)
    ensures
        r@ == media_host_text(host@, opt_text(digit)),
{
    match digit {
        Some(d) => {
            let mut r = String::from_str("m");
            r.append(d.as_str());
            r.append("01.music.126.net");
            r
        },
        None => String::from_str(host),
    }
}

/// What `fix_url` makes of an URL: scheme `https`, and a moved media host.
pub open spec fn fixed_url(url: Seq<char>) -> Result<Seq<char>, UrlFault> {
    match url_host(url) {
        Err(e) => Err(UrlFault::Invalid(e)),
        Ok(None) => Err(UrlFault::WithoutHost),
        Ok(Some(host)) => rewrite_result(
            url_rewritten(url, "https"@, media_host_text(host, media_host_digit(host))),
        ),
    }
}

/// Moves an audio URL to `https` and from the `m704`/`m804` media hosts to `m701`/`m801`.
pub fn fix_url(url: &str) -> (r: Result<String, OperationError>)
    ensures
        match r {
            Ok(t) => fixed_url(url@) == Ok::<Seq<char>, UrlFault>(t@),
            Err(e) => (e is InvalidUrl || e is UrlWithoutHost || e is SchemeRefused) && fixed_url(url@)
                == Err::<Seq<char>, UrlFault>(url_fault(e)),
        },
{
    let host = match parse_url_host(url) {
        Err(e) => return Err(OperationError::InvalidUrl(e)),
        Ok(None) => return Err(OperationError::UrlWithoutHost),
        Ok(Some(h)) => h,
    };
    let digit = match capture_group(MEDIA_HOST_PATTERN, host.as_str(), 1) {
        Some(d) => d,
        None => {
            // never taken: the media-host pattern compiles
            proof {
                assert(false);
            }
            return Err(OperationError::UrlWithoutHost);
        },
    };
    let new_host = media_host(host.as_str(), digit);
    match rewrite_url(url, "https", new_host.as_str()) {
        Ok(t) => Ok(t),
        Err(None) => Err(OperationError::SchemeRefused),
        Err(Some(e)) => Err(OperationError::InvalidUrl(e)),
    }
}

/// The quality of an audio file.
#[derive(Debug, Clone, Copy, PartialEq, Eq, Structural)]
pub enum Quality {
    Standard,
    Exhigh,
    Lossless,
}

/// The name of a quality on the wire.
pub open spec fn quality_text(q: Quality) -> Seq<char> {
    match q {
        Quality::Standard => "standard"@,
        Quality::Exhigh => "exhigh"@,
        Quality::Lossless => "lossless"@,
    }
}

impl Quality {
    /// The name of this quality on the wire.
    pub fn to_string(&self) -> (r: String)
        ensures
            r@ == quality_text(*self),
    {
        match self {
            Quality::Standard => String::from_str("standard"),
            Quality::Exhigh => String::from_str("exhigh"),
            Quality::Lossless => String::from_str("lossless"),
        }
    }
}

/// A request for one audio file.
pub struct AudioPlayRequest {
    pub id: u64,
    pub quality: Option<Quality>,
}

/// A search request.
pub struct SearchRequest {
    pub keyword: String,
    pub limit: Option<u64>,
}

/// The answer to a search request.
pub struct SearchResponse {
    pub result: Songs,
}

/// A playlist request.
pub struct PlaylistRequest {
    pub id: u64,
}

/// A playlist.
pub struct Playlist {
    pub id: u64,
    pub name: String,
    pub decription: Option<String>,
    pub cover: Option<String>,
    pub track_count: u64,
    pub play_count: u64,
    pub creator: Option<PlaylistCreator>,
    pub tracks: Vec<Song>,
}

/// The creator of a playlist.
pub struct PlaylistCreator {
    pub id: u64,
    pub name: String,
    pub signature: Option<String>,
    pub avatar: Option<String>,
    pub background: Option<String>,
    pub city_code: Option<u64>,
}

/// An album request.
pub struct AlbumRequest {
    pub id: u64,
}

/// The answer to an album request.
pub struct AlbumWrapper {
    pub album: Album,
}

/// An album.
pub struct Album {
    pub id: u64,
    pub name: String,
    pub cover: Option<String>,
    pub description: Option<String>,
    pub artists: Option<Vec<Artist>>,
    pub songs: Option<Vec<Song>>,
}

/// An audio URL on the media host `m704` or `m804` is moved to `m701` or `m801` (and to
/// `https`), whatever the rest of the URL is.
pub proof fn lemma_media_hosts_move(url: Seq<char>, d: char)
    requires
        d == '7' || d == '8',
        url_host(url) == Ok::<Option<Seq<char>>, Seq<char>>(Some(seq!['m', d] + "04.music.126.net"@)),
    ensures
        fixed_url(url) == rewrite_result(url_rewritten(url, "https"@, seq!['m', d] + "01.music.126.net"@)),
{
    let host = seq!['m', d] + "04.music.126.net"@;
    assert(host.skip(2) =~= "04.music.126.net"@);
    assert(media_host_text(host, media_host_digit(host)) =~= seq!['m', d] + "01.music.126.net"@) by {
        assert("m"@ =~= seq!['m']) by {
            reveal_strlit("m");
        }
    }
}

/// An audio URL on any other host keeps its host and only moves to `https`.
pub proof fn lemma_other_hosts_stay(url: Seq<char>, host: Seq<char>)
    requires
        url_host(url) == Ok::<Option<Seq<char>>, Seq<char>>(Some(host)),
        media_host_digit(host) is None,
    ensures
        fixed_url(url) == rewrite_result(url_rewritten(url, "https"@, host)),
{
}

} // verus!

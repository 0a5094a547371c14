use musicalus::netease_music::protocal::{
    fix_url, media_host, Audio, Audios, AudiosRequest, Quality, SongsRequest,
};
use musicalus::netease_music::OperationError;

#[test]
fn id_list_puts_id_before_ids() {
    let req = SongsRequest { id: Some(3), ids: Some(vec![1, 2, 3]) };
    assert_eq!(req.id_list(), vec![3, 1, 2, 3]);
    let req = SongsRequest { id: None, ids: Some(vec![9]) };
    assert_eq!(req.id_list(), vec![9]);
    let req = SongsRequest { id: Some(4), ids: None };
    assert_eq!(req.id_list(), vec![4]);
    let req = SongsRequest { id: None, ids: None };
    assert_eq!(req.id_list(), Vec::<u64>::new());
}

#[test]
fn audio_request_id_list_agrees_with_song_request() {
    let a = AudiosRequest { id: Some(7), ids: Some(vec![8]), quality: None };
    let s = SongsRequest { id: Some(7), ids: Some(vec![8]) };
    assert_eq!(a.id_list(), s.id_list());
    assert_eq!(a.id_list(), vec![7, 8]);
}

#[test]
fn quality_names() {
    assert_eq!(Quality::Standard.to_string(), "standard");
    assert_eq!(Quality::Exhigh.to_string(), "exhigh");
    assert_eq!(Quality::Lossless.to_string(), "lossless");
}

#[test]
fn media_hosts_are_moved() {
    assert_eq!(media_host("m704.music.126.net", Some("7".to_string())), "m701.music.126.net");
    assert_eq!(media_host("other.net", None), "other.net");
}

#[test]
fn fix_url_moves_media_hosts_and_scheme() {
    assert_eq!(
        fix_url("http://m704.music.126.net/a/b.mp3?x=1").unwrap(),
        "https://m701.music.126.net/a/b.mp3?x=1"
    );
    assert_eq!(
        fix_url("http://m804.music.126.net/c.flac").unwrap(),
        "https://m801.music.126.net/c.flac"
    );
    assert_eq!(
        fix_url("http://m701.music.126.net/c.flac").unwrap(),
        "https://m701.music.126.net/c.flac"
    );
    assert_eq!(
        fix_url("https://m904.music.126.net/c").unwrap(),
        "https://m904.music.126.net/c"
    );
    assert_eq!(fix_url("http://xm704.music.126.net/c").unwrap(), "https://xm704.music.126.net/c");
}

#[test]
fn fix_url_errors() {
    assert_eq!(
        fix_url("not a url"),
        Err(OperationError::InvalidUrl("relative URL without a base".to_string()))
    );
    assert_eq!(fix_url("data:text/plain,hi"), Err(OperationError::UrlWithoutHost));
    assert_eq!(fix_url("foo://m704.music.126.net/x"), Err(OperationError::SchemeRefused));
    assert_eq!(OperationError::SchemeRefused.message(), "failed to set scheme");
    assert_eq!(OperationError::UrlWithoutHost.message(), "without host");
}

fn audio(id: u64, url: Option<&str>) -> Audio {
    Audio {
        id,
        url: url.map(|u| u.to_string()),
        encoding: Some("flac".to_string()),
        bitrate: Some(999000),
        size: Some(10),
        md5: Some("abc".to_string()),
        duration: Some(1000),
        sample_rate: Some(44100),
    }
}

#[test]
fn fix_url_of_an_audio_entry() {
    let mut a = audio(1, Some("http://m804.music.126.net/x.mp3"));
    a.fix_url();
    assert_eq!(a.url.as_deref(), Some("https://m801.music.126.net/x.mp3"));
    assert_eq!(a.id, 1);
    assert_eq!(a.encoding.as_deref(), Some("flac"));
    let mut b = audio(2, Some("bad"));
    b.fix_url();
    assert_eq!(b.url, None);
    let mut c = audio(3, None);
    c.fix_url();
    assert_eq!(c.url, None);
    assert_eq!(c.sample_rate, Some(44100));
}

#[test]
fn fix_urls_repairs_every_entry() {
    let mut audios = Audios {
        data: vec![
            audio(1, Some("http://m704.music.126.net/1")),
            audio(2, None),
            audio(3, Some("::")),
        ],
    };
    audios.fix_urls();
    assert_eq!(audios.data.len(), 3);
    assert_eq!(audios.data[0].url.as_deref(), Some("https://m701.music.126.net/1"));
    assert_eq!(audios.data[1].url, None);
    assert_eq!(audios.data[2].url, None);
    assert_eq!(audios.data[2].id, 3);
}

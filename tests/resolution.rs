use netflux::{
    absolute_iframe_url, build_target, keep_from_parser, master_playlist, decimal, find_intermediate_path, find_media_url, iframe_url,
    interpret, intermediate_url, is_master_playlist, media_url, observation, should_observe,
    streams_from_variants, wait_outcome, Action, DirectFetch, DirectStage, DirectStep, Event,
    MediaType, ObservationSlot, Phase, Resolution, ResolveError, ResolvedMedia, Variant,
};

const MASTER: &str = "#EXTM3U\n\
#EXT-X-STREAM-INF:BANDWIDTH=5000000,RESOLUTION=1920x1080\n\
1080/index.m3u8\n\
#EXT-X-STREAM-INF:BANDWIDTH=2800000,RESOLUTION=1280x720\n\
720/index.m3u8\n\
#EXT-X-STREAM-INF:BANDWIDTH=1400000,RESOLUTION=842x480\n\
480/index.m3u8\n";

const MEDIA: &str = "#EXTM3U\n#EXT-X-TARGETDURATION:10\n#EXTINF:10,\nseg0.ts\n#EXT-X-ENDLIST\n";

fn media(url: &str, master: bool) -> ResolvedMedia {
    ResolvedMedia { url: url.to_string(), master }
}

#[test]
fn movie_target() {
    assert_eq!(build_target(MediaType::Movie, "tt1").unwrap(), "https://vidsrc.xyz/embed/movie/tt1");
}

#[test]
fn series_target() {
    assert_eq!(build_target(MediaType::Series, "tt1:2:3").unwrap(), "https://vidsrc.xyz/embed/tv/tt1/2-3");
    assert_eq!(
        build_target(MediaType::Series, "tt0903747:5:14").unwrap(),
        "https://vidsrc.xyz/embed/tv/tt0903747/5-14"
    );
}

#[test]
fn series_target_malformed() {
    for id in ["tt1", "tt1:2", "tt1:2:3:4", "", "::::"] {
        assert_eq!(build_target(MediaType::Series, id).unwrap_err(), ResolveError::MalformedInput);
    }
    assert_eq!(build_target(MediaType::Series, "::").unwrap(), "https://vidsrc.xyz/embed/tv//-");
}

#[test]
fn malformed_series_starts_no_resolution() {
    assert_eq!(Resolution::new(MediaType::Series, "tt1:2").err(), Some(ResolveError::MalformedInput));
    let r = Resolution::new(MediaType::Series, "tt1:2:3").unwrap();
    assert_eq!(r.target, "https://vidsrc.xyz/embed/tv/tt1/2-3");
    assert_eq!(r.phase, Phase::Direct);
}

#[test]
fn decimal_rendering() {
    assert_eq!(decimal(0), "0");
    assert_eq!(decimal(7), "7");
    assert_eq!(decimal(1080), "1080");
    assert_eq!(decimal(18446744073709551615), "18446744073709551615");
}

#[test]
fn intermediate_path_found() {
    let text = "var a = 1; src: '/prorcp/AbC123==' ; other";
    assert_eq!(find_intermediate_path(text).unwrap(), "/prorcp/AbC123==");
    assert_eq!(find_intermediate_path("x /prorcp/").unwrap(), "/prorcp/");
    assert_eq!(find_intermediate_path("no marker here /rcp/abc"), None);
}

#[test]
fn intermediate_url_resolved() {
    let u = intermediate_url("https://cloud.example/rcp/xyz", "<a href=\"/prorcp/tok\">").unwrap();
    assert_eq!(u, "https://cloud.example/prorcp/tok");
    assert_eq!(intermediate_url("https://cloud.example/rcp/xyz", "nothing"), Err(ResolveError::ExtractionFailure));
}

#[test]
fn media_url_plain() {
    let text = "player({ file: \"https://cdn.example/v/master.m3u8\", autoplay: true })";
    assert_eq!(find_media_url(text).unwrap(), "https://cdn.example/v/master.m3u8");
    assert_eq!(find_media_url("file:'https://a.b/c.mp4'").unwrap(), "https://a.b/c.mp4");
}

#[test]
fn media_url_skips_decoy() {
    let text = "//var v = { file: 'https://decoy.example/fake.m3u8' };\nvar p = { file: 'https://cdn.example/real.m3u8' };";
    assert_eq!(find_media_url(text).unwrap(), "https://cdn.example/real.m3u8");
    let same_line = "//v file:\"https://decoy.example/a\" file:\"https://decoy.example/b\"\r file:\"https://ok.example/c\"";
    assert_eq!(find_media_url(same_line).unwrap(), "https://ok.example/c");
}

#[test]
fn media_url_missing() {
    assert_eq!(find_media_url("no key at all"), None);
    assert_eq!(find_media_url("file: \"\""), None);
    assert_eq!(find_media_url("//v only file: 'x'"), None);
    assert_eq!(media_url("file x"), Err(ResolveError::ExtractionFailure));
}

#[test]
fn iframe_found_and_resolved() {
    let html = "<html><body><iframe id=\"player_iframe\" src=\"//cloud.example/rcp/abc\"></iframe></body></html>";
    let u = iframe_url("https://vidsrc.xyz/embed/movie/tt1", html).unwrap();
    assert_eq!(u, "https://cloud.example/rcp/abc");
}

#[test]
fn iframe_missing() {
    let html = "<html><body><iframe id=\"other\" src=\"//x\"></iframe></body></html>";
    assert_eq!(iframe_url("https://vidsrc.xyz/embed/movie/tt1", html), Err(ResolveError::ExtractionFailure));
}

#[test]
fn master_detection() {
    assert!(is_master_playlist(MASTER));
    assert!(!is_master_playlist(MEDIA));
    assert!(!is_master_playlist("<html>not a playlist</html>"));
}

#[test]
fn master_playlist_streams() {
    let base = "https://cdn.example/hls/master.m3u8";
    let streams = interpret(&media(base, true), MASTER).unwrap();
    assert_eq!(streams.len(), 3);
    assert_eq!(streams[0].quality, "1080p");
    assert_eq!(streams[1].quality, "720p");
    assert_eq!(streams[2].quality, "480p");
    assert_eq!(streams[0].url, "https://cdn.example/hls/1080/index.m3u8");
    assert_eq!(streams[1].url, "https://cdn.example/hls/720/index.m3u8");
    assert_eq!(streams[2].url, "https://cdn.example/hls/480/index.m3u8");
}

#[test]
fn single_stream_unchanged() {
    let url = "https://cdn.example/v/Movie%20File.mp4?x=1&y=2";
    let streams = interpret(&media(url, false), "").unwrap();
    assert_eq!(streams.len(), 1);
    assert_eq!(streams[0].url, url);
    assert_eq!(streams[0].quality, "Unknown");
}

#[test]
fn master_that_no_longer_parses() {
    let r = interpret(&media("https://cdn.example/m.m3u8", true), MEDIA);
    assert_eq!(r.err(), Some(ResolveError::PlaylistParseFailure));
}

#[test]
fn iframe_only_variant_fails() {
    let text = "#EXTM3U\n\
#EXT-X-STREAM-INF:BANDWIDTH=5000000,RESOLUTION=1920x1080\n\
1080/index.m3u8\n\
#EXT-X-I-FRAME-STREAM-INF:BANDWIDTH=86000,URI=\"iframe.m3u8\"\n";
    let r = interpret(&media("https://cdn.example/m.m3u8", true), text);
    assert_eq!(r.err(), Some(ResolveError::UnsupportedVariant));
}

#[test]
fn variants_without_resolution_or_bad_base() {
    let v = vec![Variant { iframe: false, uri: "a.m3u8".to_string(), height: None }];
    assert_eq!(streams_from_variants("https://x.example/", &v).err(), Some(ResolveError::UnsupportedVariant));
    let v = vec![Variant { iframe: false, uri: "a.m3u8".to_string(), height: Some(360) }];
    assert_eq!(streams_from_variants("not a url", &v).err(), Some(ResolveError::InvalidUrl));
    let s = streams_from_variants("https://x.example/p/m.m3u8", &v).unwrap();
    assert_eq!(s[0].url, "https://x.example/p/a.m3u8");
    assert_eq!(s[0].quality, "360p");
    assert!(streams_from_variants("https://x.example/", &vec![]).unwrap().is_empty());
}

#[test]
fn direct_pipeline_walk() {
    let mut d = DirectFetch::new("https://vidsrc.xyz/embed/movie/tt1");
    assert_eq!(d.stage, DirectStage::Embed);
    let step = d.on_body("<iframe id=\"player_iframe\" src=\"//cloud.example/rcp/abc\"></iframe>");
    assert!(matches!(step, DirectStep::Fetch(ref u) if u == "https://cloud.example/rcp/abc"));
    let step = d.on_body("load('/prorcp/TOKEN')");
    assert!(matches!(step, DirectStep::Fetch(ref u) if u == "https://cloud.example/prorcp/TOKEN"));
    let step = d.on_body("//v file:'https://decoy/x'\nfile: 'https://cdn.example/m.m3u8'");
    assert!(matches!(step, DirectStep::Fetch(ref u) if u == "https://cdn.example/m.m3u8"));
    assert_eq!(d.stage, DirectStage::Media);
    match d.on_body(MASTER) {
        DirectStep::Resolved(m) => {
            assert_eq!(m.url, "https://cdn.example/m.m3u8");
            assert!(m.master);
        }
        other => panic!("unexpected step {:?}", other),
    }
    assert_eq!(d.stage, DirectStage::Finished);
}

#[test]
fn direct_pipeline_missing_iframe() {
    let mut d = DirectFetch::new("https://vidsrc.xyz/embed/movie/tt1");
    let step = d.on_body("<html><body>nothing</body></html>");
    assert!(matches!(step, DirectStep::Failed(ResolveError::ExtractionFailure)));
    assert_eq!(d.stage, DirectStage::Finished);
    let mut d = DirectFetch::new("https://vidsrc.xyz/embed/movie/tt1");
    assert!(matches!(d.on_fetch_error(), DirectStep::Failed(ResolveError::ExtractionFailure)));
}

#[test]
fn fallback_runs_browser_once() {
    let mut r = Resolution::new(MediaType::Movie, "tt1").unwrap();
    assert!(matches!(r.step(Event::DirectDone(Err(ResolveError::ExtractionFailure))), Action::RunBrowser));
    assert_eq!(r.phase, Phase::Browser);
    let got = r.step(Event::BrowserDone(Ok(media("https://cdn.example/m.m3u8", false))));
    match got {
        Action::Deliver(Ok(m)) => assert_eq!(m.url, "https://cdn.example/m.m3u8"),
        other => panic!("unexpected action {:?}", other),
    }
    assert_eq!(r.phase, Phase::Finished);
    assert!(matches!(r.step(Event::DirectDone(Err(ResolveError::ExtractionFailure))), Action::Ignore));
}

#[test]
fn fallback_delivers_browser_error() {
    let mut r = Resolution::new(MediaType::Movie, "tt1").unwrap();
    assert!(matches!(r.step(Event::DirectDone(Err(ResolveError::ExtractionFailure))), Action::RunBrowser));
    let got = r.step(Event::BrowserDone(Err(ResolveError::ObservationTimeout)));
    assert!(matches!(got, Action::Deliver(Err(ResolveError::ObservationTimeout))));
}

#[test]
fn direct_success_delivered() {
    let mut r = Resolution::new(MediaType::Movie, "tt1").unwrap();
    let got = r.step(Event::DirectDone(Ok(media("https://cdn.example/a.mp4", false))));
    assert!(matches!(got, Action::Deliver(Ok(_))));
    assert!(matches!(r.step(Event::BrowserDone(Err(ResolveError::ElementNotFound))), Action::Ignore));
}

#[test]
fn observation_timeout() {
    let mut slot = ObservationSlot::new();
    assert!(slot.is_empty());
    assert_eq!(wait_outcome(slot.take()).err(), Some(ResolveError::ObservationTimeout));
}

#[test]
fn observation_latest_wins() {
    let mut slot = ObservationSlot::new();
    slot.publish(observation("https://cdn.example/a.m3u8".to_string(), MEDIA));
    slot.publish(observation("https://cdn.example/master.m3u8".to_string(), MASTER));
    assert!(!slot.is_empty());
    let m = wait_outcome(slot.take()).unwrap();
    assert_eq!(m.url, "https://cdn.example/master.m3u8");
    assert!(m.master);
    assert!(slot.is_empty());
}

#[test]
fn observer_filter() {
    assert!(should_observe("https://cdn.example/x/index.m3u8?t=1"));
    assert!(!should_observe("https://cdn.example/x/seg1.ts"));
    assert!(!should_observe("m3u"));
}

#[test]
fn iframe_src_scheme() {
    assert_eq!(absolute_iframe_url("//cloud.example/rcp/a"), "http://cloud.example/rcp/a");
    assert_eq!(absolute_iframe_url("https://cloud.example/rcp/a"), "https://cloud.example/rcp/a");
}

#[test]
fn lone_quote_value_is_no_master_playlist() {
    let text = "#EXTM3U\n#EXT-X-STREAM-INF:AUDIO=\"\nv.m3u8\n";
    assert!(keep_from_parser(text));
    assert!(!is_master_playlist(text));
    assert!(master_playlist(text).is_none());
    let r = interpret(&media("https://cdn.example/m.m3u8", true), text);
    assert_eq!(r.err(), Some(ResolveError::PlaylistParseFailure));
    assert!(keep_from_parser("#EXTM3U\n#EXT-X-STREAM-INF:BANDWIDTH=1,AUDIO= \" \r\nv.m3u8"));
    assert!(keep_from_parser("#EXTM3U#EXT-X-MEDIA:X=\""));
}

#[test]
fn segment_tags_are_no_master_playlist() {
    for text in [
        "#EXTM3U\n#EXTINF:-1,\nx",
        "#EXTM3U\n  #EXT-X-DATERANGE:ID=\"a\",DURATION=-1\n",
        "#EXTM3U\n#EXT-X-BYTERANGE:18446744073709551615@1\n",
        "#EXTM3U#EXTINF:-1,\nx",
        "#EXTM3U\n#EXT-X-MAP:URI=\"i.mp4\"\n",
    ] {
        assert!(keep_from_parser(text));
        assert!(!is_master_playlist(text));
    }
    assert!(keep_from_parser("no header\n"));
    assert!(keep_from_parser(MEDIA));
}

#[test]
fn quoted_values_are_no_lone_quote() {
    assert!(!keep_from_parser(MASTER));
    assert!(!keep_from_parser("#EXTM3U\n#EXT-X-MEDIA:TYPE=AUDIO,NAME=\"a= \"\n"));
    assert!(!keep_from_parser("#EXTM3U\n#EXT-X-MEDIA:NAME=\u{feff}\"\n"));
    assert!(!keep_from_parser("#EXTM3U\nuri=\"\n"));
    assert!(!keep_from_parser("  \n#EXTM3U\n"));
    let text = "#EXTM3U\n#EXT-X-STREAM-INF:BANDWIDTH=1,CODECS=\"avc1.42e00a,mp4a.40.2\",RESOLUTION=640x360\nlow.m3u8\n";
    assert!(!keep_from_parser(text));
    assert!(is_master_playlist(text));
    assert_eq!(master_playlist(text).unwrap().len(), 1);
}

#[test]
fn direct_pipeline_decoy_page() {
    let mut d = DirectFetch::new("https://vidsrc.xyz/embed/movie/tt1");
    d.on_body("<iframe id=\"player_iframe\" src=\"//cloud.example/rcp/abc\"></iframe>");
    d.on_body("load('/prorcp/TOKEN')");
    let page = "//var a = {file: 'https://decoy.example/a.m3u8'};\nvar b = {file: 'https://real.example/b.m3u8'};";
    let step = d.on_body(page);
    assert!(matches!(step, DirectStep::Fetch(ref u) if u == "https://real.example/b.m3u8"));
    match d.on_body(MEDIA) {
        DirectStep::Resolved(m) => {
            assert_eq!(m.url, "https://real.example/b.m3u8");
            assert!(!m.master);
        }
        other => panic!("unexpected step {:?}", other),
    }
}

use lumi_downloader::playlist::{
    entry_from_fields, expand_with_url, parse_playlist_output, playlist_args, resolve_args,
    resolve_tiktok_user, tiktok_fallback, tiktok_username, CommandReport, ExpandAction, ExpandStage,
    JsonFields, PlaylistEntry, PlaylistExpansion,
};

const UNSUPPORTED: &str = "TikTok user profiles are not supported yet. Try pasting individual video URLs instead, or enable Firefox cookies.";

fn s(x: &str) -> String {
    x.to_string()
}

fn strings(xs: &[&str]) -> Vec<String> {
    xs.iter().map(|x| x.to_string()).collect()
}

fn no_fields() -> JsonFields {
    JsonFields { id: None, title: None, webpage_url: None, url: None, duration: None, thumbnail: None }
}

fn entries(r: Result<Vec<PlaylistEntry>, String>) -> Vec<PlaylistEntry> {
    match r {
        Ok(v) => v,
        Err(e) => panic!("unexpected error {e}"),
    }
}

#[test]
fn entry_needs_an_id() {
    assert!(entry_from_fields(no_fields()).is_none());
    let f = JsonFields { id: Some(s("")), title: Some(s("t")), ..no_fields() };
    assert!(entry_from_fields(f).is_none());
}

#[test]
fn entry_defaults_title_and_url() {
    let f = JsonFields { id: Some(s("123")), ..no_fields() };
    let e = entry_from_fields(f).unwrap();
    assert_eq!(e.id, "123");
    assert_eq!(e.title, "Unknown Title");
    assert_eq!(e.url, "https://www.tiktok.com/@/video/123");
    assert_eq!(e.duration, None);
    assert_eq!(e.thumbnail, None);
}

#[test]
fn entry_prefers_webpage_url_then_url() {
    let f = JsonFields { id: Some(s("a")), webpage_url: Some(s("https://w/a")), url: Some(s("https://u/a")), ..no_fields() };
    assert_eq!(entry_from_fields(f).unwrap().url, "https://w/a");
    let f = JsonFields { id: Some(s("a")), url: Some(s("https://u/a")), ..no_fields() };
    assert_eq!(entry_from_fields(f).unwrap().url, "https://u/a");
}

#[test]
fn playlist_output_reads_json_lines() {
    let out = [
        "{\"id\":\"v1\",\"title\":\"First\",\"webpage_url\":\"https://x/v1\",\"duration\":12.5,\"thumbnail\":\"https://t/1.jpg\"}\n",
        "\n",
        "not json at all\n",
        "  {\"id\":\"v2\",\"url\":\"https://x/v2\",\"duration\":42}  \r\n",
        "{\"title\":\"no id\"}\n",
        "{\"id\":\"\",\"title\":\"empty id\"}\n",
        "[1,2,3]\n",
        "{\"id\":\"v3\",\"title\":7,\"duration\":\"long\"}",
    ]
    .join("");
    let v = entries(parse_playlist_output(out.as_bytes()));
    assert_eq!(v.len(), 3);
    assert_eq!(v[0].id, "v1");
    assert_eq!(v[0].title, "First");
    assert_eq!(v[0].url, "https://x/v1");
    assert_eq!(v[0].duration, Some(s("12.5")));
    assert_eq!(v[0].thumbnail, Some(s("https://t/1.jpg")));
    assert_eq!(v[1].id, "v2");
    assert_eq!(v[1].title, "Unknown Title");
    assert_eq!(v[1].url, "https://x/v2");
    assert_eq!(v[1].duration, Some(s("42")));
    assert_eq!(v[2].id, "v3");
    assert_eq!(v[2].title, "Unknown Title");
    assert_eq!(v[2].url, "https://www.tiktok.com/@/video/v3");
    assert_eq!(v[2].duration, None);
}

#[test]
fn playlist_output_empty_is_ok() {
    assert_eq!(entries(parse_playlist_output(b"")).len(), 0);
    assert_eq!(entries(parse_playlist_output(b"\n\n  \n")).len(), 0);
}

#[test]
fn playlist_output_survives_invalid_utf8() {
    let mut out = b"{\"id\":\"v\xff1\"}\n".to_vec();
    out.extend_from_slice(b"{\"id\":\"ok\"}\n");
    let v = entries(parse_playlist_output(&out));
    assert_eq!(v.len(), 2);
    assert_eq!(v[0].id, "v\u{FFFD}1");
    assert_eq!(v[1].id, "ok");
}

#[test]
fn listing_args_with_and_without_cookies() {
    assert_eq!(
        playlist_args("https://p/l", ""),
        strings(&["--flat-playlist", "--dump-json", "--no-warnings", "https://p/l"])
    );
    assert_eq!(
        playlist_args("https://p/l", "none"),
        strings(&["--flat-playlist", "--dump-json", "--no-warnings", "https://p/l"])
    );
    assert_eq!(
        playlist_args("https://p/l", "firefox"),
        strings(&["--flat-playlist", "--dump-json", "--no-warnings", "--cookies-from-browser", "firefox", "https://p/l"])
    );
}

#[test]
fn user_lookup_args() {
    assert_eq!(
        resolve_args("some.user", "chrome"),
        strings(&[
            "--print", "channel_id", "--playlist-items", "1", "--no-warnings",
            "--cookies-from-browser", "chrome", "https://www.tiktok.com/@some.user"
        ])
    );
    assert_eq!(
        resolve_args("u", "none"),
        strings(&["--print", "channel_id", "--playlist-items", "1", "--no-warnings", "https://www.tiktok.com/@u"])
    );
}

#[test]
fn tiktok_profile_urls() {
    assert_eq!(tiktok_username("https://www.tiktok.com/@some.user"), Some(s("some.user")));
    assert_eq!(tiktok_username("HTTP://TikTok.COM/@A_b-c/video/1"), Some(s("A_b-c")));
    assert_eq!(tiktok_username("http://tiktok.com/@x?lang=en"), Some(s("x")));
    assert_eq!(tiktok_username("https://www.youtube.com/@someone"), None);
    assert_eq!(tiktok_username("see https://www.tiktok.com/@late"), None);
    assert_eq!(tiktok_username("https://www.tiktok.com/@"), None);
}

#[test]
fn user_lookup_outcomes() {
    let ok = CommandReport::Exited { success: true, stdout: b" MS4wLjAB \n".to_vec(), stderr: vec![] };
    assert_eq!(resolve_tiktok_user(&ok), Ok(s("tiktokuser:MS4wLjAB")));
    let na = CommandReport::Exited { success: true, stdout: b"NA\n".to_vec(), stderr: vec![] };
    assert_eq!(resolve_tiktok_user(&na), Err(s("Could not resolve TikTok user")));
    let empty = CommandReport::Exited { success: true, stdout: b"  \n".to_vec(), stderr: vec![] };
    assert_eq!(resolve_tiktok_user(&empty), Err(s("Could not resolve TikTok user")));
    let failed = CommandReport::Exited { success: false, stdout: b"abc".to_vec(), stderr: vec![] };
    assert_eq!(resolve_tiktok_user(&failed), Err(s("Could not resolve TikTok user")));
    let spawn = CommandReport::SpawnFailed(s("no such file"));
    assert_eq!(resolve_tiktok_user(&spawn), Err(s("Failed to resolve TikTok user: no such file")));
}

#[test]
fn listing_outcomes() {
    let spawn = CommandReport::SpawnFailed(s("denied"));
    assert_eq!(expand_with_url(spawn).err(), Some(s("Failed to run yt-dlp: denied")));
    let failed = CommandReport::Exited { success: false, stdout: vec![], stderr: b"ERROR: bad".to_vec() };
    assert_eq!(expand_with_url(failed).err(), Some(s("yt-dlp error: ERROR: bad")));
    let ok = CommandReport::Exited { success: true, stdout: b"{\"id\":\"z\"}".to_vec(), stderr: b"warn".to_vec() };
    let v = entries(expand_with_url(ok));
    assert_eq!(v.len(), 1);
    assert_eq!(v[0].id, "z");
}

#[test]
fn fallback_step_without_user() {
    match tiktok_fallback(None, "firefox") {
        (ExpandStage::Finished, ExpandAction::Finish(Err(e))) => assert_eq!(e, UNSUPPORTED),
        _ => panic!("expected the unsupported answer"),
    }
    match tiktok_fallback(Some(s("bob")), "") {
        (ExpandStage::ResolvingUser, ExpandAction::Run(args)) => {
            assert_eq!(args.last().unwrap(), "https://www.tiktok.com/@bob")
        }
        _ => panic!("expected a lookup run"),
    }
}

fn run_args(a: ExpandAction) -> Vec<String> {
    match a {
        ExpandAction::Run(args) => args,
        ExpandAction::Finish(_) => panic!("expected a run"),
    }
}

fn finish(a: ExpandAction) -> Result<Vec<PlaylistEntry>, String> {
    match a {
        ExpandAction::Finish(r) => r,
        ExpandAction::Run(_) => panic!("expected an answer"),
    }
}

const MARKER_ERR: &[u8] = b"ERROR: [tiktok:user] some: Unable to extract secondary user ID; please report";

#[test]
fn expansion_resolves_tiktok_user() {
    let (mut x, first) = PlaylistExpansion::start(s("https://www.tiktok.com/@some"), s("firefox"));
    assert_eq!(
        first,
        strings(&["--flat-playlist", "--dump-json", "--no-warnings", "--cookies-from-browser", "firefox", "https://www.tiktok.com/@some"])
    );
    let r = x.step(CommandReport::Exited { success: false, stdout: vec![], stderr: MARKER_ERR.to_vec() });
    assert_eq!(
        run_args(r),
        strings(&[
            "--print", "channel_id", "--playlist-items", "1", "--no-warnings",
            "--cookies-from-browser", "firefox", "https://www.tiktok.com/@some"
        ])
    );
    let r = x.step(CommandReport::Exited { success: true, stdout: b"SEC123\n".to_vec(), stderr: vec![] });
    assert_eq!(
        run_args(r),
        strings(&["--flat-playlist", "--dump-json", "--no-warnings", "--cookies-from-browser", "firefox", "tiktokuser:SEC123"])
    );
    let r = x.step(CommandReport::Exited { success: true, stdout: b"{\"id\":\"1\"}\n{\"id\":\"2\"}\n".to_vec(), stderr: vec![] });
    let v = entries(finish(r));
    assert_eq!(v.len(), 2);
    assert_eq!(v[1].url, "https://www.tiktok.com/@/video/2");
    assert!(x.is_finished());
}

#[test]
fn expansion_failed_lookup_is_unsupported() {
    let (mut x, _) = PlaylistExpansion::start(s("https://www.tiktok.com/@some"), s(""));
    let _ = run_args(x.step(CommandReport::Exited { success: false, stdout: vec![], stderr: MARKER_ERR.to_vec() }));
    let r = x.step(CommandReport::Exited { success: true, stdout: b"NA".to_vec(), stderr: vec![] });
    assert_eq!(finish(r).err(), Some(s(UNSUPPORTED)));
    let (mut y, _) = PlaylistExpansion::start(s("https://www.tiktok.com/@some"), s(""));
    let _ = run_args(y.step(CommandReport::Exited { success: false, stdout: vec![], stderr: MARKER_ERR.to_vec() }));
    let r = y.step(CommandReport::SpawnFailed(s("gone")));
    assert_eq!(finish(r).err(), Some(s(UNSUPPORTED)));
}

#[test]
fn expansion_marker_on_other_site_is_unsupported() {
    let (mut x, _) = PlaylistExpansion::start(s("https://example.com/list"), s(""));
    let r = x.step(CommandReport::Exited { success: false, stdout: vec![], stderr: MARKER_ERR.to_vec() });
    assert_eq!(finish(r).err(), Some(s(UNSUPPORTED)));
}

#[test]
fn expansion_plain_failure_and_success() {
    let (mut x, _) = PlaylistExpansion::start(s("https://example.com/list"), s(""));
    let r = x.step(CommandReport::Exited { success: false, stdout: vec![], stderr: b"ERROR: 404".to_vec() });
    assert_eq!(finish(r).err(), Some(s("yt-dlp error: ERROR: 404")));
    let (mut y, _) = PlaylistExpansion::start(s("https://example.com/list"), s(""));
    let r = y.step(CommandReport::Exited { success: true, stdout: b"{\"id\":\"q\",\"title\":\"Q\"}".to_vec(), stderr: vec![] });
    let v = entries(finish(r));
    assert_eq!(v[0].title, "Q");
    let (mut z, _) = PlaylistExpansion::start(s("https://example.com/list"), s(""));
    let r = z.step(CommandReport::SpawnFailed(s("missing")));
    assert_eq!(finish(r).err(), Some(s("Failed to run yt-dlp: missing")));
}

#[test]
fn resolved_listing_has_no_second_fallback() {
    let (mut x, _) = PlaylistExpansion::start(s("https://www.tiktok.com/@some"), s(""));
    let _ = run_args(x.step(CommandReport::Exited { success: false, stdout: vec![], stderr: MARKER_ERR.to_vec() }));
    let _ = run_args(x.step(CommandReport::Exited { success: true, stdout: b"ID".to_vec(), stderr: vec![] }));
    let r = x.step(CommandReport::Exited { success: false, stdout: vec![], stderr: MARKER_ERR.to_vec() });
    let msg = finish(r).err().unwrap();
    assert!(msg.starts_with("yt-dlp error: ERROR: [tiktok:user]"));
}

fn ids(out: &[u8]) -> Vec<String> {
    entries(parse_playlist_output(out)).into_iter().map(|e| e.id).collect()
}

#[test]
fn joined_outputs_parse_to_joined_entries() {
    let cases: [(&[u8], &[u8]); 4] = [
        (b"{\"id\":\"a\"}\r", b"{\"id\":\"b\"}\n"),
        (b"{\"id\":\"a\"}\n", b"{\"id\":\"b\"}"),
        (b"", b"{\"id\":\"b\"}\n{\"id\":\"c\"}"),
        (b"{\"id\":\"a\"}\n{\"id\":", b"\"x\"}"),
    ];
    for (a, b) in cases {
        let joined = [a, b"\n", b].concat();
        let mut expected = ids(a);
        expected.extend(ids(b));
        assert_eq!(ids(&joined), expected);
    }
}

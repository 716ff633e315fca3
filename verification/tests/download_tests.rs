use lumi_downloader::download::{
    build_args, format_for, DownloadMonitor, DownloadRequest, JobUpdate, LineKind, MonitorStep, Stream,
};
use lumi_downloader::text::output_lines_of;

fn s(x: &str) -> String {
    x.to_string()
}

fn request(audio_only: bool, resolution: &str, cookies: &str) -> DownloadRequest {
    DownloadRequest {
        job_id: s("job-1"),
        url: s("https://www.youtube.com/watch?v=abc"),
        output_dir: s("/home/me/Videos"),
        audio_only,
        resolution: s(resolution),
        cookies_browser: s(cookies),
    }
}

const COMMON: [&str; 18] = [
    "--newline",
    "--no-colors",
    "--encoding",
    "utf-8",
    "--no-playlist",
    "--progress",
    "--progress-template",
    "download:YTDLP_PROG:%(progress._percent_str)s:%(progress._total_bytes_str)s:%(progress._speed_str)s:%(progress._eta_str)s",
    "--replace-in-metadata",
    "title",
    "[/\\\\:*?\"<>|]",
    "",
    "--replace-in-metadata",
    "title",
    "^[\\s.]+|[\\s.]+$",
    "",
    "-o",
    "/home/me/Videos/%(title)s.%(ext)s",
];

const REPORT: [&str; 6] = [
    "--embed-thumbnail",
    "--add-metadata",
    "--print",
    "before_dl:YTDL_TITLE:%(title)s",
    "--print",
    "after_move:YTDL_FINAL:%(filepath)s",
];

fn expected(media: &[&str], tail: &[&str]) -> Vec<String> {
    let mut v: Vec<String> = COMMON.iter().map(|x| s(x)).collect();
    v.extend(media.iter().map(|x| s(x)));
    v.extend(REPORT.iter().map(|x| s(x)));
    v.extend(tail.iter().map(|x| s(x)));
    v
}

#[test]
fn audio_download_args() {
    let args = build_args(&request(true, "720", ""), None, None);
    assert_eq!(
        args,
        expected(
            &["--extract-audio", "--audio-format", "mp3", "--audio-quality", "0"],
            &["https://www.youtube.com/watch?v=abc"]
        )
    );
}

#[test]
fn best_video_download_args() {
    for res in ["best", ""] {
        let args = build_args(&request(false, res, ""), None, None);
        assert_eq!(
            args,
            expected(
                &["--format", "bestvideo+bestaudio/best", "--merge-output-format", "mp4"],
                &["https://www.youtube.com/watch?v=abc"]
            )
        );
    }
}

#[test]
fn limited_video_download_args_with_helpers_and_cookies() {
    let args = build_args(&request(false, "1080", "firefox"), Some(s("/usr/bin")), Some(s("/usr/bin/node")));
    assert_eq!(
        args,
        expected(
            &["--format", "bestvideo[height<=1080]+bestaudio/best[height<=1080]", "--merge-output-format", "mp4"],
            &[
                "--ffmpeg-location",
                "/usr/bin",
                "--js-runtimes",
                "node:/usr/bin/node",
                "--cookies-from-browser",
                "firefox",
                "https://www.youtube.com/watch?v=abc"
            ]
        )
    );
}

#[test]
fn cookie_browser_none_is_passed_on_for_downloads() {
    let args = build_args(&request(true, "", "none"), None, None);
    let n = args.len();
    assert_eq!(args[n - 3], "--cookies-from-browser");
    assert_eq!(args[n - 2], "none");
}

#[test]
fn format_selectors() {
    assert_eq!(format_for("best"), "bestvideo+bestaudio/best");
    assert_eq!(format_for(""), "bestvideo+bestaudio/best");
    assert_eq!(format_for("480"), "bestvideo[height<=480]+bestaudio/best[height<=480]");
    assert_eq!(format_for("Best"), "bestvideo[height<=Best]+bestaudio/best[height<=Best]");
}

fn done(step: MonitorStep) -> (bool, Option<String>) {
    assert!(step.finished);
    match step.emit {
        Some(JobUpdate::Done { success, error }) => (success, error),
        _ => panic!("expected a done event"),
    }
}

#[test]
fn monitor_emits_events_for_stdout_lines() {
    let mut m = DownloadMonitor::new();
    let r = m.on_line(Stream::Stdout, s("YTDLP_PROG: 10%"), LineKind::Progress);
    assert!(matches!(r.emit, Some(JobUpdate::Progress)) && !r.finished);
    let r = m.on_line(Stream::Stdout, s("t"), LineKind::Title(s("My video")));
    assert!(matches!(r.emit, Some(JobUpdate::Title(ref t)) if t == "My video"));
    let r = m.on_line(Stream::Stdout, s("p"), LineKind::FinalPath(s("/v/My video.mp4")));
    assert!(matches!(r.emit, Some(JobUpdate::FilePath(ref p)) if p == "/v/My video.mp4"));
    let r = m.on_line(Stream::Stdout, s("[Merger]"), LineKind::Merging);
    assert!(matches!(r.emit, Some(JobUpdate::Merging)));
    let r = m.on_line(Stream::Stdout, s("[info] something"), LineKind::Other);
    assert!(r.emit.is_none() && !r.finished);
    let (success, error) = done(m.on_exit(Some(0), false));
    assert!(success);
    assert_eq!(error, None);
}

#[test]
fn monitor_already_downloaded_finishes() {
    let mut m = DownloadMonitor::new();
    let (success, error) = done(m.on_line(Stream::Stdout, s("has already been downloaded"), LineKind::AlreadyDownloaded));
    assert!(success);
    assert_eq!(error, None);
}

#[test]
fn monitor_collects_stderr_errors() {
    let mut m = DownloadMonitor::new();
    let r = m.on_line(Stream::Stderr, s("YTDLP_PROG: 50%"), LineKind::Progress);
    assert!(matches!(r.emit, Some(JobUpdate::Progress)));
    let r = m.on_line(Stream::Stderr, s("WARNING: slow"), LineKind::Other);
    assert!(r.emit.is_none());
    let r = m.on_line(Stream::Stderr, s(""), LineKind::Other);
    assert!(r.emit.is_none());
    let r = m.on_line(Stream::Stderr, s("title on stderr"), LineKind::Title(s("x")));
    assert!(r.emit.is_none() && !r.finished);
    let r = m.on_line(Stream::Stderr, s("already"), LineKind::AlreadyDownloaded);
    assert!(r.emit.is_none() && !r.finished);
    let r = m.on_line(Stream::Stdout, s("[info] ignored"), LineKind::Other);
    assert!(r.emit.is_none());
    let r = m.on_line(Stream::Stderr, s("ERROR: Unsupported URL"), LineKind::Other);
    assert!(r.emit.is_none());
    let (success, error) = done(m.on_exit(Some(1), false));
    assert!(!success);
    assert_eq!(error, Some(s("WARNING: slow\ntitle on stderr\nalready\nERROR: Unsupported URL")));
}

#[test]
fn monitor_failure_without_errors_and_unknown_code() {
    let mut m = DownloadMonitor::new();
    let (success, error) = done(m.on_exit(None, false));
    assert!(!success);
    assert_eq!(error, Some(s("")));
}

#[test]
fn monitor_cancelled_job_reports_nothing() {
    let mut m = DownloadMonitor::new();
    let _ = m.on_line(Stream::Stderr, s("ERROR: x"), LineKind::Other);
    let r = m.on_exit(Some(1), true);
    assert!(r.finished);
    assert!(r.emit.is_none());
}

#[test]
fn output_chunks_split_into_trimmed_lines() {
    assert_eq!(
        output_lines_of(b"  a line \r\n\tsecond\n\nthird\r"),
        vec![s("a line"), s("second"), s(""), s("third")]
    );
    assert_eq!(output_lines_of(b""), Vec::<String>::new());
    assert_eq!(output_lines_of(b"\n"), vec![s("")]);
    assert_eq!(output_lines_of(b"x\n"), vec![s("x")]);
    assert_eq!(output_lines_of(b"\xe2\x80\x83wide\xc2\xa0\n"), vec![s("wide")]);
    assert_eq!(output_lines_of(b"bad\xffbyte"), vec![s("bad\u{FFFD}byte")]);
}

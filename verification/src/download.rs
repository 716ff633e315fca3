//! A download job: the yt-dlp command line for a request, and the decisions
//! taken on the lines that yt-dlp prints while it runs.

use vstd::prelude::*;
use crate::text::{chars_of, join_lines, join_lines_of, opt_view, same_chars, string_of, strings_view, views};

verus! {

/// A download as the front end asks for it.
pub struct DownloadRequest {
    pub job_id: String,
    pub url: String,
    pub output_dir: String,
    pub audio_only: bool,
    pub resolution: String,
    pub cookies_browser: String,
}

/// The progress line format asked of yt-dlp: a marker, then percentage,
/// total size, speed and time left, separated by `':'`.
pub open spec fn progress_template() -> Seq<char> {
    "download:YTDLP_PROG:%(progress._percent_str)s:%(progress._total_bytes_str)s:%(progress._speed_str)s:%(progress._eta_str)s"@
}

/// The options that every download gets first: line-wise uncoloured UTF-8
/// output, one video only, the progress format above, and titles cleaned
/// of characters that file systems refuse and of leading or trailing dots
/// and white space.
pub open spec fn common_args() -> Seq<Seq<char>> {
    seq![
        "--newline"@, "--no-colors"@, "--encoding"@, "utf-8"@, "--no-playlist"@, "--progress"@,
        "--progress-template"@, progress_template(),
        "--replace-in-metadata"@, "title"@, "[/\\\\:*?\"<>|]"@, ""@,
        "--replace-in-metadata"@, "title"@, "^[\\s.]+|[\\s.]+$"@, ""@,
    ]
}

/// The output file template: `<output_dir>/<title>.<ext>`.
pub open spec fn output_template(output_dir: Seq<char>) -> Seq<char> {
    output_dir + "/%(title)s.%(ext)s"@
}

/// The format selector for a resolution: the best streams, limited in
/// height unless the resolution is `"best"` or empty.
pub open spec fn format_selector(resolution: Seq<char>) -> Seq<char> {
    if resolution == "best"@ || resolution.len() == 0 {
        "bestvideo+bestaudio/best"@
    } else {
        "bestvideo[height<="@ + resolution + "]+bestaudio/best[height<="@ + resolution + "]"@
    }
}

/// Audio only: the best audio, converted to MP3; else video and audio
/// merged into MP4.
pub open spec fn media_args(audio_only: bool, resolution: Seq<char>) -> Seq<Seq<char>> {
    if audio_only {
        seq!["--extract-audio"@, "--audio-format"@, "mp3"@, "--audio-quality"@, "0"@]
    } else {
        seq!["--format"@, format_selector(resolution), "--merge-output-format"@, "mp4"@]
    }
}

/// Thumbnail and metadata embedded, the title printed before the download
/// and the final file path printed after all post-processing.
pub open spec fn report_args() -> Seq<Seq<char>> {
    seq![
        "--embed-thumbnail"@, "--add-metadata"@,
        "--print"@, "before_dl:YTDL_TITLE:%(title)s"@,
        "--print"@, "after_move:YTDL_FINAL:%(filepath)s"@,
    ]
}

/// An option with its value, when there is a value.
pub open spec fn opt_pair(flag: Seq<char>, value: Option<Seq<char>>) -> Seq<Seq<char>> {
    match value {
        Some(v) => seq![flag, v],
        None => seq![],
    }
}

/// Browser cookies are used when a browser is named.
pub open spec fn cookie_args(browser: Seq<char>) -> Seq<Seq<char>> {
    if browser.len() > 0 {
        seq!["--cookies-from-browser"@, browser]
    } else {
        seq![]
    }
}

/// The node runtime option value.
pub open spec fn node_runtime(node: Option<Seq<char>>) -> Option<Seq<char>> {
    match node {
        Some(n) => Some("node:"@ + n),
        None => None,
    }
}

/// The whole yt-dlp command line of a download, the URL last.
pub open spec fn download_args(
    req: &DownloadRequest,
    ffmpeg_dir: Option<Seq<char>>,
    node: Option<Seq<char>>,
) -> Seq<Seq<char>> {
    common_args() + seq!["-o"@, output_template(req.output_dir@)]
        + media_args(req.audio_only, req.resolution@)
        + report_args()
        + opt_pair("--ffmpeg-location"@, ffmpeg_dir)
        + opt_pair("--js-runtimes"@, node_runtime(node))
        + cookie_args(req.cookies_browser@)
        + seq![req.url@]
}

fn push_str(args: &mut Vec<String>, s: &str)
    ensures
        strings_view(final(args)@) == strings_view(old(args)@).push(s@),
{
    args.push(String::from_str(s));
}

fn push_string(args: &mut Vec<String>, s: String)
    ensures
        strings_view(final(args)@) == strings_view(old(args)@).push(s@),
{
    args.push(s);
}

/// The format selector for a resolution.
pub fn format_for(resolution: &str) -> (r: String)
    ensures
        r@ == format_selector(resolution@),
{
    let res = chars_of(resolution);
    let best = chars_of("best");
    if same_chars(&res, &best) || res.len() == 0 {
        String::from_str("bestvideo+bestaudio/best")
    } else {
        let s = String::from_str("bestvideo[height<=");
        let s = s.concat(resolution);
        let s = s.concat("]+bestaudio/best[height<=");
        let s = s.concat(resolution);
        s.concat("]")
    }
}

fn push_common(args: &mut Vec<String>)
    ensures
        strings_view(final(args)@) == strings_view(old(args)@) + common_args(),
{
    push_str(args, "--newline");
    push_str(args, "--no-colors");
    push_str(args, "--encoding");
    push_str(args, "utf-8");
    push_str(args, "--no-playlist");
    push_str(args, "--progress");
    push_str(args, "--progress-template");
    push_str(args, "download:YTDLP_PROG:%(progress._percent_str)s:%(progress._total_bytes_str)s:%(progress._speed_str)s:%(progress._eta_str)s");
    push_str(args, "--replace-in-metadata");
    push_str(args, "title");
    push_str(args, "[/\\\\:*?\"<>|]");
    push_str(args, "");
    push_str(args, "--replace-in-metadata");
    push_str(args, "title");
    push_str(args, "^[\\s.]+|[\\s.]+$");
    push_str(args, "");
}

fn push_media(args: &mut Vec<String>, req: &DownloadRequest)
    ensures
        strings_view(final(args)@) == strings_view(old(args)@) + media_args(req.audio_only, req.resolution@),
{
    if req.audio_only {
        push_str(args, "--extract-audio");
        push_str(args, "--audio-format");
        push_str(args, "mp3");
        push_str(args, "--audio-quality");
        push_str(args, "0");
    } else {
        push_str(args, "--format");
        push_string(args, format_for(req.resolution.as_str()));
        push_str(args, "--merge-output-format");
        push_str(args, "mp4");
    }
}

fn push_report(args: &mut Vec<String>)
    ensures
        strings_view(final(args)@) == strings_view(old(args)@) + report_args(),
{
    push_str(args, "--embed-thumbnail");
    push_str(args, "--add-metadata");
    push_str(args, "--print");
    push_str(args, "before_dl:YTDL_TITLE:%(title)s");
    push_str(args, "--print");
    push_str(args, "after_move:YTDL_FINAL:%(filepath)s");
}

fn push_opt_pair(args: &mut Vec<String>, flag: &str, value: Option<String>)
    ensures
        strings_view(final(args)@) == strings_view(old(args)@) + opt_pair(flag@, opt_view(value)),
{
    if let Some(v) = value {
        push_str(args, flag);
        push_string(args, v);
    }
}

fn runtime_of(node: Option<String>) -> (r: Option<String>)
    ensures
        opt_view(r) == node_runtime(opt_view(node)),
{
    match node {
        Some(n) => Some(String::from_str("node:").concat(n.as_str())),
        None => None,
    }
}

fn push_cookies(args: &mut Vec<String>, browser: &String)
    ensures
        strings_view(final(args)@) == strings_view(old(args)@) + cookie_args(browser@),
{
    if !browser.as_str().is_empty() {
        push_str(args, "--cookies-from-browser");
        push_string(args, browser.clone());
    }
}

/// The yt-dlp command line for a download; `ffmpeg_dir` and `node` are what
/// the searches of the helper programs found.
pub fn build_args(req: &DownloadRequest, ffmpeg_dir: Option<String>, node: Option<String>) -> (r: Vec<String>)
    ensures
        strings_view(r@) == download_args(req, opt_view(ffmpeg_dir), opt_view(node)),
        ffmpeg_dir matches Some(d) ==> exists|i: int|
            0 <= i && i + 1 < r@.len() && #[trigger] r@[i]@ == "--ffmpeg-location"@ && r@[i + 1]@ == d@,
        r@.len() > 0 && r@.last()@ == req.url@,
{
    let ghost fd = opt_view(ffmpeg_dir);
    let ghost nd = opt_view(node);
    proof {
        law_download_url_last(req, opt_view(ffmpeg_dir), opt_view(node));
        law_ffmpeg_location_given(req, opt_view(ffmpeg_dir), opt_view(node));
    }
    let mut args: Vec<String> = Vec::new();
    push_common(&mut args);
    push_str(&mut args, "-o");
    push_string(&mut args, String::from_str(req.output_dir.as_str()).concat("/%(title)s.%(ext)s"));
    push_media(&mut args, req);
    push_report(&mut args);
    push_opt_pair(&mut args, "--ffmpeg-location", ffmpeg_dir);
    push_opt_pair(&mut args, "--js-runtimes", runtime_of(node));
    push_cookies(&mut args, &req.cookies_browser);
    push_string(&mut args, req.url.clone());
    proof {
        let sv = strings_view(args@);
        assert(sv == download_args(req, fd, nd));
        assert(sv.len() == args@.len());
        assert(forall|i: int| 0 <= i < args@.len() ==> #[trigger] sv[i] == args@[i]@);
        if let Some(d) = fd {
            let i = choose|i: int| 0 <= i && i + 1 < sv.len() && #[trigger] sv[i] == "--ffmpeg-location"@ && sv[i + 1] == d;
            assert(args@[i]@ == "--ffmpeg-location"@ && args@[i + 1]@ == d);
        }
        assert(sv.last() == args@.last()@);
    }
    args
}


/// The output stream a line came from.
#[derive(Clone, Copy, PartialEq, Eq, Structural, Debug)]
pub enum Stream {
    Stdout,
    Stderr,
}

/// What the progress-line parser made of a trimmed output line. The
/// numbers of a progress line stay with the caller.
pub enum LineKind {
    Progress,
    Merging,
    Title(String),
    FinalPath(String),
    AlreadyDownloaded,
    Other,
}

/// A job event to send to the front end. The payload of `Progress` is the
/// progress line's own.
pub enum JobUpdate {
    Progress,
    Merging,
    Title(String),
    FilePath(String),
    Done { success: bool, error: Option<String> },
}

/// What to do after a line or the end of the process: the event to send,
/// if any, and whether the job is over (nothing more is read).
pub struct MonitorStep {
    pub emit: Option<JobUpdate>,
    pub finished: bool,
}

/// The state of a running download: the stderr lines kept for the error
/// report, and whether the job is over.
pub struct DownloadMonitor {
    error_lines: Vec<Vec<char>>,
    finished: bool,
}

/// Whether a stderr line of this kind is kept for the error report: on
/// stderr only progress and merging lines are understood.
pub open spec fn kept_as_error(stream: Stream, line: Seq<char>, kind: LineKind) -> bool {
    &&& stream == Stream::Stderr
    &&& !(kind is Progress || kind is Merging)
    &&& line.len() > 0
}

/// The event for a line.
pub open spec fn line_event(stream: Stream, kind: LineKind) -> Option<JobUpdate> {
    match kind {
        LineKind::Progress => Some(JobUpdate::Progress),
        LineKind::Merging => Some(JobUpdate::Merging),
        LineKind::Title(t) => if stream == Stream::Stdout { Some(JobUpdate::Title(t)) } else { None },
        LineKind::FinalPath(p) => if stream == Stream::Stdout { Some(JobUpdate::FilePath(p)) } else { None },
        LineKind::AlreadyDownloaded => if stream == Stream::Stdout {
            Some(JobUpdate::Done { success: true, error: None })
        } else {
            None
        },
        LineKind::Other => None,
    }
}

/// A line ends the job when stdout reports the file as already downloaded.
pub open spec fn line_finishes(stream: Stream, kind: LineKind) -> bool {
    stream == Stream::Stdout && kind is AlreadyDownloaded
}

/// The error lines after one more line.
pub open spec fn errors_after_line(errors: Seq<Seq<char>>, stream: Stream, line: Seq<char>, kind: LineKind) -> Seq<Seq<char>> {
    if kept_as_error(stream, line, kind) {
        errors.push(line)
    } else {
        errors
    }
}

/// The outcome reported when the process ended with `exit_code`: success
/// only on exit status 0; a failure carries the kept stderr lines, joined by
/// newlines.
pub open spec fn exit_succeeded(exit_code: Option<i32>) -> bool {
    exit_code == Some(0i32)
}

impl DownloadMonitor {
    /// The stderr lines kept so far, in order.
    pub closed spec fn errors(&self) -> Seq<Seq<char>> {
        views(self.error_lines@)
    }

    /// Whether the job is over.
    pub closed spec fn is_finished(&self) -> bool {
        self.finished
    }

    /// Whether the job is over.
    pub fn finished(&self) -> (r: bool)
        ensures
            r == self.is_finished(),
    {
        self.finished
    }

    /// A job that has just been started.
    pub fn new() -> (r: Self)
        ensures
            r.errors() == Seq::<Seq<char>>::empty(),
            !r.is_finished(),
    {
        let r = DownloadMonitor { error_lines: Vec::new(), finished: false };
        r
    }

    /// The decision on one trimmed output line of the given kind.
    pub fn on_line(&mut self, stream: Stream, line: String, kind: LineKind) -> (r: MonitorStep)
        requires
            !old(self).is_finished(),
        ensures
            r.emit == line_event(stream, kind),
            r.finished == line_finishes(stream, kind),
            final(self).is_finished() == r.finished,
            final(self).errors() == errors_after_line(old(self).errors(), stream, line@, kind),
    {
        let keep = match kind {
            LineKind::Progress => false,
            LineKind::Merging => false,
            _ => stream == Stream::Stderr,
        };
        if keep && !line.as_str().is_empty() {
            let cs = chars_of(line.as_str());
            self.error_lines.push(cs);
        }
        let finished = match kind {
            LineKind::AlreadyDownloaded => stream == Stream::Stdout,
            _ => false,
        };
        let emit = match kind {
            LineKind::Progress => Some(JobUpdate::Progress),
            LineKind::Merging => Some(JobUpdate::Merging),
            LineKind::Title(t) => if stream == Stream::Stdout { Some(JobUpdate::Title(t)) } else { None },
            LineKind::FinalPath(p) => if stream == Stream::Stdout { Some(JobUpdate::FilePath(p)) } else { None },
            LineKind::AlreadyDownloaded => if stream == Stream::Stdout {
                Some(JobUpdate::Done { success: true, error: None })
            } else {
                None
            },
            LineKind::Other => None,
        };
        self.finished = finished;
        MonitorStep { emit, finished }
    }

    /// The decision when the process has ended, with its exit code, and
    /// whether the job had been cancelled: a cancelled job gets no event.
    pub fn on_exit(&mut self, exit_code: Option<i32>, cancelled: bool) -> (r: MonitorStep)
        requires
            !old(self).is_finished(),
        ensures
            r.finished,
            final(self).is_finished(),
            final(self).errors() == old(self).errors(),
            cancelled ==> r.emit is None,
            !cancelled ==> (r.emit matches Some(JobUpdate::Done { success, error })
                && success == exit_succeeded(exit_code)
                && (success <==> exit_code == Some(0i32))
                && opt_view(error) == (if success { None } else { Some(join_lines(old(self).errors())) })),
    {
        self.finished = true;
        if cancelled {
            return MonitorStep { emit: None, finished: true };
        }
        let success = match exit_code {
            Some(c) => c == 0,
            None => false,
        };
        let error = if success {
            None
        } else {
            let joined = join_lines_of(&self.error_lines);
            Some(string_of(joined.as_slice()))
        };
        MonitorStep { emit: Some(JobUpdate::Done { success, error }), finished: true }
    }
}


/// A line that reports the job done also ends it, and only stdout can.
pub proof fn law_done_finishes(stream: Stream, kind: LineKind)
    ensures
        (line_event(stream, kind) matches Some(JobUpdate::Done { .. })) <==> line_finishes(stream, kind),
        line_finishes(stream, kind) ==> stream == Stream::Stdout,
{
}

/// The URL to download is always the last argument.
pub proof fn law_download_url_last(req: &DownloadRequest, ffmpeg_dir: Option<Seq<char>>, node: Option<Seq<char>>)
    ensures
        download_args(req, ffmpeg_dir, node).len() > 0,
        download_args(req, ffmpeg_dir, node).last() == req.url@,
{
}

/// Whenever an ffmpeg directory is given, the command line names it right
/// after `--ffmpeg-location`, for audio and video downloads alike and
/// whatever the resolution.
pub proof fn law_ffmpeg_location_given(req: &DownloadRequest, ffmpeg_dir: Option<Seq<char>>, node: Option<Seq<char>>)
    ensures
        ffmpeg_dir matches Some(d) ==> exists|i: int|
            0 <= i && i + 1 < download_args(req, ffmpeg_dir, node).len()
                && #[trigger] download_args(req, ffmpeg_dir, node)[i] == "--ffmpeg-location"@
                && download_args(req, ffmpeg_dir, node)[i + 1] == d,
{
    if let Some(d) = ffmpeg_dir {
        let before = common_args() + seq!["-o"@, output_template(req.output_dir@)]
            + media_args(req.audio_only, req.resolution@) + report_args();
        let i = before.len() as int;
        let args = download_args(req, ffmpeg_dir, node);
        assert(args[i] == "--ffmpeg-location"@);
        assert(args[i + 1] == d);
    }
}

/// A download is reported successful exactly when yt-dlp exited with
/// status 0; any other status, or none (killed by a signal), is a failure.
pub proof fn law_success_only_on_zero(exit_code: Option<i32>)
    ensures
        exit_succeeded(exit_code) <==> exit_code == Some(0i32),
        exit_succeeded(Some(0i32)),
        forall|c: i32| c != 0 ==> !exit_succeeded(Some(c)),
        !exit_succeeded(None),
{
}

/// A line of output as the monitor sees it.
pub type OutputLine = (Stream, Seq<char>, LineKind);

/// The error lines after a run of lines, starting from `errors`.
pub open spec fn errors_after_lines(errors: Seq<Seq<char>>, lines: Seq<OutputLine>) -> Seq<Seq<char>>
    decreases lines.len(),
{
    if lines.len() == 0 {
        errors
    } else {
        let l = lines.last();
        errors_after_line(errors_after_lines(errors, lines.drop_last()), l.0, l.1, l.2)
    }
}

/// The error report of a failed download holds exactly the stderr lines
/// that were neither progress nor merging lines and not empty, in the
/// order they came.
pub proof fn law_error_report_lines(lines: Seq<OutputLine>)
    ensures
        errors_after_lines(seq![], lines) == lines.filter(|l: OutputLine| kept_as_error(l.0, l.1, l.2)).map_values(
            |l: OutputLine| l.1,
        ),
    decreases lines.len(),
{
    reveal_with_fuel(Seq::filter, 1);
    if lines.len() > 0 {
        law_error_report_lines(lines.drop_last());
    }
}

} // verus!

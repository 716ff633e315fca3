//! The yt-dlp version check: what is installed against the latest release.

use vstd::prelude::*;
use crate::text::{chars_of, decode_lossy, same_chars, string_of, trim, trim_chars, decoded_text};

verus! {

/// The installed and the latest yt-dlp version, and whether they differ.
pub struct YtdlpVersionInfo {
    pub current: String,
    pub latest: String,
    pub update_available: bool,
}

/// The version that `yt-dlp --version` printed: its output, trimmed.
pub open spec fn printed_version(stdout: Seq<u8>) -> Seq<char> {
    trim(decoded_text(stdout))
}

/// The version that `yt-dlp --version` printed.
pub fn version_from_output(stdout: &[u8]) -> (r: String)
    ensures
        r@ == printed_version(stdout@),
{
    let text = decode_lossy(stdout);
    let cs = chars_of(text.as_str());
    let t = trim_chars(&cs);
    string_of(t.as_slice())
}

/// The latest release tag, empty when the release data has none.
pub open spec fn latest_tag(tag_name: Option<Seq<char>>) -> Seq<char> {
    match tag_name {
        Some(t) => t,
        None => seq![],
    }
}

/// An update is offered when a latest version is known and it is not the
/// installed one.
pub open spec fn update_offered(current: Seq<char>, latest: Seq<char>) -> bool {
    latest.len() > 0 && latest != current
}

/// The version information from the output of `yt-dlp --version` and the
/// `tag_name` string of the latest release, if it had one.
pub fn version_info(version_stdout: &[u8], tag_name: Option<String>) -> (r: YtdlpVersionInfo)
    ensures
        r.current@ == printed_version(version_stdout@),
        r.latest@ == latest_tag(crate::text::opt_view(tag_name)),
        r.update_available == update_offered(r.current@, r.latest@),
{
    let current = version_from_output(version_stdout);
    let latest = match tag_name {
        Some(t) => t,
        None => String::new(),
    };
    let c = chars_of(current.as_str());
    let l = chars_of(latest.as_str());
    let update_available = l.len() > 0 && !same_chars(&l, &c);
    YtdlpVersionInfo { current, latest, update_available }
}

} // verus!

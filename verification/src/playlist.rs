//! Playlist expansion: the yt-dlp command lines that list a playlist (or
//! resolve a TikTok user first), the reading of the JSON lines it prints,
//! and the decisions between those runs.

use vstd::prelude::*;
use crate::text::{
    chars_of, decode_lossy, lemma_decode_newline_join, lemma_lines_newline_join, lemma_trim_strip_cr,
    line_scan, lines, strip_cr, trimmed_lines, opt_view, slice_chars, output_lines, output_lines_of, string_of, strings_view, trim,
    trim_chars, decoded_text, same_chars, contains, contains_chars,
};

verus! {

/// One video of a playlist.
pub struct PlaylistEntry {
    pub url: String,
    pub title: String,
    pub id: String,
    /// The duration in seconds as yt-dlp wrote the JSON number.
    pub duration: Option<String>,
    pub thumbnail: Option<String>,
}

/// The model of a playlist entry.
pub struct PlaylistEntryView {
    pub url: Seq<char>,
    pub title: Seq<char>,
    pub id: Seq<char>,
    pub duration: Option<Seq<char>>,
    pub thumbnail: Option<Seq<char>>,
}

impl View for PlaylistEntry {
    type V = PlaylistEntryView;

    open spec fn view(&self) -> PlaylistEntryView {
        PlaylistEntryView {
            url: self.url@,
            title: self.title@,
            id: self.id@,
            duration: opt_view(self.duration),
            thumbnail: opt_view(self.thumbnail),
        }
    }
}

/// The fields of a line of `--dump-json` output that a playlist entry is
/// made of: each string field if the line is a JSON object holding a string
/// there, and the duration if it holds a number there (as the number's
/// JSON text).
pub struct JsonFields {
    pub id: Option<String>,
    pub title: Option<String>,
    pub webpage_url: Option<String>,
    pub url: Option<String>,
    pub duration: Option<String>,
    pub thumbnail: Option<String>,
}

/// The model of `JsonFields`.
pub struct JsonFieldsView {
    pub id: Option<Seq<char>>,
    pub title: Option<Seq<char>>,
    pub webpage_url: Option<Seq<char>>,
    pub url: Option<Seq<char>>,
    pub duration: Option<Seq<char>>,
    pub thumbnail: Option<Seq<char>>,
}

impl View for JsonFields {
    type V = JsonFieldsView;

    open spec fn view(&self) -> JsonFieldsView {
        JsonFieldsView {
            id: opt_view(self.id),
            title: opt_view(self.title),
            webpage_url: opt_view(self.webpage_url),
            url: opt_view(self.url),
            duration: opt_view(self.duration),
            thumbnail: opt_view(self.thumbnail),
        }
    }
}

/// The model of optional fields.
pub open spec fn fields_view(f: Option<JsonFields>) -> Option<JsonFieldsView> {
    match f {
        Some(f) => Some(f@),
        None => None,
    }
}

/// What `serde_json` reads from one line: `None` when the line is not JSON,
/// else the fields of the value that a playlist entry is made of.
pub uninterp spec fn json_line_fields(line: Seq<char>) -> Option<JsonFieldsView>;

/// `serde_json::from_str::<serde_json::Value>`, then the entry's fields read
/// with `Value::as_str` and `Value::as_number`. The result is named
/// `json_line_fields`; JSON syntax and field lookup are not stated here.
#[verifier::external_body]
fn parse_json_line(line: &str) -> (r: Option<JsonFields>)
    ensures
        fields_view(r) == json_line_fields(line@),
{
    match serde_json::from_str::<serde_json::Value>(line) {
        Ok(v) => Some(JsonFields {
            id: v["id"].as_str().map(str::to_string),
            title: v["title"].as_str().map(str::to_string),
            webpage_url: v["webpage_url"].as_str().map(str::to_string),
            url: v["url"].as_str().map(str::to_string),
            duration: v["duration"].as_number().map(serde_json::Number::to_string),
            thumbnail: v["thumbnail"].as_str().map(str::to_string),
        }),
        Err(_) => None,
    }
}

/// The title of an entry without one.
pub open spec fn unknown_title() -> Seq<char> {
    "Unknown Title"@
}

/// The page of a TikTok video, for entries that name no URL.
pub open spec fn fallback_url(id: Seq<char>) -> Seq<char> {
    "https://www.tiktok.com/@/video/"@ + id
}

/// The value, or `b` when there is none.
pub open spec fn or_else(a: Option<Seq<char>>, b: Seq<char>) -> Seq<char> {
    match a {
        Some(x) => x,
        None => b,
    }
}

/// The entry made of a JSON line's fields: none without a non-empty id;
/// the title defaults to "Unknown Title"; the URL is `webpage_url`, else
/// `url`, else the TikTok video page of the id.
pub open spec fn entry_of(f: JsonFieldsView) -> Option<PlaylistEntryView> {
    let id = or_else(f.id, seq![]);
    if id.len() == 0 {
        None
    } else {
        Some(PlaylistEntryView {
            url: match f.webpage_url {
                Some(u) => u,
                None => or_else(f.url, fallback_url(id)),
            },
            title: or_else(f.title, unknown_title()),
            id,
            duration: f.duration,
            thumbnail: f.thumbnail,
        })
    }
}

/// The model of optional entries.
pub open spec fn entry_view(e: Option<PlaylistEntry>) -> Option<PlaylistEntryView> {
    match e {
        Some(e) => Some(e@),
        None => None,
    }
}

/// The entry made of a JSON line's fields.
pub fn entry_from_fields(fields: JsonFields) -> (r: Option<PlaylistEntry>)
    ensures
        entry_view(r) == entry_of(fields@),
{
    let id = match fields.id {
        Some(id) => id,
        None => String::new(),
    };
    if id.as_str().is_empty() {
        return None;
    }
    let title = match fields.title {
        Some(t) => t,
        None => String::from_str("Unknown Title"),
    };
    let url = match fields.webpage_url {
        Some(u) => u,
        None => match fields.url {
            Some(u) => u,
            None => String::from_str("https://www.tiktok.com/@/video/").concat(id.as_str()),
        },
    };
    Some(PlaylistEntry { url, title, id, duration: fields.duration, thumbnail: fields.thumbnail })
}

/// The entries of a sequence of trimmed lines: each non-empty line that is
/// JSON and makes an entry gives one, in order.
pub open spec fn entries_of_lines(lines: Seq<Seq<char>>) -> Seq<PlaylistEntryView>
    decreases lines.len(),
{
    if lines.len() == 0 {
        seq![]
    } else {
        let before = entries_of_lines(lines.drop_last());
        let line = lines.last();
        if line.len() == 0 {
            before
        } else {
            match json_line_fields(line) {
                Some(f) => match entry_of(f) {
                    Some(e) => before.push(e),
                    None => before,
                },
                None => before,
            }
        }
    }
}

/// The entries of `--flat-playlist --dump-json` output.
pub open spec fn playlist_entries(stdout: Seq<u8>) -> Seq<PlaylistEntryView> {
    entries_of_lines(output_lines(stdout))
}

/// The models of a sequence of entries.
pub open spec fn entries_view(v: Seq<PlaylistEntry>) -> Seq<PlaylistEntryView> {
    v.map_values(|e: PlaylistEntry| e@)
}

/// The playlist entries in yt-dlp's `--flat-playlist --dump-json` output.
/// It never fails: lines that are not JSON, or make no entry, are skipped.
pub fn parse_playlist_output(stdout: &[u8]) -> (r: Result<Vec<PlaylistEntry>, String>)
    ensures
        r matches Ok(v) && entries_view(v@) == playlist_entries(stdout@),
{
    let lines = output_lines_of(stdout);
    let ghost ls = output_lines(stdout@);
    let mut entries: Vec<PlaylistEntry> = Vec::new();
    let mut k: usize = 0;
    while k < lines.len()
        invariant
            k <= lines.len(),
            strings_view(lines@) == ls,
            entries_view(entries@) == entries_of_lines(ls.take(k as int)),
        decreases lines.len() - k,
    {
        let line = &lines[k];
        assert(ls.take(k + 1).drop_last() =~= ls.take(k as int));
        if !line.as_str().is_empty() {
            if let Some(fields) = parse_json_line(line.as_str()) {
                if let Some(entry) = entry_from_fields(fields) {
                    entries.push(entry);
                }
            }
        }
        k = k + 1;
    }
    assert(ls.take(k as int) =~= ls);
    Ok(entries)
}


/// Browser cookies are used when a browser is named and it is not "none".
pub open spec fn browser_cookie_args(browser: Seq<char>) -> Seq<Seq<char>> {
    if browser.len() > 0 && browser != "none"@ {
        seq!["--cookies-from-browser"@, browser]
    } else {
        seq![]
    }
}

/// The command line that lists a playlist, one JSON line per video.
pub open spec fn listing_args(url: Seq<char>, browser: Seq<char>) -> Seq<Seq<char>> {
    seq!["--flat-playlist"@, "--dump-json"@, "--no-warnings"@] + browser_cookie_args(browser) + seq![url]
}

/// The command line that prints the channel id of a TikTok user's first
/// video.
pub open spec fn user_lookup_args(username: Seq<char>, browser: Seq<char>) -> Seq<Seq<char>> {
    seq!["--print"@, "channel_id"@, "--playlist-items"@, "1"@, "--no-warnings"@]
        + browser_cookie_args(browser) + seq!["https://www.tiktok.com/@"@ + username]
}

fn push_owned(args: &mut Vec<String>, s: String)
    ensures
        strings_view(final(args)@) == strings_view(old(args)@).push(s@),
{
    args.push(s);
}

fn push_browser_cookies(args: &mut Vec<String>, browser: &str)
    ensures
        strings_view(final(args)@) == strings_view(old(args)@) + browser_cookie_args(browser@),
{
    let b = chars_of(browser);
    let none = chars_of("none");
    if b.len() > 0 && !same_chars(&b, &none) {
        push_owned(args, String::from_str("--cookies-from-browser"));
        push_owned(args, String::from_str(browser));
    }
}

/// The command line that lists a playlist.
pub fn playlist_args(url: &str, cookie_browser: &str) -> (r: Vec<String>)
    ensures
        strings_view(r@) == listing_args(url@, cookie_browser@),
{
    let mut args: Vec<String> = Vec::new();
    push_owned(&mut args, String::from_str("--flat-playlist"));
    push_owned(&mut args, String::from_str("--dump-json"));
    push_owned(&mut args, String::from_str("--no-warnings"));
    push_browser_cookies(&mut args, cookie_browser);
    push_owned(&mut args, String::from_str(url));
    args
}

/// The command line that looks up a TikTok user's channel id.
pub fn resolve_args(username: &str, cookie_browser: &str) -> (r: Vec<String>)
    ensures
        strings_view(r@) == user_lookup_args(username@, cookie_browser@),
{
    let mut args: Vec<String> = Vec::new();
    push_owned(&mut args, String::from_str("--print"));
    push_owned(&mut args, String::from_str("channel_id"));
    push_owned(&mut args, String::from_str("--playlist-items"));
    push_owned(&mut args, String::from_str("1"));
    push_owned(&mut args, String::from_str("--no-warnings"));
    push_browser_cookies(&mut args, cookie_browser);
    push_owned(&mut args, String::from_str("https://www.tiktok.com/@").concat(username));
    args
}


#[verifier::external_type_specification]
#[verifier::external_body]
pub struct ExRegex(regex::Regex);

/// A regular expression compiled from `source`; only `compile_pattern`
/// makes one, so `compiled` is always the compiled `source`.
pub struct Pattern {
    source: String,
    compiled: regex::Regex,
}

impl View for Pattern {
    type V = Seq<char>;

    closed spec fn view(&self) -> Seq<char> {
        self.source@
    }
}

/// Whether `regex::Regex::new` accepts a pattern.
pub uninterp spec fn regex_compiles(pattern: Seq<char>) -> bool;

/// The text of capture group `group` in the leftmost-first match of
/// `pattern` in `text`, as the `regex` crate finds it; `None` when nothing
/// matches or the group took no part in the match.
pub uninterp spec fn regex_group(pattern: Seq<char>, text: Seq<char>, group: nat) -> Option<Seq<char>>;

/// `regex::Regex::new`: the compiled pattern when the crate accepts it.
/// Whether it does is named `regex_compiles`; the syntax is not stated here.
#[verifier::external_body]
fn compile_pattern(pattern: &str) -> (r: Option<Pattern>)
    ensures
        r is Some == regex_compiles(pattern@),
        r matches Some(p) ==> p@ == pattern@,
{
    match regex::Regex::new(pattern) {
        Ok(compiled) => Some(Pattern { source: pattern.to_string(), compiled }),
        Err(_) => None,
    }
}

/// `regex::Regex::captures` and `Captures::get`: the text of one capture
/// group of the first match, named `regex_group`; matching itself is not
/// stated here.
#[verifier::external_body]
fn capture_group(pattern: &Pattern, text: &str, group: usize) -> (r: Option<String>)
    ensures
        opt_view(r) == regex_group(pattern@, text@, group as nat),
{
    match pattern.compiled.captures(text) {
        Some(caps) => match caps.get(group) {
            Some(m) => Some(m.as_str().to_string()),
            None => None,
        },
        None => None,
    }
}

/// A TikTok profile URL, `http(s)://[www.]tiktok.com/@<name>` in any case,
/// with the user name (word characters, `'.'` and `'-'`) as group 1.
pub open spec fn tiktok_user_pattern() -> Seq<char> {
    "(?i)^https?://(?:www\\.)?tiktok\\.com/@([\\w.-]+)"@
}

/// What the pattern's group 1 gives for a URL, through the `regex` crate.
pub open spec fn tiktok_user_by_pattern(url: Seq<char>) -> Option<Seq<char>> {
    if regex_compiles(tiktok_user_pattern()) {
        regex_group(tiktok_user_pattern(), url, 1)
    } else {
        None
    }
}

/// A plain ASCII character.
pub open spec fn is_ascii_char(c: char) -> bool {
    (c as u32) < 128
}

/// The ASCII characters of a user name: letters, digits, `'_'`, `'.'` and
/// `'-'` (what `[\w.-]` holds of ASCII).
pub open spec fn is_name_char(c: char) -> bool {
    ||| ('a' <= c && c <= 'z')
    ||| ('A' <= c && c <= 'Z')
    ||| ('0' <= c && c <= '9')
    ||| c == '_' || c == '.' || c == '-'
}

/// `c` is `l`, or the upper-case form of the ASCII lower-case letter `l`.
pub open spec fn ci_eq(c: char, l: char) -> bool {
    c == l || ('a' <= l && l <= 'z' && (c as u32) + 32 == (l as u32))
}

/// `lit` stands at `at` in `url`, ASCII letters in any case.
pub open spec fn ci_at(url: Seq<char>, lit: Seq<char>, at: int) -> bool {
    &&& 0 <= at
    &&& at + lit.len() <= url.len()
    &&& forall|i: int| 0 <= i < lit.len() ==> #[trigger] ci_eq(url[at + i], lit[i])
}

/// Where the user name of `http(s)://[www.]tiktok.com/@<name>` starts, when
/// the URL begins so (ASCII letters in any case).
pub open spec fn tiktok_name_start(url: Seq<char>) -> Option<int> {
    if !ci_at(url, "http"@, 0) {
        None
    } else {
        let a: int = if url.len() > 4 && ci_eq(url[4], 's') { 5 } else { 4 };
        if !ci_at(url, "://"@, a) {
            None
        } else {
            let b: int = if ci_at(url, "www."@, a + 3) { a + 7 } else { a + 3 };
            if ci_at(url, "tiktok.com/@"@, b) {
                Some(b + 12)
            } else {
                None
            }
        }
    }
}

/// The end of the run of name characters that starts at `from`.
pub open spec fn name_end(url: Seq<char>, from: int) -> int
    decreases url.len() - from,
{
    if 0 <= from < url.len() && is_name_char(url[from]) {
        name_end(url, from + 1)
    } else {
        from
    }
}

/// The user name of a profile URL as far as ASCII decides it: `Some(answer)`
/// when the URL's prefix, the name and the character after it are ASCII (or
/// the whole URL is ASCII and no profile prefix starts it); `None` when a
/// non-ASCII character is where `\w` or case folding could see it.
pub open spec fn ascii_tiktok_user(url: Seq<char>) -> Option<Option<Seq<char>>> {
    match tiktok_name_start(url) {
        Some(st) => {
            let e = name_end(url, st);
            if e < url.len() && !is_ascii_char(url[e]) {
                None
            } else if e > st {
                Some(Some(url.subrange(st, e)))
            } else {
                Some(None)
            }
        },
        None => if forall|i: int| 0 <= i < url.len() ==> is_ascii_char(#[trigger] url[i]) {
            Some(None)
        } else {
            None
        },
    }
}

/// The TikTok user name in a profile URL: decided on ASCII as above, else
/// what the pattern's group 1 gives.
pub open spec fn tiktok_user_of(url: Seq<char>) -> Option<Seq<char>> {
    match ascii_tiktok_user(url) {
        Some(answer) => answer,
        None => tiktok_user_by_pattern(url),
    }
}

fn ci_eq_of(c: char, l: char) -> (r: bool)
    ensures
        r == ci_eq(c, l),
{
    c == l || ('a' <= l && l <= 'z' && (c as u32) == (l as u32) - 32)
}

fn ci_at_of(url: &Vec<char>, lit: &str, at: usize) -> (r: bool)
    ensures
        r == ci_at(url@, lit@, at as int),
{
    let l = chars_of(lit);
    if at > url.len() || l.len() > url.len() - at {
        return false;
    }
    let mut i: usize = 0;
    while i < l.len()
        invariant
            i <= l.len(),
            l@ == lit@,
            at + l.len() <= url.len(),
            forall|j: int| 0 <= j < i ==> #[trigger] ci_eq(url@[at + j], l@[j]),
        decreases l.len() - i,
    {
        if !ci_eq_of(url[at + i], l[i]) {
            return false;
        }
        i = i + 1;
    }
    true
}

fn tiktok_name_start_of(url: &Vec<char>) -> (r: Option<usize>)
    ensures
        match r {
            Some(st) => tiktok_name_start(url@) == Some(st as int) && st <= url.len(),
            None => tiktok_name_start(url@) is None,
        },
{
    proof {
        reveal_strlit("http");
        reveal_strlit("://");
        reveal_strlit("www.");
        reveal_strlit("tiktok.com/@");
    }
    if !ci_at_of(url, "http", 0) {
        return None;
    }
    let a: usize = if url.len() > 4 && ci_eq_of(url[4], 's') { 5 } else { 4 };
    if !ci_at_of(url, "://", a) {
        return None;
    }
    let b: usize = if ci_at_of(url, "www.", a + 3) { a + 7 } else { a + 3 };
    if ci_at_of(url, "tiktok.com/@", b) {
        Some(b + 12)
    } else {
        None
    }
}

fn name_end_of(url: &Vec<char>, from: usize) -> (r: usize)
    requires
        from <= url.len(),
    ensures
        r as int == name_end(url@, from as int),
        from <= r <= url.len(),
{
    let mut e = from;
    while e < url.len() && is_name_char_of(url[e])
        invariant
            from <= e <= url.len(),
            name_end(url@, e as int) == name_end(url@, from as int),
        decreases url.len() - e,
    {
        e = e + 1;
    }
    e
}

fn is_name_char_of(c: char) -> (r: bool)
    ensures
        r == is_name_char(c),
{
    ('a' <= c && c <= 'z') || ('A' <= c && c <= 'Z') || ('0' <= c && c <= '9') || c == '_' || c == '.' || c == '-'
}

fn all_ascii(url: &Vec<char>) -> (r: bool)
    ensures
        r == forall|i: int| 0 <= i < url@.len() ==> is_ascii_char(#[trigger] url@[i]),
{
    let mut i: usize = 0;
    while i < url.len()
        invariant
            i <= url.len(),
            forall|j: int| 0 <= j < i ==> is_ascii_char(#[trigger] url@[j]),
        decreases url.len() - i,
    {
        if (url[i] as u32) >= 128 {
            return false;
        }
        i = i + 1;
    }
    true
}

/// The user name through the `regex` crate.
fn username_by_pattern(url: &str) -> (r: Option<String>)
    ensures
        opt_view(r) == tiktok_user_by_pattern(url@),
{
    match compile_pattern("(?i)^https?://(?:www\\.)?tiktok\\.com/@([\\w.-]+)") {
        Some(p) => capture_group(&p, url, 1),
        None => None,
    }
}

/// The TikTok user name in a profile URL, if it is one.
pub fn tiktok_username(url: &str) -> (r: Option<String>)
    ensures
        opt_view(r) == tiktok_user_of(url@),
{
    let cs = chars_of(url);
    match tiktok_name_start_of(&cs) {
        Some(st) => {
            let e = name_end_of(&cs, st);
            if e < cs.len() && (cs[e] as u32) >= 128 {
                username_by_pattern(url)
            } else if e > st {
                let name = slice_chars(&cs, st, e);
                Some(string_of(name.as_slice()))
            } else {
                None
            }
        },
        None => {
            if all_ascii(&cs) {
                None
            } else {
                username_by_pattern(url)
            }
        },
    }
}

/// The end of a run of name characters, found step by step.
proof fn lemma_name_end(url: Seq<char>, from: int, e: int)
    requires
        0 <= from <= e <= url.len(),
        forall|j: int| from <= j < e ==> is_name_char(#[trigger] url[j]),
        e == url.len() || !is_name_char(url[e]),
    ensures
        name_end(url, from) == e,
    decreases e - from,
{
    if from < e {
        lemma_name_end(url, from + 1, e);
    }
}

/// A TikTok profile URL `http(s)://[www.]tiktok.com/@<u>`, where `u` is a
/// non-empty run of ASCII letters, digits, `'_'`, `'.'` and `'-'`, names
/// exactly the user `u`, whether the URL ends there or goes on with an
/// ASCII character that cannot be part of a name (such as `'/'` or `'?'`).
pub proof fn law_tiktok_profile_name(p: Seq<char>, u: Seq<char>, rest: Seq<char>)
    requires
        p == "https://www.tiktok.com/@"@ || p == "https://tiktok.com/@"@ || p == "http://www.tiktok.com/@"@
            || p == "http://tiktok.com/@"@,
        u.len() > 0,
        forall|i: int| 0 <= i < u.len() ==> {
            let c = #[trigger] u[i];
            ('a' <= c && c <= 'z') || ('A' <= c && c <= 'Z') || ('0' <= c && c <= '9') || c == '_' || c == '.'
                || c == '-'
        },
        rest.len() > 0 ==> {
            let c = rest[0];
            (c as u32) < 128 && !(('a' <= c && c <= 'z') || ('A' <= c && c <= 'Z') || ('0' <= c && c <= '9')
                || c == '_' || c == '.' || c == '-')
        },
    ensures
        tiktok_user_of(p + u + rest) == Some(u),
{
    reveal_strlit("http");
    reveal_strlit("://");
    reveal_strlit("www.");
    reveal_strlit("tiktok.com/@");
    reveal_strlit("https://www.tiktok.com/@");
    reveal_strlit("https://tiktok.com/@");
    reveal_strlit("http://www.tiktok.com/@");
    reveal_strlit("http://tiktok.com/@");
    let url = p + u + rest;
    let n = p.len() as int;
    assert(forall|i: int| 0 <= i < n ==> #[trigger] url[i] == p[i]);
    assert(forall|i: int| 0 <= i < u.len() ==> #[trigger] url[n + i] == u[i]);
    assert(ci_at(url, "http"@, 0));
    if p == "https://www.tiktok.com/@"@ || p == "https://tiktok.com/@"@ {
        assert(ci_eq(url[4], 's'));
        assert(ci_at(url, "://"@, 5));
        if p == "https://www.tiktok.com/@"@ {
            assert(ci_at(url, "www."@, 8));
            assert(ci_at(url, "tiktok.com/@"@, 12));
            assert(tiktok_name_start(url) == Some(24int));
        } else {
            assert(!ci_eq(url[8], 'w'));
            assert(!ci_eq(url[8int + 0int], "www."@[0int]));
            assert(!ci_at(url, "www."@, 8));
            assert(ci_at(url, "tiktok.com/@"@, 8));
            assert(tiktok_name_start(url) == Some(20int));
        }
    } else {
        assert(!ci_eq(url[4], 's'));
        assert(ci_at(url, "://"@, 4));
        if p == "http://www.tiktok.com/@"@ {
            assert(ci_at(url, "www."@, 7));
            assert(ci_at(url, "tiktok.com/@"@, 11));
            assert(tiktok_name_start(url) == Some(23int));
        } else {
            assert(!ci_eq(url[7], 'w'));
            assert(!ci_eq(url[7int + 0int], "www."@[0int]));
            assert(!ci_at(url, "www."@, 7));
            assert(ci_at(url, "tiktok.com/@"@, 7));
            assert(tiktok_name_start(url) == Some(19int));
        }
    }
    assert(tiktok_name_start(url) == Some(n));
    let e = n + u.len();
    assert forall|j: int| n <= j < e implies is_name_char(#[trigger] url[j]) by {
        assert(url[n + (j - n)] == u[j - n]);
    }
    if rest.len() > 0 {
        assert(url[e] == rest[0]);
    }
    lemma_name_end(url, n, e);
    assert(url.subrange(n, e) =~= u);
}

/// An ASCII URL without `'@'` names no TikTok user.
pub proof fn law_no_at_no_user(url: Seq<char>)
    requires
        forall|i: int| 0 <= i < url.len() ==> (#[trigger] url[i] as u32) < 128 && url[i] != '@',
    ensures
        tiktok_user_of(url) is None,
{
    reveal_strlit("tiktok.com/@");
    if let Some(st) = tiktok_name_start(url) {
        let b = st - 12;
        assert(ci_eq(url[b + 11], "tiktok.com/@"@[11]));
    }
}

/// What became of a run of yt-dlp: it could not be started, or it exited,
/// successfully or not, with its output.
pub enum CommandReport {
    SpawnFailed(String),
    Exited { success: bool, stdout: Vec<u8>, stderr: Vec<u8> },
}

/// The model of a string result.
pub open spec fn str_result(r: Result<String, String>) -> Result<Seq<char>, Seq<char>> {
    match r {
        Ok(s) => Ok(s@),
        Err(e) => Err(e@),
    }
}

/// The user id marker that resolution puts before a TikTok channel id.
pub open spec fn resolved_user_url(channel_id: Seq<char>) -> Seq<char> {
    "tiktokuser:"@ + channel_id
}

/// The outcome of a user lookup: the channel id printed by a successful
/// run, trimmed, unless empty or "NA".
pub open spec fn resolved_user(report: CommandReport) -> Result<Seq<char>, Seq<char>> {
    match report {
        CommandReport::SpawnFailed(e) => Err("Failed to resolve TikTok user: "@ + e@),
        CommandReport::Exited { success, stdout, stderr } => {
            let out = trim(decoded_text(stdout@));
            if success && out.len() > 0 && out != "NA"@ {
                Ok(resolved_user_url(out))
            } else {
                Err("Could not resolve TikTok user"@)
            }
        },
    }
}

/// The outcome of a user lookup run.
pub fn resolve_tiktok_user(report: &CommandReport) -> (r: Result<String, String>)
    ensures
        str_result(r) == resolved_user(*report),
{
    match report {
        CommandReport::SpawnFailed(e) => {
            Err(String::from_str("Failed to resolve TikTok user: ").concat(e.as_str()))
        },
        CommandReport::Exited { success, stdout, stderr } => {
            let text = decode_lossy(stdout.as_slice());
            let cs = chars_of(text.as_str());
            let out = trim_chars(&cs);
            let na = chars_of("NA");
            if *success && out.len() > 0 && !same_chars(&out, &na) {
                let id = string_of(out.as_slice());
                Ok(String::from_str("tiktokuser:").concat(id.as_str()))
            } else {
                Err(String::from_str("Could not resolve TikTok user"))
            }
        },
    }
}


/// The message when a TikTok profile cannot be listed.
pub open spec fn tiktok_unsupported() -> Seq<char> {
    "TikTok user profiles are not supported yet. Try pasting individual video URLs instead, or enable Firefox cookies."@
}

/// What yt-dlp prints when it cannot find a TikTok user's secondary id.
pub open spec fn secondary_id_failure() -> Seq<char> {
    "Unable to extract secondary user ID"@
}

/// The model of a listing result.
pub open spec fn listing_view(r: Result<Vec<PlaylistEntry>, String>) -> Result<Seq<PlaylistEntryView>, Seq<char>> {
    match r {
        Ok(v) => Ok(entries_view(v@)),
        Err(e) => Err(e@),
    }
}

/// The outcome of a listing run: the entries of a successful run, else the
/// error of yt-dlp (its stderr) or of starting it.
pub open spec fn listing_result(report: CommandReport) -> Result<Seq<PlaylistEntryView>, Seq<char>> {
    match report {
        CommandReport::SpawnFailed(e) => Err("Failed to run yt-dlp: "@ + e@),
        CommandReport::Exited { success, stdout, stderr } => if success {
            Ok(playlist_entries(stdout@))
        } else {
            Err("yt-dlp error: "@ + decoded_text(stderr@))
        },
    }
}

/// The outcome of a listing run.
pub fn expand_with_url(report: CommandReport) -> (r: Result<Vec<PlaylistEntry>, String>)
    ensures
        listing_view(r) == listing_result(report),
{
    match report {
        CommandReport::SpawnFailed(e) => Err(String::from_str("Failed to run yt-dlp: ").concat(e.as_str())),
        CommandReport::Exited { success, stdout, stderr } => {
            if success {
                parse_playlist_output(stdout.as_slice())
            } else {
                let text = decode_lossy(stderr.as_slice());
                Err(String::from_str("yt-dlp error: ").concat(text.as_str()))
            }
        },
    }
}

/// The stages of an expansion: the listing of the URL, the lookup of a
/// TikTok user, the listing of the resolved user, and the end.
#[derive(Clone, Copy, PartialEq, Eq, Structural, Debug)]
pub enum ExpandStage {
    Listing,
    ResolvingUser,
    ListingResolved,
    Finished,
}

/// The stages in the order they come: each step moves to a later one.
pub open spec fn stage_rank(s: ExpandStage) -> int {
    match s {
        ExpandStage::Listing => 0,
        ExpandStage::ResolvingUser => 1,
        ExpandStage::ListingResolved => 2,
        ExpandStage::Finished => 3,
    }
}

/// What to do next: run yt-dlp with these arguments, or answer.
pub enum ExpandAction {
    Run(Vec<String>),
    Finish(Result<Vec<PlaylistEntry>, String>),
}

/// The model of an action.
pub enum ExpandActionView {
    Run(Seq<Seq<char>>),
    Finish(Result<Seq<PlaylistEntryView>, Seq<char>>),
}

/// The model of an action.
pub open spec fn action_view(a: ExpandAction) -> ExpandActionView {
    match a {
        ExpandAction::Run(args) => ExpandActionView::Run(strings_view(args@)),
        ExpandAction::Finish(r) => ExpandActionView::Finish(listing_view(r)),
    }
}

/// After a failed listing that reported the TikTok secondary-id problem:
/// look the user up if the URL names one, else give up with a hint.
pub open spec fn tiktok_fallback_step(user: Option<Seq<char>>, browser: Seq<char>) -> (ExpandStage, ExpandActionView) {
    match user {
        Some(u) => (ExpandStage::ResolvingUser, ExpandActionView::Run(user_lookup_args(u, browser))),
        None => (ExpandStage::Finished, ExpandActionView::Finish(Err(tiktok_unsupported()))),
    }
}

/// The next stage and action of an expansion in `stage`, for `url` with
/// cookies of `browser`, after a run ended as `report`.
pub open spec fn expand_step(stage: ExpandStage, url: Seq<char>, browser: Seq<char>, report: CommandReport) -> (ExpandStage, ExpandActionView) {
    match stage {
        ExpandStage::Listing => match report {
            CommandReport::Exited { success, stdout, stderr } =>
                if !success && contains(decoded_text(stderr@), secondary_id_failure()) {
                    tiktok_fallback_step(tiktok_user_of(url), browser)
                } else {
                    (ExpandStage::Finished, ExpandActionView::Finish(listing_result(report)))
                },
            CommandReport::SpawnFailed(_) => (ExpandStage::Finished, ExpandActionView::Finish(listing_result(report))),
        },
        ExpandStage::ResolvingUser => match resolved_user(report) {
            Ok(u) => (ExpandStage::ListingResolved, ExpandActionView::Run(listing_args(u, browser))),
            Err(_) => (ExpandStage::Finished, ExpandActionView::Finish(Err(tiktok_unsupported()))),
        },
        _ => (ExpandStage::Finished, ExpandActionView::Finish(listing_result(report))),
    }
}

/// The step after the TikTok secondary-id failure, given the user name
/// found in the URL.
pub fn tiktok_fallback(user: Option<String>, cookie_browser: &str) -> (r: (ExpandStage, ExpandAction))
    ensures
        (r.0, action_view(r.1)) == tiktok_fallback_step(opt_view(user), cookie_browser@),
{
    match user {
        Some(u) => (ExpandStage::ResolvingUser, ExpandAction::Run(resolve_args(u.as_str(), cookie_browser))),
        None => (
            ExpandStage::Finished,
            ExpandAction::Finish(Err(String::from_str(
                "TikTok user profiles are not supported yet. Try pasting individual video URLs instead, or enable Firefox cookies.",
            ))),
        ),
    }
}

/// The expansion of a playlist URL, run by the caller: it starts with the
/// listing of the URL; when that fails for a TikTok profile, the user's
/// channel id is looked up and its listing taken instead.
pub struct PlaylistExpansion {
    url: String,
    cookie_browser: String,
    stage: ExpandStage,
}

impl PlaylistExpansion {
    /// The URL asked for.
    pub closed spec fn url(&self) -> Seq<char> {
        self.url@
    }

    /// The browser whose cookies yt-dlp is told to use.
    pub closed spec fn cookie_browser(&self) -> Seq<char> {
        self.cookie_browser@
    }

    /// Where the expansion stands.
    pub closed spec fn stage(&self) -> ExpandStage {
        self.stage
    }

    /// Whether the expansion has answered.
    pub fn is_finished(&self) -> (r: bool)
        ensures
            r == (self.stage() == ExpandStage::Finished),
    {
        self.stage == ExpandStage::Finished
    }

    /// An expansion of `url`, and the command line of its first run.
    pub fn start(url: String, cookie_browser: String) -> (r: (Self, Vec<String>))
        ensures
            r.0.url() == url@,
            r.0.cookie_browser() == cookie_browser@,
            r.0.stage() == ExpandStage::Listing,
            strings_view(r.1@) == listing_args(url@, cookie_browser@),
    {
        let args = playlist_args(url.as_str(), cookie_browser.as_str());
        (PlaylistExpansion { url, cookie_browser, stage: ExpandStage::Listing }, args)
    }

    /// The decision after a run: the next command line, or the answer.
    pub fn step(&mut self, report: CommandReport) -> (r: ExpandAction)
        requires
            old(self).stage() != ExpandStage::Finished,
        ensures
            (final(self).stage(), action_view(r)) == expand_step(old(self).stage(), old(self).url(), old(self).cookie_browser(), report),
            final(self).url() == old(self).url(),
            final(self).cookie_browser() == old(self).cookie_browser(),
    {
        match self.stage {
            ExpandStage::Listing => {
                let fallback = match &report {
                    CommandReport::Exited { success, stdout: _, stderr } => {
                        if !*success {
                            let text = decode_lossy(stderr.as_slice());
                            let hay = chars_of(text.as_str());
                            let marker = chars_of("Unable to extract secondary user ID");
                            contains_chars(&hay, &marker)
                        } else {
                            false
                        }
                    },
                    CommandReport::SpawnFailed(_) => false,
                };
                if fallback {
                    let user = tiktok_username(self.url.as_str());
                    let (stage, action) = tiktok_fallback(user, self.cookie_browser.as_str());
                    self.stage = stage;
                    action
                } else {
                    self.stage = ExpandStage::Finished;
                    ExpandAction::Finish(expand_with_url(report))
                }
            },
            ExpandStage::ResolvingUser => {
                match resolve_tiktok_user(&report) {
                    Ok(u) => {
                        self.stage = ExpandStage::ListingResolved;
                        ExpandAction::Run(playlist_args(u.as_str(), self.cookie_browser.as_str()))
                    },
                    Err(_) => {
                        self.stage = ExpandStage::Finished;
                        ExpandAction::Finish(Err(String::from_str(
                            "TikTok user profiles are not supported yet. Try pasting individual video URLs instead, or enable Firefox cookies.",
                        )))
                    },
                }
            },
            _ => {
                self.stage = ExpandStage::Finished;
                ExpandAction::Finish(expand_with_url(report))
            },
        }
    }
}


/// Every entry read from playlist output has a non-empty id.
pub proof fn law_entries_have_ids(lines: Seq<Seq<char>>)
    ensures
        forall|i: int| 0 <= i < entries_of_lines(lines).len() ==> #[trigger] entries_of_lines(lines)[i].id.len() > 0,
    decreases lines.len(),
{
    if lines.len() > 0 {
        law_entries_have_ids(lines.drop_last());
    }
}

/// An expansion always moves to a later stage, and it answers exactly when
/// it reaches the end: so yt-dlp runs at most three times for one URL.
pub proof fn law_expansion_advances(stage: ExpandStage, url: Seq<char>, browser: Seq<char>, report: CommandReport)
    requires
        stage != ExpandStage::Finished,
    ensures
        stage_rank(expand_step(stage, url, browser, report).0) > stage_rank(stage),
        (expand_step(stage, url, browser, report).1 is Finish) <==> (expand_step(stage, url, browser, report).0 == ExpandStage::Finished),
{
}

/// The URL to list is always the last argument.
pub proof fn law_listing_url_last(url: Seq<char>, browser: Seq<char>)
    ensures
        listing_args(url, browser).last() == url,
        user_lookup_args(url, browser).last() == "https://www.tiktok.com/@"@ + url,
{
}


proof fn lemma_entries_of_lines_concat(a: Seq<Seq<char>>, b: Seq<Seq<char>>)
    ensures
        entries_of_lines(a + b) == entries_of_lines(a) + entries_of_lines(b),
    decreases b.len(),
{
    if b.len() == 0 {
        assert(a + b =~= a);
        assert(entries_of_lines(a) + entries_of_lines(b) =~= entries_of_lines(a));
    } else {
        lemma_entries_of_lines_concat(a, b.drop_last());
        assert((a + b).drop_last() =~= a + b.drop_last());
        assert((a + b).last() == b.last());
    }
}

/// Parsing two playlist outputs joined by a newline gives the entries of
/// the first followed by those of the second (for valid UTF-8 output).
pub proof fn law_parse_concat(a: Seq<u8>, b: Seq<u8>)
    requires
        vstd::utf8::valid_utf8(a),
        vstd::utf8::valid_utf8(b),
    ensures
        playlist_entries(a + seq![10u8] + b) == playlist_entries(a) + playlist_entries(b),
{
    lemma_decode_newline_join(a, b);
    let x = decoded_text(a);
    let y = decoded_text(b);
    lemma_lines_newline_join(x, y);
    let (d, c) = line_scan(x);
    let first = d.push(strip_cr(c));
    let tr = |l: Seq<char>| trim(l);
    assert(trimmed_lines(x + seq!['\n'] + y) =~= first.map_values(tr) + trimmed_lines(y));
    lemma_entries_of_lines_concat(first.map_values(tr), trimmed_lines(y));
    lemma_trim_strip_cr(c);
    assert(first.map_values(tr) =~= d.map_values(tr).push(trim(c)));
    if c.len() > 0 {
        assert(trimmed_lines(x) =~= d.map_values(tr).push(trim(c)));
    } else {
        assert(trimmed_lines(x) =~= d.map_values(tr));
        assert(trim(c) =~= c);
        assert(d.map_values(tr).push(trim(c)).drop_last() =~= d.map_values(tr));
    }
}

} // verus!

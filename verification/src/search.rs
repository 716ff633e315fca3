//! Where the helper programs are looked for: the `ffmpeg` directory handed
//! to yt-dlp and the Node.js binary it may run. The file system and the
//! environment are read by the caller; this module lists the places to look
//! at, in order, and picks the answer from what was found there.
//!
//! Paths follow `std::path` on the platform given by `windows`: Unix uses
//! `'/'` and `':'`-separated `PATH` lists, Windows `'\\'` (also accepting
//! `'/'`) and `';'`.

use vstd::prelude::*;
use crate::text::{chars_of, opt_view, slice_chars, split_chars, split_on, string_of, strings_view, views};
use crate::version::{lemma_version_le_total, lemma_version_le_transitive, version_le, version_le_of};

verus! {

/// A path separator on the platform.
pub open spec fn is_separator(c: char, windows: bool) -> bool {
    c == '/' || (windows && c == '\\')
}

/// The separator that joining puts between two paths.
pub open spec fn main_separator(windows: bool) -> char {
    if windows {
        '\\'
    } else {
        '/'
    }
}

/// The separator of the entries of `PATH`.
pub open spec fn list_separator(windows: bool) -> char {
    if windows {
        ';'
    } else {
        ':'
    }
}

/// `Path::join` with a relative second path: the main separator is put
/// between the two unless the first is empty or already ends with a
/// separator.
pub open spec fn path_join(dir: Seq<char>, name: Seq<char>, windows: bool) -> Seq<char> {
    if dir.len() == 0 || is_separator(dir.last(), windows) {
        dir + name
    } else {
        dir + seq![main_separator(windows)] + name
    }
}

/// An absolute path (`Path::is_absolute`): on Unix one that starts with
/// `'/'`; on Windows a drive letter with a root (`C:\`) or a `\\` prefix.
pub open spec fn is_absolute(p: Seq<char>, windows: bool) -> bool {
    if windows {
        ||| (p.len() >= 3 && (('a' <= p[0] && p[0] <= 'z') || ('A' <= p[0] && p[0] <= 'Z')) && p[1] == ':'
            && is_separator(p[2], true))
        ||| (p.len() >= 2 && p[0] == '\\' && p[1] == '\\')
    } else {
        p.len() > 0 && p[0] == '/'
    }
}

/// Joining a name onto an absolute path gives an absolute path.
pub proof fn lemma_join_keeps_absolute(dir: Seq<char>, name: Seq<char>, windows: bool)
    requires
        is_absolute(dir, windows),
    ensures
        is_absolute(path_join(dir, name, windows), windows),
{
    let j = path_join(dir, name, windows);
    assert(j.subrange(0, dir.len() as int) =~= dir);
    assert(forall|i: int| 0 <= i < dir.len() ==> j[i] == dir[i]);
}

/// A separator on the platform.
pub fn separator(c: char, windows: bool) -> (r: bool)
    ensures
        r == is_separator(c, windows),
{
    c == '/' || (windows && c == '\\')
}

/// Whether a path is absolute.
pub fn absolute(p: &Vec<char>, windows: bool) -> (r: bool)
    ensures
        r == is_absolute(p@, windows),
{
    if windows {
        (p.len() >= 3 && (('a' <= p[0] && p[0] <= 'z') || ('A' <= p[0] && p[0] <= 'Z')) && p[1] == ':'
            && separator(p[2], true)) || (p.len() >= 2 && p[0] == '\\' && p[1] == '\\')
    } else {
        p.len() > 0 && p[0] == '/'
    }
}

/// `Path::join` with a relative second path.
pub fn join_path(dir: &Vec<char>, name: &Vec<char>, windows: bool) -> (r: Vec<char>)
    ensures
        r@ == path_join(dir@, name@, windows),
{
    let mut r = slice_chars(dir, 0, dir.len());
    assert(r@ =~= dir@);
    if dir.len() > 0 && !separator(dir[dir.len() - 1], windows) {
        r.push(if windows { '\\' } else { '/' });
    }
    let ghost base = r@;
    let mut m: usize = 0;
    while m < name.len()
        invariant
            m <= name.len(),
            r@ == base + name@.take(m as int),
        decreases name.len() - m,
    {
        r.push(name[m]);
        m = m + 1;
        assert(r@ =~= base + name@.take(m as int));
    }
    assert(name@.take(m as int) =~= name@);
    r
}

/// `base` joined with `name`, as a string.
pub fn join_str(base: &str, name: &str, windows: bool) -> (r: String)
    ensures
        r@ == path_join(base@, name@, windows),
{
    let b = chars_of(base);
    let n = chars_of(name);
    let j = join_path(&b, &n, windows);
    string_of(j.as_slice())
}

/// Whether check `i` of a list of checks passed; a missing answer is a miss.
pub open spec fn hit(checks: Seq<bool>, i: int) -> bool {
    0 <= i < checks.len() && checks[i]
}

/// Both checks passed, index by index.
pub open spec fn both(a: Seq<bool>, b: Seq<bool>) -> Seq<bool> {
    Seq::new(if a.len() <= b.len() { a.len() } else { b.len() }, |i: int| a[i] && b[i])
}

/// Both checks passed, index by index.
pub fn both_of(a: &Vec<bool>, b: &Vec<bool>) -> (r: Vec<bool>)
    ensures
        r@ == both(a@, b@),
{
    let n = if a.len() <= b.len() { a.len() } else { b.len() };
    let mut r: Vec<bool> = Vec::new();
    let mut k: usize = 0;
    while k < n
        invariant
            k <= n,
            n == (if a.len() <= b.len() { a.len() } else { b.len() }),
            r@ == both(a@, b@).take(k as int),
        decreases n - k,
    {
        r.push(a[k] && b[k]);
        k = k + 1;
        assert(r@ =~= both(a@, b@).take(k as int));
    }
    assert(both(a@, b@).take(k as int) =~= both(a@, b@));
    r
}

/// The first of `paths`, from index `i` on, whose check passed.
pub open spec fn first_hit_from(paths: Seq<Seq<char>>, checks: Seq<bool>, i: int) -> Option<Seq<char>>
    decreases paths.len() - i,
{
    if i < 0 || i >= paths.len() {
        None
    } else if hit(checks, i) {
        Some(paths[i])
    } else {
        first_hit_from(paths, checks, i + 1)
    }
}

/// The first of `paths` whose check passed.
pub open spec fn first_hit(paths: Seq<Seq<char>>, checks: Seq<bool>) -> Option<Seq<char>> {
    first_hit_from(paths, checks, 0)
}

/// The first of `paths` whose check passed.
pub fn first_hit_of(paths: &Vec<String>, checks: &Vec<bool>) -> (r: Option<String>)
    ensures
        opt_view(r) == first_hit(strings_view(paths@), checks@),
{
    let ghost ps = strings_view(paths@);
    let mut i: usize = 0;
    while i < paths.len()
        invariant
            i <= paths.len(),
            ps == strings_view(paths@),
            first_hit(ps, checks@) == first_hit_from(ps, checks@, i as int),
        decreases paths.len() - i,
    {
        if i < checks.len() && checks[i] {
            return Some(paths[i].clone());
        }
        i = i + 1;
    }
    None
}

/// Of the indices whose check passed, among the first `n`, the one with the
/// newest version name (see `version_le`); of equal versions the last. This
/// is the last element after a stable sort of the passing names by version.
pub open spec fn newest_upto(names: Seq<Seq<char>>, checks: Seq<bool>, n: int) -> Option<int>
    decreases n,
{
    if n <= 0 {
        None
    } else {
        let best = newest_upto(names, checks, n - 1);
        if hit(checks, n - 1) && (best is None || version_le(names[best->0], names[n - 1])) {
            Some(n - 1)
        } else {
            best
        }
    }
}

/// Of the indices whose check passed, the one with the newest version.
pub open spec fn newest(names: Seq<Seq<char>>, checks: Seq<bool>) -> Option<int> {
    newest_upto(names, checks, names.len() as int)
}

proof fn lemma_newest_upto_range(names: Seq<Seq<char>>, checks: Seq<bool>, n: int)
    requires
        n <= names.len(),
    ensures
        newest_upto(names, checks, n) matches Some(i) ==> 0 <= i < n && hit(checks, i),
    decreases n,
{
    if n > 0 {
        lemma_newest_upto_range(names, checks, n - 1);
    }
}

/// The index of the newest version name whose check passed.
pub fn newest_of(names: &Vec<String>, checks: &Vec<bool>) -> (r: Option<usize>)
    ensures
        r matches Some(i) ==> i < names.len() && hit(checks@, i as int)
            && newest(strings_view(names@), checks@) == Some(i as int),
        r is None ==> newest(strings_view(names@), checks@) is None,
{
    let ghost ns = strings_view(names@);
    let mut best: Option<usize> = None;
    let mut best_chars: Vec<char> = Vec::new();
    let mut i: usize = 0;
    while i < names.len()
        invariant
            i <= names.len(),
            ns == strings_view(names@),
            best == (match newest_upto(ns, checks@, i as int) {
                Some(k) => Some(k as usize),
                None => None::<usize>,
            }),
            best matches Some(k) ==> k < i && best_chars@ == ns[k as int],
        decreases names.len() - i,
    {
        proof {
            lemma_newest_upto_range(ns, checks@, i as int);
        }
        if i < checks.len() && checks[i] {
            let name = chars_of(names[i].as_str());
            let take = match best {
                None => true,
                Some(_) => version_le_of(&best_chars, &name),
            };
            if take {
                best = Some(i);
                best_chars = name;
            }
        }
        i = i + 1;
    }
    proof {
        lemma_newest_upto_range(ns, checks@, names.len() as int);
    }
    best
}

/// A directory that is relative and neither rooted nor on a drive, so that
/// joining it onto another path appends it.
pub open spec fn purely_relative(dir: Seq<char>, windows: bool) -> bool {
    &&& !is_absolute(dir, windows)
    &&& (dir.len() == 0 || !is_separator(dir[0], windows))
    &&& !(windows && dir.len() >= 2 && dir[1] == ':')
}

/// A `PATH` entry as a full path: kept if absolute, resolved against the
/// (absolute) current directory if purely relative (an empty entry is the
/// current directory itself), else left out.
pub open spec fn resolve_dir(dir: Seq<char>, cwd: Option<Seq<char>>, windows: bool) -> Option<Seq<char>> {
    if is_absolute(dir, windows) {
        Some(dir)
    } else if purely_relative(dir, windows) && cwd is Some && is_absolute(cwd->0, windows) {
        if dir.len() == 0 {
            cwd
        } else {
            Some(path_join(cwd->0, dir, windows))
        }
    } else {
        None
    }
}

/// The entries that resolve to full paths, resolved, in order.
pub open spec fn resolved_dirs(dirs: Seq<Seq<char>>, cwd: Option<Seq<char>>, windows: bool) -> Seq<Seq<char>>
    decreases dirs.len(),
{
    if dirs.len() == 0 {
        seq![]
    } else {
        let before = resolved_dirs(dirs.drop_last(), cwd, windows);
        match resolve_dir(dirs.last(), cwd, windows) {
            Some(d) => before.push(d),
            None => before,
        }
    }
}

/// The directories listed in a `PATH` value (none when it is unset), as
/// full paths.
pub open spec fn path_dirs(path_var: Option<Seq<char>>, cwd: Option<Seq<char>>, windows: bool) -> Seq<Seq<char>> {
    match path_var {
        Some(p) => resolved_dirs(split_on(p, list_separator(windows)), cwd, windows),
        None => seq![],
    }
}

/// `dir/name` for each directory.
pub open spec fn joined_all(dirs: Seq<Seq<char>>, name: Seq<char>, windows: bool) -> Seq<Seq<char>> {
    dirs.map_values(|d: Seq<char>| path_join(d, name, windows))
}

fn resolve_dir_of(dir: &Vec<char>, cwd: &Option<Vec<char>>, windows: bool) -> (r: Option<Vec<char>>)
    ensures
        match r {
            Some(v) => resolve_dir(dir@, cwd_view(*cwd), windows) == Some(v@),
            None => resolve_dir(dir@, cwd_view(*cwd), windows) is None,
        },
{
    if absolute(dir, windows) {
        return Some(slice_chars(dir, 0, dir.len()));
    }
    let rooted = dir.len() > 0 && separator(dir[0], windows);
    let drive = windows && dir.len() >= 2 && dir[1] == ':';
    if rooted || drive {
        return None;
    }
    match cwd {
        Some(c) => {
            if !absolute(c, windows) {
                None
            } else if dir.len() == 0 {
                Some(slice_chars(c, 0, c.len()))
            } else {
                Some(join_path(c, dir, windows))
            }
        },
        None => None,
    }
}

/// The view of an optional character vector.
pub open spec fn cwd_view(c: Option<Vec<char>>) -> Option<Seq<char>> {
    match c {
        Some(v) => Some(v@),
        None => None,
    }
}

fn chars_opt(s: &Option<String>) -> (r: Option<Vec<char>>)
    ensures
        cwd_view(r) == opt_view(*s),
{
    match s {
        Some(x) => Some(chars_of(x.as_str())),
        None => None,
    }
}

/// The directories of a `PATH` value, as full paths.
pub fn path_dirs_of(path_var: &Option<String>, cwd: &Option<String>, windows: bool) -> (r: Vec<Vec<char>>)
    ensures
        views(r@) == path_dirs(opt_view(*path_var), opt_view(*cwd), windows),
{
    let mut r: Vec<Vec<char>> = Vec::new();
    assert(views(r@) =~= seq![]);
    if let Some(p) = path_var {
        let c = chars_opt(cwd);
        let cs = chars_of(p.as_str());
        let sep = if windows { ';' } else { ':' };
        let parts = split_chars(&cs, sep);
        let ghost ps = views(parts@);
        let mut k: usize = 0;
        while k < parts.len()
            invariant
                k <= parts.len(),
                ps == views(parts@),
                ps == split_on(p@, list_separator(windows)),
                cwd_view(c) == opt_view(*cwd),
                views(r@) == resolved_dirs(ps.take(k as int), opt_view(*cwd), windows),
            decreases parts.len() - k,
        {
            assert(ps.take(k + 1).drop_last() =~= ps.take(k as int));
            assert(ps[k as int] == parts@[k as int]@);
            if let Some(d) = resolve_dir_of(&parts[k], &c, windows) {
                let ghost before = r@;
                r.push(d);
                assert(views(r@) =~= views(before).push(d@));
            }
            k = k + 1;
        }
        assert(ps.take(k as int) =~= ps);
    }
    r
}

/// `dir/name` for each directory, as strings.
pub fn joined_all_of(dirs: &Vec<Vec<char>>, name: &str, windows: bool) -> (r: Vec<String>)
    ensures
        strings_view(r@) == joined_all(views(dirs@), name@, windows),
{
    let name_chars = chars_of(name);
    let mut r: Vec<String> = Vec::new();
    let mut k: usize = 0;
    while k < dirs.len()
        invariant
            k <= dirs.len(),
            name_chars@ == name@,
            strings_view(r@) == joined_all(views(dirs@), name@, windows).take(k as int),
        decreases dirs.len() - k,
    {
        let joined = join_path(&dirs[k], &name_chars, windows);
        let ghost before = r@;
        r.push(string_of(joined.as_slice()));
        assert(views(dirs@)[k as int] == dirs@[k as int]@);
        assert(strings_view(r@) =~= strings_view(before).push(joined@));
        assert(strings_view(r@) =~= joined_all(views(dirs@), name@, windows).take(k + 1));
        k = k + 1;
    }
    assert(joined_all(views(dirs@), name@, windows).take(k as int) =~= joined_all(views(dirs@), name@, windows));
    r
}

proof fn lemma_resolved_dirs_absolute(dirs: Seq<Seq<char>>, cwd: Option<Seq<char>>, windows: bool)
    ensures
        forall|i: int| 0 <= i < resolved_dirs(dirs, cwd, windows).len()
            ==> is_absolute(#[trigger] resolved_dirs(dirs, cwd, windows)[i], windows),
    decreases dirs.len(),
{
    if dirs.len() > 0 {
        lemma_resolved_dirs_absolute(dirs.drop_last(), cwd, windows);
        let before = resolved_dirs(dirs.drop_last(), cwd, windows);
        let d = dirs.last();
        if !is_absolute(d, windows) && purely_relative(d, windows) && cwd is Some && is_absolute(cwd->0, windows)
            && d.len() > 0 {
            lemma_join_keeps_absolute(cwd->0, d, windows);
        }
        if let Some(r) = resolve_dir(d, cwd, windows) {
            assert(is_absolute(r, windows));
            let all = before.push(r);
            assert forall|i: int| 0 <= i < all.len() implies is_absolute(#[trigger] all[i], windows) by {
                if i < before.len() {
                    assert(all[i] == before[i]);
                }
            }
        }
    }
}

/// Every place looked at on `PATH` is a full path: relative entries are
/// resolved against the current directory or left out.
pub proof fn law_path_places_absolute(path_var: Option<Seq<char>>, cwd: Option<Seq<char>>, windows: bool, name: Seq<char>)
    ensures
        forall|i: int| 0 <= i < joined_all(path_dirs(path_var, cwd, windows), name, windows).len()
            ==> is_absolute(#[trigger] joined_all(path_dirs(path_var, cwd, windows), name, windows)[i], windows),
{
    if let Some(p) = path_var {
        lemma_resolved_dirs_absolute(split_on(p, list_separator(windows)), cwd, windows);
    }
    let dirs = path_dirs(path_var, cwd, windows);
    assert forall|i: int| 0 <= i < joined_all(dirs, name, windows).len()
        implies is_absolute(#[trigger] joined_all(dirs, name, windows)[i], windows) by {
        lemma_join_keeps_absolute(dirs[i], name, windows);
    }
}


/// What the Node.js search reads from the environment and the file system.
pub struct NodeEnv {
    /// `PATH`, if set and valid Unicode.
    pub path_var: Option<String>,
    /// The current directory, against which relative `PATH` entries are
    /// resolved.
    pub current_dir: Option<String>,
    /// `HOME`, if set; without it no version manager is looked at.
    pub home: Option<String>,
    /// `NVM_BIN`, if set.
    pub nvm_bin: Option<String>,
    /// The entry names of the nvm versions directory (see
    /// `nvm_versions_dir`), when it is a directory that could be read.
    pub nvm_versions: Option<Vec<String>>,
    /// `FNM_DIR`, if set.
    pub fnm_dir: Option<String>,
    /// The entry names of the fnm versions directory (see
    /// `fnm_versions_dir`), when it is a directory that could be read.
    pub fnm_versions: Option<Vec<String>>,
    /// `VOLTA_HOME`, if set.
    pub volta_home: Option<String>,
}

/// The places where Node.js is looked for, in the order of the search.
/// All but `fixed` are tested with `Path::is_file`, `fixed` with
/// `Path::exists`.
pub struct NodeCandidates {
    /// `dir/node` for each directory of `PATH`.
    pub node_on_path: Vec<String>,
    /// `dir/nodejs` for each directory of `PATH`.
    pub nodejs_on_path: Vec<String>,
    /// `$NVM_BIN/node`.
    pub nvm_bin: Option<String>,
    /// `<nvm versions dir>/<entry>/bin/node`, one per entry name.
    pub nvm_versions: Vec<String>,
    /// `<fnm versions dir>/<entry>/installation/bin/node`, one per entry.
    pub fnm_versions: Vec<String>,
    /// `$VOLTA_HOME/bin/node`.
    pub volta: Option<String>,
    /// Well-known install locations.
    pub fixed: Vec<String>,
}

/// Which of the places of a `NodeCandidates` held a binary, field by field
/// and index by index; an answer that is missing counts as not found.
pub struct NodeChecks {
    pub node_on_path: Vec<bool>,
    pub nodejs_on_path: Vec<bool>,
    pub nvm_bin: bool,
    pub nvm_versions: Vec<bool>,
    pub fnm_versions: Vec<bool>,
    pub volta: bool,
    pub fixed: Vec<bool>,
}

/// The well-known places of a Node.js binary: Homebrew on Apple silicon,
/// Homebrew on Intel (and nvm's default link), the system's, Debian's name.
pub open spec fn fixed_node_paths() -> Seq<Seq<char>> {
    seq!["/opt/homebrew/bin/node"@, "/usr/local/bin/node"@, "/usr/bin/node"@, "/usr/bin/nodejs"@]
}

/// The directory that holds the versions installed by nvm.
pub open spec fn nvm_versions_path(home: Seq<char>, windows: bool) -> Seq<char> {
    path_join(home, ".nvm/versions/node"@, windows)
}

/// The directory that holds the versions installed by nvm.
pub fn nvm_versions_dir(home: &str, windows: bool) -> (r: String)
    ensures
        r@ == nvm_versions_path(home@, windows),
{
    join_str(home, ".nvm/versions/node", windows)
}

/// The directory of fnm: `FNM_DIR`, else its default data directory
/// `$HOME/.local/share/fnm`.
pub open spec fn fnm_root(home: Seq<char>, fnm_dir: Option<Seq<char>>, windows: bool) -> Seq<char> {
    match fnm_dir {
        Some(d) => d,
        None => path_join(home, ".local/share/fnm"@, windows),
    }
}

/// The directory that holds the versions installed by fnm.
pub open spec fn fnm_versions_path(home: Seq<char>, fnm_dir: Option<Seq<char>>, windows: bool) -> Seq<char> {
    path_join(fnm_root(home, fnm_dir, windows), "node-versions"@, windows)
}

/// The directory that holds the versions installed by fnm.
pub fn fnm_versions_dir(home: &str, fnm_dir: &Option<String>, windows: bool) -> (r: String)
    ensures
        r@ == fnm_versions_path(home@, opt_view(*fnm_dir), windows),
{
    let root = match fnm_dir {
        Some(d) => d.clone(),
        None => join_str(home, ".local/share/fnm", windows),
    };
    join_str(root.as_str(), "node-versions", windows)
}

/// `<base>/<name>/<sub>` for each version name.
pub open spec fn version_nodes(base: Seq<char>, names: Seq<Seq<char>>, sub: Seq<char>, windows: bool) -> Seq<Seq<char>> {
    names.map_values(|n: Seq<char>| path_join(path_join(base, n, windows), sub, windows))
}

/// `path_join(base, name)` when there is a base.
pub open spec fn join_opt(base: Option<Seq<char>>, name: Seq<char>, windows: bool) -> Option<Seq<char>> {
    match base {
        Some(b) => Some(path_join(b, name, windows)),
        None => None,
    }
}

/// `dir/node` for each directory of `PATH`.
pub open spec fn spec_node_on_path(env: &NodeEnv, windows: bool) -> Seq<Seq<char>> {
    joined_all(path_dirs(opt_view(env.path_var), opt_view(env.current_dir), windows), "node"@, windows)
}

/// `dir/nodejs` for each directory of `PATH`.
pub open spec fn spec_nodejs_on_path(env: &NodeEnv, windows: bool) -> Seq<Seq<char>> {
    joined_all(path_dirs(opt_view(env.path_var), opt_view(env.current_dir), windows), "nodejs"@, windows)
}

/// `$NVM_BIN/node`, looked at only when `HOME` is set.
pub open spec fn spec_nvm_bin(env: &NodeEnv, windows: bool) -> Option<Seq<char>> {
    if env.home is Some {
        join_opt(opt_view(env.nvm_bin), "node"@, windows)
    } else {
        None
    }
}

/// `bin/node` of each nvm version, looked at only when `HOME` is set.
pub open spec fn spec_nvm_versions(env: &NodeEnv, windows: bool) -> Seq<Seq<char>> {
    match (env.home, env.nvm_versions) {
        (Some(home), Some(names)) => version_nodes(
            nvm_versions_path(home@, windows),
            strings_view(names@),
            "bin/node"@,
            windows,
        ),
        _ => seq![],
    }
}

/// `installation/bin/node` of each fnm version, looked at only when `HOME`
/// is set.
pub open spec fn spec_fnm_versions(env: &NodeEnv, windows: bool) -> Seq<Seq<char>> {
    match (env.home, env.fnm_versions) {
        (Some(home), Some(names)) => version_nodes(
            fnm_versions_path(home@, opt_view(env.fnm_dir), windows),
            strings_view(names@),
            "installation/bin/node"@,
            windows,
        ),
        _ => seq![],
    }
}

/// `$VOLTA_HOME/bin/node`, looked at only when `HOME` is set.
pub open spec fn spec_volta(env: &NodeEnv, windows: bool) -> Option<Seq<char>> {
    if env.home is Some {
        join_opt(opt_view(env.volta_home), "bin/node"@, windows)
    } else {
        None
    }
}

/// The candidates are exactly those of the search: the `PATH` ones, then,
/// when `HOME` is set, those of nvm, fnm and volta, then the fixed ones.
pub open spec fn candidates_match(c: &NodeCandidates, env: &NodeEnv, windows: bool) -> bool {
    &&& strings_view(c.node_on_path@) == spec_node_on_path(env, windows)
    &&& strings_view(c.nodejs_on_path@) == spec_nodejs_on_path(env, windows)
    &&& opt_view(c.nvm_bin) == spec_nvm_bin(env, windows)
    &&& strings_view(c.nvm_versions@) == spec_nvm_versions(env, windows)
    &&& strings_view(c.fnm_versions@) == spec_fnm_versions(env, windows)
    &&& opt_view(c.volta) == spec_volta(env, windows)
    &&& strings_view(c.fixed@) == fixed_node_paths()
}

fn join_opt_of(base: &Option<String>, name: &str, windows: bool) -> (r: Option<String>)
    ensures
        opt_view(r) == join_opt(opt_view(*base), name@, windows),
{
    match base {
        Some(b) => Some(join_str(b.as_str(), name, windows)),
        None => None,
    }
}

/// `<base>/<name>/<sub>` for each version name.
fn version_nodes_of(base: &String, names: &Vec<String>, sub: &str, windows: bool) -> (r: Vec<String>)
    ensures
        strings_view(r@) == version_nodes(base@, strings_view(names@), sub@, windows),
{
    let mut r: Vec<String> = Vec::new();
    let mut k: usize = 0;
    while k < names.len()
        invariant
            k <= names.len(),
            strings_view(r@) == version_nodes(base@, strings_view(names@), sub@, windows).take(k as int),
        decreases names.len() - k,
    {
        let dir = join_str(base.as_str(), names[k].as_str(), windows);
        let node = join_str(dir.as_str(), sub, windows);
        let ghost before = r@;
        r.push(node);
        assert(strings_view(names@)[k as int] == names@[k as int]@);
        assert(strings_view(r@) =~= strings_view(before).push(node@));
        assert(strings_view(r@) =~= version_nodes(base@, strings_view(names@), sub@, windows).take(k + 1));
        k = k + 1;
    }
    assert(version_nodes(base@, strings_view(names@), sub@, windows).take(k as int) =~= version_nodes(
        base@,
        strings_view(names@),
        sub@,
        windows,
    ));
    r
}

/// The places to look at for Node.js, in the order of the search.
pub fn node_candidates(env: &NodeEnv, windows: bool) -> (r: NodeCandidates)
    ensures
        candidates_match(&r, env, windows),
{
    let dirs = path_dirs_of(&env.path_var, &env.current_dir, windows);
    let node_on_path = joined_all_of(&dirs, "node", windows);
    let nodejs_on_path = joined_all_of(&dirs, "nodejs", windows);
    let mut nvm_bin: Option<String> = None;
    let mut nvm_versions: Vec<String> = Vec::new();
    let mut fnm_versions: Vec<String> = Vec::new();
    let mut volta: Option<String> = None;
    assert(strings_view(nvm_versions@) =~= seq![]);
    assert(strings_view(fnm_versions@) =~= seq![]);
    if let Some(home) = &env.home {
        nvm_bin = join_opt_of(&env.nvm_bin, "node", windows);
        volta = join_opt_of(&env.volta_home, "bin/node", windows);
        if let Some(names) = &env.nvm_versions {
            let base = nvm_versions_dir(home.as_str(), windows);
            nvm_versions = version_nodes_of(&base, names, "bin/node", windows);
        }
        if let Some(names) = &env.fnm_versions {
            let base = fnm_versions_dir(home.as_str(), &env.fnm_dir, windows);
            fnm_versions = version_nodes_of(&base, names, "installation/bin/node", windows);
        }
    }
    let mut fixed: Vec<String> = Vec::new();
    fixed.push(String::from_str("/opt/homebrew/bin/node"));
    fixed.push(String::from_str("/usr/local/bin/node"));
    fixed.push(String::from_str("/usr/bin/node"));
    fixed.push(String::from_str("/usr/bin/nodejs"));
    assert(strings_view(fixed@) =~= fixed_node_paths());
    NodeCandidates { node_on_path, nodejs_on_path, nvm_bin, nvm_versions, fnm_versions, volta, fixed }
}

/// The binary of the newest version whose check passed, from a list of
/// version names and their places.
pub open spec fn newest_place(names: Option<Vec<String>>, places: Seq<Seq<char>>, checks: Seq<bool>) -> Option<Seq<char>> {
    match names {
        Some(ns) => match newest(strings_view(ns@), checks) {
            Some(i) => Some(places[i]),
            None => None,
        },
        None => None,
    }
}

/// The search of the version managers: `$NVM_BIN/node`, then the newest
/// nvm version that has `bin/node`, then the newest fnm version that has
/// `installation/bin/node`, then `$VOLTA_HOME/bin/node`.
pub open spec fn version_manager_node(env: &NodeEnv, windows: bool, checks: &NodeChecks) -> Option<Seq<char>> {
    if env.home is None {
        None
    } else if spec_nvm_bin(env, windows) is Some && checks.nvm_bin {
        spec_nvm_bin(env, windows)
    } else if newest_place(env.nvm_versions, spec_nvm_versions(env, windows), checks.nvm_versions@) is Some {
        newest_place(env.nvm_versions, spec_nvm_versions(env, windows), checks.nvm_versions@)
    } else if newest_place(env.fnm_versions, spec_fnm_versions(env, windows), checks.fnm_versions@) is Some {
        newest_place(env.fnm_versions, spec_fnm_versions(env, windows), checks.fnm_versions@)
    } else if spec_volta(env, windows) is Some && checks.volta {
        spec_volta(env, windows)
    } else {
        None
    }
}

/// The Node.js binary that the search finds: the first `node` on `PATH`,
/// else the first `nodejs` on `PATH`, else one of a version manager, else
/// the first fixed location that exists.
pub open spec fn node_found(env: &NodeEnv, windows: bool, checks: &NodeChecks) -> Option<Seq<char>> {
    if first_hit(spec_node_on_path(env, windows), checks.node_on_path@) is Some {
        first_hit(spec_node_on_path(env, windows), checks.node_on_path@)
    } else if first_hit(spec_nodejs_on_path(env, windows), checks.nodejs_on_path@) is Some {
        first_hit(spec_nodejs_on_path(env, windows), checks.nodejs_on_path@)
    } else if version_manager_node(env, windows, checks) is Some {
        version_manager_node(env, windows, checks)
    } else {
        first_hit(fixed_node_paths(), checks.fixed@)
    }
}

/// The binary of the newest version whose check passed.
fn newest_place_of(names: &Option<Vec<String>>, places: &Vec<String>, checks: &Vec<bool>) -> (r: Option<String>)
    requires
        names matches Some(ns) ==> ns@.len() == places@.len(),
    ensures
        opt_view(r) == newest_place(*names, strings_view(places@), checks@),
{
    match names {
        Some(ns) => match newest_of(ns, checks) {
            Some(i) => {
                assert(strings_view(places@)[i as int] == places@[i as int]@);
                Some(places[i].clone())
            },
            None => None,
        },
        None => None,
    }
}

/// The path of a Node.js binary, given which of the places that
/// `node_candidates(env, windows)` lists held one.
pub fn find_node(env: &NodeEnv, windows: bool, checks: &NodeChecks) -> (r: Option<String>)
    ensures
        opt_view(r) == node_found(env, windows, checks),
{
    let c = node_candidates(env, windows);
    let on_path = first_hit_of(&c.node_on_path, &checks.node_on_path);
    if on_path.is_some() {
        return on_path;
    }
    let on_path_js = first_hit_of(&c.nodejs_on_path, &checks.nodejs_on_path);
    if on_path_js.is_some() {
        return on_path_js;
    }
    if env.home.is_none() {
        return first_hit_of(&c.fixed, &checks.fixed);
    }
    if c.nvm_bin.is_some() && checks.nvm_bin {
        return c.nvm_bin;
    }
    assert(env.nvm_versions matches Some(ns) ==> strings_view(ns@).len() == ns@.len());
    assert(strings_view(c.nvm_versions@).len() == c.nvm_versions@.len());
    let nvm = newest_place_of(&env.nvm_versions, &c.nvm_versions, &checks.nvm_versions);
    if nvm.is_some() {
        return nvm;
    }
    assert(env.fnm_versions matches Some(ns) ==> strings_view(ns@).len() == ns@.len());
    assert(strings_view(c.fnm_versions@).len() == c.fnm_versions@.len());
    let fnm = newest_place_of(&env.fnm_versions, &c.fnm_versions, &checks.fnm_versions);
    if fnm.is_some() {
        return fnm;
    }
    if c.volta.is_some() && checks.volta {
        return c.volta;
    }
    first_hit_of(&c.fixed, &checks.fixed)
}


/// What the ffmpeg search reads from the environment.
pub struct FfmpegEnv {
    /// The directory of the running executable, if it could be found.
    pub exe_dir: Option<String>,
    /// `PATH`, if set and valid Unicode.
    pub path_var: Option<String>,
    /// The current directory, against which relative `PATH` entries are
    /// resolved.
    pub current_dir: Option<String>,
}

/// The places where ffmpeg and ffprobe are looked for, in the order of the
/// search; each `*_ffprobe` list lies index by index in the same directory
/// as its ffmpeg list. `beside_exe*` and `fixed*` are tested with
/// `Path::exists`, `on_path*` with `Path::is_file`.
pub struct FfmpegCandidates {
    /// `ffmpeg.exe` and `ffmpeg` in the executable's directory.
    pub beside_exe: Vec<String>,
    /// `ffprobe.exe` and `ffprobe` in the executable's directory.
    pub beside_exe_ffprobe: Vec<String>,
    /// `dir/ffmpeg` for each directory of `PATH`.
    pub on_path: Vec<String>,
    /// `dir/ffprobe` for each directory of `PATH`.
    pub on_path_ffprobe: Vec<String>,
    /// Well-known install locations of ffmpeg.
    pub fixed: Vec<String>,
    /// ffprobe beside each well-known ffmpeg.
    pub fixed_ffprobe: Vec<String>,
}

/// Which of the places of a `FfmpegCandidates` held a binary; an answer that
/// is missing counts as not found.
pub struct FfmpegChecks {
    pub beside_exe: Vec<bool>,
    pub beside_exe_ffprobe: Vec<bool>,
    pub on_path: Vec<bool>,
    pub on_path_ffprobe: Vec<bool>,
    pub fixed: Vec<bool>,
    pub fixed_ffprobe: Vec<bool>,
}

/// The well-known directories of ffmpeg: Homebrew on Apple silicon,
/// Homebrew on Intel, the system's.
pub open spec fn fixed_ffmpeg_dirs() -> Seq<Seq<char>> {
    seq!["/opt/homebrew/bin"@, "/usr/local/bin"@, "/usr/bin"@]
}

/// The well-known places of ffmpeg, one in each well-known directory.
pub open spec fn fixed_ffmpeg_paths() -> Seq<Seq<char>> {
    seq!["/opt/homebrew/bin/ffmpeg"@, "/usr/local/bin/ffmpeg"@, "/usr/bin/ffmpeg"@]
}

/// ffprobe beside each well-known ffmpeg.
pub open spec fn fixed_ffprobe_paths() -> Seq<Seq<char>> {
    seq!["/opt/homebrew/bin/ffprobe"@, "/usr/local/bin/ffprobe"@, "/usr/bin/ffprobe"@]
}

/// Each well-known place is its directory followed by `/ffmpeg` or
/// `/ffprobe`.
pub proof fn lemma_fixed_places()
    ensures
        fixed_ffmpeg_dirs().len() == 3,
        fixed_ffmpeg_paths().len() == 3,
        fixed_ffprobe_paths().len() == 3,
        forall|k: int| 0 <= k < 3 ==> #[trigger] fixed_ffmpeg_paths()[k] == fixed_ffmpeg_dirs()[k] + "/ffmpeg"@,
        forall|k: int| 0 <= k < 3 ==> #[trigger] fixed_ffprobe_paths()[k] == fixed_ffmpeg_dirs()[k] + "/ffprobe"@,
{
    reveal_strlit("/opt/homebrew/bin");
    reveal_strlit("/usr/local/bin");
    reveal_strlit("/usr/bin");
    reveal_strlit("/opt/homebrew/bin/ffmpeg");
    reveal_strlit("/usr/local/bin/ffmpeg");
    reveal_strlit("/usr/bin/ffmpeg");
    reveal_strlit("/opt/homebrew/bin/ffprobe");
    reveal_strlit("/usr/local/bin/ffprobe");
    reveal_strlit("/usr/bin/ffprobe");
    reveal_strlit("/ffmpeg");
    reveal_strlit("/ffprobe");
    assert("/opt/homebrew/bin/ffmpeg"@ =~= "/opt/homebrew/bin"@ + "/ffmpeg"@);
    assert("/usr/local/bin/ffmpeg"@ =~= "/usr/local/bin"@ + "/ffmpeg"@);
    assert("/usr/bin/ffmpeg"@ =~= "/usr/bin"@ + "/ffmpeg"@);
    assert("/opt/homebrew/bin/ffprobe"@ =~= "/opt/homebrew/bin"@ + "/ffprobe"@);
    assert("/usr/local/bin/ffprobe"@ =~= "/usr/local/bin"@ + "/ffprobe"@);
    assert("/usr/bin/ffprobe"@ =~= "/usr/bin"@ + "/ffprobe"@);
}

/// `<dir>/<tool>.exe` and `<dir>/<tool>`.
pub open spec fn beside(dir: Seq<char>, tool: Seq<char>, windows: bool) -> Seq<Seq<char>> {
    seq![path_join(dir, tool + ".exe"@, windows), path_join(dir, tool, windows)]
}

/// The places of a tool beside the running executable.
pub open spec fn spec_beside_exe(env: &FfmpegEnv, tool: Seq<char>, windows: bool) -> Seq<Seq<char>> {
    match env.exe_dir {
        Some(d) => beside(d@, tool, windows),
        None => seq![],
    }
}

/// The directories of `PATH` for the ffmpeg search.
pub open spec fn ffmpeg_path_dirs(env: &FfmpegEnv, windows: bool) -> Seq<Seq<char>> {
    path_dirs(opt_view(env.path_var), opt_view(env.current_dir), windows)
}

/// The ffmpeg directory that the search finds: the executable's own
/// directory if ffmpeg and ffprobe lie there, else the first `PATH`
/// directory that holds both, else the first well-known directory that
/// holds both.
pub open spec fn ffmpeg_dir_found(env: &FfmpegEnv, windows: bool, checks: &FfmpegChecks) -> Option<Seq<char>> {
    if env.exe_dir is Some && first_hit(spec_beside_exe(env, "ffmpeg"@, windows), checks.beside_exe@) is Some
        && first_hit(spec_beside_exe(env, "ffprobe"@, windows), checks.beside_exe_ffprobe@) is Some {
        opt_view(env.exe_dir)
    } else if first_hit(ffmpeg_path_dirs(env, windows), both(checks.on_path@, checks.on_path_ffprobe@)) is Some {
        first_hit(ffmpeg_path_dirs(env, windows), both(checks.on_path@, checks.on_path_ffprobe@))
    } else {
        first_hit(fixed_ffmpeg_dirs(), both(checks.fixed@, checks.fixed_ffprobe@))
    }
}

fn beside_exe_of(dir: &Option<String>, tool: &str, tool_exe: &str, windows: bool) -> (r: Vec<String>)
    requires
        tool_exe@ == tool@ + ".exe"@,
    ensures
        strings_view(r@) == (match opt_view(*dir) {
            Some(d) => beside(d, tool@, windows),
            None => seq![],
        }),
{
    let mut r: Vec<String> = Vec::new();
    if let Some(d) = dir {
        r.push(join_str(d.as_str(), tool_exe, windows));
        r.push(join_str(d.as_str(), tool, windows));
    }
    assert(strings_view(r@) =~= (match opt_view(*dir) {
        Some(d) => beside(d, tool@, windows),
        None => seq![],
    }));
    r
}

/// The places to look at for ffmpeg and ffprobe, in the order of the search.
pub fn ffmpeg_candidates(env: &FfmpegEnv, windows: bool) -> (r: FfmpegCandidates)
    ensures
        strings_view(r.beside_exe@) == spec_beside_exe(env, "ffmpeg"@, windows),
        strings_view(r.beside_exe_ffprobe@) == spec_beside_exe(env, "ffprobe"@, windows),
        strings_view(r.on_path@) == joined_all(ffmpeg_path_dirs(env, windows), "ffmpeg"@, windows),
        strings_view(r.on_path_ffprobe@) == joined_all(ffmpeg_path_dirs(env, windows), "ffprobe"@, windows),
        strings_view(r.fixed@) == fixed_ffmpeg_paths(),
        strings_view(r.fixed_ffprobe@) == fixed_ffprobe_paths(),
{
    proof {
        reveal_strlit("ffmpeg");
        reveal_strlit("ffmpeg.exe");
        reveal_strlit("ffprobe");
        reveal_strlit("ffprobe.exe");
        reveal_strlit(".exe");
        assert("ffmpeg.exe"@ =~= "ffmpeg"@ + ".exe"@);
        assert("ffprobe.exe"@ =~= "ffprobe"@ + ".exe"@);
    }
    let beside_exe = beside_exe_of(&env.exe_dir, "ffmpeg", "ffmpeg.exe", windows);
    let beside_exe_ffprobe = beside_exe_of(&env.exe_dir, "ffprobe", "ffprobe.exe", windows);
    let dirs = path_dirs_of(&env.path_var, &env.current_dir, windows);
    let on_path = joined_all_of(&dirs, "ffmpeg", windows);
    let on_path_ffprobe = joined_all_of(&dirs, "ffprobe", windows);
    let mut fixed: Vec<String> = Vec::new();
    fixed.push(String::from_str("/opt/homebrew/bin/ffmpeg"));
    fixed.push(String::from_str("/usr/local/bin/ffmpeg"));
    fixed.push(String::from_str("/usr/bin/ffmpeg"));
    assert(strings_view(fixed@) =~= fixed_ffmpeg_paths());
    let mut fixed_ffprobe: Vec<String> = Vec::new();
    fixed_ffprobe.push(String::from_str("/opt/homebrew/bin/ffprobe"));
    fixed_ffprobe.push(String::from_str("/usr/local/bin/ffprobe"));
    fixed_ffprobe.push(String::from_str("/usr/bin/ffprobe"));
    assert(strings_view(fixed_ffprobe@) =~= fixed_ffprobe_paths());
    FfmpegCandidates { beside_exe, beside_exe_ffprobe, on_path, on_path_ffprobe, fixed, fixed_ffprobe }
}

/// Character vectors as strings.
fn strings_from(dirs: &Vec<Vec<char>>) -> (r: Vec<String>)
    ensures
        strings_view(r@) == views(dirs@),
{
    let mut r: Vec<String> = Vec::new();
    let mut k: usize = 0;
    while k < dirs.len()
        invariant
            k <= dirs.len(),
            strings_view(r@) == views(dirs@).take(k as int),
        decreases dirs.len() - k,
    {
        let ghost before = r@;
        let d = string_of(dirs[k].as_slice());
        r.push(d);
        assert(views(dirs@)[k as int] == dirs@[k as int]@);
        assert(strings_view(r@) =~= strings_view(before).push(d@));
        assert(strings_view(r@) =~= views(dirs@).take(k + 1));
        k = k + 1;
    }
    assert(views(dirs@).take(k as int) =~= views(dirs@));
    r
}

/// The directory that holds ffmpeg and ffprobe, given which of the places
/// that `ffmpeg_candidates(env, windows)` lists held them.
pub fn find_ffmpeg_dir(env: &FfmpegEnv, windows: bool, checks: &FfmpegChecks) -> (r: Option<String>)
    ensures
        opt_view(r) == ffmpeg_dir_found(env, windows, checks),
{
    let c = ffmpeg_candidates(env, windows);
    if env.exe_dir.is_some() && first_hit_of(&c.beside_exe, &checks.beside_exe).is_some()
        && first_hit_of(&c.beside_exe_ffprobe, &checks.beside_exe_ffprobe).is_some() {
        return env.exe_dir.clone();
    }
    let dirs = strings_from(&path_dirs_of(&env.path_var, &env.current_dir, windows));
    let on_path_both = both_of(&checks.on_path, &checks.on_path_ffprobe);
    let from_path = first_hit_of(&dirs, &on_path_both);
    if from_path.is_some() {
        return from_path;
    }
    let mut fixed_dirs: Vec<String> = Vec::new();
    fixed_dirs.push(String::from_str("/opt/homebrew/bin"));
    fixed_dirs.push(String::from_str("/usr/local/bin"));
    fixed_dirs.push(String::from_str("/usr/bin"));
    assert(strings_view(fixed_dirs@) =~= fixed_ffmpeg_dirs());
    let fixed_both = both_of(&checks.fixed, &checks.fixed_ffprobe);
    first_hit_of(&fixed_dirs, &fixed_both)
}


/// The newest version is the greatest name in the version order among
/// those that hold a Node.js binary, as sorting the found versions and
/// taking the last gives; there is none only when no version holds one.
pub proof fn law_newest_is_greatest(names: Seq<Seq<char>>, checks: Seq<bool>, n: int)
    requires
        0 <= n <= names.len(),
    ensures
        newest_upto(names, checks, n) matches Some(i) ==> 0 <= i < n && hit(checks, i)
            && forall|j: int| 0 <= j < n && hit(checks, j) ==> version_le(#[trigger] names[j], names[i]),
        newest_upto(names, checks, n) is None ==> forall|j: int| 0 <= j < n ==> !hit(checks, j),
    decreases n,
{
    if n > 0 {
        law_newest_is_greatest(names, checks, n - 1);
        let best = newest_upto(names, checks, n - 1);
        lemma_version_le_total(names[n - 1], names[n - 1]);
        if let Some(b) = best {
            lemma_version_le_total(names[b], names[n - 1]);
            if hit(checks, n - 1) && version_le(names[b], names[n - 1]) {
                assert forall|j: int| 0 <= j < n && hit(checks, j) implies version_le(#[trigger] names[j], names[n - 1]) by {
                    if j < n - 1 {
                        lemma_version_le_transitive(names[j], names[b], names[n - 1]);
                    }
                }
            }
        }
    }
}

/// What `first_hit` finds is one of the places, and its check passed.
pub proof fn law_first_hit_was_found(paths: Seq<Seq<char>>, checks: Seq<bool>, i: int)
    requires
        0 <= i,
    ensures
        first_hit_from(paths, checks, i) matches Some(p) ==> exists|k: int| i <= k < paths.len() && hit(checks, k) && paths[k] == p,
    decreases paths.len() - i,
{
    if i < paths.len() && !hit(checks, i) {
        law_first_hit_was_found(paths, checks, i + 1);
    }
}

/// Whether `p` is one of `paths` whose check passed.
pub open spec fn checked_place(paths: Seq<Seq<char>>, checks: Seq<bool>, p: Seq<char>) -> bool {
    exists|k: int| 0 <= k < paths.len() && hit(checks, k) && paths[k] == p
}

/// The Node.js binary found is one of the listed places whose check
/// passed.
pub proof fn law_node_found_was_checked(env: &NodeEnv, windows: bool, checks: &NodeChecks)
    ensures
        node_found(env, windows, checks) matches Some(p) ==> {
            ||| checked_place(spec_node_on_path(env, windows), checks.node_on_path@, p)
            ||| checked_place(spec_nodejs_on_path(env, windows), checks.nodejs_on_path@, p)
            ||| (spec_nvm_bin(env, windows) == Some(p) && checks.nvm_bin)
            ||| checked_place(spec_nvm_versions(env, windows), checks.nvm_versions@, p)
            ||| checked_place(spec_fnm_versions(env, windows), checks.fnm_versions@, p)
            ||| (spec_volta(env, windows) == Some(p) && checks.volta)
            ||| checked_place(fixed_node_paths(), checks.fixed@, p)
        },
{
    law_first_hit_was_found(spec_node_on_path(env, windows), checks.node_on_path@, 0);
    law_first_hit_was_found(spec_nodejs_on_path(env, windows), checks.nodejs_on_path@, 0);
    law_first_hit_was_found(fixed_node_paths(), checks.fixed@, 0);
    if env.home is Some && env.nvm_versions is Some {
        let names = strings_view(env.nvm_versions->0@);
        law_newest_is_greatest(names, checks.nvm_versions@, names.len() as int);
    }
    if env.home is Some && env.fnm_versions is Some {
        let names = strings_view(env.fnm_versions->0@);
        law_newest_is_greatest(names, checks.fnm_versions@, names.len() as int);
    }
}

/// `first_hit` finds nothing when no check of its places passed.
proof fn lemma_no_hit(paths: Seq<Seq<char>>, checks: Seq<bool>)
    requires
        forall|i: int| 0 <= i < paths.len() ==> !#[trigger] hit(checks, i),
    ensures
        first_hit(paths, checks) is None,
{
    law_first_hit_was_found(paths, checks, 0);
}

/// With `HOME` set and no `node` or `nodejs` found on `PATH`, an existing
/// `$NVM_BIN/node` is the binary found, whatever the nvm, fnm and volta
/// directories hold: the version the user activated comes first.
pub proof fn law_active_nvm_first(env: &NodeEnv, windows: bool, checks: &NodeChecks)
    requires
        env.home is Some,
        env.nvm_bin is Some,
        checks.nvm_bin,
        forall|i: int| 0 <= i < spec_node_on_path(env, windows).len() ==> !#[trigger] hit(checks.node_on_path@, i),
        forall|i: int| 0 <= i < spec_nodejs_on_path(env, windows).len() ==> !#[trigger] hit(checks.nodejs_on_path@, i),
    ensures
        node_found(env, windows, checks) == Some(path_join(env.nvm_bin->0@, "node"@, windows)),
{
    lemma_no_hit(spec_node_on_path(env, windows), checks.node_on_path@);
    lemma_no_hit(spec_nodejs_on_path(env, windows), checks.nodejs_on_path@);
}

/// A `node` found on `PATH` wins over everything else: the first directory
/// of `PATH` holding one gives the binary.
pub proof fn law_path_node_first(env: &NodeEnv, windows: bool, checks: &NodeChecks, k: int)
    requires
        0 <= k < spec_node_on_path(env, windows).len(),
        hit(checks.node_on_path@, k),
        forall|i: int| 0 <= i < k ==> !#[trigger] hit(checks.node_on_path@, i),
    ensures
        node_found(env, windows, checks) == Some(path_join(
            path_dirs(opt_view(env.path_var), opt_view(env.current_dir), windows)[k],
            "node"@,
            windows,
        )),
{
    lemma_first_hit_is_first(spec_node_on_path(env, windows), checks.node_on_path@, 0, k);
}

/// The first place whose check passed is what `first_hit_from` gives.
proof fn lemma_first_hit_is_first(paths: Seq<Seq<char>>, checks: Seq<bool>, i: int, k: int)
    requires
        0 <= i <= k < paths.len(),
        hit(checks, k),
        forall|j: int| i <= j < k ==> !#[trigger] hit(checks, j),
    ensures
        first_hit_from(paths, checks, i) == Some(paths[k]),
    decreases k - i,
{
    if i < k {
        lemma_first_hit_is_first(paths, checks, i + 1, k);
    }
}

/// Whether index `k` of two parallel lists of places both passed.
pub open spec fn both_found(a: Seq<bool>, b: Seq<bool>, k: int) -> bool {
    hit(a, k) && hit(b, k)
}

/// The ffmpeg directory found holds both ffmpeg and ffprobe: it is the
/// executable's directory, where one of each of the places beside it was
/// found, or a `PATH` directory or a well-known directory in which both
/// `ffmpeg` and `ffprobe` were found.
pub proof fn law_ffmpeg_dir_has_ffprobe(env: &FfmpegEnv, windows: bool, checks: &FfmpegChecks)
    ensures
        ffmpeg_dir_found(env, windows, checks) matches Some(d) ==> {
            ||| (opt_view(env.exe_dir) == Some(d)
                && (exists|p: Seq<char>| #[trigger] checked_place(beside(d, "ffmpeg"@, windows), checks.beside_exe@, p))
                && (exists|q: Seq<char>| #[trigger] checked_place(beside(d, "ffprobe"@, windows), checks.beside_exe_ffprobe@, q)))
            ||| exists|k: int| 0 <= k < ffmpeg_path_dirs(env, windows).len()
                && #[trigger] both_found(checks.on_path@, checks.on_path_ffprobe@, k)
                && ffmpeg_path_dirs(env, windows)[k] == d
                && joined_all(ffmpeg_path_dirs(env, windows), "ffmpeg"@, windows)[k] == path_join(d, "ffmpeg"@, windows)
                && joined_all(ffmpeg_path_dirs(env, windows), "ffprobe"@, windows)[k] == path_join(d, "ffprobe"@, windows)
            ||| exists|k: int| 0 <= k < 3 && #[trigger] both_found(checks.fixed@, checks.fixed_ffprobe@, k)
                && fixed_ffmpeg_dirs()[k] == d
                && fixed_ffmpeg_paths()[k] == d + "/ffmpeg"@
                && fixed_ffprobe_paths()[k] == d + "/ffprobe"@
        },
{
    let dirs = ffmpeg_path_dirs(env, windows);
    let pb = both(checks.on_path@, checks.on_path_ffprobe@);
    let fb = both(checks.fixed@, checks.fixed_ffprobe@);
    let bm = spec_beside_exe(env, "ffmpeg"@, windows);
    let bp = spec_beside_exe(env, "ffprobe"@, windows);
    law_first_hit_was_found(dirs, pb, 0);
    law_first_hit_was_found(fixed_ffmpeg_dirs(), fb, 0);
    law_first_hit_was_found(bm, checks.beside_exe@, 0);
    law_first_hit_was_found(bp, checks.beside_exe_ffprobe@, 0);
    lemma_fixed_places();
    if let Some(d) = ffmpeg_dir_found(env, windows, checks) {
        if env.exe_dir is Some && first_hit(bm, checks.beside_exe@) is Some && first_hit(bp, checks.beside_exe_ffprobe@) is Some {
            assert(checked_place(bm, checks.beside_exe@, first_hit(bm, checks.beside_exe@)->0));
            assert(checked_place(bp, checks.beside_exe_ffprobe@, first_hit(bp, checks.beside_exe_ffprobe@)->0));
        } else if first_hit(dirs, pb) is Some {
            let k = choose|k: int| 0 <= k < dirs.len() && hit(pb, k) && dirs[k] == d;
            assert(both_found(checks.on_path@, checks.on_path_ffprobe@, k));
        } else {
            let k = choose|k: int| 0 <= k < 3 && hit(fb, k) && fixed_ffmpeg_dirs()[k] == d;
            assert(both_found(checks.fixed@, checks.fixed_ffprobe@, k));
        }
    }
}

} // verus!

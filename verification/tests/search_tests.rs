use lumi_downloader::search::{
    ffmpeg_candidates, find_ffmpeg_dir, find_node, fnm_versions_dir, node_candidates, nvm_versions_dir,
    FfmpegChecks, FfmpegEnv, NodeChecks, NodeEnv,
};

fn s(x: &str) -> String {
    x.to_string()
}

fn strings(xs: &[&str]) -> Vec<String> {
    xs.iter().map(|x| x.to_string()).collect()
}

fn env() -> NodeEnv {
    NodeEnv {
        path_var: Some(s("/usr/local/bin:/usr/bin/::relative:/opt/x")),
        current_dir: Some(s("/work")),
        home: Some(s("/home/me")),
        nvm_bin: Some(s("/home/me/.nvm/versions/node/v20.1.0/bin")),
        nvm_versions: Some(strings(&["v18.2.0", "v20.1.0", "v9.0.0"])),
        fnm_dir: None,
        fnm_versions: Some(strings(&["v16.0.0", "v22.3.1"])),
        volta_home: Some(s("/home/me/.volta/")),
    }
}

fn no_checks() -> NodeChecks {
    NodeChecks {
        node_on_path: vec![],
        nodejs_on_path: vec![],
        nvm_bin: false,
        nvm_versions: vec![],
        fnm_versions: vec![],
        volta: false,
        fixed: vec![],
    }
}

#[test]
fn node_candidate_lists() {
    let c = node_candidates(&env(), false);
    assert_eq!(
        c.node_on_path,
        strings(&["/usr/local/bin/node", "/usr/bin/node", "/work/node", "/work/relative/node", "/opt/x/node"])
    );
    assert_eq!(
        c.nodejs_on_path,
        strings(&["/usr/local/bin/nodejs", "/usr/bin/nodejs", "/work/nodejs", "/work/relative/nodejs", "/opt/x/nodejs"])
    );
    assert_eq!(c.nvm_bin, Some(s("/home/me/.nvm/versions/node/v20.1.0/bin/node")));
    assert_eq!(
        c.nvm_versions,
        strings(&[
            "/home/me/.nvm/versions/node/v18.2.0/bin/node",
            "/home/me/.nvm/versions/node/v20.1.0/bin/node",
            "/home/me/.nvm/versions/node/v9.0.0/bin/node"
        ])
    );
    assert_eq!(
        c.fnm_versions,
        strings(&[
            "/home/me/.local/share/fnm/node-versions/v16.0.0/installation/bin/node",
            "/home/me/.local/share/fnm/node-versions/v22.3.1/installation/bin/node"
        ])
    );
    assert_eq!(c.volta, Some(s("/home/me/.volta/bin/node")));
    assert_eq!(c.fixed, strings(&["/opt/homebrew/bin/node", "/usr/local/bin/node", "/usr/bin/node", "/usr/bin/nodejs"]));
}

#[test]
fn relative_path_entries_need_a_current_dir() {
    let e = NodeEnv { current_dir: None, ..env() };
    let c = node_candidates(&e, false);
    assert_eq!(c.node_on_path, strings(&["/usr/local/bin/node", "/usr/bin/node", "/opt/x/node"]));
    let e = NodeEnv { current_dir: Some(s("work")), ..env() };
    let c = node_candidates(&e, false);
    assert_eq!(c.node_on_path, strings(&["/usr/local/bin/node", "/usr/bin/node", "/opt/x/node"]));
}

#[test]
fn node_found_on_empty_path_entry_is_absolute() {
    let e = NodeEnv { path_var: Some(s(":/usr/bin")), ..env() };
    let c = NodeChecks { node_on_path: vec![true, true], ..no_checks() };
    assert_eq!(find_node(&e, false, &c), Some(s("/work/node")));
}

#[test]
fn node_candidates_without_home_or_path() {
    let e = NodeEnv { path_var: None, home: None, ..env() };
    let c = node_candidates(&e, false);
    assert!(c.node_on_path.is_empty() && c.nodejs_on_path.is_empty());
    assert_eq!(c.nvm_bin, None);
    assert!(c.nvm_versions.is_empty());
    assert!(c.fnm_versions.is_empty());
    assert_eq!(c.volta, None);
    assert_eq!(c.fixed.len(), 4);
}

#[test]
fn windows_paths() {
    let e = NodeEnv {
        path_var: Some(s("C:\\Tools;bin;D:rel;\\rooted;C:/x/")),
        current_dir: Some(s("C:\\Users\\me")),
        home: Some(s("C:\\Users\\me")),
        nvm_versions: None,
        fnm_versions: None,
        ..env()
    };
    let c = node_candidates(&e, true);
    assert_eq!(c.node_on_path, strings(&["C:\\Tools\\node", "C:\\Users\\me\\bin\\node", "C:/x/node"]));
    assert_eq!(nvm_versions_dir("C:\\Users\\me", true), "C:\\Users\\me\\.nvm/versions/node");
}

#[test]
fn version_manager_dirs() {
    assert_eq!(nvm_versions_dir("/home/me", false), "/home/me/.nvm/versions/node");
    assert_eq!(nvm_versions_dir("/home/me/", false), "/home/me/.nvm/versions/node");
    assert_eq!(fnm_versions_dir("/home/me", &None, false), "/home/me/.local/share/fnm/node-versions");
    assert_eq!(fnm_versions_dir("/home/me", &Some(s("/opt/fnm")), false), "/opt/fnm/node-versions");
}

#[test]
fn node_search_order() {
    let e = env();
    assert_eq!(find_node(&e, false, &no_checks()), None);
    let c = NodeChecks { node_on_path: vec![false, true, true], nodejs_on_path: vec![true], nvm_bin: true, ..no_checks() };
    assert_eq!(find_node(&e, false, &c), Some(s("/usr/bin/node")));
    let c = NodeChecks { nodejs_on_path: vec![false, false, false, true], nvm_bin: true, ..no_checks() };
    assert_eq!(find_node(&e, false, &c), Some(s("/work/relative/nodejs")));
    let c = NodeChecks { nvm_bin: true, nvm_versions: vec![true, true, true], volta: true, ..no_checks() };
    assert_eq!(find_node(&e, false, &c), Some(s("/home/me/.nvm/versions/node/v20.1.0/bin/node")));
    let c = NodeChecks { fnm_versions: vec![true, true], volta: true, ..no_checks() };
    assert_eq!(
        find_node(&e, false, &c),
        Some(s("/home/me/.local/share/fnm/node-versions/v22.3.1/installation/bin/node"))
    );
    let c = NodeChecks { volta: true, fixed: vec![true], ..no_checks() };
    assert_eq!(find_node(&e, false, &c), Some(s("/home/me/.volta/bin/node")));
    let c = NodeChecks { fixed: vec![false, false, true, true], ..no_checks() };
    assert_eq!(find_node(&e, false, &c), Some(s("/usr/bin/node")));
}

#[test]
fn newest_nvm_version_by_number() {
    let e = env();
    let c = NodeChecks { nvm_versions: vec![true, false, true], ..no_checks() };
    assert_eq!(find_node(&e, false, &c), Some(s("/home/me/.nvm/versions/node/v18.2.0/bin/node")));
    let c = NodeChecks { nvm_versions: vec![false, false, true], ..no_checks() };
    assert_eq!(find_node(&e, false, &c), Some(s("/home/me/.nvm/versions/node/v9.0.0/bin/node")));
    let e2 = NodeEnv { nvm_versions: Some(strings(&["v18.17.0", "v9.11.2"])), ..env() };
    let c = NodeChecks { nvm_versions: vec![true, true], ..no_checks() };
    assert_eq!(find_node(&e2, false, &c), Some(s("/home/me/.nvm/versions/node/v18.17.0/bin/node")));
    let e3 = NodeEnv { nvm_versions: Some(strings(&["v9.11.2", "v18.17.0", "system"])), ..env() };
    let c = NodeChecks { nvm_versions: vec![true, true, true], ..no_checks() };
    assert_eq!(find_node(&e3, false, &c), Some(s("/home/me/.nvm/versions/node/v18.17.0/bin/node")));
}

#[test]
fn equal_versions_broken_by_name() {
    let c = NodeChecks { nvm_versions: vec![true, true], ..no_checks() };
    for names in [["v18.17.0", "18.17.0"], ["18.17.0", "v18.17.0"]] {
        let e = NodeEnv { nvm_versions: Some(strings(&names)), ..env() };
        assert_eq!(find_node(&e, false, &c), Some(s("/home/me/.nvm/versions/node/v18.17.0/bin/node")));
    }
}

#[test]
fn fnm_only_install_is_found() {
    let e = NodeEnv { path_var: None, nvm_bin: None, nvm_versions: None, volta_home: None, ..env() };
    let c = NodeChecks { fnm_versions: vec![false, true], ..no_checks() };
    assert_eq!(
        find_node(&e, false, &c),
        Some(s("/home/me/.local/share/fnm/node-versions/v22.3.1/installation/bin/node"))
    );
}

#[test]
fn no_home_skips_version_managers() {
    let e = NodeEnv { home: None, ..env() };
    let c = NodeChecks { nvm_bin: true, nvm_versions: vec![true], fnm_versions: vec![true], volta: true, fixed: vec![false, true], ..no_checks() };
    assert_eq!(find_node(&e, false, &c), Some(s("/usr/local/bin/node")));
}

fn ffmpeg_env() -> FfmpegEnv {
    FfmpegEnv {
        exe_dir: Some(s("/opt/app/bin")),
        path_var: Some(s("/usr/local/bin:/usr/bin")),
        current_dir: Some(s("/work")),
    }
}

fn no_ffmpeg() -> FfmpegChecks {
    FfmpegChecks {
        beside_exe: vec![],
        beside_exe_ffprobe: vec![],
        on_path: vec![],
        on_path_ffprobe: vec![],
        fixed: vec![],
        fixed_ffprobe: vec![],
    }
}

#[test]
fn ffmpeg_candidate_lists() {
    let c = ffmpeg_candidates(&ffmpeg_env(), false);
    assert_eq!(c.beside_exe, strings(&["/opt/app/bin/ffmpeg.exe", "/opt/app/bin/ffmpeg"]));
    assert_eq!(c.beside_exe_ffprobe, strings(&["/opt/app/bin/ffprobe.exe", "/opt/app/bin/ffprobe"]));
    assert_eq!(c.on_path, strings(&["/usr/local/bin/ffmpeg", "/usr/bin/ffmpeg"]));
    assert_eq!(c.on_path_ffprobe, strings(&["/usr/local/bin/ffprobe", "/usr/bin/ffprobe"]));
    assert_eq!(c.fixed, strings(&["/opt/homebrew/bin/ffmpeg", "/usr/local/bin/ffmpeg", "/usr/bin/ffmpeg"]));
    assert_eq!(c.fixed_ffprobe, strings(&["/opt/homebrew/bin/ffprobe", "/usr/local/bin/ffprobe", "/usr/bin/ffprobe"]));
    let none = ffmpeg_candidates(&FfmpegEnv { exe_dir: None, path_var: None, current_dir: None }, false);
    assert!(none.beside_exe.is_empty() && none.on_path.is_empty() && none.beside_exe_ffprobe.is_empty());
}

#[test]
fn ffmpeg_search_order() {
    let e = ffmpeg_env();
    assert_eq!(find_ffmpeg_dir(&e, false, &no_ffmpeg()), None);
    let c = FfmpegChecks {
        beside_exe: vec![false, true],
        beside_exe_ffprobe: vec![true],
        on_path: vec![true],
        on_path_ffprobe: vec![true],
        fixed: vec![true],
        fixed_ffprobe: vec![true],
    };
    assert_eq!(find_ffmpeg_dir(&e, false, &c), Some(s("/opt/app/bin")));
    let c = FfmpegChecks { on_path: vec![false, true], on_path_ffprobe: vec![true, true], fixed: vec![true], fixed_ffprobe: vec![true], ..no_ffmpeg() };
    assert_eq!(find_ffmpeg_dir(&e, false, &c), Some(s("/usr/bin")));
    let c = FfmpegChecks { fixed: vec![true, true], fixed_ffprobe: vec![true, true], ..no_ffmpeg() };
    assert_eq!(find_ffmpeg_dir(&e, false, &c), Some(s("/opt/homebrew/bin")));
}

#[test]
fn ffmpeg_needs_ffprobe_beside_it() {
    let e = ffmpeg_env();
    let c = FfmpegChecks { beside_exe: vec![true, true], on_path: vec![true, true], on_path_ffprobe: vec![false, true], ..no_ffmpeg() };
    assert_eq!(find_ffmpeg_dir(&e, false, &c), Some(s("/usr/bin")));
    let c = FfmpegChecks { on_path: vec![true], on_path_ffprobe: vec![false, true], fixed: vec![true, true], fixed_ffprobe: vec![false, true], ..no_ffmpeg() };
    assert_eq!(find_ffmpeg_dir(&e, false, &c), Some(s("/usr/local/bin")));
    let c = FfmpegChecks { fixed: vec![true], ..no_ffmpeg() };
    assert_eq!(find_ffmpeg_dir(&e, false, &c), None);
}

#[test]
fn ffmpeg_in_current_dir_path_entry() {
    let e = FfmpegEnv { exe_dir: None, path_var: Some(s(":tools")), current_dir: Some(s("/work")) };
    let c = FfmpegChecks { on_path: vec![true], on_path_ffprobe: vec![true], ..no_ffmpeg() };
    assert_eq!(find_ffmpeg_dir(&e, false, &c), Some(s("/work")));
    let c = FfmpegChecks { on_path: vec![false, true], on_path_ffprobe: vec![false, true], ..no_ffmpeg() };
    assert_eq!(find_ffmpeg_dir(&e, false, &c), Some(s("/work/tools")));
}

#[test]
fn ffmpeg_path_dir_returned_as_listed() {
    let e = FfmpegEnv { exe_dir: None, path_var: Some(s("/usr/local/bin/:/usr/bin")), current_dir: None };
    let places = ffmpeg_candidates(&e, false);
    assert_eq!(places.on_path, strings(&["/usr/local/bin/ffmpeg", "/usr/bin/ffmpeg"]));
    let c = FfmpegChecks { on_path: vec![true, true], on_path_ffprobe: vec![true, true], ..no_ffmpeg() };
    assert_eq!(find_ffmpeg_dir(&e, false, &c), Some(s("/usr/local/bin/")));
}

#[test]
fn ffmpeg_windows_exe_dir() {
    let e = FfmpegEnv { exe_dir: Some(s("C:\\Apps\\Lumi")), path_var: Some(s("C:\\ff\\bin;rel")), current_dir: Some(s("D:\\work")) };
    let places = ffmpeg_candidates(&e, true);
    assert_eq!(places.beside_exe, strings(&["C:\\Apps\\Lumi\\ffmpeg.exe", "C:\\Apps\\Lumi\\ffmpeg"]));
    assert_eq!(places.on_path, strings(&["C:\\ff\\bin\\ffmpeg", "D:\\work\\rel\\ffmpeg"]));
    let c = FfmpegChecks { beside_exe: vec![true, false], beside_exe_ffprobe: vec![true, false], ..no_ffmpeg() };
    assert_eq!(find_ffmpeg_dir(&e, true, &c), Some(s("C:\\Apps\\Lumi")));
    let c = FfmpegChecks { on_path: vec![false, true], on_path_ffprobe: vec![false, true], ..no_ffmpeg() };
    assert_eq!(find_ffmpeg_dir(&e, true, &c), Some(s("D:\\work\\rel")));
}

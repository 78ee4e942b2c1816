use capyap_desktop::candidates::{
    existing_path, inferred_home_dirs, join_home, launch_candidates, probe_paths, user_home_of,
    with_capyap_args, with_conda_env_args, with_python_module_args, LaunchCandidate,
};

fn strs(v: &[&str]) -> Vec<String> {
    v.iter().map(|s| s.to_string()).collect()
}

fn serve() -> Vec<&'static str> {
    vec!["start", "--no-browser", "--host", "127.0.0.1", "--port", "8000"]
}

fn shape(c: &LaunchCandidate) -> (String, Vec<String>) {
    (c.program.clone(), c.args.clone())
}

fn cli(p: &str) -> (String, Vec<String>) {
    (p.to_string(), strs(&serve()))
}

fn env(p: &str, name: &str) -> (String, Vec<String>) {
    let mut a = vec!["run", "-n", name, "capyap"];
    a.extend(serve());
    (p.to_string(), strs(&a))
}

fn module(p: &str) -> (String, Vec<String>) {
    let mut a = vec!["-m", "youtube_video_summarizer.capyap_cli"];
    a.extend(serve());
    (p.to_string(), strs(&a))
}

#[test]
fn constructors_build_expected_arguments() {
    assert_eq!(shape(&with_capyap_args("capyap".to_string())), cli("capyap"));
    assert_eq!(shape(&with_conda_env_args("conda".to_string(), "capyap_dev")), env("conda", "capyap_dev"));
    assert_eq!(shape(&with_python_module_args("python3".to_string())), module("python3"));
}

#[test]
fn bare_environment_gives_fixed_and_fallback_candidates() {
    let list = launch_candidates(None, None, &Vec::new());
    let got: Vec<_> = list.iter().map(shape).collect();
    assert_eq!(
        got,
        vec![
            cli("capyap"),
            env("conda", "capyap"),
            env("conda", "capyap_dev"),
            module("python3"),
            module("python"),
        ]
    );
}

#[test]
fn missing_home_directory_adds_nothing() {
    let fs = strs(&["/home/bob/miniconda3/bin/capyap"]);
    let list = launch_candidates(Some("/home/alice".to_string()), None, &fs);
    assert_eq!(list.len(), 5);
}

#[test]
fn found_binaries_are_inserted_between_fixed_and_fallbacks() {
    let fs = strs(&[
        "/home/u",
        "/home/u/anaconda3/bin/python",
        "/home/u/miniconda3/bin/conda",
        "/home/u/opt/miniconda3/bin/capyap",
    ]);
    let list = launch_candidates(
        Some("/home/u".to_string()),
        Some("/home/u/apps/desktop".to_string()),
        &fs,
    );
    let got: Vec<_> = list.iter().map(shape).collect();
    assert_eq!(
        got,
        vec![
            cli("capyap"),
            env("conda", "capyap"),
            env("conda", "capyap_dev"),
            cli("/home/u/opt/miniconda3/bin/capyap"),
            env("/home/u/miniconda3/bin/conda", "capyap"),
            env("/home/u/miniconda3/bin/conda", "capyap_dev"),
            module("/home/u/anaconda3/bin/python"),
            module("python3"),
            module("python"),
        ]
    );
}

#[test]
fn snapshot_order_does_not_change_the_list() {
    let a = strs(&["/Users/ann", "/Users/ann/miniconda3/bin/python", "/Users/ann/anaconda3/bin/capyap"]);
    let b = strs(&["/Users/ann/anaconda3/bin/capyap", "/Users/ann", "/Users/ann/miniconda3/bin/python", "/Users/ann"]);
    let exe = Some("/Users/ann/Applications/Capyap.app/Contents/MacOS/capyap".to_string());
    let first: Vec<_> = launch_candidates(None, exe.clone(), &a).iter().map(shape).collect();
    let second: Vec<_> = launch_candidates(None, exe, &b).iter().map(shape).collect();
    assert_eq!(first, second);
    assert_eq!(first.len(), 7);
}

#[test]
fn user_home_is_taken_from_executable_path() {
    assert_eq!(user_home_of("/Users/alice/Apps/x", "/Users/"), Some("/Users/alice".to_string()));
    assert_eq!(user_home_of("/home/bob", "/home/"), Some("/home/bob".to_string()));
    assert_eq!(user_home_of("/home/", "/home/"), Some("/home/".to_string()));
    assert_eq!(user_home_of("/opt/app/bin", "/home/"), None);
    assert_eq!(user_home_of("/hom", "/home/"), None);
}

#[test]
fn home_directories_are_deduplicated_in_order() {
    let fs = strs(&["/home/bob", "/srv/bob"]);
    let homes = inferred_home_dirs(
        &Some("/srv/bob".to_string()),
        &Some("/home/bob/bin/app".to_string()),
        &fs,
    );
    assert_eq!(homes, strs(&["/srv/bob", "/home/bob"]));
    let same = inferred_home_dirs(
        &Some("/home/bob".to_string()),
        &Some("/home/bob/bin/app".to_string()),
        &fs,
    );
    assert_eq!(same, strs(&["/home/bob"]));
}

#[test]
fn join_puts_one_separator() {
    assert_eq!(join_home(&"/home/u".to_string(), "a/b"), "/home/u/a/b");
    assert_eq!(join_home(&"/home/u/".to_string(), "a/b"), "/home/u/a/b");
    assert_eq!(join_home(&String::new(), "a/b"), "a/b");
}

#[test]
fn existing_path_consults_the_snapshot() {
    let fs = strs(&["/a", "/b"]);
    assert_eq!(existing_path("/b".to_string(), &fs), Some("/b".to_string()));
    assert_eq!(existing_path("/c".to_string(), &fs), None);
}

#[test]
fn probe_paths_cover_each_home_guess() {
    let paths = probe_paths(&Some("/home/u".to_string()), &Some("/Users/v/x".to_string()));
    assert_eq!(paths.len(), 2 + 2 * 9);
    assert_eq!(paths[0], "/home/u");
    assert_eq!(paths[1], "/Users/v");
    assert_eq!(paths[2], "/home/u/miniconda3/bin/capyap");
    assert_eq!(paths[10], "/home/u/opt/miniconda3/bin/python");
    assert_eq!(paths[19], "/Users/v/opt/miniconda3/bin/python");
    assert!(probe_paths(&None, &None).is_empty());
}

#[test]
fn unprobed_paths_do_not_change_the_list() {
    let home = Some("/home/u".to_string());
    let exe = Some("/home/u/bin/app".to_string());
    let probed = strs(&["/home/u", "/home/u/miniconda3/bin/capyap"]);
    let mut noisy = probed.clone();
    noisy.extend(strs(&["/home/u/miniconda3", "/home/w/miniconda3/bin/conda", "/etc"]));
    let a: Vec<_> = launch_candidates(home.clone(), exe.clone(), &probed).iter().map(shape).collect();
    let b: Vec<_> = launch_candidates(home.clone(), exe.clone(), &noisy).iter().map(shape).collect();
    assert_eq!(a, b);
    assert_eq!(a.len(), 6);
    let probes = probe_paths(&home, &exe);
    assert!(probed.iter().all(|p| probes.contains(p)));
}

//! Launch candidates: the ordered list of ways to start the backend.

use vstd::prelude::*;
use crate::text::has_prefix;

verus! {

/// A launch candidate as seen by contracts: the program and its arguments.
pub type CandidateView = (Seq<char>, Seq<Seq<char>>);

/// One hypothesis about how to start the backend: a program and its
/// arguments.
#[derive(Clone, Debug)]
pub struct LaunchCandidate {
    pub program: String,
    pub args: Vec<String>,
}

impl View for LaunchCandidate {
    type V = CandidateView;

    open spec fn view(&self) -> CandidateView {
        (self.program@, self.args.deep_view())
    }
}

impl DeepView for LaunchCandidate {
    type V = CandidateView;

    open spec fn deep_view(&self) -> CandidateView {
        self@
    }
}

/// The arguments every candidate ends with: start in the foreground, without
/// a browser, bound to the fixed loopback host and port.
pub open spec fn serve_args() -> Seq<Seq<char>> {
    seq!["start"@, "--no-browser"@, "--host"@, "127.0.0.1"@, "--port"@, "8000"@]
}

/// The backend's command-line entry point, invoked directly.
pub open spec fn cli_candidate(program: Seq<char>) -> CandidateView {
    (program, serve_args())
}

/// An interpreter running the backend's command-line module.
pub open spec fn module_candidate(program: Seq<char>) -> CandidateView {
    (program, seq!["-m"@, "youtube_video_summarizer.capyap_cli"@] + serve_args())
}

/// An environment manager running the entry point inside a named environment.
pub open spec fn env_candidate(program: Seq<char>, env_name: Seq<char>) -> CandidateView {
    (program, seq!["run"@, "-n"@, env_name, "capyap"@] + serve_args())
}

fn push_str_arg(args: &mut Vec<String>, s: &str)
    ensures
        final(args).deep_view() == old(args).deep_view().push(s@),
{
    args.push(String::from_str(s));
    assert(args.deep_view() =~= old(args).deep_view().push(s@));
}

fn push_serve_args(args: &mut Vec<String>)
    ensures
        final(args).deep_view() == old(args).deep_view() + serve_args(),
{
    push_str_arg(args, "start");
    push_str_arg(args, "--no-browser");
    push_str_arg(args, "--host");
    push_str_arg(args, "127.0.0.1");
    push_str_arg(args, "--port");
    push_str_arg(args, "8000");
    assert(args.deep_view() =~= old(args).deep_view() + serve_args());
}

/// Runs `program` as the backend's command-line entry point.
pub fn with_capyap_args(program: String) -> (r: LaunchCandidate)
    ensures
        r@ == cli_candidate(program@),
{
    let mut args: Vec<String> = Vec::new();
    push_serve_args(&mut args);
    assert(args.deep_view() =~= serve_args());
    LaunchCandidate { program, args }
}

/// Runs `program` as an interpreter on the backend's command-line module.
pub fn with_python_module_args(program: String) -> (r: LaunchCandidate)
    ensures
        r@ == module_candidate(program@),
{
    let mut args: Vec<String> = Vec::new();
    push_str_arg(&mut args, "-m");
    push_str_arg(&mut args, "youtube_video_summarizer.capyap_cli");
    push_serve_args(&mut args);
    assert(args.deep_view() =~= seq!["-m"@, "youtube_video_summarizer.capyap_cli"@]
        + serve_args());
    LaunchCandidate { program, args }
}

/// Runs `program` as an environment manager that starts the entry point in
/// the environment `env_name`.
pub fn with_conda_env_args(program: String, env_name: &str) -> (r: LaunchCandidate)
    ensures
        r@ == env_candidate(program@, env_name@),
{
    let mut args: Vec<String> = Vec::new();
    push_str_arg(&mut args, "run");
    push_str_arg(&mut args, "-n");
    push_str_arg(&mut args, env_name);
    push_str_arg(&mut args, "capyap");
    push_serve_args(&mut args);
    assert(args.deep_view() =~= seq!["run"@, "-n"@, env_name@, "capyap"@] + serve_args());
    LaunchCandidate { program, args }
}


/// Which kind of launch strategy a binary found on disk gives rise to.
#[derive(Clone, Copy, Debug, PartialEq, Eq)]
pub enum ToolKind {
    /// The backend's own command-line entry point.
    Cli,
    /// An environment manager, tried with both environment names.
    EnvManager,
    /// An interpreter that runs the backend's module.
    Interpreter,
}

/// `rel` appended to `home` the way a path is joined: a separator is put
/// between them unless `home` is empty or already ends with one.
pub open spec fn join_path(home: Seq<char>, rel: Seq<char>) -> Seq<char> {
    if home.len() == 0 || home.last() == '/' {
        home + rel
    } else {
        home + "/"@ + rel
    }
}

/// The conventional place of `tool` inside an installation layout.
pub open spec fn rel_path(layout: Seq<char>, tool: Seq<char>) -> Seq<char> {
    layout + "/bin/"@ + tool
}

/// The candidates a binary of the given kind at `path` stands for.
pub open spec fn kind_candidates(kind: ToolKind, path: Seq<char>) -> Seq<CandidateView> {
    match kind {
        ToolKind::Cli => seq![cli_candidate(path)],
        ToolKind::EnvManager => seq![
            env_candidate(path, "capyap"@),
            env_candidate(path, "capyap_dev"@),
        ],
        ToolKind::Interpreter => seq![module_candidate(path)],
    }
}

/// The candidates for `path` if the snapshot `fs` holds it, else none.
pub open spec fn found(kind: ToolKind, path: Seq<char>, fs: Set<Seq<char>>) -> Seq<CandidateView> {
    if fs.contains(path) {
        kind_candidates(kind, path)
    } else {
        seq![]
    }
}

/// The candidates for `tool` under `home`, over the three conventional
/// installation layouts in their fixed order.
pub open spec fn tool_candidates(
    home: Seq<char>,
    tool: Seq<char>,
    kind: ToolKind,
    fs: Set<Seq<char>>,
) -> Seq<CandidateView> {
    found(kind, join_path(home, rel_path("miniconda3"@, tool)), fs) + found(
        kind,
        join_path(home, rel_path("anaconda3"@, tool)),
        fs,
    ) + found(kind, join_path(home, rel_path("opt/miniconda3"@, tool)), fs)
}

/// Everything found under one home directory: entry points first, then
/// environment managers, then interpreters.
pub open spec fn home_candidates(home: Seq<char>, fs: Set<Seq<char>>) -> Seq<CandidateView> {
    tool_candidates(home, "capyap"@, ToolKind::Cli, fs) + tool_candidates(
        home,
        "conda"@,
        ToolKind::EnvManager,
        fs,
    ) + tool_candidates(home, "python"@, ToolKind::Interpreter, fs)
}

/// Whether `p` is one of the paths of the snapshot `fs`.
pub fn contains_path(fs: &Vec<String>, p: &String) -> (r: bool)
    ensures
        r == fs.deep_view().contains(p@),
{
    let mut i: usize = 0;
    while i < fs.len()
        invariant
            i <= fs.len(),
            forall|j: int| 0 <= j < i ==> fs.deep_view()[j] != p@,
        decreases fs.len() - i,
    {
        if fs[i] == *p {
            assert(fs.deep_view()[i as int] == p@);
            return true;
        }
        i += 1;
    }
    assert(!fs.deep_view().contains(p@));
    false
}

/// `path` itself when the snapshot `fs` lists it as existing, else nothing.
pub fn existing_path(path: String, fs: &Vec<String>) -> (r: Option<String>)
    ensures
        r == (if fs.deep_view().to_set().contains(path@) {
            Some(path)
        } else {
            None
        }),
{
    if contains_path(fs, &path) {
        return Some(path);
    }
    None
}

/// Joins `rel` onto `home` (see `join_path`).
pub fn join_home(home: &String, rel: &str) -> (r: String)
    ensures
        r@ == join_path(home@, rel@),
{
    let s = home.as_str();
    let n = s.unicode_len();
    let mut out = home.clone();
    if n != 0 && s.get_char(n - 1) != '/' {
        out.append("/");
    }
    out.append(rel);
    out
}

fn tool_path(home: &String, layout: &str, tool: &str) -> (r: String)
    ensures
        r@ == join_path(home@, rel_path(layout@, tool@)),
{
    let mut rel = String::from_str(layout);
    rel.append("/bin/");
    rel.append(tool);
    join_home(home, rel.as_str())
}

fn push_found(
    out: &mut Vec<LaunchCandidate>,
    home: &String,
    layout: &str,
    tool: &str,
    kind: ToolKind,
    fs: &Vec<String>,
)
    ensures
        final(out).deep_view() == old(out).deep_view() + found(
            kind,
            join_path(home@, rel_path(layout@, tool@)),
            fs.deep_view().to_set(),
        ),
{
    let path = tool_path(home, layout, tool);
    let ghost p = path@;
    match existing_path(path, fs) {
        Some(bin) => {
            match kind {
                ToolKind::Cli => {
                    out.push(with_capyap_args(bin));
                },
                ToolKind::EnvManager => {
                    out.push(with_conda_env_args(bin.clone(), "capyap"));
                    out.push(with_conda_env_args(bin, "capyap_dev"));
                },
                ToolKind::Interpreter => {
                    out.push(with_python_module_args(bin));
                },
            }
        },
        None => {},
    }
    assert(out.deep_view() =~= old(out).deep_view() + found(kind, p, fs.deep_view().to_set()));
}

fn push_tool(
    out: &mut Vec<LaunchCandidate>,
    home: &String,
    tool: &str,
    kind: ToolKind,
    fs: &Vec<String>,
)
    ensures
        final(out).deep_view() == old(out).deep_view() + tool_candidates(
            home@,
            tool@,
            kind,
            fs.deep_view().to_set(),
        ),
{
    let ghost start = out.deep_view();
    push_found(out, home, "miniconda3", tool, kind, fs);
    push_found(out, home, "anaconda3", tool, kind, fs);
    push_found(out, home, "opt/miniconda3", tool, kind, fs);
    assert(out.deep_view() =~= start + tool_candidates(
        home@,
        tool@,
        kind,
        fs.deep_view().to_set(),
    ));
}

fn push_home(out: &mut Vec<LaunchCandidate>, home: &String, fs: &Vec<String>)
    ensures
        final(out).deep_view() == old(out).deep_view() + home_candidates(
            home@,
            fs.deep_view().to_set(),
        ),
{
    let ghost start = out.deep_view();
    push_tool(out, home, "capyap", ToolKind::Cli, fs);
    push_tool(out, home, "conda", ToolKind::EnvManager, fs);
    push_tool(out, home, "python", ToolKind::Interpreter, fs);
    assert(out.deep_view() =~= start + home_candidates(home@, fs.deep_view().to_set()));
}


/// The view of an optional string.
pub open spec fn opt_seq(o: Option<String>) -> Option<Seq<char>> {
    match o {
        Some(s) => Some(s@),
        None => None,
    }
}

/// The position of the first `/` of `s` at or after `i`, or the length of
/// `s` if there is none.
pub open spec fn slash_from(s: Seq<char>, i: int) -> int
    decreases s.len() - i,
{
    if i < 0 || i >= s.len() {
        s.len() as int
    } else if s[i] == '/' {
        i
    } else {
        slash_from(s, i + 1)
    }
}

/// The user's home directory named by an executable path under the users
/// root `root`: the root followed by the path's next component.
pub open spec fn user_home(exe: Seq<char>, root: Seq<char>) -> Option<Seq<char>> {
    if root.is_prefix_of(exe) {
        let rest = exe.skip(root.len() as int);
        Some(root + rest.take(slash_from(rest, 0)))
    } else {
        None
    }
}

/// `user_home` of an executable path that may be unknown.
pub open spec fn exe_home(exe: Option<Seq<char>>, root: Seq<char>) -> Option<Seq<char>> {
    match exe {
        Some(e) => user_home(e, root),
        None => None,
    }
}

/// `p` as a one-element sequence if it is known and the snapshot holds it.
pub open spec fn if_present(p: Option<Seq<char>>, fs: Set<Seq<char>>) -> Seq<Seq<char>> {
    match p {
        Some(x) => if fs.contains(x) {
            seq![x]
        } else {
            seq![]
        },
        None => seq![],
    }
}

/// The existing home directories in the order they are discovered: the
/// `HOME` variable, then the macOS users root, then the Linux one.
pub open spec fn home_sightings(
    home_var: Option<Seq<char>>,
    exe: Option<Seq<char>>,
    fs: Set<Seq<char>>,
) -> Seq<Seq<char>> {
    if_present(home_var, fs) + if_present(exe_home(exe, "/Users/"@), fs) + if_present(
        exe_home(exe, "/home/"@),
        fs,
    )
}

/// `s` with every element that occurs earlier removed.
pub open spec fn dedup(s: Seq<Seq<char>>) -> Seq<Seq<char>>
    decreases s.len(),
{
    if s.len() == 0 {
        s
    } else {
        let d = dedup(s.drop_last());
        if d.contains(s.last()) {
            d
        } else {
            d.push(s.last())
        }
    }
}

/// The inferred home directories: the sightings without repeats.
pub open spec fn inferred_homes(
    home_var: Option<Seq<char>>,
    exe: Option<Seq<char>>,
    fs: Set<Seq<char>>,
) -> Seq<Seq<char>> {
    dedup(home_sightings(home_var, exe, fs))
}

/// The home directory of the user owning the executable at `exe`, if `exe`
/// lies under the users root `root`.
pub fn user_home_of(exe: &str, root: &str) -> (r: Option<String>)
    ensures
        opt_seq(r) == user_home(exe@, root@),
{
    if !has_prefix(exe, root) {
        return None;
    }
    let n = exe.unicode_len();
    let m = root.unicode_len();
    let ghost rest = exe@.skip(m as int);
    let mut k: usize = m;
    while k < n && exe.get_char(k) != '/'
        invariant
            m == root@.len(),
            n == exe@.len(),
            m <= k <= n,
            rest == exe@.skip(m as int),
            slash_from(rest, 0) == slash_from(rest, k - m),
        decreases n - k,
    {
        assert(rest[k - m] == exe@[k as int]);
        k += 1;
    }
    assert(slash_from(rest, k - m) == k - m) by {
        if k < n {
            assert(rest[k - m] == exe@[k as int]);
        }
    }
    let user = exe.substring_char(m, k);
    assert(user@ =~= rest.take(k - m));
    let mut home = String::from_str(root);
    home.append(user);
    Some(home)
}

/// The existing home directories to search, in discovery order and without
/// repeats (see `inferred_homes`).
pub fn inferred_home_dirs(
    home_var: &Option<String>,
    exe_path: &Option<String>,
    fs: &Vec<String>,
) -> (r: Vec<String>)
    ensures
        r.deep_view() == inferred_homes(
            opt_seq(*home_var),
            opt_seq(*exe_path),
            fs.deep_view().to_set(),
        ),
{
    let ghost snap = fs.deep_view().to_set();
    let mut homes: Vec<String> = Vec::new();
    match home_var {
        Some(h) => {
            if contains_path(fs, h) {
                homes.push(h.clone());
            }
        },
        None => {},
    }
    assert(homes.deep_view() =~= if_present(opt_seq(*home_var), snap));
    match exe_path {
        Some(exe) => {
            let ghost before = homes.deep_view();
            match user_home_of(exe.as_str(), "/Users/") {
                Some(h) => {
                    if contains_path(fs, &h) {
                        homes.push(h);
                    }
                },
                None => {},
            }
            assert(homes.deep_view() =~= before + if_present(
                exe_home(opt_seq(*exe_path), "/Users/"@),
                snap,
            ));
            let ghost before2 = homes.deep_view();
            match user_home_of(exe.as_str(), "/home/") {
                Some(h) => {
                    if contains_path(fs, &h) {
                        homes.push(h);
                    }
                },
                None => {},
            }
            assert(homes.deep_view() =~= before2 + if_present(
                exe_home(opt_seq(*exe_path), "/home/"@),
                snap,
            ));
        },
        None => {},
    }
    assert(homes.deep_view() =~= home_sightings(opt_seq(*home_var), opt_seq(*exe_path), snap));
    let mut deduped: Vec<String> = Vec::new();
    let mut i: usize = 0;
    while i < homes.len()
        invariant
            i <= homes.len(),
            deduped.deep_view() == dedup(homes.deep_view().take(i as int)),
        decreases homes.len() - i,
    {
        let ghost seen = homes.deep_view().take(i as int + 1);
        assert(seen.drop_last() =~= homes.deep_view().take(i as int));
        if !contains_path(&deduped, &homes[i]) {
            deduped.push(homes[i].clone());
        }
        assert(deduped.deep_view() =~= dedup(seen));
        i += 1;
    }
    assert(homes.deep_view().take(i as int) =~= homes.deep_view());
    deduped
}


/// The well-known strategies tried before anything found on disk.
pub open spec fn fixed_candidates() -> Seq<CandidateView> {
    seq![
        cli_candidate("capyap"@),
        env_candidate("conda"@, "capyap"@),
        env_candidate("conda"@, "capyap_dev"@),
    ]
}

/// The generic interpreters tried last.
pub open spec fn fallback_candidates() -> Seq<CandidateView> {
    seq![module_candidate("python3"@), module_candidate("python"@)]
}

/// The candidates found under each home directory, in the homes' order.
pub open spec fn homes_candidates(homes: Seq<Seq<char>>, fs: Set<Seq<char>>) -> Seq<
    CandidateView,
>
    decreases homes.len(),
{
    if homes.len() == 0 {
        seq![]
    } else {
        homes_candidates(homes.drop_last(), fs) + home_candidates(homes.last(), fs)
    }
}

/// The full candidate list for a `HOME` value, an executable path and a
/// filesystem snapshot: fixed strategies, then what was found under each
/// inferred home, then the fallbacks.
pub open spec fn candidate_list(
    home_var: Option<Seq<char>>,
    exe: Option<Seq<char>>,
    fs: Set<Seq<char>>,
) -> Seq<CandidateView> {
    fixed_candidates() + homes_candidates(inferred_homes(home_var, exe, fs), fs)
        + fallback_candidates()
}

/// Builds the ordered launch candidates from the `HOME` variable, the path of
/// the running executable (either may be unknown) and the list `fs` of the
/// probed paths that exist on disk.
pub fn launch_candidates(
    home_var: Option<String>,
    exe_path: Option<String>,
    fs: &Vec<String>,
) -> (r: Vec<LaunchCandidate>)
    ensures
        r.deep_view() == candidate_list(
            opt_seq(home_var),
            opt_seq(exe_path),
            fs.deep_view().to_set(),
        ),
        r.len() >= 5,
{
    let ghost snap = fs.deep_view().to_set();
    let mut candidates: Vec<LaunchCandidate> = Vec::new();
    candidates.push(with_capyap_args(String::from_str("capyap")));
    candidates.push(with_conda_env_args(String::from_str("conda"), "capyap"));
    candidates.push(with_conda_env_args(String::from_str("conda"), "capyap_dev"));
    assert(candidates.deep_view() =~= fixed_candidates());
    let homes = inferred_home_dirs(&home_var, &exe_path, fs);
    let mut i: usize = 0;
    while i < homes.len()
        invariant
            i <= homes.len(),
            snap == fs.deep_view().to_set(),
            candidates.deep_view() == fixed_candidates() + homes_candidates(
                homes.deep_view().take(i as int),
                snap,
            ),
        decreases homes.len() - i,
    {
        let ghost seen = homes.deep_view().take(i as int + 1);
        assert(seen.drop_last() =~= homes.deep_view().take(i as int));
        push_home(&mut candidates, &homes[i], fs);
        assert(candidates.deep_view() =~= fixed_candidates() + homes_candidates(seen, snap));
        i += 1;
    }
    assert(homes.deep_view().take(i as int) =~= homes.deep_view());
    let ghost middle = candidates.deep_view();
    candidates.push(with_python_module_args(String::from_str("python3")));
    candidates.push(with_python_module_args(String::from_str("python")));
    assert(candidates.deep_view() =~= middle + fallback_candidates());
    proof {
        candidate_list_never_empty(opt_seq(home_var), opt_seq(exe_path), snap);
    }
    candidates
}

/// The candidate list is never empty: the three fixed strategies and the two
/// fallbacks are always in it, whatever the environment and the filesystem.
pub proof fn candidate_list_never_empty(
    home_var: Option<Seq<char>>,
    exe: Option<Seq<char>>,
    fs: Set<Seq<char>>,
)
    ensures
        candidate_list(home_var, exe, fs).len() >= 5,
        candidate_list(home_var, exe, fs).take(3) == fixed_candidates(),
        candidate_list(home_var, exe, fs).skip(candidate_list(home_var, exe, fs).len() - 2)
            == fallback_candidates(),
{
    let l = candidate_list(home_var, exe, fs);
    assert(l.take(3) =~= fixed_candidates());
    assert(l.skip(l.len() - 2) =~= fallback_candidates());
}

/// The candidate list is a function of the environment values and of which
/// paths exist: two snapshots that list the same paths, in any order and with
/// any repeats, give the same candidates in the same order.
pub proof fn candidate_list_deterministic(
    home_var: Option<Seq<char>>,
    exe: Option<Seq<char>>,
    fs1: Seq<Seq<char>>,
    fs2: Seq<Seq<char>>,
)
    requires
        forall|p: Seq<char>| fs1.contains(p) <==> fs2.contains(p),
    ensures
        candidate_list(home_var, exe, fs1.to_set()) == candidate_list(home_var, exe, fs2.to_set()),
{
    assert(fs1.to_set() =~= fs2.to_set());
}


/// `p` as a sequence of at most one element.
pub open spec fn opt_list(p: Option<Seq<char>>) -> Seq<Seq<char>> {
    match p {
        Some(x) => seq![x],
        None => seq![],
    }
}

/// The directories that may be home directories, before any is checked.
pub open spec fn home_guesses(home_var: Option<Seq<char>>, exe: Option<Seq<char>>) -> Seq<
    Seq<char>,
> {
    opt_list(home_var) + opt_list(exe_home(exe, "/Users/"@)) + opt_list(exe_home(exe, "/home/"@))
}

/// The conventional places of `tool` under `home`.
pub open spec fn tool_paths(home: Seq<char>, tool: Seq<char>) -> Seq<Seq<char>> {
    seq![
        join_path(home, rel_path("miniconda3"@, tool)),
        join_path(home, rel_path("anaconda3"@, tool)),
        join_path(home, rel_path("opt/miniconda3"@, tool)),
    ]
}

/// Every path looked for under `home`.
pub open spec fn home_probes(home: Seq<char>) -> Seq<Seq<char>> {
    tool_paths(home, "capyap"@) + tool_paths(home, "conda"@) + tool_paths(home, "python"@)
}

/// The paths looked for under each of `homes`, in order.
pub open spec fn probes_under(homes: Seq<Seq<char>>) -> Seq<Seq<char>>
    decreases homes.len(),
{
    if homes.len() == 0 {
        seq![]
    } else {
        probes_under(homes.drop_last()) + home_probes(homes.last())
    }
}

/// Every path whose existence the candidate list depends on.
pub open spec fn probe_list(home_var: Option<Seq<char>>, exe: Option<Seq<char>>) -> Seq<
    Seq<char>,
> {
    home_guesses(home_var, exe) + probes_under(home_guesses(home_var, exe))
}

fn push_tool_paths(out: &mut Vec<String>, home: &String, tool: &str)
    ensures
        final(out).deep_view() == old(out).deep_view() + tool_paths(home@, tool@),
{
    let ghost start = out.deep_view();
    out.push(tool_path(home, "miniconda3", tool));
    out.push(tool_path(home, "anaconda3", tool));
    out.push(tool_path(home, "opt/miniconda3", tool));
    assert(out.deep_view() =~= start + tool_paths(home@, tool@));
}

/// The paths to check for existence before building the candidate list:
/// the possible home directories, then the conventional installation paths
/// under each of them (see `probe_list`).
pub fn probe_paths(home_var: &Option<String>, exe_path: &Option<String>) -> (r: Vec<String>)
    ensures
        r.deep_view() == probe_list(opt_seq(*home_var), opt_seq(*exe_path)),
{
    let mut guesses: Vec<String> = Vec::new();
    match home_var {
        Some(h) => guesses.push(h.clone()),
        None => {},
    }
    match exe_path {
        Some(exe) => {
            match user_home_of(exe.as_str(), "/Users/") {
                Some(h) => guesses.push(h),
                None => {},
            }
            match user_home_of(exe.as_str(), "/home/") {
                Some(h) => guesses.push(h),
                None => {},
            }
        },
        None => {},
    }
    let ghost g = home_guesses(opt_seq(*home_var), opt_seq(*exe_path));
    assert(guesses.deep_view() =~= g);
    let mut out: Vec<String> = guesses.clone();
    assert(out.deep_view() =~= g);
    let mut i: usize = 0;
    while i < guesses.len()
        invariant
            i <= guesses.len(),
            guesses.deep_view() == g,
            out.deep_view() == g + probes_under(g.take(i as int)),
        decreases guesses.len() - i,
    {
        let ghost seen = g.take(i as int + 1);
        assert(seen.drop_last() =~= g.take(i as int));
        let ghost before = out.deep_view();
        push_tool_paths(&mut out, &guesses[i], "capyap");
        push_tool_paths(&mut out, &guesses[i], "conda");
        push_tool_paths(&mut out, &guesses[i], "python");
        assert(out.deep_view() =~= before + home_probes(g[i as int]));
        assert(out.deep_view() =~= g + probes_under(seen));
        i += 1;
    }
    assert(g.take(i as int) =~= g);
    out
}


proof fn dedup_within(s: Seq<Seq<char>>)
    ensures
        forall|x: Seq<char>| #[trigger] dedup(s).contains(x) ==> s.contains(x),
    decreases s.len(),
{
    if s.len() > 0 {
        let init = s.drop_last();
        dedup_within(init);
        let d = dedup(init);
        assert forall|x: Seq<char>| dedup(s).contains(x) implies s.contains(x) by {
            if d.contains(x) {
                assert(init.contains(x));
                let j = choose|j: int| 0 <= j < init.len() && init[j] == x;
                assert(s[j] == init[j]);
            } else {
                assert(!d.contains(s.last()));
                assert(dedup(s) == d.push(s.last()));
                let k = choose|k: int| 0 <= k < dedup(s).len() && dedup(s)[k] == x;
                if k < d.len() {
                    assert(d[k] == x);
                }
                assert(s[s.len() - 1] == x);
            }
        }
    }
}

proof fn probes_under_cover(g: Seq<Seq<char>>, i: int, q: Seq<char>)
    requires
        0 <= i < g.len(),
        home_probes(g[i]).contains(q),
    ensures
        probes_under(g).contains(q),
    decreases g.len(),
{
    let pre = probes_under(g.drop_last());
    let hp = home_probes(g.last());
    assert(probes_under(g) == pre + hp);
    if i == g.len() - 1 {
        let k = choose|k: int| 0 <= k < hp.len() && hp[k] == q;
        assert((pre + hp)[pre.len() + k] == q);
    } else {
        assert(g.drop_last()[i] == g[i]);
        probes_under_cover(g.drop_last(), i, q);
        let k = choose|k: int| 0 <= k < pre.len() && pre[k] == q;
        assert((pre + hp)[k] == q);
    }
}

proof fn tool_candidates_local(
    home: Seq<char>,
    tool: Seq<char>,
    kind: ToolKind,
    fs: Set<Seq<char>>,
    fs2: Set<Seq<char>>,
)
    requires
        forall|k: int|
            0 <= k < 3 ==> (fs.contains(#[trigger] tool_paths(home, tool)[k]) <==> fs2.contains(
                tool_paths(home, tool)[k],
            )),
    ensures
        tool_candidates(home, tool, kind, fs) == tool_candidates(home, tool, kind, fs2),
{
    let t = tool_paths(home, tool);
    assert(fs.contains(t[0]) <==> fs2.contains(t[0]));
    assert(fs.contains(t[1]) <==> fs2.contains(t[1]));
    assert(fs.contains(t[2]) <==> fs2.contains(t[2]));
}

proof fn home_candidates_local(home: Seq<char>, fs: Set<Seq<char>>, fs2: Set<Seq<char>>)
    requires
        forall|q: Seq<char>| home_probes(home).contains(q) ==> (fs.contains(q) <==> fs2.contains(q)),
    ensures
        home_candidates(home, fs) == home_candidates(home, fs2),
{
    let hp = home_probes(home);
    let a = tool_paths(home, "capyap"@);
    let b = tool_paths(home, "conda"@);
    let c = tool_paths(home, "python"@);
    assert forall|k: int| 0 <= k < 3 implies (fs.contains(#[trigger] a[k]) <==> fs2.contains(
        a[k],
    )) by {
        assert(hp[k] == a[k]);
        assert(hp.contains(a[k]));
    }
    assert forall|k: int| 0 <= k < 3 implies (fs.contains(#[trigger] b[k]) <==> fs2.contains(
        b[k],
    )) by {
        assert(hp[3 + k] == b[k]);
        assert(hp.contains(b[k]));
    }
    assert forall|k: int| 0 <= k < 3 implies (fs.contains(#[trigger] c[k]) <==> fs2.contains(
        c[k],
    )) by {
        assert(hp[6 + k] == c[k]);
        assert(hp.contains(c[k]));
    }
    tool_candidates_local(home, "capyap"@, ToolKind::Cli, fs, fs2);
    tool_candidates_local(home, "conda"@, ToolKind::EnvManager, fs, fs2);
    tool_candidates_local(home, "python"@, ToolKind::Interpreter, fs, fs2);
}

proof fn homes_candidates_local(
    homes: Seq<Seq<char>>,
    g: Seq<Seq<char>>,
    fs: Set<Seq<char>>,
    fs2: Set<Seq<char>>,
)
    requires
        forall|x: Seq<char>| homes.contains(x) ==> g.contains(x),
        forall|q: Seq<char>| probes_under(g).contains(q) ==> (fs.contains(q) <==> fs2.contains(q)),
    ensures
        homes_candidates(homes, fs) == homes_candidates(homes, fs2),
    decreases homes.len(),
{
    if homes.len() > 0 {
        let init = homes.drop_last();
        assert forall|x: Seq<char>| init.contains(x) implies g.contains(x) by {
            let j = choose|j: int| 0 <= j < init.len() && init[j] == x;
            assert(homes[j] == x);
        }
        homes_candidates_local(init, g, fs, fs2);
        let h = homes.last();
        assert(homes[homes.len() - 1] == h);
        assert(g.contains(h));
        let i = choose|i: int| 0 <= i < g.len() && g[i] == h;
        assert forall|q: Seq<char>| home_probes(h).contains(q) implies (fs.contains(q)
            <==> fs2.contains(q)) by {
            probes_under_cover(g, i, q);
        }
        home_candidates_local(h, fs, fs2);
    }
}

/// Only the probed paths matter: keeping in a snapshot just the paths of
/// `probe_list` leaves the candidate list as it is, so checking those paths
/// alone is enough to build it.
pub proof fn probed_paths_suffice(
    home_var: Option<Seq<char>>,
    exe: Option<Seq<char>>,
    fs: Set<Seq<char>>,
)
    ensures
        candidate_list(home_var, exe, fs) == candidate_list(
            home_var,
            exe,
            fs.intersect(probe_list(home_var, exe).to_set()),
        ),
{
    let fs2 = fs.intersect(probe_list(home_var, exe).to_set());
    let g = home_guesses(home_var, exe);
    let pl = probe_list(home_var, exe);
    assert forall|q: Seq<char>| g.contains(q) implies (fs.contains(q) <==> fs2.contains(q)) by {
        let j = choose|j: int| 0 <= j < g.len() && g[j] == q;
        assert(pl[j] == q);
    }
    assert forall|q: Seq<char>| probes_under(g).contains(q) implies (fs.contains(q)
        <==> fs2.contains(q)) by {
        let j = choose|j: int| 0 <= j < probes_under(g).len() && probes_under(g)[j] == q;
        assert(pl[g.len() + j] == q);
    }
    let u = exe_home(exe, "/Users/"@);
    let l = exe_home(exe, "/home/"@);
    assert(g == opt_list(home_var) + opt_list(u) + opt_list(l));
    if home_var is Some {
        assert(g[0] == home_var->Some_0);
    }
    if u is Some {
        assert(g[opt_list(home_var).len() as int] == u->Some_0);
    }
    if l is Some {
        assert(g[(opt_list(home_var).len() + opt_list(u).len()) as int] == l->Some_0);
    }
    assert(home_sightings(home_var, exe, fs) == home_sightings(home_var, exe, fs2));
    let sightings = home_sightings(home_var, exe, fs);
    assert forall|x: Seq<char>| sightings.contains(x) implies g.contains(x) by {
        let j = choose|j: int| 0 <= j < sightings.len() && sightings[j] == x;
        let a = if_present(home_var, fs);
        let b = if_present(u, fs);
        if j < a.len() {
            assert(g[0] == x);
        } else if j < a.len() + b.len() {
            assert(g[opt_list(home_var).len() as int] == x);
        } else {
            assert(g[(opt_list(home_var).len() + opt_list(u).len()) as int] == x);
        }
    }
    dedup_within(sightings);
    homes_candidates_local(inferred_homes(home_var, exe, fs), g, fs, fs2);
}

} // verus!

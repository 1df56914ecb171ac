//! Starting the browser and waiting for its DevTools port.
//!
//! The application performs each action (probing a socket, checking a
//! path, spawning a process, sleeping) and feeds the outcome back; the
//! decisions live here.

use vstd::prelude::*;
use crate::err::{Error, ErrorView};
use crate::text::{decimal, push_decimal};

verus! {

/// The DevTools port the server uses.
pub const PORT: u16 = 9222;

/// The browser profile directory.
pub const PROFILE: &'static str = r"C:\Users\Артур\.browser-agent-profile";

/// Where Edge is installed on 64-bit Windows (32-bit program files).
pub const EDGE_X86: &'static str = r"C:\Program Files (x86)\Microsoft\Edge\Application\msedge.exe";

/// Where Edge is installed in the native program files.
pub const EDGE_X64: &'static str = r"C:\Program Files\Microsoft\Edge\Application\msedge.exe";

/// How many times the port is probed before giving up.
pub const ATTEMPTS: u8 = 20;

/// The pause between two probes, in milliseconds.
pub const POLL_INTERVAL_MS: u64 = 500;

/// `127.0.0.1:<port>`, the address that is probed.
pub open spec fn probe_address_view(port: u16) -> Seq<char> {
    "127.0.0.1:"@ + decimal(port as nat)
}

/// `http://127.0.0.1:<port>`, the DevTools endpoint.
pub open spec fn debug_endpoint_view(port: u16) -> Seq<char> {
    "http://127.0.0.1:"@ + decimal(port as nat)
}

/// The command-line arguments the browser is started with.
pub open spec fn launch_args_view(port: u16) -> Seq<Seq<char>> {
    seq![
        "--remote-debugging-port="@ + decimal(port as nat),
        "--user-data-dir="@ + PROFILE@,
        "--window-size=1280,720"@,
    ]
}

/// The address that is probed to see whether the browser listens.
pub fn probe_address(port: u16) -> (s: String)
    ensures
        s@ == probe_address_view(port),
{
    let mut s = String::from_str("127.0.0.1:");
    push_decimal(&mut s, port as u64);
    s
}

/// The DevTools endpoint of a browser listening on `port`.
pub fn debug_endpoint(port: u16) -> (s: String)
    ensures
        s@ == debug_endpoint_view(port),
{
    let mut s = String::from_str("http://127.0.0.1:");
    push_decimal(&mut s, port as u64);
    s
}

/// The arguments the browser is started with: its debugging port, the
/// profile directory and the window size.
pub fn launch_args(port: u16) -> (args: Vec<String>)
    ensures
        args@.map_values(|a: String| a@) == launch_args_view(port),
{
    let mut first = String::from_str("--remote-debugging-port=");
    push_decimal(&mut first, port as u64);
    let mut second = String::from_str("--user-data-dir=");
    second.append(PROFILE);
    let third = String::from_str("--window-size=1280,720");
    let mut args = Vec::new();
    args.push(first);
    args.push(second);
    args.push(third);
    assert(args@.map_values(|a: String| a@) =~= launch_args_view(port));
    args
}

// ---------------------------------------------------------------------------
// Waiting for the port
// ---------------------------------------------------------------------------

/// What the application does next while waiting for the port.
pub enum PollAction {
    /// Try to connect to this address and report whether it succeeded.
    Probe(String),
    /// Sleep this many milliseconds, then report.
    Sleep(u64),
    /// Stop: the port answered, or it never did.
    Finish(Result<(), Error>),
}

/// The abstract value of a [`PollAction`].
pub enum PollActionView {
    Probe(Seq<char>),
    Sleep(nat),
    Ready,
    GaveUp(ErrorView),
}

impl View for PollAction {
    type V = PollActionView;

    open spec fn view(&self) -> PollActionView {
        match self {
            PollAction::Probe(a) => PollActionView::Probe(a@),
            PollAction::Sleep(ms) => PollActionView::Sleep(*ms as nat),
            PollAction::Finish(Ok(())) => PollActionView::Ready,
            PollAction::Finish(Err(e)) => PollActionView::GaveUp(e@),
        }
    }
}

/// Waits for the browser's port: probe, and on failure sleep and probe
/// again, up to [`ATTEMPTS`] probes.
pub struct ReadyPoll {
    port: u16,
    attempt: u8,
}

/// The abstract state of a [`ReadyPoll`]: the port and how many probes
/// came before the current one.
pub struct PollView {
    pub port: u16,
    pub attempt: nat,
}

impl View for ReadyPoll {
    type V = PollView;

    closed spec fn view(&self) -> PollView {
        PollView { port: self.port, attempt: self.attempt as nat }
    }
}

/// The reaction to a probe: done if the port answered, else a pause.
pub open spec fn poll_on_probe(v: PollView, alive: bool) -> PollActionView {
    if alive {
        PollActionView::Ready
    } else {
        PollActionView::Sleep(POLL_INTERVAL_MS as nat)
    }
}

/// The reaction to the end of a pause: probe again while probes are left,
/// else give up with a timeout.
pub open spec fn poll_on_slept(v: PollView) -> (PollView, PollActionView) {
    if v.attempt + 1 < ATTEMPTS {
        (PollView { port: v.port, attempt: v.attempt + 1 }, PollActionView::Probe(probe_address_view(v.port)))
    } else {
        (v, PollActionView::GaveUp(ErrorView::Timeout { port: v.port, attempts: ATTEMPTS }))
    }
}

impl ReadyPoll {
    /// A wait on `port` that has probed nothing yet.
    pub fn new(port: u16) -> (p: ReadyPoll)
        ensures
            p@ == (PollView { port, attempt: 0 }),
    {
        ReadyPoll { port, attempt: 0 }
    }

    /// The first action: probe the port.
    pub fn start(&self) -> (a: PollAction)
        ensures
            a@ == PollActionView::Probe(probe_address_view(self@.port)),
    {
        PollAction::Probe(probe_address(self.port))
    }

    /// Reacts to the outcome of a probe.
    pub fn on_probe(&self, alive: bool) -> (a: PollAction)
        ensures
            a@ == poll_on_probe(self@, alive),
    {
        if alive {
            PollAction::Finish(Ok(()))
        } else {
            PollAction::Sleep(POLL_INTERVAL_MS)
        }
    }

    /// Reacts to the end of a pause.
    pub fn on_slept(&mut self) -> (a: PollAction)
        ensures
            (final(self)@, a@) == poll_on_slept(old(self)@),
    {
        if self.attempt < ATTEMPTS - 1 {
            self.attempt = self.attempt + 1;
            PollAction::Probe(probe_address(self.port))
        } else {
            PollAction::Finish(Err(Error::Timeout { port: self.port, attempts: ATTEMPTS }))
        }
    }
}

/// Runs the wait from state `v`, the probe that comes next answering
/// `alive[v.attempt]`, the one after `alive[v.attempt + 1]`, and so on.
/// Gives the number of probes made in all and how the wait ended.
pub open spec fn poll_run(v: PollView, alive: Seq<bool>) -> (nat, PollActionView)
    decreases ATTEMPTS - v.attempt,
{
    if v.attempt >= ATTEMPTS {
        (v.attempt, PollActionView::GaveUp(ErrorView::Timeout { port: v.port, attempts: ATTEMPTS }))
    } else if poll_on_probe(v, alive[v.attempt as int]) == PollActionView::Ready {
        (v.attempt + 1, PollActionView::Ready)
    } else {
        let (next, action) = poll_on_slept(v);
        if action is Probe {
            poll_run(next, alive)
        } else {
            (v.attempt + 1, action)
        }
    }
}

/// The wait for the port succeeds exactly when one of the first
/// [`ATTEMPTS`] probes succeeds, and then right after the first success;
/// otherwise it makes exactly [`ATTEMPTS`] probes and ends with a timeout
/// error that names the port and the number of attempts.
pub proof fn lemma_poll_outcome(port: u16, alive: Seq<bool>)
    requires
        alive.len() >= ATTEMPTS,
    ensures
        ({
            let (probes, end) = poll_run(PollView { port, attempt: 0 }, alive);
            &&& (exists|i: int| 0 <= i < ATTEMPTS && alive[i]) ==> {
                &&& end == PollActionView::Ready
                &&& alive[probes - 1]
                &&& forall|j: int| 0 <= j < probes - 1 ==> !alive[j]
            }
            &&& !(exists|i: int| 0 <= i < ATTEMPTS && alive[i]) ==> {
                &&& end == PollActionView::GaveUp(ErrorView::Timeout { port, attempts: ATTEMPTS })
                &&& probes == ATTEMPTS
            }
        }),
{
    lemma_poll_from(PollView { port, attempt: 0 }, alive);
}

proof fn lemma_poll_from(v: PollView, alive: Seq<bool>)
    requires
        alive.len() >= ATTEMPTS,
        v.attempt < ATTEMPTS,
    ensures
        ({
            let (probes, end) = poll_run(v, alive);
            &&& v.attempt < probes <= ATTEMPTS
            &&& (exists|i: int| v.attempt <= i < ATTEMPTS && alive[i]) ==> {
                &&& end == PollActionView::Ready
                &&& alive[probes - 1]
                &&& forall|j: int| v.attempt <= j < probes - 1 ==> !alive[j]
            }
            &&& !(exists|i: int| v.attempt <= i < ATTEMPTS && alive[i]) ==> {
                &&& end == PollActionView::GaveUp(ErrorView::Timeout { port: v.port, attempts: ATTEMPTS })
                &&& probes == ATTEMPTS
            }
        }),
    decreases ATTEMPTS - v.attempt,
{
    if alive[v.attempt as int] {
    } else {
        let (next, action) = poll_on_slept(v);
        if v.attempt + 1 < ATTEMPTS {
            lemma_poll_from(next, alive);
            assert forall|i: int| v.attempt <= i < ATTEMPTS && alive[i] implies next.attempt <= i by {}
        }
    }
}

// ---------------------------------------------------------------------------
// Launching the browser
// ---------------------------------------------------------------------------

/// The places the browser is looked for, in order: the path in
/// `BROWSER_PATH` when that variable is set, then the two Edge locations.
pub open spec fn candidates_view(env_path: Option<Seq<char>>) -> Seq<Seq<char>> {
    match env_path {
        Some(p) => seq![p, EDGE_X86@, EDGE_X64@],
        None => seq![EDGE_X86@, EDGE_X64@],
    }
}

/// The abstract value of an optional string.
pub open spec fn opt_string_view(o: Option<String>) -> Option<Seq<char>> {
    match o {
        Some(s) => Some(s@),
        None => None,
    }
}

/// The text of the error when no browser is found.
pub open spec fn not_found_text() -> Seq<char> {
    "msedge not found"@
}

/// What the application does next while launching the browser.
pub enum LaunchAction {
    /// Try to connect to this address and report whether it succeeded.
    ProbePort(String),
    /// Report whether a file exists at this path.
    CheckPath(String),
    /// Start this program with these arguments and report the outcome.
    Spawn { program: String, args: Vec<String> },
    /// Stop: `Ok(true)` when a browser was started, `Ok(false)` when one
    /// was already listening, or the error.
    Finish(Result<bool, Error>),
}

/// The abstract value of a [`LaunchAction`].
pub enum LaunchActionView {
    ProbePort(Seq<char>),
    CheckPath(Seq<char>),
    Spawn { program: Seq<char>, args: Seq<Seq<char>> },
    Launched(bool),
    Failed(ErrorView),
}

impl View for LaunchAction {
    type V = LaunchActionView;

    open spec fn view(&self) -> LaunchActionView {
        match self {
            LaunchAction::ProbePort(a) => LaunchActionView::ProbePort(a@),
            LaunchAction::CheckPath(p) => LaunchActionView::CheckPath(p@),
            LaunchAction::Spawn { program, args } => LaunchActionView::Spawn {
                program: program@,
                args: args@.map_values(|a: String| a@),
            },
            LaunchAction::Finish(Ok(b)) => LaunchActionView::Launched(*b),
            LaunchAction::Finish(Err(e)) => LaunchActionView::Failed(e@),
        }
    }
}

/// Launches the browser unless one already listens on the port: looks for
/// the executable among the candidates and starts the first one found.
pub struct Launcher {
    port: u16,
    candidates: Vec<String>,
    next: usize,
}

/// The abstract state of a [`Launcher`]: the port, the candidate paths and
/// the index of the candidate being checked.
pub struct LauncherView {
    pub port: u16,
    pub candidates: Seq<Seq<char>>,
    pub next: nat,
}

impl View for Launcher {
    type V = LauncherView;

    closed spec fn view(&self) -> LauncherView {
        LauncherView {
            port: self.port,
            candidates: self.candidates@.map_values(|c: String| c@),
            next: self.next as nat,
        }
    }
}

/// Moves to the candidate at `i`: check it if there is one, else fail.
pub open spec fn launch_check_at(v: LauncherView, i: nat) -> (LauncherView, LaunchActionView) {
    let w = LauncherView { next: i, ..v };
    if i < v.candidates.len() {
        (w, LaunchActionView::CheckPath(v.candidates[i as int]))
    } else {
        (w, LaunchActionView::Failed(ErrorView::Chrome(not_found_text())))
    }
}

/// The reaction to probing the port: nothing to do if a browser listens,
/// else the search starts at the first candidate.
pub open spec fn launch_on_probe(v: LauncherView, listening: bool) -> (LauncherView, LaunchActionView) {
    if listening {
        (v, LaunchActionView::Launched(false))
    } else {
        launch_check_at(v, 0)
    }
}

/// The reaction to checking the current candidate: start it if it exists,
/// else move to the next one.
pub open spec fn launch_on_check(v: LauncherView, exists: bool) -> (LauncherView, LaunchActionView) {
    if v.next >= v.candidates.len() {
        (v, LaunchActionView::Failed(ErrorView::Chrome(not_found_text())))
    } else if exists {
        (v, LaunchActionView::Spawn { program: v.candidates[v.next as int], args: launch_args_view(v.port) })
    } else {
        launch_check_at(v, v.next + 1)
    }
}

fn not_found() -> (e: Error)
    ensures
        e@ == ErrorView::Chrome(not_found_text()),
{
    Error::Chrome(String::from_str("msedge not found"))
}

impl Launcher {
    /// A launch on `port`; `env_path` is the value of `BROWSER_PATH`, if set.
    pub fn new(port: u16, env_path: Option<String>) -> (l: Launcher)
        ensures
            l@ == (LauncherView {
                port,
                candidates: candidates_view(opt_string_view(env_path)),
                next: 0,
            }),
    {
        let ghost env_view = opt_string_view(env_path);
        let mut candidates = Vec::new();
        match env_path {
            Some(p) => candidates.push(p),
            None => {},
        }
        candidates.push(String::from_str(EDGE_X86));
        candidates.push(String::from_str(EDGE_X64));
        let l = Launcher { port, candidates, next: 0 };
        assert(l@.candidates =~= candidates_view(env_view));
        l
    }

    /// The first action: probe the port.
    pub fn start(&self) -> (a: LaunchAction)
        ensures
            a@ == LaunchActionView::ProbePort(probe_address_view(self@.port)),
    {
        LaunchAction::ProbePort(probe_address(self.port))
    }

    fn check_at(&mut self, i: usize) -> (a: LaunchAction)
        ensures
            (final(self)@, a@) == launch_check_at(old(self)@, i as nat),
    {
        self.next = i;
        if i < self.candidates.len() {
            LaunchAction::CheckPath(self.candidates[i].clone())
        } else {
            LaunchAction::Finish(Err(not_found()))
        }
    }

    /// Reacts to the outcome of probing the port.
    pub fn on_probe(&mut self, listening: bool) -> (a: LaunchAction)
        ensures
            (final(self)@, a@) == launch_on_probe(old(self)@, listening),
    {
        if listening {
            LaunchAction::Finish(Ok(false))
        } else {
            self.check_at(0)
        }
    }

    /// Reacts to the outcome of checking whether the current candidate exists.
    pub fn on_check(&mut self, exists: bool) -> (a: LaunchAction)
        ensures
            (final(self)@, a@) == launch_on_check(old(self)@, exists),
    {
        if self.next >= self.candidates.len() {
            LaunchAction::Finish(Err(not_found()))
        } else if exists {
            let program = self.candidates[self.next].clone();
            LaunchAction::Spawn { program, args: launch_args(self.port) }
        } else {
            let i: usize = self.next + 1;
            self.check_at(i)
        }
    }

    /// Reacts to the outcome of starting the browser: a failure to start
    /// becomes a [`Error::Launch`].
    pub fn on_spawn(&self, started: Result<(), std::io::Error>) -> (a: LaunchAction)
        ensures
            started is Ok ==> a@ == LaunchActionView::Launched(true),
            started is Err ==> a@ == LaunchActionView::Failed(ErrorView::Launch),
            started matches Err(e) ==> a == LaunchAction::Finish(Err(Error::Launch(e))),
    {
        match started {
            Ok(()) => LaunchAction::Finish(Ok(true)),
            Err(e) => LaunchAction::Finish(Err(Error::Launch(e))),
        }
    }
}

/// Runs the search from state `v`, the candidate at index `i` existing
/// exactly when `exists[i]`; gives the action the search ends with.
pub open spec fn launch_search(v: LauncherView, exists: Seq<bool>) -> LaunchActionView
    decreases v.candidates.len() - v.next,
{
    let (w, a) = launch_on_check(v, exists[v.next as int]);
    if a is CheckPath && w.next > v.next {
        launch_search(w, exists)
    } else {
        a
    }
}

/// Runs a whole launch from a fresh state: the probe answers `listening`,
/// then the search runs as in [`launch_search`].
pub open spec fn launch_run(v: LauncherView, listening: bool, exists: Seq<bool>) -> LaunchActionView {
    let (w, a) = launch_on_probe(v, listening);
    if a is CheckPath {
        launch_search(w, exists)
    } else {
        a
    }
}

/// No browser is started when one already listens on the port; otherwise
/// the first existing candidate (the `BROWSER_PATH` value before the Edge
/// locations) is started with the launch arguments, and when none exists
/// the launch fails with `msedge not found`.
pub proof fn lemma_launch_outcome(v: LauncherView, listening: bool, exists: Seq<bool>)
    requires
        v.next == 0,
        exists.len() == v.candidates.len(),
    ensures
        listening ==> launch_run(v, listening, exists) == LaunchActionView::Launched(false),
        !listening && (exists|k: int| 0 <= k < exists.len() && exists[k]) ==> (exists|k: int|
            0 <= k < exists.len() && exists[k] && (forall|j: int| 0 <= j < k ==> !exists[j])
                && launch_run(v, listening, exists) == (LaunchActionView::Spawn {
                program: v.candidates[k],
                args: launch_args_view(v.port),
            })),
        !listening && !(exists|k: int| 0 <= k < exists.len() && exists[k]) ==> launch_run(
            v,
            listening,
            exists,
        ) == LaunchActionView::Failed(ErrorView::Chrome(not_found_text())),
{
    if !listening && v.candidates.len() > 0 {
        lemma_search_from(LauncherView { next: 0, ..v }, exists);
    }
}

proof fn lemma_search_from(v: LauncherView, exists: Seq<bool>)
    requires
        v.next < v.candidates.len(),
        exists.len() == v.candidates.len(),
    ensures
        (exists|k: int| v.next <= k < exists.len() && exists[k]) ==> (exists|k: int|
            v.next <= k < exists.len() && exists[k] && (forall|j: int| v.next <= j < k ==> !exists[j])
                && launch_search(v, exists) == (LaunchActionView::Spawn {
                program: v.candidates[k],
                args: launch_args_view(v.port),
            })),
        !(exists|k: int| v.next <= k < exists.len() && exists[k]) ==> launch_search(v, exists)
            == LaunchActionView::Failed(ErrorView::Chrome(not_found_text())),
    decreases v.candidates.len() - v.next,
{
    let i: int = v.next as int;
    if exists[i] {
        assert(v.next <= i < exists.len() && exists[i] && (forall|j: int| v.next <= j < i ==> !exists[j]));
    } else if v.next + 1 < v.candidates.len() {
        let w = LauncherView { next: v.next + 1, ..v };
        lemma_search_from(w, exists);
        if exists|k: int| v.next <= k < exists.len() && exists[k] {
            let k: int = choose|k: int| v.next <= k < exists.len() && exists[k];
            assert(w.next <= k);
            let k2: int = choose|k2: int|
                w.next <= k2 < exists.len() && exists[k2] && (forall|j: int| w.next <= j < k2 ==> !exists[j])
                    && launch_search(w, exists) == (LaunchActionView::Spawn {
                    program: w.candidates[k2],
                    args: launch_args_view(w.port),
                });
            assert(forall|j: int| v.next <= j < k2 ==> !exists[j]);
        }
    } else {
        assert(forall|k: int| v.next <= k < exists.len() ==> !#[trigger] exists[k]);
    }
}

/// The arguments a browser is started with, spelled out: the debugging
/// port, the profile directory and the window size.
pub proof fn lemma_launch_args(port: u16)
    ensures
        launch_args_view(port).len() == 3,
        launch_args_view(port)[0] == "--remote-debugging-port="@ + decimal(port as nat),
        launch_args_view(port)[1] == "--user-data-dir="@ + PROFILE@,
        launch_args_view(port)[2] == "--window-size=1280,720"@,
{
}

/// With `BROWSER_PATH` unset, a launch on a port where no browser listens
/// checks the 32-bit Edge location and then the native one, whatever the
/// file system holds (`on_disk` says which paths exist): it starts the first
/// of them that exists with the debugging port, and fails with
/// `msedge not found` only when neither exists.
pub proof fn lemma_launch_tries_both_edge_locations(port: u16, on_disk: spec_fn(Seq<char>) -> bool)
    ensures
        ({
            let v = LauncherView { port, candidates: candidates_view(None), next: 0 };
            let args = seq![
                "--remote-debugging-port="@ + decimal(port as nat),
                "--user-data-dir="@ + PROFILE@,
                "--window-size=1280,720"@,
            ];
            launch_run(v, false, v.candidates.map_values(on_disk)) == if on_disk(EDGE_X86@) {
                LaunchActionView::Spawn { program: EDGE_X86@, args }
            } else if on_disk(EDGE_X64@) {
                LaunchActionView::Spawn { program: EDGE_X64@, args }
            } else {
                LaunchActionView::Failed(ErrorView::Chrome("msedge not found"@))
            }
        }),
{
    let v = LauncherView { port, candidates: candidates_view(None), next: 0 };
    let ex = v.candidates.map_values(on_disk);
    assert(v.candidates =~= seq![EDGE_X86@, EDGE_X64@]);
    assert(ex[0] == on_disk(EDGE_X86@));
    assert(ex[1] == on_disk(EDGE_X64@));
    let w0 = LauncherView { next: 0, ..v };
    let w1 = LauncherView { next: 1, ..v };
    let w2 = LauncherView { next: 2, ..v };
    assert(launch_on_probe(v, false) == (w0, LaunchActionView::CheckPath(EDGE_X86@)));
    assert(launch_on_check(w0, ex[0]) == if ex[0] {
        (w0, LaunchActionView::Spawn { program: EDGE_X86@, args: launch_args_view(port) })
    } else {
        (w1, LaunchActionView::CheckPath(EDGE_X64@))
    });
    assert(launch_on_check(w1, ex[1]) == if ex[1] {
        (w1, LaunchActionView::Spawn { program: EDGE_X64@, args: launch_args_view(port) })
    } else {
        (w2, LaunchActionView::Failed(ErrorView::Chrome(not_found_text())))
    });
    assert(launch_args_view(port) =~= seq![
        "--remote-debugging-port="@ + decimal(port as nat),
        "--user-data-dir="@ + PROFILE@,
        "--window-size=1280,720"@,
    ]);
    if !ex[0] {
        assert(launch_search(w1, ex) == launch_on_check(w1, ex[1]).1);
    }
    assert(launch_search(w0, ex) == (if ex[0] {
        LaunchActionView::Spawn { program: EDGE_X86@, args: launch_args_view(port) }
    } else {
        launch_search(w1, ex)
    }));
}

/// With `BROWSER_PATH` set to `path`, a launch on a port where no browser
/// listens checks that path first and starts it when it exists; otherwise it
/// goes on to the two Edge locations in order, and fails with
/// `msedge not found` only when none of the three exists.
pub proof fn lemma_launch_prefers_browser_path(port: u16, path: Seq<char>, on_disk: spec_fn(Seq<char>) -> bool)
    ensures
        ({
            let v = LauncherView { port, candidates: candidates_view(Some(path)), next: 0 };
            let args = seq![
                "--remote-debugging-port="@ + decimal(port as nat),
                "--user-data-dir="@ + PROFILE@,
                "--window-size=1280,720"@,
            ];
            launch_run(v, false, v.candidates.map_values(on_disk)) == if on_disk(path) {
                LaunchActionView::Spawn { program: path, args }
            } else if on_disk(EDGE_X86@) {
                LaunchActionView::Spawn { program: EDGE_X86@, args }
            } else if on_disk(EDGE_X64@) {
                LaunchActionView::Spawn { program: EDGE_X64@, args }
            } else {
                LaunchActionView::Failed(ErrorView::Chrome("msedge not found"@))
            }
        }),
{
    let v = LauncherView { port, candidates: candidates_view(Some(path)), next: 0 };
    let ex = v.candidates.map_values(on_disk);
    assert(v.candidates =~= seq![path, EDGE_X86@, EDGE_X64@]);
    assert(ex[0] == on_disk(path));
    assert(ex[1] == on_disk(EDGE_X86@));
    assert(ex[2] == on_disk(EDGE_X64@));
    let w0 = LauncherView { next: 0, ..v };
    let w1 = LauncherView { next: 1, ..v };
    let w2 = LauncherView { next: 2, ..v };
    let w3 = LauncherView { next: 3, ..v };
    assert(launch_on_probe(v, false) == (w0, LaunchActionView::CheckPath(path)));
    assert(launch_args_view(port) =~= seq![
        "--remote-debugging-port="@ + decimal(port as nat),
        "--user-data-dir="@ + PROFILE@,
        "--window-size=1280,720"@,
    ]);
    assert(launch_on_check(w2, ex[2]) == if ex[2] {
        (w2, LaunchActionView::Spawn { program: EDGE_X64@, args: launch_args_view(port) })
    } else {
        (w3, LaunchActionView::Failed(ErrorView::Chrome(not_found_text())))
    });
    assert(launch_search(w2, ex) == launch_on_check(w2, ex[2]).1);
    assert(launch_on_check(w1, ex[1]) == if ex[1] {
        (w1, LaunchActionView::Spawn { program: EDGE_X86@, args: launch_args_view(port) })
    } else {
        (w2, LaunchActionView::CheckPath(EDGE_X64@))
    });
    assert(launch_search(w1, ex) == (if ex[1] {
        LaunchActionView::Spawn { program: EDGE_X86@, args: launch_args_view(port) }
    } else {
        launch_search(w2, ex)
    }));
    assert(launch_on_check(w0, ex[0]) == if ex[0] {
        (w0, LaunchActionView::Spawn { program: path, args: launch_args_view(port) })
    } else {
        (w1, LaunchActionView::CheckPath(EDGE_X86@))
    });
    assert(launch_search(w0, ex) == (if ex[0] {
        LaunchActionView::Spawn { program: path, args: launch_args_view(port) }
    } else {
        launch_search(w1, ex)
    }));
}

/// Every probe of the wait, the first and each one after a pause, goes to
/// `127.0.0.1:<port>` of the port waited on; a pause always lasts 500 ms.
pub proof fn lemma_poll_probes_the_port(v: PollView, alive: bool)
    ensures
        poll_on_slept(v).1 is Probe ==> poll_on_slept(v).1 == PollActionView::Probe(
            "127.0.0.1:"@ + decimal(v.port as nat),
        ),
        poll_on_slept(v).0.port == v.port,
        probe_address_view(v.port) == "127.0.0.1:"@ + decimal(v.port as nat),
        !alive ==> poll_on_probe(v, alive) == PollActionView::Sleep(500),
        alive ==> poll_on_probe(v, alive) == PollActionView::Ready,
{
}

// ---------------------------------------------------------------------------
// Starting the browser: launch, wait for the port, connect
// ---------------------------------------------------------------------------

/// What the application does next while starting the browser.
pub enum StartAction {
    /// Run a [`Launcher`] on the port and report how it finished.
    Launch,
    /// Run a [`ReadyPoll`] on the port and report how it finished.
    WaitForPort,
    /// Connect to this DevTools endpoint and report the outcome.
    Connect(String),
    /// Stop: the browser is connected, or the error.
    Finish(Result<(), Error>),
}

/// The abstract value of a [`StartAction`].
pub enum StartActionView {
    Launch,
    WaitForPort,
    Connect(Seq<char>),
    Connected,
    Failed(ErrorView),
}

impl View for StartAction {
    type V = StartActionView;

    open spec fn view(&self) -> StartActionView {
        match self {
            StartAction::Launch => StartActionView::Launch,
            StartAction::WaitForPort => StartActionView::WaitForPort,
            StartAction::Connect(u) => StartActionView::Connect(u@),
            StartAction::Finish(Ok(())) => StartActionView::Connected,
            StartAction::Finish(Err(e)) => StartActionView::Failed(e@),
        }
    }
}

/// Starts the browser on a port: launch it unless one listens, wait until
/// the port answers, then connect; the first error ends the start unchanged.
pub struct Startup {
    port: u16,
}

impl View for Startup {
    type V = u16;

    closed spec fn view(&self) -> u16 {
        self.port
    }
}

impl Startup {
    /// A start on `port`.
    pub fn new(port: u16) -> (s: Startup)
        ensures
            s@ == port,
    {
        Startup { port }
    }

    /// The first action: launch.
    pub fn start(&self) -> (a: StartAction)
        ensures
            a@ == StartActionView::Launch,
    {
        StartAction::Launch
    }

    /// Reacts to the end of the launch: wait for the port, or stop with its error.
    pub fn on_launched(&self, launched: Result<bool, Error>) -> (a: StartAction)
        ensures
            launched is Ok ==> a@ == StartActionView::WaitForPort,
            launched matches Err(e) ==> a == StartAction::Finish(Err(e)),
    {
        match launched {
            Ok(_) => StartAction::WaitForPort,
            Err(e) => StartAction::Finish(Err(e)),
        }
    }

    /// Reacts to the end of the wait: connect to the DevTools endpoint, or
    /// stop with its error.
    pub fn on_ready(&self, ready: Result<(), Error>) -> (a: StartAction)
        ensures
            ready is Ok ==> a@ == StartActionView::Connect(debug_endpoint_view(self@)),
            ready matches Err(e) ==> a == StartAction::Finish(Err(e)),
    {
        match ready {
            Ok(()) => StartAction::Connect(debug_endpoint(self.port)),
            Err(e) => StartAction::Finish(Err(e)),
        }
    }

    /// Reacts to the connection: the start ends with its outcome.
    pub fn on_connected(&self, connected: Result<(), Error>) -> (a: StartAction)
        ensures
            connected is Ok ==> a@ == StartActionView::Connected,
            connected matches Err(e) ==> a == StartAction::Finish(Err(e)),
    {
        StartAction::Finish(connected)
    }
}

} // verus!

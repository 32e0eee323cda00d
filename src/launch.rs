//! How the server is started, how its readiness is awaited, and how the one
//! supervised child is held and released.

use vstd::prelude::*;
use vstd::string::*;
use crate::config::{opt_str_view, opt_view};
use crate::error::LauncherError;
use crate::runtime::{
    find_runtime_paths, first_ready, java_path_spec, paths_view, payload_path_spec, ready,
    search_error, FileProbe, Platform,
};
use crate::text::{drop_trailing_slashes, strip_trailing_slashes};

verus! {

/// Path of the health endpoint, below the base address.
pub const HEALTH_ENDPOINT: &'static str = "/api/v1/settings/about/";

/// How long a freshly started server has to answer healthy.
pub const STARTUP_TIMEOUT_SECS: u64 = 60;

/// How long a stopping server has to exit before it is killed.
pub const SHUTDOWN_TIMEOUT_SECS: u64 = 10;

/// Pause between two probes of a poll, and the timeout of one health request.
pub const POLL_INTERVAL_MS: u64 = 300;

/// Keeps the server from opening a browser on its own.
pub const NO_BROWSER_PROPERTY: &'static str =
    "-Dsuwayomi.tachidesk.config.server.initialOpenInBrowserEnabled=false";

/// Makes the server deliver its web interface to a browser.
pub const BROWSER_UI_PROPERTY: &'static str =
    "-Dsuwayomi.tachidesk.config.server.webUIInterface=browser";

/// Prefix of the property that hands the server its root directory.
pub const ROOT_DIR_PROPERTY_PREFIX: &'static str = "-Dsuwayomi.tachidesk.config.server.rootDir=";

/// The flag that runs the payload.
pub const RUN_PAYLOAD_FLAG: &'static str = "-jar";

pub open spec fn java_args_spec(root_dir: Option<Seq<char>>) -> Seq<Seq<char>> {
    seq![NO_BROWSER_PROPERTY@, BROWSER_UI_PROPERTY@] + match root_dir {
        Some(d) => seq![ROOT_DIR_PROPERTY_PREFIX@ + d],
        None => Seq::empty(),
    }
}

/// The startup properties of the server: no browser, browser interface, and
/// the root directory when one is given.
pub fn build_java_args(root_dir: Option<&str>) -> (r: Vec<String>)
    ensures
        paths_view(r@) == java_args_spec(opt_str_view(root_dir)),
{
    let mut args: Vec<String> = Vec::new();
    args.push(String::from_str(NO_BROWSER_PROPERTY));
    args.push(String::from_str(BROWSER_UI_PROPERTY));
    if let Some(dir) = root_dir {
        let mut prop = String::from_str(ROOT_DIR_PROPERTY_PREFIX);
        prop.append(dir);
        args.push(prop);
    }
    assert(paths_view(args@) =~= java_args_spec(opt_str_view(root_dir)));
    args
}

/// Everything the server process is started from.
#[derive(Debug, Clone)]
pub struct LauncherConfig {
    /// The runtime root; the process's working directory.
    pub runtime_root: String,
    /// The interpreter to run.
    pub java_bin: String,
    /// The payload the interpreter runs.
    pub jar_file: String,
    /// The address the server will answer at.
    pub base_url: String,
    /// A root directory to hand the server, if one was configured.
    pub root_dir: Option<String>,
}

impl LauncherConfig {
    /// Picks the first root whose probe found both files and builds the
    /// launch configuration from it; fails as `find_runtime_paths` does.
    pub fn discover(
        base_url: String,
        roots: Vec<String>,
        probes: &Vec<FileProbe>,
        platform: Platform,
        root_dir: Option<String>,
    ) -> (r: Result<Self, LauncherError>)
        requires
            probes@.len() == roots@.len(),
        ensures
            r is Ok <==> exists|i: int| 0 <= i < probes@.len() && ready(probes@[i]),
            r matches Ok(c) ==> c.base_url@ == base_url@ && opt_view(c.root_dir) == opt_view(root_dir)
                && exists|i: int|
                first_ready(probes@, i) && c.runtime_root@ == roots@[i]@ && c.java_bin@
                    == java_path_spec(roots@[i]@, platform) && c.jar_file@ == payload_path_spec(
                    roots@[i]@,
                    platform,
                ),
            r matches Err(e) ==> search_error(paths_view(roots@), probes@, platform, e),
    {
        match find_runtime_paths(roots, probes, platform) {
            Ok((runtime_root, java_bin, jar_file)) => Ok(
                LauncherConfig { runtime_root, java_bin, jar_file, base_url, root_dir },
            ),
            Err(e) => Err(e),
        }
    }

    /// The arguments of the interpreter: the startup properties, then the
    /// flag that runs the payload, then the payload.
    pub fn command_args(&self) -> (r: Vec<String>)
        ensures
            paths_view(r@) == java_args_spec(opt_view(self.root_dir)) + seq![RUN_PAYLOAD_FLAG@, self.jar_file@],
    {
        let dir = match &self.root_dir {
            Some(d) => Some(d.as_str()),
            None => None,
        };
        let mut args = build_java_args(dir);
        let ghost before = args@;
        args.push(String::from_str(RUN_PAYLOAD_FLAG));
        args.push(self.jar_file.clone());
        assert(paths_view(args@) =~= paths_view(before) + seq![RUN_PAYLOAD_FLAG@, self.jar_file@]);
        args
    }
}

pub open spec fn health_url_spec(base_url: Seq<char>) -> Seq<char> {
    drop_trailing_slashes(base_url) + HEALTH_ENDPOINT@
}

/// The address of the health endpoint below `base_url`.
pub fn health_url(base_url: &str) -> (r: String)
    ensures
        r@ == health_url_spec(base_url@),
{
    let mut url = strip_trailing_slashes(base_url);
    url.append(HEALTH_ENDPOINT);
    url
}

/// The result of the last probe of a poll.
#[derive(Debug, Clone, Copy, PartialEq, Eq, Structural)]
pub enum ProbeOutcome {
    /// No probe since the poll began or last slept.
    NotYet,
    /// The awaited condition holds (healthy, or exited).
    Met,
    /// The condition does not hold yet.
    NotMet,
    /// The probe itself failed; waiting on is pointless.
    Failed,
}

/// What a poll does next.
#[derive(Debug, Clone, Copy, PartialEq, Eq, Structural)]
pub enum PollAction {
    /// Probe the condition now.
    Probe,
    /// Sleep one poll interval, then decide again with `NotYet`.
    Sleep,
    /// Stop: `true` when the condition was met, `false` on a timeout or a
    /// failed probe.
    Done(bool),
}

pub open spec fn poll_step_spec(elapsed_ms: u64, timeout_ms: u64, last: ProbeOutcome) -> PollAction {
    match last {
        ProbeOutcome::Met => PollAction::Done(true),
        ProbeOutcome::Failed => PollAction::Done(false),
        ProbeOutcome::NotMet => PollAction::Sleep,
        ProbeOutcome::NotYet => if elapsed_ms < timeout_ms {
            PollAction::Probe
        } else {
            PollAction::Done(false)
        },
    }
}

/// One decision of a poll bounded by a deadline: probe while the time spent
/// since the start is below the timeout, stop at the first probe that meets
/// the condition or fails, sleep after one that does not.
pub fn poll_step(elapsed_ms: u64, timeout_ms: u64, last: ProbeOutcome) -> (r: PollAction)
    ensures
        r == poll_step_spec(elapsed_ms, timeout_ms, last),
{
    match last {
        ProbeOutcome::Met => PollAction::Done(true),
        ProbeOutcome::Failed => PollAction::Done(false),
        ProbeOutcome::NotMet => PollAction::Sleep,
        ProbeOutcome::NotYet => if elapsed_ms < timeout_ms {
            PollAction::Probe
        } else {
            PollAction::Done(false)
        },
    }
}

/// A poll gives up on time only once the timeout has elapsed, and it never
/// stops on time while the deadline is still ahead.
pub proof fn poll_times_out_only_after_deadline(elapsed_ms: u64, timeout_ms: u64)
    ensures
        poll_step_spec(elapsed_ms, timeout_ms, ProbeOutcome::NotYet) == PollAction::Done(false)
            <==> elapsed_ms >= timeout_ms,
        elapsed_ms < timeout_ms ==> poll_step_spec(elapsed_ms, timeout_ms, ProbeOutcome::NotYet)
            == PollAction::Probe,
{
}

/// A poll whose probe meets the condition succeeds at once, whatever the
/// time.
pub proof fn poll_succeeds_on_met_probe(elapsed_ms: u64, timeout_ms: u64)
    ensures
        poll_step_spec(elapsed_ms, timeout_ms, ProbeOutcome::Met) == PollAction::Done(true),
{
}

/// The slot of the one supervised child: empty, or holding the child that
/// answered healthy after it was started, until it is shut down.
pub struct ChildSlot<C> {
    child: Option<C>,
}

impl<C> ChildSlot<C> {
    /// The child held, if any.
    pub closed spec fn current(&self) -> Option<C> {
        self.child
    }

    /// An empty slot.
    pub fn new() -> (r: Self)
        ensures
            r.current() is None,
    {
        ChildSlot { child: None }
    }

    /// Whether a child is held.
    pub fn is_tracking(&self) -> (r: bool)
        ensures
            r == self.current() is Some,
    {
        self.child.is_some()
    }

    /// Holds `child` if the slot is empty; a held child is never replaced,
    /// and a refused child is handed back.
    pub fn track(&mut self, child: C) -> (r: Result<(), C>)
        ensures
            old(self).current() is None ==> r is Ok && final(self).current() == Some(child),
            old(self).current() is Some ==> r == Err::<(), C>(child) && final(self).current() == old(
                self,
            ).current(),
    {
        if self.child.is_some() {
            Err(child)
        } else {
            self.child = Some(child);
            Ok(())
        }
    }
}

/// Takes the supervised child out of the slot, leaving it empty, so that
/// the caller can stop it; with no child held it does nothing.
pub fn shutdown_child_process<C>(slot: &mut ChildSlot<C>) -> (r: Option<C>)
    ensures
        r == old(slot).current(),
        final(slot).current() is None,
        old(slot).current() is None ==> *final(slot) == *old(slot),
{
    slot.child.take()
}

} // verus!

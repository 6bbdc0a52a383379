//! The sidecar lifecycle: shared state, start pre-check, readiness gating,
//! and stopping.
//!
//! The library decides; the embedding application performs the process and
//! network work (spawning, killing, probing) and reports each outcome back.
use vstd::prelude::*;
use vstd::string::StringExecFns;
use crate::numfmt::u16_to_string;
use crate::types::{base_url_of, OpenCodeServerInfo, OpencodeError, ServerStatus};

verus! {

/// The port assumed when discovery finds nothing in the sidecar's output.
/// A best-effort guess, not a guarantee.
pub const DEFAULT_PORT: u16 = 3001;

/// How many liveness probes a start may spend before giving up.
pub const MAX_PROBE_ATTEMPTS: u32 = 30;

/// What the supervisor knows of the spawned process it tracks.  The
/// embedding application owns the real process handle; this value mirrors
/// its identity.
#[derive(Clone, Copy, Debug, PartialEq)]
pub struct TrackedProcess {
    pub pid: Option<u32>,
}

/// Process-wide store: at most one tracked sidecar process and its
/// discovered connection info.
pub struct SharedState {
    pub process: Option<TrackedProcess>,
    pub info: Option<OpenCodeServerInfo>,
}

/// How one recorded probe outcome advances a start.
#[derive(Clone, Copy, Debug, PartialEq)]
pub enum ProbeVerdict {
    /// The probe succeeded: the server is ready.
    Ready,
    /// The probe failed and attempts remain: wait, then probe again.
    RetryAfterDelay,
    /// The probe failed and the attempts are spent: give up.
    TimedOut,
}

/// The verdict after a probe outcome, given how many attempts were already
/// spent before it.
pub open spec fn spec_verdict(attempts_before: u32, probe_ok: bool) -> ProbeVerdict {
    if probe_ok {
        ProbeVerdict::Ready
    } else if attempts_before + 1 < MAX_PROBE_ATTEMPTS {
        ProbeVerdict::RetryAfterDelay
    } else {
        ProbeVerdict::TimedOut
    }
}

/// The verdict a fresh-enough poll reaches on a given sequence of probe
/// outcomes, starting with `attempts_before` attempts already spent.
pub open spec fn spec_poll_result(probes: Seq<bool>, attempts_before: u32) -> ProbeVerdict
    decreases probes.len(),
{
    if probes.len() == 0 {
        ProbeVerdict::TimedOut
    } else {
        let v = spec_verdict(attempts_before, probes[0]);
        if v is RetryAfterDelay {
            spec_poll_result(probes.drop_first(), (attempts_before + 1) as u32)
        } else {
            v
        }
    }
}

/// Counts the liveness probes of one start attempt.
pub struct ReadinessPoll {
    pub attempts: u32,
}

impl ReadinessPoll {
    pub fn new() -> (r: Self)
        ensures
            r.attempts == 0,
    {
        ReadinessPoll { attempts: 0 }
    }

    /// Records one probe outcome and says how to go on.
    pub fn record(&mut self, probe_ok: bool) -> (v: ProbeVerdict)
        requires
            old(self).attempts < MAX_PROBE_ATTEMPTS,
        ensures
            final(self).attempts == old(self).attempts + 1,
            v == spec_verdict(old(self).attempts, probe_ok),
            v is RetryAfterDelay ==> final(self).attempts < MAX_PROBE_ATTEMPTS,
    {
        self.attempts = self.attempts + 1;
        if probe_ok {
            ProbeVerdict::Ready
        } else if self.attempts < MAX_PROBE_ATTEMPTS {
            ProbeVerdict::RetryAfterDelay
        } else {
            ProbeVerdict::TimedOut
        }
    }
}

/// Readiness timeout law: on probes that all fail, a poll never reports
/// `Ready`; and once the failures reach the attempt bound, it reports
/// `TimedOut`.  In particular, thirty consecutive failures drive a fresh
/// poll to `TimedOut`.
pub proof fn lemma_readiness_timeout(probes: Seq<bool>, attempts_before: u32)
    requires
        forall|i: int| 0 <= i < probes.len() ==> !probes[i],
        attempts_before < MAX_PROBE_ATTEMPTS,
    ensures
        spec_poll_result(probes, attempts_before) != ProbeVerdict::Ready,
        attempts_before + probes.len() >= MAX_PROBE_ATTEMPTS ==> spec_poll_result(
            probes,
            attempts_before,
        ) == ProbeVerdict::TimedOut,
    decreases probes.len(),
{
    if probes.len() > 0 {
        let v = spec_verdict(attempts_before, probes[0]);
        if v is RetryAfterDelay {
            lemma_readiness_timeout(probes.drop_first(), (attempts_before + 1) as u32);
        }
    }
}

/// What stopping does to the shared state.  With no tracked process it is
/// a no-op: the state is left exactly as it was.  Otherwise the process is
/// no longer tracked, and recorded info, if any, is marked `Stopped` with
/// its base URL cleared; absent info stays absent.
pub open spec fn spec_stop(pre: SharedState, post: SharedState) -> bool {
    if pre.process is None {
        post == pre
    } else {
        &&& post.process is None
        &&& match pre.info {
            None => post.info is None,
            Some(i) => post.info matches Some(i2) && spec_stopped_info(i, i2),
        }
    }
}

/// The stopped form of recorded server info.
pub open spec fn spec_stopped_info(i: OpenCodeServerInfo, i2: OpenCodeServerInfo) -> bool {
    &&& i2.port == i.port
    &&& i2.hostname == i.hostname
    &&& i2.pid == i.pid
    &&& i2.status is Stopped
    &&& i2.base_url@.len() == 0
}

/// No-op stop law: with no tracked process, stopping leaves the shared
/// state exactly as it was — whatever info is recorded.
pub proof fn lemma_stop_noop(pre: SharedState, post: SharedState)
    requires
        pre.process is None,
        spec_stop(pre, post),
    ensures
        post == pre,
{
}

impl SharedState {
    /// The initial state: nothing tracked, nothing recorded.
    pub fn new() -> (r: Self)
        ensures
            r.process is None,
            r.info is None,
    {
        SharedState { process: None, info: None }
    }

    /// What the start pre-check answers: the cached info, exactly when a
    /// process is tracked, still alive, and info is recorded.
    pub open spec fn spec_start_precheck(self, tracked_alive: bool) -> Option<
        OpenCodeServerInfo,
    > {
        if self.process is Some && tracked_alive && self.info is Some {
            self.info
        } else {
            None
        }
    }

    /// The start pre-check.  `Some` means: return this cached info and
    /// spawn nothing.  `None` means: go on and spawn.
    pub fn start_precheck(&self, tracked_alive: bool) -> (r: Option<OpenCodeServerInfo>)
        ensures
            r == self.spec_start_precheck(tracked_alive),
    {
        if tracked_alive {
            match (&self.process, &self.info) {
                (Some(_), Some(i)) => Some(i.clone()),
                _ => None,
            }
        } else {
            None
        }
    }

    /// Records the process just spawned.
    pub fn record_spawn(&mut self, pid: Option<u32>)
        ensures
            final(self).process == Some(TrackedProcess { pid }),
            final(self).info == old(self).info,
    {
        self.process = Some(TrackedProcess { pid });
    }

    /// Finishes a start after the readiness poll: on success records and
    /// returns the info marked `Running`; on timeout records the info
    /// marked `Error` and fails with `ReadinessTimeout`.  Either way the
    /// tracked process is left in place (not killed).
    pub fn complete_start(&mut self, info: OpenCodeServerInfo, ready: bool) -> (r: Result<
        OpenCodeServerInfo,
        OpencodeError,
    >)
        requires
            info.status is Starting,
            info.wf(),
        ensures
            final(self).process == old(self).process,
            ready ==> ({
                &&& r == Ok::<_, OpencodeError>(
                    OpenCodeServerInfo { status: ServerStatus::Running, ..info },
                )
                &&& final(self).info == Some(OpenCodeServerInfo { status: ServerStatus::Running, ..info })
                &&& r matches Ok(i2) && i2.wf()
            }),
            !ready ==> ({
                &&& r == Err::<OpenCodeServerInfo, _>(OpencodeError::ReadinessTimeout)
                &&& final(self).info matches Some(i2) && i2.port == info.port && i2.hostname
                    == info.hostname && i2.pid == info.pid && i2.base_url@.len() == 0 && (
                i2.status matches ServerStatus::Error(m) && m@
                    == "Server failed to start within timeout"@) && i2.wf()
            }),
    {
        if ready {
            let ready_info = OpenCodeServerInfo {
                port: info.port,
                hostname: info.hostname,
                pid: info.pid,
                status: ServerStatus::Running,
                base_url: info.base_url,
            };
            self.info = Some(ready_info.clone());
            Ok(ready_info)
        } else {
            let errored = OpenCodeServerInfo {
                port: info.port,
                hostname: info.hostname,
                pid: info.pid,
                status: ServerStatus::Error(
                    String::from_str("Server failed to start within timeout"),
                ),
                base_url: String::new(),
            };
            self.info = Some(errored);
            Err(OpencodeError::ReadinessTimeout)
        }
    }

    /// Stops: with no tracked process this is a no-op.  Otherwise it
    /// forgets the tracked process, handing it back so the caller can
    /// kill it, and marks recorded info `Stopped`.  Errors while killing
    /// or awaiting the process never fail a stop.
    pub fn stop_update(&mut self) -> (r: Option<TrackedProcess>)
        ensures
            r == old(self).process,
            spec_stop(*old(self), *final(self)),
    {
        let taken = match self.process.take() {
            None => {
                return None;
            },
            Some(t) => Some(t),
        };
        let old_info = self.info.take();
        match old_info {
            Some(i) => {
                self.info = Some(
                    OpenCodeServerInfo {
                        port: i.port,
                        hostname: i.hostname,
                        pid: i.pid,
                        status: ServerStatus::Stopped,
                        base_url: String::new(),
                    },
                );
            },
            None => {},
        }
        taken
    }

    /// A non-blocking snapshot of the recorded server info.
    pub fn get_server_info(&self) -> (r: Option<OpenCodeServerInfo>)
        ensures
            r == self.info,
    {
        match &self.info {
            Some(i) => Some(i.clone()),
            None => None,
        }
    }
}

/// Idempotent start law: while the tracked process is alive and info is
/// recorded, the pre-check answers exactly that cached info, so a second
/// `start` returns what the first one recorded and spawns nothing.
pub proof fn lemma_start_idempotent(s: SharedState, i: OpenCodeServerInfo)
    requires
        s.info == Some(i),
        s.process is Some,
    ensures
        s.spec_start_precheck(true) == Some(i),
{
}

/// The info a start works with before readiness: the discovered port (or
/// the default), the loopback hostname, status `Starting`, and the base
/// URL derived from hostname and port.
pub fn make_starting_info(port_found: Option<u16>, pid: Option<u32>) -> (r: OpenCodeServerInfo)
    ensures
        r.port == (match port_found {
            Some(p) => p,
            None => DEFAULT_PORT,
        }),
        r.hostname@ == "127.0.0.1"@,
        r.pid == pid,
        r.status is Starting,
        r.base_url@ == base_url_of("127.0.0.1"@, r.port),
        r.wf(),
{
    let port = match port_found {
        Some(p) => p,
        None => DEFAULT_PORT,
    };
    let hostname = String::from_str("127.0.0.1");
    let mut base_url = String::from_str("http://");
    base_url.append(hostname.as_str());
    base_url.append(":");
    let port_text = u16_to_string(port);
    base_url.append(port_text.as_str());
    OpenCodeServerInfo { port, hostname, pid, status: ServerStatus::Starting, base_url }
}

/// The argument list the sidecar is spawned with:
/// `run <entry-script> serve --port 0 --hostname 127.0.0.1`.
pub fn sidecar_command_args(entry_script: &str) -> (r: Vec<String>)
    ensures
        r@.len() == 7,
        r@[0]@ == "run"@,
        r@[1]@ == entry_script@,
        r@[2]@ == "serve"@,
        r@[3]@ == "--port"@,
        r@[4]@ == "0"@,
        r@[5]@ == "--hostname"@,
        r@[6]@ == "127.0.0.1"@,
{
    let mut args: Vec<String> = Vec::new();
    args.push(String::from_str("run"));
    args.push(String::from_str(entry_script));
    args.push(String::from_str("serve"));
    args.push(String::from_str("--port"));
    args.push(String::from_str("0"));
    args.push(String::from_str("--hostname"));
    args.push(String::from_str("127.0.0.1"));
    args
}

} // verus!

use vstd::prelude::*;
use crate::config::{Config, opt_view, placeholder};
use crate::digest::{key_digest, key_location, key_path_under, sha256_hex_of};

verus! {

/// The filesystem type a matched device is mounted with unless told otherwise.
pub const DEFAULT_FSTYPE: &'static str = "ext4";

/// The mount point used unless told otherwise.
pub const DEFAULT_MOUNT_POINT: &'static str = "/mnt";

/// Where a run stands.
#[derive(Clone, Copy, Debug, PartialEq, Eq, Structural)]
pub enum Phase {
    /// Waiting for the next candidate device from the enumerator.
    Scanning,
    /// Waiting for the identifier probed on the current candidate.
    Probing,
    /// Waiting for the outcome of mounting the current candidate.
    Mounting,
    /// A device is mounted; waiting for the key file's content.
    Extracting,
    /// Waiting for the mounted device to be released.
    Releasing,
    /// The run is over; see the outcome.
    Finished,
}

/// The fatal errors of a run.
#[derive(Clone, Copy, Debug, PartialEq, Eq, Structural)]
pub enum ErrorKind {
    /// The device directory could not be listed or an entry not resolved.
    Enumeration,
    /// A candidate could not be probed.
    Probe,
    /// The key file could not be read from the mounted device.
    Extraction,
}

/// How a run ended.
#[derive(Clone, Copy, Debug, PartialEq, Eq, Structural)]
pub enum Outcome {
    /// The run is not over.
    Pending,
    /// The key was read; its digest is the pipeline's `digest`.
    Unlocked,
    /// Every candidate was scanned and none could be used.
    NoMatch,
    /// A fatal error stopped the run.
    Failed(ErrorKind),
}

/// What the caller is to do next.
#[derive(Clone, Copy, Debug, PartialEq, Eq, Structural)]
pub enum Action {
    /// Fetch the next candidate (after a failed mount).
    NextCandidate,
    /// Probe the identifier of `device`.
    Probe,
    /// Report that the probed candidate does not match, then fetch the next one.
    Skip,
    /// Mount `device` at `mount_point` with `fstype`, released on detach.
    Mount,
    /// Read the whole key file at `key_file()`.
    ReadKey,
    /// Release (unmount) the mounted device.
    Release,
    /// The run is over: emit the outcome.
    Finish,
}

/// What the caller observed while doing the last action.
#[derive(Debug)]
pub enum Event {
    /// The enumerator yielded this device path.
    Candidate(String),
    /// The enumerator has no more candidates.
    Exhausted,
    /// The enumerator failed.
    EnumerationFailed,
    /// The probe found this identifier, or none.
    Identity(Option<String>),
    /// The probe failed.
    ProbeFailed,
    /// The device is mounted.
    Mounted,
    /// The device could not be mounted.
    MountFailed,
    /// The key file holds these bytes.
    KeyContent(Vec<u8>),
    /// The key file could not be read.
    KeyUnreadable,
    /// The mounted device was released.
    Released,
}

/// A probed identifier matches the target when the target is set (not
/// empty) and the identifier is present and equal to it, character for
/// character.  An empty target matches nothing, an empty probe result
/// included.
pub open spec fn identity_matches(identity: Option<Seq<char>>, target: Seq<char>) -> bool {
    target.len() > 0 && identity == Some(target)
}

/// Compares a probed identifier with the target identifier.
pub fn is_match(identity: &Option<String>, target: &String) -> (r: bool)
    ensures
        r == identity_matches(opt_view(*identity), target@),
{
    if target.as_str().unicode_len() == 0 {
        return false;
    }
    match identity {
        Some(u) => u.eq(target),
        None => false,
    }
}

/// The state of one scan, match, mount, read and digest cycle.
pub struct Pipeline {
    /// The identifier of the device that holds the key.
    pub target: String,
    /// The key file's path relative to the mount point.
    pub key: String,
    pub mount_point: String,
    pub fstype: String,
    pub phase: Phase,
    /// The candidate being probed or mounted.
    pub device: String,
    /// The digest of the key, once read.
    pub digest: String,
    pub outcome: Outcome,
    /// How many devices were mounted.
    pub mounts: u64,
    /// How many releases were asked for.
    pub releases: u64,
}

/// The phase, action, outcome and counts that follow `ev` in state `s`.
pub open spec fn next(s: Pipeline, ev: Event) -> (Phase, Action, Outcome, int, int) {
    let m = s.mounts as int;
    let n = s.releases as int;
    match ev {
        Event::Candidate(_) => (Phase::Probing, Action::Probe, s.outcome, m, n),
        Event::Exhausted => (Phase::Finished, Action::Finish, Outcome::NoMatch, m, n),
        Event::EnumerationFailed => (
            Phase::Finished,
            Action::Finish,
            Outcome::Failed(ErrorKind::Enumeration),
            m,
            n,
        ),
        Event::Identity(id) => if identity_matches(opt_view(id), s.target@) {
            (Phase::Mounting, Action::Mount, s.outcome, m, n)
        } else {
            (Phase::Scanning, Action::Skip, s.outcome, m, n)
        },
        Event::ProbeFailed => (
            Phase::Finished,
            Action::Finish,
            Outcome::Failed(ErrorKind::Probe),
            m,
            n,
        ),
        Event::Mounted => (Phase::Extracting, Action::ReadKey, s.outcome, m + 1, n),
        Event::MountFailed => (Phase::Scanning, Action::NextCandidate, s.outcome, m, n),
        Event::KeyContent(_) => (Phase::Releasing, Action::Release, Outcome::Unlocked, m, n + 1),
        Event::KeyUnreadable => (
            Phase::Releasing,
            Action::Release,
            Outcome::Failed(ErrorKind::Extraction),
            m,
            n + 1,
        ),
        Event::Released => (Phase::Finished, Action::Finish, s.outcome, m, n),
    }
}

/// `t` holds the same settings as `s`.
pub open spec fn same_settings(s: Pipeline, t: Pipeline) -> bool {
    &&& t.target@ == s.target@
    &&& t.key@ == s.key@
    &&& t.mount_point@ == s.mount_point@
    &&& t.fstype@ == s.fstype@
}

/// `t` and `r` are what `ev` turns `s` into.
pub open spec fn transition(s: Pipeline, ev: Event, t: Pipeline, r: Action) -> bool {
    let n = next(s, ev);
    &&& same_settings(s, t)
    &&& t.phase == n.0
    &&& r == n.1
    &&& t.outcome == n.2
    &&& t.mounts == n.3
    &&& t.releases == n.4
    &&& t.device@ == (match ev {
        Event::Candidate(p) => p@,
        _ => s.device@,
    })
    &&& t.digest@ == (match ev {
        Event::KeyContent(b) => sha256_hex_of(b@),
        _ => s.digest@,
    })
}

impl Pipeline {
    /// The events the current phase waits for.
    pub open spec fn spec_accepts(self, ev: Event) -> bool {
        match self.phase {
            Phase::Scanning => ev is Candidate || ev is Exhausted || ev is EnumerationFailed,
            Phase::Probing => ev is Identity || ev is ProbeFailed,
            Phase::Mounting => ev is Mounted || ev is MountFailed,
            Phase::Extracting => ev is KeyContent || ev is KeyUnreadable,
            Phase::Releasing => ev is Released,
            Phase::Finished => false,
        }
    }

    /// At most one device is ever mounted, a release is asked for once per
    /// mount, and only after the mount, and a finished run has released
    /// whatever it mounted.
    pub open spec fn wf(self) -> bool {
        &&& self.mounts <= 1
        &&& self.releases <= self.mounts
        &&& match self.phase {
            Phase::Scanning | Phase::Probing | Phase::Mounting => {
                &&& self.mounts == 0
                &&& self.outcome == Outcome::Pending
            },
            Phase::Extracting => {
                &&& self.mounts == 1
                &&& self.releases == 0
                &&& self.outcome == Outcome::Pending
            },
            Phase::Releasing => {
                &&& self.mounts == 1
                &&& self.releases == 1
                &&& (self.outcome == Outcome::Unlocked || self.outcome == Outcome::Failed(
                    ErrorKind::Extraction,
                ))
            },
            Phase::Finished => {
                &&& self.releases == self.mounts
                &&& self.outcome != Outcome::Pending
                &&& (self.mounts == 1 <==> (self.outcome == Outcome::Unlocked
                    || self.outcome == Outcome::Failed(ErrorKind::Extraction)))
            },
        }
    }

    /// A run about to scan for the device `config` names, mounting it at
    /// `mount_point` with filesystem type `fstype`.
    pub fn new(config: &Config, mount_point: &str, fstype: &str) -> (r: Pipeline)
        ensures
            r.wf(),
            r.phase == Phase::Scanning,
            r.target@ == config.usb@,
            r.key@ == config.key@,
            r.mount_point@ == mount_point@,
            r.fstype@ == fstype@,
            r.mounts == 0,
            r.releases == 0,
            r.outcome == Outcome::Pending,
            r.device@.len() == 0,
            r.digest@.len() == 0,
    {
        Pipeline {
            target: config.get_usb().clone(),
            key: config.get_key().clone(),
            mount_point: String::from_str(mount_point),
            fstype: String::from_str(fstype),
            phase: Phase::Scanning,
            device: String::new(),
            digest: String::new(),
            outcome: Outcome::Pending,
            mounts: 0,
            releases: 0,
        }
    }

    /// Whether the current phase waits for `ev`.
    pub fn accepts(&self, ev: &Event) -> (r: bool)
        ensures
            r == self.spec_accepts(*ev),
    {
        match self.phase {
            Phase::Scanning => match ev {
                Event::Candidate(_) | Event::Exhausted | Event::EnumerationFailed => true,
                _ => false,
            },
            Phase::Probing => match ev {
                Event::Identity(_) | Event::ProbeFailed => true,
                _ => false,
            },
            Phase::Mounting => match ev {
                Event::Mounted | Event::MountFailed => true,
                _ => false,
            },
            Phase::Extracting => match ev {
                Event::KeyContent(_) | Event::KeyUnreadable => true,
                _ => false,
            },
            Phase::Releasing => match ev {
                Event::Released => true,
                _ => false,
            },
            Phase::Finished => false,
        }
    }

    /// Takes in what the caller observed and says what to do next.
    pub fn step(&mut self, ev: Event) -> (r: Action)
        requires
            old(self).wf(),
            old(self).spec_accepts(ev),
        ensures
            final(self).wf(),
            transition(*old(self), ev, *final(self), r),
    {
        match ev {
            Event::Candidate(p) => {
                self.device = p;
                self.phase = Phase::Probing;
                Action::Probe
            },
            Event::Exhausted => {
                self.phase = Phase::Finished;
                self.outcome = Outcome::NoMatch;
                Action::Finish
            },
            Event::EnumerationFailed => {
                self.phase = Phase::Finished;
                self.outcome = Outcome::Failed(ErrorKind::Enumeration);
                Action::Finish
            },
            Event::Identity(id) => {
                if is_match(&id, &self.target) {
                    self.phase = Phase::Mounting;
                    Action::Mount
                } else {
                    self.phase = Phase::Scanning;
                    Action::Skip
                }
            },
            Event::ProbeFailed => {
                self.phase = Phase::Finished;
                self.outcome = Outcome::Failed(ErrorKind::Probe);
                Action::Finish
            },
            Event::Mounted => {
                self.phase = Phase::Extracting;
                self.mounts = self.mounts + 1;
                Action::ReadKey
            },
            Event::MountFailed => {
                self.phase = Phase::Scanning;
                Action::NextCandidate
            },
            Event::KeyContent(bytes) => {
                self.digest = key_digest(&bytes);
                self.phase = Phase::Releasing;
                self.outcome = Outcome::Unlocked;
                self.releases = self.releases + 1;
                Action::Release
            },
            Event::KeyUnreadable => {
                self.phase = Phase::Releasing;
                self.outcome = Outcome::Failed(ErrorKind::Extraction);
                self.releases = self.releases + 1;
                Action::Release
            },
            Event::Released => {
                self.phase = Phase::Finished;
                Action::Finish
            },
        }
    }

    /// The full path of the key file under the mount point.
    pub fn key_file(&self) -> (r: String)
        ensures
            r@ == key_path_under(self.mount_point@, self.key@),
    {
        key_location(self.mount_point.as_str(), self.key.as_str())
    }
}

/// The target identifier is empty or the placeholder of an unset setting.
pub open spec fn is_unset(target: Seq<char>) -> bool {
    target.len() == 0 || target == placeholder()
}

/// An event a real device could give: an identifier probed, possibly empty,
/// is never the placeholder of an unset setting.
pub open spec fn is_real(ev: Event) -> bool {
    ev matches Event::Identity(Some(u)) ==> u@ != placeholder()
}

/// Nothing is or was mounted and the run has not unlocked.
pub open spec fn never_mounted(s: Pipeline) -> bool {
    &&& s.phase != Phase::Mounting
    &&& s.phase != Phase::Extracting
    &&& s.phase != Phase::Releasing
    &&& s.mounts == 0
    &&& s.outcome != Outcome::Unlocked
}

/// With an unset target identifier, no event of a real device asks for a
/// mount: a run that has mounted nothing stays so, and when the candidates
/// run out it ends with no match.
pub proof fn lemma_unset_target_never_matches(s: Pipeline, ev: Event, t: Pipeline, r: Action)
    requires
        s.wf(),
        s.spec_accepts(ev),
        transition(s, ev, t, r),
        is_unset(s.target@),
        is_real(ev),
        never_mounted(s),
    ensures
        r != Action::Mount,
        never_mounted(t),
        ev is Exhausted ==> t.phase == Phase::Finished && t.outcome == Outcome::NoMatch,
{
}

/// A mount is asked for exactly when the candidate being probed shows the
/// target identifier.  It is a mount of that candidate, and no event that
/// follows it asks for another mount before a new candidate is probed.
pub proof fn lemma_mount_only_on_match(s: Pipeline, ev: Event, t: Pipeline, r: Action)
    requires
        s.wf(),
        s.spec_accepts(ev),
        transition(s, ev, t, r),
    ensures
        r == Action::Mount <==> (s.phase == Phase::Probing && match ev {
            Event::Identity(id) => identity_matches(opt_view(id), s.target@),
            _ => false,
        }),
        r == Action::Mount ==> t.phase == Phase::Mounting && t.device@ == s.device@,
        s.phase != Phase::Probing ==> r != Action::Mount,
{
}

/// Every successful mount is followed, whatever is read, by exactly one
/// release: a mounted run asks for a release at its next step, releases are
/// asked for only then, and a finished run has asked for as many releases as
/// it made mounts, at most one.
pub proof fn lemma_release_once_per_mount(s: Pipeline, ev: Event, t: Pipeline, r: Action)
    requires
        s.wf(),
        s.spec_accepts(ev),
        transition(s, ev, t, r),
    ensures
        s.phase == Phase::Extracting ==> r == Action::Release,
        t.releases == s.releases + (if r == Action::Release { 1int } else { 0int }),
        t.mounts == s.mounts + (if ev is Mounted { 1int } else { 0int }),
        t.phase == Phase::Finished ==> t.releases == t.mounts && t.mounts <= 1,
        t.wf(),
{
}

} // verus!

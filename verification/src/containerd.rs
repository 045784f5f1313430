//! The event-timeline extraction engine.
//!
//! One run scans a stream of log entries — each a high-resolution timestamp
//! plus a free-text message — and reconstructs, for a single deployment,
//! the lifecycle intervals of a container start-up: sandbox creation, image
//! pull, and the creation and start of the two sibling containers
//! (application container and sidecar proxy). Correlation works purely on
//! substring matching against a configurable set of text patterns, and on
//! opaque identifiers (sandbox id, container ids) discovered mid-stream.
//!
//! The engine is a single forward pass. Each line is first classified into a
//! [`LineKind`] by [`CorrelationState::classify`], a pure function of the
//! message and of the identifiers discovered so far; the state transition
//! for each kind is then applied by [`CorrelationState::process`]. Both are
//! specified against a ghost model ([`StateModel`], [`step_model`]) that the
//! correctness arguments and the library's laws are stated over.

use vstd::prelude::*;

use crate::text::{
    ascii_bytes, ascii_bytes_of, bytes_contain, bytes_match_at, contains_seq, hex_digit_byte,
    is_hex_digit, matches_at,
};

verus! {

/// The two sibling containers that one deployment always creates together.
#[derive(Clone, Copy, Debug, PartialEq, Eq, Structural)]
pub enum Role {
    /// The application container.
    UserContainer,
    /// The sidecar proxy container.
    QueueProxy,
}

/// What one log line indicates for the scan, as decided by the classifier.
///
/// `Id` is the representation of an extracted identifier: byte vectors in
/// executable code, byte sequences in the ghost model.
#[derive(Clone, Debug, PartialEq, Eq)]
pub enum LineKind<Id> {
    /// The sandbox-creation phase begins.
    SandboxStart,
    /// The sandbox-creation phase completes, yielding the sandbox id.
    SandboxDone(Id),
    /// The image-pull phase begins.
    PullStart,
    /// The image-pull phase completes.
    PullDone,
    /// A container-creation phase begins for the given role.
    CreateStart(Role),
    /// A container-creation phase completes for the given role, yielding
    /// that role's container id.
    CreateDone(Role, Id),
    /// A container-start phase begins for the given role.
    StartStart(Role),
    /// A container-start phase completes for the given role.
    StartDone(Role),
    /// The line carries no recognisable, attributable event.
    Unrecognized,
}

/// The ghost image of an executable [`LineKind`].
pub open spec fn kind_view(k: LineKind<Vec<u8>>) -> LineKind<Seq<u8>> {
    match k {
        LineKind::SandboxStart => LineKind::SandboxStart,
        LineKind::SandboxDone(id) => LineKind::SandboxDone(id@),
        LineKind::PullStart => LineKind::PullStart,
        LineKind::PullDone => LineKind::PullDone,
        LineKind::CreateStart(r) => LineKind::CreateStart(r),
        LineKind::CreateDone(r, id) => LineKind::CreateDone(r, id@),
        LineKind::StartStart(r) => LineKind::StartStart(r),
        LineKind::StartDone(r) => LineKind::StartDone(r),
        LineKind::Unrecognized => LineKind::Unrecognized,
    }
}

/// One parsed log line: a timestamp in microseconds and the message text.
#[derive(Clone, Debug, PartialEq, Eq)]
pub struct LogEntry {
    /// Microseconds since the Unix epoch.
    pub timestamp_us: i64,
    /// The free-text message, as bytes.
    pub message: Vec<u8>,
}

/// Ghost image of a [`LogEntry`].
#[verifier::ext_equal]
pub ghost struct EntryModel {
    pub timestamp: int,
    pub message: Seq<u8>,
}

impl View for LogEntry {
    type V = EntryModel;

    open spec fn view(&self) -> EntryModel {
        EntryModel { timestamp: self.timestamp_us as int, message: self.message@ }
    }
}

/// A closed lifecycle interval, in microseconds since the Unix epoch.
#[derive(Clone, Copy, Debug, PartialEq, Eq, Structural)]
pub struct Interval {
    pub start_us: i64,
    pub end_us: i64,
}

/// Ghost image of an [`Interval`].
#[verifier::ext_equal]
pub ghost struct IntervalModel {
    pub start: int,
    pub end: int,
}

impl View for Interval {
    type V = IntervalModel;

    open spec fn view(&self) -> IntervalModel {
        IntervalModel { start: self.start_us as int, end: self.end_us as int }
    }
}

/// Ghost image of an `Option<Interval>`.
pub open spec fn view_opt_interval(o: Option<Interval>) -> Option<IntervalModel> {
    match o {
        Some(iv) => Some(iv@),
        None => None,
    }
}

/// Ghost image of an `Option<Vec<u8>>`.
pub open spec fn view_opt_bytes(o: Option<Vec<u8>>) -> Option<Seq<u8>> {
    match o {
        Some(v) => Some(v@),
        None => None,
    }
}

/// Ghost image of an `Option<i64>` timestamp.
pub open spec fn view_opt_time(o: Option<i64>) -> Option<int> {
    match o {
        Some(t) => Some(t as int),
        None => None,
    }
}

/// The two intervals reconstructed per role.
#[derive(Clone, Debug, PartialEq, Eq)]
pub struct RoleIntervals {
    /// Container creation, from creation requested to creation completed.
    pub create: Option<Interval>,
    /// Container start, from start requested to start completed.
    pub start: Option<Interval>,
}

/// Ghost image of [`RoleIntervals`].
#[verifier::ext_equal]
pub ghost struct RoleIntervalsModel {
    pub create: Option<IntervalModel>,
    pub start: Option<IntervalModel>,
}

impl View for RoleIntervals {
    type V = RoleIntervalsModel;

    open spec fn view(&self) -> RoleIntervalsModel {
        RoleIntervalsModel {
            create: view_opt_interval(self.create),
            start: view_opt_interval(self.start),
        }
    }
}

/// The output of one extraction run: at most one interval per event of the
/// fixed vocabulary (sandbox creation, image pull, and creation and start
/// of each of the two roles).
#[derive(Clone, Debug, PartialEq, Eq)]
pub struct EventTimeline {
    pub sandbox: Option<Interval>,
    pub pull: Option<Interval>,
    pub user_container: RoleIntervals,
    pub queue_proxy: RoleIntervals,
}

/// Ghost image of an [`EventTimeline`].
#[verifier::ext_equal]
pub ghost struct TimelineModel {
    pub sandbox: Option<IntervalModel>,
    pub pull: Option<IntervalModel>,
    pub user_container: RoleIntervalsModel,
    pub queue_proxy: RoleIntervalsModel,
}

impl View for EventTimeline {
    type V = TimelineModel;

    open spec fn view(&self) -> TimelineModel {
        TimelineModel {
            sandbox: view_opt_interval(self.sandbox),
            pull: view_opt_interval(self.pull),
            user_container: self.user_container@,
            queue_proxy: self.queue_proxy@,
        }
    }
}

/// The per-role correlation bookkeeping of a running scan.
#[derive(Clone, Debug, PartialEq, Eq)]
pub struct RoleState {
    /// The role's container id, once its creation completion was seen.
    pub container_id: Option<Vec<u8>>,
    /// Start of a creation phase still awaiting completion.
    pub create_pending_start: Option<i64>,
    /// Start of a container-start phase still awaiting completion.
    pub start_pending_start: Option<i64>,
}

/// Ghost image of a [`RoleState`].
#[verifier::ext_equal]
pub ghost struct RoleModel {
    pub container_id: Option<Seq<u8>>,
    pub create_pending_start: Option<int>,
    pub start_pending_start: Option<int>,
}

impl View for RoleState {
    type V = RoleModel;

    open spec fn view(&self) -> RoleModel {
        RoleModel {
            container_id: view_opt_bytes(self.container_id),
            create_pending_start: view_opt_time(self.create_pending_start),
            start_pending_start: view_opt_time(self.start_pending_start),
        }
    }
}

/// The text patterns that drive classification. They are configuration:
/// the engine itself only ever asks whether a message contains them, so the
/// same scan logic can be pointed at a different log vocabulary.
#[derive(Clone, Debug, PartialEq, Eq)]
pub struct PatternConfig {
    /// Marks any line of the sandbox-creation phase.
    pub sandbox_phase: Vec<u8>,
    /// Additionally marks the completion line of the sandbox phase.
    pub sandbox_done: Vec<u8>,
    /// The text directly preceding the sandbox id on its completion line.
    pub sandbox_id_marker: Vec<u8>,
    /// Marks any line of the image-pull phase.
    pub pull_phase: Vec<u8>,
    /// Additionally marks the completion line of the image-pull phase.
    pub pull_done: Vec<u8>,
    /// Marks any line of a container-creation phase.
    pub create_phase: Vec<u8>,
    /// Additionally marks the completion line of a creation phase.
    pub create_done: Vec<u8>,
    /// The text directly preceding the container id on its completion line.
    pub container_id_marker: Vec<u8>,
    /// Marks any line of a container-start phase.
    pub start_phase: Vec<u8>,
    /// Additionally marks the completion line of a start phase.
    pub start_done: Vec<u8>,
    /// Distinguishes the application container's creation lines.
    pub user_role: Vec<u8>,
    /// Distinguishes the sidecar proxy's creation lines.
    pub queue_role: Vec<u8>,
}

/// Ghost image of a [`PatternConfig`].
#[verifier::ext_equal]
pub ghost struct PatternsModel {
    pub sandbox_phase: Seq<u8>,
    pub sandbox_done: Seq<u8>,
    pub sandbox_id_marker: Seq<u8>,
    pub pull_phase: Seq<u8>,
    pub pull_done: Seq<u8>,
    pub create_phase: Seq<u8>,
    pub create_done: Seq<u8>,
    pub container_id_marker: Seq<u8>,
    pub start_phase: Seq<u8>,
    pub start_done: Seq<u8>,
    pub user_role: Seq<u8>,
    pub queue_role: Seq<u8>,
}

impl View for PatternConfig {
    type V = PatternsModel;

    open spec fn view(&self) -> PatternsModel {
        PatternsModel {
            sandbox_phase: self.sandbox_phase@,
            sandbox_done: self.sandbox_done@,
            sandbox_id_marker: self.sandbox_id_marker@,
            pull_phase: self.pull_phase@,
            pull_done: self.pull_done@,
            create_phase: self.create_phase@,
            create_done: self.create_done@,
            container_id_marker: self.container_id_marker@,
            start_phase: self.start_phase@,
            start_done: self.start_done@,
            user_role: self.user_role@,
            queue_role: self.queue_role@,
        }
    }
}

impl PatternConfig {
    /// The vocabulary of containerd's journal stream. Identifier values are
    /// quoted in the messages with an escaped double quote, hence the
    /// `\"` at the end of the two identifier markers.
    pub fn containerd() -> (p: PatternConfig)
        ensures
            p.sandbox_phase@ == ascii_bytes_of("RunPodSandbox"@),
            p.sandbox_done@ == ascii_bytes_of("returns sandbox id"@),
            p.sandbox_id_marker@ == ascii_bytes_of("returns sandbox id \\\""@),
            p.pull_phase@ == ascii_bytes_of("PullImage"@),
            p.pull_done@ == ascii_bytes_of("returns image reference"@),
            p.create_phase@ == ascii_bytes_of("CreateContainer"@),
            p.create_done@ == ascii_bytes_of("returns container id"@),
            p.container_id_marker@ == ascii_bytes_of("returns container id \\\""@),
            p.start_phase@ == ascii_bytes_of("StartContainer"@),
            p.start_done@ == ascii_bytes_of("returns successfully"@),
            p.user_role@ == ascii_bytes_of("user-container"@),
            p.queue_role@ == ascii_bytes_of("queue-proxy"@),
    {
        proof {
            reveal_strlit("RunPodSandbox");
            reveal_strlit("returns sandbox id");
            reveal_strlit("returns sandbox id \\\"");
            reveal_strlit("PullImage");
            reveal_strlit("returns image reference");
            reveal_strlit("CreateContainer");
            reveal_strlit("returns container id");
            reveal_strlit("returns container id \\\"");
            reveal_strlit("StartContainer");
            reveal_strlit("returns successfully");
            reveal_strlit("user-container");
            reveal_strlit("queue-proxy");
        }
        PatternConfig {
            sandbox_phase: ascii_bytes("RunPodSandbox"),
            sandbox_done: ascii_bytes("returns sandbox id"),
            sandbox_id_marker: ascii_bytes("returns sandbox id \\\""),
            pull_phase: ascii_bytes("PullImage"),
            pull_done: ascii_bytes("returns image reference"),
            create_phase: ascii_bytes("CreateContainer"),
            create_done: ascii_bytes("returns container id"),
            container_id_marker: ascii_bytes("returns container id \\\""),
            start_phase: ascii_bytes("StartContainer"),
            start_done: ascii_bytes("returns successfully"),
            user_role: ascii_bytes("user-container"),
            queue_role: ascii_bytes("queue-proxy"),
        }
    }
}

/// The end of the run of hexadecimal digits that begins at `i`.
pub open spec fn hex_run_end(s: Seq<u8>, i: int) -> int
    decreases s.len() - i,
{
    if i < 0 || i >= s.len() {
        s.len() as int
    } else if is_hex_digit(s[i]) {
        hex_run_end(s, i + 1)
    } else {
        i
    }
}

/// The identifier the quoted-hex pattern yields at position `i` of `msg`:
/// the marker, then at least one hexadecimal digit, then `\"`.
pub open spec fn id_match_at(msg: Seq<u8>, marker: Seq<u8>, i: int) -> Option<Seq<u8>> {
    if matches_at(msg, marker, i) {
        let st = i + marker.len();
        let e = hex_run_end(msg, st);
        if e > st && e + 2 <= msg.len() && msg[e] == 92 && msg[e + 1] == 34 {
            Some(msg.subrange(st, e))
        } else {
            None
        }
    } else {
        None
    }
}

/// The identifier extracted at the leftmost position of `msg`, from `i` on,
/// where the quoted-hex pattern matches.
pub open spec fn extract_id_from(msg: Seq<u8>, marker: Seq<u8>, i: int) -> Option<Seq<u8>>
    decreases msg.len() - i + 1,
{
    if i < 0 || i + marker.len() > msg.len() {
        None
    } else if id_match_at(msg, marker, i) is Some {
        id_match_at(msg, marker, i)
    } else {
        extract_id_from(msg, marker, i + 1)
    }
}

/// The identifier following the leftmost full match of the quoted-hex
/// pattern in `msg`, if any.
pub open spec fn extract_id(msg: Seq<u8>, marker: Seq<u8>) -> Option<Seq<u8>> {
    extract_id_from(msg, marker, 0)
}

/// Extracts the identifier after the leftmost full match of
/// marker-then-hex-digits-then-`\"` in `msg`.
pub fn extract_quoted_hex(msg: &[u8], marker: &[u8]) -> (r: Option<Vec<u8>>)
    ensures
        match r {
            Some(id) => extract_id(msg@, marker@) == Some(id@),
            None => extract_id(msg@, marker@) is None,
        },
{
    let n = msg.len();
    if marker.len() > n {
        return None;
    }
    let last_start = n - marker.len();
    let mut i: usize = 0;
    loop
        invariant
            n == msg@.len(),
            marker@.len() <= n,
            last_start == n - marker@.len(),
            i <= last_start,
            extract_id(msg@, marker@) == extract_id_from(msg@, marker@, i as int),
        decreases last_start - i,
    {
        if bytes_match_at(msg, marker, i) {
            // Walk the hexadecimal run that follows the marker.
            let st = i + marker.len();
            let mut e: usize = st;
            while e < n
                invariant
                    n == msg@.len(),
                    st <= e <= n,
                    hex_run_end(msg@, st as int) == hex_run_end(msg@, e as int),
                ensures
                    st <= e <= n,
                    e == hex_run_end(msg@, st as int),
                decreases n - e,
            {
                if !hex_digit_byte(msg[e]) {
                    break;
                }
                e += 1;
            }
            if e > st && n - e >= 2 && msg[e] == 92 && msg[e + 1] == 34 {
                assert(id_match_at(msg@, marker@, i as int) == Some(
                    msg@.subrange(st as int, e as int),
                ));
                let id_slice = vstd::slice::slice_subrange(msg, st, e);
                return Some(vstd::slice::slice_to_vec(id_slice));
            }
            assert(id_match_at(msg@, marker@, i as int) is None);
        }
        if i == last_start {
            assert(extract_id_from(msg@, marker@, i + 1) is None);
            return None;
        }
        i += 1;
    }
}

/// The whole mutable state of one extraction run, scoped to one deployment
/// identifier and one cutoff instant.
///
/// Invariant held throughout a scan: at most one pending start per phase —
/// a second start line for an already pending phase is dropped (first start
/// wins), and a completion line with no pending start is dropped (orphan).
/// Both are counted for diagnostics.
#[derive(Clone, Debug, PartialEq, Eq)]
pub struct CorrelationState {
    /// The text patterns that drive classification.
    pub patterns: PatternConfig,
    /// Only sandbox-start lines containing this identifier are correlated.
    pub deployment_id: Vec<u8>,
    /// Entries with a timestamp strictly before this instant are dropped.
    pub cutoff_us: i64,
    /// The sandbox id, once discovered from a sandbox completion line.
    pub sandbox_id: Option<Vec<u8>>,
    /// Start of the sandbox-creation phase, once seen.
    pub sandbox_pending_start: Option<i64>,
    /// Start of the deployment-wide image-pull phase, once seen.
    pub pull_pending_start: Option<i64>,
    /// Bookkeeping for the application container.
    pub user_container: RoleState,
    /// Bookkeeping for the sidecar proxy container.
    pub queue_proxy: RoleState,
    /// The intervals reconstructed so far.
    pub timeline: EventTimeline,
    /// Start lines dropped because their phase was already pending.
    pub duplicate_starts: u64,
    /// Completion lines dropped because their phase had no pending start.
    pub orphan_completions: u64,
}

/// Ghost image of a [`CorrelationState`].
#[verifier::ext_equal]
pub ghost struct StateModel {
    pub patterns: PatternsModel,
    pub deployment_id: Seq<u8>,
    pub cutoff: int,
    pub sandbox_id: Option<Seq<u8>>,
    pub sandbox_pending_start: Option<int>,
    pub pull_pending_start: Option<int>,
    pub user_container: RoleModel,
    pub queue_proxy: RoleModel,
    pub timeline: TimelineModel,
    pub duplicate_starts: int,
    pub orphan_completions: int,
}

impl View for CorrelationState {
    type V = StateModel;

    open spec fn view(&self) -> StateModel {
        StateModel {
            patterns: self.patterns@,
            deployment_id: self.deployment_id@,
            cutoff: self.cutoff_us as int,
            sandbox_id: view_opt_bytes(self.sandbox_id),
            sandbox_pending_start: view_opt_time(self.sandbox_pending_start),
            pull_pending_start: view_opt_time(self.pull_pending_start),
            user_container: self.user_container@,
            queue_proxy: self.queue_proxy@,
            timeline: self.timeline@,
            duplicate_starts: self.duplicate_starts as int,
            orphan_completions: self.orphan_completions as int,
        }
    }
}

/// An empty per-role model: nothing discovered, nothing pending.
pub open spec fn init_role_model() -> RoleModel {
    RoleModel { container_id: None, create_pending_start: None, start_pending_start: None }
}

/// An empty timeline model: no interval reconstructed yet.
pub open spec fn init_timeline_model() -> TimelineModel {
    TimelineModel {
        sandbox: None,
        pull: None,
        user_container: RoleIntervalsModel { create: None, start: None },
        queue_proxy: RoleIntervalsModel { create: None, start: None },
    }
}

/// The state a scan begins in.
pub open spec fn init_model(patterns: PatternsModel, deployment_id: Seq<u8>, cutoff: int) -> StateModel {
    StateModel {
        patterns: patterns,
        deployment_id: deployment_id,
        cutoff: cutoff,
        sandbox_id: None,
        sandbox_pending_start: None,
        pull_pending_start: None,
        user_container: init_role_model(),
        queue_proxy: init_role_model(),
        timeline: init_timeline_model(),
        duplicate_starts: 0,
        orphan_completions: 0,
    }
}

/// How one message is classified against the patterns, the deployment
/// identifier, and the identifiers discovered so far. Each line indicates
/// at most one event; a line whose role cannot be told apart (neither or
/// both role discriminators present, or no known container id in it) is
/// not attributed at all.
pub open spec fn classify_model(s: StateModel, msg: Seq<u8>) -> LineKind<Seq<u8>> {
    let p = s.patterns;
    if contains_seq(msg, p.sandbox_phase) {
        if contains_seq(msg, p.sandbox_done) {
            match extract_id(msg, p.sandbox_id_marker) {
                Some(id) => LineKind::SandboxDone(id),
                None => LineKind::Unrecognized,
            }
        } else if contains_seq(msg, s.deployment_id) {
            LineKind::SandboxStart
        } else {
            LineKind::Unrecognized
        }
    } else if contains_seq(msg, p.pull_phase) {
        if contains_seq(msg, p.pull_done) {
            LineKind::PullDone
        } else {
            LineKind::PullStart
        }
    } else if contains_seq(msg, p.create_phase) {
        match s.sandbox_id {
            Some(sid) => if contains_seq(msg, sid) {
                let u = contains_seq(msg, p.user_role);
                let q = contains_seq(msg, p.queue_role);
                if u == q {
                    LineKind::Unrecognized
                } else {
                    let role = if u {
                        Role::UserContainer
                    } else {
                        Role::QueueProxy
                    };
                    if contains_seq(msg, p.create_done) {
                        match extract_id(msg, p.container_id_marker) {
                            Some(id) => LineKind::CreateDone(role, id),
                            None => LineKind::Unrecognized,
                        }
                    } else {
                        LineKind::CreateStart(role)
                    }
                }
            } else {
                LineKind::Unrecognized
            },
            None => LineKind::Unrecognized,
        }
    } else if contains_seq(msg, p.start_phase) {
        let u = match s.user_container.container_id {
            Some(uid) => contains_seq(msg, uid),
            None => false,
        };
        let q = match s.queue_proxy.container_id {
            Some(qid) => contains_seq(msg, qid),
            None => false,
        };
        if u == q {
            LineKind::Unrecognized
        } else {
            let role = if u {
                Role::UserContainer
            } else {
                Role::QueueProxy
            };
            if contains_seq(msg, p.start_done) {
                LineKind::StartDone(role)
            } else {
                LineKind::StartStart(role)
            }
        }
    } else {
        LineKind::Unrecognized
    }
}

/// A diagnostic counter bump that never wraps.
pub open spec fn sat_inc(c: int) -> int {
    if c < u64::MAX {
        c + 1
    } else {
        c
    }
}

/// The per-role model picked by `role`.
pub open spec fn role_model_of(s: StateModel, role: Role) -> RoleModel {
    match role {
        Role::UserContainer => s.user_container,
        Role::QueueProxy => s.queue_proxy,
    }
}

/// `s` with the per-role model of `role` replaced.
pub open spec fn with_role_model(s: StateModel, role: Role, rm: RoleModel) -> StateModel {
    match role {
        Role::UserContainer => StateModel { user_container: rm, ..s },
        Role::QueueProxy => StateModel { queue_proxy: rm, ..s },
    }
}

/// The per-role intervals picked by `role`.
pub open spec fn role_intervals_of(t: TimelineModel, role: Role) -> RoleIntervalsModel {
    match role {
        Role::UserContainer => t.user_container,
        Role::QueueProxy => t.queue_proxy,
    }
}

/// `t` with the per-role intervals of `role` replaced.
pub open spec fn with_role_intervals(t: TimelineModel, role: Role, ri: RoleIntervalsModel) -> TimelineModel {
    match role {
        Role::UserContainer => TimelineModel { user_container: ri, ..t },
        Role::QueueProxy => TimelineModel { queue_proxy: ri, ..t },
    }
}

/// How one entry at or after the cutoff advances the scan, given its
/// classification. A completion whose timestamp precedes its recorded
/// start is out-of-order noise and is dropped without a state change.
pub open spec fn apply_kind_model(s: StateModel, k: LineKind<Seq<u8>>, ts: int) -> StateModel {
    match k {
        LineKind::SandboxStart => {
            if s.sandbox_pending_start is None {
                StateModel { sandbox_pending_start: Some(ts), ..s }
            } else {
                StateModel { duplicate_starts: sat_inc(s.duplicate_starts), ..s }
            }
        },
        LineKind::SandboxDone(id) => {
            if s.sandbox_id is Some {
                s
            } else {
                match s.sandbox_pending_start {
                    Some(st) => if st <= ts {
                        StateModel {
                            sandbox_id: Some(id),
                            timeline: TimelineModel {
                                sandbox: Some(IntervalModel { start: st, end: ts }),
                                ..s.timeline
                            },
                            ..s
                        }
                    } else {
                        s
                    },
                    None => StateModel {
                        sandbox_id: Some(id),
                        orphan_completions: sat_inc(s.orphan_completions),
                        ..s
                    },
                }
            }
        },
        LineKind::PullStart => {
            if s.pull_pending_start is None {
                StateModel { pull_pending_start: Some(ts), ..s }
            } else {
                StateModel { duplicate_starts: sat_inc(s.duplicate_starts), ..s }
            }
        },
        LineKind::PullDone => {
            if s.timeline.pull is Some {
                s
            } else {
                match s.pull_pending_start {
                    Some(st) => if st <= ts {
                        StateModel {
                            timeline: TimelineModel {
                                pull: Some(IntervalModel { start: st, end: ts }),
                                ..s.timeline
                            },
                            ..s
                        }
                    } else {
                        s
                    },
                    None => StateModel {
                        orphan_completions: sat_inc(s.orphan_completions),
                        ..s
                    },
                }
            }
        },
        LineKind::CreateStart(role) => {
            let rm = role_model_of(s, role);
            if rm.create_pending_start is None {
                with_role_model(s, role, RoleModel { create_pending_start: Some(ts), ..rm })
            } else {
                StateModel { duplicate_starts: sat_inc(s.duplicate_starts), ..s }
            }
        },
        LineKind::CreateDone(role, id) => {
            let rm = role_model_of(s, role);
            match rm.create_pending_start {
                Some(st) => if st <= ts {
                    let s1 = with_role_model(
                        s,
                        role,
                        RoleModel { container_id: Some(id), create_pending_start: None, ..rm },
                    );
                    StateModel {
                        timeline: with_role_intervals(
                            s1.timeline,
                            role,
                            RoleIntervalsModel {
                                create: Some(IntervalModel { start: st, end: ts }),
                                ..role_intervals_of(s1.timeline, role)
                            },
                        ),
                        ..s1
                    }
                } else {
                    s
                },
                None => StateModel {
                    orphan_completions: sat_inc(s.orphan_completions),
                    ..s
                },
            }
        },
        LineKind::StartStart(role) => {
            let rm = role_model_of(s, role);
            if rm.start_pending_start is None {
                with_role_model(s, role, RoleModel { start_pending_start: Some(ts), ..rm })
            } else {
                StateModel { duplicate_starts: sat_inc(s.duplicate_starts), ..s }
            }
        },
        LineKind::StartDone(role) => {
            let rm = role_model_of(s, role);
            match rm.start_pending_start {
                Some(st) => if st <= ts {
                    let s1 = with_role_model(
                        s,
                        role,
                        RoleModel { start_pending_start: None, ..rm },
                    );
                    StateModel {
                        timeline: with_role_intervals(
                            s1.timeline,
                            role,
                            RoleIntervalsModel {
                                start: Some(IntervalModel { start: st, end: ts }),
                                ..role_intervals_of(s1.timeline, role)
                            },
                        ),
                        ..s1
                    }
                } else {
                    s
                },
                None => StateModel {
                    orphan_completions: sat_inc(s.orphan_completions),
                    ..s
                },
            }
        },
        LineKind::Unrecognized => s,
    }
}

/// How one log entry advances the scan: entries strictly before the cutoff
/// are dropped, all others are classified and applied.
pub open spec fn step_model(s: StateModel, e: EntryModel) -> StateModel {
    if e.timestamp < s.cutoff {
        s
    } else {
        apply_kind_model(s, classify_model(s, e.message), e.timestamp)
    }
}

/// A whole scan: the fold of [`step_model`] over the entries, in order.
pub open spec fn scan_model(s: StateModel, entries: Seq<EntryModel>) -> StateModel
    decreases entries.len(),
{
    if entries.len() == 0 {
        s
    } else {
        scan_model(step_model(s, entries[0]), entries.drop_first())
    }
}

impl CorrelationState {
    /// A fresh scan state for one deployment and one cutoff instant.
    pub fn new(patterns: PatternConfig, deployment_id: Vec<u8>, cutoff_us: i64) -> (s: Self)
        ensures
            s@ == init_model(patterns@, deployment_id@, cutoff_us as int),
    {
        let s = CorrelationState {
            patterns,
            deployment_id,
            cutoff_us,
            sandbox_id: None,
            sandbox_pending_start: None,
            pull_pending_start: None,
            user_container: RoleState {
                container_id: None,
                create_pending_start: None,
                start_pending_start: None,
            },
            queue_proxy: RoleState {
                container_id: None,
                create_pending_start: None,
                start_pending_start: None,
            },
            timeline: EventTimeline {
                sandbox: None,
                pull: None,
                user_container: RoleIntervals { create: None, start: None },
                queue_proxy: RoleIntervals { create: None, start: None },
            },
            duplicate_starts: 0,
            orphan_completions: 0,
        };
        assert(s@ =~~= init_model(s.patterns@, s.deployment_id@, cutoff_us as int));
        s
    }

    /// Classifies one message against the patterns and the identifiers
    /// discovered so far. Pure: the state is only read.
    pub fn classify(&self, msg: &[u8]) -> (k: LineKind<Vec<u8>>)
        ensures
            kind_view(k) == classify_model(self@, msg@),
    {
        let p = &self.patterns;
        if bytes_contain(msg, p.sandbox_phase.as_slice()) {
            if bytes_contain(msg, p.sandbox_done.as_slice()) {
                match extract_quoted_hex(msg, p.sandbox_id_marker.as_slice()) {
                    Some(id) => LineKind::SandboxDone(id),
                    None => LineKind::Unrecognized,
                }
            } else if bytes_contain(msg, self.deployment_id.as_slice()) {
                LineKind::SandboxStart
            } else {
                LineKind::Unrecognized
            }
        } else if bytes_contain(msg, p.pull_phase.as_slice()) {
            if bytes_contain(msg, p.pull_done.as_slice()) {
                LineKind::PullDone
            } else {
                LineKind::PullStart
            }
        } else if bytes_contain(msg, p.create_phase.as_slice()) {
            let sandbox_known = match &self.sandbox_id {
                Some(sid) => bytes_contain(msg, sid.as_slice()),
                None => false,
            };
            if sandbox_known {
                let u = bytes_contain(msg, p.user_role.as_slice());
                let q = bytes_contain(msg, p.queue_role.as_slice());
                if u == q {
                    LineKind::Unrecognized
                } else {
                    let role = if u {
                        Role::UserContainer
                    } else {
                        Role::QueueProxy
                    };
                    if bytes_contain(msg, p.create_done.as_slice()) {
                        match extract_quoted_hex(msg, p.container_id_marker.as_slice()) {
                            Some(id) => LineKind::CreateDone(role, id),
                            None => LineKind::Unrecognized,
                        }
                    } else {
                        LineKind::CreateStart(role)
                    }
                }
            } else {
                LineKind::Unrecognized
            }
        } else if bytes_contain(msg, p.start_phase.as_slice()) {
            let u = match &self.user_container.container_id {
                Some(uid) => bytes_contain(msg, uid.as_slice()),
                None => false,
            };
            let q = match &self.queue_proxy.container_id {
                Some(qid) => bytes_contain(msg, qid.as_slice()),
                None => false,
            };
            if u == q {
                LineKind::Unrecognized
            } else {
                let role = if u {
                    Role::UserContainer
                } else {
                    Role::QueueProxy
                };
                if bytes_contain(msg, p.start_done.as_slice()) {
                    LineKind::StartDone(role)
                } else {
                    LineKind::StartStart(role)
                }
            }
        } else {
            LineKind::Unrecognized
        }
    }

    /// Counts one dropped duplicate start line.
    fn bump_duplicate_starts(&mut self)
        ensures
            final(self)@ == (StateModel {
                duplicate_starts: sat_inc(old(self)@.duplicate_starts),
                ..old(self)@
            }),
    {
        if self.duplicate_starts < u64::MAX {
            self.duplicate_starts = self.duplicate_starts + 1;
        }
        assert(self@ =~~= StateModel {
            duplicate_starts: sat_inc(old(self)@.duplicate_starts),
            ..old(self)@
        });
    }

    /// Counts one dropped orphan completion line.
    fn bump_orphan_completions(&mut self)
        ensures
            final(self)@ == (StateModel {
                orphan_completions: sat_inc(old(self)@.orphan_completions),
                ..old(self)@
            }),
    {
        if self.orphan_completions < u64::MAX {
            self.orphan_completions = self.orphan_completions + 1;
        }
        assert(self@ =~~= StateModel {
            orphan_completions: sat_inc(old(self)@.orphan_completions),
            ..old(self)@
        });
    }

    /// Feeds one log entry to the scan.
    pub fn process(&mut self, entry: &LogEntry)
        ensures
            final(self)@ == step_model(old(self)@, entry@),
    {
        if entry.timestamp_us < self.cutoff_us {
            return;
        }
        let ts = entry.timestamp_us;
        let k = self.classify(entry.message.as_slice());
        match k {
            LineKind::SandboxStart => {
                if self.sandbox_pending_start.is_none() {
                    self.sandbox_pending_start = Some(ts);
                } else {
                    self.bump_duplicate_starts();
                }
            },
            LineKind::SandboxDone(id) => {
                if self.sandbox_id.is_none() {
                    match self.sandbox_pending_start {
                        Some(st) => {
                            if st <= ts {
                                self.sandbox_id = Some(id);
                                self.timeline.sandbox = Some(
                                    Interval { start_us: st, end_us: ts },
                                );
                            }
                        },
                        None => {
                            self.sandbox_id = Some(id);
                            self.bump_orphan_completions();
                        },
                    }
                }
            },
            LineKind::PullStart => {
                if self.pull_pending_start.is_none() {
                    self.pull_pending_start = Some(ts);
                } else {
                    self.bump_duplicate_starts();
                }
            },
            LineKind::PullDone => {
                if self.timeline.pull.is_none() {
                    match self.pull_pending_start {
                        Some(st) => {
                            if st <= ts {
                                self.timeline.pull = Some(Interval { start_us: st, end_us: ts });
                            }
                        },
                        None => {
                            self.bump_orphan_completions();
                        },
                    }
                }
            },
            LineKind::CreateStart(role) => {
                let pending = match role {
                    Role::UserContainer => self.user_container.create_pending_start,
                    Role::QueueProxy => self.queue_proxy.create_pending_start,
                };
                if pending.is_none() {
                    match role {
                        Role::UserContainer => {
                            self.user_container.create_pending_start = Some(ts);
                        },
                        Role::QueueProxy => {
                            self.queue_proxy.create_pending_start = Some(ts);
                        },
                    }
                } else {
                    self.bump_duplicate_starts();
                }
            },
            LineKind::CreateDone(role, id) => {
                let pending = match role {
                    Role::UserContainer => self.user_container.create_pending_start,
                    Role::QueueProxy => self.queue_proxy.create_pending_start,
                };
                match pending {
                    Some(st) => {
                        if st <= ts {
                            let iv = Interval { start_us: st, end_us: ts };
                            match role {
                                Role::UserContainer => {
                                    self.user_container.container_id = Some(id);
                                    self.user_container.create_pending_start = None;
                                    self.timeline.user_container.create = Some(iv);
                                },
                                Role::QueueProxy => {
                                    self.queue_proxy.container_id = Some(id);
                                    self.queue_proxy.create_pending_start = None;
                                    self.timeline.queue_proxy.create = Some(iv);
                                },
                            }
                        }
                    },
                    None => {
                        self.bump_orphan_completions();
                    },
                }
            },
            LineKind::StartStart(role) => {
                let pending = match role {
                    Role::UserContainer => self.user_container.start_pending_start,
                    Role::QueueProxy => self.queue_proxy.start_pending_start,
                };
                if pending.is_none() {
                    match role {
                        Role::UserContainer => {
                            self.user_container.start_pending_start = Some(ts);
                        },
                        Role::QueueProxy => {
                            self.queue_proxy.start_pending_start = Some(ts);
                        },
                    }
                } else {
                    self.bump_duplicate_starts();
                }
            },
            LineKind::StartDone(role) => {
                let pending = match role {
                    Role::UserContainer => self.user_container.start_pending_start,
                    Role::QueueProxy => self.queue_proxy.start_pending_start,
                };
                match pending {
                    Some(st) => {
                        if st <= ts {
                            let iv = Interval { start_us: st, end_us: ts };
                            match role {
                                Role::UserContainer => {
                                    self.user_container.start_pending_start = None;
                                    self.timeline.user_container.start = Some(iv);
                                },
                                Role::QueueProxy => {
                                    self.queue_proxy.start_pending_start = None;
                                    self.timeline.queue_proxy.start = Some(iv);
                                },
                            }
                        }
                    },
                    None => {
                        self.bump_orphan_completions();
                    },
                }
            },
            LineKind::Unrecognized => {},
        }
        assert(self@ =~~= step_model(old(self)@, entry@));
    }
}

/// The fixed vocabulary of events one extraction can reconstruct.
#[derive(Clone, Copy, Debug, PartialEq, Eq, Structural)]
pub enum EventKind {
    /// Sandbox creation.
    RunPodSandbox,
    /// The deployment-wide image pull.
    PullImage,
    /// Creation of the application container.
    CreateContainerUserContainer,
    /// Creation of the sidecar proxy container.
    CreateContainerQueueProxy,
    /// Start of the application container.
    StartContainerUserContainer,
    /// Start of the sidecar proxy container.
    StartContainerQueueProxy,
}

/// The name an event is reported under.
pub open spec fn event_name_spec(k: EventKind) -> Seq<char> {
    match k {
        EventKind::RunPodSandbox => "RunPodSandbox"@,
        EventKind::PullImage => "PullImage"@,
        EventKind::CreateContainerUserContainer => "CreateContainerUserContainer"@,
        EventKind::CreateContainerQueueProxy => "CreateContainerQueueProxy"@,
        EventKind::StartContainerUserContainer => "StartContainerUserContainer"@,
        EventKind::StartContainerQueueProxy => "StartContainerQueueProxy"@,
    }
}

/// The name an event is reported under.
pub fn event_name(k: EventKind) -> (r: &'static str)
    ensures
        r@ == event_name_spec(k),
{
    match k {
        EventKind::RunPodSandbox => "RunPodSandbox",
        EventKind::PullImage => "PullImage",
        EventKind::CreateContainerUserContainer => "CreateContainerUserContainer",
        EventKind::CreateContainerQueueProxy => "CreateContainerQueueProxy",
        EventKind::StartContainerUserContainer => "StartContainerUserContainer",
        EventKind::StartContainerQueueProxy => "StartContainerQueueProxy",
    }
}

/// The slot of the timeline that holds an event's interval.
pub open spec fn timeline_slot(t: TimelineModel, k: EventKind) -> Option<IntervalModel> {
    match k {
        EventKind::RunPodSandbox => t.sandbox,
        EventKind::PullImage => t.pull,
        EventKind::CreateContainerUserContainer => t.user_container.create,
        EventKind::CreateContainerQueueProxy => t.queue_proxy.create,
        EventKind::StartContainerUserContainer => t.user_container.start,
        EventKind::StartContainerQueueProxy => t.queue_proxy.start,
    }
}

/// One for a reconstructed interval, zero for a missing one.
pub open spec fn opt_count(o: Option<IntervalModel>) -> int {
    if o is Some {
        1
    } else {
        0
    }
}

/// How many of the six possible intervals a timeline holds.
pub open spec fn timeline_count(t: TimelineModel) -> int {
    opt_count(t.sandbox) + opt_count(t.pull) + opt_count(t.user_container.create) + opt_count(
        t.user_container.start,
    ) + opt_count(t.queue_proxy.create) + opt_count(t.queue_proxy.start)
}

/// How many intervals a complete extraction reconstructs.
pub const EXPECTED_EVENT_COUNT: u64 = 6;

impl EventTimeline {
    /// The interval reconstructed for `k`, if any.
    pub fn get(&self, k: EventKind) -> (r: Option<Interval>)
        ensures
            view_opt_interval(r) == timeline_slot(self@, k),
    {
        match k {
            EventKind::RunPodSandbox => self.sandbox,
            EventKind::PullImage => self.pull,
            EventKind::CreateContainerUserContainer => self.user_container.create,
            EventKind::CreateContainerQueueProxy => self.queue_proxy.create,
            EventKind::StartContainerUserContainer => self.user_container.start,
            EventKind::StartContainerQueueProxy => self.queue_proxy.start,
        }
    }

    /// How many of the six possible intervals were reconstructed.
    pub fn count(&self) -> (n: u64)
        ensures
            n as int == timeline_count(self@),
            0 <= n <= 6,
    {
        let mut n: u64 = 0;
        if self.sandbox.is_some() {
            n += 1;
        }
        if self.pull.is_some() {
            n += 1;
        }
        if self.user_container.create.is_some() {
            n += 1;
        }
        if self.user_container.start.is_some() {
            n += 1;
        }
        if self.queue_proxy.create.is_some() {
            n += 1;
        }
        if self.queue_proxy.start.is_some() {
            n += 1;
        }
        n
    }
}

/// What one extraction run hands back: the reconstructed timeline, whether
/// it is complete, and the diagnostic counts of dropped lines.
#[derive(Clone, Debug, PartialEq, Eq)]
pub struct ExtractionReport {
    /// The reconstructed intervals.
    pub timeline: EventTimeline,
    /// True when all six expected intervals were reconstructed; false is
    /// the completeness warning of a partial stream, not an error.
    pub complete: bool,
    /// Start lines dropped because their phase was already pending.
    pub duplicate_starts: u64,
    /// Completion lines dropped because their phase had no pending start.
    pub orphan_completions: u64,
}

/// The ghost images of a sequence of parsed log entries.
pub open spec fn entries_view(es: Seq<LogEntry>) -> Seq<EntryModel> {
    Seq::new(es.len(), |i: int| es[i]@)
}

/// Running a scan over a sequence and then one more entry is running it
/// over the sequence with that entry appended.
pub proof fn lemma_scan_push(s: StateModel, es: Seq<EntryModel>, e: EntryModel)
    ensures
        scan_model(s, es.push(e)) == step_model(scan_model(s, es), e),
    decreases es.len(),
{
    if es.len() == 0 {
        assert(es.push(e)[0] == e);
        assert(es.push(e).drop_first() =~= Seq::<EntryModel>::empty());
        assert(scan_model(s, es.push(e)) == scan_model(step_model(s, e), es.push(e).drop_first()));
        assert(scan_model(step_model(s, e), es.push(e).drop_first()) == step_model(s, e));
    } else {
        assert(es.push(e)[0] == es[0]);
        assert(es.push(e).drop_first() =~= es.drop_first().push(e));
        assert(scan_model(s, es.push(e)) == scan_model(
            step_model(s, es[0]),
            es.drop_first().push(e),
        ));
        lemma_scan_push(step_model(s, es[0]), es.drop_first(), e);
        assert(scan_model(s, es) == scan_model(step_model(s, es[0]), es.drop_first()));
    }
}

/// What one raw line contributes to the scan: its two fields if it parses
/// as a log entry with a well-formed decimal timestamp, nothing otherwise.
pub open spec fn parse_line_model(line: Seq<u8>) -> Option<EntryModel> {
    match json_line_fields(line) {
        Some(f) => match crate::text::parse_i64_spec(f.0) {
            Some(t) => Some(EntryModel { timestamp: t, message: f.1 }),
            None => None,
        },
        None => None,
    }
}

/// The entries that a sequence of raw lines yields, malformed lines
/// skipped.
pub open spec fn parsed_entries(lines: Seq<Seq<u8>>) -> Seq<EntryModel> {
    lines.filter_map(|l: Seq<u8>| parse_line_model(l))
}

/// The timestamp and message fields of one JSON log line, as the JSON
/// parser reads them; they are a function of the line's bytes alone.
pub uninterp spec fn json_line_fields(line: Seq<u8>) -> Option<(Seq<u8>, Seq<u8>)>;

/// Relies on serde_json::from_slice and serde_json::Value::get /
/// Value::as_str: parsing a line and reading its timestamp and message
/// fields, both functions of the line's bytes alone. Yields nothing when
/// the line is not a JSON object or either field is missing or not a
/// string.
#[verifier::external_body]
fn json_entry_fields(line: &[u8]) -> (r: Option<(Vec<u8>, Vec<u8>)>)
    ensures
        match r {
            Some(p) => json_line_fields(line@) == Some((p.0@, p.1@)),
            None => json_line_fields(line@) is None,
        },
{
    let value: serde_json::Value = match serde_json::from_slice(line) {
        Ok(v) => v,
        Err(_) => return None,
    };
    let ts = value.get("__REALTIME_TIMESTAMP").and_then(|v| v.as_str())?;
    let msg = value.get("MESSAGE").and_then(|v| v.as_str())?;
    Some((ts.as_bytes().to_vec(), msg.as_bytes().to_vec()))
}

/// Parses one raw journal line into a log entry: the line must be a JSON
/// object whose timestamp field holds a decimal number of microseconds.
pub fn parse_log_line(line: &[u8]) -> (r: Option<LogEntry>)
    ensures
        match r {
            Some(e) => parse_line_model(line@) == Some(e@),
            None => parse_line_model(line@) is None,
        },
{
    match json_entry_fields(line) {
        Some(fields) => {
            let (ts_bytes, message) = fields;
            match crate::text::parse_i64(ts_bytes.as_slice()) {
                Some(t) => Some(LogEntry { timestamp_us: t, message }),
                None => None,
            }
        },
        None => None,
    }
}

/// Every reconstructed interval is ordered: its start does not follow its
/// end.
pub open spec fn interval_ordered(o: Option<IntervalModel>) -> bool {
    match o {
        Some(iv) => iv.start <= iv.end,
        None => true,
    }
}

/// Every interval of the timeline is ordered.
pub open spec fn timeline_ordered(t: TimelineModel) -> bool {
    &&& interval_ordered(t.sandbox)
    &&& interval_ordered(t.pull)
    &&& interval_ordered(t.user_container.create)
    &&& interval_ordered(t.user_container.start)
    &&& interval_ordered(t.queue_proxy.create)
    &&& interval_ordered(t.queue_proxy.start)
}

/// One scan step keeps every interval of the timeline ordered: an interval
/// is only ever emitted from a recorded start to a completion timestamp
/// not before it.
pub proof fn lemma_step_keeps_ordered(s: StateModel, e: EntryModel)
    requires
        timeline_ordered(s.timeline),
    ensures
        timeline_ordered(step_model(s, e).timeline),
{
}

/// A whole scan keeps every interval of the timeline ordered.
pub proof fn lemma_scan_keeps_ordered(s: StateModel, entries: Seq<EntryModel>)
    requires
        timeline_ordered(s.timeline),
    ensures
        timeline_ordered(scan_model(s, entries).timeline),
    decreases entries.len(),
{
    if entries.len() > 0 {
        lemma_step_keeps_ordered(s, entries[0]);
        lemma_scan_keeps_ordered(step_model(s, entries[0]), entries.drop_first());
    }
}

/// One scan step never changes the configuration the scan was started
/// with: the patterns, the deployment identifier and the cutoff instant.
pub proof fn lemma_step_keeps_config(s: StateModel, e: EntryModel)
    ensures
        step_model(s, e).patterns == s.patterns,
        step_model(s, e).deployment_id == s.deployment_id,
        step_model(s, e).cutoff == s.cutoff,
{
}

/// The subsequence of entries whose timestamp is at or after the cutoff,
/// in their input order.
pub open spec fn at_or_after(entries: Seq<EntryModel>, cutoff: int) -> Seq<EntryModel>
    decreases entries.len(),
{
    if entries.len() == 0 {
        Seq::empty()
    } else if entries[0].timestamp >= cutoff {
        seq![entries[0]] + at_or_after(entries.drop_first(), cutoff)
    } else {
        at_or_after(entries.drop_first(), cutoff)
    }
}

/// Entries with a timestamp strictly before the cutoff never influence a
/// scan: dropping them from the input leaves the result unchanged.
pub proof fn lemma_cutoff_entries_dropped(s: StateModel, entries: Seq<EntryModel>)
    ensures
        scan_model(s, entries) == scan_model(s, at_or_after(entries, s.cutoff)),
    decreases entries.len(),
{
    if entries.len() > 0 {
        let e0 = entries[0];
        let rest = entries.drop_first();
        if e0.timestamp >= s.cutoff {
            lemma_step_keeps_config(s, e0);
            lemma_cutoff_entries_dropped(step_model(s, e0), rest);
            let kept = seq![e0] + at_or_after(rest, s.cutoff);
            assert(kept[0] == e0);
            assert(kept.drop_first() =~= at_or_after(rest, s.cutoff));
            assert(scan_model(s, kept) == scan_model(
                step_model(s, e0),
                at_or_after(rest, s.cutoff),
            ));
        } else {
            assert(step_model(s, e0) == s);
            lemma_cutoff_entries_dropped(s, rest);
        }
    }
}

/// The role a classified line is attributed to, if any.
pub open spec fn kind_role(k: LineKind<Seq<u8>>) -> Option<Role> {
    match k {
        LineKind::CreateStart(r) => Some(r),
        LineKind::CreateDone(r, _) => Some(r),
        LineKind::StartStart(r) => Some(r),
        LineKind::StartDone(r) => Some(r),
        _ => None,
    }
}

/// Role isolation: a line not attributed to a role never changes that
/// role's bookkeeping or that role's intervals, so interleaving the two
/// roles' lines in any order keeps their tracking independent.
pub proof fn lemma_role_isolation(s: StateModel, e: EntryModel)
    ensures
        ({
            let role = kind_role(classify_model(s, e.message));
            let s2 = step_model(s, e);
            &&& (role != Some(Role::UserContainer) ==> s2.user_container == s.user_container
                && s2.timeline.user_container == s.timeline.user_container)
            &&& (role != Some(Role::QueueProxy) ==> s2.queue_proxy == s.queue_proxy
                && s2.timeline.queue_proxy == s.timeline.queue_proxy)
        }),
{
}

/// Whether the line kind is a completion whose phase has no pending start
/// (and, for the phases that are handled at most once, was not already
/// handled): an orphan completion.
pub open spec fn orphan_completion(s: StateModel, k: LineKind<Seq<u8>>) -> bool {
    match k {
        LineKind::SandboxDone(_) => s.sandbox_id is None && s.sandbox_pending_start is None,
        LineKind::PullDone => s.timeline.pull is None && s.pull_pending_start is None,
        LineKind::CreateDone(r, _) => role_model_of(s, r).create_pending_start is None,
        LineKind::StartDone(r) => role_model_of(s, r).start_pending_start is None,
        _ => false,
    }
}

/// Orphan tolerance: a completion line with no preceding start for its
/// phase emits no interval — the timeline is untouched — and is only
/// counted for diagnostics.
pub proof fn lemma_orphan_completion_ignored(s: StateModel, e: EntryModel)
    requires
        e.timestamp >= s.cutoff,
        orphan_completion(s, classify_model(s, e.message)),
    ensures
        step_model(s, e).timeline == s.timeline,
        step_model(s, e).orphan_completions == sat_inc(s.orphan_completions),
{
}

/// Whether the line kind is a start for a phase that is already pending:
/// a duplicate start.
pub open spec fn duplicate_start(s: StateModel, k: LineKind<Seq<u8>>) -> bool {
    match k {
        LineKind::SandboxStart => s.sandbox_pending_start is Some,
        LineKind::PullStart => s.pull_pending_start is Some,
        LineKind::CreateStart(r) => role_model_of(s, r).create_pending_start is Some,
        LineKind::StartStart(r) => role_model_of(s, r).start_pending_start is Some,
        _ => false,
    }
}

/// Duplicate-start tolerance: a second start line for an already pending
/// phase leaves every pending start exactly as it was — the first start's
/// timestamp wins — touches no interval, and is only counted.
pub proof fn lemma_duplicate_start_ignored(s: StateModel, e: EntryModel)
    requires
        e.timestamp >= s.cutoff,
        duplicate_start(s, classify_model(s, e.message)),
    ensures
        step_model(s, e).timeline == s.timeline,
        step_model(s, e).sandbox_pending_start == s.sandbox_pending_start,
        step_model(s, e).pull_pending_start == s.pull_pending_start,
        step_model(s, e).user_container == s.user_container,
        step_model(s, e).queue_proxy == s.queue_proxy,
        step_model(s, e).duplicate_starts == sat_inc(s.duplicate_starts),
{
}

/// The journal-scanning façade.
#[derive(Debug)]
pub struct Containerd {}

impl Containerd {
    /// Scans already-parsed log entries, in order, and reports the
    /// reconstructed timeline of the deployment.
    pub fn get_events_from_entries(
        patterns: PatternConfig,
        deployment_id: &[u8],
        cutoff_us: i64,
        entries: &Vec<LogEntry>,
    ) -> (r: ExtractionReport)
        ensures
            ({
                let end = scan_model(
                    init_model(patterns@, deployment_id@, cutoff_us as int),
                    entries_view(entries@),
                );
                &&& r.timeline@ == end.timeline
                &&& r.complete == (timeline_count(end.timeline) == EXPECTED_EVENT_COUNT)
                &&& r.duplicate_starts as int == end.duplicate_starts
                &&& r.orphan_completions as int == end.orphan_completions
                &&& timeline_ordered(r.timeline@)
            }),
    {
        let ghost init = init_model(patterns@, deployment_id@, cutoff_us as int);
        let dep = vstd::slice::slice_to_vec(deployment_id);
        let mut state = CorrelationState::new(patterns, dep, cutoff_us);
        let n = entries.len();
        let mut i: usize = 0;
        while i < n
            invariant
                n == entries@.len(),
                i <= n,
                state@ == scan_model(init, entries_view(entries@).take(i as int)),
            decreases n - i,
        {
            let ghost before = entries_view(entries@).take(i as int);
            state.process(&entries[i]);
            proof {
                assert(entries_view(entries@).take(i + 1) =~= before.push(entries@[i as int]@));
                lemma_scan_push(init, before, entries@[i as int]@);
            }
            i += 1;
        }
        proof {
            assert(entries_view(entries@).take(n as int) =~= entries_view(entries@));
            lemma_scan_keeps_ordered(init, entries_view(entries@));
        }
        Self::report_of(state)
    }

    /// Scans raw journal lines: each line is parsed as a JSON log entry,
    /// malformed lines are skipped, and the rest are scanned in order.
    pub fn get_events_from_lines(
        patterns: PatternConfig,
        deployment_id: &[u8],
        cutoff_us: i64,
        lines: &Vec<Vec<u8>>,
    ) -> (r: ExtractionReport)
        ensures
            ({
                let end = scan_model(
                    init_model(patterns@, deployment_id@, cutoff_us as int),
                    parsed_entries(lines.deep_view()),
                );
                &&& r.timeline@ == end.timeline
                &&& r.complete == (timeline_count(end.timeline) == EXPECTED_EVENT_COUNT)
                &&& r.duplicate_starts as int == end.duplicate_starts
                &&& r.orphan_completions as int == end.orphan_completions
                &&& timeline_ordered(r.timeline@)
            }),
    {
        let ghost init = init_model(patterns@, deployment_id@, cutoff_us as int);
        let dep = vstd::slice::slice_to_vec(deployment_id);
        let mut state = CorrelationState::new(patterns, dep, cutoff_us);
        let n = lines.len();
        let mut i: usize = 0;
        while i < n
            invariant
                n == lines@.len(),
                i <= n,
                state@ == scan_model(init, parsed_entries(lines.deep_view().take(i as int))),
            decreases n - i,
        {
            let ghost before = parsed_entries(lines.deep_view().take(i as int));
            let parsed = parse_log_line(lines[i].as_slice());
            proof {
                assert(lines.deep_view().take(i + 1).drop_last() =~= lines.deep_view().take(
                    i as int,
                ));
                assert(lines.deep_view().take(i + 1).last() == lines.deep_view()[i as int]);
                assert(lines.deep_view()[i as int] =~= lines@[i as int]@);
            }
            match parsed {
                Some(entry) => {
                    state.process(&entry);
                    proof {
                        assert(parsed_entries(lines.deep_view().take(i + 1)) =~= before.push(
                            entry@,
                        ));
                        lemma_scan_push(init, before, entry@);
                    }
                },
                None => {
                    proof {
                        assert(parsed_entries(lines.deep_view().take(i + 1)) =~= before);
                    }
                },
            }
            i += 1;
        }
        proof {
            assert(lines.deep_view().take(n as int) =~= lines.deep_view());
            lemma_scan_keeps_ordered(init, parsed_entries(lines.deep_view()));
        }
        Self::report_of(state)
    }

    /// Packs a finished scan state into its report.
    fn report_of(state: CorrelationState) -> (r: ExtractionReport)
        ensures
            r.timeline@ == state@.timeline,
            r.complete == (timeline_count(state@.timeline) == EXPECTED_EVENT_COUNT),
            r.duplicate_starts as int == state@.duplicate_starts,
            r.orphan_completions as int == state@.orphan_completions,
    {
        let complete = state.timeline.count() == EXPECTED_EVENT_COUNT;
        ExtractionReport {
            complete,
            duplicate_starts: state.duplicate_starts,
            orphan_completions: state.orphan_completions,
            timeline: state.timeline,
        }
    }
}

} // verus!

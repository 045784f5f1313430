//! The experiment driver's decision logic: what a single repetition
//! records, how results are written as data-file rows, and the full plan
//! of service deployments each experiment runs. Executing a plan —
//! deploying, invoking, scraping the journal — is the binary's job.

use vstd::prelude::*;

use crate::args::{ImagePullRunArgs, ScaleOutRunArgs, StartUpRunArgs};
use crate::baselines::{
    baseline_name_spec, encryption_name_spec, flavour_name_spec, pull_baseline_name_spec,
    workload_name_spec, AvailableBaselines, ImagePullBaselines, ImagePullEncryptionTypes,
    ImagePullWorkloads, StartUpFlavours,
};
use crate::containerd::{
    event_name, event_name_spec, init_timeline_model, timeline_slot, EventKind, EventTimeline,
    IntervalModel, RoleIntervals, TimelineModel,
};
use crate::text::{dec_chars, dec_chars_signed, i64_dec_string, u64_dec_string};

verus! {

use vstd::string::StringExecFns;

/// The three experiments the harness can run.
#[derive(Clone, Copy, Debug, PartialEq, Eq, Structural)]
pub enum AvailableExperiments {
    ImagePull,
    ScaleOut,
    StartUp,
}

/// The name an experiment is written as in result paths.
pub open spec fn experiment_name_spec(e: AvailableExperiments) -> Seq<char> {
    match e {
        AvailableExperiments::ImagePull => "image-pull"@,
        AvailableExperiments::ScaleOut => "scale-out"@,
        AvailableExperiments::StartUp => "start-up"@,
    }
}

impl AvailableExperiments {
    /// The experiment's textual name.
    pub fn name(&self) -> (r: &'static str)
        ensures
            r@ == experiment_name_spec(*self),
    {
        match self {
            AvailableExperiments::ImagePull => "image-pull",
            AvailableExperiments::ScaleOut => "scale-out",
            AvailableExperiments::StartUp => "start-up",
        }
    }
}

/// What one repetition measures: end-to-end wall-clock bounds and the
/// per-event breakdown scraped from the journal.
#[derive(Clone, Debug)]
pub struct ExecutionResult {
    /// Which measured repetition this is.
    pub iter: u32,
    /// When the invocation was issued, microseconds since the Unix epoch.
    pub start_time_us: i64,
    /// When the invocation returned.
    pub end_time_us: i64,
    /// The per-event breakdown.
    pub event_ts: EventTimeline,
}

/// Ghost image of an [`ExecutionResult`].
#[verifier::ext_equal]
pub ghost struct ResultModel {
    pub iter: int,
    pub start: int,
    pub end: int,
    pub events: TimelineModel,
}

impl View for ExecutionResult {
    type V = ResultModel;

    open spec fn view(&self) -> ResultModel {
        ResultModel {
            iter: self.iter as int,
            start: self.start_time_us as int,
            end: self.end_time_us as int,
            events: self.event_ts@,
        }
    }
}

impl ExecutionResult {
    /// A fresh result: repetition zero, both bounds at `now_us`, and no
    /// events yet.
    pub fn new(now_us: i64) -> (r: ExecutionResult)
        ensures
            r@ == (ResultModel {
                iter: 0,
                start: now_us as int,
                end: now_us as int,
                events: init_timeline_model(),
            }),
    {
        let r = ExecutionResult {
            iter: 0,
            start_time_us: now_us,
            end_time_us: now_us,
            event_ts: EventTimeline {
                sandbox: None,
                pull: None,
                user_container: RoleIntervals { create: None, start: None },
                queue_proxy: RoleIntervals { create: None, start: None },
            },
        };
        assert(r@ =~~= (ResultModel {
            iter: 0,
            start: now_us as int,
            end: now_us as int,
            events: init_timeline_model(),
        }));
        r
    }
}

/// A duration in whole milliseconds, truncated toward zero, between two
/// instants in microseconds.
pub open spec fn duration_ms_spec(start: int, end: int) -> int {
    if end >= start {
        (end - start) / 1000
    } else {
        -((start - end) / 1000)
    }
}

/// The experiment driver's decision logic.
#[derive(Debug)]
pub struct Exp {}

/// The order events are reported in: sorted by their names, as a
/// name-keyed result map would yield them.
pub open spec fn report_order() -> Seq<EventKind> {
    seq![
        EventKind::CreateContainerQueueProxy,
        EventKind::CreateContainerUserContainer,
        EventKind::PullImage,
        EventKind::RunPodSandbox,
        EventKind::StartContainerQueueProxy,
        EventKind::StartContainerUserContainer,
    ]
}

/// One data-file row: repetition, event name, milliseconds.
pub open spec fn row_spec(iter: int, name: Seq<char>, ms: int) -> Seq<char> {
    dec_chars(iter) + ","@ + name + ","@ + dec_chars_signed(ms)
}

/// The rows of the reconstructed events among `ks`, in that order.
pub open spec fn event_rows_from(iter: int, t: TimelineModel, ks: Seq<EventKind>) -> Seq<Seq<char>>
    decreases ks.len(),
{
    if ks.len() == 0 {
        Seq::empty()
    } else {
        (match timeline_slot(t, ks[0]) {
            Some(iv) => seq![row_spec(iter, event_name_spec(ks[0]), duration_ms_spec(iv.start, iv.end))],
            None => Seq::<Seq<char>>::empty(),
        }) + event_rows_from(iter, t, ks.drop_first())
    }
}

/// The latest end among the reconstructed events in `ks`, starting from
/// `cur`.
pub open spec fn max_end_from(cur: int, t: TimelineModel, ks: Seq<EventKind>) -> int
    decreases ks.len(),
{
    if ks.len() == 0 {
        cur
    } else {
        let next = match timeline_slot(t, ks[0]) {
            Some(iv) => if iv.end > cur {
                iv.end
            } else {
                cur
            },
            None => cur,
        };
        max_end_from(next, t, ks.drop_first())
    }
}

/// The data-file rows one repetition appends, by experiment.
pub open spec fn results_rows_spec(exp: AvailableExperiments, res: ResultModel) -> Seq<Seq<char>> {
    match exp {
        AvailableExperiments::ImagePull => seq![
            row_spec(res.iter, "EndToEnd"@, duration_ms_spec(res.start, res.end)),
        ] + event_rows_from(res.iter, res.events, report_order()) + seq![
            row_spec(
                res.iter,
                "FuncRuntime"@,
                duration_ms_spec(max_end_from(res.start, res.events, report_order()), res.end),
            ),
        ],
        AvailableExperiments::ScaleOut => seq![
            dec_chars(res.iter) + ","@ + dec_chars_signed(duration_ms_spec(res.start, res.end)),
        ],
        AvailableExperiments::StartUp => seq![
            row_spec(res.iter, "StartUp"@, duration_ms_spec(res.start, res.end)),
        ] + event_rows_from(res.iter, res.events, report_order()),
    }
}

/// The header line of an experiment's data file.
pub open spec fn data_file_header_spec(exp: AvailableExperiments) -> Seq<char> {
    match exp {
        AvailableExperiments::ScaleOut => "Run,TimeMs"@,
        AvailableExperiments::ImagePull => "Run,Event,TimeMs"@,
        AvailableExperiments::StartUp => "Run,Event,TimeMs"@,
    }
}

impl Exp {
    /// The duration between two instants in whole milliseconds, truncated
    /// toward zero.
    pub fn duration_ms(start_us: i64, end_us: i64) -> (r: i64)
        ensures
            r as int == duration_ms_spec(start_us as int, end_us as int),
    {
        if end_us >= start_us {
            let diff: i128 = end_us as i128 - start_us as i128;
            assert(0 <= diff <= u64::MAX);
            let d: u64 = diff as u64;
            let q: u64 = d / 1000;
            assert(q <= u64::MAX / 1000);
            q as i64
        } else {
            let diff: i128 = start_us as i128 - end_us as i128;
            assert(0 <= diff <= u64::MAX);
            let d: u64 = diff as u64;
            let q: u64 = d / 1000;
            assert(q <= u64::MAX / 1000);
            -(q as i64)
        }
    }

    /// The header line of an experiment's data file.
    pub fn data_file_header(exp: &AvailableExperiments) -> (r: &'static str)
        ensures
            r@ == data_file_header_spec(*exp),
    {
        match exp {
            AvailableExperiments::ScaleOut => "Run,TimeMs",
            AvailableExperiments::ImagePull => "Run,Event,TimeMs",
            AvailableExperiments::StartUp => "Run,Event,TimeMs",
        }
    }

    /// Whether the snapshotters must be purged after one repetition: only
    /// cold starts tear the cached state down between runs.
    pub fn clean_up_after_run(flavour: StartUpFlavours) -> (r: bool)
        ensures
            r == (flavour == StartUpFlavours::Cold),
    {
        match flavour {
            StartUpFlavours::Cold => true,
            StartUpFlavours::Warm => false,
        }
    }

    /// One data-file row of an event breakdown.
    fn event_row(iter: u32, kind: EventKind, start_us: i64, end_us: i64) -> (r: String)
        ensures
            r@ == row_spec(
                iter as int,
                event_name_spec(kind),
                duration_ms_spec(start_us as int, end_us as int),
            ),
    {
        let ms = Self::duration_ms(start_us, end_us);
        let mut row = u64_dec_string(iter as u64);
        row.append(",");
        row.append(event_name(kind));
        row.append(",");
        let ms_str = i64_dec_string(ms);
        row.append(ms_str.as_str());
        proof {
            reveal_strlit(",");
        }
        row
    }

    /// The six event kinds in report order.
    fn report_order_vec() -> (r: Vec<EventKind>)
        ensures
            r@ == report_order(),
    {
        let mut v: Vec<EventKind> = Vec::new();
        v.push(EventKind::CreateContainerQueueProxy);
        v.push(EventKind::CreateContainerUserContainer);
        v.push(EventKind::PullImage);
        v.push(EventKind::RunPodSandbox);
        v.push(EventKind::StartContainerQueueProxy);
        v.push(EventKind::StartContainerUserContainer);
        assert(v@ =~= report_order());
        v
    }

    /// The rows of every reconstructed event, in report order.
    fn event_rows(iter: u32, t: &EventTimeline) -> (r: Vec<String>)
        ensures
            r.deep_view() == event_rows_from(iter as int, t@, report_order()),
    {
        let order = Self::report_order_vec();
        let mut rows: Vec<String> = Vec::new();
        proof {
            assert(report_order().skip(0) =~= report_order());
            assert(rows.deep_view() + event_rows_from(iter as int, t@, report_order())
                =~~= event_rows_from(iter as int, t@, report_order()));
        }
        let n = order.len();
        let mut i: usize = 0;
        while i < n
            invariant
                n == order@.len(),
                order@ == report_order(),
                i <= n,
                event_rows_from(iter as int, t@, report_order()) == rows.deep_view()
                    + event_rows_from(iter as int, t@, report_order().skip(i as int)),
            decreases n - i,
        {
            proof {
                assert(report_order().skip(i as int)[0] == report_order()[i as int]);
                assert(report_order().skip(i as int).drop_first() =~= report_order().skip(i + 1));
            }
            let ghost prev = rows.deep_view();
            let kind = order[i];
            match t.get(kind) {
                Some(iv) => {
                    let row = Self::event_row(iter, kind, iv.start_us, iv.end_us);
                    let ghost row_view = row@;
                    rows.push(row);
                    proof {
                        assert(rows.deep_view() =~~= prev + seq![row_view]);
                        assert(prev + (seq![row_view] + event_rows_from(
                            iter as int,
                            t@,
                            report_order().skip(i + 1),
                        )) =~~= (prev + seq![row_view]) + event_rows_from(
                            iter as int,
                            t@,
                            report_order().skip(i + 1),
                        ));
                    }
                },
                None => {
                    proof {
                        assert(Seq::<Seq<char>>::empty() + event_rows_from(
                            iter as int,
                            t@,
                            report_order().skip(i + 1),
                        ) =~~= event_rows_from(iter as int, t@, report_order().skip(i + 1)));
                    }
                },
            }
            i += 1;
        }
        proof {
            assert(report_order().skip(n as int) =~= Seq::<EventKind>::empty());
            assert(rows.deep_view() =~~= event_rows_from(iter as int, t@, report_order()));
        }
        rows
    }

    /// The latest event end among the reconstructed events, from
    /// `start_us` on.
    fn max_event_end(start_us: i64, t: &EventTimeline) -> (r: i64)
        ensures
            r as int == max_end_from(start_us as int, t@, report_order()),
    {
        let order = Self::report_order_vec();
        let mut cur = start_us;
        proof {
            assert(report_order().skip(0) =~= report_order());
        }
        let n = order.len();
        let mut i: usize = 0;
        while i < n
            invariant
                n == order@.len(),
                order@ == report_order(),
                i <= n,
                max_end_from(start_us as int, t@, report_order()) == max_end_from(
                    cur as int,
                    t@,
                    report_order().skip(i as int),
                ),
            decreases n - i,
        {
            proof {
                assert(report_order().skip(i as int)[0] == report_order()[i as int]);
                assert(report_order().skip(i as int).drop_first() =~= report_order().skip(i + 1));
            }
            match t.get(order[i]) {
                Some(iv) => {
                    if iv.end_us > cur {
                        cur = iv.end_us;
                    }
                },
                None => {},
            }
            i += 1;
        }
        proof {
            assert(report_order().skip(n as int) =~= Seq::<EventKind>::empty());
        }
        cur
    }

    /// The data-file rows one repetition appends: an end-to-end row, the
    /// per-event breakdown where the experiment records one, and, for the
    /// image-pull experiment, the function runtime left after the last
    /// recorded event.
    pub fn results_rows(exp: &AvailableExperiments, res: &ExecutionResult) -> (r: Vec<String>)
        ensures
            r.deep_view() == results_rows_spec(*exp, res@),
    {
        proof {
            reveal_strlit(",");
        }
        match exp {
            AvailableExperiments::ImagePull => {
                let mut rows: Vec<String> = Vec::new();
                let mut first = u64_dec_string(res.iter as u64);
                first.append(",EndToEnd,");
                let e2e = i64_dec_string(Self::duration_ms(res.start_time_us, res.end_time_us));
                first.append(e2e.as_str());
                proof {
                    reveal_strlit(",EndToEnd,");
                    reveal_strlit("EndToEnd");
                    assert(",EndToEnd,"@ =~= ","@ + "EndToEnd"@ + ","@);
                }
                let ghost first_view = first@;
                assert(first_view == row_spec(
                    res@.iter,
                    "EndToEnd"@,
                    duration_ms_spec(res@.start, res@.end),
                ));
                rows.push(first);
                let events = Self::event_rows(res.iter, &res.event_ts);
                let ghost events_view = events.deep_view();
                let mut j: usize = 0;
                let m = events.len();
                while j < m
                    invariant
                        m == events@.len(),
                        events.deep_view() == events_view,
                        j <= m,
                        rows.deep_view() =~~= seq![
                            row_spec(res@.iter, "EndToEnd"@, duration_ms_spec(res@.start, res@.end)),
                        ] + events_view.take(j as int),
                    decreases m - j,
                {
                    let ghost prev = rows.deep_view();
                    let row = events[j].clone();
                    proof {
                        assert(events.deep_view()[j as int] == events@[j as int]@);
                    }
                    rows.push(row);
                    proof {
                        assert(rows.deep_view() =~~= prev + seq![events_view[j as int]]);
                        assert(events_view.take(j + 1) =~= events_view.take(j as int).push(
                            events_view[j as int],
                        ));
                    }
                    j += 1;
                }
                proof {
                    assert(events_view.take(m as int) =~= events_view);
                }
                let max_end = Self::max_event_end(res.start_time_us, &res.event_ts);
                let mut last = u64_dec_string(res.iter as u64);
                last.append(",FuncRuntime,");
                let runtime = i64_dec_string(Self::duration_ms(max_end, res.end_time_us));
                last.append(runtime.as_str());
                proof {
                    reveal_strlit(",FuncRuntime,");
                    reveal_strlit("FuncRuntime");
                    assert(",FuncRuntime,"@ =~= ","@ + "FuncRuntime"@ + ","@);
                }
                let ghost last_view = last@;
                let ghost prev = rows.deep_view();
                rows.push(last);
                proof {
                    assert(rows.deep_view() =~~= prev + seq![last_view]);
                    assert(rows.deep_view() =~~= results_rows_spec(*exp, res@));
                }
                rows
            },
            AvailableExperiments::ScaleOut => {
                let mut row = u64_dec_string(res.iter as u64);
                row.append(",");
                let ms = i64_dec_string(Self::duration_ms(res.start_time_us, res.end_time_us));
                row.append(ms.as_str());
                let ghost row_view = row@;
                let mut rows: Vec<String> = Vec::new();
                rows.push(row);
                proof {
                    assert(rows.deep_view() =~~= results_rows_spec(*exp, res@));
                }
                rows
            },
            AvailableExperiments::StartUp => {
                let mut rows: Vec<String> = Vec::new();
                let mut first = u64_dec_string(res.iter as u64);
                first.append(",StartUp,");
                let e2e = i64_dec_string(Self::duration_ms(res.start_time_us, res.end_time_us));
                first.append(e2e.as_str());
                proof {
                    reveal_strlit(",StartUp,");
                    reveal_strlit("StartUp");
                    assert(",StartUp,"@ =~= ","@ + "StartUp"@ + ","@);
                }
                let ghost first_view = first@;
                assert(first_view == row_spec(
                    res@.iter,
                    "StartUp"@,
                    duration_ms_spec(res@.start, res@.end),
                ));
                rows.push(first);
                let events = Self::event_rows(res.iter, &res.event_ts);
                let ghost events_view = events.deep_view();
                let mut j: usize = 0;
                let m = events.len();
                while j < m
                    invariant
                        m == events@.len(),
                        events.deep_view() == events_view,
                        j <= m,
                        rows.deep_view() =~~= seq![
                            row_spec(res@.iter, "StartUp"@, duration_ms_spec(res@.start, res@.end)),
                        ] + events_view.take(j as int),
                    decreases m - j,
                {
                    let ghost prev = rows.deep_view();
                    let row = events[j].clone();
                    proof {
                        assert(events.deep_view()[j as int] == events@[j as int]@);
                    }
                    rows.push(row);
                    proof {
                        assert(rows.deep_view() =~~= prev + seq![events_view[j as int]]);
                        assert(events_view.take(j + 1) =~= events_view.take(j as int).push(
                            events_view[j as int],
                        ));
                    }
                    j += 1;
                }
                proof {
                    assert(events_view.take(m as int) =~= events_view);
                    assert(rows.deep_view() =~~= results_rows_spec(*exp, res@));
                }
                rows
            },
        }
    }
}

/// Ghost image of an `Option<u32>`.
pub open spec fn view_opt_u32(o: Option<u32>) -> Option<int> {
    match o {
        Some(v) => Some(v as int),
        None => None,
    }
}

/// One service deployment's configuration: everything the manifest is
/// templated with, beyond the fixed namespace and registry names.
#[derive(Clone, Debug)]
pub struct ServiceConfig {
    /// The isolation baseline; it determines the runtime class.
    pub baseline: AvailableBaselines,
    /// The Knative service name.
    pub kservice_name: String,
    /// The image name to deploy.
    pub image_name: String,
    /// The image tag to deploy.
    pub image_tag: String,
    /// Cold or warm start.
    pub flavour: StartUpFlavours,
    /// The workload, for the image-pull experiment.
    pub workload: Option<ImagePullWorkloads>,
    /// The encryption mode, for the image-pull experiment.
    pub encryption: Option<ImagePullEncryptionTypes>,
    /// The pull mechanism, for the image-pull experiment.
    pub pull_type: Option<ImagePullBaselines>,
    /// The scale index, for the scale-out experiment.
    pub scale_idx: Option<u32>,
}

/// Ghost image of a [`ServiceConfig`].
#[verifier::ext_equal]
pub ghost struct ConfigModel {
    pub baseline: AvailableBaselines,
    pub kservice_name: Seq<char>,
    pub image_name: Seq<char>,
    pub image_tag: Seq<char>,
    pub flavour: StartUpFlavours,
    pub workload: Option<ImagePullWorkloads>,
    pub encryption: Option<ImagePullEncryptionTypes>,
    pub pull_type: Option<ImagePullBaselines>,
    pub scale_idx: Option<int>,
}

impl View for ServiceConfig {
    type V = ConfigModel;

    open spec fn view(&self) -> ConfigModel {
        ConfigModel {
            baseline: self.baseline,
            kservice_name: self.kservice_name@,
            image_name: self.image_name@,
            image_tag: self.image_tag@,
            flavour: self.flavour,
            workload: self.workload,
            encryption: self.encryption,
            pull_type: self.pull_type,
            scale_idx: view_opt_u32(self.scale_idx),
        }
    }
}

/// One planned service deployment: which experiment it belongs to, the
/// manifest to template, and the configuration to template it with.
#[derive(Clone, Debug)]
pub struct ServicePlan {
    pub exp: AvailableExperiments,
    pub yaml_path: String,
    pub config: ServiceConfig,
}

/// Ghost image of a [`ServicePlan`].
#[verifier::ext_equal]
pub ghost struct PlanModel {
    pub exp: AvailableExperiments,
    pub yaml_path: Seq<char>,
    pub config: ConfigModel,
}

impl View for ServicePlan {
    type V = PlanModel;

    open spec fn view(&self) -> PlanModel {
        PlanModel { exp: self.exp, yaml_path: self.yaml_path@, config: self.config@ }
    }
}

/// One step of an experiment plan, to be performed in order.
#[derive(Clone, Debug)]
pub enum ExperimentAction {
    /// Switch the snapshotter to the named mode.
    SetSnapshotterMode(String),
    /// Purge the snapshotters for a fresh start.
    PurgeSnapshotters,
    /// Deploy, measure and tear down one service configuration.
    RunService(ServicePlan),
}

/// Ghost image of an [`ExperimentAction`].
#[verifier::ext_equal]
pub ghost enum ActionModel {
    SetSnapshotterMode(Seq<char>),
    PurgeSnapshotters,
    RunService(PlanModel),
}

impl View for ExperimentAction {
    type V = ActionModel;

    open spec fn view(&self) -> ActionModel {
        match self {
            ExperimentAction::SetSnapshotterMode(m) => ActionModel::SetSnapshotterMode(m@),
            ExperimentAction::PurgeSnapshotters => ActionModel::PurgeSnapshotters,
            ExperimentAction::RunService(p) => ActionModel::RunService(p@),
        }
    }
}

/// The ghost images of a sequence of actions.
pub open spec fn actions_view(s: Seq<ExperimentAction>) -> Seq<ActionModel> {
    Seq::new(s.len(), |i: int| s[i]@)
}

/// The name of the data file one configuration's results go to.
pub open spec fn results_file_name_spec(exp: AvailableExperiments, c: ConfigModel) -> Seq<char> {
    match exp {
        AvailableExperiments::ImagePull => match (c.workload, c.encryption, c.pull_type) {
            (Some(w), Some(e), Some(p)) => workload_name_spec(w) + "_"@ + encryption_name_spec(e)
                + "_"@ + pull_baseline_name_spec(p) + "_"@ + flavour_name_spec(c.flavour)
                + ".csv"@,
            _ => Seq::empty(),
        },
        AvailableExperiments::ScaleOut => match c.scale_idx {
            Some(idx) => baseline_name_spec(c.baseline) + "_"@ + dec_chars(idx) + ".csv"@,
            None => Seq::empty(),
        },
        AvailableExperiments::StartUp => baseline_name_spec(c.baseline) + "_"@ + flavour_name_spec(
            c.flavour,
        ) + ".csv"@,
    }
}

/// The flavours an experiment runs: the one asked for, or cold then warm.
pub open spec fn flavours_chosen(o: Option<StartUpFlavours>) -> Seq<StartUpFlavours> {
    match o {
        Some(f) => seq![f],
        None => seq![StartUpFlavours::Cold, StartUpFlavours::Warm],
    }
}

/// The workloads the image-pull experiment runs: the one asked for, or
/// the default set.
pub open spec fn workloads_chosen(o: Option<ImagePullWorkloads>) -> Seq<ImagePullWorkloads> {
    match o {
        Some(w) => seq![w],
        None => seq![
            ImagePullWorkloads::HelloWorld,
            ImagePullWorkloads::Fio,
            ImagePullWorkloads::TfInference,
        ],
    }
}

/// The pull mechanisms the image-pull experiment runs: the one asked for,
/// or the default set.
pub open spec fn pulls_chosen(o: Option<ImagePullBaselines>) -> Seq<ImagePullBaselines> {
    match o {
        Some(p) => seq![p],
        None => seq![
            ImagePullBaselines::GuestPull,
            ImagePullBaselines::GuestLazy,
            ImagePullBaselines::HostMount,
        ],
    }
}

/// The encryption modes the image-pull experiment runs: the one asked
/// for, or unencrypted only.
pub open spec fn encs_chosen(o: Option<ImagePullEncryptionTypes>) -> Seq<ImagePullEncryptionTypes> {
    match o {
        Some(e) => seq![e],
        None => seq![ImagePullEncryptionTypes::UnEncrypted],
    }
}

/// The snapshotter mode a pull mechanism needs.
pub open spec fn mode_name_spec(p: ImagePullBaselines) -> Seq<char> {
    match p {
        ImagePullBaselines::GuestPull => "guest-pull"@,
        ImagePullBaselines::GuestLazy => "guest-pull"@,
        ImagePullBaselines::HostMount => "host-share"@,
        ImagePullBaselines::Sc2 => ""@,
    }
}

/// The start-up experiment's configuration for one baseline and flavour.
pub open spec fn start_up_config(b: AvailableBaselines, f: StartUpFlavours) -> ConfigModel {
    ConfigModel {
        baseline: b,
        kservice_name: "hello-world"@,
        image_name: "hello-world"@,
        image_tag: "unencrypted"@,
        flavour: f,
        workload: None,
        encryption: None,
        pull_type: None,
        scale_idx: None,
    }
}

/// The start-up experiment's plan for one baseline and flavour.
pub open spec fn start_up_plan_model(
    apps_root: Seq<char>,
    b: AvailableBaselines,
    f: StartUpFlavours,
) -> PlanModel {
    PlanModel {
        exp: AvailableExperiments::StartUp,
        yaml_path: apps_root + "/functions/hello-world/service.yaml"@,
        config: start_up_config(b, f),
    }
}

/// The start-up runs of one baseline, one per flavour, in order.
pub open spec fn start_up_flavour_actions(
    apps_root: Seq<char>,
    b: AvailableBaselines,
    fs: Seq<StartUpFlavours>,
) -> Seq<ActionModel>
    decreases fs.len(),
{
    if fs.len() == 0 {
        Seq::empty()
    } else {
        seq![ActionModel::RunService(start_up_plan_model(apps_root, b, fs[0]))]
            + start_up_flavour_actions(apps_root, b, fs.drop_first())
    }
}

/// The whole start-up plan: for each baseline, each flavour, in order.
pub open spec fn start_up_actions(
    apps_root: Seq<char>,
    bs: Seq<AvailableBaselines>,
    fs: Seq<StartUpFlavours>,
) -> Seq<ActionModel>
    decreases bs.len(),
{
    if bs.len() == 0 {
        Seq::empty()
    } else {
        start_up_flavour_actions(apps_root, bs[0], fs) + start_up_actions(
            apps_root,
            bs.drop_first(),
            fs,
        )
    }
}

/// The scale-out experiment's configuration for one baseline and scale
/// index. Scale-out always starts cold.
pub open spec fn scale_out_config(b: AvailableBaselines, idx: int) -> ConfigModel {
    ConfigModel {
        baseline: b,
        kservice_name: "hello-world"@,
        image_name: "hello-world"@,
        image_tag: "unencrypted"@,
        flavour: StartUpFlavours::Cold,
        workload: None,
        encryption: None,
        pull_type: None,
        scale_idx: Some(idx),
    }
}

/// The scale-out experiment's plan for one baseline and scale index.
pub open spec fn scale_out_plan_model(apps_root: Seq<char>, b: AvailableBaselines, idx: int) -> PlanModel {
    PlanModel {
        exp: AvailableExperiments::ScaleOut,
        yaml_path: apps_root + "/functions/hello-world-scale-out/service.yaml"@,
        config: scale_out_config(b, idx),
    }
}

/// The scale-out runs of one baseline, for indices from `i` below
/// `range`.
pub open spec fn scale_out_idx_actions(
    apps_root: Seq<char>,
    b: AvailableBaselines,
    i: int,
    range: int,
) -> Seq<ActionModel>
    decreases range - i,
{
    if i >= range {
        Seq::empty()
    } else {
        seq![ActionModel::RunService(scale_out_plan_model(apps_root, b, i))]
            + scale_out_idx_actions(apps_root, b, i + 1, range)
    }
}

/// The whole scale-out plan: for each baseline, the indices from one
/// below the bound, in order.
pub open spec fn scale_out_actions(
    apps_root: Seq<char>,
    bs: Seq<AvailableBaselines>,
    range: int,
) -> Seq<ActionModel>
    decreases bs.len(),
{
    if bs.len() == 0 {
        Seq::empty()
    } else {
        scale_out_idx_actions(apps_root, bs[0], 1, range) + scale_out_actions(
            apps_root,
            bs.drop_first(),
            range,
        )
    }
}

/// The image-pull experiment's configuration for one combination. The
/// isolation baseline is fixed for this experiment.
pub open spec fn image_pull_config(
    w: ImagePullWorkloads,
    e: ImagePullEncryptionTypes,
    p: ImagePullBaselines,
    f: StartUpFlavours,
    tag: Seq<char>,
) -> ConfigModel {
    ConfigModel {
        baseline: AvailableBaselines::SnpSc2,
        kservice_name: workload_name_spec(w),
        image_name: workload_name_spec(w),
        image_tag: tag,
        flavour: f,
        workload: Some(w),
        encryption: Some(e),
        pull_type: Some(p),
        scale_idx: None,
    }
}

/// The image-pull experiment's plan for one combination.
pub open spec fn image_pull_plan_model(
    apps_root: Seq<char>,
    w: ImagePullWorkloads,
    e: ImagePullEncryptionTypes,
    p: ImagePullBaselines,
    f: StartUpFlavours,
    tag: Seq<char>,
) -> PlanModel {
    PlanModel {
        exp: AvailableExperiments::ImagePull,
        yaml_path: apps_root + "/functions/"@ + workload_name_spec(w) + "/service.yaml"@,
        config: image_pull_config(w, e, p, f, tag),
    }
}

/// The image-pull runs of one pull mechanism, one per flavour, in order.
pub open spec fn ip_flavour_actions(
    apps_root: Seq<char>,
    w: ImagePullWorkloads,
    e: ImagePullEncryptionTypes,
    p: ImagePullBaselines,
    fs: Seq<StartUpFlavours>,
    tag: Seq<char>,
) -> Seq<ActionModel>
    decreases fs.len(),
{
    if fs.len() == 0 {
        Seq::empty()
    } else {
        seq![ActionModel::RunService(image_pull_plan_model(apps_root, w, e, p, fs[0], tag))]
            + ip_flavour_actions(apps_root, w, e, p, fs.drop_first(), tag)
    }
}

/// The actions of one encryption mode's pull mechanisms, in order: each
/// switches the snapshotter mode, purges, and runs every flavour. The
/// image tag starts as the encryption mode's name and a lazy-pull suffix,
/// once appended, carries over to the mechanisms after it.
pub open spec fn ip_pull_actions(
    apps_root: Seq<char>,
    w: ImagePullWorkloads,
    e: ImagePullEncryptionTypes,
    ps: Seq<ImagePullBaselines>,
    fs: Seq<StartUpFlavours>,
    tag: Seq<char>,
) -> Seq<ActionModel>
    decreases ps.len(),
{
    if ps.len() == 0 {
        Seq::empty()
    } else {
        let tag1 = if ps[0] == ImagePullBaselines::GuestLazy {
            tag + "-nydus"@
        } else {
            tag
        };
        seq![
            ActionModel::SetSnapshotterMode(mode_name_spec(ps[0])),
            ActionModel::PurgeSnapshotters,
        ] + ip_flavour_actions(apps_root, w, e, ps[0], fs, tag1) + ip_pull_actions(
            apps_root,
            w,
            e,
            ps.drop_first(),
            fs,
            tag1,
        )
    }
}

/// The actions of one workload's encryption modes, in order.
pub open spec fn ip_enc_actions(
    apps_root: Seq<char>,
    w: ImagePullWorkloads,
    es: Seq<ImagePullEncryptionTypes>,
    ps: Seq<ImagePullBaselines>,
    fs: Seq<StartUpFlavours>,
) -> Seq<ActionModel>
    decreases es.len(),
{
    if es.len() == 0 {
        Seq::empty()
    } else {
        ip_pull_actions(apps_root, w, es[0], ps, fs, encryption_name_spec(es[0]))
            + ip_enc_actions(apps_root, w, es.drop_first(), ps, fs)
    }
}

/// The whole image-pull plan: for each workload, each encryption mode,
/// each pull mechanism, each flavour, in order.
pub open spec fn ip_workload_actions(
    apps_root: Seq<char>,
    ws: Seq<ImagePullWorkloads>,
    es: Seq<ImagePullEncryptionTypes>,
    ps: Seq<ImagePullBaselines>,
    fs: Seq<StartUpFlavours>,
) -> Seq<ActionModel>
    decreases ws.len(),
{
    if ws.len() == 0 {
        Seq::empty()
    } else {
        ip_enc_actions(apps_root, ws[0], es, ps, fs) + ip_workload_actions(
            apps_root,
            ws.drop_first(),
            es,
            ps,
            fs,
        )
    }
}

impl Exp {
    /// The name of the data file one configuration's results go to.
    pub fn results_file_name(exp: &AvailableExperiments, config: &ServiceConfig) -> (r: String)
        requires
            *exp == AvailableExperiments::ImagePull ==> config.workload is Some
                && config.encryption is Some && config.pull_type is Some,
            *exp == AvailableExperiments::ScaleOut ==> config.scale_idx is Some,
        ensures
            r@ == results_file_name_spec(*exp, config@),
    {
        proof {
            reveal_strlit("_");
            reveal_strlit(".csv");
        }
        match exp {
            AvailableExperiments::ImagePull => {
                let w = match config.workload {
                    Some(w) => w,
                    None => ImagePullWorkloads::HelloWorld,
                };
                let e = match config.encryption {
                    Some(e) => e,
                    None => ImagePullEncryptionTypes::UnEncrypted,
                };
                let p = match config.pull_type {
                    Some(p) => p,
                    None => ImagePullBaselines::GuestPull,
                };
                let mut name = w.name().to_owned();
                name.append("_");
                name.append(e.name());
                name.append("_");
                name.append(p.name());
                name.append("_");
                name.append(config.flavour.name());
                name.append(".csv");
                name
            },
            AvailableExperiments::ScaleOut => {
                let idx = match config.scale_idx {
                    Some(i) => i,
                    None => 0,
                };
                let mut name = config.baseline.name().to_owned();
                name.append("_");
                let digits = u64_dec_string(idx as u64);
                name.append(digits.as_str());
                name.append(".csv");
                name
            },
            AvailableExperiments::StartUp => {
                let mut name = config.baseline.name().to_owned();
                name.append("_");
                name.append(config.flavour.name());
                name.append(".csv");
                name
            },
        }
    }

    /// The flavours to run: the chosen one, or cold then warm.
    fn flavours_vec(o: Option<StartUpFlavours>) -> (r: Vec<StartUpFlavours>)
        ensures
            r@ == flavours_chosen(o),
    {
        let mut v: Vec<StartUpFlavours> = Vec::new();
        match o {
            Some(f) => {
                v.push(f);
                assert(v@ =~= flavours_chosen(o));
            },
            None => {
                v.push(StartUpFlavours::Cold);
                v.push(StartUpFlavours::Warm);
                assert(v@ =~= flavours_chosen(o));
            },
        }
        v
    }

    /// One planned start-up deployment.
    fn start_up_plan(apps_root: &str, b: AvailableBaselines, f: StartUpFlavours) -> (p: ServicePlan)
        ensures
            p@ == start_up_plan_model(apps_root@, b, f),
    {
        let mut yaml = apps_root.to_owned();
        yaml.append("/functions/hello-world/service.yaml");
        let p = ServicePlan {
            exp: AvailableExperiments::StartUp,
            yaml_path: yaml,
            config: ServiceConfig {
                baseline: b,
                kservice_name: "hello-world".to_owned(),
                image_name: "hello-world".to_owned(),
                image_tag: "unencrypted".to_owned(),
                flavour: f,
                workload: None,
                encryption: None,
                pull_type: None,
                scale_idx: None,
            },
        };
        assert(p@ =~~= start_up_plan_model(apps_root@, b, f));
        p
    }

    /// Appends one baseline's start-up runs, one per flavour.
    fn push_start_up_flavours(
        out: &mut Vec<ExperimentAction>,
        apps_root: &str,
        b: AvailableBaselines,
        flavours: &Vec<StartUpFlavours>,
    )
        ensures
            actions_view(final(out)@) == actions_view(old(out)@) + start_up_flavour_actions(
                apps_root@,
                b,
                flavours@,
            ),
    {
        let ghost base = actions_view(old(out)@);
        proof {
            assert(flavours@.skip(0) =~= flavours@);
        }
        let n = flavours.len();
        let mut i: usize = 0;
        while i < n
            invariant
                n == flavours@.len(),
                i <= n,
                base + start_up_flavour_actions(apps_root@, b, flavours@) =~~= actions_view(out@)
                    + start_up_flavour_actions(apps_root@, b, flavours@.skip(i as int)),
            decreases n - i,
        {
            proof {
                assert(flavours@.skip(i as int)[0] == flavours@[i as int]);
                assert(flavours@.skip(i as int).drop_first() =~= flavours@.skip(i + 1));
            }
            let ghost prev = actions_view(out@);
            let plan = Self::start_up_plan(apps_root, b, flavours[i]);
            let ghost plan_view = plan@;
            out.push(ExperimentAction::RunService(plan));
            proof {
                assert(actions_view(out@) =~~= prev + seq![ActionModel::RunService(plan_view)]);
                assert(prev + (seq![ActionModel::RunService(plan_view)] + start_up_flavour_actions(
                    apps_root@,
                    b,
                    flavours@.skip(i + 1),
                )) =~~= (prev + seq![ActionModel::RunService(plan_view)])
                    + start_up_flavour_actions(apps_root@, b, flavours@.skip(i + 1)));
            }
            i += 1;
        }
        proof {
            assert(flavours@.skip(n as int) =~= Seq::<StartUpFlavours>::empty());
            assert(actions_view(out@) =~~= base + start_up_flavour_actions(
                apps_root@,
                b,
                flavours@,
            ));
        }
    }

    /// The whole start-up plan: for each requested baseline, a run per
    /// flavour — the requested one, or cold then warm.
    pub fn run_start_up(apps_root: &str, args: &StartUpRunArgs) -> (r: Vec<ExperimentAction>)
        ensures
            actions_view(r@) == start_up_actions(
                apps_root@,
                args.baseline@,
                flavours_chosen(args.flavour),
            ),
    {
        let flavours = Self::flavours_vec(args.flavour);
        let mut out: Vec<ExperimentAction> = Vec::new();
        let ghost bs = args.baseline@;
        let ghost fs = flavours@;
        proof {
            assert(bs.skip(0) =~= bs);
            assert(actions_view(out@) + start_up_actions(apps_root@, bs, fs) =~~= start_up_actions(
                apps_root@,
                bs,
                fs,
            ));
        }
        let n = args.baseline.len();
        let mut i: usize = 0;
        while i < n
            invariant
                n == args.baseline@.len(),
                bs == args.baseline@,
                fs == flavours@,
                i <= n,
                start_up_actions(apps_root@, bs, fs) =~~= actions_view(out@) + start_up_actions(
                    apps_root@,
                    bs.skip(i as int),
                    fs,
                ),
            decreases n - i,
        {
            proof {
                assert(bs.skip(i as int)[0] == bs[i as int]);
                assert(bs.skip(i as int).drop_first() =~= bs.skip(i + 1));
            }
            let ghost prev = actions_view(out@);
            Self::push_start_up_flavours(&mut out, apps_root, args.baseline[i], &flavours);
            proof {
                assert(prev + (start_up_flavour_actions(apps_root@, bs[i as int], fs)
                    + start_up_actions(apps_root@, bs.skip(i + 1), fs)) =~~= (prev
                    + start_up_flavour_actions(apps_root@, bs[i as int], fs)) + start_up_actions(
                    apps_root@,
                    bs.skip(i + 1),
                    fs,
                ));
            }
            i += 1;
        }
        proof {
            assert(bs.skip(n as int) =~= Seq::<AvailableBaselines>::empty());
            assert(actions_view(out@) =~~= start_up_actions(apps_root@, bs, fs));
        }
        out
    }

    /// One planned scale-out deployment.
    fn scale_out_plan(apps_root: &str, b: AvailableBaselines, idx: u32) -> (p: ServicePlan)
        ensures
            p@ == scale_out_plan_model(apps_root@, b, idx as int),
    {
        let mut yaml = apps_root.to_owned();
        yaml.append("/functions/hello-world-scale-out/service.yaml");
        let p = ServicePlan {
            exp: AvailableExperiments::ScaleOut,
            yaml_path: yaml,
            config: ServiceConfig {
                baseline: b,
                kservice_name: "hello-world".to_owned(),
                image_name: "hello-world".to_owned(),
                image_tag: "unencrypted".to_owned(),
                flavour: StartUpFlavours::Cold,
                workload: None,
                encryption: None,
                pull_type: None,
                scale_idx: Some(idx),
            },
        };
        assert(p@ =~~= scale_out_plan_model(apps_root@, b, idx as int));
        p
    }

    /// Appends one baseline's scale-out runs, for indices from one below
    /// the bound.
    fn push_scale_out_indices(
        out: &mut Vec<ExperimentAction>,
        apps_root: &str,
        b: AvailableBaselines,
        range: u32,
    )
        ensures
            actions_view(final(out)@) == actions_view(old(out)@) + scale_out_idx_actions(
                apps_root@,
                b,
                1,
                range as int,
            ),
    {
        let ghost base = actions_view(old(out)@);
        let mut i: u32 = 1;
        if range < 1 {
            assert(actions_view(out@) =~~= base + scale_out_idx_actions(
                apps_root@,
                b,
                1,
                range as int,
            ));
            return ;
        }
        while i < range
            invariant
                1 <= i <= range,
                base + scale_out_idx_actions(apps_root@, b, 1, range as int) =~~= actions_view(
                    out@,
                ) + scale_out_idx_actions(apps_root@, b, i as int, range as int),
            decreases range - i,
        {
            let ghost prev = actions_view(out@);
            let plan = Self::scale_out_plan(apps_root, b, i);
            let ghost plan_view = plan@;
            out.push(ExperimentAction::RunService(plan));
            proof {
                assert(actions_view(out@) =~~= prev + seq![ActionModel::RunService(plan_view)]);
                assert(prev + (seq![ActionModel::RunService(plan_view)] + scale_out_idx_actions(
                    apps_root@,
                    b,
                    i + 1,
                    range as int,
                )) =~~= (prev + seq![ActionModel::RunService(plan_view)]) + scale_out_idx_actions(
                    apps_root@,
                    b,
                    i + 1,
                    range as int,
                ));
            }
            i += 1;
        }
        proof {
            assert(actions_view(out@) =~~= base + scale_out_idx_actions(
                apps_root@,
                b,
                1,
                range as int,
            ));
        }
    }

    /// The whole scale-out plan: for each requested baseline, one cold
    /// run per scale index from one below the requested bound.
    pub fn run_scale_out(apps_root: &str, args: &ScaleOutRunArgs) -> (r: Vec<ExperimentAction>)
        ensures
            actions_view(r@) == scale_out_actions(
                apps_root@,
                args.baseline@,
                args.scale_up_range as int,
            ),
    {
        let mut out: Vec<ExperimentAction> = Vec::new();
        let ghost bs = args.baseline@;
        let ghost range = args.scale_up_range as int;
        proof {
            assert(bs.skip(0) =~= bs);
            assert(actions_view(out@) + scale_out_actions(apps_root@, bs, range)
                =~~= scale_out_actions(apps_root@, bs, range));
        }
        let n = args.baseline.len();
        let mut i: usize = 0;
        while i < n
            invariant
                n == args.baseline@.len(),
                bs == args.baseline@,
                range == args.scale_up_range as int,
                i <= n,
                scale_out_actions(apps_root@, bs, range) =~~= actions_view(out@)
                    + scale_out_actions(apps_root@, bs.skip(i as int), range),
            decreases n - i,
        {
            proof {
                assert(bs.skip(i as int)[0] == bs[i as int]);
                assert(bs.skip(i as int).drop_first() =~= bs.skip(i + 1));
            }
            let ghost prev = actions_view(out@);
            Self::push_scale_out_indices(&mut out, apps_root, args.baseline[i], args.scale_up_range);
            proof {
                assert(prev + (scale_out_idx_actions(apps_root@, bs[i as int], 1, range)
                    + scale_out_actions(apps_root@, bs.skip(i + 1), range)) =~~= (prev
                    + scale_out_idx_actions(apps_root@, bs[i as int], 1, range))
                    + scale_out_actions(apps_root@, bs.skip(i + 1), range));
            }
            i += 1;
        }
        proof {
            assert(bs.skip(n as int) =~= Seq::<AvailableBaselines>::empty());
            assert(actions_view(out@) =~~= scale_out_actions(apps_root@, bs, range));
        }
        out
    }

    /// The workloads to run: the chosen one, or the default set.
    fn workloads_vec(o: Option<ImagePullWorkloads>) -> (r: Vec<ImagePullWorkloads>)
        ensures
            r@ == workloads_chosen(o),
    {
        let mut v: Vec<ImagePullWorkloads> = Vec::new();
        match o {
            Some(w) => {
                v.push(w);
                assert(v@ =~= workloads_chosen(o));
            },
            None => {
                v.push(ImagePullWorkloads::HelloWorld);
                v.push(ImagePullWorkloads::Fio);
                v.push(ImagePullWorkloads::TfInference);
                assert(v@ =~= workloads_chosen(o));
            },
        }
        v
    }

    /// The pull mechanisms to run: the chosen one, or the default set.
    fn pulls_vec(o: Option<ImagePullBaselines>) -> (r: Vec<ImagePullBaselines>)
        ensures
            r@ == pulls_chosen(o),
    {
        let mut v: Vec<ImagePullBaselines> = Vec::new();
        match o {
            Some(p) => {
                v.push(p);
                assert(v@ =~= pulls_chosen(o));
            },
            None => {
                v.push(ImagePullBaselines::GuestPull);
                v.push(ImagePullBaselines::GuestLazy);
                v.push(ImagePullBaselines::HostMount);
                assert(v@ =~= pulls_chosen(o));
            },
        }
        v
    }

    /// The encryption modes to run: the chosen one, or unencrypted only.
    fn encs_vec(o: Option<ImagePullEncryptionTypes>) -> (r: Vec<ImagePullEncryptionTypes>)
        ensures
            r@ == encs_chosen(o),
    {
        let mut v: Vec<ImagePullEncryptionTypes> = Vec::new();
        match o {
            Some(e) => {
                v.push(e);
                assert(v@ =~= encs_chosen(o));
            },
            None => {
                v.push(ImagePullEncryptionTypes::UnEncrypted);
                assert(v@ =~= encs_chosen(o));
            },
        }
        v
    }

    /// The snapshotter mode a pull mechanism needs.
    fn mode_name(p: ImagePullBaselines) -> (r: &'static str)
        ensures
            r@ == mode_name_spec(p),
    {
        match p {
            ImagePullBaselines::GuestPull => "guest-pull",
            ImagePullBaselines::GuestLazy => "guest-pull",
            ImagePullBaselines::HostMount => "host-share",
            ImagePullBaselines::Sc2 => "",
        }
    }

    /// One planned image-pull deployment.
    fn image_pull_plan(
        apps_root: &str,
        w: ImagePullWorkloads,
        e: ImagePullEncryptionTypes,
        p: ImagePullBaselines,
        f: StartUpFlavours,
        tag: &String,
    ) -> (r: ServicePlan)
        ensures
            r@ == image_pull_plan_model(apps_root@, w, e, p, f, tag@),
    {
        let mut yaml = apps_root.to_owned();
        yaml.append("/functions/");
        yaml.append(w.name());
        yaml.append("/service.yaml");
        let r = ServicePlan {
            exp: AvailableExperiments::ImagePull,
            yaml_path: yaml,
            config: ServiceConfig {
                baseline: AvailableBaselines::SnpSc2,
                kservice_name: w.name().to_owned(),
                image_name: w.name().to_owned(),
                image_tag: tag.clone(),
                flavour: f,
                workload: Some(w),
                encryption: Some(e),
                pull_type: Some(p),
                scale_idx: None,
            },
        };
        assert(r@ =~~= image_pull_plan_model(apps_root@, w, e, p, f, tag@));
        r
    }

    /// Appends one pull mechanism's runs, one per flavour.
    fn push_ip_flavours(
        out: &mut Vec<ExperimentAction>,
        apps_root: &str,
        w: ImagePullWorkloads,
        e: ImagePullEncryptionTypes,
        p: ImagePullBaselines,
        flavours: &Vec<StartUpFlavours>,
        tag: &String,
    )
        ensures
            actions_view(final(out)@) == actions_view(old(out)@) + ip_flavour_actions(
                apps_root@,
                w,
                e,
                p,
                flavours@,
                tag@,
            ),
    {
        let ghost base = actions_view(old(out)@);
        proof {
            assert(flavours@.skip(0) =~= flavours@);
        }
        let n = flavours.len();
        let mut i: usize = 0;
        while i < n
            invariant
                n == flavours@.len(),
                i <= n,
                base + ip_flavour_actions(apps_root@, w, e, p, flavours@, tag@) =~~= actions_view(
                    out@,
                ) + ip_flavour_actions(apps_root@, w, e, p, flavours@.skip(i as int), tag@),
            decreases n - i,
        {
            proof {
                assert(flavours@.skip(i as int)[0] == flavours@[i as int]);
                assert(flavours@.skip(i as int).drop_first() =~= flavours@.skip(i + 1));
            }
            let ghost prev = actions_view(out@);
            let plan = Self::image_pull_plan(apps_root, w, e, p, flavours[i], tag);
            let ghost plan_view = plan@;
            out.push(ExperimentAction::RunService(plan));
            proof {
                assert(actions_view(out@) =~~= prev + seq![ActionModel::RunService(plan_view)]);
                assert(prev + (seq![ActionModel::RunService(plan_view)] + ip_flavour_actions(
                    apps_root@,
                    w,
                    e,
                    p,
                    flavours@.skip(i + 1),
                    tag@,
                )) =~~= (prev + seq![ActionModel::RunService(plan_view)]) + ip_flavour_actions(
                    apps_root@,
                    w,
                    e,
                    p,
                    flavours@.skip(i + 1),
                    tag@,
                ));
            }
            i += 1;
        }
        proof {
            assert(flavours@.skip(n as int) =~= Seq::<StartUpFlavours>::empty());
            assert(actions_view(out@) =~~= base + ip_flavour_actions(
                apps_root@,
                w,
                e,
                p,
                flavours@,
                tag@,
            ));
        }
    }

    /// Appends the pull mechanisms of one encryption mode, threading the
    /// image tag through them.
    fn push_ip_pulls(
        out: &mut Vec<ExperimentAction>,
        apps_root: &str,
        w: ImagePullWorkloads,
        e: ImagePullEncryptionTypes,
        pulls: &[ImagePullBaselines],
        flavours: &Vec<StartUpFlavours>,
        tag: String,
    )
        ensures
            actions_view(final(out)@) == actions_view(old(out)@) + ip_pull_actions(
                apps_root@,
                w,
                e,
                pulls@,
                flavours@,
                tag@,
            ),
        decreases pulls@.len(),
    {
        if pulls.len() == 0 {
            assert(actions_view(out@) =~~= actions_view(old(out)@) + ip_pull_actions(
                apps_root@,
                w,
                e,
                pulls@,
                flavours@,
                tag@,
            ));
            return ;
        }
        let p = pulls[0];
        let tag1 = if p == ImagePullBaselines::GuestLazy {
            let mut t = tag;
            t.append("-nydus");
            t
        } else {
            tag
        };
        let ghost base = actions_view(out@);
        out.push(ExperimentAction::SetSnapshotterMode(Self::mode_name(p).to_owned()));
        out.push(ExperimentAction::PurgeSnapshotters);
        proof {
            assert(actions_view(out@) =~~= base + seq![
                ActionModel::SetSnapshotterMode(mode_name_spec(p)),
                ActionModel::PurgeSnapshotters,
            ]);
        }
        let ghost mid1 = actions_view(out@);
        Self::push_ip_flavours(out, apps_root, w, e, p, flavours, &tag1);
        let ghost mid2 = actions_view(out@);
        let rest = vstd::slice::slice_subrange(pulls, 1, pulls.len());
        proof {
            assert(rest@ =~= pulls@.drop_first());
        }
        Self::push_ip_pulls(out, apps_root, w, e, rest, flavours, tag1);
        proof {
            assert(actions_view(out@) =~~= base + ip_pull_actions(
                apps_root@,
                w,
                e,
                pulls@,
                flavours@,
                tag@,
            ));
        }
    }

    /// The whole image-pull plan. The one pull mechanism without a
    /// snapshotter mode cannot be asked for.
    pub fn run_image_pull(apps_root: &str, args: &ImagePullRunArgs) -> (r: Vec<ExperimentAction>)
        requires
            !(args.pull_type == Some(ImagePullBaselines::Sc2)),
        ensures
            actions_view(r@) == ip_workload_actions(
                apps_root@,
                workloads_chosen(args.workload),
                encs_chosen(args.encryption),
                pulls_chosen(args.pull_type),
                flavours_chosen(args.flavour),
            ),
    {
        let flavours = Self::flavours_vec(args.flavour);
        let workloads = Self::workloads_vec(args.workload);
        let pulls = Self::pulls_vec(args.pull_type);
        let encs = Self::encs_vec(args.encryption);
        let ghost ws = workloads@;
        let ghost es = encs@;
        let ghost ps = pulls@;
        let ghost fs = flavours@;
        let mut out: Vec<ExperimentAction> = Vec::new();
        proof {
            assert(ws.skip(0) =~= ws);
            assert(actions_view(out@) + ip_workload_actions(apps_root@, ws, es, ps, fs)
                =~~= ip_workload_actions(apps_root@, ws, es, ps, fs));
        }
        let nw = workloads.len();
        let mut wi: usize = 0;
        while wi < nw
            invariant
                nw == workloads@.len(),
                ws == workloads@,
                es == encs@,
                ps == pulls@,
                fs == flavours@,
                wi <= nw,
                ip_workload_actions(apps_root@, ws, es, ps, fs) =~~= actions_view(out@)
                    + ip_workload_actions(apps_root@, ws.skip(wi as int), es, ps, fs),
            decreases nw - wi,
        {
            proof {
                assert(ws.skip(wi as int)[0] == ws[wi as int]);
                assert(ws.skip(wi as int).drop_first() =~= ws.skip(wi + 1));
                assert(es.skip(0) =~= es);
            }
            let w = workloads[wi];
            let ghost w_base = actions_view(out@);
            // Inner loop over the encryption modes of this workload.
            let ne = encs.len();
            let mut ei: usize = 0;
            while ei < ne
                invariant
                    ne == encs@.len(),
                    ws == workloads@,
                    es == encs@,
                    ps == pulls@,
                    fs == flavours@,
                    w == ws[wi as int],
                    wi < nw,
                    nw == workloads@.len(),
                    ei <= ne,
                    w_base + ip_enc_actions(apps_root@, w, es, ps, fs) =~~= actions_view(out@)
                        + ip_enc_actions(apps_root@, w, es.skip(ei as int), ps, fs),
                decreases ne - ei,
            {
                proof {
                    assert(es.skip(ei as int)[0] == es[ei as int]);
                    assert(es.skip(ei as int).drop_first() =~= es.skip(ei + 1));
                }
                let e = encs[ei];
                let ghost prev = actions_view(out@);
                let tag = e.name().to_owned();
                Self::push_ip_pulls(&mut out, apps_root, w, e, pulls.as_slice(), &flavours, tag);
                proof {
                    assert(prev + (ip_pull_actions(
                        apps_root@,
                        w,
                        es[ei as int],
                        ps,
                        fs,
                        encryption_name_spec(es[ei as int]),
                    ) + ip_enc_actions(apps_root@, w, es.skip(ei + 1), ps, fs)) =~~= (prev
                        + ip_pull_actions(
                        apps_root@,
                        w,
                        es[ei as int],
                        ps,
                        fs,
                        encryption_name_spec(es[ei as int]),
                    )) + ip_enc_actions(apps_root@, w, es.skip(ei + 1), ps, fs));
                }
                ei += 1;
            }
            proof {
                assert(es.skip(ne as int) =~= Seq::<ImagePullEncryptionTypes>::empty());
                assert(actions_view(out@) =~~= w_base + ip_enc_actions(apps_root@, w, es, ps, fs));
                assert(w_base + (ip_enc_actions(apps_root@, w, es, ps, fs) + ip_workload_actions(
                    apps_root@,
                    ws.skip(wi + 1),
                    es,
                    ps,
                    fs,
                )) =~~= (w_base + ip_enc_actions(apps_root@, w, es, ps, fs)) + ip_workload_actions(
                    apps_root@,
                    ws.skip(wi + 1),
                    es,
                    ps,
                    fs,
                ));
            }
            wi += 1;
        }
        proof {
            assert(ws.skip(nw as int) =~= Seq::<ImagePullWorkloads>::empty());
            assert(actions_view(out@) =~~= ip_workload_actions(apps_root@, ws, es, ps, fs));
        }
        out
    }
}

} // verus!

//! The form-session planner: a verified state machine that drives one
//! station's record through the remote inspection form.
//!
//! The machine owns every decision of the flow — the strict order of
//! the panel interactions, the fill-only-if-blank policy for the
//! technical fields, the three differential-result rounds, the
//! per-image upload loop, and the inspection-date write — and leaves
//! only the raw browser round trips to an unverified executor. The
//! executor repeatedly asks for the current [`Action`], performs it,
//! and feeds the outcome back through [`StationFlow::advance`].
//!
//! The one piece of shared mutable state is the frame context (top
//! page versus modal iframe). The machine keeps its depth as explicit
//! bookkeeping and guarantees that every acknowledged frame entry has a
//! matching frame exit issued before the station's run ends, on success
//! and on failure alike.

use vstd::prelude::*;

use crate::actions::Action;
use crate::actions::ClickSpec;
use crate::actions::Event;
use crate::actions::Target;
use crate::actions::action_sends;
use crate::actions::action_sends_to;
use crate::actions::click_action;
use crate::actions::ANTENNA_DETAIL_OPTION;
use crate::actions::ANTENNA_TYPE_OPTION;
use crate::actions::AERIAL_OPTION;
use crate::actions::CABLE_TYPE_OPTION;
use crate::actions::DIFF_RESULT_OPTION;
use crate::actions::DIFF_ROUNDS;
use crate::actions::EQUIPMENT_NAME_OPTION;
use crate::actions::EQUIPMENT_TYPE_OPTION;
use crate::actions::IMAGE_TYPE_OPTION;
use crate::actions::OPINION_OPTION;
use crate::actions::PANEL_COUNT;
use crate::actions::SHORT_PAUSE_MS;
use crate::actions::SOURCE_DATA_OPTION;
use crate::actions::STATION_TYPE_OPTION;
use crate::actions::UPLOAD_PAUSE_MS;
use crate::text::is_blank;
use crate::text::trim_of;
use crate::text::blank_str;
use crate::text::trimmed;

verus! {

/// One image to attach: its filesystem path and the description that
/// the classifier assigned.
pub struct ImageUpload {
    pub path: String,
    pub description: String,
}

/// Everything the planner needs for one station: its site code, the
/// classified images in upload order, and the inspection date
/// extracted from the images, when one was found.
pub struct StationJob {
    pub station_id: String,
    pub images: Vec<ImageUpload>,
    pub inspection_date: Option<String>,
}

/// The dropdown placeholder label that marks the antenna type as not
/// yet chosen ("please select").
pub open spec fn placeholder_label() -> Seq<char> {
    "กรุณาเลือก"@
}

/// The fixed compliance remark written into the opinion panel.
pub open spec fn compliance_remark() -> Seq<char> {
    "ปฏิบัติตามหลักเกณฑ์"@
}

/// The default written into a blank power field.
pub open spec fn power_default() -> Seq<char> {
    "500"@
}

/// The default written into a blank gain field.
pub open spec fn gain_default() -> Seq<char> {
    "6"@
}

/// The default written into a blank antenna-height field.
pub open spec fn height_default() -> Seq<char> {
    "60"@
}

/// Where the per-station flow stands. Each non-terminal step emits
/// exactly one action; the indices count the expanded panel, the
/// differential round, or the image being uploaded.
#[derive(Clone, Copy, PartialEq, Eq, Structural, Debug)]
pub enum Step {
    NavTile,
    NavMenu,
    NavSubmenu,
    NavLink,
    NavAdd,
    SearchOpen,
    SearchEnterFrame,
    SearchSelType,
    SearchSendId,
    SearchSelSrc,
    SearchTrigger,
    SearchResult,
    SearchExitFrame,
    ExpandClick(u8),
    ExpandPause(u8),
    TechSelAnt,
    TechSelAerial,
    TechReadFreq,
    TechSendFreq,
    TechReadAntLabel,
    TechSelAntType,
    TechSelCable,
    TechReadPow,
    TechFillPow,
    TechReadGain,
    TechFillGain,
    TechReadHeight,
    TechFillHeight,
    DiffOpen(u8),
    DiffEnter(u8),
    DiffSelPara(u8),
    DiffSelRes(u8),
    DiffSave(u8),
    DiffPause(u8),
    DiffExit(u8),
    UpOpen(usize),
    UpPause1(usize),
    UpEnter(usize),
    UpFile(usize),
    UpSelType(usize),
    UpRemark(usize),
    UpSave(usize),
    UpPause2(usize),
    UpExit(usize),
    UpPause3(usize),
    OpinionSel,
    OpinionRemark,
    EquOpen,
    EquEnter,
    EquSelType,
    EquSelName,
    EquSave,
    EquPause,
    EquExit,
    DateClear,
    DateFill,
    FailExit,
    Done,
    Failed,
}

/// The station's run has ended, in success or failure.
pub open spec fn terminal(s: Step) -> bool {
    s == Step::Done || s == Step::Failed
}

/// The steps whose action is an exit from the modal frame.
pub open spec fn exit_step(s: Step) -> bool {
    match s {
        Step::SearchExitFrame => true,
        Step::DiffExit(_) => true,
        Step::UpExit(_) => true,
        Step::EquExit => true,
        Step::FailExit => true,
        _ => false,
    }
}

/// The frame depth the machine books for each step: frame entries that
/// were acknowledged successful and whose matching exit has not been
/// issued yet.
pub open spec fn depth_of(s: Step) -> nat {
    match s {
        Step::SearchSelType => 1,
        Step::SearchSendId => 1,
        Step::SearchSelSrc => 1,
        Step::SearchTrigger => 1,
        Step::SearchResult => 1,
        Step::SearchExitFrame => 1,
        Step::DiffSelPara(_) => 1,
        Step::DiffSelRes(_) => 1,
        Step::DiffSave(_) => 1,
        Step::DiffPause(_) => 1,
        Step::DiffExit(_) => 1,
        Step::UpFile(_) => 1,
        Step::UpSelType(_) => 1,
        Step::UpRemark(_) => 1,
        Step::UpSave(_) => 1,
        Step::UpPause2(_) => 1,
        Step::UpExit(_) => 1,
        Step::EquSelType => 1,
        Step::EquSelName => 1,
        Step::EquSave => 1,
        Step::EquPause => 1,
        Step::EquExit => 1,
        Step::FailExit => 1,
        _ => 0,
    }
}

/// The steps whose action reads a text (element text or the selected
/// option's label) and is answered with `Event::Text`.
pub open spec fn reads_text(s: Step) -> bool {
    s == Step::TechReadFreq || s == Step::TechReadAntLabel || reads_value(s)
}

/// The steps whose action reads a value attribute, answered with
/// `Event::Text` or `Event::NoValue`.
pub open spec fn reads_value(s: Step) -> bool {
    s == Step::TechReadPow || s == Step::TechReadGain || s == Step::TechReadHeight
}

/// Which outcomes the executor may report for the current step.
pub open spec fn event_fits(s: Step, ev: Event) -> bool {
    match ev {
        Event::Failed => true,
        Event::Completed => !reads_text(s),
        Event::Text(_) => reads_text(s),
        Event::NoValue => reads_value(s),
    }
}

/// Where a failure report sends the machine: if the failed action was
/// the frame exit itself the run just ends; otherwise a pending frame
/// entry is paid off through `FailExit` before the run ends.
pub open spec fn fail_target(s: Step) -> Step {
    if exit_step(s) {
        Step::Failed
    } else if depth_of(s) == 1 {
        Step::FailExit
    } else {
        Step::Failed
    }
}

/// The transition function of the planner: from the current step, the
/// number of images, whether an inspection date is on hand, and the
/// executor's report, to the next step.
pub open spec fn next_step_spec(s: Step, n: nat, has_date: bool, ev: Event) -> Step {
    if ev == Event::Failed {
        fail_target(s)
    } else {
        match s {
            Step::NavTile => Step::NavMenu,
            Step::NavMenu => Step::NavSubmenu,
            Step::NavSubmenu => Step::NavLink,
            Step::NavLink => Step::NavAdd,
            Step::NavAdd => Step::SearchOpen,
            Step::SearchOpen => Step::SearchEnterFrame,
            Step::SearchEnterFrame => Step::SearchSelType,
            Step::SearchSelType => Step::SearchSendId,
            Step::SearchSendId => Step::SearchSelSrc,
            Step::SearchSelSrc => Step::SearchTrigger,
            Step::SearchTrigger => Step::SearchResult,
            Step::SearchResult => Step::SearchExitFrame,
            Step::SearchExitFrame => Step::ExpandClick(1),
            Step::ExpandClick(i) => Step::ExpandPause(i),
            Step::ExpandPause(i) => if i < PANEL_COUNT {
                Step::ExpandClick((i + 1) as u8)
            } else {
                Step::TechSelAnt
            },
            Step::TechSelAnt => Step::TechSelAerial,
            Step::TechSelAerial => Step::TechReadFreq,
            Step::TechReadFreq => match ev {
                Event::Text(_) => Step::TechSendFreq,
                _ => s,
            },
            Step::TechSendFreq => Step::TechReadAntLabel,
            Step::TechReadAntLabel => match ev {
                Event::Text(v) => if v@ == placeholder_label() {
                    Step::TechSelAntType
                } else {
                    Step::TechSelCable
                },
                _ => s,
            },
            Step::TechSelAntType => Step::TechSelCable,
            Step::TechSelCable => Step::TechReadPow,
            Step::TechReadPow => match ev {
                Event::Text(v) => if is_blank(v@) {
                    Step::TechFillPow
                } else {
                    Step::TechReadGain
                },
                Event::NoValue => Step::TechReadGain,
                _ => s,
            },
            Step::TechFillPow => Step::TechReadGain,
            Step::TechReadGain => match ev {
                Event::Text(v) => if is_blank(v@) {
                    Step::TechFillGain
                } else {
                    Step::TechReadHeight
                },
                Event::NoValue => Step::TechReadHeight,
                _ => s,
            },
            Step::TechFillGain => Step::TechReadHeight,
            Step::TechReadHeight => match ev {
                Event::Text(v) => if is_blank(v@) {
                    Step::TechFillHeight
                } else {
                    Step::DiffOpen(1)
                },
                Event::NoValue => Step::DiffOpen(1),
                _ => s,
            },
            Step::TechFillHeight => Step::DiffOpen(1),
            Step::DiffOpen(i) => Step::DiffEnter(i),
            Step::DiffEnter(i) => Step::DiffSelPara(i),
            Step::DiffSelPara(i) => Step::DiffSelRes(i),
            Step::DiffSelRes(i) => Step::DiffSave(i),
            Step::DiffSave(i) => Step::DiffPause(i),
            Step::DiffPause(i) => Step::DiffExit(i),
            Step::DiffExit(i) => if i < DIFF_ROUNDS {
                Step::DiffOpen((i + 1) as u8)
            } else if n > 0 {
                Step::UpOpen(0)
            } else {
                Step::OpinionSel
            },
            Step::UpOpen(k) => Step::UpPause1(k),
            Step::UpPause1(k) => Step::UpEnter(k),
            Step::UpEnter(k) => Step::UpFile(k),
            Step::UpFile(k) => Step::UpSelType(k),
            Step::UpSelType(k) => Step::UpRemark(k),
            Step::UpRemark(k) => Step::UpSave(k),
            Step::UpSave(k) => Step::UpPause2(k),
            Step::UpPause2(k) => Step::UpExit(k),
            Step::UpExit(k) => Step::UpPause3(k),
            Step::UpPause3(k) => if k + 1 < n {
                Step::UpOpen((k + 1) as usize)
            } else {
                Step::OpinionSel
            },
            Step::OpinionSel => Step::OpinionRemark,
            Step::OpinionRemark => Step::EquOpen,
            Step::EquOpen => Step::EquEnter,
            Step::EquEnter => Step::EquSelType,
            Step::EquSelType => Step::EquSelName,
            Step::EquSelName => Step::EquSave,
            Step::EquSave => Step::EquPause,
            Step::EquPause => Step::EquExit,
            Step::EquExit => if has_date {
                Step::DateClear
            } else {
                Step::Done
            },
            Step::DateClear => Step::DateFill,
            Step::DateFill => Step::Done,
            Step::FailExit => Step::Failed,
            Step::Done => Step::Done,
            Step::Failed => Step::Failed,
        }
    }
}

/// The loop indices a step may carry, given the number of images.
pub open spec fn step_in_bounds(s: Step, n: nat) -> bool {
    match s {
        Step::ExpandClick(i) => 1 <= i <= PANEL_COUNT,
        Step::ExpandPause(i) => 1 <= i <= PANEL_COUNT,
        Step::DiffOpen(i) => 1 <= i <= DIFF_ROUNDS,
        Step::DiffEnter(i) => 1 <= i <= DIFF_ROUNDS,
        Step::DiffSelPara(i) => 1 <= i <= DIFF_ROUNDS,
        Step::DiffSelRes(i) => 1 <= i <= DIFF_ROUNDS,
        Step::DiffSave(i) => 1 <= i <= DIFF_ROUNDS,
        Step::DiffPause(i) => 1 <= i <= DIFF_ROUNDS,
        Step::DiffExit(i) => 1 <= i <= DIFF_ROUNDS,
        Step::UpOpen(k) => k < n,
        Step::UpPause1(k) => k < n,
        Step::UpEnter(k) => k < n,
        Step::UpFile(k) => k < n,
        Step::UpSelType(k) => k < n,
        Step::UpRemark(k) => k < n,
        Step::UpSave(k) => k < n,
        Step::UpPause2(k) => k < n,
        Step::UpExit(k) => k < n,
        Step::UpPause3(k) => k < n,
        _ => true,
    }
}

/// The planner for one station's run.
pub struct StationFlow {
    /// Where the run stands.
    pub step: Step,
    /// Booked frame depth: acknowledged entries minus issued exits.
    pub depth: u8,
    /// The station being recorded.
    pub job: StationJob,
    /// The frequency text read from the form, trimmed, held between
    /// the read and the write-back.
    pub freq: Option<String>,
}

impl StationFlow {
    /// The machine's invariant: the booked depth matches the step, the
    /// loop indices are in range, the carried frequency text exists
    /// exactly while it is about to be written, and the date steps are
    /// reached only with a date on hand.
    pub open spec fn wf(self) -> bool {
        &&& self.depth == depth_of(self.step)
        &&& step_in_bounds(self.step, self.job.images@.len())
        &&& (self.freq is Some <==> self.step == Step::TechSendFreq)
        &&& ((self.step == Step::DateClear || self.step == Step::DateFill)
            ==> self.job.inspection_date is Some)
    }

    /// Starts a fresh run for one station, at the top of the module
    /// navigation, outside any frame.
    pub fn new(job: StationJob) -> (flow: StationFlow)
        ensures
            flow.wf(),
            flow.step == Step::NavTile,
            flow.depth == 0,
            flow.job == job,
    {
        StationFlow { step: Step::NavTile, depth: 0, job, freq: None }
    }

    /// The run has ended, in success or failure.
    pub fn is_finished(&self) -> (b: bool)
        ensures
            b == terminal(self.step),
    {
        match self.step {
            Step::Done => true,
            Step::Failed => true,
            _ => false,
        }
    }

    /// The run ended in failure.
    pub fn is_failed(&self) -> (b: bool)
        ensures
            b == (self.step == Step::Failed),
    {
        match self.step {
            Step::Failed => true,
            _ => false,
        }
    }

    fn goto(&mut self, s: Step)
        ensures
            final(self).step == s,
            final(self).depth == depth_of(s),
            final(self).job == old(self).job,
            final(self).freq == old(self).freq,
    {
        self.depth = depth_exec(s);
        self.step = s;
    }

    /// Feeds the outcome of the current step's action back into the
    /// planner and moves it to the next step.
    pub fn advance(&mut self, ev: Event)
        requires
            old(self).wf(),
            !terminal(old(self).step),
            event_fits(old(self).step, ev),
        ensures
            final(self).wf(),
            final(self).job == old(self).job,
            final(self).step == next_step_spec(
                old(self).step,
                old(self).job.images@.len(),
                old(self).job.inspection_date is Some,
                ev,
            ),
            old(self).step == Step::TechReadFreq ==> (ev matches Event::Text(v)
                ==> (final(self).freq matches Some(f) && f@ == trim_of(v@))),
    {
        match ev {
            Event::Failed => {
                self.freq = None;
                if exit_exec(self.step) {
                    self.goto(Step::Failed);
                } else if self.depth == 1 {
                    self.goto(Step::FailExit);
                } else {
                    self.goto(Step::Failed);
                }
            },
            Event::Text(v) => {
                match self.step {
                    Step::TechReadFreq => {
                        let f = trimmed(v.as_str());
                        self.freq = Some(f);
                        self.goto(Step::TechSendFreq);
                    },
                    Step::TechReadAntLabel => {
                        let ph = String::from_str("กรุณาเลือก");
                        if v == ph {
                            self.goto(Step::TechSelAntType);
                        } else {
                            self.goto(Step::TechSelCable);
                        }
                    },
                    Step::TechReadPow => {
                        if blank_str(v.as_str()) {
                            self.goto(Step::TechFillPow);
                        } else {
                            self.goto(Step::TechReadGain);
                        }
                    },
                    Step::TechReadGain => {
                        if blank_str(v.as_str()) {
                            self.goto(Step::TechFillGain);
                        } else {
                            self.goto(Step::TechReadHeight);
                        }
                    },
                    Step::TechReadHeight => {
                        if blank_str(v.as_str()) {
                            self.goto(Step::TechFillHeight);
                        } else {
                            self.goto(Step::DiffOpen(1));
                        }
                    },
                    _ => {
                        proof {
                            assert(false);
                        }
                    },
                }
            },
            Event::NoValue => {
                match self.step {
                    Step::TechReadPow => self.goto(Step::TechReadGain),
                    Step::TechReadGain => self.goto(Step::TechReadHeight),
                    Step::TechReadHeight => self.goto(Step::DiffOpen(1)),
                    _ => {
                        proof {
                            assert(false);
                        }
                    },
                }
            },
            Event::Completed => {
                let n = self.job.images.len();
                match self.step {
                    Step::NavTile => self.goto(Step::NavMenu),
                    Step::NavMenu => self.goto(Step::NavSubmenu),
                    Step::NavSubmenu => self.goto(Step::NavLink),
                    Step::NavLink => self.goto(Step::NavAdd),
                    Step::NavAdd => self.goto(Step::SearchOpen),
                    Step::SearchOpen => self.goto(Step::SearchEnterFrame),
                    Step::SearchEnterFrame => self.goto(Step::SearchSelType),
                    Step::SearchSelType => self.goto(Step::SearchSendId),
                    Step::SearchSendId => self.goto(Step::SearchSelSrc),
                    Step::SearchSelSrc => self.goto(Step::SearchTrigger),
                    Step::SearchTrigger => self.goto(Step::SearchResult),
                    Step::SearchResult => self.goto(Step::SearchExitFrame),
                    Step::SearchExitFrame => self.goto(Step::ExpandClick(1)),
                    Step::ExpandClick(i) => self.goto(Step::ExpandPause(i)),
                    Step::ExpandPause(i) => {
                        if i < PANEL_COUNT {
                            self.goto(Step::ExpandClick(i + 1));
                        } else {
                            self.goto(Step::TechSelAnt);
                        }
                    },
                    Step::TechSelAnt => self.goto(Step::TechSelAerial),
                    Step::TechSelAerial => self.goto(Step::TechReadFreq),
                    Step::TechSendFreq => {
                        self.freq = None;
                        self.goto(Step::TechReadAntLabel);
                    },
                    Step::TechSelAntType => self.goto(Step::TechSelCable),
                    Step::TechSelCable => self.goto(Step::TechReadPow),
                    Step::TechFillPow => self.goto(Step::TechReadGain),
                    Step::TechFillGain => self.goto(Step::TechReadHeight),
                    Step::TechFillHeight => self.goto(Step::DiffOpen(1)),
                    Step::DiffOpen(i) => self.goto(Step::DiffEnter(i)),
                    Step::DiffEnter(i) => self.goto(Step::DiffSelPara(i)),
                    Step::DiffSelPara(i) => self.goto(Step::DiffSelRes(i)),
                    Step::DiffSelRes(i) => self.goto(Step::DiffSave(i)),
                    Step::DiffSave(i) => self.goto(Step::DiffPause(i)),
                    Step::DiffPause(i) => self.goto(Step::DiffExit(i)),
                    Step::DiffExit(i) => {
                        if i < DIFF_ROUNDS {
                            self.goto(Step::DiffOpen(i + 1));
                        } else if n > 0 {
                            self.goto(Step::UpOpen(0));
                        } else {
                            self.goto(Step::OpinionSel);
                        }
                    },
                    Step::UpOpen(k) => self.goto(Step::UpPause1(k)),
                    Step::UpPause1(k) => self.goto(Step::UpEnter(k)),
                    Step::UpEnter(k) => self.goto(Step::UpFile(k)),
                    Step::UpFile(k) => self.goto(Step::UpSelType(k)),
                    Step::UpSelType(k) => self.goto(Step::UpRemark(k)),
                    Step::UpRemark(k) => self.goto(Step::UpSave(k)),
                    Step::UpSave(k) => self.goto(Step::UpPause2(k)),
                    Step::UpPause2(k) => self.goto(Step::UpExit(k)),
                    Step::UpExit(k) => self.goto(Step::UpPause3(k)),
                    Step::UpPause3(k) => {
                        if k + 1 < n {
                            self.goto(Step::UpOpen(k + 1));
                        } else {
                            self.goto(Step::OpinionSel);
                        }
                    },
                    Step::OpinionSel => self.goto(Step::OpinionRemark),
                    Step::OpinionRemark => self.goto(Step::EquOpen),
                    Step::EquOpen => self.goto(Step::EquEnter),
                    Step::EquEnter => self.goto(Step::EquSelType),
                    Step::EquSelType => self.goto(Step::EquSelName),
                    Step::EquSelName => self.goto(Step::EquSave),
                    Step::EquSave => self.goto(Step::EquPause),
                    Step::EquPause => self.goto(Step::EquExit),
                    Step::EquExit => {
                        if self.job.inspection_date.is_some() {
                            self.goto(Step::DateClear);
                        } else {
                            self.goto(Step::Done);
                        }
                    },
                    Step::DateClear => self.goto(Step::DateFill),
                    Step::DateFill => self.goto(Step::Done),
                    Step::FailExit => self.goto(Step::Failed),
                    _ => {
                        proof {
                            assert(false);
                        }
                    },
                }
            },
        }
    }

    /// The one action the current step asks of the executor, or `None`
    /// once the run has ended.
    pub fn current_action(&self) -> (r: Option<Action>)
        requires
            self.wf(),
        ensures
            match r {
                Some(a) => !terminal(self.step) && action_for(*self, a),
                None => terminal(self.step),
            },
    {
        match self.step {
            Step::NavTile => Some(
                Action::Click(
                    ClickSpec {
                        target: Target::OperSectionTile,
                        scope: None,
                        scroll: false,
                        wait: true,
                    },
                ),
            ),
            Step::NavMenu => Some(
                Action::Click(
                    ClickSpec {
                        target: Target::FreqInspectionMenu,
                        scope: None,
                        scroll: false,
                        wait: true,
                    },
                ),
            ),
            Step::NavSubmenu => Some(
                Action::Click(
                    ClickSpec {
                        target: Target::EmissionStdSubmenu,
                        scope: Some(Target::FreqInspectionMenu),
                        scroll: false,
                        wait: true,
                    },
                ),
            ),
            Step::NavLink => Some(
                Action::Click(
                    ClickSpec {
                        target: Target::EmissionStdLink,
                        scope: None,
                        scroll: false,
                        wait: true,
                    },
                ),
            ),
            Step::NavAdd => Some(
                Action::Click(
                    ClickSpec {
                        target: Target::AddRecordIcon,
                        scope: None,
                        scroll: false,
                        wait: false,
                    },
                ),
            ),
            Step::SearchOpen => Some(
                Action::Click(
                    ClickSpec {
                        target: Target::SearchOpenButton,
                        scope: None,
                        scroll: false,
                        wait: false,
                    },
                ),
            ),
            Step::SearchEnterFrame => Some(Action::EnterModalFrame),
            Step::SearchSelType => Some(
                Action::SelectIndex(Target::StationTypeSelect, STATION_TYPE_OPTION),
            ),
            Step::SearchSendId => Some(
                Action::SendKeys(Target::SiteCodeInput, self.job.station_id.clone()),
            ),
            Step::SearchSelSrc => Some(
                Action::SelectIndex(Target::SourceDataSelect, SOURCE_DATA_OPTION),
            ),
            Step::SearchTrigger => Some(
                Action::Click(
                    ClickSpec {
                        target: Target::SearchIcon,
                        scope: None,
                        scroll: false,
                        wait: false,
                    },
                ),
            ),
            Step::SearchResult => Some(
                Action::Click(
                    ClickSpec {
                        target: Target::FirstResultLink,
                        scope: None,
                        scroll: false,
                        wait: true,
                    },
                ),
            ),
            Step::SearchExitFrame => Some(Action::ExitFrame),
            Step::ExpandClick(i) => Some(
                Action::Click(
                    ClickSpec {
                        target: Target::PanelHeader(i),
                        scope: None,
                        scroll: true,
                        wait: true,
                    },
                ),
            ),
            Step::ExpandPause(_) => Some(Action::Pause(SHORT_PAUSE_MS)),
            Step::TechSelAnt => Some(
                Action::SelectIndex(Target::AntennaDetailSelect, ANTENNA_DETAIL_OPTION),
            ),
            Step::TechSelAerial => Some(Action::SelectIndex(Target::AerialSelect, AERIAL_OPTION)),
            Step::TechReadFreq => Some(Action::ReadText(Target::FrequencyDisplay)),
            Step::TechSendFreq => {
                match &self.freq {
                    Some(f) => Some(Action::SendKeys(Target::FrequencyInput, f.clone())),
                    None => {
                        proof {
                            assert(false);
                        }
                        None
                    },
                }
            },
            Step::TechReadAntLabel => Some(Action::ReadSelectedLabel(Target::AntennaTypeSelect)),
            Step::TechSelAntType => Some(
                Action::SelectIndex(Target::AntennaTypeSelect, ANTENNA_TYPE_OPTION),
            ),
            Step::TechSelCable => Some(
                Action::SelectIndex(Target::CableTypeSelect, CABLE_TYPE_OPTION),
            ),
            Step::TechReadPow => Some(Action::ReadValueAttr(Target::PowerInput)),
            Step::TechFillPow => Some(
                Action::SendKeys(Target::PowerInput, String::from_str("500")),
            ),
            Step::TechReadGain => Some(Action::ReadValueAttr(Target::GainInput)),
            Step::TechFillGain => Some(Action::SendKeys(Target::GainInput, String::from_str("6"))),
            Step::TechReadHeight => Some(Action::ReadValueAttr(Target::HeightInput)),
            Step::TechFillHeight => Some(
                Action::SendKeys(Target::HeightInput, String::from_str("60")),
            ),
            Step::DiffOpen(_) => Some(
                Action::Click(
                    ClickSpec {
                        target: Target::EditFrequencyItemButton,
                        scope: None,
                        scroll: true,
                        wait: true,
                    },
                ),
            ),
            Step::DiffEnter(_) => Some(Action::EnterModalFrame),
            Step::DiffSelPara(i) => Some(Action::SelectIndex(Target::DiffParamSelect, i)),
            Step::DiffSelRes(_) => Some(
                Action::SelectIndex(Target::DiffResultSelect, DIFF_RESULT_OPTION),
            ),
            Step::DiffSave(_) => Some(
                Action::Click(
                    ClickSpec {
                        target: Target::SaveButton,
                        scope: None,
                        scroll: false,
                        wait: false,
                    },
                ),
            ),
            Step::DiffPause(_) => Some(Action::Pause(SHORT_PAUSE_MS)),
            Step::DiffExit(_) => Some(Action::ExitFrame),
            Step::UpOpen(_) => Some(
                Action::Click(
                    ClickSpec {
                        target: Target::AttachmentAddButton,
                        scope: Some(Target::AttachmentsPanel),
                        scroll: true,
                        wait: false,
                    },
                ),
            ),
            Step::UpPause1(_) => Some(Action::Pause(SHORT_PAUSE_MS)),
            Step::UpEnter(_) => Some(Action::EnterModalFrame),
            Step::UpFile(k) => Some(
                Action::SendKeys(Target::FileInput, self.job.images[k].path.clone()),
            ),
            Step::UpSelType(_) => Some(
                Action::SelectIndex(Target::ImageTypeSelect, IMAGE_TYPE_OPTION),
            ),
            Step::UpRemark(k) => Some(
                Action::SendKeys(Target::RemarkField, self.job.images[k].description.clone()),
            ),
            Step::UpSave(_) => Some(
                Action::Click(
                    ClickSpec {
                        target: Target::SaveButton,
                        scope: None,
                        scroll: false,
                        wait: false,
                    },
                ),
            ),
            Step::UpPause2(_) => Some(Action::Pause(UPLOAD_PAUSE_MS)),
            Step::UpExit(_) => Some(Action::ExitFrame),
            Step::UpPause3(_) => Some(Action::Pause(UPLOAD_PAUSE_MS)),
            Step::OpinionSel => Some(Action::SelectIndex(Target::OpinionSelect, OPINION_OPTION)),
            Step::OpinionRemark => Some(
                Action::SendKeys(Target::RemarkField, String::from_str("ปฏิบัติตามหลักเกณฑ์")),
            ),
            Step::EquOpen => Some(
                Action::Click(
                    ClickSpec {
                        target: Target::EquipmentAddButton,
                        scope: Some(Target::EquipmentPanel),
                        scroll: true,
                        wait: true,
                    },
                ),
            ),
            Step::EquEnter => Some(Action::EnterModalFrame),
            Step::EquSelType => Some(
                Action::SelectIndex(Target::EquipmentTypeSelect, EQUIPMENT_TYPE_OPTION),
            ),
            Step::EquSelName => Some(
                Action::SelectIndex(Target::EquipmentNameSelect, EQUIPMENT_NAME_OPTION),
            ),
            Step::EquSave => Some(
                Action::Click(
                    ClickSpec {
                        target: Target::SaveButton,
                        scope: None,
                        scroll: false,
                        wait: false,
                    },
                ),
            ),
            Step::EquPause => Some(Action::Pause(SHORT_PAUSE_MS)),
            Step::EquExit => Some(Action::ExitFrame),
            Step::DateClear => Some(Action::ClearField(Target::InspectionDateInput)),
            Step::DateFill => {
                match &self.job.inspection_date {
                    Some(d) => Some(Action::SendKeys(Target::InspectionDateInput, d.clone())),
                    None => {
                        proof {
                            assert(false);
                        }
                        None
                    },
                }
            },
            Step::FailExit => Some(Action::ExitFrame),
            Step::Done => None,
            Step::Failed => None,
        }
    }
}

fn depth_exec(s: Step) -> (d: u8)
    ensures
        d == depth_of(s),
{
    match s {
        Step::SearchSelType => 1,
        Step::SearchSendId => 1,
        Step::SearchSelSrc => 1,
        Step::SearchTrigger => 1,
        Step::SearchResult => 1,
        Step::SearchExitFrame => 1,
        Step::DiffSelPara(_) => 1,
        Step::DiffSelRes(_) => 1,
        Step::DiffSave(_) => 1,
        Step::DiffPause(_) => 1,
        Step::DiffExit(_) => 1,
        Step::UpFile(_) => 1,
        Step::UpSelType(_) => 1,
        Step::UpRemark(_) => 1,
        Step::UpSave(_) => 1,
        Step::UpPause2(_) => 1,
        Step::UpExit(_) => 1,
        Step::EquSelType => 1,
        Step::EquSelName => 1,
        Step::EquSave => 1,
        Step::EquPause => 1,
        Step::EquExit => 1,
        Step::FailExit => 1,
        _ => 0,
    }
}

fn exit_exec(s: Step) -> (b: bool)
    ensures
        b == exit_step(s),
{
    match s {
        Step::SearchExitFrame => true,
        Step::DiffExit(_) => true,
        Step::UpExit(_) => true,
        Step::EquExit => true,
        Step::FailExit => true,
        _ => false,
    }
}

/// The single action each step asks for. The planner's
/// `current_action` returns exactly an action satisfying this
/// predicate, which pins the interaction sequence of the whole run.
pub open spec fn action_for(flow: StationFlow, a: Action) -> bool {
    match flow.step {
        Step::NavTile => a == click_action(Target::OperSectionTile, None, false, true),
        Step::NavMenu => a == click_action(Target::FreqInspectionMenu, None, false, true),
        Step::NavSubmenu => a == click_action(
            Target::EmissionStdSubmenu,
            Some(Target::FreqInspectionMenu),
            false,
            true,
        ),
        Step::NavLink => a == click_action(Target::EmissionStdLink, None, false, true),
        Step::NavAdd => a == click_action(Target::AddRecordIcon, None, false, false),
        Step::SearchOpen => a == click_action(Target::SearchOpenButton, None, false, false),
        Step::SearchEnterFrame => a == Action::EnterModalFrame,
        Step::SearchSelType => a == Action::SelectIndex(
            Target::StationTypeSelect,
            STATION_TYPE_OPTION,
        ),
        Step::SearchSendId => action_sends(a, Target::SiteCodeInput, flow.job.station_id@),
        Step::SearchSelSrc => a == Action::SelectIndex(
            Target::SourceDataSelect,
            SOURCE_DATA_OPTION,
        ),
        Step::SearchTrigger => a == click_action(Target::SearchIcon, None, false, false),
        Step::SearchResult => a == click_action(Target::FirstResultLink, None, false, true),
        Step::SearchExitFrame => a == Action::ExitFrame,
        Step::ExpandClick(i) => a == click_action(Target::PanelHeader(i), None, true, true),
        Step::ExpandPause(_) => a == Action::Pause(SHORT_PAUSE_MS),
        Step::TechSelAnt => a == Action::SelectIndex(
            Target::AntennaDetailSelect,
            ANTENNA_DETAIL_OPTION,
        ),
        Step::TechSelAerial => a == Action::SelectIndex(Target::AerialSelect, AERIAL_OPTION),
        Step::TechReadFreq => a == Action::ReadText(Target::FrequencyDisplay),
        Step::TechSendFreq => flow.freq matches Some(f) && action_sends(
            a,
            Target::FrequencyInput,
            f@,
        ),
        Step::TechReadAntLabel => a == Action::ReadSelectedLabel(Target::AntennaTypeSelect),
        Step::TechSelAntType => a == Action::SelectIndex(
            Target::AntennaTypeSelect,
            ANTENNA_TYPE_OPTION,
        ),
        Step::TechSelCable => a == Action::SelectIndex(Target::CableTypeSelect, CABLE_TYPE_OPTION),
        Step::TechReadPow => a == Action::ReadValueAttr(Target::PowerInput),
        Step::TechFillPow => action_sends(a, Target::PowerInput, power_default()),
        Step::TechReadGain => a == Action::ReadValueAttr(Target::GainInput),
        Step::TechFillGain => action_sends(a, Target::GainInput, gain_default()),
        Step::TechReadHeight => a == Action::ReadValueAttr(Target::HeightInput),
        Step::TechFillHeight => action_sends(a, Target::HeightInput, height_default()),
        Step::DiffOpen(_) => a == click_action(Target::EditFrequencyItemButton, None, true, true),
        Step::DiffEnter(_) => a == Action::EnterModalFrame,
        Step::DiffSelPara(i) => a == Action::SelectIndex(Target::DiffParamSelect, i),
        Step::DiffSelRes(_) => a == Action::SelectIndex(
            Target::DiffResultSelect,
            DIFF_RESULT_OPTION,
        ),
        Step::DiffSave(_) => a == click_action(Target::SaveButton, None, false, false),
        Step::DiffPause(_) => a == Action::Pause(SHORT_PAUSE_MS),
        Step::DiffExit(_) => a == Action::ExitFrame,
        Step::UpOpen(_) => a == click_action(
            Target::AttachmentAddButton,
            Some(Target::AttachmentsPanel),
            true,
            false,
        ),
        Step::UpPause1(_) => a == Action::Pause(SHORT_PAUSE_MS),
        Step::UpEnter(_) => a == Action::EnterModalFrame,
        Step::UpFile(k) => action_sends(a, Target::FileInput, flow.job.images@[k as int].path@),
        Step::UpSelType(_) => a == Action::SelectIndex(Target::ImageTypeSelect, IMAGE_TYPE_OPTION),
        Step::UpRemark(k) => action_sends(
            a,
            Target::RemarkField,
            flow.job.images@[k as int].description@,
        ),
        Step::UpSave(_) => a == click_action(Target::SaveButton, None, false, false),
        Step::UpPause2(_) => a == Action::Pause(UPLOAD_PAUSE_MS),
        Step::UpExit(_) => a == Action::ExitFrame,
        Step::UpPause3(_) => a == Action::Pause(UPLOAD_PAUSE_MS),
        Step::OpinionSel => a == Action::SelectIndex(Target::OpinionSelect, OPINION_OPTION),
        Step::OpinionRemark => action_sends(a, Target::RemarkField, compliance_remark()),
        Step::EquOpen => a == click_action(
            Target::EquipmentAddButton,
            Some(Target::EquipmentPanel),
            true,
            true,
        ),
        Step::EquEnter => a == Action::EnterModalFrame,
        Step::EquSelType => a == Action::SelectIndex(
            Target::EquipmentTypeSelect,
            EQUIPMENT_TYPE_OPTION,
        ),
        Step::EquSelName => a == Action::SelectIndex(
            Target::EquipmentNameSelect,
            EQUIPMENT_NAME_OPTION,
        ),
        Step::EquSave => a == click_action(Target::SaveButton, None, false, false),
        Step::EquPause => a == Action::Pause(SHORT_PAUSE_MS),
        Step::EquExit => a == Action::ExitFrame,
        Step::DateClear => a == Action::ClearField(Target::InspectionDateInput),
        Step::DateFill => flow.job.inspection_date matches Some(d) && action_sends(
            a,
            Target::InspectionDateInput,
            d@,
        ),
        Step::FailExit => a == Action::ExitFrame,
        Step::Done => false,
        Step::Failed => false,
    }
}

/// Builds the login sequence: open the login page, type the two
/// credentials, submit. The credentials themselves come from the
/// caller's configuration.
pub fn login_script(username: String, password: String) -> (script: Vec<Action>)
    ensures
        script@.len() == 4,
        script@[0] == Action::Goto(crate::actions::PageRef::LoginPage),
        action_sends(script@[1], Target::LoginUserField, username@),
        action_sends(script@[2], Target::LoginPasswordField, password@),
        script@[3] == click_action(Target::LoginSubmitButton, None, false, false),
{
    let mut script: Vec<Action> = Vec::new();
    script.push(Action::Goto(crate::actions::PageRef::LoginPage));
    script.push(Action::SendKeys(Target::LoginUserField, username));
    script.push(Action::SendKeys(Target::LoginPasswordField, password));
    script.push(
        Action::Click(
            ClickSpec { target: Target::LoginSubmitButton, scope: None, scroll: false, wait: false },
        ),
    );
    script
}

/// An upper bound on the number of actions still to come from step
/// `s`, for a station with `n` images: every transition — success,
/// value read or failure — strictly decreases it, so a run can never
/// hang in the planner.
pub open spec fn step_rank(s: Step, n: nat) -> nat {
    let up_base: int = 12 + 10 * (n as int);
    let diff_base: int = up_base + 21;
    let tech_base: int = diff_base + 13;
    (match s {
        Step::Done => 0,
        Step::Failed => 0,
        Step::FailExit => 1,
        Step::DateFill => 2,
        Step::DateClear => 3,
        Step::EquExit => 4,
        Step::EquPause => 5,
        Step::EquSave => 6,
        Step::EquSelName => 7,
        Step::EquSelType => 8,
        Step::EquEnter => 9,
        Step::EquOpen => 10,
        Step::OpinionRemark => 11,
        Step::OpinionSel => 12,
        Step::UpPause3(k) => 13 + 10 * (n - 1 - k),
        Step::UpExit(k) => 14 + 10 * (n - 1 - k),
        Step::UpPause2(k) => 15 + 10 * (n - 1 - k),
        Step::UpSave(k) => 16 + 10 * (n - 1 - k),
        Step::UpRemark(k) => 17 + 10 * (n - 1 - k),
        Step::UpSelType(k) => 18 + 10 * (n - 1 - k),
        Step::UpFile(k) => 19 + 10 * (n - 1 - k),
        Step::UpEnter(k) => 20 + 10 * (n - 1 - k),
        Step::UpPause1(k) => 21 + 10 * (n - 1 - k),
        Step::UpOpen(k) => 22 + 10 * (n - 1 - k),
        Step::DiffExit(i) => up_base + 1 + 7 * (3 - i),
        Step::DiffPause(i) => up_base + 2 + 7 * (3 - i),
        Step::DiffSave(i) => up_base + 3 + 7 * (3 - i),
        Step::DiffSelRes(i) => up_base + 4 + 7 * (3 - i),
        Step::DiffSelPara(i) => up_base + 5 + 7 * (3 - i),
        Step::DiffEnter(i) => up_base + 6 + 7 * (3 - i),
        Step::DiffOpen(i) => up_base + 7 + 7 * (3 - i),
        Step::TechFillHeight => diff_base + 1,
        Step::TechReadHeight => diff_base + 2,
        Step::TechFillGain => diff_base + 3,
        Step::TechReadGain => diff_base + 4,
        Step::TechFillPow => diff_base + 5,
        Step::TechReadPow => diff_base + 6,
        Step::TechSelCable => diff_base + 7,
        Step::TechSelAntType => diff_base + 8,
        Step::TechReadAntLabel => diff_base + 9,
        Step::TechSendFreq => diff_base + 10,
        Step::TechReadFreq => diff_base + 11,
        Step::TechSelAerial => diff_base + 12,
        Step::TechSelAnt => diff_base + 13,
        Step::ExpandPause(i) => tech_base + 1 + 2 * (4 - i),
        Step::ExpandClick(i) => tech_base + 2 + 2 * (4 - i),
        Step::SearchExitFrame => tech_base + 9,
        Step::SearchResult => tech_base + 10,
        Step::SearchTrigger => tech_base + 11,
        Step::SearchSelSrc => tech_base + 12,
        Step::SearchSendId => tech_base + 13,
        Step::SearchSelType => tech_base + 14,
        Step::SearchEnterFrame => tech_base + 15,
        Step::SearchOpen => tech_base + 16,
        Step::NavAdd => tech_base + 17,
        Step::NavLink => tech_base + 18,
        Step::NavSubmenu => tech_base + 19,
        Step::NavMenu => tech_base + 20,
        Step::NavTile => tech_base + 21,
    }) as nat
}

/// Progress: whatever the executor reports, every step of the planner
/// strictly decreases the rank, so each station's run ends after at
/// most `step_rank(Step::NavTile, n)` actions.
#[verifier::rlimit(60)]
pub proof fn lemma_run_terminates(s: Step, n: nat, has_date: bool, ev: Event)
    requires
        !terminal(s),
        n <= usize::MAX,
        step_in_bounds(s, n),
        event_fits(s, ev),
    ensures
        step_rank(next_step_spec(s, n, has_date, ev), n) < step_rank(s, n),
{
}

/// The bound of a whole run: a fresh station flow emits at most
/// `10 * n + 67` actions for `n` images.
pub proof fn lemma_run_action_bound(n: nat)
    ensures
        step_rank(Step::NavTile, n) == 10 * n + 67,
{
}

/// The action's own kind tells the executor which reports fit the
/// step that asked for it: a value read admits text and no-value, the
/// two other reads admit text, every other action admits completion,
/// and failure always fits.
pub proof fn lemma_event_fits_by_action(flow: StationFlow, a: Action)
    requires
        flow.wf(),
        action_for(flow, a),
    ensures
        a matches Action::ReadValueAttr(_) ==> event_fits(flow.step, Event::NoValue),
        (a matches Action::ReadText(_) || a matches Action::ReadValueAttr(_)
            || a matches Action::ReadSelectedLabel(_)) ==> forall|s: String|
            #[trigger] event_fits(flow.step, Event::Text(s)),
        !(a matches Action::ReadText(_) || a matches Action::ReadValueAttr(_)
            || a matches Action::ReadSelectedLabel(_)) ==> event_fits(
            flow.step,
            Event::Completed,
        ),
        event_fits(flow.step, Event::Failed),
{
}

/// Frame-context balance: when a station's run has ended — in success
/// or in failure — the booked frame depth is back at zero: every
/// acknowledged frame entry had its exit issued.
pub proof fn lemma_frame_context_balanced(flow: StationFlow)
    requires
        flow.wf(),
        terminal(flow.step),
    ensures
        flow.depth == 0,
{
}

/// The booked depth follows the frame actions exactly: it rises by one
/// when an enter-frame action succeeds, falls by one when an exit is
/// issued (whatever its outcome), and is untouched by every other
/// action.
pub proof fn lemma_depth_tracks_frame_actions(flow: StationFlow, a: Action, ev: Event)
    requires
        flow.wf(),
        !terminal(flow.step),
        action_for(flow, a),
        event_fits(flow.step, ev),
    ensures
        ({
            let s2 = next_step_spec(
                flow.step,
                flow.job.images@.len(),
                flow.job.inspection_date is Some,
                ev,
            );
            depth_of(s2) as int - depth_of(flow.step) as int == (
            if a == Action::EnterModalFrame && ev != Event::Failed {
                1int
            } else if a == Action::ExitFrame {
                -1int
            } else {
                0int
            })
        }),
{
}

/// A failure report ends the run within at most one further step, and
/// that one step can only be the balancing frame exit.
pub proof fn lemma_failure_ends_balanced(s: Step, n: nat, has_date: bool)
    requires
        !terminal(s),
    ensures
        ({
            let s1 = next_step_spec(s, n, has_date, Event::Failed);
            ||| terminal(s1)
            ||| (s1 == Step::FailExit && terminal(
                next_step_spec(s1, n, has_date, Event::Completed),
            ) && terminal(next_step_spec(s1, n, has_date, Event::Failed)))
        }),
{
}

/// The back-fill fields receive keys only at their dedicated fill
/// steps: a pre-populated power, gain or height value is never
/// overwritten.
pub proof fn lemma_backfill_only_sender(flow: StationFlow, a: Action)
    requires
        flow.wf(),
        action_for(flow, a),
    ensures
        action_sends_to(a, Target::PowerInput) ==> flow.step == Step::TechFillPow,
        action_sends_to(a, Target::GainInput) ==> flow.step == Step::TechFillGain,
        action_sends_to(a, Target::HeightInput) ==> flow.step == Step::TechFillHeight,
{
}

/// A fill step is entered only from the matching read step, and only
/// when the value that was read back is blank after trimming.
pub proof fn lemma_backfill_needs_blank(s: Step, n: nat, has_date: bool, ev: Event)
    ensures
        next_step_spec(s, n, has_date, ev) == Step::TechFillPow ==> ({
            &&& s == Step::TechReadPow
            &&& ev matches Event::Text(v) && is_blank(v@)
        }),
        next_step_spec(s, n, has_date, ev) == Step::TechFillGain ==> ({
            &&& s == Step::TechReadGain
            &&& ev matches Event::Text(v) && is_blank(v@)
        }),
        next_step_spec(s, n, has_date, ev) == Step::TechFillHeight ==> ({
            &&& s == Step::TechReadHeight
            &&& ev matches Event::Text(v) && is_blank(v@)
        }),
{
}

/// Every upload round attaches the image's own path, selects the one
/// fixed image-type option, and writes the image's classification
/// description into the remark field.
pub proof fn lemma_upload_round(flow: StationFlow, a: Action, k: usize)
    requires
        flow.wf(),
        action_for(flow, a),
    ensures
        flow.step == Step::UpFile(k) ==> action_sends(
            a,
            Target::FileInput,
            flow.job.images@[k as int].path@,
        ),
        flow.step == Step::UpSelType(k) ==> a == Action::SelectIndex(
            Target::ImageTypeSelect,
            IMAGE_TYPE_OPTION,
        ),
        flow.step == Step::UpRemark(k) ==> action_sends(
            a,
            Target::RemarkField,
            flow.job.images@[k as int].description@,
        ),
{
}

/// The three differential rounds select the parameter by the round
/// number itself, in order, and there are exactly three of them.
pub proof fn lemma_differential_rounds(flow: StationFlow, a: Action, i: u8, n: nat, d: bool)
    requires
        flow.wf(),
        action_for(flow, a),
    ensures
        flow.step == Step::DiffSelPara(i) ==> (1 <= i <= DIFF_ROUNDS && a == Action::SelectIndex(
            Target::DiffParamSelect,
            i,
        )),
        next_step_spec(Step::DiffExit(i), n, d, Event::Completed) == (if i < DIFF_ROUNDS {
            Step::DiffOpen((i + 1) as u8)
        } else if n > 0 {
            Step::UpOpen(0)
        } else {
            Step::OpinionSel
        }),
{
}

/// The four panels are expanded in order, first to last, before any
/// field is touched.
pub proof fn lemma_panels_in_order(flow: StationFlow, a: Action, i: u8, n: nat, d: bool)
    requires
        flow.wf(),
        action_for(flow, a),
    ensures
        flow.step == Step::ExpandClick(i) ==> (1 <= i <= PANEL_COUNT && a == click_action(
            Target::PanelHeader(i),
            None,
            true,
            true,
        )),
        next_step_spec(Step::ExpandPause(i), n, d, Event::Completed) == (if i < PANEL_COUNT {
            Step::ExpandClick((i + 1) as u8)
        } else {
            Step::TechSelAnt
        }),
{
}

/// The inspection-date field is cleared and filled with the extracted
/// date exactly when one was found; without a date it is left
/// untouched.
pub proof fn lemma_inspection_date(flow: StationFlow, a: Action, n: nat)
    requires
        flow.wf(),
        action_for(flow, a),
    ensures
        flow.step == Step::DateFill ==> (flow.job.inspection_date matches Some(d) && action_sends(
            a,
            Target::InspectionDateInput,
            d@,
        )),
        next_step_spec(Step::EquExit, n, true, Event::Completed) == Step::DateClear,
        next_step_spec(Step::EquExit, n, false, Event::Completed) == Step::Done,
{
}

} // verus!

//! The vocabulary of browser interactions that the form-session planner
//! emits. Each action is one remote round trip; an unverified executor
//! translates targets into concrete selectors and performs the action,
//! reporting back an [`Event`].

use vstd::prelude::*;

verus! {

/// The fixed option position of the station type in the search modal's
/// type dropdown.
pub const STATION_TYPE_OPTION: u8 = 8;

/// The fixed option position of the source-data choice in the search
/// modal.
pub const SOURCE_DATA_OPTION: u8 = 0;

/// The fixed option position used for the antenna-detail dropdown.
pub const ANTENNA_DETAIL_OPTION: u8 = 1;

/// The fixed option position used for the aerial dropdown.
pub const AERIAL_OPTION: u8 = 1;

/// The option chosen for the antenna type when it is still on its
/// placeholder.
pub const ANTENNA_TYPE_OPTION: u8 = 1;

/// The fixed option position of the cable type.
pub const CABLE_TYPE_OPTION: u8 = 5;

/// The fixed option position of the differential result.
pub const DIFF_RESULT_OPTION: u8 = 1;

/// The fixed option position of the attachment image type, the same
/// for every classification label.
pub const IMAGE_TYPE_OPTION: u8 = 2;

/// The fixed option position of the inspection opinion.
pub const OPINION_OPTION: u8 = 1;

/// The fixed option position of the equipment type in the equipment
/// sub-modal.
pub const EQUIPMENT_TYPE_OPTION: u8 = 10;

/// The fixed option position of the equipment name in the equipment
/// sub-modal.
pub const EQUIPMENT_NAME_OPTION: u8 = 3;

/// How many differential-result entries each station records.
pub const DIFF_ROUNDS: u8 = 3;

/// How many expandable panels the remote form has.
pub const PANEL_COUNT: u8 = 4;

/// The short pause after a panel toggle or a modal save, in
/// milliseconds.
pub const SHORT_PAUSE_MS: u32 = 500;

/// The longer pause around an image upload, in milliseconds.
pub const UPLOAD_PAUSE_MS: u32 = 1000;

/// A page the executor can navigate to directly.
#[derive(Clone, Copy, PartialEq, Eq, Structural, Debug)]
pub enum PageRef {
    LoginPage,
}

/// An element of the remote application that some action addresses.
/// The unverified executor owns the mapping from these names to the
/// concrete selectors.
#[derive(Clone, Copy, PartialEq, Eq, Structural, Debug)]
pub enum Target {
    LoginUserField,
    LoginPasswordField,
    LoginSubmitButton,
    OperSectionTile,
    FreqInspectionMenu,
    EmissionStdSubmenu,
    EmissionStdLink,
    AddRecordIcon,
    SearchOpenButton,
    StationTypeSelect,
    SiteCodeInput,
    SourceDataSelect,
    SearchIcon,
    FirstResultLink,
    PanelHeader(u8),
    AntennaDetailSelect,
    AerialSelect,
    FrequencyDisplay,
    FrequencyInput,
    AntennaTypeSelect,
    CableTypeSelect,
    PowerInput,
    GainInput,
    HeightInput,
    EditFrequencyItemButton,
    DiffParamSelect,
    DiffResultSelect,
    SaveButton,
    AttachmentsPanel,
    AttachmentAddButton,
    FileInput,
    ImageTypeSelect,
    RemarkField,
    OpinionSelect,
    EquipmentPanel,
    EquipmentAddButton,
    EquipmentTypeSelect,
    EquipmentNameSelect,
    InspectionDateInput,
}

/// How a click is performed: within which scope the target is looked
/// up, whether it is scrolled into view first, and whether the executor
/// polls until the element is clickable before clicking.
#[derive(Clone, Copy, PartialEq, Eq, Structural, Debug)]
pub struct ClickSpec {
    pub target: Target,
    pub scope: Option<Target>,
    pub scroll: bool,
    pub wait: bool,
}

/// One remote interaction.
#[derive(Clone, PartialEq, Debug)]
pub enum Action {
    Goto(PageRef),
    Click(ClickSpec),
    Pause(u32),
    SendKeys(Target, String),
    ClearField(Target),
    SelectIndex(Target, u8),
    ReadText(Target),
    ReadValueAttr(Target),
    ReadSelectedLabel(Target),
    EnterModalFrame,
    ExitFrame,
}

/// What the executor reports back for the action it just performed.
#[derive(Clone, PartialEq, Debug)]
pub enum Event {
    /// The action succeeded (for actions that return no value).
    Completed,
    /// A read action succeeded and produced this text.
    Text(String),
    /// A value read found no value attribute on the element.
    NoValue,
    /// The action failed: element missing, not interactive in time, or
    /// the driver itself errored.
    Failed,
}

/// A click action with the given shape.
pub open spec fn click_action(target: Target, scope: Option<Target>, scroll: bool, wait: bool) -> Action {
    Action::Click(ClickSpec { target, scope, scroll, wait })
}

/// The action types keys with view `text` into `target`.
pub open spec fn action_sends(a: Action, target: Target, text: Seq<char>) -> bool {
    a matches Action::SendKeys(t, s) && t == target && s@ == text
}

/// The action types some keys into `target`.
pub open spec fn action_sends_to(a: Action, target: Target) -> bool {
    a matches Action::SendKeys(t, _) && t == target
}

} // verus!

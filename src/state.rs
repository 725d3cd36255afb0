use vstd::prelude::*;

verus! {

/// The printer's state.
#[derive(Clone, Copy, Debug, PartialEq, Eq, Structural)]
pub enum PrinterState {
    Idle,
    Processing,
    Stopped,
}

impl PrinterState {
    pub open spec fn spec_name(self) -> Seq<char> {
        match self {
            PrinterState::Idle => "idle"@,
            PrinterState::Processing => "processing"@,
            PrinterState::Stopped => "stopped"@,
        }
    }

    /// The state's keyword.
    pub fn name(&self) -> (r: String)
        ensures
            r@ == self.spec_name(),
    {
        match self {
            PrinterState::Idle => String::from_str("idle"),
            PrinterState::Processing => String::from_str("processing"),
            PrinterState::Stopped => String::from_str("stopped"),
        }
    }

    /// The state's registered enum value.
    pub open spec fn spec_code(self) -> i32 {
        match self {
            PrinterState::Idle => 3,
            PrinterState::Processing => 4,
            PrinterState::Stopped => 5,
        }
    }

    pub fn code(&self) -> (r: i32)
        ensures
            r == self.spec_code(),
    {
        match self {
            PrinterState::Idle => 3,
            PrinterState::Processing => 4,
            PrinterState::Stopped => 5,
        }
    }
}

/// How severe a printer state reason is.
#[derive(Clone, Copy, Debug, PartialEq, Eq, Structural)]
pub enum PrinterStateReasonSeverity {
    Report,
    Warning,
    Error,
}

impl PrinterStateReasonSeverity {
    pub open spec fn spec_name(self) -> Seq<char> {
        match self {
            PrinterStateReasonSeverity::Report => "report"@,
            PrinterStateReasonSeverity::Warning => "warning"@,
            PrinterStateReasonSeverity::Error => "error"@,
        }
    }

    /// The severity's keyword suffix.
    pub fn name(&self) -> (r: String)
        ensures
            r@ == self.spec_name(),
    {
        match self {
            PrinterStateReasonSeverity::Report => String::from_str("report"),
            PrinterStateReasonSeverity::Warning => String::from_str("warning"),
            PrinterStateReasonSeverity::Error => String::from_str("error"),
        }
    }
}

/// Why the printer is in its state.
#[derive(Clone, Copy, Debug, PartialEq, Eq, Structural)]
pub enum PrinterStateReasonKeyword {
    NoReason,
    Other,
    ConnectingToDevice,
    CoverOpen,
    DeveloperEmpty,
    DeveloperLow,
    DoorOpen,
    FuserOverTemp,
    FuserUnderTemp,
    InputTrayMissing,
    InterlockOpen,
    InterpreterResourceUnavailable,
    MarkerSupplyEmpty,
    MarkerSupplyLow,
    MarkerWasteAlmostFull,
    MarkerWasteFull,
    MediaEmpty,
    MediaJam,
    MediaLow,
    MediaNeeded,
    MovingToPaused,
    OpcLifeOver,
    OpcNearEol,
    OutputAreaAlmostFull,
    OutputAreaFull,
    OutputTrayMissing,
    Paused,
    Shutdown,
    SpoolAreaFull,
    StoppedPartly,
    Stopping,
    TimedOut,
    TonerEmpty,
    TonerLow,
}

impl PrinterStateReasonKeyword {
    pub open spec fn spec_name(self) -> Seq<char> {
        match self {
            PrinterStateReasonKeyword::NoReason => "none"@,
            PrinterStateReasonKeyword::Other => "other"@,
            PrinterStateReasonKeyword::ConnectingToDevice => "connecting-to-device"@,
            PrinterStateReasonKeyword::CoverOpen => "cover-open"@,
            PrinterStateReasonKeyword::DeveloperEmpty => "developer-empty"@,
            PrinterStateReasonKeyword::DeveloperLow => "developer-low"@,
            PrinterStateReasonKeyword::DoorOpen => "door-open"@,
            PrinterStateReasonKeyword::FuserOverTemp => "fuser-over-temp"@,
            PrinterStateReasonKeyword::FuserUnderTemp => "fuser-under-temp"@,
            PrinterStateReasonKeyword::InputTrayMissing => "input-tray-missing"@,
            PrinterStateReasonKeyword::InterlockOpen => "interlock-open"@,
            PrinterStateReasonKeyword::InterpreterResourceUnavailable => "interpreter-resource-unavailable"@,
            PrinterStateReasonKeyword::MarkerSupplyEmpty => "marker-supply-empty"@,
            PrinterStateReasonKeyword::MarkerSupplyLow => "marker-supply-low"@,
            PrinterStateReasonKeyword::MarkerWasteAlmostFull => "marker-waste-almost-full"@,
            PrinterStateReasonKeyword::MarkerWasteFull => "marker-waste-full"@,
            PrinterStateReasonKeyword::MediaEmpty => "media-empty"@,
            PrinterStateReasonKeyword::MediaJam => "media-jam"@,
            PrinterStateReasonKeyword::MediaLow => "media-low"@,
            PrinterStateReasonKeyword::MediaNeeded => "media-needed"@,
            PrinterStateReasonKeyword::MovingToPaused => "moving-to-paused"@,
            PrinterStateReasonKeyword::OpcLifeOver => "opc-life-over"@,
            PrinterStateReasonKeyword::OpcNearEol => "opc-near-eol"@,
            PrinterStateReasonKeyword::OutputAreaAlmostFull => "output-area-almost-full"@,
            PrinterStateReasonKeyword::OutputAreaFull => "output-area-full"@,
            PrinterStateReasonKeyword::OutputTrayMissing => "output-tray-missing"@,
            PrinterStateReasonKeyword::Paused => "paused"@,
            PrinterStateReasonKeyword::Shutdown => "shutdown"@,
            PrinterStateReasonKeyword::SpoolAreaFull => "spool-area-full"@,
            PrinterStateReasonKeyword::StoppedPartly => "stopped-partly"@,
            PrinterStateReasonKeyword::Stopping => "stopping"@,
            PrinterStateReasonKeyword::TimedOut => "timed-out"@,
            PrinterStateReasonKeyword::TonerEmpty => "toner-empty"@,
            PrinterStateReasonKeyword::TonerLow => "toner-low"@,
        }
    }

    /// The reason's keyword.
    pub fn name(&self) -> (r: String)
        ensures
            r@ == self.spec_name(),
    {
        match self {
            PrinterStateReasonKeyword::NoReason => String::from_str("none"),
            PrinterStateReasonKeyword::Other => String::from_str("other"),
            PrinterStateReasonKeyword::ConnectingToDevice => String::from_str("connecting-to-device"),
            PrinterStateReasonKeyword::CoverOpen => String::from_str("cover-open"),
            PrinterStateReasonKeyword::DeveloperEmpty => String::from_str("developer-empty"),
            PrinterStateReasonKeyword::DeveloperLow => String::from_str("developer-low"),
            PrinterStateReasonKeyword::DoorOpen => String::from_str("door-open"),
            PrinterStateReasonKeyword::FuserOverTemp => String::from_str("fuser-over-temp"),
            PrinterStateReasonKeyword::FuserUnderTemp => String::from_str("fuser-under-temp"),
            PrinterStateReasonKeyword::InputTrayMissing => String::from_str("input-tray-missing"),
            PrinterStateReasonKeyword::InterlockOpen => String::from_str("interlock-open"),
            PrinterStateReasonKeyword::InterpreterResourceUnavailable => String::from_str("interpreter-resource-unavailable"),
            PrinterStateReasonKeyword::MarkerSupplyEmpty => String::from_str("marker-supply-empty"),
            PrinterStateReasonKeyword::MarkerSupplyLow => String::from_str("marker-supply-low"),
            PrinterStateReasonKeyword::MarkerWasteAlmostFull => String::from_str("marker-waste-almost-full"),
            PrinterStateReasonKeyword::MarkerWasteFull => String::from_str("marker-waste-full"),
            PrinterStateReasonKeyword::MediaEmpty => String::from_str("media-empty"),
            PrinterStateReasonKeyword::MediaJam => String::from_str("media-jam"),
            PrinterStateReasonKeyword::MediaLow => String::from_str("media-low"),
            PrinterStateReasonKeyword::MediaNeeded => String::from_str("media-needed"),
            PrinterStateReasonKeyword::MovingToPaused => String::from_str("moving-to-paused"),
            PrinterStateReasonKeyword::OpcLifeOver => String::from_str("opc-life-over"),
            PrinterStateReasonKeyword::OpcNearEol => String::from_str("opc-near-eol"),
            PrinterStateReasonKeyword::OutputAreaAlmostFull => String::from_str("output-area-almost-full"),
            PrinterStateReasonKeyword::OutputAreaFull => String::from_str("output-area-full"),
            PrinterStateReasonKeyword::OutputTrayMissing => String::from_str("output-tray-missing"),
            PrinterStateReasonKeyword::Paused => String::from_str("paused"),
            PrinterStateReasonKeyword::Shutdown => String::from_str("shutdown"),
            PrinterStateReasonKeyword::SpoolAreaFull => String::from_str("spool-area-full"),
            PrinterStateReasonKeyword::StoppedPartly => String::from_str("stopped-partly"),
            PrinterStateReasonKeyword::Stopping => String::from_str("stopping"),
            PrinterStateReasonKeyword::TimedOut => String::from_str("timed-out"),
            PrinterStateReasonKeyword::TonerEmpty => String::from_str("toner-empty"),
            PrinterStateReasonKeyword::TonerLow => String::from_str("toner-low"),
        }
    }
}

/// A printer state reason: a keyword, with a severity unless the keyword stands alone.
#[derive(Clone, Copy, Debug, PartialEq, Eq, Structural)]
pub struct PrinterStateReason {
    pub keyword: PrinterStateReasonKeyword,
    pub severity: Option<PrinterStateReasonSeverity>,
}

impl PrinterStateReason {
    /// The keyword, followed by `-` and the severity when there is one (`toner-low-warning`).
    pub open spec fn spec_name(self) -> Seq<char> {
        match self.severity {
            Some(sev) => self.keyword.spec_name() + "-"@ + sev.spec_name(),
            None => self.keyword.spec_name(),
        }
    }

    pub fn name(&self) -> (r: String)
        ensures
            r@ == self.spec_name(),
    {
        let kw = self.keyword.name();
        match self.severity {
            Some(sev) => {
                let s = kw.concat("-");
                let sev_name = sev.name();
                s.concat(sev_name.as_str())
            },
            None => kw,
        }
    }
}

/// The state of a job.
#[derive(Clone, Copy, Debug, PartialEq, Eq, Structural)]
pub enum JobState {
    Pending,
    PendingHeld,
    Processing,
    ProcessingStopped,
    Canceled,
    Aborted,
    Completed,
}

impl JobState {
    pub open spec fn spec_name(self) -> Seq<char> {
        match self {
            JobState::Pending => "pending"@,
            JobState::PendingHeld => "pending-held"@,
            JobState::Processing => "processing"@,
            JobState::ProcessingStopped => "processing-stopped"@,
            JobState::Canceled => "canceled"@,
            JobState::Aborted => "aborted"@,
            JobState::Completed => "completed"@,
        }
    }

    /// The state's keyword.
    pub fn name(&self) -> (r: String)
        ensures
            r@ == self.spec_name(),
    {
        match self {
            JobState::Pending => String::from_str("pending"),
            JobState::PendingHeld => String::from_str("pending-held"),
            JobState::Processing => String::from_str("processing"),
            JobState::ProcessingStopped => String::from_str("processing-stopped"),
            JobState::Canceled => String::from_str("canceled"),
            JobState::Aborted => String::from_str("aborted"),
            JobState::Completed => String::from_str("completed"),
        }
    }

    /// The state's registered enum value.
    pub open spec fn spec_code(self) -> i32 {
        match self {
            JobState::Pending => 3,
            JobState::PendingHeld => 4,
            JobState::Processing => 5,
            JobState::ProcessingStopped => 6,
            JobState::Canceled => 7,
            JobState::Aborted => 8,
            JobState::Completed => 9,
        }
    }

    pub fn code(&self) -> (r: i32)
        ensures
            r == self.spec_code(),
    {
        match self {
            JobState::Pending => 3,
            JobState::PendingHeld => 4,
            JobState::Processing => 5,
            JobState::ProcessingStopped => 6,
            JobState::Canceled => 7,
            JobState::Aborted => 8,
            JobState::Completed => 9,
        }
    }
}

/// Why a job is in its state.
#[derive(Clone, Copy, Debug, PartialEq, Eq, Structural)]
pub enum JobStateReason {
    NoReason,
    QueuedInDevice,
}

impl JobStateReason {
    pub open spec fn spec_name(self) -> Seq<char> {
        match self {
            JobStateReason::NoReason => "none"@,
            JobStateReason::QueuedInDevice => "queued-in-device"@,
        }
    }

    /// The reason's keyword.
    pub fn name(&self) -> (r: String)
        ensures
            r@ == self.spec_name(),
    {
        match self {
            JobStateReason::NoReason => String::from_str("none"),
            JobStateReason::QueuedInDevice => String::from_str("queued-in-device"),
        }
    }
}

} // verus!

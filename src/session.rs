use vstd::prelude::*;

use crate::error::SdWriteError;

verus! {

/// How many partition indices are probed, from 0 up, for a mountable volume.
pub const VOLUME_PROBE_LIMIT: u8 = 4;

/// The driver call that an append session asks for next.
#[derive(Debug, Clone, Copy, PartialEq, Eq, Structural)]
pub enum Action {
    /// Bring the card up.
    InitDevice,
    /// Try to mount the volume of this partition index.
    MountVolume(u8),
    /// Open the root directory of the mounted volume.
    OpenRootDir,
    /// Open the target file in the root directory, creating it if absent and
    /// positioning at its end.
    OpenFile,
    /// Write the payload to the opened file.
    WriteData,
    /// Close the file; a failure to close is not reported.
    CloseFile,
    /// Close the root directory; a failure to close is not reported.
    CloseDir,
    /// Let go of the mounted volume.
    ReleaseVolume,
    /// Put the card back into its uninitialised state, freeing the bus.
    DeinitDevice,
    /// Nothing is left to do: the result can be taken.
    Finished,
}

/// Where an append session stands.
#[derive(Debug, Clone, Copy, PartialEq, Eq, Structural)]
pub enum Stage {
    Start,
    Mounting(u8),
    OpeningRootDir,
    OpeningFile,
    Writing,
    ClosingFile,
    ClosingDir,
    ReleasingVolume,
    Deiniting,
    Done,
}

/// What the driver reports after carrying out the requested action.
#[derive(Debug)]
pub enum Event<DE, FE> {
    /// Outcome of `InitDevice`.
    DeviceInit(Result<(), DE>),
    /// Outcome of `MountVolume`: whether the volume mounted.
    VolumeMount(bool),
    /// Outcome of `OpenRootDir`.
    RootDirOpen(Result<(), FE>),
    /// Outcome of `OpenFile`.
    FileOpen(Result<(), FE>),
    /// Outcome of `WriteData`.
    DataWrite(Result<(), FE>),
    /// One of the releasing actions (`CloseFile`, `CloseDir`,
    /// `ReleaseVolume`, `DeinitDevice`) was carried out.
    Released,
}

/// The abstract state of an append session: its stage, the first failure
/// met so far, and the actions carried out so far, in order.
pub struct SessionView<DE, FE> {
    pub stage: Stage,
    pub error: Option<SdWriteError<DE, FE>>,
    pub trace: Seq<Action>,
}

pub open spec fn action_of(stage: Stage) -> Action {
    match stage {
        Stage::Start => Action::InitDevice,
        Stage::Mounting(i) => Action::MountVolume(i),
        Stage::OpeningRootDir => Action::OpenRootDir,
        Stage::OpeningFile => Action::OpenFile,
        Stage::Writing => Action::WriteData,
        Stage::ClosingFile => Action::CloseFile,
        Stage::ClosingDir => Action::CloseDir,
        Stage::ReleasingVolume => Action::ReleaseVolume,
        Stage::Deiniting => Action::DeinitDevice,
        Stage::Done => Action::Finished,
    }
}

/// The session before anything was done.
pub open spec fn start<DE, FE>() -> SessionView<DE, FE> {
    SessionView { stage: Stage::Start, error: None, trace: Seq::empty() }
}

/// The action of the current stage is carried out; the session moves on to
/// `next`, and records `failure` if there is one.
pub open spec fn advanced<DE, FE>(
    s: SessionView<DE, FE>,
    next: Stage,
    failure: Option<SdWriteError<DE, FE>>,
) -> SessionView<DE, FE> {
    SessionView {
        stage: next,
        error: match failure {
            Some(e) => Some(e),
            None => s.error,
        },
        trace: s.trace.push(action_of(s.stage)),
    }
}

/// One transition. An event that does not answer the pending action leaves
/// the session as it is.
pub open spec fn step<DE, FE>(s: SessionView<DE, FE>, ev: Event<DE, FE>) -> SessionView<DE, FE> {
    match (s.stage, ev) {
        (Stage::Start, Event::DeviceInit(Ok(_))) => advanced(s, Stage::Mounting(0), None),
        (Stage::Start, Event::DeviceInit(Err(e))) => advanced(
            s,
            Stage::Deiniting,
            Some(SdWriteError::CannotConnect(e)),
        ),
        (Stage::Mounting(_), Event::VolumeMount(true)) => advanced(s, Stage::OpeningRootDir, None),
        (Stage::Mounting(i), Event::VolumeMount(false)) => if i + 1 < VOLUME_PROBE_LIMIT {
            advanced(s, Stage::Mounting((i + 1) as u8), None)
        } else {
            advanced(s, Stage::Deiniting, Some(SdWriteError::NoSuitableVolume))
        },
        (Stage::OpeningRootDir, Event::RootDirOpen(Ok(_))) => advanced(s, Stage::OpeningFile, None),
        (Stage::OpeningRootDir, Event::RootDirOpen(Err(e))) => advanced(
            s,
            Stage::ReleasingVolume,
            Some(SdWriteError::CannotReadRootDir(e)),
        ),
        (Stage::OpeningFile, Event::FileOpen(Ok(_))) => advanced(s, Stage::Writing, None),
        (Stage::OpeningFile, Event::FileOpen(Err(e))) => advanced(
            s,
            Stage::ClosingDir,
            Some(SdWriteError::CannotOpenFile(e)),
        ),
        (Stage::Writing, Event::DataWrite(Ok(_))) => advanced(s, Stage::ClosingFile, None),
        (Stage::Writing, Event::DataWrite(Err(e))) => advanced(
            s,
            Stage::ClosingFile,
            Some(SdWriteError::CannotWriteToOpenedFile(e)),
        ),
        (Stage::ClosingFile, Event::Released) => advanced(s, Stage::ClosingDir, None),
        (Stage::ClosingDir, Event::Released) => advanced(s, Stage::ReleasingVolume, None),
        (Stage::ReleasingVolume, Event::Released) => advanced(s, Stage::Deiniting, None),
        (Stage::Deiniting, Event::Released) => advanced(s, Stage::Done, None),
        _ => s,
    }
}

/// The session after a sequence of events.
pub open spec fn run<DE, FE>(s: SessionView<DE, FE>, evs: Seq<Event<DE, FE>>) -> SessionView<
    DE,
    FE,
> decreases evs.len() {
    if evs.len() == 0 {
        s
    } else {
        run(step(s, evs[0]), evs.drop_first())
    }
}

/// What an append returns once its session is done: the first failure, if any.
pub open spec fn outcome<DE, FE>(s: SessionView<DE, FE>) -> Result<(), SdWriteError<DE, FE>> {
    match s.error {
        Some(e) => Err(e),
        None => Ok(()),
    }
}

/// One append to a log file, as a sequence of driver actions.
///
/// The caller asks `next_action`, carries the action out on the card, and
/// reports what happened with `advance`, until the action is `Finished`;
/// `finish` then gives the result. The session decides every step: which
/// partition to probe, what to release after a failure, and which error to
/// report.
pub struct AppendSession<DE, FE> {
    stage: Stage,
    error: Option<SdWriteError<DE, FE>>,
    trace: Ghost<Seq<Action>>,
}

impl<DE, FE> View for AppendSession<DE, FE> {
    type V = SessionView<DE, FE>;

    closed spec fn view(&self) -> SessionView<DE, FE> {
        SessionView { stage: self.stage, error: self.error, trace: self.trace@ }
    }
}

impl<DE, FE> AppendSession<DE, FE> {
    /// A session that has not touched the card yet.
    pub fn new() -> (r: Self)
        ensures
            r@ == start::<DE, FE>(),
    {
        AppendSession { stage: Stage::Start, error: None, trace: Ghost(Seq::empty()) }
    }

    /// The stage the session is in.
    pub fn stage(&self) -> (r: Stage)
        ensures
            r == self@.stage,
    {
        self.stage
    }

    /// The driver call to make next.
    pub fn next_action(&self) -> (r: Action)
        ensures
            r == action_of(self@.stage),
    {
        match self.stage {
            Stage::Start => Action::InitDevice,
            Stage::Mounting(i) => Action::MountVolume(i),
            Stage::OpeningRootDir => Action::OpenRootDir,
            Stage::OpeningFile => Action::OpenFile,
            Stage::Writing => Action::WriteData,
            Stage::ClosingFile => Action::CloseFile,
            Stage::ClosingDir => Action::CloseDir,
            Stage::ReleasingVolume => Action::ReleaseVolume,
            Stage::Deiniting => Action::DeinitDevice,
            Stage::Done => Action::Finished,
        }
    }

    /// Takes in what the driver reported for the pending action.
    pub fn advance(&mut self, ev: Event<DE, FE>)
        ensures
            final(self)@ == step(old(self)@, ev),
    {
        let current = self.stage;
        let (next, failure): (Stage, Option<SdWriteError<DE, FE>>) = match (current, ev) {
            (Stage::Start, Event::DeviceInit(Ok(_))) => (Stage::Mounting(0), None),
            (Stage::Start, Event::DeviceInit(Err(e))) => (
                Stage::Deiniting,
                Some(SdWriteError::CannotConnect(e)),
            ),
            (Stage::Mounting(_), Event::VolumeMount(true)) => (Stage::OpeningRootDir, None),
            (Stage::Mounting(i), Event::VolumeMount(false)) => {
                if i < VOLUME_PROBE_LIMIT - 1 {
                    (Stage::Mounting(i + 1), None)
                } else {
                    (Stage::Deiniting, Some(SdWriteError::NoSuitableVolume))
                }
            },
            (Stage::OpeningRootDir, Event::RootDirOpen(Ok(_))) => (Stage::OpeningFile, None),
            (Stage::OpeningRootDir, Event::RootDirOpen(Err(e))) => (
                Stage::ReleasingVolume,
                Some(SdWriteError::CannotReadRootDir(e)),
            ),
            (Stage::OpeningFile, Event::FileOpen(Ok(_))) => (Stage::Writing, None),
            (Stage::OpeningFile, Event::FileOpen(Err(e))) => (
                Stage::ClosingDir,
                Some(SdWriteError::CannotOpenFile(e)),
            ),
            (Stage::Writing, Event::DataWrite(Ok(_))) => (Stage::ClosingFile, None),
            (Stage::Writing, Event::DataWrite(Err(e))) => (
                Stage::ClosingFile,
                Some(SdWriteError::CannotWriteToOpenedFile(e)),
            ),
            (Stage::ClosingFile, Event::Released) => (Stage::ClosingDir, None),
            (Stage::ClosingDir, Event::Released) => (Stage::ReleasingVolume, None),
            (Stage::ReleasingVolume, Event::Released) => (Stage::Deiniting, None),
            (Stage::Deiniting, Event::Released) => (Stage::Done, None),
            _ => {
                return ;
            },
        };
        self.trace = Ghost(self.trace@.push(action_of(current)));
        self.stage = next;
        match failure {
            Some(e) => {
                self.error = Some(e);
            },
            None => {},
        }
    }

    /// The result of the append, once the session is done; `None` before.
    pub fn finish(self) -> (r: Option<Result<(), SdWriteError<DE, FE>>>)
        ensures
            r == (if self@.stage is Done {
                Some(outcome(self@))
            } else {
                None
            }),
    {
        match self.stage {
            Stage::Done => match self.error {
                Some(e) => Some(Err(e)),
                None => Some(Ok(())),
            },
            _ => None,
        }
    }
}

} // verus!

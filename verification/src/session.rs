use vstd::prelude::*;

verus! {

/// Why a session could not even start: the option source handed over a list
/// with nothing in it, so no valid choice could ever be finalized.
#[derive(Clone, Copy, Debug, PartialEq, Eq, Structural)]
pub enum EnumerationError {
    NoDisks,
    NoImages,
}

/// Why a running session aborted. Both are fatal: the driver reports them and
/// exits with a non-zero code.
#[derive(Clone, Copy, Debug, PartialEq, Eq, Structural)]
pub enum SessionError {
    /// An indexed selection failed; selection has no safe default to
    /// substitute, so the session aborts.
    Interaction,
    /// The external install action failed; installation is not assumed
    /// retryable, so the session aborts.
    InstallFailed,
}

/// Where a session stands. The progression is linear; only the
/// reconfiguration window of a `reconfigurable` session ever returns to an
/// earlier state.
#[derive(Clone, Copy, Debug, PartialEq, Eq, Structural)]
pub enum SessionState {
    AwaitingDefaultsDecision,
    AwaitingDiskChoice,
    AwaitingImageChoice,
    Installing,
    AwaitingShutdownDecision,
    Terminating,
}

/// The three-way choice a reconfigurable session offers once the
/// reconfiguration window has elapsed.
#[derive(Clone, Copy, Debug, PartialEq, Eq, Structural)]
pub enum PostInstallAction {
    Shutdown,
    Restart,
    Exit,
}

/// What the world reported back to the session: the settled result of the
/// prompt or external action that the previous `SessionAction` asked for.
#[derive(Clone, Copy, Debug, PartialEq, Eq, Structural)]
pub enum SessionEvent {
    /// The timed "use defaults?" confirmation settled on this boolean.
    DefaultsDecided(bool),
    /// The disk selection confirmed this index into the disk list.
    DiskChosen(usize),
    /// The image selection confirmed this index into the image list.
    ImageChosen(usize),
    /// An indexed selection failed (fatal).
    SelectionFailed,
    /// The external install action succeeded.
    InstallSucceeded,
    /// The external install action failed (fatal).
    InstallFailed,
    /// The timed "shutdown?" confirmation settled on this boolean.
    ShutdownDecided(bool),
    /// Reconfigurable sessions only: the reserved keypress arrived during
    /// the post-install window.
    ReconfigureRequested,
    /// Reconfigurable sessions only: the post-install window elapsed with no
    /// keypress.
    WindowElapsed,
    /// Reconfigurable sessions only: the three-way post-install choice.
    PostActionChosen(PostInstallAction),
}

/// What the driver must do next. The driver performs the interaction or
/// external action, then hands the settled result back as a `SessionEvent`.
#[derive(Clone, Copy, Debug, PartialEq, Eq, Structural)]
pub enum SessionAction {
    /// Run the timed "use defaults?" confirmation.
    AskDefaults,
    /// Run the disk selection over the session's disk list.
    AskDisk,
    /// Run the image selection over the session's image list.
    AskImage,
    /// Invoke the external install action with the finalized choice.
    RunInstall,
    /// Run the timed "shutdown?" confirmation.
    AskShutdown,
    /// Reconfigurable sessions only: wait out the interruptible
    /// reconfiguration window.
    AwaitReconfigureWindow,
    /// Reconfigurable sessions only: run the three-way post-install choice.
    AskPostAction,
    /// Invoke the external terminate action; `true` means shutdown was
    /// confirmed. This is the session's last observable action.
    Terminate(bool),
}

/// The final disk/image choice, created once per session and immutable
/// thereafter; consumed by the install and record steps.
#[derive(Clone, Debug, PartialEq, Eq)]
pub struct InstallationChoice {
    pub disk: String,
    pub image: String,
}

/// One installation session: the candidate lists it was started with, where
/// it stands, and which indices it has settled on so far.
#[derive(Debug)]
pub struct Session {
    pub state: SessionState,
    pub disks: Vec<String>,
    pub images: Vec<String>,
    /// Whether the post-install phase offers the reconfiguration window and
    /// three-way choice instead of the plain shutdown confirmation.
    pub reconfigurable: bool,
    pub disk_index: Option<usize>,
    pub image_index: Option<usize>,
}

impl Session {
    /// Well-formedness: the lists are non-empty and never mutated, settled
    /// indices always name entries of the current lists, and by the time the
    /// install step runs a full choice has been finalized.
    pub open spec fn wf(self) -> bool {
        &&& self.disks@.len() > 0
        &&& self.images@.len() > 0
        &&& (self.disk_index matches Some(i) ==> i < self.disks@.len())
        &&& (self.image_index matches Some(j) ==> j < self.images@.len())
        &&& (self.state is AwaitingImageChoice ==> self.disk_index is Some)
        &&& (self.state is Installing || self.state is AwaitingShutdownDecision || self.state
            is Terminating ==> self.disk_index is Some && self.image_index is Some)
    }

    /// Which report the session can receive where it stands. Prompts are
    /// strictly sequential, so exactly the result of the action it last
    /// asked for is admissible.
    pub open spec fn event_allowed(self, e: SessionEvent) -> bool {
        match self.state {
            SessionState::AwaitingDefaultsDecision => e is DefaultsDecided,
            SessionState::AwaitingDiskChoice => (e matches SessionEvent::DiskChosen(i) && i
                < self.disks@.len()) || e is SelectionFailed,
            SessionState::AwaitingImageChoice => (e matches SessionEvent::ImageChosen(j) && j
                < self.images@.len()) || e is SelectionFailed,
            SessionState::Installing => e is InstallSucceeded || e is InstallFailed,
            SessionState::AwaitingShutdownDecision => if self.reconfigurable {
                e is ReconfigureRequested || e is WindowElapsed || e is PostActionChosen
            } else {
                e is ShutdownDecided
            },
            SessionState::Terminating => false,
        }
    }

    /// Start a session over the given candidate lists. An empty disk list is
    /// the fatal enumeration failure: it is refused here, before any prompt
    /// is shown; likewise an empty image list, since the default path takes
    /// the first entry of each list.
    pub fn new(disks: Vec<String>, images: Vec<String>, reconfigurable: bool) -> (r: Result<
        Session,
        EnumerationError,
    >)
        ensures
            disks@.len() == 0 ==> r == Err::<Session, EnumerationError>(EnumerationError::NoDisks),
            disks@.len() > 0 && images@.len() == 0 ==> r == Err::<Session, EnumerationError>(
                EnumerationError::NoImages,
            ),
            disks@.len() > 0 && images@.len() > 0 ==> (r matches Ok(s) && s == (Session {
                state: SessionState::AwaitingDefaultsDecision,
                disks,
                images,
                reconfigurable,
                disk_index: None,
                image_index: None,
            })),
            r matches Ok(s) ==> s.wf(),
    {
        if disks.len() == 0 {
            return Err(EnumerationError::NoDisks);
        }
        if images.len() == 0 {
            return Err(EnumerationError::NoImages);
        }
        Ok(
            Session {
                state: SessionState::AwaitingDefaultsDecision,
                disks,
                images,
                reconfigurable,
                disk_index: None,
                image_index: None,
            },
        )
    }

    /// The action a fresh session asks for: every session opens with the
    /// timed "use defaults?" confirmation.
    pub fn initial_action(&self) -> (a: SessionAction)
        requires
            self.state is AwaitingDefaultsDecision,
        ensures
            a == SessionAction::AskDefaults,
    {
        SessionAction::AskDefaults
    }

    /// The one transition relation of the session: given where it stood and
    /// what was reported, exactly which state it moves to and what it asks
    /// for — or on which fatal report it aborts, unchanged.
    pub open spec fn step_spec(
        pre: Session,
        e: SessionEvent,
        post: Session,
        r: Result<SessionAction, SessionError>,
    ) -> bool {
        &&& post.disks == pre.disks
        &&& post.images == pre.images
        &&& post.reconfigurable == pre.reconfigurable
        &&& match (pre.state, e) {
            (SessionState::AwaitingDefaultsDecision, SessionEvent::DefaultsDecided(yes)) => if yes {
                &&& post.state is Installing
                &&& post.disk_index == Some(0usize)
                &&& post.image_index == Some(0usize)
                &&& r == Ok::<SessionAction, SessionError>(SessionAction::RunInstall)
            } else {
                &&& post.state is AwaitingDiskChoice
                &&& post.disk_index == pre.disk_index
                &&& post.image_index == pre.image_index
                &&& r == Ok::<SessionAction, SessionError>(SessionAction::AskDisk)
            },
            (SessionState::AwaitingDiskChoice, SessionEvent::DiskChosen(i)) => {
                &&& post.state is AwaitingImageChoice
                &&& post.disk_index == Some(i)
                &&& post.image_index == pre.image_index
                &&& r == Ok::<SessionAction, SessionError>(SessionAction::AskImage)
            },
            (SessionState::AwaitingImageChoice, SessionEvent::ImageChosen(j)) => {
                &&& post.state is Installing
                &&& post.disk_index == pre.disk_index
                &&& post.image_index == Some(j)
                &&& r == Ok::<SessionAction, SessionError>(SessionAction::RunInstall)
            },
            (SessionState::AwaitingDiskChoice, SessionEvent::SelectionFailed) => {
                &&& post == pre
                &&& r == Err::<SessionAction, SessionError>(SessionError::Interaction)
            },
            (SessionState::AwaitingImageChoice, SessionEvent::SelectionFailed) => {
                &&& post == pre
                &&& r == Err::<SessionAction, SessionError>(SessionError::Interaction)
            },
            (SessionState::Installing, SessionEvent::InstallSucceeded) => {
                &&& post.state is AwaitingShutdownDecision
                &&& post.disk_index == pre.disk_index
                &&& post.image_index == pre.image_index
                &&& r == Ok::<SessionAction, SessionError>(
                    if pre.reconfigurable {
                        SessionAction::AwaitReconfigureWindow
                    } else {
                        SessionAction::AskShutdown
                    },
                )
            },
            (SessionState::Installing, SessionEvent::InstallFailed) => {
                &&& post == pre
                &&& r == Err::<SessionAction, SessionError>(SessionError::InstallFailed)
            },
            (SessionState::AwaitingShutdownDecision, SessionEvent::ShutdownDecided(yes)) => {
                &&& !pre.reconfigurable
                &&& post.state is Terminating
                &&& post.disk_index == pre.disk_index
                &&& post.image_index == pre.image_index
                &&& r == Ok::<SessionAction, SessionError>(SessionAction::Terminate(yes))
            },
            (SessionState::AwaitingShutdownDecision, SessionEvent::ReconfigureRequested) => {
                &&& pre.reconfigurable
                &&& post.state is AwaitingDiskChoice
                &&& post.disk_index == pre.disk_index
                &&& post.image_index == pre.image_index
                &&& r == Ok::<SessionAction, SessionError>(SessionAction::AskDisk)
            },
            (SessionState::AwaitingShutdownDecision, SessionEvent::WindowElapsed) => {
                &&& pre.reconfigurable
                &&& post == pre
                &&& r == Ok::<SessionAction, SessionError>(SessionAction::AskPostAction)
            },
            (SessionState::AwaitingShutdownDecision, SessionEvent::PostActionChosen(a)) => {
                &&& pre.reconfigurable
                &&& post.state is Terminating
                &&& post.disk_index == pre.disk_index
                &&& post.image_index == pre.image_index
                &&& r == Ok::<SessionAction, SessionError>(
                    SessionAction::Terminate(a == PostInstallAction::Shutdown),
                )
            },
            _ => false,
        }
    }

    /// Advance the session by one settled report. The transition taken is
    /// exactly `step_spec`; well-formedness — in particular, that a full and
    /// valid choice is finalized before the install step runs — is preserved.
    pub fn step(&mut self, event: SessionEvent) -> (r: Result<SessionAction, SessionError>)
        requires
            old(self).wf(),
            old(self).event_allowed(event),
        ensures
            final(self).wf(),
            Session::step_spec(*old(self), event, *final(self), r),
    {
        match (self.state, event) {
            (SessionState::AwaitingDefaultsDecision, SessionEvent::DefaultsDecided(yes)) => {
                if yes {
                    self.disk_index = Some(0);
                    self.image_index = Some(0);
                    self.state = SessionState::Installing;
                    Ok(SessionAction::RunInstall)
                } else {
                    self.state = SessionState::AwaitingDiskChoice;
                    Ok(SessionAction::AskDisk)
                }
            },
            (SessionState::AwaitingDiskChoice, SessionEvent::DiskChosen(i)) => {
                self.disk_index = Some(i);
                self.state = SessionState::AwaitingImageChoice;
                Ok(SessionAction::AskImage)
            },
            (SessionState::AwaitingImageChoice, SessionEvent::ImageChosen(j)) => {
                self.image_index = Some(j);
                self.state = SessionState::Installing;
                Ok(SessionAction::RunInstall)
            },
            (SessionState::AwaitingDiskChoice, SessionEvent::SelectionFailed) => Err(
                SessionError::Interaction,
            ),
            (SessionState::AwaitingImageChoice, SessionEvent::SelectionFailed) => Err(
                SessionError::Interaction,
            ),
            (SessionState::Installing, SessionEvent::InstallSucceeded) => {
                self.state = SessionState::AwaitingShutdownDecision;
                if self.reconfigurable {
                    Ok(SessionAction::AwaitReconfigureWindow)
                } else {
                    Ok(SessionAction::AskShutdown)
                }
            },
            (SessionState::Installing, SessionEvent::InstallFailed) => Err(
                SessionError::InstallFailed,
            ),
            (SessionState::AwaitingShutdownDecision, SessionEvent::ShutdownDecided(yes)) => {
                self.state = SessionState::Terminating;
                Ok(SessionAction::Terminate(yes))
            },
            (SessionState::AwaitingShutdownDecision, SessionEvent::ReconfigureRequested) => {
                self.state = SessionState::AwaitingDiskChoice;
                Ok(SessionAction::AskDisk)
            },
            (SessionState::AwaitingShutdownDecision, SessionEvent::WindowElapsed) => Ok(
                SessionAction::AskPostAction,
            ),
            (SessionState::AwaitingShutdownDecision, SessionEvent::PostActionChosen(a)) => {
                self.state = SessionState::Terminating;
                Ok(SessionAction::Terminate(a == PostInstallAction::Shutdown))
            },
            _ => vstd::pervasive::unreached(),
        }
    }

    /// How far along the linear progression a state stands.
    pub open spec fn state_rank(s: SessionState) -> int {
        match s {
            SessionState::AwaitingDefaultsDecision => 0,
            SessionState::AwaitingDiskChoice => 1,
            SessionState::AwaitingImageChoice => 2,
            SessionState::Installing => 3,
            SessionState::AwaitingShutdownDecision => 4,
            SessionState::Terminating => 5,
        }
    }

    /// The finalized choice: the very strings the settled indices name in the
    /// session's lists.
    pub fn finalized_choice(&self) -> (c: InstallationChoice)
        requires
            self.wf(),
            self.disk_index is Some,
            self.image_index is Some,
        ensures
            self.disk_index matches Some(i) ==> c.disk@ == self.disks@[i as int]@,
            self.image_index matches Some(j) ==> c.image@ == self.images@[j as int]@,
    {
        let i = match self.disk_index {
            Some(i) => i,
            None => vstd::pervasive::unreached(),
        };
        let j = match self.image_index {
            Some(j) => j,
            None => vstd::pervasive::unreached(),
        };
        InstallationChoice { disk: self.disks[i].clone(), image: self.images[j].clone() }
    }
}

/// Law: the transition relation preserves well-formedness. In particular, a
/// full and valid choice — indices that name entries of the unchanged lists —
/// is always finalized by the time the session stands at the install step.
pub proof fn lemma_step_preserves_wf(
    pre: Session,
    e: SessionEvent,
    post: Session,
    r: Result<SessionAction, SessionError>,
)
    requires
        pre.wf(),
        pre.event_allowed(e),
        Session::step_spec(pre, e, post, r),
    ensures
        post.wf(),
{
}

/// Law: the session's control flow is strictly linear. An aborting step
/// leaves the session where it stood; a successful step either holds its
/// place (the post-install window elapsing) or advances it — except the
/// reserved reconfiguration keypress, the one allowed return, which re-enters
/// the disk choice.
pub proof fn lemma_progression_linear(
    pre: Session,
    e: SessionEvent,
    post: Session,
    r: Result<SessionAction, SessionError>,
)
    requires
        pre.wf(),
        pre.event_allowed(e),
        Session::step_spec(pre, e, post, r),
    ensures
        r is Err ==> post == pre,
        e is WindowElapsed ==> post == pre,
        r is Ok && !(e is ReconfigureRequested) && !(e is WindowElapsed) ==> Session::state_rank(
            post.state,
        ) > Session::state_rank(pre.state),
        e is ReconfigureRequested ==> post.state is AwaitingDiskChoice,
{
}

} // verus!

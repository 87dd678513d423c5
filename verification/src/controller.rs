//! Controller-owned Machine state exposed as typed intents and snapshots.
//!
//! The controller thread alternates device work with decisions. The
//! decisions live here as [`ControllerCore`]: from its state and what the
//! Machine reported to the next state and the snapshot or event to publish.
use std::sync::Arc;
use vstd::prelude::*;
use vstd::string::StringExecFns;
use crate::camera::{pair_error_message, CapturePair, CapturePairError};
use crate::ligature::client::{transport_error_message, LigatureTransportError};
use crate::ligature::lifecycle::{EventView, LigatureCommand, LigatureEvent, LigatureSessionError, SessionErrorView};
use crate::ligature::protocol::{LigatureStatus, StatusView};

verus! {

/// Device events drained per controller tick before intents are read again.
pub const MAX_DEVICE_EVENTS_PER_TICK: usize = 32;

/// The complete set of UI-to-controller actions in the current Machine slice.
#[derive(Clone, Copy, Debug, PartialEq, Eq, Structural)]
pub enum ControllerIntent {
    /// Acquire one complete stationary Capture pair.
    CapturePair,
    /// Send one typed command through the controller-owned Ligature client.
    Ligature(LigatureCommand),
    /// Open a fresh Ligature connection epoch after a transport fault.
    ReconnectLigature,
    /// Terminate the controller without starting more Machine work.
    Exit,
}

#[derive(Clone, Copy, Debug, PartialEq, Eq, Structural)]
enum SetupBlockerKind {
    General,
    LigatureTransport,
}

/// One operator-facing reason live Machine setup cannot proceed.
#[derive(Clone, Debug, PartialEq, Eq)]
pub struct SetupBlocker {
    /// A concise diagnostic suitable for the Setup screen.
    pub summary: String,
    kind: SetupBlockerKind,
}

/// Model of a [`SetupBlocker`].
pub struct BlockerView {
    pub summary: Seq<char>,
    /// Whether the blocker comes from a Ligature transport failure.
    pub transport: bool,
}

impl View for SetupBlocker {
    type V = BlockerView;

    closed spec fn view(&self) -> BlockerView {
        BlockerView {
            summary: self.summary@,
            transport: self.kind == SetupBlockerKind::LigatureTransport,
        }
    }
}

impl SetupBlocker {
    /// Create an operator-facing Setup blocker.
    pub fn new(summary: &str) -> (b: Self)
        ensures
            b@ == (BlockerView { summary: summary@, transport: false }),
    {
        SetupBlocker { summary: summary.to_owned(), kind: SetupBlockerKind::General }
    }

    /// Create a blocker for a Ligature transport failure.
    pub fn ligature_transport(summary: &str) -> (b: Self)
        ensures
            b@ == (BlockerView { summary: summary@, transport: true }),
    {
        SetupBlocker { summary: summary.to_owned(), kind: SetupBlockerKind::LigatureTransport }
    }

    /// Whether the blocker comes from a Ligature transport failure.
    pub fn is_ligature_transport(&self) -> (b: bool)
        ensures
            b == self@.transport,
    {
        self.kind == SetupBlockerKind::LigatureTransport
    }

    /// The blocker's diagnostic.
    pub fn into_summary(self) -> (s: String)
        ensures
            s@ == self@.summary,
    {
        self.summary
    }

    /// A copy of this blocker.
    pub fn duplicate(&self) -> (b: Self)
        ensures
            b@ == self@,
    {
        SetupBlocker { summary: self.summary.clone(), kind: self.kind }
    }
}

/// The models of a list of blockers.
pub open spec fn blockers_view(v: Seq<SetupBlocker>) -> Seq<BlockerView> {
    v.map_values(|b: SetupBlocker| b@)
}

/// Live readiness shown by the non-actuating Setup screen.
#[derive(Clone, Debug, PartialEq, Eq)]
pub enum SetupState {
    /// Every adapter needed by this slice passed its live readiness gate.
    Ready,
    /// Ligature is connected for diagnostics but its production configuration is incomplete.
    Uncommissioned,
    /// Live devices or commissioning are unavailable, so actuation remains disabled.
    Blocked {
        /// Diagnostics explaining what must be corrected.
        reasons: Vec<SetupBlocker>,
    },
    /// Ligature could not establish or retain a trustworthy transport session.
    TransportFault {
        /// Diagnostics explaining what must be corrected.
        reasons: Vec<SetupBlocker>,
    },
}

/// Model of a [`SetupState`].
pub enum SetupView {
    Ready,
    Uncommissioned,
    Blocked(Seq<BlockerView>),
    TransportFault(Seq<BlockerView>),
}

impl View for SetupState {
    type V = SetupView;

    open spec fn view(&self) -> SetupView {
        match self {
            SetupState::Ready => SetupView::Ready,
            SetupState::Uncommissioned => SetupView::Uncommissioned,
            SetupState::Blocked { reasons } => SetupView::Blocked(blockers_view(reasons@)),
            SetupState::TransportFault { reasons } => SetupView::TransportFault(
                blockers_view(reasons@),
            ),
        }
    }
}

/// Current state of complete-pair acquisition.
#[derive(Clone, Debug, PartialEq, Eq)]
pub enum CaptureStatus {
    /// Camera roles are ready for a stationary acquisition.
    Ready,
    /// The controller is acquiring or retrying a pair.
    Capturing,
    /// The pair failed and scanning remains blocked until an explicit retry.
    Blocked {
        /// Operator-facing Camera diagnostic.
        reason: String,
    },
}

/// Model of a [`CaptureStatus`].
pub enum CaptureStatusView {
    Ready,
    Capturing,
    Blocked(Seq<char>),
}

impl View for CaptureStatus {
    type V = CaptureStatusView;

    open spec fn view(&self) -> CaptureStatusView {
        match self {
            CaptureStatus::Ready => CaptureStatusView::Ready,
            CaptureStatus::Capturing => CaptureStatusView::Capturing,
            CaptureStatus::Blocked { reason } => CaptureStatusView::Blocked(reason@),
        }
    }
}

/// Capture state and the latest complete pair suitable for presentation.
#[derive(Clone, Debug, PartialEq, Eq)]
pub struct CapturePreview {
    /// Current acquisition state.
    pub status: CaptureStatus,
    /// Latest complete pair. It remains unchanged during capture and retry.
    pub latest_complete_pair: Option<Arc<CapturePair>>,
    /// Prominent nonblocking warning for optional 100% preview degradation.
    pub preview_warning: Option<String>,
}

/// `Arc::clone`: another pointer to the same allocation, so to the same pair.
#[verifier::external_body]
fn share_pair(pair: &Arc<CapturePair>) -> (r: Arc<CapturePair>)
    ensures
        *r == **pair,
{
    Arc::clone(pair)
}

/// Another handle on the latest pair, if there is one.
fn share_latest(pair: &Option<Arc<CapturePair>>) -> (r: Option<Arc<CapturePair>>)
    ensures
        shared_pair(r) == shared_pair(*pair),
{
    match pair {
        Some(p) => Some(share_pair(p)),
        None => None,
    }
}

/// The pair behind an optional shared pointer.
pub open spec fn shared_pair(p: Option<Arc<CapturePair>>) -> Option<CapturePair> {
    match p {
        Some(a) => Some(*a),
        None => None,
    }
}

/// Model of a [`CapturePreview`].
pub struct PreviewStateView {
    pub status: CaptureStatusView,
    pub latest_complete_pair: Option<CapturePair>,
    pub preview_warning: Option<Seq<char>>,
}

impl View for CapturePreview {
    type V = PreviewStateView;

    open spec fn view(&self) -> PreviewStateView {
        PreviewStateView {
            status: self.status@,
            latest_complete_pair: shared_pair(self.latest_complete_pair),
            preview_warning: match self.preview_warning {
                Some(w) => Some(w@),
                None => None,
            },
        }
    }
}

/// Authoritative workflow projection rendered by the native UI.
#[derive(Clone, Debug, PartialEq, Eq)]
pub enum MachineScreen {
    /// The non-actuating live-readiness screen.
    Setup(SetupState),
    /// Complete-pair acquisition and its latest presentation-safe result.
    CapturePreview(CapturePreview),
    /// The controller accepted `Exit` and has stopped processing intents.
    Exited,
}

/// Model of a [`MachineScreen`].
pub enum ScreenView {
    Setup(SetupView),
    CapturePreview(PreviewStateView),
    Exited,
}

impl View for MachineScreen {
    type V = ScreenView;

    open spec fn view(&self) -> ScreenView {
        match self {
            MachineScreen::Setup(s) => ScreenView::Setup(s@),
            MachineScreen::CapturePreview(p) => ScreenView::CapturePreview(p@),
            MachineScreen::Exited => ScreenView::Exited,
        }
    }
}

/// A revisioned projection of controller-owned state.
#[derive(Clone, Debug, PartialEq)]
pub struct ControllerSnapshot {
    /// Monotonically increasing controller-state revision.
    pub revision: u64,
    /// The authoritative workflow projection for presentation.
    pub screen: MachineScreen,
    /// Latest controller-owned Ligature projection, if transport setup succeeded.
    pub ligature: Option<LigatureStatus>,
}

/// Model of a [`ControllerSnapshot`].
pub struct SnapshotView {
    pub revision: u64,
    pub screen: ScreenView,
    pub ligature: Option<StatusView>,
}

/// The model of an optional Ligature status.
pub open spec fn status_opt(s: Option<LigatureStatus>) -> Option<StatusView> {
    match s {
        Some(x) => Some(x@),
        None => None,
    }
}

impl View for ControllerSnapshot {
    type V = SnapshotView;

    open spec fn view(&self) -> SnapshotView {
        SnapshotView {
            revision: self.revision,
            screen: self.screen@,
            ligature: status_opt(self.ligature),
        }
    }
}

/// Asynchronous controller traffic that is not itself workflow state.
#[derive(Clone, Debug, PartialEq)]
pub enum ControllerEvent {
    /// One correlated reply or unsolicited message from Ligature.
    Ligature(LigatureEvent),
    /// The current readiness or operation lifecycle rejected a typed command.
    LigatureRejected(LigatureSessionError),
    /// The Ligature connection can no longer correlate commands safely.
    LigatureTransportFault(SetupBlocker),
}

/// Model of a [`ControllerEvent`].
pub enum ControllerEventView {
    Ligature(EventView),
    LigatureRejected(SessionErrorView),
    LigatureTransportFault(BlockerView),
}

impl View for ControllerEvent {
    type V = ControllerEventView;

    open spec fn view(&self) -> ControllerEventView {
        match self {
            ControllerEvent::Ligature(e) => ControllerEventView::Ligature(e@),
            ControllerEvent::LigatureRejected(e) => ControllerEventView::LigatureRejected(e@),
            ControllerEvent::LigatureTransportFault(b) => ControllerEventView::LigatureTransportFault(
                b@,
            ),
        }
    }
}

/// The controller is no longer accepting intents.
#[derive(Clone, Copy, Debug, PartialEq, Eq, Structural)]
pub struct ControllerClosed;

impl ControllerClosed {
    /// The operator-facing text of the condition.
    pub fn message(&self) -> (s: String)
        ensures
            s@ == "the Machine controller is closed"@,
    {
        "the Machine controller is closed".to_owned()
    }
}

impl CaptureStatus {
    /// A copy of this status.
    pub fn duplicate(&self) -> (r: Self)
        ensures
            r@ == self@,
    {
        match self {
            CaptureStatus::Ready => CaptureStatus::Ready,
            CaptureStatus::Capturing => CaptureStatus::Capturing,
            CaptureStatus::Blocked { reason } => CaptureStatus::Blocked { reason: reason.clone() },
        }
    }
}

/// Whether any blocker comes from a Ligature transport failure.
pub open spec fn any_transport(reasons: Seq<BlockerView>) -> bool {
    exists|i: int| 0 <= i < reasons.len() && #[trigger] reasons[i].transport
}

/// The Setup state for blockers reported while opening the Machine: a
/// transport fault where any blocker is one, else blocked.
pub open spec fn spec_setup_failure(reasons: Seq<BlockerView>) -> SetupView {
    if any_transport(reasons) {
        SetupView::TransportFault(reasons)
    } else {
        SetupView::Blocked(reasons)
    }
}

/// Classifies the blockers reported while opening the Machine.
pub fn setup_failure(reasons: Vec<SetupBlocker>) -> (r: SetupState)
    ensures
        r@ == spec_setup_failure(blockers_view(reasons@)),
{
    let mut i: usize = 0;
    while i < reasons.len()
        invariant
            i <= reasons@.len(),
            forall|j: int| 0 <= j < i ==> !(#[trigger] blockers_view(reasons@)[j]).transport,
        decreases reasons@.len() - i,
    {
        if reasons[i].is_ligature_transport() {
            assert(blockers_view(reasons@)[i as int].transport);
            return SetupState::TransportFault { reasons };
        }
        i = i + 1;
    }
    SetupState::Blocked { reasons }
}

/// The diagnostic of a frame whose 100% preview is missing, if it is.
pub open spec fn missing_detail(f: crate::camera::FrameView) -> Option<Seq<char>> {
    match f.native_detail {
        Ok(_) => None,
        Err(m) => Some(m),
    }
}

/// The warning shown for a pair whose 100% previews are partly missing.
pub open spec fn spec_preview_warning(pair: CapturePair) -> Option<Seq<char>> {
    let left = "Left 100% preview is unavailable: "@;
    let right = "Right 100% preview is unavailable: "@;
    match (missing_detail(pair.left@), missing_detail(pair.right@)) {
        (None, None) => None,
        (Some(l), None) => Some(left + l),
        (None, Some(r)) => Some(right + r),
        (Some(l), Some(r)) => Some(left + l + "; "@ + right + r),
    }
}

/// The nonblocking warning for a pair whose optional 100% previews are missing.
pub fn native_detail_preview_warning(pair: &CapturePair) -> (w: Option<String>)
    ensures
        match w {
            Some(s) => spec_preview_warning(*pair) == Some(s@),
            None => spec_preview_warning(*pair) is None,
        },
{
    let left = match pair.left.native_detail_preview() {
        Ok(_) => None,
        Err(e) => {
            let mut s = "Left 100% preview is unavailable: ".to_owned();
            let m = e.message();
            s.append(m.as_str());
            Some(s)
        },
    };
    let right = match pair.right.native_detail_preview() {
        Ok(_) => None,
        Err(e) => {
            let mut s = "Right 100% preview is unavailable: ".to_owned();
            let m = e.message();
            s.append(m.as_str());
            Some(s)
        },
    };
    match (left, right) {
        (None, None) => None,
        (Some(l), None) => Some(l),
        (None, Some(r)) => Some(r),
        (Some(l), Some(r)) => {
            let mut s = l;
            s.append("; ");
            s.append(r.as_str());
            Some(s)
        },
    }
}

/// The warning for an optional latest pair.
pub open spec fn spec_pair_warning(pair: Option<CapturePair>) -> Option<Seq<char>> {
    match pair {
        Some(p) => spec_preview_warning(p),
        None => None,
    }
}

/// The Capture-preview screen for a status and the latest complete pair.
pub open spec fn spec_capture_preview(status: CaptureStatusView, pair: Option<CapturePair>) -> ScreenView {
    ScreenView::CapturePreview(
        PreviewStateView {
            status,
            latest_complete_pair: pair,
            preview_warning: spec_pair_warning(pair),
        },
    )
}

/// Builds the Capture-preview screen for a status and the latest complete pair.
pub fn capture_preview(status: CaptureStatus, latest_complete_pair: Option<Arc<CapturePair>>) -> (r:
    MachineScreen)
    ensures
        r@ == spec_capture_preview(status@, shared_pair(latest_complete_pair)),
{
    let preview_warning = match &latest_complete_pair {
        Some(pair) => {
            let p: &CapturePair = pair;
            native_detail_preview_warning(p)
        },
        None => None,
    };
    MachineScreen::CapturePreview(
        CapturePreview { status, latest_complete_pair, preview_warning },
    )
}

/// What the Machine reports each time the controller projects its state.
pub struct MachineFacts {
    /// The Setup projection derived from controller-owned state.
    pub setup: SetupState,
    /// Whether the Machine has the Camera roles needed for pair acquisition.
    pub capture_available: bool,
    /// The current public Ligature status, if connected.
    pub ligature: Option<LigatureStatus>,
}

/// The screen for the Machine's Setup state: the Capture preview when the
/// Machine is ready and can capture, else the Setup screen.
pub open spec fn spec_project_screen(
    setup: SetupView,
    capture_available: bool,
    status: CaptureStatusView,
    pair: Option<CapturePair>,
) -> ScreenView {
    if setup is Ready && capture_available {
        spec_capture_preview(status, pair)
    } else {
        ScreenView::Setup(setup)
    }
}

/// Projects the Machine's Setup state onto the screen.
pub fn project_screen(
    setup: SetupState,
    capture_available: bool,
    capture_status: &CaptureStatus,
    latest_complete_pair: Option<Arc<CapturePair>>,
) -> (r: MachineScreen)
    ensures
        r@ == spec_project_screen(
            setup@,
            capture_available,
            capture_status@,
            shared_pair(latest_complete_pair),
        ),
{
    match setup {
        SetupState::Ready => if capture_available {
            capture_preview(capture_status.duplicate(), latest_complete_pair)
        } else {
            MachineScreen::Setup(SetupState::Ready)
        },
        other => MachineScreen::Setup(other),
    }
}

/// Model of [`MachineFacts`].
pub struct FactsView {
    pub setup: SetupView,
    pub capture_available: bool,
    pub ligature: Option<StatusView>,
}

impl View for MachineFacts {
    type V = FactsView;

    open spec fn view(&self) -> FactsView {
        FactsView {
            setup: self.setup@,
            capture_available: self.capture_available,
            ligature: status_opt(self.ligature),
        }
    }
}

/// Model of a [`ControllerCore`].
pub struct CoreView {
    /// Revision of the last published snapshot.
    pub revision: u64,
    pub capture_status: CaptureStatusView,
    pub latest_complete_pair: Option<CapturePair>,
    /// Whether Ligature work is suspended until a successful reconnect.
    pub transport_faulted: bool,
    /// Whether Machine adapters are open.
    pub has_machine: bool,
}

/// Well-formedness: without open adapters, Ligature work is suspended.
pub open spec fn core_wf(c: CoreView) -> bool {
    c.has_machine || c.transport_faulted
}

/// Decision state of the controller thread.
pub struct ControllerCore {
    revision: u64,
    capture_status: CaptureStatus,
    latest_complete_pair: Option<Arc<CapturePair>>,
    transport_faulted: bool,
    has_machine: bool,
}

impl View for ControllerCore {
    type V = CoreView;

    closed spec fn view(&self) -> CoreView {
        CoreView {
            revision: self.revision,
            capture_status: self.capture_status@,
            latest_complete_pair: shared_pair(self.latest_complete_pair),
            transport_faulted: self.transport_faulted,
            has_machine: self.has_machine,
        }
    }
}

/// A snapshot built from its parts.
pub open spec fn snapshot(revision: u64, screen: ScreenView, ligature: Option<StatusView>) -> SnapshotView {
    SnapshotView { revision, screen, ligature }
}

/// The state and first snapshot after the Machine factory ran: the Setup
/// screen in the Machine's reported state when it opened, Ready included
/// (the Capture preview appears with the first projection or acquisition),
/// else the classified blockers and no adapters.
pub open spec fn spec_open(opened: Result<FactsView, Seq<BlockerView>>) -> (CoreView, SnapshotView) {
    match opened {
        Ok(f) => {
            let c = CoreView {
                revision: 0,
                capture_status: CaptureStatusView::Ready,
                latest_complete_pair: None,
                transport_faulted: false,
                has_machine: true,
            };
            (c, snapshot(0, ScreenView::Setup(f.setup), f.ligature))
        },
        Err(reasons) => {
            let c = CoreView {
                revision: 0,
                capture_status: CaptureStatusView::Ready,
                latest_complete_pair: None,
                transport_faulted: true,
                has_machine: false,
            };
            (c, snapshot(0, ScreenView::Setup(spec_setup_failure(reasons)), None))
        },
    }
}

/// Whether a `CapturePair` intent starts an acquisition: Ligature is not
/// faulted and the Machine can capture and reports Ready.
pub open spec fn spec_may_capture(c: CoreView, f: FactsView) -> bool {
    !c.transport_faulted && c.has_machine && f.capture_available && f.setup is Ready
}

/// Acquisition starts: `Capturing`, with the latest pair still shown.
pub open spec fn spec_begin_capture(c: CoreView, ligature: Option<StatusView>) -> (CoreView, SnapshotView) {
    let next = CoreView {
        revision: (c.revision + 1) as u64,
        capture_status: CaptureStatusView::Capturing,
        ..c
    };
    (
        next,
        snapshot(
            next.revision,
            spec_capture_preview(CaptureStatusView::Capturing, c.latest_complete_pair),
            ligature,
        ),
    )
}

/// Acquisition ends: a complete pair replaces the latest one; a failure
/// blocks capture with its diagnostic and keeps the latest pair.
pub open spec fn spec_finish_capture(
    c: CoreView,
    outcome: Result<CapturePair, CapturePairError>,
    ligature: Option<StatusView>,
) -> (CoreView, SnapshotView) {
    let (status, pair) = match outcome {
        Ok(p) => (CaptureStatusView::Ready, Some(p)),
        Err(e) => (CaptureStatusView::Blocked(pair_error_message(e)), c.latest_complete_pair),
    };
    let next = CoreView {
        revision: (c.revision + 1) as u64,
        capture_status: status,
        latest_complete_pair: pair,
        ..c
    };
    (next, snapshot(next.revision, spec_capture_preview(status, pair), ligature))
}

/// Whether Ligature commands reach the Machine and its events are polled.
pub open spec fn spec_ligature_live(c: CoreView) -> bool {
    !c.transport_faulted && c.has_machine
}

/// Where a failed Ligature command is reported.
pub enum LigatureFailureRoute {
    /// The lifecycle rejected the command; the connection stays usable.
    Rejected(LigatureSessionError),
    /// The connection can no longer correlate commands; the summary explains why.
    TransportFault(String),
}

/// A transport fault: Ligature work stops until a reconnect succeeds, and the
/// Setup screen shows the fault as its only blocker.
pub open spec fn spec_transport_fault(c: CoreView, summary: Seq<char>) -> (
    CoreView,
    ControllerEventView,
    SnapshotView,
) {
    let blocker = BlockerView { summary, transport: true };
    let next = CoreView { revision: (c.revision + 1) as u64, transport_faulted: true, ..c };
    (
        next,
        ControllerEventView::LigatureTransportFault(blocker),
        snapshot(next.revision, ScreenView::Setup(SetupView::TransportFault(seq![blocker])), None),
    )
}

/// A projection of the Machine's current facts under a new revision.
pub open spec fn spec_project(c: CoreView, f: FactsView) -> (CoreView, SnapshotView) {
    let next = CoreView { revision: (c.revision + 1) as u64, ..c };
    (
        next,
        snapshot(
            next.revision,
            spec_project_screen(
                f.setup,
                f.capture_available,
                c.capture_status,
                c.latest_complete_pair,
            ),
            f.ligature,
        ),
    )
}

/// A successful reconnect or reopen: Ligature work resumes and the Machine's
/// facts are projected.
pub open spec fn spec_reconnected(c: CoreView, f: FactsView) -> (CoreView, SnapshotView) {
    spec_project(CoreView { transport_faulted: false, has_machine: true, ..c }, f)
}

/// The final snapshot after `Exit`.
pub open spec fn spec_exit(c: CoreView) -> (CoreView, SnapshotView) {
    let next = CoreView { revision: (c.revision + 1) as u64, ..c };
    (next, snapshot(next.revision, ScreenView::Exited, None))
}

/// The summary of a failed reopen: the blockers' summaries joined by `; `.
pub open spec fn joined_summaries(reasons: Seq<BlockerView>) -> Seq<char>
    decreases reasons.len(),
{
    if reasons.len() == 0 {
        Seq::empty()
    } else if reasons.len() == 1 {
        reasons[0].summary
    } else {
        joined_summaries(reasons.drop_last()) + "; "@ + reasons.last().summary
    }
}

impl ControllerCore {
    /// The state and first snapshot after the Machine factory ran.
    pub fn open(opened: Result<MachineFacts, Vec<SetupBlocker>>) -> (r: (Self, ControllerSnapshot))
        ensures
            (r.0@, r.1@) == spec_open(
                match opened {
                    Ok(f) => Ok(f@),
                    Err(v) => Err(blockers_view(v@)),
                },
            ),
            core_wf(r.0@),
    {
        match opened {
            Ok(facts) => {
                let core = ControllerCore {
                    revision: 0,
                    capture_status: CaptureStatus::Ready,
                    latest_complete_pair: None,
                    transport_faulted: false,
                    has_machine: true,
                };
                (
                    core,
                    ControllerSnapshot {
                        revision: 0,
                        screen: MachineScreen::Setup(facts.setup),
                        ligature: facts.ligature,
                    },
                )
            },
            Err(reasons) => {
                let core = ControllerCore {
                    revision: 0,
                    capture_status: CaptureStatus::Ready,
                    latest_complete_pair: None,
                    transport_faulted: true,
                    has_machine: false,
                };
                let setup = setup_failure(reasons);
                (
                    core,
                    ControllerSnapshot {
                        revision: 0,
                        screen: MachineScreen::Setup(setup),
                        ligature: None,
                    },
                )
            },
        }
    }

    /// Revision of the last published snapshot.
    pub fn revision(&self) -> (r: u64)
        ensures
            r == self@.revision,
    {
        self.revision
    }

    /// Whether Machine adapters are open.
    pub fn has_machine(&self) -> (b: bool)
        ensures
            b == self@.has_machine,
    {
        self.has_machine
    }

    /// Whether a `CapturePair` intent starts an acquisition now.
    pub fn may_capture(&self, facts: &MachineFacts) -> (b: bool)
        ensures
            b == spec_may_capture(self@, facts@),
    {
        !self.transport_faulted && self.has_machine && facts.capture_available && match facts.setup {
            SetupState::Ready => true,
            _ => false,
        }
    }

    /// Whether Ligature commands reach the Machine and its events are polled.
    pub fn ligature_live(&self) -> (b: bool)
        ensures
            b == spec_ligature_live(self@),
    {
        !self.transport_faulted && self.has_machine
    }

    /// Acquisition starts.
    pub fn begin_capture(&mut self, ligature: Option<LigatureStatus>) -> (snap: ControllerSnapshot)
        requires
            old(self)@.revision < u64::MAX,
        ensures
            (final(self)@, snap@) == spec_begin_capture(old(self)@, status_opt(ligature)),
    {
        self.revision = self.revision + 1;
        self.capture_status = CaptureStatus::Capturing;
        let screen = capture_preview(CaptureStatus::Capturing, share_latest(&self.latest_complete_pair));
        ControllerSnapshot { revision: self.revision, screen, ligature }
    }

    /// Acquisition ends with the Machine's result.
    pub fn finish_capture(
        &mut self,
        outcome: Result<CapturePair, CapturePairError>,
        ligature: Option<LigatureStatus>,
    ) -> (snap: ControllerSnapshot)
        requires
            old(self)@.revision < u64::MAX,
        ensures
            (final(self)@, snap@) == spec_finish_capture(old(self)@, outcome, status_opt(ligature)),
    {
        self.revision = self.revision + 1;
        match outcome {
            Ok(pair) => {
                self.latest_complete_pair = Some(Arc::new(pair));
                self.capture_status = CaptureStatus::Ready;
            },
            Err(e) => {
                self.capture_status = CaptureStatus::Blocked { reason: e.message() };
            },
        }
        let screen = capture_preview(
            self.capture_status.duplicate(),
            share_latest(&self.latest_complete_pair),
        );
        ControllerSnapshot { revision: self.revision, screen, ligature }
    }

    /// A projection of the Machine's current facts after a Ligature status change.
    pub fn status_changed(&mut self, facts: MachineFacts) -> (snap: ControllerSnapshot)
        requires
            old(self)@.revision < u64::MAX,
        ensures
            (final(self)@, snap@) == spec_project(old(self)@, facts@),
    {
        self.revision = self.revision + 1;
        let screen = project_screen(
            facts.setup,
            facts.capture_available,
            &self.capture_status,
            share_latest(&self.latest_complete_pair),
        );
        ControllerSnapshot { revision: self.revision, screen, ligature: facts.ligature }
    }

    /// A transport fault: Ligature work stops until a reconnect succeeds.
    pub fn transport_fault(&mut self, summary: &str) -> (r: (ControllerEvent, ControllerSnapshot))
        requires
            old(self)@.revision < u64::MAX,
        ensures
            (final(self)@, r.0@, r.1@) == spec_transport_fault(old(self)@, summary@),
            core_wf(final(self)@),
    {
        let blocker = SetupBlocker::ligature_transport(summary);
        let event = ControllerEvent::LigatureTransportFault(blocker.duplicate());
        self.revision = self.revision + 1;
        self.transport_faulted = true;
        let mut reasons: Vec<SetupBlocker> = Vec::new();
        reasons.push(blocker);
        assert(blockers_view(reasons@) =~= seq![BlockerView { summary: summary@, transport: true }]);
        (
            event,
            ControllerSnapshot {
                revision: self.revision,
                screen: MachineScreen::Setup(SetupState::TransportFault { reasons }),
                ligature: None,
            },
        )
    }

    /// A successful reconnect of the open Machine, or a successful reopen.
    pub fn reconnected(&mut self, facts: MachineFacts) -> (snap: ControllerSnapshot)
        requires
            old(self)@.revision < u64::MAX,
        ensures
            (final(self)@, snap@) == spec_reconnected(old(self)@, facts@),
            core_wf(final(self)@),
    {
        self.transport_faulted = false;
        self.has_machine = true;
        self.status_changed(facts)
    }

    /// The final snapshot after `Exit`.
    pub fn exit(&mut self) -> (snap: ControllerSnapshot)
        requires
            old(self)@.revision < u64::MAX,
        ensures
            (final(self)@, snap@) == spec_exit(old(self)@),
    {
        self.revision = self.revision + 1;
        ControllerSnapshot { revision: self.revision, screen: MachineScreen::Exited, ligature: None }
    }
}

/// Routes a failed Ligature command: a busy or commissioning-only rejection
/// leaves the connection usable; anything else is a transport fault.
pub fn route_ligature_failure(error: LigatureTransportError) -> (r: LigatureFailureRoute)
    ensures
        match error {
            LigatureTransportError::Session(LigatureSessionError::Busy) => r matches LigatureFailureRoute::Rejected(
                LigatureSessionError::Busy,
            ),
            LigatureTransportError::Session(LigatureSessionError::CommissioningOnly) => r matches LigatureFailureRoute::Rejected(
                LigatureSessionError::CommissioningOnly,
            ),
            _ => r matches LigatureFailureRoute::TransportFault(s) && s@ == transport_error_message(
                error,
            ),
        },
{
    match error {
        LigatureTransportError::Session(LigatureSessionError::Busy) => LigatureFailureRoute::Rejected(
            LigatureSessionError::Busy,
        ),
        LigatureTransportError::Session(LigatureSessionError::CommissioningOnly) => LigatureFailureRoute::Rejected(
            LigatureSessionError::CommissioningOnly,
        ),
        other => LigatureFailureRoute::TransportFault(other.message()),
    }
}

/// The device error reported when reopening the Machine failed: its
/// blockers' summaries joined by `; `.
pub fn reopen_failure(reasons: &Vec<SetupBlocker>) -> (e: LigatureTransportError)
    ensures
        e matches LigatureTransportError::Device(d) && d@ == joined_summaries(blockers_view(reasons@)),
{
    let mut joined = String::new();
    let mut i: usize = 0;
    while i < reasons.len()
        invariant
            i <= reasons@.len(),
            joined@ == joined_summaries(blockers_view(reasons@.take(i as int))),
        decreases reasons@.len() - i,
    {
        proof {
            assert(blockers_view(reasons@.take(i + 1)).drop_last() =~= blockers_view(
                reasons@.take(i as int),
            ));
        }
        if i > 0 {
            joined.append("; ");
        }
        joined.append(reasons[i].summary.as_str());
        i = i + 1;
    }
    assert(reasons@.take(i as int) =~= reasons@);
    LigatureTransportError::Device(joined)
}

/// Every published snapshot carries the next revision: revisions strictly
/// increase, whatever transition publishes them.
pub proof fn law_snapshot_revisions_increase(
    c: CoreView,
    f: FactsView,
    ligature: Option<StatusView>,
    outcome: Result<CapturePair, CapturePairError>,
    summary: Seq<char>,
)
    requires
        c.revision < u64::MAX,
    ensures
        spec_begin_capture(c, ligature).1.revision == c.revision + 1,
        spec_begin_capture(c, ligature).0.revision == c.revision + 1,
        spec_finish_capture(c, outcome, ligature).1.revision == c.revision + 1,
        spec_finish_capture(c, outcome, ligature).0.revision == c.revision + 1,
        spec_project(c, f).1.revision == c.revision + 1,
        spec_project(c, f).0.revision == c.revision + 1,
        spec_reconnected(c, f).1.revision == c.revision + 1,
        spec_reconnected(c, f).0.revision == c.revision + 1,
        spec_transport_fault(c, summary).2.revision == c.revision + 1,
        spec_transport_fault(c, summary).0.revision == c.revision + 1,
        spec_exit(c).1.revision == c.revision + 1,
        spec_exit(c).0.revision == c.revision + 1,
{
}

/// The latest complete pair stays on screen while a new one is acquired,
/// and a failed acquisition blocks capture but keeps that pair; only a
/// complete pair replaces it.
pub proof fn law_latest_pair_changes_only_on_success(
    c: CoreView,
    ligature: Option<StatusView>,
    outcome: Result<CapturePair, CapturePairError>,
)
    requires
        c.revision < u64::MAX,
    ensures
        spec_begin_capture(c, ligature).0.latest_complete_pair == c.latest_complete_pair,
        spec_begin_capture(c, ligature).1.screen == spec_capture_preview(
            CaptureStatusView::Capturing,
            c.latest_complete_pair,
        ),
        match outcome {
            Ok(p) => spec_finish_capture(c, outcome, ligature).0.latest_complete_pair == Some(p)
                && spec_finish_capture(c, outcome, ligature).0.capture_status is Ready,
            Err(e) => spec_finish_capture(c, outcome, ligature).0.latest_complete_pair
                == c.latest_complete_pair && spec_finish_capture(c, outcome, ligature).0.capture_status
                == CaptureStatusView::Blocked(pair_error_message(e)),
        },
{
}

/// After a transport fault no Ligature command reaches the Machine, no
/// event is polled and no capture starts, until a reconnect succeeds; no
/// other transition lifts the fault.
pub proof fn law_transport_fault_suspends_work_until_reconnect(
    c: CoreView,
    f: FactsView,
    g: FactsView,
    ligature: Option<StatusView>,
    outcome: Result<CapturePair, CapturePairError>,
    summary: Seq<char>,
)
    requires
        c.revision < u64::MAX,
    ensures
        !spec_ligature_live(spec_transport_fault(c, summary).0),
        !spec_may_capture(spec_transport_fault(c, summary).0, f),
        c.transport_faulted ==> spec_begin_capture(c, ligature).0.transport_faulted,
        c.transport_faulted ==> spec_finish_capture(c, outcome, ligature).0.transport_faulted,
        c.transport_faulted ==> spec_project(c, f).0.transport_faulted,
        c.transport_faulted ==> spec_exit(c).0.transport_faulted,
        spec_ligature_live(spec_reconnected(c, f).0),
        spec_may_capture(spec_reconnected(c, f).0, g) <==> g.capture_available && g.setup is Ready,
{
}

/// Opening the Machine without adapters shows its blockers and suspends
/// Ligature work; a transport blocker makes the screen a transport fault.
pub proof fn law_failed_open_blocks_setup(reasons: Seq<BlockerView>, i: int)
    requires
        0 <= i < reasons.len(),
        reasons[i].transport,
    ensures
        spec_open(Err(reasons)).1.screen == ScreenView::Setup(SetupView::TransportFault(reasons)),
        !spec_ligature_live(spec_open(Err(reasons)).0),
        core_wf(spec_open(Err(reasons)).0),
{
}

/// One transition of the controller core, as the controller thread applies
/// it after the Machine opened.
pub enum CoreStep {
    /// [`ControllerCore::begin_capture`] with the current Ligature status.
    BeginCapture(Option<StatusView>),
    /// [`ControllerCore::finish_capture`] with the Machine's result.
    FinishCapture(Result<CapturePair, CapturePairError>, Option<StatusView>),
    /// [`ControllerCore::status_changed`] with the Machine's facts.
    StatusChanged(FactsView),
    /// [`ControllerCore::transport_fault`] with the fault's summary.
    TransportFault(Seq<char>),
    /// [`ControllerCore::reconnected`] with the Machine's facts.
    Reconnected(FactsView),
    /// [`ControllerCore::exit`].
    Exit,
}

/// The core and the snapshot after one transition.
pub open spec fn spec_step(c: CoreView, step: CoreStep) -> (CoreView, SnapshotView) {
    match step {
        CoreStep::BeginCapture(l) => spec_begin_capture(c, l),
        CoreStep::FinishCapture(o, l) => spec_finish_capture(c, o, l),
        CoreStep::StatusChanged(f) => spec_project(c, f),
        CoreStep::TransportFault(m) => (spec_transport_fault(c, m).0, spec_transport_fault(c, m).2),
        CoreStep::Reconnected(f) => spec_reconnected(c, f),
        CoreStep::Exit => spec_exit(c),
    }
}

/// The core after a sequence of transitions.
pub open spec fn spec_run(c: CoreView, steps: Seq<CoreStep>) -> CoreView
    decreases steps.len(),
{
    if steps.len() == 0 {
        c
    } else {
        spec_step(spec_run(c, steps.drop_last()), steps.last()).0
    }
}

/// The snapshot that transition `i` of `steps` publishes.
pub open spec fn published(c: CoreView, steps: Seq<CoreStep>, i: int) -> SnapshotView {
    spec_step(spec_run(c, steps.take(i)), steps[i]).1
}

/// The pair of the last successful acquisition among `steps`, if any.
pub open spec fn last_complete_pair(steps: Seq<CoreStep>) -> Option<CapturePair>
    decreases steps.len(),
{
    if steps.len() == 0 {
        None
    } else {
        match steps.last() {
            CoreStep::FinishCapture(Ok(p), _) => Some(p),
            _ => last_complete_pair(steps.drop_last()),
        }
    }
}

/// The Capture status that the acquisitions among `steps` leave: `Capturing`
/// while one runs, `Ready` after a complete pair or before any, and
/// `Blocked` with the failure's message after a failed one.
pub open spec fn last_capture_status(steps: Seq<CoreStep>) -> CaptureStatusView
    decreases steps.len(),
{
    if steps.len() == 0 {
        CaptureStatusView::Ready
    } else {
        match steps.last() {
            CoreStep::BeginCapture(_) => CaptureStatusView::Capturing,
            CoreStep::FinishCapture(Ok(_), _) => CaptureStatusView::Ready,
            CoreStep::FinishCapture(Err(e), _) => CaptureStatusView::Blocked(pair_error_message(e)),
            _ => last_capture_status(steps.drop_last()),
        }
    }
}

/// After `n` transitions from a freshly opened core, the revision is `n`,
/// the latest pair is the last complete one, and the Capture status is the
/// one the last acquisition left.
proof fn lemma_run_prefix(c: CoreView, steps: Seq<CoreStep>, n: int)
    requires
        c.revision == 0,
        c.latest_complete_pair is None,
        c.capture_status == CaptureStatusView::Ready,
        0 <= n <= steps.len(),
        steps.len() < u64::MAX,
    ensures
        spec_run(c, steps.take(n)).revision == n,
        spec_run(c, steps.take(n)).latest_complete_pair == last_complete_pair(steps.take(n)),
        spec_run(c, steps.take(n)).capture_status == last_capture_status(steps.take(n)),
    decreases n,
{
    if n > 0 {
        lemma_run_prefix(c, steps, n - 1);
        assert(steps.take(n).drop_last() =~= steps.take(n - 1));
        assert(steps.take(n).last() == steps[n - 1]);
    } else {
        assert(steps.take(0) =~= Seq::<CoreStep>::empty());
    }
}

/// Over any sequence of transitions after the Machine opened, the snapshots
/// carry revisions 0, 1, 2, ... in the order they are published; a Capture
/// preview always shows the pair of the last successful acquisition so far,
/// or none before the first; and `Exit` publishes the final `Exited`
/// snapshot without Ligature status.
pub proof fn law_published_revisions_count_up(
    opened: Result<FactsView, Seq<BlockerView>>,
    steps: Seq<CoreStep>,
    i: int,
)
    requires
        steps.len() < u64::MAX,
        0 <= i < steps.len(),
    ensures
        spec_open(opened).1.revision == 0,
        published(spec_open(opened).0, steps, i).revision == i + 1,
        spec_run(spec_open(opened).0, steps.take(i + 1)).latest_complete_pair == last_complete_pair(
            steps.take(i + 1),
        ),
        published(spec_open(opened).0, steps, i).screen matches ScreenView::CapturePreview(p)
            ==> p.latest_complete_pair == last_complete_pair(steps.take(i + 1)),
        steps[i] is Exit ==> published(spec_open(opened).0, steps, i) == snapshot(
            (i + 1) as u64,
            ScreenView::Exited,
            None,
        ),
{
    let c = spec_open(opened).0;
    lemma_run_prefix(c, steps, i);
    lemma_run_prefix(c, steps, i + 1);
    assert(steps.take(i + 1).drop_last() =~= steps.take(i));
    assert(steps.take(i + 1).last() == steps[i]);
}

/// A Capture preview always shows the Capture status of the latest
/// acquisition: after a failed one it stays `Blocked` with that failure's
/// message through status changes, faults and reconnects, until another
/// acquisition starts; after a complete pair it is `Ready`, and `Capturing`
/// while one runs. A status change or reconnect that shows the preview shows
/// the core's own Capture status.
pub proof fn law_preview_shows_latest_capture_status(
    opened: Result<FactsView, Seq<BlockerView>>,
    steps: Seq<CoreStep>,
    i: int,
    c: CoreView,
    f: FactsView,
)
    requires
        steps.len() < u64::MAX,
        0 <= i < steps.len(),
        c.revision < u64::MAX,
    ensures
        published(spec_open(opened).0, steps, i).screen matches ScreenView::CapturePreview(p)
            ==> p.status == last_capture_status(steps.take(i + 1)),
        spec_project(c, f).1.screen matches ScreenView::CapturePreview(p) ==> p.status
            == c.capture_status,
        spec_reconnected(c, f).1.screen matches ScreenView::CapturePreview(p) ==> p.status
            == c.capture_status,
{
    let c0 = spec_open(opened).0;
    lemma_run_prefix(c0, steps, i);
    lemma_run_prefix(c0, steps, i + 1);
    assert(steps.take(i + 1).drop_last() =~= steps.take(i));
    assert(steps.take(i + 1).last() == steps[i]);
}

/// The Setup state of a Ligature-only Machine: ready once its session
/// enables scanning, else connected but uncommissioned.
pub fn ligature_setup_state(scan_enabled: bool) -> (s: SetupState)
    ensures
        scan_enabled ==> s@ == SetupView::Ready,
        !scan_enabled ==> s@ == SetupView::Uncommissioned,
{
    if scan_enabled {
        SetupState::Ready
    } else {
        SetupState::Uncommissioned
    }
}

/// The transport blocker for a Ligature device that could not be opened.
pub fn ligature_connection_failed(error: &LigatureTransportError) -> (b: SetupBlocker)
    ensures
        b@ == (BlockerView {
            summary: "Ligature connection failed: "@ + transport_error_message(*error),
            transport: true,
        }),
{
    let mut s = "Ligature connection failed: ".to_owned();
    let m = error.message();
    s.append(m.as_str());
    SetupBlocker::ligature_transport(s.as_str())
}

/// The transport blocker for a Ligature readiness query that failed.
pub fn ligature_query_failed(error: &LigatureTransportError) -> (b: SetupBlocker)
    ensures
        b@ == (BlockerView {
            summary: "Ligature readiness query failed: "@ + transport_error_message(*error),
            transport: true,
        }),
{
    let mut s = "Ligature readiness query failed: ".to_owned();
    let m = error.message();
    s.append(m.as_str());
    SetupBlocker::ligature_transport(s.as_str())
}

/// Both adapter groups, or every blocker: the Camera blockers first.
pub fn combine_openings<A, B>(
    cameras: Result<A, Vec<SetupBlocker>>,
    ligature: Result<B, Vec<SetupBlocker>>,
) -> (r: Result<(A, B), Vec<SetupBlocker>>)
    ensures
        match (cameras, ligature) {
            (Ok(a), Ok(b)) => r == Ok::<(A, B), Vec<SetupBlocker>>((a, b)),
            (Err(x), Err(y)) => r matches Err(v) && v@ == x@ + y@,
            (Err(x), Ok(_)) => r matches Err(v) && v@ == x@,
            (Ok(_), Err(y)) => r matches Err(v) && v@ == y@,
        },
{
    match (cameras, ligature) {
        (Ok(a), Ok(b)) => Ok((a, b)),
        (Err(mut x), Err(mut y)) => {
            x.append(&mut y);
            Err(x)
        },
        (Err(x), Ok(_)) => Err(x),
        (Ok(_), Err(y)) => Err(y),
    }
}

/// Production factory that opens Ligature after Machine-profile validation.
#[derive(Clone, Copy, Debug, Default, PartialEq, Eq, Structural)]
pub struct LigatureMachineFactory;

/// Production factory for all controller-owned Machine adapters.
#[derive(Clone, Copy, Debug, Default, PartialEq, Eq, Structural)]
pub struct SansMachineFactory;

} // verus!

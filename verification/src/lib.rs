//! Verified core of the Sans book-scanner controller: the Ligature motion
//! board protocol and operation lifecycle, the Monospace relay board
//! protocol and correlation, Camera-pair acquisition, Machine-profile
//! validation, and the controller's workflow decisions.

pub mod binary_link;
pub mod binding;
pub mod camera;
pub mod config;
pub mod controller;
pub mod ligature;
pub mod monospace;
pub mod processing;
pub mod text;
pub mod touchscreen;

pub use crate::camera::v4l::{CameraDiagnosticError, V4lCameraMachineFactory};
pub use crate::camera::{
    CameraCaptureError, CameraPairSetupError, CameraRole, CapturePair, CapturePairError,
    CapturePairMachine, CapturedFrame, FrameBuildError, FrameCrop, NativeDetailPreviewError,
    PreviewImage, RoleCamera,
};
pub use crate::config::{
    BoardProfile, CameraProfiles, CameraRoleProfile, CropGeometry, TimeoutProfile,
};
pub use crate::controller::{
    CapturePreview, CaptureStatus, ControllerClosed, ControllerEvent, ControllerIntent,
    ControllerSnapshot, LigatureMachineFactory, MachineScreen, SansMachineFactory, SetupBlocker,
    SetupState,
};
pub use crate::ligature::client::{LigatureClient, LigatureTransportError, LigatureWire};
pub use crate::ligature::lifecycle::{
    ConnectionEpoch, LigatureCommand, LigatureEvent, LigatureReconnect, LigatureRequest,
    LigatureSession, LigatureSessionError, OperationId, RequestPriority,
};
pub use crate::ligature::protocol::{
    parse_ligature_line, FiniteNumbers, LigatureCaptureSample, LigatureFault, LigatureLine,
    LigaturePosition, LigatureProtocolError, LigatureState, LigatureStatus, PositionTrust,
    ProtocolErrorTerminal, ProtocolTerminal,
};
pub use crate::ligature::LIGATURE_BAUD;

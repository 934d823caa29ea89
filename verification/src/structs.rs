//! The engine's data layouts and enumerations, as the engine numbers them.

use vstd::prelude::*;

verus! {

/// An `std::string` as the engine lays it out: 32 bytes, read by the engine
/// only.
#[allow(non_camel_case_types)]
pub struct std_string {
    pub _unknown: [u8; 32],
}

/// `RBX::Vector2int16`.
#[derive(Debug, Clone, Copy, PartialEq, Eq, Structural)]
pub struct Vector2int16 {
    pub x: i16,
    pub y: i16,
}

/// `RBX::CRenderSettings::GraphicsMode`.
#[derive(Debug, Clone, Copy, PartialEq, Eq, Structural)]
pub enum GraphicsMode {
    UnknownGraphicsMode,
    AutoGraphicsMode,
    Direct3D11,
    Metal,
    Vulkan,
    NoGraphics,
}

impl GraphicsMode {
    /// The number that the engine uses for this value.
    pub open spec fn spec_code(self) -> u32 {
        match self {
            GraphicsMode::UnknownGraphicsMode => 0x0,
            GraphicsMode::AutoGraphicsMode => 0x1,
            GraphicsMode::Direct3D11 => 0x2,
            GraphicsMode::Metal => 0x5,
            GraphicsMode::Vulkan => 0x6,
            GraphicsMode::NoGraphics => 0x7,
        }
    }

    /// The number that the engine uses for this value.
    pub fn code(&self) -> (r: u32)
        ensures
            r == self.spec_code(),
    {
        match self {
            GraphicsMode::UnknownGraphicsMode => 0x0,
            GraphicsMode::AutoGraphicsMode => 0x1,
            GraphicsMode::Direct3D11 => 0x2,
            GraphicsMode::Metal => 0x5,
            GraphicsMode::Vulkan => 0x6,
            GraphicsMode::NoGraphics => 0x7,
        }
    }
}

/// `RBX::CRenderSettings::FrameRateManagerMode`.
#[derive(Debug, Clone, Copy, PartialEq, Eq, Structural)]
pub enum FrameRateManagerMode {
    FrameRateManagerAuto,
    FrameRateManagerOn,
    FrameRateManagerOff,
}

impl FrameRateManagerMode {
    /// The number that the engine uses for this value.
    pub open spec fn spec_code(self) -> u32 {
        match self {
            FrameRateManagerMode::FrameRateManagerAuto => 0x0,
            FrameRateManagerMode::FrameRateManagerOn => 0x1,
            FrameRateManagerMode::FrameRateManagerOff => 0x2,
        }
    }

    /// The number that the engine uses for this value.
    pub fn code(&self) -> (r: u32)
        ensures
            r == self.spec_code(),
    {
        match self {
            FrameRateManagerMode::FrameRateManagerAuto => 0x0,
            FrameRateManagerMode::FrameRateManagerOn => 0x1,
            FrameRateManagerMode::FrameRateManagerOff => 0x2,
        }
    }
}

/// `RBX::CRenderSettings::QualityLevel`.
#[derive(Debug, Clone, Copy, PartialEq, Eq, Structural)]
pub enum QualityLevel {
    QualityAuto,
    QualityLevel1,
    QualityLevel2,
    QualityLevel3,
    QualityLevel4,
    QualityLevel5,
    QualityLevel6,
    QualityLevel7,
    QualityLevel8,
    QualityLevel9,
    QualityLevel10,
    QualityLevel11,
    QualityLevel12,
    QualityLevel13,
    QualityLevel14,
    QualityLevel15,
    QualityLevel16,
    QualityLevel17,
    QualityLevel18,
    QualityLevel19,
    QualityLevel20,
    QualityLevel21,
    QualityLevelCount,
}

impl QualityLevel {
    /// The number that the engine uses for this value.
    pub open spec fn spec_code(self) -> u32 {
        match self {
            QualityLevel::QualityAuto => 0x0,
            QualityLevel::QualityLevel1 => 0x1,
            QualityLevel::QualityLevel2 => 0x2,
            QualityLevel::QualityLevel3 => 0x3,
            QualityLevel::QualityLevel4 => 0x4,
            QualityLevel::QualityLevel5 => 0x5,
            QualityLevel::QualityLevel6 => 0x6,
            QualityLevel::QualityLevel7 => 0x7,
            QualityLevel::QualityLevel8 => 0x8,
            QualityLevel::QualityLevel9 => 0x9,
            QualityLevel::QualityLevel10 => 0xa,
            QualityLevel::QualityLevel11 => 0xb,
            QualityLevel::QualityLevel12 => 0xc,
            QualityLevel::QualityLevel13 => 0xd,
            QualityLevel::QualityLevel14 => 0xe,
            QualityLevel::QualityLevel15 => 0xf,
            QualityLevel::QualityLevel16 => 0x10,
            QualityLevel::QualityLevel17 => 0x11,
            QualityLevel::QualityLevel18 => 0x12,
            QualityLevel::QualityLevel19 => 0x13,
            QualityLevel::QualityLevel20 => 0x14,
            QualityLevel::QualityLevel21 => 0x15,
            QualityLevel::QualityLevelCount => 0x16,
        }
    }

    /// The number that the engine uses for this value.
    pub fn code(&self) -> (r: u32)
        ensures
            r == self.spec_code(),
    {
        match self {
            QualityLevel::QualityAuto => 0x0,
            QualityLevel::QualityLevel1 => 0x1,
            QualityLevel::QualityLevel2 => 0x2,
            QualityLevel::QualityLevel3 => 0x3,
            QualityLevel::QualityLevel4 => 0x4,
            QualityLevel::QualityLevel5 => 0x5,
            QualityLevel::QualityLevel6 => 0x6,
            QualityLevel::QualityLevel7 => 0x7,
            QualityLevel::QualityLevel8 => 0x8,
            QualityLevel::QualityLevel9 => 0x9,
            QualityLevel::QualityLevel10 => 0xa,
            QualityLevel::QualityLevel11 => 0xb,
            QualityLevel::QualityLevel12 => 0xc,
            QualityLevel::QualityLevel13 => 0xd,
            QualityLevel::QualityLevel14 => 0xe,
            QualityLevel::QualityLevel15 => 0xf,
            QualityLevel::QualityLevel16 => 0x10,
            QualityLevel::QualityLevel17 => 0x11,
            QualityLevel::QualityLevel18 => 0x12,
            QualityLevel::QualityLevel19 => 0x13,
            QualityLevel::QualityLevel20 => 0x14,
            QualityLevel::QualityLevel21 => 0x15,
            QualityLevel::QualityLevelCount => 0x16,
        }
    }
}

/// `RBX::CRenderSettings::MeshPartDetailLevel`.
#[derive(Debug, Clone, Copy, PartialEq, Eq, Structural)]
pub enum MeshPartDetailLevel {
    DistanceBased,
    UseMeshPartDetailLOD0,
    UseMeshPartDetailLOD1,
    UseMeshPartDetailLOD2,
    UseMeshPartDetailLOD3,
    UseMeshPartDetailLOD4,
}

impl MeshPartDetailLevel {
    /// The number that the engine uses for this value.
    pub open spec fn spec_code(self) -> u32 {
        match self {
            MeshPartDetailLevel::DistanceBased => 0x0,
            MeshPartDetailLevel::UseMeshPartDetailLOD0 => 0x1,
            MeshPartDetailLevel::UseMeshPartDetailLOD1 => 0x2,
            MeshPartDetailLevel::UseMeshPartDetailLOD2 => 0x3,
            MeshPartDetailLevel::UseMeshPartDetailLOD3 => 0x4,
            MeshPartDetailLevel::UseMeshPartDetailLOD4 => 0x5,
        }
    }

    /// The number that the engine uses for this value.
    pub fn code(&self) -> (r: u32)
        ensures
            r == self.spec_code(),
    {
        match self {
            MeshPartDetailLevel::DistanceBased => 0x0,
            MeshPartDetailLevel::UseMeshPartDetailLOD0 => 0x1,
            MeshPartDetailLevel::UseMeshPartDetailLOD1 => 0x2,
            MeshPartDetailLevel::UseMeshPartDetailLOD2 => 0x3,
            MeshPartDetailLevel::UseMeshPartDetailLOD3 => 0x4,
            MeshPartDetailLevel::UseMeshPartDetailLOD4 => 0x5,
        }
    }
}

/// `SharedLauncher::LaunchMode`.
#[derive(Debug, Clone, Copy, PartialEq, Eq, Structural)]
pub enum LaunchMode {
    Play,
    PlayProtocol,
    App,
}

impl LaunchMode {
    /// The number that the engine uses for this value.
    pub open spec fn spec_code(self) -> u32 {
        match self {
            LaunchMode::Play => 0x0,
            LaunchMode::PlayProtocol => 0x1,
            LaunchMode::App => 0x2,
        }
    }

    /// The number that the engine uses for this value.
    pub fn code(&self) -> (r: u32)
        ensures
            r == self.spec_code(),
    {
        match self {
            LaunchMode::Play => 0x0,
            LaunchMode::PlayProtocol => 0x1,
            LaunchMode::App => 0x2,
        }
    }
}

/// `DataModelJob::*` access kind for `submitTask` and locks.
#[derive(Debug, Clone, Copy, PartialEq, Eq, Structural)]
pub enum JobAccess {
    Read,
    Write,
    Render,
}

impl JobAccess {
    /// The number that the engine uses for this value.
    pub open spec fn spec_code(self) -> u32 {
        match self {
            JobAccess::Read => 0x0,
            JobAccess::Write => 0x1,
            JobAccess::Render => 0x2,
        }
    }

    /// The number that the engine uses for this value.
    pub fn code(&self) -> (r: u32)
        ensures
            r == self.spec_code(),
    {
        match self {
            JobAccess::Read => 0x0,
            JobAccess::Write => 0x1,
            JobAccess::Render => 0x2,
        }
    }
}

/// `Security::*` impersonation identity.
#[derive(Debug, Clone, Copy, PartialEq, Eq, Structural)]
pub enum SecurityIdentity {
    Com,
    RobloxGameScript,
}

impl SecurityIdentity {
    /// The number that the engine uses for this value.
    pub open spec fn spec_code(self) -> u32 {
        match self {
            SecurityIdentity::Com => 0x0,
            SecurityIdentity::RobloxGameScript => 0x1,
        }
    }

    /// The number that the engine uses for this value.
    pub fn code(&self) -> (r: u32)
        ensures
            r == self.spec_code(),
    {
        match self {
            SecurityIdentity::Com => 0x0,
            SecurityIdentity::RobloxGameScript => 0x1,
        }
    }
}

/// `TaskScheduler::StepResult`.
#[derive(Debug, Clone, Copy, PartialEq, Eq, Structural)]
pub enum StepResult {
    Done,
    Stepped,
}

impl StepResult {
    /// The number that the engine uses for this value.
    pub open spec fn spec_code(self) -> u32 {
        match self {
            StepResult::Done => 0x0,
            StepResult::Stepped => 0x1,
        }
    }

    /// The number that the engine uses for this value.
    pub fn code(&self) -> (r: u32)
        ensures
            r == self.spec_code(),
    {
        match self {
            StepResult::Done => 0x0,
            StepResult::Stepped => 0x1,
        }
    }
}

/// `Network::GameLaunchIntent`.
#[derive(Debug, Clone, Copy, PartialEq, Eq, Structural)]
pub enum GameLaunchIntent {
    GameLaunchIntentUnknown,
    GameLaunchIntentClient,
    GameLaunchIntentServer,
    GameLaunchIntentNonNetworked,
}

impl GameLaunchIntent {
    /// The number that the engine uses for this value.
    pub open spec fn spec_code(self) -> u32 {
        match self {
            GameLaunchIntent::GameLaunchIntentUnknown => 0x0,
            GameLaunchIntent::GameLaunchIntentClient => 0x1,
            GameLaunchIntent::GameLaunchIntentServer => 0x2,
            GameLaunchIntent::GameLaunchIntentNonNetworked => 0x3,
        }
    }

    /// The number that the engine uses for this value.
    pub fn code(&self) -> (r: u32)
        ensures
            r == self.spec_code(),
    {
        match self {
            GameLaunchIntent::GameLaunchIntentUnknown => 0x0,
            GameLaunchIntent::GameLaunchIntentClient => 0x1,
            GameLaunchIntent::GameLaunchIntentServer => 0x2,
            GameLaunchIntent::GameLaunchIntentNonNetworked => 0x3,
        }
    }
}

/// `StudioGameStateType`.
#[derive(Debug, Clone, Copy, PartialEq, Eq, Structural)]
pub enum StudioGameStateType {
    StudioGameStateTypeEdit,
    StudioGameStateTypePlayClient,
    StudioGameStateTypePlayServer,
    StudioGameStateTypeStandalone,
    NumStudioGameStateTypes,
}

impl StudioGameStateType {
    /// The number that the engine uses for this value.
    pub open spec fn spec_code(self) -> u32 {
        match self {
            StudioGameStateType::StudioGameStateTypeEdit => 0x0,
            StudioGameStateType::StudioGameStateTypePlayClient => 0x1,
            StudioGameStateType::StudioGameStateTypePlayServer => 0x2,
            StudioGameStateType::StudioGameStateTypeStandalone => 0x3,
            StudioGameStateType::NumStudioGameStateTypes => 0x4,
        }
    }

    /// The number that the engine uses for this value.
    pub fn code(&self) -> (r: u32)
        ensures
            r == self.spec_code(),
    {
        match self {
            StudioGameStateType::StudioGameStateTypeEdit => 0x0,
            StudioGameStateType::StudioGameStateTypePlayClient => 0x1,
            StudioGameStateType::StudioGameStateTypePlayServer => 0x2,
            StudioGameStateType::StudioGameStateTypeStandalone => 0x3,
            StudioGameStateType::NumStudioGameStateTypes => 0x4,
        }
    }
}

/// `DataModelFeatures` flags.
#[derive(Debug, Clone, Copy, PartialEq, Eq, Structural)]
pub enum DataModelFeatures {
    ClientReplicator,
    ServerReplicator,
    ScriptExecution,
    Graphics,
    Gui,
    ConsideredOriginal,
}

impl DataModelFeatures {
    /// The number that the engine uses for this value.
    pub open spec fn spec_code(self) -> u32 {
        match self {
            DataModelFeatures::ClientReplicator => 0x1,
            DataModelFeatures::ServerReplicator => 0x2,
            DataModelFeatures::ScriptExecution => 0x8,
            DataModelFeatures::Graphics => 0x10,
            DataModelFeatures::Gui => 0x20,
            DataModelFeatures::ConsideredOriginal => 0x40,
        }
    }

    /// The number that the engine uses for this value.
    pub fn code(&self) -> (r: u32)
        ensures
            r == self.spec_code(),
    {
        match self {
            DataModelFeatures::ClientReplicator => 0x1,
            DataModelFeatures::ServerReplicator => 0x2,
            DataModelFeatures::ScriptExecution => 0x8,
            DataModelFeatures::Graphics => 0x10,
            DataModelFeatures::Gui => 0x20,
            DataModelFeatures::ConsideredOriginal => 0x40,
        }
    }
}

/// `RBX::CRenderSettings`.
pub struct CRenderSettings {
    pub __vftable: usize,
    pub graphics_mode: GraphicsMode,
    pub frame_rate_manager_mode: FrameRateManagerMode,
    pub quality_level: QualityLevel,
    pub edit_quality_level: QualityLevel,
    pub debug_mesh_detaillevel: MeshPartDetailLevel,
    pub auto_quality_level: i32,
    pub max_quality_level: i32,
    pub debug_show_bounding_boxes: bool,
    pub debug_reload_assets: bool,
    pub enable_frm: bool,
    pub obj_export_merge_by_material: bool,
    pub fullscreen_size: Vector2int16,
    pub window_size: Vector2int16,
    pub eager_bulk_execution: bool,
    pub mesh_cache_size: u32,
}

/// `RBX::Verb`, handled by address only.
pub struct Verb;

/// `RBX::DataModel`, handled by address only.
pub struct DataModel;

/// `RBX::PlayerConfigurer`, handled by address only.
pub struct PlayerConfigurer;

/// `RBX::CommonVerbs`, handled by address only.
pub struct CommonVerbs;

/// `RBX::ViewBase`, handled by address only.
pub struct ViewBase;

} // verus!

//! Addresses of engine routines at fixed offsets in Studio v548.

use vstd::prelude::*;

verus! {

/// Offset of `RBX::UnsecuredStudioGame::UnsecuredStudioGame` in Studio v548.
pub const UNSECURED_STUDIO_GAME_RVA: u64 = 0x12A5680;

/// Offset of `RBX::ViewBase::CreateView` in Studio v548.
pub const CREATE_VIEW_RVA: u64 = 0x220ACA0;

/// Addresses of the engine routines that create a game and its view.
#[derive(Debug, Clone, Copy, PartialEq, Eq, Structural)]
pub struct DataModel {
    /// ```cpp
    /// RBX::UnsecuredStudioGame *__fastcall RBX::UnsecuredStudioGame::UnsecuredStudioGame(
    ///    RBX::UnsecuredStudioGame *this, RBX::Verb *lockVerb, const char *baseUrl,
    ///    bool isNetworked, bool shouldShowLoadingScreen,
    ///    RBX::Network::GameLaunchIntent intent,
    ///    RBX::DataModelInitializationParams *initializationParams)
    /// ```
    pub unsecured_studio_game: u64,
    /// ```cpp
    /// RBX::ViewBase *__fastcall RBX::ViewBase::CreateView(
    ///    RBX::CRenderSettings::GraphicsMode mode, RBX::OSContext *context,
    ///    RBX::CRenderSettings *renderSettings)
    /// ```
    pub create_view: u64,
}

/// `a` moved by the signed `offset`.
pub open spec fn shifted(a: u64, offset: i64) -> int {
    a as int + offset as int
}

impl DataModel {
    /// Whether every address stays in range when moved by `offset`.
    pub open spec fn offset_fits(self, offset: i64) -> bool {
        &&& 0 <= shifted(self.unsecured_studio_game, offset) <= u64::MAX
        &&& 0 <= shifted(self.create_view, offset) <= u64::MAX
    }

    /// Whether every address stays in range when moved by `offset`.
    pub fn fits_offset(&self, offset: i64) -> (r: bool)
        ensures
            r == self.offset_fits(offset),
    {
        let a = self.unsecured_studio_game as i128 + offset as i128;
        let b = self.create_view as i128 + offset as i128;
        0 <= a && a <= u64::MAX as i128 && 0 <= b && b <= u64::MAX as i128
    }

    /// The table with every address moved by `offset`.
    pub fn with_offset(&self, offset: i64) -> (r: DataModel)
        requires
            self.offset_fits(offset),
        ensures
            r.unsecured_studio_game == shifted(self.unsecured_studio_game, offset),
            r.create_view == shifted(self.create_view, offset),
    {
        DataModel {
            unsecured_studio_game: (self.unsecured_studio_game as i128 + offset as i128) as u64,
            create_view: (self.create_view as i128 + offset as i128) as u64,
        }
    }
}

/// The offsets of the routines in the image of Studio v548.
pub open spec fn v548_offsets() -> DataModel {
    DataModel { unsecured_studio_game: UNSECURED_STUDIO_GAME_RVA, create_view: CREATE_VIEW_RVA }
}

/// The addresses of the routines in Studio v548 loaded at `roblox_dll_ptr`:
/// the fixed offsets moved by the load address taken as a signed value.
pub fn find(roblox_dll_ptr: u64) -> (r: DataModel)
    requires
        v548_offsets().offset_fits(roblox_dll_ptr as i64),
    ensures
        r.unsecured_studio_game == shifted(UNSECURED_STUDIO_GAME_RVA, roblox_dll_ptr as i64),
        r.create_view == shifted(CREATE_VIEW_RVA, roblox_dll_ptr as i64),
{
    let offsets = DataModel {
        unsecured_studio_game: UNSECURED_STUDIO_GAME_RVA,
        create_view: CREATE_VIEW_RVA,
    };
    offsets.with_offset(roblox_dll_ptr as i64)
}

/// In Studio v548 the game constructor lies `0x12A5680` and the view
/// factory `0x220ACA0` bytes into the image, so a module loaded at an
/// address below 2^63 has them at that address plus these offsets.
pub proof fn lemma_v548_addresses(base: u64)
    requires
        base <= i64::MAX,
    ensures
        v548_offsets() == (DataModel { unsecured_studio_game: 0x12A5680, create_view: 0x220ACA0 }),
        shifted(v548_offsets().unsecured_studio_game, base as i64) == base + 0x12A5680,
        shifted(v548_offsets().create_view, base as i64) == base + 0x220ACA0,
        base + 0x220ACA0 <= u64::MAX ==> v548_offsets().offset_fits(base as i64),
{
}

} // verus!

//! Everything the loader locates in the loaded module.

pub mod datamodel;
pub mod init_main;

use vstd::prelude::*;
use crate::find::util::ModuleImage;

verus! {

/// The start-up routines and the engine routines of the loaded module.
pub struct CompositeStruct {
    pub init_main: init_main::InitMain,
    pub datamodel: datamodel::DataModel,
}

/// Locates the start-up routines (from the entry point at `dll_main_rva`)
/// and the engine routines of the module in `image`; `None` where the
/// start-up cannot be located.
pub fn find(image: &ModuleImage, dll_main_rva: u64) -> (r: Option<CompositeStruct>)
    requires
        datamodel::v548_offsets().offset_fits(image.spec_base() as i64),
    ensures
        match r {
            Some(c) => {
                &&& init_main::spec_find(image, dll_main_rva) == Some(c.init_main)
                &&& c.datamodel.unsecured_studio_game == datamodel::shifted(
                    datamodel::UNSECURED_STUDIO_GAME_RVA,
                    image.spec_base() as i64,
                )
                &&& c.datamodel.create_view == datamodel::shifted(
                    datamodel::CREATE_VIEW_RVA,
                    image.spec_base() as i64,
                )
            },
            None => init_main::spec_find(image, dll_main_rva) is None,
        },
{
    let init_main = match init_main::find(image, dll_main_rva) {
        Some(m) => m,
        None => return None,
    };
    Some(CompositeStruct { init_main, datamodel: datamodel::find(image.base()) })
}

} // verus!

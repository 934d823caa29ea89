//! Finding a module's `main` through its C runtime start-up.

pub mod init_main;
pub mod util;

use vstd::prelude::*;
use crate::find::util::ModuleImage;
use crate::offsets::init_main::{InitMain, spec_find};

verus! {

/// Locates what running the module's `main` takes: the start-up routines
/// reached from the entry point at `dll_main_rva`, `WinMain`'s calls (among
/// them `main`), and the initialiser tables.
pub fn find_main(image: &ModuleImage, dll_main_rva: u64) -> (r: Option<InitMain>)
    ensures
        r == spec_find(image, dll_main_rva),
{
    crate::offsets::init_main::find(image, dll_main_rva)
}

} // verus!

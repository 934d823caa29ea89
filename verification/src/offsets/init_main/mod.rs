//! Locating the C runtime start-up of a loaded module: from its entry point
//! to `__scrt_common_main_seh`, its calls, `WinMain`, and the tables of
//! initialisers that `_initterm_e` and `_initterm` run.

pub mod scrt_init;

use vstd::prelude::*;
use crate::find::init_main::win_main;
use crate::find::util::{
    ModuleImage, load_decoder, load_memory, spec_decode_at, spec_window, decoded_instruction,
    host_bitness,
};

verus! {

/// Offset of the `jmp __scrt_common_main_seh` in the entry point, after
/// `sub rsp,28; call __security_init_cookie; add rsp,28`.
pub const ENTRY_JMP_OFFSET: u64 = 0x0D;

/// Length of that `jmp`.
pub const ENTRY_JMP_SIZE: u64 = 0x05;

/// Bytes of the two `lea` instructions (7 bytes each) before a call to
/// `_initterm_e` or `_initterm`.
pub const LEA_PAIR_SIZE: u64 = 0x7 * 2;

/// What the start-up of a module needs, as addresses in the loaded image.
#[allow(non_snake_case)]
#[derive(Debug, Clone, Copy, PartialEq, Eq, Structural)]
pub struct InitMain {
    pub scrt_init_map: scrt_init::STRUCT_MAP,
    pub scrt_init_callers: scrt_init::STRUCT_MAP,
    pub win_main_map: win_main::STRUCT_MAP,
    pub win_main_callers: win_main::STRUCT_MAP,
    /// First entry of the table that `_initterm_e` runs.
    pub __xi_a: u64,
    /// End of the table that `_initterm_e` runs.
    pub __xi_z: u64,
    /// First entry of the table that `_initterm` runs.
    pub __xc_a: u64,
    /// End of the table that `_initterm` runs.
    pub __xc_z: u64,
}

/// The displacements of the two instructions in the 14 bytes before the
/// call at `call_addr`, in order.
pub open spec fn spec_lea_displacements(image: &ModuleImage, call_addr: u64) -> Option<(u64, u64)> {
    if call_addr < LEA_PAIR_SIZE {
        None
    } else {
        let start = (call_addr - LEA_PAIR_SIZE) as u64;
        match spec_window(image.spec_base(), image.spec_bytes(), start, LEA_PAIR_SIZE) {
            None => None,
            Some(code) => {
                let first = decoded_instruction(host_bitness(), code, start);
                let second = decoded_instruction(
                    host_bitness(),
                    code.skip(first.0 as int),
                    (start + first.0) as u64,
                );
                Some((first.3, second.3))
            },
        }
    }
}

/// Decodes the two instructions in the 14 bytes before the call at
/// `call_addr` (the `lea rdx` and `lea rcx` that pass a table's end and
/// start) and returns their displacements, in order.
pub fn lea_displacements(image: &ModuleImage, call_addr: u64) -> (r: Option<(u64, u64)>)
    ensures
        r == spec_lea_displacements(image, call_addr),
{
    if call_addr < LEA_PAIR_SIZE {
        return None;
    }
    let start = call_addr - LEA_PAIR_SIZE;
    let code = match load_memory(image, start, LEA_PAIR_SIZE) {
        Some(c) => c,
        None => return None,
    };
    let first = crate::find::util::decode_instruction(code, start);
    let rest = vstd::slice::slice_subrange(code, first.len, code.len());
    assert(rest@ =~= code@.skip(first.len as int));
    let second = crate::find::util::decode_instruction(rest, start + first.len as u64);
    Some((first.memory_displacement64, second.memory_displacement64))
}

/// The start-up addresses of the module in `image`, whose entry point lies
/// at `dll_main_rva`.
pub open spec fn spec_find(image: &ModuleImage, dll_main_rva: u64) -> Option<InitMain> {
    let dll_main_ptr = image.spec_base() + dll_main_rva;
    if dll_main_ptr + ENTRY_JMP_OFFSET > u64::MAX {
        None
    } else {
        match spec_decode_at(image, (dll_main_ptr + ENTRY_JMP_OFFSET) as u64, ENTRY_JMP_SIZE) {
            None => None,
            Some(jmp) => match scrt_init::spec_find(image, jmp.2) {
                None => None,
                Some((scrt_init_map, scrt_init_callers)) => match win_main::spec_get(
                    image,
                    scrt_init_map.win_main,
                ) {
                    None => None,
                    Some((win_main_map, win_main_callers)) => match spec_lea_displacements(
                        image,
                        scrt_init_callers._initterm_e,
                    ) {
                        None => None,
                        Some((xi_z, xi_a)) => match spec_lea_displacements(
                            image,
                            scrt_init_callers._initterm,
                        ) {
                            None => None,
                            Some((xc_z, xc_a)) => Some(
                                InitMain {
                                    scrt_init_map,
                                    scrt_init_callers,
                                    win_main_map,
                                    win_main_callers,
                                    __xi_a: xi_a,
                                    __xi_z: xi_z,
                                    __xc_a: xc_a,
                                    __xc_z: xc_z,
                                },
                            ),
                        },
                    },
                },
            },
        }
    }
}

/// Locates the start-up of the module in `image`: the `jmp` at entry point
/// + 0x0D leads to `__scrt_common_main_seh`, whose calls give the start-up
/// table and `WinMain`, whose calls give the `WinMain` table; the two `lea`
/// instructions before the calls to `_initterm_e` and `_initterm` give the
/// bounds of the initialiser tables. `None` where any of this does not lie
/// in the image or the code holds too few calls.
pub fn find(image: &ModuleImage, dll_main_rva: u64) -> (r: Option<InitMain>)
    ensures
        r == spec_find(image, dll_main_rva),
{
    let base = image.base();
    if dll_main_rva > u64::MAX - base || base + dll_main_rva > u64::MAX - ENTRY_JMP_OFFSET {
        return None;
    }
    let dll_main_ptr = base + dll_main_rva;
    let jmp_instruction = match load_decoder(image, dll_main_ptr + ENTRY_JMP_OFFSET, ENTRY_JMP_SIZE) {
        Some(d) => d,
        None => return None,
    };
    let scrt_common_main_seh = jmp_instruction.near_branch_target;
    let (scrt_init_map, scrt_init_callers) = match scrt_init::find(image, scrt_common_main_seh) {
        Some(m) => m,
        None => return None,
    };
    let (win_main_map, win_main_callers) = match win_main::get(image, scrt_init_map.win_main) {
        Some(m) => m,
        None => return None,
    };
    let (xi_z, xi_a) = match lea_displacements(image, scrt_init_callers._initterm_e) {
        Some(p) => p,
        None => return None,
    };
    let (xc_z, xc_a) = match lea_displacements(image, scrt_init_callers._initterm) {
        Some(p) => p,
        None => return None,
    };
    Some(InitMain {
        scrt_init_map,
        scrt_init_callers,
        win_main_map,
        win_main_callers,
        __xi_a: xi_a,
        __xi_z: xi_z,
        __xc_a: xc_a,
        __xc_z: xc_z,
    })
}

/// The initialiser tables come from the two instructions in the 14 bytes
/// before the calls to `_initterm_e` and `_initterm`: the first one's
/// displacement is the table's end (`__xi_z`, `__xc_z`), the second one's its
/// start (`__xi_a`, `__xc_a`). And `WinMain`'s table is read at the 13th
/// call's target of `__scrt_common_main_seh`.
pub proof fn lemma_initialiser_table_bounds(image: &ModuleImage, dll_main_rva: u64)
    requires
        spec_find(image, dll_main_rva) is Some,
    ensures
        ({
            let m = spec_find(image, dll_main_rva)->0;
            let e = (m.scrt_init_callers._initterm_e - 14) as u64;
            let ce = spec_window(image.spec_base(), image.spec_bytes(), e, 14)->0;
            let e1 = decoded_instruction(host_bitness(), ce, e);
            let e2 = decoded_instruction(host_bitness(), ce.skip(e1.0 as int), (e + e1.0) as u64);
            let i = (m.scrt_init_callers._initterm - 14) as u64;
            let ci = spec_window(image.spec_base(), image.spec_bytes(), i, 14)->0;
            let i1 = decoded_instruction(host_bitness(), ci, i);
            let i2 = decoded_instruction(host_bitness(), ci.skip(i1.0 as int), (i + i1.0) as u64);
            &&& m.scrt_init_callers._initterm_e >= 14
            &&& m.scrt_init_callers._initterm >= 14
            &&& m.__xi_z == e1.3
            &&& m.__xi_a == e2.3
            &&& m.__xc_z == i1.3
            &&& m.__xc_a == i2.3
            &&& win_main::spec_get(image, m.scrt_init_map.win_main) == Some(
                (m.win_main_map, m.win_main_callers),
            )
        }),
{
}

/// The start-up routine is found through the entry point: the 5 bytes at
/// entry point + `0x0D` hold a jump whose target is
/// `__scrt_common_main_seh`, which heads the start-up table; that table and
/// its callers are read from there.
pub proof fn lemma_startup_found_from_entry_jump(image: &ModuleImage, dll_main_rva: u64)
    requires
        spec_find(image, dll_main_rva) is Some,
    ensures
        ({
            let m = spec_find(image, dll_main_rva)->0;
            let at = (image.spec_base() + dll_main_rva + 0x0D) as u64;
            let code = spec_window(image.spec_base(), image.spec_bytes(), at, 5)->0;
            let target = decoded_instruction(host_bitness(), code, at).2;
            &&& image.spec_base() + dll_main_rva + 0x0D <= u64::MAX
            &&& spec_window(image.spec_base(), image.spec_bytes(), at, 5) is Some
            &&& scrt_init::spec_find(image, target) == Some((m.scrt_init_map, m.scrt_init_callers))
            &&& m.scrt_init_map.__scrt_common_main_seh == target
        }),
{
}

} // verus!

//! The calls that `__scrt_common_main_seh` makes, in the order they appear
//! in its code.

use vstd::prelude::*;
use crate::find::util::{ModuleImage, load_calls_to_struct, spec_load_calls, spec_window, near_calls_from};

verus! {

/// Number of entries in the start-up table.
pub const SCRT_INIT_ENTRIES: usize = 23;

/// Length of the code of `__scrt_common_main_seh` that is scanned for calls.
pub const SCRT_INIT_SCAN_SIZE: u64 = 0x171;

/// Addresses of the C runtime's start-up routines, in the order of the
/// calls in `__scrt_common_main_seh`.
#[allow(non_camel_case_types, non_snake_case)]
#[derive(Debug, Clone, Copy, PartialEq, Eq, Structural)]
pub struct STRUCT_MAP {
    /// `int __scrt_common_main_seh(void)`: the scanned routine itself
    pub __scrt_common_main_seh: u64,
    /// `BOOL __cdecl __scrt_initialize_crt(__scrt_module_type module_type)`
    pub __scrt_initialize_crt: u64,
    /// `void __cdecl __scrt_acquire_startup_lock(void)`
    pub __scrt_acquire_startup_lock: u64,
    /// `int __cdecl _initterm_e(_PIFV* first, _PIFV* last)`
    pub _initterm_e: u64,
    /// `void __cdecl _initterm(_PVFV* first, _PVFV* last)`
    pub _initterm: u64,
    /// `void __cdecl __scrt_release_startup_lock(bool is_locked)`
    pub __scrt_release_startup_lock: u64,
    /// `PGET_DYN_TLS_MAIN_CALLBACK __cdecl __scrt_get_dyn_tls_init_callback(void)`
    pub __scrt_get_dyn_tls_init_callback: u64,
    /// `bool __cdecl __scrt_is_nonwritable_in_current_image(void const* target)`
    pub __scrt_is_nonwritable_in_current_image: u64,
    /// `PGET_DYN_TLS_DTOR_CALLBACK __cdecl __scrt_get_dyn_tls_dtor_callback(void)`
    pub __scrt_get_dyn_tls_dtor_callback: u64,
    /// the same check, called a second time
    pub __scrt_is_nonwritable_in_current_image_dupe: u64,
    /// `int __cdecl _register_thread_local_exe_atexit_callback(_CPVFV callback)`
    pub _register_thread_local_exe_atexit_callback: u64,
    /// `WORD __cdecl __scrt_get_show_window_mode(void)`
    pub __scrt_get_show_window_mode: u64,
    /// `char* __cdecl _get_narrow_winmain_command_line(void)`
    pub _get_narrow_winmain_command_line: u64,
    /// `int WINAPI WinMain(HINSTANCE, HINSTANCE, LPSTR, int)`
    pub win_main: u64,
    /// `bool __cdecl __scrt_is_managed_app(void)`
    pub __scrt_is_managed_app: u64,
    /// `void __cdecl _cexit(void)`
    pub _cexit: u64,
    /// `void __cdecl __scrt_uninitialize_crt(bool terminating, bool is_managed_app)`
    pub __scrt_uninitialize_crt: u64,
    /// the same check, on the exception path
    pub __scrt_is_managed_app_dupe: u64,
    /// `void __cdecl _c_exit(void)`
    pub _c_exit: u64,
    /// `void __cdecl __scrt_fastfail(unsigned int code)`
    pub __scrt_fastfail: u64,
    /// the same fast-fail, second call site
    pub __scrt_fastfail_dupe: u64,
    /// `void __cdecl exit(int status)`
    pub exit: u64,
    /// `void __cdecl _exit(int status)`
    pub _exit: u64,
}

impl STRUCT_MAP {
    /// The table whose entries are `s`, in field order.
    pub open spec fn spec_from_addresses(s: Seq<u64>) -> STRUCT_MAP {
        STRUCT_MAP {
            __scrt_common_main_seh: s[0],
            __scrt_initialize_crt: s[1],
            __scrt_acquire_startup_lock: s[2],
            _initterm_e: s[3],
            _initterm: s[4],
            __scrt_release_startup_lock: s[5],
            __scrt_get_dyn_tls_init_callback: s[6],
            __scrt_is_nonwritable_in_current_image: s[7],
            __scrt_get_dyn_tls_dtor_callback: s[8],
            __scrt_is_nonwritable_in_current_image_dupe: s[9],
            _register_thread_local_exe_atexit_callback: s[10],
            __scrt_get_show_window_mode: s[11],
            _get_narrow_winmain_command_line: s[12],
            win_main: s[13],
            __scrt_is_managed_app: s[14],
            _cexit: s[15],
            __scrt_uninitialize_crt: s[16],
            __scrt_is_managed_app_dupe: s[17],
            _c_exit: s[18],
            __scrt_fastfail: s[19],
            __scrt_fastfail_dupe: s[20],
            exit: s[21],
            _exit: s[22],
        }
    }

    /// The table whose entries are `v`, in field order.
    pub fn from_addresses(v: &Vec<u64>) -> (r: STRUCT_MAP)
        requires
            v@.len() == SCRT_INIT_ENTRIES,
        ensures
            r == Self::spec_from_addresses(v@),
    {
        STRUCT_MAP {
            __scrt_common_main_seh: v[0],
            __scrt_initialize_crt: v[1],
            __scrt_acquire_startup_lock: v[2],
            _initterm_e: v[3],
            _initterm: v[4],
            __scrt_release_startup_lock: v[5],
            __scrt_get_dyn_tls_init_callback: v[6],
            __scrt_is_nonwritable_in_current_image: v[7],
            __scrt_get_dyn_tls_dtor_callback: v[8],
            __scrt_is_nonwritable_in_current_image_dupe: v[9],
            _register_thread_local_exe_atexit_callback: v[10],
            __scrt_get_show_window_mode: v[11],
            _get_narrow_winmain_command_line: v[12],
            win_main: v[13],
            __scrt_is_managed_app: v[14],
            _cexit: v[15],
            __scrt_uninitialize_crt: v[16],
            __scrt_is_managed_app_dupe: v[17],
            _c_exit: v[18],
            __scrt_fastfail: v[19],
            __scrt_fastfail_dupe: v[20],
            exit: v[21],
            _exit: v[22],
        }
    }
}

/// The start-up tables read from the code at `scrt_common_main_seh`.
pub open spec fn spec_find(image: &ModuleImage, scrt_common_main_seh: u64) -> Option<(STRUCT_MAP, STRUCT_MAP)> {
    match spec_load_calls(image, scrt_common_main_seh, SCRT_INIT_SCAN_SIZE, SCRT_INIT_ENTRIES as nat) {
        Some((t, c)) => Some((STRUCT_MAP::spec_from_addresses(t), STRUCT_MAP::spec_from_addresses(c))),
        None => None,
    }
}

/// Reads the start-up table from the code of `__scrt_common_main_seh`: the
/// destinations, and the addresses of the calls that lead there.
pub fn find(image: &ModuleImage, scrt_common_main_seh: u64) -> (r: Option<(STRUCT_MAP, STRUCT_MAP)>)
    ensures
        r == spec_find(image, scrt_common_main_seh),
{
    match load_calls_to_struct(image, scrt_common_main_seh, SCRT_INIT_SCAN_SIZE, SCRT_INIT_ENTRIES) {
        Some((t, c)) => Some((STRUCT_MAP::from_addresses(&t), STRUCT_MAP::from_addresses(&c))),
        None => None,
    }
}


/// Each entry of the start-up table is where the call of its position in
/// `__scrt_common_main_seh` goes, counting the calls in code order from the
/// routine's start: the first entry is the routine itself (its caller 0),
/// the `k`-th entry after it the target of the `k`-th near call, and the
/// callers table holds the address of that call. So the show-window getter
/// is the target of the 11th call and the command-line getter that of the
/// 12th, with `WinMain` at the 13th.
pub proof fn lemma_startup_table_by_call_order(image: &ModuleImage, a: u64)
    requires
        spec_find(image, a) is Some,
    ensures
        ({
            let code = spec_window(image.spec_base(), image.spec_bytes(), a, 0x171)->0;
            let calls = near_calls_from(code, a, 0);
            let (t, c) = spec_find(image, a)->0;
            &&& calls.len() >= 22
            &&& t.__scrt_common_main_seh == a && c.__scrt_common_main_seh == 0
            &&& t.__scrt_initialize_crt == calls[0].1 && c.__scrt_initialize_crt == calls[0].0
            &&& t.__scrt_acquire_startup_lock == calls[1].1 && c.__scrt_acquire_startup_lock == calls[1].0
            &&& t._initterm_e == calls[2].1 && c._initterm_e == calls[2].0
            &&& t._initterm == calls[3].1 && c._initterm == calls[3].0
            &&& t.__scrt_release_startup_lock == calls[4].1 && c.__scrt_release_startup_lock == calls[4].0
            &&& t.__scrt_get_dyn_tls_init_callback == calls[5].1 && c.__scrt_get_dyn_tls_init_callback == calls[5].0
            &&& t.__scrt_is_nonwritable_in_current_image == calls[6].1 && c.__scrt_is_nonwritable_in_current_image == calls[6].0
            &&& t.__scrt_get_dyn_tls_dtor_callback == calls[7].1 && c.__scrt_get_dyn_tls_dtor_callback == calls[7].0
            &&& t.__scrt_is_nonwritable_in_current_image_dupe == calls[8].1 && c.__scrt_is_nonwritable_in_current_image_dupe == calls[8].0
            &&& t._register_thread_local_exe_atexit_callback == calls[9].1 && c._register_thread_local_exe_atexit_callback == calls[9].0
            &&& t.__scrt_get_show_window_mode == calls[10].1 && c.__scrt_get_show_window_mode == calls[10].0
            &&& t._get_narrow_winmain_command_line == calls[11].1 && c._get_narrow_winmain_command_line == calls[11].0
            &&& t.win_main == calls[12].1 && c.win_main == calls[12].0
            &&& t.__scrt_is_managed_app == calls[13].1 && c.__scrt_is_managed_app == calls[13].0
            &&& t._cexit == calls[14].1 && c._cexit == calls[14].0
            &&& t.__scrt_uninitialize_crt == calls[15].1 && c.__scrt_uninitialize_crt == calls[15].0
            &&& t.__scrt_is_managed_app_dupe == calls[16].1 && c.__scrt_is_managed_app_dupe == calls[16].0
            &&& t._c_exit == calls[17].1 && c._c_exit == calls[17].0
            &&& t.__scrt_fastfail == calls[18].1 && c.__scrt_fastfail == calls[18].0
            &&& t.__scrt_fastfail_dupe == calls[19].1 && c.__scrt_fastfail_dupe == calls[19].0
            &&& t.exit == calls[20].1 && c.exit == calls[20].0
            &&& t._exit == calls[21].1 && c._exit == calls[21].0
        }),
{
    let code = spec_window(image.spec_base(), image.spec_bytes(), a, SCRT_INIT_SCAN_SIZE)->0;
    let calls = near_calls_from(code, a, 0);
    let found = calls.take(22);
    let (t, c) = spec_load_calls(image, a, SCRT_INIT_SCAN_SIZE, 23)->0;
    assert forall|k: int| 1 <= k < 23 implies #[trigger] t[k] == calls[k - 1].1 && c[k] == calls[k - 1].0 by {
        assert(found[k - 1] == calls[k - 1]);
    }
}

} // verus!

//! The calls that `WinMain` makes, in the order they appear in its code.

use vstd::prelude::*;
use crate::find::util::{ModuleImage, load_calls_to_struct, spec_load_calls, spec_window, near_calls_from};

verus! {

/// Number of entries in the `WinMain` table.
pub const WIN_MAIN_ENTRIES: usize = 6;

/// Length of the code of `WinMain` that is scanned for calls.
pub const WIN_MAIN_SCAN_SIZE: u64 = 0x19A;

/// Addresses around `WinMain`, in the order of its calls.
#[allow(non_camel_case_types)]
#[derive(Debug, Clone, Copy, PartialEq, Eq, Structural)]
pub struct STRUCT_MAP {
    /// `int WINAPI WinMain(HINSTANCE, HINSTANCE, LPSTR, int)`
    pub win_main: u64,
    /// `void * __cdecl operator new(unsigned __int64 count)`
    pub op_new_0: u64,
    /// `void * __cdecl operator new(unsigned __int64 count)`
    pub op_new_1: u64,
    /// `int __cdecl main(int argc, char** argv)`
    pub main_func: u64,
    /// `void __cdecl operator delete[](void *ptr, unsigned __int64 count)`
    pub op_delete_array_0: u64,
    /// `void __cdecl operator delete[](void *ptr, unsigned __int64 count)`
    pub op_delete_array_1: u64,
}

impl STRUCT_MAP {
    /// The table whose entries are `s`, in field order.
    pub open spec fn spec_from_addresses(s: Seq<u64>) -> STRUCT_MAP {
        STRUCT_MAP {
            win_main: s[0],
            op_new_0: s[1],
            op_new_1: s[2],
            main_func: s[3],
            op_delete_array_0: s[4],
            op_delete_array_1: s[5],
        }
    }

    /// The table whose entries are `v`, in field order.
    pub fn from_addresses(v: &Vec<u64>) -> (r: STRUCT_MAP)
        requires
            v@.len() == WIN_MAIN_ENTRIES,
        ensures
            r == Self::spec_from_addresses(v@),
    {
        STRUCT_MAP {
            win_main: v[0],
            op_new_0: v[1],
            op_new_1: v[2],
            main_func: v[3],
            op_delete_array_0: v[4],
            op_delete_array_1: v[5],
        }
    }
}

/// The `WinMain` tables read from the code at `win_main_addr`.
pub open spec fn spec_get(image: &ModuleImage, win_main_addr: u64) -> Option<(STRUCT_MAP, STRUCT_MAP)> {
    match spec_load_calls(image, win_main_addr, WIN_MAIN_SCAN_SIZE, WIN_MAIN_ENTRIES as nat) {
        Some((t, c)) => Some((STRUCT_MAP::spec_from_addresses(t), STRUCT_MAP::spec_from_addresses(c))),
        None => None,
    }
}

/// Reads the `WinMain` table from the code at `win_main_addr`: the
/// destinations, and the addresses of the calls that lead there.
pub fn get(image: &ModuleImage, win_main_addr: u64) -> (r: Option<(STRUCT_MAP, STRUCT_MAP)>)
    ensures
        r == spec_get(image, win_main_addr),
{
    match load_calls_to_struct(image, win_main_addr, WIN_MAIN_SCAN_SIZE, WIN_MAIN_ENTRIES) {
        Some((t, c)) => Some((STRUCT_MAP::from_addresses(&t), STRUCT_MAP::from_addresses(&c))),
        None => None,
    }
}


/// Each entry of the `WinMain` table is where the call of its position in
/// `WinMain` goes: the first is `WinMain` itself (caller 0), then the
/// targets of its first five near calls in code order, `main` being the
/// third; the callers table holds the addresses of those calls.
pub proof fn lemma_win_main_table_by_call_order(image: &ModuleImage, a: u64)
    requires
        spec_get(image, a) is Some,
    ensures
        ({
            let code = spec_window(image.spec_base(), image.spec_bytes(), a, 0x19A)->0;
            let calls = near_calls_from(code, a, 0);
            let (t, c) = spec_get(image, a)->0;
            &&& calls.len() >= 5
            &&& t.win_main == a && c.win_main == 0
            &&& t.op_new_0 == calls[0].1 && c.op_new_0 == calls[0].0
            &&& t.op_new_1 == calls[1].1 && c.op_new_1 == calls[1].0
            &&& t.main_func == calls[2].1 && c.main_func == calls[2].0
            &&& t.op_delete_array_0 == calls[3].1 && c.op_delete_array_0 == calls[3].0
            &&& t.op_delete_array_1 == calls[4].1 && c.op_delete_array_1 == calls[4].0
        }),
{
    let code = spec_window(image.spec_base(), image.spec_bytes(), a, WIN_MAIN_SCAN_SIZE)->0;
    let calls = near_calls_from(code, a, 0);
    let found = calls.take(5);
    let (t, c) = spec_load_calls(image, a, WIN_MAIN_SCAN_SIZE, 6)->0;
    assert forall|k: int| 1 <= k < 6 implies #[trigger] t[k] == calls[k - 1].1 && c[k] == calls[k - 1].0 by {
        assert(found[k - 1] == calls[k - 1]);
    }
}

} // verus!

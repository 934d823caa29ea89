use studio_loader::find::init_main::win_main;
use studio_loader::find::util::{load_calls_to_struct, load_decoder, load_memory, ModuleImage};
use studio_loader::offsets::init_main::lea_displacements;

const BASE: u64 = 0x1_4000_0000;

/// `call rel32` at `at` to `target`.
fn put_call(b: &mut [u8], at: usize, target: u64) {
    let next = BASE + at as u64 + 5;
    let rel = (target as i64 - next as i64) as i32;
    b[at] = 0xE8;
    b[at + 1..at + 5].copy_from_slice(&rel.to_le_bytes());
}

#[test]
fn image_rejects_wrapping_past_the_address_space() {
    assert!(ModuleImage::new(u64::MAX - 1, vec![0; 4]).is_none());
    assert!(ModuleImage::new(u64::MAX - 4, vec![0; 4]).is_some());
}

#[test]
fn memory_windows() {
    let img = ModuleImage::new(BASE, (0u8..16).collect()).unwrap();
    assert_eq!(load_memory(&img, BASE + 2, 3), Some(&[2u8, 3, 4][..]));
    assert_eq!(load_memory(&img, BASE + 14, 3), None);
    assert_eq!(load_memory(&img, BASE - 1, 1), None);
    assert_eq!(load_memory(&img, BASE + 16, 0), Some(&[][..]));
}

#[test]
fn decodes_a_jump() {
    let mut b = vec![0x90u8; 32];
    // jmp rel32 at +0x0D to BASE + 0x40
    b[0x0D] = 0xE9;
    let rel = (0x40i64 - (0x0D + 5)) as i32;
    b[0x0E..0x12].copy_from_slice(&rel.to_le_bytes());
    let img = ModuleImage::new(BASE, b).unwrap();
    let d = load_decoder(&img, BASE + 0x0D, 5).unwrap();
    assert_eq!(d.len, 5);
    assert_eq!(d.ip, BASE + 0x0D);
    assert!(!d.is_call_near);
    assert_eq!(d.near_branch_target, BASE + 0x40);
}

#[test]
fn collects_call_targets_in_order() {
    let mut b = vec![0x90u8; 0x40];
    put_call(&mut b, 3, BASE + 0x100);
    put_call(&mut b, 10, BASE + 0x200);
    put_call(&mut b, 20, BASE + 0x300);
    let img = ModuleImage::new(BASE, b).unwrap();
    let (targets, callers) = load_calls_to_struct(&img, BASE, 0x40, 4).unwrap();
    assert_eq!(targets, vec![BASE, BASE + 0x100, BASE + 0x200, BASE + 0x300]);
    assert_eq!(callers, vec![0, BASE + 3, BASE + 10, BASE + 20]);
    let (short, _) = load_calls_to_struct(&img, BASE, 0x40, 2).unwrap();
    assert_eq!(short, vec![BASE, BASE + 0x100]);
    assert!(load_calls_to_struct(&img, BASE, 0x40, 5).is_none());
    assert!(load_calls_to_struct(&img, BASE, 0x41, 2).is_none());
}

#[test]
fn win_main_table() {
    let mut b = vec![0x90u8; 0x200];
    for (k, at) in [0x10usize, 0x30, 0x50, 0x70, 0x90].iter().enumerate() {
        put_call(&mut b, *at, BASE + 0x1000 * (k as u64 + 1));
    }
    let img = ModuleImage::new(BASE, b).unwrap();
    let (map, callers) = win_main::get(&img, BASE).unwrap();
    assert_eq!(map.win_main, BASE);
    assert_eq!(map.op_new_0, BASE + 0x1000);
    assert_eq!(map.op_new_1, BASE + 0x2000);
    assert_eq!(map.main_func, BASE + 0x3000);
    assert_eq!(map.op_delete_array_0, BASE + 0x4000);
    assert_eq!(map.op_delete_array_1, BASE + 0x5000);
    assert_eq!(callers.main_func, BASE + 0x50);
}

#[test]
fn lea_pair_before_a_call() {
    let mut b = vec![0x90u8; 0x40];
    // lea rdx,[rip+0x100] ; lea rcx,[rip+0x80] ; call ...
    b[0x10..0x17].copy_from_slice(&[0x48, 0x8D, 0x15, 0x00, 0x01, 0x00, 0x00]);
    b[0x17..0x1E].copy_from_slice(&[0x48, 0x8D, 0x0D, 0x80, 0x00, 0x00, 0x00]);
    put_call(&mut b, 0x1E, BASE);
    let img = ModuleImage::new(BASE, b).unwrap();
    let (z, a) = lea_displacements(&img, BASE + 0x1E).unwrap();
    assert_eq!(z, BASE + 0x17 + 0x100);
    assert_eq!(a, BASE + 0x1E + 0x80);
    assert!(lea_displacements(&img, 5).is_none());
}

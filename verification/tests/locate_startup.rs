use studio_loader::find::find_main;
use studio_loader::find::util::ModuleImage;
use studio_loader::offsets;
use studio_loader::offsets::init_main;

const BASE: u64 = 0x7FF6_0000_0000;
const ENTRY_RVA: u64 = 0x100;
const SEH: usize = 0x400;
const WIN_MAIN: usize = 0x800;

fn put_rel32(b: &mut [u8], at: usize, opcode: u8, target: u64) {
    let next = BASE + at as u64 + 5;
    b[at] = opcode;
    b[at + 1..at + 5].copy_from_slice(&((target as i64 - next as i64) as i32).to_le_bytes());
}

fn put_lea_pair(b: &mut [u8], at: usize, d1: i32, d2: i32) {
    b[at..at + 3].copy_from_slice(&[0x48, 0x8D, 0x15]);
    b[at + 3..at + 7].copy_from_slice(&d1.to_le_bytes());
    b[at + 7..at + 10].copy_from_slice(&[0x48, 0x8D, 0x0D]);
    b[at + 10..at + 14].copy_from_slice(&d2.to_le_bytes());
}

fn target(k: u64) -> u64 {
    BASE + 0x2000 + k * 0x10
}

/// An image whose entry point jumps to a `__scrt_common_main_seh` with 22
/// calls (the 13th to `WinMain`), lea pairs before the 3rd and 4th, and a
/// `WinMain` with five calls.
fn sample() -> (ModuleImage, Vec<usize>) {
    let mut b = vec![0x90u8; 0x3000];
    put_rel32(&mut b, ENTRY_RVA as usize + 0x0D, 0xE9, BASE + SEH as u64);
    let mut sites = Vec::new();
    let mut at = SEH;
    for k in 1..=22u64 {
        if k == 3 || k == 4 {
            put_lea_pair(&mut b, at, 0x1000 * k as i32, 0x2000 * k as i32);
            at += 14;
        }
        let dest = if k == 13 { BASE + WIN_MAIN as u64 } else { target(k) };
        put_rel32(&mut b, at, 0xE8, dest);
        sites.push(at);
        at += 5;
    }
    for k in 1..=5u64 {
        put_rel32(&mut b, WIN_MAIN + 0x20 * k as usize, 0xE8, target(100 + k));
    }
    (ModuleImage::new(BASE, b).unwrap(), sites)
}

#[test]
fn locates_the_startup_routines() {
    let (img, sites) = sample();
    let init = init_main::find(&img, ENTRY_RVA).unwrap();
    assert_eq!(init.scrt_init_map.__scrt_common_main_seh, BASE + SEH as u64);
    assert_eq!(init.scrt_init_map.__scrt_initialize_crt, target(1));
    assert_eq!(init.scrt_init_map._initterm_e, target(3));
    assert_eq!(init.scrt_init_map._initterm, target(4));
    assert_eq!(init.scrt_init_map.win_main, BASE + WIN_MAIN as u64);
    assert_eq!(init.scrt_init_map._exit, target(22));
    assert_eq!(init.scrt_init_callers._initterm_e, BASE + sites[2] as u64);
    assert_eq!(init.win_main_map.win_main, BASE + WIN_MAIN as u64);
    assert_eq!(init.win_main_map.main_func, target(103));
    assert_eq!(init.win_main_callers.main_func, BASE + WIN_MAIN as u64 + 0x60);
    let lea_e = sites[2] - 14;
    assert_eq!(init.__xi_z, BASE + lea_e as u64 + 7 + 0x3000);
    assert_eq!(init.__xi_a, BASE + lea_e as u64 + 14 + 0x6000);
    let lea = sites[3] - 14;
    assert_eq!(init.__xc_z, BASE + lea as u64 + 7 + 0x4000);
    assert_eq!(init.__xc_a, BASE + lea as u64 + 14 + 0x8000);
    assert_eq!(find_main(&img, ENTRY_RVA), Some(init));
}

#[test]
fn locates_everything_with_the_engine_routines() {
    let (img, _) = sample();
    let all = offsets::find(&img, ENTRY_RVA).unwrap();
    assert_eq!(all.init_main, init_main::find(&img, ENTRY_RVA).unwrap());
    assert_eq!(all.datamodel.unsecured_studio_game, BASE + 0x12A5680);
    assert_eq!(all.datamodel.create_view, BASE + 0x220ACA0);
}

#[test]
fn missing_startup_is_reported() {
    let (img, _) = sample();
    assert!(init_main::find(&img, 0x2FF8).is_none());
    assert!(init_main::find(&img, u64::MAX).is_none());
    let short = ModuleImage::new(BASE, vec![0x90u8; 0x500]).unwrap();
    assert!(init_main::find(&short, ENTRY_RVA).is_none());
    assert!(offsets::find(&short, ENTRY_RVA).is_none());
}

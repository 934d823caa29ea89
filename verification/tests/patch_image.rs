use studio_loader::patch::{
    machine_bitness, patch_image, patch_plan, read_pe_layout, read_u16_le, read_u32_le,
    size_of_image, write_at, check_entry_point_in_text, PatchError,
};

fn put_u16(b: &mut [u8], off: usize, v: u16) {
    b[off..off + 2].copy_from_slice(&v.to_le_bytes());
}

fn put_u32(b: &mut [u8], off: usize, v: u32) {
    b[off..off + 4].copy_from_slice(&v.to_le_bytes());
}

/// A 64-bit image: PE header at 0x80, `.text` at RVA 0x1000 with raw data at
/// file offset 0x200, entry point at RVA 0x1010.
fn sample_image(machine: u16) -> Vec<u8> {
    let mut b = vec![0u8; 0x400];
    b[0] = b'M';
    b[1] = b'Z';
    put_u32(&mut b, 0x3C, 0x80);
    b[0x80..0x84].copy_from_slice(b"PE\0\0");
    put_u16(&mut b, 0x84, machine);
    put_u16(&mut b, 0x94, 0xF0);
    put_u16(&mut b, 0x96, 0x0022);
    put_u32(&mut b, 0xA8, 0x1010);
    let sto = 0x80 + 0x18 + 0xF0;
    put_u32(&mut b, sto + 0x08, 0x100);
    put_u32(&mut b, sto + 0x0C, 0x1000);
    put_u32(&mut b, sto + 0x10, 0x200);
    put_u32(&mut b, sto + 0x14, 0x200);
    b
}

#[test]
fn little_endian_reads() {
    let b = [0x34u8, 0x12, 0x78, 0x56];
    assert_eq!(read_u16_le(&b, 0), Some(0x1234));
    assert_eq!(read_u32_le(&b, 0), Some(0x5678_1234));
    assert_eq!(read_u16_le(&b, 3), None);
    assert_eq!(read_u32_le(&b, 1), None);
    assert_eq!(read_u32_le(&b, u64::MAX), None);
}

#[test]
fn machine_fields() {
    assert_eq!(machine_bitness(0x014C), Some(32));
    assert_eq!(machine_bitness(0x8664), Some(64));
    assert_eq!(machine_bitness(0xAA64), None);
}

#[test]
fn layout_of_sample_image() {
    let l = read_pe_layout(&sample_image(0x8664)).unwrap();
    assert_eq!(l.file_header_offset, 0x80);
    assert_eq!(l.bitness, 64);
    assert_eq!(l.characteristics, 0x0022);
    assert_eq!(l.optional_header_size, 0xF0);
    assert_eq!(l.entry_point_rva, 0x1010);
    assert_eq!(l.virtual_size, 0x100);
    assert_eq!(l.virtual_addr, 0x1000);
    assert_eq!(l.raw_data_size, 0x200);
    assert_eq!(l.raw_data_pointer, 0x200);
}

#[test]
fn plan_writes_return_one_at_entry() {
    let plan = patch_plan(&sample_image(0x8664)).unwrap();
    assert_eq!(plan.entry_point_file_offset, 0x210);
    assert_eq!(plan.entry_stub, vec![0xB8, 0x01, 0x00, 0x00, 0x00, 0xC3]);
    assert_eq!(plan.characteristics_offset, 0x96);
    assert_eq!(plan.characteristics, 0x2022);
}

#[test]
fn patched_image_is_a_dll_returning_one() {
    let before = sample_image(0x8664);
    let after = patch_image(&before).unwrap();
    assert_eq!(after.len(), before.len());
    assert_eq!(&after[0x210..0x216], &[0xB8, 0x01, 0x00, 0x00, 0x00, 0xC3]);
    assert_eq!(read_u16_le(&after, 0x96), Some(0x2022));
    for i in 0..before.len() {
        if !(0x210..0x216).contains(&i) && !(0x96..0x98).contains(&i) {
            assert_eq!(after[i], before[i], "byte {i:#x} changed");
        }
    }
}

#[test]
fn patching_twice_is_patching_once() {
    let once = patch_image(&sample_image(0x8664)).unwrap();
    let twice = patch_image(&once).unwrap();
    assert_eq!(once, twice);
}

#[test]
fn thirty_two_bit_image_gets_the_same_stub() {
    let after = patch_image(&sample_image(0x014C)).unwrap();
    assert_eq!(&after[0x210..0x216], &[0xB8, 0x01, 0x00, 0x00, 0x00, 0xC3]);
}

#[test]
fn unknown_machine_is_found_before_patching() {
    assert_eq!(read_pe_layout(&sample_image(0x1234)).unwrap_err(), PatchError::UnknownMachine(0x1234));
}

#[test]
fn truncated_images_are_refused() {
    assert_eq!(patch_image(&[0u8; 0x20]).unwrap_err(), PatchError::Truncated);
    let b = sample_image(0x8664);
    assert_eq!(patch_image(&b[..0x90]).unwrap_err(), PatchError::Truncated);
    assert_eq!(patch_image(&b[..0x19F]).unwrap_err(), PatchError::Truncated);
}

#[test]
fn entry_point_outside_text_is_found_before_patching() {
    let mut b = sample_image(0x8664);
    assert!(check_entry_point_in_text(&read_pe_layout(&b).unwrap()));
    put_u32(&mut b, 0xA8, 0x0FFF);
    assert!(!check_entry_point_in_text(&read_pe_layout(&b).unwrap()));
    put_u32(&mut b, 0xA8, 0x1200);
    assert!(!check_entry_point_in_text(&read_pe_layout(&b).unwrap()));
    // A section end that overflows 32 bits counts as outside.
    put_u32(&mut b, 0x80 + 0x18 + 0xF0 + 0x0C, 0xFFFF_FF00);
    put_u32(&mut b, 0x80 + 0x18 + 0xF0 + 0x10, 0x200);
    put_u32(&mut b, 0xA8, 0xFFFF_FF10);
    assert!(!check_entry_point_in_text(&read_pe_layout(&b).unwrap()));
}

#[test]
fn entry_stub_past_the_end_grows_the_image() {
    let mut b = sample_image(0x8664);
    b.truncate(0x200);
    let after = patch_image(&b).unwrap();
    assert_eq!(after.len(), 0x216);
    assert!(after[0x200..0x210].iter().all(|&x| x == 0));
    assert_eq!(&after[0x210..0x216], &[0xB8, 0x01, 0x00, 0x00, 0x00, 0xC3]);
}

#[test]
fn write_at_overwrites_and_extends() {
    let mut v = vec![1u8, 2, 3];
    write_at(&mut v, 1, &[9, 9]);
    assert_eq!(v, vec![1, 9, 9]);
    write_at(&mut v, 5, &[7]);
    assert_eq!(v, vec![1, 9, 9, 0, 0, 7]);
    write_at(&mut v, 10, &[]);
    assert_eq!(v, vec![1, 9, 9, 0, 0, 7]);
}

#[test]
fn patching_twice_with_the_stub_over_the_characteristics() {
    let mut b = sample_image(0x8664);
    // Raw data at 0x86 puts the entry point's file offset on the characteristics.
    put_u32(&mut b, 0x80 + 0x18 + 0xF0 + 0x14, 0x86);
    let once = patch_image(&b).unwrap();
    assert_eq!(&once[0x96..0x9C], &[0x22, 0x20, 0x00, 0x00, 0x00, 0xC3]);
    let twice = patch_image(&once).unwrap();
    assert_eq!(once, twice);
}

#[test]
fn size_of_image_from_headers() {
    let mut b = sample_image(0x8664);
    put_u32(&mut b, 0xD0, 0x5000);
    assert_eq!(size_of_image(&b), Some(0x5000));
    assert_eq!(size_of_image(&b[..0xD3]), None);
    assert_eq!(size_of_image(&b[..0x3E]), None);
}

#[test]
fn patching_twice_with_the_stub_over_the_virtual_size() {
    let mut b = sample_image(0x8664);
    let sto = 0x80 + 0x18 + 0xF0;
    // Raw data at 0x17E puts the entry stub on the section's name and virtual size.
    put_u32(&mut b, sto + 0x14, 0x17E);
    let once = patch_image(&b).unwrap();
    assert_eq!(&once[sto + 6..sto + 12], &[0xB8, 0x01, 0x00, 0x00, 0x00, 0xC3]);
    assert_eq!(read_u16_le(&once, 0x96), Some(0x2022));
    let twice = patch_image(&once).unwrap();
    assert_eq!(once, twice);
}

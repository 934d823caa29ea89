//! Patching of a PE image: the entry point is replaced by a stub that
//! returns one, and the image is marked as a DLL.

use vstd::prelude::*;

verus! {

/// The little-endian `u16` stored at `off` in `s`.
pub open spec fn le_u16_at(s: Seq<u8>, off: int) -> u16 {
    (s[off] as int + 256 * s[off + 1] as int) as u16
}

/// The little-endian `u32` stored at `off` in `s`.
pub open spec fn le_u32_at(s: Seq<u8>, off: int) -> u32 {
    (s[off] as int + 256 * s[off + 1] as int + 65536 * s[off + 2] as int + 16777216
        * s[off + 3] as int) as u32
}

/// Whether `len` bytes starting at `off` lie inside `s`.
pub open spec fn in_bounds(s: Seq<u8>, off: int, len: int) -> bool {
    0 <= off && off + len <= s.len()
}

/// Reads a little-endian `u16` at `offset`, or `None` when the two bytes are
/// not all inside `bytes`.
pub fn read_u16_le(bytes: &[u8], offset: u64) -> (r: Option<u16>)
    ensures
        r == (if in_bounds(bytes@, offset as int, 2) {
            Some(le_u16_at(bytes@, offset as int))
        } else {
            None::<u16>
        }),
{
    let len = bytes.len();
    if offset >= len as u64 || (len as u64) - offset < 2 {
        return None;
    }
    let i = offset as usize;
    let b0 = bytes[i];
    let b1 = bytes[i + 1];
    Some((b0 as u16) + (b1 as u16) * 256)
}

/// Reads a little-endian `u32` at `offset`, or `None` when the four bytes are
/// not all inside `bytes`.
pub fn read_u32_le(bytes: &[u8], offset: u64) -> (r: Option<u32>)
    ensures
        r == (if in_bounds(bytes@, offset as int, 4) {
            Some(le_u32_at(bytes@, offset as int))
        } else {
            None::<u32>
        }),
{
    let len = bytes.len();
    if offset >= len as u64 || (len as u64) - offset < 4 {
        return None;
    }
    let i = offset as usize;
    let b0 = bytes[i];
    let b1 = bytes[i + 1];
    let b2 = bytes[i + 2];
    let b3 = bytes[i + 3];
    Some((b0 as u32) + (b1 as u32) * 256 + (b2 as u32) * 65536 + (b3 as u32) * 16777216)
}


/// Why an image cannot be patched.
#[derive(Debug, Clone, Copy, PartialEq, Eq, Structural)]
pub enum PatchError {
    /// A header field lies past the end of the image.
    Truncated,
    /// The machine field names neither i386 (`0x014C`) nor x86-64 (`0x8664`).
    UnknownMachine(u16),
    /// The entry point does not lie in the raw data of the first section.
    EntryPointOutsideText,
    /// The patched image would not fit in memory.
    TooLarge,
}

/// The header fields that the patch reads.
#[derive(Debug, Clone, Copy, PartialEq, Eq, Structural)]
pub struct PeLayout {
    /// File offset of the `PE\0\0` signature (`e_lfanew`).
    pub file_header_offset: u64,
    /// 32 or 64, from the machine field.
    pub bitness: u32,
    pub characteristics: u16,
    pub optional_header_size: u16,
    pub entry_point_rva: u32,
    pub virtual_size: u32,
    pub virtual_addr: u32,
    pub raw_data_size: u32,
    pub raw_data_pointer: u32,
}

/// Offset of `e_lfanew` in the DOS header.
pub const E_LFANEW_OFFSET: u64 = 0x3C;

/// The bitness that a machine field stands for.
pub open spec fn spec_machine_bitness(machine: u16) -> Option<u32> {
    if machine == 0x014C {
        Some(32u32)
    } else if machine == 0x8664 {
        Some(64u32)
    } else {
        None
    }
}

/// The bitness that a machine field stands for: 32 for i386, 64 for x86-64.
pub fn machine_bitness(machine: u16) -> (r: Option<u32>)
    ensures
        r == spec_machine_bitness(machine),
{
    if machine == 0x014C {
        Some(32)
    } else if machine == 0x8664 {
        Some(64)
    } else {
        None
    }
}

/// The machines the patch knows: i386 (`0x014C`) as 32-bit and x86-64
/// (`0x8664`) as 64-bit; no other machine.
pub proof fn lemma_machines(machine: u16)
    ensures
        machine == 0x014C ==> spec_machine_bitness(machine) == Some(32u32),
        machine == 0x8664 ==> spec_machine_bitness(machine) == Some(64u32),
        !(machine == 0x014C || machine == 0x8664) ==> spec_machine_bitness(machine) is None,
{
}

/// Offset of the optional header, which follows the 0x18-byte file header.
pub open spec fn optional_header_offset(fho: int) -> int {
    fho + 0x18
}

/// Offset of the section table.
pub open spec fn section_table_offset(fho: int, optional_header_size: int) -> int {
    fho + 0x18 + optional_header_size
}

/// The header fields of `s`, read in the order the patch reads them: the
/// first field that is missing, or an unknown machine, ends the reading.
#[verifier::opaque]
pub open spec fn spec_pe_layout(s: Seq<u8>) -> Result<PeLayout, PatchError> {
    if !in_bounds(s, 0x3C, 4) {
        Err(PatchError::Truncated)
    } else {
        let fho = le_u32_at(s, 0x3C) as int;
        if !in_bounds(s, fho + 0x04, 2) {
            Err(PatchError::Truncated)
        } else if spec_machine_bitness(le_u16_at(s, fho + 0x04)) is None {
            Err(PatchError::UnknownMachine(le_u16_at(s, fho + 0x04)))
        } else if !in_bounds(s, fho + 0x16, 2) || !in_bounds(s, fho + 0x14, 2) {
            Err(PatchError::Truncated)
        } else {
            let ohs = le_u16_at(s, fho + 0x14) as int;
            let sto = section_table_offset(fho, ohs);
            if !in_bounds(s, optional_header_offset(fho) + 0x10, 4) || !in_bounds(s, sto + 0x08, 16) {
                Err(PatchError::Truncated)
            } else {
                Ok(PeLayout {
                    file_header_offset: fho as u64,
                    bitness: spec_machine_bitness(le_u16_at(s, fho + 0x04))->0,
                    characteristics: le_u16_at(s, fho + 0x16),
                    optional_header_size: ohs as u16,
                    entry_point_rva: le_u32_at(s, optional_header_offset(fho) + 0x10),
                    virtual_size: le_u32_at(s, sto + 0x08),
                    virtual_addr: le_u32_at(s, sto + 0x0C),
                    raw_data_size: le_u32_at(s, sto + 0x10),
                    raw_data_pointer: le_u32_at(s, sto + 0x14),
                })
            }
        }
    }
}

/// Reads the header fields that the patch needs, in the order that the
/// patch reads them.
pub fn read_pe_layout(bytes: &[u8]) -> (r: Result<PeLayout, PatchError>)
    ensures
        r == spec_pe_layout(bytes@),
{
    reveal(spec_pe_layout);
    let e_lfanew = match read_u32_le(bytes, E_LFANEW_OFFSET) {
        Some(v) => v,
        None => return Err(PatchError::Truncated),
    };
    let fho = e_lfanew as u64;
    let machine = match read_u16_le(bytes, fho + 0x04) {
        Some(v) => v,
        None => return Err(PatchError::Truncated),
    };
    let bitness = match machine_bitness(machine) {
        Some(b) => b,
        None => return Err(PatchError::UnknownMachine(machine)),
    };
    let characteristics = match read_u16_le(bytes, fho + 0x16) {
        Some(v) => v,
        None => return Err(PatchError::Truncated),
    };
    let optional_header_size = match read_u16_le(bytes, fho + 0x14) {
        Some(v) => v,
        None => return Err(PatchError::Truncated),
    };
    let optional_header_offset = fho + 0x18;
    let entry_point_rva = match read_u32_le(bytes, optional_header_offset + 0x10) {
        Some(v) => v,
        None => return Err(PatchError::Truncated),
    };
    let section_table_offset = optional_header_offset + optional_header_size as u64;
    let virtual_size = read_u32_le(bytes, section_table_offset + 0x08);
    let virtual_addr = read_u32_le(bytes, section_table_offset + 0x0C);
    let raw_data_size = read_u32_le(bytes, section_table_offset + 0x10);
    let raw_data_pointer = read_u32_le(bytes, section_table_offset + 0x14);
    match (virtual_size, virtual_addr, raw_data_size, raw_data_pointer) {
        (Some(vs), Some(va), Some(rs), Some(rp)) => Ok(PeLayout {
            file_header_offset: fho,
            bitness,
            characteristics,
            optional_header_size,
            entry_point_rva,
            virtual_size: vs,
            virtual_addr: va,
            raw_data_size: rs,
            raw_data_pointer: rp,
        }),
        _ => Err(PatchError::Truncated),
    }
}


/// Offset of `SizeOfImage` in the optional header.
pub const SIZE_OF_IMAGE_OFFSET: u64 = 0x38;

/// The `SizeOfImage` field of the headers `s`, when both it and `e_lfanew`
/// lie inside them.
pub open spec fn spec_size_of_image(s: Seq<u8>) -> Option<u32> {
    if !in_bounds(s, 0x3C, 4) {
        None
    } else {
        let off = optional_header_offset(le_u32_at(s, 0x3C) as int) + 0x38;
        if in_bounds(s, off, 4) {
            Some(le_u32_at(s, off))
        } else {
            None
        }
    }
}

/// How many bytes the loaded image spans, read from its headers: the
/// optional header's `SizeOfImage`, found through `e_lfanew`.
pub fn size_of_image(headers: &[u8]) -> (r: Option<u32>)
    ensures
        r == spec_size_of_image(headers@),
{
    let e_lfanew = match read_u32_le(headers, E_LFANEW_OFFSET) {
        Some(v) => v,
        None => return None,
    };
    read_u32_le(headers, e_lfanew as u64 + 0x18 + SIZE_OF_IMAGE_OFFSET)
}

/// Whether the entry point lies in the raw data of the first section, which
/// the patch takes to be `.text`; a section end that overflows 32 bits fails.
pub open spec fn entry_point_in_text(l: PeLayout) -> bool {
    &&& l.virtual_addr <= l.entry_point_rva
    &&& l.virtual_addr as int + l.raw_data_size as int <= u32::MAX
    &&& l.entry_point_rva < l.virtual_addr + l.raw_data_size
}

/// Whether the entry point lies in the raw data of the first section.
pub fn check_entry_point_in_text(l: &PeLayout) -> (r: bool)
    ensures
        r == entry_point_in_text(*l),
{
    l.virtual_addr <= l.entry_point_rva && l.raw_data_size <= u32::MAX - l.virtual_addr
        && l.entry_point_rva < l.virtual_addr + l.raw_data_size
}

/// The file offset of the entry point: its RVA moved from the section's
/// virtual address to the section's raw data, modulo 2^32.
pub open spec fn spec_entry_point_file_offset(l: PeLayout) -> u32 {
    ((l.entry_point_rva as int + l.raw_data_pointer as int - l.virtual_addr as int)
        % 0x1_0000_0000) as u32
}

/// The file offset of the entry point.
pub fn entry_point_file_offset(l: &PeLayout) -> (r: u32)
    requires
        entry_point_in_text(*l),
    ensures
        r == spec_entry_point_file_offset(*l),
{
    l.entry_point_rva.wrapping_add(l.raw_data_pointer).wrapping_sub(l.virtual_addr)
}

/// The characteristics with `IMAGE_FILE_DLL` (`0x2000`) set.
pub open spec fn dll_characteristics(c: u16) -> u16 {
    c | 0x2000
}

/// The two little-endian bytes of `v`.
pub open spec fn le_u16_bytes(v: u16) -> Seq<u8> {
    seq![(v % 256) as u8, (v / 256) as u8]
}

/// The value the entry stub hands back in `eax`: a DLL entry point that
/// returns `TRUE`.
pub const ENTRY_STUB_RESULT: i32 = 1;

/// `mov eax, imm; ret` as machine code for a 32- or 64-bit target: the
/// opcode `B8`, the immediate's four bytes little-endian first, then `C3`.
pub open spec fn mov_eax_ret_bytes(imm: i32) -> Seq<u8> {
    let v = imm as u32;
    seq![
        0xB8u8,
        (v % 256) as u8,
        ((v / 256) % 256) as u8,
        ((v / 65536) % 256) as u8,
        (v / 16777216) as u8,
        0xC3u8,
    ]
}

/// Assembles `mov eax, imm; ret` at `ip` for a 32- or 64-bit target with
/// iced-x86's `CodeAssembler` (`new`, `mov`, `ret`, `assemble`, used
/// together as one fresh assembler). Trusted, not proved: as the assembler's
/// and encoder's source show, `new` accepts the bitness, neither instruction
/// uses a label, prefix or IP-relative operand, so the encoding succeeds
/// wherever it is placed and gives `B8 imm32 C3`.
#[verifier::external_body]
fn assemble_mov_eax_ret(bitness: u32, imm: i32, ip: u64) -> (r: Option<Vec<u8>>)
    requires
        bitness == 32 || bitness == 64,
    ensures
        r is Some,
        r->0@ == mov_eax_ret_bytes(imm),
{
    let mut a = iced_x86::code_asm::CodeAssembler::new(bitness).ok()?;
    a.mov(iced_x86::code_asm::eax, imm).ok()?;
    a.ret().ok()?;
    a.assemble(ip).ok()
}

/// What the patch writes: the entry stub at the entry point's file offset,
/// then the characteristics with the DLL bit set, little-endian, in place.
pub struct PatchPlan {
    pub entry_point_file_offset: u64,
    pub entry_stub: Vec<u8>,
    pub characteristics_offset: u64,
    pub characteristics: u16,
}

/// The plan as plain values: (entry offset, stub, characteristics offset,
/// new characteristics).
pub type PlanValue = (u64, Seq<u8>, u64, u16);

impl PatchPlan {
    pub open spec fn value(&self) -> PlanValue {
        (self.entry_point_file_offset, self.entry_stub@, self.characteristics_offset,
            self.characteristics)
    }
}

/// The writes that patch the image `s`, or why there are none.
pub open spec fn spec_patch_plan(s: Seq<u8>) -> Result<PlanValue, PatchError> {
    match spec_pe_layout(s) {
        Err(e) => Err(e),
        Ok(l) => if !entry_point_in_text(l) {
            Err(PatchError::EntryPointOutsideText)
        } else {
            let eo = spec_entry_point_file_offset(l) as u64;
            Ok(
                (eo, mov_eax_ret_bytes(ENTRY_STUB_RESULT), (l.file_header_offset + 0x16) as u64,
                dll_characteristics(l.characteristics)),
            )
        },
    }
}

/// Whether the patch can work on `s` at all: its machine is i386 or x86-64,
/// and where every header field is present the entry point lies in the raw
/// data of the first section. On other images the patch stops; a caller
/// tells them apart first with `read_pe_layout` and
/// `check_entry_point_in_text`.
pub open spec fn patchable(s: Seq<u8>) -> bool {
    match spec_pe_layout(s) {
        Err(PatchError::UnknownMachine(_)) => false,
        Err(_) => true,
        Ok(l) => entry_point_in_text(l),
    }
}

/// Works out the writes that patch an image: the entry point's code is
/// replaced by `mov eax, 1; ret` and the DLL bit of the characteristics is
/// set. A header field past the end of the image is an error.
pub fn patch_plan(bytes: &[u8]) -> (r: Result<PatchPlan, PatchError>)
    requires
        patchable(bytes@),
    ensures
        match r {
            Ok(p) => spec_patch_plan(bytes@) == Ok::<PlanValue, PatchError>(p.value()),
            Err(e) => spec_patch_plan(bytes@) == Err::<PlanValue, PatchError>(e),
        },
{
    let layout = match read_pe_layout(bytes) {
        Ok(l) => l,
        Err(e) => return Err(e),
    };
    proof {
        lemma_layout_facts(bytes@);
    }
    let eo = entry_point_file_offset(&layout) as u64;
    proof {
        reveal(spec_pe_layout);
    }
    let stub = match assemble_mov_eax_ret(layout.bitness, ENTRY_STUB_RESULT, eo) {
        Some(v) => v,
        None => Vec::new(),
    };
    Ok(PatchPlan {
        entry_point_file_offset: eo,
        entry_stub: stub,
        characteristics_offset: layout.file_header_offset + 0x16,
        characteristics: layout.characteristics | 0x2000,
    })
}


/// `s` after writing `d` at `off`, as a file grows when written past its
/// end: the gap is filled with zeros. Writing nothing changes nothing.
#[verifier::opaque]
pub open spec fn spec_write_at(s: Seq<u8>, off: int, d: Seq<u8>) -> Seq<u8> {
    if d.len() == 0 {
        s
    } else {
        let n = if off + d.len() > s.len() {
            off + d.len()
        } else {
            s.len() as int
        };
        Seq::new(
            n as nat,
            |i: int|
                if off <= i < off + d.len() {
                    d[i - off]
                } else if i < s.len() {
                    s[i]
                } else {
                    0u8
                },
        )
    }
}

/// Writes `data` into `buf` at `offset`, growing `buf` with zeros where the
/// write starts or ends past its end.
pub fn write_at(buf: &mut Vec<u8>, offset: usize, data: &[u8])
    requires
        offset + data@.len() <= usize::MAX,
    ensures
        final(buf)@ == spec_write_at(old(buf)@, offset as int, data@),
{
    let ghost s0 = buf@;
    if data.len() == 0 {
        proof {
            reveal(spec_write_at);
        }
        return;
    }
    while buf.len() < offset
        invariant
            buf@.len() <= if offset > s0.len() { offset as int } else { s0.len() as int },
            buf@.len() >= s0.len(),
            forall|j: int| 0 <= j < s0.len() ==> buf@[j] == s0[j],
            forall|j: int| s0.len() <= j < buf@.len() ==> buf@[j] == 0u8,
        decreases offset - buf@.len(),
    {
        buf.push(0u8);
    }
    let n = data.len();
    let mut i: usize = 0;
    while i < n
        invariant
            n == data@.len(),
            0 < n,
            offset + n <= usize::MAX,
            i <= n,
            buf@.len() == (if offset + i > s0.len() { (offset + i) as int } else { s0.len() as int }),
            forall|j: int|
                0 <= j < buf@.len() ==> buf@[j] == (if offset <= j < offset + i {
                    data@[j - offset]
                } else if j < s0.len() {
                    s0[j]
                } else {
                    0u8
                }),
        decreases n - i,
    {
        let p = offset + i;
        if p < buf.len() {
            buf.set(p, data[i]);
        } else {
            buf.push(data[i]);
        }
        i = i + 1;
    }
    assert(buf@ =~= spec_write_at(s0, offset as int, data@)) by {
        reveal(spec_write_at);
    }
}

/// The image `s` after the patch, or why it cannot be patched.
pub open spec fn spec_patch_image(s: Seq<u8>) -> Result<Seq<u8>, PatchError> {
    match spec_patch_plan(s) {
        Err(e) => Err(e),
        Ok(p) => if p.0 + p.1.len() > usize::MAX || p.2 + 2 > usize::MAX {
            Err(PatchError::TooLarge)
        } else {
            Ok(
                spec_write_at(
                    spec_write_at(s, p.0 as int, p.1),
                    p.2 as int,
                    le_u16_bytes(p.3),
                ),
            )
        },
    }
}

/// The whole image after the patch: the entry stub written at the entry
/// point, then the characteristics with the DLL bit set.
pub fn patch_image(bytes: &[u8]) -> (r: Result<Vec<u8>, PatchError>)
    requires
        patchable(bytes@),
    ensures
        match r {
            Ok(v) => spec_patch_image(bytes@) == Ok::<Seq<u8>, PatchError>(v@),
            Err(e) => spec_patch_image(bytes@) == Err::<Seq<u8>, PatchError>(e),
        },
{
    let plan = match patch_plan(bytes) {
        Ok(p) => p,
        Err(e) => return Err(e),
    };
    let eo = plan.entry_point_file_offset;
    let stub_len = plan.entry_stub.len();
    if eo > usize::MAX as u64 || stub_len > usize::MAX - (eo as usize) {
        return Err(PatchError::TooLarge);
    }
    let co = plan.characteristics_offset;
    if co > usize::MAX as u64 || (co as usize) > usize::MAX - 2 {
        return Err(PatchError::TooLarge);
    }
    let mut out = vstd::slice::slice_to_vec(bytes);
    write_at(&mut out, eo as usize, plan.entry_stub.as_slice());
    let c = plan.characteristics;
    let le = vec![(c % 256) as u8, (c / 256) as u8];
    write_at(&mut out, co as usize, le.as_slice());
    assert(le@ =~= le_u16_bytes(c));
    Ok(out)
}


/// Writing `d` at `off` puts exactly `d` there.
pub proof fn lemma_write_at_reads_back(s: Seq<u8>, off: int, d: Seq<u8>)
    requires
        0 <= off,
        d.len() > 0,
    ensures
        spec_write_at(s, off, d).len() >= off + d.len(),
        spec_write_at(s, off, d).len() >= s.len(),
        spec_write_at(s, off, d).subrange(off, off + d.len()) =~= d,
{
    reveal(spec_write_at);
}

/// Writing never shortens the image.
pub proof fn lemma_write_at_len(s: Seq<u8>, off: int, d: Seq<u8>)
    ensures
        spec_write_at(s, off, d).len() >= s.len(),
{
    reveal(spec_write_at);
}

/// Writing `d` at `off` keeps every byte of `s` outside `[off, off + d.len())`.
pub proof fn lemma_write_at_keeps(s: Seq<u8>, off: int, d: Seq<u8>, i: int)
    requires
        0 <= off,
        0 <= i < s.len(),
        !(off <= i < off + d.len()),
    ensures
        spec_write_at(s, off, d)[i] == s[i],
{
    reveal(spec_write_at);
}

/// Writing the bytes that are already in place changes nothing.
pub proof fn lemma_write_at_same(s: Seq<u8>, off: int, d: Seq<u8>)
    requires
        0 <= off,
        off + d.len() <= s.len(),
        s.subrange(off, off + d.len()) =~= d,
    ensures
        spec_write_at(s, off, d) == s,
{
    reveal(spec_write_at);
    if d.len() > 0 {
        assert forall|i: int| 0 <= i < s.len() implies spec_write_at(s, off, d)[i] == s[i] by {
            if off <= i < off + d.len() {
                assert(s.subrange(off, off + d.len())[i - off] == s[i]);
            }
        }
        assert(spec_write_at(s, off, d) =~= s);
    }
}

/// The two little-endian bytes of a value read back as that value.
pub proof fn lemma_le_u16_roundtrip(s: Seq<u8>, off: int, v: u16)
    requires
        0 <= off,
        off + 2 <= s.len(),
        s.subrange(off, off + 2) =~= le_u16_bytes(v),
    ensures
        le_u16_at(s, off) == v,
{
    assert(s[off] == s.subrange(off, off + 2)[0]);
    assert(s[off + 1] == s.subrange(off, off + 2)[1]);
}

/// Setting the DLL bit twice is setting it once, and the bit is then set.
pub proof fn lemma_dll_characteristics(c: u16)
    ensures
        dll_characteristics(dll_characteristics(c)) == dll_characteristics(c),
        dll_characteristics(c) & 0x2000 == 0x2000,
{
    assert((c | 0x2000) | 0x2000 == c | 0x2000) by (bit_vector);
    assert((c | 0x2000) & 0x2000 == 0x2000) by (bit_vector);
}

/// Setting the DLL bit adds exactly that bit: the result has it, and every
/// other characteristics bit is as it was.
pub proof fn lemma_dll_bit_only(c: u16)
    ensures
        dll_characteristics(c) == c | 0x2000,
        dll_characteristics(c) & 0x2000 == 0x2000,
        dll_characteristics(c) & 0xDFFF == c & 0xDFFF,
{
    assert((c | 0x2000) & 0x2000 == 0x2000) by (bit_vector);
    assert((c | 0x2000) & 0xDFFF == c & 0xDFFF) by (bit_vector);
}

/// The header layout of an image that the patch accepts.
pub open spec fn accepted_layout(s: Seq<u8>) -> PeLayout
    recommends
        spec_pe_layout(s) is Ok,
{
    spec_pe_layout(s)->Ok_0
}

/// What an accepted layout tells of the image it was read from.
pub proof fn lemma_layout_facts(s: Seq<u8>)
    requires
        spec_pe_layout(s) is Ok,
    ensures
        ({
            let l = accepted_layout(s);
            let fho = l.file_header_offset as int;
            let sto = section_table_offset(fho, l.optional_header_size as int);
            &&& fho <= u32::MAX
            &&& fho == le_u32_at(s, 0x3C)
            &&& in_bounds(s, 0x3C, 4)
            &&& in_bounds(s, fho + 0x04, 2)
            &&& in_bounds(s, fho + 0x14, 4)
            &&& in_bounds(s, fho + 0x28, 4)
            &&& in_bounds(s, sto + 0x08, 16)
            &&& l.characteristics == le_u16_at(s, fho + 0x16)
        }),
{
    reveal(spec_pe_layout);
}

/// After the patch, the characteristics read back with the DLL bit set,
/// and all other characteristics bits as they were.
pub proof fn lemma_patch_sets_dll_flag(s: Seq<u8>)
    requires
        spec_patch_image(s) is Ok,
    ensures
        ({
            let out = spec_patch_image(s)->Ok_0;
            let l = accepted_layout(s);
            &&& le_u16_at(out, l.file_header_offset + 0x16) == dll_characteristics(
                l.characteristics,
            )
            &&& le_u16_at(out, l.file_header_offset + 0x16) & 0x2000 == 0x2000
            &&& le_u16_at(out, l.file_header_offset + 0x16) == le_u16_at(s, l.file_header_offset + 0x16) | 0x2000
            &&& le_u16_at(out, l.file_header_offset + 0x16) & 0xDFFF == le_u16_at(
                s,
                l.file_header_offset + 0x16,
            ) & 0xDFFF
        }),
{
    let p = spec_patch_plan(s)->Ok_0;
    let l = accepted_layout(s);
    reveal(spec_pe_layout);
    lemma_dll_bit_only(l.characteristics);
    let s1 = spec_write_at(s, p.0 as int, p.1);
    let out = spec_write_at(s1, p.2 as int, le_u16_bytes(p.3));
    lemma_layout_facts(s);
    lemma_write_at_reads_back(s1, p.2 as int, le_u16_bytes(p.3));
    lemma_le_u16_roundtrip(out, p.2 as int, p.3);
    lemma_dll_characteristics(l.characteristics);
}

/// Whether the bytes that the patch writes stay clear of the header fields
/// that decide the patch: the entry stub clear of `e_lfanew`, the machine,
/// the optional header's size, the entry point and the first section's
/// address, raw size and raw data pointer, and the characteristics clear of
/// `e_lfanew`. The stub may cover the characteristics and the section's
/// virtual size, which the patch reads but does not use.
pub open spec fn stub_clear_of_read_fields(s: Seq<u8>) -> bool {
    let l = accepted_layout(s);
    let p = spec_patch_plan(s)->Ok_0;
    let fho = l.file_header_offset as int;
    let sto = section_table_offset(fho, l.optional_header_size as int);
    let lo = p.0 as int;
    let hi = p.0 + p.1.len();
    &&& hi <= 0x3C || 0x40 <= lo
    &&& hi <= fho + 0x04 || fho + 0x06 <= lo
    &&& hi <= fho + 0x14 || fho + 0x16 <= lo
    &&& hi <= fho + 0x28 || fho + 0x2C <= lo
    &&& hi <= sto + 0x0C || sto + 0x18 <= lo
    &&& fho + 0x18 <= 0x3C || 0x40 <= fho + 0x16
}

/// Whether the entry stub stays clear of the characteristics, which the
/// patch writes after it.
pub open spec fn stub_clear_of_characteristics(s: Seq<u8>) -> bool {
    let p = spec_patch_plan(s)->Ok_0;
    p.0 + p.1.len() <= p.2 || p.2 + 2 <= p.0
}

/// Doing the same two writes again changes nothing.
pub proof fn lemma_write_pair_again(s: Seq<u8>, o1: int, d1: Seq<u8>, o2: int, d2: Seq<u8>)
    requires
        0 <= o1,
        0 <= o2,
    ensures
        ({
            let out = spec_write_at(spec_write_at(s, o1, d1), o2, d2);
            spec_write_at(spec_write_at(out, o1, d1), o2, d2) == out
        }),
{
    reveal(spec_write_at);
    let s1 = spec_write_at(s, o1, d1);
    let out = spec_write_at(s1, o2, d2);
    let t1 = spec_write_at(out, o1, d1);
    let t = spec_write_at(t1, o2, d2);
    assert(t =~= out);
}

/// After the patch the entry stub stands at the entry point's file offset,
/// wherever it stays clear of the characteristics.
pub proof fn lemma_patch_writes_entry_stub(s: Seq<u8>)
    requires
        spec_patch_image(s) is Ok,
        stub_clear_of_characteristics(s),
    ensures
        ({
            let out = spec_patch_image(s)->Ok_0;
            let p = spec_patch_plan(s)->Ok_0;
            out.subrange(p.0 as int, p.0 + p.1.len()) == p.1
        }),
{
    let p = spec_patch_plan(s)->Ok_0;
    let s1 = spec_write_at(s, p.0 as int, p.1);
    let out = spec_write_at(s1, p.2 as int, le_u16_bytes(p.3));
    lemma_layout_facts(s);
    lemma_write_at_reads_back(s, p.0 as int, p.1);
    lemma_write_at_len(s1, p.2 as int, le_u16_bytes(p.3));
    assert forall|i: int| p.0 <= i < p.0 + p.1.len() implies out[i] == s1[i] by {
        lemma_write_at_keeps(s1, p.2 as int, le_u16_bytes(p.3), i);
    }
    assert(out.subrange(p.0 as int, p.0 + p.1.len()) =~= s1.subrange(
        p.0 as int,
        p.0 + p.1.len(),
    ));
}

/// The patch changes no byte of the image outside the entry stub and the
/// characteristics, and removes none.
pub proof fn lemma_patch_keeps_other_bytes(s: Seq<u8>, i: int)
    requires
        spec_patch_image(s) is Ok,
        0 <= i < s.len(),
        ({
            let p = spec_patch_plan(s)->Ok_0;
            &&& !(p.0 <= i < p.0 + p.1.len())
            &&& !(p.2 <= i < p.2 + 2)
        }),
    ensures
        spec_patch_image(s)->Ok_0.len() >= s.len(),
        spec_patch_image(s)->Ok_0[i] == s[i],
{
    let p = spec_patch_plan(s)->Ok_0;
    let s1 = spec_write_at(s, p.0 as int, p.1);
    lemma_write_at_len(s, p.0 as int, p.1);
    lemma_write_at_len(s1, p.2 as int, le_u16_bytes(p.3));
    lemma_write_at_keeps(s, p.0 as int, p.1, i);
    lemma_write_at_keeps(s1, p.2 as int, le_u16_bytes(p.3), i);
}


/// Byte-wise equal ranges read as equal little-endian values.
proof fn lemma_equal_bytes_read_equal(a: Seq<u8>, b: Seq<u8>, off: int, n: int)
    requires
        0 <= off,
        n == 2 || n == 4,
        off + n <= a.len(),
        off + n <= b.len(),
        forall|i: int| off <= i < off + n ==> a[i] == b[i],
    ensures
        n == 2 ==> le_u16_at(a, off) == le_u16_at(b, off),
        n == 4 ==> le_u32_at(a, off) == le_u32_at(b, off),
{
    assert(a[off] == b[off]);
    assert(a[off + 1] == b[off + 1]);
    if n == 4 {
        assert(a[off + 2] == b[off + 2]);
        assert(a[off + 3] == b[off + 3]);
    }
}

/// The layout of a patched image is the layout of the unpatched one with the
/// DLL bit set, and the section's virtual size as the patched image holds it,
/// when the stub stays clear of the fields that decide the patch.
proof fn lemma_patched_layout(s: Seq<u8>)
    requires
        spec_patch_image(s) is Ok,
        stub_clear_of_read_fields(s),
    ensures
        spec_pe_layout(spec_patch_image(s)->Ok_0) == Ok::<PeLayout, PatchError>(
            PeLayout {
                characteristics: dll_characteristics(accepted_layout(s).characteristics),
                virtual_size: le_u32_at(
                    spec_patch_image(s)->Ok_0,
                    section_table_offset(
                        accepted_layout(s).file_header_offset as int,
                        accepted_layout(s).optional_header_size as int,
                    ) + 0x08,
                ),
                ..accepted_layout(s)
            },
        ),
{
    let l = accepted_layout(s);
    let p = spec_patch_plan(s)->Ok_0;
    let s1 = spec_write_at(s, p.0 as int, p.1);
    let out = spec_patch_image(s)->Ok_0;
    let fho = l.file_header_offset as int;
    let sto = section_table_offset(fho, l.optional_header_size as int);
    reveal(spec_pe_layout);
    lemma_write_at_len(s, p.0 as int, p.1);
    lemma_write_at_len(s1, p.2 as int, le_u16_bytes(p.3));
    assert forall|i: int|
        0 <= i < s.len() && !(fho + 0x16 <= i < fho + 0x18) && ((0x3C <= i < 0x40) || (fho + 0x04
            <= i < fho + 0x06) || (fho + 0x14 <= i < fho + 0x16) || (fho + 0x28 <= i < fho
            + 0x2C) || (sto + 0x0C <= i < sto + 0x18)) implies out[i] == s[i] by {
        lemma_patch_keeps_other_bytes(s, i);
    }
    lemma_equal_bytes_read_equal(out, s, 0x3C, 4);
    lemma_equal_bytes_read_equal(out, s, fho + 0x04, 2);
    lemma_equal_bytes_read_equal(out, s, fho + 0x14, 2);
    lemma_equal_bytes_read_equal(out, s, fho + 0x28, 4);
    lemma_equal_bytes_read_equal(out, s, sto + 0x0C, 4);
    lemma_equal_bytes_read_equal(out, s, sto + 0x10, 4);
    lemma_equal_bytes_read_equal(out, s, sto + 0x14, 4);
    lemma_patch_sets_dll_flag(s);
}

/// Patching a patched image changes nothing more, provided the bytes that the
/// patch writes do not overwrite the header fields that decide it; the entry
/// stub may overlap the characteristics and the section's virtual size.
pub proof fn lemma_patch_idempotent(s: Seq<u8>)
    requires
        spec_patch_image(s) is Ok,
        stub_clear_of_read_fields(s),
    ensures
        spec_patch_image(spec_patch_image(s)->Ok_0) == spec_patch_image(s),
{
    let l = accepted_layout(s);
    let p = spec_patch_plan(s)->Ok_0;
    lemma_patched_layout(s);
    lemma_dll_characteristics(l.characteristics);
    assert(spec_patch_plan(spec_patch_image(s)->Ok_0) == Ok::<PlanValue, PatchError>(p));
    lemma_write_pair_again(s, p.0 as int, p.1, p.2 as int, le_u16_bytes(p.3));
}

/// What the patch reads and writes, by the PE format's offsets: with
/// `e = e_lfanew` (the `u32` at `0x3C`), the machine is the `u16` at `e + 4`,
/// the characteristics the `u16` at `e + 0x16`, the optional header's size
/// the `u16` at `e + 0x14`, the entry point's RVA the `u32` at `e + 0x28`,
/// and the first section's virtual address, raw size and raw data pointer
/// the `u32`s 0x0C, 0x10 and 0x14 bytes into the section table at
/// `e + 0x18` plus that size. The patch writes `B8 01 00 00 00 C3`
/// (`mov eax, 1; ret`) at the entry point's file offset, which is its RVA
/// moved from the section's address to its raw data modulo 2^32, and the
/// characteristics with `0x2000` added back at `e + 0x16`.
pub proof fn lemma_patch_offsets(s: Seq<u8>)
    requires
        spec_patch_plan(s) is Ok,
    ensures
        ({
            let e = le_u32_at(s, 0x3C) as int;
            let sto = e + 0x18 + le_u16_at(s, e + 0x14) as int;
            let l = accepted_layout(s);
            let p = spec_patch_plan(s)->Ok_0;
            &&& l.file_header_offset == e
            &&& l.bitness == (if le_u16_at(s, e + 4) == 0x014C { 32u32 } else { 64u32 })
            &&& l.characteristics == le_u16_at(s, e + 0x16)
            &&& l.optional_header_size == le_u16_at(s, e + 0x14)
            &&& l.entry_point_rva == le_u32_at(s, e + 0x28)
            &&& l.virtual_addr == le_u32_at(s, sto + 0x0C)
            &&& l.raw_data_size == le_u32_at(s, sto + 0x10)
            &&& l.raw_data_pointer == le_u32_at(s, sto + 0x14)
            &&& p.1 == seq![0xB8u8, 0x01u8, 0x00u8, 0x00u8, 0x00u8, 0xC3u8]
            &&& p.0 == (l.entry_point_rva as int + l.raw_data_pointer as int - l.virtual_addr as int)
                % 0x1_0000_0000
            &&& p.2 == e + 0x16
            &&& p.3 == le_u16_at(s, e + 0x16) | 0x2000
        }),
{
    reveal(spec_pe_layout);
    let l = accepted_layout(s);
    lemma_dll_bit_only(l.characteristics);
    assert((1i32 as u32) == 1u32);
}

} // verus!

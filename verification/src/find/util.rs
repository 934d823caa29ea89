//! Reading code out of a loaded module image: windows of bytes, decoded
//! instructions, and the near calls found in a run of code.

use vstd::prelude::*;

verus! {

/// A copy of a module's memory: `bytes` as they stand from address `base` on.
pub struct ModuleImage {
    base: u64,
    bytes: Vec<u8>,
}

impl ModuleImage {
    /// The image never reaches past the top of the 64-bit address space.
    #[verifier::type_invariant]
    spec fn wf(&self) -> bool {
        self.spec_base() + self.spec_bytes().len() <= u64::MAX
    }

    pub closed spec fn spec_base(&self) -> u64 {
        self.base
    }

    pub closed spec fn spec_bytes(&self) -> Seq<u8> {
        self.bytes@
    }

    /// An image of `bytes` loaded at `base`, or `None` where the bytes would
    /// reach past the top of the address space.
    pub fn new(base: u64, bytes: Vec<u8>) -> (r: Option<ModuleImage>)
        ensures
            r is Some <==> base + bytes@.len() <= u64::MAX,
            r matches Some(img) ==> img.spec_base() == base && img.spec_bytes() == bytes@,
    {
        if bytes.len() as u64 <= u64::MAX - base {
            Some(ModuleImage { base, bytes })
        } else {
            None
        }
    }

    pub fn base(&self) -> (r: u64)
        ensures
            r == self.spec_base(),
    {
        self.base
    }

    pub fn bytes(&self) -> (r: &[u8])
        ensures
            r@ == self.spec_bytes(),
    {
        self.bytes.as_slice()
    }
}

/// The `size` bytes at address `addr` of an image at `base`, when they all
/// lie inside it.
pub open spec fn spec_window(base: u64, bytes: Seq<u8>, addr: u64, size: u64) -> Option<Seq<u8>> {
    if base <= addr && addr - base + size <= bytes.len() {
        Some(bytes.subrange(addr - base, addr - base + size))
    } else {
        None
    }
}

/// The `size` bytes of the image at address `addr`, or `None` where they do
/// not all lie inside the image.
pub fn load_memory(image: &ModuleImage, addr: u64, size: u64) -> (r: Option<&[u8]>)
    ensures
        match r {
            Some(s) => spec_window(image.spec_base(), image.spec_bytes(), addr, size) == Some(s@),
            None => spec_window(image.spec_base(), image.spec_bytes(), addr, size) is None,
        },
{
    let base = image.base();
    let bytes = image.bytes();
    if addr < base {
        return None;
    }
    let start = addr - base;
    let len = bytes.len() as u64;
    if start > len || size > len - start {
        return None;
    }
    Some(vstd::slice::slice_subrange(bytes, start as usize, (start + size) as usize))
}

/// What the loader reads of one decoded instruction.
#[derive(Debug, Clone, Copy, PartialEq, Eq, Structural)]
pub struct DecodedInstruction {
    /// Length in bytes; 0 when there was nothing to decode.
    pub len: usize,
    /// Address of the instruction.
    pub ip: u64,
    pub is_call_near: bool,
    /// Target of a near branch, 0 for other instructions.
    pub near_branch_target: u64,
    /// Memory displacement; for an IP-relative operand the absolute address.
    pub memory_displacement64: u64,
}

/// What iced-x86's decoder makes of the first instruction of `code` at
/// address `ip` for a `bitness`-bit target: length, whether it is a near
/// call, near-branch target, 64-bit memory displacement.
pub uninterp spec fn decoded_instruction(bitness: u32, code: Seq<u8>, ip: u64) -> (u64, bool, u64, u64);

/// Decodes the first instruction of `code` at `ip` with iced-x86
/// (`Decoder::with_ip` with no options, then `decode`). Trusted, not proved:
/// the fields read are `decoded_instruction(bitness, code, ip)`; as the
/// decoder's source shows, the instruction's address is `ip`, and its length
/// is 0 for empty input and otherwise between 1 and the input's length, at
/// most 15. The decoder panics on a slice whose end lies within 15 bytes of
/// the top of the address space; that is not stated.
#[verifier::external_body]
fn decode_first(bitness: u32, code: &[u8], ip: u64) -> (r: DecodedInstruction)
    requires
        bitness == 16 || bitness == 32 || bitness == 64,
    ensures
        (r.len as u64, r.is_call_near, r.near_branch_target, r.memory_displacement64)
            == decoded_instruction(bitness, code@, ip),
        r.ip == ip,
        code@.len() == 0 ==> r.len == 0,
        code@.len() > 0 ==> 1 <= r.len <= code@.len() && r.len <= 15,
{
    let mut decoder = iced_x86::Decoder::with_ip(bitness, code, ip, iced_x86::DecoderOptions::NONE);
    let i = decoder.decode();
    DecodedInstruction {
        len: i.len(),
        ip: i.ip(),
        is_call_near: i.is_call_near(),
        near_branch_target: i.near_branch_target(),
        memory_displacement64: i.memory_displacement64(),
    }
}

/// The bitness of the code that the loader decodes: that of the host.
pub open spec fn host_bitness() -> u32 {
    usize::BITS
}

/// The instruction decoded at offset `pos` of `code`, which starts at `ip0`.
pub open spec fn insn_at(code: Seq<u8>, ip0: u64, pos: int) -> (u64, bool, u64, u64) {
    decoded_instruction(host_bitness(), code.skip(pos), (ip0 + pos) as u64)
}

/// The fields of a decoded instruction as a plain value.
pub open spec fn decoded_value(d: DecodedInstruction) -> (u64, bool, u64, u64) {
    (d.len as u64, d.is_call_near, d.near_branch_target, d.memory_displacement64)
}

/// The near calls in the instruction stream of `code` from offset `pos` on,
/// as (address of the call, target); the stream ends with the bytes.
pub open spec fn near_calls_from(code: Seq<u8>, ip0: u64, pos: int) -> Seq<(u64, u64)>
    decreases code.len() - pos,
{
    if pos < 0 || pos >= code.len() {
        Seq::empty()
    } else {
        let d = insn_at(code, ip0, pos);
        let next = pos + d.0;
        if next <= pos || next > code.len() {
            Seq::empty()
        } else {
            let rest = near_calls_from(code, ip0, next);
            if d.1 {
                seq![((ip0 + pos) as u64, d.2)] + rest
            } else {
                rest
            }
        }
    }
}

/// The instruction at address `addr`, decoded from the `size` bytes there.
pub open spec fn spec_decode_at(image: &ModuleImage, addr: u64, size: u64) -> Option<
    (u64, bool, u64, u64),
> {
    match spec_window(image.spec_base(), image.spec_bytes(), addr, size) {
        Some(code) => Some(decoded_instruction(host_bitness(), code, addr)),
        None => None,
    }
}

/// Decodes the instruction at address `addr` from the `size` bytes there, or
/// `None` where they do not lie inside the image.
pub fn load_decoder(image: &ModuleImage, addr: u64, size: u64) -> (r: Option<DecodedInstruction>)
    ensures
        match r {
            Some(d) => spec_decode_at(image, addr, size) == Some(decoded_value(d)) && d.ip == addr,
            None => spec_decode_at(image, addr, size) is None,
        },
{
    let code = match load_memory(image, addr, size) {
        Some(c) => c,
        None => return None,
    };
    Some(decode_first(usize::BITS, code, addr))
}


/// Decodes the first instruction of `code`, which starts at address `ip`,
/// for the host's bitness.
pub fn decode_instruction(code: &[u8], ip: u64) -> (r: DecodedInstruction)
    ensures
        decoded_value(r) == decoded_instruction(host_bitness(), code@, ip),
        r.ip == ip,
        code@.len() == 0 ==> r.len == 0,
        code@.len() > 0 ==> 1 <= r.len <= code@.len() && r.len <= 15,
{
    decode_first(usize::BITS, code, ip)
}

/// Finds the next near call in the instruction stream of `code` (which
/// starts at address `ip0`) from offset `pos` on: the offset just past it,
/// its address and its target; `None` when the bytes run out first.
pub fn next_near_call(code: &[u8], ip0: u64, pos: usize) -> (r: Option<(usize, u64, u64)>)
    requires
        ip0 + code@.len() <= u64::MAX,
        pos <= code@.len(),
    ensures
        r is None <==> near_calls_from(code@, ip0, pos as int).len() == 0,
        r matches Some((next, ip, target)) ==> {
            &&& pos < next <= code@.len()
            &&& near_calls_from(code@, ip0, pos as int) == seq![(ip, target)] + near_calls_from(
                code@,
                ip0,
                next as int,
            )
        },
{
    let len = code.len();
    let mut p = pos;
    while p < len
        invariant
            len == code@.len(),
            ip0 + len <= u64::MAX,
            pos <= p <= len,
            near_calls_from(code@, ip0, pos as int) == near_calls_from(code@, ip0, p as int),
        decreases len - p,
    {
        let rest = vstd::slice::slice_subrange(code, p, len);
        assert(rest@ =~= code@.skip(p as int));
        let d = decode_first(usize::BITS, rest, ip0 + p as u64);
        let next = p + d.len;
        if d.is_call_near {
            return Some((next, d.ip, d.near_branch_target));
        }
        p = next;
    }
    None
}

/// The addresses that the loader collects from the `size` bytes at `addr`:
/// `addr` itself, then the targets of the first `count - 1` near calls; and
/// 0, then the addresses of those calls. `None` where the bytes do not lie
/// inside the image or hold fewer calls.
pub open spec fn spec_load_calls(image: &ModuleImage, addr: u64, size: u64, count: nat) -> Option<
    (Seq<u64>, Seq<u64>),
> {
    match spec_window(image.spec_base(), image.spec_bytes(), addr, size) {
        None => None,
        Some(code) => {
            let calls = near_calls_from(code, addr, 0);
            if calls.len() + 1 < count {
                None
            } else {
                let found = calls.take(count - 1);
                Some(
                    (
                        seq![addr] + found.map_values(|c: (u64, u64)| c.1),
                        seq![0u64] + found.map_values(|c: (u64, u64)| c.0),
                    ),
                )
            }
        },
    }
}

/// Collects a table of `count` addresses from the code at `addr`: entry 0 is
/// `addr`, entry `k` the target of the `k`-th near call, scanning the `size`
/// bytes there instruction by instruction. The second table holds the
/// addresses of those calls (0 in entry 0).
pub fn load_calls_to_struct(image: &ModuleImage, addr: u64, size: u64, count: usize) -> (r: Option<
    (Vec<u64>, Vec<u64>),
>)
    requires
        count >= 1,
    ensures
        match r {
            Some((t, c)) => spec_load_calls(image, addr, size, count as nat) == Some((t@, c@)),
            None => spec_load_calls(image, addr, size, count as nat) is None,
        },
{
    proof {
        use_type_invariant(image);
    }
    let code = match load_memory(image, addr, size) {
        Some(c) => c,
        None => return None,
    };
    let ghost calls = near_calls_from(code@, addr, 0);
    let mut func_list: Vec<u64> = vec![addr];
    let mut ptr_list: Vec<u64> = vec![0u64];
    let ghost mut found: Seq<(u64, u64)> = Seq::empty();
    let mut pos: usize = 0;
    let mut key_index: usize = 1;
    while key_index < count
        invariant
            1 <= key_index <= count,
            spec_window(image.spec_base(), image.spec_bytes(), addr, size) == Some(code@),
            addr + code@.len() <= u64::MAX,
            pos <= code@.len(),
            found.len() == key_index - 1,
            calls == near_calls_from(code@, addr, 0),
            calls == found + near_calls_from(code@, addr, pos as int),
            func_list@ == seq![addr] + found.map_values(|c: (u64, u64)| c.1),
            ptr_list@ == seq![0u64] + found.map_values(|c: (u64, u64)| c.0),
        decreases count - key_index,
    {
        match next_near_call(code, addr, pos) {
            None => {
                assert(calls.len() == found.len());
                return None;
            },
            Some((next, ip, target)) => {
                proof {
                    found = found.push((ip, target));
                }
                func_list.push(target);
                ptr_list.push(ip);
                pos = next;
                key_index = key_index + 1;
            },
        }
    }
    Some((func_list, ptr_list))
}


/// The near calls of a stream lie inside the bytes scanned, at strictly
/// increasing addresses.
pub proof fn lemma_near_calls_ordered(code: Seq<u8>, ip0: u64, pos: int)
    requires
        ip0 + code.len() <= u64::MAX,
        0 <= pos,
    ensures
        ({
            let calls = near_calls_from(code, ip0, pos);
            &&& forall|i: int|
                0 <= i < calls.len() ==> ip0 + pos <= #[trigger] calls[i].0 < ip0 + code.len()
            &&& forall|i: int, j: int|
                0 <= i < j < calls.len() ==> #[trigger] calls[i].0 < #[trigger] calls[j].0
        }),
    decreases code.len() - pos,
{
    if pos < code.len() {
        let d = insn_at(code, ip0, pos);
        let next = pos + d.0;
        if next > pos && next <= code.len() {
            lemma_near_calls_ordered(code, ip0, next);
            let rest = near_calls_from(code, ip0, next);
            if d.1 {
                let calls = near_calls_from(code, ip0, pos);
                assert(calls == seq![((ip0 + pos) as u64, d.2)] + rest);
                assert forall|i: int| 0 <= i < calls.len() implies ip0 + pos <= #[trigger] calls[i].0
                    < ip0 + code.len() by {
                    if i > 0 {
                        assert(calls[i] == rest[i - 1]);
                    }
                }
                assert forall|i: int, j: int|
                    0 <= i < j < calls.len() implies #[trigger] calls[i].0 < #[trigger] calls[j].0 by {
                    assert(calls[j] == rest[j - 1]);
                    if i > 0 {
                        assert(calls[i] == rest[i - 1]);
                    }
                }
            }
        }
    }
}

/// A collected table starts with the scanned address and 0; the addresses
/// of the calls that it records lie inside the scanned bytes, in strictly
/// increasing order.
pub proof fn lemma_load_calls_callers_ordered(
    image: &ModuleImage,
    addr: u64,
    size: u64,
    count: nat,
)
    requires
        image.spec_base() + image.spec_bytes().len() <= u64::MAX,
        count >= 1,
        spec_load_calls(image, addr, size, count) is Some,
    ensures
        ({
            let (t, c) = spec_load_calls(image, addr, size, count)->Some_0;
            &&& t.len() == count && c.len() == count
            &&& t[0] == addr && c[0] == 0
            &&& forall|k: int| 1 <= k < count ==> addr <= #[trigger] c[k] < addr + size
            &&& forall|k: int, m: int| 1 <= k < m < count ==> #[trigger] c[k] < #[trigger] c[m]
        }),
{
    let code = spec_window(image.spec_base(), image.spec_bytes(), addr, size)->Some_0;
    lemma_near_calls_ordered(code, addr, 0);
    let calls = near_calls_from(code, addr, 0);
    let found = calls.take(count - 1);
    let c = seq![0u64] + found.map_values(|p: (u64, u64)| p.0);
    assert forall|k: int| 1 <= k < count implies addr <= #[trigger] c[k] < addr + size by {
        assert(c[k] == found[k - 1].0);
        assert(found[k - 1] == calls[k - 1]);
    }
    assert forall|k: int, m: int| 1 <= k < m < count implies #[trigger] c[k] < #[trigger] c[m] by {
        assert(c[k] == calls[k - 1].0);
        assert(c[m] == calls[m - 1].0);
    }
}

/// Asking for a longer table changes none of the entries of a shorter one:
/// the shorter table is a prefix of the longer.
pub proof fn lemma_load_calls_prefix(image: &ModuleImage, addr: u64, size: u64, n: nat, m: nat)
    requires
        1 <= n <= m,
        spec_load_calls(image, addr, size, m) is Some,
    ensures
        spec_load_calls(image, addr, size, n) is Some,
        spec_load_calls(image, addr, size, n)->Some_0.0 == spec_load_calls(image, addr, size, m)->Some_0.0.take(n as int),
        spec_load_calls(image, addr, size, n)->Some_0.1 == spec_load_calls(image, addr, size, m)->Some_0.1.take(n as int),
{
    let code = spec_window(image.spec_base(), image.spec_bytes(), addr, size)->Some_0;
    let calls = near_calls_from(code, addr, 0);
    let (tn, cn) = spec_load_calls(image, addr, size, n)->Some_0;
    let (tm, cm) = spec_load_calls(image, addr, size, m)->Some_0;
    assert(tn =~= tm.take(n as int));
    assert(cn =~= cm.take(n as int));
}

} // verus!

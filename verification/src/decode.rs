//! Decoding of the raw driver facts, one rule per function.

use crate::model::{GPUKind, MemoryHeap, MemoryProperties, MAX_MEMORY_HEAPS};
use crate::text::{decimal, decimal_string, utf8_text};
use crate::vulkan::{device_type_codes, has_device_local_flag};
use vstd::prelude::*;
use vstd::utf8::*;

verus! {

/// Bytes in one megabyte.
pub const BYTES_PER_MEGABYTE: u64 = 1048576;

/// The vendor table: PCI vendor identifier to vendor name.
pub open spec fn spec_vendor_name(vendor_id: u32) -> Seq<char> {
    if vendor_id == 0x8086 {
        "Intel"@
    } else if vendor_id == 0x10DE {
        "NVIDIA"@
    } else if vendor_id == 0x1002 {
        "AMD"@
    } else {
        "Unknown"@
    }
}

/// Looks a vendor identifier up in the vendor table.
pub fn vendor_name(vendor_id: u32) -> (name: &'static str)
    ensures
        name@ == spec_vendor_name(vendor_id),
{
    if vendor_id == 0x8086 {
        "Intel"
    } else if vendor_id == 0x10DE {
        "NVIDIA"
    } else if vendor_id == 0x1002 {
        "AMD"
    } else {
        "Unknown"
    }
}

/// The adapter-type table: raw code to category.
pub open spec fn spec_kind(device_type: i32) -> GPUKind {
    if device_type == 1 {
        GPUKind::Integrated
    } else if device_type == 2 {
        GPUKind::Discrete
    } else if device_type == 3 {
        GPUKind::Virtual
    } else if device_type == 4 {
        GPUKind::CPU
    } else {
        GPUKind::Unknown
    }
}

/// Maps a raw adapter-type code to its category.
pub fn kind_of(device_type: i32) -> (kind: GPUKind)
    ensures
        kind == spec_kind(device_type),
{
    let codes = device_type_codes();
    if device_type == codes[0] {
        GPUKind::Integrated
    } else if device_type == codes[1] {
        GPUKind::Discrete
    } else if device_type == codes[2] {
        GPUKind::Virtual
    } else if device_type == codes[3] {
        GPUKind::CPU
    } else {
        GPUKind::Unknown
    }
}

/// Major component of a packed driver version: the top ten bits.
pub open spec fn version_major(packed: u32) -> u32 {
    (packed >> 22) & 0x3FF
}

/// Minor component of a packed driver version: the middle ten bits.
pub open spec fn version_minor(packed: u32) -> u32 {
    (packed >> 12) & 0x3FF
}

/// Patch component of a packed driver version: the low twelve bits.
pub open spec fn version_patch(packed: u32) -> u32 {
    packed & 0xFFF
}

/// The dotted text of a packed driver version.
pub open spec fn spec_driver_version(packed: u32) -> Seq<char> {
    decimal(version_major(packed) as nat).push('.') + decimal(
        version_minor(packed) as nat,
    ).push('.') + decimal(version_patch(packed) as nat)
}

/// Decodes a packed driver version into `major.minor.patch`.
pub fn driver_version_string(packed: u32) -> (text: String)
    ensures
        text@ == spec_driver_version(packed),
{
    let major: u32 = (packed >> 22) & 0x3FF;
    let minor: u32 = (packed >> 12) & 0x3FF;
    let patch: u32 = packed & 0xFFF;
    let minor_text = decimal_string(minor);
    let patch_text = decimal_string(patch);
    let mut text = decimal_string(major);
    proof {
        reveal_strlit(".");
    }
    text.append(".");
    text.append(minor_text.as_str());
    text.append(".");
    text.append(patch_text.as_str());
    assert(text@ =~= spec_driver_version(packed));
    text
}

/// Number of bytes before the first NUL byte of `buffer`, or its whole
/// length when it holds none.
pub open spec fn name_end(buffer: Seq<u8>) -> nat
    decreases buffer.len(),
{
    if buffer.len() == 0 || buffer[0] == 0 {
        0
    } else {
        1 + name_end(buffer.drop_first())
    }
}

/// `n` is where the name in `buffer` ends: no NUL byte comes before it, and
/// it is either a NUL byte or the end of the buffer.
pub open spec fn ends_name(buffer: Seq<u8>, n: int) -> bool {
    &&& 0 <= n <= buffer.len()
    &&& forall|i: int| 0 <= i < n ==> buffer[i] != 0
    &&& n < buffer.len() ==> buffer[n] == 0
}

/// The bytes of the name in `buffer`, without the terminator.
pub open spec fn name_bytes(buffer: Seq<u8>) -> Seq<u8> {
    buffer.subrange(0, name_end(buffer) as int)
}

/// The name that a raw name buffer stands for: its text when the bytes
/// before the terminator are non-empty well-formed UTF-8, else `"Unknown"`.
pub open spec fn spec_device_name(buffer: Seq<u8>) -> Seq<char> {
    let bytes = name_bytes(buffer);
    if bytes.len() > 0 && valid_utf8(bytes) {
        decode_utf8(bytes)
    } else {
        "Unknown"@
    }
}

/// `name_end` is the place where the name ends.
pub proof fn name_end_ends_name(buffer: Seq<u8>)
    ensures
        ends_name(buffer, name_end(buffer) as int),
    decreases buffer.len(),
{
    if buffer.len() == 0 || buffer[0] == 0 {
    } else {
        let rest = buffer.drop_first();
        name_end_ends_name(rest);
        let n = name_end(buffer) as int;
        assert forall|i: int| 0 <= i < n implies buffer[i] != 0 by {
            if i > 0 {
                assert(rest[i - 1] == buffer[i]);
            }
        }
        if n < buffer.len() {
            assert(rest[n - 1] == buffer[n]);
        }
    }
}

/// A name buffer ends in exactly one place.
pub proof fn name_end_unique(buffer: Seq<u8>, n: int, m: int)
    requires
        ends_name(buffer, n),
        ends_name(buffer, m),
    ensures
        n == m,
{
    if n < m {
        assert(buffer[n] == 0);
    } else if m < n {
        assert(buffer[m] == 0);
    }
}

/// Decodes a raw, NUL-terminated name buffer.
pub fn device_name(buffer: &[u8]) -> (name: String)
    ensures
        name@ == spec_device_name(buffer@),
{
    let mut bytes: Vec<u8> = Vec::new();
    let mut i: usize = 0;
    while i < buffer.len() && buffer[i] != 0
        invariant
            i <= buffer.len(),
            bytes@ == buffer@.subrange(0, i as int),
            forall|j: int| 0 <= j < i ==> buffer@[j] != 0,
        decreases buffer.len() - i,
    {
        bytes.push(buffer[i]);
        i = i + 1;
        assert(bytes@ =~= buffer@.subrange(0, i as int));
    }
    proof {
        name_end_ends_name(buffer@);
        name_end_unique(buffer@, i as int, name_end(buffer@) as int);
    }
    if bytes.len() == 0 {
        String::from_str("Unknown")
    } else {
        match utf8_text(bytes) {
            Some(text) => text,
            None => String::from_str("Unknown"),
        }
    }
}

/// Whether a heap's flag word has the device-local bit.
pub open spec fn is_device_local(flags: u32) -> bool {
    flags & 1 == 1
}

/// Total size in bytes of the device-local heaps among the first `n`.
pub open spec fn device_local_bytes(heaps: Seq<MemoryHeap>, n: nat) -> nat
    decreases n,
{
    if n == 0 || n > heaps.len() {
        0
    } else {
        let heap = heaps[n - 1];
        device_local_bytes(heaps, (n - 1) as nat) + if is_device_local(heap.flags) {
            heap.size as nat
        } else {
            0
        }
    }
}

/// How many heap slots count: the reported number, capped by the table.
pub open spec fn counted_heaps(heap_count: u32, heaps: Seq<MemoryHeap>) -> nat {
    if heap_count as nat <= heaps.len() {
        heap_count as nat
    } else {
        heaps.len()
    }
}

/// Device-local memory in whole megabytes, rounded down.
pub open spec fn spec_vram(heap_count: u32, heaps: Seq<MemoryHeap>) -> nat {
    device_local_bytes(heaps, counted_heaps(heap_count, heaps)) / (BYTES_PER_MEGABYTE as nat)
}

/// Adds up the device-local heaps among the first `heap_count` slots and
/// converts the byte total to whole megabytes.
pub fn vram_megabytes(memory: &MemoryProperties) -> (megabytes: u64)
    ensures
        megabytes as nat == spec_vram(memory.heap_count, memory.heaps@),
{
    let n: usize = if memory.heap_count as usize <= MAX_MEMORY_HEAPS {
        memory.heap_count as usize
    } else {
        MAX_MEMORY_HEAPS
    };
    let mut total: u128 = 0;
    let mut i: usize = 0;
    while i < n
        invariant
            i <= n <= 16,
            memory.heaps@.len() == 16,
            total as nat == device_local_bytes(memory.heaps@, i as nat),
            total <= i * 0xFFFF_FFFF_FFFF_FFFF,
        decreases n - i,
    {
        let heap = memory.heaps[i];
        if has_device_local_flag(heap.flags) {
            total = total + heap.size as u128;
        }
        i = i + 1;
    }
    (total / (BYTES_PER_MEGABYTE as u128)) as u64
}

/// Every vendor name of the table, the placeholder included, has text.
pub proof fn vendor_name_nonempty(vendor_id: u32)
    ensures
        spec_vendor_name(vendor_id).len() > 0,
{
    reveal_strlit("Intel");
    reveal_strlit("NVIDIA");
    reveal_strlit("AMD");
    reveal_strlit("Unknown");
}

/// The four recognized adapter-type codes map to the four categories, and
/// every other code maps to `Unknown`.
pub proof fn kind_table_complete(device_type: i32)
    ensures
        spec_kind(device_type) == GPUKind::Integrated <==> device_type == 1,
        spec_kind(device_type) == GPUKind::Discrete <==> device_type == 2,
        spec_kind(device_type) == GPUKind::Virtual <==> device_type == 3,
        spec_kind(device_type) == GPUKind::CPU <==> device_type == 4,
        spec_kind(device_type) == GPUKind::Unknown <==> !(1 <= device_type <= 4),
{
}

/// Packing three components that fit their fields and decoding the result
/// gives the components back, so the text shows them in decimal with dots
/// between.
pub proof fn version_unpacks(major: u32, minor: u32, patch: u32)
    requires
        major < 1024,
        minor < 1024,
        patch < 4096,
    ensures
        version_major((major << 22) | (minor << 12) | patch) == major,
        version_minor((major << 22) | (minor << 12) | patch) == minor,
        version_patch((major << 22) | (minor << 12) | patch) == patch,
        spec_driver_version((major << 22) | (minor << 12) | patch) == decimal(major as nat).push(
            '.',
        ) + decimal(minor as nat).push('.') + decimal(patch as nat),
{
    assert(((((major << 22) | (minor << 12) | patch) >> 22) & 0x3FF) == major) by (bit_vector)
        requires
            major < 1024,
            minor < 1024,
            patch < 4096,
    ;
    assert(((((major << 22) | (minor << 12) | patch) >> 12) & 0x3FF) == minor) by (bit_vector)
        requires
            major < 1024,
            minor < 1024,
            patch < 4096,
    ;
    assert((((major << 22) | (minor << 12) | patch) & 0xFFF) == patch) by (bit_vector)
        requires
            major < 1024,
            minor < 1024,
            patch < 4096,
    ;
}

/// Whatever the packed value, its components fit their fields.
pub proof fn version_components_bounded(packed: u32)
    ensures
        version_major(packed) < 1024,
        version_minor(packed) < 1024,
        version_patch(packed) < 4096,
{
    assert(((packed >> 22) & 0x3FF) < 1024) by (bit_vector);
    assert(((packed >> 12) & 0x3FF) < 1024) by (bit_vector);
    assert((packed & 0xFFF) < 4096) by (bit_vector);
}

/// A name buffer whose bytes before the terminator are not well-formed
/// UTF-8 decodes to the placeholder.
pub proof fn malformed_name_is_unknown(buffer: Seq<u8>)
    requires
        !valid_utf8(name_bytes(buffer)),
    ensures
        spec_device_name(buffer) == "Unknown"@,
{
}

/// A decoded name always has text.
pub proof fn device_name_nonempty(buffer: Seq<u8>)
    ensures
        spec_device_name(buffer).len() > 0,
{
    reveal_strlit("Unknown");
    let bytes = name_bytes(buffer);
    if bytes.len() > 0 && valid_utf8(bytes) {
        assert(decode_utf8(bytes) == seq![decode_first_scalar(bytes) as char] + decode_utf8(
            pop_first_scalar(bytes),
        ));
    }
}

/// The byte total of the first `n` heaps is at most `n` times the largest
/// heap size.
pub proof fn device_local_bytes_bounded(heaps: Seq<MemoryHeap>, n: nat)
    ensures
        device_local_bytes(heaps, n) <= n * 0xFFFF_FFFF_FFFF_FFFF,
    decreases n,
{
    if n == 0 || n > heaps.len() {
    } else {
        device_local_bytes_bounded(heaps, (n - 1) as nat);
    }
}

/// Heaps without the device-local bit add nothing to the total.
pub proof fn host_heap_is_excluded(heaps: Seq<MemoryHeap>, n: nat)
    requires
        0 < n <= heaps.len(),
        !is_device_local(heaps[n - 1].flags),
    ensures
        device_local_bytes(heaps, n) == device_local_bytes(heaps, (n - 1) as nat),
{
}

/// Slots at or beyond the reported heap count never change the result.
pub proof fn uncounted_heaps_are_ignored(
    heap_count: u32,
    first: Seq<MemoryHeap>,
    second: Seq<MemoryHeap>,
)
    requires
        first.len() == second.len(),
        forall|i: int| 0 <= i < first.len() && i < heap_count ==> first[i] == second[i],
    ensures
        spec_vram(heap_count, first) == spec_vram(heap_count, second),
{
    same_prefix_same_bytes(first, second, counted_heaps(heap_count, first));
}

/// Two tables that agree on their first `n` slots have the same total there.
pub proof fn same_prefix_same_bytes(first: Seq<MemoryHeap>, second: Seq<MemoryHeap>, n: nat)
    requires
        first.len() == second.len(),
        n <= first.len(),
        forall|i: int| 0 <= i < n ==> first[i] == second[i],
    ensures
        device_local_bytes(first, n) == device_local_bytes(second, n),
    decreases n,
{
    if n > 0 {
        same_prefix_same_bytes(first, second, (n - 1) as nat);
    }
}

/// The megabyte figure is the byte total rounded down, and for a table of
/// at most sixteen heaps it fits the record's field.
pub proof fn vram_rounds_down(heap_count: u32, heaps: Seq<MemoryHeap>)
    requires
        heaps.len() <= 16,
    ensures
        spec_vram(heap_count, heaps) * 1048576 <= device_local_bytes(
            heaps,
            counted_heaps(heap_count, heaps),
        ) < (spec_vram(heap_count, heaps) + 1) * 1048576,
        spec_vram(heap_count, heaps) <= u64::MAX,
{
    device_local_bytes_bounded(heaps, counted_heaps(heap_count, heaps));
}

} // verus!

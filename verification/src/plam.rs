//! The PLAM binary image format: the packed header, section and relocation
//! record layouts, and the loader that validates a raw byte buffer, rejects
//! overlapping sections, applies relocations into mapped memory and resolves
//! the entry address.
//!
//! All multi-byte fields are little-endian. The loader decodes them
//! field-by-field from the byte buffer at their fixed offsets instead of
//! aliasing the buffer as a typed record.

use vstd::prelude::*;

use crate::bytes::{le16, le32, le64, read_u16_le, read_u32_le, read_u64_le, store_le64,
    write_u64_le};

verus! {

pub const PLAM_MAGIC: u32 = 0x504C414D;

pub const PLAM_CPU_X86_64: u16 = 0x8664;

pub const PLAM_CPU_ARM64: u16 = 0xAA64;

pub const PLAM_CPU_RISCV64: u16 = 0x00F3;

pub const PLAM_CPU_PRUM64: u16 = 0x7072;

/// Byte size of the packed header record.
pub const PLAM_HEADER_SIZE: usize = 754;

/// Byte size of a packed section record.
pub const PLAM_SECTION_SIZE: usize = 80;

/// Byte size of a packed relocation record.
pub const PLAM_RELOC_SIZE: usize = 32;

/// An (offset, size) pair locating a sub-region within an image.
#[derive(Debug, Clone, Copy)]
pub struct PlamRva {
    pub off: u64,
    pub sz: u64,
}

#[derive(Debug, Clone, Copy)]
pub struct PlamDebugInfo {
    pub debug: PlamRva,
    pub debug_type: u16,
    pub debug_version: u16,
    pub debug_size: u32,
}

#[derive(Debug, Clone, Copy)]
pub struct PlamDirectories {
    pub security: PlamRva,
    pub loadcfg: PlamRva,
    pub tls: PlamRva,
    pub cfg: PlamRva,
    pub exceptions: PlamRva,
    pub basereloc: PlamRva,
    pub import_table: PlamRva,
    pub export_table: PlamRva,
    pub got: PlamRva,
    pub plt: PlamRva,
    pub subsystem_validator: PlamRva,
    pub fat_off: u64,
    pub fat_cnt: u32,
    pub fat_flags: u32,
}

#[derive(Debug, Clone, Copy)]
pub struct PlamSubsystemParams {
    pub raw: [u8; 24],
}

/// The fixed-layout record at the start of every PLAM image.
#[derive(Debug, Clone, Copy)]
pub struct PlamHeader {
    pub magic: u32,
    pub version: u16,
    pub flags: u64,
    pub file_size: u64,
    pub hdr_crc32: u32,
    pub file_crc32: u32,
    pub format_version: u32,
    pub content_version: u32,
    pub image_base: u64,
    pub entry_offset: u64,
    pub stack_reserve: u64,
    pub stack_commit: u64,
    pub heap_reserve: u64,
    pub heap_commit: u64,
    pub cpu_id: u16,
    pub cpu_sub: u16,
    pub abi_version: u32,
    pub cpu_features: u64,
    pub os_abi: u32,
    pub os_version_min: u32,
    pub os_version_sdk: u32,
    pub str_table: PlamRva,
    pub sym_table: PlamRva,
    pub section_table_off: u64,
    pub section_count: u32,
    pub reloc_table_off: u64,
    pub reloc_count: u32,
    pub ph_off: u64,
    pub ph_count: u16,
    pub ph_entry_size: u16,
    pub resources: PlamRva,
    pub debug: PlamDebugInfo,
    pub uuid: [u8; 16],
    pub build_hash: [u8; 48],
    pub timestamp: u64,
    pub crypto_mode: u16,
    pub hash_type: u16,
    pub sig_scheme: u16,
    pub relro_level: u8,
    pub file_compression: u8,
    pub manifest: PlamRva,
    pub deps_count: u32,
    pub res_count: u32,
    pub lang_mask: u32,
    pub tool_major: u16,
    pub tool_minor: u16,
    pub tool_patch: u16,
    pub stdlib_ver: u16,
    pub comp_model: u8,
    pub lto_pgo_flags: u8,
    pub opt_level: u8,
    pub debug_level: u8,
    pub dirs: PlamDirectories,
    pub control_flow_start: u64,
    pub control_flow_size: u64,
    pub hotpatch_offset: u32,
    pub hotpatch_count: u32,
    pub subsystem_type: u16,
    pub subsystem_version: u16,
    pub subsystem_params: PlamSubsystemParams,
    pub subsystem_flags: u32,
    pub sec_flags: u16,
    pub sanitizer_level: u8,
    pub crypt_alg: u8,
    pub branch_prot: u8,
    pub prefetch_hint: u8,
    pub cache_align: u16,
    pub isolation_level: u8,
    pub namespace_flags: u8,
    pub container_features: u16,
    pub metadata_size: u64,
    pub build_info: PlamRva,
    pub api_constraints: PlamRva,
    pub code_size: u64,
    pub init_data_size: u64,
    pub uninit_data_size: u64,
    pub ext_hdr_off: u64,
    pub mem_regions: PlamRva,
    pub endian: u8,
    pub reserved: [u8; 63],
}

/// One section record of the section table.
#[derive(Debug, Clone, Copy)]
pub struct PlamSection {
    pub name_off: u64,
    pub type_: u32,
    pub flags: u32,
    pub addr: u64,
    pub offset: u64,
    pub size: u64,
    pub entsize: u64,
    pub align: u64,
    pub section_prot: u32,
    pub comp_alg: u32,
    pub comp_level: u32,
    pub entropy: u32,
    pub hash_offset: u64,
}

/// One relocation record of the relocation table.
#[derive(Debug, Clone, Copy)]
pub struct PlamReloc {
    pub offset: u64,
    pub type_: u32,
    pub sym_idx: u32,
    pub addend: i64,
    pub accelerator: u32,
    pub reserved: u32,
}

/// The static failures of the loader; each aborts the load entirely.
#[derive(Debug, Clone, Copy, PartialEq, Eq, Structural)]
pub enum PlamError {
    BufferTooSmall,
    UnalignedBase,
    BadMagic,
    UnsupportedVersion,
    SectionTableOutOfBounds,
    OverlappingSections,
    RelocTableOutOfBounds,
    SegmentOutOfRange,
}

impl PlamError {
    pub open spec fn spec_message(self) -> Seq<char> {
        match self {
            PlamError::BufferTooSmall => "PLAM: buffer too small for header"@,
            PlamError::UnalignedBase => "PLAM: base address must be page-aligned"@,
            PlamError::BadMagic => "PLAM: invalid magic"@,
            PlamError::UnsupportedVersion => "PLAM: unsupported version"@,
            PlamError::SectionTableOutOfBounds => "PLAM: section table out of bounds"@,
            PlamError::OverlappingSections => "PLAM: overlapping segments detected"@,
            PlamError::RelocTableOutOfBounds => "PLAM: reloc table out of bounds"@,
            PlamError::SegmentOutOfRange => "PLAM: segment outside image or mapping"@,
        }
    }

    /// A static description of the failure.
    pub fn message(&self) -> (r: &'static str)
        ensures
            r@ == self.spec_message(),
    {
        match self {
            PlamError::BufferTooSmall => "PLAM: buffer too small for header",
            PlamError::UnalignedBase => "PLAM: base address must be page-aligned",
            PlamError::BadMagic => "PLAM: invalid magic",
            PlamError::UnsupportedVersion => "PLAM: unsupported version",
            PlamError::SectionTableOutOfBounds => "PLAM: section table out of bounds",
            PlamError::OverlappingSections => "PLAM: overlapping segments detected",
            PlamError::RelocTableOutOfBounds => "PLAM: reloc table out of bounds",
            PlamError::SegmentOutOfRange => "PLAM: segment outside image or mapping",
        }
    }
}

/// The `magic` field of the header encoded in `s`.
pub open spec fn spec_magic(s: Seq<u8>) -> int {
    le32(s, 0)
}

/// The `version` field of the header encoded in `s`.
pub open spec fn spec_version(s: Seq<u8>) -> int {
    le16(s, 4)
}

/// The `image_base` field of the header encoded in `s`.
pub open spec fn spec_image_base(s: Seq<u8>) -> int {
    le64(s, 38)
}

/// The `entry_offset` field of the header encoded in `s`.
pub open spec fn spec_entry_offset(s: Seq<u8>) -> int {
    le64(s, 46)
}

/// The `section_table_off` field of the header encoded in `s`.
pub open spec fn spec_section_table_off(s: Seq<u8>) -> int {
    le64(s, 146)
}

/// The `section_count` field of the header encoded in `s`.
pub open spec fn spec_section_count(s: Seq<u8>) -> int {
    le32(s, 154)
}

/// The `reloc_table_off` field of the header encoded in `s`.
pub open spec fn spec_reloc_table_off(s: Seq<u8>) -> int {
    le64(s, 158)
}

/// The `reloc_count` field of the header encoded in `s`.
pub open spec fn spec_reloc_count(s: Seq<u8>) -> int {
    le32(s, 166)
}

/// The `addr` field of section record `i`.
pub open spec fn spec_section_addr(s: Seq<u8>, i: int) -> int {
    le64(s, spec_section_table_off(s) + 80 * i + 16)
}

/// The `size` field of section record `i`.
pub open spec fn spec_section_size(s: Seq<u8>, i: int) -> int {
    le64(s, spec_section_table_off(s) + 80 * i + 32)
}

/// The `offset` field of section record `i`.
pub open spec fn spec_section_offset(s: Seq<u8>, i: int) -> int {
    le64(s, spec_section_table_off(s) + 80 * i + 24)
}

/// The `offset` field of relocation record `i`.
pub open spec fn spec_reloc_offset(s: Seq<u8>, i: int) -> int {
    le64(s, spec_reloc_table_off(s) + 32 * i)
}

/// The `type_` field of relocation record `i`.
pub open spec fn spec_reloc_type(s: Seq<u8>, i: int) -> int {
    le32(s, spec_reloc_table_off(s) + 32 * i + 8)
}

/// The bit pattern of the signed `addend` field of relocation record `i`,
/// read as an unsigned 64-bit value.
pub open spec fn spec_reloc_addend_bits(s: Seq<u8>, i: int) -> int {
    le64(s, spec_reloc_table_off(s) + 32 * i + 16)
}

/// Relocation types 1 to 3 are interpreted as additive 64-bit patches;
/// every other type is a no-op by design.
pub open spec fn spec_is_patch_type(t: int) -> bool {
    t == 1 || t == 2 || t == 3
}

/// The buffer is large enough to hold the header record.
pub open spec fn spec_header_fits(s: Seq<u8>) -> bool {
    s.len() >= PLAM_HEADER_SIZE
}

/// The declared section table lies within the buffer.
pub open spec fn spec_sections_in_bounds(s: Seq<u8>) -> bool {
    spec_section_count(s) == 0 || spec_section_table_off(s) + 80 * spec_section_count(s)
        <= s.len()
}

/// The declared relocation table lies within the buffer.
pub open spec fn spec_relocs_in_bounds(s: Seq<u8>) -> bool {
    spec_reloc_count(s) == 0 || spec_reloc_table_off(s) + 32 * spec_reloc_count(s) <= s.len()
}

/// The mapped ranges `[base+addr, base+addr+size)` of section records `i`
/// and `j` intersect.
pub open spec fn spec_sections_intersect(s: Seq<u8>, base: int, i: int, j: int) -> bool {
    let start_a = base + spec_section_addr(s, i);
    let end_a = start_a + spec_section_size(s, i);
    let start_b = base + spec_section_addr(s, j);
    let end_b = start_b + spec_section_size(s, j);
    start_a < end_b && start_b < end_a
}

/// Some pair of declared sections has intersecting mapped ranges.
pub open spec fn spec_any_overlap(s: Seq<u8>, base: int) -> bool {
    exists|i: int, j: int|
        0 <= i < j < spec_section_count(s) && spec_sections_intersect(s, base, i, j)
}

/// 64-bit addition that wraps around, as the hardware patch does.
pub open spec fn spec_wrap_add64(a: int, b: int) -> int {
    if a + b > u64::MAX {
        a + b - 0x1_0000_0000_0000_0000
    } else {
        a + b
    }
}

/// The outcome of validating the buffer against the format: either the
/// resolved entry address `base + entry_offset`, or the first failure in
/// the order the loader checks them.
pub open spec fn spec_load_outcome(s: Seq<u8>, base: int) -> Result<int, PlamError> {
    if !spec_header_fits(s) {
        Err(PlamError::BufferTooSmall)
    } else if base % 4096 != 0 {
        Err(PlamError::UnalignedBase)
    } else if spec_magic(s) != PLAM_MAGIC {
        Err(PlamError::BadMagic)
    } else if spec_version(s) / 0x100 != 3 {
        Err(PlamError::UnsupportedVersion)
    } else if !spec_sections_in_bounds(s) {
        Err(PlamError::SectionTableOutOfBounds)
    } else if spec_any_overlap(s, base) {
        Err(PlamError::OverlappingSections)
    } else if !spec_relocs_in_bounds(s) {
        Err(PlamError::RelocTableOutOfBounds)
    } else {
        Ok(base + spec_entry_offset(s))
    }
}

/// Mapped memory after relocation record `i` has been applied: if its type
/// is interpreted and its target lies within the mapping, the 64-bit word at
/// `mem[offset..offset+8]` is incremented (wrapping) by `base + addend`;
/// otherwise the memory is untouched.
pub open spec fn spec_apply_reloc(s: Seq<u8>, mem: Seq<u8>, base: int, i: int) -> Seq<u8> {
    if spec_is_patch_type(spec_reloc_type(s, i)) && spec_reloc_offset(s, i) + 8 <= mem.len() {
        let off = spec_reloc_offset(s, i);
        let value = spec_wrap_add64(base, spec_reloc_addend_bits(s, i));
        store_le64(mem, off, spec_wrap_add64(le64(mem, off), value))
    } else {
        mem
    }
}

/// Mapped memory after the first `n` relocation records have been applied
/// in table order.
pub open spec fn spec_apply_relocs(s: Seq<u8>, mem: Seq<u8>, base: int, n: int) -> Seq<u8>
    decreases n,
{
    if n <= 0 {
        mem
    } else {
        spec_apply_reloc(s, spec_apply_relocs(s, mem, base, n - 1), base, n - 1)
    }
}

/// Every declared section's file range lies within the image buffer and its
/// mapped range within a mapping of `mem_len` bytes.
pub open spec fn spec_segments_loadable(s: Seq<u8>, mem_len: int) -> bool {
    forall|i: int|
        0 <= i < spec_section_count(s) ==> spec_section_offset(s, i) + #[trigger] spec_section_size(
            s,
            i,
        ) <= s.len() && spec_section_addr(s, i) + spec_section_size(s, i) <= mem_len
}

/// Mapped memory after the first `k` bytes of section record `i` have been
/// copied from the image to the section's virtual address.
pub open spec fn spec_copy_section_prefix(s: Seq<u8>, mem: Seq<u8>, i: int, k: int) -> Seq<u8> {
    Seq::new(
        mem.len(),
        |t: int|
            if spec_section_addr(s, i) <= t < spec_section_addr(s, i) + k {
                s[spec_section_offset(s, i) + (t - spec_section_addr(s, i))]
            } else {
                mem[t]
            },
    )
}

/// Mapped memory after all of section record `i` has been copied.
pub open spec fn spec_copy_section(s: Seq<u8>, mem: Seq<u8>, i: int) -> Seq<u8> {
    spec_copy_section_prefix(s, mem, i, spec_section_size(s, i))
}

/// Mapped memory after the first `n` sections have been copied in table
/// order.
pub open spec fn spec_copy_sections(s: Seq<u8>, mem: Seq<u8>, n: int) -> Seq<u8>
    decreases n,
{
    if n <= 0 {
        mem
    } else {
        spec_copy_section(s, spec_copy_sections(s, mem, n - 1), n - 1)
    }
}

/// The outcome of loading segments: the header must validate, the section
/// table must lie within the buffer, and every section must fit both the
/// image and the mapping; nothing is copied on failure.
pub open spec fn spec_load_segments_outcome(s: Seq<u8>, mem_len: int) -> Result<(), PlamError> {
    if !(spec_header_fits(s) && spec_magic(s) == PLAM_MAGIC) {
        Err(PlamError::BadMagic)
    } else if !spec_sections_in_bounds(s) {
        Err(PlamError::SectionTableOutOfBounds)
    } else if !spec_segments_loadable(s, mem_len) {
        Err(PlamError::SegmentOutOfRange)
    } else {
        Ok(())
    }
}

/// Every interpreted relocation record of `s` patches a word that lies
/// within a mapping of `mem_len` bytes.
pub open spec fn spec_reloc_targets_fit(s: Seq<u8>, mem_len: int) -> bool {
    forall|i: int|
        0 <= i < spec_reloc_count(s) && spec_is_patch_type(#[trigger] spec_reloc_type(s, i))
            ==> spec_reloc_offset(s, i) + 8 <= mem_len
}

/// Pairwise-compares the mapped ranges of all declared sections and reports
/// whether any two intersect.
#[verifier::loop_isolation(false)]
fn any_sections_overlap(buffer: &[u8], base: usize, sec_off: usize, count: usize) -> (r: bool)
    requires
        sec_off == spec_section_table_off(buffer@),
        count == spec_section_count(buffer@),
        sec_off + 80 * count <= buffer@.len(),
    ensures
        r == spec_any_overlap(buffer@, base as int),
{
    let _buf_len = buffer.len();
    let mut i: usize = 0;
    while i < count
        invariant
            i <= count,
            forall|a: int, b: int|
                0 <= a < i && a < b < count ==> !spec_sections_intersect(buffer@, base as int, a, b),
        decreases count - i,
    {
        let addr_a = read_u64_le(buffer, sec_off + 80 * i + 16);
        let size_a = read_u64_le(buffer, sec_off + 80 * i + 32);
        let start_a = base as u128 + addr_a as u128;
        let end_a = start_a + size_a as u128;

        let mut j: usize = i + 1;
        while j < count
            invariant
                i < j <= count,
                forall|b: int|
                    i < b < j ==> !spec_sections_intersect(buffer@, base as int, i as int, b),
            decreases count - j,
        {
            let addr_b = read_u64_le(buffer, sec_off + 80 * j + 16);
            let size_b = read_u64_le(buffer, sec_off + 80 * j + 32);
            let start_b = base as u128 + addr_b as u128;
            let end_b = start_b + size_b as u128;

            if start_a < end_b && start_b < end_a {
                assert(spec_sections_intersect(buffer@, base as int, i as int, j as int));
                return true;
            }
            j += 1;
        }
        i += 1;
    }
    false
}

/// Applies the first `count` relocation records of `buffer` into `mem`
/// in table order.
#[verifier::loop_isolation(false)]
fn apply_relocations(buffer: &[u8], base: usize, rel_off: usize, count: usize, mem: &mut Vec<u8>)
    requires
        rel_off == spec_reloc_table_off(buffer@),
        count == spec_reloc_count(buffer@),
        rel_off + 32 * count <= buffer@.len(),
        spec_reloc_targets_fit(buffer@, old(mem)@.len() as int),
    ensures
        final(mem)@ == spec_apply_relocs(buffer@, old(mem)@, base as int, count as int),
        final(mem)@.len() == old(mem)@.len(),
{
    let _buf_len = buffer.len();
    let _mem_len = mem.len();
    let mut r: usize = 0;
    while r < count
        invariant
            r <= count,
            mem@ == spec_apply_relocs(buffer@, old(mem)@, base as int, r as int),
            mem@.len() == old(mem)@.len(),
        decreases count - r,
    {
        let rel_type = read_u32_le(buffer, rel_off + 32 * r + 8);
        if rel_type == 1 || rel_type == 2 || rel_type == 3 {
            let offset = read_u64_le(buffer, rel_off + 32 * r);
            let addend = read_u64_le(buffer, rel_off + 32 * r + 16);
            let value = (base as u64).wrapping_add(addend);
            assert(spec_is_patch_type(spec_reloc_type(buffer@, r as int)));
            assert(offset + 8 <= old(mem)@.len());
            let place = offset as usize;
            let current = read_u64_le(mem.as_slice(), place);
            write_u64_le(mem, place, current.wrapping_add(value));
        }
        r += 1;
    }
}

/// Validates `buffer` as a PLAM image to be materialized at the page-aligned
/// address `base`, applies its relocations into the mapped memory `mem`
/// (which models the writable bytes at `[base, base + mem.len())`), and
/// returns the resolved entry address `base + entry_offset`.
///
/// Interpreted relocations add `base + addend` (wrapping at 64 bits) into
/// the little-endian 64-bit word at `mem[offset..offset+8]`; all other
/// relocation types leave memory untouched, as does every failure.
#[verifier::loop_isolation(false)]
pub fn load_plam(buffer: &[u8], base: usize, mem: &mut Vec<u8>) -> (r: Result<usize, PlamError>)
    requires
        spec_load_outcome(buffer@, base as int) is Ok ==> {
            &&& spec_reloc_targets_fit(buffer@, old(mem)@.len() as int)
            &&& base + spec_entry_offset(buffer@) <= usize::MAX
        },
    ensures
        ({
            let outcome = spec_load_outcome(buffer@, base as int);
            match r {
                Ok(entry) => outcome == Ok::<int, PlamError>(entry as int) && final(mem)@
                    == spec_apply_relocs(buffer@, old(mem)@, base as int, spec_reloc_count(
                    buffer@,
                )),
                Err(e) => outcome == Err::<int, PlamError>(e) && final(mem)@ == old(mem)@,
            }
        }),
{
    let buf_len = buffer.len();
    if buf_len < PLAM_HEADER_SIZE {
        return Err(PlamError::BufferTooSmall);
    }
    if base % 4096 != 0 {
        return Err(PlamError::UnalignedBase);
    }

    let magic = read_u32_le(buffer, 0);
    if magic != PLAM_MAGIC {
        return Err(PlamError::BadMagic);
    }

    let version = read_u16_le(buffer, 4);
    assert(version >> 8 == version / 0x100) by (bit_vector);
    if version >> 8 != 3 {
        return Err(PlamError::UnsupportedVersion);
    }

    let section_count = read_u32_le(buffer, 154);
    if section_count > 0 {
        let section_table_off = read_u64_le(buffer, 146);
        if section_table_off as u128 + 80 * (section_count as u128) > buf_len as u128 {
            return Err(PlamError::SectionTableOutOfBounds);
        }
        let sec_off = section_table_off as usize;
        let count = section_count as usize;
        if any_sections_overlap(buffer, base, sec_off, count) {
            return Err(PlamError::OverlappingSections);
        }
    } else {
        assert(!spec_any_overlap(buffer@, base as int));
    }

    let reloc_count = read_u32_le(buffer, 166);
    if reloc_count > 0 {
        let reloc_table_off = read_u64_le(buffer, 158);
        if reloc_table_off as u128 + 32 * (reloc_count as u128) > buf_len as u128 {
            return Err(PlamError::RelocTableOutOfBounds);
        }
        let rel_off = reloc_table_off as usize;
        let count = reloc_count as usize;

        assert(spec_load_outcome(buffer@, base as int) is Ok);
        apply_relocations(buffer, base, rel_off, count, mem);
    } else {
        assert(mem@ == spec_apply_relocs(buffer@, old(mem)@, base as int, spec_reloc_count(
            buffer@,
        )));
    }

    let entry_offset = read_u64_le(buffer, 46);
    Ok(base + entry_offset as usize)
}

/// A read-only pre-validated view over a PLAM image for callers that only
/// need the magic check and the entry-address computation, without the
/// in-place relocation of `load_plam`.
pub struct PlamParser<'a> {
    data: &'a [u8],
}

impl<'a> View for PlamParser<'a> {
    type V = Seq<u8>;

    closed spec fn view(&self) -> Seq<u8> {
        self.data@
    }
}

impl<'a> PlamParser<'a> {
    pub fn new(data: &'a [u8]) -> (r: Self)
        ensures
            r@ == data@,
    {
        PlamParser { data }
    }

    /// True iff the buffer holds a complete header whose magic matches.
    pub fn validate(&self) -> (r: bool)
        ensures
            r == (spec_header_fits(self@) && spec_magic(self@) == PLAM_MAGIC),
    {
        if self.data.len() < PLAM_HEADER_SIZE {
            return false;
        }
        read_u32_le(self.data, 0) == PLAM_MAGIC
    }

    /// The image's preferred entry address, `image_base + entry_offset`,
    /// for a buffer that passes `validate`.
    pub fn entry_point(&self) -> (r: Result<usize, PlamError>)
        requires
            spec_header_fits(self@) && spec_magic(self@) == PLAM_MAGIC ==> spec_image_base(self@)
                + spec_entry_offset(self@) <= usize::MAX,
        ensures
            match r {
                Ok(entry) => spec_header_fits(self@) && spec_magic(self@) == PLAM_MAGIC && entry
                    == spec_image_base(self@) + spec_entry_offset(self@),
                Err(e) => e == PlamError::BadMagic && !(spec_header_fits(self@) && spec_magic(
                    self@,
                ) == PLAM_MAGIC),
            },
    {
        if !self.validate() {
            return Err(PlamError::BadMagic);
        }
        let image_base = read_u64_le(self.data, 38);
        let entry_offset = read_u64_le(self.data, 46);
        Ok(image_base as usize + entry_offset as usize)
    }

    /// Copies every declared section's file bytes to its virtual address in
    /// the mapped memory `mem` (the writable bytes at `[base,
    /// base + mem.len())`), in table order. Nothing is copied unless the
    /// header validates and every section fits both the image and the
    /// mapping.
    pub fn load_segments(&self, mem: &mut Vec<u8>) -> (r: Result<(), PlamError>)
        ensures
            r == spec_load_segments_outcome(self@, old(mem)@.len() as int),
            r is Ok ==> final(mem)@ == spec_copy_sections(self@, old(mem)@, spec_section_count(
                self@,
            )),
            r is Err ==> final(mem)@ == old(mem)@,
    {
        if !self.validate() {
            return Err(PlamError::BadMagic);
        }
        let buf_len = self.data.len();
        let mem_len = mem.len();

        let section_count = read_u32_le(self.data, 154);
        if section_count == 0 {
            return Ok(());
        }
        let section_table_off = read_u64_le(self.data, 146);
        if section_table_off as u128 + 80 * (section_count as u128) > buf_len as u128 {
            return Err(PlamError::SectionTableOutOfBounds);
        }
        let sec_off = section_table_off as usize;
        let count = section_count as usize;

        if !segments_fit(self.data, sec_off, count, mem_len) {
            return Err(PlamError::SegmentOutOfRange);
        }
        copy_all_sections(self.data, sec_off, count, mem);
        Ok(())
    }
}

/// Checks that every declared section's file range lies within the image
/// and its mapped range within a mapping of `mem_len` bytes.
#[verifier::loop_isolation(false)]
fn segments_fit(data: &[u8], sec_off: usize, count: usize, mem_len: usize) -> (r: bool)
    requires
        sec_off == spec_section_table_off(data@),
        count == spec_section_count(data@),
        sec_off + 80 * count <= data@.len(),
    ensures
        r == spec_segments_loadable(data@, mem_len as int),
{
    let buf_len = data.len();
    let mut i: usize = 0;
    while i < count
        invariant
            i <= count,
            forall|a: int|
                0 <= a < i ==> spec_section_offset(data@, a) + #[trigger] spec_section_size(
                    data@,
                    a,
                ) <= buf_len && spec_section_addr(data@, a) + spec_section_size(data@, a)
                    <= mem_len,
        decreases count - i,
    {
        let offset = read_u64_le(data, sec_off + 80 * i + 24);
        let addr = read_u64_le(data, sec_off + 80 * i + 16);
        let size = read_u64_le(data, sec_off + 80 * i + 32);
        if offset as u128 + size as u128 > buf_len as u128 || addr as u128 + size as u128
            > mem_len as u128 {
            proof {
                assert(!(spec_section_offset(data@, i as int) + spec_section_size(data@, i as int)
                    <= data@.len() && spec_section_addr(data@, i as int) + spec_section_size(
                    data@,
                    i as int,
                ) <= mem_len));
            }
            return false;
        }
        i += 1;
    }
    true
}

/// Copies the file bytes of the first `count` sections to their virtual
/// addresses in `mem`, in table order.
#[verifier::loop_isolation(false)]
fn copy_all_sections(data: &[u8], sec_off: usize, count: usize, mem: &mut Vec<u8>)
    requires
        sec_off == spec_section_table_off(data@),
        count == spec_section_count(data@),
        sec_off + 80 * count <= data@.len(),
        spec_segments_loadable(data@, old(mem)@.len() as int),
    ensures
        final(mem)@ == spec_copy_sections(data@, old(mem)@, count as int),
{
    let _buf_len = data.len();
    let _mem_len = mem.len();
    let mut i: usize = 0;
    while i < count
        invariant
            i <= count,
            mem@.len() == _mem_len,
            mem@ == spec_copy_sections(data@, old(mem)@, i as int),
        decreases count - i,
    {
        let offset64 = read_u64_le(data, sec_off + 80 * i + 24);
        let addr64 = read_u64_le(data, sec_off + 80 * i + 16);
        let size64 = read_u64_le(data, sec_off + 80 * i + 32);
        proof {
            assert(spec_section_offset(data@, i as int) + spec_section_size(data@, i as int)
                <= _buf_len && spec_section_addr(data@, i as int) + spec_section_size(
                data@,
                i as int,
            ) <= _mem_len);
        }
        let offset = offset64 as usize;
        let addr = addr64 as usize;
        let size = size64 as usize;
        let ghost mem_entry = mem@;

        let mut k: usize = 0;
        while k < size
            invariant
                k <= size,
                mem@.len() == _mem_len,
                offset == spec_section_offset(data@, i as int),
                addr == spec_section_addr(data@, i as int),
                size == spec_section_size(data@, i as int),
                mem@ == spec_copy_section_prefix(data@, mem_entry, i as int, k as int),
            decreases size - k,
        {
            mem[addr + k] = data[offset + k];
            proof {
                assert(mem@ =~= spec_copy_section_prefix(data@, mem_entry, i as int, k as int + 1));
            }
            k += 1;
        }
        i += 1;
    }
}

/// Applying a prefix of the relocation table in which no record has an
/// interpreted type leaves mapped memory exactly as it was; loading such an
/// image any number of times therefore yields the same memory and the same
/// entry address.
pub proof fn lemma_relocs_without_patch_types_preserve_memory(
    s: Seq<u8>,
    mem: Seq<u8>,
    base: int,
    n: int,
)
    requires
        forall|i: int| 0 <= i < n ==> !spec_is_patch_type(#[trigger] spec_reloc_type(s, i)),
    ensures
        spec_apply_relocs(s, mem, base, n) == mem,
    decreases n,
{
    if n > 0 {
        lemma_relocs_without_patch_types_preserve_memory(s, mem, base, n - 1);
    }
}

/// A buffer that passes every validation step is loaded successfully and
/// the loader returns `base + entry_offset` exactly. (At the executable
/// level `load_plam` additionally requires the machine limit that this sum
/// fits in `usize`; the law itself holds without it.)
pub proof fn lemma_valid_image_loads(s: Seq<u8>, base: int)
    requires
        spec_header_fits(s),
        base % 4096 == 0,
        spec_magic(s) == PLAM_MAGIC,
        spec_version(s) / 0x100 == 3,
        spec_sections_in_bounds(s),
        !spec_any_overlap(s, base),
        spec_relocs_in_bounds(s),
    ensures
        spec_load_outcome(s, base) == Ok::<int, PlamError>(base + spec_entry_offset(s)),
{
}

/// A header whose magic differs from the PLAM magic is rejected with the
/// magic error, whatever its remaining fields hold.
pub proof fn lemma_bad_magic_rejected(s: Seq<u8>, base: int)
    requires
        spec_header_fits(s),
        base % 4096 == 0,
        spec_magic(s) != PLAM_MAGIC,
    ensures
        spec_load_outcome(s, base) == Err::<int, PlamError>(PlamError::BadMagic),
{
}

/// A base address that is not a multiple of 4096 always fails the load; a
/// buffer large enough to hold a header fails with the alignment error in
/// particular. Together with the loader's guarantee that failures leave
/// memory untouched, no memory is written for such a base.
pub proof fn lemma_unaligned_base_rejected(s: Seq<u8>, base: int)
    requires
        base % 4096 != 0,
    ensures
        spec_load_outcome(s, base) is Err,
        spec_header_fits(s) ==> spec_load_outcome(s, base) == Err::<int, PlamError>(
            PlamError::UnalignedBase,
        ),
{
}

/// Two declared sections whose mapped ranges intersect abort an otherwise
/// well-formed load with the overlap error.
pub proof fn lemma_overlap_rejected(s: Seq<u8>, base: int, i: int, j: int)
    requires
        spec_header_fits(s),
        base % 4096 == 0,
        spec_magic(s) == PLAM_MAGIC,
        spec_version(s) / 0x100 == 3,
        spec_sections_in_bounds(s),
        0 <= i < j < spec_section_count(s),
        spec_sections_intersect(s, base, i, j),
    ensures
        spec_load_outcome(s, base) == Err::<int, PlamError>(PlamError::OverlappingSections),
{
    assert(spec_any_overlap(s, base));
}

} // verus!

//! Shared base images and per-VM copy-on-write overlays.
//!
//! Under a data root the manager keeps two directories: `disks/bases` holds raw
//! base images named `{digest}.raw`, `disks/vms` holds one QCOW2 overlay per VM
//! named `{vm_id}.qcow2`. The overlay image itself is built in memory by
//! [`create_overlay`]; writing it out is left to the caller.

use vstd::prelude::*;
use vstd::string::*;
use crate::bytes::{
    be16, be16_value, be32, be32_value, be64, be64_value, lemma_be16_roundtrip,
    lemma_be32_roundtrip, lemma_be64_roundtrip, write_be16, write_be64,
};
use crate::text::{concat2, ends_with, path_join, spec_ends_with, spec_path_join, strings_view};

verus! {

/// Bytes in one cluster.
pub const CLUSTER_SIZE: usize = 65536;

/// Clusters in a fresh overlay.
pub const OVERLAY_CLUSTERS: usize = 4;

/// `QFI\xfb`.
pub const MAGIC: u32 = 0x5146_49fb;

/// Format version written to the header.
pub const VERSION: u32 = 3;

/// Binary logarithm of the cluster size.
pub const CLUSTER_BITS: u32 = 16;

/// Refcounts are `2^4` bits wide.
pub const REFCOUNT_ORDER: u32 = 4;

/// Bytes in a version 3 header.
pub const HEADER_LENGTH: u32 = 104;

/// Type of the header extension that names the backing file's format.
pub const EXT_BACKING_FMT: u32 = 0xE279_2ACA;

/// Offset of the backing file name: behind the header, the format extension
/// and the end marker.
pub const BACKING_NAME_OFFSET: usize = 128;

/// Bytes of virtual disk that one L1 entry covers: an L2 table of one cluster
/// holds `CLUSTER_SIZE / 8` entries of one cluster each.
pub const L2_COVERAGE: u64 = 0x2000_0000;

/// Offset of the L1 table: cluster 1.
pub const L1_TABLE_OFFSET: u64 = 0x1_0000;

/// Offset of the refcount table: cluster 2.
pub const REFCOUNT_TABLE_OFFSET: u64 = 0x2_0000;

/// Offset of the refcount block: cluster 3.
pub const REFCOUNT_BLOCK_OFFSET: u64 = 0x3_0000;

/// Longest backing file name that still fits into the first cluster.
pub const MAX_BACKING_NAME: usize = 65408;

/// `n` zero bytes.
pub open spec fn zeros(n: int) -> Seq<u8> {
    Seq::new(n as nat, |i: int| 0u8)
}

/// `n` rounded up to a multiple of eight.
pub open spec fn spec_align8(n: int) -> int {
    (n + 7) / 8 * 8
}

/// Rounds `n` up to the next multiple of eight.
pub fn align8(n: usize) -> (r: usize)
    requires
        n + 7 <= usize::MAX,
    ensures
        r == spec_align8(n as int),
{
    (n + 7) / 8 * 8
}

/// Number of L1 entries for a virtual disk of `virtual_size` bytes: its size in
/// units of [`L2_COVERAGE`], rounded up.
pub open spec fn l1_entries(virtual_size: u64) -> int {
    (virtual_size + L2_COVERAGE - 1) / (L2_COVERAGE as int)
}

/// The 104 header bytes of an overlay over a backing file whose name is
/// `backing_len` bytes long and whose size is `virtual_size`.
pub open spec fn overlay_header(backing_len: u32, virtual_size: u64, l1: u32) -> Seq<u8> {
    be32(MAGIC) + be32(VERSION)
        + be64(BACKING_NAME_OFFSET as u64)  // backing_file_offset
        + be32(backing_len)  // backing_file_size
        + be32(CLUSTER_BITS) + be64(virtual_size) + be32(0)  // crypt_method
        + be32(l1)  // l1_size
        + be64(L1_TABLE_OFFSET)
        + be64(REFCOUNT_TABLE_OFFSET)
        + be32(1)  // refcount_table_clusters
        + be32(0)  // nb_snapshots
        + be64(0)  // snapshots_offset
        + be64(0)  // incompatible_features
        + be64(0)  // compatible_features
        + be64(0)  // autoclear_features
        + be32(REFCOUNT_ORDER) + be32(HEADER_LENGTH)
}

/// The header extensions: the backing format `raw`, padded to eight bytes, and
/// the end marker.
pub open spec fn overlay_extensions() -> Seq<u8> {
    be32(EXT_BACKING_FMT) + be32(3) + seq![0x72u8, 0x61u8, 0x77u8] + zeros(5) + be32(0) + be32(0)
}

/// Cluster 0: header, extensions, backing file name, zero padding.
pub open spec fn overlay_cluster0(backing: Seq<u8>, virtual_size: u64) -> Seq<u8> {
    overlay_header(backing.len() as u32, virtual_size, l1_entries(virtual_size) as u32)
        + overlay_extensions() + backing + zeros(
        CLUSTER_SIZE - BACKING_NAME_OFFSET - backing.len(),
    )
}

/// Cluster 2: the refcount table, whose one entry points at cluster 3.
pub open spec fn overlay_refcount_table() -> Seq<u8> {
    be64(REFCOUNT_BLOCK_OFFSET) + zeros(CLUSTER_SIZE - 8)
}

/// Cluster 3: the refcount block of 16-bit counts, 1 for each of the four
/// clusters of the image and 0 for every other.
pub open spec fn overlay_refcount_block() -> Seq<u8> {
    be16(1) + be16(1) + be16(1) + be16(1) + zeros(CLUSTER_SIZE - 8)
}

/// The whole overlay image: four clusters, of which cluster 1, the L1 table, is
/// all zero.
pub open spec fn overlay_image(backing: Seq<u8>, virtual_size: u64) -> Seq<u8> {
    overlay_cluster0(backing, virtual_size) + zeros(CLUSTER_SIZE as int)
        + overlay_refcount_table() + overlay_refcount_block()
}

/// The fields of the header: each stands at its offset, most significant
/// byte first.
#[verifier::rlimit(40)]
pub proof fn lemma_header_fields(backing_len: u32, virtual_size: u64, l1: u32)
    ensures
        ({
            let head = overlay_header(backing_len, virtual_size, l1);
            &&& head.len() == HEADER_LENGTH
            &&& head.subrange(0, 4) == be32(MAGIC)
            &&& head.subrange(4, 8) == be32(VERSION)
            &&& head.subrange(8, 16) == be64(BACKING_NAME_OFFSET as u64)
            &&& head.subrange(16, 20) == be32(backing_len)
            &&& head.subrange(20, 24) == be32(CLUSTER_BITS)
            &&& head.subrange(24, 32) == be64(virtual_size)
            &&& head.subrange(32, 36) == be32(0)
            &&& head.subrange(36, 40) == be32(l1)
            &&& head.subrange(40, 48) == be64(L1_TABLE_OFFSET)
            &&& head.subrange(48, 56) == be64(REFCOUNT_TABLE_OFFSET)
            &&& head.subrange(56, 60) == be32(1)
            &&& head.subrange(96, 100) == be32(REFCOUNT_ORDER)
            &&& head.subrange(100, 104) == be32(HEADER_LENGTH)
        }),
{
    let head = overlay_header(backing_len, virtual_size, l1);
    assert(head.len() == 104);
    assert(head.subrange(0, 4) =~= be32(MAGIC));
    assert(head.subrange(4, 8) =~= be32(VERSION));
    assert(head.subrange(8, 16) =~= be64(BACKING_NAME_OFFSET as u64));
    assert(head.subrange(16, 20) =~= be32(backing_len));
    assert(head.subrange(20, 24) =~= be32(CLUSTER_BITS));
    assert(head.subrange(24, 32) =~= be64(virtual_size));
    assert(head.subrange(32, 36) =~= be32(0));
    assert(head.subrange(36, 40) =~= be32(l1));
    assert(head.subrange(40, 48) =~= be64(L1_TABLE_OFFSET));
    assert(head.subrange(48, 56) =~= be64(REFCOUNT_TABLE_OFFSET));
    assert(head.subrange(56, 60) =~= be32(1));
    assert(head.subrange(96, 100) =~= be32(REFCOUNT_ORDER));
    assert(head.subrange(100, 104) =~= be32(HEADER_LENGTH));
}

/// The parts of an overlay image: the header, the extensions, the backing
/// file name, and the three clusters behind the first one.
#[verifier::rlimit(40)]
pub proof fn lemma_overlay_parts(backing: Seq<u8>, virtual_size: u64)
    requires
        overlay_check(backing, virtual_size) is None,
    ensures
        ({
            let img = overlay_image(backing, virtual_size);
            &&& img.len() == OVERLAY_CLUSTERS * CLUSTER_SIZE
            &&& img.subrange(0, HEADER_LENGTH as int) == overlay_header(
                backing.len() as u32,
                virtual_size,
                l1_entries(virtual_size) as u32,
            )
            &&& img.subrange(HEADER_LENGTH as int, BACKING_NAME_OFFSET as int)
                == overlay_extensions()
            &&& img.subrange(BACKING_NAME_OFFSET as int, BACKING_NAME_OFFSET + backing.len())
                == backing
            &&& img.subrange(L1_TABLE_OFFSET as int, REFCOUNT_TABLE_OFFSET as int) == zeros(
                CLUSTER_SIZE as int,
            )
            &&& img.subrange(REFCOUNT_TABLE_OFFSET as int, REFCOUNT_BLOCK_OFFSET as int)
                == overlay_refcount_table()
            &&& img.subrange(REFCOUNT_BLOCK_OFFSET as int, img.len() as int)
                == overlay_refcount_block()
        }),
{
    let img = overlay_image(backing, virtual_size);
    let head = overlay_header(
        backing.len() as u32,
        virtual_size,
        l1_entries(virtual_size) as u32,
    );
    let c0 = overlay_cluster0(backing, virtual_size);
    lemma_header_fields(backing.len() as u32, virtual_size, l1_entries(virtual_size) as u32);
    assert(overlay_extensions().len() == 24);
    assert(c0.len() == CLUSTER_SIZE);
    assert(overlay_refcount_table().len() == CLUSTER_SIZE);
    assert(overlay_refcount_block().len() == CLUSTER_SIZE);
    assert(img.subrange(0, CLUSTER_SIZE as int) =~= c0);
    assert(c0.subrange(0, 104) =~= head);
    assert(c0.subrange(104, 128) =~= overlay_extensions());
    assert(c0.subrange(128, 128 + backing.len() as int) =~= backing);
    assert(img.subrange(0, 104) =~= c0.subrange(0, 104));
    assert(img.subrange(104, 128) =~= c0.subrange(104, 128));
    assert(img.subrange(128, 128 + backing.len() as int) =~= c0.subrange(
        128,
        128 + backing.len() as int,
    ));
    assert(img.subrange(L1_TABLE_OFFSET as int, REFCOUNT_TABLE_OFFSET as int) =~= zeros(
        CLUSTER_SIZE as int,
    ));
    assert(img.subrange(REFCOUNT_TABLE_OFFSET as int, REFCOUNT_BLOCK_OFFSET as int)
        =~= overlay_refcount_table());
    assert(img.subrange(REFCOUNT_BLOCK_OFFSET as int, img.len() as int)
        =~= overlay_refcount_block());
}

/// The header of an overlay image names the virtual size, the number of L1
/// entries, and the place and length of the backing file name; the name
/// stands there byte for byte.
#[verifier::rlimit(40)]
pub proof fn lemma_overlay_header(backing: Seq<u8>, virtual_size: u64)
    requires
        overlay_check(backing, virtual_size) is None,
    ensures
        ({
            let img = overlay_image(backing, virtual_size);
            &&& be32_value(img.subrange(0, 4)) == MAGIC
            &&& be32_value(img.subrange(4, 8)) == VERSION
            &&& be64_value(img.subrange(8, 16)) == BACKING_NAME_OFFSET
            &&& be32_value(img.subrange(16, 20)) == backing.len()
            &&& be32_value(img.subrange(20, 24)) == CLUSTER_BITS
            &&& be64_value(img.subrange(24, 32)) == virtual_size
            &&& be32_value(img.subrange(36, 40)) == l1_entries(virtual_size)
            &&& be64_value(img.subrange(40, 48)) == L1_TABLE_OFFSET
            &&& be64_value(img.subrange(48, 56)) == REFCOUNT_TABLE_OFFSET
            &&& be32_value(img.subrange(56, 60)) == 1
            &&& be32_value(img.subrange(96, 100)) == REFCOUNT_ORDER
            &&& be32_value(img.subrange(100, 104)) == HEADER_LENGTH
            &&& img.subrange(BACKING_NAME_OFFSET as int, BACKING_NAME_OFFSET + backing.len())
                == backing
        }),
{
    let img = overlay_image(backing, virtual_size);
    let l1 = l1_entries(virtual_size) as u32;
    let len = backing.len() as u32;
    let head = overlay_header(len, virtual_size, l1);
    lemma_overlay_parts(backing, virtual_size);
    lemma_header_fields(len, virtual_size, l1);
    lemma_be32_roundtrip(MAGIC);
    lemma_be32_roundtrip(VERSION);
    lemma_be64_roundtrip(BACKING_NAME_OFFSET as u64);
    lemma_be32_roundtrip(len);
    lemma_be32_roundtrip(CLUSTER_BITS);
    lemma_be64_roundtrip(virtual_size);
    lemma_be32_roundtrip(l1);
    lemma_be64_roundtrip(L1_TABLE_OFFSET);
    lemma_be64_roundtrip(REFCOUNT_TABLE_OFFSET);
    lemma_be32_roundtrip(1);
    lemma_be32_roundtrip(REFCOUNT_ORDER);
    lemma_be32_roundtrip(HEADER_LENGTH);
    let h = img.subrange(0, 104);
    assert(h == head);
    assert(img.subrange(0, 4) =~= h.subrange(0, 4));
    assert(img.subrange(4, 8) =~= h.subrange(4, 8));
    assert(img.subrange(8, 16) =~= h.subrange(8, 16));
    assert(img.subrange(16, 20) =~= h.subrange(16, 20));
    assert(img.subrange(20, 24) =~= h.subrange(20, 24));
    assert(img.subrange(24, 32) =~= h.subrange(24, 32));
    assert(img.subrange(36, 40) =~= h.subrange(36, 40));
    assert(img.subrange(40, 48) =~= h.subrange(40, 48));
    assert(img.subrange(48, 56) =~= h.subrange(48, 56));
    assert(img.subrange(56, 60) =~= h.subrange(56, 60));
    assert(img.subrange(96, 100) =~= h.subrange(96, 100));
    assert(img.subrange(100, 104) =~= h.subrange(100, 104));
}

/// An overlay image is exactly four clusters long. Its L1 table is all zero,
/// the one entry of its refcount table points at the refcount block, and the
/// refcount block counts 1 for each of the four clusters and 0 for the
/// fifth.
#[verifier::rlimit(40)]
pub proof fn lemma_overlay_tables(backing: Seq<u8>, virtual_size: u64)
    requires
        overlay_check(backing, virtual_size) is None,
    ensures
        ({
            let img = overlay_image(backing, virtual_size);
            let block = REFCOUNT_BLOCK_OFFSET as int;
            &&& img.len() == OVERLAY_CLUSTERS * CLUSTER_SIZE
            &&& img.subrange(L1_TABLE_OFFSET as int, REFCOUNT_TABLE_OFFSET as int) == zeros(
                CLUSTER_SIZE as int,
            )
            &&& be64_value(
                img.subrange(REFCOUNT_TABLE_OFFSET as int, REFCOUNT_TABLE_OFFSET + 8),
            ) == REFCOUNT_BLOCK_OFFSET
            &&& forall|k: int|
                0 <= k < 4 ==> be16_value(#[trigger] img.subrange(block + 2 * k, block + 2 * k + 2))
                    == 1
            &&& be16_value(img.subrange(block + 8, block + 10)) == 0
        }),
{
    let img = overlay_image(backing, virtual_size);
    lemma_overlay_parts(backing, virtual_size);
    lemma_be64_roundtrip(REFCOUNT_BLOCK_OFFSET);
    lemma_be16_roundtrip(1);
    let table = img.subrange(REFCOUNT_TABLE_OFFSET as int, REFCOUNT_BLOCK_OFFSET as int);
    assert(img.subrange(REFCOUNT_TABLE_OFFSET as int, REFCOUNT_TABLE_OFFSET + 8)
        =~= table.subrange(0, 8));
    assert(table.subrange(0, 8) =~= be64(REFCOUNT_BLOCK_OFFSET));
    let block = REFCOUNT_BLOCK_OFFSET as int;
    let counts = img.subrange(block, img.len() as int);
    assert(counts == overlay_refcount_block());
    assert(counts.subrange(0, 2) =~= be16(1));
    assert(counts.subrange(2, 4) =~= be16(1));
    assert(counts.subrange(4, 6) =~= be16(1));
    assert(counts.subrange(6, 8) =~= be16(1));
    assert(counts.subrange(8, 10) =~= seq![0u8, 0u8]);
    assert forall|k: int| 0 <= k < 4 implies be16_value(
        #[trigger] img.subrange(block + 2 * k, block + 2 * k + 2),
    ) == 1 by {
        assert(img.subrange(block + 2 * k, block + 2 * k + 2) =~= counts.subrange(
            2 * k,
            2 * k + 2,
        ));
    }
    assert(img.subrange(block + 8, block + 10) =~= counts.subrange(8, 10));
}

/// A disk of at most 32 MiB takes as many L1 entries as it has units of
/// 32 MiB, rounded up: none when it is empty, one otherwise.
pub proof fn lemma_l1_entries_small(virtual_size: u64)
    requires
        virtual_size <= 0x200_0000,
    ensures
        l1_entries(virtual_size) == (virtual_size + 0x200_0000 - 1) / 0x200_0000,
{
}

/// The number of L1 entries is the virtual size in units of 512 MiB, rounded
/// up: the least count whose coverage reaches the size.
pub proof fn lemma_l1_entries_ceil(virtual_size: u64)
    ensures
        l1_entries(virtual_size) * L2_COVERAGE >= virtual_size,
        (l1_entries(virtual_size) - 1) * L2_COVERAGE < virtual_size,
        L2_COVERAGE == (CLUSTER_SIZE / 8) * CLUSTER_SIZE,
{
}

/// Why no overlay can be built.
#[derive(Debug, Clone, Copy, PartialEq, Eq, Structural)]
pub enum OverlayError {
    /// The backing file name does not fit into the first cluster.
    BackingNameTooLong,
    /// The virtual size needs more L1 entries than the header field can count.
    VirtualSizeTooLarge,
}

/// Whether an overlay exists for these inputs, and if not, why.
pub open spec fn overlay_check(backing: Seq<u8>, virtual_size: u64) -> Option<OverlayError> {
    if backing.len() > MAX_BACKING_NAME {
        Some(OverlayError::BackingNameTooLong)
    } else if l1_entries(virtual_size) > u32::MAX {
        Some(OverlayError::VirtualSizeTooLarge)
    } else {
        None
    }
}

fn zero_bytes(n: usize) -> (v: Vec<u8>)
    ensures
        v@ == zeros(n as int),
{
    let v = vec![0u8; n];
    assert(v@ =~= zeros(n as int));
    v
}

fn push_be32(buf: &mut Vec<u8>, val: u32)
    ensures
        final(buf)@ == old(buf)@ + be32(val),
{
    buf.push((val / 0x100_0000) as u8);
    buf.push((val / 0x1_0000 % 256) as u8);
    buf.push((val / 0x100 % 256) as u8);
    buf.push((val % 256) as u8);
    assert(buf@ =~= old(buf)@ + be32(val));
}

fn push_be64(buf: &mut Vec<u8>, val: u64)
    ensures
        final(buf)@ == old(buf)@ + be64(val),
{
    push_be32(buf, (val / 0x1_0000_0000) as u32);
    push_be32(buf, (val % 0x1_0000_0000) as u32);
    assert(buf@ =~= old(buf)@ + be64(val));
}

fn append_bytes(buf: &mut Vec<u8>, piece: &[u8])
    ensures
        final(buf)@ == old(buf)@ + piece@,
{
    let n = piece.len();
    let mut i: usize = 0;
    while i < n
        invariant
            n == piece@.len(),
            i <= n,
            buf@ == old(buf)@ + piece@.subrange(0, i as int),
        decreases n - i,
    {
        buf.push(piece[i]);
        i += 1;
        assert(buf@ =~= old(buf)@ + piece@.subrange(0, i as int));
    }
    assert(piece@.subrange(0, n as int) =~= piece@);
}

/// Builds a minimal QCOW2 version 3 overlay over the backing file
/// `backing_file`, which holds `virtual_size` bytes.
///
/// The image is four clusters long. It fails when the name does not fit into
/// the first cluster or the size needs more L1 entries than a `u32` counts.
#[verifier::rlimit(40)]
pub fn create_overlay(backing_file: &str, virtual_size: u64) -> (r: Result<Vec<u8>, OverlayError>)
    ensures
        match overlay_check(backing_file.spec_bytes(), virtual_size) {
            Some(e) => r == Err::<Vec<u8>, OverlayError>(e),
            None => r is Ok && r->Ok_0@ == overlay_image(backing_file.spec_bytes(), virtual_size),
        },
{
    let backing = backing_file.as_bytes();
    if backing.len() > MAX_BACKING_NAME {
        return Err(OverlayError::BackingNameTooLong);
    }
    let rounded: u64 = virtual_size / L2_COVERAGE + (if virtual_size % L2_COVERAGE != 0 {
        1u64
    } else {
        0u64
    });
    assert(rounded == l1_entries(virtual_size));
    if rounded > u32::MAX as u64 {
        return Err(OverlayError::VirtualSizeTooLarge);
    }
    let l1: u32 = rounded as u32;
    let backing_len: u32 = backing.len() as u32;

    // Cluster 0: header, extensions, backing file name, padding.
    let mut buf: Vec<u8> = Vec::new();
    push_be32(&mut buf, MAGIC);
    push_be32(&mut buf, VERSION);
    push_be64(&mut buf, BACKING_NAME_OFFSET as u64);
    push_be32(&mut buf, backing_len);
    push_be32(&mut buf, CLUSTER_BITS);
    push_be64(&mut buf, virtual_size);
    push_be32(&mut buf, 0);
    push_be32(&mut buf, l1);
    push_be64(&mut buf, L1_TABLE_OFFSET);
    push_be64(&mut buf, REFCOUNT_TABLE_OFFSET);
    push_be32(&mut buf, 1);
    push_be32(&mut buf, 0);
    push_be64(&mut buf, 0);
    push_be64(&mut buf, 0);
    push_be64(&mut buf, 0);
    push_be64(&mut buf, 0);
    push_be32(&mut buf, REFCOUNT_ORDER);
    push_be32(&mut buf, HEADER_LENGTH);
    assert(buf@ == overlay_header(backing_len, virtual_size, l1));

    let format: [u8; 3] = [0x72, 0x61, 0x77];
    let padded = align8(format.len());
    push_be32(&mut buf, EXT_BACKING_FMT);
    push_be32(&mut buf, format.len() as u32);
    append_bytes(&mut buf, format.as_slice());
    let mut pad = zero_bytes(padded - format.len());
    buf.append(&mut pad);
    push_be32(&mut buf, 0);
    push_be32(&mut buf, 0);
    assert(format@ =~= seq![0x72u8, 0x61u8, 0x77u8]);
    assert(buf@ == overlay_header(backing_len, virtual_size, l1) + overlay_extensions());
    assert(buf@.len() == BACKING_NAME_OFFSET);

    append_bytes(&mut buf, backing);
    let mut rest = zero_bytes(CLUSTER_SIZE - BACKING_NAME_OFFSET - backing.len());
    buf.append(&mut rest);
    assert(buf@ == overlay_cluster0(backing@, virtual_size));

    // Cluster 1: the L1 table, with no L2 table allocated.
    let mut l1_table = zero_bytes(CLUSTER_SIZE);
    buf.append(&mut l1_table);

    // Cluster 2: the refcount table.
    let mut table = zero_bytes(CLUSTER_SIZE);
    write_be64(&mut table, 0, REFCOUNT_BLOCK_OFFSET);
    assert(table@ =~= overlay_refcount_table());
    buf.append(&mut table);

    // Cluster 3: the refcount block.
    let mut block = zero_bytes(CLUSTER_SIZE);
    let mut i: usize = 0;
    while i < OVERLAY_CLUSTERS
        invariant
            i <= OVERLAY_CLUSTERS,
            block@.len() == CLUSTER_SIZE,
            forall|k: int|
                0 <= k < CLUSTER_SIZE ==> #[trigger] block@[k] == (if k < 2 * i && k % 2 == 1 {
                    1u8
                } else {
                    0u8
                }),
        decreases OVERLAY_CLUSTERS - i,
    {
        write_be16(&mut block, i * 2, 1);
        i += 1;
    }
    assert(block@ =~= overlay_refcount_block());
    buf.append(&mut block);
    Ok(buf)
}

/// Whether anything exists at `path`, by `std::path::Path::exists`. The answer
/// depends on what is on disk, so nothing is claimed of it.
#[verifier::external_body]
fn path_exists(path: &str) -> bool {
    std::path::Path::new(path).exists()
}

/// Names the base images and overlays under one data root.
#[derive(Debug, Clone)]
pub struct DiskManager {
    bases_dir: String,
    vms_dir: String,
}

impl DiskManager {
    /// Directory of the shared base images.
    pub closed spec fn spec_bases_dir(&self) -> Seq<char> {
        self.bases_dir@
    }

    /// Directory of the per-VM overlays.
    pub closed spec fn spec_vms_dir(&self) -> Seq<char> {
        self.vms_dir@
    }

    /// The manager for the directories `disks/bases` and `disks/vms` under
    /// `data_dir`. It touches no file: the caller creates the directories.
    pub fn new(data_dir: &str) -> (r: Self)
        ensures
            r.spec_bases_dir() == spec_path_join(
                spec_path_join(data_dir@, "disks"@),
                "bases"@,
            ),
            r.spec_vms_dir() == spec_path_join(spec_path_join(data_dir@, "disks"@), "vms"@),
    {
        let base = path_join(data_dir, "disks");
        let bases_dir = path_join(base.as_str(), "bases");
        let vms_dir = path_join(base.as_str(), "vms");
        DiskManager { bases_dir, vms_dir }
    }

    /// The directory of the shared base images.
    pub fn bases_dir(&self) -> (r: &str)
        ensures
            r@ == self.spec_bases_dir(),
    {
        self.bases_dir.as_str()
    }

    /// The directory of the per-VM overlays.
    pub fn vms_dir(&self) -> (r: &str)
        ensures
            r@ == self.spec_vms_dir(),
    {
        self.vms_dir.as_str()
    }

    /// Whether a base image for `digest` is on disk.
    pub fn has_base(&self, digest: &str) -> bool {
        let path = self.base_path(digest);
        path_exists(path.as_str())
    }

    /// Path of the base image for `digest`: `{digest}.raw` in the bases
    /// directory.
    pub fn base_path(&self, digest: &str) -> (r: String)
        ensures
            r@ == spec_path_join(self.spec_bases_dir(), digest@ + ".raw"@),
    {
        let name = concat2(digest, ".raw");
        path_join(self.bases_dir.as_str(), name.as_str())
    }

    /// Path under which a base image is built before it is renamed into
    /// place: `{digest}.raw.tmp` in the bases directory.
    pub fn base_tmp_path(&self, digest: &str) -> (r: String)
        ensures
            r@ == spec_path_join(self.spec_bases_dir(), digest@ + ".raw.tmp"@),
    {
        let name = concat2(digest, ".raw.tmp");
        path_join(self.bases_dir.as_str(), name.as_str())
    }

    /// Path of the overlay of the VM `vm_id`: `{vm_id}.qcow2` in the overlay
    /// directory.
    pub fn vm_disk_path(&self, vm_id: &str) -> (r: String)
        ensures
            r@ == spec_path_join(self.spec_vms_dir(), vm_id@ + ".qcow2"@),
    {
        let name = concat2(vm_id, ".qcow2");
        path_join(self.vms_dir.as_str(), name.as_str())
    }

    /// Path under which an overlay is written before it is renamed into
    /// place: `{vm_id}.qcow2.tmp` in the overlay directory.
    pub fn vm_disk_tmp_path(&self, vm_id: &str) -> (r: String)
        ensures
            r@ == spec_path_join(self.spec_vms_dir(), vm_id@ + ".qcow2.tmp"@),
    {
        let name = concat2(vm_id, ".qcow2.tmp");
        path_join(self.vms_dir.as_str(), name.as_str())
    }
}

/// The digest of the base image in the file `file_name` of the bases
/// directory: the name without `.raw`, for a name that ends so.
pub open spec fn spec_base_digest(file_name: Seq<char>) -> Option<Seq<char>> {
    if spec_ends_with(file_name, ".raw"@) {
        Some(file_name.take(file_name.len() - ".raw"@.len()))
    } else {
        None
    }
}

/// The digests of the base images among the files `file_names` of the bases
/// directory, in their order.
pub open spec fn spec_list_bases(file_names: Seq<Seq<char>>) -> Seq<Seq<char>>
    decreases file_names.len(),
{
    if file_names.len() == 0 {
        Seq::empty()
    } else {
        match spec_base_digest(file_names.last()) {
            Some(d) => spec_list_bases(file_names.drop_last()).push(d),
            None => spec_list_bases(file_names.drop_last()),
        }
    }
}

/// Says which base images the bases directory holds, given the names of its
/// files.
pub fn list_bases(file_names: &[String]) -> (r: Vec<String>)
    ensures
        strings_view(r@) == spec_list_bases(strings_view(file_names@)),
{
    let ghost names = strings_view(file_names@);
    let mut out: Vec<String> = Vec::new();
    let mut i: usize = 0;
    assert(names.take(0) =~= Seq::<Seq<char>>::empty());
    assert(strings_view(out@) =~= Seq::<Seq<char>>::empty());
    while i < file_names.len()
        invariant
            i <= file_names@.len(),
            names == strings_view(file_names@),
            strings_view(out@) == spec_list_bases(names.take(i as int)),
        decreases file_names@.len() - i,
    {
        assert(names.take(i + 1).drop_last() =~= names.take(i as int));
        assert(names.take(i + 1).last() == file_names@[i as int]@);
        let name = file_names[i].as_str();
        if ends_with(name, ".raw") {
            let n = name.unicode_len();
            let suffix = ".raw".unicode_len();
            let ghost before = strings_view(out@);
            let digest = String::from_str(name.substring_char(0, n - suffix));
            assert(digest@ =~= name@.take(name@.len() - ".raw"@.len()));
            out.push(digest);
            assert(strings_view(out@) =~= before.push(name@.take(name@.len() - ".raw"@.len())));
        }
        i += 1;
    }
    assert(names.take(names.len() as int) =~= names);
    out
}

} // verus!

use bux::disk::{
    align8, create_overlay, list_bases, OverlayError, CLUSTER_BITS, CLUSTER_SIZE, MAGIC, VERSION,
};
use bux::DiskManager;

fn be32(data: &[u8], at: usize) -> u32 {
    u32::from_be_bytes(data[at..at + 4].try_into().unwrap())
}

fn be64(data: &[u8], at: usize) -> u64 {
    u64::from_be_bytes(data[at..at + 8].try_into().unwrap())
}

#[test]
fn creates_valid_qcow2_header() {
    let backing = "/tmp/base.raw";
    let vsize: u64 = 1 << 30; // 1 GiB

    let data = create_overlay(backing, vsize).unwrap();

    // Check file size = 4 clusters = 256 KiB.
    assert_eq!(data.len(), 4 * 65536);

    // Verify magic.
    assert_eq!(be32(&data, 0), MAGIC);
    // Verify version.
    assert_eq!(be32(&data, 4), VERSION);
    // Verify virtual size.
    assert_eq!(be64(&data, 24), vsize);
    // Verify cluster bits.
    assert_eq!(be32(&data, 20), CLUSTER_BITS);
    // Verify backing file name is present.
    let bf_offset = be64(&data, 8) as usize;
    let bf_size = be32(&data, 16) as usize;
    let bf_name = std::str::from_utf8(&data[bf_offset..bf_offset + bf_size]).unwrap();
    assert_eq!(bf_name, backing);

    // Verify L1 table is all zeros (no allocated data).
    let l1_start = CLUSTER_SIZE;
    let l1_end = l1_start + CLUSTER_SIZE;
    assert!(data[l1_start..l1_end].iter().all(|&b| b == 0));

    // Verify refcount block marks 4 clusters as allocated.
    let rc_base = 3 * CLUSTER_SIZE;
    for i in 0..4 {
        let rc = u16::from_be_bytes(data[rc_base + i * 2..rc_base + i * 2 + 2].try_into().unwrap());
        assert_eq!(rc, 1, "cluster {i} refcount");
    }
    // Cluster 4+ should be unallocated.
    assert_eq!(
        u16::from_be_bytes(data[rc_base + 8..rc_base + 10].try_into().unwrap()),
        0
    );
}

#[test]
fn l1_entries_scale_with_size() {
    let vsize: u64 = 100 << 30; // 100 GiB
    let data = create_overlay("/tmp/big.raw", vsize).unwrap();
    let l1_entries = be32(&data, 36);
    // 100 GiB / 512 MiB per L1 entry = 200 entries.
    assert_eq!(l1_entries, 200);
}

#[test]
fn overlay_header_fields_are_exact() {
    let data = create_overlay("/b", 1).unwrap();
    assert_eq!(&data[0..4], b"QFI\xfb");
    assert_eq!(be64(&data, 8), 128);
    assert_eq!(be32(&data, 16), 2);
    assert_eq!(be32(&data, 32), 0);
    assert_eq!(be32(&data, 36), 1);
    assert_eq!(be64(&data, 40), 65536);
    assert_eq!(be64(&data, 48), 2 * 65536);
    assert_eq!(be32(&data, 56), 1);
    assert_eq!(be32(&data, 60), 0);
    assert_eq!(be64(&data, 64), 0);
    assert_eq!(be64(&data, 72), 0);
    assert_eq!(be64(&data, 80), 0);
    assert_eq!(be64(&data, 88), 0);
    assert_eq!(be32(&data, 96), 4);
    assert_eq!(be32(&data, 100), 104);
    // The backing format extension, then the end marker.
    assert_eq!(be32(&data, 104), 0xE279_2ACA);
    assert_eq!(be32(&data, 108), 3);
    assert_eq!(&data[112..120], b"raw\0\0\0\0\0");
    assert_eq!(be32(&data, 120), 0);
    assert_eq!(be32(&data, 124), 0);
    assert_eq!(&data[128..130], b"/b");
    assert!(data[130..65536].iter().all(|&b| b == 0));
    // The refcount table points at cluster 3.
    assert_eq!(be64(&data, 2 * 65536), 3 * 65536);
    assert!(data[2 * 65536 + 8..3 * 65536].iter().all(|&b| b == 0));
    assert_eq!(&data[3 * 65536..3 * 65536 + 8], &[0, 1, 0, 1, 0, 1, 0, 1]);
    assert!(data[3 * 65536 + 8..].iter().all(|&b| b == 0));
}

#[test]
fn l1_entries_round_up() {
    let unit: u64 = 512 << 20;
    assert_eq!(be32(&create_overlay("/b", 0).unwrap(), 36), 0);
    assert_eq!(be32(&create_overlay("/b", 1).unwrap(), 36), 1);
    assert_eq!(be32(&create_overlay("/b", 1 << 25).unwrap(), 36), 1);
    assert_eq!(be32(&create_overlay("/b", unit).unwrap(), 36), 1);
    assert_eq!(be32(&create_overlay("/b", unit + 1).unwrap(), 36), 2);
    assert_eq!(be32(&create_overlay("/b", 3 * unit).unwrap(), 36), 3);
}

#[test]
fn overlay_refuses_what_does_not_fit() {
    let long = "a".repeat(65536 - 128 + 1);
    assert_eq!(create_overlay(&long, 1), Err(OverlayError::BackingNameTooLong));
    let fits = "a".repeat(65536 - 128);
    assert_eq!(create_overlay(&fits, 1).unwrap().len(), 4 * 65536);
    assert_eq!(create_overlay("/b", u64::MAX), Err(OverlayError::VirtualSizeTooLarge));
    let largest = (u32::MAX as u64) << 29;
    assert_eq!(be32(&create_overlay("/b", largest).unwrap(), 36), u32::MAX);
    assert_eq!(create_overlay("/b", largest + 1), Err(OverlayError::VirtualSizeTooLarge));
}

#[test]
fn align8_rounds_up() {
    assert_eq!(align8(0), 0);
    assert_eq!(align8(1), 8);
    assert_eq!(align8(3), 8);
    assert_eq!(align8(8), 8);
    assert_eq!(align8(9), 16);
}

#[test]
fn disk_manager_paths() {
    let dm = DiskManager::new("/var/lib/bux");
    assert_eq!(dm.bases_dir(), "/var/lib/bux/disks/bases");
    assert_eq!(dm.vms_dir(), "/var/lib/bux/disks/vms");
    assert_eq!(dm.base_path("sha256-abc"), "/var/lib/bux/disks/bases/sha256-abc.raw");
    assert_eq!(dm.base_tmp_path("sha256-abc"), "/var/lib/bux/disks/bases/sha256-abc.raw.tmp");
    assert_eq!(dm.vm_disk_path("0123456789ab"), "/var/lib/bux/disks/vms/0123456789ab.qcow2");
    assert_eq!(
        dm.vm_disk_tmp_path("0123456789ab"),
        "/var/lib/bux/disks/vms/0123456789ab.qcow2.tmp"
    );
    let slash = DiskManager::new("/data/");
    assert_eq!(slash.bases_dir(), "/data/disks/bases");
    let relative = DiskManager::new("");
    assert_eq!(relative.vms_dir(), "disks/vms");
    assert!(!dm.has_base("surely-there-is-no-such-base-image"));
}

#[test]
fn list_bases_keeps_raw_files() {
    let names: Vec<String> =
        ["a.raw", "b.raw.tmp", "c", ".raw", "d.qcow2", "e.raw"].iter().map(|s| s.to_string()).collect();
    assert_eq!(list_bases(&names), vec!["a", "", "e"]);
}

use nvme::device::{
    is_nvme_service_name, DiscoveredNode,
    drive_labels, open_mode, split_nul_list, take_until_nul, OpenMode, DevInstance, LogicalDriveCache, NvmeController, NvmeControllerList, PhysicalDisk,
};
use nvme::lifecycle::{
    lifecycle_next, ControllerNodes, DiskNode, Lifecycle, NodeOp, SettleDelays, Step, CR_NOT_DISABLEABLE,
};
use nvme::pci::PciBdf;
use nvme::DiskLatency;

#[test]
fn pci_location_parses_and_formats_back() {
    let p = PciBdf::parse("PCI bus 3, device 0, function 1").unwrap();
    assert_eq!(p, PciBdf::new(0, 3, 0, 1));
    assert_eq!(p.to_location_info(), "PCI bus 3, device 0, function 1");
    let q = PciBdf::new(0, 255, 31, 7);
    assert_eq!(PciBdf::parse(&q.to_location_info()), Some(q));
    let n = PciBdf::new(0, -12, i32::MIN, i32::MAX);
    assert_eq!(n.to_location_info(), "PCI bus -12, device -2147483648, function 2147483647");
    assert_eq!(PciBdf::parse(&n.to_location_info()), Some(n));
    assert_eq!(PciBdf::parse("PCI bus +4, device 01, function 2"), Some(PciBdf::new(0, 4, 1, 2)));
}

#[test]
fn pci_location_rejects() {
    assert_eq!(PciBdf::parse(""), None);
    assert_eq!(PciBdf::parse("PCI bus 3, device 0"), None);
    assert_eq!(PciBdf::parse("PCI bus 3, device 0, function 1 "), None);
    assert_eq!(PciBdf::parse("PCI bus x, device 0, function 1"), None);
    assert_eq!(PciBdf::parse("PCI bus 2147483648, device 0, function 1"), None);
    assert_eq!(PciBdf::parse("PCI bus 99999999999999, device 0, function 1"), None);
    assert_eq!(PciBdf::from_location_info(Some("Root complex")), PciBdf::default());
    assert_eq!(PciBdf::from_location_info(None), PciBdf::new(0, 0, 0, 0));
}

#[test]
fn pci_location_order() {
    let a = PciBdf::new(0, 1, 0, 0);
    let b = PciBdf::new(0, 1, 0, 1);
    let c = PciBdf::new(1, 0, 0, 0);
    assert!(a.is_less(&b) && b.is_less(&c) && a.is_less(&c));
    assert!(!a.is_less(&a));
    assert!(!b.is_less(&a));
}

fn controller(handle: u32, bus: i32) -> NvmeController {
    let mut c = NvmeController::new(DevInstance::new(handle, 0, 0), Some("stornvme"), format!("path{}", handle)).unwrap();
    c.inspect(Some(&format!("PCI bus {}, device 0, function 0", bus)));
    c
}

#[test]
fn controller_needs_nvme_service() {
    assert!(NvmeController::new(DevInstance::new(1, 0, 0), Some("storahci"), String::new()).is_none());
    assert!(NvmeController::new(DevInstance::new(1, 0, 0), None, String::new()).is_none());
    let c = controller(4, 2);
    assert_eq!(c.bdf, PciBdf::new(0, 2, 0, 0));
    assert_eq!(c.path(), "path4");
    assert_eq!(c.dev_type, 1);
}

#[test]
fn empty_registry_finds_nothing() {
    let mut list = NvmeControllerList::new();
    list.enumerate(Vec::new());
    assert!(list.controllers.is_empty());
    assert_eq!(list.by_num(0), None);
    assert_eq!(list.by_bus(0), None);
}

#[test]
fn registry_sorted_and_queried() {
    let mut list = NvmeControllerList::new();
    let mut c5 = controller(50, 5);
    let mut d = PhysicalDisk::new(DevInstance::new(51, 0, 0));
    d.set_device_number(3);
    c5.add_disk(d);
    list.enumerate(vec![c5, controller(10, 1), controller(30, 3)]);
    let buses: Vec<i32> = list.controllers.iter().map(|c| c.bdf.bus).collect();
    assert_eq!(buses, vec![1, 3, 5]);
    assert_eq!(list.by_num(3), Some((2, 0)));
    assert_eq!(list.by_num(4), None);
    assert_eq!(list.by_bus(3), Some(1));
    assert_eq!(list.by_bus(4), None);
}

#[test]
fn disk_inspection_values() {
    let mut d = PhysicalDisk::new(DevInstance::new(7, 0, 0));
    assert_eq!(d.disk_number, -1);
    assert_eq!(d.nsid, -1);
    d.set_device_number(2);
    assert_eq!(d.path(), "\\\\.\\PhysicalDrive2");
    d.set_nsid_from_instance_id("SCSI\\DISK&VEN_NVME&PROD_X\\5&1234&0&000000");
    assert_eq!(d.nsid, 1);
    d.set_nsid_from_instance_id("NOAMPERSAND12");
    assert_eq!(d.nsid, -1);
    d.set_nsid_from_instance_id("A&41");
    assert_eq!(d.nsid, 42);
    let mut cache = LogicalDriveCache::new();
    cache.populate(vec![(2, "C:".to_string()), (1, "D:".to_string()), (2, "E:".to_string())]);
    cache.populate(vec![]);
    d.set_drives(&cache);
    assert_eq!(d.drives, vec!["C:".to_string(), "E:".to_string()]);
    assert!(d.has_boot_volume());
    assert_eq!(cache.get_drives(-1), Vec::<String>::new());
    cache.refresh(vec![]);
    assert!(cache.get_drives(2).is_empty());
}

#[test]
fn trims_at_nul() {
    assert_eq!(take_until_nul(&[65, 66, 0, 67]), vec![65, 66]);
    assert_eq!(take_until_nul(&[65, 66]), vec![65, 66]);
}

#[test]
fn disable_with_only_boot_disk_is_refused() {
    let mut c = controller(100, 1);
    let mut d = PhysicalDisk::new(DevInstance::new(101, 0, 0));
    d.set_device_number(0);
    let mut cache = LogicalDriveCache::new();
    cache.populate(vec![(0, "C:".to_string())]);
    d.set_drives(&cache);
    c.add_disk(d);
    let nodes = ControllerNodes::of(&c, Some(99));
    assert_eq!(
        lifecycle_next(Lifecycle::Disable, &nodes, SettleDelays::standard(), &[]),
        Step::Done(CR_NOT_DISABLEABLE)
    );
}

#[test]
fn disable_sequence() {
    let nodes = ControllerNodes {
        controller: 1,
        disks: vec![DiskNode { handle: 2, boot: false }, DiskNode { handle: 3, boot: false }],
        parent: None,
    };
    let d = SettleDelays::standard();
    assert_eq!(lifecycle_next(Lifecycle::Disable, &nodes, d, &[]), Step::Node { op: NodeOp::Disable(2), settle_ms: 1000 });
    assert_eq!(lifecycle_next(Lifecycle::Disable, &nodes, d, &[0]), Step::Node { op: NodeOp::Disable(3), settle_ms: 1000 });
    assert_eq!(lifecycle_next(Lifecycle::Disable, &nodes, d, &[0, 0]), Step::Node { op: NodeOp::Disable(1), settle_ms: 0 });
    assert_eq!(lifecycle_next(Lifecycle::Disable, &nodes, d, &[0, 0, 0]), Step::Done(0));
    assert_eq!(lifecycle_next(Lifecycle::Disable, &nodes, d, &[0, 5]), Step::Done(5));
    let mixed = ControllerNodes {
        controller: 1,
        disks: vec![DiskNode { handle: 2, boot: true }, DiskNode { handle: 3, boot: false }],
        parent: None,
    };
    assert_eq!(lifecycle_next(Lifecycle::Disable, &mixed, d, &[]), Step::Node { op: NodeOp::Disable(3), settle_ms: 1000 });
    assert_eq!(lifecycle_next(Lifecycle::Disable, &mixed, d, &[0]), Step::Done(CR_NOT_DISABLEABLE));
}

#[test]
fn enable_remove_restart_rescan_sequences() {
    let nodes = ControllerNodes { controller: 1, disks: vec![DiskNode { handle: 2, boot: false }], parent: Some(9) };
    let d = SettleDelays::standard();
    assert_eq!(lifecycle_next(Lifecycle::Enable, &nodes, d, &[]), Step::Node { op: NodeOp::Enable(1), settle_ms: 0 });
    assert_eq!(lifecycle_next(Lifecycle::Enable, &nodes, d, &[0]), Step::Node { op: NodeOp::Enable(2), settle_ms: 500 });
    assert_eq!(lifecycle_next(Lifecycle::Enable, &nodes, d, &[0, 7]), Step::Done(7));
    assert_eq!(lifecycle_next(Lifecycle::Enable, &nodes, d, &[3]), Step::Done(3));
    assert_eq!(lifecycle_next(Lifecycle::Remove, &nodes, d, &[]), Step::Node { op: NodeOp::Remove(2), settle_ms: 1000 });
    assert_eq!(lifecycle_next(Lifecycle::Remove, &nodes, d, &[23]), Step::Node { op: NodeOp::Remove(1), settle_ms: 0 });
    assert_eq!(lifecycle_next(Lifecycle::Remove, &nodes, d, &[23, 0]), Step::Done(0));
    assert_eq!(lifecycle_next(Lifecycle::Restart, &nodes, d, &[0, 0]), Step::Node { op: NodeOp::Restart(1), settle_ms: 500 });
    assert_eq!(lifecycle_next(Lifecycle::Restart, &nodes, d, &[0, 0, 4]), Step::Done(4));
    assert_eq!(lifecycle_next(Lifecycle::Rescan, &nodes, d, &[0, 0]), Step::Node { op: NodeOp::Disable(9), settle_ms: 1000 });
    assert_eq!(lifecycle_next(Lifecycle::Rescan, &nodes, d, &[0, 0, 0]), Step::Node { op: NodeOp::Enable(9), settle_ms: 1000 });
    assert_eq!(lifecycle_next(Lifecycle::Rescan, &nodes, d, &[0, 0, 0, 0]), Step::Done(0));
    let orphan = ControllerNodes { controller: 1, disks: vec![], parent: None };
    assert_eq!(lifecycle_next(Lifecycle::Rescan, &orphan, d, &[13]), Step::Done(0));
}

#[test]
fn latency_record_keeps_size() {
    let mut l = DiskLatency::new(4096);
    let start = l.start;
    l.end();
    let (s, e, size) = l.get();
    assert_eq!(size, 4096);
    assert_eq!(s, start);
    assert!(e >= s);
    let _ = l.elapsed();
}

#[test]
fn splits_interface_lists() {
    let list: Vec<u16> = "ab\0c\0\0".encode_utf16().collect();
    assert_eq!(split_nul_list(&list), vec![vec![97u16, 98], vec![99u16]]);
    assert!(split_nul_list(&[0, 0]).is_empty());
    assert_eq!(split_nul_list(&[120, 0, 0, 121]), vec![vec![120u16], vec![121u16]]);
}

#[test]
fn drive_labels_drop_backslash() {
    assert_eq!(drive_labels(b"C:\\\0D:\\\0\0\0"), vec![b"C:".to_vec(), b"D:".to_vec()]);
    assert!(drive_labels(&[0u8; 8]).is_empty());
    assert_eq!(drive_labels(b"E:"), vec![b"E:".to_vec()]);
}

#[test]
fn open_mode_by_path() {
    assert_eq!(open_mode("out.bin", 'w'), OpenMode { write: true, create_always: true });
    assert_eq!(open_mode("\\\\.\\PhysicalDrive1", 'w'), OpenMode { write: true, create_always: false });
    assert_eq!(open_mode("out.bin", 'r'), OpenMode { write: false, create_always: false });
}

#[test]
fn by_bus_matches_the_bus_number() {
    let mut list = NvmeControllerList::new();
    let mut c = NvmeController::new(DevInstance::new(7, 0, 0), Some("stornvme"), String::new()).unwrap();
    c.inspect(Some("PCI bus 5, device 1, function 0"));
    list.enumerate(vec![c]);
    assert_eq!(list.by_bus(5), Some(0));
    assert_eq!(list.by_bus(1), None);
}

#[test]
fn equal_locations_keep_discovery_order() {
    let mut list = NvmeControllerList::new();
    let mut a = NvmeController::new(DevInstance::new(1, 0, 0), Some("stornvme"), String::new()).unwrap();
    a.inspect(Some("no location"));
    let mut b = NvmeController::new(DevInstance::new(2, 0, 0), Some("stornvme"), String::new()).unwrap();
    b.inspect(None);
    list.enumerate(vec![controller(3, 4), a, b]);
    let handles: Vec<u32> = list.controllers.iter().map(|c| c.devinst.devinst).collect();
    assert_eq!(handles, vec![1, 2, 3]);
}

fn node(handle: u32, service: Option<&str>, location: Option<&str>, disks: Vec<PhysicalDisk>) -> DiscoveredNode {
    DiscoveredNode {
        devinst: DevInstance::new(handle, 0, 0),
        service: service.map(|s| s.to_string()),
        interface_path: format!("if{}", handle),
        location_info: location.map(|s| s.to_string()),
        disks,
    }
}

#[test]
fn registry_from_discovered_nodes() {
    let mut d = PhysicalDisk::new(DevInstance::new(21, 0, 0));
    d.set_device_number(4);
    let nodes = vec![
        node(20, Some("stornvme"), Some("PCI bus 9, device 0, function 0"), vec![d]),
        node(30, Some("storahci"), Some("PCI bus 1, device 0, function 0"), vec![]),
        node(40, None, None, vec![]),
        node(50, Some("stornvme"), Some("PCI bus 2, device 3, function 0"), vec![]),
    ];
    let list = NvmeControllerList::from_discovery(nodes);
    let handles: Vec<u32> = list.controllers.iter().map(|c| c.devinst.devinst).collect();
    assert_eq!(handles, vec![50, 20]);
    assert_eq!(list.controllers[0].bdf, PciBdf::new(0, 2, 3, 0));
    assert_eq!(list.controllers[1].interface_path, "if20");
    assert_eq!(list.by_num(4), Some((1, 0)));
    assert_eq!(list.by_bus(2), Some(0));
    assert!(NvmeControllerList::from_discovery(vec![]).controllers.is_empty());
    assert!(is_nvme_service_name(Some("stornvme")));
    assert!(!is_nvme_service_name(Some("stornvme2")));
    assert!(!is_nvme_service_name(None));
}

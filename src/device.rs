//! The device tree as the enumerator records it: controllers, their disks, and the
//! registry of one enumeration pass. What the OS reports is handed in as plain values.
use vstd::prelude::*;
use vstd::string::{StrSliceExecFns, StringExecFns};

use crate::pci::{chars_at, has_at, fits_i32, int_at, location_lt, push_signed_decimal, read_int, signed_decimal, PciBdf};

verus! {

broadcast use {vstd::seq_lib::to_multiset_insert, vstd::seq_lib::to_multiset_build};

/// Driver service name of the NVMe miniport whose devices are controllers.
pub open spec fn nvme_service() -> Seq<char> {
    seq!['s', 't', 'o', 'r', 'n', 'v', 'm', 'e']
}

/// Label of the volume the system boots from.
pub open spec fn boot_volume() -> Seq<char> {
    seq!['C', ':']
}

/// A device-tree node: its handle and the status and problem codes read when it was
/// looked up. The codes are a snapshot: any operation on the node makes them stale.
#[derive(Clone, Copy, Debug, PartialEq, Eq, Structural)]
pub struct DevInstance {
    pub devinst: u32,
    pub status: u32,
    pub problem: u32,
}

impl DevInstance {
    pub fn new(devinst: u32, status: u32, problem: u32) -> (r: Self)
        ensures
            r == (DevInstance { devinst, status, problem }),
    {
        DevInstance { devinst, status, problem }
    }

    pub fn handle(&self) -> (r: u32)
        ensures
            r == self.devinst,
    {
        self.devinst
    }
}

/// A disk below a controller.
#[derive(Debug)]
pub struct PhysicalDisk {
    pub devinst: DevInstance,
    /// Disk-class device-interface path.
    pub interface_path: String,
    /// Canonical OS path, `\\.\PhysicalDriveN`.
    pub device_path: String,
    /// OS disk number; -1 until it is known.
    pub disk_number: i32,
    /// Namespace id; -1 until it is known.
    pub nsid: i32,
    /// Labels of the volumes mounted from the disk.
    pub drives: Vec<String>,
    pub dev_type: u8,
}

/// `\\.\PhysicalDrive` followed by the disk number.
pub open spec fn physical_drive_path(number: i32) -> Seq<char> {
    seq!['\\', '\\', '.', '\\', 'P', 'h', 'y', 's', 'i', 'c', 'a', 'l', 'D', 'r', 'i', 'v', 'e']
        + signed_decimal(number as int)
}

/// `k` is the index just past the last `&` of `s`, or 0 when `s` has none.
pub open spec fn is_last_component_start(s: Seq<char>, k: int) -> bool {
    &&& 0 <= k <= s.len()
    &&& (k == 0 || s[k - 1] == '&')
    &&& forall|m: int| k <= m < s.len() ==> s[m] != '&'
}

/// The namespace id that an instance id names: its text after the last `&`, read as a
/// 32-bit decimal integer, plus one.
pub open spec fn nsid_of_instance_id(s: Seq<char>, k: int) -> Option<int> {
    match int_at(s, k) {
        Some((v, e)) => if e == s.len() && fits_i32(v) && fits_i32(v + 1) {
            Some(v + 1)
        } else {
            None
        },
        None => None,
    }
}

impl PhysicalDisk {
    /// A disk node not inspected yet.
    pub fn new(devinst: DevInstance) -> (r: Self)
        ensures
            r.devinst == devinst,
            r.interface_path@.len() == 0,
            r.device_path@.len() == 0,
            r.disk_number == -1,
            r.nsid == -1,
            r.drives@.len() == 0,
            r.dev_type == 2,
    {
        PhysicalDisk {
            devinst,
            interface_path: String::new(),
            device_path: String::new(),
            disk_number: -1,
            nsid: -1,
            drives: Vec::new(),
            dev_type: 2,
        }
    }

    pub fn set_interface_path(&mut self, path: String)
        ensures
            final(self).interface_path == path,
            final(self).devinst == old(self).devinst,
            final(self).device_path == old(self).device_path,
            final(self).disk_number == old(self).disk_number,
            final(self).nsid == old(self).nsid,
            final(self).drives == old(self).drives,
    {
        self.interface_path = path;
    }

    /// Records the OS disk number and the canonical path built from it.
    pub fn set_device_number(&mut self, number: i32)
        ensures
            final(self).disk_number == number,
            final(self).device_path@ == physical_drive_path(number),
            final(self).devinst == old(self).devinst,
            final(self).interface_path == old(self).interface_path,
            final(self).nsid == old(self).nsid,
            final(self).drives == old(self).drives,
    {
        proof {
            reveal_strlit("\\\\.\\PhysicalDrive");
        }
        let mut path = String::from_str("\\\\.\\PhysicalDrive");
        push_signed_decimal(&mut path, number);
        assert(path@ =~= physical_drive_path(number));
        self.disk_number = number;
        self.device_path = path;
    }

    /// Records the namespace id named by the instance id; a text that does not end in a
    /// number leaves it unknown (-1).
    pub fn set_nsid_from_instance_id(&mut self, instance_id: &str)
        ensures
            final(self).nsid == (match nsid_of_instance_id(
                instance_id@,
                choose|k: int| is_last_component_start(instance_id@, k),
            ) {
                Some(v) => v,
                None => -1,
            }),
            final(self).devinst == old(self).devinst,
            final(self).interface_path == old(self).interface_path,
            final(self).device_path == old(self).device_path,
            final(self).disk_number == old(self).disk_number,
            final(self).drives == old(self).drives,
    {
        let n = instance_id.unicode_len();
        let k = last_component_start(instance_id, n);
        proof {
            lemma_last_component_unique(instance_id@, k as int);
        }
        self.nsid = match read_int(instance_id, n, k) {
            Some((v, e)) => if e == n && v < i32::MAX as i64 && v >= i32::MIN as i64 {
                (v + 1) as i32
            } else {
                -1
            },
            None => -1,
        };
    }

    /// Records the volumes mounted from the disk, as the drive cache maps them.
    pub fn set_drives(&mut self, cache: &LogicalDriveCache)
        ensures
            final(self).drives@ == matching_drives(cache.entries@, old(self).disk_number),
            final(self).devinst == old(self).devinst,
            final(self).interface_path == old(self).interface_path,
            final(self).device_path == old(self).device_path,
            final(self).disk_number == old(self).disk_number,
            final(self).nsid == old(self).nsid,
    {
        self.drives = cache.get_drives(self.disk_number);
    }

    /// The canonical OS path of the disk.
    pub fn path(&self) -> (r: String)
        ensures
            r == self.device_path,
    {
        self.device_path.clone()
    }

    /// Whether the system boot volume is mounted from this disk.
    pub fn has_boot_volume(&self) -> (r: bool)
        ensures
            r == exists|i: int| 0 <= i < self.drives@.len() && #[trigger] self.drives@[i]@
                == boot_volume(),
    {
        proof {
            reveal_strlit("C:");
        }
        let boot = String::from_str("C:");
        assert(boot@ =~= boot_volume());
        let mut i: usize = 0;
        while i < self.drives.len()
            invariant
                i <= self.drives@.len(),
                boot@ == boot_volume(),
                forall|m: int| 0 <= m < i ==> #[trigger] self.drives@[m]@ != boot_volume(),
            decreases self.drives@.len() - i,
        {
            if self.drives[i] == boot {
                return true;
            }
            i = i + 1;
        }
        false
    }
}

/// Index just past the last `&` of the first `n` chars of `s`.
fn last_component_start(s: &str, n: usize) -> (r: usize)
    requires
        n == s@.len(),
    ensures
        is_last_component_start(s@, r as int),
{
    let mut k = n;
    while k > 0
        invariant
            n == s@.len(),
            k <= n,
            forall|m: int| k <= m < n ==> s@[m] != '&',
        decreases k,
    {
        if s.get_char(k - 1) == '&' {
            return k;
        }
        k = k - 1;
    }
    0
}

proof fn lemma_last_component_unique(s: Seq<char>, k: int)
    requires
        is_last_component_start(s, k),
    ensures
        (choose|j: int| is_last_component_start(s, j)) == k,
{
    let j = choose|j: int| is_last_component_start(s, j);
    assert(is_last_component_start(s, j));
    if j < k {
        assert(s[k - 1] != '&');
    } else if k < j {
        assert(s[j - 1] != '&');
    }
}

/// An NVMe controller and the disks below it.
#[derive(Debug)]
pub struct NvmeController {
    pub devinst: DevInstance,
    /// Storage-port device-interface path; the command channel opens it.
    pub interface_path: String,
    pub bdf: PciBdf,
    pub disks: Vec<PhysicalDisk>,
    pub dev_type: u8,
}

impl NvmeController {
    /// A controller for a device node whose driver service is the NVMe miniport; `None`
    /// for any other service, or none.
    pub fn new(devinst: DevInstance, service: Option<&str>, interface_path: String) -> (r: Option<
        Self,
    >)
        ensures
            (service matches Some(s) && s@ == nvme_service()) ==> (r matches Some(c) && c.devinst
                == devinst && c.interface_path == interface_path && c.bdf == (PciBdf {
                segment: 0,
                bus: 0,
                device: 0,
                function: 0,
            }) && c.disks@.len() == 0 && c.dev_type == 1),
            !(service matches Some(s) && s@ == nvme_service()) ==> r is None,
    {
        match service {
            Some(s) => {
                if is_nvme_service(s) {
                    Some(
                        NvmeController {
                            devinst,
                            interface_path,
                            bdf: PciBdf { segment: 0, bus: 0, device: 0, function: 0 },
                            disks: Vec::new(),
                            dev_type: 1,
                        },
                    )
                } else {
                    None
                }
            },
            None => None,
        }
    }

    /// Resolves the PCI location from the node's location-info text.
    pub fn inspect(&mut self, location_info: Option<&str>)
        ensures
            final(self).bdf == crate::pci::location_of_info(location_info),
            final(self).devinst == old(self).devinst,
            final(self).interface_path == old(self).interface_path,
            final(self).disks == old(self).disks,
            final(self).dev_type == old(self).dev_type,
    {
        self.bdf = PciBdf::from_location_info(location_info);
    }

    /// Adds an inspected disk after the ones found before it.
    pub fn add_disk(&mut self, disk: PhysicalDisk)
        ensures
            final(self).disks@ == old(self).disks@.push(disk),
            final(self).devinst == old(self).devinst,
            final(self).interface_path == old(self).interface_path,
            final(self).bdf == old(self).bdf,
    {
        self.disks.push(disk);
    }

    /// Index of the first disk with OS disk number `driveno`.
    pub fn by_num(&self, driveno: i32) -> (r: Option<usize>)
        ensures
            r matches Some(j) ==> j < self.disks@.len() && self.disks@[j as int].disk_number
                == driveno && forall|m: int| 0 <= m < j ==> #[trigger] self.disks@[m].disk_number
                != driveno,
            r is None ==> forall|m: int| 0 <= m < self.disks@.len() ==> #[trigger] self.disks@[m].disk_number
                != driveno,
    {
        let mut j: usize = 0;
        while j < self.disks.len()
            invariant
                j <= self.disks@.len(),
                forall|m: int| 0 <= m < j ==> #[trigger] self.disks@[m].disk_number != driveno,
            decreases self.disks@.len() - j,
        {
            if self.disks[j].disk_number == driveno {
                return Some(j);
            }
            j = j + 1;
        }
        None
    }

    /// The storage-port interface path that the command channel opens.
    pub fn path(&self) -> (r: String)
        ensures
            r == self.interface_path,
    {
        self.interface_path.clone()
    }
}

fn is_nvme_service(s: &str) -> (r: bool)
    ensures
        r == (s@ == nvme_service()),
{
    let pat = ['s', 't', 'o', 'r', 'n', 'v', 'm', 'e'];
    assert(pat@ =~= nvme_service());
    let n = s.unicode_len();
    if n != 8 {
        return false;
    }
    let mut k: usize = 0;
    while k < 8
        invariant
            n == s@.len() == 8,
            k <= 8,
            pat@ == nvme_service(),
            forall|m: int| 0 <= m < k ==> s@[m] == pat@[m],
        decreases 8 - k,
    {
        if s.get_char(k) != pat[k] {
            return false;
        }
        k = k + 1;
    }
    assert(s@ =~= nvme_service());
    true
}

/// The controllers of one enumeration pass, kept in PCI location order. It is not
/// refreshed when lifecycle operations change the device tree.
#[derive(Debug)]
pub struct NvmeControllerList {
    pub controllers: Vec<NvmeController>,
}

/// What the OS reports of one device node found under the storage-port interface
/// class: the node with its status snapshot, its driver service and location-info texts,
/// its interface path, and its inspected child disks in child order.
#[derive(Debug)]
pub struct DiscoveredNode {
    pub devinst: DevInstance,
    pub service: Option<String>,
    pub interface_path: String,
    pub location_info: Option<String>,
    pub disks: Vec<PhysicalDisk>,
}

/// The node is driven by the NVMe miniport.
pub open spec fn is_nvme_node(n: DiscoveredNode) -> bool {
    n.service matches Some(s) && s@ == nvme_service()
}

/// The controller that an NVMe node becomes.
pub open spec fn controller_of(n: DiscoveredNode) -> NvmeController {
    NvmeController {
        devinst: n.devinst,
        interface_path: n.interface_path,
        bdf: crate::pci::location_of_text(
            match n.location_info {
                Some(s) => Some(s@),
                None => None,
            },
        ),
        disks: n.disks,
        dev_type: 1,
    }
}

/// The controllers of the NVMe nodes among `ns`, in order.
pub open spec fn nvme_controllers_of(ns: Seq<DiscoveredNode>) -> Seq<NvmeController>
    decreases ns.len(),
{
    if ns.len() == 0 {
        Seq::empty()
    } else {
        let k = nvme_controllers_of(ns.drop_last());
        if is_nvme_node(ns.last()) {
            k.push(controller_of(ns.last()))
        } else {
            k
        }
    }
}

/// Where `c` goes in a location-ordered registry: after every controller not after it.
pub open spec fn insert_pos(s: Seq<NvmeController>, c: PciBdf) -> int
    decreases s.len(),
{
    if s.len() == 0 {
        0
    } else if location_lt(c, s.last().bdf) {
        insert_pos(s.drop_last(), c)
    } else {
        s.len() as int
    }
}

/// `s` with `c` inserted after every controller at or before its location.
pub open spec fn insert_in_order(s: Seq<NvmeController>, c: NvmeController) -> Seq<NvmeController> {
    s.insert(insert_pos(s, c.bdf), c)
}

/// `s` with the controllers of `found` inserted one after another, first to last.
pub open spec fn insert_all(s: Seq<NvmeController>, found: Seq<NvmeController>) -> Seq<NvmeController>
    decreases found.len(),
{
    if found.len() == 0 {
        s
    } else {
        insert_in_order(insert_all(s, found.drop_last()), found.last())
    }
}

/// Whether a driver service name is the NVMe miniport's, so that the node's children are
/// worth inspecting.
pub fn is_nvme_service_name(service: Option<&str>) -> (r: bool)
    ensures
        r == (service matches Some(s) && s@ == nvme_service()),
{
    match service {
        Some(s) => is_nvme_service(s),
        None => false,
    }
}

/// No controller comes after one that is later in the list.
pub open spec fn sorted_by_location(cs: Seq<NvmeController>) -> bool {
    forall|i: int, j: int| 0 <= i < j < cs.len() ==> !location_lt(#[trigger] cs[j].bdf, #[trigger] cs[i].bdf)
}

impl NvmeControllerList {
    pub open spec fn wf(&self) -> bool {
        sorted_by_location(self.controllers@)
    }

    /// An empty registry.
    pub fn new() -> (r: Self)
        ensures
            r.wf(),
            r.controllers@.len() == 0,
    {
        NvmeControllerList { controllers: Vec::new() }
    }

    /// Adds the controllers that one enumeration pass found, first to last, each after
    /// every controller at or before its location: the registry stays in location order,
    /// and controllers at the same location keep the order in which they were found.
    pub fn enumerate(&mut self, found: Vec<NvmeController>)
        requires
            old(self).wf(),
        ensures
            final(self).wf(),
            final(self).controllers@ == insert_all(old(self).controllers@, found@),
            final(self).controllers@.to_multiset() == old(self).controllers@.to_multiset().add(
                found@.to_multiset(),
            ),
            found@.len() == 0 ==> final(self).controllers@ == old(self).controllers@,
    {
        let ghost start = self.controllers@;
        let mut rest = found;
        let ghost all = rest@;
        let ghost n = all.len();
        assert(all.subrange(0, 0) =~= Seq::<NvmeController>::empty());
        assert(rest@ =~= all.subrange(0, n as int));
        proof {
            all.subrange(0, 0).to_multiset_ensures();
            assert(all.subrange(0, 0).to_multiset() =~= vstd::multiset::Multiset::empty());
            assert(start.to_multiset().add(all.subrange(0, 0).to_multiset()) =~= start.to_multiset());
        }
        while rest.len() > 0
            invariant
                sorted_by_location(self.controllers@),
                n == all.len(),
                rest@.len() <= n,
                rest@ == all.subrange(n - rest@.len(), n as int),
                self.controllers@ == insert_all(start, all.subrange(0, n - rest@.len())),
                self.controllers@.to_multiset() == start.to_multiset().add(
                    all.subrange(0, n - rest@.len()).to_multiset(),
                ),
            decreases rest@.len(),
        {
            let ghost k = n - rest@.len();
            let ghost before = rest@;
            let c = rest.remove(0);
            assert(c == all[k]);
            assert(rest@ =~= all.subrange(k + 1, n as int));
            let ghost mid = self.controllers@;
            self.insert_sorted(c);
            proof {
                let pre = all.subrange(0, k);
                let pre1 = all.subrange(0, k + 1);
                assert(pre1.drop_last() =~= pre);
                assert(pre1 =~= pre.push(c));
                assert(pre1.to_multiset() =~= pre.to_multiset().insert(c));
                assert(self.controllers@.to_multiset() =~= start.to_multiset().add(pre1.to_multiset()));
            }
        }
        assert(all.subrange(0, n as int) =~= all);
    }

    /// The registry of one enumeration pass, from the device nodes it discovered, in
    /// discovery order: each node whose driver service is the NVMe miniport becomes a
    /// controller at the location its location-info text names, with its disks in the
    /// order given; other nodes are skipped.
    pub fn from_discovery(nodes: Vec<DiscoveredNode>) -> (r: Self)
        ensures
            r.wf(),
            r.controllers@ == insert_all(Seq::empty(), nvme_controllers_of(nodes@)),
    {
        let mut rest = nodes;
        let ghost all = rest@;
        let ghost n = all.len();
        let mut found: Vec<NvmeController> = Vec::new();
        assert(rest@ =~= all.subrange(0, n as int));
        assert(all.subrange(0, 0) =~= Seq::<DiscoveredNode>::empty());
        while rest.len() > 0
            invariant
                n == all.len(),
                rest@.len() <= n,
                rest@ == all.subrange(n - rest@.len(), n as int),
                found@ == nvme_controllers_of(all.subrange(0, n - rest@.len())),
            decreases rest@.len(),
        {
            let ghost k = n - rest@.len();
            let node = rest.remove(0);
            assert(node == all[k]);
            assert(rest@ =~= all.subrange(k + 1, n as int));
            let ghost g = node;
            let DiscoveredNode { devinst, service, interface_path, location_info, disks } = node;
            let svc: Option<&str> = match &service {
                Some(s) => Some(s.as_str()),
                None => None,
            };
            let made = NvmeController::new(devinst, svc, interface_path);
            match made {
                Some(mut c) => {
                    let loc: Option<&str> = match &location_info {
                        Some(s) => Some(s.as_str()),
                        None => None,
                    };
                    c.bdf = PciBdf::from_location_info(loc);
                    c.disks = disks;
                    assert(c == controller_of(g));
                    found.push(c);
                },
                None => {},
            }
            proof {
                let pre1 = all.subrange(0, k + 1);
                assert(pre1.drop_last() =~= all.subrange(0, k));
                assert(pre1.last() == g);
            }
        }
        assert(all.subrange(0, n as int) =~= all);
        let mut list = NvmeControllerList::new();
        assert(list.controllers@ =~= Seq::<NvmeController>::empty());
        assert(found@ == nvme_controllers_of(all));
        list.enumerate(found);
        assert(list.controllers@ == insert_all(Seq::empty(), nvme_controllers_of(all)));
        list
    }

    /// Inserts `c` after every controller at or before its location.
    fn insert_sorted(&mut self, c: NvmeController)
        requires
            sorted_by_location(old(self).controllers@),
        ensures
            sorted_by_location(final(self).controllers@),
            final(self).controllers@ == insert_in_order(old(self).controllers@, c),
            final(self).controllers@.to_multiset() == old(self).controllers@.to_multiset().insert(c),
    {
        let mut p = self.controllers.len();
        assert(self.controllers@.subrange(0, p as int) =~= self.controllers@);
        while p > 0 && c.bdf.is_less(&self.controllers[p - 1].bdf)
            invariant
                p <= self.controllers@.len(),
                sorted_by_location(self.controllers@),
                self.controllers@ == old(self).controllers@,
                insert_pos(self.controllers@, c.bdf) == insert_pos(self.controllers@.subrange(0, p as int), c.bdf),
                forall|m: int| p <= m < self.controllers@.len() ==> location_lt(
                    c.bdf,
                    #[trigger] self.controllers@[m].bdf,
                ),
            decreases p,
        {
            let ghost s = self.controllers@;
            assert(s.subrange(0, p as int).drop_last() =~= s.subrange(0, p - 1));
            assert(s.subrange(0, p as int).last() == s[p - 1]);
            p = p - 1;
        }
        proof {
            let s = self.controllers@;
            assert(insert_pos(s, c.bdf) == p) by {
                if p > 0 {
                    assert(s.subrange(0, p as int).last() == s[p - 1]);
                } else {
                    assert(s.subrange(0, 0) =~= Seq::<NvmeController>::empty());
                }
            }
            assert forall|m: int| 0 <= m < p implies !location_lt(c.bdf, #[trigger] s[m].bdf) by {
                if location_lt(c.bdf, s[m].bdf) {
                    crate::pci::lemma_location_order(s[m].bdf, s[p - 1].bdf, c.bdf);
                    crate::pci::lemma_location_order(c.bdf, s[m].bdf, s[p - 1].bdf);
                    crate::pci::lemma_location_order(s[m].bdf, s[p - 1].bdf, s[m].bdf);
                    if s[m].bdf != s[p - 1].bdf {
                        assert(!location_lt(s[p - 1].bdf, s[m].bdf));
                    }
                }
            }
        }
        let ghost before = self.controllers@;
        self.controllers.insert(p, c);
        proof {
            let s = self.controllers@;
            assert(s == before.insert(p as int, c));
            assert forall|i: int, j: int| 0 <= i < j < s.len() implies !location_lt(
                #[trigger] s[j].bdf,
                #[trigger] s[i].bdf,
            ) by {
                if i < p && j == p {
                } else if i == p && j > p {
                    crate::pci::lemma_location_order(c.bdf, before[j - 1].bdf, c.bdf);
                } else if i < p && j > p {
                    assert(s[j] == before[j - 1]);
                } else if j < p {
                } else {
                    assert(s[i] == before[i - 1] && s[j] == before[j - 1]);
                }
            }
        }
    }

    /// The controller and disk index of the first disk with OS disk number `driveno`.
    pub fn by_num(&self, driveno: i32) -> (r: Option<(usize, usize)>)
        ensures
            r matches Some((i, j)) ==> i < self.controllers@.len() && j < self.controllers@[i as int].disks@.len()
                && self.controllers@[i as int].disks@[j as int].disk_number == driveno && (forall|a: int, b: int|
                0 <= a < i && 0 <= b < self.controllers@[a].disks@.len()
                    ==> #[trigger] self.controllers@[a].disks@[b].disk_number != driveno) && (forall|b: int|
                0 <= b < j ==> #[trigger] self.controllers@[i as int].disks@[b].disk_number != driveno),
            r is None ==> forall|i: int, j: int|
                0 <= i < self.controllers@.len() && 0 <= j < self.controllers@[i].disks@.len()
                    ==> #[trigger] self.controllers@[i].disks@[j].disk_number != driveno,
    {
        let mut i: usize = 0;
        while i < self.controllers.len()
            invariant
                i <= self.controllers@.len(),
                forall|a: int, b: int|
                    0 <= a < i && 0 <= b < self.controllers@[a].disks@.len()
                        ==> #[trigger] self.controllers@[a].disks@[b].disk_number != driveno,
            decreases self.controllers@.len() - i,
        {
            match self.controllers[i].by_num(driveno) {
                Some(j) => {
                    return Some((i, j));
                },
                None => {},
            }
            i = i + 1;
        }
        None
    }

    /// Index of the first controller, in registry order, on PCI bus `bus`.
    pub fn by_bus(&self, bus: i32) -> (r: Option<usize>)
        ensures
            r matches Some(i) ==> i < self.controllers@.len() && self.controllers@[i as int].bdf.bus == bus
                && forall|m: int| 0 <= m < i ==> #[trigger] self.controllers@[m].bdf.bus != bus,
            r is None ==> forall|m: int| 0 <= m < self.controllers@.len() ==> #[trigger] self.controllers@[m].bdf.bus != bus,
    {
        let mut i: usize = 0;
        while i < self.controllers.len()
            invariant
                i <= self.controllers@.len(),
                forall|m: int| 0 <= m < i ==> #[trigger] self.controllers@[m].bdf.bus != bus,
            decreases self.controllers@.len() - i,
        {
            if self.controllers[i].bdf.bus == bus {
                return Some(i);
            }
            i = i + 1;
        }
        None
    }
}

/// The labels of the drives whose disk number is `number`, in cache order; none for a
/// negative number.
pub open spec fn matching_drives(entries: Seq<(i32, String)>, number: i32) -> Seq<String>
    decreases entries.len(),
{
    if entries.len() == 0 {
        Seq::empty()
    } else {
        let rest = matching_drives(entries.drop_last(), number);
        if number >= 0 && entries.last().0 == number {
            rest.push(entries.last().1)
        } else {
            rest
        }
    }
}

/// Logical drives and the disk each lives on, built at most once per fill. It is owned
/// and passed by its user; `refresh` replaces what it holds.
#[derive(Debug)]
pub struct LogicalDriveCache {
    pub entries: Vec<(i32, String)>,
    pub populated: bool,
}

impl LogicalDriveCache {
    pub fn new() -> (r: Self)
        ensures
            r.entries@.len() == 0,
            !r.populated,
    {
        LogicalDriveCache { entries: Vec::new(), populated: false }
    }

    /// Fills the cache, unless it was filled before.
    pub fn populate(&mut self, entries: Vec<(i32, String)>)
        ensures
            old(self).populated ==> final(self).entries == old(self).entries,
            !old(self).populated ==> final(self).entries == entries,
            final(self).populated,
    {
        if !self.populated {
            self.entries = entries;
            self.populated = true;
        }
    }

    /// Replaces what the cache holds.
    pub fn refresh(&mut self, entries: Vec<(i32, String)>)
        ensures
            final(self).entries == entries,
            final(self).populated,
    {
        self.entries = entries;
        self.populated = true;
    }

    /// Labels of the drives on disk `number`.
    pub fn get_drives(&self, number: i32) -> (r: Vec<String>)
        ensures
            r@ == matching_drives(self.entries@, number),
    {
        let mut r: Vec<String> = Vec::new();
        let mut i: usize = 0;
        while i < self.entries.len()
            invariant
                i <= self.entries@.len(),
                r@ == matching_drives(self.entries@.subrange(0, i as int), number),
            decreases self.entries@.len() - i,
        {
            let e = &self.entries[i];
            if number >= 0 && e.0 == number {
                r.push(e.1.clone());
            }
            i = i + 1;
            assert(self.entries@.subrange(0, i as int).drop_last() =~= self.entries@.subrange(
                0,
                i - 1,
            ));
        }
        assert(self.entries@.subrange(0, i as int) =~= self.entries@);
        r
    }
}

/// Trims a property value at its first NUL.
pub fn take_until_nul(s: &[u16]) -> (r: Vec<u16>)
    ensures
        r@.len() <= s@.len(),
        r@ == s@.subrange(0, r@.len() as int),
        forall|m: int| 0 <= m < r@.len() ==> #[trigger] r@[m] != 0,
        r@.len() == s@.len() || s@[r@.len() as int] == 0,
{
    let mut r: Vec<u16> = Vec::new();
    let mut i: usize = 0;
    while i < s.len()
        invariant
            i <= s@.len(),
            r@ == s@.subrange(0, i as int),
            forall|m: int| 0 <= m < i ==> #[trigger] s@[m] != 0,
        decreases s@.len() - i,
    {
        if s[i] == 0 {
            return r;
        }
        r.push(s[i]);
        i = i + 1;
        assert(r@ =~= s@.subrange(0, i as int));
    }
    r
}

/// Items and the unfinished item after reading `s` left to right, a separator closing
/// the current item.
pub open spec fn split_state<T>(s: Seq<T>, sep: T) -> (Seq<Seq<T>>, Seq<T>)
    decreases s.len(),
{
    if s.len() == 0 {
        (Seq::empty(), Seq::empty())
    } else {
        let (items, cur) = split_state(s.drop_last(), sep);
        if s.last() == sep {
            if cur.len() > 0 {
                (items.push(cur), Seq::empty())
            } else {
                (items, Seq::empty())
            }
        } else {
            (items, cur.push(s.last()))
        }
    }
}

/// The non-empty items of a separator-delimited list, in order.
pub open spec fn nonempty_items<T>(s: Seq<T>, sep: T) -> Seq<Seq<T>> {
    let (items, cur) = split_state(s, sep);
    if cur.len() > 0 {
        items.push(cur)
    } else {
        items
    }
}

/// Splits an OS multi-string (UTF-16 items separated by NULs, the list ended by an empty
/// item) into its non-empty items.
pub fn split_nul_list(s: &[u16]) -> (r: Vec<Vec<u16>>)
    ensures
        r.deep_view() == nonempty_items(s@, 0u16),
{
    let mut items: Vec<Vec<u16>> = Vec::new();
    let mut cur: Vec<u16> = Vec::new();
    let mut i: usize = 0;
    while i < s.len()
        invariant
            i <= s@.len(),
            (items.deep_view(), cur@) == split_state(s@.subrange(0, i as int), 0u16),
        decreases s@.len() - i,
    {
        let ghost pre = s@.subrange(0, i as int);
        assert(s@.subrange(0, i + 1).drop_last() =~= pre);
        if s[i] == 0 {
            if cur.len() > 0 {
                let ghost before = items.deep_view();
                let done = cur;
                assert(done.deep_view() =~= done@);
                items.push(done);
                cur = Vec::new();
                assert(items.deep_view() =~= before.push(done@));
            }
        } else {
            cur.push(s[i]);
        }
        i = i + 1;
    }
    assert(s@.subrange(0, i as int) =~= s@);
    if cur.len() > 0 {
        let ghost before = items.deep_view();
        let last = cur;
        assert(last.deep_view() =~= last@);
        items.push(last);
        assert(items.deep_view() =~= before.push(last@));
    }
    items
}

/// `s` without one trailing backslash.
pub open spec fn strip_backslash(s: Seq<u8>) -> Seq<u8> {
    if s.len() > 0 && s.last() == 0x5c {
        s.drop_last()
    } else {
        s
    }
}

/// The drive labels of a logical-drive-strings buffer (`"C:\\0D:\\0\0"`): its non-empty
/// NUL-separated items, each without its trailing backslash.
pub fn drive_labels(s: &[u8]) -> (r: Vec<Vec<u8>>)
    ensures
        r.deep_view() == nonempty_items(s@, 0u8).map_values(|v: Seq<u8>| strip_backslash(v)),
{
    let mut items: Vec<Vec<u8>> = Vec::new();
    let mut cur: Vec<u8> = Vec::new();
    let mut i: usize = 0;
    while i < s.len()
        invariant
            i <= s@.len(),
            (items.deep_view(), cur@) == ({
                let st = split_state(s@.subrange(0, i as int), 0u8);
                (st.0.map_values(|v: Seq<u8>| strip_backslash(v)), st.1)
            }),
        decreases s@.len() - i,
    {
        let ghost pre = s@.subrange(0, i as int);
        assert(s@.subrange(0, i + 1).drop_last() =~= pre);
        if s[i] == 0 {
            if cur.len() > 0 {
                let ghost before = items.deep_view();
                let ghost st = split_state(pre, 0u8);
                let done = strip_trailing_backslash(cur);
                assert(done.deep_view() =~= done@);
                items.push(done);
                cur = Vec::new();
                assert(items.deep_view() =~= before.push(done@));
                assert(st.0.push(st.1).map_values(|v: Seq<u8>| strip_backslash(v)) =~= st.0.map_values(
                    |v: Seq<u8>| strip_backslash(v),
                ).push(strip_backslash(st.1)));
            }
        } else {
            cur.push(s[i]);
        }
        i = i + 1;
    }
    assert(s@.subrange(0, i as int) =~= s@);
    if cur.len() > 0 {
        let ghost before = items.deep_view();
        let ghost st = split_state(s@, 0u8);
        let last = strip_trailing_backslash(cur);
        assert(last.deep_view() =~= last@);
        items.push(last);
        assert(items.deep_view() =~= before.push(last@));
        assert(st.0.push(st.1).map_values(|v: Seq<u8>| strip_backslash(v)) =~= st.0.map_values(
            |v: Seq<u8>| strip_backslash(v),
        ).push(strip_backslash(st.1)));
    }
    items
}

fn strip_trailing_backslash(v: Vec<u8>) -> (r: Vec<u8>)
    ensures
        r@ == strip_backslash(v@),
{
    let mut v = v;
    if v.len() > 0 && v[v.len() - 1] == 0x5c {
        v.pop();
    }
    v
}

/// The `\\.\` prefix of a path in the device namespace.
pub open spec fn device_namespace_prefix() -> Seq<char> {
    seq!['\\', '\\', '.', '\\']
}

/// `s` holds `pat` somewhere.
pub open spec fn contains_at_some(s: Seq<char>, pat: Seq<char>) -> bool {
    exists|i: int| has_at(s, i, pat)
}

/// How a path is opened: read-only or read-write, and whether a file is created
/// (replacing any old one) or must exist.
#[derive(Clone, Copy, Debug, PartialEq, Eq, Structural)]
pub struct OpenMode {
    pub write: bool,
    pub create_always: bool,
}

/// The open mode for access `rw` (`'w'` to write, anything else to read): writing to a
/// plain file creates it afresh; a device path (one holding `\\.\`) is always opened
/// as it exists.
pub fn open_mode(path: &str, rw: char) -> (r: OpenMode)
    ensures
        r.write == (rw == 'w'),
        r.create_always == (rw == 'w' && !contains_at_some(path@, device_namespace_prefix())),
{
    let n = path.unicode_len();
    let pat = ['\\', '\\', '.', '\\'];
    assert(pat@ =~= device_namespace_prefix());
    let mut found = false;
    let mut i: usize = 0;
    while i < n
        invariant
            n == path@.len(),
            i <= n,
            pat@ == device_namespace_prefix(),
            found == exists|j: int| 0 <= j < i && has_at(path@, j, pat@),
        decreases n - i,
    {
        if chars_at(path, n, i, pat.as_slice()) {
            found = true;
        }
        i = i + 1;
    }
    assert(found == contains_at_some(path@, device_namespace_prefix())) by {
        if contains_at_some(path@, device_namespace_prefix()) {
            let j = choose|j: int| has_at(path@, j, device_namespace_prefix());
            assert(0 <= j < n);
        }
    }
    OpenMode { write: rw == 'w', create_always: rw == 'w' && !found }
}

} // verus!

//! Lifecycle operations on a controller and its disks, as a decision function: given
//! what was done so far, the next node operation to perform, or the result. The caller
//! performs each operation, waits the settle time, and hands back its result code.
use vstd::prelude::*;

use crate::device::NvmeController;

verus! {

/// Result code of a device-tree operation that succeeded.
pub const CR_SUCCESS: u32 = 0;

/// Result code of a disable that was refused because the node may not be disabled.
pub const CR_NOT_DISABLEABLE: u32 = 40;

/// One operation on one device-tree node, by handle.
#[derive(Clone, Copy, Debug, PartialEq, Eq, Structural)]
pub enum NodeOp {
    Enable(u32),
    Disable(u32),
    /// Query-and-remove of the node's subtree.
    Remove(u32),
    /// Bring the node back to the ready state.
    Restart(u32),
}

/// What to do next.
#[derive(Clone, Copy, Debug, PartialEq, Eq, Structural)]
pub enum Step {
    /// Perform `op`, then wait `settle_ms` before asking again with its result appended.
    Node { op: NodeOp, settle_ms: u64 },
    /// The operation is over, with this result code.
    Done(u32),
}

#[derive(Clone, Copy, Debug, PartialEq, Eq, Structural)]
pub enum Lifecycle {
    /// Enable the controller, then each disk.
    Enable,
    /// Disable each disk, then the controller; a disk holding the boot volume is refused
    /// and the controller is then left alone.
    Disable,
    /// Remove each disk, whatever comes of it, then the controller.
    Remove,
    /// Remove, then bring the controller back to ready.
    Restart,
    /// Remove, then bounce the parent bridge (disable, enable) so the link is redetected.
    Rescan,
}

/// Settle times after each kind of step, in milliseconds.
#[derive(Clone, Copy, Debug, PartialEq, Eq, Structural)]
pub struct SettleDelays {
    pub enable_disk_ms: u64,
    pub disable_disk_ms: u64,
    pub remove_disk_ms: u64,
    pub restart_ms: u64,
    pub bridge_ms: u64,
}

impl SettleDelays {
    /// The settle times the device tree is known to need.
    pub fn standard() -> (r: Self)
        ensures
            r == (SettleDelays {
                enable_disk_ms: 500,
                disable_disk_ms: 1000,
                remove_disk_ms: 1000,
                restart_ms: 500,
                bridge_ms: 1000,
            }),
    {
        SettleDelays {
            enable_disk_ms: 500,
            disable_disk_ms: 1000,
            remove_disk_ms: 1000,
            restart_ms: 500,
            bridge_ms: 1000,
        }
    }
}

/// A disk node and whether the boot volume is mounted from it.
#[derive(Clone, Copy, Debug, PartialEq, Eq, Structural)]
pub struct DiskNode {
    pub handle: u32,
    pub boot: bool,
}

/// The nodes a lifecycle operation touches.
#[derive(Debug)]
pub struct ControllerNodes {
    pub controller: u32,
    pub disks: Vec<DiskNode>,
    /// The PCI bridge above the controller, when there is one.
    pub parent: Option<u32>,
}

impl ControllerNodes {
    /// The nodes of a controller and its disks, with `parent` the bridge above it.
    pub fn of(ctrl: &NvmeController, parent: Option<u32>) -> (r: Self)
        ensures
            r.controller == ctrl.devinst.devinst,
            r.parent == parent,
            r.disks@.len() == ctrl.disks@.len(),
            forall|i: int| 0 <= i < r.disks@.len() ==> (#[trigger] r.disks@[i]).handle
                == ctrl.disks@[i].devinst.devinst && r.disks@[i].boot == (exists|m: int|
                0 <= m < ctrl.disks@[i].drives@.len() && #[trigger] ctrl.disks@[i].drives@[m]@
                == crate::device::boot_volume()),
    {
        let mut disks: Vec<DiskNode> = Vec::new();
        let mut i: usize = 0;
        while i < ctrl.disks.len()
            invariant
                i <= ctrl.disks@.len(),
                disks@.len() == i,
                forall|k: int| 0 <= k < i ==> (#[trigger] disks@[k]).handle
                    == ctrl.disks@[k].devinst.devinst && disks@[k].boot == (exists|m: int|
                    0 <= m < ctrl.disks@[k].drives@.len() && #[trigger] ctrl.disks@[k].drives@[m]@
                    == crate::device::boot_volume()),
            decreases ctrl.disks@.len() - i,
        {
            let d = &ctrl.disks[i];
            disks.push(DiskNode { handle: d.devinst.devinst, boot: d.has_boot_volume() });
            i = i + 1;
        }
        ControllerNodes { controller: ctrl.devinst.devinst, disks, parent }
    }
}

/// The disable sequence from disk `k` on, with `used` results consumed and `acc` the
/// result codes so far or-ed together.
pub open spec fn disable_scan(
    ctrl: u32,
    disks: Seq<DiskNode>,
    d: SettleDelays,
    results: Seq<u32>,
    k: int,
    used: int,
    acc: u32,
) -> Step
    decreases disks.len() - k,
{
    if k < 0 || k >= disks.len() {
        if acc != CR_SUCCESS {
            Step::Done(acc)
        } else if 0 <= used < results.len() {
            Step::Done(results[used])
        } else {
            Step::Node { op: NodeOp::Disable(ctrl), settle_ms: 0 }
        }
    } else if disks[k].boot {
        disable_scan(ctrl, disks, d, results, k + 1, used, acc | CR_NOT_DISABLEABLE)
    } else if 0 <= used < results.len() {
        disable_scan(ctrl, disks, d, results, k + 1, used + 1, acc | results[used])
    } else {
        Step::Node { op: NodeOp::Disable(disks[k].handle), settle_ms: d.disable_disk_ms }
    }
}

/// The remove part shared by remove, restart and rescan: each disk, then the controller.
pub open spec fn remove_part(ctrl: u32, disks: Seq<DiskNode>, d: SettleDelays, r: int) -> Step {
    if r < disks.len() {
        Step::Node { op: NodeOp::Remove(disks[r].handle), settle_ms: d.remove_disk_ms }
    } else {
        Step::Node { op: NodeOp::Remove(ctrl), settle_ms: 0 }
    }
}

/// The next step of lifecycle operation `kind` after the node operations that returned
/// `results`, in order.
pub open spec fn next_step(
    kind: Lifecycle,
    ctrl: u32,
    disks: Seq<DiskNode>,
    parent: Option<u32>,
    d: SettleDelays,
    results: Seq<u32>,
) -> Step {
    let r = results.len() as int;
    let m = disks.len() as int;
    match kind {
        Lifecycle::Enable => if r == 0 {
            Step::Node { op: NodeOp::Enable(ctrl), settle_ms: 0 }
        } else if results[0] != CR_SUCCESS {
            Step::Done(results[0])
        } else if r - 1 < m {
            Step::Node { op: NodeOp::Enable(disks[r - 1].handle), settle_ms: d.enable_disk_ms }
        } else {
            Step::Done(results[r - 1])
        },
        Lifecycle::Disable => disable_scan(ctrl, disks, d, results, 0, 0, CR_SUCCESS),
        Lifecycle::Remove => if r <= m {
            remove_part(ctrl, disks, d, r)
        } else {
            Step::Done(results[m])
        },
        Lifecycle::Restart => if r <= m {
            remove_part(ctrl, disks, d, r)
        } else if r == m + 1 {
            Step::Node { op: NodeOp::Restart(ctrl), settle_ms: d.restart_ms }
        } else {
            Step::Done(results[m + 1])
        },
        Lifecycle::Rescan => if r <= m {
            remove_part(ctrl, disks, d, r)
        } else {
            match parent {
                None => Step::Done(CR_SUCCESS),
                Some(p) => if r == m + 1 {
                    Step::Node { op: NodeOp::Disable(p), settle_ms: d.bridge_ms }
                } else if r == m + 2 {
                    Step::Node { op: NodeOp::Enable(p), settle_ms: d.bridge_ms }
                } else {
                    Step::Done(results[m + 2])
                },
            }
        },
    }
}

/// Decides the next step of lifecycle operation `kind` on `nodes`, given the result codes
/// of the node operations performed so far, in the order they were asked for.
pub fn lifecycle_next(kind: Lifecycle, nodes: &ControllerNodes, d: SettleDelays, results: &[u32]) -> (r:
    Step)
    ensures
        r == next_step(kind, nodes.controller, nodes.disks@, nodes.parent, d, results@),
{
    let r = results.len();
    let m = nodes.disks.len();
    let ctrl = nodes.controller;
    match kind {
        Lifecycle::Enable => {
            if r == 0 {
                Step::Node { op: NodeOp::Enable(ctrl), settle_ms: 0 }
            } else if results[0] != CR_SUCCESS {
                Step::Done(results[0])
            } else if r - 1 < m {
                Step::Node { op: NodeOp::Enable(nodes.disks[r - 1].handle), settle_ms: d.enable_disk_ms }
            } else {
                Step::Done(results[r - 1])
            }
        },
        Lifecycle::Disable => disable_next(nodes, d, results),
        Lifecycle::Remove => {
            if r <= m {
                remove_step(nodes, d, r)
            } else {
                Step::Done(results[m])
            }
        },
        Lifecycle::Restart => {
            if r <= m {
                remove_step(nodes, d, r)
            } else if r == m + 1 {
                Step::Node { op: NodeOp::Restart(ctrl), settle_ms: d.restart_ms }
            } else {
                Step::Done(results[m + 1])
            }
        },
        Lifecycle::Rescan => {
            if r <= m {
                remove_step(nodes, d, r)
            } else {
                match nodes.parent {
                    None => Step::Done(CR_SUCCESS),
                    Some(p) => {
                        if r == m + 1 {
                            Step::Node { op: NodeOp::Disable(p), settle_ms: d.bridge_ms }
                        } else if r == m + 2 {
                            Step::Node { op: NodeOp::Enable(p), settle_ms: d.bridge_ms }
                        } else {
                            Step::Done(results[m + 2])
                        }
                    },
                }
            }
        },
    }
}

fn remove_step(nodes: &ControllerNodes, d: SettleDelays, r: usize) -> (s: Step)
    requires
        r <= nodes.disks@.len(),
    ensures
        s == remove_part(nodes.controller, nodes.disks@, d, r as int),
{
    if r < nodes.disks.len() {
        Step::Node { op: NodeOp::Remove(nodes.disks[r].handle), settle_ms: d.remove_disk_ms }
    } else {
        Step::Node { op: NodeOp::Remove(nodes.controller), settle_ms: 0 }
    }
}

fn disable_next(nodes: &ControllerNodes, d: SettleDelays, results: &[u32]) -> (s: Step)
    ensures
        s == disable_scan(nodes.controller, nodes.disks@, d, results@, 0, 0, CR_SUCCESS),
{
    let ghost ctrl = nodes.controller;
    let ghost disks = nodes.disks@;
    let mut k: usize = 0;
    let mut used: usize = 0;
    let mut acc: u32 = CR_SUCCESS;
    while k < nodes.disks.len()
        invariant
            ctrl == nodes.controller,
            disks == nodes.disks@,
            k <= disks.len(),
            used <= k,
            used <= results@.len(),
            disable_scan(ctrl, disks, d, results@, 0, 0, CR_SUCCESS) == disable_scan(
                ctrl,
                disks,
                d,
                results@,
                k as int,
                used as int,
                acc,
            ),
        decreases disks.len() - k,
    {
        let disk = nodes.disks[k];
        if disk.boot {
            acc = acc | CR_NOT_DISABLEABLE;
        } else if used < results.len() {
            acc = acc | results[used];
            used = used + 1;
        } else {
            return Step::Node { op: NodeOp::Disable(disk.handle), settle_ms: d.disable_disk_ms };
        }
        k = k + 1;
    }
    if acc != CR_SUCCESS {
        Step::Done(acc)
    } else if used < results.len() {
        Step::Done(results[used])
    } else {
        Step::Node { op: NodeOp::Disable(nodes.controller), settle_ms: 0 }
    }
}

proof fn lemma_or_keeps_nonzero(a: u32, b: u32)
    ensures
        a != 0 ==> (a | b) != 0,
        (a | CR_NOT_DISABLEABLE) != 0,
{
    assert(a != 0 ==> (a | b) != 0) by (bit_vector);
    assert((a | 40u32) != 0) by (bit_vector);
}

proof fn lemma_scan_spares_controller(
    ctrl: u32,
    disks: Seq<DiskNode>,
    d: SettleDelays,
    results: Seq<u32>,
    k: int,
    used: int,
    acc: u32,
)
    requires
        0 <= k,
        forall|i: int| 0 <= i < disks.len() ==> (#[trigger] disks[i]).handle != ctrl,
        acc != CR_SUCCESS || exists|i: int| k <= i < disks.len() && (#[trigger] disks[i]).boot,
    ensures
        !(disable_scan(ctrl, disks, d, results, k, used, acc) matches Step::Node {
            op: NodeOp::Disable(h),
            ..
        } && h == ctrl),
    decreases disks.len() - k,
{
    if k < disks.len() {
        lemma_or_keeps_nonzero(acc, if 0 <= used < results.len() {
            results[used]
        } else {
            0
        });
        if disks[k].boot {
            lemma_scan_spares_controller(ctrl, disks, d, results, k + 1, used, acc | CR_NOT_DISABLEABLE);
        } else if 0 <= used < results.len() {
            if acc == CR_SUCCESS {
                let i = choose|i: int| k <= i < disks.len() && (#[trigger] disks[i]).boot;
                assert(i != k);
            }
            lemma_scan_spares_controller(ctrl, disks, d, results, k + 1, used + 1, acc | results[used]);
        }
    }
}

/// Disabling a controller one of whose disks holds the boot volume never disables the
/// controller node, whatever the other disks' operations return: the refusal propagates.
pub proof fn lemma_boot_disk_spares_controller(
    ctrl: u32,
    disks: Seq<DiskNode>,
    parent: Option<u32>,
    d: SettleDelays,
    results: Seq<u32>,
)
    requires
        exists|i: int| 0 <= i < disks.len() && (#[trigger] disks[i]).boot,
        forall|i: int| 0 <= i < disks.len() ==> (#[trigger] disks[i]).handle != ctrl,
    ensures
        !(next_step(Lifecycle::Disable, ctrl, disks, parent, d, results) matches Step::Node {
            op: NodeOp::Disable(h),
            ..
        } && h == ctrl),
{
    lemma_scan_spares_controller(ctrl, disks, d, results, 0, 0, CR_SUCCESS);
}

/// Disabling a controller whose only disk holds the boot volume is refused at once:
/// the first step is the refusal, so no node is operated on.
pub proof fn lemma_boot_only_disk_refused(
    ctrl: u32,
    disk: u32,
    parent: Option<u32>,
    d: SettleDelays,
)
    ensures
        next_step(
            Lifecycle::Disable,
            ctrl,
            seq![DiskNode { handle: disk, boot: true }],
            parent,
            d,
            Seq::empty(),
        ) == Step::Done(CR_NOT_DISABLEABLE),
{
    let disks = seq![DiskNode { handle: disk, boot: true }];
    assert((0u32 | 40u32) == 40u32) by (bit_vector);
    assert(disable_scan(ctrl, disks, d, Seq::empty(), 1, 0, CR_NOT_DISABLEABLE) == Step::Done(
        CR_NOT_DISABLEABLE,
    ));
}

proof fn lemma_or_zero(a: u32, b: u32)
    ensures
        (a | b) == 0 <==> (a == 0 && b == 0),
{
    assert((a | b) == 0 <==> (a == 0 && b == 0)) by (bit_vector);
}

/// Enabling a controller enables the controller first; if that fails the operation ends
/// with its code. Once it has succeeded, each disk is enabled in order, and the result is
/// the code of the last disk enabled.
pub proof fn lemma_enable_sequence(
    ctrl: u32,
    disks: Seq<DiskNode>,
    parent: Option<u32>,
    d: SettleDelays,
    results: Seq<u32>,
)
    ensures
        results.len() == 0 ==> next_step(Lifecycle::Enable, ctrl, disks, parent, d, results)
            == (Step::Node { op: NodeOp::Enable(ctrl), settle_ms: 0 }),
        results.len() > 0 && results[0] != CR_SUCCESS ==> next_step(
            Lifecycle::Enable,
            ctrl,
            disks,
            parent,
            d,
            results,
        ) == Step::Done(results[0]),
        0 < results.len() <= disks.len() && results[0] == CR_SUCCESS ==> next_step(
            Lifecycle::Enable,
            ctrl,
            disks,
            parent,
            d,
            results,
        ) == (Step::Node {
            op: NodeOp::Enable(disks[results.len() - 1].handle),
            settle_ms: d.enable_disk_ms,
        }),
        results.len() == disks.len() + 1 && results[0] == CR_SUCCESS ==> next_step(
            Lifecycle::Enable,
            ctrl,
            disks,
            parent,
            d,
            results,
        ) == Step::Done(results[disks.len() as int]),
{
}

/// Removing a controller removes each disk in order, whatever each removal returns, then
/// the controller, and the result is the controller's own code.
pub proof fn lemma_remove_sequence(
    ctrl: u32,
    disks: Seq<DiskNode>,
    parent: Option<u32>,
    d: SettleDelays,
    results: Seq<u32>,
)
    ensures
        results.len() < disks.len() ==> next_step(Lifecycle::Remove, ctrl, disks, parent, d, results)
            == (Step::Node {
            op: NodeOp::Remove(disks[results.len() as int].handle),
            settle_ms: d.remove_disk_ms,
        }),
        results.len() == disks.len() ==> next_step(Lifecycle::Remove, ctrl, disks, parent, d, results)
            == (Step::Node { op: NodeOp::Remove(ctrl), settle_ms: 0 }),
        results.len() == disks.len() + 1 ==> next_step(
            Lifecycle::Remove,
            ctrl,
            disks,
            parent,
            d,
            results,
        ) == Step::Done(results[disks.len() as int]),
{
}

proof fn lemma_scan_reaches_controller(
    ctrl: u32,
    disks: Seq<DiskNode>,
    d: SettleDelays,
    results: Seq<u32>,
    k: int,
    acc: u32,
)
    requires
        0 <= k <= disks.len(),
        k <= results.len(),
        forall|i: int| 0 <= i < disks.len() ==> (#[trigger] disks[i]).handle != ctrl,
    ensures
        (disable_scan(ctrl, disks, d, results, k, k, acc) matches Step::Node {
            op: NodeOp::Disable(h),
            ..
        } && h == ctrl) ==> {
            &&& acc == CR_SUCCESS
            &&& results.len() == disks.len()
            &&& forall|i: int| k <= i < disks.len() ==> !(#[trigger] disks[i]).boot
            &&& forall|i: int| k <= i < results.len() ==> #[trigger] results[i] == CR_SUCCESS
        },
    decreases disks.len() - k,
{
    if k < disks.len() {
        if disks[k].boot {
            lemma_or_keeps_nonzero(acc, 0);
            lemma_scan_spares_controller(ctrl, disks, d, results, k + 1, k, acc | CR_NOT_DISABLEABLE);
        } else if k < results.len() {
            lemma_or_zero(acc, results[k]);
            lemma_scan_reaches_controller(ctrl, disks, d, results, k + 1, acc | results[k]);
        }
    }
}

proof fn lemma_scan_all_succeeded(
    ctrl: u32,
    disks: Seq<DiskNode>,
    d: SettleDelays,
    results: Seq<u32>,
    k: int,
)
    requires
        0 <= k <= disks.len(),
        results.len() == disks.len(),
        forall|i: int| 0 <= i < disks.len() ==> !(#[trigger] disks[i]).boot,
        forall|i: int| 0 <= i < results.len() ==> #[trigger] results[i] == CR_SUCCESS,
    ensures
        disable_scan(ctrl, disks, d, results, k, k, CR_SUCCESS) == (Step::Node {
            op: NodeOp::Disable(ctrl),
            settle_ms: 0,
        }),
    decreases disks.len() - k,
{
    if k < disks.len() {
        lemma_or_zero(0, results[k]);
        assert(!disks[k].boot && results[k] == 0);
        lemma_scan_all_succeeded(ctrl, disks, d, results, k + 1);
    }
}

/// Disabling a controller touches the controller node only once every disk has been
/// disabled with success, no disk holding the boot volume; and it does then.
pub proof fn lemma_disable_controller_after_disks(
    ctrl: u32,
    disks: Seq<DiskNode>,
    parent: Option<u32>,
    d: SettleDelays,
    results: Seq<u32>,
)
    requires
        forall|i: int| 0 <= i < disks.len() ==> (#[trigger] disks[i]).handle != ctrl,
    ensures
        (next_step(Lifecycle::Disable, ctrl, disks, parent, d, results) matches Step::Node {
            op: NodeOp::Disable(h),
            ..
        } && h == ctrl) <==> {
            &&& results.len() == disks.len()
            &&& forall|i: int| 0 <= i < disks.len() ==> !(#[trigger] disks[i]).boot
            &&& forall|i: int| 0 <= i < results.len() ==> #[trigger] results[i] == CR_SUCCESS
        },
{
    lemma_scan_reaches_controller(ctrl, disks, d, results, 0, CR_SUCCESS);
    if results.len() == disks.len() && (forall|i: int| 0 <= i < disks.len() ==> !(#[trigger] disks[i]).boot)
        && (forall|i: int| 0 <= i < results.len() ==> #[trigger] results[i] == CR_SUCCESS) {
        lemma_scan_all_succeeded(ctrl, disks, d, results, 0);
    }
}

} // verus!

//! The device-object graph of two drivers, held as an arena of plain records.
//!
//! A kernel device object is reached through raw pointers. Here each one is a
//! [`DeviceNode`] in a [`DeviceGraph`], and a link is the arena index of the
//! node it leads to. A node can only link to nodes that were added before it,
//! so every chain is finite and a walk along it ends.

use vstd::prelude::*;
use crate::kernel::{ULONG_PTR, POINTER_WIDTH};

verus! {

/// One device object, as far as discovery reads it.
#[derive(Debug)]
pub struct DeviceNode {
    /// Where the device object lies in kernel memory. Never null.
    pub address: ULONG_PTR,
    /// The next device created by the same driver.
    pub next: Option<usize>,
    /// The device attached on top of this one.
    pub attached: Option<usize>,
    /// Lower bound of the private region.
    pub region_start: ULONG_PTR,
    /// Upper bound of the private region.
    pub extension_end: ULONG_PTR,
    /// The pointer-words between the two bounds, lowest address first.
    pub region: Vec<ULONG_PTR>,
}

/// Whether the bounds of a private region are unusable: a null bound, or an
/// upper bound below the lower one.
pub open spec fn region_degenerate(region_start: ULONG_PTR, extension_end: ULONG_PTR) -> bool {
    region_start == 0 || extension_end == 0 || extension_end < region_start
}

/// The size of a private region in pointer-words; a degenerate region has none.
pub open spec fn region_words(region_start: ULONG_PTR, extension_end: ULONG_PTR) -> nat {
    if region_degenerate(region_start, extension_end) {
        0
    } else {
        ((extension_end - region_start) / POINTER_WIDTH as int) as nat
    }
}

/// What a graph holds: its nodes in the order they were added, and the first
/// device of the class driver and of the hardware-interface driver.
pub struct GraphView {
    pub nodes: Seq<DeviceNode>,
    pub class_head: Option<usize>,
    pub interface_head: Option<usize>,
}

/// Whether a link from node `from` is absent or leads to an earlier node.
pub open spec fn link_ok(link: Option<usize>, from: int) -> bool {
    link matches Some(to) ==> to < from
}

/// Whether a record may stand at index `at` of an arena.
pub open spec fn node_ok(node: DeviceNode, at: int) -> bool {
    &&& node.address != 0
    &&& link_ok(node.next, at)
    &&& link_ok(node.attached, at)
    &&& node.region@.len() == region_words(node.region_start, node.extension_end)
}

impl GraphView {
    /// Every node is valid where it stands, and both heads are nodes of the arena.
    pub open spec fn well_formed(self) -> bool {
        &&& forall|i: int| 0 <= i < self.nodes.len() ==> node_ok(#[trigger] self.nodes[i], i)
        &&& link_ok(self.class_head, self.nodes.len() as int)
        &&& link_ok(self.interface_head, self.nodes.len() as int)
    }
}

/// A snapshot of the devices of a class driver and of a hardware-interface driver.
pub struct DeviceGraph {
    nodes: Vec<DeviceNode>,
    class_head: Option<usize>,
    interface_head: Option<usize>,
}

impl View for DeviceGraph {
    type V = GraphView;

    closed spec fn view(&self) -> GraphView {
        GraphView {
            nodes: self.nodes@,
            class_head: self.class_head,
            interface_head: self.interface_head,
        }
    }
}

/// Computes the size of a private region in pointer-words.
pub fn region_word_count(region_start: ULONG_PTR, extension_end: ULONG_PTR) -> (count: u64)
    ensures
        count == region_words(region_start, extension_end),
{
    if region_start == 0 || extension_end == 0 || extension_end < region_start {
        0
    } else {
        (extension_end - region_start) / POINTER_WIDTH
    }
}

impl DeviceGraph {
    /// Every graph is well formed: the constructors below admit no other.
    #[verifier::type_invariant]
    spec fn inv(&self) -> bool {
        self@.well_formed()
    }

    /// An empty graph: no device, and neither driver has a first device.
    pub fn new() -> (graph: Self)
        ensures
            graph@.nodes.len() == 0,
            graph@.class_head is None,
            graph@.interface_head is None,
            graph@.well_formed(),
    {
        DeviceGraph { nodes: Vec::new(), class_head: None, interface_head: None }
    }

    /// The number of devices in the graph.
    pub fn len(&self) -> (n: usize)
        ensures
            n == self@.nodes.len(),
    {
        self.nodes.len()
    }

    /// Adds a device and returns its index, or returns the graph unchanged and
    /// `None` where the record cannot stand at the end of the arena.
    pub fn add(self, node: DeviceNode) -> (out: (Self, Option<usize>))
        ensures
            node_ok(node, self@.nodes.len() as int) ==> {
                &&& out.1 == Some(self@.nodes.len() as usize)
                &&& out.0@ == (GraphView { nodes: self@.nodes.push(node), ..self@ })
            },
            !node_ok(node, self@.nodes.len() as int) ==> out.1 is None && out.0@ == self@,
            out.0@.well_formed(),
    {
        proof {
            use_type_invariant(&self);
        }
        let at = self.nodes.len();
        let next_ok = match node.next {
            Some(to) => to < at,
            None => true,
        };
        let attached_ok = match node.attached {
            Some(to) => to < at,
            None => true,
        };
        let words = region_word_count(node.region_start, node.extension_end);
        if node.address != 0 && next_ok && attached_ok && node.region.len() as u64 == words {
            let ghost before = self@;
            let DeviceGraph { mut nodes, class_head, interface_head } = self;
            nodes.push(node);
            let graph = DeviceGraph { nodes, class_head, interface_head };
            assert(graph@.nodes =~= before.nodes.push(node));
            (graph, Some(at))
        } else {
            (self, None)
        }
    }

    /// Names the class driver's first device. A head that is no node of the
    /// graph leaves the graph unchanged and gives `false`.
    pub fn with_class_head(self, head: Option<usize>) -> (out: (Self, bool))
        ensures
            out.1 == link_ok(head, self@.nodes.len() as int),
            out.1 ==> out.0@ == (GraphView { class_head: head, ..self@ }),
            !out.1 ==> out.0@ == self@,
            out.0@.well_formed(),
    {
        proof {
            use_type_invariant(&self);
        }
        let ok = match head {
            Some(to) => to < self.nodes.len(),
            None => true,
        };
        if ok {
            let DeviceGraph { nodes, class_head: _, interface_head } = self;
            (DeviceGraph { nodes, class_head: head, interface_head }, true)
        } else {
            (self, false)
        }
    }

    /// Names the hardware-interface driver's first device. A head that is no
    /// node of the graph leaves the graph unchanged and gives `false`.
    pub fn with_interface_head(self, head: Option<usize>) -> (out: (Self, bool))
        ensures
            out.1 == link_ok(head, self@.nodes.len() as int),
            out.1 ==> out.0@ == (GraphView { interface_head: head, ..self@ }),
            !out.1 ==> out.0@ == self@,
            out.0@.well_formed(),
    {
        proof {
            use_type_invariant(&self);
        }
        let ok = match head {
            Some(to) => to < self.nodes.len(),
            None => true,
        };
        if ok {
            let DeviceGraph { nodes, class_head, interface_head: _ } = self;
            (DeviceGraph { nodes, class_head, interface_head: head }, true)
        } else {
            (self, false)
        }
    }

    /// The class driver's first device.
    pub fn class_head(&self) -> (head: Option<usize>)
        ensures
            head == self@.class_head,
            self@.well_formed(),
    {
        proof {
            use_type_invariant(self);
        }
        self.class_head
    }

    /// The hardware-interface driver's first device.
    pub fn interface_head(&self) -> (head: Option<usize>)
        ensures
            head == self@.interface_head,
            self@.well_formed(),
    {
        proof {
            use_type_invariant(self);
        }
        self.interface_head
    }

    /// The device at an index of the graph.
    pub(crate) fn at(&self, index: usize) -> (node: &DeviceNode)
        requires
            index < self@.nodes.len(),
        ensures
            *node == self@.nodes[index as int],
            node_ok(*node, index as int),
    {
        proof {
            use_type_invariant(self);
        }
        &self.nodes[index]
    }

    /// The device at an index, or `None` where the graph has no such device.
    pub fn node(&self, index: usize) -> (node: Option<&DeviceNode>)
        ensures
            index < self@.nodes.len() ==> node == Some(&self@.nodes[index as int]) && node_ok(
                self@.nodes[index as int],
                index as int,
            ),
            index >= self@.nodes.len() ==> node is None,
    {
        proof {
            use_type_invariant(self);
        }
        if index < self.nodes.len() {
            Some(&self.nodes[index])
        } else {
            None
        }
    }
}

} // verus!

//! Callback discovery: from a snapshot of the device graph to a resident binding.

use vstd::prelude::*;
use crate::kernel::ULONG_PTR;
use crate::graph::{DeviceGraph, DeviceNode, GraphView, link_ok, region_degenerate};
use crate::scan::{
    first_match, is_first_match, lemma_first_match_exists, lemma_first_match_is, matches_at,
    scan_region,
};

verus! {

/// The discovered state: the device that injected input is addressed to, and the
/// class driver's service callback.
///
/// Both are addresses. A null `target_device` means that no device was selected;
/// an empty `callback` means that discovery has not run or found nothing, which is
/// an ordinary state and no error.
#[derive(Clone, Copy, Debug, PartialEq, Eq, Structural)]
pub struct ResidentBinding {
    pub target_device: ULONG_PTR,
    pub callback: Option<ULONG_PTR>,
}

/// The addresses of the devices on a driver's chain, in the order in which a
/// walk from `start` along `next` meets them. The walk ends at the device without
/// a successor. It would also end at a link that does not lead to an earlier
/// node, which a well-formed graph does not have.
pub open spec fn device_chain(nodes: Seq<DeviceNode>, start: Option<usize>) -> Seq<ULONG_PTR>
    decreases
        (match start {
            Some(at) => at + 1,
            None => 0,
        }),
{
    match start {
        Some(at) => {
            if at < nodes.len() && link_ok(nodes[at as int].next, at as int) {
                seq![nodes[at as int].address] + device_chain(nodes, nodes[at as int].next)
            } else {
                Seq::empty()
            }
        },
        None => Seq::empty(),
    }
}

/// Whether the region holds an accepted pair for the device at position `at` of
/// the chain.
pub open spec fn selects(
    devices: Seq<ULONG_PTR>,
    words: Seq<ULONG_PTR>,
    class_driver: ULONG_PTR,
    at: int,
) -> bool {
    0 <= at < devices.len() && first_match(words, devices[at], class_driver) is Some
}

/// Whether position `at` is the first of the chain for which the region holds an
/// accepted pair.
pub open spec fn is_first_selected(
    devices: Seq<ULONG_PTR>,
    words: Seq<ULONG_PTR>,
    class_driver: ULONG_PTR,
    at: int,
) -> bool {
    &&& selects(devices, words, class_driver, at)
    &&& forall|earlier: int|
        0 <= earlier < at ==> !#[trigger] selects(devices, words, class_driver, earlier)
}

/// The first position of the chain for which the region holds an accepted pair.
pub open spec fn first_selected(
    devices: Seq<ULONG_PTR>,
    words: Seq<ULONG_PTR>,
    class_driver: ULONG_PTR,
) -> Option<int> {
    if exists|at: int| is_first_selected(devices, words, class_driver, at) {
        Some(choose|at: int| is_first_selected(devices, words, class_driver, at))
    } else {
        None
    }
}

/// The target that stands where no callback is found: the one already selected,
/// else the last device of the class driver's chain, else none.
pub open spec fn fallback_target(selected: ULONG_PTR, devices: Seq<ULONG_PTR>) -> ULONG_PTR {
    if selected != 0 {
        selected
    } else if devices.len() > 0 {
        devices.last()
    } else {
        0
    }
}

/// What discovery hands back.
#[derive(Clone, Copy, Debug, PartialEq, Eq, Structural)]
pub struct Discovery {
    /// The binding after discovery.
    pub binding: ResidentBinding,
    /// Whether the scan was left out because the region's bounds are degenerate.
    /// This is to be reported, and is no failure.
    pub region_skipped: bool,
}

/// The result of discovery on a graph.
///
/// A binding that already holds a callback is final and stays as it is.
/// Otherwise the private region of the hardware-interface driver's first device
/// is scanned once for each device of the class driver's chain, in chain order.
/// The first device for which a pair is accepted becomes the target, and the
/// second word of its first accepted pair the callback. Where there is nothing to
/// scan, or no pair is accepted for any device, the callback stays empty and the
/// target is the fallback.
///
/// Of the hardware-interface driver's devices only the first is examined: the
/// devices attached to it are not.
pub open spec fn discovered(
    graph: GraphView,
    class_driver: ULONG_PTR,
    prior: ResidentBinding,
) -> Discovery {
    let devices = device_chain(graph.nodes, graph.class_head);
    let unhooked = ResidentBinding {
        target_device: fallback_target(prior.target_device, devices),
        callback: None,
    };
    if prior.callback is Some {
        Discovery { binding: prior, region_skipped: false }
    } else {
        match graph.interface_head {
            None => Discovery { binding: unhooked, region_skipped: false },
            Some(head) => {
                let device = graph.nodes[head as int];
                let words = device.region@;
                if region_degenerate(device.region_start, device.extension_end) {
                    Discovery { binding: unhooked, region_skipped: devices.len() > 0 }
                } else {
                    match first_selected(devices, words, class_driver) {
                        Some(at) => Discovery {
                            binding: ResidentBinding {
                                target_device: devices[at],
                                callback: Some(
                                    words[first_match(words, devices[at], class_driver).unwrap()
                                        + 1],
                                ),
                            },
                            region_skipped: false,
                        },
                        None => Discovery { binding: unhooked, region_skipped: false },
                    }
                }
            },
        }
    }
}

/// The first selected position is the only one that `is_first_selected` holds of.
pub proof fn lemma_first_selected_is(
    devices: Seq<ULONG_PTR>,
    words: Seq<ULONG_PTR>,
    class_driver: ULONG_PTR,
    at: int,
)
    requires
        is_first_selected(devices, words, class_driver, at),
    ensures
        first_selected(devices, words, class_driver) == Some(at),
{
    let chosen = choose|k: int| is_first_selected(devices, words, class_driver, k);
    assert(is_first_selected(devices, words, class_driver, chosen));
    if chosen < at {
        assert(!selects(devices, words, class_driver, chosen));
    }
    if at < chosen {
        assert(!selects(devices, words, class_driver, at));
    }
}

/// A chain none of whose devices is selected has no first selected position.
pub proof fn lemma_first_selected_none(
    devices: Seq<ULONG_PTR>,
    words: Seq<ULONG_PTR>,
    class_driver: ULONG_PTR,
)
    requires
        forall|at: int| !#[trigger] selects(devices, words, class_driver, at),
    ensures
        first_selected(devices, words, class_driver) is None,
{
}

/// Where any device of the chain is selected, there is a first selected one, and
/// it stands no later.
pub proof fn lemma_first_selected_exists(
    devices: Seq<ULONG_PTR>,
    words: Seq<ULONG_PTR>,
    class_driver: ULONG_PTR,
    at: int,
) -> (first: int)
    requires
        selects(devices, words, class_driver, at),
    ensures
        first <= at,
        is_first_selected(devices, words, class_driver, first),
        first_selected(devices, words, class_driver) == Some(first),
    decreases at,
{
    if exists|earlier: int| 0 <= earlier < at && selects(devices, words, class_driver, earlier) {
        let earlier = choose|earlier: int|
            0 <= earlier < at && selects(devices, words, class_driver, earlier);
        lemma_first_selected_exists(devices, words, class_driver, earlier)
    } else {
        lemma_first_selected_is(devices, words, class_driver, at);
        at
    }
}

/// One step of a walk: the chain from a device is that device, then the chain
/// from its successor.
proof fn lemma_chain_step(nodes: Seq<DeviceNode>, at: usize)
    requires
        at < nodes.len(),
        link_ok(nodes[at as int].next, at as int),
    ensures
        device_chain(nodes, Some(at)) == seq![nodes[at as int].address] + device_chain(
            nodes,
            nodes[at as int].next,
        ),
{
}

/// The last device of the class driver's chain, or null where the chain is empty.
pub fn chain_tail(graph: &DeviceGraph) -> (tail: ULONG_PTR)
    ensures
        tail == fallback_target(0, device_chain(graph@.nodes, graph@.class_head)),
{
    let ghost nodes = graph@.nodes;
    let ghost full = device_chain(nodes, graph@.class_head);
    let ghost mut seen: int = 0;
    let mut tail: ULONG_PTR = 0;
    let mut cursor = graph.class_head();
    while cursor.is_some()
        invariant
            nodes == graph@.nodes,
            graph@.well_formed(),
            full == device_chain(nodes, graph@.class_head),
            link_ok(cursor, nodes.len() as int),
            0 <= seen <= full.len(),
            device_chain(nodes, cursor) =~= full.skip(seen),
            tail == (if seen > 0 {
                full[seen - 1]
            } else {
                0
            }),
        decreases
            (match cursor {
                Some(at) => at + 1,
                None => 0,
            }),
    {
        let at = cursor.unwrap();
        let device = graph.at(at);
        proof {
            lemma_chain_step(nodes, at);
            assert(full.skip(seen)[0] == device.address);
            assert(full.skip(seen).skip(1) =~= full.skip(seen + 1));
            assert(device_chain(nodes, device.next) =~= full.skip(seen).skip(1));
            seen = seen + 1;
        }
        tail = device.address;
        cursor = device.next;
    }
    proof {
        assert(full.skip(seen).len() == 0);
    }
    tail
}

/// Runs discovery on a snapshot of the device graph.
///
/// `class_driver` is the address of the class driver object, against which the
/// heuristic compares. `prior` is the binding as it stands before discovery.
pub fn discover(
    graph: &DeviceGraph,
    class_driver: ULONG_PTR,
    prior: ResidentBinding,
) -> (out: Discovery)
    ensures
        out == discovered(graph@, class_driver, prior),
{
    if prior.callback.is_some() {
        return Discovery { binding: prior, region_skipped: false };
    }
    let ghost nodes = graph@.nodes;
    let ghost full = device_chain(nodes, graph@.class_head);
    let mut target = prior.target_device;
    let mut callback: Option<ULONG_PTR> = None;
    let mut region_skipped = false;
    // Of the hardware-interface driver's devices only the first is examined. The
    // devices attached to it are left alone; that may not be what was meant, and
    // it is what is done.
    match graph.interface_head() {
        Some(head) => {
            let device = graph.at(head);
            let ghost words = device.region@;
            let degenerate = device.region_start == 0 || device.extension_end == 0
                || device.extension_end < device.region_start;
            let ghost mut seen: int = 0;
            let mut cursor = graph.class_head();
            while cursor.is_some() && callback.is_none()
                invariant
                    nodes == graph@.nodes,
                    graph@.well_formed(),
                    full == device_chain(nodes, graph@.class_head),
                    head < nodes.len(),
                    *device == nodes[head as int],
                    words == device.region@,
                    degenerate == region_degenerate(device.region_start, device.extension_end),
                    link_ok(cursor, nodes.len() as int),
                    0 <= seen <= full.len(),
                    device_chain(nodes, cursor) =~= full.skip(seen),
                    region_skipped == (degenerate && seen > 0),
                    callback is None ==> forall|earlier: int|
                        0 <= earlier < seen ==> !#[trigger] selects(
                            full,
                            words,
                            class_driver,
                            earlier,
                        ),
                    callback is None ==> target == (if prior.target_device != 0 {
                        prior.target_device
                    } else if seen > 0 && seen == full.len() {
                        full.last()
                    } else {
                        0
                    }),
                    callback matches Some(found) ==> {
                        &&& !degenerate
                        &&& seen > 0
                        &&& is_first_selected(full, words, class_driver, seen - 1)
                        &&& target == full[seen - 1]
                        &&& target != 0
                        &&& found == words[first_match(
                            words,
                            full[seen - 1],
                            class_driver,
                        ).unwrap() + 1]
                    },
                decreases
                    (match cursor {
                        Some(at) => at + 1,
                        None => 0,
                    }),
            {
                let at = cursor.unwrap();
                let class_device = graph.at(at);
                proof {
                    lemma_chain_step(nodes, at);
                    assert(full.skip(seen)[0] == class_device.address);
                    assert(full.skip(seen).skip(1) =~= full.skip(seen + 1));
                    assert(device_chain(nodes, class_device.next) =~= full.skip(seen).skip(1));
                    if class_device.next is None {
                        assert(full.skip(seen + 1).len() == 0);
                    } else {
                        lemma_chain_step(nodes, class_device.next.unwrap());
                        assert(full.skip(seen + 1).len() > 0);
                    }
                }
                // The last device of the chain is the target for want of a better one.
                if class_device.next.is_none() && target == 0 {
                    target = class_device.address;
                }
                if degenerate {
                    region_skipped = true;
                } else {
                    let scan = scan_region(&device.region, class_device.address, class_driver);
                    match scan.found {
                        Some(pair) => {
                            assert(matches_at(
                                words,
                                pair as int,
                                class_device.address,
                                class_driver,
                            ));
                            assert(pair + 1 < device.region.len());
                            callback = Some(device.region[pair + 1]);
                            target = class_device.address;
                        },
                        None => {},
                    }
                }
                proof {
                    assert(selects(full, words, class_driver, seen) <==> callback is Some);
                    seen = seen + 1;
                }
                cursor = class_device.next;
            }
            proof {
                if callback is None {
                    assert(full.skip(seen).len() == 0);
                    lemma_first_selected_none(full, words, class_driver);
                } else {
                    lemma_first_selected_is(full, words, class_driver, seen - 1);
                }
            }
        },
        None => {},
    }
    // Nothing was selected on the way: the last device of the chain, if there is one.
    if target == 0 {
        target = chain_tail(graph);
    }
    Discovery { binding: ResidentBinding { target_device: target, callback }, region_skipped }
}

/// Whether discovery has a region to scan: the hardware-interface driver has a
/// first device, and the bounds of its private region are usable.
pub open spec fn scannable(graph: GraphView) -> bool {
    graph.interface_head matches Some(head) && !region_degenerate(
        graph.nodes[head as int].region_start,
        graph.nodes[head as int].extension_end,
    )
}

/// The words that discovery scans.
pub open spec fn scanned_words(graph: GraphView) -> Seq<ULONG_PTR> {
    graph.nodes[graph.interface_head.unwrap() as int].region@
}

/// Write-once: a binding that holds a callback is never changed by discovery.
pub proof fn law_binding_write_once(
    graph: GraphView,
    class_driver: ULONG_PTR,
    prior: ResidentBinding,
)
    requires
        prior.callback is Some,
    ensures
        discovered(graph, class_driver, prior).binding == prior,
{
}

/// First match wins: where `device` is the first device of the class driver's
/// chain for which the region holds an accepted pair, and `pair` is where the
/// first such pair starts, discovery selects that device as the target and the
/// second word of that pair as the callback.
pub proof fn law_first_match_selected(
    graph: GraphView,
    class_driver: ULONG_PTR,
    prior: ResidentBinding,
    device: int,
    pair: int,
)
    requires
        prior.callback is None,
        scannable(graph),
        is_first_selected(
            device_chain(graph.nodes, graph.class_head),
            scanned_words(graph),
            class_driver,
            device,
        ),
        is_first_match(
            scanned_words(graph),
            pair,
            device_chain(graph.nodes, graph.class_head)[device],
            class_driver,
        ),
    ensures
        discovered(graph, class_driver, prior) == (Discovery {
            binding: ResidentBinding {
                target_device: device_chain(graph.nodes, graph.class_head)[device],
                callback: Some(scanned_words(graph)[pair + 1]),
            },
            region_skipped: false,
        }),
{
    let devices = device_chain(graph.nodes, graph.class_head);
    let words = scanned_words(graph);
    lemma_first_selected_is(devices, words, class_driver, device);
    lemma_first_match_is(words, pair, devices[device], class_driver);
}

/// A pattern is never missed: where the region holds, anywhere, the address of
/// some device of the class driver's chain followed by a word above the class
/// driver, discovery yields a callback. The target is then a device of the chain,
/// and target and callback are adjacent words of the region that the heuristic
/// accepts.
pub proof fn law_pattern_found(
    graph: GraphView,
    class_driver: ULONG_PTR,
    prior: ResidentBinding,
    device: int,
    pair: int,
)
    requires
        prior.callback is None,
        scannable(graph),
        0 <= device < device_chain(graph.nodes, graph.class_head).len(),
        matches_at(
            scanned_words(graph),
            pair,
            device_chain(graph.nodes, graph.class_head)[device],
            class_driver,
        ),
    ensures
        discovered(graph, class_driver, prior).binding.callback is Some,
        device_chain(graph.nodes, graph.class_head).contains(
            discovered(graph, class_driver, prior).binding.target_device,
        ),
        exists|at: int|
            matches_at(
                scanned_words(graph),
                at,
                discovered(graph, class_driver, prior).binding.target_device,
                class_driver,
            ) && discovered(graph, class_driver, prior).binding.callback == Some(
                #[trigger] scanned_words(graph)[at + 1],
            ),
{
    let devices = device_chain(graph.nodes, graph.class_head);
    let words = scanned_words(graph);
    let _ = lemma_first_match_exists(words, pair, devices[device], class_driver);
    let first = lemma_first_selected_exists(devices, words, class_driver, device);
    let at = first_match(words, devices[first], class_driver).unwrap();
    let witness = choose|k: int| is_first_match(words, k, devices[first], class_driver);
    assert(is_first_match(words, witness, devices[first], class_driver));
    assert(at == witness);
    assert(matches_at(words, at, devices[first], class_driver));
    assert(devices[first] == discovered(graph, class_driver, prior).binding.target_device);
}

/// Fallback selection: where there is nothing to scan, or the region holds no
/// accepted pair for any device of the class driver's chain, the callback stays
/// empty. A target that was selected before is kept; otherwise the target is the
/// last device of the chain, and null where the chain is empty.
pub proof fn law_fallback_selection(
    graph: GraphView,
    class_driver: ULONG_PTR,
    prior: ResidentBinding,
)
    requires
        prior.callback is None,
        scannable(graph) ==> forall|device: int|
            !#[trigger] selects(
                device_chain(graph.nodes, graph.class_head),
                scanned_words(graph),
                class_driver,
                device,
            ),
    ensures
        discovered(graph, class_driver, prior).binding.callback is None,
        discovered(graph, class_driver, prior).binding.target_device == fallback_target(
            prior.target_device,
            device_chain(graph.nodes, graph.class_head),
        ),
        prior.target_device == 0 && device_chain(graph.nodes, graph.class_head).len() > 0
            ==> discovered(graph, class_driver, prior).binding.target_device == device_chain(
            graph.nodes,
            graph.class_head,
        ).last(),
{
    if scannable(graph) {
        lemma_first_selected_none(
            device_chain(graph.nodes, graph.class_head),
            scanned_words(graph),
            class_driver,
        );
    }
}

/// Only the first device of the hardware-interface driver is examined. Two
/// graphs with the same class chain whose first hardware-interface devices have
/// the same region give the same result, whatever is attached to those devices
/// and whatever else the graphs hold.
pub proof fn law_only_first_device_examined(
    one: GraphView,
    other: GraphView,
    class_driver: ULONG_PTR,
    prior: ResidentBinding,
)
    requires
        device_chain(one.nodes, one.class_head) == device_chain(other.nodes, other.class_head),
        one.interface_head is Some <==> other.interface_head is Some,
        one.interface_head is Some ==> {
            let first = one.nodes[one.interface_head.unwrap() as int];
            let second = other.nodes[other.interface_head.unwrap() as int];
            &&& first.region_start == second.region_start
            &&& first.extension_end == second.extension_end
            &&& first.region@ == second.region@
        },
    ensures
        discovered(one, class_driver, prior) == discovered(other, class_driver, prior),
{
}

/// In a well-formed graph the chain from a device is that device followed by the
/// chain from its successor, so the chain ends at the device without a successor.
pub proof fn law_chain_follows_next(graph: GraphView, at: usize)
    requires
        graph.well_formed(),
        at < graph.nodes.len(),
    ensures
        device_chain(graph.nodes, Some(at)) == seq![graph.nodes[at as int].address] + device_chain(
            graph.nodes,
            graph.nodes[at as int].next,
        ),
        graph.nodes[at as int].next is None ==> device_chain(graph.nodes, Some(at)) == seq![
            graph.nodes[at as int].address,
        ],
        device_chain(graph.nodes, Some(at)).last() != 0,
    decreases at,
{
    lemma_chain_step(graph.nodes, at);
    let rest = device_chain(graph.nodes, graph.nodes[at as int].next);
    match graph.nodes[at as int].next {
        Some(next) => {
            law_chain_follows_next(graph, next);
            assert(rest.len() > 0);
            assert((seq![graph.nodes[at as int].address] + rest).last() == rest.last());
        },
        None => {
            assert(rest.len() == 0);
            assert(seq![graph.nodes[at as int].address] + rest =~= seq![
                graph.nodes[at as int].address,
            ]);
        },
    }
}

} // verus!

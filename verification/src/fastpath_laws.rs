//! What holds of the fast path: how flows look to the kernel, what is counted of
//! them, when a bridge may go there, and what is remembered of it.

use crate::fast_path_runtime::{next_generation, MediaForwardingHistory, RuntimePath};
use crate::fastpath::{
    action_of, capped, default_interface_from, default_route, flow_added, installed_of, key_of,
    no_stats, rules_of, stale_message, total, FastPathBridgeSpec, FastPathFlowSpec,
    FastPathMediaKind, FastPathStats, FastPathTable, FlowAction, InstalledFlow, Ipv4Endpoint,
    MediaFlowDirection,
};
use crate::text::decimal;
use crate::words::words;
use vstd::prelude::*;

verus! {

// ---------------------------------------------------------------------------
// Flows as the kernel sees them.

/// The key of a flow holds the interface, both ends, each address with its first byte
/// first in memory and each port with its high byte first, and the number of UDP.
pub proof fn lemma_key_holds_both_ends(ifindex: u32, local: Ipv4Endpoint, remote: Ipv4Endpoint)
    ensures
        ({
            let k = key_of(true, ifindex, local, remote);
            &&& k.ingress_ifindex == ifindex
            &&& k.local_ip == local.a + 256 * local.b + 65536 * local.c + 16777216 * local.d
            &&& k.remote_ip == remote.a + 256 * remote.b + 65536 * remote.c + 16777216 * remote.d
            &&& k.local_port == local.port / 256 + 256 * (local.port % 256)
            &&& k.remote_port == remote.port / 256 + 256 * (remote.port % 256)
            &&& k.protocol == 17
        }),
        ({
            let k = key_of(false, ifindex, local, remote);
            &&& k.ingress_ifindex == ifindex
            &&& k.local_ip == 16777216 * local.a + 65536 * local.b + 256 * local.c + local.d
            &&& k.remote_ip == 16777216 * remote.a + 65536 * remote.b + 256 * remote.c + remote.d
            &&& k.local_port == local.port
            &&& k.remote_port == remote.port
            &&& k.protocol == 17
        }),
{
    let (p, q) = (local.port as int, remote.port as int);
    assert(p == 256 * (p / 256) + p % 256 && q == 256 * (q / 256) + q % 256);
}

/// The action of a flow sends from the rewritten source to the rewritten destination:
/// each is written as the ends of a key are.
pub proof fn lemma_action_sends_from_source_to_destination(
    least_first: bool,
    ifindex: u32,
    generation: u64,
    flow: FastPathFlowSpec,
)
    ensures
        ({
            let action = action_of(least_first, ifindex, generation, flow);
            let ends = key_of(
                least_first,
                ifindex,
                flow.rewritten_source,
                flow.rewritten_destination,
            );
            &&& action.egress_ifindex == ifindex
            &&& action.rewritten_src_ip == ends.local_ip && action.rewritten_src_port
                == ends.local_port
            &&& action.rewritten_dst_ip == ends.remote_ip && action.rewritten_dst_port
                == ends.remote_port
            &&& action.generation == generation
            &&& action.direction == 1 <==> flow.direction == MediaFlowDirection::CallerToCallee
            &&& action.direction == 2 <==> flow.direction == MediaFlowDirection::CalleeToCaller
            &&& action.packets == 0 && action.bytes == 0 && action.redirect_errors == 0
        }),
{
}

/// Every flow of a bridge gets one rule, in order, with its own ends and the generation
/// of the bridge; and what is noted of it has the key of its rule.
pub proof fn lemma_every_flow_gets_its_rule(
    table: FastPathTable,
    spec: FastPathBridgeSpec,
    i: int,
)
    requires
        0 <= i < spec.flows@.len(),
    ensures
        rules_of(table, spec).len() == spec.flows@.len(),
        installed_of(table, spec).len() == spec.flows@.len(),
        rules_of(table, spec)[i].key == installed_of(table, spec)[i].key,
        rules_of(table, spec)[i].key == key_of(
            table.least_first,
            table.ifindex,
            spec.flows@[i].local,
            spec.flows@[i].remote,
        ),
        rules_of(table, spec)[i].action == action_of(
            table.least_first,
            table.ifindex,
            spec.generation,
            spec.flows@[i],
        ),
        installed_of(table, spec)[i].media_kind == spec.flows@[i].media_kind,
        installed_of(table, spec)[i].direction == spec.flows@[i].direction,
{
}

/// A request for another generation is told which one it asked for and which is there.
pub proof fn lemma_stale_request_is_told_both(bridge: Seq<char>, asked: u64, installed: u64)
    ensures
        stale_message(bridge, asked, installed) == "bridge "@ + bridge + " generation "@ + decimal(
            asked as nat,
        ) + " does not match "@ + decimal(installed as nat),
{
}

// ---------------------------------------------------------------------------
// Counts.

/// A count is the sum as far as a number holds it.
pub proof fn lemma_counts_do_not_wrap(a: u64, b: u64)
    ensures
        capped(a, b) >= a,
        capped(a, b) >= b,
        a + b <= u64::MAX ==> capped(a, b) == a + b,
        a + b > u64::MAX ==> capped(a, b) == u64::MAX,
        capped(a, b) == capped(b, a),
        capped(a, 0) == a,
{
}

/// Nothing was counted before the first packet, and nothing adds nothing.
pub proof fn lemma_no_counts_add_nothing(s: FastPathStats)
    ensures
        no_stats().merged(s) == s,
        s.merged(no_stats()) == s,
        no_stats().worst_errors() == 0,
{
}

/// Counts may be put together in any order, and grouped in any way.
pub proof fn lemma_counts_add_up_in_any_order(s: FastPathStats, t: FastPathStats, u: FastPathStats)
    ensures
        s.merged(t) == t.merged(s),
        s.merged(t).merged(u) == s.merged(t.merged(u)),
{
}

/// Two counts of the same thing are added; counts of different things are not.
pub proof fn lemma_like_is_added_to_like(s: FastPathStats, t: FastPathStats)
    ensures
        ({
            let m = s.merged(t);
            &&& m.caller_to_callee_packets == capped(
                s.caller_to_callee_packets,
                t.caller_to_callee_packets,
            )
            &&& m.caller_to_callee_bytes == capped(s.caller_to_callee_bytes, t.caller_to_callee_bytes)
            &&& m.caller_to_callee_redirect_errors == capped(
                s.caller_to_callee_redirect_errors,
                t.caller_to_callee_redirect_errors,
            )
            &&& m.callee_to_caller_packets == capped(
                s.callee_to_caller_packets,
                t.callee_to_caller_packets,
            )
            &&& m.callee_to_caller_bytes == capped(s.callee_to_caller_bytes, t.callee_to_caller_bytes)
            &&& m.callee_to_caller_redirect_errors == capped(
                s.callee_to_caller_redirect_errors,
                t.callee_to_caller_redirect_errors,
            )
            &&& m.caller_to_callee_rtcp_packets == capped(
                s.caller_to_callee_rtcp_packets,
                t.caller_to_callee_rtcp_packets,
            )
            &&& m.caller_to_callee_rtcp_bytes == capped(
                s.caller_to_callee_rtcp_bytes,
                t.caller_to_callee_rtcp_bytes,
            )
            &&& m.caller_to_callee_rtcp_redirect_errors == capped(
                s.caller_to_callee_rtcp_redirect_errors,
                t.caller_to_callee_rtcp_redirect_errors,
            )
            &&& m.callee_to_caller_rtcp_packets == capped(
                s.callee_to_caller_rtcp_packets,
                t.callee_to_caller_rtcp_packets,
            )
            &&& m.callee_to_caller_rtcp_bytes == capped(
                s.callee_to_caller_rtcp_bytes,
                t.callee_to_caller_rtcp_bytes,
            )
            &&& m.callee_to_caller_rtcp_redirect_errors == capped(
                s.callee_to_caller_rtcp_redirect_errors,
                t.callee_to_caller_rtcp_redirect_errors,
            )
        }),
{
}

/// The worst count of errors is one of the four, and none is worse.
pub proof fn lemma_worst_is_the_largest(s: FastPathStats)
    ensures
        s.worst_errors() >= s.caller_to_callee_redirect_errors,
        s.worst_errors() >= s.callee_to_caller_redirect_errors,
        s.worst_errors() >= s.caller_to_callee_rtcp_redirect_errors,
        s.worst_errors() >= s.callee_to_caller_rtcp_redirect_errors,
        s.worst_errors() == s.caller_to_callee_redirect_errors || s.worst_errors()
            == s.callee_to_caller_redirect_errors || s.worst_errors()
            == s.caller_to_callee_rtcp_redirect_errors || s.worst_errors()
            == s.callee_to_caller_rtcp_redirect_errors,
{
}

/// What a flow adds, from nothing: its packets, bytes and errors under its own kind of
/// media and direction, and nothing elsewhere.
pub proof fn lemma_flow_counts_where_it_belongs(flow: InstalledFlow, action: FlowAction)
    ensures
        ({
            let s = flow_added(no_stats(), flow, action);
            let rtp = flow.media_kind == FastPathMediaKind::Rtp;
            let there = flow.direction == MediaFlowDirection::CallerToCallee;
            &&& s.caller_to_callee_packets == if rtp && there { action.packets } else { 0 }
            &&& s.caller_to_callee_bytes == if rtp && there { action.bytes } else { 0 }
            &&& s.caller_to_callee_redirect_errors == if rtp && there {
                action.redirect_errors
            } else {
                0
            }
            &&& s.callee_to_caller_packets == if rtp && !there { action.packets } else { 0 }
            &&& s.callee_to_caller_bytes == if rtp && !there { action.bytes } else { 0 }
            &&& s.callee_to_caller_redirect_errors == if rtp && !there {
                action.redirect_errors
            } else {
                0
            }
            &&& s.caller_to_callee_rtcp_packets == if !rtp && there { action.packets } else { 0 }
            &&& s.caller_to_callee_rtcp_bytes == if !rtp && there { action.bytes } else { 0 }
            &&& s.caller_to_callee_rtcp_redirect_errors == if !rtp && there {
                action.redirect_errors
            } else {
                0
            }
            &&& s.callee_to_caller_rtcp_packets == if !rtp && !there { action.packets } else { 0 }
            &&& s.callee_to_caller_rtcp_bytes == if !rtp && !there { action.bytes } else { 0 }
            &&& s.callee_to_caller_rtcp_redirect_errors == if !rtp && !there {
                action.redirect_errors
            } else {
                0
            }
        }),
{
}

/// To add a flow to counts is to put its own counts together with them.
pub proof fn lemma_flow_is_put_together_with_the_rest(
    s: FastPathStats,
    flow: InstalledFlow,
    action: FlowAction,
)
    ensures
        flow_added(s, flow, action) == s.merged(flow_added(no_stats(), flow, action)),
{
}

/// A snapshot counts every flow that could be read once, and a flow that could not be
/// read not at all: one flow more adds what it counted, and no fault takes away what
/// the others counted.
pub proof fn lemma_snapshot_counts_every_flow(
    flows: Seq<InstalledFlow>,
    actions: Seq<Option<FlowAction>>,
    flow: InstalledFlow,
    action: Option<FlowAction>,
)
    requires
        actions.len() == flows.len(),
    ensures
        total(Seq::<InstalledFlow>::empty(), actions) == no_stats(),
        action is None ==> total(flows.push(flow), actions.push(action)) == total(flows, actions),
        action matches Some(read) ==> total(flows.push(flow), actions.push(action)) == total(
            flows,
            actions,
        ).merged(flow_added(no_stats(), flow, read)),
{
    assert(flows.push(flow).drop_last() =~= flows);
    lemma_total_reads_its_own_actions(flows, actions, actions.push(action));
    if action is Some {
        lemma_flow_is_put_together_with_the_rest(total(flows, actions), flow, action->Some_0);
    }
}

proof fn lemma_total_reads_its_own_actions(
    flows: Seq<InstalledFlow>,
    actions: Seq<Option<FlowAction>>,
    more: Seq<Option<FlowAction>>,
)
    requires
        actions.len() >= flows.len(),
        more.len() >= flows.len(),
        forall|i: int| 0 <= i < flows.len() ==> actions[i] == more[i],
    ensures
        total(flows, actions) == total(flows, more),
    decreases flows.len(),
{
    if flows.len() > 0 {
        lemma_total_reads_its_own_actions(flows.drop_last(), actions, more);
    }
}

// ---------------------------------------------------------------------------
// Going to the fast path, and coming back.

/// Each direction is remembered by itself, and what was remembered stays.
pub proof fn lemma_directions_are_remembered_apart(h: MediaForwardingHistory)
    ensures
        ({
            let p = h.promoted(MediaFlowDirection::CallerToCallee);
            &&& p.caller_to_callee.promoted && p.caller_to_callee.demoted
                == h.caller_to_callee.demoted && p.callee_to_caller == h.callee_to_caller
        }),
        ({
            let p = h.promoted(MediaFlowDirection::CalleeToCaller);
            &&& p.callee_to_caller.promoted && p.callee_to_caller.demoted
                == h.callee_to_caller.demoted && p.caller_to_callee == h.caller_to_callee
        }),
        ({
            let d = h.demoted(MediaFlowDirection::CallerToCallee);
            &&& d.caller_to_callee.demoted && d.caller_to_callee.promoted
                == h.caller_to_callee.promoted && d.callee_to_caller == h.callee_to_caller
        }),
        ({
            let d = h.demoted(MediaFlowDirection::CalleeToCaller);
            &&& d.callee_to_caller.demoted && d.callee_to_caller.promoted
                == h.callee_to_caller.promoted && d.caller_to_callee == h.caller_to_callee
        }),
        h.both_promoted().caller_to_callee.promoted && h.both_promoted().callee_to_caller.promoted,
        h.both_promoted().caller_to_callee.demoted == h.caller_to_callee.demoted,
        h.both_promoted().callee_to_caller.demoted == h.callee_to_caller.demoted,
        h.both_demoted().caller_to_callee.demoted && h.both_demoted().callee_to_caller.demoted,
        h.both_demoted().caller_to_callee.promoted == h.caller_to_callee.promoted,
        h.both_demoted().callee_to_caller.promoted == h.callee_to_caller.promoted,
{
}

/// A bridge goes to the fast path where there is one, its flows are known, nothing keeps
/// it off, and no rules are installed; a path serves one bridge.
pub proof fn lemma_who_may_go_to_the_fast_path(
    s: RuntimePath,
    bridge: Seq<char>,
    available: bool,
    has_flows: bool,
)
    ensures
        s.promotable(bridge, available, has_flows) ==> available && has_flows && !s.stopped
            && !s.blocked && s.active is None,
        s.promotable(bridge, available, has_flows) ==> (s.bridge matches Some(served) ==> served
            == bridge),
        available && has_flows && !s.stopped && !s.blocked && s.active is None && s.bridge
            is None ==> s.promotable(bridge, available, has_flows),
        available && has_flows && !s.stopped && !s.blocked && s.active is None && s.bridge == Some(
            bridge,
        ) ==> s.promotable(bridge, available, has_flows),
{
}

/// The rules of a bridge get the generation after the last, as long as there is one;
/// a bridge that is kept off gets none.
pub proof fn lemma_next_rules_get_the_next_generation(s: RuntimePath, has_flows: bool)
    ensures
        s.generation < u64::MAX ==> next_generation(s.generation) == s.generation + 1,
        next_generation(u64::MAX) == u64::MAX,
        s.next_promotion(has_flows) is Some <==> !s.blocked && s.bridge is Some && has_flows,
        s.next_promotion(has_flows) matches Some(next) ==> (s.generation < u64::MAX ==> next
            == s.generation + 1),
{
}

/// Once rules were installed, they are the ones that have to go, until the media came
/// back; what failed to be installed changes nothing.
pub proof fn lemma_installed_rules_have_to_go(
    s: RuntimePath,
    generation: u64,
    counted: FastPathStats,
)
    requires
        s.bridge is Some,
    ensures
        s.promotion_noted(generation, true).installed() == Some(generation),
        s.promotion_noted(generation, true).generation == generation,
        s.promotion_noted(generation, true).history.caller_to_callee.promoted,
        s.promotion_noted(generation, true).history.callee_to_caller.promoted,
        s.promotion_noted(generation, true).stats == s.stats,
        s.promotion_noted(generation, true).bridge == s.bridge,
        s.promotion_noted(generation, true).blocked == s.blocked,
        s.promotion_noted(generation, true).stopped == s.stopped,
        s.promotion_noted(generation, false) == s,
        s.came_back(counted).installed() is None,
        s.came_back(counted).generation == s.generation,
        s.came_back(counted).bridge == s.bridge,
        s.came_back(counted).blocked == s.blocked,
        s.came_back(counted).stopped == s.stopped,
        s.came_back(counted).history == s.history,
{
}

/// A path without a bridge has no rules.
pub proof fn lemma_no_bridge_no_rules(s: RuntimePath)
    ensures
        s.bridge is None ==> s.installed() is None,
        s.installed() matches Some(generation) ==> s.bridge is Some && s.active == Some(generation),
        s.bridge is Some ==> s.installed() == s.active,
{
}

/// What was counted on two stays on the fast path adds up.
pub proof fn lemma_stays_add_up(s: RuntimePath, generation: u64, one: FastPathStats, two: FastPathStats)
    ensures
        s.came_back(one).promotion_noted(generation, true).came_back(two).stats == s.stats.merged(
            one.merged(two),
        ),
        s.came_back(one).stats.caller_to_callee_packets >= s.stats.caller_to_callee_packets,
        s.came_back(one).stats.callee_to_caller_packets >= one.callee_to_caller_packets,
{
    lemma_counts_add_up_in_any_order(s.stats, one, two);
}

// ---------------------------------------------------------------------------
// The interface.

/// The default route goes everywhere and is in use.
pub proof fn lemma_default_route_is_in_use(line: Seq<char>)
    ensures
        default_route(line) ==> words(line).len() >= 4 && words(line)[1] == "00000000"@
            && words(line)[3] != "0000"@,
        words(line).len() >= 4 && words(line)[1] == "00000000"@ && words(line)[3]
            != "0000"@ ==> default_route(line),
{
}

/// The interface is that of the first default route: every route before it is another,
/// and there is none exactly where no route is a default one.
pub proof fn lemma_first_default_route_counts(table: Seq<Seq<char>>, from: nat) -> (at: int)
    ensures
        default_interface_from(table, from) matches Some(interface) ==> {
            &&& from <= at < table.len()
            &&& default_route(table[at])
            &&& words(table[at])[0] == interface
            &&& forall|k: int| from <= k < at ==> !default_route(#[trigger] table[k])
        },
        default_interface_from(table, from) is None <==> forall|k: int|
            from <= k < table.len() ==> !default_route(#[trigger] table[k]),
    decreases table.len() - from,
{
    if from >= table.len() || default_route(table[from as int]) {
        from as int
    } else {
        lemma_first_default_route_counts(table, from + 1)
    }
}

} // verus!

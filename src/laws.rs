use vstd::prelude::*;

use crate::config::{has_rpc, Link, WorkdirProxyConfig};
use crate::controller::{apply_spec, configured_port, effective_port, resolve_spec, ApplyOutcome};
use crate::message::AdminControllerMsg;
use crate::registry::{port_taken, ports_wf, rpc_targets, slot_of_workdir, PortView, TargetServer};
use crate::workdirs::Workdirs;

verus! {

/// Whether some target is named `a`.
pub open spec fn has_target(ts: Seq<TargetServer>, a: Seq<char>) -> bool {
    exists|k: int| 0 <= k < ts.len() && ts[k].alias@ == a
}

/// Whether some link named `a` has an RPC endpoint.
pub open spec fn has_rpc_link(links: Seq<Link>, a: Seq<char>) -> bool {
    exists|j: int| 0 <= j < links.len() && links[j].alias@ == a && has_rpc(links[j])
}

/// The targets built from links are named exactly like the links that have an
/// RPC endpoint.
pub proof fn lemma_rpc_targets_aliases(links: Seq<Link>, a: Seq<char>)
    ensures
        has_target(rpc_targets(links), a) <==> has_rpc_link(links, a),
    decreases links.len(),
{
    if links.len() > 0 {
        let init = links.drop_last();
        let prev = rpc_targets(init);
        lemma_rpc_targets_aliases(init, a);
        if has_rpc_link(links, a) {
            let j = choose|j: int| 0 <= j < links.len() && links[j].alias@ == a && has_rpc(links[j]);
            if j == links.len() - 1 {
                assert(rpc_targets(links)[prev.len() as int].alias@ == a);
            } else {
                assert(init[j] == links[j]);
                assert(has_rpc_link(init, a));
                let k = choose|k: int| 0 <= k < prev.len() && prev[k].alias@ == a;
                assert(rpc_targets(links)[k] == prev[k]);
            }
        }
        if has_target(rpc_targets(links), a) {
            let ts = rpc_targets(links);
            let k = choose|k: int| 0 <= k < ts.len() && ts[k].alias@ == a;
            if has_rpc(links.last()) && k == prev.len() {
                assert(links[links.len() - 1].alias@ == a);
            } else {
                assert(ts[k] == prev[k]);
                assert(has_target(prev, a));
                let j = choose|j: int| 0 <= j < init.len() && init[j].alias@ == a && has_rpc(init[j]);
                assert(links[j] == init[j]);
            }
        }
    }
}

/// A config-change event for a resolvable workdir that has no entry yet adds
/// exactly one entry, at the next slot, with the workdir's identity and name and
/// one target for each link that has an RPC endpoint; it asks for a proxy server
/// for that slot. This holds where a slot is free and no entry listens on the
/// workdir's port: otherwise the registry refuses the entry.
pub proof fn lemma_new_workdir_adds_one_entry(
    s: Seq<PortView>,
    capacity: nat,
    ws: Workdirs,
    msg: AdminControllerMsg,
    cfg: WorkdirProxyConfig,
)
    requires
        ports_wf(s),
        s.len() < capacity,
        ws.wf(),
        resolve_spec(ws.workdirs@, msg) is Ok,
        slot_of_workdir(s, resolve_spec(ws.workdirs@, msg)->Ok_0) is None,
        !port_taken(s, effective_port(resolve_spec(ws.workdirs@, msg)->Ok_0, cfg), -1),
    ensures
        ({
            let idx = resolve_spec(ws.workdirs@, msg)->Ok_0;
            let (s2, r) = apply_spec(s, capacity, configured_port(ws.workdirs@, idx, cfg));
            &&& r == ApplyOutcome::Spawn(s.len() as usize)
            &&& s2.len() == s.len() + 1
            &&& s2.take(s.len() as int) == s
            &&& s2.last().workdir_idx == idx
            &&& s2.last().workdir_name == ws.workdirs@[idx as int].name@
            &&& s2.last().port_number == effective_port(idx, cfg)
            &&& s2.last().targets == rpc_targets(cfg.links@)
            &&& forall|a: Seq<char>|
                has_target(s2.last().targets, a) <==> has_rpc_link(cfg.links@, a)
        }),
{
    let idx = resolve_spec(ws.workdirs@, msg)->Ok_0;
    let p = configured_port(ws.workdirs@, idx, cfg);
    let (s2, r) = apply_spec(s, capacity, p);
    assert(s2 == s.push(p));
    assert(s2.take(s.len() as int) =~= s);
    assert forall|a: Seq<char>| has_target(s2.last().targets, a) <==> has_rpc_link(cfg.links@, a) by {
        lemma_rpc_targets_aliases(cfg.links@, a);
    }
}

/// Two events for distinct workdirs, both new to the registry, are applied in
/// arrival order: the first entry is in place when the second is applied, the
/// first takes the next slot and the second the one after, and the entries
/// already there are untouched. This holds where two slots are free and the two
/// ports are distinct and free.
pub proof fn lemma_events_apply_in_order(s: Seq<PortView>, capacity: nat, pa: PortView, pb: PortView)
    requires
        ports_wf(s),
        s.len() + 2 <= capacity,
        pa.workdir_idx != pb.workdir_idx,
        pa.port_number != pb.port_number,
        slot_of_workdir(s, pa.workdir_idx) is None,
        slot_of_workdir(s, pb.workdir_idx) is None,
        !port_taken(s, pa.port_number, -1),
        !port_taken(s, pb.port_number, -1),
    ensures
        ({
            let (s1, ra) = apply_spec(s, capacity, pa);
            let (s2, rb) = apply_spec(s1, capacity, pb);
            &&& s1 == s.push(pa)
            &&& ra == ApplyOutcome::Spawn(s.len() as usize)
            &&& s2 == s.push(pa).push(pb)
            &&& rb == ApplyOutcome::Spawn((s.len() + 1) as usize)
        }),
{
    let s1 = s.push(pa);
    assert(apply_spec(s, capacity, pa).0 == s1);
    assert forall|i: int| 0 <= i < s1.len() implies s1[i].workdir_idx != pb.workdir_idx by {
        if i < s.len() {
            assert(s1[i] == s[i]);
        }
    }
    assert(slot_of_workdir(s1, pb.workdir_idx) is None);
    assert forall|j: int| 0 <= j < s1.len() && j != -1 implies s1[j].port_number != pb.port_number by {
        if j < s.len() {
            assert(s1[j] == s[j]);
        }
    }
}

/// What applying an entry leaves of the registry: no slot is removed, a new
/// entry takes the next slot and no existing one, only the reloaded slot
/// changes, and at most one entry per workdir and per port remains.
pub proof fn lemma_apply_keeps_slots(s: Seq<PortView>, capacity: nat, p: PortView)
    requires
        ports_wf(s),
        s.len() <= capacity,
        capacity <= usize::MAX,
    ensures
        ({
            let (s2, r) = apply_spec(s, capacity, p);
            &&& ports_wf(s2)
            &&& s2.len() <= capacity
            &&& s.len() <= s2.len() <= s.len() + 1
            &&& (r matches ApplyOutcome::Spawn(k) ==> k == s.len() && s2 == s.push(p))
            &&& (r matches ApplyOutcome::Reloaded(k) ==> k < s.len() && s2 == s.update(k as int, p))
            &&& (r is Rejected ==> s2 == s)
        }),
{
    let (s2, r) = apply_spec(s, capacity, p);
    match slot_of_workdir(s, p.workdir_idx) {
        Some(i) => {
            if r is Reloaded {
                assert forall|a: int, b: int| 0 <= a < b < s2.len() implies s2[a].workdir_idx
                    != s2[b].workdir_idx && s2[a].port_number != s2[b].port_number by {
                    if a == i {
                        assert(s[b].workdir_idx != p.workdir_idx);
                    } else if b == i {
                        assert(s[a].workdir_idx != p.workdir_idx);
                    }
                }
            }
        },
        None => {
            if r is Spawn {
                assert forall|a: int, b: int| 0 <= a < b < s2.len() implies s2[a].workdir_idx
                    != s2[b].workdir_idx && s2[a].port_number != s2[b].port_number by {
                    if b == s.len() {
                        assert(s2[a] == s[a]);
                    }
                }
            }
        },
    }
}

/// Applying the same entry twice adds no second entry: the second application
/// changes nothing and reports the slot that the first one gave, or the same
/// refusal.
pub proof fn lemma_reapply_changes_nothing(s: Seq<PortView>, capacity: nat, p: PortView)
    requires
        ports_wf(s),
        s.len() <= capacity,
        capacity <= usize::MAX,
    ensures
        ({
            let (s1, r1) = apply_spec(s, capacity, p);
            let (s2, r2) = apply_spec(s1, capacity, p);
            &&& s2 == s1
            &&& (r1 is Rejected ==> r2 == r1)
            &&& (r1 matches ApplyOutcome::Spawn(k) ==> r2 == ApplyOutcome::Reloaded(k))
            &&& (r1 matches ApplyOutcome::Reloaded(k) ==> r2 == ApplyOutcome::Reloaded(k))
        }),
{
    lemma_apply_keeps_slots(s, capacity, p);
    let (s1, r1) = apply_spec(s, capacity, p);
    if !(r1 is Rejected) {
        let k: int = match r1 {
            ApplyOutcome::Spawn(k) => k as int,
            ApplyOutcome::Reloaded(k) => k as int,
            ApplyOutcome::Rejected(_) => 0,
        };
        assert(s1[k] == p);
        let j = slot_of_workdir(s1, p.workdir_idx)->0;
        assert(slot_of_workdir(s1, p.workdir_idx) is Some);
        assert(j == k);
        assert(!port_taken(s1, p.port_number, k));
        assert(s1.update(k, p) =~= s1);
    }
}

} // verus!

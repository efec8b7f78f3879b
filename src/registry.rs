use vstd::prelude::*;

use crate::config::{has_rpc, Link};
use crate::message::WorkdirIdx;

verus! {

/// Upstream endpoint pair that a listener forwards to, under an alias.
pub struct TargetServer {
    pub alias: String,
    pub rpc: String,
    pub ws: Option<String>,
}

/// The target that a link with an RPC endpoint becomes.
pub open spec fn target_of(l: Link) -> TargetServer {
    TargetServer { alias: l.alias, rpc: l.rpc->0, ws: l.ws }
}

/// The targets of the links that have an RPC endpoint, in link order.
pub open spec fn rpc_targets(links: Seq<Link>) -> Seq<TargetServer>
    decreases links.len(),
{
    if links.len() == 0 {
        Seq::empty()
    } else {
        let prev = rpc_targets(links.drop_last());
        if has_rpc(links.last()) {
            prev.push(target_of(links.last()))
        } else {
            prev
        }
    }
}

/// One listening proxy endpoint of a workdir.
pub struct InputPort {
    pub workdir_idx: WorkdirIdx,
    pub workdir_name: String,
    pub port_number: u16,
    pub target_servers: Vec<TargetServer>,
}

/// What a listener reads of an entry.
pub ghost struct PortView {
    pub workdir_idx: WorkdirIdx,
    pub workdir_name: Seq<char>,
    pub port_number: u16,
    pub targets: Seq<TargetServer>,
}

impl View for InputPort {
    type V = PortView;

    open spec fn view(&self) -> PortView {
        PortView {
            workdir_idx: self.workdir_idx,
            workdir_name: self.workdir_name@,
            port_number: self.port_number,
            targets: self.target_servers@,
        }
    }
}

/// The entry that a workdir's configuration describes.
pub open spec fn port_of(
    workdir_idx: WorkdirIdx,
    workdir_name: Seq<char>,
    port_number: u16,
    links: Seq<Link>,
) -> PortView {
    PortView { workdir_idx, workdir_name, port_number, targets: rpc_targets(links) }
}

impl InputPort {
    /// An entry with no targets yet.
    pub fn new(workdir_idx: WorkdirIdx, workdir_name: String, port_number: u16) -> (r: Self)
        ensures
            r.workdir_idx == workdir_idx,
            r.workdir_name == workdir_name,
            r.port_number == port_number,
            r.target_servers@.len() == 0,
    {
        InputPort { workdir_idx, workdir_name, port_number, target_servers: Vec::new() }
    }

    pub fn workdir_idx(&self) -> (r: WorkdirIdx)
        ensures
            r == self.workdir_idx,
    {
        self.workdir_idx
    }

    pub fn port_number(&self) -> (r: u16)
        ensures
            r == self.port_number,
    {
        self.port_number
    }

    /// Builds the entry of a workdir from its links: every link with an RPC
    /// endpoint becomes a target.
    pub fn from_links(
        workdir_idx: WorkdirIdx,
        workdir_name: String,
        port_number: u16,
        links: &Vec<Link>,
    ) -> (r: Self)
        ensures
            r@ == port_of(workdir_idx, workdir_name@, port_number, links@),
    {
        let mut p = InputPort::new(workdir_idx, workdir_name, port_number);
        let mut i: usize = 0;
        while i < links.len()
            invariant
                i <= links@.len(),
                p.workdir_idx == workdir_idx,
                p.workdir_name == workdir_name,
                p.port_number == port_number,
                p.target_servers@ == rpc_targets(links@.take(i as int)),
            decreases links@.len() - i,
        {
            assert(links@.take(i + 1).drop_last() =~= links@.take(i as int));
            let l = &links[i];
            match &l.rpc {
                Some(rpc) => {
                    if rpc.as_str().unicode_len() > 0 {
                        p.target_servers.push(
                            TargetServer { alias: l.alias.clone(), rpc: rpc.clone(), ws: l.ws.clone() },
                        );
                    }
                },
                None => {},
            }
            i = i + 1;
        }
        assert(links@.take(i as int) =~= links@);
        p
    }
}

/// Why the registry refused an entry.
#[derive(PartialEq, Eq, Structural, Debug, Clone, Copy)]
pub enum InsertError {
    /// Every slot is taken.
    Full,
    /// The workdir already has an entry.
    WorkdirTaken,
    /// Another entry already listens on the port.
    PortInUse,
}

/// At most one entry per workdir and per port.
pub open spec fn ports_wf(s: Seq<PortView>) -> bool {
    &&& forall|i: int, j: int|
        0 <= i < j < s.len() ==> s[i].workdir_idx != s[j].workdir_idx
    &&& forall|i: int, j: int|
        0 <= i < j < s.len() ==> s[i].port_number != s[j].port_number
}

/// The slot of the entry of workdir `idx`, if any.
pub open spec fn slot_of_workdir(s: Seq<PortView>, idx: WorkdirIdx) -> Option<int> {
    if exists|i: int| 0 <= i < s.len() && s[i].workdir_idx == idx {
        Some(choose|i: int| 0 <= i < s.len() && s[i].workdir_idx == idx)
    } else {
        None
    }
}

/// Whether an entry other than the one at `except` listens on `port`.
pub open spec fn port_taken(s: Seq<PortView>, port: u16, except: int) -> bool {
    exists|j: int| 0 <= j < s.len() && j != except && s[j].port_number == port
}

/// What inserting `p` does: the new slots and the slot id, or the refusal.
pub open spec fn insert_spec(s: Seq<PortView>, capacity: nat, p: PortView) -> (
    Seq<PortView>,
    Result<usize, InsertError>,
) {
    if slot_of_workdir(s, p.workdir_idx) is Some {
        (s, Err(InsertError::WorkdirTaken))
    } else if s.len() >= capacity {
        (s, Err(InsertError::Full))
    } else if port_taken(s, p.port_number, -1) {
        (s, Err(InsertError::PortInUse))
    } else {
        (s.push(p), Ok(s.len() as usize))
    }
}

/// What replacing the entry at `slot` by `p` does.
pub open spec fn replace_spec(s: Seq<PortView>, slot: int, p: PortView) -> (
    Seq<PortView>,
    Result<(), InsertError>,
) {
    if slot_of_workdir(s, p.workdir_idx) is Some && slot_of_workdir(s, p.workdir_idx) != Some(slot) {
        (s, Err(InsertError::WorkdirTaken))
    } else if port_taken(s, p.port_number, slot) {
        (s, Err(InsertError::PortInUse))
    } else {
        (s.update(slot, p), Ok(()))
    }
}

/// The listening endpoints of all workdirs, addressed by slot ids that stay valid
/// for the life of the registry: entries are added or changed in place, never removed.
pub struct GlobalPortRegistry {
    ports: Vec<InputPort>,
    capacity: usize,
}

impl View for GlobalPortRegistry {
    type V = Seq<PortView>;

    closed spec fn view(&self) -> Seq<PortView> {
        self.ports@.map_values(|p: InputPort| p@)
    }
}

impl GlobalPortRegistry {
    /// Number of slots the registry can hold.
    pub closed spec fn capacity_view(&self) -> nat {
        self.capacity as nat
    }

    pub open spec fn wf(&self) -> bool {
        &&& ports_wf(self@)
        &&& self@.len() <= self.capacity_view()
    }

    /// An empty registry of `capacity` slots.
    pub fn new(capacity: usize) -> (r: Self)
        ensures
            r.wf(),
            r@.len() == 0,
            r.capacity_view() == capacity,
    {
        let r = GlobalPortRegistry { ports: Vec::new(), capacity };
        assert(r@ =~= Seq::<PortView>::empty());
        r
    }

    pub fn len(&self) -> (r: usize)
        ensures
            r == self@.len(),
    {
        self.ports.len()
    }

    pub fn capacity(&self) -> (r: usize)
        ensures
            r == self.capacity_view(),
    {
        self.capacity
    }

    /// The entry at `slot`, if the slot is in use.
    pub fn get(&self, slot: usize) -> (r: Option<&InputPort>)
        ensures
            match r {
                Some(p) => slot < self@.len() && p@ == self@[slot as int],
                None => slot >= self@.len(),
            },
    {
        if slot < self.ports.len() {
            Some(&self.ports[slot])
        } else {
            None
        }
    }

    /// The slot of the entry of workdir `idx`, if any.
    pub fn find_by_workdir(&self, idx: WorkdirIdx) -> (r: Option<usize>)
        requires
            self.wf(),
        ensures
            match r {
                Some(i) => slot_of_workdir(self@, idx) == Some(i as int),
                None => slot_of_workdir(self@, idx) is None,
            },
    {
        let mut i: usize = 0;
        while i < self.ports.len()
            invariant
                self.wf(),
                i <= self@.len(),
                self@.len() == self.ports@.len(),
                forall|k: int| 0 <= k < i ==> self@[k].workdir_idx != idx,
            decreases self.ports@.len() - i,
        {
            if self.ports[i].workdir_idx == idx {
                assert(self@[i as int].workdir_idx == idx);
                let ghost j = choose|j: int| 0 <= j < self@.len() && self@[j].workdir_idx == idx;
                assert(j == i as int);
                return Some(i);
            }
            i = i + 1;
        }
        None
    }

    /// Whether an entry other than the one at `except` listens on `port`
    /// (`except` beyond the last slot excludes none).
    fn port_in_use(&self, port: u16, except: usize) -> (r: bool)
        ensures
            r == port_taken(self@, port, except as int),
            except >= self@.len() ==> r == port_taken(self@, port, -1),
    {
        let mut i: usize = 0;
        while i < self.ports.len()
            invariant
                i <= self@.len(),
                self@.len() == self.ports@.len(),
                forall|k: int| 0 <= k < i && k != except ==> self@[k].port_number != port,
            decreases self.ports@.len() - i,
        {
            if i != except && self.ports[i].port_number == port {
                assert(self@[i as int].port_number == port);
                return true;
            }
            i = i + 1;
        }
        false
    }

    /// Adds an entry and returns its new slot id. Refused, with the registry
    /// unchanged, where the workdir already has an entry, where every slot is
    /// taken, or where another entry listens on the same port.
    pub fn insert(&mut self, p: InputPort) -> (r: Result<usize, InsertError>)
        requires
            old(self).wf(),
        ensures
            final(self).wf(),
            final(self).capacity_view() == old(self).capacity_view(),
            (final(self)@, r) == insert_spec(old(self)@, old(self).capacity_view(), p@),
    {
        if self.find_by_workdir(p.workdir_idx).is_some() {
            return Err(InsertError::WorkdirTaken);
        }
        if self.ports.len() >= self.capacity {
            return Err(InsertError::Full);
        }
        if self.port_in_use(p.port_number, self.ports.len()) {
            return Err(InsertError::PortInUse);
        }
        let slot = self.ports.len();
        let ghost pv = p@;
        self.ports.push(p);
        assert(self@ =~= old(self)@.push(pv));
        Ok(slot)
    }

    /// Replaces the entry at `slot` in place, keeping its slot id. Refused, with the
    /// registry unchanged, where another entry already has the workdir or the port.
    pub fn replace(&mut self, slot: usize, p: InputPort) -> (r: Result<(), InsertError>)
        requires
            old(self).wf(),
            slot < old(self)@.len(),
        ensures
            final(self).wf(),
            final(self).capacity_view() == old(self).capacity_view(),
            (final(self)@, r) == replace_spec(old(self)@, slot as int, p@),
    {
        let found = self.find_by_workdir(p.workdir_idx);
        match found {
            Some(i) => {
                if i != slot {
                    return Err(InsertError::WorkdirTaken);
                }
            },
            None => {},
        }
        if self.port_in_use(p.port_number, slot) {
            return Err(InsertError::PortInUse);
        }
        let ghost pv = p@;
        self.ports.set(slot, p);
        assert(self@ =~= old(self)@.update(slot as int, pv));
        Ok(())
    }
}

} // verus!

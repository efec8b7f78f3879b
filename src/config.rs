use vstd::prelude::*;

use crate::text::same_text;

verus! {

/// One named upstream endpoint pair of a workdir's configuration.
pub struct Link {
    pub alias: String,
    pub rpc: Option<String>,
    pub ws: Option<String>,
}

/// Whether a link carries an RPC endpoint that a listener can forward to.
pub open spec fn has_rpc(l: Link) -> bool {
    l.rpc is Some && l.rpc->0@.len() > 0
}

/// No two links share an alias.
pub open spec fn links_unique(s: Seq<Link>) -> bool {
    forall|i: int, j: int| 0 <= i < j < s.len() ==> s[i].alias@ != s[j].alias@
}

/// Position of the link named `a`, if any.
pub open spec fn link_pos(s: Seq<Link>, a: Seq<char>) -> Option<int> {
    if exists|i: int| 0 <= i < s.len() && s[i].alias@ == a {
        Some(choose|i: int| 0 <= i < s.len() && s[i].alias@ == a)
    } else {
        None
    }
}

/// Map insertion on an alias-keyed sequence: replace the entry named like `l`, or append `l`.
pub open spec fn put_link(s: Seq<Link>, l: Link) -> Seq<Link> {
    match link_pos(s, l.alias@) {
        Some(i) => s.update(i, l),
        None => s.push(l),
    }
}

/// What the configuration loader yields for one workdir: an optional listening
/// port override and the links keyed by alias.
pub struct WorkdirProxyConfig {
    pub proxy_port_number: Option<u16>,
    pub links_overrides: bool,
    pub links: Vec<Link>,
}

impl WorkdirProxyConfig {
    pub open spec fn wf(&self) -> bool {
        links_unique(self.links@)
    }

    pub open spec fn links_view(&self) -> Seq<Link> {
        self.links@
    }

    pub open spec fn links_overrides_view(&self) -> bool {
        self.links_overrides
    }

    /// An empty configuration: no port override, no links.
    pub fn new() -> (r: Self)
        ensures
            r.wf(),
            r.proxy_port_number is None,
            !r.links_overrides_view(),
            r.links_view().len() == 0,
    {
        WorkdirProxyConfig { proxy_port_number: None, links_overrides: false, links: Vec::new() }
    }

    /// Whether these links replace, rather than extend, the default ones.
    pub fn links_overrides(&self) -> (r: bool)
        ensures
            r == self.links_overrides_view(),
    {
        self.links_overrides
    }

    pub fn set_links_overrides(&mut self, v: bool)
        ensures
            final(self).links_overrides_view() == v,
            final(self).links_view() == old(self).links_view(),
            final(self).proxy_port_number == old(self).proxy_port_number,
    {
        self.links_overrides = v;
    }

    /// Number of distinct aliases.
    pub fn links_len(&self) -> (r: usize)
        ensures
            r == self.links_view().len(),
    {
        self.links.len()
    }

    fn find(&self, alias: &str) -> (r: Option<usize>)
        requires
            self.wf(),
        ensures
            match r {
                Some(i) => link_pos(self.links@, alias@) == Some(i as int),
                None => link_pos(self.links@, alias@) is None,
            },
    {
        let mut i: usize = 0;
        while i < self.links.len()
            invariant
                self.wf(),
                i <= self.links@.len(),
                forall|k: int| 0 <= k < i ==> self.links@[k].alias@ != alias@,
            decreases self.links@.len() - i,
        {
            if same_text(self.links[i].alias.as_str(), alias) {
                let ghost j = choose|j: int| 0 <= j < self.links@.len() && self.links@[j].alias@ == alias@;
                assert(j == i as int);
                return Some(i);
            }
            i = i + 1;
        }
        None
    }

    /// Whether a link is named `alias`.
    pub fn contains_key(&self, alias: &str) -> (r: bool)
        requires
            self.wf(),
        ensures
            r == (link_pos(self.links_view(), alias@) is Some),
    {
        self.find(alias).is_some()
    }

    /// The link named `alias`, if any.
    pub fn get(&self, alias: &str) -> (r: Option<&Link>)
        requires
            self.wf(),
        ensures
            match link_pos(self.links_view(), alias@) {
                Some(i) => r == Some(&self.links_view()[i]),
                None => r is None,
            },
    {
        match self.find(alias) {
            Some(i) => Some(&self.links[i]),
            None => None,
        }
    }

    /// Inserts a link, replacing any link of the same alias.
    pub fn insert_link(&mut self, l: Link)
        requires
            old(self).wf(),
        ensures
            final(self).wf(),
            final(self).links_view() == put_link(old(self).links_view(), l),
            final(self).proxy_port_number == old(self).proxy_port_number,
            final(self).links_overrides_view() == old(self).links_overrides_view(),
    {
        match self.find(l.alias.as_str()) {
            Some(i) => {
                self.links.set(i, l);
            },
            None => {
                self.links.push(l);
            },
        }
        assert(links_unique(self.links@));
    }
}

} // verus!

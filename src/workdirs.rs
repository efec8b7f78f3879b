use vstd::prelude::*;
use vstd::string::*;

use crate::message::{config_change_msg, AdminControllerMsg, WorkdirIdx};
use crate::text::same_text;

verus! {

/// One network environment, with the paths of its configuration files.
pub struct Workdir {
    pub name: String,
    pub suibase_yaml_default: String,
    pub suibase_yaml_user: String,
    pub user_request_start: bool,
}

/// Path of the default configuration file of workdir `name` under `home`.
pub open spec fn default_yaml_path(home: Seq<char>, name: Seq<char>) -> Seq<char> {
    home + "/scripts/defaults/"@ + name + "/suibase.yaml"@
}

/// Path of the user configuration file of workdir `name` under `home`.
pub open spec fn user_yaml_path(home: Seq<char>, name: Seq<char>) -> Seq<char> {
    home + "/workdirs/"@ + name + "/suibase.yaml"@
}

/// The known workdirs, by index.
pub open spec fn workdir_names() -> Seq<Seq<char>> {
    seq!["localnet"@, "devnet"@, "testnet"@, "mainnet"@]
}

/// Conventional listening port of the workdir at `idx`.
pub open spec fn default_port(idx: int) -> int {
    44340 + idx
}

/// Whether `path` names one of the configuration files of `w`.
pub open spec fn path_matches(w: Workdir, path: Seq<char>) -> bool {
    path == w.suibase_yaml_default@ || path == w.suibase_yaml_user@
}

/// The config-change events that bring up every workdir flagged to start, in order.
pub open spec fn priming_spec(ws: Seq<Workdir>) -> Seq<AdminControllerMsg>
    decreases ws.len(),
{
    if ws.len() == 0 {
        Seq::empty()
    } else {
        let prev = priming_spec(ws.drop_last());
        if ws.last().user_request_start {
            prev.push(config_change_msg(ws.last().suibase_yaml_default))
        } else {
            prev
        }
    }
}

/// The registry of workdirs under one installation directory.
pub struct Workdirs {
    pub suibase_home: String,
    pub workdirs: Vec<Workdir>,
}

fn make_workdir(home: &str, name: &str) -> (r: Workdir)
    ensures
        r.name@ == name@,
        r.suibase_yaml_default@ == default_yaml_path(home@, name@),
        r.suibase_yaml_user@ == user_yaml_path(home@, name@),
        !r.user_request_start,
{
    let mut d = String::from_str(home);
    d.append("/scripts/defaults/");
    d.append(name);
    d.append("/suibase.yaml");
    let mut u = String::from_str(home);
    u.append("/workdirs/");
    u.append(name);
    u.append("/suibase.yaml");
    Workdir {
        name: String::from_str(name),
        suibase_yaml_default: d,
        suibase_yaml_user: u,
        user_request_start: false,
    }
}

impl Workdirs {
    pub open spec fn wf(&self) -> bool {
        &&& self.workdirs@.len() == workdir_names().len()
        &&& forall|i: int|
            #![trigger self.workdirs@[i]]
            0 <= i < self.workdirs@.len() ==> {
                &&& self.workdirs@[i].name@ == workdir_names()[i]
                &&& self.workdirs@[i].suibase_yaml_default@ == default_yaml_path(
                    self.suibase_home@,
                    workdir_names()[i],
                )
                &&& self.workdirs@[i].suibase_yaml_user@ == user_yaml_path(
                    self.suibase_home@,
                    workdir_names()[i],
                )
            }
    }

    /// The known workdirs under `suibase_home`, none of them flagged to start.
    pub fn new(suibase_home: &str) -> (r: Self)
        ensures
            r.wf(),
            r.suibase_home@ == suibase_home@,
            forall|i: int| 0 <= i < r.workdirs@.len() ==> !(#[trigger] r.workdirs@[i]).user_request_start,
    {
        let mut workdirs: Vec<Workdir> = Vec::new();
        workdirs.push(make_workdir(suibase_home, "localnet"));
        workdirs.push(make_workdir(suibase_home, "devnet"));
        workdirs.push(make_workdir(suibase_home, "testnet"));
        workdirs.push(make_workdir(suibase_home, "mainnet"));
        Workdirs { suibase_home: String::from_str(suibase_home), workdirs }
    }

    /// The installation directory.
    pub fn suibase_home(&self) -> (r: &str)
        ensures
            r@ == self.suibase_home@,
    {
        self.suibase_home.as_str()
    }

    /// Records whether the user asked for the workdir at `idx` to run.
    pub fn set_user_request_start(&mut self, idx: WorkdirIdx, start: bool)
        requires
            old(self).wf(),
            idx < old(self).workdirs@.len(),
        ensures
            final(self).wf(),
            final(self).suibase_home == old(self).suibase_home,
            final(self).workdirs@.len() == old(self).workdirs@.len(),
            final(self).workdirs@[idx as int].user_request_start == start,
            final(self).workdirs@[idx as int].name == old(self).workdirs@[idx as int].name,
            final(self).workdirs@[idx as int].suibase_yaml_default
                == old(self).workdirs@[idx as int].suibase_yaml_default,
            final(self).workdirs@[idx as int].suibase_yaml_user
                == old(self).workdirs@[idx as int].suibase_yaml_user,
            forall|k: int|
                0 <= k < old(self).workdirs@.len() && k != idx ==> #[trigger] final(self).workdirs@[k]
                    == old(self).workdirs@[k],
    {
        let w = &self.workdirs[idx as usize];
        let nw = Workdir {
            name: w.name.clone(),
            suibase_yaml_default: w.suibase_yaml_default.clone(),
            suibase_yaml_user: w.suibase_yaml_user.clone(),
            user_request_start: start,
        };
        self.workdirs.set(idx as usize, nw);
    }

    /// The workdir whose configuration file is `path`: the first one that matches.
    pub fn find_workdir(&self, path: &str) -> (r: Option<(WorkdirIdx, &Workdir)>)
        requires
            self.wf(),
        ensures
            match r {
                Some((i, w)) => {
                    &&& i < self.workdirs@.len()
                    &&& *w == self.workdirs@[i as int]
                    &&& path_matches(self.workdirs@[i as int], path@)
                    &&& forall|k: int| 0 <= k < i ==> !path_matches(#[trigger] self.workdirs@[k], path@)
                },
                None => forall|k: int|
                    0 <= k < self.workdirs@.len() ==> !path_matches(#[trigger] self.workdirs@[k], path@),
            },
    {
        let mut i: usize = 0;
        while i < self.workdirs.len()
            invariant
                self.wf(),
                i <= self.workdirs@.len(),
                forall|k: int| 0 <= k < i ==> !path_matches(#[trigger] self.workdirs@[k], path@),
            decreases self.workdirs@.len() - i,
        {
            let w = &self.workdirs[i];
            if same_text(w.suibase_yaml_default.as_str(), path) || same_text(
                w.suibase_yaml_user.as_str(),
                path,
            ) {
                return Some((i as u8, w));
            }
            i = i + 1;
        }
        None
    }

    /// Conventional listening port of the workdir at `idx`.
    pub fn default_proxy_port(&self, idx: WorkdirIdx) -> (r: u16)
        requires
            self.wf(),
            idx < self.workdirs@.len(),
        ensures
            r == default_port(idx as int),
    {
        44340 + idx as u16
    }

    /// One config-change event per workdir flagged to start, naming its default
    /// configuration file, in workdir order.
    pub fn priming_msgs(&self) -> (r: Vec<AdminControllerMsg>)
        ensures
            r@ == priming_spec(self.workdirs@),
    {
        let mut r: Vec<AdminControllerMsg> = Vec::new();
        let mut i: usize = 0;
        while i < self.workdirs.len()
            invariant
                i <= self.workdirs@.len(),
                r@ == priming_spec(self.workdirs@.take(i as int)),
            decreases self.workdirs@.len() - i,
        {
            assert(self.workdirs@.take(i + 1).drop_last() =~= self.workdirs@.take(i as int));
            let w = &self.workdirs[i];
            if w.user_request_start {
                r.push(AdminControllerMsg::notif_config_file_change(w.suibase_yaml_default.clone()));
            }
            i = i + 1;
        }
        assert(self.workdirs@.take(i as int) =~= self.workdirs@);
        r
    }
}

} // verus!

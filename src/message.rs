use vstd::prelude::*;

verus! {

/// Small integer that identifies a workdir.
pub type WorkdirIdx = u8;

/// Tag of an event sent toward the admin controller.
pub type AdminControllerEventID = u8;

/// The one recognised event: a workdir's configuration file changed.
pub const EVENT_NOTIF_CONFIG_FILE_CHANGE: u8 = 1;

/// Message sent toward the admin controller from various sources.
#[derive(Debug)]
pub struct AdminControllerMsg {
    pub event_id: AdminControllerEventID,
    pub workdir_idx: Option<WorkdirIdx>,
    pub data_string: Option<String>,
}

/// The message that announces a change of the configuration file at `path`.
pub open spec fn config_change_msg(path: String) -> AdminControllerMsg {
    AdminControllerMsg {
        event_id: EVENT_NOTIF_CONFIG_FILE_CHANGE,
        workdir_idx: None,
        data_string: Some(path),
    }
}

impl AdminControllerMsg {
    /// An empty message: no recognised kind, no workdir, no payload.
    pub fn new() -> (r: Self)
        ensures
            r.event_id == 0,
            r.workdir_idx is None,
            r.data_string is None,
    {
        AdminControllerMsg { event_id: 0, workdir_idx: None, data_string: None }
    }

    /// A copy of the path payload, if any.
    pub fn data_string(&self) -> (r: Option<String>)
        ensures
            r == self.data_string,
    {
        self.data_string.clone()
    }

    /// Announces a change of the configuration file at `path`.
    pub fn notif_config_file_change(path: String) -> (r: Self)
        ensures
            r == config_change_msg(path),
    {
        AdminControllerMsg {
            event_id: EVENT_NOTIF_CONFIG_FILE_CHANGE,
            workdir_idx: None,
            data_string: Some(path),
        }
    }
}

} // verus!

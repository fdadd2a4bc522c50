//! The table of top-level windows announced by a compositor, keyed by the
//! protocol id of each window's handle, and which of them is active.
use std::collections::HashMap;
use vstd::prelude::*;

verus! {

broadcast use vstd::std_specs::hash::group_hash_axioms;

/// App id and title of a window before the compositor sends them.
pub const UNKNOWN: &'static str = "unknown";

/// What is known of one window.
pub struct WindowInfo {
    pub app_id: String,
    pub title: String,
}

/// A change of one window, as announced on its handle.
pub enum HandleEvent {
    Title { title: String },
    AppId { app_id: String },
    /// The window's states changed; `activated` tells whether it now has
    /// the focus.
    State { activated: bool },
    Done,
    Closed,
}

/// Why the active window cannot be reported.
#[derive(Debug, Clone, Copy, PartialEq, Eq, Structural)]
pub enum ActiveWindowError {
    /// No window was activated yet.
    Unknown,
    /// The active window is not in the table.
    NotFound { id: u32 },
}

pub struct ToplevelState {
    pub windows: HashMap<u32, WindowInfo>,
    pub current_window_id: Option<u32>,
}

impl ToplevelState {
    pub fn new() -> (r: ToplevelState)
        ensures
            r.windows@ == Map::<u32, WindowInfo>::empty(),
            r.current_window_id is None,
    {
        ToplevelState { windows: HashMap::new(), current_window_id: None }
    }

    /// A new window `id` whose app id and title are not known yet.
    pub fn add_toplevel(&mut self, id: u32)
        ensures
            final(self).windows@.dom() == old(self).windows@.dom().insert(id),
            final(self).windows@.remove(id) == old(self).windows@.remove(id),
            final(self).windows@[id].app_id@ == UNKNOWN@,
            final(self).windows@[id].title@ == UNKNOWN@,
            final(self).current_window_id == old(self).current_window_id,
    {
        self.windows.insert(id, WindowInfo { app_id: String::from_str(UNKNOWN), title: String::from_str(UNKNOWN) });
        proof {
            assert(self.windows@.remove(id) =~= old(self).windows@.remove(id));
            assert(self.windows@.dom() =~= old(self).windows@.dom().insert(id));
        }
    }

    /// Applies `event` of window `id`; returns whether the window is known.
    /// A title or app id replaces the old one, activation makes the window
    /// the active one, closing removes it from the table.
    pub fn handle_event(&mut self, id: u32, event: HandleEvent) -> (found: bool)
        ensures
            found == old(self).windows@.contains_key(id),
            !found ==> final(self).windows@ == old(self).windows@
                && final(self).current_window_id == old(self).current_window_id,
            found ==> match event {
                HandleEvent::Title { title } => {
                    &&& final(self).windows@.dom() == old(self).windows@.dom()
                    &&& final(self).windows@.remove(id) == old(self).windows@.remove(id)
                    &&& final(self).windows@[id].title@ == title@
                    &&& final(self).windows@[id].app_id == old(self).windows@[id].app_id
                    &&& final(self).current_window_id == old(self).current_window_id
                },
                HandleEvent::AppId { app_id } => {
                    &&& final(self).windows@.dom() == old(self).windows@.dom()
                    &&& final(self).windows@.remove(id) == old(self).windows@.remove(id)
                    &&& final(self).windows@[id].app_id@ == app_id@
                    &&& final(self).windows@[id].title == old(self).windows@[id].title
                    &&& final(self).current_window_id == old(self).current_window_id
                },
                HandleEvent::State { activated } => {
                    &&& final(self).windows@ == old(self).windows@
                    &&& final(self).current_window_id == if activated {
                        Some(id)
                    } else {
                        old(self).current_window_id
                    }
                },
                HandleEvent::Done => {
                    &&& final(self).windows@ == old(self).windows@
                    &&& final(self).current_window_id == old(self).current_window_id
                },
                HandleEvent::Closed => {
                    &&& final(self).windows@ == old(self).windows@.remove(id)
                    &&& final(self).current_window_id == old(self).current_window_id
                },
            },
    {
        if !self.windows.contains_key(&id) {
            return false;
        }
        match event {
            HandleEvent::Title { title } => {
                let old_info = self.windows.remove(&id);
                match old_info {
                    Some(info) => {
                        self.windows.insert(id, WindowInfo { app_id: info.app_id, title });
                    },
                    None => {},
                }
                proof {
                    assert(self.windows@.remove(id) =~= old(self).windows@.remove(id));
                    assert(self.windows@.dom() =~= old(self).windows@.dom());
                }
            },
            HandleEvent::AppId { app_id } => {
                let old_info = self.windows.remove(&id);
                match old_info {
                    Some(info) => {
                        self.windows.insert(id, WindowInfo { app_id, title: info.title });
                    },
                    None => {},
                }
                proof {
                    assert(self.windows@.remove(id) =~= old(self).windows@.remove(id));
                    assert(self.windows@.dom() =~= old(self).windows@.dom());
                }
            },
            HandleEvent::State { activated } => {
                if activated {
                    self.current_window_id = Some(id);
                }
            },
            HandleEvent::Done => {},
            HandleEvent::Closed => {
                self.windows.remove(&id);
            },
        }
        true
    }

    /// The window that has the focus.
    pub fn get_active_window(&self) -> (r: Result<&WindowInfo, ActiveWindowError>)
        ensures
            match self.current_window_id {
                None => r == Err::<&WindowInfo, ActiveWindowError>(ActiveWindowError::Unknown),
                Some(id) => if self.windows@.contains_key(id) {
                    r matches Ok(w) && *w == self.windows@[id]
                } else {
                    r == Err::<&WindowInfo, ActiveWindowError>(ActiveWindowError::NotFound { id })
                },
            },
    {
        match self.current_window_id {
            None => Err(ActiveWindowError::Unknown),
            Some(id) => match self.windows.get(&id) {
                Some(w) => Ok(w),
                None => Err(ActiveWindowError::NotFound { id }),
            },
        }
    }
}

} // verus!

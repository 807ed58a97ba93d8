use vstd::prelude::*;

use crate::window_size::WindowSize;
use crate::window_type::WindowType;

verus! {

/// What the audio thread must change to follow the parameters: the new
/// window size and the new window type, where they changed.
#[derive(Debug, Clone, Copy, PartialEq, Eq)]
pub struct SettingsUpdate {
    pub window_size: Option<WindowSize>,
    pub window_type: Option<WindowType>,
}

/// The change that a setting calls for, given the one last seen.
pub open spec fn change_of<A>(previous: Option<A>, current: A) -> Option<A> {
    if previous == Some(current) {
        None
    } else {
        Some(current)
    }
}

/// The window size and type that the audio thread last followed. Nothing is
/// known before the first call, so that one calls for both.
pub struct SettingsTracker {
    prev_window_size: Option<WindowSize>,
    prev_window_type: Option<WindowType>,
}

impl SettingsTracker {
    pub closed spec fn spec_prev_window_size(self) -> Option<WindowSize> {
        self.prev_window_size
    }

    pub closed spec fn spec_prev_window_type(self) -> Option<WindowType> {
        self.prev_window_type
    }

    /// A tracker that has seen no settings yet.
    pub fn new() -> (tracker: Self)
        ensures
            tracker.spec_prev_window_size() == None::<WindowSize>,
            tracker.spec_prev_window_type() == None::<WindowType>,
    {
        SettingsTracker { prev_window_size: None, prev_window_type: None }
    }

    /// Takes in the current window size and type, and returns what changed
    /// since the last call: a new window size calls for the transforms to be
    /// resized (and the latency reported anew), a new window type for the
    /// window function to be replaced.
    pub fn update(&mut self, window_size: WindowSize, window_type: WindowType) -> (update:
        SettingsUpdate)
        ensures
            update.window_size == change_of(old(self).spec_prev_window_size(), window_size),
            update.window_type == change_of(old(self).spec_prev_window_type(), window_type),
            final(self).spec_prev_window_size() == Some(window_size),
            final(self).spec_prev_window_type() == Some(window_type),
    {
        let size_changed = match self.prev_window_size {
            Some(previous) => previous != window_size,
            None => true,
        };
        let type_changed = match self.prev_window_type {
            Some(previous) => previous != window_type,
            None => true,
        };
        self.prev_window_size = Some(window_size);
        self.prev_window_type = Some(window_type);
        SettingsUpdate {
            window_size: if size_changed {
                Some(window_size)
            } else {
                None
            },
            window_type: if type_changed {
                Some(window_type)
            } else {
                None
            },
        }
    }
}

/// Once the settings have been followed, the same settings call for no
/// change.
pub proof fn lemma_update_settles(window_size: WindowSize, window_type: WindowType)
    ensures
        change_of(Some(window_size), window_size) == None::<WindowSize>,
        change_of(Some(window_type), window_type) == None::<WindowType>,
{
}

} // verus!

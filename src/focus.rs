//! The focus-change reactor: on each focus notification, decides whether to
//! look up the window, and whether to switch the layout. The caller performs
//! each action it asks for and hands back what came of it.
use vstd::prelude::*;

use crate::config::{lookup, AppConfig};
use crate::text::lower_of;

verus! {

/// What the reactor asks its caller to do next.
#[derive(Clone, Copy, Debug, PartialEq, Eq, Structural)]
pub enum FocusAction {
    /// Nothing, until the next focus notification.
    Idle,
    /// Resolve the class of this window and hand it to
    /// [`FocusReactor::on_window_class`].
    ResolveClass(u32),
    /// Read the current layout and hand it to
    /// [`FocusReactor::on_current_layout`] with this target layout.
    ReadLayout(u8),
    /// Set this layout.
    SetLayout(u8),
}

/// Whether a notification for window `id` is a change of focus after the
/// last window `last`.
pub open spec fn focus_changes(last: Option<u32>, id: u32) -> bool {
    last != Some(id)
}

/// How many of the notifications `ids`, taken in order after the last window
/// `last`, start a lookup of the window.
pub open spec fn lookups_started(last: Option<u32>, ids: Seq<u32>) -> nat
    decreases ids.len(),
{
    if ids.len() == 0 {
        0
    } else {
        (if focus_changes(last, ids[0]) {
            1nat
        } else {
            0nat
        }) + lookups_started(Some(ids[0]), ids.drop_first())
    }
}

/// The action that a resolved window class leads to: reading the layout when
/// the class, in lowercase, is mapped, else nothing.
pub open spec fn action_for_class(
    window_layout_map: Map<Seq<char>, u8>,
    window_class: Option<Seq<char>>,
) -> FocusAction {
    match window_class {
        Some(c) => match lookup(window_layout_map, lower_of(c)) {
            Some(t) => FocusAction::ReadLayout(t),
            None => FocusAction::Idle,
        },
        None => FocusAction::Idle,
    }
}

/// The action that the current layout leads to: a switch only where the
/// layout could be read and differs from the target.
pub open spec fn action_for_layout(target: u8, current: Option<u8>) -> FocusAction {
    match current {
        Some(c) => if c != target {
            FocusAction::SetLayout(target)
        } else {
            FocusAction::Idle
        },
        None => FocusAction::Idle,
    }
}

/// The focus cursor: the last window that a notification was taken for.
pub struct FocusReactor {
    last_window_id: Option<u32>,
}

impl View for FocusReactor {
    type V = Option<u32>;

    closed spec fn view(&self) -> Option<u32> {
        self.last_window_id
    }
}

impl FocusReactor {
    /// No window seen yet.
    pub fn new() -> (r: FocusReactor)
        ensures
            r@ is None,
    {
        FocusReactor { last_window_id: None }
    }

    /// The last window that a notification was taken for.
    pub fn last_window_id(&self) -> (r: Option<u32>)
        ensures
            r == self@,
    {
        self.last_window_id
    }

    /// Takes a focus notification for window `window_id`. The same window
    /// again asks for nothing; another moves the cursor to it first, so that
    /// a failure later on does not make the next notification retry, and
    /// asks for its class.
    pub fn handle_window_change(&mut self, window_id: u32) -> (a: FocusAction)
        ensures
            final(self)@ == Some(window_id),
            a == (if focus_changes(old(self)@, window_id) {
                FocusAction::ResolveClass(window_id)
            } else {
                FocusAction::Idle
            }),
    {
        if self.last_window_id == Some(window_id) {
            return FocusAction::Idle;
        }
        self.last_window_id = Some(window_id);
        FocusAction::ResolveClass(window_id)
    }

    /// Takes the class of the focused window, `None` where it could not be
    /// resolved, and looks up its layout.
    pub fn on_window_class(config: &AppConfig, window_class: Option<&str>) -> (a: FocusAction)
        ensures
            a == action_for_class(
                config@.window_layout_map,
                match window_class {
                    Some(c) => Some(c@),
                    None => None,
                },
            ),
    {
        match window_class {
            Some(c) => match config.get_layout(c) {
                Some(t) => FocusAction::ReadLayout(t),
                None => FocusAction::Idle,
            },
            None => FocusAction::Idle,
        }
    }

    /// Takes the current layout, `None` where it could not be read, and
    /// decides on a switch to `target`. A layout that is already right is
    /// left alone.
    pub fn on_current_layout(target: u8, current: Option<u8>) -> (a: FocusAction)
        ensures
            a == action_for_layout(target, current),
            current == Some(target) ==> a == FocusAction::Idle,
    {
        match current {
            Some(c) => if c != target {
                FocusAction::SetLayout(target)
            } else {
                FocusAction::Idle
            },
            None => FocusAction::Idle,
        }
    }
}

/// Repeated notifications for one window start at most one lookup, and so at
/// most one switch, whatever window came before; none at all when that
/// window already had the focus.
pub proof fn lemma_repeated_focus_looks_up_once(last: Option<u32>, id: u32, ids: Seq<u32>)
    requires
        forall|i: int| 0 <= i < ids.len() ==> ids[i] == id,
    ensures
        lookups_started(last, ids) <= 1,
        last == Some(id) ==> lookups_started(last, ids) == 0,
    decreases ids.len(),
{
    if ids.len() > 0 {
        let rest = ids.drop_first();
        assert forall|i: int| 0 <= i < rest.len() implies rest[i] == id by {
            assert(rest[i] == ids[i + 1]);
        }
        lemma_repeated_focus_looks_up_once(Some(id), id, rest);
    }
}

} // verus!

//! The identity of the currently focused window, as last reported by the
//! external focus tracker, and the service state that holds it.
//!
//! The record is replaced wholesale on every focus notification and read as
//! an immutable copy; no history is kept.

use vstd::prelude::*;

verus! {

/// What the focus tracker reports of the focused window: its application
/// class, application name and window title.
pub struct ActiveWindow {
    pub title: String,
    pub res_class: String,
    pub res_name: String,
}

/// The mathematical value of an [`ActiveWindow`]: the three fields as
/// character sequences.
pub ghost struct ActiveWindowView {
    pub title: Seq<char>,
    pub res_class: Seq<char>,
    pub res_name: Seq<char>,
}

impl View for ActiveWindow {
    type V = ActiveWindowView;

    open spec fn view(&self) -> ActiveWindowView {
        (ActiveWindowView { title: self.title@, res_class: self.res_class@, res_name: self.res_name@ })
    }
}

/// The record after a focus notification carrying the three given values:
/// every field comes from that notification, none survives from before.
pub open spec fn updated_window(
    title: Seq<char>,
    res_class: Seq<char>,
    res_name: Seq<char>,
) -> ActiveWindowView {
    ActiveWindowView { title, res_class, res_name }
}

/// What a read of the record yields, in the order (title, application class,
/// application name).
pub open spec fn window_snapshot(v: ActiveWindowView) -> (Seq<char>, Seq<char>, Seq<char>) {
    (v.title, v.res_class, v.res_name)
}

/// The gesture service's state: the latest focused-window snapshot.
pub struct GesturesHelper {
    pub active_window: ActiveWindow,
}

impl View for GesturesHelper {
    type V = ActiveWindowView;

    open spec fn view(&self) -> ActiveWindowView {
        self.active_window@
    }
}

impl GesturesHelper {
    /// The state at process start: no window has been reported yet, so all
    /// three fields are empty.
    pub fn new() -> (r: GesturesHelper)
        ensures
            r@.title == Seq::<char>::empty(),
            r@.res_class == Seq::<char>::empty(),
            r@.res_name == Seq::<char>::empty(),
    {
        GesturesHelper {
            active_window: ActiveWindow {
                title: String::new(),
                res_class: String::new(),
                res_name: String::new(),
            },
        }
    }

    /// Replaces all three fields of the focused-window record at once; no
    /// validation, no partial update.
    pub fn notify_active_window(&mut self, title: String, res_class: String, res_name: String)
        ensures
            final(self)@ == updated_window(title@, res_class@, res_name@),
    {
        self.active_window.title = title;
        self.active_window.res_class = res_class;
        self.active_window.res_name = res_name;
    }

    /// Returns the current record as an immutable copy, in the order
    /// (title, application class, application name); the state is unchanged.
    pub fn get_active_window(&self) -> (r: (String, String, String))
        ensures
            (r.0@, r.1@, r.2@) == window_snapshot(self@),
    {
        (
            self.active_window.title.clone(),
            self.active_window.res_class.clone(),
            self.active_window.res_name.clone(),
        )
    }
}

/// An update followed immediately by a snapshot yields exactly the values
/// that were passed to the update, with no field partially applied: whatever
/// the record held before, the snapshot after the update is the updated
/// triple itself.
pub proof fn lemma_update_then_snapshot(
    title: Seq<char>,
    res_class: Seq<char>,
    res_name: Seq<char>,
)
    ensures
        window_snapshot(updated_window(title, res_class, res_name)) == (title, res_class, res_name),
{
}

} // verus!

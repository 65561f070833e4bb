//! Client windows and the capability set that every display-server backend offers.

use vstd::prelude::*;

use crate::text::{
    chars_of, contains_str, has_infix, has_prefix, starts_with, string_of, strip_all_prefix,
    strip_all_prefix_chars,
};

verus! {

/// A window of the client program, as a backend reported it.
///
/// Identity is `id`; `title` is what remains of the window title once the
/// client prefix has been taken off.
#[derive(Debug, Clone)]
pub struct EveWindow {
    pub id: u32,
    pub title: String,
}

/// A failure reported by a display-server backend.
#[derive(Debug, Clone, PartialEq, Eq)]
pub enum WmError {
    /// Listing the windows or asking for the active one failed.
    Query(String),
    /// The display server did not take an activation request.
    Activation(String),
    /// Moving or resizing a window failed.
    Layout(String),
}

/// What the cycling logic needs from a display server.
///
/// Each backend (X11, or one of the Wayland compositors) implements it.
/// Activation is fire-and-forget: its effect is only observable through a
/// later `get_active_window`.
pub trait WindowManager {
    /// The client windows, in the order the display server lists them.
    fn get_eve_windows(&self) -> Result<Vec<EveWindow>, WmError>;

    /// Asks the display server to raise and focus the window `window_id`.
    fn activate_window(&self, window_id: u32) -> Result<(), WmError>;

    /// Moves and resizes every window of `windows` to one rectangle.
    ///
    /// A failure on one window does not stop the others.
    fn stack_windows(
        &self,
        windows: &[EveWindow],
        x: i32,
        y: i32,
        width: u32,
        height: u32,
    ) -> Result<(), WmError>;

    /// The id of the window that holds input focus.
    fn get_active_window(&self) -> Result<u32, WmError>;

    /// The id of the first window whose full title is `title`, if any.
    fn find_window_by_title(&self, title: &str) -> Result<Option<u32>, WmError>;

    /// Moves a window; backends that cannot place windows do nothing.
    fn move_window(&self, window_id: u32, x: i32, y: i32) -> Result<(), WmError>;
}

/// The ids of a window sequence, position by position.
pub open spec fn window_ids(ws: Seq<EveWindow>) -> Seq<u32> {
    ws.map_values(|w: EveWindow| w.id)
}

/// The titles of a window sequence, position by position.
pub open spec fn window_titles(ws: Seq<EveWindow>) -> Seq<Seq<char>> {
    ws.map_values(|w: EveWindow| w.title@)
}

/// A title that belongs to a client window: it carries the client prefix and
/// is not the launcher's.
pub open spec fn is_client_title(t: Seq<char>) -> bool {
    has_prefix(t, "EVE - "@) && !has_infix(t, "Launcher"@)
}

/// The client windows among `(id, title)` pairs, in their order, each with
/// every leading copy of the client prefix taken off its title.
pub open spec fn client_entries(raw: Seq<(u32, Seq<char>)>) -> Seq<(u32, Seq<char>)>
    decreases raw.len(),
{
    if raw.len() == 0 {
        Seq::empty()
    } else {
        let rest = client_entries(raw.drop_last());
        let (id, t) = raw.last();
        if is_client_title(t) {
            rest.push((id, strip_all_prefix(t, "EVE - "@)))
        } else {
            rest
        }
    }
}

/// `(id, title)` pairs as views.
pub open spec fn entry_views(raw: Seq<(u32, String)>) -> Seq<(u32, Seq<char>)> {
    raw.map_values(|e: (u32, String)| (e.0, e.1@))
}

/// A window sequence as `(id, title)` pairs.
pub open spec fn window_entries(ws: Seq<EveWindow>) -> Seq<(u32, Seq<char>)> {
    ws.map_values(|w: EveWindow| (w.id, w.title@))
}

/// Picks the client windows out of every window a display server lists,
/// given as `(id, full title)` pairs, keeping their order and taking the
/// client prefix off their titles.
pub fn select_client_windows(candidates: &[(u32, String)]) -> (r: Vec<EveWindow>)
    ensures
        window_entries(r@) == client_entries(entry_views(candidates@)),
{
    let prefix = chars_of("EVE - ");
    let mut r: Vec<EveWindow> = Vec::new();
    let mut i: usize = 0;
    while i < candidates.len()
        invariant
            i <= candidates@.len(),
            prefix@ == "EVE - "@,
            window_entries(r@) == client_entries(
                entry_views(candidates@).subrange(0, i as int),
            ),
        decreases candidates.len() - i,
    {
        let ghost before = entry_views(candidates@).subrange(0, i as int);
        let ghost after = entry_views(candidates@).subrange(0, i as int + 1);
        assert(after.drop_last() =~= before);
        let id = candidates[i].0;
        let title = chars_of(candidates[i].1.as_str());
        if starts_with(title.as_slice(), prefix.as_slice()) && !contains_str(
            title.as_slice(),
            "Launcher",
        ) {
            let stripped = strip_all_prefix_chars(title.as_slice(), prefix.as_slice());
            let w = EveWindow { id, title: string_of(stripped.as_slice()) };
            r.push(w);
            assert(window_entries(r@) =~= client_entries(before).push(
                (id, strip_all_prefix(title@, "EVE - "@)),
            ));
        }
        i = i + 1;
    }
    assert(entry_views(candidates@).subrange(0, candidates@.len() as int) =~= entry_views(
        candidates@,
    ));
    r
}

} // verus!

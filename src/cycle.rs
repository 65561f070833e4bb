//! The cycling state machine: an ordered window list and a current index.

use vstd::prelude::*;

use crate::window::{window_ids, window_titles, EveWindow, WindowManager, WmError};

verus! {

/// Why a cycle or switch request did not go through.
#[derive(Debug, Clone, PartialEq, Eq)]
pub enum CycleError {
    /// The requested target has no corresponding window.
    OutOfRange,
    /// The backend refused a request.
    Backend(WmError),
}

/// The mathematical model of a [`CycleState`].
pub struct CycleView {
    pub windows: Seq<EveWindow>,
    pub current: int,
    pub last_active: Option<u32>,
}

/// Where a switch request lands: a direct index, or, when a name order is
/// given, the first window titled with the name at that position.
pub open spec fn resolve_target(
    windows: Seq<EveWindow>,
    target: int,
    order: Option<Seq<Seq<char>>>,
) -> Option<int> {
    match order {
        None => if 0 <= target < windows.len() {
            Some(target)
        } else {
            None
        },
        Some(names) => if 0 <= target < names.len() {
            window_titles(windows).index_of_first(names[target])
        } else {
            None
        },
    }
}

/// The names of an optional name order, as character sequences.
pub open spec fn names_of(order: Option<&[String]>) -> Option<Seq<Seq<char>>> {
    match order {
        Some(names) => Some(names@.map_values(|n: String| n@)),
        None => None,
    }
}

impl CycleView {
    /// The index points into the list, and is zero when the list is empty.
    pub open spec fn wf(self) -> bool {
        &&& 0 <= self.current
        &&& self.windows.len() == 0 ==> self.current == 0
        &&& self.windows.len() > 0 ==> self.current < self.windows.len()
    }

    pub open spec fn is_empty(self) -> bool {
        self.windows.len() == 0
    }

    /// The id of the window the index points at.
    pub open spec fn current_id(self) -> Option<u32> {
        if self.is_empty() {
            None
        } else {
            Some(self.windows[self.current].id)
        }
    }

    pub open spec fn with_current(self, k: int) -> CycleView {
        CycleView { windows: self.windows, current: k, last_active: self.last_active }
    }

    /// One step forward, wrapping at the end; nothing on an empty list.
    pub open spec fn forwarded(self) -> CycleView {
        if self.is_empty() {
            self
        } else {
            self.with_current((self.current + 1) % (self.windows.len() as int))
        }
    }

    /// One step backward, wrapping at the start; nothing on an empty list.
    pub open spec fn backwarded(self) -> CycleView {
        if self.is_empty() {
            self
        } else {
            let n = self.windows.len() as int;
            self.with_current((self.current - 1 + n) % n)
        }
    }

    /// Points at the first window with id `id` and records it as active;
    /// nothing when no window has that id.
    pub open spec fn synced(self, id: u32) -> CycleView {
        match window_ids(self.windows).index_of_first(id) {
            Some(k) => CycleView { windows: self.windows, current: k, last_active: Some(id) },
            None => self,
        }
    }

    /// Synced with `active` when the query gave an id, unchanged otherwise.
    pub open spec fn synced_opt(self, active: Option<u32>) -> CycleView {
        match active {
            Some(id) => self.synced(id),
            None => self,
        }
    }

    /// The list replaced by `new`: the index follows the window it pointed at
    /// when that window is still listed, and is clamped to the new list
    /// otherwise.
    pub open spec fn updated(self, new: Seq<EveWindow>) -> CycleView {
        if new.len() == 0 {
            CycleView { windows: new, current: 0, last_active: self.last_active }
        } else {
            let kept = if self.is_empty() {
                None
            } else {
                window_ids(new).index_of_first(self.windows[self.current].id)
            };
            match kept {
                Some(k) => CycleView { windows: new, current: k, last_active: self.last_active },
                None => CycleView {
                    windows: new,
                    current: if self.current < new.len() {
                        self.current
                    } else {
                        new.len() - 1
                    },
                    last_active: self.last_active,
                },
            }
        }
    }
}

/// The first position of `id` in `ws`.
fn position_of_id(ws: &Vec<EveWindow>, id: u32) -> (r: Option<usize>)
    ensures
        match r {
            Some(k) => window_ids(ws@).index_of_first(id) == Some(k as int),
            None => window_ids(ws@).index_of_first(id) is None,
        },
{
    let ghost ids = window_ids(ws@);
    let mut i: usize = 0;
    while i < ws.len()
        invariant
            i <= ws.len(),
            ids == window_ids(ws@),
            forall|j: int| 0 <= j < i ==> ids[j] != id,
        decreases ws.len() - i,
    {
        if ws[i].id == id {
            proof {
                assert(ids[i as int] == id);
                assert(ids.contains(id));
                ids.index_of_first_ensures(id);
                let idx = ids.index_of_first(id)->0;
                assert(idx == i);
            }
            return Some(i);
        }
        i = i + 1;
    }
    proof {
        ids.index_of_first_ensures(id);
    }
    None
}

/// The first position of a window titled `name` in `ws`.
fn position_of_title(ws: &Vec<EveWindow>, name: &String) -> (r: Option<usize>)
    ensures
        match r {
            Some(k) => window_titles(ws@).index_of_first(name@) == Some(k as int),
            None => window_titles(ws@).index_of_first(name@) is None,
        },
{
    let ghost titles = window_titles(ws@);
    let mut i: usize = 0;
    while i < ws.len()
        invariant
            i <= ws.len(),
            titles == window_titles(ws@),
            forall|j: int| 0 <= j < i ==> titles[j] != name@,
        decreases ws.len() - i,
    {
        if ws[i].title == *name {
            proof {
                assert(titles[i as int] == name@);
                assert(titles.contains(name@));
                titles.index_of_first_ensures(name@);
                let idx = titles.index_of_first(name@)->0;
                assert(idx == i);
            }
            return Some(i);
        }
        i = i + 1;
    }
    proof {
        titles.index_of_first_ensures(name@);
    }
    None
}

/// The ordered list of client windows and the one the cycle points at.
pub struct CycleState {
    windows: Vec<EveWindow>,
    current_index: usize,
    last_known_active_id: Option<u32>,
}

impl View for CycleState {
    type V = CycleView;

    closed spec fn view(&self) -> CycleView {
        CycleView {
            windows: self.windows@,
            current: self.current_index as int,
            last_active: self.last_known_active_id,
        }
    }
}

impl CycleState {
    #[verifier::type_invariant]
    closed spec fn inv(&self) -> bool {
        self@.wf()
    }

    /// An empty state.
    pub fn new() -> (r: Self)
        ensures
            r@.windows.len() == 0,
            r@.current == 0,
            r@.last_active is None,
    {
        CycleState { windows: Vec::new(), current_index: 0, last_known_active_id: None }
    }

    /// Every state is well formed: the index points into a non-empty list
    /// and is zero on an empty one.
    pub fn well_formed(&self)
        ensures
            self@.wf(),
    {
        proof {
            use_type_invariant(self);
        }
    }

    pub fn get_windows(&self) -> (r: &Vec<EveWindow>)
        ensures
            r@ == self@.windows,
    {
        &self.windows
    }

    pub fn get_current_index(&self) -> (r: usize)
        ensures
            r == self@.current,
    {
        self.current_index
    }

    pub fn get_last_known_active_id(&self) -> (r: Option<u32>)
        ensures
            r == self@.last_active,
    {
        self.last_known_active_id
    }

    /// Replaces the window list, keeping the index on the same window when it
    /// is still listed.
    pub fn update_windows(&mut self, new_windows: Vec<EveWindow>)
        ensures
            final(self)@ == old(self)@.updated(new_windows@),
    {
        proof {
            use_type_invariant(&*self);
        }
        let n = new_windows.len();
        if n == 0 {
            *self = CycleState {
                windows: new_windows,
                current_index: 0,
                last_known_active_id: self.last_known_active_id,
            };
            return;
        }
        let kept = if self.windows.len() == 0 {
            None
        } else {
            position_of_id(&new_windows, self.windows[self.current_index].id)
        };
        let k = match kept {
            Some(k) => k,
            None => if self.current_index < n {
                self.current_index
            } else {
                n - 1
            },
        };
        proof {
            if kept is Some {
                window_ids(new_windows@).index_of_first_ensures(
                    self.windows@[self.current_index as int].id,
                );
            }
        }
        *self = CycleState {
            windows: new_windows,
            current_index: k,
            last_known_active_id: self.last_known_active_id,
        };
    }

    /// Points the index at the window that has focus, when it is listed.
    pub fn sync_with_active(&mut self, active_id: u32)
        ensures
            final(self)@ == old(self)@.synced(active_id),
    {
        proof {
            use_type_invariant(&*self);
        }
        match position_of_id(&self.windows, active_id) {
            Some(k) => {
                proof {
                    window_ids(self.windows@).index_of_first_ensures(active_id);
                }
                self.current_index = k;
                self.last_known_active_id = Some(active_id);
            },
            None => {},
        }
    }

    /// Steps the index forward and gives the id of the window it now points
    /// at; nothing happens on an empty list.
    pub fn advance_forward(&mut self) -> (r: Option<u32>)
        ensures
            final(self)@ == old(self)@.forwarded(),
            r == final(self)@.current_id(),
    {
        proof {
            use_type_invariant(&*self);
        }
        let n = self.windows.len();
        if n == 0 {
            return None;
        }
        let k = if self.current_index + 1 < n {
            self.current_index + 1
        } else {
            0
        };
        proof {
            let c = self.current_index as int;
            let m = n as int;
            if c + 1 < m {
                assert((c + 1) % m == c + 1) by (nonlinear_arith)
                    requires 0 <= c + 1 < m;
            } else {
                assert((c + 1) % m == 0) by (nonlinear_arith)
                    requires c + 1 == m, m > 0;
            }
        }
        self.current_index = k;
        Some(self.windows[k].id)
    }

    /// Steps the index backward and gives the id of the window it now points
    /// at; nothing happens on an empty list.
    pub fn advance_backward(&mut self) -> (r: Option<u32>)
        ensures
            final(self)@ == old(self)@.backwarded(),
            r == final(self)@.current_id(),
    {
        proof {
            use_type_invariant(&*self);
        }
        let n = self.windows.len();
        if n == 0 {
            return None;
        }
        let k = if self.current_index == 0 {
            n - 1
        } else {
            self.current_index - 1
        };
        proof {
            let c = self.current_index as int;
            let m = n as int;
            if c == 0 {
                assert((c - 1 + m) % m == m - 1) by (nonlinear_arith)
                    requires c == 0, m > 0;
            } else {
                assert((c - 1 + m) % m == c - 1) by (nonlinear_arith)
                    requires 0 < c < m;
            }
        }
        self.current_index = k;
        Some(self.windows[k].id)
    }

    /// Cycles to the next window and asks the backend to activate it.
    ///
    /// On an empty list nothing happens and the call succeeds. A refused
    /// activation is reported, but the index keeps its new value.
    pub fn cycle_forward<W: WindowManager>(&mut self, wm: &W) -> (r: Result<(), CycleError>)
        ensures
            final(self)@ == old(self)@.forwarded(),
            old(self)@.is_empty() ==> r is Ok,
            r matches Err(e) ==> e is Backend,
    {
        match self.advance_forward() {
            None => Ok(()),
            Some(id) => match wm.activate_window(id) {
                Ok(()) => Ok(()),
                Err(e) => Err(CycleError::Backend(e)),
            },
        }
    }

    /// Cycles to the previous window and asks the backend to activate it.
    ///
    /// On an empty list nothing happens and the call succeeds. A refused
    /// activation is reported, but the index keeps its new value.
    pub fn cycle_backward<W: WindowManager>(&mut self, wm: &W) -> (r: Result<(), CycleError>)
        ensures
            final(self)@ == old(self)@.backwarded(),
            old(self)@.is_empty() ==> r is Ok,
            r matches Err(e) ==> e is Backend,
    {
        match self.advance_backward() {
            None => Ok(()),
            Some(id) => match wm.activate_window(id) {
                Ok(()) => Ok(()),
                Err(e) => Err(CycleError::Backend(e)),
            },
        }
    }

    /// Resolves a switch target and points the index at it, giving the id of
    /// that window; an unresolvable target leaves the state as it was.
    pub fn select_target(&mut self, target: usize, character_order: Option<&[String]>) -> (r:
        Result<u32, CycleError>)
        ensures
            match resolve_target(old(self)@.windows, target as int, names_of(character_order)) {
                Some(k) => {
                    &&& final(self)@ == old(self)@.with_current(k)
                    &&& r == Ok::<u32, CycleError>(old(self)@.windows[k].id)
                },
                None => {
                    &&& final(self)@ == old(self)@
                    &&& r == Err::<u32, CycleError>(CycleError::OutOfRange)
                },
            },
    {
        proof {
            use_type_invariant(&*self);
        }
        let resolved = match character_order {
            None => if target < self.windows.len() {
                Some(target)
            } else {
                None
            },
            Some(names) => if target < names.len() {
                position_of_title(&self.windows, &names[target])
            } else {
                None
            },
        };
        match resolved {
            None => Err(CycleError::OutOfRange),
            Some(k) => {
                proof {
                    if let Some(names) = character_order {
                        window_titles(self.windows@).index_of_first_ensures(names@[target as int]@);
                    }
                }
                self.current_index = k;
                Ok(self.windows[k].id)
            },
        }
    }

    /// Switches to a target window and asks the backend to activate it.
    ///
    /// The target is a direct index, or, when a name order is given, the
    /// position of a name in it. A target with no corresponding window gives
    /// `OutOfRange` and changes nothing.
    pub fn switch_to<W: WindowManager>(
        &mut self,
        target: usize,
        wm: &W,
        character_order: Option<&[String]>,
    ) -> (r: Result<(), CycleError>)
        ensures
            match resolve_target(old(self)@.windows, target as int, names_of(character_order)) {
                Some(k) => {
                    &&& final(self)@ == old(self)@.with_current(k)
                    &&& r matches Err(e) ==> e is Backend
                },
                None => {
                    &&& final(self)@ == old(self)@
                    &&& r == Err::<(), CycleError>(CycleError::OutOfRange)
                },
            },
    {
        match self.select_target(target, character_order) {
            Err(e) => Err(e),
            Ok(id) => match wm.activate_window(id) {
                Ok(()) => Ok(()),
                Err(e) => Err(CycleError::Backend(e)),
            },
        }
    }
}

} // verus!

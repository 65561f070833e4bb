//! The control vocabulary and how one command is carried out against the
//! shared cycle state.

use vstd::prelude::*;

use crate::cycle::{names_of, resolve_target, CycleError, CycleState, CycleView};
use crate::text::{
    chars_eq_str, chars_of, has_prefix, parse_unsigned, parse_unsigned_chars, slice_chars,
    starts_with, trim, trim_chars,
};
use crate::window::WindowManager;

verus! {

/// A request to the daemon.
#[derive(Debug, Clone, Copy, PartialEq, Eq, Structural)]
pub enum Command {
    Forward,
    Backward,
    Switch(usize),
    Refresh,
    Quit,
}

/// The command a control line spells, if any: one of `forward`,
/// `backward`, `refresh`, `quit` or `switch:<N>`, with surrounding
/// whitespace ignored.
pub open spec fn command_of(line: Seq<char>) -> Option<Command> {
    let t = trim(line);
    if t == "forward"@ {
        Some(Command::Forward)
    } else if t == "backward"@ {
        Some(Command::Backward)
    } else if t == "refresh"@ {
        Some(Command::Refresh)
    } else if t == "quit"@ {
        Some(Command::Quit)
    } else if has_prefix(t, "switch:"@) {
        match parse_unsigned(t.subrange("switch:"@.len() as int, t.len() as int), usize::MAX as nat) {
            Some(n) => Some(Command::Switch(n as usize)),
            None => None,
        }
    } else {
        None
    }
}

impl Command {
    /// Reads one control line; a line that spells no command gives `None`.
    pub fn from_str(s: &str) -> (r: Option<Self>)
        ensures
            r == command_of(s@),
    {
        let all = chars_of(s);
        let t = trim_chars(all.as_slice());
        if chars_eq_str(t.as_slice(), "forward") {
            return Some(Command::Forward);
        }
        if chars_eq_str(t.as_slice(), "backward") {
            return Some(Command::Backward);
        }
        if chars_eq_str(t.as_slice(), "refresh") {
            return Some(Command::Refresh);
        }
        if chars_eq_str(t.as_slice(), "quit") {
            return Some(Command::Quit);
        }
        let prefix = chars_of("switch:");
        if !starts_with(t.as_slice(), prefix.as_slice()) {
            return None;
        }
        let digits = slice_chars(t.as_slice(), prefix.len(), t.len());
        match parse_unsigned_chars(digits.as_slice(), usize::MAX as u64) {
            Some(n) => Some(Command::Switch(n as usize)),
            None => None,
        }
    }
}

/// Which way a cycle step goes.
#[derive(Debug, Clone, Copy, PartialEq, Eq, Structural)]
pub enum Direction {
    Forward,
    Backward,
}

/// One cycle step in the given direction.
pub open spec fn stepped(v: CycleView, dir: Direction) -> CycleView {
    match dir {
        Direction::Forward => v.forwarded(),
        Direction::Backward => v.backwarded(),
    }
}

/// What the daemon does after a command.
#[derive(Debug, Clone, Copy, PartialEq, Eq, Structural)]
pub enum Outcome {
    Continue,
    Quit,
}

/// Syncs the state with the window that has focus, when the backend reports
/// one; a failed query skips the sync.
fn sync_with_backend<W: WindowManager>(state: &mut CycleState, wm: &W) -> (active: Ghost<
    Option<u32>,
>)
    ensures
        final(state)@ == old(state)@.synced_opt(active@),
{
    match wm.get_active_window() {
        Ok(id) => {
            state.sync_with_active(id);
            Ghost(Some(id))
        },
        Err(_) => Ghost(None),
    }
}

/// Syncs with the focused window, then cycles one step and activates the
/// window reached.
///
/// On an empty list this succeeds and changes nothing.
pub fn sync_and_cycle<W: WindowManager>(state: &mut CycleState, wm: &W, dir: Direction) -> (r:
    Result<(), CycleError>)
    ensures
        exists|a: Option<u32>| final(state)@ == stepped(#[trigger] old(state)@.synced_opt(a), dir),
        old(state)@.is_empty() ==> r is Ok,
        r matches Err(e) ==> e is Backend,
{
    let active = sync_with_backend(state, wm);
    let r = match dir {
        Direction::Forward => state.cycle_forward(wm),
        Direction::Backward => state.cycle_backward(wm),
    };
    assert(final(state)@ == stepped(old(state)@.synced_opt(active@), dir));
    r
}

/// Carries out one command against the state, with the backend, as the
/// daemon does for every control line.
///
/// Every cycle and switch command first syncs with the window that has
/// focus; a refresh replaces the list with a fresh query; `Quit` changes
/// nothing and asks the caller to stop.
pub fn handle_command<W: WindowManager>(
    state: &mut CycleState,
    wm: &W,
    command: Command,
    character_order: Option<&[String]>,
) -> (r: Result<Outcome, CycleError>)
    ensures
        r is Ok ==> r == Ok::<Outcome, CycleError>(if command == Command::Quit {
            Outcome::Quit
        } else {
            Outcome::Continue
        }),
        match command {
            Command::Forward => {
                &&& exists|a: Option<u32>|
                    final(state)@ == #[trigger] old(state)@.synced_opt(a).forwarded()
                &&& old(state)@.is_empty() ==> r is Ok
                &&& r matches Err(e) ==> e is Backend
            },
            Command::Backward => {
                &&& exists|a: Option<u32>|
                    final(state)@ == #[trigger] old(state)@.synced_opt(a).backwarded()
                &&& old(state)@.is_empty() ==> r is Ok
                &&& r matches Err(e) ==> e is Backend
            },
            Command::Switch(target) => exists|a: Option<u32>|
                {
                    let s = #[trigger] old(state)@.synced_opt(a);
                    match resolve_target(
                        old(state)@.windows,
                        target as int,
                        names_of(character_order),
                    ) {
                        Some(k) => final(state)@ == s.with_current(k) && (r matches Err(e)
                            ==> e is Backend),
                        None => final(state)@ == s && r == Err::<Outcome, CycleError>(
                            CycleError::OutOfRange,
                        ),
                    }
                },
            Command::Refresh => {
                ||| r is Ok && exists|ws: Seq<crate::window::EveWindow>|
                    final(state)@ == #[trigger] old(state)@.updated(ws)
                ||| r matches Err(e) && e is Backend && final(state)@ == old(state)@
            },
            Command::Quit => r == Ok::<Outcome, CycleError>(Outcome::Quit) && final(state)@
                == old(state)@,
        },
{
    match command {
        Command::Forward => {
            let active = sync_with_backend(state, wm);
            let r = state.cycle_forward(wm);
            assert(final(state)@ == old(state)@.synced_opt(active@).forwarded());
            match r {
                Ok(()) => Ok(Outcome::Continue),
                Err(e) => Err(e),
            }
        },
        Command::Backward => {
            let active = sync_with_backend(state, wm);
            let r = state.cycle_backward(wm);
            assert(final(state)@ == old(state)@.synced_opt(active@).backwarded());
            match r {
                Ok(()) => Ok(Outcome::Continue),
                Err(e) => Err(e),
            }
        },
        Command::Switch(target) => {
            let active = sync_with_backend(state, wm);
            let r = state.switch_to(target, wm, character_order);
            assert(old(state)@.synced_opt(active@).windows == old(state)@.windows);
            match r {
                Ok(()) => Ok(Outcome::Continue),
                Err(e) => Err(e),
            }
        },
        Command::Refresh => match wm.get_eve_windows() {
            Ok(windows) => {
                let ghost listed = windows@;
                state.update_windows(windows);
                assert(final(state)@ == old(state)@.updated(listed));
                Ok(Outcome::Continue)
            },
            Err(e) => Err(CycleError::Backend(e)),
        },
        Command::Quit => Ok(Outcome::Quit),
    }
}

} // verus!

use std::cell::{Cell, RefCell};
use std::sync::Mutex;

use nicotine::{
    handle_command, sync_and_cycle, Command, CycleError, CycleState, Direction, EveWindow,
    Outcome, WindowManager, WmError,
};

struct FakeManager {
    windows: RefCell<Vec<EveWindow>>,
    active: Cell<Option<u32>>,
    refuse_activation: bool,
    activated: RefCell<Vec<u32>>,
}

impl FakeManager {
    fn new(windows: Vec<EveWindow>) -> Self {
        FakeManager {
            windows: RefCell::new(windows),
            active: Cell::new(None),
            refuse_activation: false,
            activated: RefCell::new(Vec::new()),
        }
    }

    fn activations(&self) -> Vec<u32> {
        self.activated.borrow().clone()
    }
}

impl WindowManager for FakeManager {
    fn get_eve_windows(&self) -> Result<Vec<EveWindow>, WmError> {
        Ok(self.windows.borrow().clone())
    }

    fn activate_window(&self, window_id: u32) -> Result<(), WmError> {
        if self.refuse_activation {
            return Err(WmError::Activation(format!("window {} is gone", window_id)));
        }
        self.activated.borrow_mut().push(window_id);
        self.active.set(Some(window_id));
        Ok(())
    }

    fn stack_windows(
        &self,
        _windows: &[EveWindow],
        _x: i32,
        _y: i32,
        _width: u32,
        _height: u32,
    ) -> Result<(), WmError> {
        Ok(())
    }

    fn get_active_window(&self) -> Result<u32, WmError> {
        self.active
            .get()
            .ok_or_else(|| WmError::Query("no window has focus".to_string()))
    }

    fn find_window_by_title(&self, _title: &str) -> Result<Option<u32>, WmError> {
        Ok(None)
    }

    fn move_window(&self, _window_id: u32, _x: i32, _y: i32) -> Result<(), WmError> {
        Ok(())
    }
}

fn win(id: u32, title: &str) -> EveWindow {
    EveWindow {
        id,
        title: title.to_string(),
    }
}

fn three() -> Vec<EveWindow> {
    vec![win(1, "Alpha"), win(2, "Bravo"), win(3, "Charlie")]
}

fn ids(state: &CycleState) -> Vec<u32> {
    state.get_windows().iter().map(|w| w.id).collect()
}

#[test]
fn new_state_is_empty() {
    let state = CycleState::new();
    assert!(state.get_windows().is_empty());
    assert_eq!(state.get_current_index(), 0);
    assert_eq!(state.get_last_known_active_id(), None);
}

#[test]
fn forward_cycle_wraps_and_activates_each_window() {
    let wm = FakeManager::new(three());
    let mut state = CycleState::new();
    state.update_windows(three());
    assert_eq!(state.get_current_index(), 0);

    state.cycle_forward(&wm).unwrap();
    assert_eq!(state.get_current_index(), 1);
    state.cycle_forward(&wm).unwrap();
    assert_eq!(state.get_current_index(), 2);
    state.cycle_forward(&wm).unwrap();
    assert_eq!(state.get_current_index(), 0);
    assert_eq!(wm.activations(), vec![2, 3, 1]);
}

#[test]
fn n_forward_steps_visit_every_index_once() {
    let windows = vec![win(10, "a"), win(11, "b"), win(12, "c"), win(13, "d")];
    let wm = FakeManager::new(windows.clone());
    let mut state = CycleState::new();
    state.update_windows(windows);
    state.sync_with_active(12);
    assert_eq!(state.get_current_index(), 2);
    let mut seen = Vec::new();
    for _ in 0..4 {
        state.cycle_forward(&wm).unwrap();
        seen.push(state.get_current_index());
    }
    assert_eq!(seen, vec![3, 0, 1, 2]);
}

#[test]
fn forward_then_backward_restores_index() {
    let wm = FakeManager::new(three());
    let mut state = CycleState::new();
    state.update_windows(three());
    for start in [0u32, 1, 2] {
        state.sync_with_active(start + 1);
        let before = state.get_current_index();
        state.cycle_forward(&wm).unwrap();
        state.cycle_backward(&wm).unwrap();
        assert_eq!(state.get_current_index(), before);
    }
}

#[test]
fn backward_from_first_wraps_to_last() {
    let wm = FakeManager::new(three());
    let mut state = CycleState::new();
    state.update_windows(three());
    state.cycle_backward(&wm).unwrap();
    assert_eq!(state.get_current_index(), 2);
    assert_eq!(wm.activations(), vec![3]);
}

#[test]
fn update_follows_window_that_moved() {
    let mut state = CycleState::new();
    state.update_windows(three());
    state.sync_with_active(2);
    assert_eq!(state.get_current_index(), 1);
    state.update_windows(vec![win(4, "Delta"), win(3, "Charlie"), win(1, "Alpha"), win(2, "Bravo")]);
    assert_eq!(state.get_current_index(), 3);
    assert_eq!(state.get_windows()[3].id, 2);
}

#[test]
fn update_clamps_when_window_is_gone() {
    let mut state = CycleState::new();
    state.update_windows(three());
    state.sync_with_active(3);
    state.update_windows(vec![win(1, "Alpha"), win(2, "Bravo")]);
    assert_eq!(state.get_current_index(), 1);
    state.update_windows(vec![win(7, "Golf"), win(8, "Hotel"), win(9, "India")]);
    assert_eq!(state.get_current_index(), 1);
    assert_eq!(ids(&state), vec![7, 8, 9]);
}

#[test]
fn empty_update_makes_cycles_no_ops() {
    let wm = FakeManager::new(Vec::new());
    let mut state = CycleState::new();
    state.update_windows(three());
    state.sync_with_active(3);
    state.update_windows(Vec::new());
    assert!(state.get_windows().is_empty());
    assert_eq!(state.get_current_index(), 0);
    assert_eq!(state.cycle_forward(&wm), Ok(()));
    assert_eq!(state.cycle_backward(&wm), Ok(()));
    assert_eq!(state.get_current_index(), 0);
    assert!(wm.activations().is_empty());
}

#[test]
fn sync_points_at_active_window_regardless_of_index() {
    let mut state = CycleState::new();
    state.update_windows(three());
    state.sync_with_active(3);
    assert_eq!(state.get_current_index(), 2);
    assert_eq!(state.get_last_known_active_id(), Some(3));
    state.sync_with_active(1);
    assert_eq!(state.get_current_index(), 0);
    state.sync_with_active(99);
    assert_eq!(state.get_current_index(), 0);
    assert_eq!(state.get_last_known_active_id(), Some(1));
}

#[test]
fn external_focus_change_then_forward() {
    let a = win(100, "A");
    let b = win(200, "B");
    let wm = FakeManager::new(vec![a.clone(), b.clone()]);
    let mut state = CycleState::new();
    state.update_windows(vec![a.clone(), b.clone()]);
    state.sync_with_active(b.id);
    assert_eq!(state.get_current_index(), 1);
    state.sync_with_active(a.id);
    assert_eq!(state.get_current_index(), 0);
    state.cycle_forward(&wm).unwrap();
    assert_eq!(wm.activations(), vec![b.id]);
    assert_eq!(state.get_current_index(), 1);
}

#[test]
fn switch_out_of_range_changes_nothing() {
    let wm = FakeManager::new(three());
    let mut state = CycleState::new();
    state.update_windows(three());
    state.sync_with_active(2);
    assert_eq!(state.switch_to(3, &wm, None), Err(CycleError::OutOfRange));
    assert_eq!(state.get_current_index(), 1);
    assert!(wm.activations().is_empty());
}

#[test]
fn switch_by_index_activates_target() {
    let wm = FakeManager::new(three());
    let mut state = CycleState::new();
    state.update_windows(three());
    state.switch_to(2, &wm, None).unwrap();
    assert_eq!(state.get_current_index(), 2);
    assert_eq!(wm.activations(), vec![3]);
}

#[test]
fn switch_by_character_order() {
    let wm = FakeManager::new(three());
    let mut state = CycleState::new();
    state.update_windows(three());
    let order = vec!["Charlie".to_string(), "Zulu".to_string(), "Alpha".to_string()];
    state.switch_to(0, &wm, Some(order.as_slice())).unwrap();
    assert_eq!(state.get_current_index(), 2);
    assert_eq!(
        state.switch_to(1, &wm, Some(order.as_slice())),
        Err(CycleError::OutOfRange)
    );
    assert_eq!(state.get_current_index(), 2);
    assert_eq!(
        state.switch_to(3, &wm, Some(order.as_slice())),
        Err(CycleError::OutOfRange)
    );
    state.switch_to(2, &wm, Some(order.as_slice())).unwrap();
    assert_eq!(state.get_current_index(), 0);
    assert_eq!(wm.activations(), vec![3, 1]);
}

#[test]
fn refused_activation_keeps_new_index() {
    let mut wm = FakeManager::new(three());
    wm.refuse_activation = true;
    let mut state = CycleState::new();
    state.update_windows(three());
    let r = state.cycle_forward(&wm);
    assert!(matches!(r, Err(CycleError::Backend(WmError::Activation(_)))));
    assert_eq!(state.get_current_index(), 1);
}

#[test]
fn advance_gives_id_to_activate() {
    let mut state = CycleState::new();
    assert_eq!(state.advance_forward(), None);
    state.update_windows(three());
    assert_eq!(state.advance_forward(), Some(2));
    assert_eq!(state.advance_backward(), Some(1));
    assert_eq!(state.advance_backward(), Some(3));
}

#[test]
fn two_serialized_forwards_reach_index_two() {
    let wm = FakeManager::new(three());
    let shared = Mutex::new(CycleState::new());
    shared.lock().unwrap().update_windows(three());
    for _ in 0..2 {
        let mut guard = shared.lock().unwrap();
        handle_command(&mut guard, &wm, Command::Forward, None).unwrap();
    }
    let index = shared.lock().unwrap().get_current_index();
    assert_eq!(index, 2);
}

#[test]
fn forward_command_syncs_with_focus_first() {
    let wm = FakeManager::new(three());
    wm.active.set(Some(3));
    let mut state = CycleState::new();
    state.update_windows(three());
    let r = handle_command(&mut state, &wm, Command::Forward, None);
    assert_eq!(r, Ok(Outcome::Continue));
    assert_eq!(state.get_current_index(), 0);
    assert_eq!(wm.activations(), vec![1]);
}

#[test]
fn failed_focus_query_skips_sync() {
    let wm = FakeManager::new(three());
    let mut state = CycleState::new();
    state.update_windows(three());
    sync_and_cycle(&mut state, &wm, Direction::Backward).unwrap();
    assert_eq!(state.get_current_index(), 2);
}

#[test]
fn refresh_and_quit_commands() {
    let wm = FakeManager::new(three());
    let mut state = CycleState::new();
    assert_eq!(
        handle_command(&mut state, &wm, Command::Refresh, None),
        Ok(Outcome::Continue)
    );
    assert_eq!(ids(&state), vec![1, 2, 3]);
    assert_eq!(
        handle_command(&mut state, &wm, Command::Quit, None),
        Ok(Outcome::Quit)
    );
    assert_eq!(ids(&state), vec![1, 2, 3]);
}

#[test]
fn switch_command_out_of_range() {
    let wm = FakeManager::new(three());
    let mut state = CycleState::new();
    state.update_windows(three());
    assert_eq!(
        handle_command(&mut state, &wm, Command::Switch(5), None),
        Err(CycleError::OutOfRange)
    );
    assert_eq!(
        handle_command(&mut state, &wm, Command::Switch(1), None),
        Ok(Outcome::Continue)
    );
    assert_eq!(state.get_current_index(), 1);
}

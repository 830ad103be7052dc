//! The screens of the game and the key presses that move between them.

use vstd::prelude::*;

verus! {

/// The screen the game is on.
#[derive(Debug, Clone, Copy, PartialEq, Eq, Hash, Structural)]
pub enum GameState {
    TitleScreen,
    Game,
    BrewedTea,
    GodMode,
}

/// A change to the stack of game states, to be carried out by the engine.
#[derive(Debug, Clone, Copy, PartialEq, Eq, Structural)]
pub enum Transition {
    /// Leave the active state, the one on top of the stack, for the given
    /// one; the states below stay as they are.
    Switch(GameState),
    /// Put a state on top of the stack, keeping the one below.
    Push(GameState),
    /// Drop the state on top of the stack and resume the one below.
    Pop,
}

impl Transition {
    /// The stack of game states, active state last, once the engine has
    /// carried the transition out on `stack`.
    pub open spec fn apply(self, stack: Seq<GameState>) -> Seq<GameState>
        recommends
            stack.len() > 0,
            self is Pop ==> stack.len() > 1,
    {
        match self {
            Transition::Switch(state) => stack.drop_last().push(state),
            Transition::Push(state) => stack.push(state),
            Transition::Pop => stack.drop_last(),
        }
    }
}

/// What a press of the space bar does on the title screen.
pub open spec fn start_transition(space_just_pressed: bool) -> Option<Transition> {
    if space_just_pressed {
        Some(Transition::Switch(GameState::Game))
    } else {
        None
    }
}

/// Whether god mode can be toggled from `current`.
pub open spec fn can_toggle_god_mode(current: GameState) -> bool {
    current == GameState::Game || current == GameState::GodMode
}

/// What a press of the backtick key does: from the game it enters god mode
/// on top of the game, from god mode it returns to the game below.
pub open spec fn toggle_transition(grave_just_pressed: bool, current: GameState) -> Option<Transition>
    recommends
        grave_just_pressed ==> can_toggle_god_mode(current),
{
    if !grave_just_pressed {
        None
    } else {
        match current {
            GameState::Game => Some(Transition::Push(GameState::GodMode)),
            GameState::GodMode => Some(Transition::Pop),
            _ => None,
        }
    }
}

/// Leaves the title screen for the game when the space bar has just been
/// pressed; otherwise nothing changes.
pub fn space_start_game(space_just_pressed: bool) -> (change: Option<Transition>)
    ensures
        change == start_transition(space_just_pressed),
{
    if space_just_pressed {
        Some(Transition::Switch(GameState::Game))
    } else {
        None
    }
}

/// Toggles god mode when the backtick key has just been pressed.
///
/// God mode exists only on top of the game, so a key press in any other
/// state is outside this function's domain. Whenever a transition is
/// returned the caller also clears the key, so that one press toggles once.
pub fn god_mode_toggle(grave_just_pressed: bool, current: GameState) -> (change: Option<Transition>)
    requires
        grave_just_pressed ==> can_toggle_god_mode(current),
    ensures
        change == toggle_transition(grave_just_pressed, current),
        change.is_some() == grave_just_pressed,
{
    if !grave_just_pressed {
        None
    } else {
        match current {
            GameState::Game => Some(Transition::Push(GameState::GodMode)),
            GameState::GodMode => Some(Transition::Pop),
            _ => None,
        }
    }
}

/// Toggling god mode twice from the game ends where it began: the first
/// press puts god mode on top of the stack and leaves everything below in
/// place, the second restores the stack exactly.
pub proof fn lemma_god_mode_round_trip(stack: Seq<GameState>)
    requires
        stack.len() > 0,
        stack.last() == GameState::Game,
    ensures
        ({
            let entered = toggle_transition(true, stack.last()).unwrap().apply(stack);
            &&& entered == stack.push(GameState::GodMode)
            &&& can_toggle_god_mode(entered.last())
            &&& toggle_transition(true, entered.last()).unwrap().apply(entered) == stack
        }),
{
    let entered = stack.push(GameState::GodMode);
    assert(entered.drop_last() =~= stack);
}

} // verus!

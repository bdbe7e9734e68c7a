//! The player's state machine.
use vstd::prelude::*;

verus! {

/// The states of a player.
#[derive(Debug, Clone, Copy, PartialEq, Eq, Structural)]
pub enum PlayerState {
    Idle,
    Preparing,
    Ready,
    Playing,
    Paused,
    Error,
    Released,
}

/// The actions that move a player between states.
#[derive(Debug, Clone, Copy, PartialEq, Eq, Structural)]
pub enum StateAction {
    BeginPrepare,
    PreparationCompleted,
    Play,
    Pause,
    Stop,
    Seek,
    Release,
    FatalError,
}

/// The state reached from `state` by `action`, or `None` when the action is
/// not allowed there.
///
/// Release is allowed everywhere and leads to `Released`, which accepts
/// nothing else. Preparing goes Idle → Preparing → Ready; Play goes from
/// Ready, Paused or Playing to Playing; Pause from Playing or Paused to
/// Paused; Seek keeps Ready, Playing and Paused; Stop leads every other
/// state to Idle; a fatal error leads every other state to Error.
pub open spec fn next_state(state: PlayerState, action: StateAction) -> Option<PlayerState> {
    match (state, action) {
        (PlayerState::Released, StateAction::Release) => Some(PlayerState::Released),
        (PlayerState::Released, _) => None,
        (_, StateAction::Release) => Some(PlayerState::Released),
        (PlayerState::Idle, StateAction::BeginPrepare) => Some(PlayerState::Preparing),
        (PlayerState::Preparing, StateAction::PreparationCompleted) => Some(PlayerState::Ready),
        (PlayerState::Ready, StateAction::Play) => Some(PlayerState::Playing),
        (PlayerState::Paused, StateAction::Play) => Some(PlayerState::Playing),
        (PlayerState::Playing, StateAction::Play) => Some(PlayerState::Playing),
        (PlayerState::Playing, StateAction::Pause) => Some(PlayerState::Paused),
        (PlayerState::Paused, StateAction::Pause) => Some(PlayerState::Paused),
        (PlayerState::Ready, StateAction::Seek) => Some(state),
        (PlayerState::Playing, StateAction::Seek) => Some(state),
        (PlayerState::Paused, StateAction::Seek) => Some(state),
        (_, StateAction::Stop) => Some(PlayerState::Idle),
        (_, StateAction::FatalError) => Some(PlayerState::Error),
        _ => None,
    }
}

impl PlayerState {
    /// Applies `action`; a refused action reports the state and the action.
    pub fn transition(self, action: StateAction) -> (r: Result<PlayerState, InvalidTransition>)
        ensures
            match next_state(self, action) {
                Some(next) => r == Ok::<PlayerState, InvalidTransition>(next),
                None => r matches Err(e) && e.state() == self && e.action() == action,
            },
    {
        match (self, action) {
            (Self::Released, StateAction::Release) => Ok(Self::Released),
            (Self::Released, _) => Err(InvalidTransition::new(self, action)),
            (_, StateAction::Release) => Ok(Self::Released),
            (Self::Idle, StateAction::BeginPrepare) => Ok(Self::Preparing),
            (Self::Preparing, StateAction::PreparationCompleted) => Ok(Self::Ready),
            (Self::Ready, StateAction::Play) | (Self::Paused, StateAction::Play) => Ok(
                Self::Playing,
            ),
            (Self::Playing, StateAction::Pause) => Ok(Self::Paused),
            (Self::Playing, StateAction::Play) => Ok(Self::Playing),
            (Self::Paused, StateAction::Pause) => Ok(Self::Paused),
            (Self::Ready, StateAction::Seek)
            | (Self::Playing, StateAction::Seek)
            | (Self::Paused, StateAction::Seek) => Ok(self),
            (Self::Idle, StateAction::Stop)
            | (Self::Preparing, StateAction::Stop)
            | (Self::Ready, StateAction::Stop)
            | (Self::Playing, StateAction::Stop)
            | (Self::Paused, StateAction::Stop)
            | (Self::Error, StateAction::Stop) => Ok(Self::Idle),
            (Self::Idle, StateAction::FatalError)
            | (Self::Preparing, StateAction::FatalError)
            | (Self::Ready, StateAction::FatalError)
            | (Self::Playing, StateAction::FatalError)
            | (Self::Paused, StateAction::FatalError) => Ok(Self::Error),
            (Self::Error, StateAction::FatalError) => Ok(Self::Error),
            _ => Err(InvalidTransition::new(self, action)),
        }
    }
}

/// Release is accepted in every state, leads to `Released`, and releasing
/// again changes nothing.
pub proof fn lemma_release_always_accepted(state: PlayerState)
    ensures
        next_state(state, StateAction::Release) == Some(PlayerState::Released),
        next_state(PlayerState::Released, StateAction::Release) == Some(PlayerState::Released),
{
}

/// Once released, a player accepts no action but Release.
pub proof fn lemma_released_is_final(action: StateAction)
    ensures
        action != StateAction::Release ==> next_state(PlayerState::Released, action) is None,
{
}

/// Stop returns every state but `Released` to `Idle`.
pub proof fn lemma_stop_returns_to_idle(state: PlayerState)
    ensures
        state != PlayerState::Released ==> next_state(state, StateAction::Stop) == Some(
            PlayerState::Idle,
        ),
{
}

/// A fatal error moves every state but `Released` to `Error`.
pub proof fn lemma_fatal_error_enters_error(state: PlayerState)
    ensures
        state != PlayerState::Released ==> next_state(state, StateAction::FatalError) == Some(
            PlayerState::Error,
        ),
{
}

/// A seek, where allowed, leaves the state as it was.
pub proof fn lemma_seek_keeps_state(state: PlayerState)
    ensures
        next_state(state, StateAction::Seek) matches Some(next) ==> next == state,
        next_state(state, StateAction::Seek) is Some <==> (state == PlayerState::Ready || state
            == PlayerState::Playing || state == PlayerState::Paused),
{
}

/// Play, Pause, Stop, Seek, Release and a fatal error are idempotent: doing
/// one again right after it was accepted is accepted and changes nothing.
pub proof fn lemma_repeated_action_is_idempotent(state: PlayerState, action: StateAction)
    requires
        action != StateAction::BeginPrepare,
        action != StateAction::PreparationCompleted,
        next_state(state, action) is Some,
    ensures
        next_state(next_state(state, action)->0, action) == next_state(state, action),
{
}

/// Play is accepted exactly in `Ready`, `Paused` and `Playing`, and leads
/// to `Playing`.
pub proof fn lemma_play_accepted_exactly_when_ready_or_paused_or_playing(state: PlayerState)
    ensures
        next_state(state, StateAction::Play) is Some <==> (state == PlayerState::Ready || state
            == PlayerState::Paused || state == PlayerState::Playing),
        next_state(state, StateAction::Play) matches Some(next) ==> next == PlayerState::Playing,
{
}

/// Pause is accepted exactly in `Playing` and `Paused`, and leads to
/// `Paused`.
pub proof fn lemma_pause_accepted_exactly_when_playing_or_paused(state: PlayerState)
    ensures
        next_state(state, StateAction::Pause) is Some <==> (state == PlayerState::Playing || state
            == PlayerState::Paused),
        next_state(state, StateAction::Pause) matches Some(next) ==> next == PlayerState::Paused,
{
}

/// Preparation begins only in `Idle`, leading to `Preparing`, and completes
/// only in `Preparing`, leading to `Ready`.
pub proof fn lemma_preparation_steps(state: PlayerState)
    ensures
        next_state(state, StateAction::BeginPrepare) is Some <==> state == PlayerState::Idle,
        next_state(state, StateAction::BeginPrepare) matches Some(next) ==> next
            == PlayerState::Preparing,
        next_state(state, StateAction::PreparationCompleted) is Some <==> state
            == PlayerState::Preparing,
        next_state(state, StateAction::PreparationCompleted) matches Some(next) ==> next
            == PlayerState::Ready,
{
}

/// The only way into `Playing` is Play, into `Paused` is Pause, into `Error`
/// a fatal error, into `Ready` completed preparation (or a seek that stays
/// there), and into `Released` Release.
pub proof fn lemma_how_states_are_entered(state: PlayerState, action: StateAction)
    ensures
        next_state(state, action) == Some(PlayerState::Playing) && state != PlayerState::Playing
            ==> action == StateAction::Play,
        next_state(state, action) == Some(PlayerState::Paused) && state != PlayerState::Paused
            ==> action == StateAction::Pause,
        next_state(state, action) == Some(PlayerState::Error) ==> action == StateAction::FatalError,
        next_state(state, action) == Some(PlayerState::Ready) && state != PlayerState::Ready
            ==> action == StateAction::PreparationCompleted,
        next_state(state, action) == Some(PlayerState::Released) ==> action == StateAction::Release,
        next_state(state, action) == Some(PlayerState::Preparing) ==> action
            == StateAction::BeginPrepare,
{
}

/// From `Error` only Stop (to `Idle`), Release and a repeated fatal error
/// are accepted: a failed player cannot play, pause, seek or prepare.
pub proof fn lemma_error_accepts_only_stop_release_and_failure(action: StateAction)
    ensures
        next_state(PlayerState::Error, action) is Some <==> (action == StateAction::Stop || action
            == StateAction::Release || action == StateAction::FatalError),
{
}

/// An action that a state refused.
#[derive(Debug, Clone, Copy, PartialEq, Eq, Structural)]
pub struct InvalidTransition {
    state: PlayerState,
    action: StateAction,
}

impl InvalidTransition {
    pub closed spec fn spec_state(self) -> PlayerState {
        self.state
    }

    pub closed spec fn spec_action(self) -> StateAction {
        self.action
    }

    pub fn new(state: PlayerState, action: StateAction) -> (r: InvalidTransition)
        ensures
            r.state() == state,
            r.action() == action,
    {
        InvalidTransition { state, action }
    }

    #[verifier::when_used_as_spec(spec_state)]
    pub fn state(self) -> (r: PlayerState)
        ensures
            r == self.spec_state(),
    {
        self.state
    }

    #[verifier::when_used_as_spec(spec_action)]
    pub fn action(self) -> (r: StateAction)
        ensures
            r == self.spec_action(),
    {
        self.action
    }
}

} // verus!

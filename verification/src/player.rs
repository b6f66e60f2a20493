use vstd::prelude::*;

verus! {

/// Where our player is in a round.
#[derive(Clone, Copy, Debug, PartialEq, Eq, Structural)]
pub enum OurPlayerState {
    /// On the ground: the round has not started (or is over).
    NotStarted,
    /// In the air, bouncing from bell to bell.
    Flying,
    /// Falling too fast to bounce any more.
    Falling,
}

/// The player that this client steers.
#[derive(Clone, Copy, Debug, PartialEq, Eq, Structural)]
pub struct OurPlayer {
    pub state: OurPlayerState,
    pub next_bell_score: u128,
}

/// A player of the game, with its score.
#[derive(Clone, Copy, Debug, PartialEq, Eq, Structural)]
pub struct PlayerComponent {
    pub score: u128,
}

/// The score that the next bell is worth at the start of a round.
pub const FIRST_BELL_SCORE: u128 = 10;

impl PlayerComponent {
    /// A player who has scored nothing yet.
    pub fn new() -> (p: PlayerComponent)
        ensures
            p.score == 0,
    {
        PlayerComponent { score: 0 }
    }
}

impl OurPlayer {
    /// Our player at the start: on the ground, the first bell worth 10.
    pub fn new() -> (p: OurPlayer)
        ensures
            p.state == OurPlayerState::NotStarted,
            p.next_bell_score == FIRST_BELL_SCORE,
    {
        OurPlayer { state: OurPlayerState::NotStarted, next_bell_score: FIRST_BELL_SCORE }
    }

    /// Whether our player may still bounce off a bell: anything but falling.
    pub fn can_bounce(&self) -> (b: bool)
        ensures
            b <==> self.state != OurPlayerState::Falling,
    {
        match self.state {
            OurPlayerState::Falling => false,
            _ => true,
        }
    }
}

/// The state of our player after a frame, given that it is on the ground
/// (`grounded`), that it touched a bell it may bounce off (`bounced`, only
/// looked for while airborne and not falling) and that it sinks faster than
/// the falling threshold (`falling_fast`).
pub open spec fn player_step(
    state: OurPlayerState,
    grounded: bool,
    bounced: bool,
    falling_fast: bool,
) -> OurPlayerState {
    if grounded {
        OurPlayerState::NotStarted
    } else if state == OurPlayerState::Falling {
        OurPlayerState::Falling
    } else if bounced {
        OurPlayerState::Flying
    } else if falling_fast {
        OurPlayerState::Falling
    } else {
        state
    }
}

/// Steers our player: its round state as it walks, bounces and falls.
pub struct OurPlayerSystem;

impl OurPlayerSystem {
    /// Updates the round state of our player for one frame.
    pub fn update_state(player: &mut OurPlayer, grounded: bool, bounced: bool, falling_fast: bool)
        ensures
            final(player).state == player_step(old(player).state, grounded, bounced, falling_fast),
            final(player).next_bell_score == old(player).next_bell_score,
            grounded ==> final(player).state == OurPlayerState::NotStarted,
            !grounded && old(player).state == OurPlayerState::Falling ==> final(player).state
                == OurPlayerState::Falling,
            !grounded && old(player).state != OurPlayerState::Falling && bounced ==> final(player).state
                == OurPlayerState::Flying,
            !grounded && old(player).state != OurPlayerState::Falling && !bounced && falling_fast
                ==> final(player).state == OurPlayerState::Falling,
            !grounded && !bounced && !falling_fast ==> final(player).state == old(player).state,
    {
        if grounded {
            player.state = OurPlayerState::NotStarted;
        } else if player.can_bounce() {
            if bounced {
                player.state = OurPlayerState::Flying;
            } else if falling_fast {
                player.state = OurPlayerState::Falling;
            }
        }
    }
}

/// Landing ends the round; a falling player keeps falling until it lands;
/// a bounce lifts a player that is not falling.
pub proof fn law_player_round(state: OurPlayerState, grounded: bool, bounced: bool, falling_fast: bool)
    ensures
        grounded ==> player_step(state, grounded, bounced, falling_fast) == OurPlayerState::NotStarted,
        !grounded && state == OurPlayerState::Falling ==> player_step(state, grounded, bounced, falling_fast)
            == OurPlayerState::Falling,
        !grounded && state != OurPlayerState::Falling && bounced ==> player_step(
            state,
            grounded,
            bounced,
            falling_fast,
        ) == OurPlayerState::Flying,
        player_step(state, grounded, bounced, falling_fast) == OurPlayerState::NotStarted ==> grounded
            || state == OurPlayerState::NotStarted,
{
}

/// An airborne player that neither bounces nor sinks faster than the
/// falling threshold keeps its state: a flying player between two bells
/// may still bounce off the next one. Only sinking fast makes a player
/// that is not falling start to fall.
pub proof fn law_player_keeps_state_between_bells(
    state: OurPlayerState,
    grounded: bool,
    bounced: bool,
    falling_fast: bool,
)
    ensures
        !grounded && !bounced && !falling_fast ==> player_step(state, grounded, bounced, falling_fast)
            == state,
        state != OurPlayerState::Falling && player_step(state, grounded, bounced, falling_fast)
            == OurPlayerState::Falling ==> !grounded && !bounced && falling_fast,
        !grounded && state != OurPlayerState::Falling && !bounced && falling_fast ==> player_step(
            state,
            grounded,
            bounced,
            falling_fast,
        ) == OurPlayerState::Falling,
{
}

/// Puts the game back at the start of a round once our player is on the ground.
pub struct RestartSystem;

impl RestartSystem {
    /// Restarts the round of a player on the ground: its score goes back to
    /// zero and the next bell is worth 10 again. Returns whether it did.
    pub fn restart(our_player: &mut OurPlayer, player: &mut PlayerComponent) -> (restarted: bool)
        ensures
            restarted <==> old(our_player).state == OurPlayerState::NotStarted,
            restarted ==> final(player).score == 0 && final(our_player).next_bell_score
                == FIRST_BELL_SCORE && final(our_player).state == OurPlayerState::NotStarted,
            !restarted ==> *final(player) == *old(player) && *final(our_player) == *old(our_player),
    {
        if our_player.state == OurPlayerState::NotStarted {
            player.score = 0;
            our_player.next_bell_score = FIRST_BELL_SCORE;
            true
        } else {
            false
        }
    }

    /// Whether a drawn entity becomes a bell to jump on again at a restart:
    /// it is a bell or a bird and has lost its jumpable marker.
    pub fn restores_jumpable(has_marker: bool, is_bell: bool, is_bird: bool) -> (b: bool)
        ensures
            b <==> !has_marker && (is_bell || is_bird),
    {
        !has_marker && (is_bell || is_bird)
    }
}

} // verus!

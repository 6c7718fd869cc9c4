//! The game as a state machine, and what holds of every state it can reach.
//!
//! A session is the life of one game record under the entry points of the
//! crate: presses, the oracle's answers, resets, repeated initialisations and
//! delegations, in any order and number.
//! The record is followed together with two facts that it does not hold
//! itself: how many requests to the oracle are in flight, and whether a tooth
//! has bitten since the last reset.
//!
//! The oracle is taken to answer only a request that is in flight, and to
//! answer each once. An answer carries a draw between 1 and the number of
//! teeth not yet resolved.
//!
//! The entry points accept a press while a request is in flight, and the
//! record holds one tooth under check only. Of two requests in flight the
//! second answer resolves that tooth again, and the count of pressed teeth
//! leaves the bitmap behind. What is proved of every reachable state is
//! therefore proved of the runs in which no press is accepted before the
//! answer to the one before it has come: the patient runs.

use vstd::prelude::*;
use crate::bitmap::{popcount, BITMAP_WIDTH};
use crate::engine::{biting_draws, lemma_one_draw_in_n_bites, outcome_of, possible_draws, Outcome};
use crate::error::ErrorMessage;
use crate::game::Game;

verus! {

/// What can happen to a game.
pub enum Event {
    /// A player presses a tooth.
    Press { tooth: u8 },
    /// The oracle answers the outstanding request with its draw.
    Resolve { draw: u8 },
    /// A player asks for a new game.
    Reset,
    /// The game is initialised again under the same address.
    Initialize,
    /// The record is handed over to another execution environment.
    Delegate,
}

/// A game record in the course of a session.
pub struct Session {
    /// The record.
    pub game: Game,
    /// The number of requests that the oracle has yet to answer.
    pub in_flight: nat,
    /// A tooth has bitten since the game was created or last reset.
    pub bitten: bool,
}

/// The session of a game that was just created with `total_teeth` teeth.
pub open spec fn start(game_index: u32, total_teeth: u8) -> Session {
    Session { game: Game::fresh(game_index, total_teeth), in_flight: 0, bitten: false }
}

/// The oracle may answer now with `draw`: a request is in flight and the
/// draw is one of those possible for the teeth that remain.
pub open spec fn answer_due(s: Session, draw: u8) -> bool {
    s.in_flight > 0 && 1 <= draw <= s.game.teeth_remaining()
}

/// The event comes in turn: if it is a press that the game accepts, no
/// request is in flight when it is made.
pub open spec fn in_turn(s: Session, event: Event) -> bool {
    event matches Event::Press { tooth } ==> (s.game.press_refusal(tooth) is None ==> s.in_flight
        == 0)
}

/// The session after one event. An accepted press puts one more request in
/// flight, an answer that is due takes one out. An event that the entry
/// points refuse, and an answer that is not due, leave the session as it is;
/// so do the initialisation of a game that exists and a delegation. A reset
/// recalls no request.
pub open spec fn step(s: Session, event: Event) -> Session {
    match event {
        Event::Press { tooth } => {
            if s.game.press_refusal(tooth) is None {
                Session {
                    game: s.game.after_press(tooth),
                    in_flight: s.in_flight + 1,
                    bitten: s.bitten,
                }
            } else {
                s
            }
        },
        Event::Resolve { draw } => {
            if answer_due(s, draw) {
                Session {
                    game: s.game.after_resolution(outcome_of(draw)),
                    in_flight: (s.in_flight - 1) as nat,
                    bitten: s.bitten || outcome_of(draw) == Outcome::Bite,
                }
            } else {
                s
            }
        },
        Event::Reset => {
            if s.game.game_over {
                Session { game: s.game.after_reset(), in_flight: s.in_flight, bitten: false }
            } else {
                s
            }
        },
        Event::Initialize => s,
        Event::Delegate => s,
    }
}

/// The session after a sequence of events, taken in order.
pub open spec fn run(s: Session, events: Seq<Event>) -> Session
    decreases events.len(),
{
    if events.len() == 0 {
        s
    } else {
        step(run(s, events.drop_last()), events.last())
    }
}

/// The run is patient: every press that is accepted in it is made while no
/// request is in flight.
pub open spec fn patient(s: Session, events: Seq<Event>) -> bool
    decreases events.len(),
{
    if events.len() == 0 {
        true
    } else {
        patient(s, events.drop_last()) && in_turn(run(s, events.drop_last()), events.last())
    }
}

/// What holds of a session at every moment of a patient run: the record is
/// consistent and has at least one tooth; at most one request is in flight,
/// and while it is, the game is running and the tooth under check is
/// unresolved; the game is over exactly when a tooth has bitten or no tooth
/// is left; and when no tooth is left, one has bitten.
pub open spec fn sound(s: Session) -> bool {
    &&& s.game.wf()
    &&& s.game.total_teeth >= 1
    &&& s.in_flight <= 1
    &&& s.in_flight == 1 ==> s.game.awaiting_resolution()
    &&& s.game.game_over <==> (s.bitten || s.game.teeth_pressed_count == s.game.total_teeth)
    &&& s.game.teeth_pressed_count == s.game.total_teeth ==> s.bitten
}

/// A new game starts a sound session.
pub proof fn lemma_start_is_sound(game_index: u32, total_teeth: u8)
    requires
        1 <= total_teeth <= BITMAP_WIDTH,
    ensures
        sound(start(game_index, total_teeth)),
{
    Game::lemma_fresh_wf(game_index, total_teeth);
}

/// No event that comes in turn takes a sound session to one that is not.
pub proof fn lemma_step_keeps_sound(s: Session, event: Event)
    requires
        sound(s),
        in_turn(s, event),
    ensures
        sound(step(s, event)),
{
    match event {
        Event::Press { tooth } => {},
        Event::Resolve { draw } => {
            if answer_due(s, draw) {
                s.game.lemma_resolution_keeps_wf(outcome_of(draw));
            }
        },
        Event::Reset => {
            if s.game.game_over {
                Game::lemma_fresh_wf(s.game.game_index, s.game.total_teeth);
            }
        },
        Event::Initialize => {},
        Event::Delegate => {},
    }
}

/// In every state that a game reaches from its creation by a patient run,
/// the count of pressed teeth is the population count of the bitmap and does
/// not exceed the number of teeth, and the game is over if and only if a tooth
/// has bitten or every tooth has been resolved.
pub proof fn lemma_reachable_is_sound(game_index: u32, total_teeth: u8, events: Seq<Event>)
    requires
        1 <= total_teeth <= BITMAP_WIDTH,
        patient(start(game_index, total_teeth), events),
    ensures
        sound(run(start(game_index, total_teeth), events)),
        ({
            let g = run(start(game_index, total_teeth), events).game;
            g.teeth_pressed_count == popcount(g.pressed_teeth) && popcount(g.pressed_teeth)
                <= g.total_teeth
        }),
        ({
            let s = run(start(game_index, total_teeth), events);
            s.game.game_over <==> (s.bitten || s.game.teeth_pressed_count == s.game.total_teeth)
        }),
    decreases events.len(),
{
    let first = start(game_index, total_teeth);
    if events.len() == 0 {
        lemma_start_is_sound(game_index, total_teeth);
    } else {
        lemma_reachable_is_sound(game_index, total_teeth, events.drop_last());
        lemma_step_keeps_sound(run(first, events.drop_last()), events.last());
    }
    run(first, events).game.lemma_count_bounded();
}

/// A tooth that is already pressed cannot be pressed again: a press of one
/// of the pressed teeth of a game is refused as already pressed, whether the
/// game is running or over, and the session stays as it is.
pub proof fn lemma_no_double_press(s: Session, tooth: u8)
    requires
        s.game.wf(),
        s.game.pressed().contains(tooth as int),
    ensures
        s.game.press_refusal(tooth) == Some(ErrorMessage::ToothAlreadyPressed),
        step(s, Event::Press { tooth }) == s,
{
}

/// Once the game is over, every press is refused and changes nothing, until
/// the game is reset; the refusal names the end of the game, unless the tooth
/// is one of the game's pressed teeth; and a reset is accepted exactly then.
pub proof fn lemma_over_until_reset(s: Session, tooth: u8)
    requires
        s.game.game_over,
    ensures
        s.game.press_refusal(tooth) == Some(
            if tooth < s.game.total_teeth && s.game.pressed().contains(tooth as int) {
                ErrorMessage::ToothAlreadyPressed
            } else {
                ErrorMessage::GameAlreadyOver
            },
        ),
        step(s, Event::Press { tooth }) == s,
        !step(s, Event::Reset).game.game_over,
        step(s, Event::Reset).game == s.game.after_reset(),
{
}

/// While a request is in flight, nothing but the oracle's answer ends the
/// wait: every other event leaves a request in flight.
pub proof fn lemma_only_an_answer_ends_the_wait(s: Session, event: Event)
    requires
        s.in_flight > 0,
        !(event is Resolve),
    ensures
        step(s, event).in_flight > 0,
{
}

/// The odds of a bite: while a sound game with `k` teeth resolved awaits an
/// answer, the answers that are due are the draws from 1 to the number of
/// teeth less `k`, and exactly one of them bites. A uniform draw thus bites
/// with probability one in the number of teeth less `k`.
pub proof fn lemma_bite_odds(s: Session)
    requires
        sound(s),
        s.in_flight > 0,
    ensures
        1 <= s.game.teeth_remaining() <= s.game.total_teeth,
        s.game.teeth_remaining() == s.game.total_teeth - s.game.pressed().len(),
        forall|draw: u8| #[trigger]
            answer_due(s, draw) <==> possible_draws(s.game.teeth_remaining() as u8).contains(
                draw as int,
            ),
        possible_draws(s.game.teeth_remaining() as u8).len() == s.game.teeth_remaining(),
        biting_draws(s.game.teeth_remaining() as u8).len() == 1,
{
    s.game.lemma_awaiting_has_teeth_left();
    s.game.lemma_count_bounded();
    lemma_one_draw_in_n_bites(s.game.teeth_remaining() as u8);
}

/// The last tooth always bites: with one tooth left the only possible draw is
/// 1, so the answer that is due ends the game with a bite.
pub proof fn lemma_last_tooth_bites(s: Session, draw: u8)
    requires
        s.game.teeth_remaining() == 1,
        answer_due(s, draw),
    ensures
        outcome_of(draw) == Outcome::Bite,
        step(s, Event::Resolve { draw }).bitten,
        step(s, Event::Resolve { draw }).game.game_over,
{
}

/// A safe answer with more than one tooth left keeps a sound game running.
pub proof fn lemma_safe_answer_goes_on(s: Session, draw: u8)
    requires
        sound(s),
        answer_due(s, draw),
        draw != 1,
    ensures
        !step(s, Event::Resolve { draw }).game.game_over,
        step(s, Event::Resolve { draw }).game.teeth_pressed_count == s.game.teeth_pressed_count
            + 1,
{
    s.game.lemma_resolution_keeps_wf(outcome_of(draw));
}

} // verus!

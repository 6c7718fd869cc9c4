//! The record of one game and the steps that change it.
//!
//! A game has a fixed number of teeth. Each tooth is pressed at most once;
//! pressing asks the oracle for a random value, and the answer resolves the
//! tooth as a bite or as safe. The game ends on the first bite, or when every
//! tooth has been resolved.

use vstd::prelude::*;
use crate::bitmap;
use crate::bitmap::{members, popcount, within};
use crate::engine::Outcome;
use crate::error::ErrorMessage;

verus! {

/// Number of teeth of a game that is created with the default capacity.
pub const TOTAL_TEETH: u8 = 10;

/// The persisted state of one game.
#[derive(Clone, Copy, Debug, PartialEq, Eq, Structural)]
pub struct Game {
    /// Identity of the game, set once at creation.
    pub game_index: u32,
    /// Bitmap of the teeth already resolved: bit `i` is set when tooth `i` is.
    pub pressed_teeth: u16,
    /// Number of teeth, set at creation.
    pub total_teeth: u8,
    /// Whether the game has ended.
    pub game_over: bool,
    /// Number of teeth already resolved.
    pub teeth_pressed_count: u8,
    /// The tooth whose resolution is awaited from the oracle.
    pub current_tooth: u8,
}

impl Game {
    /// The teeth that have been pressed and resolved.
    pub open spec fn pressed(self) -> Set<int> {
        members(self.pressed_teeth)
    }

    /// The record is consistent: it has at most as many teeth as the bitmap
    /// has bits, only teeth of the game are marked as pressed, and the count
    /// of pressed teeth is the population count of the bitmap.
    pub open spec fn wf(self) -> bool {
        &&& self.total_teeth <= bitmap::BITMAP_WIDTH
        &&& within(self.pressed_teeth, self.total_teeth as int)
        &&& self.teeth_pressed_count == popcount(self.pressed_teeth)
    }

    /// Number of teeth not yet resolved.
    pub open spec fn teeth_remaining(self) -> int {
        self.total_teeth - self.teeth_pressed_count
    }

    /// The game is running and its current tooth is one of its teeth that has
    /// not been resolved yet: the state that an accepted press leaves behind,
    /// and in which the oracle's answer is due.
    pub open spec fn awaiting_resolution(self) -> bool {
        &&& !self.game_over
        &&& self.current_tooth < self.total_teeth
        &&& !self.pressed().contains(self.current_tooth as int)
    }

    /// A game with `total_teeth` teeth, none of them pressed.
    pub open spec fn fresh(game_index: u32, total_teeth: u8) -> Game {
        Game {
            game_index,
            pressed_teeth: 0,
            total_teeth,
            game_over: false,
            teeth_pressed_count: 0,
            current_tooth: 0,
        }
    }

    /// Why a press of `tooth` is refused, if it is. A tooth of the game that
    /// has been pressed is never pressed again, whether the game is running
    /// or over; after that, the game must be running, and the tooth must be
    /// one of its teeth.
    pub open spec fn press_refusal(self, tooth: u8) -> Option<ErrorMessage> {
        if tooth < self.total_teeth && self.pressed().contains(tooth as int) {
            Some(ErrorMessage::ToothAlreadyPressed)
        } else if self.game_over {
            Some(ErrorMessage::GameAlreadyOver)
        } else if tooth >= self.total_teeth {
            Some(ErrorMessage::InvalidToothIndex)
        } else {
            None
        }
    }

    /// The game after a press of `tooth` was accepted: the tooth is noted as
    /// the one under check, and nothing else changes.
    pub open spec fn after_press(self, tooth: u8) -> Game {
        Game { current_tooth: tooth, ..self }
    }

    /// The game after the current tooth was resolved with `outcome`: the tooth
    /// is marked and counted whatever the outcome, and the game ends on a bite
    /// or with the last tooth.
    pub open spec fn after_resolution(self, outcome: Outcome) -> Game {
        let count = (self.teeth_pressed_count + 1) as u8;
        Game {
            pressed_teeth: self.pressed_teeth | (1u16 << self.current_tooth),
            teeth_pressed_count: count,
            game_over: self.game_over || outcome == Outcome::Bite || count >= self.total_teeth,
            ..self
        }
    }

    /// The game after a reset: no tooth pressed, none under check, running
    /// again, with the identity and the number of teeth it had.
    pub open spec fn after_reset(self) -> Game {
        Game::fresh(self.game_index, self.total_teeth)
    }

    /// A fresh game is consistent when its teeth fit the bitmap.
    pub proof fn lemma_fresh_wf(game_index: u32, total_teeth: u8)
        requires
            total_teeth <= bitmap::BITMAP_WIDTH,
        ensures
            Game::fresh(game_index, total_teeth).wf(),
            Game::fresh(game_index, total_teeth).pressed() =~= Set::<int>::empty(),
    {
        bitmap::lemma_members_of_zero();
    }

    /// In a consistent game the count of pressed teeth is the number of
    /// pressed teeth and does not exceed the number of teeth.
    pub proof fn lemma_count_bounded(self)
        requires
            self.wf(),
        ensures
            self.pressed().finite(),
            self.teeth_pressed_count == self.pressed().len(),
            self.teeth_pressed_count <= self.total_teeth,
    {
        bitmap::lemma_members_finite(self.pressed_teeth);
        bitmap::lemma_popcount_within(self.pressed_teeth, self.total_teeth as int);
    }

    /// While a consistent game awaits a resolution, at least one tooth is
    /// still unresolved.
    pub proof fn lemma_awaiting_has_teeth_left(self)
        requires
            self.wf(),
            self.awaiting_resolution(),
        ensures
            self.teeth_remaining() >= 1,
    {
        bitmap::lemma_popcount_with_gap(
            self.pressed_teeth,
            self.total_teeth as int,
            self.current_tooth as int,
        );
    }

    /// Resolving the awaited tooth of a consistent game adds that tooth to the
    /// pressed ones, raises the count by one and leaves the game consistent.
    pub proof fn lemma_resolution_keeps_wf(self, outcome: Outcome)
        requires
            self.wf(),
            self.awaiting_resolution(),
        ensures
            self.after_resolution(outcome).wf(),
            self.after_resolution(outcome).pressed() =~= self.pressed().insert(
                self.current_tooth as int,
            ),
            self.after_resolution(outcome).teeth_pressed_count == self.teeth_pressed_count + 1,
    {
        self.lemma_awaiting_has_teeth_left();
        bitmap::lemma_members_after_set(self.pressed_teeth, self.current_tooth);
    }

    /// Creates a game with the default number of teeth.
    pub fn new(game_index: u32) -> (game: Game)
        ensures
            game == Game::fresh(game_index, TOTAL_TEETH),
            game.pressed() =~= Set::<int>::empty(),
            game.wf(),
    {
        proof {
            Game::lemma_fresh_wf(game_index, TOTAL_TEETH);
        }
        Game {
            game_index,
            pressed_teeth: 0,
            total_teeth: TOTAL_TEETH,
            game_over: false,
            teeth_pressed_count: 0,
            current_tooth: 0,
        }
    }

    /// Creates a game with `total_teeth` teeth, if that is at least one tooth
    /// and no more than the bitmap can hold.
    pub fn with_teeth(game_index: u32, total_teeth: u8) -> (game: Option<Game>)
        ensures
            game is Some <==> 1 <= total_teeth <= bitmap::BITMAP_WIDTH,
            game is Some ==> game == Some(Game::fresh(game_index, total_teeth)),
            game is Some ==> game.unwrap().pressed() =~= Set::<int>::empty(),
            game is Some ==> game.unwrap().wf(),
    {
        if 1 <= total_teeth && total_teeth <= bitmap::BITMAP_WIDTH {
            proof {
                Game::lemma_fresh_wf(game_index, total_teeth);
            }
            Some(
                Game {
                    game_index,
                    pressed_teeth: 0,
                    total_teeth,
                    game_over: false,
                    teeth_pressed_count: 0,
                    current_tooth: 0,
                },
            )
        } else {
            None
        }
    }

    /// Whether the record is consistent.
    pub fn is_well_formed(&self) -> (ok: bool)
        ensures
            ok == self.wf(),
    {
        self.total_teeth <= bitmap::BITMAP_WIDTH && bitmap::all_below(
            self.pressed_teeth,
            self.total_teeth,
        ) && bitmap::count(self.pressed_teeth) == self.teeth_pressed_count
    }

    /// Whether `tooth` has been pressed and resolved.
    pub fn is_pressed(&self, tooth: u8) -> (hit: bool)
        ensures
            hit == self.pressed().contains(tooth as int),
    {
        bitmap::contains(self.pressed_teeth, tooth)
    }

    /// Checks a press of `tooth` against the rules, without changing anything.
    pub fn check_press(&self, tooth: u8) -> (r: Result<(), ErrorMessage>)
        ensures
            r is Ok <==> self.press_refusal(tooth) is None,
            r is Err ==> self.press_refusal(tooth) == Some(r->Err_0),
    {
        if tooth < self.total_teeth && self.is_pressed(tooth) {
            Err(ErrorMessage::ToothAlreadyPressed)
        } else if self.game_over {
            Err(ErrorMessage::GameAlreadyOver)
        } else if tooth >= self.total_teeth {
            Err(ErrorMessage::InvalidToothIndex)
        } else {
            Ok(())
        }
    }

    /// Marks the current tooth as resolved with `outcome`. The tooth is marked
    /// and counted whether it bit or not; the game ends if it bit, or if it
    /// was the last one.
    ///
    /// There must be a tooth left to resolve, and the current tooth must be a
    /// bit of the bitmap.
    pub fn record_resolution(&mut self, outcome: Outcome)
        requires
            old(self).teeth_pressed_count < old(self).total_teeth,
            old(self).current_tooth < bitmap::BITMAP_WIDTH,
        ensures
            *final(self) == old(self).after_resolution(outcome),
            final(self).pressed() =~= old(self).pressed().insert(old(self).current_tooth as int),
            final(self).teeth_pressed_count == old(self).teeth_pressed_count + 1,
            final(self).game_over == (old(self).game_over || outcome == Outcome::Bite
                || final(self).teeth_pressed_count == final(self).total_teeth),
            old(self).wf() && old(self).awaiting_resolution() ==> final(self).wf(),
    {
        proof {
            bitmap::lemma_members_after_set(self.pressed_teeth, self.current_tooth);
            if self.wf() && self.awaiting_resolution() {
                self.lemma_resolution_keeps_wf(outcome);
            }
        }
        self.pressed_teeth = bitmap::with_member(self.pressed_teeth, self.current_tooth);
        self.teeth_pressed_count = self.teeth_pressed_count + 1;
        if outcome == Outcome::Bite {
            self.game_over = true;
        } else if self.teeth_pressed_count >= self.total_teeth {
            self.game_over = true;
        }
    }

    /// Starts the game over: clears the pressed teeth, their count, the
    /// current tooth and the end flag, and keeps the identity and the number
    /// of teeth.
    pub fn reset(&mut self)
        ensures
            *final(self) == old(self).after_reset(),
            final(self).pressed() =~= Set::<int>::empty(),
            old(self).total_teeth <= bitmap::BITMAP_WIDTH ==> final(self).wf(),
    {
        proof {
            bitmap::lemma_members_of_zero();
        }
        self.pressed_teeth = 0;
        self.teeth_pressed_count = 0;
        self.game_over = false;
        self.current_tooth = 0;
    }
}

} // verus!

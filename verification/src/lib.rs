//! A game of chance, verified: press a tooth of the crocodile and hope that it
//! does not bite.
//!
//! The state of a game is one small record ([`Game`]). A press is settled in
//! two steps: the press itself, which is checked and noted, and the callback
//! of a randomness oracle, which decides whether the tooth bites. With `n`
//! teeth left the tooth bites with one chance in `n`.
//!
//! The entry points work on plain values. What surrounds them (storage,
//! signatures, the oracle, the transport) is the caller's business: a press
//! and a delegation return the request that the caller is to send.

pub mod bitmap;
pub mod engine;
pub mod error;
pub mod game;
pub mod guard;
pub mod lifecycle;
pub mod protocol;
pub mod session;

pub use engine::{outcome_of_draw, resolve, Outcome};
pub use error::ErrorMessage;
pub use game::{Game, TOTAL_TEETH};
pub use guard::{check_oracle, same_key, Caller, Pubkey, Signer};
pub use lifecycle::{
    delegate, existing, initialize, new_game, DelegateInput, DelegateRequest, Initialize, NewGame,
    GAME_SEED,
};
pub use protocol::{
    callback_check_tooth, press_tooth_delegated, AccountMeta, CallbackCheckToothCtx, CallbackRoute,
    PressToothDelegatedCtx, RandomnessRequest,
};

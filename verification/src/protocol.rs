//! Pressing a tooth, in two steps.
//!
//! A press is first checked and noted, and a request for randomness is made
//! out for the oracle. Later the oracle calls back with a verified random
//! value, and only then is the tooth resolved and marked. Between the two
//! steps the record holds the tooth under check in `current_tooth`.
//!
//! The record does not tell whether a request is in flight. That each
//! callback answers a request in flight, and answers it once, is the oracle's
//! side of the protocol; that no tooth is pressed before the answer to the
//! press before it has come is the player's. A callback that arrives otherwise
//! resolves whatever `current_tooth` holds, and the consistency of the record
//! is promised only for a callback that finds the game awaiting a resolution.

use vstd::prelude::*;
use vstd::slice::slice_to_vec;
use crate::bitmap;
use crate::engine::{draw_for, outcome_of, resolve};
use crate::error::ErrorMessage;
use crate::game::Game;
use crate::guard::{check_oracle, is_oracle, Caller, Pubkey, Signer};

verus! {

/// Where the oracle is to deliver its answer: the program to call and the
/// entry point of it.
#[derive(Clone, Debug, PartialEq, Eq)]
pub struct CallbackRoute {
    pub program_id: Pubkey,
    pub discriminator: Vec<u8>,
}

/// An account that the oracle hands on to the callback.
#[derive(Clone, Copy, Debug, PartialEq, Eq)]
pub struct AccountMeta {
    pub pubkey: Pubkey,
    pub is_signer: bool,
    pub is_writable: bool,
}

/// A request for randomness, ready to be sent to the oracle.
#[derive(Clone, Debug, PartialEq, Eq)]
pub struct RandomnessRequest {
    /// Who pays for the request.
    pub payer: Pubkey,
    /// The queue that the request is put on.
    pub oracle_queue: Pubkey,
    /// The program that the oracle calls back.
    pub callback_program_id: Pubkey,
    /// The entry point that the oracle calls back.
    pub callback_discriminator: Vec<u8>,
    /// The caller's contribution to the randomness.
    pub caller_seed: [u8; 32],
    /// The accounts that the callback is given: the game, writable.
    pub accounts_metas: Vec<AccountMeta>,
}

/// What a press of a tooth works on.
#[derive(Clone, Debug, PartialEq, Eq)]
pub struct PressToothDelegatedCtx {
    /// The player.
    pub payer: Signer,
    /// The address of the game record.
    pub game_key: Pubkey,
    /// The game record.
    pub game: Game,
    /// The oracle's queue.
    pub oracle_queue: Pubkey,
    /// Where the oracle is to answer.
    pub callback: CallbackRoute,
}

/// What the oracle's callback works on.
#[derive(Clone, Copy, Debug, PartialEq, Eq)]
pub struct CallbackCheckToothCtx {
    /// The account that the call claims to be made by.
    pub vrf_program_identity: Caller,
    /// The identity that the oracle is known under.
    pub oracle_identity: Pubkey,
    /// The game record.
    pub game: Game,
}

/// The request that goes with an accepted press: it names the payer, the
/// queue and the way back, repeats the client's seed in every byte of the
/// caller seed, and passes the game record to the callback as its one account,
/// writable and not a signer.
pub open spec fn request_for(ctx: PressToothDelegatedCtx, client_seed: u8, req: RandomnessRequest) -> bool {
    &&& req.payer@ == ctx.payer@
    &&& req.oracle_queue == ctx.oracle_queue
    &&& req.callback_program_id == ctx.callback.program_id
    &&& req.callback_discriminator@ == ctx.callback.discriminator@
    &&& req.caller_seed@ == Seq::new(32, |i: int| client_seed)
    &&& req.accounts_metas@ == seq![
        AccountMeta { pubkey: ctx.game_key, is_signer: false, is_writable: true },
    ]
}

/// Presses a tooth. The press is accepted when the game is running, the
/// tooth is one of its teeth and has not been pressed before; it is then noted
/// as the tooth under check, and the request to send to the oracle is
/// returned. The tooth is not marked as pressed yet. A refused press changes
/// nothing; a tooth that has been pressed is refused as such even when the
/// game is over.
///
/// The game must not have more teeth than the bitmap has bits.
pub fn press_tooth_delegated(
    ctx: &mut PressToothDelegatedCtx,
    _game_index: u32,
    tooth_index: u8,
    client_seed: u8,
) -> (r: Result<RandomnessRequest, ErrorMessage>)
    requires
        old(ctx).game.total_teeth <= bitmap::BITMAP_WIDTH,
    ensures
        match r {
            Ok(req) => {
                &&& old(ctx).game.press_refusal(tooth_index) is None
                &&& final(ctx).game == old(ctx).game.after_press(tooth_index)
                &&& request_for(*old(ctx), client_seed, req)
                &&& final(ctx).game.awaiting_resolution()
            },
            Err(e) => {
                &&& old(ctx).game.press_refusal(tooth_index) == Some(e)
                &&& final(ctx).game == old(ctx).game
            },
        },
        *final(ctx) == (PressToothDelegatedCtx { game: final(ctx).game, ..*old(ctx) }),
        old(ctx).game.wf() ==> final(ctx).game.wf(),
        r is Ok && old(ctx).game.wf() ==> final(ctx).game.teeth_remaining() >= 1,
{
    proof {
        if ctx.game.wf() && ctx.game.press_refusal(tooth_index) is None {
            ctx.game.after_press(tooth_index).lemma_awaiting_has_teeth_left();
        }
    }
    match ctx.game.check_press(tooth_index) {
        Err(e) => Err(e),
        Ok(()) => {
            ctx.game.current_tooth = tooth_index;
            let caller_seed: [u8; 32] = [client_seed; 32];
            let meta = AccountMeta { pubkey: ctx.game_key, is_signer: false, is_writable: true };
            let mut accounts_metas: Vec<AccountMeta> = Vec::new();
            accounts_metas.push(meta);
            let req = RandomnessRequest {
                payer: ctx.payer.key(),
                oracle_queue: ctx.oracle_queue,
                callback_program_id: ctx.callback.program_id,
                callback_discriminator: slice_to_vec(ctx.callback.discriminator.as_slice()),
                caller_seed,
                accounts_metas,
            };
            assert(req.caller_seed@ =~= Seq::new(32, |i: int| client_seed));
            Ok(req)
        },
    }
}

/// The oracle's callback: resolves the tooth under check with the verified
/// random value. A caller other than the oracle is refused and changes
/// nothing. Otherwise one integer is drawn from 1 to the number of teeth not
/// yet resolved; the tooth is marked and counted whatever the draw; and the
/// game ends if the draw is 1, or if this was the last tooth.
///
/// When the oracle calls, there must be a tooth left to resolve, and the
/// tooth under check must be a bit of the bitmap. Any other caller is refused
/// whatever the record holds.
pub fn callback_check_tooth(ctx: &mut CallbackCheckToothCtx, randomness: [u8; 32]) -> (r: Result<
    (),
    ErrorMessage,
>)
    requires
        is_oracle(old(ctx).vrf_program_identity, old(ctx).oracle_identity)
            ==> old(ctx).game.teeth_pressed_count < old(ctx).game.total_teeth,
        is_oracle(old(ctx).vrf_program_identity, old(ctx).oracle_identity)
            ==> old(ctx).game.current_tooth < bitmap::BITMAP_WIDTH,
    ensures
        r is Ok <==> is_oracle(old(ctx).vrf_program_identity, old(ctx).oracle_identity),
        r is Err ==> r == Err::<(), ErrorMessage>(ErrorMessage::UnauthorizedCallback) && *final(ctx)
            == *old(ctx),
        r is Ok ==> {
            let remaining = (old(ctx).game.total_teeth - old(ctx).game.teeth_pressed_count) as u8;
            let draw = draw_for(randomness@, remaining);
            &&& 1 <= draw <= remaining
            &&& final(ctx).game == old(ctx).game.after_resolution(outcome_of(draw))
            &&& final(ctx).game.pressed() =~= old(ctx).game.pressed().insert(
                old(ctx).game.current_tooth as int,
            )
        },
        *final(ctx) == (CallbackCheckToothCtx { game: final(ctx).game, ..*old(ctx) }),
        old(ctx).game.wf() && old(ctx).game.awaiting_resolution() ==> final(ctx).game.wf(),
{
    match check_oracle(&ctx.vrf_program_identity, &ctx.oracle_identity) {
        Err(e) => Err(e),
        Ok(()) => {
            let teeth_left: u8 = ctx.game.total_teeth - ctx.game.teeth_pressed_count;
            let outcome = resolve(&randomness, teeth_left);
            ctx.game.record_resolution(outcome);
            Ok(())
        },
    }
}

} // verus!

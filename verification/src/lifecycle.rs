//! Creating a game, handing it to another execution environment, and
//! starting it over.

use vstd::prelude::*;
use vstd::slice::slice_to_vec;
use crate::bitmap;
use crate::error::ErrorMessage;
use crate::game::{Game, TOTAL_TEETH};
use crate::guard::{Pubkey, Signer};

verus! {

/// The namespace under which game records are addressed: the bytes of
/// `croc_dent_game`.
pub const GAME_SEED: [u8; 14] = [
    0x63, 0x72, 0x6f, 0x63, 0x5f, 0x64, 0x65, 0x6e, 0x74, 0x5f, 0x67, 0x61, 0x6d, 0x65,
];

/// What the creation of a game works on.
#[derive(Clone, Copy, Debug, PartialEq, Eq)]
pub struct Initialize {
    /// The player.
    pub payer: Signer,
    /// The game record, if one exists under the game's address.
    pub game: Option<Game>,
}

/// What the delegation of a game works on.
#[derive(Clone, Debug, PartialEq, Eq)]
pub struct DelegateInput {
    /// The player.
    pub payer: Signer,
    /// The game record to hand over.
    pub game: Game,
    /// Further accounts of the call; the first, if there is one, is the
    /// executor that the record is to be pinned to.
    pub remaining_accounts: Vec<Pubkey>,
}

/// What the reset of a game works on.
#[derive(Clone, Copy, Debug, PartialEq, Eq)]
pub struct NewGame {
    /// The player.
    pub payer: Signer,
    /// The game record.
    pub game: Game,
}

/// A request to hand a record over to a remote execution environment.
#[derive(Clone, Debug, PartialEq, Eq)]
pub struct DelegateRequest {
    /// The seeds that the record's address is derived from.
    pub seeds: Vec<Vec<u8>>,
    /// The executor to pin the record to, if any.
    pub validator: Option<Pubkey>,
}

/// The four bytes of `x`, lowest first.
pub open spec fn le_bytes(x: u32) -> Seq<u8> {
    seq![
        (x % 0x100) as u8,
        (x / 0x100 % 0x100) as u8,
        (x / 0x1_0000 % 0x100) as u8,
        (x / 0x100_0000) as u8,
    ]
}

/// The seeds that address the game with index `game_index`: the namespace,
/// then the index in four bytes, lowest first.
pub open spec fn game_seeds(game_index: u32, seeds: Seq<Vec<u8>>) -> bool {
    &&& seeds.len() == 2
    &&& seeds[0]@ == GAME_SEED@
    &&& seeds[1]@ == le_bytes(game_index)
}

/// The executor that a delegation is pinned to: the first of the further
/// accounts, if there is one.
pub open spec fn preferred_validator(remaining_accounts: Seq<Pubkey>) -> Option<Pubkey> {
    if remaining_accounts.len() > 0 {
        Some(remaining_accounts[0])
    } else {
        None
    }
}

/// Writes `x` out in four bytes, lowest first.
pub fn index_bytes(x: u32) -> (bytes: Vec<u8>)
    ensures
        bytes@ == le_bytes(x),
{
    let b0: u32 = x & 0xff;
    let b1: u32 = (x >> 8) & 0xff;
    let b2: u32 = (x >> 16) & 0xff;
    let b3: u32 = x >> 24;
    assert(b0 == x % 0x100 && b1 == x / 0x100 % 0x100 && b2 == x / 0x1_0000 % 0x100 && b3 == x
        / 0x100_0000 && b3 < 0x100) by (bit_vector)
        requires
            b0 == x & 0xff,
            b1 == (x >> 8) & 0xff,
            b2 == (x >> 16) & 0xff,
            b3 == x >> 24,
    ;
    let mut bytes: Vec<u8> = Vec::new();
    bytes.push(b0 as u8);
    bytes.push(b1 as u8);
    bytes.push(b2 as u8);
    bytes.push(b3 as u8);
    bytes
}

/// Tells a record that holds a game from the blank that storage hands out
/// under an address where no game was created yet: a game has at least one
/// tooth, a blank has none.
pub fn existing(record: Game) -> (r: Option<Game>)
    ensures
        r == (if record.total_teeth == 0 {
            None::<Game>
        } else {
            Some(record)
        }),
{
    if record.total_teeth == 0 {
        None
    } else {
        Some(record)
    }
}

/// Creates the game with index `game_index` if it does not exist yet: a game
/// of the default number of teeth, none pressed, running. A game that exists
/// is left exactly as it is, whatever progress it has made.
pub fn initialize(ctx: &mut Initialize, game_index: u32) -> (r: Result<(), ErrorMessage>)
    ensures
        r is Ok,
        final(ctx).payer == old(ctx).payer,
        old(ctx).game is Some ==> final(ctx).game == old(ctx).game,
        old(ctx).game is None ==> final(ctx).game == Some(Game::fresh(game_index, TOTAL_TEETH)),
        old(ctx).game is None ==> final(ctx).game.unwrap().pressed() =~= Set::<int>::empty(),
        old(ctx).game is None ==> final(ctx).game.unwrap().wf(),
{
    if ctx.game.is_none() {
        ctx.game = Some(Game::new(game_index));
    }
    Ok(())
}

/// Makes out the request that hands the game record over to a remote
/// execution environment: the seeds of the record's address, and the executor
/// to pin it to if the call names one. The record itself is not touched.
pub fn delegate(ctx: &DelegateInput, game_index: u32) -> (r: Result<DelegateRequest, ErrorMessage>)
    ensures
        r is Ok,
        game_seeds(game_index, r.unwrap().seeds@),
        r.unwrap().validator == preferred_validator(ctx.remaining_accounts@),
{
    let mut seeds: Vec<Vec<u8>> = Vec::new();
    seeds.push(slice_to_vec(GAME_SEED.as_slice()));
    seeds.push(index_bytes(game_index));
    let validator: Option<Pubkey> = if ctx.remaining_accounts.len() > 0 {
        Some(ctx.remaining_accounts[0])
    } else {
        None
    };
    Ok(DelegateRequest { seeds, validator })
}

/// Starts a new game once the current one is over: no tooth pressed, none
/// under check, running again, with the same identity and number of teeth.
/// While the game is still running the call is refused and changes nothing.
pub fn new_game(ctx: &mut NewGame, _game_index: u32) -> (r: Result<(), ErrorMessage>)
    ensures
        r is Ok <==> old(ctx).game.game_over,
        r is Ok ==> final(ctx).game == old(ctx).game.after_reset(),
        r is Ok ==> final(ctx).game.pressed() =~= Set::<int>::empty(),
        r is Err ==> r == Err::<(), ErrorMessage>(ErrorMessage::GameNotOver) && final(ctx).game
            == old(ctx).game,
        final(ctx).payer == old(ctx).payer,
        r is Ok && old(ctx).game.total_teeth <= bitmap::BITMAP_WIDTH ==> final(ctx).game.wf(),
        old(ctx).game.wf() ==> final(ctx).game.wf(),
{
    if !ctx.game.game_over {
        return Err(ErrorMessage::GameNotOver);
    }
    ctx.game.reset();
    Ok(())
}

} // verus!

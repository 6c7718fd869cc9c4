use croc::{
    callback_check_tooth, initialize, new_game, press_tooth_delegated, CallbackCheckToothCtx,
    CallbackRoute, Caller, ErrorMessage, Game, Initialize, NewGame, PressToothDelegatedCtx, Pubkey,
    Signer, TOTAL_TEETH,
};

const PLAYER: Pubkey = [7u8; 32];
const ORACLE: Pubkey = [9u8; 32];
const QUEUE: Pubkey = [5u8; 32];
const PROGRAM: Pubkey = [3u8; 32];
const GAME_KEY: Pubkey = [1u8; 32];

/// Random bytes on which the draw is 1, whatever the number of teeth left.
const BITING: [u8; 32] = [0u8; 32];
/// Random bytes on which the draw is 2, as long as two teeth or more are left.
const HARMLESS: [u8; 32] = [1u8; 32];

fn player() -> Signer {
    Signer::authenticate(&Caller { key: PLAYER, is_signer: true }).unwrap()
}

fn created(game_index: u32) -> Game {
    let mut ctx = Initialize { payer: player(), game: None };
    assert_eq!(initialize(&mut ctx, game_index), Ok(()));
    ctx.game.unwrap()
}

fn press(game: &mut Game, tooth: u8) -> Result<(), ErrorMessage> {
    let mut ctx = PressToothDelegatedCtx {
        payer: player(),
        game_key: GAME_KEY,
        game: *game,
        oracle_queue: QUEUE,
        callback: CallbackRoute { program_id: PROGRAM, discriminator: vec![1, 2, 3, 4, 5, 6, 7, 8] },
    };
    let r = press_tooth_delegated(&mut ctx, game.game_index, tooth, 42);
    *game = ctx.game;
    r.map(|_| ())
}

fn answer(game: &mut Game, randomness: [u8; 32]) -> Result<(), ErrorMessage> {
    let mut ctx = CallbackCheckToothCtx {
        vrf_program_identity: Caller { key: ORACLE, is_signer: true },
        oracle_identity: ORACLE,
        game: *game,
    };
    let r = callback_check_tooth(&mut ctx, randomness);
    *game = ctx.game;
    r
}

fn reset(game: &mut Game) -> Result<(), ErrorMessage> {
    let mut ctx = NewGame { payer: player(), game: *game };
    let r = new_game(&mut ctx, game.game_index);
    *game = ctx.game;
    r
}

fn consistent(game: &Game) -> bool {
    u32::from(game.teeth_pressed_count) == game.pressed_teeth.count_ones()
        && game.teeth_pressed_count <= game.total_teeth
}

#[test]
fn bite_on_first_tooth_ends_the_game() {
    let mut game = created(1);
    assert_eq!(game.total_teeth, 10);
    assert_eq!(press(&mut game, 0), Ok(()));
    assert_eq!(game.current_tooth, 0);
    assert_eq!(game.pressed_teeth, 0);
    assert_eq!(game.teeth_pressed_count, 0);
    assert_eq!(game.total_teeth - game.teeth_pressed_count, 10);

    assert_eq!(answer(&mut game, BITING), Ok(()));
    assert_eq!(game.pressed_teeth, 0b1);
    assert_eq!(game.teeth_pressed_count, 1);
    assert!(game.game_over);

    let before = game;
    assert_eq!(press(&mut game, 1), Err(ErrorMessage::GameAlreadyOver));
    assert_eq!(game, before);
}

#[test]
fn nine_safe_teeth_then_the_last_one_bites() {
    let mut game = created(2);
    for tooth in 0..9u8 {
        assert_eq!(press(&mut game, tooth), Ok(()));
        assert_eq!(answer(&mut game, HARMLESS), Ok(()));
        assert_eq!(game.teeth_pressed_count, tooth + 1);
        assert!(!game.game_over);
        assert!(consistent(&game));
        assert!(game.is_well_formed());
    }
    assert_eq!(game.teeth_pressed_count, 9);
    assert_eq!(game.pressed_teeth, 0b1_1111_1111);
    assert!(!game.game_over);

    assert_eq!(press(&mut game, 9), Ok(()));
    assert_eq!(answer(&mut game, HARMLESS), Ok(()));
    assert_eq!(game.teeth_pressed_count, 10);
    assert_eq!(game.pressed_teeth, 0b11_1111_1111);
    assert!(game.game_over);
    assert!(consistent(&game));
}

#[test]
fn last_tooth_bites_whatever_the_random_value() {
    for seed in [0u8, 1, 2, 77, 128, 254, 255] {
        let mut game = created(3);
        for tooth in 0..9u8 {
            assert_eq!(press(&mut game, tooth), Ok(()));
            assert_eq!(answer(&mut game, HARMLESS), Ok(()));
        }
        assert!(!game.game_over);
        assert_eq!(press(&mut game, 9), Ok(()));
        assert_eq!(croc::resolve(&[seed; 32], 1), croc::Outcome::Bite);
        assert_eq!(answer(&mut game, [seed; 32]), Ok(()));
        assert!(game.game_over);
    }
}

#[test]
fn count_matches_bitmap_in_every_state_of_a_game() {
    let mut game = created(4);
    assert!(consistent(&game));
    let order = [3u8, 3, 0, 12, 9, 9, 5, 1, 7, 2, 8, 4, 6];
    for tooth in order {
        let accepted = press(&mut game, tooth).is_ok();
        assert!(consistent(&game));
        assert!(game.is_well_formed());
        if accepted {
            assert_eq!(answer(&mut game, HARMLESS), Ok(()));
            assert!(consistent(&game));
            assert!(game.is_well_formed());
        }
    }
    assert_eq!(game.teeth_pressed_count, 10);
    assert!(game.game_over);
    assert_eq!(reset(&mut game), Ok(()));
    assert!(consistent(&game));
    assert!(game.is_well_formed());
}

#[test]
fn pressed_tooth_cannot_be_pressed_again() {
    let mut game = created(5);
    assert_eq!(press(&mut game, 4), Ok(()));
    assert_eq!(answer(&mut game, HARMLESS), Ok(()));
    assert_eq!(game.pressed_teeth, 0b1_0000);
    let before = game;
    assert_eq!(press(&mut game, 4), Err(ErrorMessage::ToothAlreadyPressed));
    assert_eq!(game, before);
}

#[test]
fn pressed_tooth_of_a_finished_game_is_refused_as_pressed() {
    let mut game = created(5);
    assert_eq!(press(&mut game, 4), Ok(()));
    assert_eq!(answer(&mut game, BITING), Ok(()));
    assert!(game.game_over);
    let before = game;
    assert_eq!(press(&mut game, 4), Err(ErrorMessage::ToothAlreadyPressed));
    assert_eq!(game, before);
    assert_eq!(press(&mut game, 3), Err(ErrorMessage::GameAlreadyOver));
    assert_eq!(game, before);

    let mut bitten = Game {
        game_index: 0,
        pressed_teeth: 0b1,
        total_teeth: 10,
        game_over: true,
        teeth_pressed_count: 1,
        current_tooth: 0,
    };
    let before = bitten;
    assert_eq!(press(&mut bitten, 0), Err(ErrorMessage::ToothAlreadyPressed));
    assert_eq!(bitten, before);
}

#[test]
fn finished_game_reports_its_end_before_a_wrong_index() {
    let mut game = created(5);
    assert_eq!(press(&mut game, 4), Ok(()));
    assert_eq!(answer(&mut game, BITING), Ok(()));
    let before = game;
    assert_eq!(press(&mut game, 10), Err(ErrorMessage::GameAlreadyOver));
    assert_eq!(press(&mut game, 200), Err(ErrorMessage::GameAlreadyOver));
    assert_eq!(game, before);
}

#[test]
fn second_answer_to_one_tooth_counts_it_again() {
    let mut game = created(5);
    assert_eq!(press(&mut game, 4), Ok(()));
    assert_eq!(press(&mut game, 4), Ok(()));
    assert_eq!(answer(&mut game, HARMLESS), Ok(()));
    assert!(game.is_well_formed());
    assert_eq!(answer(&mut game, HARMLESS), Ok(()));
    assert_eq!(game.pressed_teeth, 0b1_0000);
    assert_eq!(game.teeth_pressed_count, 2);
    assert!(!game.is_well_formed());
}

#[test]
fn stranger_is_refused_on_a_game_with_no_tooth_left() {
    let full = Game {
        game_index: 1,
        pressed_teeth: 0b11_1111_1111,
        total_teeth: 10,
        game_over: true,
        teeth_pressed_count: 10,
        current_tooth: 200,
    };
    let mut ctx = CallbackCheckToothCtx {
        vrf_program_identity: Caller { key: PLAYER, is_signer: true },
        oracle_identity: ORACLE,
        game: full,
    };
    let before = ctx;
    assert_eq!(callback_check_tooth(&mut ctx, BITING), Err(ErrorMessage::UnauthorizedCallback));
    assert_eq!(ctx, before);
    let mut unsigned = CallbackCheckToothCtx {
        vrf_program_identity: Caller { key: ORACLE, is_signer: false },
        oracle_identity: ORACLE,
        game: full,
    };
    assert_eq!(
        callback_check_tooth(&mut unsigned, HARMLESS),
        Err(ErrorMessage::UnauthorizedCallback)
    );
    assert_eq!(unsigned.game, full);
}

#[test]
fn tooth_index_must_be_below_total_teeth() {
    let mut game = created(6);
    let before = game;
    assert_eq!(press(&mut game, TOTAL_TEETH), Err(ErrorMessage::InvalidToothIndex));
    assert_eq!(press(&mut game, 15), Err(ErrorMessage::InvalidToothIndex));
    assert_eq!(press(&mut game, 16), Err(ErrorMessage::InvalidToothIndex));
    assert_eq!(press(&mut game, 255), Err(ErrorMessage::InvalidToothIndex));
    assert_eq!(game, before);
    assert_eq!(press(&mut game, TOTAL_TEETH - 1), Ok(()));
    assert_eq!(game.current_tooth, 9);
}

#[test]
fn press_notes_the_tooth_and_marks_nothing() {
    let mut game = created(6);
    assert_eq!(press(&mut game, 7), Ok(()));
    assert_eq!(
        game,
        Game {
            game_index: 6,
            pressed_teeth: 0,
            total_teeth: 10,
            game_over: false,
            teeth_pressed_count: 0,
            current_tooth: 7,
        }
    );
}

#[test]
fn game_is_over_only_after_a_bite_or_the_last_tooth() {
    let mut game = created(7);
    for tooth in 0..5u8 {
        assert_eq!(press(&mut game, tooth), Ok(()));
        assert!(!game.game_over);
        assert_eq!(answer(&mut game, HARMLESS), Ok(()));
        assert!(!game.game_over);
    }
    assert_eq!(press(&mut game, 5), Ok(()));
    assert_eq!(answer(&mut game, BITING), Ok(()));
    assert!(game.game_over);
    assert_eq!(game.teeth_pressed_count, 6);
    assert_eq!(game.pressed_teeth, 0b11_1111);
    let before = game;
    for tooth in 0..=20u8 {
        let refusal = if tooth <= 5 {
            ErrorMessage::ToothAlreadyPressed
        } else {
            ErrorMessage::GameAlreadyOver
        };
        assert_eq!(press(&mut game, tooth), Err(refusal));
        assert_eq!(game, before);
    }
    assert_eq!(reset(&mut game), Ok(()));
    assert_eq!(press(&mut game, 5), Ok(()));
}

#[test]
fn new_game_restores_the_start_and_keeps_identity() {
    let mut game = created(8);
    assert_eq!(press(&mut game, 3), Ok(()));
    assert_eq!(answer(&mut game, BITING), Ok(()));
    assert!(game.game_over);
    assert_eq!(reset(&mut game), Ok(()));
    assert_eq!(
        game,
        Game {
            game_index: 8,
            pressed_teeth: 0,
            total_teeth: 10,
            game_over: false,
            teeth_pressed_count: 0,
            current_tooth: 0,
        }
    );
}

#[test]
fn new_game_is_refused_while_the_game_runs() {
    let mut game = created(8);
    assert_eq!(reset(&mut game), Err(ErrorMessage::GameNotOver));
    assert_eq!(press(&mut game, 3), Ok(()));
    assert_eq!(answer(&mut game, HARMLESS), Ok(()));
    let before = game;
    assert_eq!(reset(&mut game), Err(ErrorMessage::GameNotOver));
    assert_eq!(game, before);
}

#[test]
fn callback_from_a_stranger_is_refused() {
    let mut game = created(9);
    assert_eq!(press(&mut game, 2), Ok(()));
    let before = game;

    let mut unsigned = CallbackCheckToothCtx {
        vrf_program_identity: Caller { key: ORACLE, is_signer: false },
        oracle_identity: ORACLE,
        game,
    };
    assert_eq!(
        callback_check_tooth(&mut unsigned, BITING),
        Err(ErrorMessage::UnauthorizedCallback)
    );
    assert_eq!(unsigned.game, before);

    let mut stranger = CallbackCheckToothCtx {
        vrf_program_identity: Caller { key: PLAYER, is_signer: true },
        oracle_identity: ORACLE,
        game,
    };
    assert_eq!(
        callback_check_tooth(&mut stranger, BITING),
        Err(ErrorMessage::UnauthorizedCallback)
    );
    assert_eq!(stranger.game, before);

    let mut near = ORACLE;
    near[31] = 8;
    let mut almost = CallbackCheckToothCtx {
        vrf_program_identity: Caller { key: near, is_signer: true },
        oracle_identity: ORACLE,
        game,
    };
    assert_eq!(
        callback_check_tooth(&mut almost, BITING),
        Err(ErrorMessage::UnauthorizedCallback)
    );
    assert_eq!(almost.game, before);

    assert_eq!(answer(&mut game, BITING), Ok(()));
    assert!(game.game_over);
}

#[test]
fn callback_marks_the_tooth_whether_it_bites_or_not() {
    let mut safe = created(10);
    assert_eq!(press(&mut safe, 6), Ok(()));
    assert_eq!(answer(&mut safe, HARMLESS), Ok(()));
    assert_eq!(safe.pressed_teeth, 1 << 6);
    assert_eq!(safe.teeth_pressed_count, 1);
    assert!(!safe.game_over);

    let mut bitten = created(10);
    assert_eq!(press(&mut bitten, 6), Ok(()));
    assert_eq!(answer(&mut bitten, BITING), Ok(()));
    assert_eq!(bitten.pressed_teeth, 1 << 6);
    assert_eq!(bitten.teeth_pressed_count, 1);
    assert!(bitten.game_over);
}

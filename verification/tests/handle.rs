use bot::interface::Interface;
use bot::moves::Move;
use bot::piece::{FallingPiece, Piece, PieceMovement, RotationState};
use bot::protocol::{BotMsg, BotResult};

fn a_move(x: i32) -> Move {
    Move {
        hold: false,
        inputs: vec![PieceMovement::Left, PieceMovement::SonicDrop],
        expected_location: FallingPiece {
            piece: Piece::T,
            rotation: RotationState::North,
            x,
            y: 0,
        },
    }
}

fn some_info() -> BotResult {
    BotResult::BotInfo(vec![("Cold Clear".to_string(), None)])
}

#[test]
fn fresh_handle_is_alive_and_empty() {
    let mut handle = Interface::launch();
    assert!(!handle.is_dead());
    assert_eq!(handle.poll_next_move(), None);
    assert!(handle.take_outgoing().is_empty());
}

#[test]
fn commands_leave_in_the_order_of_the_calls() {
    let mut handle = Interface::launch();
    let mut field = [[false; 10]; 40];
    field[0][3] = true;
    handle.add_next_piece(Piece::L);
    handle.request_next_move();
    handle.reset(field, true, 2);
    handle.misa_prepare_next_move();
    handle.add_next_piece(Piece::S);
    assert_eq!(
        handle.take_outgoing(),
        vec![
            BotMsg::NewPiece(Piece::L),
            BotMsg::NextMove,
            BotMsg::Reset { field, b2b: true, combo: 2 },
            BotMsg::PrepareNextMove,
            BotMsg::NewPiece(Piece::S),
        ]
    );
    assert!(!handle.is_dead());
}

#[test]
fn commands_are_handed_out_once() {
    let mut handle = Interface::launch();
    handle.request_next_move();
    assert_eq!(handle.take_outgoing(), vec![BotMsg::NextMove]);
    assert!(handle.take_outgoing().is_empty());
    handle.add_next_piece(Piece::O);
    assert_eq!(handle.take_outgoing(), vec![BotMsg::NewPiece(Piece::O)]);
}

#[test]
fn failed_send_marks_the_handle_dead() {
    let mut handle = Interface::launch();
    handle.request_next_move();
    let _ = handle.take_outgoing();
    handle.mark_dead();
    assert!(handle.is_dead());
}

#[test]
fn disconnect_drops_what_was_still_queued() {
    let mut handle = Interface::launch();
    handle.add_next_piece(Piece::I);
    handle.request_next_move();
    handle.mark_dead();
    assert!(handle.is_dead());
    assert!(handle.take_outgoing().is_empty());
}

#[test]
fn dead_handle_queues_nothing() {
    let mut handle = Interface::launch();
    handle.mark_dead();
    handle.request_next_move();
    handle.add_next_piece(Piece::Z);
    handle.reset([[true; 10]; 40], false, 0);
    handle.misa_prepare_next_move();
    assert!(handle.take_outgoing().is_empty());
    assert!(handle.is_dead());
}

#[test]
fn dead_stays_dead_whatever_is_called() {
    let mut handle = Interface::launch();
    handle.poll_bot(Vec::new(), true);
    assert!(handle.is_dead());
    handle.request_next_move();
    assert!(handle.is_dead());
    handle.add_next_piece(Piece::J);
    assert!(handle.is_dead());
    handle.reset([[false; 10]; 40], false, 0);
    assert!(handle.is_dead());
    handle.misa_prepare_next_move();
    assert!(handle.is_dead());
    let _ = handle.take_outgoing();
    assert!(handle.is_dead());
    handle.poll_bot(vec![BotResult::Move(a_move(1))], false);
    assert!(handle.is_dead());
    let _ = handle.poll_next_move();
    assert!(handle.is_dead());
    handle.mark_dead();
    assert!(handle.is_dead());
}

#[test]
fn poll_hands_out_the_move_that_came() {
    let mut handle = Interface::launch();
    handle.poll_bot(vec![BotResult::Move(a_move(4))], false);
    assert_eq!(handle.poll_next_move(), Some(a_move(4)));
    assert!(!handle.is_dead());
}

#[test]
fn second_poll_in_a_row_gives_nothing() {
    let mut handle = Interface::launch();
    handle.poll_bot(vec![BotResult::Move(a_move(4)), some_info()], false);
    assert_eq!(handle.poll_next_move(), Some(a_move(4)));
    assert_eq!(handle.poll_next_move(), None);
    handle.poll_bot(Vec::new(), false);
    assert_eq!(handle.poll_next_move(), None);
}

#[test]
fn later_move_overwrites_earlier_one() {
    let mut handle = Interface::launch();
    handle.poll_bot(
        vec![
            some_info(),
            BotResult::Move(a_move(1)),
            some_info(),
            BotResult::Move(a_move(2)),
            BotResult::Move(a_move(3)),
            some_info(),
        ],
        false,
    );
    assert_eq!(handle.poll_next_move(), Some(a_move(3)));
    assert_eq!(handle.poll_next_move(), None);
}

#[test]
fn move_of_a_later_feed_overwrites_one_not_yet_taken() {
    let mut handle = Interface::launch();
    handle.poll_bot(vec![BotResult::Move(a_move(1))], false);
    handle.poll_bot(vec![BotResult::Move(a_move(2))], false);
    assert_eq!(handle.poll_next_move(), Some(a_move(2)));
}

#[test]
fn pending_move_survives_a_feed_without_moves() {
    let mut handle = Interface::launch();
    handle.poll_bot(vec![BotResult::Move(a_move(6))], false);
    handle.poll_bot(vec![some_info(), some_info()], false);
    handle.poll_bot(Vec::new(), false);
    assert_eq!(handle.poll_next_move(), Some(a_move(6)));
}

#[test]
fn reports_alone_leave_nothing_to_poll() {
    let mut handle = Interface::launch();
    handle.poll_bot(vec![some_info(), some_info()], false);
    assert_eq!(handle.poll_next_move(), None);
    assert!(!handle.is_dead());
}

#[test]
fn closed_result_channel_marks_the_handle_dead() {
    let mut handle = Interface::launch();
    handle.request_next_move();
    handle.poll_bot(Vec::new(), true);
    assert!(handle.is_dead());
    assert!(handle.take_outgoing().is_empty());
}

#[test]
fn last_move_before_the_channel_closed_is_still_handed_out() {
    let mut handle = Interface::launch();
    handle.poll_bot(vec![BotResult::Move(a_move(8)), some_info()], true);
    assert!(handle.is_dead());
    assert_eq!(handle.poll_next_move(), Some(a_move(8)));
    assert_eq!(handle.poll_next_move(), None);
    assert!(handle.is_dead());
}

#[test]
fn dead_handle_takes_in_no_result() {
    let mut handle = Interface::launch();
    handle.mark_dead();
    handle.poll_bot(vec![BotResult::Move(a_move(5))], false);
    assert_eq!(handle.poll_next_move(), None);
    assert!(handle.is_dead());
}

#[test]
fn preparing_changes_neither_life_nor_pending_move() {
    let mut handle = Interface::launch();
    handle.poll_bot(vec![BotResult::Move(a_move(2))], false);
    for _ in 0..5 {
        handle.misa_prepare_next_move();
    }
    assert!(!handle.is_dead());
    assert_eq!(handle.take_outgoing(), vec![BotMsg::PrepareNextMove; 5]);
    assert_eq!(handle.poll_next_move(), Some(a_move(2)));
}

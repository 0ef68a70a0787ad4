use ratrix::App;
use ratrix::Key;
use ratrix::TetrisEngine;

#[test]
fn a_fresh_session_wants_a_first_frame() {
    let app = App::new();
    assert!(app.rerender_required);
    assert!(!app.exit);
}

#[test]
fn escape_ends_the_session_without_touching_the_engine() {
    let mut app = App::new();
    let mut tetris = TetrisEngine::new(1000);
    let before = tetris.get_state();
    app.handle_key(&mut tetris, Key::Esc);
    assert!(app.exit);
    let after = tetris.get_state();
    assert_eq!(after.playfield, before.playfield);
    assert_eq!(after.piece_position, before.piece_position);
    assert_eq!(after.active_piece, before.active_piece);
}

#[test]
fn arrow_keys_drive_the_engine() {
    let mut app = App::new();
    let mut tetris = TetrisEngine::new(1000);
    app.handle_key(&mut tetris, Key::Right);
    assert_eq!(tetris.get_state().piece_position, [5, 0]);
    app.handle_key(&mut tetris, Key::Left);
    assert_eq!(tetris.get_state().piece_position, [4, 0]);
    app.handle_key(&mut tetris, Key::Down);
    assert_eq!(tetris.get_state().piece_position, [4, 1]);
    let shape_before = tetris.get_state().active_piece;
    app.handle_key(&mut tetris, Key::Up);
    assert_ne!(tetris.get_state().active_piece, shape_before);
    assert!(!app.exit);
}

#[test]
fn redraws_are_owed_until_settled() {
    let mut app = App::new();
    let mut tetris = TetrisEngine::new(1000);
    app.finish_render(&mut tetris);
    assert!(!app.rerender_required);
    assert!(!tetris.changed);
    app.absorb_change(&tetris);
    assert!(!app.rerender_required);
    tetris.rotate();
    app.absorb_change(&tetris);
    assert!(app.rerender_required);
    app.finish_render(&mut tetris);
    assert!(!app.rerender_required);
    assert!(!tetris.changed);
}

#[test]
fn setup_and_teardown_bracket_the_session() {
    let mut app = App::new();
    app.finish_render(&mut TetrisEngine::new(1000));
    app.setup();
    assert!(app.rerender_required);
    app.teardown();
    assert!(app.exit);
}

//! Session control: the decisions of the interactive loop. The loop
//! itself — polling the keyboard, reading the clock, drawing — lives
//! outside; this module owns the pure state those decisions touch:
//! which engine command a key stands for, when the session ends, and
//! when the screen must be redrawn.

use vstd::prelude::*;

use crate::engine::move_result;
use crate::engine::rotate_result;
use crate::engine::GameView;
use crate::engine::TetrisEngine;

verus! {

/// A keyboard command, already stripped of the terminal's own encoding.
#[derive(Clone, Copy, PartialEq, Eq, Structural, Debug)]
pub enum Key {
    Left,
    Right,
    Up,
    Down,
    Esc,
    Other,
}

/// The session's decision state: whether the screen needs a redraw and
/// whether the player asked to leave.
pub struct App {
    /// Raised whenever the engine reports a change; cleared on redraw.
    pub rerender_required: bool,
    /// Raised once the player asks to leave; the loop then stops.
    pub exit: bool,
}

impl App {
    /// A fresh session: not exiting, first frame still to be drawn.
    pub fn new() -> (app: App)
        ensures
            app.rerender_required,
            !app.exit,
    {
        App { rerender_required: true, exit: false }
    }

    /// Prepares a fresh screen: whatever was drawn before is gone, so a
    /// full redraw is owed. The terminal itself is the caller's concern.
    pub fn setup(&mut self)
        ensures
            final(self).rerender_required,
            final(self).exit == old(self).exit,
    {
        self.rerender_required = true;
    }

    /// Closes the session; the loop will not run again. Restoring the
    /// terminal is the caller's concern.
    pub fn teardown(&mut self)
        ensures
            final(self).exit,
            final(self).rerender_required == old(self).rerender_required,
    {
        self.exit = true;
    }

    /// Dispatches one key: the escape key ends the session, the four
    /// directional keys become the matching engine command, anything
    /// else is ignored.
    pub fn handle_key(&mut self, engine: &mut TetrisEngine, key: Key)
        requires
            old(engine)@.wf(),
        ensures
            final(engine)@.wf(),
            *final(self) == (App {
                exit: old(self).exit || key == Key::Esc,
                ..*old(self)
            }),
            key == Key::Esc || key == Key::Other ==> final(engine)@ == old(engine)@,
            key == Key::Right ==> final(engine)@ == move_result(old(engine)@, 1, 0),
            key == Key::Left ==> final(engine)@ == move_result(old(engine)@, -1, 0),
            key == Key::Down ==> final(engine)@ == move_result(old(engine)@, 0, 1),
            key == Key::Up ==> final(engine)@ == rotate_result(old(engine)@),
    {
        match key {
            Key::Esc => self.exit = true,
            Key::Right => engine.move_current_shape(1, 0),
            Key::Left => engine.move_current_shape(-1, 0),
            Key::Down => engine.move_current_shape(0, 1),
            Key::Up => engine.rotate(),
            Key::Other => (),
        }
    }

    /// Notes whether the engine changed since the last frame: once it
    /// has, a redraw stays owed until one happens.
    pub fn absorb_change(&mut self, engine: &TetrisEngine)
        ensures
            final(self).rerender_required == (old(self).rerender_required || engine@.changed),
            final(self).exit == old(self).exit,
    {
        if engine.is_changed() {
            self.rerender_required = true;
        }
    }

    /// Settles a completed redraw: the screen is current again, so both
    /// the redraw debt and the engine's dirty flag are cleared.
    pub fn finish_render(&mut self, engine: &mut TetrisEngine)
        requires
            old(engine)@.wf(),
        ensures
            !final(self).rerender_required,
            final(self).exit == old(self).exit,
            final(engine)@ == (GameView { changed: false, ..old(engine)@ }),
            final(engine)@.wf(),
    {
        self.rerender_required = false;
        engine.set_changed(false);
    }
}

} // verus!

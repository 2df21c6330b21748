//! The editor state: one buffer plus the cursor/viewport coordinate model
//! and the modal dispatch of input events into actions, with the application
//! of each action to the state.

use vstd::prelude::*;
use crate::buffer::Buffer;
use crate::buffer::spec_insert;
use crate::buffer::spec_remove;
use crate::buffer::spec_remove_line;
use crate::input::Action;
use crate::input::Effect;
use crate::input::Event;
use crate::input::Key;
use crate::input::Mode;
use crate::input::spec_insert_action;
use crate::input::spec_normal_event_action;
use crate::input::spec_waiting_action;

verus! {

/// The whole editor state. Cursor column `cx` and row `cy` are
/// screen-relative; `vtop` and `vleft` are the viewport's scroll offsets, so
/// the cursor's buffer line is `vtop + cy`.
pub struct Editor {
    pub buffer: Buffer,
    pub size: (u16, u16),
    pub mode: Mode,
    pub vtop: u16,
    pub vleft: u16,
    pub cx: u16,
    pub cy: u16,
    pub waiting_command: Option<char>,
}

/// Content rows of a screen: its height less the two rows reserved for the
/// status display (none when the screen is shorter than that).
pub open spec fn spec_vheight(e: Editor) -> int {
    if e.size.1 >= 2 {
        e.size.1 - 2
    } else {
        0
    }
}

/// The buffer line the cursor logically occupies.
pub open spec fn spec_abs_line(e: Editor) -> int {
    e.vtop + e.cy
}

/// The cursor's buffer line as a line number for the edit primitives,
/// saturating at the largest representable one.
pub open spec fn spec_buffer_line(e: Editor) -> u16 {
    if e.vtop + e.cy <= 65535 {
        (e.vtop + e.cy) as u16
    } else {
        65535u16
    }
}

/// Character length of line `y`, saturated to a screen coordinate; 0 when
/// there is no such line.
pub open spec fn spec_line_len_at(lines: Seq<Seq<char>>, y: int) -> int {
    if 0 <= y < lines.len() {
        if lines[y].len() <= 65535 {
            lines[y].len() as int
        } else {
            65535
        }
    } else {
        0
    }
}

/// The last valid buffer line a cursor may rest on: the final line, or line
/// 0 of an empty buffer.
pub open spec fn spec_last_line(len: int) -> int {
    if len > 0 {
        len - 1
    } else {
        0
    }
}

/// The clamped cursor row: left alone while the cursor is on a buffer line,
/// otherwise decreased just enough (never below 0, and never by moving the
/// viewport) to reach the last line.
pub open spec fn spec_clamp_cy(vtop: int, cy: int, len: int) -> int {
    if vtop + cy < len {
        cy
    } else if len > vtop {
        len - 1 - vtop
    } else {
        0
    }
}

/// A count one greater, held at the largest screen coordinate instead of
/// wrapping.
pub open spec fn spec_inc(n: int) -> int {
    if n < 65535 {
        n + 1
    } else {
        65535
    }
}

/// What a delete-before-cursor leaves behind: the buffer lines and the new
/// cursor column, row and viewport top. Before column 0 of the first buffer
/// line there is nothing to delete; at column 0 elsewhere the cursor moves
/// to the end of the line above and that line loses its last character, if
/// it has one.
pub open spec fn spec_backspace(e: Editor) -> (Seq<Seq<char>>, int, int, int) {
    let lv = e.buffer.lines_view();
    if e.cx > 0 {
        let cx1 = e.cx - 1;
        (spec_remove(lv, cx1, spec_buffer_line(e) as int), cx1, e.cy as int, e.vtop as int)
    } else if spec_buffer_line(e) > 0 {
        let cy1: int = if e.cy > 0 {
            e.cy - 1
        } else {
            e.cy as int
        };
        let vtop1: int = if e.cy > 0 {
            e.vtop as int
        } else {
            e.vtop - 1
        };
        let e1 = Editor { cy: cy1 as u16, vtop: vtop1 as u16, ..e };
        let ll = spec_line_len_at(lv, spec_abs_line(e1));
        if ll > 0 {
            (spec_remove(lv, ll - 1, spec_buffer_line(e1) as int), ll - 1, cy1, vtop1)
        } else {
            (lv, 0, cy1, vtop1)
        }
    } else {
        (lv, e.cx as int, e.cy as int, e.vtop as int)
    }
}

impl Editor {
    /// A fresh editor over `buffer` for a screen of the given size: Normal
    /// mode, no pending command, cursor and scroll offsets at the origin.
    pub fn new(buffer: Buffer, width: u16, height: u16) -> (e: Editor)
        ensures
            e.buffer == buffer,
            e.size == (width, height),
            e.mode == Mode::Normal,
            e.vtop == 0u16 && e.vleft == 0u16 && e.cx == 0u16 && e.cy == 0u16,
            e.waiting_command is None,
    {
        Editor {
            buffer,
            size: (width, height),
            mode: Mode::Normal,
            vtop: 0,
            vleft: 0,
            cx: 0,
            cy: 0,
            waiting_command: None,
        }
    }

    /// Screen width in character cells.
    pub fn vwidth(&self) -> (w: u16)
        ensures
            w == self.size.0,
    {
        self.size.0
    }

    /// Number of content rows on screen.
    pub fn vheight(&self) -> (h: u16)
        ensures
            h as int == spec_vheight(*self),
    {
        if self.size.1 >= 2 {
            self.size.1 - 2
        } else {
            0
        }
    }

    /// The cursor's buffer line, saturated to a line number the edit
    /// primitives can address.
    pub fn buffer_line(&self) -> (y: u16)
        ensures
            y == spec_buffer_line(*self),
    {
        let s: u32 = self.vtop as u32 + self.cy as u32;
        if s <= 65535 {
            s as u16
        } else {
            65535
        }
    }

    /// The buffer line shown on viewport row `n`, if that row shows one.
    pub fn viewport_line(&self, n: u16) -> (r: Option<String>)
        ensures
            (match r {
                Some(l) => self.vtop + n < self.buffer.lines_view().len() && l@ == self.buffer.lines_view()[self.vtop + n],
                None => self.vtop + n >= self.buffer.lines_view().len(),
            }),
    {
        self.buffer.get(self.vtop as usize + n as usize)
    }

    /// Character length of the line under the cursor, saturated to a screen
    /// coordinate; 0 when the cursor is below the buffer or the line is
    /// empty.
    pub fn line_length(&self) -> (l: u16)
        ensures
            l as int == spec_line_len_at(self.buffer.lines_view(), spec_abs_line(*self)),
    {
        match self.viewport_line(self.cy) {
            Some(line) => {
                let n = line.as_str().unicode_len();
                if n >= 65535 {
                    65535
                } else {
                    n as u16
                }
            },
            None => 0,
        }
    }

    /// Clamps the cursor back into the buffer after any mutation: first the
    /// row, which is decreased (the viewport offset deliberately never moves
    /// here) until the cursor is on the last buffer line; then the column,
    /// against the length of the line now under the cursor and against the
    /// screen width. The column may rest one past the line's final
    /// character, and likewise at the screen width itself.
    pub fn check_bounds(&mut self)
        ensures
            final(self).buffer == old(self).buffer,
            final(self).size == old(self).size,
            final(self).mode == old(self).mode,
            final(self).vtop == old(self).vtop,
            final(self).vleft == old(self).vleft,
            final(self).waiting_command == old(self).waiting_command,
            final(self).cy as int == spec_clamp_cy(
                old(self).vtop as int,
                old(self).cy as int,
                old(self).buffer.lines_view().len() as int,
            ),
            final(self).cx as int == ({
                let ll = spec_line_len_at(final(self).buffer.lines_view(), spec_abs_line(*final(self)));
                let capped = if old(self).cx as int <= ll { old(self).cx as int } else { ll };
                if capped <= old(self).size.0 as int { capped } else { old(self).size.0 as int }
            }),
            // the clamped cursor column never passes the end of the line
            // under the cursor, and is 0 where no line is under it
            spec_abs_line(*final(self)) < final(self).buffer.lines_view().len()
                ==> final(self).cx as int <= final(self).buffer.lines_view()[spec_abs_line(*final(self))].len(),
            spec_abs_line(*final(self)) >= final(self).buffer.lines_view().len() ==> final(self).cx == 0u16,
            // the clamped cursor row never passes the last buffer line,
            // wherever the viewport can still reach it
            old(self).vtop as int <= spec_last_line(old(self).buffer.lines_view().len() as int)
                ==> spec_abs_line(*final(self)) <= spec_last_line(old(self).buffer.lines_view().len() as int),
    {
        let len: usize = self.buffer.len();
        let vt: usize = self.vtop as usize;
        let cys: usize = self.cy as usize;
        if vt + cys < len {
        } else if len > vt {
            self.cy = (len - 1 - vt) as u16;
        } else {
            self.cy = 0;
        }
        let ll = self.line_length();
        if self.cx > ll {
            self.cx = ll;
        }
        let w = self.vwidth();
        if self.cx > w {
            self.cx = w;
        }
    }

    /// Resolves one input event. A resize only records the new screen size;
    /// with a command prefix pending, the event completes or aborts it and
    /// the prefix is cleared either way; otherwise the current mode's key
    /// table decides.
    pub fn handle_event(&mut self, ev: Event) -> (r: Option<Action>)
        ensures
            (match ev {
                Event::Resize(w, h) => r is None && *final(self) == (Editor {
                    size: (w, h),
                    ..*old(self)
                }),
                _ => match old(self).mode {
                    Mode::Normal => match old(self).waiting_command {
                        Some(cmd) => r == spec_waiting_action(cmd, ev) && *final(self) == (Editor {
                            waiting_command: None,
                            ..*old(self)
                        }),
                        None => r == spec_normal_event_action(ev) && *final(self) == *old(self),
                    },
                    Mode::Insert => r == spec_insert_action(ev) && *final(self) == *old(self),
                },
            }),
    {
        if let Event::Resize(w, h) = ev {
            self.size = (w, h);
            return None;
        }
        match self.mode {
            Mode::Normal => self.handle_normal_event(ev),
            Mode::Insert => self.handle_insert_event(ev),
        }
    }

    /// Normal-mode resolution: a pending command prefix takes the event
    /// first and is cleared whatever comes of it; otherwise the Normal key
    /// table decides and the state is untouched.
    fn handle_normal_event(&mut self, ev: Event) -> (r: Option<Action>)
        ensures
            (match old(self).waiting_command {
                Some(cmd) => r == spec_waiting_action(cmd, ev) && *final(self) == (Editor {
                    waiting_command: None,
                    ..*old(self)
                }),
                None => r == spec_normal_event_action(ev) && *final(self) == *old(self),
            }),
    {
        let waiting = self.waiting_command;
        if let Some(cmd) = waiting {
            self.waiting_command = None;
            return self.handle_waiting_command(ev, cmd);
        }
        match ev {
            Event::Key(kp) => match kp.key {
                Key::Char(c) => {
                    if c == 'q' {
                        Some(Action::Quit)
                    } else if c == 'k' {
                        Some(Action::MoveUp)
                    } else if c == 'j' {
                        Some(Action::MoveDown)
                    } else if c == 'h' {
                        Some(Action::MoveLeft)
                    } else if c == 'l' {
                        Some(Action::MoveRight)
                    } else if c == 'i' {
                        Some(Action::EnterMode(Mode::Insert))
                    } else if c == '0' {
                        Some(Action::MoveToLineStart)
                    } else if c == '$' {
                        Some(Action::MoveToLineEnd)
                    } else if c == 'b' && kp.ctrl {
                        Some(Action::PageUp)
                    } else if c == 'f' && kp.ctrl {
                        Some(Action::PageDown)
                    } else if c == 's' && kp.ctrl {
                        Some(Action::Save)
                    } else if c == 'd' {
                        Some(Action::SetWaitingCad('d'))
                    } else {
                        None
                    }
                },
                Key::Up => Some(Action::MoveUp),
                Key::Down => Some(Action::MoveDown),
                Key::Left => Some(Action::MoveLeft),
                Key::Right => Some(Action::MoveRight),
                Key::Home => Some(Action::MoveToLineStart),
                Key::End => Some(Action::MoveToLineEnd),
                _ => None,
            },
            _ => None,
        }
    }

    /// Resolution of the event that completes or aborts a pending command
    /// prefix; reads the state only.
    fn handle_waiting_command(&self, ev: Event, cmd: char) -> (r: Option<Action>)
        ensures
            r == spec_waiting_action(cmd, ev),
    {
        if cmd == 'd' {
            match ev {
                Event::Key(kp) => match kp.key {
                    Key::Char(c) => if c == 'd' {
                        Some(Action::DeleteCurrentLine)
                    } else {
                        None
                    },
                    Key::Esc => Some(Action::EnterMode(Mode::Normal)),
                    _ => None,
                },
                _ => None,
            }
        } else {
            None
        }
    }

    /// Insert-mode resolution by the Insert key table; reads the state only.
    fn handle_insert_event(&self, ev: Event) -> (r: Option<Action>)
        ensures
            r == spec_insert_action(ev),
    {
        match ev {
            Event::Key(kp) => match kp.key {
                Key::Esc => Some(Action::EnterMode(Mode::Normal)),
                Key::Char(c) => Some(Action::InsertCharAtCursorPos(c)),
                Key::Backspace => Some(Action::DeleteCharAtCursorPos),
                Key::Enter => Some(Action::NewLine),
                _ => None,
            },
            _ => None,
        }
    }

    /// Applies one resolved action to the editor state, per the movement and
    /// edit tables. Quit and Save change nothing here: they tell the caller
    /// to stop the loop, or to write the serialized buffer out. Coordinate
    /// arithmetic saturates at the screen coordinate range instead of
    /// wrapping.
    pub fn apply_action(&mut self, action: Action) -> (eff: Effect)
        ensures
            final(self).size == old(self).size,
            final(self).vleft == old(self).vleft,
            final(self).buffer.file == old(self).buffer.file,
            eff == (match action {
                Action::Quit => Effect::Quit,
                Action::Save => Effect::Save,
                _ => Effect::Continue,
            }),
            (match action {
                Action::Quit => *final(self) == *old(self),
                Action::Save => *final(self) == *old(self),
                Action::MoveUp => *final(self) == (Editor {
                    vtop: (if old(self).cy == 0 && old(self).vtop > 0 {
                        (old(self).vtop - 1) as u16
                    } else {
                        old(self).vtop
                    }),
                    cy: (if old(self).cy > 0 {
                        (old(self).cy - 1) as u16
                    } else {
                        old(self).cy
                    }),
                    ..*old(self)
                }),
                Action::MoveDown => ({
                    let cy1 = spec_inc(old(self).cy as int);
                    if cy1 > spec_vheight(*old(self)) {
                        *final(self) == (Editor {
                            vtop: spec_inc(old(self).vtop as int) as u16,
                            cy: (cy1 - 1) as u16,
                            ..*old(self)
                        })
                    } else {
                        *final(self) == (Editor { cy: cy1 as u16, ..*old(self) })
                    }
                }),
                Action::MoveLeft => ({
                    let cx1: int = if old(self).cx > 0 {
                        old(self).cx - 1
                    } else {
                        0
                    };
                    let cx2: int = if cx1 < old(self).vleft {
                        old(self).vleft as int
                    } else {
                        cx1
                    };
                    *final(self) == (Editor { cx: cx2 as u16, ..*old(self) })
                }),
                Action::MoveRight => *final(self) == (Editor {
                    cx: spec_inc(old(self).cx as int) as u16,
                    ..*old(self)
                }),
                Action::MoveToLineEnd => ({
                    let ll = spec_line_len_at(old(self).buffer.lines_view(), spec_abs_line(*old(self)));
                    *final(self) == (Editor {
                        cx: (if ll > 0 {
                            ll - 1
                        } else {
                            0
                        }) as u16,
                        ..*old(self)
                    })
                }),
                Action::MoveToLineStart => *final(self) == (Editor { cx: 0u16, ..*old(self) }),
                Action::PageUp => *final(self) == (Editor {
                    vtop: (if old(self).vtop as int > spec_vheight(*old(self)) {
                        old(self).vtop - spec_vheight(*old(self))
                    } else {
                        0
                    }) as u16,
                    ..*old(self)
                }),
                Action::PageDown => ({
                    if old(self).buffer.lines_view().len() > old(self).vtop + spec_vheight(*old(self)) {
                        *final(self) == (Editor {
                            vtop: (if old(self).vtop + spec_vheight(*old(self)) <= 65535 {
                                old(self).vtop + spec_vheight(*old(self))
                            } else {
                                65535
                            }) as u16,
                            ..*old(self)
                        })
                    } else {
                        *final(self) == *old(self)
                    }
                }),
                Action::EnterMode(m) => *final(self) == (Editor { mode: m, ..*old(self) }),
                Action::InsertCharAtCursorPos(c) => ({
                    &&& final(self).buffer.lines_view() == spec_insert(
                        old(self).buffer.lines_view(),
                        old(self).cx as int,
                        spec_buffer_line(*old(self)) as int,
                        c,
                    )
                    &&& final(self).cx as int == spec_inc(old(self).cx as int)
                    &&& final(self).cy == old(self).cy
                    &&& final(self).vtop == old(self).vtop
                    &&& final(self).mode == old(self).mode
                    &&& final(self).waiting_command == old(self).waiting_command
                }),
                Action::DeleteCharAtCursorPos => ({
                    let (lv1, cx1, cy1, vtop1) = spec_backspace(*old(self));
                    &&& final(self).buffer.lines_view() == lv1
                    &&& final(self).cx as int == cx1
                    &&& final(self).cy as int == cy1
                    &&& final(self).vtop as int == vtop1
                    &&& final(self).mode == old(self).mode
                    &&& final(self).waiting_command == old(self).waiting_command
                }),
                Action::NewLine => *final(self) == (Editor {
                    cy: spec_inc(old(self).cy as int) as u16,
                    cx: 0u16,
                    ..*old(self)
                }),
                Action::SetWaitingCad(cmd) => *final(self) == (Editor {
                    waiting_command: Some(cmd),
                    ..*old(self)
                }),
                Action::DeleteCurrentLine => ({
                    &&& final(self).buffer.lines_view() == spec_remove_line(
                        old(self).buffer.lines_view(),
                        spec_buffer_line(*old(self)) as int,
                    )
                    &&& final(self).cy == (if old(self).cy > 0 {
                        (old(self).cy - 1) as u16
                    } else {
                        old(self).cy
                    })
                    &&& final(self).vtop == (if old(self).vtop > 0 {
                        (old(self).vtop - 1) as u16
                    } else {
                        old(self).vtop
                    })
                    &&& final(self).cx == old(self).cx
                    &&& final(self).mode == old(self).mode
                    &&& final(self).waiting_command == old(self).waiting_command
                }),
            }),
    {
        match action {
            Action::Quit => Effect::Quit,
            Action::Save => Effect::Save,
            Action::MoveUp => {
                if self.cy == 0 {
                    if self.vtop > 0 {
                        self.vtop = self.vtop - 1;
                    }
                } else {
                    self.cy = self.cy - 1;
                }
                Effect::Continue
            },
            Action::MoveDown => {
                let cy1: u16 = if self.cy < 65535 {
                    self.cy + 1
                } else {
                    65535
                };
                let vh = self.vheight();
                if cy1 > vh {
                    self.vtop = if self.vtop < 65535 {
                        self.vtop + 1
                    } else {
                        65535
                    };
                    self.cy = cy1 - 1;
                } else {
                    self.cy = cy1;
                }
                Effect::Continue
            },
            Action::MoveLeft => {
                self.cx = if self.cx > 0 {
                    self.cx - 1
                } else {
                    0
                };
                if self.cx < self.vleft {
                    self.cx = self.vleft;
                }
                Effect::Continue
            },
            Action::MoveRight => {
                self.cx = if self.cx < 65535 {
                    self.cx + 1
                } else {
                    65535
                };
                Effect::Continue
            },
            Action::MoveToLineEnd => {
                let ll = self.line_length();
                self.cx = if ll > 0 {
                    ll - 1
                } else {
                    0
                };
                Effect::Continue
            },
            Action::MoveToLineStart => {
                self.cx = 0;
                Effect::Continue
            },
            Action::PageUp => {
                if self.vtop > 0 {
                    let vh = self.vheight();
                    self.vtop = if self.vtop > vh {
                        self.vtop - vh
                    } else {
                        0
                    };
                }
                Effect::Continue
            },
            Action::PageDown => {
                let vh = self.vheight();
                if self.buffer.len() > self.vtop as usize + vh as usize {
                    let s: u32 = self.vtop as u32 + vh as u32;
                    self.vtop = if s <= 65535 {
                        s as u16
                    } else {
                        65535
                    };
                }
                Effect::Continue
            },
            Action::EnterMode(m) => {
                self.mode = m;
                Effect::Continue
            },
            Action::InsertCharAtCursorPos(c) => {
                let y = self.buffer_line();
                self.buffer.insert(self.cx, y, c);
                self.cx = if self.cx < 65535 {
                    self.cx + 1
                } else {
                    65535
                };
                Effect::Continue
            },
            Action::DeleteCharAtCursorPos => {
                if self.cx > 0 {
                    self.cx = self.cx - 1;
                    let y = self.buffer_line();
                    self.buffer.remove(self.cx, y);
                } else {
                    let bl = self.buffer_line();
                    if bl > 0 {
                        if self.cy > 0 {
                            self.cy = self.cy - 1;
                        } else {
                            self.vtop = self.vtop - 1;
                        }
                        self.cx = self.line_length();
                        if self.cx > 0 {
                            self.cx = self.cx - 1;
                            let y = self.buffer_line();
                            self.buffer.remove(self.cx, y);
                        }
                    }
                }
                Effect::Continue
            },
            Action::NewLine => {
                self.cy = if self.cy < 65535 {
                    self.cy + 1
                } else {
                    65535
                };
                self.cx = 0;
                Effect::Continue
            },
            Action::SetWaitingCad(cmd) => {
                self.waiting_command = Some(cmd);
                Effect::Continue
            },
            Action::DeleteCurrentLine => {
                let y = self.buffer_line();
                self.buffer.remove_line(y);
                if self.cy > 0 {
                    self.cy = self.cy - 1;
                }
                if self.vtop > 0 {
                    self.vtop = self.vtop - 1;
                }
                Effect::Continue
            },
        }
    }
}

} // verus!

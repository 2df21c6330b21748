//! The read model the renderer paints from: the padded text of each visible
//! row, the status line's three text fields with their layout width, and
//! the cursor shape. The terminal painting itself lives outside the core.

use vstd::prelude::*;
use vstd::string::*;
use crate::buffer::push_char;
use crate::buffer::spec_blank;
use crate::editor::Editor;
use crate::input::Mode;

verus! {

/// The cursor glyph the terminal is asked to show.
#[derive(Clone, Copy, Debug, PartialEq, Eq, Structural)]
pub enum CursorShape {
    Block,
    Underscore,
    Bar,
}

/// The character of one decimal digit.
pub open spec fn spec_digit_char(d: int) -> char {
    ((48 + d) as u8) as char
}

/// The decimal digits of `n`, most significant first.
pub open spec fn spec_decimal(n: int) -> Seq<char>
    decreases n,
{
    if n < 10 {
        seq![spec_digit_char(n)]
    } else {
        spec_decimal(n / 10).push(spec_digit_char(n % 10))
    }
}

/// A line as painted into a row of width `w`: padded with trailing spaces
/// to overwrite stale cells, and left as it is when already that wide.
pub open spec fn spec_padded(l: Seq<char>, w: int) -> Seq<char> {
    if l.len() >= w {
        l
    } else {
        l + spec_blank(w - l.len())
    }
}

fn digit_char(d: u8) -> (c: char)
    requires
        d < 10,
    ensures
        c == spec_digit_char(d as int),
{
    (48 + d) as char
}

/// The decimal text of `n`, as the status line shows coordinates.
pub fn u32_text(n: u32) -> (r: String)
    ensures
        r@ == spec_decimal(n as int),
    decreases n,
{
    if n < 10 {
        let mut s = String::new();
        push_char(&mut s, digit_char(n as u8));
        proof {
            assert(s@ =~= spec_decimal(n as int));
        }
        s
    } else {
        let mut s = u32_text(n / 10);
        push_char(&mut s, digit_char((n % 10) as u8));
        s
    }
}

/// The status line's mode name.
pub fn mode_text(m: Mode) -> (r: String)
    ensures
        m == Mode::Normal ==> r@ == " NORMAL "@,
        m == Mode::Insert ==> r@ == " INSERT "@,
{
    match m {
        Mode::Normal => String::from_str(" NORMAL "),
        Mode::Insert => String::from_str(" INSERT "),
    }
}

/// The status line's file label: the buffer's path, or a placeholder when
/// it has none, behind one leading space.
pub fn file_text(file: &Option<String>) -> (r: String)
    ensures
        (match file {
            Some(name) => r@ == " "@ + name@,
            None => r@ == " No Name"@,
        }),
{
    match file {
        Some(name) => {
            let mut s = String::from_str(" ");
            s.append(name.as_str());
            s
        },
        None => String::from_str(" No Name"),
    }
}

/// The status line's 1-based cursor position field.
pub fn pos_text(cx: u16, cy: u16) -> (r: String)
    ensures
        r@ == seq![' '] + spec_decimal(cx as int + 1) + seq![':'] + spec_decimal(cy as int + 1) + seq![' '],
{
    let mut s = String::new();
    push_char(&mut s, ' ');
    let a = u32_text(cx as u32 + 1);
    s.append(a.as_str());
    push_char(&mut s, ':');
    let b = u32_text(cy as u32 + 1);
    s.append(b.as_str());
    push_char(&mut s, ' ');
    proof {
        assert(s@ =~= seq![' '] + spec_decimal(cx as int + 1) + seq![':'] + spec_decimal(cy as int + 1)
            + seq![' ']);
    }
    s
}

/// The cells left for the file label once the mode name, the position field
/// and the two separator cells are placed; 0 on a screen too narrow for
/// them.
pub fn file_field_width(width: u16, mode_len: usize, pos_len: usize) -> (w: u16)
    ensures
        w as int == (if width as int - mode_len - pos_len - 2 >= 0 {
            width as int - mode_len - pos_len - 2
        } else {
            0
        }),
{
    let wu: usize = width as usize;
    if mode_len >= wu {
        return 0;
    }
    let r1: usize = wu - mode_len;
    if pos_len >= r1 {
        return 0;
    }
    let r2: usize = r1 - pos_len;
    if r2 >= 2 {
        (r2 - 2) as u16
    } else {
        0
    }
}

impl Editor {
    /// The text of viewport row `i` as the renderer must paint it: the
    /// buffer line shown there (empty where none is), padded with spaces to
    /// the screen width.
    pub fn display_line(&self, i: u16) -> (r: String)
        ensures
            self.vtop + i < self.buffer.lines_view().len() ==> r@ == spec_padded(
                self.buffer.lines_view()[self.vtop + i],
                self.size.0 as int,
            ),
            self.vtop + i >= self.buffer.lines_view().len() ==> r@ == spec_padded(
                Seq::<char>::empty(),
                self.size.0 as int,
            ),
    {
        let mut s: String = match self.viewport_line(i) {
            Some(l) => l,
            None => String::new(),
        };
        let ghost base: Seq<char> = s@;
        let n: usize = s.as_str().unicode_len();
        let w: usize = self.vwidth() as usize;
        let mut k: usize = n;
        proof {
            assert(s@ =~= base + spec_blank(0));
        }
        while k < w
            invariant
                n <= k,
                k <= w || k == n,
                s@ == base + spec_blank(k - n),
            decreases w - k,
        {
            push_char(&mut s, ' ');
            k = k + 1;
            proof {
                assert(s@ =~= base + spec_blank(k - n));
            }
        }
        proof {
            if n >= w {
                assert(s@ =~= base);
            }
        }
        s
    }

    /// The cursor glyph for the current state: an underscore while a
    /// command prefix is pending, a block in Normal mode, a bar in Insert
    /// mode.
    pub fn cursor_shape(&self) -> (s: CursorShape)
        ensures
            s == (match self.waiting_command {
                Some(_) => CursorShape::Underscore,
                None => match self.mode {
                    Mode::Normal => CursorShape::Block,
                    Mode::Insert => CursorShape::Bar,
                },
            }),
    {
        match self.waiting_command {
            Some(_) => CursorShape::Underscore,
            None => match self.mode {
                Mode::Normal => CursorShape::Block,
                Mode::Insert => CursorShape::Bar,
            },
        }
    }
}

} // verus!

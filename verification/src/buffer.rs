//! The line buffer: an ordered sequence of text lines with character-level
//! edit primitives, plus the newline-joining serialization used on save and
//! the matching split used on load.

use vstd::prelude::*;
use vstd::string::*;

verus! {

/// A run of `n` spaces, used to pad a line when a character is inserted past
/// its current end.
pub open spec fn spec_blank(n: int) -> Seq<char> {
    Seq::new(n as nat, |i: int| ' ')
}

/// A single line after inserting `c` at character offset `x`: a splice when
/// `x` is at or within the line's end, otherwise the line padded with spaces
/// up to column `x` followed by `c`.
pub open spec fn spec_insert_in_line(line: Seq<char>, x: int, c: char) -> Seq<char> {
    if x <= line.len() {
        line.subrange(0, x).push(c) + line.subrange(x, line.len() as int)
    } else {
        line + spec_blank(x - line.len()).push(c)
    }
}

/// The buffer's lines after `insert`: an existing target line is edited in
/// place; a missing target appends one new line, space-padded up to the
/// column, whatever the requested line number was.
pub open spec fn spec_insert(lines: Seq<Seq<char>>, x: int, y: int, c: char) -> Seq<Seq<char>> {
    if y < lines.len() {
        lines.update(y, spec_insert_in_line(lines[y], x, c))
    } else {
        lines.push(spec_blank(x).push(c))
    }
}

/// A single line after removing the character at offset `x`; out-of-range
/// offsets leave the line as it is.
pub open spec fn spec_remove_in_line(line: Seq<char>, x: int) -> Seq<char> {
    if 0 <= x < line.len() {
        line.subrange(0, x) + line.subrange(x + 1, line.len() as int)
    } else {
        line
    }
}

/// The buffer's lines after `remove`: a no-op unless the line exists and the
/// offset is within it.
pub open spec fn spec_remove(lines: Seq<Seq<char>>, x: int, y: int) -> Seq<Seq<char>> {
    if 0 <= y < lines.len() {
        lines.update(y, spec_remove_in_line(lines[y], x))
    } else {
        lines
    }
}

/// The buffer's lines after `remove_line`: the line at `y` deleted and all
/// later lines shifted up by one; a no-op when `y` is out of range.
pub open spec fn spec_remove_line(lines: Seq<Seq<char>>, y: int) -> Seq<Seq<char>> {
    if 0 <= y < lines.len() {
        lines.remove(y)
    } else {
        lines
    }
}

/// Relies on String::push: appends exactly the given character.
#[verifier::external_body]
pub(crate) fn push_char(s: &mut String, c: char)
    ensures
        final(s)@ == old(s)@.push(c),
{
    s.push(c)
}

/// The serialized form of a buffer: its lines joined by single newline
/// separators, with no trailing separator.
pub open spec fn spec_join(lines: Seq<Seq<char>>) -> Seq<char>
    decreases lines.len(),
{
    if lines.len() == 0 {
        Seq::empty()
    } else if lines.len() == 1 {
        lines[0]
    } else {
        lines[0] + seq!['\n'] + spec_join(lines.drop_first())
    }
}

/// Splitting a non-empty text on `'\n'`: `n` separators yield `n + 1`
/// pieces, so a text without separators is one line and a trailing separator
/// yields a final empty line.
pub open spec fn spec_split_ne(s: Seq<char>) -> Seq<Seq<char>>
    decreases s.len(),
{
    if s.len() == 0 {
        seq![Seq::<char>::empty()]
    } else {
        let rest = spec_split_ne(s.drop_first());
        if s[0] == '\n' {
            seq![Seq::<char>::empty()] + rest
        } else {
            seq![seq![s[0]] + rest[0]] + rest.drop_first()
        }
    }
}

/// Splitting a loaded file into buffer lines: an empty text is the empty
/// buffer (zero lines), any other text splits on `'\n'`.
pub open spec fn spec_split(s: Seq<char>) -> Seq<Seq<char>> {
    if s.len() == 0 {
        Seq::empty()
    } else {
        spec_split_ne(s)
    }
}

/// True when a line holds no `'\n'`, so that joining and splitting can keep
/// line boundaries apart.
pub open spec fn line_has_no_newline(line: Seq<char>) -> bool {
    forall|i: int| 0 <= i < line.len() ==> line[i] != '\n'
}

pub proof fn lemma_split_ne_len(s: Seq<char>)
    ensures
        spec_split_ne(s).len() >= 1,
    decreases s.len(),
{
    if s.len() > 0 {
        lemma_split_ne_len(s.drop_first());
    }
}

/// Splitting one more character extends the last piece, or starts a fresh
/// empty piece when the character is the separator.
pub proof fn lemma_split_ne_push(s: Seq<char>, c: char)
    ensures
        c == '\n' ==> spec_split_ne(s.push(c)) == spec_split_ne(s).push(Seq::<char>::empty()),
        c != '\n' ==> spec_split_ne(s.push(c)) == spec_split_ne(s).update(
            spec_split_ne(s).len() - 1,
            spec_split_ne(s).last().push(c),
        ),
    decreases s.len(),
{
    lemma_split_ne_len(s);
    let e = Seq::<char>::empty();
    let p = s.push(c);
    assert(spec_split_ne(e) == seq![e]);
    if s.len() == 0 {
        assert(p.len() == 1 && p[0] == c);
        assert(p.drop_first() =~= e);
        assert(spec_split_ne(p.drop_first()) == seq![e]);
        if c == '\n' {
            assert(spec_split_ne(p) =~~= spec_split_ne(s).push(e));
        } else {
            assert(spec_split_ne(p) =~~= spec_split_ne(s).update(
                spec_split_ne(s).len() - 1,
                spec_split_ne(s).last().push(c),
            ));
        }
    } else {
        let t = s.drop_first();
        lemma_split_ne_len(t);
        lemma_split_ne_push(t, c);
        let r = spec_split_ne(t);
        let rp = spec_split_ne(t.push(c));
        assert(p.drop_first() =~= t.push(c));
        assert(spec_split_ne(p.drop_first()) == rp);
        assert(p[0] == s[0]);
        if c == '\n' {
            assert(rp == r.push(e));
            assert(spec_split_ne(p) =~~= spec_split_ne(s).push(e));
        } else {
            assert(rp == r.update(r.len() - 1, r.last().push(c)));
            if s[0] == '\n' {
                assert(spec_split_ne(p) =~~= spec_split_ne(s).update(
                    spec_split_ne(s).len() - 1,
                    spec_split_ne(s).last().push(c),
                ));
            } else {
                if r.len() == 1 {
                    assert(rp[0] == r[0].push(c));
                    assert(spec_split_ne(s) == seq![seq![s[0]] + r[0]] + r.drop_first());
                    assert(spec_split_ne(s).len() == 1);
                    assert(spec_split_ne(s).last() == seq![s[0]] + r[0]);
                    assert(spec_split_ne(p) =~~= spec_split_ne(s).update(
                        spec_split_ne(s).len() - 1,
                        spec_split_ne(s).last().push(c),
                    ));
                } else {
                    assert(rp[0] == r[0]);
                    assert(spec_split_ne(p) =~~= spec_split_ne(s).update(
                        spec_split_ne(s).len() - 1,
                        spec_split_ne(s).last().push(c),
                    ));
                }
            }
        }
    }
}

/// Joining one more line appends a separator (unless the text was empty so
/// far) and then the line.
pub proof fn lemma_join_push(ls: Seq<Seq<char>>, l: Seq<char>)
    ensures
        ls.len() == 0 ==> spec_join(ls.push(l)) == l,
        ls.len() > 0 ==> spec_join(ls.push(l)) == spec_join(ls) + seq!['\n'] + l,
    decreases ls.len(),
{
    let p = ls.push(l);
    if ls.len() == 0 {
        assert(p.len() == 1 && p[0] == l);
    } else {
        assert(p.drop_first() =~= ls.drop_first().push(l));
        lemma_join_push(ls.drop_first(), l);
        if ls.len() == 1 {
            assert(spec_join(p) == ls[0] + seq!['\n'] + l);
        } else {
            assert(spec_join(p) =~= spec_join(ls) + seq!['\n'] + l);
        }
    }
}

/// A text without separators splits into exactly one line: itself.
pub proof fn lemma_split_ne_single(a: Seq<char>)
    requires
        line_has_no_newline(a),
    ensures
        spec_split_ne(a) == seq![a],
    decreases a.len(),
{
    if a.len() == 0 {
        assert(spec_split_ne(a) =~~= seq![a]);
    } else {
        let t = a.drop_first();
        assert(forall|i: int| 0 <= i < t.len() ==> t[i] == a[i + 1]);
        lemma_split_ne_single(t);
        assert(a[0] != '\n');
        assert(spec_split_ne(a) =~~= seq![a]);
    }
}

/// Splitting `a ++ '\n' ++ b`, for `a` without separators, yields `a`
/// followed by the split of `b`.
pub proof fn lemma_split_ne_concat(a: Seq<char>, b: Seq<char>)
    requires
        line_has_no_newline(a),
    ensures
        spec_split_ne(a + seq!['\n'] + b) == seq![a] + spec_split_ne(b),
    decreases a.len(),
{
    let s = a + seq!['\n'] + b;
    lemma_split_ne_len(b);
    if a.len() == 0 {
        assert(s[0] == '\n');
        assert(s.drop_first() =~= b);
        assert(spec_split_ne(s) =~~= seq![a] + spec_split_ne(b));
    } else {
        let t = a.drop_first();
        assert(forall|i: int| 0 <= i < t.len() ==> t[i] == a[i + 1]);
        lemma_split_ne_concat(t, b);
        assert(s[0] == a[0] && a[0] != '\n');
        assert(s.drop_first() =~= t + seq!['\n'] + b);
        let r = spec_split_ne(t + seq!['\n'] + b);
        assert(r[0] == t);
        assert(seq![a[0]] + t =~= a);
        assert(spec_split_ne(s) =~~= seq![a] + spec_split_ne(b));
    }
}

/// For at least one line, splitting the joined text restores the lines.
proof fn lemma_split_ne_join(ls: Seq<Seq<char>>)
    requires
        ls.len() >= 1,
        forall|i: int| 0 <= i < ls.len() ==> line_has_no_newline(#[trigger] ls[i]),
    ensures
        spec_split_ne(spec_join(ls)) == ls,
    decreases ls.len(),
{
    if ls.len() == 1 {
        lemma_split_ne_single(ls[0]);
        assert(spec_join(ls) == ls[0]);
        assert(seq![ls[0]] =~= ls);
    } else {
        let rest = ls.drop_first();
        assert(forall|i: int| 0 <= i < rest.len() ==> rest[i] == ls[i + 1]);
        lemma_split_ne_join(rest);
        lemma_split_ne_concat(ls[0], spec_join(rest));
        assert(spec_join(ls) == ls[0] + seq!['\n'] + spec_join(rest));
        assert(seq![ls[0]] + rest =~= ls);
    }
}

/// Law: saving a buffer and loading the result gives back the same ordered
/// lines, for lines free of the separator. The one buffer this cannot hold
/// for is the single empty line: it serializes to the empty text, which
/// loads as the buffer with zero lines.
pub proof fn lemma_save_load_round_trip(lines: Seq<Seq<char>>)
    requires
        forall|i: int| 0 <= i < lines.len() ==> line_has_no_newline(#[trigger] lines[i]),
        !(lines.len() == 1 && lines[0].len() == 0),
    ensures
        spec_split(spec_join(lines)) == lines,
{
    if lines.len() == 0 {
    } else {
        lemma_split_ne_join(lines);
        if lines.len() == 1 {
            assert(spec_join(lines).len() > 0);
        } else {
            assert(spec_join(lines).len() > 0);
        }
    }
}

/// Law: inserting a character and then reading the same line back shows the
/// character at the requested column. (This needs the line number to be at
/// most the line count: a greater one appends the new line at the end, where
/// only that smaller index reads it back.)
pub proof fn lemma_insert_then_get(lines: Seq<Seq<char>>, x: int, y: int, c: char)
    requires
        0 <= x,
        0 <= y <= lines.len(),
    ensures
        y < spec_insert(lines, x, y, c).len(),
        x < spec_insert(lines, x, y, c)[y].len(),
        spec_insert(lines, x, y, c)[y][x] == c,
{
    if y < lines.len() {
        let line = lines[y];
        if x <= line.len() {
            assert(spec_insert_in_line(line, x, c)[x] == line.subrange(0, x).push(c)[x]);
        } else {
            assert(spec_insert_in_line(line, x, c)[x] == spec_blank(x - line.len()).push(c)[x - line.len()]);
        }
    }
}

/// Law: removing the last line shortens the buffer by exactly one line and
/// leaves every preceding line unchanged and in order.
pub proof fn lemma_remove_last_line(lines: Seq<Seq<char>>, y: int)
    requires
        lines.len() > 0,
        y == lines.len() - 1,
    ensures
        spec_remove_line(lines, y).len() == lines.len() - 1,
        forall|i: int| 0 <= i < lines.len() - 1 ==> spec_remove_line(lines, y)[i] == lines[i],
{
}

/// An in-memory text file: an ordered sequence of lines (never containing
/// the separators themselves) and an optional path used as the save target.
pub struct Buffer {
    pub file: Option<String>,
    pub lines: Vec<String>,
}

impl Buffer {
    /// The mathematical content of the buffer: each line as its sequence of
    /// characters, in document order.
    pub open spec fn lines_view(&self) -> Seq<Seq<char>> {
        self.lines@.map_values(|s: String| s@)
    }

    pub fn new(file: Option<String>, lines: Vec<String>) -> (b: Buffer)
        ensures
            b.file == file,
            b.lines == lines,
    {
        Buffer { file, lines }
    }

    pub fn len(&self) -> (n: usize)
        ensures
            n == self.lines_view().len(),
    {
        self.lines.len()
    }

    pub fn get(&self, line: usize) -> (r: Option<String>)
        ensures
            line < self.lines_view().len() ==> (r matches Some(s) && s@ == self.lines_view()[line as int]),
            line >= self.lines_view().len() ==> r is None,
    {
        if self.lines.len() > line {
            Some(self.lines[line].clone())
        } else {
            None
        }
    }

    /// Inserts `ch` at character offset `x` of line `y`, padding with spaces
    /// or appending a fresh line as needed; this never fails.
    pub fn insert(&mut self, x: u16, y: u16, ch: char)
        ensures
            final(self).lines_view() == spec_insert(old(self).lines_view(), x as int, y as int, ch),
            final(self).file == old(self).file,
    {
        let xs: usize = x as usize;
        let yy: usize = y as usize;
        if yy < self.lines.len() {
            let line: String = self.lines[yy].clone();
            let ghost line0: Seq<char> = line@;
            let n: usize = line.as_str().unicode_len();
            let new_line: String;
            if xs <= n {
                let mut s = String::from_str(line.as_str().substring_char(0, xs));
                push_char(&mut s, ch);
                s.append(line.as_str().substring_char(xs, n));
                proof {
                    assert(s@ =~= spec_insert_in_line(line0, x as int, ch));
                }
                new_line = s;
            } else {
                let mut s = line;
                let mut i: usize = n;
                proof {
                    assert(s@ =~= line0 + spec_blank(0));
                }
                while i < xs
                    invariant
                        n <= i <= xs,
                        s@ == line0 + spec_blank(i - n),
                    decreases xs - i,
                {
                    push_char(&mut s, ' ');
                    i = i + 1;
                    proof {
                        assert(s@ =~= line0 + spec_blank(i - n));
                    }
                }
                push_char(&mut s, ch);
                proof {
                    assert(s@ =~= spec_insert_in_line(line0, x as int, ch));
                }
                new_line = s;
            }
            self.lines[yy] = new_line;
            proof {
                assert(self.lines_view() =~= spec_insert(old(self).lines_view(), x as int, y as int, ch));
            }
        } else {
            let mut s = String::new();
            let mut i: usize = 0;
            proof {
                assert(s@ =~= spec_blank(0));
            }
            while i < xs
                invariant
                    i <= xs,
                    s@ == spec_blank(i as int),
                decreases xs - i,
            {
                push_char(&mut s, ' ');
                i = i + 1;
                proof {
                    assert(s@ =~= spec_blank(i as int));
                }
            }
            push_char(&mut s, ch);
            self.lines.push(s);
            proof {
                assert(self.lines_view() =~= spec_insert(old(self).lines_view(), x as int, y as int, ch));
            }
        }
    }

    /// Removes the character at offset `x` of line `y`; a silent no-op when
    /// the line is absent or the offset is past its end.
    pub fn remove(&mut self, x: u16, y: u16)
        ensures
            final(self).lines_view() == spec_remove(old(self).lines_view(), x as int, y as int),
            final(self).file == old(self).file,
    {
        let xs: usize = x as usize;
        let yy: usize = y as usize;
        if yy < self.lines.len() {
            let line: String = self.lines[yy].clone();
            let ghost line0: Seq<char> = line@;
            let n: usize = line.as_str().unicode_len();
            if xs < n {
                let mut s = String::from_str(line.as_str().substring_char(0, xs));
                s.append(line.as_str().substring_char(xs + 1, n));
                proof {
                    assert(s@ =~= spec_remove_in_line(line0, x as int));
                }
                self.lines[yy] = s;
                proof {
                    assert(self.lines_view() =~= spec_remove(old(self).lines_view(), x as int, y as int));
                }
            } else {
                proof {
                    assert(self.lines_view() =~= spec_remove(old(self).lines_view(), x as int, y as int));
                }
            }
        } else {
            proof {
                assert(self.lines_view() =~= spec_remove(old(self).lines_view(), x as int, y as int));
            }
        }
    }

    /// The buffer serialized for saving: all lines joined with single
    /// newline separators. Writing the result to the associated path is the
    /// caller's part.
    pub fn content(&self) -> (r: String)
        ensures
            r@ == spec_join(self.lines_view()),
    {
        let mut out = String::new();
        let mut i: usize = 0;
        proof {
            assert(self.lines_view().subrange(0, 0) =~= Seq::<Seq<char>>::empty());
        }
        while i < self.lines.len()
            invariant
                i <= self.lines.len(),
                out@ == spec_join(self.lines_view().subrange(0, i as int)),
            decreases self.lines.len() - i,
        {
            if i > 0 {
                push_char(&mut out, '\n');
            }
            out.append(self.lines[i].as_str());
            proof {
                let lv = self.lines_view();
                lemma_join_push(lv.subrange(0, i as int), lv[i as int]);
                assert(lv.subrange(0, i as int).push(lv[i as int]) =~= lv.subrange(0, i + 1));
                assert(out@ =~= spec_join(lv.subrange(0, i + 1)));
            }
            i = i + 1;
        }
        proof {
            assert(self.lines_view().subrange(0, self.lines.len() as int) =~= self.lines_view());
        }
        out
    }

    /// Deletes the whole line at index `y`, shifting the lines after it up by
    /// one; a silent no-op when `y` is out of range.
    pub fn remove_line(&mut self, y: u16)
        ensures
            final(self).lines_view() == spec_remove_line(old(self).lines_view(), y as int),
            final(self).file == old(self).file,
    {
        let yy: usize = y as usize;
        if yy < self.lines.len() {
            self.lines.remove(yy);
            proof {
                assert(self.lines_view() =~= spec_remove_line(old(self).lines_view(), y as int));
            }
        }
    }
}

/// Splits loaded file text into buffer lines; the inverse of joining on
/// every text a save can produce.
pub fn split_lines(s: &str) -> (r: Vec<String>)
    ensures
        r@.map_values(|l: String| l@) == spec_split(s@),
{
    let n = s.unicode_len();
    let mut out: Vec<String> = Vec::new();
    if n == 0 {
        proof {
            assert(out@.map_values(|l: String| l@) =~= spec_split(s@));
        }
        return out;
    }
    let mut cur = String::new();
    let mut i: usize = 0;
    proof {
        assert(s@.subrange(0, 0) =~= Seq::<char>::empty());
        assert(out@.map_values(|l: String| l@).push(cur@) =~~= spec_split_ne(s@.subrange(0, 0)));
    }
    while i < n
        invariant
            i <= n,
            n == s@.len(),
            out@.map_values(|l: String| l@).push(cur@) == spec_split_ne(s@.subrange(0, i as int)),
        decreases n - i,
    {
        let c = s.get_char(i);
        proof {
            lemma_split_ne_push(s@.subrange(0, i as int), c);
            assert(s@.subrange(0, i as int).push(c) =~= s@.subrange(0, i + 1));
        }
        if c == '\n' {
            out.push(cur);
            cur = String::new();
            proof {
                assert(out@.map_values(|l: String| l@).push(cur@) =~~= spec_split_ne(s@.subrange(0, i + 1)));
            }
        } else {
            push_char(&mut cur, c);
            proof {
                assert(out@.map_values(|l: String| l@).push(cur@) =~~= spec_split_ne(s@.subrange(0, i + 1)));
            }
        }
        i = i + 1;
    }
    proof {
        assert(s@.subrange(0, n as int) =~= s@);
    }
    out.push(cur);
    proof {
        assert(out@.map_values(|l: String| l@) =~~= spec_split(s@));
    }
    out
}

} // verus!

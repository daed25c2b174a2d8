//! The plain-text logo shown in the picker's directory-input screen.
use vstd::prelude::*;
use vstd::string::*;

use crate::text::{push_char, trim_end, trim_end_spec};

verus! {

/// The pieces of `s` between `'\n'` characters (always at least one).
pub open spec fn split_newlines(s: Seq<char>) -> Seq<Seq<char>>
    decreases s.len(),
{
    if s.len() == 0 {
        seq![seq![]]
    } else {
        let p = split_newlines(s.drop_last());
        if s.last() == '\n' {
            p.push(seq![])
        } else {
            p.update(p.len() - 1, p.last().push(s.last()))
        }
    }
}

/// The lines of a text: the pieces between newlines, where a final newline
/// ends the last line instead of starting an empty one.
pub open spec fn text_lines(s: Seq<char>) -> Seq<Seq<char>> {
    if s.len() == 0 || s.last() == '\n' {
        split_newlines(s).drop_last()
    } else {
        split_newlines(s)
    }
}

/// The lines of the artwork without trailing white space (which also drops
/// the carriage return of a `\r\n` line ending).
pub open spec fn art_lines(s: Seq<char>) -> Seq<Seq<char>> {
    trim_all(text_lines(s))
}

/// Each line without trailing white space.
pub open spec fn trim_all(lines: Seq<Seq<char>>) -> Seq<Seq<char>> {
    lines.map_values(|l: Seq<char>| trim_end_spec(l))
}

/// The texts of a sequence of strings.
pub open spec fn texts(v: Seq<String>) -> Seq<Seq<char>> {
    v.map_values(|l: String| l@)
}

/// The length of the longest line.
pub open spec fn widest(lines: Seq<Seq<char>>) -> nat
    decreases lines.len(),
{
    if lines.len() == 0 {
        0
    } else {
        let w = widest(lines.drop_last());
        if lines.last().len() > w {
            lines.last().len()
        } else {
            w
        }
    }
}

/// A copy of the artwork ready to draw.
pub struct Logo {
    /// One line per text row of the artwork, without trailing whitespace.
    pub lines: Vec<String>,
    /// The widest line, in characters, used to centre the artwork.
    pub width: usize,
}

pub open spec fn lines_view(lines: Vec<String>) -> Seq<Seq<char>> {
    texts(lines@)
}

proof fn lemma_push_trimmed(
    old_v: Seq<String>,
    new_v: Seq<String>,
    s: String,
    raw: Seq<Seq<char>>,
    x: Seq<char>,
)
    requires
        new_v == old_v.push(s),
        texts(old_v) == trim_all(raw),
        s@ == trim_end_spec(x),
    ensures
        texts(new_v) == trim_all(raw.push(x)),
{
    let a = texts(new_v);
    let b = trim_all(raw.push(x));
    assert(texts(old_v).len() == old_v.len());
    assert(trim_all(raw).len() == raw.len());
    assert forall|j: int| 0 <= j < a.len() implies a[j] == b[j] by {
        if j < old_v.len() {
            assert(texts(old_v)[j] == trim_all(raw)[j]);
        }
    }
    assert(a =~= b);
}

/// Split `art` into trimmed lines and measure the widest.
pub fn logo_from_text(art: &str) -> (l: Logo)
    ensures
        lines_view(l.lines) == art_lines(art@),
        l.width == widest(art_lines(art@)),
{
    let n = art.unicode_len();
    let mut done: Vec<String> = Vec::new();
    let ghost mut raw: Seq<Seq<char>> = seq![];
    let mut cur = String::new();
    let mut i: usize = 0;
    assert(art@.take(0) =~= Seq::<char>::empty());
    while i < n
        invariant
            i <= n,
            n == art@.len(),
            split_newlines(art@.take(i as int)) == raw.push(cur@),
            lines_view(done) == trim_all(raw),
        decreases n - i,
    {
        let c = art.get_char(i);
        let ghost prefix = art@.take(i as int);
        assert(art@.take(i + 1).drop_last() =~= prefix);
        assert(art@.take(i + 1).last() == c);
        if c == '\n' {
            let line = trim_end(cur.as_str());
            let ghost old_done = done@;
            let ghost pushed = line;
            done.push(line);
            proof {
                lemma_push_trimmed(old_done, done@, pushed, raw, cur@);
                raw = raw.push(cur@);
            }
            cur = String::new();
            assert(split_newlines(art@.take(i + 1)) =~= raw.push(cur@));
        } else {
            let ghost before = cur@;
            push_char(&mut cur, c);
            assert(split_newlines(art@.take(i + 1)) =~= raw.push(cur@));
        }
        i = i + 1;
    }
    assert(art@.take(n as int) =~= art@);
    if !(n == 0 || art.get_char(n - 1) == '\n') {
        let line = trim_end(cur.as_str());
        let ghost old_done = done@;
        let ghost pushed = line;
        done.push(line);
        proof {
            lemma_push_trimmed(old_done, done@, pushed, raw, cur@);
        }
    } else {
        assert(raw.push(cur@).drop_last() =~= raw);
    }
    let ghost lines = art_lines(art@);
    assert(lines_view(done) == lines);
    let count = done.len();
    let mut width: usize = 0;
    let mut k: usize = 0;
    assert(lines.take(0) =~= Seq::<Seq<char>>::empty());
    while k < count
        invariant
            k <= count,
            count == done@.len(),
            lines_view(done) == lines,
            width == widest(lines.take(k as int)),
        decreases count - k,
    {
        let w = done[k].as_str().unicode_len();
        assert(lines.take(k + 1).drop_last() =~= lines.take(k as int));
        assert(lines[k as int] == done@[k as int]@);
        if w > width {
            width = w;
        }
        k = k + 1;
    }
    assert(lines.take(count as int) =~= lines);
    Logo { lines: done, width }
}

/// The artwork.
pub const LOGO_ART: &'static str = " ____        ____   ___  _     _ _\n|  _ \\      / ___| / _ \\| |   (_) |_ ___\n| |_) |____ \\___ \\| | | | |   | | __/ _ \\\n|  _ <_____| ___) | |_| | |___| | ||  __/\n|_| \\_\\     |____/ \\__\\_\\_____|_|\\__\\___|\n";

/// Load the logo and measure it.
pub fn logo() -> (l: Logo)
    ensures
        lines_view(l.lines) == art_lines(LOGO_ART@),
        l.width == widest(art_lines(LOGO_ART@)),
{
    logo_from_text(LOGO_ART)
}

/// `n` spaces.
pub open spec fn spaces(n: nat) -> Seq<char> {
    Seq::new(n, |i: int| ' ')
}

/// Where the artwork starts in an area: centred, or at the edge when it does
/// not fit. Row and column counts are taken as 16-bit terminal sizes.
pub open spec fn padding(l: Logo, area_width: u16, area_height: u16) -> (int, int) {
    let rows = l.lines@.len() as u16;
    let cols = l.width as u16;
    (
        if rows < area_height {
            (area_height - rows) / 2
        } else {
            0
        },
        if cols < area_width {
            (area_width - cols) / 2
        } else {
            0
        },
    )
}

/// The text rows that show the logo centred in an area: blank rows above,
/// then each line after blank columns. Nothing for an empty area.
pub open spec fn rendered(l: Logo, area_width: u16, area_height: u16) -> Seq<Seq<char>> {
    if area_width == 0 || area_height == 0 {
        seq![]
    } else {
        let (top, left) = padding(l, area_width, area_height);
        Seq::new(top as nat, |i: int| Seq::<char>::empty()) + lines_view(l.lines).map_values(
            |line: Seq<char>| spaces(left as nat) + line,
        )
    }
}

impl Logo {
    /// The text rows that show the logo centred in an area of the given size.
    pub fn render(&self, area_width: u16, area_height: u16) -> (rows: Vec<String>)
        ensures
            lines_view(rows) == rendered(*self, area_width, area_height),
    {
        let mut rows: Vec<String> = Vec::new();
        if area_width == 0 || area_height == 0 {
            assert(lines_view(rows) =~= rendered(*self, area_width, area_height));
            return rows;
        }
        let art_rows = (#[verifier::truncate] (self.lines.len() as u16));
        let art_cols = (#[verifier::truncate] (self.width as u16));
        let top: u16 = if art_rows < area_height {
            (area_height - art_rows) / 2
        } else {
            0
        };
        let left: u16 = if art_cols < area_width {
            (area_width - art_cols) / 2
        } else {
            0
        };
        let ghost (top_s, left_s) = padding(*self, area_width, area_height);
        assert(top_s == top && left_s == left);
        let mut i: u16 = 0;
        while i < top
            invariant
                i <= top,
                rows@.len() == i,
                forall|j: int| 0 <= j < i ==> (#[trigger] rows@[j])@ == Seq::<char>::empty(),
            decreases top - i,
        {
            rows.push(String::new());
            i = i + 1;
        }
        let n = self.lines.len();
        let mut k: usize = 0;
        while k < n
            invariant
                k <= n,
                n == self.lines@.len(),
                rows@.len() == top + k,
                forall|j: int| 0 <= j < top ==> (#[trigger] rows@[j])@ == Seq::<char>::empty(),
                forall|j: int|
                    0 <= j < k ==> (#[trigger] rows@[top + j])@ == spaces(left as nat)
                        + self.lines@[j]@,
            decreases n - k,
        {
            let mut line = String::new();
            let mut s: u16 = 0;
            while s < left
                invariant
                    s <= left,
                    line@ == spaces(s as nat),
                decreases left - s,
            {
                push_char(&mut line, ' ');
                assert(line@ =~= spaces((s + 1) as nat));
                s = s + 1;
            }
            line.append(self.lines[k].as_str());
            rows.push(line);
            k = k + 1;
        }
        let ghost want = rendered(*self, area_width, area_height);
        let ghost mapped = lines_view(self.lines).map_values(
            |line: Seq<char>| spaces(left as nat) + line,
        );
        assert(want == Seq::new(top as nat, |i: int| Seq::<char>::empty()) + mapped);
        assert forall|j: int| 0 <= j < rows@.len() implies lines_view(rows)[j] == want[j] by {
            if j >= top {
                assert(rows@[top + (j - top)]@ == spaces(left as nat) + self.lines@[j - top]@);
                assert(mapped[j - top] == spaces(left as nat) + lines_view(self.lines)[j - top]);
            }
        }
        assert(lines_view(rows) =~= want);
        rows
    }
}

} // verus!

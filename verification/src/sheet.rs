use vstd::prelude::*;
use crate::lines::{count_of, line_count, line_feeds};
use crate::mapping::{mappings, mappings_separate_lines, origins_view, Origin};
use crate::text::push_char;

verus! {

/// A text that is being written, with the origin of each of its lines that is
/// complete, and the origin of the line that is not.
pub struct Sheet {
    pub text: Seq<char>,
    pub origins: Seq<Origin>,
    pub at: Origin,
}

/// The empty text.
pub open spec fn blank() -> Sheet {
    Sheet { text: Seq::empty(), origins: Seq::empty(), at: (0, 0) }
}

/// The sheet with one character more. A line feed completes the line, which
/// then comes from where the sheet stands; with `advance` the sheet moves on
/// to the next line of the source.
pub open spec fn put_char(s: Sheet, c: char, advance: bool) -> Sheet {
    Sheet {
        text: s.text.push(c),
        origins: if c == '\n' {
            s.origins.push(s.at)
        } else {
            s.origins
        },
        at: if c == '\n' && advance {
            (s.at.0, s.at.1 + 1)
        } else {
            s.at
        },
    }
}

/// The sheet with the text `piece` more.
pub open spec fn put(s: Sheet, piece: Seq<char>, advance: bool) -> Sheet
    decreases piece.len(),
{
    if piece.len() == 0 {
        s
    } else {
        put_char(put(s, piece.drop_last(), advance), piece.last(), advance)
    }
}

/// The sheet, standing at the first line of the source `source`.
pub open spec fn moved(s: Sheet, source: int) -> Sheet {
    Sheet { text: s.text, origins: s.origins, at: (source, 0) }
}

/// The sheet with its last line complete.
pub open spec fn finished(s: Sheet) -> Sheet {
    Sheet { text: s.text, origins: s.origins.push(s.at), at: s.at }
}

/// Whether the sheet knows the origin of each complete line.
pub open spec fn consistent(s: Sheet) -> bool {
    s.origins.len() == line_feeds(s.text)
}

/// More text is put behind the text, and every line it completes gets an
/// origin.
pub proof fn put_keeps(s: Sheet, piece: Seq<char>, advance: bool)
    ensures
        put(s, piece, advance).text == s.text + piece,
        put(s, piece, advance).at.0 == s.at.0,
        consistent(s) ==> consistent(put(s, piece, advance)),
    decreases piece.len(),
{
    if piece.len() == 0 {
        assert(s.text + piece =~= s.text);
    } else {
        put_keeps(s, piece.drop_last(), advance);
        let before = put(s, piece.drop_last(), advance);
        assert(before.text.push(piece.last()) =~= s.text + piece);
        assert((s.text + piece).drop_last() =~= before.text);
    }
}

/// A finished sheet that was kept consistent has one origin for each line of
/// its text, and its mappings hold one semicolon less than it has lines.
pub proof fn finished_sheet_maps_each_line(s: Sheet)
    requires
        consistent(s),
    ensures
        finished(s).origins.len() == line_count(s.text),
        count_of(mappings(finished(s).origins), ';') + 1 == line_count(s.text),
{
    mappings_separate_lines(finished(s).origins);
}

/// A text in the writing.
pub struct Page {
    pub text: String,
    pub origins: Vec<(usize, usize)>,
    pub at: (usize, usize),
}

impl View for Page {
    type V = Sheet;

    open spec fn view(&self) -> Sheet {
        Sheet {
            text: self.text@,
            origins: origins_view(self.origins@),
            at: (self.at.0 as int, self.at.1 as int),
        }
    }
}

impl Page {
    /// Whether the line that the page stands at can still be counted.
    pub open spec fn wf(&self) -> bool {
        self.at.1 <= self.origins@.len()
    }

    /// An empty page.
    pub fn new() -> (p: Page)
        ensures
            p@ == blank(),
            p.wf(),
    {
        let p = Page { text: String::new(), origins: Vec::new(), at: (0, 0) };
        assert(p@.origins =~= Seq::empty());
        p
    }

    /// Writes `piece`.
    pub fn put(&mut self, piece: &str, advance: bool)
        requires
            old(self).wf(),
        ensures
            final(self).wf(),
            final(self)@ == put(old(self)@, piece@, advance),
    {
        for c in it: piece.chars()
            invariant
                it.seq() == piece@,
                self.wf(),
                self@ == put(old(self)@, piece@.take(it.index() as int), advance),
        {
            proof {
                let i = it.index() as int;
                assert(piece@.take(i + 1).drop_last() =~= piece@.take(i));
                assert(piece@.take(i + 1).last() == c);
            }
            let ghost before = self@;
            push_char(&mut self.text, c);
            if c == '\n' {
                self.origins.push(self.at);
                // more lines are complete than the source has given
                let complete = self.origins.len();
                if advance {
                    assert(self.at.1 < complete);
                    self.at = (self.at.0, self.at.1 + 1);
                }
                assert(self@.origins =~= before.origins.push(before.at));
            }
        }
        assert(piece@.take(piece@.len() as int) =~= piece@);
    }

    /// Moves to the first line of the source `source`.
    pub fn move_to(&mut self, source: usize)
        ensures
            final(self).wf(),
            final(self)@ == moved(old(self)@, source as int),
    {
        self.at = (source, 0);
    }

    /// Completes the last line.
    pub fn finish(&mut self)
        ensures
            final(self)@ == finished(old(self)@),
    {
        self.origins.push(self.at);
        assert(self@.origins =~= old(self)@.origins.push(old(self)@.at));
    }
}

} // verus!

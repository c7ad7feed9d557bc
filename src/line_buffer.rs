use vstd::prelude::*;

verus! {

/// What a line is, abstractly: its characters and the insertion point, an
/// offset counted in characters.
pub struct LineView {
    pub content: Seq<char>,
    pub cursor: nat,
}

impl LineView {
    /// The insertion point lies within the text or just past its end.
    pub open spec fn wf(self) -> bool {
        self.cursor <= self.content.len()
    }

    pub open spec fn moved_left(self) -> LineView {
        if self.cursor == 0 {
            self
        } else {
            LineView { content: self.content, cursor: (self.cursor - 1) as nat }
        }
    }

    pub open spec fn moved_right(self) -> LineView {
        if self.cursor >= self.content.len() {
            self
        } else {
            LineView { content: self.content, cursor: self.cursor + 1 }
        }
    }

    /// `c` placed at the insertion point, which then stands just after it.
    pub open spec fn inserted(self, c: char) -> LineView {
        LineView { content: self.content.insert(self.cursor as int, c), cursor: self.cursor + 1 }
    }

    /// `s` placed at the insertion point, which then stands just after it.
    pub open spec fn inserted_seq(self, s: Seq<char>) -> LineView {
        LineView {
            content: self.content.subrange(0, self.cursor as int) + s + self.content.subrange(
                self.cursor as int,
                self.content.len() as int,
            ),
            cursor: self.cursor + s.len(),
        }
    }

    /// The character just after the insertion point taken out; the point stays.
    pub open spec fn deleted(self) -> LineView {
        LineView { content: self.content.remove(self.cursor as int), cursor: self.cursor }
    }

    /// A step left, then the character now after the insertion point taken
    /// out; at the start of the line nothing changes.
    pub open spec fn backspaced(self) -> LineView {
        if self.cursor == 0 {
            self
        } else {
            self.moved_left().deleted()
        }
    }
}

/// Relies on std's `FromIterator<char>` for `String`: the string holds the
/// characters in the order given.
#[verifier::external_body]
fn string_from_chars(chars: &Vec<char>) -> (r: String)
    ensures
        r@ == chars@,
{
    chars.iter().collect()
}

/// The text being edited, and the insertion point within it.
pub struct LineBuffer {
    buffer: Vec<char>,
    cursor_index: usize,
}

impl View for LineBuffer {
    type V = LineView;

    closed spec fn view(&self) -> LineView {
        LineView { content: self.buffer@, cursor: self.cursor_index as nat }
    }
}

impl Default for LineBuffer {
    fn default() -> (r: LineBuffer)
        ensures
            r@.content == Seq::<char>::empty(),
            r@.cursor == 0,
    {
        LineBuffer::new()
    }
}

impl LineBuffer {
    /// An empty line with the insertion point at its start.
    pub fn new() -> (r: LineBuffer)
        ensures
            r@.content == Seq::<char>::empty(),
            r@.cursor == 0,
            r@.wf(),
    {
        LineBuffer { buffer: Vec::new(), cursor_index: 0 }
    }

    /// Places `c` at the insertion point and moves the point past it.
    pub fn insert(&mut self, c: char)
        requires
            old(self)@.wf(),
        ensures
            final(self)@ == old(self)@.inserted(c),
            final(self)@.wf(),
    {
        self.buffer.insert(self.cursor_index, c);
        self.right();
    }

    /// Places the characters of `s` at the insertion point and moves the point
    /// past them.
    pub fn insert_str(&mut self, s: &str)
        requires
            old(self)@.wf(),
        ensures
            final(self)@ == old(self)@.inserted_seq(s@),
            final(self)@.wf(),
    {
        let ghost start = self@;
        let n: usize = s.unicode_len();
        let mut i: usize = 0;
        proof {
            assert(start.content =~= start.inserted_seq(s@.subrange(0, 0)).content);
        }
        while i < n
            invariant
                start.wf(),
                n == s@.len(),
                i <= n,
                self@ == start.inserted_seq(s@.subrange(0, i as int)),
                self@.wf(),
            decreases n - i,
        {
            let ghost before = self@;
            let c = s.get_char(i);
            self.insert(c);
            proof {
                let pre = start.content.subrange(0, start.cursor as int);
                let post = start.content.subrange(start.cursor as int, start.content.len() as int);
                let t = s@.subrange(0, i as int);
                assert(before.content == pre + t + post);
                assert(before.cursor == pre.len() + t.len());
                assert(s@.subrange(0, i + 1) =~= t.push(c));
                assert(self@.content =~= pre + t.push(c) + post);
            }
            i = i + 1;
        }
        proof {
            assert(s@.subrange(0, n as int) =~= s@);
        }
    }

    /// Takes out the character just after the insertion point.
    pub fn delete(&mut self)
        requires
            old(self)@.wf(),
            old(self)@.cursor < old(self)@.content.len(),
        ensures
            final(self)@ == old(self)@.deleted(),
            final(self)@.wf(),
    {
        self.buffer.remove(self.cursor_index);
    }

    /// Takes out the character just before the insertion point, which moves
    /// left by one; at the start of the line nothing changes.
    pub fn backspace(&mut self)
        requires
            old(self)@.wf(),
        ensures
            final(self)@ == old(self)@.backspaced(),
            final(self)@.wf(),
    {
        if self.cursor_index == 0 {
            return;
        }
        self.left();
        self.delete();
    }

    /// The characters of the line, in order.
    pub fn chars(&self) -> (r: &Vec<char>)
        ensures
            r@ == self@.content,
    {
        &self.buffer
    }

    /// The text of the line.
    pub fn text(&self) -> (r: String)
        ensures
            r@ == self@.content,
    {
        string_from_chars(&self.buffer)
    }

    /// The insertion point, as an offset in characters.
    pub fn cursor_index(&self) -> (r: usize)
        ensures
            r == self@.cursor,
    {
        self.cursor_index
    }

    /// Moves the insertion point one character left; at the start it stays.
    pub fn left(&mut self)
        requires
            old(self)@.wf(),
        ensures
            final(self)@ == old(self)@.moved_left(),
            final(self)@.wf(),
    {
        self.cursor_index = self.cursor_index.saturating_sub(1);
    }

    /// Moves the insertion point one character right; at the end it stays.
    pub fn right(&mut self)
        requires
            old(self)@.wf(),
        ensures
            final(self)@ == old(self)@.moved_right(),
            final(self)@.wf(),
    {
        if self.cursor_index == self.buffer.len() {
            return;
        }
        self.cursor_index = self.cursor_index.saturating_add(1);
    }
}

} // verus!

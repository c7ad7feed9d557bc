use vstd::prelude::*;
use crate::line_buffer::LineView;

verus! {

/// The line after each character of `cs` has been typed in turn.
pub open spec fn inserted_all(v: LineView, cs: Seq<char>) -> LineView
    decreases cs.len(),
{
    if cs.len() == 0 {
        v
    } else {
        inserted_all(v, cs.drop_last()).inserted(cs.last())
    }
}

/// Typing characters one after another lengthens the line by their number,
/// and keeps the insertion point within the line.
pub proof fn lemma_inserts_length(v: LineView, cs: Seq<char>)
    requires
        v.wf(),
    ensures
        inserted_all(v, cs).content.len() == v.content.len() + cs.len(),
        inserted_all(v, cs).wf(),
    decreases cs.len(),
{
    if cs.len() > 0 {
        lemma_inserts_length(v, cs.drop_last());
    }
}

/// Each edit keeps the insertion point within the line and changes its
/// length by what it inserts less what it removes: typing adds one
/// character, backspace removes one except at the start, forward-delete
/// removes one, moving removes none.
pub proof fn lemma_edit_lengths(v: LineView, c: char)
    requires
        v.wf(),
    ensures
        v.inserted(c).wf(),
        v.inserted(c).content.len() == v.content.len() + 1,
        v.backspaced().wf(),
        v.backspaced().content.len() == v.content.len() - (if v.cursor > 0 { 1int } else { 0int }),
        v.cursor < v.content.len() ==> v.deleted().wf(),
        v.cursor < v.content.len() ==> v.deleted().content.len() == v.content.len() - 1,
        v.moved_left().wf(),
        v.moved_left().content == v.content,
        v.moved_right().wf(),
        v.moved_right().content == v.content,
{
}

/// A step left then a step right brings back a point that was not at the
/// start; at the start a step left changes nothing, at the end a step right
/// changes nothing.
pub proof fn lemma_left_right(v: LineView)
    requires
        v.wf(),
    ensures
        v.cursor > 0 ==> v.moved_left().moved_right() == v,
        v.cursor == 0 ==> v.moved_left() == v,
        v.cursor == v.content.len() ==> v.moved_right() == v,
{
}

/// Backspace at the start of the line changes neither text nor point.
pub proof fn lemma_backspace_at_start(v: LineView)
    requires
        v.wf(),
        v.cursor == 0,
    ensures
        v.backspaced() == v,
{
}

/// Typing a character and then pressing backspace gives back the line as it
/// was, insertion point included.
pub proof fn lemma_insert_then_backspace(v: LineView, c: char)
    requires
        v.wf(),
    ensures
        v.inserted(c).backspaced() == v,
{
    assert(v.inserted(c).backspaced().content =~= v.content);
}

} // verus!

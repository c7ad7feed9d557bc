use vstd::prelude::*;
use crate::dispatch::{dispatched, handle, InputEvent, PromptError, Response};
use crate::line_buffer::{LineBuffer, LineView};
use crate::render::{coord_at, coord_fits, is_full_redraw, redraw_buffer, update_cursor, RenderContext, ScreenOp};

verus! {

/// What the terminal side does after one event.
#[derive(Debug)]
pub enum Step {
    /// Carry out these operations, in order, and wait for the next event.
    Paint(Vec<ScreenOp>),
    /// The line is accepted: the session is over.
    Done,
}

/// What follows an event whose dispatch gave `response`, on a line `v` drawn
/// with `ctx` on a terminal `width` columns wide.
pub open spec fn step_matches(
    ctx: RenderContext,
    width: int,
    v: LineView,
    response: Result<Response, PromptError>,
    r: Result<Step, PromptError>,
) -> bool {
    match response {
        Err(e) => r == Err::<Step, PromptError>(e),
        Ok(Response::Accept) => r is Ok && r->Ok_0 is Done,
        Ok(Response::Ignore) => r matches Ok(Step::Paint(ops)) && ops@.len() == 0,
        Ok(Response::Reposition) => if coord_fits(ctx, width, v.cursor as int) {
            r matches Ok(Step::Paint(ops)) && ops@ == seq![
                ScreenOp::MoveTo(coord_at(ctx, width, v.cursor as int)),
            ]
        } else {
            r == Err::<Step, PromptError>(PromptError::OffScreen)
        },
        Ok(Response::Redraw) => if coord_fits(ctx, width, v.cursor as int) {
            r matches Ok(Step::Paint(ops)) && is_full_redraw(
                ops@,
                coord_at(ctx, width, v.cursor as int),
                coord_at(ctx, width, 0),
                v.content,
            )
        } else {
            r == Err::<Step, PromptError>(PromptError::OffScreen)
        },
    }
}

/// One prompt session: the line being edited and where it is drawn.
pub struct Prompt {
    line: LineBuffer,
    ctx: RenderContext,
}

impl Prompt {
    pub closed spec fn line_view(&self) -> LineView {
        self.line@
    }

    pub closed spec fn context(&self) -> RenderContext {
        self.ctx
    }

    pub open spec fn wf(&self) -> bool {
        self.line_view().wf()
    }

    /// A session with an empty line, for a prompt whose prefix `prefix` was
    /// printed from the start of row `origin_row`.
    pub fn new(prefix: &str, origin_row: u16) -> (r: Prompt)
        ensures
            r.wf(),
            r.line_view().content == Seq::<char>::empty(),
            r.line_view().cursor == 0,
            r.context() == (RenderContext { origin_row, prompt_width: prefix@.len() as usize }),
    {
        let prompt_width = prefix.unicode_len();
        Prompt { line: LineBuffer::new(), ctx: RenderContext { origin_row, prompt_width } }
    }

    /// The line being edited.
    pub fn line(&self) -> (r: &LineBuffer)
        ensures
            r@ == self.line_view(),
    {
        &self.line
    }

    /// Where the line is drawn.
    pub fn render_context(&self) -> (r: RenderContext)
        ensures
            r == self.context(),
    {
        self.ctx
    }

    /// Applies one input event and says what the terminal, `width` columns
    /// wide, must do next.
    pub fn step(&mut self, event: InputEvent, width: u16) -> (r: Result<Step, PromptError>)
        requires
            old(self).wf(),
        ensures
            final(self).wf(),
            final(self).context() == old(self).context(),
            final(self).line_view() == dispatched(old(self).line_view(), event).0,
            step_matches(
                old(self).context(),
                width as int,
                final(self).line_view(),
                dispatched(old(self).line_view(), event).1,
                r,
            ),
    {
        let response = handle(&mut self.line, event);
        match response {
            Err(e) => Err(e),
            Ok(Response::Accept) => Ok(Step::Done),
            Ok(Response::Ignore) => Ok(Step::Paint(Vec::new())),
            Ok(Response::Reposition) => match update_cursor(&self.ctx, &self.line, width) {
                Some(ops) => Ok(Step::Paint(ops)),
                None => Err(PromptError::OffScreen),
            },
            Ok(Response::Redraw) => match redraw_buffer(&self.ctx, &self.line, width) {
                Some(ops) => Ok(Step::Paint(ops)),
                None => Err(PromptError::OffScreen),
            },
        }
    }
}

} // verus!

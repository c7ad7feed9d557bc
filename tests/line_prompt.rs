use line_prompt::dispatch::{
    handle, InputEvent, KeyCode, KeyEvent, KeyModifiers, PromptError, Response, DEBUG_TOKEN,
};
use line_prompt::line_buffer::LineBuffer;
use line_prompt::render::{
    cursor_index_to_coord, redraw_buffer, update_cursor, Coord, RenderContext, ScreenOp,
};
use line_prompt::session::{Prompt, Step};

fn key(code: KeyCode) -> InputEvent {
    InputEvent::Key(KeyEvent { code, modifiers: KeyModifiers::NoModifier })
}

fn shift(code: KeyCode) -> InputEvent {
    InputEvent::Key(KeyEvent { code, modifiers: KeyModifiers::Shift })
}

fn line_of(s: &str) -> LineBuffer {
    let mut line = LineBuffer::new();
    line.insert_str(s);
    line
}

fn ctx(origin_row: u16, prompt_width: usize) -> RenderContext {
    RenderContext { origin_row, prompt_width }
}

#[test]
fn inserts_count_and_cursor_stays_in_line() {
    let mut line = LineBuffer::new();
    for (i, c) in "héllo".chars().enumerate() {
        line.insert(c);
        assert_eq!(line.chars().len(), i + 1);
        assert!(line.cursor_index() <= line.chars().len());
    }
    line.backspace();
    line.left();
    line.left();
    line.delete();
    assert_eq!(line.chars().len(), 3);
    assert_eq!(line.text(), "hél");
    assert_eq!(line.cursor_index(), 2);
}

#[test]
fn left_then_right_returns_to_interior_position() {
    let mut line = line_of("abcd");
    line.left();
    line.left();
    assert_eq!(line.cursor_index(), 2);
    line.left();
    line.right();
    assert_eq!(line.cursor_index(), 2);
}

#[test]
fn left_at_start_and_right_at_end_stay() {
    let mut line = line_of("ab");
    line.right();
    assert_eq!(line.cursor_index(), 2);
    line.right();
    assert_eq!(line.cursor_index(), 2);
    line.left();
    line.left();
    line.left();
    assert_eq!(line.cursor_index(), 0);
    line.left();
    assert_eq!(line.cursor_index(), 0);
    assert_eq!(line.text(), "ab");
}

#[test]
fn backspace_at_start_is_no_op() {
    let mut line = line_of("xy");
    line.left();
    line.left();
    line.backspace();
    assert_eq!(line.text(), "xy");
    assert_eq!(line.cursor_index(), 0);
    let mut empty = LineBuffer::new();
    empty.backspace();
    assert_eq!(empty.text(), "");
    assert_eq!(empty.cursor_index(), 0);
}

#[test]
fn insert_then_backspace_restores_line() {
    let mut line = line_of("hello");
    line.left();
    line.left();
    line.insert('a');
    assert_eq!(line.text(), "helalo");
    line.backspace();
    assert_eq!(line.text(), "hello");
    assert_eq!(line.cursor_index(), 3);
}

#[test]
fn insert_str_places_text_at_cursor() {
    let mut line = line_of("ad");
    line.left();
    line.insert_str("bc");
    assert_eq!(line.text(), "abcd");
    assert_eq!(line.cursor_index(), 3);
    line.insert_str("");
    assert_eq!(line.text(), "abcd");
    assert_eq!(line.cursor_index(), 3);
}

#[test]
fn coord_at_wrap_boundary() {
    let c = cursor_index_to_coord(&ctx(5, 2), 10, 8);
    assert_eq!(c, Some(Coord { column: 0, row: 6 }));
}

#[test]
fn coord_at_start_without_wrap() {
    let c = cursor_index_to_coord(&ctx(5, 2), 10, 0);
    assert_eq!(c, Some(Coord { column: 2, row: 5 }));
    let c = cursor_index_to_coord(&ctx(5, 2), 10, 7);
    assert_eq!(c, Some(Coord { column: 9, row: 5 }));
    let c = cursor_index_to_coord(&ctx(5, 2), 10, 25);
    assert_eq!(c, Some(Coord { column: 7, row: 7 }));
}

#[test]
fn coord_with_prompt_wider_than_terminal() {
    let c = cursor_index_to_coord(&ctx(3, 12), 10, 0);
    assert_eq!(c, Some(Coord { column: 2, row: 4 }));
}

#[test]
fn coord_out_of_reach() {
    assert_eq!(cursor_index_to_coord(&ctx(5, 2), 0, 3), None);
    assert_eq!(cursor_index_to_coord(&ctx(u16::MAX, 2), 10, 8), None);
    assert_eq!(
        cursor_index_to_coord(&ctx(u16::MAX, 2), 10, 7),
        Some(Coord { column: 9, row: u16::MAX })
    );
    assert_eq!(cursor_index_to_coord(&ctx(0, usize::MAX), 10, 1), None);
}

#[test]
fn update_cursor_moves_only() {
    let line = line_of("abc");
    let ops = update_cursor(&ctx(1, 2), &line, 4).unwrap();
    assert_eq!(ops.len(), 1);
    assert!(matches!(ops[0], ScreenOp::MoveTo(Coord { column: 1, row: 2 })));
    assert!(update_cursor(&ctx(1, 2), &line, 0).is_none());
}

#[test]
fn redraw_paints_from_text_start() {
    let mut line = line_of("abcdef");
    line.left();
    let ops = redraw_buffer(&ctx(5, 2), &line, 4).unwrap();
    assert_eq!(ops.len(), 6);
    assert!(matches!(ops[0], ScreenOp::MoveTo(Coord { column: 3, row: 6 })));
    assert!(matches!(ops[1], ScreenOp::SavePosition));
    assert!(matches!(ops[2], ScreenOp::MoveTo(Coord { column: 2, row: 5 })));
    assert!(matches!(ops[3], ScreenOp::ClearFromCursorDown));
    match &ops[4] {
        ScreenOp::Print(t) => assert_eq!(t, &vec!['a', 'b', 'c', 'd', 'e', 'f']),
        other => panic!("expected text, got {:?}", other),
    }
    assert!(matches!(ops[5], ScreenOp::RestorePosition));
}

#[test]
fn typing_then_left_twice_then_delete() {
    let mut line = LineBuffer::new();
    for c in ['a', 'b', 'c'] {
        assert_eq!(handle(&mut line, key(KeyCode::Char(c))), Ok(Response::Redraw));
    }
    assert_eq!(handle(&mut line, key(KeyCode::Left)), Ok(Response::Reposition));
    assert_eq!(handle(&mut line, key(KeyCode::Left)), Ok(Response::Reposition));
    assert_eq!(handle(&mut line, key(KeyCode::Delete)), Ok(Response::Redraw));
    assert_eq!(line.text(), "ac");
    assert_eq!(line.cursor_index(), 1);
}

#[test]
fn typing_then_enter_returns_text() {
    let mut prompt = Prompt::new("$ ", 5);
    for c in ['h', 'i'] {
        assert!(matches!(prompt.step(key(KeyCode::Char(c)), 80), Ok(Step::Paint(_))));
    }
    assert!(matches!(prompt.step(key(KeyCode::Enter), 80), Ok(Step::Done)));
    assert_eq!(prompt.line().text(), "hi");
}

#[test]
fn delete_at_end_changes_nothing() {
    let mut line = line_of("ab");
    assert_eq!(handle(&mut line, key(KeyCode::Delete)), Ok(Response::Redraw));
    assert_eq!(line.text(), "ab");
    assert_eq!(line.cursor_index(), 2);
}

#[test]
fn shift_keys() {
    let mut line = line_of("x");
    assert_eq!(handle(&mut line, shift(KeyCode::Char('Y'))), Ok(Response::Redraw));
    assert_eq!(handle(&mut line, shift(KeyCode::Right)), Ok(Response::Redraw));
    assert_eq!(line.text(), format!("xY{}", DEBUG_TOKEN));
    assert_eq!(line.text(), "xYDEBUG ");
    assert_eq!(line.cursor_index(), 8);
    assert_eq!(
        handle(&mut line, shift(KeyCode::Left)),
        Err(PromptError::UnsupportedKeyCombination)
    );
    assert_eq!(line.text(), "xYDEBUG ");
}

#[test]
fn unsupported_and_unexpected_events() {
    let mut line = line_of("ab");
    assert_eq!(handle(&mut line, key(KeyCode::Other)), Err(PromptError::UnsupportedKey));
    let ctrl = InputEvent::Key(KeyEvent { code: KeyCode::Char('c'), modifiers: KeyModifiers::Other });
    assert_eq!(handle(&mut line, ctrl), Err(PromptError::UnsupportedKeyCombination));
    assert_eq!(handle(&mut line, InputEvent::Mouse), Err(PromptError::MouseCaptureEnabled));
    assert_eq!(handle(&mut line, InputEvent::Paste), Err(PromptError::BracketedPasteEnabled));
    assert_eq!(handle(&mut line, InputEvent::Resize(80, 24)), Err(PromptError::ResizeUnsupported));
    assert_eq!(handle(&mut line, InputEvent::FocusGained), Ok(Response::Ignore));
    assert_eq!(handle(&mut line, InputEvent::FocusLost), Ok(Response::Ignore));
    assert_eq!(line.text(), "ab");
    assert_eq!(line.cursor_index(), 2);
    assert_eq!(PromptError::UnsupportedKey.message(), "UNSUPPORTED KEY");
}

#[test]
fn session_paints_and_reports_off_screen() {
    let mut prompt = Prompt::new("λ> ", 0);
    assert_eq!(prompt.render_context(), ctx(0, 3));
    match prompt.step(key(KeyCode::Char('a')), 4) {
        Ok(Step::Paint(ops)) => {
            assert_eq!(ops.len(), 6);
            assert!(matches!(ops[0], ScreenOp::MoveTo(Coord { column: 0, row: 1 })));
            assert!(matches!(ops[2], ScreenOp::MoveTo(Coord { column: 3, row: 0 })));
        }
        other => panic!("unexpected {:?}", other),
    }
    match prompt.step(key(KeyCode::Left), 4) {
        Ok(Step::Paint(ops)) => {
            assert_eq!(ops.len(), 1);
            assert!(matches!(ops[0], ScreenOp::MoveTo(Coord { column: 3, row: 0 })));
        }
        other => panic!("unexpected {:?}", other),
    }
    assert!(matches!(prompt.step(InputEvent::FocusLost, 4), Ok(Step::Paint(ops)) if ops.is_empty()));
    assert!(matches!(prompt.step(key(KeyCode::Right), 0), Err(PromptError::OffScreen)));
    assert!(matches!(prompt.step(InputEvent::Mouse, 4), Err(PromptError::MouseCaptureEnabled)));
    assert_eq!(prompt.line().text(), "a");
}

#[test]
fn default_line_is_empty() {
    let line = LineBuffer::default();
    assert_eq!(line.text(), "");
    assert_eq!(line.cursor_index(), 0);
    assert!(line.chars().is_empty());
}

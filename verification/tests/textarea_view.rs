use codex_lite::textarea::Rect;
use codex_lite::textarea::TextArea;
use codex_lite::textarea::TextAreaState;

fn ta_with(text: &str) -> TextArea {
    let mut t = TextArea::new();
    t.insert_str(text);
    t
}

#[test]
fn wrapping_and_cursor_positions() {
    let mut t = ta_with("hello world here");
    let area = Rect::new(0, 0, 6, 10); // width 6 -> wraps words
                                       // desired height counts wrapped lines
    assert!(t.desired_height(area.width) >= 3);

    // Place cursor in "world"
    let world_start = t.text().find("world").unwrap();
    t.set_cursor(world_start + 3);
    let (_x, y) = t.cursor_pos(area).unwrap();
    assert_eq!(y, 1); // world should be on second wrapped line

    // With state and small height, cursor is mapped onto visible row
    let mut state = TextAreaState::default();
    let small_area = Rect::new(0, 0, 6, 1);
    // First call: cursor not visible -> effective scroll ensures it is
    let (_x, y) = t.cursor_pos_with_state(small_area, &state).unwrap();
    assert_eq!(y, 0);

    // Render with state to update actual scroll value
    let rows = t.render_lines_with_state(small_area, &mut state);
    assert_eq!(rows.len(), 1);
    // After render, state.scroll should be adjusted so cursor row fits
    let effective_lines = t.desired_height(small_area.width);
    assert!(state.scroll < effective_lines);
}

#[test]
fn cursor_pos_with_state_basic_and_scroll_behaviors() {
    // First: no wrapping needed, height fits — scroll ignored, y maps directly.
    let mut t = ta_with("hello world");
    t.set_cursor(3);
    let area = Rect::new(2, 5, 20, 3);
    // Even if an absurd scroll is provided, when content fits the area the
    // effective scroll is 0 and the cursor position matches cursor_pos.
    let bad_state = TextAreaState { scroll: 999 };
    let (x1, y1) = t.cursor_pos(area).unwrap();
    let (x2, y2) = t.cursor_pos_with_state(area, &bad_state).unwrap();
    assert_eq!((x2, y2), (x1, y1));

    // Second: cursor below the current window — y should be clamped to the
    // bottom row (area.height - 1) after adjusting effective scroll.
    let mut t = ta_with("one two three four five six");
    // Force wrapping to many visual lines.
    let wrap_width = 4;
    let _ = t.desired_height(wrap_width);
    // Put cursor somewhere near the end so it's definitely below the first window.
    t.set_cursor(t.text().len().saturating_sub(2));
    let small_area = Rect::new(0, 0, wrap_width, 2);
    let state = TextAreaState { scroll: 0 };
    let (_x, y) = t.cursor_pos_with_state(small_area, &state).unwrap();
    assert_eq!(y, small_area.y + small_area.height - 1);

    // Third: cursor above the current window — y should be top row (0)
    // when the provided scroll is too large.
    let mut t = ta_with("alpha beta gamma delta epsilon zeta");
    let wrap_width = 5;
    let lines = t.desired_height(wrap_width);
    // Place cursor near start so an excessive scroll moves it to top row.
    t.set_cursor(1);
    let area = Rect::new(0, 0, wrap_width, 3);
    let state = TextAreaState {
        scroll: lines.saturating_mul(2),
    };
    let (_x, y) = t.cursor_pos_with_state(area, &state).unwrap();
    assert_eq!(y, area.y);
}

#[test]
fn wrapped_navigation_across_visual_lines() {
    let mut t = ta_with("abcdefghij");
    // Force wrapping at width 4: lines -> ["abcd", "efgh", "ij"]
    let _ = t.desired_height(4);

    // From the very start, moving down should go to the start of the next wrapped line (index 4)
    t.set_cursor(0);
    t.move_cursor_down();
    assert_eq!(t.cursor(), 4);

    // Cursor at boundary index 4 should be displayed at start of second wrapped line
    t.set_cursor(4);
    let area = Rect::new(0, 0, 4, 10);
    let (x, y) = t.cursor_pos(area).unwrap();
    assert_eq!((x, y), (0, 1));

    // With state and small height, cursor should be visible at row 0, col 0
    let small_area = Rect::new(0, 0, 4, 1);
    let state = TextAreaState::default();
    let (x, y) = t.cursor_pos_with_state(small_area, &state).unwrap();
    assert_eq!((x, y), (0, 0));

    // Place cursor in the middle of the second wrapped line ("efgh"), at 'g'
    t.set_cursor(6);
    // Move up should go to same column on previous wrapped line -> index 2 ('c')
    t.move_cursor_up();
    assert_eq!(t.cursor(), 2);

    // Move down should return to same position on the next wrapped line -> back to index 6 ('g')
    t.move_cursor_down();
    assert_eq!(t.cursor(), 6);

    // Move down again should go to third wrapped line. Target col is 2, but the line has len 2 -> clamp to end
    t.move_cursor_down();
    assert_eq!(t.cursor(), t.text().len());
}

#[test]
fn cursor_pos_with_state_after_movements() {
    let mut t = ta_with("abcdefghij");
    // Wrap width 4 -> visual lines: abcd | efgh | ij
    let _ = t.desired_height(4);
    let area = Rect::new(0, 0, 4, 2);
    let mut state = TextAreaState::default();

    // Start at beginning
    t.set_cursor(0);
    let _ = t.render_lines_with_state(area, &mut state);
    let (x, y) = t.cursor_pos_with_state(area, &state).unwrap();
    assert_eq!((x, y), (0, 0));

    // Move down to second visual line; should be at bottom row (row 1) within 2-line viewport
    t.move_cursor_down();
    let _ = t.render_lines_with_state(area, &mut state);
    let (x, y) = t.cursor_pos_with_state(area, &state).unwrap();
    assert_eq!((x, y), (0, 1));

    // Move down to third visual line; viewport scrolls and keeps cursor on bottom row
    t.move_cursor_down();
    let _ = t.render_lines_with_state(area, &mut state);
    let (x, y) = t.cursor_pos_with_state(area, &state).unwrap();
    assert_eq!((x, y), (0, 1));

    // Move up to second visual line; with current scroll, it appears on top row
    t.move_cursor_up();
    let _ = t.render_lines_with_state(area, &mut state);
    let (x, y) = t.cursor_pos_with_state(area, &state).unwrap();
    assert_eq!((x, y), (0, 0));

    // Column preservation across moves: set to col 2 on first line, move down
    t.set_cursor(2);
    let _ = t.render_lines_with_state(area, &mut state);
    let (x0, y0) = t.cursor_pos_with_state(area, &state).unwrap();
    assert_eq!((x0, y0), (2, 0));
    t.move_cursor_down();
    let _ = t.render_lines_with_state(area, &mut state);
    let (x1, y1) = t.cursor_pos_with_state(area, &state).unwrap();
    assert_eq!((x1, y1), (2, 1));
}

#[test]
fn render_lines_give_the_text_of_each_row() {
    let mut t = ta_with("word1  word2\nword3");
    let area = Rect::new(0, 0, 6, 10);
    let rows = t.render_lines(area);
    let texts: Vec<&str> = rows.iter().map(|r| &t.text()[r.clone()]).collect();
    assert_eq!(texts, vec!["word1  ", "word2", "word3"]);

    let mut state = TextAreaState { scroll: 1 };
    let small = Rect::new(0, 0, 6, 2);
    t.set_cursor(t.text().len());
    let rows = t.render_lines_with_state(small, &mut state);
    assert_eq!(state.scroll, 1);
    assert_eq!(rows, vec![7..12, 13..18]);
}

#[test]
fn rect_new_keeps_the_far_edges_countable() {
    assert_eq!(
        Rect::new(2, 5, 20, 3),
        Rect { x: 2, y: 5, width: 20, height: 3 }
    );
    assert_eq!(
        Rect::new(65530, 65535, 10, 7),
        Rect { x: 65530, y: 65535, width: 5, height: 0 }
    );
}

use thyme_core::geom::Align;
use thyme_core::text::{block_shift, line_shift, Shift, TextAction, TextLayout};
use thyme_core::text::TextAction::{AlignAll, CheckFit, DrawWord, FinishLine, NextLine, PushGlyph, Space};

/// Runs the layout over `text` the way a renderer does, with a fixed advance per
/// glyph and a line `width` glyphs wide, and returns the drawn lines.
fn lay_out(text: &str, width: usize) -> Vec<String> {
    let mut layout = TextLayout::new();
    let mut lines: Vec<String> = vec![String::new()];
    let mut word = String::new();
    let mut line_width = 0usize;
    let mut run = |actions: Vec<TextAction>, c: char, lines: &mut Vec<String>, word: &mut String, line_width: &mut usize| -> bool {
        let mut overflow = false;
        for a in actions {
            match a {
                DrawWord => {
                    *line_width += word.chars().count();
                    lines.last_mut().unwrap().push_str(word);
                    word.clear();
                }
                NextLine => {
                    lines.push(String::new());
                    *line_width = 0;
                }
                Space => {
                    *line_width += 1;
                    lines.last_mut().unwrap().push(' ');
                }
                PushGlyph => word.push(c),
                CheckFit => overflow = *line_width + word.chars().count() > width,
                FinishLine | AlignAll => {}
            }
        }
        overflow
    };
    for c in text.chars() {
        let has_glyph = c != '\u{7f}';
        let actions = layout.char_actions(has_glyph, c == '\n', c.is_whitespace());
        if run(actions, c, &mut lines, &mut word, &mut line_width) {
            let actions = layout.overflow();
            run(actions, c, &mut lines, &mut word, &mut line_width);
        }
    }
    let actions = layout.finish();
    run(actions, ' ', &mut lines, &mut word, &mut line_width);
    lines
}

#[test]
fn words_wrap_at_the_line_width() {
    assert_eq!(lay_out("hello world", 8), vec!["hello ", "world"]);
    assert_eq!(lay_out("ab cd", 10), vec!["ab cd"]);
}

#[test]
fn leading_whitespace_takes_no_room() {
    assert_eq!(lay_out("   ab", 10), vec!["ab"]);
}

#[test]
fn long_word_is_broken_on_an_empty_line() {
    assert_eq!(lay_out("abcdef", 4), vec!["abcde", "f"]);
}

#[test]
fn newline_breaks_the_line() {
    assert_eq!(lay_out("ab\ncd", 10), vec!["ab", "\ncd"]);
}

#[test]
fn glyphless_characters_are_skipped() {
    assert_eq!(lay_out("a\u{7f}b", 10), vec!["ab"]);
}

#[test]
fn finish_actions() {
    let mut l = TextLayout::new();
    assert_eq!(l.finish(), vec![DrawWord, AlignAll]);
    let mut l = TextLayout::new();
    assert_eq!(l.char_actions(true, false, false), vec![PushGlyph, CheckFit]);
    assert_eq!(l.finish(), vec![DrawWord, FinishLine, AlignAll]);
    let mut l = TextLayout::new();
    assert_eq!(l.char_actions(true, false, true), vec![DrawWord]);
    assert_eq!(l.char_actions(true, false, false), vec![PushGlyph, CheckFit]);
    assert_eq!(l.char_actions(true, false, true), vec![DrawWord, Space]);
    assert_eq!(l.overflow(), vec![NextLine, DrawWord]);
    assert_eq!(l.char_actions(false, false, false), Vec::<TextAction>::new());
}

#[test]
fn alignment_shifts() {
    assert_eq!(line_shift(Align::Left), Shift::Stay);
    assert_eq!(line_shift(Align::TopRight), Shift::Full);
    assert_eq!(line_shift(Align::Center), Shift::Half);
    assert_eq!(block_shift(Align::TopRight), Shift::Stay);
    assert_eq!(block_shift(Align::Bot), Shift::Full);
    assert_eq!(block_shift(Align::Right), Shift::Half);
}

//! The decisions of text layout: when the pending word is drawn, when a line
//! breaks, and when whitespace moves the pen.
//!
//! Laying out a string walks its characters once.  The caller measures and draws
//! (pen position, widths and glyph quads are `f32` values); this state machine
//! says, for each character, what to do, from two facts it tracks: whether the
//! current line has glyphs drawn on it, and whether a word is pending (pushed but
//! not yet drawn).
use vstd::prelude::*;

verus! {

/// What the caller of the text layout does next.
#[derive(Clone, Copy, Debug, PartialEq, Eq, Structural)]
pub enum TextAction {
    /// Draw the pending word's glyphs, in order, at the pen, moving the pen and the
    /// line's width past each; then forget them.
    DrawWord,
    /// Move the pen to the start of the next line, after aligning the line just
    /// finished horizontally; the new line has width zero.
    NextLine,
    /// Move the pen, and the line's width, past the whitespace character without
    /// drawing it.
    Space,
    /// Append the character's glyph to the pending word, adding its advance to the
    /// word's width.
    PushGlyph,
    /// Test whether the line's width plus the pending word's width exceeds the
    /// width of the text area, and if so report [`TextLayout::overflow`].
    CheckFit,
    /// Align the last line horizontally and count its height.
    FinishLine,
    /// Align all lines vertically.
    AlignAll,
}

/// The actions for the next character, and whether the line then has glyphs and a
/// word is pending, from whether the line had glyphs and a word was pending.
pub open spec fn char_step(line: bool, word: bool, has_glyph: bool, newline: bool, whitespace: bool) -> (
    Seq<TextAction>,
    bool,
    bool,
) {
    if !has_glyph {
        (Seq::empty(), line, word)
    } else if newline {
        (
            seq![
                TextAction::DrawWord,
                TextAction::NextLine,
                TextAction::PushGlyph,
                TextAction::CheckFit,
            ],
            false,
            true,
        )
    } else if whitespace {
        if line || word {
            (seq![TextAction::DrawWord, TextAction::Space], true, false)
        } else {
            (seq![TextAction::DrawWord], false, false)
        }
    } else {
        (seq![TextAction::PushGlyph, TextAction::CheckFit], line, true)
    }
}

/// The actions when the pending word does not fit, and the state after them.
pub open spec fn overflow_step(line: bool, word: bool) -> (Seq<TextAction>, bool, bool) {
    if !line {
        (seq![TextAction::DrawWord, TextAction::NextLine], false, false)
    } else {
        (seq![TextAction::NextLine, TextAction::DrawWord], word, false)
    }
}

/// The actions at the end of the text, and the state after them.
pub open spec fn finish_step(line: bool, word: bool) -> (Seq<TextAction>, bool, bool) {
    if line || word {
        (seq![TextAction::DrawWord, TextAction::FinishLine, TextAction::AlignAll], false, false)
    } else {
        (seq![TextAction::DrawWord, TextAction::AlignAll], false, false)
    }
}

/// The state of a text layout in progress.
pub struct TextLayout {
    line_has_glyphs: bool,
    word_pending: bool,
}

impl TextLayout {
    /// Whether glyphs have been drawn on the current line.
    pub closed spec fn line(&self) -> bool {
        self.line_has_glyphs
    }

    /// Whether a word has been pushed and not yet drawn.
    pub closed spec fn word(&self) -> bool {
        self.word_pending
    }

    /// The layout at the start of a text: an empty line and no pending word.
    pub fn new() -> (l: TextLayout)
        ensures
            !l.line(),
            !l.word(),
    {
        TextLayout { line_has_glyphs: false, word_pending: false }
    }

    /// The actions for the next character of the text.  A character the font has no
    /// glyph for (`has_glyph` false) is skipped.  A newline ends the pending word
    /// and the line, and its glyph then starts a new word.  Other whitespace ends
    /// the pending word and moves the pen, unless the line is still empty:
    /// whitespace at the start of a line takes no room.  Any other character joins
    /// the pending word.  A character that joins the word is followed by a test of
    /// whether the word still fits on the line.
    pub fn char_actions(&mut self, has_glyph: bool, newline: bool, whitespace: bool) -> (a: Vec<
        TextAction,
    >)
        ensures
            (a@, final(self).line(), final(self).word()) == char_step(
                old(self).line(),
                old(self).word(),
                has_glyph,
                newline,
                whitespace,
            ),
            has_glyph && !newline && whitespace ==> a@.contains(TextAction::Space) == (old(
                self,
            ).line() || old(self).word()),
    {
        proof {
            lemma_space_on_occupied_line(self.line_has_glyphs, self.word_pending);
        }
        let mut actions: Vec<TextAction> = Vec::new();
        if !has_glyph {
            return actions;
        }
        if newline {
            actions.push(TextAction::DrawWord);
            actions.push(TextAction::NextLine);
            self.line_has_glyphs = false;
            self.word_pending = false;
        } else if whitespace {
            actions.push(TextAction::DrawWord);
            self.line_has_glyphs = self.line_has_glyphs || self.word_pending;
            self.word_pending = false;
            if self.line_has_glyphs {
                actions.push(TextAction::Space);
            }
            return actions;
        }
        actions.push(TextAction::PushGlyph);
        actions.push(TextAction::CheckFit);
        self.word_pending = true;
        actions
    }

    /// The actions when the pending word does not fit on the line.  On an empty
    /// line the word could never fit, so it is drawn there and the line breaks
    /// after it; otherwise the line breaks and the word is drawn at the start of
    /// the next one.
    pub fn overflow(&mut self) -> (a: Vec<TextAction>)
        ensures
            (a@, final(self).line(), final(self).word()) == overflow_step(
                old(self).line(),
                old(self).word(),
            ),
            old(self).line() ==> final(self).line() == old(self).word(),
            !old(self).line() ==> !final(self).line(),
    {
        let mut actions: Vec<TextAction> = Vec::new();
        if !self.line_has_glyphs {
            actions.push(TextAction::DrawWord);
            actions.push(TextAction::NextLine);
            self.line_has_glyphs = false;
        } else {
            actions.push(TextAction::NextLine);
            actions.push(TextAction::DrawWord);
            self.line_has_glyphs = self.word_pending;
        }
        self.word_pending = false;
        actions
    }

    /// The actions at the end of the text: the pending word is drawn, the last line
    /// is finished if it has glyphs, and all lines are aligned vertically.
    pub fn finish(&mut self) -> (a: Vec<TextAction>)
        ensures
            (a@, final(self).line(), final(self).word()) == finish_step(
                old(self).line(),
                old(self).word(),
            ),
    {
        let mut actions: Vec<TextAction> = Vec::new();
        actions.push(TextAction::DrawWord);
        if self.line_has_glyphs || self.word_pending {
            actions.push(TextAction::FinishLine);
        }
        actions.push(TextAction::AlignAll);
        self.line_has_glyphs = false;
        self.word_pending = false;
        actions
    }
}

/// How far a line or a block of text moves along one axis to take its alignment
/// within the text area: not at all, by half the free room, or by all of it.
#[derive(Clone, Copy, Debug, PartialEq, Eq, Structural)]
pub enum Shift {
    Stay,
    Half,
    Full,
}

/// The shift of text attached at `anchor`.
pub open spec fn shift_of(anchor: crate::geom::Anchor) -> Shift {
    match anchor {
        crate::geom::Anchor::Start => Shift::Stay,
        crate::geom::Anchor::Middle => Shift::Half,
        crate::geom::Anchor::End => Shift::Full,
    }
}

/// The horizontal shift of each line of text aligned `align`: left aligned lines
/// stay, right aligned ones move by the room left on the line, others by half of it.
pub fn line_shift(align: crate::geom::Align) -> (s: Shift)
    ensures
        s == shift_of(align.horizontal()),
{
    match align.x_anchor() {
        crate::geom::Anchor::Start => Shift::Stay,
        crate::geom::Anchor::Middle => Shift::Half,
        crate::geom::Anchor::End => Shift::Full,
    }
}

/// The vertical shift of a block of text aligned `align`: top aligned text stays,
/// bottom aligned text moves by the room left below it, others by half of it.
pub fn block_shift(align: crate::geom::Align) -> (s: Shift)
    ensures
        s == shift_of(align.vertical()),
{
    match align.y_anchor() {
        crate::geom::Anchor::Start => Shift::Stay,
        crate::geom::Anchor::Middle => Shift::Half,
        crate::geom::Anchor::End => Shift::Full,
    }
}

/// Whitespace other than a newline is never drawn: it ends the pending word and at
/// most moves the pen.
pub proof fn lemma_whitespace_is_not_drawn(line: bool, word: bool)
    ensures
        !char_step(line, word, true, false, true).0.contains(TextAction::PushGlyph),
        !char_step(line, word, true, false, true).2,
{
    let a = char_step(line, word, true, false, true).0;
    assert(a.contains(TextAction::PushGlyph) ==> exists|i: int|
        0 <= i < a.len() && a[i] == TextAction::PushGlyph);
}

/// Whitespace at the start of a line takes no room: on a line with no glyphs and no
/// pending word it does not move the pen.
pub proof fn lemma_no_leading_space(line: bool, word: bool)
    requires
        !line,
        !word,
    ensures
        !char_step(line, word, true, false, true).0.contains(TextAction::Space),
{
    let a = char_step(line, word, true, false, true).0;
    assert(a.contains(TextAction::Space) ==> exists|i: int| 0 <= i < a.len() && a[i] == TextAction::Space);
}

/// Every glyph that joins the pending word is followed by a fit test, after which
/// the word is pending, so a word that grows past the line's width is caught at
/// the glyph that makes it too wide.
pub proof fn lemma_push_then_check(line: bool, word: bool, newline: bool, whitespace: bool)
    ensures
        char_step(line, word, true, newline, whitespace).0.contains(TextAction::PushGlyph) ==> {
            &&& char_step(line, word, true, newline, whitespace).0.last() == TextAction::CheckFit
            &&& char_step(line, word, true, newline, whitespace).2
        },
{
    let a = char_step(line, word, true, newline, whitespace).0;
    if !newline && whitespace {
        assert(a.contains(TextAction::PushGlyph) ==> exists|i: int|
            0 <= i < a.len() && a[i] == TextAction::PushGlyph);
    }
}

/// A word too wide for the room left is drawn on a fresh line: on a line with
/// glyphs the line breaks first; on an empty line the word can never fit, so it
/// is drawn there and the line breaks after it.  Either way nothing is pending
/// afterwards.
pub proof fn lemma_overflow_breaks_line(line: bool, word: bool)
    ensures
        overflow_step(line, word).0.contains(TextAction::NextLine),
        overflow_step(line, word).0.contains(TextAction::DrawWord),
        line ==> overflow_step(line, word).0[0] == TextAction::NextLine,
        !line ==> overflow_step(line, word).0[0] == TextAction::DrawWord,
        !overflow_step(line, word).2,
{
    let a = overflow_step(line, word).0;
    assert(a[0] == TextAction::NextLine || a[1] == TextAction::NextLine);
    assert(a[0] == TextAction::DrawWord || a[1] == TextAction::DrawWord);
}

/// At the end of the text nothing is left pending: the last word is drawn, and the
/// last line is finished exactly when it has glyphs.
pub proof fn lemma_finish_draws_everything(line: bool, word: bool)
    ensures
        finish_step(line, word).0[0] == TextAction::DrawWord,
        finish_step(line, word).0.contains(TextAction::FinishLine) == (line || word),
        finish_step(line, word).0.last() == TextAction::AlignAll,
        !finish_step(line, word).1,
        !finish_step(line, word).2,
{
    let a = finish_step(line, word).0;
    if line || word {
        assert(a[1] == TextAction::FinishLine);
    } else {
        assert(a.contains(TextAction::FinishLine) ==> exists|i: int|
            0 <= i < a.len() && a[i] == TextAction::FinishLine);
    }
}

/// One character of a text, as the layout sees it: whether the font has a glyph for
/// it, and whether it is a newline or other whitespace.
pub struct CharInput {
    pub has_glyph: bool,
    pub newline: bool,
    pub whitespace: bool,
}

/// Whether the character's glyph joins the pending word.
pub open spec fn joins_word(c: CharInput) -> bool {
    c.has_glyph && (c.newline || !c.whitespace)
}

/// The actions for one character followed, when its glyph joined the word and the
/// fit test failed (`overflows`), by the actions for a word that does not fit; and
/// the state after them.
pub open spec fn char_then_fit(line: bool, word: bool, c: CharInput, overflows: bool) -> (
    Seq<TextAction>,
    bool,
    bool,
) {
    let step = char_step(line, word, c.has_glyph, c.newline, c.whitespace);
    if joins_word(c) && overflows {
        let over = overflow_step(step.1, step.2);
        (step.0 + over.0, over.1, over.2)
    } else {
        step
    }
}

/// The actions for the characters `cs`, with the fit test of the `i`th character
/// failing when `overflows[i]` holds, and the state after them.
pub open spec fn layout_run(line: bool, word: bool, cs: Seq<CharInput>, overflows: Seq<bool>) -> (
    Seq<TextAction>,
    bool,
    bool,
)
    decreases cs.len(),
{
    if cs.len() == 0 {
        (Seq::empty(), line, word)
    } else {
        let first = char_then_fit(line, word, cs[0], overflows[0]);
        let rest = layout_run(first.1, first.2, cs.drop_first(), overflows.drop_first());
        (first.0 + rest.0, rest.1, rest.2)
    }
}

/// All the actions for laying out the text `cs`, from the start to the end.
pub open spec fn layout_text(cs: Seq<CharInput>, overflows: Seq<bool>) -> Seq<TextAction> {
    let run = layout_run(false, false, cs, overflows);
    run.0 + finish_step(run.1, run.2).0
}

/// How many times `x` occurs in `s`.
pub open spec fn count(s: Seq<TextAction>, x: TextAction) -> nat
    decreases s.len(),
{
    if s.len() == 0 {
        0
    } else {
        count(s.drop_first(), x) + if s[0] == x {
            1nat
        } else {
            0nat
        }
    }
}

/// How many characters of `cs` join a word.
pub open spec fn joining(cs: Seq<CharInput>) -> nat
    decreases cs.len(),
{
    if cs.len() == 0 {
        0
    } else {
        joining(cs.drop_first()) + if joins_word(cs[0]) {
            1nat
        } else {
            0nat
        }
    }
}

/// Counting over a concatenation adds the counts.
pub proof fn lemma_count_add(a: Seq<TextAction>, b: Seq<TextAction>, x: TextAction)
    ensures
        count(a + b, x) == count(a, x) + count(b, x),
    decreases a.len(),
{
    if a.len() == 0 {
        assert(a + b =~= b);
    } else {
        assert((a + b).drop_first() =~= a.drop_first() + b);
        lemma_count_add(a.drop_first(), b, x);
    }
}

proof fn lemma_count_small(x: TextAction)
    ensures
        count(Seq::empty(), x) == 0,
        forall|a: TextAction| #[trigger] count(seq![a], x) == if a == x { 1nat } else { 0nat },
{
    assert forall|a: TextAction| #[trigger] count(seq![a], x) == if a == x { 1nat } else { 0nat } by {
        assert(seq![a].drop_first() =~= Seq::<TextAction>::empty());
        assert(count(Seq::<TextAction>::empty(), x) == 0);
        assert(seq![a][0] == a);
    }
}

proof fn lemma_count_pair(a: TextAction, b: TextAction, x: TextAction)
    ensures
        count(seq![a, b], x) == count(seq![a], x) + count(seq![b], x),
{
    assert(seq![a, b] =~= seq![a] + seq![b]);
    lemma_count_add(seq![a], seq![b], x);
}

/// The pushes of one character, with its fit outcome: exactly one when its glyph
/// joins the word, none otherwise.
proof fn lemma_char_pushes(line: bool, word: bool, c: CharInput, overflows: bool)
    ensures
        count(char_then_fit(line, word, c, overflows).0, TextAction::PushGlyph) == if joins_word(c) {
            1nat
        } else {
            0nat
        },
{
    let x = TextAction::PushGlyph;
    lemma_count_small(x);
    let step = char_step(line, word, c.has_glyph, c.newline, c.whitespace);
    lemma_count_pair(TextAction::DrawWord, TextAction::NextLine, x);
    lemma_count_pair(TextAction::NextLine, TextAction::DrawWord, x);
    lemma_count_pair(TextAction::DrawWord, TextAction::Space, x);
    lemma_count_pair(TextAction::PushGlyph, TextAction::CheckFit, x);
    assert(seq![TextAction::DrawWord, TextAction::NextLine, TextAction::PushGlyph, TextAction::CheckFit]
        =~= seq![TextAction::DrawWord, TextAction::NextLine] + seq![TextAction::PushGlyph, TextAction::CheckFit]);
    lemma_count_add(seq![TextAction::DrawWord, TextAction::NextLine], seq![TextAction::PushGlyph, TextAction::CheckFit], x);
    if joins_word(c) && overflows {
        let over = overflow_step(step.1, step.2);
        lemma_count_add(step.0, over.0, x);
    }
}

/// Laying out a text pushes one glyph for each character that joins a word (each
/// character with a glyph that is a newline or not whitespace) and no other,
/// whatever the fit tests find; and the text ends with every pushed glyph drawn,
/// since it ends by drawing the pending word and aligning the lines.
pub proof fn lemma_every_glyph_pushed_once(cs: Seq<CharInput>, overflows: Seq<bool>)
    requires
        overflows.len() == cs.len(),
    ensures
        count(layout_text(cs, overflows), TextAction::PushGlyph) == joining(cs),
        ({
            let run = layout_run(false, false, cs, overflows);
            let end = finish_step(run.1, run.2).0;
            &&& end[0] == TextAction::DrawWord
            &&& count(end, TextAction::PushGlyph) == 0
            &&& layout_text(cs, overflows).last() == TextAction::AlignAll
        }),
{
    lemma_run_pushes(false, false, cs, overflows);
    let run = layout_run(false, false, cs, overflows);
    let end = finish_step(run.1, run.2).0;
    lemma_count_add(run.0, end, TextAction::PushGlyph);
    lemma_finish_draws_everything(run.1, run.2);
    let x = TextAction::PushGlyph;
    lemma_count_small(x);
    lemma_count_pair(TextAction::DrawWord, TextAction::AlignAll, x);
    assert(seq![TextAction::DrawWord, TextAction::FinishLine, TextAction::AlignAll]
        =~= seq![TextAction::DrawWord] + seq![TextAction::FinishLine, TextAction::AlignAll]);
    lemma_count_add(seq![TextAction::DrawWord], seq![TextAction::FinishLine, TextAction::AlignAll], x);
    lemma_count_pair(TextAction::FinishLine, TextAction::AlignAll, x);
}

/// The pushes of a run of characters from any state: one per character that
/// joins a word.
proof fn lemma_run_pushes(line: bool, word: bool, cs: Seq<CharInput>, overflows: Seq<bool>)
    requires
        overflows.len() == cs.len(),
    ensures
        count(layout_run(line, word, cs, overflows).0, TextAction::PushGlyph) == joining(cs),
    decreases cs.len(),
{
    lemma_count_small(TextAction::PushGlyph);
    if cs.len() > 0 {
        let first = char_then_fit(line, word, cs[0], overflows[0]);
        lemma_char_pushes(line, word, cs[0], overflows[0]);
        lemma_run_pushes(first.1, first.2, cs.drop_first(), overflows.drop_first());
        let rest = layout_run(first.1, first.2, cs.drop_first(), overflows.drop_first());
        lemma_count_add(first.0, rest.0, TextAction::PushGlyph);
    }
}

/// What one action does to the two facts the layout tracks, read from the action's
/// meaning: drawing the pending word puts its glyphs on the line and leaves no
/// word pending; a new line has no glyphs; a pushed glyph is a pending word; the
/// other actions move the pen or test or align without drawing or pushing.
pub open spec fn action_effect(a: TextAction, line: bool, word: bool) -> (bool, bool) {
    match a {
        TextAction::DrawWord => (line || word, false),
        TextAction::NextLine => (false, word),
        TextAction::PushGlyph => (line, true),
        _ => (line, word),
    }
}

/// The two facts after carrying out `s` in order from `line` and `word`.
pub open spec fn actions_effect(s: Seq<TextAction>, line: bool, word: bool) -> (bool, bool)
    decreases s.len(),
{
    if s.len() == 0 {
        (line, word)
    } else {
        let e = action_effect(s[0], line, word);
        actions_effect(s.drop_first(), e.0, e.1)
    }
}

proof fn lemma_effect_two(a: TextAction, b: TextAction, line: bool, word: bool)
    ensures
        actions_effect(seq![a, b], line, word) == ({
            let e = action_effect(a, line, word);
            action_effect(b, e.0, e.1)
        }),
{
    let s = seq![a, b];
    assert(s.drop_first() =~= seq![b]);
    assert(seq![b].drop_first() =~= Seq::<TextAction>::empty());
    let e = action_effect(a, line, word);
    assert(actions_effect(seq![b], e.0, e.1) == actions_effect(Seq::<TextAction>::empty(), action_effect(b, e.0, e.1).0, action_effect(b, e.0, e.1).1));
}

/// The state the layout keeps after each character, and after a word that does
/// not fit, is what its actions do: it believes the line has glyphs exactly when
/// the actions leave glyphs drawn on it, and a word pending exactly when they leave
/// one pushed and not drawn.  In particular, after a word that does not fit on a
/// line with glyphs is moved to the next line, that line holds the word.
pub proof fn lemma_state_follows_actions(line: bool, word: bool, has_glyph: bool, newline: bool, whitespace: bool)
    ensures
        ({
            let r = char_step(line, word, has_glyph, newline, whitespace);
            (r.1, r.2) == actions_effect(r.0, line, word)
        }),
        ({
            let r = overflow_step(line, word);
            (r.1, r.2) == actions_effect(r.0, line, word)
        }),
        overflow_step(true, word).1 == word,
        !overflow_step(false, word).1,
{
    assert(actions_effect(Seq::<TextAction>::empty(), line, word) == (line, word));
    lemma_effect_two(TextAction::DrawWord, TextAction::NextLine, line, word);
    lemma_effect_two(TextAction::NextLine, TextAction::DrawWord, line, word);
    if has_glyph && newline {
        let four = seq![TextAction::DrawWord, TextAction::NextLine, TextAction::PushGlyph, TextAction::CheckFit];
        let three = seq![TextAction::NextLine, TextAction::PushGlyph, TextAction::CheckFit];
        let two = seq![TextAction::PushGlyph, TextAction::CheckFit];
        assert(four.drop_first() =~= three);
        assert(three.drop_first() =~= two);
        lemma_effect_two(TextAction::PushGlyph, TextAction::CheckFit, false, false);
        assert(actions_effect(two, false, false) == (false, true));
        assert(actions_effect(three, line || word, false) == actions_effect(two, false, false));
        assert(actions_effect(four, line, word) == actions_effect(three, line || word, false));
    } else if has_glyph && whitespace {
        lemma_effect_two(TextAction::DrawWord, TextAction::Space, line, word);
        assert(seq![TextAction::DrawWord].drop_first() =~= Seq::<TextAction>::empty());
        assert(actions_effect(seq![TextAction::DrawWord], line, word) == actions_effect(
            Seq::<TextAction>::empty(),
            line || word,
            false,
        ));
    } else if has_glyph {
        lemma_effect_two(TextAction::PushGlyph, TextAction::CheckFit, line, word);
    }
}

/// Whitespace other than a newline moves the pen exactly when, once the pending
/// word is drawn, the line has glyphs: after a word, and after any glyph already on
/// the line, however many spaces came before; only at the start of a line is it
/// dropped.  Afterwards the line has glyphs exactly then, and no word is pending.
pub proof fn lemma_space_on_occupied_line(line: bool, word: bool)
    ensures
        char_step(line, word, true, false, true).0.contains(TextAction::Space) == (line || word),
        char_step(line, word, true, false, true).1 == (line || word),
        !char_step(line, word, true, false, true).2,
        line ==> char_step(line, word, true, false, true).0.contains(TextAction::Space),
{
    let a = char_step(line, word, true, false, true).0;
    if line || word {
        assert(a[1] == TextAction::Space);
    } else {
        assert(a.contains(TextAction::Space) ==> exists|i: int| 0 <= i < a.len() && a[i] == TextAction::Space);
    }
}

} // verus!

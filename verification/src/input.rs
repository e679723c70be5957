use vstd::prelude::*;
use tui_input::{Input, InputRequest};

verus! {

#[verifier::external_type_specification]
#[verifier::external_body]
pub struct ExInput(Input);

/// The characters held by a text input.
pub uninterp spec fn input_text(i: Input) -> Seq<char>;

/// The cursor of a text input, counted in characters before it.
pub uninterp spec fn input_cursor(i: Input) -> nat;

/// The kill buffer of a text input: the text that a yank inserts.
pub uninterp spec fn input_yank(i: Input) -> Seq<char>;

/// The start, in characters, of the grapheme cluster that ends at or
/// contains the position before `cursor` in `text`.
pub uninterp spec fn grapheme_before(text: Seq<char>, cursor: nat) -> nat;

/// The end, in characters, of the grapheme cluster that starts at or
/// contains position `cursor` in `text`.
pub uninterp spec fn grapheme_after(text: Seq<char>, cursor: nat) -> nat;

/// The start, in characters, of the word before `cursor` in `text`, or 0.
pub uninterp spec fn word_before(text: Seq<char>, cursor: nat) -> nat;

/// The start, in characters, of the word after `cursor` in `text`, or the
/// end of the text.
pub uninterp spec fn word_after(text: Seq<char>, cursor: nat) -> nat;

/// An editing request for a text input, one for each request of the input
/// crate.
#[derive(Clone, Copy, Debug, PartialEq, Eq)]
pub enum EditRequest {
    SetCursor(usize),
    InsertChar(char),
    GoToPrevChar,
    GoToNextChar,
    GoToPrevWord,
    GoToNextWord,
    GoToStart,
    GoToEnd,
    DeletePrevChar,
    DeleteNextChar,
    DeletePrevWord,
    DeleteNextWord,
    DeleteLine,
    DeleteTillEnd,
    DeleteFromStart,
    Yank,
}

/// What a request does to the text and cursor of an input whose kill
/// buffer is `yank`, given the grapheme boundaries `gb`, `ga` and word
/// boundaries `wb`, `wa` around the cursor. Moving or deleting back does
/// nothing at the start of the text, forward nothing at its end.
pub open spec fn edit_effect(
    text: Seq<char>,
    cursor: nat,
    yank: Seq<char>,
    req: EditRequest,
    gb: nat,
    ga: nat,
    wb: nat,
    wa: nat,
    text2: Seq<char>,
    cursor2: nat,
) -> bool {
    let at_start = cursor == 0;
    let at_end = cursor == text.len();
    match req {
        EditRequest::SetCursor(p) => {
            &&& text2 == text
            &&& cursor2 == if p <= text.len() { p as nat } else { text.len() }
        },
        EditRequest::InsertChar(c) => {
            &&& text2 == text.take(cursor as int).push(c) + text.skip(cursor as int)
            &&& cursor2 == cursor + 1
        },
        EditRequest::GoToPrevChar => text2 == text && if at_start {
            cursor2 == cursor
        } else {
            gb < cursor && cursor2 == gb
        },
        EditRequest::GoToNextChar => text2 == text && if at_end {
            cursor2 == cursor
        } else {
            cursor < ga <= text.len() && cursor2 == ga
        },
        EditRequest::GoToPrevWord => text2 == text && if at_start {
            cursor2 == cursor
        } else {
            wb < cursor && cursor2 == wb
        },
        EditRequest::GoToNextWord => text2 == text && if at_end {
            cursor2 == cursor
        } else {
            cursor < wa <= text.len() && cursor2 == wa
        },
        EditRequest::GoToStart => text2 == text && cursor2 == 0,
        EditRequest::GoToEnd => text2 == text && cursor2 == text.len(),
        EditRequest::DeletePrevChar => if at_start {
            text2 == text && cursor2 == cursor
        } else {
            &&& gb < cursor
            &&& text2 == text.take(gb as int) + text.skip(cursor as int)
            &&& cursor2 == gb
        },
        EditRequest::DeleteNextChar => if at_end {
            text2 == text && cursor2 == cursor
        } else {
            &&& cursor < ga <= text.len()
            &&& text2 == text.take(cursor as int) + text.skip(ga as int)
            &&& cursor2 == cursor
        },
        EditRequest::DeletePrevWord => if at_start {
            text2 == text && cursor2 == cursor
        } else {
            &&& wb < cursor
            &&& text2 == text.take(wb as int) + text.skip(cursor as int)
            &&& cursor2 == wb
        },
        EditRequest::DeleteNextWord => if at_end {
            text2 == text && cursor2 == cursor
        } else {
            &&& cursor < wa <= text.len()
            &&& text2 == text.take(cursor as int) + text.skip(wa as int)
            &&& cursor2 == cursor
        },
        EditRequest::DeleteLine => text2 == Seq::<char>::empty() && cursor2 == 0,
        EditRequest::DeleteTillEnd => text2 == text.take(cursor as int) && cursor2 == cursor,
        EditRequest::DeleteFromStart => text2 == text.skip(cursor as int) && cursor2 == 0,
        EditRequest::Yank => {
            &&& text2 == text.take(cursor as int) + yank + text.skip(cursor as int)
            &&& cursor2 == cursor + yank.len()
        },
    }
}

/// `new` is the input `old` after `req`.
pub open spec fn edit_outcome(old: Input, req: EditRequest, new: Input) -> bool {
    let text = input_text(old);
    let cursor = input_cursor(old);
    &&& input_cursor(new) <= input_text(new).len()
    &&& edit_effect(
        text,
        cursor,
        input_yank(old),
        req,
        grapheme_before(text, cursor),
        grapheme_after(text, cursor),
        word_before(text, cursor),
        word_after(text, cursor),
        input_text(new),
        input_cursor(new),
    )
}

/// Calls `Input::default` of `tui_input`: an empty input, cursor at 0,
/// empty kill buffer.
#[verifier::external_body]
pub(crate) fn new_input() -> (r: Input)
    ensures
        input_text(r) == Seq::<char>::empty(),
        input_cursor(r) == 0,
        input_yank(r) == Seq::<char>::empty(),
{
    Input::default()
}

/// Calls `Input::with_value` of `tui_input` on an empty input: the input
/// holds `value` with the cursor after its last character, and an empty
/// kill buffer.
#[verifier::external_body]
pub(crate) fn input_with_value(value: String) -> (r: Input)
    ensures
        input_text(r) == value@,
        input_cursor(r) == value@.len(),
        input_yank(r) == Seq::<char>::empty(),
{
    Input::default().with_value(value)
}

/// Calls `Input::value` of `tui_input`: the text it holds.
#[verifier::external_body]
pub(crate) fn input_value(i: &Input) -> (r: &str)
    ensures
        r@ == input_text(*i),
{
    i.value()
}

/// Calls `Input::handle` of `tui_input`. Trusted: the cursor never passes
/// the end of the text, and each request acts as `edit_effect` states, with
/// the grapheme boundaries (of `unicode-segmentation`) and word boundaries
/// around the cursor named as functions of the text and cursor. How the
/// cuts refill the kill buffer is left unsaid.
#[verifier::external_body]
pub(crate) fn input_handle(i: &mut Input, req: EditRequest)
    requires
        input_cursor(*old(i)) <= input_text(*old(i)).len(),
    ensures
        input_cursor(*final(i)) <= input_text(*final(i)).len(),
        edit_effect(
            input_text(*old(i)),
            input_cursor(*old(i)),
            input_yank(*old(i)),
            req,
            grapheme_before(input_text(*old(i)), input_cursor(*old(i))),
            grapheme_after(input_text(*old(i)), input_cursor(*old(i))),
            word_before(input_text(*old(i)), input_cursor(*old(i))),
            word_after(input_text(*old(i)), input_cursor(*old(i))),
            input_text(*final(i)),
            input_cursor(*final(i)),
        ),
{
    i.handle(match req {
        EditRequest::SetCursor(p) => InputRequest::SetCursor(p),
        EditRequest::InsertChar(c) => InputRequest::InsertChar(c),
        EditRequest::GoToPrevChar => InputRequest::GoToPrevChar, EditRequest::GoToNextChar => InputRequest::GoToNextChar,
        EditRequest::GoToPrevWord => InputRequest::GoToPrevWord, EditRequest::GoToNextWord => InputRequest::GoToNextWord,
        EditRequest::GoToStart => InputRequest::GoToStart, EditRequest::GoToEnd => InputRequest::GoToEnd,
        EditRequest::DeletePrevChar => InputRequest::DeletePrevChar,
        EditRequest::DeleteNextChar => InputRequest::DeleteNextChar,
        EditRequest::DeletePrevWord => InputRequest::DeletePrevWord,
        EditRequest::DeleteNextWord => InputRequest::DeleteNextWord,
        EditRequest::DeleteLine => InputRequest::DeleteLine, EditRequest::Yank => InputRequest::Yank,
        EditRequest::DeleteTillEnd => InputRequest::DeleteTillEnd,
        EditRequest::DeleteFromStart => InputRequest::DeleteFromStart,
    });
}

} // verus!

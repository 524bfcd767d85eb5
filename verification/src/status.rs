//! Status lines: the short coloured messages shown to the operator.

use crate::text::{occurs_in, text_of};
use colored::Colorize;
use vstd::prelude::*;

verus! {

/// What a status line is about, which decides its colour.
#[derive(Clone, Copy, Debug, PartialEq, Eq, Structural)]
pub enum Tone {
    /// Work that is about to start, or a question: blue.
    Info,
    /// Work that went well: green.
    Success,
    /// Something unusual that does not stop the program: yellow.
    Warning,
    /// Something that went wrong: red.
    Failure,
}

/// A message for the operator. `text` is shown in the colour of `tone`;
/// `detail`, where there is one, follows on a line of its own, uncoloured.
#[derive(Debug, PartialEq, Eq)]
pub struct StatusLine {
    pub tone: Tone,
    pub text: String,
    pub detail: Option<String>,
}

/// A status line as a mathematical value.
pub ghost struct StatusLineView {
    pub tone: Tone,
    pub text: Seq<char>,
    pub detail: Option<Seq<char>>,
}

impl View for StatusLine {
    type V = StatusLineView;

    open spec fn view(&self) -> StatusLineView {
        StatusLineView {
            tone: self.tone,
            text: self.text@,
            detail: text_of(self.detail),
        }
    }
}

impl Clone for StatusLine {
    fn clone(&self) -> (copy: StatusLine)
        ensures
            copy@ == self@,
    {
        StatusLine {
            tone: self.tone,
            text: self.text.clone(),
            detail: match &self.detail {
                Some(detail) => Some(detail.clone()),
                None => None,
            },
        }
    }
}

/// The character that starts a terminal control sequence.
pub open spec fn escape() -> char {
    '\u{1b}'
}

/// The two digits that select the foreground colour of a tone.
pub open spec fn colour_code(tone: Tone) -> Seq<char> {
    match tone {
        Tone::Info => seq!['3', '4'],
        Tone::Success => seq!['3', '2'],
        Tone::Warning => seq!['3', '3'],
        Tone::Failure => seq!['3', '1'],
    }
}

/// The control sequence that switches the foreground colour to `code`.
pub open spec fn colour_on(code: Seq<char>) -> Seq<char> {
    seq![escape(), '['] + code + seq!['m']
}

/// The control sequence that switches all colouring off.
pub open spec fn colour_off() -> Seq<char> {
    seq![escape(), '[', '0', 'm']
}

/// `text` wrapped in the control sequences for the colour `code`.
pub open spec fn coloured(text: Seq<char>, code: Seq<char>) -> Seq<char> {
    colour_on(code) + text + colour_off()
}

/// `painted` is what painting `text` in the colour `code` may give. Where
/// colours are switched off it is the text as it is. Where they are on it
/// is wrapped in the sequences for the colour; what is wrapped is the text
/// itself, unless the text holds the sequence that switches colouring off.
pub open spec fn is_painted(painted: Seq<char>, text: Seq<char>, code: Seq<char>) -> bool {
    ||| painted == text
    ||| exists|body: Seq<char>|
        painted == #[trigger] coloured(body, code) && (!occurs_in(colour_off(), text) ==> body
            == text)
}

/// What follows the coloured part of a rendered line.
pub open spec fn detail_tail(detail: Option<Seq<char>>) -> Seq<char> {
    match detail {
        Some(d) => seq!['\n'] + d,
        None => Seq::empty(),
    }
}

/// `shown` is what rendering `line` may give.
pub open spec fn is_rendering(shown: Seq<char>, line: StatusLineView) -> bool {
    exists|painted: Seq<char>|
        is_painted(painted, line.text, colour_code(line.tone)) && shown == painted + detail_tail(
            line.detail,
        )
}

/// The two forms that the rendering of a line can take, where its text
/// does not itself switch colouring off: without colours, or with the
/// text wrapped in the colour of its tone.
pub proof fn lemma_rendering_forms(shown: Seq<char>, line: StatusLineView)
    requires
        is_rendering(shown, line),
        !occurs_in(colour_off(), line.text),
    ensures
        shown == line.text + detail_tail(line.detail) || shown == coloured(
            line.text,
            colour_code(line.tone),
        ) + detail_tail(line.detail),
{
}

/// `colored::Colorize::blue`, formatted into a string. The crate decides
/// from the environment whether colours are on; where they are off the
/// text comes back unchanged, where they are on it is wrapped in the
/// sequences for blue. Inside a text that itself switches colouring off
/// the crate switches the colour on again, so of such a text only the
/// wrapping is claimed.
#[verifier::external_body]
fn paint_blue(text: &str) -> (painted: String)
    ensures
        is_painted(painted@, text@, colour_code(Tone::Info)),
{
    text.blue().to_string()
}

/// `colored::Colorize::green`, formatted into a string; as for blue.
#[verifier::external_body]
fn paint_green(text: &str) -> (painted: String)
    ensures
        is_painted(painted@, text@, colour_code(Tone::Success)),
{
    text.green().to_string()
}

/// `colored::Colorize::yellow`, formatted into a string; as for blue.
#[verifier::external_body]
fn paint_yellow(text: &str) -> (painted: String)
    ensures
        is_painted(painted@, text@, colour_code(Tone::Warning)),
{
    text.yellow().to_string()
}

/// `colored::Colorize::red`, formatted into a string; as for blue.
#[verifier::external_body]
fn paint_red(text: &str) -> (painted: String)
    ensures
        is_painted(painted@, text@, colour_code(Tone::Failure)),
{
    text.red().to_string()
}

impl StatusLine {
    /// A line of one coloured text.
    pub fn new(tone: Tone, text: String) -> (line: StatusLine)
        ensures
            line@ == (StatusLineView { tone, text: text@, detail: None }),
    {
        StatusLine { tone, text, detail: None }
    }

    /// A line with an uncoloured detail below the coloured text.
    pub fn with_detail(tone: Tone, text: String, detail: String) -> (line: StatusLine)
        ensures
            line@ == (StatusLineView { tone, text: text@, detail: Some(detail@) }),
    {
        StatusLine { tone, text, detail: Some(detail) }
    }

    /// The characters to print for this line, without the line break that
    /// ends it: the text in the colour of its tone, then the detail.
    pub fn render(&self) -> (shown: String)
        ensures
            is_rendering(shown@, self@),
    {
        let mut shown = match self.tone {
            Tone::Info => paint_blue(self.text.as_str()),
            Tone::Success => paint_green(self.text.as_str()),
            Tone::Warning => paint_yellow(self.text.as_str()),
            Tone::Failure => paint_red(self.text.as_str()),
        };
        let ghost painted = shown@;
        match &self.detail {
            Some(d) => {
                shown.append("\n");
                shown.append(d.as_str());
                proof {
                    reveal_strlit("\n");
                    assert(shown@ =~= painted + detail_tail(self@.detail));
                }
            },
            None => {
                assert(shown@ =~= painted + detail_tail(self@.detail));
            },
        }
        shown
    }
}

} // verus!

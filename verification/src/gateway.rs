//! The gateway itself: a destination, a verbosity level, and the operations
//! that put lines into the destination's text.

use vstd::prelude::*;
use console::Term;
use crate::render::{lemma_line_nonempty, line_text, placed_label, render_line};
use crate::style::{stderr_is_tty, Color};

verus! {

/// How much the gateway lets through.
#[derive(Clone, Copy, Debug, PartialEq, Eq, Structural)]
pub enum Verbosity {
    Verbose,
    Normal,
    Quiet,
}

/// The policy by which colour is switched on for the terminal.
#[derive(Clone, Copy, Debug, PartialEq, Eq, Structural)]
pub enum ColorChoice {
    Always,
    Never,
    CargoAuto,
}

/// Why an operation of the gateway was refused.
#[derive(Debug)]
pub enum ShellError {
    /// A colour choice that is none of the accepted words; holds the message.
    InvalidArgument(String),
}

/// Where the output goes. Either way the destination holds the text that was
/// put into it and that its owner has not yet taken out.
#[derive(Debug)]
pub enum ShellOut {
    /// A captured sink. It has no colour policy and its text is never styled.
    Write(String),
    /// The diagnostic terminal, its colour policy, and the text on its way
    /// to it.
    Stream(Term, ColorChoice, String),
}

/// The console output gateway.
#[derive(Debug)]
pub struct Shell {
    pub err: ShellOut,
    verbosity: Verbosity,
}

/// The view of an optional word.
pub open spec fn token(color: Option<&str>) -> Option<Seq<char>> {
    match color {
        Some(word) => Some(word@),
        None => None,
    }
}

/// The colour choice that a word stands for. No word at all stands for
/// automatic detection; a word outside the three accepted ones for nothing.
pub open spec fn parse_choice(word: Option<Seq<char>>) -> Option<ColorChoice> {
    match word {
        None => Some(ColorChoice::CargoAuto),
        Some(w) => if w == "always"@ {
            Some(ColorChoice::Always)
        } else if w == "never"@ {
            Some(ColorChoice::Never)
        } else if w == "auto"@ {
            Some(ColorChoice::CargoAuto)
        } else {
            None
        },
    }
}

/// The message for a word that is no colour choice: it names the accepted
/// words and repeats the offending one.
pub open spec fn invalid_color_message(word: Seq<char>) -> Seq<char> {
    "argument for --color must be auto, always, or never, but found `"@ + word + "`"@
}

/// Whether colour is switched on under `choice`, given whether the stream is
/// an interactive terminal.
pub open spec fn colors_wanted(choice: ColorChoice, interactive: bool) -> bool {
    match choice {
        ColorChoice::Always => true,
        ColorChoice::Never => false,
        ColorChoice::CargoAuto => interactive,
    }
}

/// Whether an action for verbose output runs at level `v`.
pub open spec fn verbose_runs(v: Verbosity) -> bool {
    v == Verbosity::Verbose
}

/// Whether an action for concise output runs at level `v`.
pub open spec fn concise_runs(v: Verbosity) -> bool {
    v != Verbosity::Verbose
}

/// Whether `after` is `before` with one line added to its text and nothing
/// else changed. In a captured sink the line is plain; on the terminal it is
/// styled or plain, as the process-wide colour switch stood.
pub open spec fn appended_line(
    before: ShellOut,
    after: ShellOut,
    label: Seq<char>,
    message: Seq<char>,
    color: Color,
    justified: bool,
) -> bool {
    &&& after.same_target(before)
    &&& match before {
        ShellOut::Write(_) => after.written() == before.written() + line_text(
            label,
            message,
            color,
            justified,
            false,
        ),
        ShellOut::Stream(_, _, _) => {
            ||| after.written() == before.written() + line_text(
                label,
                message,
                color,
                justified,
                true,
            )
            ||| after.written() == before.written() + line_text(
                label,
                message,
                color,
                justified,
                false,
            )
        },
    }
}

/// Whether `after` and `r` are what setting the colour policy of `before`
/// from `word` leaves. The level and the text stay. A word that is no colour
/// choice is refused with its message and nothing changes. An accepted one
/// succeeds: a terminal then has the policy that the word stands for, a
/// captured sink is unchanged.
pub open spec fn choice_applied(
    before: Shell,
    after: Shell,
    word: Option<Seq<char>>,
    r: Result<(), ShellError>,
) -> bool {
    &&& after.level() == before.level()
    &&& after.output() == before.output()
    &&& match parse_choice(word) {
        None => {
            &&& word is Some
            &&& r is Err
            &&& r->Err_0.text() == invalid_color_message(word->Some_0)
            &&& after == before
        },
        Some(choice) => {
            &&& r is Ok
            &&& before.sink() is Write ==> after == before
            &&& before.sink() is Stream ==> (after.sink() is Stream && after.sink().choice()
                == choice)
        },
    }
}

/// Whether two words are the same text.
fn same_word(a: &str, b: &str) -> (same: bool)
    ensures
        same == (a@ == b@),
{
    let x = a.to_owned();
    let y = b.to_owned();
    x == y
}

/// Reads a colour choice: `always`, `never`, `auto`, or no word at all, which
/// means `auto`. Any other word is refused with a message that names it.
pub fn parse_color_choice(color: Option<&str>) -> (r: Result<ColorChoice, ShellError>)
    ensures
        match parse_choice(token(color)) {
            Some(choice) => r == Ok::<ColorChoice, ShellError>(choice),
            None => color is Some && r is Err && r->Err_0.text() == invalid_color_message(
                color->Some_0@,
            ),
        },
{
    match color {
        None => Ok(ColorChoice::CargoAuto),
        Some(word) => {
            if same_word(word, "always") {
                Ok(ColorChoice::Always)
            } else if same_word(word, "never") {
                Ok(ColorChoice::Never)
            } else if same_word(word, "auto") {
                Ok(ColorChoice::CargoAuto)
            } else {
                let mut text = "argument for --color must be auto, always, or never, but found `".to_owned();
                text.append(word);
                text.append("`");
                Err(ShellError::InvalidArgument(text))
            }
        },
    }
}

/// Decides whether colour is switched on under `choice`, given the answer to
/// the question whether the stream is an interactive terminal.
pub fn resolve_colors(choice: ColorChoice, interactive: bool) -> (on: bool)
    ensures
        on == colors_wanted(choice, interactive),
{
    match choice {
        ColorChoice::Always => true,
        ColorChoice::Never => false,
        ColorChoice::CargoAuto => interactive,
    }
}

/// Sets the process-wide colour switch as `choice` asks. Only automatic
/// detection looks at the stream, once, at this moment.
fn set_colors(choice: &ColorChoice) {
    let on = match *choice {
        ColorChoice::CargoAuto => resolve_colors(ColorChoice::CargoAuto, stderr_is_tty()),
        fixed => resolve_colors(fixed, false),
    };
    console::set_colors_enabled(on);
}

impl ShellError {
    /// The message of the error.
    pub open spec fn text(&self) -> Seq<char> {
        match self {
            ShellError::InvalidArgument(text) => text@,
        }
    }

    /// The message of the error.
    pub fn message(&self) -> (s: String)
        ensures
            s@ == self.text(),
    {
        match self {
            ShellError::InvalidArgument(text) => text.clone(),
        }
    }
}

impl ShellOut {
    /// The text put into the destination and not yet taken out.
    pub open spec fn written(&self) -> Seq<char> {
        match self {
            ShellOut::Write(text) => text@,
            ShellOut::Stream(_, _, text) => text@,
        }
    }

    /// The colour policy of the destination. A captured sink has none, which
    /// counts as `Never`.
    pub open spec fn choice(&self) -> ColorChoice {
        match self {
            ShellOut::Write(_) => ColorChoice::Never,
            ShellOut::Stream(_, choice, _) => *choice,
        }
    }

    /// Whether the two are the same destination, whatever text they hold.
    pub open spec fn same_target(&self, other: ShellOut) -> bool {
        match (*self, other) {
            (ShellOut::Write(_), ShellOut::Write(_)) => true,
            (ShellOut::Stream(t1, c1, _), ShellOut::Stream(t2, c2, _)) => t1 == t2 && c1 == c2,
            _ => false,
        }
    }

    /// Puts one line into the destination: styled as the colour switch
    /// stands on the terminal, plain in a captured sink. The text is kept in
    /// memory, so this always succeeds.
    fn print(&mut self, status: &str, message: &str, color: Color, justified: bool) -> (r: Result<
        (),
        ShellError,
    >)
        ensures
            r is Ok,
            appended_line(*old(self), *final(self), status@, message@, color, justified),
    {
        match self {
            ShellOut::Stream(_, _, text) => {
                let enabled = console::colors_enabled();
                let line = render_line(status, message, color, justified, enabled);
                text.append(line.as_str());
            },
            ShellOut::Write(text) => {
                let line = render_line(status, message, color, justified, false);
                text.append(line.as_str());
            },
        }
        Ok(())
    }

    /// The text of the destination, to write into without any layout.
    fn as_write(&mut self) -> (w: &mut String)
        ensures
            w@ == old(self).written(),
            final(self).written() == final(w)@,
            final(self).same_target(*old(self)),
    {
        match self {
            ShellOut::Stream(_, _, text) => text,
            ShellOut::Write(text) => text,
        }
    }
}

impl Shell {
    /// The verbosity level.
    pub closed spec fn level(&self) -> Verbosity {
        self.verbosity
    }

    /// The destination.
    pub closed spec fn sink(&self) -> ShellOut {
        self.err
    }

    /// The text put into the destination and not yet taken out.
    pub open spec fn output(&self) -> Seq<char> {
        self.sink().written()
    }

    /// Whether `self` is `before` after one more line: the level is kept and
    /// the destination holds the line after what it held.
    pub open spec fn wrote_line(
        &self,
        before: Shell,
        label: Seq<char>,
        message: Seq<char>,
        color: Color,
        justified: bool,
    ) -> bool {
        &&& self.level() == before.level()
        &&& appended_line(before.sink(), self.sink(), label, message, color, justified)
    }

    /// A gateway to the diagnostic terminal, with automatic colour detection
    /// and verbose output. The detection is made here, once, and the
    /// process-wide colour switch set by it.
    pub fn new() -> (shell: Shell)
        ensures
            shell.sink() is Stream,
            shell.sink().choice() == ColorChoice::CargoAuto,
            shell.output() == Seq::<char>::empty(),
            shell.level() == Verbosity::Verbose,
    {
        set_colors(&ColorChoice::CargoAuto);

        Shell {
            err: ShellOut::Stream(Term::stderr(), ColorChoice::CargoAuto, String::new()),
            verbosity: Verbosity::Verbose,
        }
    }

    /// A gateway to the captured sink `out`, with verbose output and no
    /// colour. The colour switch of the process is left alone.
    pub fn from_write(out: String) -> (shell: Shell)
        ensures
            shell.sink() == ShellOut::Write(out),
            shell.level() == Verbosity::Verbose,
    {
        Shell { err: ShellOut::Write(out), verbosity: Verbosity::Verbose }
    }

    /// Puts one line into the destination unless the level is `Quiet`.
    fn print(&mut self, status: &str, message: &str, color: Color, justified: bool) -> (r: Result<
        (),
        ShellError,
    >)
        ensures
            r is Ok,
            old(self).level() == Verbosity::Quiet ==> *final(self) == *old(self),
            old(self).level() != Verbosity::Quiet ==> final(self).wrote_line(
                *old(self),
                status@,
                message@,
                color,
                justified,
            ),
    {
        match self.verbosity {
            Verbosity::Quiet => Ok(()),
            _ => self.err.print(status, message, color, justified),
        }
    }

    /// The text of the destination, for output that takes no layout and
    /// passes no gate.
    pub fn err(&mut self) -> (w: &mut String)
        ensures
            w@ == old(self).output(),
            final(self).output() == final(w)@,
            final(self).sink().same_target(old(self).sink()),
            final(self).level() == old(self).level(),
    {
        self.err.as_write()
    }

    /// Puts a status line: the label right-justified to twelve columns, in
    /// bold green on the terminal, then the message. Nothing at `Quiet`.
    /// Always succeeds.
    pub fn status(&mut self, status: &str, message: &str) -> (r: Result<(), ShellError>)
        ensures
            r is Ok,
            old(self).level() == Verbosity::Quiet ==> *final(self) == *old(self),
            old(self).level() != Verbosity::Quiet ==> final(self).wrote_line(
                *old(self),
                status@,
                message@,
                Color::Green,
                true,
            ),
    {
        self.print(status, message, Color::Green, true)
    }

    /// Puts a status line as `status` does, with a label in bold `color`.
    pub fn status_with_color(&mut self, status: &str, message: &str, color: Color) -> (r: Result<
        (),
        ShellError,
    >)
        ensures
            r is Ok,
            old(self).level() == Verbosity::Quiet ==> *final(self) == *old(self),
            old(self).level() != Verbosity::Quiet ==> final(self).wrote_line(
                *old(self),
                status@,
                message@,
                color,
                true,
            ),
    {
        self.print(status, message, color, true)
    }

    /// Runs `callback` on the gateway if the level is `Verbose`, and does
    /// nothing otherwise.
    pub fn verbose<F>(&mut self, mut callback: F) -> (r: Result<(), ShellError>) where
        F: FnMut(&mut Shell) -> Result<(), ShellError>,

        requires
            verbose_runs(old(self).level()) ==> forall|s: &mut Shell|
                *s == *old(self) ==> #[trigger] call_requires(callback, (s,)),
        ensures
            !verbose_runs(old(self).level()) ==> r is Ok && *final(self) == *old(self),
            verbose_runs(old(self).level()) ==> exists|s: &mut Shell|
                *s == *old(self) && *final(s) == *final(self) && #[trigger] call_ensures(
                    callback,
                    (s,),
                    r,
                ),
    {
        match self.verbosity {
            Verbosity::Verbose => callback(self),
            _ => Ok(()),
        }
    }

    /// Runs `callback` on the gateway unless the level is `Verbose`, and does
    /// nothing if it is.
    pub fn concise<F>(&mut self, mut callback: F) -> (r: Result<(), ShellError>) where
        F: FnMut(&mut Shell) -> Result<(), ShellError>,

        requires
            concise_runs(old(self).level()) ==> forall|s: &mut Shell|
                *s == *old(self) ==> #[trigger] call_requires(callback, (s,)),
        ensures
            !concise_runs(old(self).level()) ==> r is Ok && *final(self) == *old(self),
            concise_runs(old(self).level()) ==> exists|s: &mut Shell|
                *s == *old(self) && *final(s) == *final(self) && #[trigger] call_ensures(
                    callback,
                    (s,),
                    r,
                ),
    {
        match self.verbosity {
            Verbosity::Verbose => Ok(()),
            _ => callback(self),
        }
    }

    /// Puts an error line: the label `error:` as it is, in bold red on the
    /// terminal, then the message. No level holds it back, so the text of the
    /// destination always grows.
    pub fn error(&mut self, message: &str) -> (r: Result<(), ShellError>)
        ensures
            r is Ok,
            final(self).wrote_line(*old(self), "error:"@, message@, Color::Red, false),
            final(self).output().len() >= old(self).output().len() + message@.len() + 2,
    {
        proof {
            lemma_line_nonempty("error:"@, message@, Color::Red, false, true);
            lemma_line_nonempty("error:"@, message@, Color::Red, false, false);
        }
        self.err.print("error:", message, Color::Red, false)
    }

    /// Puts a warning line: the label `warning:` as it is, in bold yellow on
    /// the terminal, then the message. Nothing at `Quiet`.
    pub fn warn(&mut self, message: &str) -> (r: Result<(), ShellError>)
        ensures
            r is Ok,
            old(self).level() == Verbosity::Quiet ==> *final(self) == *old(self),
            old(self).level() != Verbosity::Quiet ==> final(self).wrote_line(
                *old(self),
                "warning:"@,
                message@,
                Color::Yellow,
                false,
            ),
    {
        match self.verbosity {
            Verbosity::Quiet => Ok(()),
            _ => self.print("warning:", message, Color::Yellow, false),
        }
    }

    /// Sets the verbosity level.
    pub fn set_verbosity(&mut self, verbosity: Verbosity)
        ensures
            final(self).level() == verbosity,
            final(self).sink() == old(self).sink(),
    {
        self.verbosity = verbosity;
    }

    /// The verbosity level.
    pub fn verbosity(&self) -> (v: Verbosity)
        ensures
            v == self.level(),
    {
        self.verbosity
    }

    /// Sets the colour policy from a word. A word that is no colour choice is
    /// refused and nothing changes. An accepted one takes effect on the
    /// terminal only: the policy is stored, the process-wide colour switch is
    /// set by it, and the handle is replaced by a fresh one. A captured sink
    /// stays as it is.
    pub fn set_color_choice(&mut self, color: Option<&str>) -> (r: Result<(), ShellError>)
        ensures
            choice_applied(*old(self), *final(self), token(color), r),
    {
        let cfg = match parse_color_choice(color) {
            Ok(choice) => choice,
            Err(e) => {
                return Err(e);
            },
        };
        match &mut self.err {
            ShellOut::Stream(term, cc, _) => {
                *cc = cfg;
                set_colors(&cfg);
                *term = Term::stderr();
            },
            ShellOut::Write(_) => {},
        }
        Ok(())
    }

    /// The colour policy of the terminal; `Never` for a captured sink.
    pub fn color_choice(&self) -> (choice: ColorChoice)
        ensures
            choice == self.sink().choice(),
    {
        match self.err {
            ShellOut::Stream(_, cc, _) => cc,
            ShellOut::Write(_) => ColorChoice::Never,
        }
    }
}

/// Of the two gated actions exactly one runs at each level: the verbose one
/// at `Verbose`, the concise one at `Normal` and at `Quiet`.
pub proof fn lemma_verbose_concise_partition(v: Verbosity)
    ensures
        verbose_runs(v) != concise_runs(v),
        verbose_runs(v) <==> v == Verbosity::Verbose,
        concise_runs(v) <==> (v == Verbosity::Normal || v == Verbosity::Quiet),
{
}

/// The three accepted words are three different texts.
pub proof fn lemma_words_differ()
    ensures
        "always"@ != "never"@,
        "always"@ != "auto"@,
        "never"@ != "auto"@,
{
    reveal_strlit("auto");
    reveal_strlit("always");
    reveal_strlit("never");
    assert("auto"@.len() == 4);
    assert("always"@.len() == 6);
    assert("never"@.len() == 5);
}

/// Setting the policy from no word at all is setting it from the word
/// `auto`: every outcome of the one is an outcome of the other.
pub proof fn lemma_absent_word_is_auto(before: Shell, after: Shell, r: Result<(), ShellError>)
    ensures
        parse_choice(None) == parse_choice(Some("auto"@)),
        choice_applied(before, after, None, r) <==> choice_applied(
            before,
            after,
            Some("auto"@),
            r,
        ),
{
    lemma_words_differ();
}

/// A word outside the three accepted ones is refused, and the gateway, its
/// colour policy included, is as it was.
pub proof fn lemma_refused_word_changes_nothing(
    before: Shell,
    after: Shell,
    word: Seq<char>,
    r: Result<(), ShellError>,
)
    requires
        word != "always"@,
        word != "never"@,
        word != "auto"@,
        choice_applied(before, after, Some(word), r),
    ensures
        r is Err,
        r->Err_0.text() == invalid_color_message(word),
        after == before,
        after.sink().choice() == before.sink().choice(),
{
}

/// On a terminal the policy that was set is the policy that is read back:
/// `Always` for `always`, `Never` for `never`, `CargoAuto` for `auto`.
pub proof fn lemma_choice_round_trip(before: Shell, after: Shell, r: Result<(), ShellError>)
    requires
        before.sink() is Stream,
    ensures
        choice_applied(before, after, Some("always"@), r) ==> r is Ok && after.sink().choice()
            == ColorChoice::Always,
        choice_applied(before, after, Some("never"@), r) ==> r is Ok && after.sink().choice()
            == ColorChoice::Never,
        choice_applied(before, after, Some("auto"@), r) ==> r is Ok && after.sink().choice()
            == ColorChoice::CargoAuto,
{
    lemma_words_differ();
}

/// The policy of a captured sink reads `Never` before and after any setting
/// of it, whatever the word.
pub proof fn lemma_captured_choice_is_never(
    before: Shell,
    after: Shell,
    word: Option<Seq<char>>,
    r: Result<(), ShellError>,
)
    requires
        before.sink() is Write,
        choice_applied(before, after, word, r),
    ensures
        before.sink().choice() == ColorChoice::Never,
        after.sink().choice() == ColorChoice::Never,
        after == before,
{
}

/// A captured sink has no colour policy: whatever policy a terminal is set
/// to, the policy of a sink reads `Never`, and its lines are plain.
pub proof fn lemma_captured_never_colored(
    before: ShellOut,
    after: ShellOut,
    label: Seq<char>,
    message: Seq<char>,
    color: Color,
    justified: bool,
)
    requires
        before is Write,
        appended_line(before, after, label, message, color, justified),
    ensures
        before.choice() == ColorChoice::Never,
        after.choice() == ColorChoice::Never,
        after.written() == before.written() + placed_label(label, justified)
            + seq![' '] + message + seq!['\n'],
{
    assert(after.written() =~= before.written() + placed_label(label, justified)
        + seq![' '] + message + seq!['\n']);
}

} // verus!

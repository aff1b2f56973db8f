//! The input line and its history.

use crate::popup::shortened;
use crate::text::{same_text, texts};
use vstd::prelude::*;
use vstd::string::*;

verus! {

/// The line being typed, and the lines sent before.
pub struct LineEditor {
    pub input: String,
    pub history: Vec<String>,
    /// `None` while typing new input, otherwise the history line shown.
    pub index: Option<usize>,
    /// Keeps the input in progress while the history is browsed.
    pub draft: String,
}

/// What an input line holds.
#[verifier::ext_equal]
pub ghost struct LineModel {
    pub input: Seq<char>,
    pub history: Seq<Seq<char>>,
    pub index: Option<int>,
    pub draft: Seq<char>,
}

/// Nothing typed, nothing remembered.
pub open spec fn blank_line() -> LineModel {
    LineModel { input: seq![], history: seq![], index: None, draft: seq![] }
}

/// Whether the line shown is one that there is.
pub open spec fn line_wf(l: LineModel) -> bool {
    l.index is Some ==> 0 <= l.index->0 < l.history.len()
}

/// What was typed goes into the history, unless it is empty or was just there.
pub open spec fn remembered(history: Seq<Seq<char>>, line: Seq<char>) -> Seq<Seq<char>> {
    if line.len() == 0 || (history.len() > 0 && history.last() == line) {
        history
    } else {
        history.push(line)
    }
}

/// The line was sent.
pub open spec fn submitted(l: LineModel) -> LineModel {
    LineModel { input: seq![], history: remembered(l.history, l.input), index: None, ..l }
}

/// One step back in the history. What was being typed is kept as a draft.
pub open spec fn browsed_up(l: LineModel) -> LineModel {
    if l.history.len() == 0 {
        l
    } else {
        match l.index {
            None => LineModel {
                draft: l.input,
                index: Some(l.history.len() - 1),
                input: l.history.last(),
                ..l
            },
            Some(i) => if i > 0 {
                LineModel { index: Some(i - 1), input: l.history[i - 1], ..l }
            } else {
                l
            },
        }
    }
}

/// One step forward in the history, and from its end to the draft.
pub open spec fn browsed_down(l: LineModel) -> LineModel {
    match l.index {
        Some(i) => if i + 1 < l.history.len() {
            LineModel { index: Some(i + 1), input: l.history[i + 1], ..l }
        } else {
            LineModel { index: None, input: l.draft, draft: seq![], ..l }
        },
        None => l,
    }
}

impl LineEditor {
    /// What it holds.
    pub open spec fn view(&self) -> LineModel {
        LineModel {
            input: self.input@,
            history: texts(self.history@),
            index: match self.index {
                Some(i) => Some(i as int),
                None => None,
            },
            draft: self.draft@,
        }
    }

    pub fn new() -> (line: Self)
        ensures
            line@ == blank_line(),
    {
        LineEditor {
            input: String::new(),
            history: Vec::new(),
            index: None,
            draft: String::new(),
        }
    }

    /// Empties the input line.
    pub fn clear(&mut self)
        ensures
            final(self)@ == (LineModel { input: seq![], ..old(self)@ }),
    {
        self.input = String::new();
    }

    /// Typing breaks out of browsing.
    pub fn type_char(&mut self, c: char)
        ensures
            final(self)@ == (LineModel { input: old(self)@.input.push(c), index: None, ..old(self)@ }),
    {
        self.input.push(c);
        self.index = None;
    }

    pub fn type_text(&mut self, text: &str)
        ensures
            final(self)@ == (LineModel { input: old(self)@.input + text@, index: None, ..old(self)@ }),
    {
        self.input.append(text);
        self.index = None;
    }

    pub fn backspace(&mut self)
        ensures
            final(self)@ == (LineModel {
                input: shortened(old(self)@.input),
                index: None,
                ..old(self)@
            }),
    {
        self.input.pop();
        self.index = None;
    }

    /// Takes the line off and remembers it, unless it is empty or was just there.
    pub fn submit(&mut self)
        ensures
            final(self)@ == submitted(old(self)@),
    {
        let n: usize = self.history.len();
        let ghost lines = self.history@;
        let mut line = String::new();
        std::mem::swap(&mut line, &mut self.input);
        self.index = None;
        assert(n > 0 ==> texts(lines).last() == lines[n - 1]@);
        if line.as_str().is_empty() {
            return;
        }
        if n > 0 && same_text(&self.history[n - 1], &line) {
            return;
        }
        self.history.push(line);
        assert(texts(self.history@) =~= texts(lines).push(line@));
    }

    /// One step back in the history.
    pub fn up(&mut self)
        requires
            line_wf(old(self)@),
        ensures
            final(self)@ == browsed_up(old(self)@),
    {
        let n: usize = self.history.len();
        if n == 0 {
            return;
        }
        match self.index {
            None => {
                // Keep the current input and show the last history line.
                self.draft = self.input.clone();
                self.index = Some(n - 1);
                self.input = self.history[n - 1].clone();
            },
            Some(i) => {
                if i > 0 {
                    self.index = Some(i - 1);
                    self.input = self.history[i - 1].clone();
                }
            },
        }
    }

    /// One step forward in the history.
    pub fn down(&mut self)
        requires
            line_wf(old(self)@),
        ensures
            final(self)@ == browsed_down(old(self)@),
    {
        let n: usize = self.history.len();
        match self.index {
            Some(i) => {
                if i + 1 < n {
                    self.index = Some(i + 1);
                    self.input = self.history[i + 1].clone();
                } else {
                    // Past the end: restore the draft.
                    self.index = None;
                    self.input = self.draft.clone();
                    self.draft = String::new();
                }
            },
            None => {},
        }
    }
}

/// Going back `steps` times.
pub open spec fn browsed_up_by(l: LineModel, steps: nat) -> LineModel
    decreases steps,
{
    if steps == 0 {
        l
    } else {
        browsed_up(browsed_up_by(l, (steps - 1) as nat))
    }
}

/// Going forward `steps` times.
pub open spec fn browsed_down_by(l: LineModel, steps: nat) -> LineModel
    decreases steps,
{
    if steps == 0 {
        l
    } else {
        browsed_down_by(browsed_down(l), (steps - 1) as nat)
    }
}

/// Going back in the history and forward again as often leads back to the line that
/// was being typed.
pub proof fn browsing_returns_to_the_draft(l: LineModel, steps: nat)
    requires
        l.index is None,
        l.draft == Seq::<char>::empty(),
        0 < steps <= l.history.len(),
    ensures
        browsed_down_by(browsed_up_by(l, steps), steps) == l,
        browsed_up_by(l, steps).input == l.history[l.history.len() - steps],
{
    lemma_browsed_up(l, steps);
    lemma_browsed_down(browsed_up_by(l, steps), steps);
    assert(browsed_down_by(browsed_up_by(l, steps), steps) =~= l);
}

proof fn lemma_browsed_up(l: LineModel, steps: nat)
    requires
        l.index is None,
        0 < steps <= l.history.len(),
    ensures
        browsed_up_by(l, steps) == (LineModel {
            draft: l.input,
            index: Some(l.history.len() - steps),
            input: l.history[l.history.len() - steps],
            ..l
        }),
    decreases steps,
{
    reveal_with_fuel(browsed_up_by, 2);
    if steps > 1 {
        lemma_browsed_up(l, (steps - 1) as nat);
    }
}

proof fn lemma_browsed_down(l: LineModel, steps: nat)
    requires
        l.index == Some(l.history.len() - steps),
        0 < steps <= l.history.len(),
    ensures
        browsed_down_by(l, steps) == (LineModel {
            index: None,
            input: l.draft,
            draft: seq![],
            ..l
        }),
    decreases steps,
{
    reveal_with_fuel(browsed_down_by, 2);
    if steps > 1 {
        lemma_browsed_down(browsed_down(l), (steps - 1) as nat);
    }
}

/// The history never holds a line twice in a row, nor an empty one.
pub proof fn history_has_no_repeats(history: Seq<Seq<char>>, line: Seq<char>)
    requires
        forall|i: int| 0 <= i < history.len() ==> (#[trigger] history[i]).len() > 0,
        forall|i: int|
            0 < i < history.len() ==> #[trigger] history[i] != history[i - 1],
    ensures
        forall|i: int|
            0 <= i < remembered(history, line).len() ==> (#[trigger] remembered(
                history,
                line,
            )[i]).len() > 0,
        forall|i: int|
            0 < i < remembered(history, line).len() ==> #[trigger] remembered(history, line)[i]
                != remembered(history, line)[i - 1],
{
}

} // verus!

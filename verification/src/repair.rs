//! The repair channel: how a replacement source is read, line by line,
//! from someone who types it at a prompt.
//!
//! Lines are taken in until a blank line follows some content. What the
//! prompt itself put on a line is dropped, and the text is handed back
//! without white space around it.

use crate::task::{Task, TaskView};
use crate::text::{
    has_at, is_blank, push_range, same_chars, skip_pattern, skip_repeats, starts_at, to_chars,
    trim, trim_chars, trimmed,
};
use crate::workspace::texts;
use vstd::prelude::*;
use vstd::string::StringExecFns;

verus! {

/// Whether a line, already trimmed, holds nothing but what the prompt
/// printed: the bare marker, or the invitation to type.
pub open spec fn is_decoration(line: Seq<char>) -> bool {
    line == ">"@ || has_at(line, 0, "Enter fixed code"@)
}

/// A trimmed line without the prompt markers it begins with: first every
/// leading marker that a space follows, then every bare one.
pub open spec fn unmarked(line: Seq<char>) -> Seq<char> {
    let spaced = skip_repeats(line, 0, "> "@);
    let bare = skip_repeats(line, spaced, ">"@);
    line.skip(bare)
}

/// Whether `line` ends the collection when `text` has been gathered: the
/// line is blank, and the text is not.
pub open spec fn closes(text: Seq<char>, line: Seq<char>) -> bool {
    trimmed(line).len() == 0 && trimmed(text).len() > 0
}

/// The text gathered once `line` is taken in: a line with content, other
/// than decoration, is added without its markers and ended by a newline;
/// any other line leaves the text as it is.
pub open spec fn absorbed(text: Seq<char>, line: Seq<char>) -> Seq<char> {
    let content = trimmed(line);
    if content.len() > 0 && !is_decoration(content) {
        text + unmarked(content) + "\n"@
    } else {
        text
    }
}

/// What comes of reading `lines` from position `i` on with `text` in hand:
/// the trimmed text at the first line that closes, or nothing if the lines
/// run out before one does.
pub open spec fn collected(text: Seq<char>, lines: Seq<Seq<char>>, i: int) -> Option<Seq<char>>
    decreases lines.len() - i,
{
    if i < 0 || i >= lines.len() {
        None
    } else if closes(text, lines[i]) {
        Some(trimmed(text))
    } else {
        collected(absorbed(text, lines[i]), lines, i + 1)
    }
}

/// What is shown before a fix is read: the task, the source that failed
/// and the failure.
pub open spec fn prompt_text(task: TaskView, source: Seq<char>, error: Seq<char>) -> Seq<char> {
    "Task: "@ + task.goal + " in "@ + task.language + "\nOriginal code:\n"@ + source + "\nError: "@
        + error
        + "\nEnter fixed code below (press Enter twice on a blank line to submit):\n"@
}

/// Why no fix was obtained.
#[derive(Clone, Copy, Debug, PartialEq, Eq, Structural)]
pub enum RepairError {
    /// The input ended before a blank line closed the text.
    InputClosed,
}

impl RepairError {
    pub fn message(&self) -> (text: String)
        ensures
            text@ == "Input closed before the fix was complete"@,
    {
        String::from_str("Input closed before the fix was complete")
    }
}

/// The text gathered so far while a fix is typed in.
#[derive(Debug)]
pub struct FixCollector {
    pub text: String,
}

impl View for FixCollector {
    type V = Seq<char>;

    open spec fn view(&self) -> Seq<char> {
        self.text@
    }
}

impl FixCollector {
    /// A collector that has gathered nothing.
    pub fn new() -> (collector: FixCollector)
        ensures
            collector@ == Seq::<char>::empty(),
    {
        FixCollector { text: String::new() }
    }

    /// Takes in one line. Returns whether the line closed the collection;
    /// the gathered text is then left as it was.
    pub fn feed(&mut self, line: &str) -> (done: bool)
        ensures
            done == closes(old(self)@, line@),
            final(self)@ == if done {
                old(self)@
            } else {
                absorbed(old(self)@, line@)
            },
    {
        let raw = to_chars(line);
        let content = trim_chars(&raw);
        if content.len() == 0 {
            let gathered = to_chars(self.text.as_str());
            return !is_blank(&gathered);
        }
        let marker = to_chars(">");
        let banner = to_chars("Enter fixed code");
        if same_chars(&content, &marker) || starts_at(&content, 0, &banner) {
            return false;
        }
        let spaced_marker = to_chars("> ");
        let spaced = skip_pattern(&content, 0, &spaced_marker);
        let bare = skip_pattern(&content, spaced, &marker);
        push_range(&mut self.text, &content, bare, content.len());
        self.text.append("\n");
        false
    }

    /// The fix: the gathered text without white space around it.
    pub fn finish(self) -> (fix: String)
        ensures
            fix@ == trimmed(self@),
    {
        trim(self.text.as_str())
    }
}

/// Reads a fix from `lines`, which are all the input there is. The fix is
/// the text gathered up to the first closing line; input that runs out
/// before any line closes gives no fix.
pub fn collect_fix(lines: &Vec<String>) -> (r: Result<String, RepairError>)
    ensures
        match collected(Seq::empty(), texts(lines@), 0) {
            Some(fix) => r is Ok && r->Ok_0@ == fix,
            None => r == Err::<String, RepairError>(RepairError::InputClosed),
        },
{
    let mut collector = FixCollector::new();
    let mut i: usize = 0;
    while i < lines.len()
        invariant
            i <= lines.len(),
            collected(Seq::empty(), texts(lines@), 0) == collected(
                collector@,
                texts(lines@),
                i as int,
            ),
        decreases lines.len() - i,
    {
        assert(texts(lines@)[i as int] == lines@[i as int]@);
        if collector.feed(lines[i].as_str()) {
            return Ok(collector.finish());
        }
        i = i + 1;
    }
    Err(RepairError::InputClosed)
}

/// What is shown before a fix for `task` is read.
pub fn prompt_for_fix(task: &Task, old_code: &str, error: &str) -> (prompt: String)
    ensures
        prompt@ == prompt_text(task@, old_code@, error@),
{
    let mut prompt = String::from_str("Task: ");
    prompt.append(task.goal.as_str());
    prompt.append(" in ");
    prompt.append(task.language.as_str());
    prompt.append("\nOriginal code:\n");
    prompt.append(old_code);
    prompt.append("\nError: ");
    prompt.append(error);
    prompt.append("\nEnter fixed code below (press Enter twice on a blank line to submit):\n");
    prompt
}

/// Blank lines alone never close a collection that has gathered no
/// content: however many of them come, no fix results.
pub proof fn lemma_blank_lines_never_close(text: Seq<char>, lines: Seq<Seq<char>>, i: int)
    requires
        trimmed(text).len() == 0,
        forall|k: int| i <= k < lines.len() ==> trimmed(#[trigger] lines[k]).len() == 0,
    ensures
        collected(text, lines, i) is None,
    decreases lines.len() - i,
{
    if 0 <= i < lines.len() {
        assert(trimmed(lines[i]).len() == 0);
        assert(absorbed(text, lines[i]) == text);
        lemma_blank_lines_never_close(text, lines, i + 1);
    }
}

/// Once content has been gathered, the next blank line closes the
/// collection, and the fix is that content, trimmed.
pub proof fn lemma_blank_line_after_content_closes(
    text: Seq<char>,
    lines: Seq<Seq<char>>,
    i: int,
)
    requires
        0 <= i < lines.len(),
        trimmed(text).len() > 0,
        trimmed(lines[i]).len() == 0,
    ensures
        collected(text, lines, i) == Some(trimmed(text)),
{
}

/// A fix is never blank, and it is only had where one of the lines read
/// is blank: the one that closed the collection.
pub proof fn lemma_fix_has_content(text: Seq<char>, lines: Seq<Seq<char>>, i: int)
    requires
        collected(text, lines, i) is Some,
    ensures
        collected(text, lines, i)->Some_0.len() > 0,
        exists|k: int| i <= k < lines.len() && trimmed(#[trigger] lines[k]).len() == 0,
    decreases lines.len() - i,
{
    if 0 <= i < lines.len() {
        if closes(text, lines[i]) {
            assert(trimmed(lines[i]).len() == 0);
        } else {
            lemma_fix_has_content(absorbed(text, lines[i]), lines, i + 1);
        }
    }
}

} // verus!

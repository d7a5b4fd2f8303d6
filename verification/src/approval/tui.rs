//! The decisions of the approval prompt: scrolling and the reading of the
//! operator's answer. Drawing and reading keys are left to the caller.

use crate::text::{
    concat, contains_seq, count_lines, decimal_chars, decimal_of_nat, line_count, lowercase,
    lowercase_of, same_text, str_contains, string_from_chars, trim_blanks, trim_seq,
};
use vstd::prelude::*;

verus! {

/// How many lines of the card are shown at a time.
pub const VIEW_LINES: u16 = 10;

/// How many lines a page key scrolls.
pub const PAGE_LINES: u16 = 5;

/// The operator's decision.
#[derive(Debug, Clone, Copy, PartialEq, Eq, Structural)]
pub enum TuiResult {
    /// The action is approved.
    Approved,
    /// The action is rejected.
    Rejected,
}

/// Where the prompt stands.
#[derive(Debug, Clone, Copy, PartialEq, Eq, Structural)]
pub enum TuiState {
    /// The card is shown and the prompt waits for the decision.
    AwaitingDecision,
    Approved,
    Rejected,
}

/// The keys that the prompt reads.
#[derive(Debug, Clone, Copy, PartialEq, Eq, Structural)]
pub enum TuiKey {
    Char(char),
    Esc,
    Up,
    Down,
    PageUp,
    PageDown,
    Home,
    End,
    Other,
}

/// The state of the prompt.
#[derive(Debug, Clone, Copy, PartialEq, Eq, Structural)]
pub struct TuiContext {
    /// Lines of the card.
    pub line_count: u16,
    pub state: TuiState,
    /// The first line shown.
    pub scroll_offset: u16,
}

/// The number of lines of a card as the prompt counts them: the 16 low
/// bits of the number of lines.
pub open spec fn card_lines(text: Seq<char>) -> u16 {
    (line_count(text) % 65536) as u16
}

/// The first line shown after one step up.
pub open spec fn scrolled_up(offset: u16) -> u16 {
    if offset > 0 {
        (offset - 1) as u16
    } else {
        0
    }
}

/// The first line shown after one step down: the view moves while lines
/// are left below it.
pub open spec fn scrolled_down(offset: u16, lines: u16) -> u16 {
    if offset + VIEW_LINES < lines {
        (offset + 1) as u16
    } else {
        offset
    }
}

/// The first line shown after `steps` steps up.
pub open spec fn scrolled_up_by(offset: u16, steps: nat) -> u16
    decreases steps,
{
    if steps == 0 {
        offset
    } else {
        scrolled_up_by(scrolled_up(offset), (steps - 1) as nat)
    }
}

/// The first line shown after `steps` steps down.
pub open spec fn scrolled_down_by(offset: u16, lines: u16, steps: nat) -> u16
    decreases steps,
{
    if steps == 0 {
        offset
    } else {
        scrolled_down_by(scrolled_down(offset, lines), lines, (steps - 1) as nat)
    }
}

/// The decision that a key stands for, if it stands for one.
pub open spec fn decision_of(key: TuiKey) -> Option<TuiResult> {
    match key {
        TuiKey::Char(c) => if c == 'y' || c == 'Y' {
            Some(TuiResult::Approved)
        } else if c == 'n' || c == 'N' {
            Some(TuiResult::Rejected)
        } else {
            None
        },
        TuiKey::Esc => Some(TuiResult::Rejected),
        _ => None,
    }
}

impl TuiContext {
    /// The prompt after a key was read.
    pub open spec fn after_key(self, key: TuiKey) -> TuiContext {
        match decision_of(key) {
            Some(TuiResult::Approved) => TuiContext { state: TuiState::Approved, ..self },
            Some(TuiResult::Rejected) => TuiContext { state: TuiState::Rejected, ..self },
            None => match key {
                TuiKey::Up => TuiContext { scroll_offset: scrolled_up(self.scroll_offset), ..self },
                TuiKey::Down => TuiContext {
                    scroll_offset: scrolled_down(self.scroll_offset, self.line_count),
                    ..self
                },
                TuiKey::PageUp => TuiContext {
                    scroll_offset: scrolled_up_by(self.scroll_offset, PAGE_LINES as nat),
                    ..self
                },
                TuiKey::PageDown => TuiContext {
                    scroll_offset: scrolled_down_by(
                        self.scroll_offset,
                        self.line_count,
                        PAGE_LINES as nat,
                    ),
                    ..self
                },
                TuiKey::Home => TuiContext { scroll_offset: 0, ..self },
                TuiKey::End => TuiContext {
                    scroll_offset: if self.line_count >= VIEW_LINES {
                        (self.line_count - VIEW_LINES) as u16
                    } else {
                        0
                    },
                    ..self
                },
                _ => self,
            },
        }
    }

    /// The prompt for a card with the given text, at its top.
    pub fn new(card_text: &str) -> (out: TuiContext)
        ensures
            out == (TuiContext {
                line_count: card_lines(card_text@),
                state: TuiState::AwaitingDecision,
                scroll_offset: 0,
            }),
    {
        let lines = count_lines(card_text);
        TuiContext {
            line_count: (lines % 65536) as u16,
            state: TuiState::AwaitingDecision,
            scroll_offset: 0,
        }
    }

    /// Scrolls one line up, unless the view is at the top.
    pub fn scroll_up(&mut self)
        ensures
            *final(self) == (TuiContext {
                scroll_offset: scrolled_up(old(self).scroll_offset),
                ..*old(self)
            }),
    {
        if self.scroll_offset > 0 {
            self.scroll_offset -= 1;
        }
    }

    /// Scrolls one line down while lines are left below the view.
    pub fn scroll_down(&mut self, max_lines: u16)
        ensures
            *final(self) == (TuiContext {
                scroll_offset: scrolled_down(old(self).scroll_offset, old(self).line_count),
                ..*old(self)
            }),
    {
        if (self.scroll_offset as u32) + (VIEW_LINES as u32) < self.line_count as u32 {
            self.scroll_offset += 1;
        }
    }

    /// Takes a key: a decision ends the prompt, a scroll key moves the
    /// view, any other key changes nothing.
    pub fn on_key(&mut self, key: TuiKey) -> (out: Option<TuiResult>)
        ensures
            out == decision_of(key),
            *final(self) == old(self).after_key(key),
    {
        match key {
            TuiKey::Char(c) => {
                if c == 'y' || c == 'Y' {
                    self.state = TuiState::Approved;
                    Some(TuiResult::Approved)
                } else if c == 'n' || c == 'N' {
                    self.state = TuiState::Rejected;
                    Some(TuiResult::Rejected)
                } else {
                    None
                }
            },
            TuiKey::Esc => {
                self.state = TuiState::Rejected;
                Some(TuiResult::Rejected)
            },
            TuiKey::Up => {
                self.scroll_up();
                None
            },
            TuiKey::Down => {
                self.scroll_down(20);
                None
            },
            TuiKey::PageUp => {
                let ghost start = self.scroll_offset;
                let mut i: u16 = 0;
                while i < PAGE_LINES
                    invariant
                        i <= PAGE_LINES,
                        self.line_count == old(self).line_count,
                        self.state == old(self).state,
                        scrolled_up_by(self.scroll_offset, (PAGE_LINES - i) as nat)
                            == scrolled_up_by(start, PAGE_LINES as nat),
                    decreases PAGE_LINES - i,
                {
                    self.scroll_up();
                    i += 1;
                }
                None
            },
            TuiKey::PageDown => {
                let ghost start = self.scroll_offset;
                let mut i: u16 = 0;
                while i < PAGE_LINES
                    invariant
                        i <= PAGE_LINES,
                        self.line_count == old(self).line_count,
                        self.state == old(self).state,
                        scrolled_down_by(
                            self.scroll_offset,
                            self.line_count,
                            (PAGE_LINES - i) as nat,
                        ) == scrolled_down_by(start, self.line_count, PAGE_LINES as nat),
                    decreases PAGE_LINES - i,
                {
                    self.scroll_down(20);
                    i += 1;
                }
                None
            },
            TuiKey::Home => {
                self.scroll_offset = 0;
                None
            },
            TuiKey::End => {
                self.scroll_offset = if self.line_count >= VIEW_LINES {
                    self.line_count - VIEW_LINES
                } else {
                    0
                };
                None
            },
            TuiKey::Other => None,
        }
    }
}

/// Whether an answer typed at the plain prompt approves: `y` or `yes`, in
/// any case, with blank space around it at most.
pub open spec fn answer_approves(input: Seq<char>) -> bool {
    lowercase_of(trim_seq(input)) == "y"@ || lowercase_of(trim_seq(input)) == "yes"@
}

/// Reads an answer, once trimmed and in lowercase.
pub fn classify_answer(lowered: &str) -> (out: TuiResult)
    ensures
        out == if lowered@ == "y"@ || lowered@ == "yes"@ {
            TuiResult::Approved
        } else {
            TuiResult::Rejected
        },
{
    if same_text(lowered, "y") || same_text(lowered, "yes") {
        TuiResult::Approved
    } else {
        TuiResult::Rejected
    }
}

/// Reads an answer typed at the plain prompt. Anything but an approval
/// rejects.
pub fn parse_answer(input: &str) -> (out: TuiResult)
    ensures
        out == if answer_approves(input@) {
            TuiResult::Approved
        } else {
            TuiResult::Rejected
        },
{
    let trimmed = trim_blanks(input);
    let lowered = lowercase(trimmed.as_str());
    classify_answer(lowered.as_str())
}

/// The colours in which the lines of a card are shown.
#[derive(Debug, Clone, Copy, PartialEq, Eq, Structural)]
pub enum LineColor {
    /// The terminal's own colour.
    Plain,
    Green,
    Yellow,
    Orange,
    Red,
    Magenta,
}

/// How a line of a card is shown.
#[derive(Debug, Clone, Copy, PartialEq, Eq, Structural)]
pub struct LineStyle {
    pub color: LineColor,
    pub bold: bool,
}

/// How a line of a card is shown. What the line is about counts first,
/// then its risk mark; a line with neither is shown plain.
pub open spec fn line_style_of(line: Seq<char>) -> LineStyle {
    if contains_seq(line, "File Creation"@) || contains_seq(line, "Create:"@) {
        LineStyle { color: LineColor::Green, bold: false }
    } else if contains_seq(line, "File Deletion"@) || contains_seq(line, "Delete:"@) {
        LineStyle { color: LineColor::Red, bold: false }
    } else if contains_seq(line, "File Edit"@) || contains_seq(line, "Edit:"@) {
        LineStyle { color: LineColor::Yellow, bold: false }
    } else if contains_seq(line, "Command Execution"@) || contains_seq(line, "Execute:"@) {
        LineStyle { color: LineColor::Magenta, bold: false }
    } else if contains_seq(line, "Asset Transfer"@) || contains_seq(line, "Transfer"@) {
        LineStyle { color: LineColor::Red, bold: false }
    } else if contains_seq(line, "Email/Message"@) || contains_seq(line, "Send email"@) {
        LineStyle { color: LineColor::Red, bold: false }
    } else if contains_seq(line, "[CRITICAL]"@) {
        LineStyle { color: LineColor::Magenta, bold: true }
    } else if contains_seq(line, "[HIGH]"@) {
        LineStyle { color: LineColor::Red, bold: false }
    } else if contains_seq(line, "[MEDIUM]"@) {
        LineStyle { color: LineColor::Orange, bold: false }
    } else if contains_seq(line, "[LOW]"@) {
        LineStyle { color: LineColor::Yellow, bold: false }
    } else if contains_seq(line, "[GREEN]"@) {
        LineStyle { color: LineColor::Green, bold: false }
    } else {
        LineStyle { color: LineColor::Plain, bold: false }
    }
}

/// Decides how a line of a card is shown.
pub fn colorize_diff_line(line: &str) -> (out: LineStyle)
    ensures
        out == line_style_of(line@),
{
    if str_contains(line, "File Creation") || str_contains(line, "Create:") {
        LineStyle { color: LineColor::Green, bold: false }
    } else if str_contains(line, "File Deletion") || str_contains(line, "Delete:") {
        LineStyle { color: LineColor::Red, bold: false }
    } else if str_contains(line, "File Edit") || str_contains(line, "Edit:") {
        LineStyle { color: LineColor::Yellow, bold: false }
    } else if str_contains(line, "Command Execution") || str_contains(line, "Execute:") {
        LineStyle { color: LineColor::Magenta, bold: false }
    } else if str_contains(line, "Asset Transfer") || str_contains(line, "Transfer") {
        LineStyle { color: LineColor::Red, bold: false }
    } else if str_contains(line, "Email/Message") || str_contains(line, "Send email") {
        LineStyle { color: LineColor::Red, bold: false }
    } else if str_contains(line, "[CRITICAL]") {
        LineStyle { color: LineColor::Magenta, bold: true }
    } else if str_contains(line, "[HIGH]") {
        LineStyle { color: LineColor::Red, bold: false }
    } else if str_contains(line, "[MEDIUM]") {
        LineStyle { color: LineColor::Orange, bold: false }
    } else if str_contains(line, "[LOW]") {
        LineStyle { color: LineColor::Yellow, bold: false }
    } else if str_contains(line, "[GREEN]") {
        LineStyle { color: LineColor::Green, bold: false }
    } else {
        LineStyle { color: LineColor::Plain, bold: false }
    }
}

/// The last line shown of a card of `total` lines in a view of `height`
/// lines that starts at line `offset`.
pub open spec fn visible_end(total: usize, height: usize, offset: usize) -> int {
    if offset + height < total {
        offset + height
    } else {
        total as int
    }
}

/// The title of the card's frame: with the position of the view, where the
/// card does not fit into the view.
pub open spec fn content_title_of(total: usize, height: usize, offset: usize) -> Seq<char> {
    if total > height {
        "Action Details ["@ + decimal_of_nat(visible_end(total, height, offset) as nat) + "/"@
            + decimal_of_nat(total as nat) + "]"@
    } else {
        "Action Details"@
    }
}

/// Writes the title of the card's frame.
pub fn content_title(total: usize, height: usize, offset: usize) -> (out: String)
    ensures
        out@ == content_title_of(total, height, offset),
{
    if total > height {
        let end: usize = if offset < total && height < total - offset {
            offset + height
        } else {
            total
        };
        let shown = string_from_chars(&decimal_chars(end as u64));
        let all = string_from_chars(&decimal_chars(total as u64));
        let out = concat("Action Details [", shown.as_str());
        let out = concat(out.as_str(), "/");
        let out = concat(out.as_str(), all.as_str());
        let out = concat(out.as_str(), "]");
        assert(out@ =~= content_title_of(total, height, offset));
        out
    } else {
        "Action Details".to_owned()
    }
}

} // verus!

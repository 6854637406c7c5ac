use vstd::prelude::*;

verus! {

/// What the user answered for one reviewed session.
#[derive(Clone, Copy, Debug, PartialEq, Eq, Structural)]
pub enum Decision {
    /// Apply the rewrite to this session's file.
    Accept,
    /// Leave the file alone and move on.
    Reject,
    /// Apply the rewrite to every remaining session without asking again.
    AcceptAll,
    /// Open the file in an external editor at the first match.
    OpenEditor,
    /// End the whole run at once.
    Quit,
}

/// What the serial review loop must do after one session's prompt.
#[derive(Clone, Copy, Debug, PartialEq, Eq, Structural)]
pub enum ReviewAction {
    /// Touch nothing and take the next session.
    Continue,
    /// Overwrite the session's file with the reconciled content.
    WriteFile,
    /// Hand control to the external editor at this zero-based line, then
    /// take the next session.
    OpenEditorAt(usize),
    /// Terminate the whole run, abandoning the sessions still in flight.
    Quit,
    /// A decision whose behaviour is not implemented: a fatal fault.
    FatalUnimplemented,
}

/// The decision a response character stands for: `y` accept, `n` reject,
/// `a` accept-all, `e` editor, `q` quit; anything else is no decision.
/// A bare newline is turned into the default `y` by the prompt itself,
/// before this mapping is consulted.
pub open spec fn spec_decision_of_char(response: char) -> Option<Decision> {
    if response == 'y' {
        Some(Decision::Accept)
    } else if response == 'n' {
        Some(Decision::Reject)
    } else if response == 'a' {
        Some(Decision::AcceptAll)
    } else if response == 'e' {
        Some(Decision::OpenEditor)
    } else if response == 'q' {
        Some(Decision::Quit)
    } else {
        None
    }
}

/// The action one session's review ends in. Without a rewrite pattern there
/// is nothing to apply: the session is only acknowledged and nothing is
/// ever written. With one, `Accept` is the only decision that writes,
/// `Reject` and an unrecognised response touch nothing, `OpenEditor` defers
/// to the editor at the first match's start line, `Quit` ends the run, and
/// `AcceptAll` is the unimplemented fatal branch.
pub open spec fn spec_review_action(
    has_rewrite: bool,
    response: char,
    first_match_line: usize,
) -> ReviewAction {
    if !has_rewrite {
        ReviewAction::Continue
    } else {
        match spec_decision_of_char(response) {
            Some(Decision::Accept) => ReviewAction::WriteFile,
            Some(Decision::Reject) => ReviewAction::Continue,
            Some(Decision::AcceptAll) => ReviewAction::FatalUnimplemented,
            Some(Decision::OpenEditor) => ReviewAction::OpenEditorAt(first_match_line),
            Some(Decision::Quit) => ReviewAction::Quit,
            None => ReviewAction::Continue,
        }
    }
}

/// Maps a response character to its decision.
pub fn decision_of_char(response: char) -> (r: Option<Decision>)
    ensures
        r == spec_decision_of_char(response),
{
    if response == 'y' {
        Some(Decision::Accept)
    } else if response == 'n' {
        Some(Decision::Reject)
    } else if response == 'a' {
        Some(Decision::AcceptAll)
    } else if response == 'e' {
        Some(Decision::OpenEditor)
    } else if response == 'q' {
        Some(Decision::Quit)
    } else {
        None
    }
}

/// Resolves one reviewed session: what the response character obliges the
/// review loop to do, given whether the session has a rewrite pattern and
/// the line its first match starts on.
pub fn review_action(has_rewrite: bool, response: char, first_match_line: usize) -> (a:
    ReviewAction)
    ensures
        a == spec_review_action(has_rewrite, response, first_match_line),
{
    if !has_rewrite {
        return ReviewAction::Continue;
    }
    match decision_of_char(response) {
        Some(Decision::Accept) => ReviewAction::WriteFile,
        Some(Decision::Reject) => ReviewAction::Continue,
        Some(Decision::AcceptAll) => ReviewAction::FatalUnimplemented,
        Some(Decision::OpenEditor) => ReviewAction::OpenEditorAt(first_match_line),
        Some(Decision::Quit) => ReviewAction::Quit,
        None => ReviewAction::Continue,
    }
}

/// Without a rewrite pattern a session can never end in a write, whatever
/// the user answers.
pub proof fn lemma_no_rewrite_never_writes(response: char, first_match_line: usize)
    ensures
        spec_review_action(false, response, first_match_line) != ReviewAction::WriteFile,
{
}

/// A rejected session never ends in a write: answering `n` always leaves
/// the file untouched.
pub proof fn lemma_reject_never_writes(has_rewrite: bool, first_match_line: usize)
    ensures
        spec_review_action(has_rewrite, 'n', first_match_line) == ReviewAction::Continue,
{
}

/// The only response that ever leads to a write is an accepting `y`.
pub proof fn lemma_only_accept_writes(has_rewrite: bool, response: char, first_match_line: usize)
    ensures
        spec_review_action(has_rewrite, response, first_match_line) == ReviewAction::WriteFile
            ==> has_rewrite && spec_decision_of_char(response) == Some(Decision::Accept),
{
}

/// The number of line breaks in a text.
pub open spec fn count_newlines(s: Seq<u8>) -> int
    decreases s.len(),
{
    if s.len() == 0 {
        0
    } else {
        count_newlines(s.drop_last()) + if s.last() == 10u8 {
            1int
        } else {
            0int
        }
    }
}

/// The zero-based line on which byte `offset` of `source` stands: the
/// number of line breaks before it. An offset at or past the end counts
/// the whole text's line breaks.
pub open spec fn spec_line_of(source: Seq<u8>, offset: int) -> int {
    if offset < 0 {
        0
    } else if offset > source.len() {
        count_newlines(source)
    } else {
        count_newlines(source.take(offset))
    }
}

/// The zero-based line of a byte offset: where the editor is seeded for
/// the session's first match.
pub fn line_of_offset(source: &Vec<u8>, offset: usize) -> (line: usize)
    ensures
        line == spec_line_of(source@, offset as int),
{
    let end: usize = if offset < source.len() {
        offset
    } else {
        source.len()
    };
    let mut line: usize = 0;
    let mut i: usize = 0;
    while i < end
        invariant
            0 <= i <= end <= source@.len(),
            line <= i,
            line == count_newlines(source@.take(i as int)),
        decreases end - i,
    {
        proof {
            assert(source@.take(i + 1 as int).drop_last() =~= source@.take(i as int));
            assert(source@.take(i + 1 as int).last() == source@[i as int]);
        }
        if source[i] == 10u8 {
            line = line + 1;
        }
        i = i + 1;
    }
    proof {
        if offset >= source.len() {
            assert(source@.take(source@.len() as int) =~= source@);
        }
    }
    line
}

} // verus!

//! Reading the question file: one question per line.

use vstd::prelude::*;
use crate::question::{lemma_texts_push, texts, Question};
use crate::text::string_push;

verus! {

/// Why the questions could not be loaded.
#[derive(Clone, Copy, Debug, PartialEq, Eq, Structural)]
pub enum LoadError {
    /// The file could not be opened or read as text.
    FileUnreadable,
}

/// A line without the carriage return that may precede its line feed.
pub open spec fn strip_cr(line: Seq<char>) -> Seq<char> {
    if line.len() > 0 && line.last() == '\r' {
        line.drop_last()
    } else {
        line
    }
}

/// The lines that a left-to-right scan of `text` has completed, and the
/// characters of the line that is still open at the end of `text`.
pub open spec fn scan(text: Seq<char>) -> (Seq<Seq<char>>, Seq<char>)
    decreases text.len(),
{
    if text.len() == 0 {
        (Seq::empty(), Seq::empty())
    } else {
        let (done, open) = scan(text.drop_last());
        if text.last() == '\n' {
            (done.push(strip_cr(open)), Seq::empty())
        } else {
            (done, open.push(text.last()))
        }
    }
}

/// The lines of a text. A line ends at a line feed; the line feed, and a
/// carriage return directly before it, are not part of the line. Text after
/// the last line feed is a line of its own unless it is empty.
pub open spec fn lines_of(text: Seq<char>) -> Seq<Seq<char>> {
    let (done, open) = scan(text);
    if open.len() == 0 {
        done
    } else {
        done.push(open)
    }
}

/// Turns the contents of the question file into questions, one per line, in
/// the order of the file. `None` stands for a file that could not be read.
pub fn read_questions(contents: Option<&str>) -> (result: Result<Vec<Question>, LoadError>)
    ensures
        contents is None ==> result == Err::<Vec<Question>, LoadError>(LoadError::FileUnreadable),
        contents matches Some(text) ==> result is Ok && texts(result->Ok_0@) == lines_of(text@),
{
    match contents {
        None => Err(LoadError::FileUnreadable),
        Some(text) => Ok(split_lines(text)),
    }
}

/// Splits a text into its lines and makes each a question.
pub fn split_lines(text: &str) -> (questions: Vec<Question>)
    ensures
        texts(questions@) == lines_of(text@),
{
    broadcast use vstd::string::group_string_axioms;
    let mut questions: Vec<Question> = Vec::new();
    let mut line = String::new();
    let mut held_cr = false;
    let ghost mut seen: Seq<char> = Seq::empty();
    let chars = text.chars();
    for c in it: chars
        invariant
            it.seq() == text@,
            seen == text@.take(it.index()),
            texts(questions@) == scan(seen).0,
            line@ + (if held_cr { seq!['\r'] } else { Seq::<char>::empty() }) == scan(seen).1,
            !held_cr ==> strip_cr(line@) == line@,
    {
        let ghost before = seen;
        proof {
            seen = text@.take(it.index() + 1);
            assert(seen.drop_last() == before);
            assert(seen.last() == c);
        }
        if c == '\n' {
            let question = Question::new(line);
            proof {
                assert(held_cr ==> scan(before).1.drop_last() == question@);
                lemma_texts_push(questions@, question);
            }
            questions.push(question);
            line = String::new();
            held_cr = false;
        } else {
            if held_cr {
                string_push(&mut line, '\r');
            }
            if c == '\r' {
                held_cr = true;
            } else {
                string_push(&mut line, c);
                held_cr = false;
            }
        }
    }
    assert(seen == text@);
    if held_cr {
        string_push(&mut line, '\r');
    }
    assert(line@ =~= scan(text@).1);
    if !line.as_str().is_empty() {
        let question = Question::new(line);
        proof {
            lemma_texts_push(questions@, question);
        }
        questions.push(question);
    }
    questions
}

/// No question reaches over a line feed: neither a completed line nor the
/// open one holds any.
pub proof fn lemma_lines_hold_no_line_feed(text: Seq<char>)
    ensures
        forall|i: int| 0 <= i < scan(text).0.len() ==> !(#[trigger] scan(text).0[i]).contains('\n'),
        !scan(text).1.contains('\n'),
        forall|i: int|
            0 <= i < lines_of(text).len() ==> !(#[trigger] lines_of(text)[i]).contains('\n'),
    decreases text.len(),
{
    if text.len() > 0 {
        lemma_lines_hold_no_line_feed(text.drop_last());
        let (done, open) = scan(text.drop_last());
        if text.last() == '\n' {
            let line = strip_cr(open);
            assert forall|k: int| 0 <= k < line.len() implies line[k] != '\n' by {
                assert(open.contains(open[k]));
            }
        } else {
            let longer = open.push(text.last());
            assert forall|k: int| 0 <= k < longer.len() implies longer[k] != '\n' by {
                if k < open.len() {
                    assert(open.contains(open[k]));
                }
            }
        }
    }
}

/// The text of a file that holds the given lines, each ended by a line feed.
pub open spec fn join_lines(lines: Seq<Seq<char>>) -> Seq<char>
    decreases lines.len(),
{
    if lines.len() == 0 {
        Seq::empty()
    } else {
        join_lines(lines.drop_last()) + lines.last().push('\n')
    }
}

/// Scanning on over characters that hold no line feed only extends the open
/// line.
pub proof fn lemma_scan_open_line(text: Seq<char>, more: Seq<char>)
    requires
        !more.contains('\n'),
    ensures
        scan(text + more) == (scan(text).0, scan(text).1 + more),
    decreases more.len(),
{
    if more.len() == 0 {
        assert(text + more =~= text);
        assert(scan(text).1 + more =~= scan(text).1);
    } else {
        let shorter = more.drop_last();
        assert(more.last() == more[more.len() - 1]);
        assert(more.contains(more.last()));
        assert forall|c: char| shorter.contains(c) implies more.contains(c) by {
            let i = choose|i: int| 0 <= i < shorter.len() && shorter[i] == c;
            assert(more[i] == c);
        }
        lemma_scan_open_line(text, shorter);
        assert((text + more).drop_last() =~= text + shorter);
        assert((text + more).last() == more.last());
        assert(scan(text).1 + more =~= (scan(text).1 + shorter).push(more.last()));
    }
}

/// A file is read back line by line: where every line is ended by a line
/// feed, the questions are the lines in their order, each without the
/// carriage return that may end it; what follows the last line feed, if
/// anything does, is the last question. Nothing else of a line is changed.
pub proof fn lemma_one_question_per_line(lines: Seq<Seq<char>>, rest: Seq<char>)
    requires
        forall|i: int| 0 <= i < lines.len() ==> !(#[trigger] lines[i]).contains('\n'),
        !rest.contains('\n'),
    ensures
        scan(join_lines(lines)) == (lines.map_values(|line: Seq<char>| strip_cr(line)), Seq::<char>::empty()),
        lines_of(join_lines(lines) + rest) == if rest.len() == 0 {
            lines.map_values(|line: Seq<char>| strip_cr(line))
        } else {
            lines.map_values(|line: Seq<char>| strip_cr(line)).push(rest)
        },
    decreases lines.len(),
{
    let stripped = lines.map_values(|line: Seq<char>| strip_cr(line));
    if lines.len() == 0 {
        assert(stripped =~= Seq::<Seq<char>>::empty());
    } else {
        let front = lines.drop_last();
        let last = lines.last();
        lemma_one_question_per_line(front, Seq::empty());
        lemma_scan_open_line(join_lines(front), last);
        let ended = join_lines(front) + last.push('\n');
        assert(ended.drop_last() =~= join_lines(front) + last);
        assert(ended.last() == '\n');
        assert(Seq::<char>::empty() + last =~= last);
        assert(stripped =~= front.map_values(|line: Seq<char>| strip_cr(line)).push(strip_cr(last)));
    }
    lemma_scan_open_line(join_lines(lines), rest);
    assert(Seq::<char>::empty() + rest =~= rest);
}

} // verus!

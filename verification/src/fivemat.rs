//! An output buffer that indents what is written to it.
//!
//! Text is written as it comes; the buffer starts every non-empty line with
//! the current indentation. Emitters change the depth as they open and close
//! blocks and never write leading whitespace themselves.

use crate::text::{push_char, push_repeated, repeat};
use vstd::prelude::*;
use vstd::string::*;

verus! {

/// An indenting text buffer.
pub struct Fivemat {
    out: String,
    indent_text: String,
    indent: usize,
    indent_pending: bool,
}

/// What a [`Fivemat`] holds, as plain mathematical values.
pub ghost struct FivematView {
    /// Everything written so far, indentation included.
    pub out: Seq<char>,
    /// The text of one level of indentation.
    pub indent_text: Seq<char>,
    /// The current depth.
    pub indent: nat,
    /// Whether the next visible character starts a line.
    pub indent_pending: bool,
}

impl FivematView {
    /// The whitespace that starts a line at the current depth.
    pub open spec fn indentation(self) -> Seq<char> {
        repeat(self.indent_text, self.indent)
    }

    /// The buffer after the single character `c` was written.
    pub open spec fn put(self, c: char) -> FivematView {
        if c == '\n' {
            FivematView { out: self.out.push(c), indent_pending: true, ..self }
        } else if self.indent_pending {
            FivematView {
                out: (self.out + self.indentation()).push(c),
                indent_pending: false,
                ..self
            }
        } else {
            FivematView { out: self.out.push(c), ..self }
        }
    }

    /// The buffer after `text` was written, character by character.
    pub open spec fn write(self, text: Seq<char>) -> FivematView
        decreases text.len(),
    {
        if text.len() == 0 {
            self
        } else {
            self.write(text.drop_last()).put(text.last())
        }
    }

    /// What writing `text` adds to the buffer: `text` with the indentation
    /// of the lines it starts.
    pub open spec fn shown(self, text: Seq<char>) -> Seq<char> {
        self.write(text).out.subrange(self.out.len() as int, self.write(text).out.len() as int)
    }

    /// The buffer `count` levels deeper.
    pub open spec fn add_indent(self, count: nat) -> FivematView {
        FivematView { indent: self.indent + count, ..self }
    }

    /// The buffer `count` levels less deep.
    pub open spec fn sub_indent(self, count: nat) -> FivematView {
        FivematView { indent: (self.indent - count) as nat, ..self }
    }
}

/// Writing two texts in turn is writing their concatenation.
pub proof fn lemma_write_concat(view: FivematView, first: Seq<char>, second: Seq<char>)
    ensures
        view.write(first + second) == view.write(first).write(second),
    decreases second.len(),
{
    if second.len() == 0 {
        assert(first + second =~= first);
    } else {
        lemma_write_concat(view, first, second.drop_last());
        assert((first + second).drop_last() =~= first + second.drop_last());
        assert((first + second).last() == second.last());
    }
}

/// Writing never changes the depth or the indentation text.
pub proof fn lemma_write_keeps_depth(view: FivematView, text: Seq<char>)
    ensures
        view.write(text).indent == view.indent,
        view.write(text).indent_text == view.indent_text,
    decreases text.len(),
{
    if text.len() > 0 {
        lemma_write_keeps_depth(view, text.drop_last());
    }
}

/// Writing adds to the end of the buffer and leaves what was written as it
/// is, in its place.
pub proof fn lemma_write_appends(view: FivematView, text: Seq<char>)
    ensures
        view.out.is_prefix_of(view.write(text).out),
        view.write(text).out == view.out + view.shown(text),
    decreases text.len(),
{
    if text.len() > 0 {
        lemma_write_appends(view, text.drop_last());
        let before = view.write(text.drop_last());
        assert(before.out.is_prefix_of(before.put(text.last()).out));
    }
    assert(view.write(text).out =~= view.out + view.shown(text));
}

/// At depth zero a text is written as it is.
pub proof fn lemma_write_at_depth_zero(view: FivematView, text: Seq<char>)
    requires
        view.indent == 0,
    ensures
        view.write(text).out == view.out + text,
        view.shown(text) == text,
    decreases text.len(),
{
    if text.len() > 0 {
        lemma_write_at_depth_zero(view, text.drop_last());
        lemma_write_keeps_depth(view, text.drop_last());
        let before = view.write(text.drop_last());
        assert(before.indentation() =~= Seq::<char>::empty());
        assert(before.put(text.last()).out =~= before.out.push(text.last()));
        assert(view.write(text).out =~= view.out + text);
    } else {
        assert(view.write(text).out =~= view.out + text);
    }
    assert(view.shown(text) =~= text);
}

impl View for Fivemat {
    type V = FivematView;

    closed spec fn view(&self) -> FivematView {
        FivematView {
            out: self.out@,
            indent_text: self.indent_text@,
            indent: self.indent as nat,
            indent_pending: self.indent_pending,
        }
    }
}

impl Fivemat {
    /// An empty buffer at depth zero whose levels are written as `indent_text`.
    pub fn new(indent_text: &str) -> (f: Fivemat)
        ensures
            f@ == (FivematView {
                out: Seq::empty(),
                indent_text: indent_text@,
                indent: 0,
                indent_pending: true,
            }),
    {
        Fivemat {
            out: String::new(),
            indent_text: String::from_str(indent_text),
            indent: 0,
            indent_pending: true,
        }
    }

    /// The current depth.
    pub fn indent(&self) -> (depth: usize)
        ensures
            depth == self@.indent,
    {
        self.indent
    }

    /// Goes `count` levels deeper.
    pub fn add_indent(&mut self, count: usize)
        requires
            old(self)@.indent + count <= usize::MAX,
        ensures
            final(self)@ == old(self)@.add_indent(count as nat),
    {
        self.indent = self.indent + count;
    }

    /// Comes back `count` levels.
    pub fn sub_indent(&mut self, count: usize)
        requires
            count <= old(self)@.indent,
        ensures
            final(self)@ == old(self)@.sub_indent(count as nat),
    {
        self.indent = self.indent - count;
    }

    /// Ends the current line.
    pub fn newline(&mut self)
        ensures
            final(self)@ == old(self)@.put('\n'),
    {
        push_char(&mut self.out, '\n');
        self.indent_pending = true;
    }

    /// Writes the indentation if the line has not been started yet.
    pub fn ensure_indent(&mut self)
        ensures
            final(self)@ == (if old(self)@.indent_pending {
                FivematView {
                    out: old(self)@.out + old(self)@.indentation(),
                    indent_pending: false,
                    ..old(self)@
                }
            } else {
                old(self)@
            }),
    {
        if self.indent_pending {
            push_repeated(&mut self.out, self.indent_text.as_str(), self.indent);
            self.indent_pending = false;
        }
    }

    /// Writes one character.
    pub fn write_char(&mut self, c: char)
        ensures
            final(self)@ == old(self)@.put(c),
    {
        if c == '\n' {
            self.newline();
        } else {
            self.ensure_indent();
            push_char(&mut self.out, c);
        }
    }

    /// Writes `text`, indenting each line that it starts.
    pub fn write_str(&mut self, text: &str)
        ensures
            final(self)@ == old(self)@.write(text@),
            final(self)@.indent == old(self)@.indent,
    {
        broadcast use vstd::string::group_string_axioms;

        let ghost mut written: Seq<char> = Seq::empty();
        for c in it: text.chars()
            invariant
                it.seq() == text@,
                written == it.history(),
                self@ == old(self)@.write(written),
        {
            self.write_char(c);
            proof {
                assert(written.push(c).drop_last() =~= written);
                written = written.push(c);
            }
        }
        assert(written =~= text@);
        proof {
            lemma_write_keeps_depth(old(self)@, text@);
        }
    }

    /// The text written so far.
    pub fn as_str(&self) -> (text: &str)
        ensures
            text@ == self@.out,
    {
        self.out.as_str()
    }

    /// Gives up the buffer for the text written to it.
    pub fn into_string(self) -> (text: String)
        ensures
            text@ == self@.out,
    {
        self.out
    }
}

} // verus!

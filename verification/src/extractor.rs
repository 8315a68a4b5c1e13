use vstd::prelude::*;

use vstd::std_specs::iter::IteratorSpec;

use crate::pollable_iterator::StatefulMap;

verus! {

broadcast use vstd::string::axiom_spec_iter, vstd::string::next_postcondition;

/// The mathematical state of an uppercase-word extractor: the words
/// already completed (oldest first), the partial word being
/// accumulated, and whether characters are currently accepted.
#[verifier::ext_equal]
pub struct ExtractorState {
    /// Completed words, oldest first.
    pub words: Seq<Seq<char>>,
    /// The partial word accumulated so far.
    pub pending: Seq<char>,
    /// Whether characters are currently accepted into the partial word.
    pub receiving: bool,
}

/// Whether `c` is an uppercase ASCII letter.
pub open spec fn spec_is_upper(c: char) -> bool {
    ('A' as u32) <= (c as u32) && (c as u32) <= ('Z' as u32)
}

/// One character of input: a space ends the current word (if any) or
/// resumes accepting after a rejection; an uppercase letter extends the
/// partial word; anything else discards the partial word and stops
/// accepting until the next space.
pub open spec fn extract_step(m: ExtractorState, c: char) -> ExtractorState {
    if !m.receiving {
        if c == ' ' {
            ExtractorState { receiving: true, ..m }
        } else {
            m
        }
    } else if c == ' ' {
        if m.pending.len() > 0 {
            ExtractorState { words: m.words.push(m.pending), pending: seq![], ..m }
        } else {
            m
        }
    } else if spec_is_upper(c) {
        ExtractorState { pending: m.pending.push(c), ..m }
    } else {
        ExtractorState { pending: seq![], receiving: false, ..m }
    }
}

/// A whole sequence of characters, one `extract_step` each.
pub open spec fn extract_steps(m: ExtractorState, cs: Seq<char>) -> ExtractorState
    decreases cs.len(),
{
    if cs.len() == 0 {
        m
    } else {
        extract_steps(extract_step(m, cs[0]), cs.drop_first())
    }
}

/// End of input: one imaginary trailing space completes a pending
/// word, and no further characters are accepted.
pub open spec fn extract_finish(m: ExtractorState) -> ExtractorState {
    ExtractorState { receiving: false, ..extract_step(m, ' ') }
}

/// Hand out the oldest completed word, if there is one.
pub open spec fn take_word(m: ExtractorState) -> (ExtractorState, Option<Seq<char>>) {
    if m.words.len() == 0 {
        (m, None::<Seq<char>>)
    } else {
        (ExtractorState { words: m.words.drop_first(), ..m }, Some(m.words[0]))
    }
}

/// Whether `c` is an uppercase ASCII letter.
#[verifier::when_used_as_spec(spec_is_upper)]
fn is_upper(c: char) -> (r: bool)
    ensures
        r == spec_is_upper(c),
{
    let u = c as u32;
    ('A' as u32) <= u && u <= ('Z' as u32)
}

/// Relies on String::push: appends the given character at the end.
#[verifier::external_body]
fn string_push(s: &mut String, c: char)
    ensures
        final(s)@ == old(s)@.push(c),
{
    s.push(c);
}

/// A stateful mapping that extracts uppercase words from a stream of
/// text chunks: a run of uppercase ASCII letters bounded by spaces is a
/// word; a lowercase or other character met while accumulating
/// discards the partial word until the next space.  Each application
/// hands out at most one completed word, oldest first.
#[derive(Debug)]
pub struct Extractor {
    contents: Vec<String>,
    working: String,
    receiving: bool,
}

impl Extractor {
    /// The mathematical state of this extractor.
    pub closed spec fn state(&self) -> ExtractorState {
        ExtractorState {
            words: self.contents.deep_view(),
            pending: self.working@,
            receiving: self.receiving,
        }
    }

    /// A fresh extractor: no words, nothing pending, accepting.
    pub fn new() -> (e: Self)
        ensures
            e.state() == (ExtractorState { words: seq![], pending: seq![], receiving: true }),
    {
        let e = Extractor { contents: Vec::new(), working: String::new(), receiving: true };
        proof {
            assert(e.state() =~= ExtractorState {
                words: seq![],
                pending: seq![],
                receiving: true,
            });
        }
        e
    }

    /// Move the partial word to the completed words.
    fn accept(&mut self)
        ensures
            final(self).state() == (ExtractorState {
                words: old(self).state().words.push(old(self).state().pending),
                pending: seq![],
                receiving: old(self).state().receiving,
            }),
    {
        let mut w = String::new();
        core::mem::swap(&mut self.working, &mut w);
        self.contents.push(w);
        proof {
            assert(self.state() =~= ExtractorState {
                words: old(self).state().words.push(old(self).state().pending),
                pending: seq![],
                receiving: old(self).state().receiving,
            });
        }
    }

    /// Discard the partial word and stop accepting characters.
    fn reject(&mut self)
        ensures
            final(self).state() == (ExtractorState {
                words: old(self).state().words,
                pending: seq![],
                receiving: false,
            }),
    {
        let mut w = String::new();
        core::mem::swap(&mut self.working, &mut w);
        self.receiving = false;
        proof {
            assert(self.state() =~= ExtractorState {
                words: old(self).state().words,
                pending: seq![],
                receiving: false,
            });
        }
    }

    /// Process one character.
    pub fn process(&mut self, c: char)
        ensures
            final(self).state() == extract_step(old(self).state(), c),
    {
        if !self.receiving {
            if c == ' ' {
                self.receiving = true;
            }
        } else if c == ' ' {
            if !self.working.as_str().is_empty() {
                self.accept();
            }
        } else if is_upper(c) {
            string_push(&mut self.working, c);
        } else {
            self.reject();
        }
        proof {
            assert(self.state() =~= extract_step(old(self).state(), c));
        }
    }

    /// Process every character of a chunk of text, in order.
    pub fn process_str(&mut self, s: &str)
        ensures
            final(self).state() == extract_steps(old(self).state(), s@),
    {
        let mut it = s.chars();
        loop
            invariant
                it.decrease() is Some,
                extract_steps(old(self).state(), s@) == extract_steps(
                    self.state(),
                    it.remaining(),
                ),
            ensures
                self.state() == extract_steps(old(self).state(), s@),
            decreases it.decrease()->0,
        {
            let ghost rem = it.remaining();
            match it.next() {
                None => {
                    break ;
                },
                Some(c) => {
                    assert(c == rem[0] && it.remaining() == rem.drop_first());
                    self.process(c);
                },
            }
        }
    }

    /// End of input: complete any pending word and stop accepting.
    pub fn finalize(&mut self)
        ensures
            final(self).state() == extract_finish(old(self).state()),
    {
        self.process(' ');
        self.receiving = false;
    }

    /// Hand out the oldest completed word, if there is one.
    pub fn pop(&mut self) -> (r: Option<String>)
        ensures
            final(self).state() == take_word(old(self).state()).0,
            r.deep_view() == take_word(old(self).state()).1,
    {
        if self.contents.len() == 0 {
            None
        } else {
            let w = self.contents.remove(0);
            proof {
                assert(self.state() =~= take_word(old(self).state()).0);
                assert(w@ == take_word(old(self).state()).1->0);
            }
            Some(w)
        }
    }
}

impl StatefulMap for Extractor {
    type Input = String;

    type Output = String;

    type Model = ExtractorState;

    open spec fn model(&self) -> ExtractorState {
        self.state()
    }

    open spec fn model_state(m: ExtractorState, x: Option<Seq<char>>) -> ExtractorState {
        match x {
            Some(cs) => take_word(extract_steps(m, cs)).0,
            None => take_word(extract_finish(m)).0,
        }
    }

    open spec fn model_output(m: ExtractorState, x: Option<Seq<char>>) -> Option<Seq<char>> {
        match x {
            Some(cs) => take_word(extract_steps(m, cs)).1,
            None => take_word(extract_finish(m)).1,
        }
    }

    fn apply(&mut self, x: Option<String>) -> (r: Option<String>) {
        match x {
            Some(s) => self.process_str(s.as_str()),
            None => self.finalize(),
        }
        self.pop()
    }
}

} // verus!

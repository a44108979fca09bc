//! The character sink every renderer writes into.
//!
//! A [`Sink`] accepts sequential text chunks.  It counts the characters
//! written through it, optionally keeps them in an output string, and
//! refuses a chunk that would push the count past its capacity.  The
//! capacity makes write failures real values rather than dead code: a
//! renderer's contract can say exactly when rendering succeeds.

use vstd::prelude::*;
use vstd::string::StrSliceExecFns;
use vstd::string::StringExecFns;

verus! {

/// Why a render call failed.
#[derive(Copy, Clone, Debug, PartialEq, Eq, Structural)]
pub enum RenderError {
    /// The sink refused a write: the text did not fit its capacity.
    SinkWrite,
    /// A single-use renderer was asked to render a second time.
    Reuse,
}

/// A sequential character sink with a capacity.
///
/// The sink counts every character written through it.  In forwarding mode
/// the characters are also kept and can be taken out with
/// [`Sink::into_string`]; in discarding mode they are dropped after being
/// counted, which is how a measuring pass runs without producing output.
pub struct Sink {
    out: String,
    forward: bool,
    written: usize,
    limit: usize,
}

impl Sink {
    /// The characters that have reached the sink's output.
    pub closed spec fn content(&self) -> Seq<char> {
        self.out@
    }

    /// How many characters have been written through the sink.
    pub closed spec fn written(&self) -> nat {
        self.written as nat
    }

    /// The capacity: writes are refused once they would pass this count.
    pub closed spec fn limit(&self) -> nat {
        self.limit as nat
    }

    /// Whether written characters are kept in the output.
    pub closed spec fn forwards(&self) -> bool {
        self.forward
    }

    /// The sink's invariant: the count respects the capacity and the
    /// output holds exactly the written characters (or none, when
    /// discarding).
    pub open spec fn wf(&self) -> bool {
        &&& self.written() <= self.limit()
        &&& (self.forwards() ==> self.content().len() == self.written())
        &&& (!self.forwards() ==> self.content().len() == 0)
    }

    /// Whether `n` more characters still fit.
    pub open spec fn fits(&self, n: nat) -> bool {
        self.written() + n <= self.limit()
    }

    /// A sink that keeps everything written to it, with no practical bound.
    pub fn collecting() -> (s: Sink)
        ensures
            s.wf(),
            s.forwards(),
            s.content() == Seq::<char>::empty(),
            s.written() == 0,
            s.limit() == usize::MAX,
    {
        Sink { out: String::new(), forward: true, written: 0, limit: usize::MAX }
    }

    /// A sink that counts writes but keeps nothing, with no practical
    /// bound; this is the measuring pass's target.
    pub fn discarding() -> (s: Sink)
        ensures
            s.wf(),
            !s.forwards(),
            s.content() == Seq::<char>::empty(),
            s.written() == 0,
            s.limit() == usize::MAX,
    {
        Sink { out: String::new(), forward: false, written: 0, limit: usize::MAX }
    }

    /// A keeping sink that refuses writes past `limit` characters, for
    /// exercising write-failure paths.
    pub fn collecting_with_limit(limit: usize) -> (s: Sink)
        ensures
            s.wf(),
            s.forwards(),
            s.content() == Seq::<char>::empty(),
            s.written() == 0,
            s.limit() == limit,
    {
        Sink { out: String::new(), forward: true, written: 0, limit }
    }

    /// How many characters have been written so far.
    pub fn chars_written(&self) -> (n: usize)
        ensures
            n == self.written(),
    {
        self.written
    }

    /// Writes a chunk of text, all of it or none of it.
    pub fn write_str(&mut self, s: &str) -> (r: Result<(), RenderError>)
        requires
            old(self).wf(),
        ensures
            final(self).wf(),
            final(self).forwards() == old(self).forwards(),
            final(self).limit() == old(self).limit(),
            r is Ok <==> old(self).fits(s@.len()),
            r is Ok ==> final(self).written() == old(self).written() + s@.len(),
            r is Ok ==> final(self).content() == old(self).content() + (
            if old(self).forwards() {
                s@
            } else {
                Seq::<char>::empty()
            }),
            r is Err ==> *final(self) == *old(self) && r == Err::<(), RenderError>(
                RenderError::SinkWrite,
            ),
    {
        let n = s.unicode_len();
        if n <= self.limit - self.written {
            self.written = self.written + n;
            if self.forward {
                self.out.append(s);
            }
            Ok(())
        } else {
            Err(RenderError::SinkWrite)
        }
    }

    /// Writes a single character.
    pub fn write_char(&mut self, c: char) -> (r: Result<(), RenderError>)
        requires
            old(self).wf(),
        ensures
            final(self).wf(),
            final(self).forwards() == old(self).forwards(),
            final(self).limit() == old(self).limit(),
            r is Ok <==> old(self).fits(1),
            r is Ok ==> final(self).written() == old(self).written() + 1,
            r is Ok ==> final(self).content() == old(self).content() + (
            if old(self).forwards() {
                seq![c]
            } else {
                Seq::<char>::empty()
            }),
            r is Err ==> *final(self) == *old(self) && r == Err::<(), RenderError>(
                RenderError::SinkWrite,
            ),
    {
        let s = char_string(c);
        self.write_str(s.as_str())
    }

    /// Writes `n` copies of the character `c`, stopping at the first
    /// refused write.
    pub fn write_repeated(&mut self, c: char, n: usize) -> (r: Result<(), RenderError>)
        requires
            old(self).wf(),
        ensures
            final(self).wf(),
            final(self).forwards() == old(self).forwards(),
            final(self).limit() == old(self).limit(),
            r is Ok <==> old(self).fits(n as nat),
            r is Ok ==> final(self).written() == old(self).written() + n,
            r is Ok ==> final(self).content() == old(self).content() + (
            if old(self).forwards() {
                crate::textspec::repeat_char(c, n as nat)
            } else {
                Seq::<char>::empty()
            }),
            r is Err ==> r == Err::<(), RenderError>(RenderError::SinkWrite),
    {
        let mut i: usize = 0;
        while i < n
            invariant
                i <= n,
                self.wf(),
                self.forwards() == old(self).forwards(),
                self.limit() == old(self).limit(),
                self.written() == old(self).written() + i,
                self.content() == old(self).content() + (if old(self).forwards() {
                    crate::textspec::repeat_char(c, i as nat)
                } else {
                    Seq::<char>::empty()
                }),
            decreases n - i,
        {
            match self.write_char(c) {
                Ok(_) => {
                    proof {
                        assert(self.content() =~= old(self).content() + (
                        if old(self).forwards() {
                            crate::textspec::repeat_char(c, (i + 1) as nat)
                        } else {
                            Seq::<char>::empty()
                        }));
                    }
                    i = i + 1;
                },
                Err(e) => {
                    return Err(e);
                },
            }
        }
        proof {
            assert(self.content() =~= old(self).content() + (if old(self).forwards() {
                crate::textspec::repeat_char(c, n as nat)
            } else {
                Seq::<char>::empty()
            }));
        }
        Ok(())
    }

    /// Takes the collected output out of the sink.
    pub fn into_string(self) -> (r: String)
        ensures
            r@ == self.content(),
    {
        self.out
    }
}

/// Relies on char::to_string: the returned string holds exactly the one
/// character it was called on.
#[verifier::external_body]
pub(crate) fn char_string(c: char) -> (r: String)
    ensures
        r@ == seq![c],
{
    c.to_string()
}

} // verus!

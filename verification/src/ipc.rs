//! Newline-delimited messages over the standalone daemon's client
//! socket: each message is one line of JSON text.
//!
//! The JSON itself is produced and read outside the library; here are the
//! lines: how a message is written as one, and how a stream of received
//! bytes is cut back into them.

use vstd::prelude::*;
use vstd::utf8::{decode_utf8, encode_utf8, encode_utf8_decode_utf8, encode_utf8_valid_utf8, valid_utf8};
use crate::text::{chars_of, push_char, string_of, trim, trim_chars};

verus! {

broadcast use {encode_utf8_valid_utf8, encode_utf8_decode_utf8};

/// Path of the standalone daemon's socket.
pub fn socket_path() -> (r: &'static str)
    ensures
        r@ == "/tmp/chat_daemon.sock"@,
{
    "/tmp/chat_daemon.sock"
}

/// The line that carries a message's JSON text: the text and a newline.
pub fn message_line(json: &str) -> (r: String)
    ensures
        r@ == json@.push('\n'),
{
    let mut r = json.to_owned();
    push_char(&mut r, '\n');
    r
}

/// The text `String::from_utf8_lossy` makes of `bytes`: their UTF-8 decoding,
/// each invalid sequence replaced by U+FFFD.
pub uninterp spec fn utf8_lossy(bytes: Seq<u8>) -> Seq<char>;

/// `String::from_utf8_lossy(bytes)`, owned. Valid UTF-8 decodes as such.
#[verifier::external_body]
fn from_utf8_lossy(bytes: &[u8]) -> (r: String)
    ensures
        r@ == utf8_lossy(bytes@),
        valid_utf8(bytes@) ==> r@ == decode_utf8(bytes@),
{
    String::from_utf8_lossy(bytes).into_owned()
}

/// The text of one received chunk, if there is any besides white space: a
/// read of `bytes`, decoded leniently and trimmed.
pub fn received_text(bytes: &[u8]) -> (r: Option<String>)
    ensures
        r is Some <==> trim(utf8_lossy(bytes@)).len() > 0,
        r matches Some(t) ==> t@ == trim(utf8_lossy(bytes@)),
{
    let text = from_utf8_lossy(bytes);
    let cs = chars_of(text.as_str());
    let t = trim_chars(cs.as_slice());
    if t.len() == 0 {
        None
    } else {
        Some(string_of(t.as_slice()))
    }
}

pub open spec fn has_newline(s: Seq<char>) -> bool {
    exists|j: int| 0 <= j < s.len() && s[j] == '\n'
}

/// The next message line in `s`, after the unfinished line `cur`: the
/// characters up to each newline form a line; a line with nothing but white
/// space is dropped, and the first other one is the message, trimmed. With
/// it, what follows its newline; without one, the unfinished last line.
pub open spec fn next_line_from(s: Seq<char>, cur: Seq<char>) -> (Option<Seq<char>>, Seq<char>)
    decreases s.len(),
{
    if s.len() == 0 {
        (None, cur)
    } else if s[0] == '\n' {
        if trim(cur).len() > 0 {
            (Some(trim(cur)), s.drop_first())
        } else {
            next_line_from(s.drop_first(), seq![])
        }
    } else {
        next_line_from(s.drop_first(), cur.push(s[0]))
    }
}

/// The next message line in the pending text `s`, and what stays pending.
pub open spec fn next_line(s: Seq<char>) -> (Option<Seq<char>>, Seq<char>) {
    next_line_from(s, seq![])
}

/// A reader of newline-delimited messages, with the text received but not
/// yet consumed.
pub struct MessageStream<R> {
    reader: R,
    buffer: String,
}

impl<R> MessageStream<R> {
    /// The text received but not yet consumed.
    pub closed spec fn pending(&self) -> Seq<char> {
        self.buffer@
    }

    /// The underlying reader.
    pub closed spec fn source(&self) -> R {
        self.reader
    }

    /// A stream over `reader`, with nothing pending.
    pub fn new(reader: R) -> (s: Self)
        ensures
            s.pending() == Seq::<char>::empty(),
            s.source() == reader,
    {
        MessageStream { reader, buffer: String::new() }
    }

    /// The underlying reader, to read more bytes from.
    pub fn reader_mut(&mut self) -> (r: &mut R)
        ensures
            *r == old(self).source(),
            final(self).source() == *final(r),
            final(self).pending() == old(self).pending(),
    {
        &mut self.reader
    }

    /// Takes the next message line off the pending text: complete lines are
    /// taken in order, those with nothing but white space are dropped, and
    /// the first other one is returned trimmed. Without such a line, `None`,
    /// and only the unfinished last line stays pending.
    pub fn poll_line(&mut self) -> (r: Option<String>)
        ensures
            final(self).source() == old(self).source(),
            r is Some <==> next_line(old(self).pending()).0 is Some,
            r matches Some(t) ==> next_line(old(self).pending()).0 == Some(t@),
            final(self).pending() == next_line(old(self).pending()).1,
    {
        let cs = chars_of(self.buffer.as_str());
        let mut cur: Vec<char> = Vec::new();
        let mut i: usize = 0;
        assert(cs@.skip(0) =~= cs@);
        while i < cs.len()
            invariant
                i <= cs@.len(),
                cs@ == old(self).pending(),
                self.source() == old(self).source(),
                next_line(cs@) == next_line_from(cs@.skip(i as int), cur@),
            decreases cs@.len() - i,
        {
            let c = cs[i];
            let ghost rest = cs@.skip(i as int);
            assert(rest[0] == c);
            assert(rest.drop_first() =~= cs@.skip(i + 1));
            if c == '\n' {
                let t = trim_chars(cur.as_slice());
                if t.len() > 0 {
                    let mut tail: Vec<char> = Vec::new();
                    let mut j: usize = i + 1;
                    while j < cs.len()
                        invariant
                            i + 1 <= j <= cs@.len(),
                            tail@ == cs@.subrange(i + 1, j as int),
                        decreases cs@.len() - j,
                    {
                        tail.push(cs[j]);
                        assert(cs@.subrange(i + 1, j as int).push(cs@[j as int]) =~= cs@.subrange(i + 1, j + 1));
                        j = j + 1;
                    }
                    assert(tail@ =~= cs@.skip(i + 1));
                    self.buffer = string_of(tail.as_slice());
                    return Some(string_of(t.as_slice()));
                }
                cur = Vec::new();
            } else {
                cur.push(c);
            }
            i = i + 1;
        }
        assert(cs@.skip(i as int) =~= Seq::<char>::empty());
        self.buffer = string_of(cur.as_slice());
        None
    }

    /// At the end of the input: the pending text, trimmed, if anything but
    /// white space is pending (and then nothing remains pending); otherwise
    /// nothing, and the pending text stays.
    pub fn finish(&mut self) -> (r: Option<String>)
        ensures
            final(self).source() == old(self).source(),
            r is Some <==> trim(old(self).pending()).len() > 0,
            r matches Some(t) ==> t@ == trim(old(self).pending()) && final(self).pending() == Seq::<char>::empty(),
            r is None ==> final(self).pending() == old(self).pending(),
    {
        let cs = chars_of(self.buffer.as_str());
        let t = trim_chars(cs.as_slice());
        if t.len() == 0 {
            None
        } else {
            self.buffer = String::new();
            Some(string_of(t.as_slice()))
        }
    }

    /// Appends a received chunk of bytes, decoded leniently, to the pending text.
    pub fn push_chunk(&mut self, chunk: &[u8])
        ensures
            final(self).source() == old(self).source(),
            final(self).pending() == old(self).pending() + utf8_lossy(chunk@),
            valid_utf8(chunk@) ==> final(self).pending() == old(self).pending() + decode_utf8(chunk@),
    {
        let text = from_utf8_lossy(chunk);
        self.buffer.append(text.as_str());
    }
}

/// The lines that carry the messages `ms`, one after the other.
pub open spec fn lines_of(ms: Seq<Seq<char>>) -> Seq<char>
    decreases ms.len(),
{
    if ms.len() == 0 {
        seq![]
    } else {
        ms[0].push('\n') + lines_of(ms.drop_first())
    }
}

/// Text with no newline in it only extends the unfinished line.
proof fn lemma_unfinished_line(m: Seq<char>, tail: Seq<char>, cur: Seq<char>)
    requires
        !has_newline(m),
    ensures
        next_line_from(m + tail, cur) == next_line_from(tail, cur + m),
    decreases m.len(),
{
    if m.len() == 0 {
        assert(m + tail =~= tail);
        assert(cur + m =~= cur);
    } else {
        assert(m[0] != '\n');
        assert((m + tail)[0] == m[0]);
        assert((m + tail).drop_first() =~= m.drop_first() + tail);
        assert(cur.push(m[0]) + m.drop_first() =~= cur + m);
        assert forall|j: int| 0 <= j < m.drop_first().len() implies m.drop_first()[j] != '\n' by {
            assert(m.drop_first()[j] == m[j + 1]);
        }
        lemma_unfinished_line(m.drop_first(), tail, cur.push(m[0]));
    }
}

/// Law: messages written as lines are read back one by one, in order. Of
/// pending text that starts with the lines of the messages `ms` (each
/// without a newline and not blank), the next line taken is the first
/// message, trimmed, and what stays pending is the lines of the others; with
/// no message left, text without a newline stays pending whole.
pub proof fn lemma_lines_roundtrip(ms: Seq<Seq<char>>, rest: Seq<char>)
    requires
        forall|i: int| 0 <= i < ms.len() ==> !has_newline(#[trigger] ms[i]) && trim(ms[i]).len() > 0,
    ensures
        ms.len() > 0 ==> next_line(lines_of(ms) + rest) == (Some(trim(ms[0])), lines_of(ms.drop_first()) + rest),
        ms.len() == 0 && !has_newline(rest) ==> next_line(lines_of(ms) + rest) == (None::<Seq<char>>, rest),
{
    if ms.len() > 0 {
        let m = ms[0];
        let t = seq!['\n'] + (lines_of(ms.drop_first()) + rest);
        assert(lines_of(ms) + rest =~= m + t);
        lemma_unfinished_line(m, t, seq![]);
        assert(Seq::<char>::empty() + m =~= m);
        assert(t[0] == '\n');
        assert(t.drop_first() =~= lines_of(ms.drop_first()) + rest);
    } else if !has_newline(rest) {
        assert(lines_of(ms) + rest =~= rest + Seq::<char>::empty());
        lemma_unfinished_line(rest, Seq::<char>::empty(), seq![]);
        assert(Seq::<char>::empty() + rest =~= rest);
    }
}

/// Law: a blank line between messages is dropped without a trace.
pub proof fn lemma_blank_line_dropped(b: Seq<char>, s: Seq<char>)
    requires
        !has_newline(b),
        trim(b).len() == 0,
    ensures
        next_line(b.push('\n') + s) == next_line(s),
{
    let t = seq!['\n'] + s;
    assert(b.push('\n') + s =~= b + t);
    lemma_unfinished_line(b, t, seq![]);
    assert(Seq::<char>::empty() + b =~= b);
    assert(t.drop_first() =~= s);
}

} // verus!

use vstd::prelude::*;
use vstd::utf8::{decode_utf8, valid_utf8};

verus! {

/// One piece of output from an attached exec session, tagged with the stream
/// it came from.
#[derive(Debug, Clone, PartialEq, Eq)]
pub enum OutputChunk {
    StdIn(Vec<u8>),
    StdOut(Vec<u8>),
    StdErr(Vec<u8>),
}

/// Where a rendered line goes.
#[derive(Debug, Clone, Copy, PartialEq, Eq, Structural)]
pub enum Channel {
    Stdout,
    Stderr,
}

/// A labelled line ready to be written to one of the two output channels.
#[derive(Debug, Clone, PartialEq, Eq)]
pub struct OutputLine {
    pub channel: Channel,
    pub text: String,
}

/// The text of a chunk: its UTF-8 decoding, or nothing when the bytes are not
/// well-formed UTF-8.
pub open spec fn text_or_empty(bytes: Seq<u8>) -> Seq<char> {
    if valid_utf8(bytes) {
        decode_utf8(bytes)
    } else {
        Seq::empty()
    }
}

/// Relies on std::str::from_utf8: it accepts exactly the well-formed UTF-8
/// byte strings and returns the characters they encode.
#[verifier::external_body]
fn utf8_text(bytes: &[u8]) -> (r: Option<String>)
    ensures
        r is Some <==> valid_utf8(bytes@),
        r matches Some(s) ==> s@ == decode_utf8(bytes@),
{
    std::str::from_utf8(bytes).ok().map(|s| s.to_string())
}

/// Decode a chunk's bytes; malformed input gives the empty string instead of
/// an error.
pub fn decode_or_empty(bytes: &Vec<u8>) -> (r: String)
    ensures
        r@ == text_or_empty(bytes@),
{
    match utf8_text(bytes.as_slice()) {
        Some(s) => s,
        None => String::new(),
    }
}

/// The label in front of standard output text.
pub open spec fn stdout_label() -> Seq<char> {
    "Stdout: "@
}

/// The label in front of standard error text. Each stream carries its own
/// label, so that error output is never shown as normal output.
pub open spec fn stderr_label() -> Seq<char> {
    "Stderr: "@
}

/// `line` is what shows `chunk`.
pub open spec fn shows(chunk: OutputChunk, line: OutputLine) -> bool {
    match chunk {
        OutputChunk::StdOut(b) => line.channel == Channel::Stdout && line.text@ == stdout_label()
            + text_or_empty(b@),
        OutputChunk::StdErr(b) => line.channel == Channel::Stderr && line.text@ == stderr_label()
            + text_or_empty(b@),
        OutputChunk::StdIn(_) => false,
    }
}

/// Turn a chunk into the line that shows it. Standard output goes to the
/// normal channel and standard error to the error channel, each behind its
/// label. Input is never attached, so a standard input chunk is not accepted.
pub fn render_chunk(chunk: &OutputChunk) -> (r: OutputLine)
    requires
        !(chunk is StdIn),
    ensures
        shows(*chunk, r),
{
    match chunk {
        OutputChunk::StdOut(b) => {
            let text = decode_or_empty(b);
            OutputLine {
                channel: Channel::Stdout,
                text: String::from_str("Stdout: ").concat(text.as_str()),
            }
        },
        OutputChunk::StdErr(b) => {
            let text = decode_or_empty(b);
            OutputLine {
                channel: Channel::Stderr,
                text: String::from_str("Stderr: ").concat(text.as_str()),
            }
        },
        OutputChunk::StdIn(_) => unreached(),
    }
}

/// The bytes that a chunk carries.
pub open spec fn chunk_bytes(chunk: OutputChunk) -> Seq<u8> {
    match chunk {
        OutputChunk::StdIn(b) => b@,
        OutputChunk::StdOut(b) => b@,
        OutputChunk::StdErr(b) => b@,
    }
}

/// The label of a channel.
pub open spec fn label(channel: Channel) -> Seq<char> {
    match channel {
        Channel::Stdout => stdout_label(),
        Channel::Stderr => stderr_label(),
    }
}

/// A chunk whose bytes are not well-formed UTF-8 is still shown, as the bare
/// label of its stream on that stream's channel.
pub proof fn lemma_malformed_chunk_shows_bare_label(chunk: OutputChunk, line: OutputLine)
    requires
        shows(chunk, line),
        !valid_utf8(chunk_bytes(chunk)),
    ensures
        line.text@ == label(line.channel),
        chunk is StdOut ==> line.channel == Channel::Stdout,
        chunk is StdErr ==> line.channel == Channel::Stderr,
{
    assert(line.text@ =~= label(line.channel) + Seq::<char>::empty());
}

} // verus!

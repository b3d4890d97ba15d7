use exec_inspect::chunk::{decode_or_empty, render_chunk, Channel, OutputChunk};

#[test]
fn stdout_chunk_is_a_labelled_stdout_line() {
    let line = render_chunk(&OutputChunk::StdOut(b"root\n".to_vec()));
    assert_eq!(line.channel, Channel::Stdout);
    assert_eq!(line.text, "Stdout: root\n");
}

#[test]
fn stderr_chunk_goes_to_the_error_channel() {
    let line = render_chunk(&OutputChunk::StdErr(b"denied".to_vec()));
    assert_eq!(line.channel, Channel::Stderr);
    assert_eq!(line.text, "Stderr: denied");
}

#[test]
fn malformed_chunk_is_an_empty_labelled_line() {
    let line = render_chunk(&OutputChunk::StdOut(vec![0x66, 0xff, 0xfe, 0x6f]));
    assert_eq!(line.channel, Channel::Stdout);
    assert_eq!(line.text, "Stdout: ");
}

#[test]
fn decoding_keeps_multibyte_characters() {
    assert_eq!(decode_or_empty(&"héllo ✓".as_bytes().to_vec()), "héllo ✓");
    assert_eq!(decode_or_empty(&Vec::new()), "");
}

#[test]
fn decoding_rejects_surrogates_and_truncation() {
    assert_eq!(decode_or_empty(&vec![0xed, 0xa0, 0x80]), "");
    assert_eq!(decode_or_empty(&vec![0xe2, 0x9c]), "");
    assert_eq!(decode_or_empty(&vec![0xc0, 0xaf]), "");
}

use mdnotes::static_server::ChunkStep;
use mdnotes::static_server::ChunkedFileStreamer;
use mdnotes::static_server::ReadOutcome;
use mdnotes::static_server::get_block_size;
use mdnotes::static_server::optimal_buf_size;
use mdnotes::static_server::resolve_candidate;
use mdnotes::static_server::response_meta;

#[test]
fn block_size_has_a_floor() {
    assert_eq!(get_block_size(4096), 8192);
    assert_eq!(get_block_size(0), 8192);
    assert_eq!(get_block_size(65536), 65536);
}

#[test]
fn buf_size_never_exceeds_file_length() {
    assert_eq!(optimal_buf_size(4096, 1_000_000), 8192);
    assert_eq!(optimal_buf_size(65536, 1_000_000), 65536);
    assert_eq!(optimal_buf_size(4096, 10), 10);
    assert_eq!(optimal_buf_size(65536, 0), 0);
}

#[test]
fn chunks_are_truncated_to_declared_length() {
    let mut s = ChunkedFileStreamer::new(10);
    assert!(matches!(s.next_chunk(ReadOutcome::Read(4)), ChunkStep::Emit(4)));
    assert_eq!(s.bytes_left(), 6);
    // the file grew under us: only the declared remainder leaves
    assert!(matches!(s.next_chunk(ReadOutcome::Read(8)), ChunkStep::Emit(6)));
    assert_eq!(s.bytes_left(), 0);
    // past the declared length every further read is truncated to nothing
    assert!(matches!(s.next_chunk(ReadOutcome::Read(5)), ChunkStep::Emit(0)));
}

#[test]
fn early_eof_gives_short_body_not_an_error() {
    // the file was truncated mid-stream: the body ends cleanly, short
    let mut s = ChunkedFileStreamer::new(100);
    assert!(matches!(s.next_chunk(ReadOutcome::Read(10)), ChunkStep::Emit(10)));
    assert!(matches!(s.next_chunk(ReadOutcome::Read(0)), ChunkStep::End));
    assert_eq!(s.bytes_left(), 90);
}

#[test]
fn read_failure_aborts() {
    let mut s = ChunkedFileStreamer::new(100);
    assert!(matches!(s.next_chunk(ReadOutcome::Failed), ChunkStep::Abort));
}

#[test]
fn metadata_carries_length_type_and_ranges() {
    let m = response_meta("/out/index.html", 42);
    assert_eq!(m.content_length, 42);
    assert_eq!(m.content_type, "text/html");
    assert!(m.accept_ranges_bytes);
    let m = response_meta("/out/app.wasm2", 7);
    assert_eq!(m.content_type, "application/octet-stream");
    let m = response_meta("/out/style.css", 1);
    assert_eq!(m.content_type, "text/css");
}

#[test]
fn directory_resolves_to_its_index_file() {
    assert_eq!(resolve_candidate(String::from("/out/docs"), true), "/out/docs/index.html");
    assert_eq!(resolve_candidate(String::from("/out/docs/a.html"), false), "/out/docs/a.html");
}

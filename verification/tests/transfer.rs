use transfert::digest::file_id;
use transfert::registry::{FileRegistry, FileStat};
use transfert::transfer::{
    get_file, index, Download, FileResponse, FileStream, IndexEntry, ReadOutcome, StreamState,
    StreamStep, BUFFER_SIZE,
};

fn registry_of(files: &[(&str, u64)]) -> FileRegistry {
    let stats: Vec<FileStat> = files
        .iter()
        .map(|(path, size)| FileStat { path: path.to_string(), size: Some(*size) })
        .collect();
    FileRegistry::register(&stats).unwrap()
}

/// Streams `file` as a server would, the disk handing out at most `disk_chunk`
/// bytes at a time, and returns the body and the number of pieces.
fn download(file: &[u8], disk_chunk: usize) -> (Vec<u8>, usize, FileStream) {
    let mut stream = FileStream::new(file.len() as u64);
    let mut body = Vec::new();
    let mut pieces = 0;
    loop {
        match stream.next() {
            StreamStep::Read(n) => {
                let from = stream.sent as usize;
                let got = n.min(disk_chunk).min(file.len() - from);
                body.extend_from_slice(&file[from..from + got]);
                pieces += 1;
                stream.record(ReadOutcome::Read(got));
            }
            StreamStep::Finish | StreamStep::Abort => return (body, pieces, stream),
        }
    }
}

#[test]
fn buffer_size_is_eight_mebibytes() {
    assert_eq!(BUFFER_SIZE, 8 * 1024 * 1024);
    assert_eq!(BUFFER_SIZE, 8_388_608);
}

#[test]
fn get_file_of_an_unknown_identifier_is_not_found() {
    let registry = registry_of(&[("a.txt", 10)]);
    let response = get_file(&registry, "nope");
    assert_eq!(response.status(), 404);
    assert_eq!(response, FileResponse::NotFound { body: "File not found: nope".to_string() });
}

#[test]
fn get_file_is_not_found_in_an_empty_registry() {
    let registry = registry_of(&[]);
    let id = file_id("a.txt");
    let response = get_file(&registry, &id);
    assert_eq!(response.status(), 404);
    assert_eq!(response, FileResponse::NotFound { body: format!("File not found: {}", id) });
}

#[test]
fn get_file_of_a_known_identifier_gives_the_headers() {
    let registry = registry_of(&[("/srv/share/movie.mkv", 20000), ("a.txt", 10)]);
    let response = get_file(&registry, &file_id("/srv/share/movie.mkv"));
    assert_eq!(response.status(), 200);
    assert_eq!(
        response,
        FileResponse::Found(Download {
            path: "/srv/share/movie.mkv".to_string(),
            size: 20000,
            content_type: "application/octet-stream".to_string(),
            content_disposition: "attachment; filename=\"movie.mkv\"".to_string(),
            content_length: "20000".to_string(),
        })
    );
}

#[test]
fn get_file_does_not_find_a_file_under_its_path() {
    let registry = registry_of(&[("a.txt", 10)]);
    assert_eq!(get_file(&registry, "a.txt").status(), 404);
}

#[test]
fn index_lists_every_file_in_order() {
    let registry = registry_of(&[("dir/a.txt", 10), ("b.bin", 20000)]);
    assert_eq!(
        index(&registry),
        vec![
            IndexEntry {
                name: "a.txt".to_string(),
                size: 10,
                href: format!("/{}", file_id("dir/a.txt")),
            },
            IndexEntry {
                name: "b.bin".to_string(),
                size: 20000,
                href: format!("/{}", file_id("b.bin")),
            },
        ]
    );
}

#[test]
fn index_of_an_empty_registry_is_empty() {
    assert_eq!(index(&registry_of(&[])), vec![]);
}

#[test]
fn index_and_download_of_two_small_files() {
    let small: Vec<u8> = (0..10u8).collect();
    let registry = registry_of(&[("small.bin", 10), ("large.bin", 20000)]);

    let lines = index(&registry);
    assert_eq!(lines.len(), 2);
    assert_eq!(lines[0].name, "small.bin");
    assert_eq!(human_bytes::human_bytes(lines[0].size as f64), "10 B");
    assert_eq!(lines[1].name, "large.bin");
    assert_eq!(human_bytes::human_bytes(lines[1].size as f64), "19.5 KiB");

    let id = lines[0].href.strip_prefix('/').unwrap();
    match get_file(&registry, id) {
        FileResponse::Found(found) => {
            assert_eq!(found.content_length, "10");
            assert_eq!(found.size, 10);
            assert_eq!(found.path, "small.bin");
            let (body, pieces, stream) = download(&small, usize::MAX);
            assert_eq!(body, small);
            assert_eq!(pieces, 1);
            assert_eq!(stream.state, StreamState::Complete);
        }
        FileResponse::NotFound { .. } => panic!("the file is registered"),
    }
}

#[test]
fn a_file_of_two_buffers_comes_in_two_pieces() {
    let file: Vec<u8> = (0..2 * BUFFER_SIZE).map(|i| (i % 251) as u8).collect();
    assert_eq!(file.len(), 16 * 1024 * 1024);
    let mut stream = FileStream::new(file.len() as u64);
    assert_eq!(stream.next(), StreamStep::Read(BUFFER_SIZE));
    stream.record(ReadOutcome::Read(BUFFER_SIZE));
    assert_eq!(stream.sent, BUFFER_SIZE as u64);
    assert_eq!(stream.next(), StreamStep::Read(BUFFER_SIZE));
    stream.record(ReadOutcome::Read(BUFFER_SIZE));
    assert_eq!(stream.next(), StreamStep::Finish);

    let (body, pieces, stream) = download(&file, usize::MAX);
    assert_eq!(pieces, 2);
    assert_eq!(stream.state, StreamState::Complete);
    assert!(body == file);
}

#[test]
fn short_reads_still_give_the_whole_file() {
    let file: Vec<u8> = (0..BUFFER_SIZE + 12345).map(|i| (i % 253) as u8).collect();
    let (body, pieces, stream) = download(&file, 1_000_000);
    assert_eq!(pieces, 9);
    assert_eq!(stream.state, StreamState::Complete);
    assert_eq!(stream.sent, file.len() as u64);
    assert!(body == file);
}

#[test]
fn the_last_piece_is_what_is_left() {
    let mut stream = FileStream::new(BUFFER_SIZE as u64 + 5);
    assert_eq!(stream.next(), StreamStep::Read(BUFFER_SIZE));
    stream.record(ReadOutcome::Read(BUFFER_SIZE));
    assert_eq!(stream.next(), StreamStep::Read(5));
    stream.record(ReadOutcome::Read(5));
    assert_eq!(stream.state, StreamState::Complete);
    assert_eq!(stream.next(), StreamStep::Finish);
}

#[test]
fn an_empty_file_is_complete_at_once() {
    let stream = FileStream::new(0);
    assert_eq!(stream.state, StreamState::Complete);
    assert_eq!(stream.next(), StreamStep::Finish);
    let (body, pieces, _) = download(&[], usize::MAX);
    assert_eq!(body, Vec::<u8>::new());
    assert_eq!(pieces, 0);
}

#[test]
fn a_failed_read_aborts_the_download_for_good() {
    let mut stream = FileStream::new(100);
    stream.record(ReadOutcome::Read(40));
    assert_eq!(stream.state, StreamState::Streaming);
    stream.record(ReadOutcome::Failed);
    assert_eq!(stream.state, StreamState::Aborted);
    assert_eq!(stream.sent, 40);
    assert_eq!(stream.next(), StreamStep::Abort);
    stream.record(ReadOutcome::Read(60));
    assert_eq!(stream, FileStream { size: 100, sent: 40, state: StreamState::Aborted });
}

#[test]
fn the_end_of_a_shortened_file_aborts_the_download() {
    let mut stream = FileStream::new(100);
    stream.record(ReadOutcome::Read(40));
    stream.record(ReadOutcome::Read(0));
    assert_eq!(stream.state, StreamState::Aborted);
}

#[test]
fn a_read_of_more_than_was_wanted_aborts_the_download() {
    let mut stream = FileStream::new(100);
    stream.record(ReadOutcome::Read(101));
    assert_eq!(stream, FileStream { size: 100, sent: 0, state: StreamState::Aborted });

    let mut stream = FileStream::new(3 * BUFFER_SIZE as u64);
    stream.record(ReadOutcome::Read(BUFFER_SIZE + 1));
    assert_eq!(stream.state, StreamState::Aborted);
}

#[test]
fn a_complete_download_takes_nothing_more() {
    let mut stream = FileStream::new(10);
    stream.record(ReadOutcome::Read(10));
    assert_eq!(stream.state, StreamState::Complete);
    stream.record(ReadOutcome::Failed);
    stream.record(ReadOutcome::Read(1));
    assert_eq!(stream, FileStream { size: 10, sent: 10, state: StreamState::Complete });
}

#[test]
fn the_stream_of_a_download_has_the_registered_size() {
    let registry = registry_of(&[("a.txt", 10)]);
    match get_file(&registry, &file_id("a.txt")) {
        FileResponse::Found(found) => {
            assert_eq!(
                found.stream(),
                FileStream { size: 10, sent: 0, state: StreamState::Streaming }
            );
            assert_eq!(found.stream().next(), StreamStep::Read(10));
        }
        FileResponse::NotFound { .. } => panic!("the file is registered"),
    }
}

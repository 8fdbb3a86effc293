use proxy_codecs::http_impl::async_ext::{HeadReader, ReadStatus, BUFFER_SIZE, MAX_HEADER_SIZE};
use proxy_codecs::http_impl::{HttpError, HttpRequest, HttpResponse, Method};

/// Reads `data` as a stream would deliver it, `chunk` bytes at a time.
fn read_all(data: &[u8], chunk: usize) -> HeadReader {
    let mut reader = HeadReader::new();
    let mut at = 0;
    loop {
        let end = (at + chunk).min(data.len());
        let status = reader.feed(&data[at..end]);
        at = end;
        if status != ReadStatus::NeedMore {
            return reader;
        }
    }
}

#[test]
fn test_async_request_from_stream() {
    let data = b"GET /test HTTP/1.1\r\nHost: example.com\r\n\r\n";
    let reader = read_all(data, BUFFER_SIZE);
    assert_eq!(reader.status(), ReadStatus::Complete);

    let request = HttpRequest::from_stream(reader).unwrap();

    assert_eq!(request.method(), &Method::get());
    assert_eq!(request.uri().path(), "/test");
}

#[test]
fn stream_limits_are_32_kib_and_4_kib() {
    assert_eq!(MAX_HEADER_SIZE, 32 * 1024);
    assert_eq!(BUFFER_SIZE, 4096);
}

#[test]
fn stream_read_ends_at_the_blank_line_however_it_is_cut() {
    let data = b"GET /test HTTP/1.1\r\nHost: example.com\r\n\r\nbody";
    let head_len = data.len() - 4;
    for chunk in 1..=data.len() {
        let reader = read_all(data, chunk);
        assert_eq!(reader.status(), ReadStatus::Complete, "chunk {}", chunk);
        // Reading stopped with the chunk that brought the end of the blank line.
        let expected = ((head_len + chunk - 1) / chunk * chunk).min(data.len());
        assert_eq!(reader.buffer().len(), expected, "chunk {}", chunk);
        assert_eq!(&reader.buffer()[..], &data[..expected]);
    }
}

#[test]
fn stream_read_finds_a_blank_line_across_the_4_kib_boundary() {
    for split in 1..4 {
        // `split` bytes of the blank line fall into the first chunk.
        let mut data = b"GET / HTTP/1.1\r\nX-Pad: ".to_vec();
        while data.len() < BUFFER_SIZE - split {
            data.push(b'a');
        }
        data.extend_from_slice(b"\r\n\r\n");
        data.extend_from_slice(b"tail");
        assert!(data.len() > BUFFER_SIZE);

        let mut reader = HeadReader::new();
        assert_eq!(reader.feed(&data[..BUFFER_SIZE]), ReadStatus::NeedMore);
        assert_eq!(reader.feed(&data[BUFFER_SIZE..]), ReadStatus::Complete);
        assert_eq!(reader.buffer(), &data);

        let request = HttpRequest::from_stream(reader).unwrap();
        assert_eq!(request.body().as_slice(), b"tail");
        assert_eq!(request.header("x-pad").unwrap().len(), BUFFER_SIZE - split - 23);
    }
}

#[test]
fn stream_read_takes_the_fast_path_when_the_chunk_ends_the_head() {
    let mut reader = HeadReader::new();
    assert_eq!(reader.feed(b"HTTP/1.1 200 OK\r\nA: b\r\n"), ReadStatus::NeedMore);
    assert_eq!(reader.feed(b"\r\n"), ReadStatus::Complete);
    let response = HttpResponse::from_stream(reader).unwrap();
    assert_eq!(response.status().as_u16(), 200);
    assert!(response.body().is_empty());
}

#[test]
fn stream_read_refuses_more_than_32_kib_without_blank_line() {
    let mut reader = HeadReader::new();
    let chunk = vec![b'a'; BUFFER_SIZE];
    for _ in 0..8 {
        assert_eq!(reader.feed(&chunk), ReadStatus::NeedMore);
    }
    assert_eq!(reader.buffer().len(), MAX_HEADER_SIZE);
    assert_eq!(reader.feed(b"a"), ReadStatus::HeaderTooLarge);
    assert_eq!(reader.status(), ReadStatus::HeaderTooLarge);
    // Nothing changes it any more.
    assert_eq!(reader.feed(b"\r\n\r\n"), ReadStatus::HeaderTooLarge);
    assert_eq!(reader.buffer().len(), MAX_HEADER_SIZE + 1);

    let err = HttpRequest::from_stream(reader).unwrap_err();
    assert_eq!(err, HttpError::InvalidRequest("Header too large".to_string()));
}

#[test]
fn stream_read_accepts_a_head_of_exactly_32_kib() {
    let mut data = b"GET / HTTP/1.1\r\nX-Pad: ".to_vec();
    while data.len() < MAX_HEADER_SIZE - 4 {
        data.push(b'a');
    }
    data.extend_from_slice(b"\r\n\r\n");
    assert_eq!(data.len(), MAX_HEADER_SIZE);
    let reader = read_all(&data, BUFFER_SIZE);
    assert_eq!(reader.status(), ReadStatus::Complete);

    // The same head with body bytes arriving in the same chunk.
    let mut with_body = data.clone();
    with_body.extend_from_slice(b"body");
    let mut reader = HeadReader::new();
    assert_eq!(reader.feed(&with_body[..MAX_HEADER_SIZE - 2]), ReadStatus::NeedMore);
    assert_eq!(reader.feed(&with_body[MAX_HEADER_SIZE - 2..]), ReadStatus::Complete);
    assert_eq!(HttpRequest::from_stream(reader).unwrap().body().as_slice(), b"body");

    // One byte more of head and the blank line ends beyond the limit.
    let mut too_long = b"GET / HTTP/1.1\r\nX-Pad: ".to_vec();
    while too_long.len() < MAX_HEADER_SIZE - 3 {
        too_long.push(b'a');
    }
    too_long.extend_from_slice(b"\r\n\r\n");
    let reader = read_all(&too_long, BUFFER_SIZE);
    assert_eq!(reader.status(), ReadStatus::HeaderTooLarge);
}

#[test]
fn stream_read_reports_a_stream_that_ends_early() {
    let mut reader = HeadReader::new();
    assert_eq!(reader.feed(b"GET / HTTP/1.1\r\n"), ReadStatus::NeedMore);
    assert_eq!(reader.feed(b""), ReadStatus::ConnectionClosed);
    assert_eq!(reader.feed(b"\r\n"), ReadStatus::ConnectionClosed);
    assert_eq!(reader.buffer().as_slice(), b"GET / HTTP/1.1\r\n");
    let err = HttpRequest::from_stream(reader).unwrap_err();
    assert_eq!(err, HttpError::InvalidRequest("Connection closed".to_string()));

    let mut reader = HeadReader::new();
    assert_eq!(reader.feed(b""), ReadStatus::ConnectionClosed);
    let err = HttpResponse::from_stream(reader).unwrap_err();
    assert_eq!(err, HttpError::InvalidResponse("Connection closed".to_string()));

    let mut reader = HeadReader::new();
    reader.feed(&vec![b'x'; MAX_HEADER_SIZE + 1]);
    let err = HttpResponse::from_stream(reader).unwrap_err();
    assert_eq!(err, HttpError::InvalidResponse("Header too large".to_string()));
}

#[test]
fn stream_read_ignores_chunks_after_the_head_is_complete() {
    let mut reader = HeadReader::new();
    assert_eq!(reader.feed(b"GET / HTTP/1.1\r\n\r\nab"), ReadStatus::Complete);
    assert_eq!(reader.feed(b"cd"), ReadStatus::Complete);
    assert_eq!(reader.into_buffer(), b"GET / HTTP/1.1\r\n\r\nab".to_vec());
}

#[test]
fn stream_read_of_an_unfinished_head_is_incomplete() {
    let mut reader = HeadReader::new();
    assert_eq!(reader.feed(b"GET / HTTP/1.1\r\n"), ReadStatus::NeedMore);
    let err = HttpRequest::from_stream(reader).unwrap_err();
    assert_eq!(err, HttpError::InvalidRequest("Incomplete request".to_string()));
}

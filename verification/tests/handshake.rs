use vhost_user_vsock::error::Error;
use vhost_user_vsock::handshake::next_read;
use vhost_user_vsock::handshake::read_local_stream_port;
use vhost_user_vsock::text::is_white;

fn invalid(request: &[u8]) -> bool {
    match read_local_stream_port(request) {
        Err(Error::ReadStreamPort(e)) => matches!(*e, Error::InvalidPortRequest),
        _ => false,
    }
}

fn unparsable(request: &[u8]) -> bool {
    match read_local_stream_port(request) {
        Err(Error::ReadStreamPort(e)) => matches!(*e, Error::ParseInteger(_)),
        _ => false,
    }
}

/// Reads a request as it would come from a stream, and gives what was taken off the stream.
fn read_request(stream: &[u8]) -> Vec<u8> {
    let mut read: Vec<u8> = Vec::new();
    loop {
        let n = next_read(&read);
        if n == 0 {
            return read;
        }
        read.extend_from_slice(&stream[read.len()..read.len() + n]);
    }
}

#[test]
fn port_of_a_request() {
    assert_eq!(read_local_stream_port(b"connect 1234\n").unwrap(), 1234);
    assert_eq!(read_local_stream_port(b"CONNECT 1234\n").unwrap(), 1234);
    assert_eq!(read_local_stream_port(b"cOnNeCt +7 rest\n").unwrap(), 7);
    assert_eq!(read_local_stream_port(b" \tconnect \t 0 \n").unwrap(), 0);
    assert_eq!(read_local_stream_port(b"connect 4294967295\n").unwrap(), u32::MAX);
    assert_eq!(read_local_stream_port("connect\u{3000}5\n".as_bytes()).unwrap(), 5);
}

#[test]
fn every_port_is_understood() {
    for port in [0u32, 9, 10, 99, 100, 65535, 1_000_000, u32::MAX - 1, u32::MAX] {
        let line = format!("Connect {}\n", port);
        assert_eq!(read_request(line.as_bytes()), line.as_bytes());
        assert_eq!(read_local_stream_port(line.as_bytes()).unwrap(), port);
    }
}

#[test]
fn requests_without_the_word_or_the_port() {
    assert!(invalid(b""));
    assert!(invalid(b"          "));
    assert!(invalid(b"conect 12\n"));
    assert!(invalid(b"connects 12\n"));
    assert!(invalid(b"1234 connect\n"));
    assert!(invalid(b"connect   \n"));
}

#[test]
fn ports_that_are_no_numbers() {
    assert!(unparsable(b"connect port\n"));
    assert!(unparsable(b"connect -1\n"));
    assert!(unparsable(b"connect 12a\n"));
    assert!(unparsable(b"connect +\n"));
    assert!(unparsable(b"connect 4294967296\n"));
}

#[test]
fn requests_that_are_no_text() {
    assert!(matches!(
        read_local_stream_port(b"connect \xff\n"),
        Err(Error::ConvertFromUtf8(_))
    ));
    assert!(matches!(
        read_local_stream_port(b"connect 1\xc3"),
        Err(Error::ConvertFromUtf8(_))
    ));
}

#[test]
fn reading_stops_at_the_end_of_the_line_or_at_the_limit() {
    assert_eq!(next_read(&[]), 10);
    assert_eq!(read_request(b"connect 1\nmore data"), b"connect 1\n");
    assert_eq!(read_request(b"connect 1234\nmore data"), b"connect 1234\n");
    let long = [b'x'; 50];
    assert_eq!(read_request(&long).len(), 32);
    assert_eq!(next_read(&[b'\n'; 32]), 0);
}

#[test]
fn white_space_is_that_of_the_standard_library() {
    for v in 0..=0x10ffffu32 {
        if let Some(c) = char::from_u32(v) {
            assert_eq!(is_white(c), c.is_whitespace(), "{:x}", v);
        }
    }
}

#[test]
fn only_ascii_letters_spell_connect() {
    for v in 0..=0x10ffffu32 {
        if let Some(c) = char::from_u32(v) {
            let small: String = c.to_lowercase().collect();
            if ["c", "o", "n", "e", "t"].contains(&small.as_str()) {
                assert!(c.is_ascii(), "{:x}", v);
            }
            // The first letter of the word decides here.
            let request = format!("{}onnect 8\n", c);
            let word = request.split_whitespace().next().unwrap().to_lowercase();
            let port = read_local_stream_port(request.as_bytes());
            assert_eq!(port.is_ok(), word == "connect", "{:x}", v);
        }
    }
}

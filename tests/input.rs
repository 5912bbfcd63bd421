use std::cell::Cell;
use std::io::{self, Cursor, Read};

use cli_input::Input;

type Bytes = Cursor<Vec<u8>>;

fn erase<R: Read + 'static>(input: Input<R>) -> Box<dyn Read> {
    input.into_dyn_read(
        |f| Box::new(f) as Box<dyn Read>,
        |i| Box::new(i) as Box<dyn Read>,
    )
}

#[test]
fn no_path_gives_stdin_without_opening() {
    let calls = Cell::new(0u32);
    let r = Input::<Bytes>::default_stdin(None, |_| {
        calls.set(calls.get() + 1);
        Ok(Cursor::new(Vec::new()))
    });
    assert!(matches!(r, Ok(Input::Stdin(_))));
    assert_eq!(calls.get(), 0);
}

#[test]
fn path_is_opened_once_and_gives_file() {
    let calls = Cell::new(0u32);
    let seen = Cell::new(false);
    let r = Input::<Bytes>::default_stdin(Some("notes.txt"), |p| {
        calls.set(calls.get() + 1);
        seen.set(p == "notes.txt");
        Ok(Cursor::new(b"abc".to_vec()))
    });
    assert_eq!(calls.get(), 1);
    assert!(seen.get());
    match r {
        Ok(Input::File(mut f)) => {
            let mut out = Vec::new();
            f.read_to_end(&mut out).unwrap();
            assert_eq!(out, b"abc");
        }
        _ => panic!("expected a file source"),
    }
}

#[test]
fn open_failure_is_annotated_as_read() {
    let r = Input::<Bytes>::default_stdin(Some("/no/such/file"), |_| {
        Err(io::Error::new(io::ErrorKind::NotFound, "not found"))
    });
    match r {
        Err(e) => {
            assert_eq!(e.message, "failed to read /no/such/file");
            assert!(e.message.contains("/no/such/file"));
            assert!(e.message.contains("read"));
            assert_eq!(e.cause.kind(), io::ErrorKind::NotFound);
        }
        Ok(_) => panic!("expected a failure"),
    }
}

#[test]
fn buffered_file_reads_same_bytes() {
    let data: Vec<u8> = (0u8..=255).cycle().take(20000).collect();
    let input: Input<Bytes> = Input::File(Cursor::new(data.clone()));
    match input.buffered() {
        Input::File(mut b) => {
            let mut out = Vec::new();
            b.read_to_end(&mut out).unwrap();
            assert_eq!(out, data);
        }
        Input::Stdin(_) => panic!("a file must stay a file"),
    }
}

#[test]
fn buffered_leaves_stdin_alone() {
    let input: Input<Bytes> = Input::Stdin(io::stdin());
    assert!(matches!(input.buffered(), Input::Stdin(_)));
}

#[test]
fn resolve_buffer_erase_round_trip() {
    let r = Input::<Bytes>::default_stdin(Some("hello.txt"), |_| Ok(Cursor::new(b"hello\n".to_vec())));
    let input = match r {
        Ok(i) => i,
        Err(_) => panic!("opening succeeded"),
    };
    let mut reader = erase(input.buffered());
    let mut out = Vec::new();
    reader.read_to_end(&mut out).unwrap();
    assert_eq!(out, b"hello\n");
}

#[test]
fn erase_unbuffered_file_keeps_bytes() {
    let input: Input<Bytes> = Input::File(Cursor::new(b"line one\nline two\n".to_vec()));
    let mut reader = erase(input);
    let mut out = Vec::new();
    reader.read_to_end(&mut out).unwrap();
    assert_eq!(out, b"line one\nline two\n");
}

#[test]
fn into_dyn_read_picks_conversion_by_variant() {
    let file: Input<u8> = Input::File(7);
    assert_eq!(file.into_dyn_read(|f| f as u32 + 1, |_| 0), 8);
    let stdin: Input<u8> = Input::Stdin(io::stdin());
    assert_eq!(stdin.into_dyn_read(|f| f as u32 + 1, |_| 0), 0);
}

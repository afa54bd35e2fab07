use ssip_client::client::Client;
use ssip_client::stream::{InputBuffer, OutputBuffer};

/// The lines of `lines`, each with its line end.
fn split_lines(lines: &str) -> Vec<String> {
    lines
        .trim_end()
        .split("\r\n")
        .map(|s| format!("{}\r\n", s))
        .collect::<Vec<String>>()
}

#[test]
fn server_test_split_lines() {
    const ONE_LINE: &str = "one line\r\n";
    let one_line = split_lines(ONE_LINE);
    assert_eq!(&[ONE_LINE], one_line.as_slice());
}

#[test]
fn test_split_lines() {
    const ONE_LINE: &str = "one line\r\n";
    let one_line = split_lines(ONE_LINE);
    assert_eq!(&[ONE_LINE], one_line.as_slice());
}

#[test]
fn split_lines_adds_a_missing_line_end() {
    assert_eq!(vec!["a\r\n", "b\r\n"], split_lines("a\r\nb"));
    let mut client = Client::new(InputBuffer::new(), OutputBuffer::new());
    client.speak().unwrap().send_line("Hello").unwrap();
    let sent = String::from_utf8(client.take_output()).unwrap();
    assert_eq!(split_lines("SPEAK\r\nHello\r\n."), split_lines(&sent));
}

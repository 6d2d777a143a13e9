use proxy_client::error::StreamError;
use proxy_client::framing::{
    frame, frame_buffer, frame_json, frame_text, lines, shutdown, write_to_socket, WriteOutcome,
};

#[test]
fn frame_puts_a_newline_behind_the_message() {
    assert_eq!(frame(b"{\"id\":1}".to_vec()), b"{\"id\":1}\n".to_vec());
    assert_eq!(frame(Vec::new()), b"\n".to_vec());
}

#[test]
fn frame_text_writes_utf8() {
    assert_eq!(frame_text("矿机"), "矿机\n".as_bytes().to_vec());
}

#[test]
fn frame_buffer_holds_the_line() {
    let buffer = frame_buffer(b"abc");
    assert_eq!(&buffer[..], b"abc\n");
    assert_eq!(&frame_buffer(b"")[..], b"\n");
}

#[test]
fn frame_json_quotes_a_plain_text() {
    assert_eq!(&frame_json(&"job".to_string())[..], b"\"job\"\n");
    assert_eq!(&frame_json(&String::new())[..], b"\"\"\n");
}

#[test]
fn frame_json_escapes_what_json_escapes() {
    let text = "\"\\\u{8}\t\n\u{c}\r\u{0}\u{1f}\u{7f}/矿".to_string();
    let expected = "\"\\\"\\\\\\b\\t\\n\\f\\r\\u0000\\u001f\u{7f}/矿\"\n";
    assert_eq!(&frame_json(&text)[..], expected.as_bytes());
}

#[test]
fn frame_json_is_one_line_whatever_the_text() {
    let line = frame_json(&"{\"a\":1}\n{\"b\":2}\n".to_string());
    assert_eq!(line.iter().filter(|b| **b == b'\n').count(), 1);
    assert_eq!(line[line.len() - 1], b'\n');
    assert_eq!(&line[..], b"\"{\\\"a\\\":1}\\n{\\\"b\\\":2}\\n\"\n");
}

#[test]
fn lines_skips_empty_pieces() {
    assert_eq!(lines("a\n\nb\n"), vec!["a".to_string(), "b".to_string()]);
    assert_eq!(lines("\n\n"), Vec::<String>::new());
    assert_eq!(lines(""), Vec::<String>::new());
    assert_eq!(lines("\nab"), vec!["ab".to_string()]);
}

#[test]
fn lines_agrees_with_split() {
    for text in ["", "x", "x\ny", "\nx\n\ny\n", "矿\n机\n\n✅", "a\r\nb"] {
        let expected: Vec<String> = text
            .split("\n")
            .filter(|piece| !piece.is_empty())
            .map(|piece| piece.to_string())
            .collect();
        assert_eq!(lines(text), expected);
    }
}

#[test]
fn a_framed_line_is_read_as_written() {
    let text = "{\"id\":0,\"result\":[\"0x1\"]}";
    let framed = String::from_utf8(frame_text(text)).unwrap();
    assert_eq!(lines(&framed), vec![text.to_string()]);
}

#[test]
fn a_write_of_nothing_means_disconnected() {
    let worker = "0xabc.rig".to_string();
    let error = write_to_socket(WriteOutcome::Written { len: 0 }, &worker).unwrap_err();
    assert_eq!(error, StreamError::Disconnected { worker: worker.clone() });
    assert_eq!(error.message(), "✅ Worker: 0xabc.rig 服务器断开连接.");
}

#[test]
fn a_partial_write_is_good_enough() {
    assert_eq!(write_to_socket(WriteOutcome::Written { len: 1 }, &String::new()), Ok(()));
}

#[test]
fn a_failed_write_keeps_its_reason() {
    let outcome = WriteOutcome::Failed { reason: "broken pipe".to_string() };
    let error = write_to_socket(outcome, &String::new()).unwrap_err();
    assert_eq!(error, StreamError::WriteFailed { reason: "broken pipe".to_string() });
    assert_eq!(error.message(), "broken pipe");
}

#[test]
fn shutdown_reports_failure() {
    assert_eq!(shutdown(true), Ok(()));
    let error = shutdown(false).unwrap_err();
    assert_eq!(error, StreamError::ShutdownFailed);
    assert_eq!(error.message(), "关闭Pool 链接失败");
}

#[test]
fn every_error_has_its_text() {
    let reason = "why".to_string();
    assert_eq!(StreamError::LoginWithoutWallet.message(), "请求登录出错。可能收到暴力攻击");
    assert_eq!(
        StreamError::Offline { worker_name: "w.n".to_string() }.message(),
        "矿机下线了 : w.n"
    );
    assert_eq!(
        StreamError::TimedOut { reason: reason.clone() }.message(),
        "读取超时了 矿机下线了: why"
    );
    assert_eq!(
        StreamError::PoolUnreadable { reason: reason.clone() }.message(),
        "矿机下线了: why"
    );
    assert_eq!(StreamError::BadJob { reason }.message(), "why");
}

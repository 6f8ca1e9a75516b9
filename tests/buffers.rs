use portscan_core::capture::{capture_command_output, capture_output_lines, push_text_lines};
use portscan_core::output_buffer::OutputBuffer;
use portscan_core::results::{update_results, ResultsModel, ResultsMsg};

fn filled(n: usize, max: usize) -> OutputBuffer {
    let mut b = OutputBuffer::with_capacity(max);
    for i in 0..n {
        b.push_line(format!("line {i}"));
    }
    b
}

#[test]
fn empty_buffer_shows_placeholder() {
    let b = OutputBuffer::new();
    assert_eq!(b.get_visible_lines(10), vec!["[No output yet]".to_string()]);
    let info = b.scroll_info(10);
    assert_eq!(info.total_lines, 0);
    assert!(info.at_bottom && info.at_top);
}

#[test]
fn visible_window_follows_scroll() {
    let mut b = filled(10, 100);
    assert_eq!(b.get_visible_lines(5), vec!["line 7", "line 8", "line 9"]);
    assert!(b.get_visible_lines(2).is_empty());
    b.scroll_up(4);
    assert_eq!(b.get_visible_lines(5), vec!["line 3", "line 4", "line 5"]);
    b.scroll_up(100);
    assert_eq!(b.scroll_info(5).scroll_position, 9);
    assert_eq!(b.get_visible_lines(5), vec!["line 0", "line 1", "line 2"]);
    b.scroll_down(3);
    assert_eq!(b.scroll_info(5).scroll_position, 6);
    b.scroll_to_bottom();
    assert!(b.scroll_info(5).at_bottom);
    b.scroll_to_top();
    assert!(b.scroll_info(5).at_top);
    b.clear();
    assert_eq!(b.scroll_info(5).total_lines, 0);
}

#[test]
fn capacity_drops_oldest_and_scroll_follows() {
    let mut b = filled(5, 3);
    assert_eq!(b.get_visible_lines(10), vec!["line 2", "line 3", "line 4"]);
    b.scroll_up(2);
    b.push_line("new".to_string());
    assert_eq!(b.scroll_info(10).scroll_position, 1);
    assert_eq!(b.scroll_info(10).total_lines, 3);
}

#[test]
fn results_split_lines_and_messages() {
    let mut m = ResultsModel::default();
    m.push_line("a\nb".to_string());
    assert_eq!(m.lines, vec!["a", "b"]);
    update_results(&mut m, ResultsMsg::AppendLines(vec!["c".to_string(), "d".to_string()]));
    assert_eq!(m.lines.len(), 4);
    update_results(&mut m, ResultsMsg::ScrollUp(2));
    assert_eq!(m.scroll_position, 2);
    update_results(&mut m, ResultsMsg::ScrollToTop);
    assert_eq!(m.scroll_position, 3);
    update_results(&mut m, ResultsMsg::ScrollDown(1));
    assert_eq!(m.scroll_position, 2);
    update_results(&mut m, ResultsMsg::AppendLine("e".to_string()));
    assert_eq!(m.scroll_position, 1);
    assert_eq!(m.get_visible_lines(4), vec!["c", "d"]);
    update_results(&mut m, ResultsMsg::ScrollToBottom);
    assert!(m.scroll_info(4).at_bottom);
    update_results(&mut m, ResultsMsg::Clear);
    assert!(m.lines.is_empty());
}

#[test]
fn results_capacity() {
    let mut m = ResultsModel { lines: vec![], scroll_position: 0, max_lines: 2 };
    m.push_line("1\n2\n3".to_string());
    assert_eq!(m.lines, vec!["2", "3"]);
}

#[test]
fn command_output_is_captured_line_by_line() {
    let mut b = OutputBuffer::new();
    capture_command_output(&mut b, "nmap", b"open\r\n\n  \nport 22\n".to_vec(), b"bad\n".to_vec());
    assert_eq!(
        b.get_visible_lines(20),
        vec!["=== nmap Output ===", "open", "port 22", "--- STDERR ---", "ERROR: bad", ""]
    );
    let mut c = OutputBuffer::new();
    capture_command_output(&mut c, "ls", b"x".to_vec(), vec![]);
    assert_eq!(c.get_visible_lines(20), vec!["=== ls Output ===", "x", ""]);
}

#[test]
fn text_and_lines_capture() {
    let mut b = OutputBuffer::new();
    push_text_lines(&mut b, "one\n\n two \n");
    capture_output_lines(&mut b, vec!["three".to_string()]);
    assert_eq!(b.get_visible_lines(10), vec!["one", " two ", "three"]);
}

use web_chart_ws_server::frame::Frame;
use web_chart_ws_server::reader::{ReadOutcome, Reader, ReaderAction};
use web_chart_ws_server::task::{TaskState, CHANNEL_CAPACITY, READ_TIMEOUT_MS, TICK_PERIOD_MS};
use web_chart_ws_server::ticker::{decimal_text, tick_frame, Ticker, TickerAction};
use web_chart_ws_server::writer::{Writer, WriterAction};

fn text(s: &str) -> Frame {
    Frame::text(s.to_string())
}

/// Runs the writer over `items`, every write succeeding, and returns what it wrote.
fn drain(items: Vec<Frame>) -> Vec<Frame> {
    let mut writer = Writer::new();
    let mut written = Vec::new();
    for item in items {
        match writer.on_item(Some(item)) {
            WriterAction::Write(f) => {
                written.push(f);
                writer.on_written(true);
            }
            WriterAction::Stop => break,
        }
    }
    written
}

#[test]
fn connection_parameters() {
    assert_eq!(CHANNEL_CAPACITY, 32);
    assert_eq!(READ_TIMEOUT_MS, 100);
    assert_eq!(TICK_PERIOD_MS, 5000);
}

#[test]
fn decimal_text_of_single_digits() {
    assert_eq!(decimal_text(0), "0");
    assert_eq!(decimal_text(7), "7");
    assert_eq!(decimal_text(9), "9");
}

#[test]
fn decimal_text_of_several_digits() {
    assert_eq!(decimal_text(10), "10");
    assert_eq!(decimal_text(42), "42");
    assert_eq!(decimal_text(100), "100");
    assert_eq!(decimal_text(255), "255");
}

#[test]
fn decimal_text_reads_back() {
    for n in 0..=255u8 {
        assert_eq!(decimal_text(n).parse::<u8>().unwrap(), n);
        assert_eq!(decimal_text(n), n.to_string());
    }
}

#[test]
fn tick_frame_is_decimal_text() {
    assert_eq!(tick_frame(57), text("57"));
    assert_eq!(tick_frame(0), text("0"));
    assert_eq!(tick_frame(100), text("100"));
}

#[test]
fn ticks_are_decimal_percentages() {
    let ticker = Ticker::new();
    for _ in 0..500 {
        match ticker.on_tick() {
            TickerAction::Push(Frame::Text(s)) => {
                let v: u32 = s.parse().unwrap();
                assert!(v <= 100);
                assert_eq!(s, v.to_string());
            }
            other => panic!("unexpected tick action {:?}", other),
        }
    }
}

#[test]
fn ticks_vary() {
    let ticker = Ticker::new();
    let mut seen = Vec::new();
    for _ in 0..200 {
        if let TickerAction::Push(f) = ticker.on_tick() {
            if !seen.contains(&f) {
                seen.push(f);
            }
        }
    }
    assert!(seen.len() > 1);
}

#[test]
fn ticker_stops_after_refused_push() {
    let mut ticker = Ticker::new();
    ticker.on_pushed(true);
    assert_eq!(ticker.state, TaskState::Running);
    ticker.on_pushed(false);
    assert_eq!(ticker.state, TaskState::Terminated);
    assert_eq!(ticker.on_tick(), TickerAction::Stop);
    ticker.on_pushed(true);
    assert_eq!(ticker.state, TaskState::Terminated);
}

#[test]
fn hello_is_echoed_as_next_frame() {
    let reader = Reader::new();
    let queued = match reader.on_read(ReadOutcome::Received(text("hello"))) {
        ReaderAction::Echo(f) => f,
        other => panic!("unexpected reader action {:?}", other),
    };
    let mut writer = Writer::new();
    assert_eq!(writer.on_item(Some(queued)), WriterAction::Write(text("hello")));
}

#[test]
fn binary_frames_are_echoed_unchanged() {
    let reader = Reader::new();
    let f = Frame::Binary(vec![0, 159, 146, 150]);
    assert_eq!(reader.on_read(ReadOutcome::Received(f.clone())), ReaderAction::Echo(f));
    let p = Frame::Ping(vec![1, 2]);
    assert_eq!(reader.on_read(ReadOutcome::Received(p.clone())), ReaderAction::Echo(p));
}

#[test]
fn idle_reader_releases_and_retries() {
    let reader = Reader::new();
    for _ in 0..60 {
        assert_eq!(reader.on_read(ReadOutcome::TimedOut), ReaderAction::Retry);
    }
    assert_eq!(reader.on_read(ReadOutcome::Failed), ReaderAction::Retry);
    assert_eq!(reader.on_read(ReadOutcome::Ended), ReaderAction::Retry);
    assert_eq!(reader.state, TaskState::Running);
}

#[test]
fn reader_stops_after_refused_echo() {
    let mut reader = Reader::new();
    reader.on_echoed(true);
    assert_eq!(reader.state, TaskState::Running);
    reader.on_echoed(false);
    assert_eq!(reader.state, TaskState::Terminated);
    assert_eq!(reader.on_read(ReadOutcome::Received(text("late"))), ReaderAction::Stop);
    assert_eq!(reader.on_read(ReadOutcome::TimedOut), ReaderAction::Stop);
}

#[test]
fn writer_keeps_queue_order() {
    let items = vec![text("hello"), text("57"), Frame::Binary(vec![1]), text("3"), text("world")];
    assert_eq!(drain(items.clone()), items);
}

#[test]
fn writer_stops_when_queue_closes() {
    let mut writer = Writer::new();
    assert_eq!(writer.on_item(None), WriterAction::Stop);
    assert_eq!(writer.state, TaskState::Terminated);
}

#[test]
fn write_failure_stops_delivery() {
    let mut writer = Writer::new();
    assert_eq!(writer.on_item(Some(text("a"))), WriterAction::Write(text("a")));
    writer.on_written(false);
    assert_eq!(writer.state, TaskState::Terminated);
    assert_eq!(writer.on_item(Some(text("b"))), WriterAction::Stop);
    assert_eq!(writer.on_item(Some(text("42"))), WriterAction::Stop);
}

#[test]
fn write_failure_leaves_producers_running() {
    let mut writer = Writer::new();
    let mut reader = Reader::new();
    let ticker = Ticker::new();
    writer.on_item(Some(text("x")));
    writer.on_written(false);
    assert_eq!(writer.state, TaskState::Terminated);
    assert_eq!(reader.on_read(ReadOutcome::Received(text("y"))), ReaderAction::Echo(text("y")));
    reader.on_echoed(true);
    assert_eq!(reader.state, TaskState::Running);
    assert!(matches!(ticker.on_tick(), TickerAction::Push(_)));
}

#[test]
fn frame_text_classification() {
    let t = text("hi");
    assert!(t.is_text());
    assert_eq!(t.as_text(), Some(&"hi".to_string()));
    let b = Frame::Binary(vec![104, 105]);
    assert!(!b.is_text());
    assert_eq!(b.as_text(), None);
    let c = Frame::Close(Some((1000, "bye".to_string())));
    assert!(!c.is_text());
    assert_eq!(c.as_text(), None);
}

#[test]
fn task_state_transitions() {
    assert!(TaskState::Running.is_running());
    assert!(!TaskState::Terminated.is_running());
    assert_eq!(TaskState::Running.after(true), TaskState::Running);
    assert_eq!(TaskState::Running.after(false), TaskState::Terminated);
    assert_eq!(TaskState::Terminated.after(true), TaskState::Terminated);
}

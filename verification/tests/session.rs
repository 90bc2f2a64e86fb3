use karakuri_syphon::line::{read_line, text_span, Line};
use karakuri_syphon::message::{hello, HostMessage, PluginMessage};
use karakuri_syphon::options::server_name;
use karakuri_syphon::session::{Input, Phase, Reaction, Session};

fn waiting() -> Session {
    Session::new("Stage".to_string())
}

fn open(surface: &str) -> Input {
    Input::Message(HostMessage::Open {
        surface: surface.to_string(),
        width: 1920,
        height: 1080,
        format: "bgra8".to_string(),
    })
}

fn frame(index: u64, surface_id: u32, width: u32, height: u32) -> Input {
    Input::Message(HostMessage::Frame { index, surface_id, width, height })
}

fn streaming() -> Session {
    let mut session = waiting();
    session.step(open("iosurface"), 0);
    session
}

fn args(list: &[&str]) -> Vec<String> {
    list.iter().map(|arg| arg.to_string()).collect()
}

#[test]
fn greeting() {
    assert_eq!(
        hello(),
        PluginMessage::Hello {
            v: 1,
            kind: "output".to_string(),
            name: "syphon".to_string(),
            surfaces: vec!["iosurface".to_string()],
        }
    );
}

#[test]
fn opening_makes_ready() {
    let mut session = waiting();
    assert_eq!(
        session.step(open("iosurface"), 0),
        Reaction::Opened {
            width: 1920,
            height: 1080,
            format: "bgra8".to_string(),
            ready: PluginMessage::Ready { server_name: "Stage".to_string() },
        }
    );
    assert_eq!(session.phase(), Phase::Streaming { width: 1920, height: 1080, frames: 0 });
    assert_eq!(session.server_name(), "Stage");
    assert_eq!(session.step(open("iosurface"), 5), Reaction::Ignored);
    assert_eq!(session.step(open("dmabuf"), 5), Reaction::Ignored);
    assert_eq!(session.phase(), Phase::Streaming { width: 1920, height: 1080, frames: 0 });
}

#[test]
fn other_surfaces_are_refused() {
    let mut session = waiting();
    assert_eq!(
        session.step(open("dmabuf"), 0),
        Reaction::Unsupported { surface: "dmabuf".to_string() }
    );
    assert_eq!(session.phase(), Phase::Ended);
    assert_eq!(session.step(open("iosurface"), 0), Reaction::Ignored);
    assert_eq!(session.phase(), Phase::Ended);
}

#[test]
fn noise_before_opening_is_passed_over() {
    let mut session = waiting();
    assert_eq!(session.step(frame(1, 2, 3, 4), 9), Reaction::Unexpected);
    assert_eq!(
        session.step(Input::Message(HostMessage::Resize { width: 1, height: 1 }), 9),
        Reaction::Unexpected
    );
    assert_eq!(session.step(Input::Message(HostMessage::Unknown), 9), Reaction::Unexpected);
    assert_eq!(session.step(Input::Unparseable, 9), Reaction::Unparseable);
    assert_eq!(session.phase(), Phase::AwaitingOpen);
}

#[test]
fn closing_before_opening() {
    let mut session = waiting();
    assert_eq!(session.step(Input::Message(HostMessage::Close), 0), Reaction::Closed);
    assert_eq!(session.phase(), Phase::Ended);
    let mut session = waiting();
    assert_eq!(session.step(Input::End, 0), Reaction::Silence);
    assert_eq!(session.phase(), Phase::Ended);
}

#[test]
fn frames_are_counted_and_published() {
    let mut session = streaming();
    assert_eq!(
        session.step(frame(10, 77, 1920, 1080), 0),
        Reaction::Frame { index: 10, surface_id: 77, total: 1, status: None }
    );
    assert_eq!(
        session.step(frame(11, 78, 640, 480), 1),
        Reaction::Frame {
            index: 11,
            surface_id: 78,
            total: 2,
            status: Some(PluginMessage::Status { clients: 0, dropped: 0 }),
        }
    );
    assert_eq!(session.phase(), Phase::Streaming { width: 640, height: 480, frames: 2 });
}

#[test]
fn resizing_keeps_the_count() {
    let mut session = streaming();
    session.step(frame(1, 2, 1920, 1080), 0);
    assert_eq!(
        session.step(Input::Message(HostMessage::Resize { width: 800, height: 600 }), 3),
        Reaction::Resized { width: 800, height: 600 }
    );
    assert_eq!(session.phase(), Phase::Streaming { width: 800, height: 600, frames: 1 });
}

#[test]
fn noise_while_streaming_is_passed_over() {
    let mut session = streaming();
    assert_eq!(session.step(Input::Message(HostMessage::Unknown), 9), Reaction::Ignored);
    assert_eq!(session.step(Input::Unparseable, 9), Reaction::Unparseable);
    assert_eq!(session.phase(), Phase::Streaming { width: 1920, height: 1080, frames: 0 });
}

#[test]
fn the_end_is_final() {
    let mut session = streaming();
    assert_eq!(session.step(Input::Message(HostMessage::Close), 0), Reaction::Closed);
    assert_eq!(session.step(frame(1, 2, 3, 4), 9), Reaction::Ignored);
    assert_eq!(session.phase(), Phase::Ended);
    let mut session = streaming();
    assert_eq!(session.step(Input::End, 0), Reaction::Silence);
    assert_eq!(session.step(Input::End, 0), Reaction::Ignored);
    assert_eq!(session.phase(), Phase::Ended);
}

#[test]
fn name_from_the_command_line() {
    assert_eq!(server_name(&args(&[])), "Karakuri");
    assert_eq!(server_name(&args(&["--name", "Stage"])), "Stage");
    assert_eq!(server_name(&args(&["-v", "--name", "Stage", "x"])), "Stage");
    assert_eq!(server_name(&args(&["--name", "A", "--name", "B"])), "B");
    assert_eq!(server_name(&args(&["--name"])), "Karakuri");
    assert_eq!(server_name(&args(&["--name", "A", "--name"])), "A");
    assert_eq!(server_name(&args(&["--name", "--name", "B"])), "--name");
    assert_eq!(server_name(&args(&["--names", "B"])), "Karakuri");
}

#[test]
fn lines_are_trimmed() {
    assert_eq!(read_line(9, " \t{\"t\": 1}\r\n"), Line::Text("{\"t\": 1}"));
    assert_eq!(read_line(1, "x"), Line::Text("x"));
    assert_eq!(read_line(9, "\u{3000}\u{e9} \u{6f22}\u{a0}\n"), Line::Text("\u{e9} \u{6f22}"));
    assert_eq!(read_line(1, "\u{200b}"), Line::Text("\u{200b}"));
}

#[test]
fn blank_lines_say_nothing() {
    assert_eq!(read_line(1, "\n"), Line::Blank);
    assert_eq!(read_line(4, " \t\r\n"), Line::Blank);
    assert_eq!(read_line(3, "\u{2028}"), Line::Blank);
}

#[test]
fn nothing_read_is_the_end() {
    assert_eq!(read_line(0, ""), Line::End);
    assert_eq!(read_line(0, "half a line"), Line::End);
}

#[test]
fn spans_of_text() {
    assert_eq!(text_span(&vec![]), None);
    assert_eq!(text_span(&vec![true, true]), None);
    assert_eq!(text_span(&vec![false]), Some((0, 1)));
    assert_eq!(text_span(&vec![true, false, true, false, true, true]), Some((1, 4)));
}

#[test]
fn trimming_again_changes_nothing() {
    let line = "\t\u{2003}{\"t\":\"close\"} \n";
    match read_line(line.len(), line) {
        Line::Text(text) => {
            assert_eq!(text, line.trim());
            assert_eq!(read_line(text.len(), text), Line::Text(text));
        }
        other => panic!("{:?}", other),
    }
}

#[test]
fn white_space_characters() {
    for code in 0..=0x10FFFFu32 {
        if let Some(c) = char::from_u32(code) {
            let white = matches!(
                code,
                0x9..=0xD
                    | 0x20
                    | 0x85
                    | 0xA0
                    | 0x1680
                    | 0x2000..=0x200A
                    | 0x2028
                    | 0x2029
                    | 0x202F
                    | 0x205F
                    | 0x3000
            );
            let line = c.to_string();
            assert_eq!(read_line(line.len(), &line) == Line::Blank, white, "{:x}", code);
        }
    }
}

#[test]
fn intervals_start_with_ready_and_with_each_report() {
    let mut session = waiting();
    assert!(!session.step(Input::Unparseable, 0).starts_interval());
    assert!(session.step(open("iosurface"), 0).starts_interval());
    assert!(!session.step(frame(1, 2, 3, 4), 0).starts_interval());
    assert!(session.step(frame(2, 2, 3, 4), 1).starts_interval());
    assert!(session.step(frame(3, 2, 3, 4), u64::MAX).starts_interval());
    assert!(!session.step(Input::Message(HostMessage::Close), 9).starts_interval());
}

#[test]
fn reports_are_a_second_apart() {
    let mut session = streaming();
    let mut interval_start: u64 = 0;
    let mut reports: Vec<u64> = Vec::new();
    for i in 0..40u64 {
        let now_millis = i * 130;
        let elapsed_secs = (now_millis - interval_start) / 1000;
        if session.step(frame(i, 2, 3, 4), elapsed_secs).starts_interval() {
            interval_start = now_millis;
            reports.push(now_millis);
        }
    }
    assert_eq!(reports, vec![1040, 2080, 3120, 4160]);
}

use chat_agent::chat::{
    add_chat, get_chat, request_failed, Candidate, JobOutput, Round, Step, StreamItem, ToolJob,
};
use chat_agent::defs::{Content, Data, FunctionCall, Kind, Part, Role, Struct, Value};
use chat_agent::search::{GlobScan, PathInfo, PathStat};
use chat_agent::text::decimal;

fn text_part(s: &str) -> Part {
    Part::new(Data::Text { text: s.to_string() })
}

fn call_part(id: &str, name: &str, key: &str, arg: &str) -> Part {
    Part::new(Data::FunctionCall(FunctionCall {
        id: id.to_string(),
        name: name.to_string(),
        args: Some(Struct {
            fields: vec![(key.to_string(), Value { kind: Some(Kind::StringValue(arg.to_string())) })],
        }),
    }))
}

fn user(s: &str) -> Content {
    Content { parts: vec![text_part(s)], role: Role::User }
}

fn response(reason: i32, parts: Option<Vec<Part>>) -> StreamItem {
    StreamItem::Response(Some(Candidate {
        finish_reason: reason,
        content: parts.map(|parts| Content { parts, role: Role::Model }),
    }))
}

fn notice_text(step: &Step) -> String {
    match step {
        Step::Abort(c) => {
            assert_eq!(c.role, Role::System);
            assert_eq!(c.parts.len(), 1);
            match &c.parts[0].data {
                Some(Data::Text { text }) => text.clone(),
                _ => panic!("not a text part"),
            }
        },
        _ => panic!("not an abort"),
    }
}

#[test]
fn store_appends_and_reads_back() {
    let mut h: Vec<Content> = vec![];
    add_chat(&mut h, user("hi"));
    add_chat(&mut h, user("there"));
    let snap = get_chat(&h);
    assert_eq!(snap.len(), 2);
    assert_eq!(snap[1].role, Role::User);
}

#[test]
fn request_failure_is_a_system_notice() {
    let c = request_failed("Status { code: Unavailable }");
    assert_eq!(c.role, Role::System);
    match &c.parts[0].data {
        Some(Data::Text { text }) => {
            assert_eq!(text, "Error while generating stream content: Status { code: Unavailable }")
        },
        _ => panic!("not text"),
    }
}

#[test]
fn bad_status_stops_and_keeps_history() {
    let mut h = vec![user("hi")];
    let mut round = Round::new(&h);
    let step = round.on_item(&mut h, response(3, Some(vec![text_part("partial")])));
    assert_eq!(notice_text(&step), "Generation failed with code: 3");
    assert_eq!(h.len(), 1);
}

#[test]
fn bad_status_after_content_drops_the_round() {
    let mut h = vec![user("hi")];
    let mut round = Round::new(&h);
    assert!(matches!(round.on_item(&mut h, response(1, Some(vec![text_part("Hel")]))), Step::Appended));
    assert_eq!(round.pending.len(), 1);
    assert_eq!(h.len(), 1);
    let step = round.on_item(&mut h, response(3, None));
    assert_eq!(notice_text(&step), "Generation failed with code: 3");
    assert_eq!(h.len(), 1);
    assert_eq!(h[0].role, Role::User);
}

#[test]
fn stream_failure_stops_and_keeps_history() {
    let mut h = vec![user("hi")];
    let mut round = Round::new(&h);
    round.on_item(&mut h, response(0, Some(vec![call_part("c", "search_fs", "pattern", "/*")])));
    let step = round.on_item(&mut h, StreamItem::Failed("broken pipe".to_string()));
    assert_eq!(notice_text(&step), "Error while iterating stream: broken pipe");
    assert_eq!(h.len(), 1);
}

#[test]
fn request_failure_stops_and_keeps_history() {
    let mut h = vec![user("hi")];
    let mut round = Round::new(&h);
    let step = round.on_item(&mut h, StreamItem::RequestFailed("Unavailable".to_string()));
    assert_eq!(notice_text(&step), "Error while generating stream content: Unavailable");
    assert_eq!(h.len(), 1);
}

#[test]
fn empty_items_are_skipped() {
    let mut h = vec![user("hi")];
    let mut round = Round::new(&h);
    assert!(matches!(round.on_item(&mut h, StreamItem::Response(None)), Step::Skip));
    assert!(matches!(round.on_item(&mut h, response(1, None)), Step::Skip));
    assert!(matches!(round.on_item(&mut h, StreamItem::End), Step::Finished(false)));
    assert_eq!(h.len(), 1);
}

#[test]
fn final_answer_ends_the_conversation() {
    let mut h = vec![user("hi")];
    let mut round = Round::new(&h);
    assert!(matches!(round.on_item(&mut h, response(0, Some(vec![text_part("Hel")]))), Step::Appended));
    assert!(!round.answer_calls(&vec![]));
    assert!(matches!(round.on_item(&mut h, response(1, Some(vec![text_part("lo")]))), Step::Appended));
    assert_eq!(h.len(), 1);
    assert!(matches!(round.on_item(&mut h, StreamItem::End), Step::Finished(false)));
    assert_eq!(h.len(), 3);
    assert_eq!(h[1].role, Role::Model);
    assert_eq!(h[2].role, Role::Model);
}

#[test]
fn unknown_call_beside_known_call() {
    let mut h = vec![user("list files")];
    let mut round = Round::new(&h);
    let parts = vec![
        text_part("Looking."),
        call_part("c1", "search_fs", "pattern", "/tmp/*"),
        call_part("c2", "format_disk", "device", "/dev/sda"),
    ];
    assert!(matches!(round.on_item(&mut h, response(1, Some(parts))), Step::Appended));
    let jobs = round.pending_jobs();
    assert_eq!(jobs.len(), 2);
    assert!(matches!(&jobs[0], ToolJob::Search(p) if p == "/tmp/*"));
    assert!(matches!(&jobs[1], ToolJob::Nothing));
    let outputs = vec![
        JobOutput::Scan(GlobScan::Paths(vec![PathStat::Found(PathInfo {
            path: "/tmp/a".to_string(),
            uid: 0,
            gid: 0,
            mode: 0o100644,
        })])),
        JobOutput::Nothing,
    ];
    assert!(round.answer_calls(&outputs));
    assert!(matches!(round.on_item(&mut h, StreamItem::End), Step::Finished(true)));
    assert_eq!(h.len(), 3);
    assert_eq!(h[1].role, Role::Model);
    let tool = &h[2];
    assert_eq!(tool.role, Role::Tool);
    assert_eq!(tool.parts.len(), 2);
    match &tool.parts[0].data {
        Some(Data::FunctionResponse(r)) => {
            assert_eq!(r.id, "c1");
            assert_eq!(r.name, "search_fs");
            assert!(r.response.is_some());
        },
        _ => panic!("first part is not a function response"),
    }
    match &tool.parts[1].data {
        Some(Data::Text { text }) => assert_eq!(text, "Unknown function 'format_disk'"),
        _ => panic!("second part is not text"),
    }
}

#[test]
fn read_call_round_trip_through_history() {
    let mut h = vec![user("show")];
    let mut round = Round::new(&h);
    round.on_item(&mut h, response(0, Some(vec![call_part("r", "read_fs", "path", "/missing")])));
    let jobs = round.pending_jobs();
    assert!(matches!(&jobs[0], ToolJob::Read(p) if p == "/missing"));
    let outputs = vec![JobOutput::Read(Err("No such file or directory (os error 2)".to_string()))];
    assert!(round.answer_calls(&outputs));
    assert!(matches!(round.on_item(&mut h, StreamItem::End), Step::Finished(true)));
    match &h[2].parts[0].data {
        Some(Data::FunctionResponse(r)) => {
            let st = r.response.as_ref().expect("response");
            assert_eq!(st.fields.len(), 1);
            assert_eq!(st.fields[0].0, "error");
        },
        _ => panic!("not a function response"),
    }
}

#[test]
fn decimal_text() {
    assert_eq!(decimal(0), "0");
    assert_eq!(decimal(7), "7");
    assert_eq!(decimal(1024), "1024");
    assert_eq!(decimal(-3), "-3");
    assert_eq!(decimal(i32::MIN), "-2147483648");
    assert_eq!(decimal(i32::MAX), "2147483647");
}

#[test]
fn data_from_string_is_text() {
    let d = Data::from("hello".to_string());
    assert!(matches!(d, Data::Text { text } if text == "hello"));
}

#[test]
fn event_frame_wraps_json() {
    assert_eq!(chat_agent::chat::frame_from_json("{\"a\":1}"), "data: {\"a\":1}\n\n");
}

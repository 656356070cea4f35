use chat_agent::chat::{handle_function_call, tool_job, JobOutput, ToolJob};
use chat_agent::defs::{FunctionCall, Kind, Struct, Value};
use chat_agent::read::handle_read_fs;
use chat_agent::search::{handle_search_fs, mode_to_str, search_fs, GlobScan, PathInfo, PathStat};

fn text(s: &str) -> Value {
    Value { kind: Some(Kind::StringValue(s.to_string())) }
}

fn call(id: &str, name: &str, args: Option<Vec<(&str, Value)>>) -> FunctionCall {
    FunctionCall {
        id: id.to_string(),
        name: name.to_string(),
        args: args.map(|f| Struct { fields: f.into_iter().map(|(k, v)| (k.to_string(), v)).collect() }),
    }
}

fn field<'a>(s: &'a Struct, key: &str) -> &'a Value {
    &s.fields.iter().find(|(k, _)| k == key).expect("field present").1
}

fn as_text(v: &Value) -> &str {
    match &v.kind {
        Some(Kind::StringValue(s)) => s,
        _ => panic!("not a string"),
    }
}

fn as_list(v: &Value) -> &Vec<Value> {
    match &v.kind {
        Some(Kind::ListValue(l)) => &l.values,
        _ => panic!("not a list"),
    }
}

fn as_struct(v: &Value) -> &Struct {
    match &v.kind {
        Some(Kind::StructValue(s)) => s,
        _ => panic!("not a map"),
    }
}

fn as_bits(v: &Value) -> u64 {
    match &v.kind {
        Some(Kind::NumberValue(b)) => *b,
        _ => panic!("not a number"),
    }
}

fn info(path: &str, uid: u32, gid: u32, mode: u32) -> PathStat {
    PathStat::Found(PathInfo { path: path.to_string(), uid, gid, mode })
}

#[test]
fn mode_regular_file() {
    assert_eq!(mode_to_str(0o100644), "-rw-r--r--");
}

#[test]
fn mode_directory() {
    assert_eq!(mode_to_str(0o040755), "drwxr-xr-x");
}

#[test]
fn mode_setuid_replaces_owner_execute() {
    assert_eq!(mode_to_str(0o104755), "-rwsr-xr-x");
    assert_eq!(mode_to_str(0o104644), "-rwsr--r--");
}

#[test]
fn mode_sticky_only_directory() {
    assert_eq!(mode_to_str(0o041000), "d--------t");
    assert_eq!(mode_to_str(0o101755), "-rwxr-xr-t");
}

#[test]
fn mode_setgid_and_other_types() {
    assert_eq!(mode_to_str(0o022000), "c-----s---");
    assert_eq!(mode_to_str(0o120777), "lrwxrwxrwx");
    assert_eq!(mode_to_str(0o060600), "brw-------");
    assert_eq!(mode_to_str(0o010644), "prw-r--r--");
    assert_eq!(mode_to_str(0o140755), "srwxr-xr-x");
    assert_eq!(mode_to_str(0o000644), "?rw-r--r--");
    assert_eq!(mode_to_str(0o107777), "-rwsrwsrwt");
}

#[test]
fn search_zero_matches_is_no_error() {
    let (entries, errors) = search_fs(&GlobScan::Paths(vec![]));
    assert!(entries.is_empty());
    assert!(errors.is_empty());
    let r = handle_search_fs(&call("c1", "search_fs", Some(vec![("pattern", text("/nothing/*"))])), &GlobScan::Paths(vec![]));
    let st = r.response.expect("response");
    assert_eq!(st.fields.len(), 2);
    assert!(as_list(field(&st, "results")).is_empty());
    assert!(as_list(field(&st, "errors")).is_empty());
}

#[test]
fn search_keeps_results_beside_failures() {
    let scan = GlobScan::Paths(vec![
        info("/a", 1000, 100, 0o100644),
        PathStat::StatFailed("Permission denied (os error 13)".to_string()),
        PathStat::WalkFailed,
        info("/b", 0, 0, 0o040755),
    ]);
    let (entries, errors) = search_fs(&scan);
    assert_eq!(entries.len(), 2);
    assert_eq!(entries[0].path, "/a");
    assert_eq!(entries[0].uid, 1000);
    assert_eq!(entries[0].gid, 100);
    assert_eq!(entries[0].mode, "-rw-r--r--");
    assert_eq!(entries[1].path, "/b");
    assert_eq!(entries[1].mode, "drwxr-xr-x");
    assert_eq!(errors, vec!["Permission denied (os error 13)".to_string()]);
}

#[test]
fn search_response_shape() {
    let scan = GlobScan::Paths(vec![info("/a", 1000, 0, 0o100600), PathStat::StatFailed("gone".to_string())]);
    let r = handle_search_fs(&call("id7", "search_fs", Some(vec![("pattern", text("/*"))])), &scan);
    assert_eq!(r.id, "id7");
    assert_eq!(r.name, "search_fs");
    let st = r.response.expect("response");
    let results = as_list(field(&st, "results"));
    assert_eq!(results.len(), 1);
    let e = as_struct(&results[0]);
    assert_eq!(as_text(field(e, "path")), "/a");
    assert_eq!(as_bits(field(e, "uid")), 1000f64.to_bits());
    assert_eq!(as_bits(field(e, "gid")), 0f64.to_bits());
    assert_eq!(as_text(field(e, "mode")), "-rw-------");
    let errors = as_list(field(&st, "errors"));
    assert_eq!(errors.len(), 1);
    assert_eq!(as_text(&errors[0]), "gone");
}

#[test]
fn search_bad_pattern_gives_one_error() {
    let scan = GlobScan::BadPattern("Pattern syntax error near position 0".to_string());
    let (entries, errors) = search_fs(&scan);
    assert!(entries.is_empty());
    assert_eq!(errors, vec!["Pattern syntax error near position 0".to_string()]);
}

#[test]
fn search_argument_errors() {
    let none = GlobScan::Paths(vec![info("/x", 0, 0, 0)]);
    let cases: Vec<(Option<Vec<(&str, Value)>>, &str)> = vec![
        (None, "Argument is none"),
        (Some(vec![("other", text("x"))]), "Required argument 'pattern' is missing"),
        (Some(vec![("pattern", Value { kind: None })]), "Required argument 'pattern' is null"),
        (Some(vec![("pattern", Value { kind: Some(Kind::BoolValue(true)) })]), "String argument 'pattern' is not a string"),
    ];
    for (args, msg) in cases {
        let r = handle_search_fs(&call("a", "search_fs", args), &none);
        let st = r.response.expect("response");
        assert!(as_list(field(&st, "results")).is_empty());
        let errors = as_list(field(&st, "errors"));
        assert_eq!(errors.len(), 1);
        assert_eq!(as_text(&errors[0]), msg);
    }
}

#[test]
fn read_missing_file_reports_error_only() {
    let c = call("r1", "read_fs", Some(vec![("path", text("/no/such/file"))]));
    let r = handle_read_fs(&c, &Err("No such file or directory (os error 2)".to_string()));
    assert_eq!(r.id, "r1");
    let st = r.response.expect("response");
    assert_eq!(st.fields.len(), 1);
    assert_eq!(st.fields[0].0, "error");
    assert_eq!(as_text(&st.fields[0].1), "No such file or directory (os error 2)");
}

#[test]
fn read_returns_whole_text() {
    let c = call("r2", "read_fs", Some(vec![("path", text("/etc/hostname"))]));
    let r = handle_read_fs(&c, &Ok("box\n".to_string()));
    let st = r.response.expect("response");
    assert_eq!(st.fields.len(), 1);
    assert_eq!(st.fields[0].0, "result");
    assert_eq!(as_text(&st.fields[0].1), "box\n");
}

#[test]
fn read_argument_errors() {
    let c = call("r3", "read_fs", Some(vec![("path", Value { kind: Some(Kind::NullValue(0)) })]));
    let r = handle_read_fs(&c, &Ok("ignored".to_string()));
    let st = r.response.expect("response");
    assert_eq!(as_text(field(&st, "error")), "String argument 'path' is not a string");
    let c = call("r4", "read_fs", Some(vec![]));
    let r = handle_read_fs(&c, &Ok("ignored".to_string()));
    assert_eq!(as_text(field(&r.response.expect("response"), "error")), "Required argument 'path' is missing");
}

#[test]
fn jobs_follow_the_tool_name() {
    assert!(matches!(tool_job(&call("1", "search_fs", Some(vec![("pattern", text("/*.rs"))]))), ToolJob::Search(p) if p == "/*.rs"));
    assert!(matches!(tool_job(&call("2", "read_fs", Some(vec![("path", text("/f"))]))), ToolJob::Read(p) if p == "/f"));
    assert!(matches!(tool_job(&call("3", "read_fs", None)), ToolJob::Nothing));
    assert!(matches!(tool_job(&call("4", "Search_fs", Some(vec![("pattern", text("/*"))]))), ToolJob::Nothing));
}

#[test]
fn unknown_tool_fails_with_message() {
    let r = handle_function_call(&call("9", "delete_fs", None), &JobOutput::Nothing);
    assert_eq!(r.err(), Some("Unknown function 'delete_fs'".to_string()));
}

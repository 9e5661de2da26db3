use qpipe::config::{Config, ProcessGroup};
use qpipe::server::{
    equal_ignoring_ascii_case, find_header, HttpHeader, RequestAction, WorkflowServer,
    JOB_ID_HEADER_NAME, JOB_ID_LEN,
};

fn group(name: &str, prompt: &str) -> ProcessGroup {
    ProcessGroup {
        name: name.to_string(),
        cron: "now".to_string(),
        prompt: prompt.to_string(),
        stream: "/bin/true".to_string(),
    }
}

fn server() -> WorkflowServer {
    let mut config = Config::default();
    config.api_key = "k".to_string();
    config.process_group = vec![
        group("history_analysis", "summarise"),
        group("document_search", "find queries"),
        group("history_analysis", "shadowed"),
    ];
    WorkflowServer::new(config)
}

fn header(field: &str, value: &str) -> HttpHeader {
    HttpHeader { field: field.to_string(), value: value.to_string() }
}

#[test]
fn server_starts_only_once() {
    let mut s = server();
    assert!(!s.is_running());
    assert_eq!(s.start_server(), Ok(true));
    assert!(s.is_running());
    assert_eq!(s.start_server(), Err("Server is already running"));
    assert!(s.is_running());
}

#[test]
fn routes_are_slash_and_group_name() {
    let s = server();
    assert_eq!(s.route(&"/history_analysis".to_string()).ok(), Some(0));
    assert_eq!(s.route(&"/document_search".to_string()).ok(), Some(1));
    match s.route(&"/unknown".to_string()) {
        Err(reply) => {
            assert_eq!(reply.body, "Route not found");
            assert!(reply.job_id.is_none());
        }
        Ok(i) => panic!("routed to {}", i),
    }
    assert!(s.route(&"history_analysis".to_string()).is_err());
    assert!(s.route(&"/history_analysis/".to_string()).is_err());
}

#[test]
fn post_asks_the_group_model_under_a_fresh_job_id() {
    let s = server();
    let action = s.handle_request(1, &"POST".to_string(), "doc text".to_string(), &vec![]);
    match action {
        RequestAction::Ask { model, question, job_id } => {
            assert_eq!(question, "doc text");
            assert_eq!(job_id.chars().count(), 10);
            assert_eq!(job_id.len(), JOB_ID_LEN);
            assert!(job_id.chars().all(|c| c.is_ascii_alphanumeric()));
            let body = model.request_body(question);
            assert_eq!(body.messages[0].content, "find queries");
            assert_eq!(model.authorization(), "Bearer k");
        }
        _ => panic!("POST must ask the model"),
    }
}

#[test]
fn get_collects_the_job_named_in_its_header() {
    let s = server();
    let headers = vec![header("Host", "127.0.0.1"), header("process-id", "abc123XYZ0"), header("Process-ID", "zzz")];
    match s.handle_request(0, &"GET".to_string(), String::new(), &headers) {
        RequestAction::Collect { job_id } => assert_eq!(job_id, "abc123XYZ0"),
        _ => panic!("GET with a job ID must collect it"),
    }
}

#[test]
fn get_without_job_id_is_not_found() {
    let s = server();
    match s.handle_request(0, &"GET".to_string(), String::new(), &vec![header("Host", "x")]) {
        RequestAction::Reply(reply) => {
            assert_eq!(reply.body, "Not Found ID");
            assert!(reply.job_id.is_none());
        }
        _ => panic!("GET without a job ID must be answered"),
    }
}

#[test]
fn other_methods_are_unsupported() {
    let s = server();
    for method in ["PUT", "DELETE", "post", "get"] {
        match s.handle_request(0, &method.to_string(), String::new(), &vec![]) {
            RequestAction::Reply(reply) => assert_eq!(reply.body, "Unsupported method"),
            _ => panic!("{} must be refused", method),
        }
    }
}

#[test]
fn posted_answer_is_collected_once() {
    let mut s = server();
    let reply = s.complete_job(0, "Job0000001".to_string(), "the summary".to_string());
    assert_eq!(reply.body, "Process group history_analysis is running, ID: Job0000001");
    assert_eq!(reply.job_id.as_deref(), Some("Job0000001"));
    let headers = vec![header(JOB_ID_HEADER_NAME, "Job0000001")];
    match s.handle_request(0, &"GET".to_string(), String::new(), &headers) {
        RequestAction::Collect { job_id } => {
            assert!(s.has_answer(&job_id));
            assert_eq!(s.take_answer(&job_id), "the summary");
            assert!(!s.has_answer(&job_id));
        }
        _ => panic!("GET must collect"),
    }
}

#[test]
fn other_jobs_stay_when_one_is_collected() {
    let mut s = server();
    s.complete_job(0, "A000000000".to_string(), "first".to_string());
    s.complete_job(1, "B000000000".to_string(), "second".to_string());
    assert_eq!(s.take_answer("A000000000"), "first");
    assert!(s.has_answer("B000000000"));
    assert!(!s.has_answer("A000000000"));
    s.complete_job(1, "B000000000".to_string(), "newer".to_string());
    assert_eq!(s.take_answer("B000000000"), "newer");
}

#[test]
fn header_names_ignore_ascii_case() {
    assert!(equal_ignoring_ascii_case("Process-ID", "PROCESS-id"));
    assert!(!equal_ignoring_ascii_case("Process-ID", "Process-IDs"));
    assert!(!equal_ignoring_ascii_case("Process_ID", "Process-ID"));
    assert!(equal_ignoring_ascii_case("", ""));
    let headers = vec![header("a", "1"), header("B", "2"), header("b", "3")];
    assert_eq!(find_header(&headers, "b"), Some(1));
    assert_eq!(find_header(&headers, "c"), None);
}

#[test]
fn post_action_uses_the_drawn_job_id() {
    let s = server();
    match s.post_action(0, "commands".to_string(), "AAAAAAAAAA".to_string()) {
        RequestAction::Ask { model, question, job_id } => {
            assert_eq!(job_id, "AAAAAAAAAA");
            assert_eq!(question, "commands");
            assert_eq!(model.request_body(question).messages[0].content, "summarise");
        }
        _ => panic!("a POST asks the model"),
    }
}

#[test]
fn two_posts_get_different_job_ids_almost_surely() {
    let s = server();
    let id = |s: &WorkflowServer| match s.handle_request(0, &"POST".to_string(), String::new(), &vec![]) {
        RequestAction::Ask { job_id, .. } => job_id,
        _ => panic!("a POST asks the model"),
    };
    assert_ne!(id(&s), id(&s));
}

//! Tests over document loading: eager validation of the job list, the log
//! sink, and the server settings with their fallbacks.

use job_trigger::confval::ConfValue;
use job_trigger::dispatch::RunDecision;
use job_trigger::service::ConfigError;
use job_trigger::service::HTTPService;

fn text(s: &str) -> ConfValue {
    ConfValue::Text(s.to_string())
}

fn record(entries: Vec<(&str, ConfValue)>) -> ConfValue {
    ConfValue::Record(entries.into_iter().map(|(k, v)| (k.to_string(), v)).collect())
}

fn section() -> String {
    "app".to_string()
}

#[test]
fn missing_job_list_is_fatal() {
    let doc = record(vec![("app", record(vec![]))]);
    let err = HTTPService::new(&doc, &section()).err().expect("loading must fail");
    assert!(matches!(err, ConfigError::MalformedJobs));
    assert_eq!(err.message(), "Wrong configs");
}

#[test]
fn missing_section_is_fatal() {
    let doc = record(vec![]);
    assert!(HTTPService::new(&doc, &section()).is_err());
}

#[test]
fn job_list_must_be_a_list() {
    let doc = record(vec![("app", record(vec![("jobs", text("nope"))]))]);
    assert!(HTTPService::new(&doc, &section()).is_err());
}

#[test]
fn job_entry_without_name_is_fatal() {
    let doc = record(vec![(
        "app",
        record(vec![("jobs", ConfValue::List(vec![record(vec![("secret", text("s"))])]))]),
    )]);
    assert!(HTTPService::new(&doc, &section()).is_err());
}

#[test]
fn job_entry_with_empty_name_is_fatal() {
    let doc = record(vec![(
        "app",
        record(vec![("jobs", ConfValue::List(vec![record(vec![("name", text(""))])]))]),
    )]);
    assert!(HTTPService::new(&doc, &section()).is_err());
}

#[test]
fn job_entry_with_non_text_secret_is_fatal() {
    let doc = record(vec![(
        "app",
        record(vec![(
            "jobs",
            ConfValue::List(vec![record(vec![
                ("name", text("j")),
                ("secret", ConfValue::Int(5)),
            ])]),
        )]),
    )]);
    assert!(HTTPService::new(&doc, &section()).is_err());
}

#[test]
fn job_entry_with_non_text_script_is_fatal() {
    let doc = record(vec![(
        "app",
        record(vec![(
            "jobs",
            ConfValue::List(vec![record(vec![
                ("name", text("j")),
                ("scripts", ConfValue::List(vec![text("ok"), ConfValue::Bool(true)])),
            ])]),
        )]),
    )]);
    assert!(HTTPService::new(&doc, &section()).is_err());
}

#[test]
fn empty_job_list_loads() {
    let doc = record(vec![("app", record(vec![("jobs", ConfValue::List(vec![]))]))]);
    let service = HTTPService::new(&doc, &section()).expect("an empty job list is well-shaped");
    assert!(matches!(
        service.run_job(&"any".to_string(), &None),
        RunDecision::NotFound
    ));
}

#[test]
fn settings_fall_back_when_unconfigured() {
    let doc = record(vec![("app", record(vec![("jobs", ConfValue::List(vec![]))]))]);
    let service = HTTPService::new(&doc, &section()).unwrap();
    let (host, port, health) = service.settings();
    assert_eq!(host, "127.0.0.1");
    assert_eq!(port, 8080);
    assert_eq!(health, "/healthcheck");
}

#[test]
fn configured_settings_are_used() {
    let doc = record(vec![
        ("app", record(vec![("jobs", ConfValue::List(vec![]))])),
        (
            "server",
            record(vec![
                ("host", text("0.0.0.0")),
                ("port", ConfValue::Int(9000)),
                ("health", text("/alive")),
            ]),
        ),
    ]);
    let service = HTTPService::new(&doc, &section()).unwrap();
    let (host, port, health) = service.settings();
    assert_eq!(host, "0.0.0.0");
    assert_eq!(port, 9000);
    assert_eq!(health, "/alive");
}

#[test]
fn non_text_settings_fall_back() {
    let doc = record(vec![
        ("app", record(vec![("jobs", ConfValue::List(vec![]))])),
        (
            "server",
            record(vec![("host", ConfValue::Int(3)), ("port", text("eighty"))]),
        ),
    ]);
    let service = HTTPService::new(&doc, &section()).unwrap();
    let (host, port, _) = service.settings();
    assert_eq!(host, "127.0.0.1");
    assert_eq!(port, 8080);
}

#[test]
fn configured_log_reaches_the_plan() {
    let doc = record(vec![(
        "app",
        record(vec![
            (
                "jobs",
                ConfValue::List(vec![record(vec![
                    ("name", text("j")),
                    ("scripts", ConfValue::List(vec![text("echo hi")])),
                ])]),
            ),
            ("log", text("/tmp/out.log")),
        ]),
    )]);
    let service = HTTPService::new(&doc, &section()).unwrap();
    match service.run_job(&"j".to_string(), &None) {
        RunDecision::Admitted(plan) => assert_eq!(plan.log.as_deref(), Some("/tmp/out.log")),
        _ => panic!("the run should be admitted"),
    }
}

#[test]
fn absent_log_routes_to_standard_output() {
    let doc = record(vec![(
        "app",
        record(vec![(
            "jobs",
            ConfValue::List(vec![record(vec![
                ("name", text("j")),
                ("scripts", ConfValue::List(vec![text("echo hi")])),
            ])]),
        )]),
    )]);
    let service = HTTPService::new(&doc, &section()).unwrap();
    match service.run_job(&"j".to_string(), &None) {
        RunDecision::Admitted(plan) => assert!(plan.log.is_none()),
        _ => panic!("the run should be admitted"),
    }
}

#[test]
fn extra_keys_in_a_job_entry_are_ignored() {
    let doc = record(vec![(
        "app",
        record(vec![(
            "jobs",
            ConfValue::List(vec![record(vec![
                ("name", text("j")),
                ("comment", text("irrelevant")),
            ])]),
        )]),
    )]);
    assert!(HTTPService::new(&doc, &section()).is_ok());
}

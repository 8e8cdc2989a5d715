use doc_previewer::errors::PreviewerError;
use doc_previewer::github::{
    artifact_url_from_json, artifacts_url, check_runs_url, check_status, commits_url,
    last_commit_from_json, run_id_from_json,
};
use doc_previewer::json::JsonValue;
use doc_previewer::publish::{advance_publish, start_publish, PublishStage, PublishStep};

fn s(text: &str) -> JsonValue {
    JsonValue::Str(text.to_string())
}

fn obj(entries: Vec<(&str, JsonValue)>) -> JsonValue {
    JsonValue::Object(entries.into_iter().map(|(k, v)| (k.to_string(), v)).collect())
}

fn commits_doc() -> JsonValue {
    JsonValue::Array(vec![obj(vec![("sha", s("abc123"))])])
}

fn check_runs_doc() -> JsonValue {
    obj(vec![(
        "check_runs",
        JsonValue::Array(vec![obj(vec![
            ("name", s("Doc Build and Upload")),
            ("details_url", s("https://x/actions/runs/555/job/9")),
        ])]),
    )])
}

fn artifacts_doc(n: usize) -> JsonValue {
    let one = || obj(vec![("archive_download_url", s("https://dl/555.zip"))]);
    obj(vec![("artifacts", JsonValue::Array((0..n).map(|_| one()).collect()))])
}

fn content_message<T: std::fmt::Debug>(r: Result<T, PreviewerError>) -> String {
    match r {
        Err(PreviewerError::ResponseContentError(m, _)) => m,
        other => panic!("expected a content error, got {:?}", other),
    }
}

#[test]
fn last_commit_is_taken() {
    let doc = JsonValue::Array(vec![
        obj(vec![("sha", s("first"))]),
        obj(vec![("sha", s("abc123"))]),
    ]);
    assert_eq!(last_commit_from_json(doc).unwrap(), "abc123");
}

#[test]
fn empty_commit_list() {
    assert_eq!(content_message(last_commit_from_json(JsonValue::Array(vec![]))), "No commits found");
    assert_eq!(content_message(last_commit_from_json(obj(vec![]))), "No commits found");
}

#[test]
fn last_commit_without_sha() {
    let doc = JsonValue::Array(vec![obj(vec![("sha", s("a"))]), obj(vec![("id", s("b"))])]);
    assert_eq!(content_message(last_commit_from_json(doc)), "last commmit is not a string");
    let doc = JsonValue::Array(vec![obj(vec![("sha", JsonValue::Number("5".to_string()))])]);
    assert_eq!(content_message(last_commit_from_json(doc)), "last commmit is not a string");
}

#[test]
fn doc_job_run_id() {
    assert_eq!(run_id_from_json(check_runs_doc()).unwrap(), 555);
}

#[test]
fn first_matching_check_run_is_used() {
    let doc = obj(vec![(
        "check_runs",
        JsonValue::Array(vec![
            obj(vec![("name", s("Lint")), ("details_url", s("https://x/actions/runs/1/job/1"))]),
            obj(vec![("name", s("Doc Build and Upload")), ("details_url", s("https://x/actions/runs/2/job/1"))]),
            obj(vec![("name", s("Doc Build and Upload")), ("details_url", s("https://x/actions/runs/3/job/1"))]),
        ]),
    )]);
    assert_eq!(run_id_from_json(doc).unwrap(), 2);
}

#[test]
fn no_matching_check_run() {
    let doc = obj(vec![(
        "check_runs",
        JsonValue::Array(vec![obj(vec![("name", s("Lint")), ("details_url", s("https://x/actions/runs/1/job/1"))])]),
    )]);
    assert_eq!(content_message(run_id_from_json(doc)), "no check runs found");
    assert_eq!(content_message(run_id_from_json(JsonValue::Null)), "no check runs found");
}

#[test]
fn check_run_without_details_url() {
    let doc = obj(vec![(
        "check_runs",
        JsonValue::Array(vec![obj(vec![("name", s("Doc Build and Upload"))])]),
    )]);
    assert_eq!(content_message(run_id_from_json(doc)), "details_url not found");
}

#[test]
fn check_run_details_url_without_run() {
    let doc = obj(vec![(
        "check_runs",
        JsonValue::Array(vec![obj(vec![("name", s("Doc Build and Upload")), ("details_url", s("https://x/y"))])]),
    )]);
    assert!(matches!(run_id_from_json(doc), Err(PreviewerError::PatternNotFound(_))));
}

#[test]
fn single_artifact_url() {
    assert_eq!(artifact_url_from_json(artifacts_doc(1)).unwrap(), "https://dl/555.zip");
}

#[test]
fn two_artifacts_are_refused() {
    assert_eq!(content_message(artifact_url_from_json(artifacts_doc(2))), "Expected 1 artifact, 2 found");
}

#[test]
fn no_artifact_is_refused() {
    assert_eq!(content_message(artifact_url_from_json(artifacts_doc(0))), "Expected 1 artifact, 0 found");
    assert_eq!(content_message(artifact_url_from_json(obj(vec![]))), "no artifacts found");
}

#[test]
fn artifact_url_not_a_string() {
    let doc = obj(vec![("artifacts", JsonValue::Array(vec![obj(vec![("archive_download_url", JsonValue::Null)])]))]);
    assert_eq!(content_message(artifact_url_from_json(doc)), "artifact url is not a string");
}

#[test]
fn status_must_be_200() {
    assert!(check_status("https://api/x", 200).is_ok());
    match check_status("https://api/x", 404) {
        Err(PreviewerError::StatusError { url, status_code }) => {
            assert_eq!(url, "https://api/x");
            assert_eq!(status_code, 404);
        }
        other => panic!("expected a status error, got {:?}", other),
    }
}

#[test]
fn api_addresses() {
    let base = "https://api.github.com/repos/pandas-dev/pandas/";
    assert_eq!(commits_url(base, 123), "https://api.github.com/repos/pandas-dev/pandas/pulls/123/commits");
    assert_eq!(check_runs_url(base, "abc123"), "https://api.github.com/repos/pandas-dev/pandas/commits/abc123/check-runs");
    assert_eq!(artifacts_url(base, 555), "https://api.github.com/repos/pandas-dev/pandas/actions/runs/555/artifacts");
}

#[test]
fn publish_resolves_download_url() {
    let base = "https://api/repos/acme/site/";
    let step = start_publish(base, 7);
    let (stage, url) = match step {
        PublishStep::Fetch { stage, url } => (stage, url),
        other => panic!("unexpected step {:?}", other),
    };
    assert!(matches!(stage, PublishStage::Commits));
    assert_eq!(url, "https://api/repos/acme/site/pulls/7/commits");
    let step = advance_publish(base, stage, commits_doc());
    let (stage, url) = match step {
        PublishStep::Fetch { stage, url } => (stage, url),
        other => panic!("unexpected step {:?}", other),
    };
    assert!(matches!(stage, PublishStage::CheckRuns));
    assert_eq!(url, "https://api/repos/acme/site/commits/abc123/check-runs");
    let step = advance_publish(base, stage, check_runs_doc());
    let (stage, url) = match step {
        PublishStep::Fetch { stage, url } => (stage, url),
        other => panic!("unexpected step {:?}", other),
    };
    assert!(matches!(stage, PublishStage::Artifacts));
    assert_eq!(url, "https://api/repos/acme/site/actions/runs/555/artifacts");
    match advance_publish(base, stage, artifacts_doc(1)) {
        PublishStep::Download { url } => assert_eq!(url, "https://dl/555.zip"),
        other => panic!("unexpected step {:?}", other),
    }
}

#[test]
fn publish_stops_on_two_artifacts() {
    match advance_publish("https://api/", PublishStage::Artifacts, artifacts_doc(2)) {
        PublishStep::Failed(PreviewerError::ResponseContentError(m, _)) => {
            assert_eq!(m, "Expected 1 artifact, 2 found")
        }
        other => panic!("unexpected step {:?}", other),
    }
}

#[test]
fn publish_stops_on_empty_commits() {
    assert!(matches!(
        advance_publish("https://api/", PublishStage::Commits, JsonValue::Array(vec![])),
        PublishStep::Failed(PreviewerError::ResponseContentError(_, _))
    ));
}

#[test]
fn json_member_lookup() {
    let doc = obj(vec![("a", s("x")), ("b", JsonValue::Bool(true))]);
    assert!(matches!(doc.get("b"), Some(JsonValue::Bool(true))));
    assert!(doc.get("c").is_none());
    assert_eq!(doc.str_field("a").unwrap(), "x");
    assert!(doc.str_field("b").is_none());
    assert!(s("x").get("a").is_none());
}

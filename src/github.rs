use vstd::prelude::*;

use crate::errors::PreviewerError;
use crate::json::{array_field, as_array_spec, str_field, JsonValue};
use crate::run_id::{extract_run_id_from_detail_url, run_id_error_message, run_id_spec};
use crate::text::{concat_str, decimal, decimal_string};

verus! {

/// The name of the check run that builds and uploads the documentation.
pub open spec fn doc_job_label() -> Seq<char> {
    "Doc Build and Upload"@
}

/// `<base>pulls/<pr>/commits`
pub open spec fn commits_url_spec(base: Seq<char>, pull_request_number: u64) -> Seq<char> {
    base + "pulls/"@ + decimal(pull_request_number as nat) + "/commits"@
}

/// `<base>commits/<sha>/check-runs`
pub open spec fn check_runs_url_spec(base: Seq<char>, commit_reference: Seq<char>) -> Seq<char> {
    base + "commits/"@ + commit_reference + "/check-runs"@
}

/// `<base>actions/runs/<run_id>/artifacts`
pub open spec fn artifacts_url_spec(base: Seq<char>, run_id: u64) -> Seq<char> {
    base + "actions/runs/"@ + decimal(run_id as nat) + "/artifacts"@
}

/// `r` is a content-shape error with message `msg` that carries the document `v`.
pub open spec fn is_content_error<T>(r: Result<T, PreviewerError>, msg: Seq<char>, v: JsonValue) -> bool {
    r matches Err(PreviewerError::ResponseContentError(m, j)) && m@ == msg && j == v
}

/// The `sha` of the last element of a commit list, when it is a string.
pub open spec fn last_commit_sha(v: JsonValue) -> Option<Seq<char>> {
    match as_array_spec(v) {
        Some(commits) => if commits.len() > 0 {
            str_field(commits.last(), "sha"@)
        } else {
            None
        },
        None => None,
    }
}

/// What reading the last commit of the document `v` gives.
pub open spec fn last_commit_result(v: JsonValue, r: Result<String, PreviewerError>) -> bool {
    match last_commit_sha(v) {
        Some(sha) => r matches Ok(s) && s@ == sha,
        None => if as_array_spec(v) matches Some(commits) && commits.len() > 0 {
            is_content_error(r, "last commmit is not a string"@, v)
        } else {
            is_content_error(r, "No commits found"@, v)
        },
    }
}

/// The position of the first check run from `i` on whose name is `name`.
pub open spec fn first_named(jobs: Seq<JsonValue>, name: Seq<char>, i: int) -> Option<int>
    decreases jobs.len() - i,
{
    if i < 0 || i >= jobs.len() {
        None
    } else if str_field(jobs[i], "name"@) == Some(name) {
        Some(i)
    } else {
        first_named(jobs, name, i + 1)
    }
}

/// The first check run of the document `v` that builds the documentation.
pub open spec fn doc_job(v: JsonValue) -> Option<JsonValue> {
    match array_field(v, "check_runs"@) {
        Some(jobs) => match first_named(jobs, doc_job_label(), 0) {
            Some(i) => Some(jobs[i]),
            None => None,
        },
        None => None,
    }
}

/// What reading the documentation run identifier of the document `v` gives.
pub open spec fn run_id_result(v: JsonValue, r: Result<u64, PreviewerError>) -> bool {
    match doc_job(v) {
        None => is_content_error(r, "no check runs found"@, v),
        Some(job) => match str_field(job, "details_url"@) {
            None => is_content_error(r, "details_url not found"@, v),
            Some(u) => match run_id_spec(u) {
                Some(n) => r == Ok::<u64, PreviewerError>(n),
                None => r matches Err(PreviewerError::PatternNotFound(m)) && m@
                    == run_id_error_message(u),
            },
        },
    }
}

/// The documentation run identifier of the document `v`, when it has one.
pub open spec fn doc_run_id(v: JsonValue) -> Option<u64> {
    match doc_job(v) {
        Some(job) => match str_field(job, "details_url"@) {
            Some(u) => run_id_spec(u),
            None => None,
        },
        None => None,
    }
}

/// The download address of the single artifact listed in `v`, when there is
/// exactly one and its address is a string.
pub open spec fn single_artifact_url(v: JsonValue) -> Option<Seq<char>> {
    match array_field(v, "artifacts"@) {
        Some(artifacts) => if artifacts.len() == 1 {
            str_field(artifacts[0], "archive_download_url"@)
        } else {
            None
        },
        None => None,
    }
}

/// The message given when a run does not have exactly one artifact.
pub open spec fn artifact_count_message(n: nat) -> Seq<char> {
    "Expected 1 artifact, "@ + decimal(n) + " found"@
}

/// What reading the artifact download URL of the document `v` gives.
pub open spec fn artifact_url_result(v: JsonValue, r: Result<String, PreviewerError>) -> bool {
    match array_field(v, "artifacts"@) {
        None => is_content_error(r, "no artifacts found"@, v),
        Some(artifacts) => if artifacts.len() == 1 {
            match str_field(artifacts[0], "archive_download_url"@) {
                Some(u) => r matches Ok(s) && s@ == u,
                None => is_content_error(r, "artifact url is not a string"@, v),
            }
        } else {
            is_content_error(r, artifact_count_message(artifacts.len()), v)
        },
    }
}

/// `r` is a content-shape error, whatever its message.
pub open spec fn is_shape_error<T>(r: Result<T, PreviewerError>) -> bool {
    r matches Err(PreviewerError::ResponseContentError(_, _))
}

/// Each step of the resolver fails with a content-shape error, and never
/// with a value, when its document lacks the shape it relies on: an empty
/// commit list, a last commit without a string `sha`, no check run with the
/// documentation job's name, a matching check run without a string
/// `details_url`, or an artifact list that does not hold exactly one element.
pub proof fn lemma_resolver_shape_errors(
    commits_doc: JsonValue,
    commit: Result<String, PreviewerError>,
    check_runs_doc: JsonValue,
    run: Result<u64, PreviewerError>,
    artifacts_doc: JsonValue,
    artifact: Result<String, PreviewerError>,
)
    requires
        last_commit_result(commits_doc, commit),
        run_id_result(check_runs_doc, run),
        artifact_url_result(artifacts_doc, artifact),
    ensures
        as_array_spec(commits_doc) matches Some(c) && c.len() == 0 ==> is_shape_error(commit),
        as_array_spec(commits_doc) matches Some(c) && c.len() > 0 && str_field(c.last(), "sha"@) is None
            ==> is_shape_error(commit),
        doc_job(check_runs_doc) is None ==> is_shape_error(run),
        doc_job(check_runs_doc) matches Some(job) && str_field(job, "details_url"@) is None
            ==> is_shape_error(run),
        array_field(artifacts_doc, "artifacts"@) matches Some(a) && a.len() != 1 ==> is_shape_error(artifact),
{
}

fn has_name(job: &JsonValue, name: &String) -> (r: bool)
    ensures
        r == (str_field(*job, "name"@) == Some(name@)),
{
    match job.str_field("name") {
        Some(n) => n.eq(name),
        None => false,
    }
}

fn content_error<T>(msg: &str, json_obj: JsonValue) -> (r: Result<T, PreviewerError>)
    ensures
        is_content_error(r, msg@, json_obj),
{
    Err(PreviewerError::ResponseContentError(String::from_str(msg), json_obj))
}

/// Accepts a response only when its status code is 200.
pub fn check_status(url: &str, status_code: u16) -> (r: Result<(), PreviewerError>)
    ensures
        status_code == 200 <==> r is Ok,
        status_code != 200 ==> (r matches Err(PreviewerError::StatusError { url: u, status_code: c })
            && u@ == url@ && c == status_code),
{
    if status_code != 200 {
        Err(PreviewerError::StatusError { url: String::from_str(url), status_code })
    } else {
        Ok(())
    }
}

/// The address of the commit list of a pull request.
pub fn commits_url(base_api_url: &str, pull_request_number: u64) -> (r: String)
    ensures
        r@ == commits_url_spec(base_api_url@, pull_request_number),
{
    let mut r = concat_str(base_api_url, "pulls/");
    let n = decimal_string(pull_request_number);
    r.append(n.as_str());
    r.append("/commits");
    r
}

/// The address of the check runs of a commit.
pub fn check_runs_url(base_api_url: &str, commit_reference: &str) -> (r: String)
    ensures
        r@ == check_runs_url_spec(base_api_url@, commit_reference@),
{
    let mut r = concat_str(base_api_url, "commits/");
    r.append(commit_reference);
    r.append("/check-runs");
    r
}

/// The address of the artifacts of a workflow run.
pub fn artifacts_url(base_api_url: &str, run_id: u64) -> (r: String)
    ensures
        r@ == artifacts_url_spec(base_api_url@, run_id),
{
    let mut r = concat_str(base_api_url, "actions/runs/");
    let n = decimal_string(run_id);
    r.append(n.as_str());
    r.append("/artifacts");
    r
}

/// Reads the reference (hash) of the last commit from a pull request's
/// commit list.
pub fn last_commit_from_json(json_obj: JsonValue) -> (r: Result<String, PreviewerError>)
    ensures
        last_commit_result(json_obj, r),
{
    let found: Option<Option<String>> = match json_obj.as_array() {
        Some(commits) => if commits.len() > 0 {
            match commits[commits.len() - 1].str_field("sha") {
                Some(sha) => Some(Some(sha.clone())),
                None => Some(None),
            }
        } else {
            None
        },
        None => None,
    };
    match found {
        Some(Some(sha)) => Ok(sha),
        Some(None) => content_error("last commmit is not a string", json_obj),
        None => content_error("No commits found", json_obj),
    }
}

/// Reads the workflow run identifier of the documentation build from a
/// commit's check runs.
pub fn run_id_from_json(json_obj: JsonValue) -> (r: Result<u64, PreviewerError>)
    ensures
        run_id_result(json_obj, r),
{
    let label = String::from_str("Doc Build and Upload");
    let found: Option<Option<String>> = match json_obj.array_field("check_runs") {
        Some(jobs) => {
            let mut i: usize = 0;
            while i < jobs.len() && !has_name(&jobs[i], &label)
                invariant
                    i <= jobs@.len(),
                    label@ == doc_job_label(),
                    first_named(jobs@, doc_job_label(), 0) == first_named(
                        jobs@,
                        doc_job_label(),
                        i as int,
                    ),
                decreases jobs@.len() - i,
            {
                i = i + 1;
            }
            if i < jobs.len() {
                match jobs[i].str_field("details_url") {
                    Some(u) => Some(Some(u.clone())),
                    None => Some(None),
                }
            } else {
                None
            }
        },
        None => None,
    };
    match found {
        Some(Some(detail_url)) => extract_run_id_from_detail_url(detail_url.as_str()),
        Some(None) => content_error("details_url not found", json_obj),
        None => content_error("no check runs found", json_obj),
    }
}

/// Reads the download address of the single artifact of a workflow run.
pub fn artifact_url_from_json(json_obj: JsonValue) -> (r: Result<String, PreviewerError>)
    ensures
        artifact_url_result(json_obj, r),
{
    let found: Option<Result<Option<String>, usize>> = match json_obj.array_field("artifacts") {
        Some(artifacts) => if artifacts.len() == 1 {
            match artifacts[0].str_field("archive_download_url") {
                Some(u) => Some(Ok(Some(u.clone()))),
                None => Some(Ok(None)),
            }
        } else {
            Some(Err(artifacts.len()))
        },
        None => None,
    };
    match found {
        Some(Ok(Some(artifact_url))) => Ok(artifact_url),
        Some(Ok(None)) => content_error("artifact url is not a string", json_obj),
        Some(Err(count)) => {
            let mut msg = String::from_str("Expected 1 artifact, ");
            let n = decimal_string(count as u64);
            msg.append(n.as_str());
            msg.append(" found");
            Err(PreviewerError::ResponseContentError(msg, json_obj))
        },
        None => content_error("no artifacts found", json_obj),
    }
}

} // verus!

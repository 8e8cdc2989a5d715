use vstd::prelude::*;

use crate::errors::PreviewerError;
use crate::github::{
    artifact_url_from_json, artifact_url_result, artifacts_url, artifacts_url_spec, check_runs_url,
    check_runs_url_spec, commits_url, commits_url_spec, doc_run_id, last_commit_from_json,
    last_commit_result, last_commit_sha, run_id_from_json, run_id_result, single_artifact_url,
};
use crate::json::JsonValue;

verus! {

/// The document that a publication waits for.
#[derive(Debug)]
pub enum PublishStage {
    /// The commit list of the pull request.
    Commits,
    /// The check runs of the last commit.
    CheckRuns,
    /// The artifacts of the documentation run.
    Artifacts,
}

/// What a publication does next.
#[derive(Debug)]
pub enum PublishStep {
    /// Fetch the JSON document at `url`, then hand it back with `stage`.
    Fetch { stage: PublishStage, url: String },
    /// Download the archive at `url` and unpack it.
    Download { url: String },
    /// Stop with this error.
    Failed(PreviewerError),
}

/// The first step of publishing the preview of a pull request: fetch its
/// commit list.
pub fn start_publish(base_api_url: &str, pull_request_number: u64) -> (r: PublishStep)
    ensures
        r matches PublishStep::Fetch { stage: PublishStage::Commits, url }
            && url@ == commits_url_spec(base_api_url@, pull_request_number),
{
    PublishStep::Fetch { stage: PublishStage::Commits, url: commits_url(base_api_url, pull_request_number) }
}

/// The step that follows receiving the document `json_obj` for `stage`.
pub fn advance_publish(base_api_url: &str, stage: PublishStage, json_obj: JsonValue) -> (r: PublishStep)
    ensures
        stage is Commits ==> match last_commit_sha(json_obj) {
            Some(sha) => r matches PublishStep::Fetch { stage: PublishStage::CheckRuns, url }
                && url@ == check_runs_url_spec(base_api_url@, sha),
            None => r matches PublishStep::Failed(e) && last_commit_result(json_obj, Err(e)),
        },
        stage is CheckRuns ==> match doc_run_id(json_obj) {
            Some(n) => r matches PublishStep::Fetch { stage: PublishStage::Artifacts, url }
                && url@ == artifacts_url_spec(base_api_url@, n),
            None => r matches PublishStep::Failed(e) && run_id_result(json_obj, Err(e)),
        },
        stage is Artifacts ==> match single_artifact_url(json_obj) {
            Some(u) => r matches PublishStep::Download { url } && url@ == u,
            None => r matches PublishStep::Failed(e) && artifact_url_result(json_obj, Err(e)),
        },
{
    match stage {
        PublishStage::Commits => match last_commit_from_json(json_obj) {
            Ok(sha) => PublishStep::Fetch {
                stage: PublishStage::CheckRuns,
                url: check_runs_url(base_api_url, sha.as_str()),
            },
            Err(e) => PublishStep::Failed(e),
        },
        PublishStage::CheckRuns => match run_id_from_json(json_obj) {
            Ok(run_id) => PublishStep::Fetch {
                stage: PublishStage::Artifacts,
                url: artifacts_url(base_api_url, run_id),
            },
            Err(e) => PublishStep::Failed(e),
        },
        PublishStage::Artifacts => match artifact_url_from_json(json_obj) {
            Ok(url) => PublishStep::Download { url },
            Err(e) => PublishStep::Failed(e),
        },
    }
}

} // verus!

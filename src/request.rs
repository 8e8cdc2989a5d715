use vstd::prelude::*;

use crate::text::{concat_str, decimal, decimal_string};

verus! {

/// Whether `owner` may request previews: the allow-list is empty (everyone
/// may) or names it.
pub open spec fn owner_allowed_spec(allowed_owners: Seq<String>, owner: Seq<char>) -> bool {
    allowed_owners.len() == 0 || exists|i: int| 0 <= i < allowed_owners.len() && (#[trigger] allowed_owners[i])@ == owner
}

/// `<endpoint><owner>/<repository>/`
pub open spec fn base_api_url_spec(endpoint: Seq<char>, owner: Seq<char>, repository: Seq<char>) -> Seq<char> {
    endpoint + owner + "/"@ + repository + "/"@
}

/// `<server_url><owner>/<repository>/<pull_request_number>/`
pub open spec fn publish_url_spec(
    server_url: Seq<char>,
    owner: Seq<char>,
    repository: Seq<char>,
    pull_request_number: u64,
) -> Seq<char> {
    server_url + owner + "/"@ + repository + "/"@ + decimal(pull_request_number as nat) + "/"@
}

/// Whether `owner` is on the allow-list, or the allow-list is empty.
pub fn owner_allowed(allowed_owners: &Vec<String>, owner: &str) -> (r: bool)
    ensures
        r == owner_allowed_spec(allowed_owners@, owner@),
{
    if allowed_owners.len() == 0 {
        return true;
    }
    let owner_s = String::from_str(owner);
    let mut i: usize = 0;
    while i < allowed_owners.len()
        invariant
            i <= allowed_owners@.len(),
            owner_s@ == owner@,
            forall|j: int| 0 <= j < i ==> (#[trigger] allowed_owners@[j])@ != owner@,
        decreases allowed_owners@.len() - i,
    {
        if allowed_owners[i].eq(&owner_s) {
            return true;
        }
        i = i + 1;
    }
    false
}

/// The API address of a repository, ending with `/`.
pub fn base_api_url(endpoint: &str, owner: &str, repository: &str) -> (r: String)
    ensures
        r@ == base_api_url_spec(endpoint@, owner@, repository@),
{
    let mut r = concat_str(endpoint, owner);
    r.append("/");
    r.append(repository);
    r.append("/");
    r
}

/// The public address at which the preview of a pull request is served.
pub fn publish_url(server_url: &str, owner: &str, repository: &str, pull_request_number: u64) -> (r: String)
    ensures
        r@ == publish_url_spec(server_url@, owner@, repository@, pull_request_number),
{
    let mut r = base_api_url(server_url, owner, repository);
    let n = decimal_string(pull_request_number);
    r.append(n.as_str());
    r.append("/");
    r
}

/// The answer to an owner that is not on the allow-list.
pub fn not_allowed_message(owner: &str) -> (r: String)
    ensures
        r@ == "GitHub organization "@ + owner@ + " is not allowed to use this server"@,
{
    let mut r = concat_str("GitHub organization ", owner);
    r.append(" is not allowed to use this server");
    r
}

/// The answer to a successful publication.
pub fn success_message(publish_url: &str) -> (r: String)
    ensures
        r@ == "Website preview of this PR available at: "@ + publish_url@,
{
    concat_str("Website preview of this PR available at: ", publish_url)
}

} // verus!

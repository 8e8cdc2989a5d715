use vstd::prelude::*;

pub mod args;
pub mod cleanup;
pub mod errors;
pub mod github;
pub mod json;
pub mod publish;
pub mod request;
pub mod run_id;
pub mod text;

verus! {

} // verus!

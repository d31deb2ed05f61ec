//! Values that come from the process environment.
use vstd::prelude::*;

use crate::text::{split_char, split_on, texts};

verus! {

/// The value that was loaded from the environment, or the default if none was.
pub fn get_from_env_or_default<F>(loaded: Option<F>, default: F) -> (r: F)
    ensures
        r == (match loaded {
            Some(value) => value,
            None => default,
        }),
{
    match loaded {
        Some(value) => value,
        None => default,
    }
}

/// The pod id and the deployment id that a pod's host name ends with: its last part and the
/// third part from the end, where dashes separate the parts. The part between them identifies
/// the replica set.
pub fn get_pod_info(hostname: &str) -> (r: (String, String))
    requires
        split_on(hostname@, '-').len() >= 3,
    ensures
        r.0@ == split_on(hostname@, '-').last(),
        r.1@ == split_on(hostname@, '-')[split_on(hostname@, '-').len() - 3],
{
    let tokens: Vec<String> = split_char(hostname, '-');
    let count: usize = tokens.len();
    assert(texts(tokens@).len() == count);
    let pod_id: String = tokens[count - 1].clone();
    let deployment_id: String = tokens[count - 3].clone();
    (pod_id, deployment_id)
}

} // verus!

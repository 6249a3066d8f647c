//! The completion client's decision logic: validating credentials before any
//! call is attempted, and extracting usable textual content from a response.
//!
//! The remote call itself is performed by the surrounding application; it
//! hands the library the response's choices as plain optional strings, and
//! every function here is verified for every value they may take.

use vstd::prelude::*;

use crate::error::BotError;
use crate::message::texts_of;

verus! {

/// The protocol version sent with every request.
pub fn api_version() -> (r: &'static str)
    ensures
        r@ == "2023-05-15"@,
{
    "2023-05-15"
}

/// The three values the remote endpoint requires, resolved afresh for every
/// call so that a credential rotated mid-run is picked up.
#[derive(Debug)]
pub struct Credentials {
    pub api_key: String,
    pub api_base: String,
    pub deployment_id: String,
}

/// Check that every required credential value is present. Each argument is
/// `None` where the corresponding environment value is absent. Fails with
/// `EnvironmentError` naming the first missing value, before any network
/// attempt can be made with it.
pub fn resolve_credentials(
    api_key: Option<String>,
    api_base: Option<String>,
    deployment_id: Option<String>,
) -> (r: Result<Credentials, BotError>)
    ensures
        r is Ok <==> (api_key is Some && api_base is Some && deployment_id is Some),
        r matches Ok(c) ==> {
            &&& (api_key matches Some(k) && c.api_key@ == k@)
            &&& (api_base matches Some(b) && c.api_base@ == b@)
            &&& (deployment_id matches Some(d) && c.deployment_id@ == d@)
        },
        r matches Err(e) ==> e is EnvironmentError,
        api_key is None ==> (r matches Err(BotError::EnvironmentError(m)) && m@
            == "missing API key"@),
        api_key is Some && api_base is None ==> (r matches Err(BotError::EnvironmentError(m))
            && m@ == "missing API base endpoint"@),
        api_key is Some && api_base is Some && deployment_id is None ==> (r matches Err(
            BotError::EnvironmentError(m),
        ) && m@ == "missing deployment identifier"@),
{
    let key = match api_key {
        Some(k) => k,
        None => {
            return Err(BotError::EnvironmentError(String::from_str("missing API key")));
        },
    };
    let base = match api_base {
        Some(b) => b,
        None => {
            return Err(
                BotError::EnvironmentError(String::from_str("missing API base endpoint")),
            );
        },
    };
    let deployment = match deployment_id {
        Some(d) => d,
        None => {
            return Err(
                BotError::EnvironmentError(String::from_str("missing deployment identifier")),
            );
        },
    };
    Ok(Credentials { api_key: key, api_base: base, deployment_id: deployment })
}

/// The usable contents of a response's choices: the content of every choice
/// that has non-empty textual content, in the endpoint's returned order.
pub open spec fn extracted(choices: Seq<Option<String>>) -> Seq<Seq<char>>
    decreases choices.len(),
{
    if choices.len() == 0 {
        Seq::empty()
    } else {
        let rest = extracted(choices.drop_last());
        match choices.last() {
            Some(s) => if s@.len() > 0 {
                rest.push(s@)
            } else {
                rest
            },
            None => rest,
        }
    }
}

/// Filter a response's choices to those with non-empty textual content and
/// map each to its plain text, preserving the returned order.
pub fn usable_contents(choices: &Vec<Option<String>>) -> (r: Vec<String>)
    ensures
        texts_of(r@) == extracted(choices@),
{
    let mut out: Vec<String> = Vec::new();
    let n = choices.len();
    let mut i: usize = 0;
    while i < n
        invariant
            n == choices@.len(),
            i <= n,
            texts_of(out@) == extracted(choices@.take(i as int)),
        decreases n - i,
    {
        match &choices[i] {
            Some(s) => {
                if s.as_str().unicode_len() > 0 {
                    out.push(s.clone());
                }
            },
            None => {},
        }
        proof {
            assert(choices@.take(i + 1).drop_last() =~= choices@.take(i as int));
            assert(choices@.take(i + 1).last() == choices@[i as int]);
        }
        i = i + 1;
    }
    proof {
        assert(choices@.take(n as int) =~= choices@);
    }
    out
}

} // verus!

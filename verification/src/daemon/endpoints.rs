//! What the daemon checks of its configuration before it starts.

use vstd::prelude::*;
use vstd::string::StrSliceExecFns;
use vstd::string::StringExecFns;
use crate::daemon::error::UserError;
use crate::daemon::error::UserErrorView;
use crate::text::str_eq;
use crate::text::texts;

verus! {

/// Whether `text` begins with `prefix`.
pub open spec fn has_prefix(text: Seq<char>, prefix: Seq<char>) -> bool {
    text.len() >= prefix.len() && text.subrange(0, prefix.len() as int) == prefix
}

/// Whether an endpoint asks for TLS.
pub open spec fn is_tls_endpoint(endpoint: Seq<char>) -> bool {
    has_prefix(endpoint, "tcps://"@)
}

/// Whether an endpoint asks for TLS: whether it begins with `tcps://`.
pub fn endpoint_uses_tls(endpoint: &str) -> (tls: bool)
    ensures
        tls == is_tls_endpoint(endpoint@),
{
    proof {
        reveal_strlit("tcps://");
    }
    if endpoint.unicode_len() < 7 {
        return false;
    }
    let head = endpoint.substring_char(0, 7);
    str_eq(head, "tcps://")
}

/// The message of the error for a TLS endpoint in a configuration without
/// TLS.
pub open spec fn tls_disabled_message(endpoint: Seq<char>) -> Seq<char> {
    "TLS is disabled, thus endpoint "@ + endpoint + " is invalid"@
}

/// The first of `endpoints` that asks for TLS, if one does.
pub open spec fn first_tls_endpoint(endpoints: Seq<Seq<char>>) -> Option<int>
    decreases endpoints.len(),
{
    if endpoints.len() == 0 {
        None
    } else {
        match first_tls_endpoint(endpoints.drop_last()) {
            Some(i) => Some(i),
            None => if is_tls_endpoint(endpoints.last()) {
                Some(endpoints.len() - 1)
            } else {
                None
            },
        }
    }
}

/// What `first_tls_endpoint` finds asks for TLS, and nothing before it
/// does.
pub proof fn lemma_first_tls_endpoint(endpoints: Seq<Seq<char>>)
    ensures
        match first_tls_endpoint(endpoints) {
            Some(i) => {
                &&& 0 <= i < endpoints.len()
                &&& is_tls_endpoint(endpoints[i])
                &&& forall|k: int| 0 <= k < i ==> !is_tls_endpoint(#[trigger] endpoints[k])
            },
            None => forall|k: int|
                0 <= k < endpoints.len() ==> !is_tls_endpoint(#[trigger] endpoints[k]),
        },
    decreases endpoints.len(),
{
    if endpoints.len() > 0 {
        let earlier = endpoints.drop_last();
        lemma_first_tls_endpoint(earlier);
        assert forall|k: int| 0 <= k < earlier.len() implies earlier[k] == endpoints[k] by {}
    }
}

/// Checks the network endpoints against the TLS setting: without TLS no
/// endpoint may ask for it. The first endpoint that does is an
/// `InvalidArgument` error.
pub fn check_network_endpoints(no_tls: bool, network_endpoints: &Vec<String>) -> (checked: Result<
    (),
    UserError,
>)
    ensures
        match checked {
            Ok(_) => !no_tls || first_tls_endpoint(texts(network_endpoints@)) is None,
            Err(err) => {
                &&& no_tls
                &&& first_tls_endpoint(texts(network_endpoints@)) is Some
                &&& err@ == UserErrorView::InvalidArgument(
                    tls_disabled_message(
                        texts(network_endpoints@)[first_tls_endpoint(
                            texts(network_endpoints@),
                        ).unwrap()],
                    ),
                )
            },
        },
{
    if no_tls {
        let ghost all = texts(network_endpoints@);
        let mut i: usize = 0;
        assert(all.take(0) =~= Seq::empty());
        while i < network_endpoints.len()
            invariant
                i <= network_endpoints.len(),
                no_tls,
                all == texts(network_endpoints@),
                first_tls_endpoint(all.take(i as int)) is None,
            decreases network_endpoints.len() - i,
        {
            let network_endpoint = &network_endpoints[i];
            assert(all.take(i + 1).drop_last() =~= all.take(i as int));
            assert(all.take(i + 1).last() == network_endpoint@);
            if endpoint_uses_tls(network_endpoint.as_str()) {
                proof {
                    lemma_first_tls_endpoint(all.take(i as int));
                    assert forall|k: int| 0 <= k < i implies !is_tls_endpoint(
                        #[trigger] all[k],
                    ) by {
                        assert(all.take(i as int)[k] == all[k]);
                    }
                    assert(is_tls_endpoint(all[i as int]));
                    lemma_first_tls_endpoint(all);
                    assert(first_tls_endpoint(all) == Some(i as int));
                }
                let mut message = String::from_str("TLS is disabled, thus endpoint ");
                message.append(network_endpoint.as_str());
                message.append(" is invalid");
                return Err(UserError::InvalidArgument(message));
            }
            i += 1;
        }
        assert(all.take(i as int) =~= all);
    }
    Ok(())
}

/// The message of the error for a state directory that is not there.
pub open spec fn missing_state_dir_message(state_dir: Seq<char>) -> Seq<char> {
    "state directory "@ + state_dir + " does not exist"@
}

/// Checks that the state directory is there; `is_dir` says whether the path
/// names a directory.
pub fn check_state_dir(state_dir: &str, is_dir: bool) -> (checked: Result<(), UserError>)
    ensures
        is_dir ==> checked is Ok,
        !is_dir ==> checked is Err && checked->Err_0@ == UserErrorView::DaemonError(
            missing_state_dir_message(state_dir@),
        ),
{
    if !is_dir {
        let mut context = String::from_str("state directory ");
        context.append(state_dir);
        context.append(" does not exist");
        return Err(UserError::DaemonError { context });
    }
    Ok(())
}

/// The name under which a node is shown: the one that was configured, or
/// `Node` and its identifier.
pub fn display_name(configured: Option<&str>, node_id: &str) -> (name: String)
    ensures
        name@ == match configured {
            Some(text) => text@,
            None => "Node "@ + node_id@,
        },
{
    match configured {
        Some(text) => text.to_owned(),
        None => {
            let mut name = String::from_str("Node ");
            name.append(node_id);
            name
        },
    }
}

} // verus!

//! Where a configuration document lives, and which answers count as success.

use vstd::prelude::*;
use vstd::string::*;

verus! {

/// The address of the document of `application` under `label`, below the
/// service root `service`: `{service}/{application}-{label}.json`.
///
/// The three parts are joined as they are; nothing is escaped or checked.
pub open spec fn endpoint_of(
    service: Seq<char>,
    application: Seq<char>,
    label: Seq<char>,
) -> Seq<char> {
    service + "/"@ + application + "-"@ + label + ".json"@
}

/// Whether an HTTP status code stands for success: the codes 200 to 299.
pub open spec fn success(status: u16) -> bool {
    200 <= status < 300
}

/// Builds the address that a load fetches.
pub fn endpoint(service: &str, application: &str, label: &str) -> (url: String)
    ensures
        url@ == endpoint_of(service@, application@, label@),
{
    let mut url = String::from_str(service);
    url.append("/");
    url.append(application);
    url.append("-");
    url.append(label);
    url.append(".json");
    url
}

/// Tells whether the service accepted a request, by its status code.
pub fn is_success(status: u16) -> (accepted: bool)
    ensures
        accepted == success(status),
{
    200 <= status && status < 300
}

} // verus!

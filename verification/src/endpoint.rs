//! Endpoint classification.

use vstd::prelude::*;

use crate::text::{spec_ends_with, str_ends_with};

verus! {

/// Whether a host name belongs to the large hosted mail service: one of its
/// base domains, or anything under the vendor's own top-level domain.
pub open spec fn spec_host_is_office365(host: Seq<char>) -> bool {
    ||| spec_ends_with(host, "office365.com"@)
    ||| spec_ends_with(host, "outlook.com"@)
    ||| spec_ends_with(host, "onmicrosoft.com"@)
    ||| spec_ends_with(host, ".microsoft"@)
}

/// Checks whether an endpoint's host belongs to the large hosted mail
/// service.
pub fn host_is_office365(host: &str) -> (r: bool)
    ensures
        r == spec_host_is_office365(host@),
{
    str_ends_with(host, "office365.com") || str_ends_with(host, "outlook.com") || str_ends_with(
        host,
        "onmicrosoft.com",
    ) || str_ends_with(host, ".microsoft")
}

} // verus!

//! Device locator: which of the host's serial endpoints is the instrument.
//!
//! The host enumerates its serial endpoints; the instrument is the first
//! one whose USB identity declares the serial-number token `"WM"`.
//! Endpoints without USB identity metadata, or with a different or absent
//! serial number, are skipped without error. Enumerating and opening are
//! I/O and stay outside; this module only applies the match rule to the
//! enumerated metadata.

use vstd::prelude::*;

verus! {

/// What the locator reads of one enumerated serial endpoint.
pub struct EndpointInfo {
    /// The host's name for the endpoint, used to open it.
    pub port_name: String,
    /// The serial number the endpoint's USB identity declares, if the
    /// endpoint has USB identity metadata with a serial number at all.
    pub usb_serial: Option<String>,
}

/// Whether an endpoint declares the instrument's identity token.
pub open spec fn spec_is_monitor(e: EndpointInfo) -> bool {
    e.usb_serial matches Some(s) && s@ == "WM"@
}

/// Whether an endpoint declares the instrument's identity token.
fn is_monitor(e: &EndpointInfo) -> (r: bool)
    ensures
        r == spec_is_monitor(*e),
{
    match &e.usb_serial {
        Some(sn) => {
            let token: String = "WM".to_owned();
            *sn == token
        },
        None => false,
    }
}

/// Find the instrument among the enumerated endpoints: the first one whose
/// USB serial number is the identity token. Returns that endpoint's index,
/// or `None` exactly when no endpoint matches.
pub fn locate(ports: &Vec<EndpointInfo>) -> (r: Option<usize>)
    ensures
        r matches Some(i) ==> i < ports@.len() && spec_is_monitor(ports@[i as int]) && forall|
            j: int,
        | 0 <= j < i ==> !spec_is_monitor(ports@[j]),
        r is None ==> forall|j: int| 0 <= j < ports@.len() ==> !spec_is_monitor(ports@[j]),
{
    let mut i: usize = 0;
    while i < ports.len()
        invariant
            i <= ports@.len(),
            forall|j: int| 0 <= j < i ==> !spec_is_monitor(ports@[j]),
        decreases ports@.len() - i,
    {
        if is_monitor(&ports[i]) {
            return Some(i);
        }
        i = i + 1;
    }
    None
}

} // verus!

//! The address publication surface: one optional string, empty at startup,
//! written exactly once when the relay's transport identity arrives, read
//! arbitrarily often by the status surface. The reader/writer lock around
//! it belongs to the surrounding process; this cell is the value under the
//! lock and the rules on it.

use vstd::prelude::*;
use vstd::string::StringExecFns;

verus! {

/// The single published-address value. `set_address` demands an unset cell,
/// so it can run at most once in a cell's lifetime.
pub struct AddressCell {
    value: Option<String>,
}

impl AddressCell {
    /// The published address, if one has been published.
    pub closed spec fn spec_address(&self) -> Option<Seq<char>> {
        match self.value {
            Some(s) => Some(s@),
            None => None,
        }
    }

    /// A fresh, unset cell, as the service creates at startup.
    pub fn new() -> (r: AddressCell)
        ensures
            r.spec_address() is None,
    {
        AddressCell { value: None }
    }

    /// Publish the relay's reachable address. Callable only while the cell
    /// is unset: a second publication in the same lifetime is ruled out.
    pub fn set_address(&mut self, address: String)
        requires
            old(self).spec_address() is None,
        ensures
            final(self).spec_address() matches Some(a) && a == address@,
    {
        self.value = Some(address);
    }

    /// Read the published address: `None` until `set_address` ran, and
    /// afterwards exactly the string that was published.
    pub fn get_address(&self) -> (r: Option<&String>)
        ensures
            match r {
                Some(s) => self.spec_address() matches Some(a) && a == s@,
                None => self.spec_address() is None,
            },
    {
        match &self.value {
            Some(s) => Some(s),
            None => None,
        }
    }

    /// The address as display text: the published string itself, or
    /// "not available" while none has been published.
    pub fn status_message(&self) -> (r: String)
        ensures
            self.spec_address() matches Some(a) ==> r@ == a,
            self.spec_address() is None ==> r@ == "not available"@,
    {
        match &self.value {
            Some(s) => s.clone(),
            None => String::from_str("not available"),
        }
    }
}

/// The status page: a small HTML fragment embedding the published address,
/// or a transient starting-up notice while none is published yet.
pub fn render_index_page(address: &Option<String>) -> (r: String)
    ensures
        address matches Some(a) ==> r@ == "<h1>Bitcoin Transaction Broadcaster</h1><h2>Service Address:</h2><div class=\"address\">"@
            + a@ + "</div><p>Send transaction requests to this address.</p>"@,
        address is None ==> r@ == "<h1>Bitcoin Transaction Broadcaster</h1><p>Service is starting up, please refresh in a moment...</p>"@,
{
    match address {
        Some(a) => {
            let mut page = String::from_str(
                "<h1>Bitcoin Transaction Broadcaster</h1><h2>Service Address:</h2><div class=\"address\">",
            );
            page.append(a.as_str());
            page.append("</div><p>Send transaction requests to this address.</p>");
            page
        },
        None => String::from_str(
            "<h1>Bitcoin Transaction Broadcaster</h1><p>Service is starting up, please refresh in a moment...</p>",
        ),
    }
}

} // verus!

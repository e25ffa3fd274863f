//! Station identifiers and the state of their enrichment lookups.

use vstd::prelude::*;
use crate::text::{clone_opt_text, opt_text};

verus! {

/// A station identifier: the normalized callsign with what has been derived
/// from it or looked up about it.
#[derive(Debug, PartialEq, Eq)]
pub struct Call {
    /// The normalized callsign; two calls name the same station exactly when
    /// these strings are equal.
    pub callsign: String,
    /// The prefix under which the lookup service files the callsign.
    pub prefix: Option<String>,
    /// The name of the country the callsign resolves to, if it resolves.
    pub country: Option<String>,
    /// The state or province, once known.
    pub state: Option<String>,
    /// The operator suffix, once known.
    pub op: Option<String>,
}

/// The mathematical content of a [`Call`].
pub struct CallView {
    pub callsign: Seq<char>,
    pub prefix: Option<Seq<char>>,
    pub country: Option<Seq<char>>,
    pub state: Option<Seq<char>>,
    pub op: Option<Seq<char>>,
}

impl View for Call {
    type V = CallView;

    open spec fn view(&self) -> CallView {
        CallView {
            callsign: self.callsign@,
            prefix: opt_text(self.prefix),
            country: opt_text(self.country),
            state: opt_text(self.state),
            op: opt_text(self.op),
        }
    }
}

impl Clone for Call {
    fn clone(&self) -> (r: Self)
        ensures
            r@ == self@,
    {
        Call {
            callsign: self.callsign.clone(),
            prefix: clone_opt_text(&self.prefix),
            country: clone_opt_text(&self.country),
            state: clone_opt_text(&self.state),
            op: clone_opt_text(&self.op),
        }
    }
}

impl Call {
    /// A call of which only the callsign is known.
    pub fn new(callsign: String) -> (r: Call)
        ensures
            r@ == (CallView { callsign: callsign@, prefix: None, country: None, state: None, op: None }),
    {
        Call { callsign, prefix: None, country: None, state: None, op: None }
    }

    /// The normalized callsign.
    pub fn call(&self) -> (r: String)
        ensures
            r@ == self@.callsign,
    {
        self.callsign.clone()
    }
}

/// What the local cache knows of one callsign's lookup.
#[derive(Debug, PartialEq, Eq)]
pub enum CallsignInfo {
    /// A lookup is in flight; the caller keeps its transport handle, filed
    /// under the callsign.
    Requested(Call),
    /// The lookup delivered this enriched call.
    Found(Call),
    /// The lookup service does not know the callsign.
    NotFound(Call),
}

/// The mathematical content of a [`CallsignInfo`].
pub enum CallsignInfoView {
    Requested(CallView),
    Found(CallView),
    NotFound(CallView),
}

impl CallsignInfoView {
    /// The call the entry is about.
    pub open spec fn call(self) -> CallView {
        match self {
            CallsignInfoView::Requested(c) => c,
            CallsignInfoView::Found(c) => c,
            CallsignInfoView::NotFound(c) => c,
        }
    }
}

impl View for CallsignInfo {
    type V = CallsignInfoView;

    open spec fn view(&self) -> CallsignInfoView {
        match self {
            CallsignInfo::Requested(c) => CallsignInfoView::Requested(c@),
            CallsignInfo::Found(c) => CallsignInfoView::Found(c@),
            CallsignInfo::NotFound(c) => CallsignInfoView::NotFound(c@),
        }
    }
}

impl CallsignInfo {
    /// A copy of the call the entry is about, whatever its state.
    pub fn call(&self) -> (r: Call)
        ensures
            r@ == self@.call(),
    {
        match self {
            CallsignInfo::Requested(c) => c.clone(),
            CallsignInfo::Found(c) => c.clone(),
            CallsignInfo::NotFound(c) => c.clone(),
        }
    }
}

} // verus!

//! Fax-related AMI actions.
use vstd::prelude::*;
use super::AmiAction;
use super::fields::{new_headers, push_header};

verus! {

/// Get information about a fax session.
pub struct FaxSessionAction {
    pub session_number: String,
}

impl AmiAction for FaxSessionAction {
    open spec fn name_view(&self) -> Seq<char> {
        "FAXSession"@
    }

    open spec fn headers_view(&self) -> Seq<(Seq<char>, Seq<char>)> {
        Seq::empty().push(("SessionNumber"@, self.session_number@))
    }

    fn action_name(&self) -> (r: &str) {
        "FAXSession"
    }

    fn to_headers(&self) -> (r: Vec<(String, String)>) {
        let mut h = new_headers();
        push_header(&mut h, "SessionNumber", self.session_number.clone());
        h
    }
}

/// List active fax sessions.
pub struct FaxSessionsAction;

impl AmiAction for FaxSessionsAction {
    open spec fn name_view(&self) -> Seq<char> {
        "FAXSessions"@
    }

    open spec fn headers_view(&self) -> Seq<(Seq<char>, Seq<char>)> {
        Seq::empty()
    }

    fn action_name(&self) -> (r: &str) {
        "FAXSessions"
    }

    fn to_headers(&self) -> (r: Vec<(String, String)>) {
        let mut h = new_headers();
        h
    }
}

/// Get fax statistics.
pub struct FaxStatsAction;

impl AmiAction for FaxStatsAction {
    open spec fn name_view(&self) -> Seq<char> {
        "FAXStats"@
    }

    open spec fn headers_view(&self) -> Seq<(Seq<char>, Seq<char>)> {
        Seq::empty()
    }

    fn action_name(&self) -> (r: &str) {
        "FAXStats"
    }

    fn to_headers(&self) -> (r: Vec<(String, String)>) {
        let mut h = new_headers();
        h
    }
}

/// Older name of [`FaxSessionAction`].
pub type FAXSessionAction = FaxSessionAction;

/// Older name of [`FaxSessionsAction`].
pub type FAXSessionsAction = FaxSessionsAction;

/// Older name of [`FaxSessionsAction`], as a value.
#[allow(non_upper_case_globals)]
pub const FAXSessionsAction: FaxSessionsAction = FaxSessionsAction;

/// Older name of [`FaxStatsAction`].
pub type FAXStatsAction = FaxStatsAction;

/// Older name of [`FaxStatsAction`], as a value.
#[allow(non_upper_case_globals)]
pub const FAXStatsAction: FaxStatsAction = FaxStatsAction;

} // verus!

//! What is done with an alert of the dashboard.

use vstd::prelude::*;
use crate::alert::grafana::message::AlertBody;
use crate::alert::grafana::transform::{alert_notice, transform};
use crate::common::{key_views, AlertKeyMap, Dispatch};

verus! {

/// Takes up a request of the dashboard: the notice for the alert is to be
/// delivered to the destinations of the keys, in their order, and nothing is
/// sent yet.
pub fn handle_request(api_keys: Vec<AlertKeyMap>, body: AlertBody) -> (r: Dispatch)
    ensures
        r.wf(),
        r@.keys == key_views(api_keys@),
        r@.notice == alert_notice(body@),
        r@.reports.len() == 0,
{
    let notice = transform(&body);
    Dispatch::new(api_keys, notice)
}

} // verus!

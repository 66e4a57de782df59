//! Configuration items supplied by callers of the blocking engine.

use vstd::prelude::*;

verus! {

/// One target the caller wants blocked: an external identifier (a bundle
/// id for applications, a domain for websites) and whether the identifier
/// names a website reached through a browser.
#[derive(Clone, Debug)]
pub struct BlockableItem {
    pub app_external_id: String,
    pub is_browser: bool,
}

impl BlockableItem {
    pub fn new(app_external_id: String, is_browser: bool) -> (r: Self)
        ensures
            r.app_external_id@ == app_external_id@,
            r.is_browser == is_browser,
    {
        Self { app_external_id, is_browser }
    }
}

} // verus!

//! The query of the page-visit log.

use vstd::prelude::*;

verus! {

/// The menu whose visit is logged (sent as `menuTitle`).
#[derive(Debug)]
pub struct ApiLogRequest {
    menu_title: String,
}

impl ApiLogRequest {
    /// The log entry of a visit to `menu_title`.
    pub fn new(menu_title: String) -> (r: Self)
        ensures
            r.menu_title_spec() == menu_title,
    {
        ApiLogRequest { menu_title }
    }

    pub closed spec fn menu_title_spec(&self) -> String {
        self.menu_title
    }

    /// The menu.
    pub fn menu_title(&self) -> (r: &str)
        ensures
            r@ == self.menu_title_spec()@,
    {
        self.menu_title.as_str()
    }
}

} // verus!

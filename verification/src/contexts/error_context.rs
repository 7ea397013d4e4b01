use vstd::prelude::*;
use vstd::string::*;

use crate::config::GeneralConfig;
use crate::contexts::base_context::{BaseContext, APP_VERSION};

verus! {

/// The title of the page shown for a path that nothing serves.
pub const NOT_FOUND_TITLE: &'static str = "404 Error";

/// What the page for a path that nothing serves is given.
pub struct CatchContext {
    pub base: BaseContext,
    pub path: String,
}

impl CatchContext {
    pub fn new(path: String, config: &GeneralConfig) -> (context: CatchContext)
        ensures
            context.base.page_title@ == NOT_FOUND_TITLE@,
            context.base.application_title@ == config.shop_title@,
            context.base.language@ == config.language@,
            context.base.version@ == APP_VERSION@,
            context.path@ == path@,
    {
        CatchContext { base: BaseContext::new(NOT_FOUND_TITLE, config), path }
    }

    pub fn new_raw(path: String, application_title: String, language: String) -> (context:
        CatchContext)
        ensures
            context.base.page_title@ == NOT_FOUND_TITLE@,
            context.base.application_title@ == application_title@,
            context.base.language@ == language@,
            context.base.version@ == APP_VERSION@,
            context.path@ == path@,
    {
        CatchContext {
            base: BaseContext::new_raw(String::from_str(NOT_FOUND_TITLE), application_title, language),
            path,
        }
    }
}

} // verus!

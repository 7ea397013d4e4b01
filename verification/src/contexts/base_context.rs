use vstd::prelude::*;
use vstd::string::*;

use crate::config::GeneralConfig;

verus! {

/// The version of this package, shown on every page.
pub const APP_VERSION: &'static str = "0.1.0";

/// What every page template is given: its title, the shop's title, the
/// language and the application's version.
pub struct BaseContext {
    pub page_title: String,
    pub application_title: String,
    pub language: String,
    pub version: &'static str,
}

impl BaseContext {
    /// A context whose shop title and language come from the configuration.
    pub fn new(page_title: &str, general_config: &GeneralConfig) -> (context: BaseContext)
        ensures
            context.page_title@ == page_title@,
            context.application_title@ == general_config.shop_title@,
            context.language@ == general_config.language@,
            context.version@ == APP_VERSION@,
    {
        BaseContext {
            page_title: String::from_str(page_title),
            application_title: general_config.shop_title.clone(),
            language: general_config.language.clone(),
            version: APP_VERSION,
        }
    }

    /// A context from the given texts.
    pub fn new_raw(page_title: String, application_title: String, language: String) -> (context:
        BaseContext)
        ensures
            context.page_title@ == page_title@,
            context.application_title@ == application_title@,
            context.language@ == language@,
            context.version@ == APP_VERSION@,
    {
        BaseContext { page_title, application_title, language, version: APP_VERSION }
    }
}

} // verus!

use vstd::prelude::*;
use vstd::string::*;

pub mod auth;
pub mod config;
pub mod contexts;
pub mod email;
pub mod hex_codec;
pub mod images;
pub mod service_error;
pub mod text;
pub mod tokens;
pub mod translations;

use crate::text::str_equals;

verus! {

/// The base directory of the application: the working directory for a
/// debug build, the installed data directory otherwise.
pub open spec fn app_base_path(debug_build: bool) -> Seq<char> {
    if debug_build {
        "."@
    } else {
        "/usr/share/stec_shop"@
    }
}

/// The base directory of the application for a debug build or a release build.
pub fn get_app_base_path(debug_build: bool) -> (path: &'static str)
    ensures
        path@ == app_base_path(debug_build),
{
    if debug_build {
        "."
    } else {
        "/usr/share/stec_shop"
    }
}

/// The directory of the static files: `{base}/static`.
pub fn static_files_path(debug_build: bool) -> (path: String)
    ensures
        path@ == app_base_path(debug_build) + "/static"@,
{
    let mut path = String::from_str(get_app_base_path(debug_build));
    path.append("/static");
    path
}

/// The directory of the translation tables: `{base}/i18n/`.
pub fn translations_path(debug_build: bool) -> (path: String)
    ensures
        path@ == app_base_path(debug_build) + "/i18n/"@,
{
    let mut path = String::from_str(get_app_base_path(debug_build));
    path.append("/i18n/");
    path
}

/// The symbol of a supported currency code.
pub open spec fn currency_symbol_spec(code: Seq<char>) -> Option<Seq<char>> {
    if code == "EUR"@ {
        Some("€"@)
    } else if code == "USD"@ {
        Some("$"@)
    } else if code == "GBP"@ {
        Some("£"@)
    } else {
        None
    }
}

/// Whether the currency filter supports a currency code.
pub fn is_supported_currency(code: &str) -> (supported: bool)
    ensures
        supported == currency_symbol_spec(code@) is Some,
{
    str_equals(code, "EUR") || str_equals(code, "USD") || str_equals(code, "GBP")
}

/// Euro, dollar and pound are the supported currencies, shown as `€`, `$`
/// and `£`; every other code is unsupported.
pub proof fn lemma_supported_currencies(code: Seq<char>)
    ensures
        currency_symbol_spec("EUR"@) == Some("€"@),
        currency_symbol_spec("USD"@) == Some("$"@),
        currency_symbol_spec("GBP"@) == Some("£"@),
        code != "EUR"@ && code != "USD"@ && code != "GBP"@ ==> currency_symbol_spec(code) is None,
{
    reveal_strlit("EUR");
    reveal_strlit("USD");
    reveal_strlit("GBP");
    assert("EUR"@ != "USD"@) by {
        assert("EUR"@[0] != "USD"@[0]);
    }
    assert("GBP"@ != "USD"@) by {
        assert("GBP"@[0] != "USD"@[0]);
    }
    assert("GBP"@ != "EUR"@) by {
        assert("GBP"@[0] != "EUR"@[0]);
    }
}

/// The symbol that the currency filter shows for a currency code; only
/// euro, dollar and pound are supported.
pub fn currency_symbol(code: &str) -> (symbol: &'static str)
    requires
        currency_symbol_spec(code@) is Some,
    ensures
        Some(symbol@) == currency_symbol_spec(code@),
{
    if str_equals(code, "EUR") {
        "€"
    } else if str_equals(code, "USD") {
        "$"
    } else {
        "£"
    }
}

} // verus!

use stec_shop::auth::google::GoogleUserInfo;
use stec_shop::auth::{bearer_authorization, token_authorization};
use stec_shop::config::{ConfigEntry, Configuration, GeneralConfig};
use stec_shop::contexts::base_context::{BaseContext, APP_VERSION};
use stec_shop::contexts::error_context::CatchContext;
use stec_shop::email::sendgrid::{SendgridMailProvider, SendgridV3MailProvider};
use stec_shop::email::{Contact, Email, MailProvider};
use stec_shop::images::{image_action, resized_image_path, ImageAction};
use stec_shop::service_error::ServiceError;
use stec_shop::text::{decimal_string, str_equals};
use stec_shop::translations::{TranslationTable, Translations};
use stec_shop::{currency_symbol, get_app_base_path, static_files_path, translations_path};

fn table(culture: &str, pairs: &[(&str, &str)]) -> TranslationTable {
    TranslationTable {
        culture: culture.to_string(),
        translations: pairs.iter().map(|(k, v)| (k.to_string(), v.to_string())).collect(),
    }
}

fn sample_translations() -> Translations {
    let mut t = Translations::default();
    t.add_translation_table(table("de", &[("hello", "Hallo"), ("bye", "Tschüss")]));
    t.add_translation_table(table("en", &[("hello", "Hello"), ("bye", "Bye")]));
    t
}

#[test]
fn translate_uses_the_culture_table() {
    let t = sample_translations();
    assert_eq!(t.translate("de", "hello"), "Hallo");
    assert_eq!(t.translate("en", "bye"), "Bye");
}

#[test]
fn translate_falls_back_to_english() {
    let t = sample_translations();
    assert_eq!(t.translate("fr", "hello"), "Hello");
    assert_eq!(t.translate("fr", "bye"), t.translate("en", "bye"));
}

#[test]
fn added_table_answers_for_its_new_culture() {
    let mut t = sample_translations();
    t.add_translation_table(table("fr", &[("hello", "Bonjour")]));
    assert_eq!(t.translate("fr", "hello"), "Bonjour");
}

#[test]
fn later_table_of_a_known_culture_is_shadowed() {
    let mut t = sample_translations();
    t.add_translation_table(table("de", &[("hello", "Servus")]));
    assert_eq!(t.translate("de", "hello"), "Hallo");
}

fn contact_pairs(to: &[(String, String)]) -> Vec<(&str, &str)> {
    to.iter().map(|(a, n)| (a.as_str(), n.as_str())).collect()
}

#[test]
fn sendgrid_request_carries_the_mail() {
    let provider = SendgridMailProvider::new("key-1");
    let email = Email::new(Contact::new("shop@example.com", "Shop"))
        .add_recipient(Contact::new("a@example.com", "Anna"))
        .add_recipient(Contact::from_email("b@example.com"))
        .set_subject("Your order")
        .set_html("<p>Thanks</p>");
    let mail = provider.prepare(&email);
    assert_eq!(mail.api_key, "key-1");
    assert_eq!(mail.from, "shop@example.com");
    assert_eq!(mail.from_name.as_deref(), Some("Shop"));
    assert_eq!(mail.subject, "Your order");
    assert_eq!(
        contact_pairs(&mail.to),
        vec![("a@example.com", "Anna"), ("b@example.com", "")]
    );
    assert_eq!(mail.html.as_deref(), Some("<p>Thanks</p>"));
}

#[test]
fn new_email_has_no_recipients_subject_or_body() {
    let provider = SendgridMailProvider::new("k");
    let mail = provider.prepare(&Email::new(Contact::from_email("shop@example.com")));
    assert_eq!(mail.from_name, None);
    assert_eq!(mail.subject, "");
    assert!(mail.to.is_empty());
    assert_eq!(mail.html, None);
}

#[test]
fn setters_replace_earlier_values() {
    let provider = SendgridMailProvider::new("k");
    let email = Email::new(Contact::from_email("s@example.com"))
        .set_subject("one")
        .set_subject("two")
        .set_html("a")
        .set_html("b");
    let mail = provider.prepare(&email);
    assert_eq!(mail.subject, "two");
    assert_eq!(mail.html.as_deref(), Some("b"));
}

#[test]
fn sendgrid_v3_message_carries_the_mail() {
    let provider = SendgridV3MailProvider::new("key-3");
    let email = Email::new(Contact::new("shop@example.com", "Shop"))
        .add_recipient(Contact::from_email("b@example.com"))
        .add_recipient(Contact::new("c@example.com", "Carl"))
        .set_subject("Hi")
        .set_html("<b>x</b>");
    let message = provider.prepare(&email);
    assert_eq!(message.api_key, "key-3");
    assert_eq!(message.from, "shop@example.com");
    assert_eq!(message.from_name, "Shop");
    assert_eq!(message.subject, "Hi");
    assert_eq!(
        contact_pairs(&message.to),
        vec![("b@example.com", ""), ("c@example.com", "Carl")]
    );
    assert_eq!(message.html, "<b>x</b>");
}

#[test]
fn service_error_text() {
    let error = ServiceError::new(404, "Not found".to_string());
    assert_eq!(error.status_code, 404);
    assert_eq!(error.message, "Not found");
    assert_eq!(error.to_string(), "404 - Not found");
    assert_eq!(ServiceError::new(0, String::new()).to_string(), "0 - ");
}

#[test]
fn decimal_text_of_numbers() {
    assert_eq!(decimal_string(0), "0");
    assert_eq!(decimal_string(7), "7");
    assert_eq!(decimal_string(10), "10");
    assert_eq!(decimal_string(1234567890), "1234567890");
    assert_eq!(decimal_string(u64::MAX), u64::MAX.to_string());
}

#[test]
fn text_equality() {
    assert!(str_equals("Grüße", "Grüße"));
    assert!(!str_equals("abc", "abd"));
    assert!(!str_equals("abc", "ab"));
    assert!(str_equals("", ""));
}

fn general_config() -> GeneralConfig {
    GeneralConfig {
        shop_url: "https://shop.example.com".to_string(),
        shop_title: "STEC Shop".to_string(),
        logo_url: "logo.png".to_string(),
        language: "de".to_string(),
        vat: 19,
        currency: "EUR".to_string(),
        data_path: "/data".to_string(),
        stripe_secret_api_key: "sk".to_string(),
        stripe_public_api_key: "pk".to_string(),
        sendgrid_sender_email: "shop@example.com".to_string(),
        sendgrid_sender_name: "Shop".to_string(),
        sendgrid_api_key: "sg".to_string(),
    }
}

#[test]
fn base_context_from_configuration() {
    let context = BaseContext::new("Home", &general_config());
    assert_eq!(context.page_title, "Home");
    assert_eq!(context.application_title, "STEC Shop");
    assert_eq!(context.language, "de");
    assert_eq!(context.version, APP_VERSION);
}

#[test]
fn catch_context_is_a_404_page() {
    let context = CatchContext::new("/missing".to_string(), &general_config());
    assert_eq!(context.base.page_title, "404 Error");
    assert_eq!(context.base.application_title, "STEC Shop");
    assert_eq!(context.path, "/missing");
    let raw = CatchContext::new_raw("/x".to_string(), "Title".to_string(), "en".to_string());
    assert_eq!(raw.base.page_title, "404 Error");
    assert_eq!(raw.base.application_title, "Title");
    assert_eq!(raw.base.language, "en");
    assert_eq!(raw.path, "/x");
    let base = BaseContext::new_raw("P".to_string(), "A".to_string(), "fr".to_string());
    assert_eq!((base.page_title.as_str(), base.application_title.as_str()), ("P", "A"));
}

#[test]
fn configuration_text_selection() {
    let ok = |s: &str| -> Result<String, u8> { Ok(s.to_string()) };
    assert_eq!(Configuration::select_config_text(ok("a"), ok("b")), Ok("a".to_string()));
    assert_eq!(Configuration::select_config_text(Err(1), ok("b")), Ok("b".to_string()));
    assert_eq!(Configuration::select_config_text(ok("a"), Err(2)), Err(2));
    assert_eq!(Configuration::select_config_text(Err(1), Err(2)), Err(2));
    let entry = ConfigEntry { address: "0.0.0.0".to_string(), port: 8000 };
    assert_eq!(entry.port, 8000);
}

#[test]
fn resized_image_location() {
    assert_eq!(resized_image_path("ART-10001", "IMG_1967_1000.JPG", 250), "/tmp/ART-10001_250_IMG_1967_1000.JPG");
    assert_eq!(resized_image_path("p", "i.png", 0), "/tmp/p_0_i.png");
}

#[test]
fn image_request_decisions() {
    assert_eq!(image_action(true, false), ImageAction::Serve);
    assert_eq!(image_action(true, true), ImageAction::Serve);
    assert_eq!(image_action(false, true), ImageAction::ResizeThenServe);
    assert_eq!(image_action(false, false), ImageAction::NotFound);
}

#[test]
fn currency_symbols() {
    assert_eq!(currency_symbol("EUR"), "€");
    assert_eq!(currency_symbol("USD"), "$");
    assert_eq!(currency_symbol("GBP"), "£");
}

#[test]
fn application_paths() {
    assert_eq!(get_app_base_path(true), ".");
    assert_eq!(get_app_base_path(false), "/usr/share/stec_shop");
    assert_eq!(static_files_path(true), "./static");
    assert_eq!(translations_path(false), "/usr/share/stec_shop/i18n/");
}

#[test]
fn authorization_headers() {
    assert_eq!(bearer_authorization("abc"), "Bearer abc");
    assert_eq!(token_authorization("abc"), "token abc");
}

#[test]
fn google_real_name() {
    let named = GoogleUserInfo { names: vec![Some("Ada".to_string()), Some("B".to_string())] };
    assert_eq!(named.real_name(), "Ada");
    assert_eq!(GoogleUserInfo { names: vec![] }.real_name(), "");
    assert_eq!(GoogleUserInfo { names: vec![None, Some("B".to_string())] }.real_name(), "");
}

#[test]
fn try_translate_answers_or_declines() {
    let t = sample_translations();
    assert_eq!(t.try_translate("de", "hello"), Some("Hallo"));
    assert_eq!(t.try_translate("fr", "bye"), Some("Bye"));
    assert_eq!(t.try_translate("de", "missing"), None);
    let mut only_de = Translations::default();
    only_de.add_translation_table(table("de", &[("hello", "Hallo")]));
    assert_eq!(only_de.try_translate("fr", "hello"), None);
    assert_eq!(Translations::default().try_translate("en", "hello"), None);
}

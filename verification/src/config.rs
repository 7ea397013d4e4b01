use vstd::prelude::*;

verus! {

/// Where one of the application's servers listens.
#[derive(Debug, Clone)]
pub struct ConfigEntry {
    pub address: String,
    pub port: u16,
}

/// The settings shared by the application's servers.
#[derive(Debug, Clone)]
pub struct GeneralConfig {
    pub shop_url: String,
    pub shop_title: String,
    pub logo_url: String,
    pub language: String,
    pub vat: u64,
    pub currency: String,
    pub data_path: String,
    pub stripe_secret_api_key: String,
    pub stripe_public_api_key: String,
    pub sendgrid_sender_email: String,
    pub sendgrid_sender_name: String,
    pub sendgrid_api_key: String,
}

/// The whole configuration of the application.
#[derive(Debug, Clone)]
pub struct Configuration {
    pub frontend: ConfigEntry,
    pub backend: ConfigEntry,
    pub landing: ConfigEntry,
    pub services: ConfigEntry,
    pub general: GeneralConfig,
}

impl Configuration {
    /// The configuration text that loading parses, from the outcomes of
    /// reading the requested file and of reading the fallback file. The
    /// fallback is read in any case, and its failure is the outcome even where
    /// the requested file was read; otherwise the requested file's text is
    /// taken where it was read, and the fallback's text where it was not.
    pub fn select_config_text<E>(requested: Result<String, E>, fallback: Result<String, E>) -> (r:
        Result<String, E>)
        ensures
            match fallback {
                Err(e) => r == Err::<String, E>(e),
                Ok(f) => match requested {
                    Ok(t) => r == Ok::<String, E>(t),
                    Err(_) => r == Ok::<String, E>(f),
                },
            },
    {
        let fallback_text = match fallback {
            Ok(f) => f,
            Err(e) => return Err(e),
        };
        match requested {
            Ok(t) => Ok(t),
            Err(_) => Ok(fallback_text),
        }
    }
}

} // verus!

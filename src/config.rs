//! Provider credentials and server settings, as explicit values.
use vstd::prelude::*;
use crate::error::PaymentError;
use crate::text::{join2, starts_with, str_eq};

verus! {

/// Provider API configuration.
#[derive(Debug, Clone)]
pub struct StripeConfig {
    /// Secret API key (`sk_test_...` or `sk_live_...`).
    pub secret_key: String,
    /// Publishable key (`pk_test_...` or `pk_live_...`).
    pub publishable_key: String,
    /// Webhook signing secret (`whsec_...`).
    pub webhook_secret: String,
    pub api_base_url: String,
    pub api_version: String,
}

/// Whether `p` is a prefix of `s`.
pub open spec fn has_prefix(s: Seq<char>, p: Seq<char>) -> bool {
    p.len() <= s.len() && s.subrange(0, p.len() as int) == p
}

/// Whether the three keys have the expected prefixes.
pub open spec fn keys_well_formed(sk: Seq<char>, pk: Seq<char>, wh: Seq<char>) -> bool {
    &&& (has_prefix(sk, "sk_test_"@) || has_prefix(sk, "sk_live_"@))
    &&& (has_prefix(pk, "pk_test_"@) || has_prefix(pk, "pk_live_"@))
    &&& has_prefix(wh, "whsec_"@)
}

impl StripeConfig {
    /// A configuration with the default API address and version.
    pub fn new(secret_key: &str, publishable_key: &str, webhook_secret: &str) -> (r: Self)
        ensures
            r.secret_key@ == secret_key@,
            r.publishable_key@ == publishable_key@,
            r.webhook_secret@ == webhook_secret@,
            r.api_base_url@ == "https://api.stripe.com"@,
            r.api_version@ == "2024-12-18.acacia"@,
    {
        StripeConfig {
            secret_key: String::from_str(secret_key),
            publishable_key: String::from_str(publishable_key),
            webhook_secret: String::from_str(webhook_secret),
            api_base_url: String::from_str("https://api.stripe.com"),
            api_version: String::from_str("2024-12-18.acacia"),
        }
    }

    /// A checked configuration from possibly missing key values: each missing
    /// key, then each key with the wrong prefix, is a configuration error.
    pub fn from_values(
        secret_key: Option<String>,
        publishable_key: Option<String>,
        webhook_secret: Option<String>,
    ) -> (r: Result<Self, PaymentError>)
        ensures
            r is Ok <==> (secret_key is Some && publishable_key is Some && webhook_secret is Some
                && keys_well_formed(secret_key->0@, publishable_key->0@, webhook_secret->0@)),
            r matches Ok(c) ==> c.secret_key == secret_key->0 && c.publishable_key == publishable_key->0
                && c.webhook_secret == webhook_secret->0 && c.api_base_url@ == "https://api.stripe.com"@,
            r matches Err(e) ==> e is Configuration,
    {
        let sk = match secret_key {
            Some(s) => s,
            None => return Err(PaymentError::Configuration(String::from_str("STRIPE_SECRET_KEY not set"))),
        };
        let pk = match publishable_key {
            Some(s) => s,
            None => return Err(PaymentError::Configuration(String::from_str("STRIPE_PUBLISHABLE_KEY not set"))),
        };
        let wh = match webhook_secret {
            Some(s) => s,
            None => return Err(PaymentError::Configuration(String::from_str("STRIPE_WEBHOOK_SECRET not set"))),
        };
        if !starts_with(sk.as_str(), "sk_test_") && !starts_with(sk.as_str(), "sk_live_") {
            return Err(PaymentError::Configuration(String::from_str(
                "STRIPE_SECRET_KEY must start with sk_test_ or sk_live_",
            )));
        }
        if !starts_with(pk.as_str(), "pk_test_") && !starts_with(pk.as_str(), "pk_live_") {
            return Err(PaymentError::Configuration(String::from_str(
                "STRIPE_PUBLISHABLE_KEY must start with pk_test_ or pk_live_",
            )));
        }
        if !starts_with(wh.as_str(), "whsec_") {
            return Err(PaymentError::Configuration(String::from_str(
                "STRIPE_WEBHOOK_SECRET must start with whsec_",
            )));
        }
        Ok(StripeConfig {
            secret_key: sk,
            publishable_key: pk,
            webhook_secret: wh,
            api_base_url: String::from_str("https://api.stripe.com"),
            api_version: String::from_str("2024-12-18.acacia"),
        })
    }

    /// Whether the secret key is a test key.
    pub fn is_test_mode(&self) -> (r: bool)
        ensures
            r == has_prefix(self.secret_key@, "sk_test_"@),
    {
        starts_with(self.secret_key.as_str(), "sk_test_")
    }

    /// Whether the secret key is a live key.
    pub fn is_live_mode(&self) -> (r: bool)
        ensures
            r == has_prefix(self.secret_key@, "sk_live_"@),
    {
        starts_with(self.secret_key.as_str(), "sk_live_")
    }

    /// The `Authorization` header value.
    pub fn auth_header(&self) -> (r: String)
        ensures
            r@ == "Bearer "@ + self.secret_key@,
    {
        join2("Bearer ", self.secret_key.as_str())
    }

    /// Sets the API base URL.
    pub fn with_api_base_url(self, url: &str) -> (r: Self)
        ensures
            r.api_base_url@ == url@,
            r.secret_key == self.secret_key,
            r.publishable_key == self.publishable_key,
            r.webhook_secret == self.webhook_secret,
            r.api_version == self.api_version,
    {
        let mut c = self;
        c.api_base_url = String::from_str(url);
        c
    }
}

/// Server settings.
#[derive(Debug, Clone)]
pub struct AppConfig {
    pub host: String,
    pub port: u16,
    /// Base URL for callbacks when no site applies.
    pub base_url: String,
    /// development, staging or production.
    pub environment: String,
}

impl AppConfig {
    /// Settings from optional values, with defaults `127.0.0.1`, `8080`,
    /// `http://localhost:8080` and `development`.
    pub fn from_values(
        host: Option<String>,
        port: Option<u16>,
        base_url: Option<String>,
        environment: Option<String>,
    ) -> (r: Self)
        ensures
            r.host@ == (match host { Some(h) => h@, None => "127.0.0.1"@ }),
            r.port == (match port { Some(p) => p, None => 8080 }),
            r.base_url@ == (match base_url { Some(b) => b@, None => "http://localhost:8080"@ }),
            r.environment@ == (match environment { Some(e) => e@, None => "development"@ }),
    {
        AppConfig {
            host: match host { Some(h) => h, None => String::from_str("127.0.0.1") },
            port: match port { Some(p) => p, None => 8080 },
            base_url: match base_url { Some(b) => b, None => String::from_str("http://localhost:8080") },
            environment: match environment { Some(e) => e, None => String::from_str("development") },
        }
    }

    /// Whether the environment is `production`.
    pub fn is_production(&self) -> (r: bool)
        ensures
            r == (self.environment@ == "production"@),
    {
        str_eq(self.environment.as_str(), "production")
    }
}

} // verus!

//! Typed errors of payment operations and their HTTP status codes.
use vstd::prelude::*;
use crate::text::{join2, join3, nat_text, u64_to_text};

verus! {

/// Error of any payment operation.
#[derive(Debug, Clone, PartialEq, Eq)]
pub enum PaymentError {
    /// Missing or malformed configuration.
    Configuration(String),
    /// Invalid request data.
    InvalidRequest(String),
    /// Product not found in the catalog.
    ProductNotFound { product_id: String },
    /// Invalid amount.
    InvalidPrice { message: String },
    /// Currency not supported.
    UnsupportedCurrency { currency: String },
    /// Error reported by the payment provider.
    ProviderError { provider: String, message: String },
    /// Failure talking to the provider.
    NetworkError(String),
    /// Webhook signature or timestamp rejected.
    WebhookVerificationFailed(String),
    /// Webhook body could not be parsed.
    WebhookParseError(String),
    /// Checkout session creation failed.
    CheckoutCreationFailed(String),
    /// Session expired or unknown.
    SessionNotFound { session_id: String },
    /// Payment declined.
    PaymentDeclined { reason: String },
    /// Same idempotency key reused with other parameters.
    IdempotencyConflict { key: String },
    /// Rate limited by the provider.
    RateLimited { provider: String, retry_after_secs: u64 },
    /// Internal error.
    Internal(String),
    /// Serialization error.
    Serialization(String),
}

/// Result of a payment operation.
pub type PaymentResult<T> = Result<T, PaymentError>;

impl PaymentError {
    /// Errors worth retrying: network failures, rate limits and provider errors.
    pub open spec fn spec_is_retryable(&self) -> bool {
        self is NetworkError || self is RateLimited || self is ProviderError
    }

    /// The HTTP status that goes with each kind of error.
    pub open spec fn spec_status_code(&self) -> u16 {
        match self {
            PaymentError::Configuration(_) => 500,
            PaymentError::InvalidRequest(_) => 400,
            PaymentError::ProductNotFound { .. } => 404,
            PaymentError::InvalidPrice { .. } => 400,
            PaymentError::UnsupportedCurrency { .. } => 400,
            PaymentError::ProviderError { .. } => 502,
            PaymentError::NetworkError(_) => 503,
            PaymentError::WebhookVerificationFailed(_) => 401,
            PaymentError::WebhookParseError(_) => 400,
            PaymentError::CheckoutCreationFailed(_) => 500,
            PaymentError::SessionNotFound { .. } => 404,
            PaymentError::PaymentDeclined { .. } => 402,
            PaymentError::IdempotencyConflict { .. } => 409,
            PaymentError::RateLimited { .. } => 429,
            PaymentError::Internal(_) => 500,
            PaymentError::Serialization(_) => 500,
        }
    }

    /// The human-readable text of the error.
    pub open spec fn spec_message(&self) -> Seq<char> {
        match self {
            PaymentError::Configuration(m) => "Configuration error: "@ + m@,
            PaymentError::InvalidRequest(m) => "Invalid request: "@ + m@,
            PaymentError::ProductNotFound { product_id } => "Product not found: "@ + product_id@,
            PaymentError::InvalidPrice { message } => "Invalid price: "@ + message@,
            PaymentError::UnsupportedCurrency { currency } => "Unsupported currency: "@ + currency@,
            PaymentError::ProviderError { provider, message } => "Provider error ["@ + provider@ + "]: "@ + message@,
            PaymentError::NetworkError(m) => "Network error: "@ + m@,
            PaymentError::WebhookVerificationFailed(m) => "Webhook verification failed: "@ + m@,
            PaymentError::WebhookParseError(m) => "Webhook parse error: "@ + m@,
            PaymentError::CheckoutCreationFailed(m) => "Checkout creation failed: "@ + m@,
            PaymentError::SessionNotFound { session_id } => "Session not found or expired: "@ + session_id@,
            PaymentError::PaymentDeclined { reason } => "Payment declined: "@ + reason@,
            PaymentError::IdempotencyConflict { key } => "Idempotency conflict: request with key "@ + key@
                + " already exists with different parameters"@,
            PaymentError::RateLimited { provider, retry_after_secs } => "Rate limited by "@ + provider@
                + ", retry after "@ + nat_text(*retry_after_secs as nat) + " seconds"@,
            PaymentError::Internal(m) => "Internal error: "@ + m@,
            PaymentError::Serialization(m) => "Serialization error: "@ + m@,
        }
    }

    /// The human-readable text of the error.
    pub fn message(&self) -> (r: String)
        ensures
            r@ == self.spec_message(),
    {
        match self {
            PaymentError::Configuration(m) => join2("Configuration error: ", m.as_str()),
            PaymentError::InvalidRequest(m) => join2("Invalid request: ", m.as_str()),
            PaymentError::ProductNotFound { product_id } => join2("Product not found: ", product_id.as_str()),
            PaymentError::InvalidPrice { message } => join2("Invalid price: ", message.as_str()),
            PaymentError::UnsupportedCurrency { currency } => join2("Unsupported currency: ", currency.as_str()),
            PaymentError::ProviderError { provider, message } => {
                join3("Provider error [", provider.as_str(), "]: ").concat(message.as_str())
            },
            PaymentError::NetworkError(m) => join2("Network error: ", m.as_str()),
            PaymentError::WebhookVerificationFailed(m) => join2("Webhook verification failed: ", m.as_str()),
            PaymentError::WebhookParseError(m) => join2("Webhook parse error: ", m.as_str()),
            PaymentError::CheckoutCreationFailed(m) => join2("Checkout creation failed: ", m.as_str()),
            PaymentError::SessionNotFound { session_id } => join2("Session not found or expired: ", session_id.as_str()),
            PaymentError::PaymentDeclined { reason } => join2("Payment declined: ", reason.as_str()),
            PaymentError::IdempotencyConflict { key } => join3(
                "Idempotency conflict: request with key ",
                key.as_str(),
                " already exists with different parameters",
            ),
            PaymentError::RateLimited { provider, retry_after_secs } => {
                let secs = u64_to_text(*retry_after_secs);
                join3("Rate limited by ", provider.as_str(), ", retry after ").concat(secs.as_str()).concat(" seconds")
            },
            PaymentError::Internal(m) => join2("Internal error: ", m.as_str()),
            PaymentError::Serialization(m) => join2("Serialization error: ", m.as_str()),
        }
    }

    /// Whether a caller may retry the failed operation.
    pub fn is_retryable(&self) -> (r: bool)
        ensures
            r == self.spec_is_retryable(),
    {
        match self {
            PaymentError::NetworkError(_) => true,
            PaymentError::RateLimited { .. } => true,
            PaymentError::ProviderError { .. } => true,
            _ => false,
        }
    }

    /// HTTP status code for this error.
    pub fn status_code(&self) -> (r: u16)
        ensures
            r == self.spec_status_code(),
    {
        match self {
            PaymentError::Configuration(_) => 500,
            PaymentError::InvalidRequest(_) => 400,
            PaymentError::ProductNotFound { .. } => 404,
            PaymentError::InvalidPrice { .. } => 400,
            PaymentError::UnsupportedCurrency { .. } => 400,
            PaymentError::ProviderError { .. } => 502,
            PaymentError::NetworkError(_) => 503,
            PaymentError::WebhookVerificationFailed(_) => 401,
            PaymentError::WebhookParseError(_) => 400,
            PaymentError::CheckoutCreationFailed(_) => 500,
            PaymentError::SessionNotFound { .. } => 404,
            PaymentError::PaymentDeclined { .. } => 402,
            PaymentError::IdempotencyConflict { .. } => 409,
            PaymentError::RateLimited { .. } => 429,
            PaymentError::Internal(_) => 500,
            PaymentError::Serialization(_) => 500,
        }
    }
}

} // verus!

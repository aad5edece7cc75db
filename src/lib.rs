//! Payment-gateway core: money and catalog model, orders, tenant sites,
//! provider selection, signed webhook verification and event dispatch.
pub mod text;
pub mod error;
pub mod metadata;
pub mod product;
pub mod json;
pub mod order;
pub mod site;
pub mod config;
pub mod strategy;
pub mod signature;
pub mod stripe;
pub mod webhook;
pub mod api;
pub mod cart;
pub mod links;

pub use error::{PaymentError, PaymentResult};
pub use order::{CheckoutMode, CheckoutSession, CheckoutStatus, LineItem, Order, WebhookEvent, WebhookEventType};
pub use product::{BillingInterval, Currency, Decimal, Price, Product, ProductCatalog, ProductType};
pub use site::{Site, SiteRegistry};
pub use strategy::{CheckoutUrls, PaymentStrategy, PaymentStrategySelector};
pub use config::{AppConfig, StripeConfig};
pub use stripe::StripeCheckoutStrategy;
pub use links::{PaymentLinkResponse, StripeLinksStrategy};
pub use webhook::{dispatch_webhook_event, CheckoutCompletedData, LoggingWebhookHandler, WebhookHandler};

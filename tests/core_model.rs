use lightning_cart::api::ErrorResponse;
use lightning_cart::error::PaymentError;
use lightning_cart::order::{CheckoutMode, CheckoutSession, CheckoutStatus, LineItem, Order};
use lightning_cart::product::{BillingInterval, Currency, Decimal, Price, Product, ProductCatalog};
use lightning_cart::site::{Site, SiteRegistry};
use lightning_cart::strategy::{CheckoutUrls, PaymentStrategySelector};
use lightning_cart::stripe::StripeCheckoutStrategy;

#[test]
fn test_error_response() {
    let err = ErrorResponse::new("Test error", 400);
    assert_eq!(err.error, "Test error");
    assert_eq!(err.code, 400);
}

#[test]
fn test_retryable_errors() {
    assert!(PaymentError::NetworkError("timeout".into()).is_retryable());
    assert!(PaymentError::RateLimited {
        provider: "stripe".into(),
        retry_after_secs: 60
    }
    .is_retryable());
    assert!(!PaymentError::InvalidRequest("bad data".into()).is_retryable());
}

#[test]
fn test_status_codes() {
    assert_eq!(PaymentError::InvalidRequest("test".into()).status_code(), 400);
    assert_eq!(
        PaymentError::ProductNotFound {
            product_id: "x".into()
        }
        .status_code(),
        404
    );
    assert_eq!(
        PaymentError::RateLimited {
            provider: "stripe".into(),
            retry_after_secs: 60
        }
        .status_code(),
        429
    );
}

#[test]
fn every_error_kind_has_its_status() {
    let s = || String::from("m");
    let cases: Vec<(PaymentError, u16, bool)> = vec![
        (PaymentError::Configuration(s()), 500, false),
        (PaymentError::InvalidRequest(s()), 400, false),
        (PaymentError::ProductNotFound { product_id: s() }, 404, false),
        (PaymentError::InvalidPrice { message: s() }, 400, false),
        (PaymentError::UnsupportedCurrency { currency: s() }, 400, false),
        (PaymentError::ProviderError { provider: s(), message: s() }, 502, true),
        (PaymentError::NetworkError(s()), 503, true),
        (PaymentError::WebhookVerificationFailed(s()), 401, false),
        (PaymentError::WebhookParseError(s()), 400, false),
        (PaymentError::CheckoutCreationFailed(s()), 500, false),
        (PaymentError::SessionNotFound { session_id: s() }, 404, false),
        (PaymentError::PaymentDeclined { reason: s() }, 402, false),
        (PaymentError::IdempotencyConflict { key: s() }, 409, false),
        (PaymentError::RateLimited { provider: s(), retry_after_secs: 1 }, 429, true),
        (PaymentError::Internal(s()), 500, false),
        (PaymentError::Serialization(s()), 500, false),
    ];
    for (e, code, retry) in cases {
        assert_eq!(e.status_code(), code);
        assert_eq!(e.is_retryable(), retry);
    }
}

#[test]
fn test_line_item_total() {
    let product = Product::one_time("test", "Test", Price::new(Decimal::new(10, 0), Currency::USD));
    let item = LineItem::from_product(&product, 3);
    assert_eq!(item.total().amount, 3000);
}

#[test]
fn test_order_total() {
    let mut order = Order::new(Currency::USD);
    let product1 = Product::one_time("p1", "Product 1", Price::new(Decimal::new(10, 0), Currency::USD));
    let product2 = Product::one_time("p2", "Product 2", Price::new(Decimal::new(25, 0), Currency::USD));
    order.add_product(&product1, 2);
    order.add_product(&product2, 1);
    assert_eq!(order.total().amount, 4500);
    assert_eq!(order.item_count(), 3);
}

#[test]
fn test_subscription_mode_detection() {
    let mut order = Order::new(Currency::USD);
    let subscription = Product::subscription(
        "sub",
        "Monthly Sub",
        Price::new(Decimal::new(29, 0), Currency::USD),
        BillingInterval::Monthly,
    );
    order.add_product(&subscription, 1);
    assert_eq!(order.mode, CheckoutMode::Subscription);
}

#[test]
fn subscription_mode_is_not_reverted_by_one_time_item() {
    let mut order = Order::new(Currency::USD);
    assert_eq!(order.mode, CheckoutMode::Payment);
    let sub = Product::subscription("s", "S", Price::from_cents(900, Currency::USD), BillingInterval::Yearly);
    let once = Product::one_time("o", "O", Price::from_cents(100, Currency::USD));
    order.add_product(&sub, 1);
    order.add_product(&once, 1);
    assert_eq!(order.mode, CheckoutMode::Subscription);
    assert_eq!(order.line_items.len(), 2);
}

#[test]
fn order_total_sums_unit_price_times_quantity() {
    let mut order = Order::new(Currency::EUR);
    order.add_product(&Product::one_time("a", "A", Price::from_cents(199, Currency::EUR)), 3);
    order.add_product(&Product::one_time("b", "B", Price::from_cents(1, Currency::EUR)), 7);
    let t = order.total();
    assert_eq!(t.amount, 199 * 3 + 7);
    assert_eq!(t.currency, Currency::EUR);
    assert!(!order.is_empty());
    assert!(Order::new(Currency::USD).is_empty());
}

#[test]
fn checked_total_reports_overflow() {
    let mut order = Order::new(Currency::USD);
    order.add_product(&Product::one_time("a", "A", Price::from_cents(i64::MAX, Currency::USD)), 2);
    assert!(order.checked_total().is_none());
    let empty = Order::new(Currency::USD);
    assert_eq!(empty.checked_total().unwrap().amount, 0);
}

#[test]
fn order_builders_set_fields() {
    let order = Order::new(Currency::USD)
        .with_email("a@b.c")
        .with_idempotency_key("key-1")
        .with_metadata("k", "v");
    assert_eq!(order.customer_email.as_deref(), Some("a@b.c"));
    assert_eq!(order.idempotency_key.as_deref(), Some("key-1"));
    assert_eq!(order.metadata.get("k").map(|s| s.as_str()), Some("v"));
    let fresh = Order::new(Currency::USD);
    let other = Order::new(Currency::USD);
    assert!(fresh.idempotency_key.is_some());
    assert_ne!(fresh.id, other.id);
}

#[test]
fn test_checkout_session_active() {
    let session = CheckoutSession::new("sess_123", "ord_456", "stripe", "https://checkout.stripe.com/...");
    assert!(session.is_active());
    assert_eq!(session.status, CheckoutStatus::Open);
}

#[test]
fn session_activity_depends_on_status_and_expiry() {
    let mut session = CheckoutSession::new("s", "o", "stripe", "u");
    session.expires_at = Some(1000);
    assert!(session.is_active_at(999));
    assert!(!session.is_active_at(1000));
    session.expires_at = None;
    session.status = CheckoutStatus::Complete;
    assert!(!session.is_active_at(0));
}

#[test]
fn test_currency_conversion() {
    let usd = Currency::USD;
    assert_eq!(usd.to_smallest_unit(Decimal::new(1099, 2)), 1099);
    assert_eq!(usd.from_smallest_unit(1099), Decimal::new(1099, 2));
    let jpy = Currency::JPY;
    assert_eq!(jpy.to_smallest_unit(Decimal::new(1000, 0)), 1000);
    assert_eq!(jpy.from_smallest_unit(1000), Decimal::new(1000, 0));
}

#[test]
fn smallest_unit_round_trip_keeps_value() {
    let usd = Currency::USD;
    let a = Decimal::new(125, 1);
    let cents = usd.to_smallest_unit(a);
    assert_eq!(cents, 1250);
    let back = usd.from_smallest_unit(cents);
    assert_eq!(back.units * 10, a.units * 100);
    let wide = Decimal::new(10500, 3);
    let back = usd.from_smallest_unit(usd.to_smallest_unit(wide));
    assert_eq!(back, Decimal::new(1050, 2));
    assert_eq!(back.units * 1000, wide.units * 100);
    let neg = Decimal::new(-7, 0);
    assert_eq!(usd.from_smallest_unit(usd.to_smallest_unit(neg)), Decimal::new(-700, 2));
}

#[test]
fn smallest_unit_rounds_half_away_from_zero() {
    assert_eq!(Currency::USD.to_smallest_unit(Decimal::new(10995, 3)), 1100);
    assert_eq!(Currency::USD.to_smallest_unit(Decimal::new(10994, 3)), 1099);
    assert_eq!(Currency::USD.to_smallest_unit(Decimal::new(-10995, 3)), -1100);
    assert_eq!(Currency::JPY.to_smallest_unit(Decimal::new(15, 1)), 2);
    assert_eq!(Currency::JPY.to_smallest_unit(Decimal::new(14, 1)), 1);
}

#[test]
fn test_price_display() {
    let price = Price::new(Decimal::new(2999, 2), Currency::USD);
    assert_eq!(price.display(), "$29.99");
    let price_eur = Price::new(Decimal::new(1999, 2), Currency::EUR);
    assert_eq!(price_eur.display(), "€19.99");
}

#[test]
fn price_display_of_zero_decimal_and_other_symbols() {
    assert_eq!(Price::from_cents(1000, Currency::JPY).display(), "¥1000");
    assert_eq!(Price::from_cents(5, Currency::GBP).display(), "£0.05");
    assert_eq!(Price::from_cents(-1050, Currency::CHF).display(), "CHF -10.50");
    assert_eq!(Price::from_cents(100, Currency::CAD).display(), "C$1.00");
    assert_eq!(Price::from_cents(0, Currency::AUD).display(), "A$0.00");
    assert_eq!(Price::from_cents(123456, Currency::MXN).display(), "MX$1234.56");
    assert_eq!(Currency::JPY.as_str(), "jpy");
    assert_eq!(Currency::JPY.decimal_places(), 0);
    assert_eq!(Currency::EUR.decimal_places(), 2);
    assert_eq!(Price::from_cents(-5, Currency::JPY).as_decimal(), Decimal::new(-5, 0));
}

#[test]
fn test_product_builder() {
    let product = Product::one_time("test-product", "Test Product", Price::new(Decimal::new(999, 2), Currency::USD))
        .with_description("A test product")
        .with_metadata("tier", "pro");
    assert_eq!(product.id, "test-product");
    assert_eq!(product.description, "A test product");
    assert_eq!(product.metadata.get("tier"), Some(&"pro".to_string()));
    assert!(!product.is_subscription());
}

#[test]
fn test_subscription_product() {
    let product = Product::subscription(
        "api-pro",
        "API Pro Plan",
        Price::new(Decimal::new(29, 0), Currency::USD),
        BillingInterval::Monthly,
    );
    assert!(product.is_subscription());
    assert_eq!(product.billing_interval, BillingInterval::Monthly);
}

#[test]
fn catalog_lookup_and_active_products() {
    let mut catalog = ProductCatalog::new();
    catalog.add(Product::one_time("a", "A", Price::from_cents(1, Currency::USD)));
    let mut hidden = Product::one_time("b", "B", Price::from_cents(2, Currency::USD));
    hidden.active = false;
    catalog.add(hidden);
    catalog.add(Product::one_time("c", "C", Price::from_cents(3, Currency::USD)).with_image("img"));
    assert_eq!(catalog.get("b").unwrap().name, "B");
    assert!(catalog.get("zz").is_none());
    let ids: Vec<&str> = catalog.active_products().iter().map(|p| p.id.as_str()).collect();
    assert_eq!(ids, vec!["a", "c"]);
    assert_eq!(catalog.get("c").unwrap().image_url.as_deref(), Some("img"));
}

#[test]
fn test_site_creation() {
    let site = Site::new("spokenhope", "Spoken Hope", "spokenhope.care")
        .with_statement_descriptor("SPOKENHOPE")
        .with_support_email("info@spokenhope.care");
    assert_eq!(site.id, "spokenhope");
    assert_eq!(site.name, "Spoken Hope");
    assert_eq!(site.domain, "spokenhope.care");
    assert_eq!(site.statement_descriptor_suffix, "SPOKENHOPE");
    assert!(site.active);
}

#[test]
fn site_default_urls_follow_domain() {
    let site = Site::new("x", "X", "x.io").with_cancel_url("https://x.io/back").with_metadata("k", "v");
    assert_eq!(site.success_url, "https://x.io/checkout/success");
    assert_eq!(site.cancel_url, "https://x.io/back");
    assert_eq!(site.metadata.get("k").map(|s| s.as_str()), Some("v"));
}

#[test]
fn test_success_url_with_session() {
    let site = Site::new("test", "Test", "test.com").with_success_url("https://test.com/success");
    assert_eq!(
        site.success_url_with_session(),
        "https://test.com/success?session_id={CHECKOUT_SESSION_ID}"
    );
    let site2 = Site::new("test2", "Test2", "test2.com").with_success_url("https://test2.com/success?ref=checkout");
    assert_eq!(
        site2.success_url_with_session(),
        "https://test2.com/success?ref=checkout&session_id={CHECKOUT_SESSION_ID}"
    );
}

#[test]
fn test_site_registry() {
    let mut registry = SiteRegistry::with_default("chargegun");
    registry.add(Site::new("chargegun", "ChargeGun", "chargegun.io"));
    registry.add(Site::new("spokenhope", "Spoken Hope", "spokenhope.care"));
    assert_eq!(registry.len(), 2);
    assert!(registry.has_site("chargegun"));
    assert!(registry.has_site("spokenhope"));
    assert!(!registry.has_site("nonexistent"));
    let default = registry.default_site().unwrap();
    assert_eq!(default.id, "chargegun");
    let site = registry.get_or_default(Some("spokenhope")).unwrap();
    assert_eq!(site.id, "spokenhope");
    let fallback = registry.get_or_default(Some("nonexistent")).unwrap();
    assert_eq!(fallback.id, "chargegun");
}

#[test]
fn registry_default_falls_back_to_first_then_none() {
    let empty = SiteRegistry::new();
    assert!(empty.get_or_default(None).is_none());
    assert!(empty.is_empty());
    let mut reg = SiteRegistry::with_default("missing");
    reg.add(Site::new("first", "F", "f.io"));
    reg.add(Site::new("second", "S", "s.io"));
    assert_eq!(reg.get_or_default(None).unwrap().id, "first");
    assert_eq!(reg.get_or_default(Some("unknown")).unwrap().id, reg.get_or_default(None).unwrap().id);
    let mut inactive = Site::new("off", "Off", "off.io");
    inactive.active = false;
    let mut reg2 = SiteRegistry::with_default("off").with_site(inactive).with_site(Site::new("on", "On", "on.io"));
    assert!(reg2.get("off").is_none());
    assert_eq!(reg2.default_site().unwrap().id, "off");
    reg2.set_default("on");
    assert_eq!(reg2.default_site().unwrap().id, "on");
    assert_eq!(reg2.active_sites().len(), 1);
    assert_eq!(reg2.site_ids(), vec!["off", "on"]);
}

#[test]
fn test_checkout_urls() {
    let urls = CheckoutUrls::new("https://enginevector.io");
    assert_eq!(urls.success_url(), "https://enginevector.io/checkout/success");
    assert_eq!(urls.cancel_url(), "https://enginevector.io/checkout/cancel");
}

#[test]
fn checkout_urls_with_session_id() {
    let urls = CheckoutUrls::new("https://a.b");
    let (s, c) = urls.with_session_id("cs_1");
    assert_eq!(s, "https://a.b/checkout/success?session_id=cs_1");
    assert_eq!(c, "https://a.b/checkout/cancel?session_id=cs_1");
}

#[test]
fn test_strategy_selector() {
    let selector: PaymentStrategySelector<StripeCheckoutStrategy> = PaymentStrategySelector::new("stripe");
    assert_eq!(selector.providers().len(), 0);
    assert!(selector.default_strategy().is_none());
}

#[test]
fn error_messages_read_as_text() {
    assert_eq!(PaymentError::InvalidRequest("Bad data".into()).message(), "Invalid request: Bad data");
    assert_eq!(
        PaymentError::RateLimited { provider: "stripe".into(), retry_after_secs: 60 }.message(),
        "Rate limited by stripe, retry after 60 seconds"
    );
    assert_eq!(
        PaymentError::ProviderError { provider: "stripe".into(), message: "boom".into() }.message(),
        "Provider error [stripe]: boom"
    );
    assert_eq!(
        PaymentError::IdempotencyConflict { key: "k".into() }.message(),
        "Idempotency conflict: request with key k already exists with different parameters"
    );
}

#[test]
fn defaults_and_display_codes() {
    assert_eq!(Currency::default(), Currency::USD);
    assert_eq!(BillingInterval::default(), BillingInterval::OneTime);
    assert_eq!(CheckoutMode::default(), CheckoutMode::Payment);
    assert_eq!(CheckoutStatus::default(), CheckoutStatus::Open);
    assert_eq!(lightning_cart::ProductType::default(), lightning_cart::ProductType::Digital);
    assert_eq!(Currency::CHF.display_code(), "CHF");
    assert_eq!(Currency::MXN.display_code(), "MXN");
    assert_eq!(CheckoutUrls::default().success_url(), "http://localhost:3000/checkout/success");
    let selector: PaymentStrategySelector<StripeCheckoutStrategy> = PaymentStrategySelector::default();
    assert!(selector.default_strategy().is_none());
}

use lightning_cart::api::{payment_error_to_response, consultation_payload, default_quantity, AppState, CheckoutItem, CreateCheckoutRequest, ErrorResponse};
use lightning_cart::cart::{calculate_cart_total, format_price, validate_product_id, WasmCartItem};
use lightning_cart::config::{AppConfig, StripeConfig};
use lightning_cart::json::Json;
use lightning_cart::PaymentError;
use lightning_cart::metadata::Metadata;
use lightning_cart::order::{WebhookEvent, WebhookEventType};
use lightning_cart::product::{Currency, Decimal, Price, Product, ProductCatalog};
use lightning_cart::site::{Site, SiteRegistry};
use lightning_cart::strategy::{CheckoutUrls, PaymentStrategySelector};
use lightning_cart::stripe::StripeCheckoutStrategy;
use lightning_cart::webhook::CheckoutCompletedData;

fn s(x: &str) -> String {
    x.to_string()
}

fn state() -> AppState<StripeCheckoutStrategy> {
    let mut catalog = ProductCatalog::new();
    catalog.add(Product::one_time("p1", "Product 1", Price::new(Decimal::new(1000, 2), Currency::USD)));
    let mut off = Product::one_time("off", "Off", Price::from_cents(1, Currency::USD));
    off.active = false;
    catalog.add(off);
    let sites = SiteRegistry::with_default("chargegun")
        .with_site(Site::new("chargegun", "ChargeGun", "chargegun.io").with_statement_descriptor("CHARGEGUN"))
        .with_site(Site::new("plain", "Plain", "plain.io"));
    let strategies = PaymentStrategySelector::new("stripe")
        .with_strategy(StripeCheckoutStrategy::new(StripeConfig::new("sk_test_a", "pk_test_b", "whsec_c")));
    let mut forward = Metadata::new();
    forward.insert(s("chargegun"), s("https://hooks/cg"));
    AppState {
        strategies,
        catalog,
        sites,
        urls: CheckoutUrls::new("http://localhost:8080"),
        config: AppConfig::from_values(None, None, None, None),
        webhook_forward_urls: forward,
    }
}

fn request(items: Vec<(&str, u32)>) -> CreateCheckoutRequest {
    CreateCheckoutRequest {
        items: items.into_iter().map(|(p, q)| CheckoutItem { product_id: s(p), quantity: q }).collect(),
        product_id: None,
        customer_email: None,
        provider: None,
        idempotency_key: None,
        site_id: None,
        metadata: Metadata::new(),
    }
}

#[test]
fn checkout_of_two_units_builds_one_line_of_2000_cents() {
    let st = state();
    let req = request(vec![("p1", 2)]);
    let (strategy, order, success, cancel) = st.prepare_checkout(&req, None).unwrap();
    assert_eq!(strategy.config.secret_key, "sk_test_a");
    assert_eq!(order.line_items.len(), 1);
    assert_eq!(order.line_items[0].quantity, 2);
    let total = order.total();
    assert_eq!(total.amount, 2000);
    assert_eq!(total.currency, Currency::USD);
    assert_eq!(success, "https://chargegun.io/checkout/success?session_id={CHECKOUT_SESSION_ID}");
    assert_eq!(cancel, "https://chargegun.io/checkout/cancel");
    assert_eq!(order.metadata.get("statement_descriptor_suffix").map(|v| v.as_str()), Some("CHARGEGUN"));
    assert!(order.metadata.get("site_id").is_none());
}

#[test]
fn checkout_of_inactive_or_unknown_product_is_rejected() {
    let st = state();
    match st.prepare_checkout(&request(vec![("off", 1)]), None) {
        Err(e) => assert_eq!(e.code, 400),
        Ok(_) => panic!("inactive product accepted"),
    }
    match st.prepare_checkout(&request(vec![("nope", 1)]), None) {
        Err(e) => assert_eq!(e.code, 404),
        Ok(_) => panic!("unknown product accepted"),
    }
    match st.prepare_checkout(&request(vec![("p1", 1), ("nope", 1), ("off", 1)]), None) {
        Err(e) => assert_eq!(e.code, 404),
        Ok(_) => panic!("unknown product accepted"),
    }
}

#[test]
fn checkout_validation_order_and_shorthand() {
    let st = state();
    let empty = request(vec![]);
    assert_eq!(st.prepare_checkout(&empty, None).err().unwrap().code, 400);
    let mut short = request(vec![]);
    short.product_id = Some(s("p1"));
    short.provider = Some(s("paypal"));
    short.site_id = Some(s("plain"));
    short.customer_email = Some(s("x@y.z"));
    short.idempotency_key = Some(s("idem"));
    short.metadata.insert(s("site_id"), s("caller"));
    short.metadata.insert(s("note"), s("hi"));
    let (_, order, success, _) = st.prepare_checkout(&short, Some("plain")).unwrap();
    assert_eq!(order.line_items.len(), 1);
    assert_eq!(order.line_items[0].quantity, 1);
    assert_eq!(order.customer_email.as_deref(), Some("x@y.z"));
    assert_eq!(order.idempotency_key.as_deref(), Some("idem"));
    assert_eq!(order.metadata.get("site_id").map(|v| v.as_str()), Some("plain"));
    assert_eq!(order.metadata.get("note").map(|v| v.as_str()), Some("hi"));
    assert!(order.metadata.get("statement_descriptor_suffix").is_none());
    assert_eq!(success, "https://plain.io/checkout/success?session_id={CHECKOUT_SESSION_ID}");
    let other = AppState {
        strategies: PaymentStrategySelector::<StripeCheckoutStrategy>::new("none"),
        ..state()
    };
    let err: ErrorResponse = other.prepare_checkout(&request(vec![("nope", 1)]), None).err().unwrap();
    assert_eq!(err.code, 400);
    assert_eq!(err.error, "Unknown payment provider: None");
    assert_eq!(default_quantity(), 1);
}

#[test]
fn fallback_urls_when_no_site_resolves() {
    let mut st = state();
    st.sites = SiteRegistry::new();
    assert_eq!(st.success_url_for_site(Some("x")), "http://localhost:8080/checkout/success?session_id={CHECKOUT_SESSION_ID}");
    assert_eq!(st.cancel_url_for_site(None), "http://localhost:8080/checkout/cancel");
    assert!(st.statement_descriptor_for_site(None).is_none());
    assert_eq!(st.success_url(), "http://localhost:8080/checkout/success?session_id={CHECKOUT_SESSION_ID}");
    assert_eq!(st.cancel_url(), "http://localhost:8080/checkout/cancel");
    assert!(st.default_strategy().is_some());
    assert!(st.strategy("paypal").is_none());
    assert_eq!(ErrorResponse::new("e", 500).with_details("d").details.as_deref(), Some("d"));
}

fn completed_event(meta: Vec<(&str, &str)>) -> WebhookEvent {
    let md = Json::Object(meta.into_iter().map(|(k, v)| (s(k), Json::Str(s(v)))).collect());
    WebhookEvent {
        event_id: s("evt"),
        event_type: WebhookEventType::CheckoutCompleted,
        provider: s("stripe"),
        session_id: None,
        payment_intent_id: None,
        customer_email: None,
        amount_paid: None,
        currency: None,
        raw_data: Some(Json::Object(vec![
            (s("id"), Json::Str(s("cs_1"))),
            (s("amount_total"), Json::Number(Some(5000))),
            (s("metadata"), md),
        ])),
        timestamp: 0,
    }
}

#[test]
fn consultation_forwarding_decision() {
    let st = state();
    let booked = completed_event(vec![("appointment_date", "2026-01-02"), ("duration", "2"), ("client_first_name", "Ann")]);
    let (url, payload) = st.consultation_forward(&booked).unwrap();
    assert_eq!(url, "https://hooks/cg");
    assert_eq!(payload.appointment_date, "2026-01-02");
    assert_eq!(payload.duration, 2);
    assert_eq!(payload.first_name, "Ann");
    assert_eq!(payload.last_name, "");
    assert_eq!(payload.amount_cents, 5000);
    assert_eq!(payload.stripe_payment_id, "unknown");
    assert!(st.consultation_forward(&completed_event(vec![])).is_none());
    let elsewhere = completed_event(vec![("appointment_date", "d"), ("site_id", "plain")]);
    assert!(st.consultation_forward(&elsewhere).is_none());
    let data = CheckoutCompletedData::from_event(&completed_event(vec![("duration", "lots")])).unwrap();
    assert_eq!(consultation_payload(&data).duration, 1);
}

#[test]
fn test_cart_item_total() {
    let item = WasmCartItem::new("test".to_string(), "Test Product".to_string(), 1999, 2);
    assert_eq!(item.total_cents(), 3998);
}

#[test]
fn test_format_price() {
    assert_eq!(format_price(1999), "$19.99");
    assert_eq!(format_price(100), "$1.00");
}

#[test]
fn test_validate_product_id() {
    assert!(validate_product_id("rang-play-rs"));
    assert!(validate_product_id("product_123"));
    assert!(!validate_product_id(""));
    assert!(!validate_product_id("invalid id"));
}

#[test]
fn cart_totals_and_formatting() {
    let items = vec![
        WasmCartItem::new(s("a"), s("A"), 1999, 2),
        WasmCartItem::new(s("b"), s("B"), 1, 3),
    ];
    assert_eq!(calculate_cart_total(&items), Some(4001));
    assert_eq!(calculate_cart_total(&vec![]), Some(0));
    assert_eq!(calculate_cart_total(&vec![WasmCartItem::new(s("x"), s("X"), i64::MAX, 2)]), None);
    assert_eq!(items[0].format_price(), "$19.99");
    assert_eq!(items[0].format_total(), "$39.98");
    assert_eq!(items[0].product_id(), "a");
    assert_eq!(items[0].name(), "A");
    assert_eq!(items[0].price_cents(), 1999);
    assert_eq!(items[0].quantity(), 2);
    assert!(!validate_product_id(&"x".repeat(101)));
    assert!(validate_product_id(&"x".repeat(100)));
    assert!(validate_product_id("café"));
}

#[test]
fn path_addressed_unknown_site_is_not_found() {
    let st = state();
    assert_eq!(st.site_route_error("nowhere").unwrap().code, 404);
    assert_eq!(st.site_route_error("nowhere").unwrap().error, "Site not found: nowhere");
    assert!(st.site_route_error("plain").is_none());
}

#[test]
fn error_envelope_hides_which_verification_check_failed() {
    let e = payment_error_to_response(&PaymentError::WebhookVerificationFailed(s("Signature mismatch")));
    assert_eq!(e.code, 401);
    assert_eq!(e.error, "Webhook verification failed");
    let e = payment_error_to_response(&PaymentError::InvalidRequest(s("Bad data")));
    assert_eq!(e.code, 400);
    assert_eq!(e.error, "Invalid request: Bad data");
}

#[test]
fn test_payment_error_conversion() {
    let err = PaymentError::InvalidRequest("Bad data".to_string());
    let response = payment_error_to_response(&err);
    assert_eq!(response.code, 400);
}

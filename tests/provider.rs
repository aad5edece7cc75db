use std::sync::atomic::{AtomicBool, Ordering};

use lightning_cart::config::{AppConfig, StripeConfig};
use lightning_cart::error::{PaymentError, PaymentResult};
use lightning_cart::json::Json;
use lightning_cart::links::StripeLinksStrategy;
use lightning_cart::order::{CheckoutMode, Order, WebhookEvent, WebhookEventType};
use lightning_cart::product::{BillingInterval, Currency, Price, Product};
use lightning_cart::signature::{constant_time_compare, parse_i64, parse_signature_header, split};
use lightning_cart::strategy::{PaymentStrategy, PaymentStrategySelector};
use lightning_cart::stripe::{compute_hmac_sha256, map_event_type, StripeCheckoutStrategy};
use lightning_cart::webhook::{
    dispatch_webhook_event, CheckoutCompletedData, LoggingWebhookHandler, WebhookHandler,
};

fn s(x: &str) -> String {
    x.to_string()
}

fn obj(members: Vec<(&str, Json)>) -> Json {
    Json::Object(members.into_iter().map(|(k, v)| (k.to_string(), v)).collect())
}

fn mock_checkout_event() -> WebhookEvent {
    WebhookEvent {
        event_id: s("evt_test"),
        event_type: WebhookEventType::CheckoutCompleted,
        provider: s("stripe"),
        session_id: Some(s("cs_test")),
        payment_intent_id: Some(s("pi_test")),
        customer_email: Some(s("test@example.com")),
        amount_paid: Some(1000),
        currency: Some(Currency::USD),
        raw_data: Some(obj(vec![
            ("id", Json::Str(s("cs_test_123"))),
            ("payment_intent", Json::Str(s("pi_test_456"))),
            ("customer", Json::Str(s("cus_test_789"))),
            ("customer_details", obj(vec![("email", Json::Str(s("test@example.com")))])),
            ("amount_total", Json::Number(Some(1000))),
            ("currency", Json::Str(s("usd"))),
            ("payment_status", Json::Str(s("paid"))),
            ("metadata", obj(vec![("order_id", Json::Str(s("ord_test_abc")))])),
        ])),
        timestamp: 0,
    }
}

#[test]
fn test_stripe_mode_conversion() {
    assert_eq!(StripeCheckoutStrategy::stripe_mode(CheckoutMode::Payment), "payment");
    assert_eq!(StripeCheckoutStrategy::stripe_mode(CheckoutMode::Subscription), "subscription");
    assert_eq!(StripeCheckoutStrategy::stripe_mode(CheckoutMode::Setup), "setup");
}

#[test]
fn test_parse_signature_header() {
    let header = "t=1234567890,v1=abc123,v1=def456";
    let parsed = parse_signature_header(header).unwrap();
    assert_eq!(parsed.timestamp, 1234567890);
    assert_eq!(parsed.signatures.len(), 2);
    assert_eq!(parsed.signatures[0], "abc123");
}

#[test]
fn signature_header_failures_and_ignored_parts() {
    assert!(matches!(parse_signature_header("v1=abc"), Err(PaymentError::WebhookVerificationFailed(_))));
    assert!(matches!(parse_signature_header("t=12"), Err(PaymentError::WebhookVerificationFailed(_))));
    assert!(matches!(parse_signature_header("t=x,v1=a"), Err(PaymentError::WebhookVerificationFailed(_))));
    let h = parse_signature_header("v0=zz,t=5,junk,v1=a=b,v1=ok").unwrap();
    assert_eq!(h.timestamp, 5);
    assert_eq!(h.signatures, vec![s("ok")]);
}

#[test]
fn split_and_integer_parsing() {
    assert_eq!(split("a,,b", ','), vec![s("a"), s(""), s("b")]);
    assert_eq!(split("", ','), vec![s("")]);
    assert_eq!(parse_i64("-42"), Some(-42));
    assert_eq!(parse_i64("+7"), Some(7));
    assert_eq!(parse_i64("9223372036854775807"), Some(i64::MAX));
    assert_eq!(parse_i64("-9223372036854775808"), Some(i64::MIN));
    assert_eq!(parse_i64("9223372036854775808"), None);
    assert_eq!(parse_i64(""), None);
    assert_eq!(parse_i64("-"), None);
    assert_eq!(parse_i64("1a"), None);
}

#[test]
fn test_hmac_sha256() {
    let secret = "whsec_test";
    let message = "1234567890.{}";
    let sig = compute_hmac_sha256(secret, message);
    assert_eq!(sig.len(), 64);
}

#[test]
fn hmac_matches_published_vector() {
    let sig = compute_hmac_sha256("key", "The quick brown fox jumps over the lazy dog");
    assert_eq!(sig, "f7bc83f430538424b13298e6aa6fb143ef4d59a14946175997479dbc2d1a3cd8");
}

#[test]
fn test_constant_time_compare() {
    assert!(constant_time_compare("abc123", "abc123"));
    assert!(!constant_time_compare("abc123", "abc124"));
    assert!(!constant_time_compare("abc", "abcd"));
}

#[test]
fn test_config_validation() {
    let config = StripeConfig::new("sk_test_abc123", "pk_test_xyz789", "whsec_secret");
    assert!(config.is_test_mode());
    assert!(!config.is_live_mode());
    let config = StripeConfig::new("sk_live_abc123", "pk_live_xyz789", "whsec_secret");
    assert!(!config.is_test_mode());
    assert!(config.is_live_mode());
}

#[test]
fn test_auth_header() {
    let config = StripeConfig::new("sk_test_abc123", "pk_test_xyz789", "whsec_secret");
    assert_eq!(config.auth_header(), "Bearer sk_test_abc123");
}

#[test]
fn config_from_values_checks_presence_and_prefixes() {
    assert!(matches!(StripeConfig::from_values(None, Some(s("pk_test_a")), Some(s("whsec_a"))), Err(PaymentError::Configuration(_))));
    assert!(matches!(StripeConfig::from_values(Some(s("sk_x")), Some(s("pk_test_a")), Some(s("whsec_a"))), Err(PaymentError::Configuration(_))));
    assert!(matches!(StripeConfig::from_values(Some(s("sk_live_a")), Some(s("pk_a")), Some(s("whsec_a"))), Err(PaymentError::Configuration(_))));
    assert!(matches!(StripeConfig::from_values(Some(s("sk_live_a")), Some(s("pk_live_a")), Some(s("secret"))), Err(PaymentError::Configuration(_))));
    let c = StripeConfig::from_values(Some(s("sk_live_a")), Some(s("pk_live_b")), Some(s("whsec_c"))).unwrap();
    assert_eq!(c.webhook_secret, "whsec_c");
    assert_eq!(c.api_base_url, "https://api.stripe.com");
    assert_eq!(c.with_api_base_url("http://mock").api_base_url, "http://mock");
}

#[test]
fn app_config_defaults_and_production() {
    let c = AppConfig::from_values(None, None, None, None);
    assert_eq!(c.host, "127.0.0.1");
    assert_eq!(c.port, 8080);
    assert_eq!(c.base_url, "http://localhost:8080");
    assert!(!c.is_production());
    let p = AppConfig::from_values(Some(s("0.0.0.0")), Some(3000), None, Some(s("production")));
    assert_eq!(p.port, 3000);
    assert!(p.is_production());
}

#[test]
fn test_register_link() {
    let config = StripeConfig::new("sk_test_abc", "pk_test_xyz", "whsec_123");
    let strategy = StripeLinksStrategy::new(config)
        .with_link("rang-play-rs-cli", "plink_abc123")
        .with_link("site-ranker-rs-cli", "plink_def456");
    assert!(strategy.link_mappings.contains_key("rang-play-rs-cli"));
    assert!(strategy.link_mappings.contains_key("site-ranker-rs-cli"));
}

#[test]
fn links_strategy_lookups_and_sessions() {
    let strategy = StripeLinksStrategy::new(StripeConfig::new("sk_test_a", "pk_test_b", "whsec_c")).with_link("p", "plink_1");
    assert_eq!(strategy.link_request_url("p").unwrap(), "https://api.stripe.com/v1/payment_links/plink_1");
    assert!(matches!(strategy.link_request_url("q"), Err(PaymentError::ProductNotFound { .. })));
    let mut order = Order::new(Currency::USD);
    assert!(matches!(StripeLinksStrategy::single_item(&order), Err(PaymentError::InvalidRequest(_))));
    order.add_product(&Product::one_time("p", "P", Price::from_cents(5, Currency::USD)), 1);
    assert_eq!(StripeLinksStrategy::single_item(&order).unwrap().product_id, "p");
    let session = StripeLinksStrategy::session_for_link(&order, s("https://buy/x"), 77);
    assert_eq!(session.session_id, format!("plink_{}", order.id));
    assert_eq!(session.provider, "stripe_links");
    assert!(matches!(strategy.verify_webhook(b"{}", "t=1,v1=a"), Err(PaymentError::Internal(_))));
    let link = StripeLinksStrategy::link_from_response(200, r#"{"id":"plink_1","url":"https://buy/x","active":true,"metadata":{"a":"b"}}"#).unwrap();
    assert_eq!(link.url, "https://buy/x");
    assert_eq!(link.metadata.get("a").map(|v| v.as_str()), Some("b"));
    assert!(matches!(StripeLinksStrategy::link_from_response(200, r#"{"id":"x","url":"y","active":true,"metadata":{"a":1}}"#), Err(PaymentError::Serialization(_))));
    assert!(matches!(StripeLinksStrategy::link_from_response(500, "oops"), Err(PaymentError::ProviderError { .. })));
    let form = StripeLinksStrategy::payment_link_form("price_1", 3);
    assert_eq!(form[1], (s("line_items[0][quantity]"), s("3")));
}

#[test]
fn test_parse_checkout_completed() {
    let event = mock_checkout_event();
    let data = CheckoutCompletedData::from_event(&event).unwrap();
    assert_eq!(data.session_id, "cs_test_123");
    assert_eq!(data.payment_intent_id, Some("pi_test_456".to_string()));
    assert_eq!(data.customer_email, Some("test@example.com".to_string()));
    assert_eq!(data.amount_total, 1000);
    assert!(data.is_paid());
    assert_eq!(data.order_id(), Some("ord_test_abc"));
}

#[test]
fn completed_data_defaults_and_currency_mapping() {
    let mut event = mock_checkout_event();
    event.raw_data = Some(obj(vec![("id", Json::Str(s("cs_1"))), ("currency", Json::Str(s("EUR")))]));
    let d = CheckoutCompletedData::from_event(&event).unwrap();
    assert_eq!(d.currency, Currency::EUR);
    assert_eq!(d.amount_total, 0);
    assert_eq!(d.payment_status, "unknown");
    assert!(!d.is_paid());
    assert!(d.order_id().is_none());
    event.raw_data = Some(obj(vec![("id", Json::Str(s("cs_1"))), ("currency", Json::Str(s("xyz")))]));
    assert_eq!(CheckoutCompletedData::from_event(&event).unwrap().currency, Currency::USD);
    event.raw_data = None;
    assert!(matches!(CheckoutCompletedData::from_event(&event), Err(PaymentError::WebhookParseError(_))));
    event.raw_data = Some(obj(vec![("id", Json::Number(Some(3)))]));
    assert!(matches!(CheckoutCompletedData::from_event(&event), Err(PaymentError::WebhookParseError(_))));
}

struct TestHandler {
    called: AtomicBool,
}

impl WebhookHandler for TestHandler {
    fn on_checkout_completed(&self, _data: CheckoutCompletedData) -> PaymentResult<()> {
        self.called.store(true, Ordering::SeqCst);
        Ok(())
    }
    fn on_payment_succeeded(&self, _event: &WebhookEvent) -> PaymentResult<()> {
        Ok(())
    }
    fn on_payment_failed(&self, _event: &WebhookEvent) -> PaymentResult<()> {
        Ok(())
    }
    fn on_subscription_created(&self, _event: &WebhookEvent) -> PaymentResult<()> {
        Ok(())
    }
    fn on_subscription_cancelled(&self, _event: &WebhookEvent) -> PaymentResult<()> {
        Ok(())
    }
    fn on_subscription_renewed(&self, _event: &WebhookEvent) -> PaymentResult<()> {
        Ok(())
    }
    fn on_refund_issued(&self, _event: &WebhookEvent) -> PaymentResult<()> {
        Ok(())
    }
    fn on_unknown_event(&self, _event: &WebhookEvent) -> PaymentResult<()> {
        self.called.store(true, Ordering::SeqCst);
        Ok(())
    }
}

#[test]
fn test_dispatch_webhook() {
    let handler = TestHandler { called: AtomicBool::new(false) };
    let event = mock_checkout_event();
    dispatch_webhook_event(&handler, event).unwrap();
    assert!(handler.called.load(Ordering::SeqCst));
}

#[test]
fn unknown_type_normalizes_and_dispatches_to_catch_all() {
    let kind = map_event_type("customer.source.expiring");
    assert_eq!(kind, WebhookEventType::Unknown(s("customer.source.expiring")));
    let mut event = mock_checkout_event();
    event.event_type = kind;
    event.raw_data = None;
    assert!(dispatch_webhook_event(&LoggingWebhookHandler, event).is_ok());
    let handler = TestHandler { called: AtomicBool::new(false) };
    let mut e2 = mock_checkout_event();
    e2.event_type = WebhookEventType::Unknown(s("x.y"));
    dispatch_webhook_event(&handler, e2).unwrap();
    assert!(handler.called.load(Ordering::SeqCst));
}

#[test]
fn event_type_table() {
    assert_eq!(map_event_type("checkout.session.completed"), WebhookEventType::CheckoutCompleted);
    assert_eq!(map_event_type("payment_intent.succeeded"), WebhookEventType::PaymentSucceeded);
    assert_eq!(map_event_type("payment_intent.payment_failed"), WebhookEventType::PaymentFailed);
    assert_eq!(map_event_type("customer.subscription.created"), WebhookEventType::SubscriptionCreated);
    assert_eq!(map_event_type("customer.subscription.deleted"), WebhookEventType::SubscriptionCancelled);
    assert_eq!(map_event_type("invoice.paid"), WebhookEventType::SubscriptionRenewed);
    assert_eq!(map_event_type("charge.refunded"), WebhookEventType::RefundIssued);
}

#[test]
fn dispatch_of_unreadable_checkout_fails() {
    let mut event = mock_checkout_event();
    event.raw_data = Some(Json::Null);
    assert!(matches!(dispatch_webhook_event(&LoggingWebhookHandler, event), Err(PaymentError::WebhookParseError(_))));
}

const PAYLOAD: &str = r#"{"id":"evt_1","type":"checkout.session.completed","created":1700000000,"data":{"object":{"id":"cs_1","payment_intent":"pi_1","customer_details":{"email":"a@b.c"},"amount_total":2500}}}"#;
const SECRET: &str = "whsec_known";

fn strategy() -> StripeCheckoutStrategy {
    StripeCheckoutStrategy::new(StripeConfig::new("sk_test_a", "pk_test_b", SECRET))
}

fn sign(ts: i64, payload: &str) -> String {
    compute_hmac_sha256(SECRET, &format!("{}.{}", ts, payload))
}

#[test]
fn webhook_with_correct_signature_verifies() {
    let now = 1_700_000_100;
    let header = format!("t={},v1={}", now, sign(now, PAYLOAD));
    let ev = strategy().verify_webhook_at(PAYLOAD.as_bytes(), &header, now).unwrap();
    assert_eq!(ev.event_id, "evt_1");
    assert_eq!(ev.event_type, WebhookEventType::CheckoutCompleted);
    assert_eq!(ev.provider, "stripe");
    assert_eq!(ev.session_id.as_deref(), Some("cs_1"));
    assert_eq!(ev.payment_intent_id.as_deref(), Some("pi_1"));
    assert_eq!(ev.customer_email.as_deref(), Some("a@b.c"));
    assert_eq!(ev.amount_paid, Some(2500));
    assert_eq!(ev.timestamp, 1_700_000_000);
    assert!(ev.currency.is_none());
    assert!(matches!(ev.raw_data, Some(Json::Object(_))));
}

#[test]
fn webhook_against_server_clock_verifies() {
    let now = std::time::SystemTime::now().duration_since(std::time::UNIX_EPOCH).unwrap().as_secs() as i64;
    let header = format!("t={},v1={}", now, sign(now, PAYLOAD));
    assert!(strategy().verify_webhook(PAYLOAD.as_bytes(), &header).is_ok());
}

#[test]
fn webhook_with_one_flipped_hex_char_fails() {
    let now = 1_700_000_100;
    let mut sig: Vec<char> = sign(now, PAYLOAD).chars().collect();
    sig[10] = if sig[10] == 'a' { 'b' } else { 'a' };
    let bad: String = sig.into_iter().collect();
    let header = format!("t={},v1={}", now, bad);
    assert!(matches!(
        strategy().verify_webhook_at(PAYLOAD.as_bytes(), &header, now),
        Err(PaymentError::WebhookVerificationFailed(_))
    ));
}

#[test]
fn webhook_with_stale_timestamp_fails() {
    let now = 1_700_000_100;
    let ts = now - 301;
    let header = format!("t={},v1={}", ts, sign(ts, PAYLOAD));
    assert!(matches!(
        strategy().verify_webhook_at(PAYLOAD.as_bytes(), &header, now),
        Err(PaymentError::WebhookVerificationFailed(_))
    ));
    let edge = now - 300;
    let header = format!("t={},v1={}", edge, sign(edge, PAYLOAD));
    assert!(strategy().verify_webhook_at(PAYLOAD.as_bytes(), &header, now).is_ok());
}

#[test]
fn webhook_second_signature_matching_verifies() {
    let now = 1_700_000_100;
    let header = format!("t={},v1={},v1={}", now, "0".repeat(64), sign(now, PAYLOAD));
    assert!(strategy().verify_webhook_at(PAYLOAD.as_bytes(), &header, now).is_ok());
}

#[test]
fn webhook_with_bad_body_is_a_parse_error() {
    let now = 1_700_000_100;
    for body in ["not json", r#"{"id":"e","type":"t","created":1}"#, r#"{"id":"e","type":"t","created":1.5,"data":{"object":{}}}"#] {
        let header = format!("t={},v1={}", now, sign(now, body));
        assert!(matches!(
            strategy().verify_webhook_at(body.as_bytes(), &header, now),
            Err(PaymentError::WebhookParseError(_))
        ));
    }
    assert!(matches!(strategy().verify_webhook_at(b"x", "v1=abc", now), Err(PaymentError::WebhookVerificationFailed(_))));
}

#[test]
fn selector_registers_by_name_and_falls_back() {
    let mut selector: PaymentStrategySelector<StripeCheckoutStrategy> = PaymentStrategySelector::new("stripe");
    assert!(selector.get_or_default(Some("stripe")).is_none());
    selector.register(strategy());
    let second = StripeCheckoutStrategy::new(StripeConfig::new("sk_live_z", "pk_live_z", "whsec_z"));
    selector.register(second);
    assert_eq!(selector.providers(), vec!["stripe"]);
    assert!(selector.has_provider("stripe"));
    assert!(!selector.has_provider("paypal"));
    assert_eq!(selector.get("stripe").unwrap().config.secret_key, "sk_live_z");
    assert_eq!(selector.get_or_default(Some("paypal")).unwrap().provider_name(), "stripe");
    assert_eq!(selector.get_or_default(None).unwrap().provider_name(), "stripe");
    let other: PaymentStrategySelector<StripeCheckoutStrategy> = PaymentStrategySelector::new("paypal").with_strategy(strategy());
    assert!(other.get_or_default(Some("nope")).is_none());
    assert!(other.get_or_default(Some("stripe")).is_some());
    assert!(strategy().supports_subscriptions());
}

#[test]
fn checkout_form_lists_items_email_and_metadata() {
    let st = strategy();
    let empty = Order::new(Currency::USD);
    assert!(matches!(st.checkout_form(&empty, "s", "c"), Err(PaymentError::InvalidRequest(_))));
    let mut order = Order::new(Currency::USD).with_email("a@b.c").with_metadata("site_id", "x");
    order.add_product(&Product::one_time("p1", "One", Price::from_cents(1000, Currency::USD)).with_image("https://img"), 2);
    order.add_product(&Product::subscription("p2", "Two", Price::from_cents(500, Currency::USD), BillingInterval::Monthly), 1);
    let form = st.checkout_form(&order, "https://s", "https://c").unwrap();
    let get = |k: &str| form.iter().find(|(a, _)| a == k).map(|(_, b)| b.clone());
    assert_eq!(form[0], (s("mode"), s("subscription")));
    assert_eq!(get("success_url"), Some(s("https://s")));
    assert_eq!(get("line_items[0][price_data][unit_amount]"), Some(s("1000")));
    assert_eq!(get("line_items[0][price_data][currency]"), Some(s("usd")));
    assert_eq!(get("line_items[0][price_data][product_data][images][0]"), Some(s("https://img")));
    assert_eq!(get("line_items[0][quantity]"), Some(s("2")));
    assert_eq!(get("line_items[1][price_data][recurring][interval]"), Some(s("month")));
    assert_eq!(get("line_items[1][price_data][recurring][interval_count]"), Some(s("1")));
    assert_eq!(get("line_items[0][price_data][recurring][interval]"), None);
    assert_eq!(get("customer_email"), Some(s("a@b.c")));
    assert_eq!(get("metadata[order_id]"), Some(order.id.clone()));
    assert_eq!(get("metadata[site_id]"), Some(s("x")));
    assert_eq!(StripeCheckoutStrategy::idempotency_key(&order), order.idempotency_key.clone().unwrap());
    let items = st.build_line_items(&order);
    assert_eq!(items.len(), 2);
    assert_eq!(items[1].price_data.recurring.as_ref().unwrap().interval, "month");
}

#[test]
fn checkout_response_becomes_session_or_error() {
    let order = Order::new(Currency::USD);
    let ok = StripeCheckoutStrategy::session_from_response(&order, 200, r#"{"id":"cs_9","url":"https://pay/cs_9","expires_at":1800000000,"payment_intent":null}"#, 5).unwrap();
    assert_eq!(ok.session_id, "cs_9");
    assert_eq!(ok.checkout_url, "https://pay/cs_9");
    assert_eq!(ok.expires_at, Some(1_800_000_000));
    assert!(ok.payment_intent_id.is_none());
    assert_eq!(ok.order_id, order.id);
    assert_eq!(ok.created_at, 5);
    match StripeCheckoutStrategy::session_from_response(&order, 400, r#"{"error":{"message":"No such price"}}"#, 5) {
        Err(PaymentError::ProviderError { provider, message }) => {
            assert_eq!(provider, "stripe");
            assert_eq!(message, "No such price");
        }
        other => panic!("unexpected {:?}", other),
    }
    match StripeCheckoutStrategy::session_from_response(&order, 502, "bad gateway", 5) {
        Err(PaymentError::ProviderError { message, .. }) => assert_eq!(message, "HTTP 502: bad gateway"),
        other => panic!("unexpected {:?}", other),
    }
    assert!(matches!(StripeCheckoutStrategy::session_from_response(&order, 200, r#"{"id":"x"}"#, 5), Err(PaymentError::Serialization(_))));
}

#[test]
fn webhook_paths_follow_provider_names() {
    assert_eq!(strategy().webhook_path(), "/webhook/stripe");
    let links = StripeLinksStrategy::new(StripeConfig::new("sk_test_a", "pk_test_b", "whsec_c"));
    assert_eq!(links.webhook_path(), "/webhook/stripe_links");
    assert_eq!(links.provider_name(), "stripe_links");
}

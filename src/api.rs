//! The checkout and webhook facade: request validation, order building,
//! tenant URLs and the consultation-forwarding decision, without the HTTP
//! framework around them.
use vstd::prelude::*;
use crate::config::AppConfig;
use crate::error::PaymentError;
use crate::json::{Json, member};
use crate::stripe::members_str;
use crate::webhook::{completed_ok, string_members};
use crate::metadata::Metadata;
use crate::order::{LineItem, Order, WebhookEvent, WebhookEventType, mode_after};
use crate::product::{Currency, Product, ProductCatalog, find_product};
use crate::signature::parse_i64;
use crate::site::{Site, SiteRegistry};
use crate::strategy::{CheckoutUrls, PaymentStrategy, PaymentStrategySelector};
use crate::text::{join2, join3, opt_chars, opt_view};
use crate::webhook::CheckoutCompletedData;

verus! {

/// One requested product and quantity.
#[derive(Debug, Clone)]
pub struct CheckoutItem {
    pub product_id: String,
    pub quantity: u32,
}

/// The quantity of an item that gives none.
pub fn default_quantity() -> (r: u32)
    ensures
        r == 1,
{
    1
}

/// A checkout request.
#[derive(Debug)]
pub struct CreateCheckoutRequest {
    pub items: Vec<CheckoutItem>,
    /// Shorthand for a single item of quantity one.
    pub product_id: Option<String>,
    pub customer_email: Option<String>,
    pub provider: Option<String>,
    pub idempotency_key: Option<String>,
    pub site_id: Option<String>,
    pub metadata: Metadata,
}

/// The answer to a successful checkout request.
#[derive(Debug, Clone)]
pub struct CreateCheckoutResponse {
    pub session_id: String,
    pub checkout_url: String,
    /// Expiry, as an RFC 3339 date.
    pub expires_at: Option<String>,
}

/// The error envelope `{error, code, details?}`.
#[derive(Debug, Clone)]
pub struct ErrorResponse {
    pub error: String,
    /// Mirrors the HTTP status.
    pub code: u16,
    pub details: Option<String>,
}

impl ErrorResponse {
    /// An error without details.
    pub fn new(error: &str, code: u16) -> (r: Self)
        ensures
            r.error@ == error@,
            r.code == code,
            r.details is None,
    {
        ErrorResponse { error: String::from_str(error), code, details: None }
    }

    /// Adds details.
    pub fn with_details(self, details: &str) -> (r: Self)
        ensures
            r.error == self.error,
            r.code == self.code,
            r.details matches Some(d) && d@ == details@,
    {
        let mut e = self;
        e.details = Some(String::from_str(details));
        e
    }
}

/// The error envelope of a failed operation: its status code and text. A
/// failed webhook verification says only that, never which check failed.
pub fn payment_error_to_response(err: &PaymentError) -> (r: ErrorResponse)
    ensures
        r.code == err.spec_status_code(),
        r.error@ == (if err is WebhookVerificationFailed { "Webhook verification failed"@ } else { err.spec_message() }),
        r.details is None,
{
    let text = if matches!(err, PaymentError::WebhookVerificationFailed(_)) {
        String::from_str("Webhook verification failed")
    } else {
        err.message()
    };
    ErrorResponse { error: text, code: err.status_code(), details: None }
}

/// The items a request asks for: its item list, else its single product id
/// with quantity one, else nothing.
pub open spec fn requested_items(req: CreateCheckoutRequest) -> Option<Seq<(Seq<char>, u32)>> {
    if req.items@.len() > 0 {
        Some(req.items@.map_values(|i: CheckoutItem| (i.product_id@, i.quantity)))
    } else {
        match req.product_id {
            Some(p) => Some(seq![(p@, 1u32)]),
            None => None,
        }
    }
}

/// The status of the first requested item that cannot be sold: 404 when
/// the catalog lacks it, 400 when it is inactive.
pub open spec fn first_item_failure(cat: Seq<Product>, items: Seq<(Seq<char>, u32)>) -> Option<u16>
    decreases items.len(),
{
    if items.len() == 0 {
        None
    } else {
        match first_item_failure(cat, items.drop_last()) {
            Some(c) => Some(c),
            None => match find_product(cat, items.last().0) {
                None => Some(404u16),
                Some(p) => if p.active { None } else { Some(400u16) },
            },
        }
    }
}

/// Whether `li` is the snapshot of `p` with quantity `q`.
pub open spec fn snapshot_of(li: LineItem, p: Product, q: u32) -> bool {
    &&& li.product_id == p.id
    &&& li.name == p.name
    &&& li.description == Some(p.description)
    &&& li.unit_price == p.price
    &&& li.quantity == q
    &&& li.billing_interval == p.billing_interval
    &&& li.image_url == p.image_url
}

/// Whether `li` is the snapshot of the catalog product that `it` names,
/// with its quantity.
pub open spec fn line_matches(cat: Seq<Product>, it: (Seq<char>, u32), li: LineItem) -> bool {
    match find_product(cat, it.0) {
        Some(p) => snapshot_of(li, p, it.1),
        None => false,
    }
}

/// Data for forwarding a booked consultation to a site.
#[derive(Debug, Clone)]
pub struct ConsultationPayload {
    pub first_name: String,
    pub last_name: String,
    pub email: String,
    pub appointment_date: String,
    pub appointment_time: String,
    pub duration: i32,
    pub amount_cents: i64,
    pub stripe_payment_id: String,
}

/// A metadata value, or the empty text.
pub open spec fn meta_or_empty(m: Map<Seq<char>, Seq<char>>, k: Seq<char>) -> Seq<char> {
    if m.contains_key(k) { m[k] } else { Seq::empty() }
}

/// The duration of a consultation: the `duration` entry as an `i32`, else 1.
pub open spec fn duration_of(m: Map<Seq<char>, Seq<char>>) -> i32 {
    if m.contains_key("duration"@) {
        match crate::signature::parse_i64_spec(m["duration"@]) {
            Some(v) => if i32::MIN <= v <= i32::MAX { v as i32 } else { 1 },
            None => 1,
        }
    } else {
        1
    }
}

fn meta_text(m: &Metadata, k: &str) -> (r: String)
    ensures
        r@ == meta_or_empty(m@, k@),
{
    match m.get(k) {
        Some(v) => v.clone(),
        None => String::new(),
    }
}

/// The forwarded form of a completed consultation checkout.
pub fn consultation_payload(data: &CheckoutCompletedData) -> (r: ConsultationPayload)
    ensures
        r.first_name@ == meta_or_empty(data.metadata@, "client_first_name"@),
        r.last_name@ == meta_or_empty(data.metadata@, "client_last_name"@),
        r.email@ == meta_or_empty(data.metadata@, "client_email"@),
        r.appointment_date@ == meta_or_empty(data.metadata@, "appointment_date"@),
        r.appointment_time@ == meta_or_empty(data.metadata@, "appointment_time"@),
        r.duration == duration_of(data.metadata@),
        r.amount_cents == data.amount_total,
        r.stripe_payment_id@ == (match data.payment_intent_id {
            Some(p) => p@,
            None => "unknown"@,
        }),
{
    let duration: i32 = match data.metadata.get("duration") {
        Some(d) => match parse_i64(d.as_str()) {
            Some(v) => if i32::MIN as i64 <= v && v <= i32::MAX as i64 { v as i32 } else { 1 },
            None => 1,
        },
        None => 1,
    };
    ConsultationPayload {
        first_name: meta_text(&data.metadata, "client_first_name"),
        last_name: meta_text(&data.metadata, "client_last_name"),
        email: meta_text(&data.metadata, "client_email"),
        appointment_date: meta_text(&data.metadata, "appointment_date"),
        appointment_time: meta_text(&data.metadata, "appointment_time"),
        duration,
        amount_cents: data.amount_total,
        stripe_payment_id: match &data.payment_intent_id {
            Some(p) => p.clone(),
            None => String::from_str("unknown"),
        },
    }
}

/// The string metadata of an event's raw object.
pub open spec fn event_metadata(event: WebhookEvent) -> Map<Seq<char>, Seq<char>> {
    match event.raw_data {
        Some(Json::Object(m)) => match member(m@, "metadata"@) {
            Some(Json::Object(md)) => string_members(md@),
            _ => Map::empty(),
        },
        _ => Map::empty(),
    }
}

/// The integer member `k` of an object's members, else zero.
pub open spec fn members_i64_or_zero(m: Seq<(String, Json)>, k: Seq<char>) -> i64 {
    match member(m, k) {
        Some(v) => match v.spec_i64() { Some(n) => n, None => 0 },
        None => 0,
    }
}

/// The site a consultation is forwarded for: its `site_id` entry, else
/// `chargegun`.
pub open spec fn forward_site(md: Map<Seq<char>, Seq<char>>) -> Seq<char> {
    if md.contains_key("site_id"@) { md["site_id"@] } else { "chargegun"@ }
}

/// Whether `p` is the payload of a consultation with metadata `md`, amount
/// `amount` and payment intent `pi`.
pub open spec fn payload_of(p: ConsultationPayload, md: Map<Seq<char>, Seq<char>>, amount: i64, pi: Option<Seq<char>>) -> bool {
    &&& p.first_name@ == meta_or_empty(md, "client_first_name"@)
    &&& p.last_name@ == meta_or_empty(md, "client_last_name"@)
    &&& p.email@ == meta_or_empty(md, "client_email"@)
    &&& p.appointment_date@ == meta_or_empty(md, "appointment_date"@)
    &&& p.appointment_time@ == meta_or_empty(md, "appointment_time"@)
    &&& p.duration == duration_of(md)
    &&& p.amount_cents == amount
    &&& p.stripe_payment_id@ == (match pi { Some(x) => x, None => "unknown"@ })
}

/// Everything a request handler reads: providers, catalog, sites, fallback
/// URLs, settings and the forwarding URL of each site.
pub struct AppState<S> {
    pub strategies: PaymentStrategySelector<S>,
    pub catalog: ProductCatalog,
    pub sites: SiteRegistry,
    pub urls: CheckoutUrls,
    pub config: AppConfig,
    /// Site id to the URL that booked consultations are forwarded to.
    pub webhook_forward_urls: Metadata,
}

/// The success URL with the session placeholder for a resolved site, or
/// the fallback success URL with it.
pub open spec fn success_url_spec(site: Option<Site>, urls: CheckoutUrls) -> Seq<char> {
    match site {
        Some(s) => s.spec_success_url_with_session(),
        None => urls.base_url@ + urls.success_path@ + "?session_id={CHECKOUT_SESSION_ID}"@,
    }
}

/// The cancel URL of a resolved site, or the fallback cancel URL.
pub open spec fn cancel_url_spec(site: Option<Site>, urls: CheckoutUrls) -> Seq<char> {
    match site {
        Some(s) => s.cancel_url@,
        None => urls.base_url@ + urls.cancel_path@,
    }
}

/// The non-empty statement descriptor suffix of a resolved site.
pub open spec fn descriptor_spec(site: Option<Site>) -> Option<Seq<char>> {
    match site {
        Some(s) => if s.statement_descriptor_suffix@.len() > 0 { Some(s.statement_descriptor_suffix@) } else { None },
        None => None,
    }
}

/// The metadata of a new order: the caller's entries, then `site_id` and
/// `statement_descriptor_suffix`, which take precedence over caller keys.
pub open spec fn order_metadata(
    caller: Map<Seq<char>, Seq<char>>,
    site_id: Option<Seq<char>>,
    descriptor: Option<Seq<char>>,
) -> Map<Seq<char>, Seq<char>> {
    let m1 = match site_id {
        Some(s) => caller.insert("site_id"@, s),
        None => caller,
    };
    match descriptor {
        Some(d) => m1.insert("statement_descriptor_suffix"@, d),
        None => m1,
    }
}

impl<S: PaymentStrategy> AppState<S> {
    /// The default provider's strategy.
    pub fn default_strategy(&self) -> (r: Option<&S>)
        ensures
            r matches Some(s) ==> self.strategies.spec_default() == Some(*s),
            r is None ==> self.strategies.spec_default() is None,
    {
        self.strategies.default_strategy()
    }

    /// The strategy named `provider`.
    pub fn strategy(&self, provider: &str) -> (r: Option<&S>)
        ensures
            r matches Some(s) ==> self.strategies.spec_get(provider@) == Some(*s),
            r is None ==> self.strategies.spec_get(provider@) is None,
    {
        self.strategies.get(provider)
    }

    /// The site `site_id`, or the default site.
    pub fn get_site(&self, site_id: Option<&str>) -> (r: Option<&Site>)
        ensures
            r matches Some(s) ==> self.sites.spec_get_or_default(opt_chars(site_id)) == Some(*s),
            r is None ==> self.sites.spec_get_or_default(opt_chars(site_id)) is None,
    {
        self.sites.get_or_default(site_id)
    }

    /// Success URL, with the session placeholder, of the resolved site.
    pub fn success_url_for_site(&self, site_id: Option<&str>) -> (r: String)
        ensures
            r@ == success_url_spec(self.sites.spec_get_or_default(opt_chars(site_id)), self.urls),
    {
        match self.get_site(site_id) {
            Some(site) => site.success_url_with_session(),
            None => self.success_url(),
        }
    }

    /// Cancel URL of the resolved site.
    pub fn cancel_url_for_site(&self, site_id: Option<&str>) -> (r: String)
        ensures
            r@ == cancel_url_spec(self.sites.spec_get_or_default(opt_chars(site_id)), self.urls),
    {
        match self.get_site(site_id) {
            Some(site) => site.cancel_url.clone(),
            None => self.urls.cancel_url(),
        }
    }

    /// Non-empty statement descriptor suffix of the resolved site.
    pub fn statement_descriptor_for_site(&self, site_id: Option<&str>) -> (r: Option<String>)
        ensures
            opt_view(r) == descriptor_spec(self.sites.spec_get_or_default(opt_chars(site_id))),
    {
        match self.get_site(site_id) {
            Some(site) => if site.statement_descriptor_suffix.unicode_len() > 0 {
                Some(site.statement_descriptor_suffix.clone())
            } else {
                None
            },
            None => None,
        }
    }

    /// Fallback success URL with the session placeholder.
    pub fn success_url(&self) -> (r: String)
        ensures
            r@ == self.urls.base_url@ + self.urls.success_path@ + "?session_id={CHECKOUT_SESSION_ID}"@,
    {
        let s = self.urls.success_url();
        join2(s.as_str(), "?session_id={CHECKOUT_SESSION_ID}")
    }

    /// Fallback cancel URL.
    pub fn cancel_url(&self) -> (r: String)
        ensures
            r@ == self.urls.base_url@ + self.urls.cancel_path@,
    {
        self.urls.cancel_url()
    }

    /// The error of a request addressed to site `site_id` by path: an
    /// unknown or inactive site is not found, with no fallback.
    pub fn site_route_error(&self, site_id: &str) -> (r: Option<ErrorResponse>)
        ensures
            r is None <==> self.sites.spec_get(site_id@) is Some,
            r matches Some(e) ==> e.code == 404,
    {
        if self.sites.has_site(site_id) {
            None
        } else {
            Some(ErrorResponse { error: join2("Site not found: ", site_id), code: 404, details: None })
        }
    }

    /// Validates a checkout request and builds its order, in this order:
    /// some item is requested (400), the provider resolves (400), each
    /// product exists (404) and is active (400). On success it gives the
    /// strategy to call, the USD order and the site's success and cancel
    /// URLs; nothing is sent to any provider here.
    pub fn prepare_checkout(&self, request: &CreateCheckoutRequest, site_id: Option<&str>)
        -> (r: Result<(&S, Order, String, String), ErrorResponse>)
        ensures
            requested_items(*request) is None ==> (r matches Err(e) && e.code == 400),
            requested_items(*request) is Some
                && self.strategies.spec_get_or_default(opt_view(request.provider)) is None
                ==> (r matches Err(e) && e.code == 400),
            requested_items(*request) is Some
                && self.strategies.spec_get_or_default(opt_view(request.provider)) is Some
                && first_item_failure(self.catalog.products@, requested_items(*request)->0) is Some
                ==> (r matches Err(e) && Some(e.code) == first_item_failure(self.catalog.products@, requested_items(*request)->0)),
            requested_items(*request) is Some
                && self.strategies.spec_get_or_default(opt_view(request.provider)) is Some
                && first_item_failure(self.catalog.products@, requested_items(*request)->0) is None
                ==> (r is Ok),
            r matches Ok(plan) ==> (requested_items(*request) matches Some(its)
                && Some(*plan.0) == self.strategies.spec_get_or_default(opt_view(request.provider))
                && plan.1.line_items@.len() == its.len()
                && (forall|i: int| 0 <= i < its.len() ==> line_matches(self.catalog.products@, #[trigger] its[i], plan.1.line_items@[i]))
                && plan.1.currency == Currency::USD
                && plan.1.mode == mode_after(crate::order::CheckoutMode::Payment, plan.1.line_items@)
                && plan.1.customer_email == request.customer_email
                && (request.idempotency_key is Some ==> plan.1.idempotency_key == request.idempotency_key)
                && plan.1.metadata@ == order_metadata(request.metadata@, opt_chars(site_id),
                    descriptor_spec(self.sites.spec_get_or_default(opt_chars(site_id))))
                && plan.2@ == success_url_spec(self.sites.spec_get_or_default(opt_chars(site_id)), self.urls)
                && plan.3@ == cancel_url_spec(self.sites.spec_get_or_default(opt_chars(site_id)), self.urls)),
    {
        let items: Vec<CheckoutItem> = if request.items.len() > 0 {
            let mut v: Vec<CheckoutItem> = Vec::new();
            let mut i: usize = 0;
            while i < request.items.len()
                invariant
                    i <= request.items@.len(),
                    v@.len() == i,
                    forall|j: int| 0 <= j < i ==> (#[trigger] v@[j]).product_id@ == request.items@[j].product_id@
                        && v@[j].quantity == request.items@[j].quantity,
                decreases request.items@.len() - i,
            {
                v.push(CheckoutItem { product_id: request.items[i].product_id.clone(), quantity: request.items[i].quantity });
                i = i + 1;
            }
            v
        } else {
            match &request.product_id {
                Some(pid) => {
                    let mut v: Vec<CheckoutItem> = Vec::new();
                    v.push(CheckoutItem { product_id: pid.clone(), quantity: 1 });
                    v
                },
                None => return Err(ErrorResponse::new(
                    "No items in checkout request (provide 'items' array or 'product_id')",
                    400,
                )),
            }
        };
        let ghost its = requested_items(*request)->0;
        assert(items@.map_values(|i: CheckoutItem| (i.product_id@, i.quantity)) =~= its);
        let provider: Option<&str> = match &request.provider {
            Some(p) => Some(p.as_str()),
            None => None,
        };
        assert(opt_chars(provider) == opt_view(request.provider));
        let strategy = match self.strategies.get_or_default(provider) {
            Some(s) => s,
            None => {
                let text = match provider {
                    Some(p) => join3("Unknown payment provider: Some(\"", p, "\")"),
                    None => String::from_str("Unknown payment provider: None"),
                };
                return Err(ErrorResponse { error: text, code: 400, details: None });
            },
        };
        let mut order = Order::new(Currency::USD);
        order.customer_email = match &request.customer_email {
            Some(e) => Some(e.clone()),
            None => None,
        };
        if let Some(k) = &request.idempotency_key {
            order.idempotency_key = Some(k.clone());
        }
        let mut metadata = request.metadata.clone();
        if let Some(sid) = site_id {
            metadata.insert(String::from_str("site_id"), String::from_str(sid));
        }
        if let Some(d) = self.statement_descriptor_for_site(site_id) {
            metadata.insert(String::from_str("statement_descriptor_suffix"), d);
        }
        order.metadata = metadata;
        let ghost order0 = order;
        let mut i: usize = 0;
        assert(its.subrange(0, 0) =~= Seq::<(Seq<char>, u32)>::empty());
        while i < items.len()
            invariant
                i <= items@.len(),
                requested_items(*request) == Some(its),
                self.strategies.spec_get_or_default(opt_view(request.provider)) == Some(*strategy),
                its.len() == items@.len(),
                forall|j: int| 0 <= j < its.len() ==> (#[trigger] its[j]).0 == items@[j].product_id@ && its[j].1 == items@[j].quantity,
                first_item_failure(self.catalog.products@, its.subrange(0, i as int)) is None,
                order.line_items@.len() == i,
                forall|j: int| 0 <= j < i ==> line_matches(self.catalog.products@, #[trigger] its[j], order.line_items@[j]),
                order.mode == mode_after(crate::order::CheckoutMode::Payment, order.line_items@),
                order.currency == order0.currency,
                order.customer_email == order0.customer_email,
                order.idempotency_key == order0.idempotency_key,
                order.metadata@ == order0.metadata@,
                order0.line_items@.len() == 0,
                order0.mode == crate::order::CheckoutMode::Payment,
            decreases items@.len() - i,
        {
            let ghost sub = its.subrange(0, i + 1);
            assert(sub.drop_last() =~= its.subrange(0, i as int));
            assert(sub.last() == its[i as int]);
            let item = &items[i];
            let product = match self.catalog.get(item.product_id.as_str()) {
                Some(p) => p,
                None => {
                    let text = join2("Product not found: ", item.product_id.as_str());
                    let e = ErrorResponse { error: text, code: 404, details: None };
                    proof { lemma_failure_extends(self.catalog.products@, its, i as int); }
                    return Err(e);
                },
            };
            if !product.active {
                let text = join2("Product is not available: ", item.product_id.as_str());
                proof { lemma_failure_extends(self.catalog.products@, its, i as int); }
                return Err(ErrorResponse { error: text, code: 400, details: None });
            }
            let ghost before = order.line_items@;
            order.add_item(LineItem::from_product(product, item.quantity));
            assert(order.line_items@.drop_last() =~= before);
            i = i + 1;
        }
        assert(its.subrange(0, i as int) =~= its);
        let success_url = self.success_url_for_site(site_id);
        let cancel_url = self.cancel_url_for_site(site_id);
        Ok((strategy, order, success_url, cancel_url))
    }

    /// Where and what to forward for a completed checkout that booked a
    /// consultation (its metadata has `appointment_date`): the forwarding
    /// URL of its `site_id` entry (`chargegun` when absent), when that site
    /// has one. Other events forward nothing.
    pub fn consultation_forward(&self, event: &WebhookEvent) -> (r: Option<(String, ConsultationPayload)>)
        ensures
            r is Some <==> (event.event_type is CheckoutCompleted && completed_ok(*event)
                && event_metadata(*event).contains_key("appointment_date"@)
                && self.webhook_forward_urls@.contains_key(forward_site(event_metadata(*event)))),
            r matches Some(f) ==> f.0@ == self.webhook_forward_urls@[forward_site(event_metadata(*event))]
                && (event.raw_data matches Some(Json::Object(m))
                && payload_of(f.1, event_metadata(*event), members_i64_or_zero(m@, "amount_total"@),
                    members_str(m@, "payment_intent"@))),
    {
        if !matches!(event.event_type, WebhookEventType::CheckoutCompleted) {
            return None;
        }
        let data = match CheckoutCompletedData::from_event(event) {
            Ok(d) => d,
            Err(_) => return None,
        };
        if !data.metadata.contains_key("appointment_date") {
            return None;
        }
        let site = match data.metadata.get("site_id") {
            Some(s) => s.clone(),
            None => String::from_str("chargegun"),
        };
        match self.webhook_forward_urls.get(site.as_str()) {
            Some(url) => Some((url.clone(), consultation_payload(&data))),
            None => None,
        }
    }
}

proof fn lemma_failure_extends(cat: Seq<Product>, its: Seq<(Seq<char>, u32)>, i: int)
    requires
        0 <= i < its.len(),
        first_item_failure(cat, its.subrange(0, i)) is None,
        first_item_failure(cat, its.subrange(0, i + 1)) is Some,
    ensures
        first_item_failure(cat, its) == first_item_failure(cat, its.subrange(0, i + 1)),
    decreases its.len() - i,
{
    lemma_failure_prefix(cat, its, i + 1);
}

proof fn lemma_failure_prefix(cat: Seq<Product>, its: Seq<(Seq<char>, u32)>, k: int)
    requires
        0 <= k <= its.len(),
        first_item_failure(cat, its.subrange(0, k)) is Some,
    ensures
        first_item_failure(cat, its) == first_item_failure(cat, its.subrange(0, k)),
    decreases its.len() - k,
{
    if k < its.len() {
        let next = its.subrange(0, k + 1);
        assert(next.drop_last() =~= its.subrange(0, k));
        lemma_failure_prefix(cat, its, k + 1);
    } else {
        assert(its.subrange(0, k) =~= its);
    }
}

} // verus!

//! Checkout-completed details, webhook handlers and event dispatch.
use vstd::prelude::*;
use crate::error::{PaymentError, PaymentResult};
use crate::json::{Json, member, str_member, get_string};
use crate::metadata::Metadata;
use crate::order::{WebhookEvent, WebhookEventType};
use crate::product::Currency;
use crate::stripe::{members_str, members_string, members_get};
use crate::text::{opt_view, str_eq};

verus! {

/// The lowercase form of `s`.
pub uninterp spec fn lower_of(s: Seq<char>) -> Seq<char>;

/// Relies on str::to_lowercase: the result depends on the characters alone.
#[verifier::external_body]
fn lowercase(s: &str) -> (r: String)
    ensures
        r@ == lower_of(s@),
{
    s.to_lowercase()
}

/// The currency of a lowercase ISO code; USD for any other code.
pub open spec fn currency_of_code(code: Seq<char>) -> Currency {
    if code == "usd"@ { Currency::USD }
    else if code == "eur"@ { Currency::EUR }
    else if code == "gbp"@ { Currency::GBP }
    else if code == "jpy"@ { Currency::JPY }
    else if code == "cad"@ { Currency::CAD }
    else if code == "aud"@ { Currency::AUD }
    else if code == "chf"@ { Currency::CHF }
    else if code == "mxn"@ { Currency::MXN }
    else { Currency::USD }
}

/// The currency of a lowercase ISO code; USD for any other code.
pub fn currency_from_code(code: &str) -> (r: Currency)
    ensures
        r == currency_of_code(code@),
{
    if str_eq(code, "usd") { Currency::USD }
    else if str_eq(code, "eur") { Currency::EUR }
    else if str_eq(code, "gbp") { Currency::GBP }
    else if str_eq(code, "jpy") { Currency::JPY }
    else if str_eq(code, "cad") { Currency::CAD }
    else if str_eq(code, "aud") { Currency::AUD }
    else if str_eq(code, "chf") { Currency::CHF }
    else if str_eq(code, "mxn") { Currency::MXN }
    else { Currency::USD }
}

/// The string-valued members of an object as a map; later members win.
pub open spec fn string_members(e: Seq<(String, Json)>) -> Map<Seq<char>, Seq<char>>
    decreases e.len(),
{
    if e.len() == 0 {
        Map::empty()
    } else {
        match e.last().1 {
            Json::Str(s) => string_members(e.drop_last()).insert(e.last().0@, s@),
            _ => string_members(e.drop_last()),
        }
    }
}

/// Details of a completed checkout, read from an event's raw object.
#[derive(Debug, Clone)]
pub struct CheckoutCompletedData {
    pub session_id: String,
    pub payment_intent_id: Option<String>,
    pub subscription_id: Option<String>,
    pub customer_id: Option<String>,
    pub customer_email: Option<String>,
    pub amount_total: i64,
    pub currency: Currency,
    pub payment_status: String,
    pub metadata: Metadata,
}

/// Whether `d` holds what the members `m` of a completed-checkout object give.
pub open spec fn completed_from(d: CheckoutCompletedData, m: Seq<(String, Json)>) -> bool {
    &&& Some(d.session_id@) == members_str(m, "id"@)
    &&& opt_view(d.payment_intent_id) == members_str(m, "payment_intent"@)
    &&& opt_view(d.subscription_id) == members_str(m, "subscription"@)
    &&& opt_view(d.customer_id) == members_str(m, "customer"@)
    &&& opt_view(d.customer_email) == (match member(m, "customer_details"@) {
        Some(cd) => str_member(cd, "email"@),
        None => None,
    })
    &&& d.amount_total == (match member(m, "amount_total"@) {
        Some(v) => match v.spec_i64() { Some(n) => n, None => 0 },
        None => 0,
    })
    &&& d.currency == currency_of_code(lower_of(match members_str(m, "currency"@) {
        Some(c) => c,
        None => "usd"@,
    }))
    &&& d.payment_status@ == (match members_str(m, "payment_status"@) {
        Some(p) => p,
        None => "unknown"@,
    })
    &&& d.metadata@ == (match member(m, "metadata"@) {
        Some(Json::Object(md)) => string_members(md@),
        _ => Map::empty(),
    })
}

/// Whether an event's raw data is an object with a string `id`.
pub open spec fn completed_ok(event: WebhookEvent) -> bool {
    event.raw_data matches Some(Json::Object(m)) && members_str(m@, "id"@) is Some
}

impl CheckoutCompletedData {
    /// Reads the details from an event's raw object; a missing object or
    /// session id is a parse error, other fields are optional.
    pub fn from_event(event: &WebhookEvent) -> (r: PaymentResult<Self>)
        ensures
            r is Ok <==> completed_ok(*event),
            r matches Ok(d) ==> (event.raw_data matches Some(Json::Object(m)) && completed_from(d, m@)),
            r matches Err(e) ==> e is WebhookParseError,
    {
        let raw = match &event.raw_data {
            Some(r) => r,
            None => return Err(PaymentError::WebhookParseError(String::from_str("Missing raw data"))),
        };
        let obj = match raw.as_object() {
            Some(o) => o,
            None => return Err(PaymentError::WebhookParseError(String::from_str("Raw data is not an object"))),
        };
        let session_id = match members_string(obj, "id") {
            Some(s) => s,
            None => return Err(PaymentError::WebhookParseError(String::from_str("Missing session id"))),
        };
        let payment_intent_id = members_string(obj, "payment_intent");
        let subscription_id = members_string(obj, "subscription");
        let customer_id = members_string(obj, "customer");
        let customer_email = match members_get(obj, "customer_details") {
            Some(cd) => get_string(cd, "email"),
            None => None,
        };
        let amount_total = match members_get(obj, "amount_total") {
            Some(v) => match v.as_i64() {
                Some(n) => n,
                None => 0,
            },
            None => 0,
        };
        let code = match members_string(obj, "currency") {
            Some(c) => c,
            None => String::from_str("usd"),
        };
        let lower = lowercase(code.as_str());
        let currency = currency_from_code(lower.as_str());
        let payment_status = match members_string(obj, "payment_status") {
            Some(p) => p,
            None => String::from_str("unknown"),
        };
        let mut metadata = Metadata::new();
        if let Some(Json::Object(md)) = members_get(obj, "metadata") {
            let mut i: usize = 0;
            assert(md@.subrange(0, 0) =~= Seq::<(String, Json)>::empty());
            while i < md.len()
                invariant
                    i <= md@.len(),
                    metadata@ == string_members(md@.subrange(0, i as int)),
                decreases md@.len() - i,
            {
                let ghost sub = md@.subrange(0, i + 1);
                assert(sub.drop_last() =~= md@.subrange(0, i as int));
                if let Json::Str(v) = &md[i].1 {
                    metadata.insert(md[i].0.clone(), v.clone());
                }
                i = i + 1;
            }
            assert(md@.subrange(0, i as int) =~= md@);
        }
        Ok(CheckoutCompletedData {
            session_id,
            payment_intent_id,
            subscription_id,
            customer_id,
            customer_email,
            amount_total,
            currency,
            payment_status,
            metadata,
        })
    }

    /// Whether the payment status is `paid`.
    pub fn is_paid(&self) -> (r: bool)
        ensures
            r == (self.payment_status@ == "paid"@),
    {
        str_eq(self.payment_status.as_str(), "paid")
    }

    /// The `order_id` metadata entry.
    pub fn order_id(&self) -> (r: Option<&str>)
        ensures
            r matches Some(s) ==> self.metadata@.contains_key("order_id"@) && self.metadata@["order_id"@] == s@,
            r is None ==> !self.metadata@.contains_key("order_id"@),
    {
        match self.metadata.get("order_id") {
            Some(s) => Some(s.as_str()),
            None => None,
        }
    }
}

/// The handler hook of each event kind.
#[derive(Debug, Clone, Copy, PartialEq, Eq, Structural)]
pub enum Hook {
    CheckoutCompleted,
    PaymentSucceeded,
    PaymentFailed,
    SubscriptionCreated,
    SubscriptionCancelled,
    SubscriptionRenewed,
    RefundIssued,
    /// The catch-all for unknown kinds.
    Unknown,
}

/// The hook that an event kind is routed to.
pub open spec fn hook_of(k: WebhookEventType) -> Hook {
    match k {
        WebhookEventType::CheckoutCompleted => Hook::CheckoutCompleted,
        WebhookEventType::PaymentSucceeded => Hook::PaymentSucceeded,
        WebhookEventType::PaymentFailed => Hook::PaymentFailed,
        WebhookEventType::SubscriptionCreated => Hook::SubscriptionCreated,
        WebhookEventType::SubscriptionCancelled => Hook::SubscriptionCancelled,
        WebhookEventType::SubscriptionRenewed => Hook::SubscriptionRenewed,
        WebhookEventType::RefundIssued => Hook::RefundIssued,
        WebhookEventType::Unknown(_) => Hook::Unknown,
    }
}

/// Callbacks for normalized webhook events, one per kind and a catch-all.
pub trait WebhookHandler {
    /// Whether the handler promises that `hook` always succeeds; by
    /// default it promises nothing.
    open spec fn always_accepts(&self, hook: Hook) -> bool {
        false
    }

    /// A checkout session completed.
    fn on_checkout_completed(&self, data: CheckoutCompletedData) -> (r: PaymentResult<()>)
        ensures
            self.always_accepts(Hook::CheckoutCompleted) ==> r is Ok,
    ;

    /// A payment succeeded.
    fn on_payment_succeeded(&self, event: &WebhookEvent) -> (r: PaymentResult<()>)
        ensures
            self.always_accepts(Hook::PaymentSucceeded) ==> r is Ok,
    ;

    /// A payment failed.
    fn on_payment_failed(&self, event: &WebhookEvent) -> (r: PaymentResult<()>)
        ensures
            self.always_accepts(Hook::PaymentFailed) ==> r is Ok,
    ;

    /// A subscription was created.
    fn on_subscription_created(&self, event: &WebhookEvent) -> (r: PaymentResult<()>)
        ensures
            self.always_accepts(Hook::SubscriptionCreated) ==> r is Ok,
    ;

    /// A subscription was cancelled.
    fn on_subscription_cancelled(&self, event: &WebhookEvent) -> (r: PaymentResult<()>)
        ensures
            self.always_accepts(Hook::SubscriptionCancelled) ==> r is Ok,
    ;

    /// A subscription renewed.
    fn on_subscription_renewed(&self, event: &WebhookEvent) -> (r: PaymentResult<()>)
        ensures
            self.always_accepts(Hook::SubscriptionRenewed) ==> r is Ok,
    ;

    /// A refund was issued.
    fn on_refund_issued(&self, event: &WebhookEvent) -> (r: PaymentResult<()>)
        ensures
            self.always_accepts(Hook::RefundIssued) ==> r is Ok,
    ;

    /// Any other event.
    fn on_unknown_event(&self, event: &WebhookEvent) -> (r: PaymentResult<()>)
        ensures
            self.always_accepts(Hook::Unknown) ==> r is Ok,
    ;
}

/// A handler that accepts every event and does nothing else.
#[derive(Debug, Clone, Copy)]
pub struct LoggingWebhookHandler;

impl WebhookHandler for LoggingWebhookHandler {
    open spec fn always_accepts(&self, hook: Hook) -> bool {
        true
    }

    fn on_checkout_completed(&self, data: CheckoutCompletedData) -> (r: PaymentResult<()>) {
        Ok(())
    }

    fn on_payment_succeeded(&self, event: &WebhookEvent) -> (r: PaymentResult<()>) {
        Ok(())
    }

    fn on_payment_failed(&self, event: &WebhookEvent) -> (r: PaymentResult<()>) {
        Ok(())
    }

    fn on_subscription_created(&self, event: &WebhookEvent) -> (r: PaymentResult<()>) {
        Ok(())
    }

    fn on_subscription_cancelled(&self, event: &WebhookEvent) -> (r: PaymentResult<()>) {
        Ok(())
    }

    fn on_subscription_renewed(&self, event: &WebhookEvent) -> (r: PaymentResult<()>) {
        Ok(())
    }

    fn on_refund_issued(&self, event: &WebhookEvent) -> (r: PaymentResult<()>) {
        Ok(())
    }

    fn on_unknown_event(&self, event: &WebhookEvent) -> (r: PaymentResult<()>) {
        Ok(())
    }
}

/// Whether dispatching `event` to `handler` is bound to succeed: the hook
/// of its kind promises success and, for a completed checkout, the details
/// can be read.
pub open spec fn dispatch_succeeds<H: WebhookHandler>(handler: H, event: WebhookEvent) -> bool {
    handler.always_accepts(hook_of(event.event_type))
        && (event.event_type is CheckoutCompleted ==> completed_ok(event))
}

/// Routes `event` to the one hook of its kind; a completed checkout first
/// has its details read, and a failure there or in the hook is returned.
pub fn dispatch_webhook_event<H: WebhookHandler>(handler: &H, event: WebhookEvent) -> (r: PaymentResult<()>)
    ensures
        dispatch_succeeds(*handler, event) ==> r is Ok,
        event.event_type is CheckoutCompleted && !completed_ok(event) ==> (r matches Err(e) && e is WebhookParseError),
{
    match &event.event_type {
        WebhookEventType::CheckoutCompleted => {
            let data = CheckoutCompletedData::from_event(&event)?;
            handler.on_checkout_completed(data)
        },
        WebhookEventType::PaymentSucceeded => handler.on_payment_succeeded(&event),
        WebhookEventType::PaymentFailed => handler.on_payment_failed(&event),
        WebhookEventType::SubscriptionCreated => handler.on_subscription_created(&event),
        WebhookEventType::SubscriptionCancelled => handler.on_subscription_cancelled(&event),
        WebhookEventType::SubscriptionRenewed => handler.on_subscription_renewed(&event),
        WebhookEventType::RefundIssued => handler.on_refund_issued(&event),
        WebhookEventType::Unknown(_) => handler.on_unknown_event(&event),
    }
}

/// An event whose provider type is outside the mapping table goes to the
/// catch-all hook, so dispatching it to a handler whose catch-all accepts
/// (the logging handler, for one) succeeds.
pub proof fn lemma_unknown_event_dispatch<H: WebhookHandler>(handler: H, t: Seq<char>, event: WebhookEvent)
    requires
        !crate::stripe::known_type(t),
        crate::stripe::kind_of(t, event.event_type),
        handler.always_accepts(Hook::Unknown),
    ensures
        event.event_type matches WebhookEventType::Unknown(s) && s@ == t,
        hook_of(event.event_type) == Hook::Unknown,
        dispatch_succeeds(handler, event),
{
}

} // verus!

//! The payment-links strategy: pre-created provider links per product.
use vstd::prelude::*;
use vstd::utf8::encode_utf8;
use crate::config::StripeConfig;
use crate::error::{PaymentError, PaymentResult};
use crate::json::{Json, get_string, json_document, parse_json, str_member};
use crate::metadata::Metadata;
use crate::order::{CheckoutSession, CheckoutStatus, LineItem, Order, WebhookEvent};
use crate::strategy::PaymentStrategy;
use crate::text::{i64_to_text, join2, join3, u64_to_text};
use crate::webhook::string_members;

verus! {

/// A provider payment link.
#[derive(Debug)]
pub struct PaymentLinkResponse {
    pub id: String,
    pub url: String,
    pub active: bool,
    pub metadata: Metadata,
}

/// Whether every member of `e` is a string.
pub open spec fn all_strings(e: Seq<(String, Json)>) -> bool {
    forall|i: int| 0 <= i < e.len() ==> (#[trigger] e[i]).1 is Str
}

/// The fields of a payment-link document: id, URL, active flag and the
/// string metadata (absent metadata is empty; any non-string value fails).
pub open spec fn link_fields(j: Json) -> Option<(Seq<char>, Seq<char>, bool, Map<Seq<char>, Seq<char>>)> {
    match (str_member(j, "id"@), str_member(j, "url"@), j.spec_get("active"@)) {
        (Some(id), Some(url), Some(Json::Bool(a))) => match j.spec_get("metadata"@) {
            None => Some((id, url, a, Map::empty())),
            Some(Json::Object(m)) => if all_strings(m@) { Some((id, url, a, string_members(m@))) } else { None },
            _ => None,
        },
        _ => None,
    }
}

/// The members of an object as a string map, when all of them are strings.
fn string_map(m: &Vec<(String, Json)>) -> (r: Option<Metadata>)
    ensures
        r is Some <==> all_strings(m@),
        r matches Some(md) ==> md@ == string_members(m@),
{
    let mut metadata = Metadata::new();
    let mut i: usize = 0;
    assert(m@.subrange(0, 0) =~= Seq::<(String, Json)>::empty());
    while i < m.len()
        invariant
            i <= m@.len(),
            metadata@ == string_members(m@.subrange(0, i as int)),
            all_strings(m@.subrange(0, i as int)),
        decreases m@.len() - i,
    {
        let ghost sub = m@.subrange(0, i + 1);
        assert(sub.drop_last() =~= m@.subrange(0, i as int));
        match &m[i].1 {
            Json::Str(v) => {
                metadata.insert(m[i].0.clone(), v.clone());
            },
            _ => {
                assert(!all_strings(m@)) by {
                    assert(!(m@[i as int].1 is Str));
                }
                return None;
            },
        }
        assert(all_strings(sub)) by {
            assert forall|k: int| 0 <= k < sub.len() implies (#[trigger] sub[k]).1 is Str by {
                if k < i { assert(sub[k] == m@.subrange(0, i as int)[k]); }
            }
        }
        i = i + 1;
    }
    assert(m@.subrange(0, i as int) =~= m@);
    Some(metadata)
}

/// The payment-links strategy of the provider.
#[derive(Debug, Clone)]
pub struct StripeLinksStrategy {
    pub config: StripeConfig,
    /// Product id to payment-link id.
    pub link_mappings: Metadata,
}

impl PaymentStrategy for StripeLinksStrategy {
    open spec fn spec_provider_name(&self) -> Seq<char> {
        "stripe_links"@
    }

    fn provider_name(&self) -> (r: &'static str) {
        "stripe_links"
    }

    fn supports_subscriptions(&self) -> bool {
        true
    }
}

impl StripeLinksStrategy {
    /// A strategy with no links.
    pub fn new(config: StripeConfig) -> (r: Self)
        ensures
            r.config == config,
            r.link_mappings@ == Map::<Seq<char>, Seq<char>>::empty(),
    {
        StripeLinksStrategy { config, link_mappings: Metadata::new() }
    }

    /// Maps `product_id` to the link `payment_link_id`.
    pub fn register_link(&mut self, product_id: &str, payment_link_id: &str)
        ensures
            final(self).link_mappings@ == old(self).link_mappings@.insert(product_id@, payment_link_id@),
            final(self).config == old(self).config,
    {
        self.link_mappings.insert(String::from_str(product_id), String::from_str(payment_link_id));
    }

    /// Maps `product_id` to the link `payment_link_id`.
    pub fn with_link(self, product_id: &str, payment_link_id: &str) -> (r: Self)
        ensures
            r.link_mappings@ == self.link_mappings@.insert(product_id@, payment_link_id@),
            r.config == self.config,
    {
        let mut s = self;
        s.register_link(product_id, payment_link_id);
        s
    }

    /// The API address of the link registered for `product_id`; an
    /// unregistered product is not found.
    pub fn link_request_url(&self, product_id: &str) -> (r: PaymentResult<String>)
        ensures
            r is Ok <==> self.link_mappings@.contains_key(product_id@),
            r matches Ok(u) ==> u@ == self.config.api_base_url@ + "/v1/payment_links/"@ + self.link_mappings@[product_id@],
            r matches Err(e) ==> (e matches PaymentError::ProductNotFound { product_id: p } && p@ == product_id@),
    {
        match self.link_mappings.get(product_id) {
            Some(link) => Ok(join3(self.config.api_base_url.as_str(), "/v1/payment_links/", link.as_str())),
            None => Err(PaymentError::ProductNotFound { product_id: String::from_str(product_id) }),
        }
    }

    /// The form that creates a link for `quantity` of price `price_id`.
    pub fn payment_link_form(price_id: &str, quantity: i64) -> (r: Vec<(String, String)>)
        ensures
            r@.len() == 2,
            r@[0].0@ == "line_items[0][price]"@,
            r@[0].1@ == price_id@,
            r@[1].0@ == "line_items[0][quantity]"@,
            r@[1].1@ == crate::text::int_text(quantity as int),
    {
        let mut v: Vec<(String, String)> = Vec::new();
        v.push((String::from_str("line_items[0][price]"), String::from_str(price_id)));
        v.push((String::from_str("line_items[0][quantity]"), i64_to_text(quantity)));
        v
    }

    /// The payment link that a response describes: a non-2xx status is a
    /// provider error, a body without the link fields a serialization error.
    pub fn link_from_response(status: u16, body: &str) -> (r: PaymentResult<PaymentLinkResponse>)
        ensures
            !(200 <= status <= 299) ==> (r matches Err(e) && e is ProviderError),
            200 <= status <= 299 ==> (match json_document(encode_utf8(body@)) {
                Some(doc) => match link_fields(doc) {
                    Some(f) => r matches Ok(l) && l.id@ == f.0 && l.url@ == f.1 && l.active == f.2 && l.metadata@ == f.3,
                    None => r matches Err(e) && e is Serialization,
                },
                None => r matches Err(e) && e is Serialization,
            }),
    {
        if status < 200 || status > 299 {
            let code = u64_to_text(status as u64);
            let message = join3("HTTP ", code.as_str(), ": ").concat(body);
            return Err(PaymentError::ProviderError { provider: String::from_str("stripe"), message });
        }
        let err = PaymentError::Serialization(String::from_str("Failed to parse response"));
        let doc = match parse_json(body.as_bytes()) {
            Some(d) => d,
            None => return Err(err),
        };
        let id = get_string(&doc, "id");
        let url = get_string(&doc, "url");
        let active = match doc.get("active") {
            Some(Json::Bool(a)) => Some(*a),
            _ => None,
        };
        let (id, url, active) = match (id, url, active) {
            (Some(i), Some(u), Some(a)) => (i, u, a),
            _ => return Err(err),
        };
        let mut metadata = Metadata::new();
        match doc.get("metadata") {
            None => {},
            Some(Json::Object(m)) => match string_map(m) {
                Some(md) => { metadata = md; },
                None => return Err(err),
            },
            Some(_) => return Err(err),
        }
        Ok(PaymentLinkResponse { id, url, active, metadata })
    }

    /// The single line item of an order; links sell one product at a time.
    pub fn single_item(order: &Order) -> (r: PaymentResult<&LineItem>)
        ensures
            r is Ok <==> order.line_items@.len() == 1,
            r matches Ok(li) ==> *li == order.line_items@[0],
            r matches Err(e) ==> e is InvalidRequest,
    {
        if order.line_items.len() != 1 {
            return Err(PaymentError::InvalidRequest(String::from_str(
                "Payment Links only support single-product orders. Use Checkout Sessions for multiple items.",
            )));
        }
        Ok(&order.line_items[0])
    }

    /// The session of an order paid through a link at `checkout_url`,
    /// tracked under `plink_<order id>`; links do not expire.
    pub fn session_for_link(order: &Order, checkout_url: String, now: i64) -> (r: CheckoutSession)
        ensures
            r.session_id@ == "plink_"@ + order.id@,
            r.order_id == order.id,
            r.provider@ == "stripe_links"@,
            r.checkout_url == checkout_url,
            r.status == CheckoutStatus::Open,
            r.expires_at is None,
            r.payment_intent_id is None,
            r.customer_id is None,
            r.created_at == now,
    {
        CheckoutSession {
            session_id: join2("plink_", order.id.as_str()),
            order_id: order.id.clone(),
            provider: String::from_str("stripe_links"),
            checkout_url,
            status: CheckoutStatus::Open,
            expires_at: None,
            payment_intent_id: None,
            customer_id: None,
            created_at: now,
        }
    }

    /// Links are verified by the checkout-session strategy; this one
    /// refuses every webhook.
    pub fn verify_webhook(&self, payload: &[u8], signature: &str) -> (r: PaymentResult<WebhookEvent>)
        ensures
            r matches Err(e) && e is Internal,
    {
        Err(PaymentError::Internal(String::from_str("Use StripeCheckoutStrategy for webhook verification")))
    }
}

} // verus!

//! Line items, orders, checkout sessions and normalized webhook events.
use vstd::prelude::*;
use crate::metadata::Metadata;
use crate::product::{BillingInterval, Currency, Price, Product};
use crate::json::Json;

verus! {

/// Relies on uuid's `Uuid::new_v4` and its `to_string`: a fresh random token.
#[verifier::external_body]
fn new_unique_token() -> String {
    uuid::Uuid::new_v4().to_string()
}

/// Relies on chrono's `Utc::now().timestamp()`: the current time in Unix seconds.
#[verifier::external_body]
pub(crate) fn now_unix_seconds() -> i64 {
    chrono::Utc::now().timestamp()
}

/// A product snapshot in an order.
#[derive(Debug, Clone)]
pub struct LineItem {
    pub product_id: String,
    pub name: String,
    pub description: Option<String>,
    pub unit_price: Price,
    pub quantity: u32,
    pub billing_interval: BillingInterval,
    pub image_url: Option<String>,
}

/// `unit_price.amount × quantity` of an item.
pub open spec fn line_total(item: LineItem) -> int {
    item.unit_price.amount * item.quantity
}

/// Sum of the line totals of `s`.
pub open spec fn items_total(s: Seq<LineItem>) -> int
    decreases s.len(),
{
    if s.len() == 0 { 0 } else { items_total(s.drop_last()) + line_total(s.last()) }
}

/// Sum of the quantities of `s`.
pub open spec fn quantity_sum(s: Seq<LineItem>) -> int
    decreases s.len(),
{
    if s.len() == 0 { 0 } else { quantity_sum(s.drop_last()) + s.last().quantity }
}

/// Each line total and each running sum of `s` fits in `i64`.
pub open spec fn totals_fit(s: Seq<LineItem>) -> bool {
    &&& forall|i: int| 0 <= i < s.len() ==> i64::MIN <= #[trigger] line_total(s[i]) <= i64::MAX
    &&& forall|i: int| 0 <= i <= s.len() ==> i64::MIN <= #[trigger] items_total(s.subrange(0, i)) <= i64::MAX
}

proof fn lemma_quantity_prefix(s: Seq<LineItem>, i: int)
    requires
        0 <= i <= s.len(),
    ensures
        0 <= quantity_sum(s.subrange(0, i)) <= quantity_sum(s),
    decreases s.len() - i,
{
    if i < s.len() {
        lemma_quantity_prefix(s, i + 1);
        assert(s.subrange(0, i + 1).drop_last() =~= s.subrange(0, i));
        lemma_quantity_nonneg(s.subrange(0, i));
    } else {
        assert(s.subrange(0, i) =~= s);
        lemma_quantity_nonneg(s);
    }
}

proof fn lemma_quantity_nonneg(s: Seq<LineItem>)
    ensures
        quantity_sum(s) >= 0,
    decreases s.len(),
{
    if s.len() > 0 { lemma_quantity_nonneg(s.drop_last()); }
}

impl LineItem {
    /// A snapshot of `product` with `quantity`.
    pub fn from_product(product: &Product, quantity: u32) -> (r: Self)
        ensures
            r.product_id == product.id,
            r.name == product.name,
            r.description == Some(product.description),
            r.unit_price == product.price,
            r.quantity == quantity,
            r.billing_interval == product.billing_interval,
            r.image_url == product.image_url,
    {
        LineItem {
            product_id: product.id.clone(),
            name: product.name.clone(),
            description: Some(product.description.clone()),
            unit_price: product.price,
            quantity,
            billing_interval: product.billing_interval,
            image_url: match &product.image_url {
                Some(u) => Some(u.clone()),
                None => None,
            },
        }
    }

    /// Unit price times quantity, in the unit price's currency.
    pub fn total(&self) -> (r: Price)
        requires
            i64::MIN <= line_total(*self) <= i64::MAX,
        ensures
            r.amount == line_total(*self),
            r.currency == self.unit_price.currency,
    {
        Price { amount: self.unit_price.amount * self.quantity as i64, currency: self.unit_price.currency }
    }
}

/// How the provider should charge.
#[derive(Debug, Clone, Copy, PartialEq, Eq, Structural)]
pub enum CheckoutMode {
    /// One-time payment.
    Payment,
    Subscription,
    /// Save a card for later.
    Setup,
}

impl Default for CheckoutMode {
    fn default() -> (r: Self)
        ensures
            r == CheckoutMode::Payment,
    {
        CheckoutMode::Payment
    }
}

/// An order to check out.
#[derive(Debug, Clone)]
pub struct Order {
    pub id: String,
    pub line_items: Vec<LineItem>,
    /// Currency of every line item.
    pub currency: Currency,
    pub mode: CheckoutMode,
    pub customer_email: Option<String>,
    pub idempotency_key: Option<String>,
    pub metadata: Metadata,
    /// Creation time in Unix seconds.
    pub created_at: i64,
}

impl Order {
    /// An empty payment-mode order with a fresh id and idempotency key.
    pub fn new(currency: Currency) -> (r: Self)
        ensures
            r.line_items@.len() == 0,
            r.currency == currency,
            r.mode == CheckoutMode::Payment,
            r.customer_email is None,
            r.idempotency_key is Some,
            r.metadata@ == Map::<Seq<char>, Seq<char>>::empty(),
    {
        let id = new_unique_token();
        let key = new_unique_token();
        let created_at = now_unix_seconds();
        Order::with_identity(id, key, currency, created_at)
    }

    /// An empty payment-mode order with the given id, idempotency key and creation time.
    pub fn with_identity(id: String, idempotency_key: String, currency: Currency, created_at: i64) -> (r: Self)
        ensures
            r.id == id,
            r.line_items@.len() == 0,
            r.currency == currency,
            r.mode == CheckoutMode::Payment,
            r.customer_email is None,
            r.idempotency_key == Some(idempotency_key),
            r.metadata@ == Map::<Seq<char>, Seq<char>>::empty(),
            r.created_at == created_at,
    {
        Order {
            id,
            line_items: Vec::new(),
            currency,
            mode: CheckoutMode::Payment,
            customer_email: None,
            idempotency_key: Some(idempotency_key),
            metadata: Metadata::new(),
            created_at,
        }
    }

    /// Appends an item; an item that is not one-time switches the order to
    /// subscription mode, and nothing switches it back.
    pub fn add_item(&mut self, item: LineItem)
        ensures
            final(self).line_items@ == old(self).line_items@.push(item),
            final(self).mode == next_mode(old(self).mode, item.billing_interval),
            final(self).id == old(self).id,
            final(self).currency == old(self).currency,
            final(self).customer_email == old(self).customer_email,
            final(self).idempotency_key == old(self).idempotency_key,
            final(self).metadata@ == old(self).metadata@,
            final(self).created_at == old(self).created_at,
    {
        if !matches!(item.billing_interval, BillingInterval::OneTime) {
            self.mode = CheckoutMode::Subscription;
        }
        self.line_items.push(item);
    }

    /// Appends `quantity` of `product`.
    pub fn add_product(&mut self, product: &Product, quantity: u32)
        ensures
            final(self).line_items@.len() == old(self).line_items@.len() + 1,
            final(self).line_items@.drop_last() == old(self).line_items@,
            final(self).line_items@.last().product_id == product.id,
            final(self).line_items@.last().unit_price == product.price,
            final(self).line_items@.last().quantity == quantity,
            final(self).line_items@.last().billing_interval == product.billing_interval,
            final(self).mode == next_mode(old(self).mode, product.billing_interval),
            final(self).id == old(self).id,
            final(self).currency == old(self).currency,
            final(self).metadata@ == old(self).metadata@,
    {
        self.add_item(LineItem::from_product(product, quantity));
    }

    /// Sum of the line totals, in the order's currency; `None` when a line
    /// total or a running sum does not fit in `i64`.
    pub fn checked_total(&self) -> (r: Option<Price>)
        ensures
            r is Some <==> totals_fit(self.line_items@),
            r matches Some(p) ==> p.amount == items_total(self.line_items@) && p.currency == self.currency,
    {
        let items = &self.line_items;
        let mut sum: i64 = 0;
        let mut i: usize = 0;
        assert(items@.subrange(0, 0) =~= Seq::<LineItem>::empty());
        while i < items.len()
            invariant
                i <= items@.len(),
                items@ == self.line_items@,
                sum == items_total(items@.subrange(0, i as int)),
                forall|j: int| 0 <= j < i ==> i64::MIN <= #[trigger] line_total(items@[j]) <= i64::MAX,
                forall|j: int| 0 <= j <= i ==> i64::MIN <= #[trigger] items_total(items@.subrange(0, j)) <= i64::MAX,
            decreases items@.len() - i,
        {
            let item = &items[i];
            assert(item.unit_price.amount * item.quantity <= 9223372036854775807 * 4294967295) by (nonlinear_arith)
                requires
                    item.unit_price.amount <= 9223372036854775807,
                    0 <= item.quantity <= 4294967295,
            ;
            assert(item.unit_price.amount * item.quantity >= -9223372036854775808 * 4294967295) by (nonlinear_arith)
                requires
                    item.unit_price.amount >= -9223372036854775808,
                    0 <= item.quantity <= 4294967295,
            ;
            let t = item.unit_price.amount as i128 * item.quantity as i128;
            assert(items@.subrange(0, i + 1).drop_last() =~= items@.subrange(0, i as int));
            if t < i64::MIN as i128 || t > i64::MAX as i128 {
                assert(line_total(self.line_items@[i as int]) == t);
                assert(!totals_fit(self.line_items@));
                return None;
            }
            let next = sum as i128 + t;
            assert(items_total(items@.subrange(0, i + 1)) == next);
            if next < i64::MIN as i128 || next > i64::MAX as i128 {
                assert(items_total(self.line_items@.subrange(0, i + 1)) == next);
                assert(!totals_fit(self.line_items@));
                return None;
            }
            sum = next as i64;
            i = i + 1;
        }
        assert(items@.subrange(0, i as int) =~= items@);
        Some(Price { amount: sum, currency: self.currency })
    }

    /// Sum of the line totals, in the order's currency.
    pub fn total(&self) -> (r: Price)
        requires
            totals_fit(self.line_items@),
        ensures
            r.amount == items_total(self.line_items@),
            r.currency == self.currency,
    {
        match self.checked_total() {
            Some(p) => p,
            None => Price { amount: 0, currency: self.currency },
        }
    }

    /// Sets the customer email.
    pub fn with_email(self, email: &str) -> (r: Self)
        ensures
            r.customer_email matches Some(e) && e@ == email@,
            r.line_items == self.line_items,
            r.id == self.id,
            r.mode == self.mode,
            r.currency == self.currency,
            r.idempotency_key == self.idempotency_key,
            r.metadata@ == self.metadata@,
    {
        let mut o = self;
        o.customer_email = Some(String::from_str(email));
        o
    }

    /// Sets the idempotency key.
    pub fn with_idempotency_key(self, key: &str) -> (r: Self)
        ensures
            r.idempotency_key matches Some(k) && k@ == key@,
            r.line_items == self.line_items,
            r.id == self.id,
            r.mode == self.mode,
            r.currency == self.currency,
            r.customer_email == self.customer_email,
            r.metadata@ == self.metadata@,
    {
        let mut o = self;
        o.idempotency_key = Some(String::from_str(key));
        o
    }

    /// Adds one metadata entry.
    pub fn with_metadata(self, key: &str, value: &str) -> (r: Self)
        ensures
            r.metadata@ == self.metadata@.insert(key@, value@),
            r.line_items == self.line_items,
            r.id == self.id,
            r.mode == self.mode,
            r.currency == self.currency,
            r.customer_email == self.customer_email,
            r.idempotency_key == self.idempotency_key,
    {
        let mut o = self;
        o.metadata.insert(String::from_str(key), String::from_str(value));
        o
    }

    /// Whether the order has no line items.
    pub fn is_empty(&self) -> (r: bool)
        ensures
            r == (self.line_items@.len() == 0),
    {
        self.line_items.len() == 0
    }

    /// Sum of the quantities.
    pub fn item_count(&self) -> (r: u32)
        requires
            quantity_sum(self.line_items@) <= u32::MAX,
        ensures
            r == quantity_sum(self.line_items@),
    {
        let items = &self.line_items;
        let mut sum: u32 = 0;
        let mut i: usize = 0;
        assert(items@.subrange(0, 0) =~= Seq::<LineItem>::empty());
        while i < items.len()
            invariant
                i <= items@.len(),
                quantity_sum(items@) <= u32::MAX,
                sum == quantity_sum(items@.subrange(0, i as int)),
            decreases items@.len() - i,
        {
            proof {
                assert(items@.subrange(0, i + 1).drop_last() =~= items@.subrange(0, i as int));
                lemma_quantity_prefix(items@, i + 1);
            }
            sum = sum + items[i].quantity;
            i = i + 1;
        }
        assert(items@.subrange(0, i as int) =~= items@);
        sum
    }
}

/// Adding an item that is not one-time to an order leaves it in subscription
/// mode, whatever its mode was, and adding any item afterwards (one-time
/// included) does not switch it back.
pub proof fn lemma_subscription_mode_sticks(mode0: CheckoutMode, sub_interval: BillingInterval, later: BillingInterval)
    requires
        sub_interval != BillingInterval::OneTime,
    ensures
        next_mode(mode0, sub_interval) == CheckoutMode::Subscription,
        next_mode(next_mode(mode0, sub_interval), later) == CheckoutMode::Subscription,
{
}

/// The mode of an order in `mode` after adding an item billed at `interval`.
pub open spec fn next_mode(mode: CheckoutMode, interval: BillingInterval) -> CheckoutMode {
    if interval != BillingInterval::OneTime { CheckoutMode::Subscription } else { mode }
}

/// The mode of an order in mode `m` after adding `items` in order.
pub open spec fn mode_after(m: CheckoutMode, items: Seq<LineItem>) -> CheckoutMode
    decreases items.len(),
{
    if items.len() == 0 { m } else { next_mode(mode_after(m, items.drop_last()), items.last().billing_interval) }
}

/// Status of a checkout session.
#[derive(Debug, Clone, Copy, PartialEq, Eq, Structural)]
pub enum CheckoutStatus {
    Open,
    Complete,
    Expired,
    Failed,
    Cancelled,
}

impl Default for CheckoutStatus {
    fn default() -> (r: Self)
        ensures
            r == CheckoutStatus::Open,
    {
        CheckoutStatus::Open
    }
}

/// A checkout session created by a provider.
#[derive(Debug, Clone)]
pub struct CheckoutSession {
    pub session_id: String,
    pub order_id: String,
    pub provider: String,
    pub checkout_url: String,
    pub status: CheckoutStatus,
    /// Expiry in Unix seconds.
    pub expires_at: Option<i64>,
    pub payment_intent_id: Option<String>,
    pub customer_id: Option<String>,
    /// Creation time in Unix seconds.
    pub created_at: i64,
}

impl CheckoutSession {
    /// An open session with no expiry, created now.
    pub fn new(session_id: &str, order_id: &str, provider: &str, checkout_url: &str) -> (r: Self)
        ensures
            r.session_id@ == session_id@,
            r.order_id@ == order_id@,
            r.provider@ == provider@,
            r.checkout_url@ == checkout_url@,
            r.status == CheckoutStatus::Open,
            r.expires_at is None,
            r.payment_intent_id is None,
            r.customer_id is None,
    {
        CheckoutSession {
            session_id: String::from_str(session_id),
            order_id: String::from_str(order_id),
            provider: String::from_str(provider),
            checkout_url: String::from_str(checkout_url),
            status: CheckoutStatus::Open,
            expires_at: None,
            payment_intent_id: None,
            customer_id: None,
            created_at: now_unix_seconds(),
        }
    }

    /// Open, and not expired at time `now`.
    pub open spec fn spec_active_at(&self, now: i64) -> bool {
        self.status == CheckoutStatus::Open && match self.expires_at {
            Some(exp) => exp > now,
            None => true,
        }
    }

    /// Whether the session is open and not expired at time `now`.
    pub fn is_active_at(&self, now: i64) -> (r: bool)
        ensures
            r == self.spec_active_at(now),
    {
        matches!(self.status, CheckoutStatus::Open) && match self.expires_at {
            Some(exp) => exp > now,
            None => true,
        }
    }

    /// Whether the session is open and not expired now.
    pub fn is_active(&self) -> (r: bool)
        ensures
            self.status != CheckoutStatus::Open ==> !r,
            self.status == CheckoutStatus::Open && self.expires_at is None ==> r,
    {
        let now = now_unix_seconds();
        self.is_active_at(now)
    }
}

/// Normalized kind of a webhook event.
#[derive(Debug, Clone, PartialEq, Eq)]
pub enum WebhookEventType {
    CheckoutCompleted,
    PaymentSucceeded,
    PaymentFailed,
    SubscriptionCreated,
    SubscriptionCancelled,
    SubscriptionRenewed,
    RefundIssued,
    /// A provider type outside the table, kept as received.
    Unknown(String),
}

/// A provider-neutral webhook event.
#[derive(Debug)]
pub struct WebhookEvent {
    pub event_id: String,
    pub event_type: WebhookEventType,
    pub provider: String,
    pub session_id: Option<String>,
    pub payment_intent_id: Option<String>,
    pub customer_email: Option<String>,
    /// Amount paid in the smallest unit.
    pub amount_paid: Option<i64>,
    pub currency: Option<Currency>,
    /// The provider's event object.
    pub raw_data: Option<Json>,
    /// Event time in Unix seconds.
    pub timestamp: i64,
}

} // verus!

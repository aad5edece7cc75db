//! The provider strategy: webhook verification and normalization, and the
//! checkout-session request it sends.
use vstd::prelude::*;
use vstd::utf8::encode_utf8;
use crate::config::StripeConfig;
use crate::error::{PaymentError, PaymentResult};
use crate::json::{Json, get_string, member, parse_json, json_document, str_member, take_member};
use crate::order::{CheckoutMode, CheckoutSession, CheckoutStatus, LineItem, Order, WebhookEvent, WebhookEventType, now_unix_seconds};
use crate::product::BillingInterval;
use crate::signature::{parse_header_spec, parse_signature_header, constant_time_compare};
use crate::strategy::PaymentStrategy;
use crate::text::{int_text, i64_to_text, u64_to_text, join3, opt_view, str_eq};

verus! {

/// The hexadecimal digit of `d < 16`, lowercase.
pub open spec fn hex_digit(d: int) -> char {
    if d < 10 { (('0' as int) + d) as char } else { (('a' as int) + d - 10) as char }
}

/// Each byte of `b` as two lowercase hexadecimal digits, in order.
pub open spec fn hex_text(b: Seq<u8>) -> Seq<char>
    decreases b.len(),
{
    if b.len() == 0 {
        Seq::<char>::empty()
    } else {
        hex_text(b.drop_last()) + seq![hex_digit(b.last() as int / 16), hex_digit(b.last() as int % 16)]
    }
}

/// The HMAC-SHA256 tag of message `msg` under key `key`.
pub uninterp spec fn hmac_sha256_of(key: Seq<u8>, msg: Seq<u8>) -> Seq<u8>;

/// The text of the bytes `b`, with invalid UTF-8 replaced by U+FFFD.
pub uninterp spec fn utf8_lossy(b: Seq<u8>) -> Seq<char>;

/// Relies on hmac's `Hmac<Sha256>`: `new_from_slice` accepts keys of any
/// length, and `finalize` gives the 32-byte tag of key and message.
#[verifier::external_body]
fn hmac_sha256(key: &[u8], msg: &[u8]) -> (r: Vec<u8>)
    ensures
        r@ == hmac_sha256_of(key@, msg@),
        r@.len() == 32,
{
    let mut mac = <hmac::Hmac<sha2::Sha256> as hmac::Mac>::new_from_slice(key)
        .expect("HMAC accepts keys of any length");
    hmac::Mac::update(&mut mac, msg);
    hmac::Mac::finalize(mac).into_bytes().to_vec()
}

/// Relies on hex::encode: two lowercase hexadecimal digits per byte, in order.
#[verifier::external_body]
fn hex_encode(b: &[u8]) -> (r: String)
    ensures
        r@ == hex_text(b@),
{
    hex::encode(b)
}

/// Relies on String::from_utf8_lossy: the bytes as text, invalid sequences
/// replaced; the result depends on the bytes alone.
#[verifier::external_body]
fn text_lossy(b: &[u8]) -> (r: String)
    ensures
        r@ == utf8_lossy(b@),
{
    String::from_utf8_lossy(b).into_owned()
}

/// Lowercase hex HMAC-SHA256 of the UTF-8 bytes of `message` under the
/// UTF-8 bytes of `secret`.
pub fn compute_hmac_sha256(secret: &str, message: &str) -> (r: String)
    ensures
        r@ == hex_text(hmac_sha256_of(encode_utf8(secret@), encode_utf8(message@))),
{
    let tag = hmac_sha256(secret.as_bytes(), message.as_bytes());
    hex_encode(tag.as_slice())
}

/// Largest accepted distance, in seconds, between a signature's timestamp
/// and the server clock.
pub const TOLERANCE_SECS: i64 = 300;

/// The text that is signed: `<timestamp>.<body as text>`.
pub open spec fn signed_payload(ts: i64, payload: Seq<u8>) -> Seq<char> {
    int_text(ts as int) + seq!['.'] + utf8_lossy(payload)
}

/// The signature expected for `payload` signed at `ts` with `secret`.
pub open spec fn expected_signature(secret: Seq<char>, ts: i64, payload: Seq<u8>) -> Seq<char> {
    hex_text(hmac_sha256_of(encode_utf8(secret), encode_utf8(signed_payload(ts, payload))))
}

/// Whether `ts` lies within the tolerance around `now`.
pub open spec fn within_tolerance(now: i64, ts: i64) -> bool {
    -300 <= now - ts <= 300
}

/// Whether a header is accepted at time `now`: it parses, its timestamp is
/// within tolerance, and one of its `v1` signatures is the expected one.
pub open spec fn signature_accepted(header: Seq<char>, now: i64, secret: Seq<char>, payload: Seq<u8>) -> bool {
    match parse_header_spec(header) {
        Some(h) => within_tolerance(now, h.0) && h.1.contains(expected_signature(secret, h.0, payload)),
        None => false,
    }
}

/// A header whose timestamp lies outside the tolerance is rejected, whatever
/// signatures it carries.
pub proof fn lemma_stale_header_rejected(header: Seq<char>, now: i64, secret: Seq<char>, payload: Seq<u8>)
    requires
        parse_header_spec(header) matches Some(h) && !within_tolerance(now, h.0),
    ensures
        !signature_accepted(header, now, secret, payload),
{
}

/// The timestamp of a parsed header.
pub open spec fn header_time(header: Seq<char>) -> i64 {
    match parse_header_spec(header) {
        Some(h) => h.0,
        None => 0,
    }
}

/// The `v1` signatures of a parsed header.
pub open spec fn header_signatures(header: Seq<char>) -> Seq<Seq<char>> {
    match parse_header_spec(header) {
        Some(h) => h.1,
        None => Seq::empty(),
    }
}

/// Within the tolerance, a header is accepted as soon as any one of its
/// `v1` signatures, at whatever position, is the expected one; and it is
/// rejected when none is.
pub proof fn lemma_any_signature_matches(header: Seq<char>, now: i64, secret: Seq<char>, payload: Seq<u8>, i: int)
    requires
        parse_header_spec(header) is Some,
        within_tolerance(now, header_time(header)),
    ensures
        (0 <= i < header_signatures(header).len()
            && header_signatures(header)[i] == expected_signature(secret, header_time(header), payload))
            ==> signature_accepted(header, now, secret, payload),
        signature_accepted(header, now, secret, payload) ==> exists|j: int|
            0 <= j < header_signatures(header).len()
            && header_signatures(header)[j] == expected_signature(secret, header_time(header), payload),
{
    let sigs = header_signatures(header);
    let e = expected_signature(secret, header_time(header), payload);
    if 0 <= i < sigs.len() && sigs[i] == e {
        assert(sigs.contains(e));
    }
}

/// The envelope of a provider event: id, type, creation time and the event
/// object's members.
pub open spec fn event_envelope(j: Json) -> Option<(Seq<char>, Seq<char>, i64, Seq<(String, Json)>)> {
    match (str_member(j, "id"@), str_member(j, "type"@), j.spec_get("created"@), j.spec_get("data"@)) {
        (Some(id), Some(t), Some(c), Some(d)) => match (c.spec_i64(), d.spec_get("object"@)) {
            (Some(created), Some(Json::Object(m))) => Some((id, t, created, m@)),
            _ => None,
        },
        _ => None,
    }
}

/// Whether `k` is the normalized kind of provider type `t`.
pub open spec fn kind_of(t: Seq<char>, k: WebhookEventType) -> bool {
    if t == "checkout.session.completed"@ {
        k is CheckoutCompleted
    } else if t == "payment_intent.succeeded"@ {
        k is PaymentSucceeded
    } else if t == "payment_intent.payment_failed"@ {
        k is PaymentFailed
    } else if t == "customer.subscription.created"@ {
        k is SubscriptionCreated
    } else if t == "customer.subscription.deleted"@ {
        k is SubscriptionCancelled
    } else if t == "invoice.paid"@ {
        k is SubscriptionRenewed
    } else if t == "charge.refunded"@ {
        k is RefundIssued
    } else {
        k matches WebhookEventType::Unknown(s) && s@ == t
    }
}

/// Whether `t` is one of the provider types of the mapping table.
pub open spec fn known_type(t: Seq<char>) -> bool {
    t == "checkout.session.completed"@ || t == "payment_intent.succeeded"@
        || t == "payment_intent.payment_failed"@ || t == "customer.subscription.created"@
        || t == "customer.subscription.deleted"@ || t == "invoice.paid"@ || t == "charge.refunded"@
}

/// A provider type outside the mapping table normalizes to `Unknown` of
/// that very type string.
pub proof fn lemma_unknown_type_kept(t: Seq<char>, k: WebhookEventType)
    requires
        !known_type(t),
        kind_of(t, k),
    ensures
        k matches WebhookEventType::Unknown(s) && s@ == t,
{
}

/// The normalized kind of a provider event type.
pub fn map_event_type(t: &str) -> (r: WebhookEventType)
    ensures
        kind_of(t@, r),
{
    if str_eq(t, "checkout.session.completed") {
        WebhookEventType::CheckoutCompleted
    } else if str_eq(t, "payment_intent.succeeded") {
        WebhookEventType::PaymentSucceeded
    } else if str_eq(t, "payment_intent.payment_failed") {
        WebhookEventType::PaymentFailed
    } else if str_eq(t, "customer.subscription.created") {
        WebhookEventType::SubscriptionCreated
    } else if str_eq(t, "customer.subscription.deleted") {
        WebhookEventType::SubscriptionCancelled
    } else if str_eq(t, "invoice.paid") {
        WebhookEventType::SubscriptionRenewed
    } else if str_eq(t, "charge.refunded") {
        WebhookEventType::RefundIssued
    } else {
        WebhookEventType::Unknown(String::from_str(t))
    }
}

/// The text of string member `k` of an object's members.
pub open spec fn members_str(m: Seq<(String, Json)>, k: Seq<char>) -> Option<Seq<char>> {
    match member(m, k) {
        Some(v) => v.spec_str(),
        None => None,
    }
}

/// `customer_details.email` of an object's members.
pub open spec fn members_email(m: Seq<(String, Json)>) -> Option<Seq<char>> {
    match member(m, "customer_details"@) {
        Some(cd) => str_member(cd, "email"@),
        None => None,
    }
}

/// The integer member `k` of an object's members.
pub open spec fn members_i64(m: Seq<(String, Json)>, k: Seq<char>) -> Option<i64> {
    match member(m, k) {
        Some(v) => v.spec_i64(),
        None => None,
    }
}

/// Whether `ev` is the normalized form of an event with this envelope,
/// received by the provider `provider`.
pub open spec fn normalized_from(
    ev: WebhookEvent,
    provider: Seq<char>,
    env: (Seq<char>, Seq<char>, i64, Seq<(String, Json)>),
) -> bool {
    &&& ev.event_id@ == env.0
    &&& kind_of(env.1, ev.event_type)
    &&& ev.provider@ == provider
    &&& opt_view(ev.session_id) == members_str(env.3, "id"@)
    &&& opt_view(ev.payment_intent_id) == members_str(env.3, "payment_intent"@)
    &&& opt_view(ev.customer_email) == members_email(env.3)
    &&& ev.amount_paid == members_i64(env.3, "amount_total"@)
    &&& ev.currency is None
    &&& ev.raw_data matches Some(Json::Object(m)) && m@ == env.3
    &&& ev.timestamp == env.2
}

/// Copies the string member `k` out of an object's members.
pub(crate) fn members_string(m: &Vec<(String, Json)>, k: &str) -> (r: Option<String>)
    ensures
        opt_view(r) == members_str(m@, k@),
{
    let mut i: usize = 0;
    assert(m@.skip(0) =~= m@);
    while i < m.len()
        invariant
            i <= m@.len(),
            member(m@, k@) == member(m@.skip(i as int), k@),
        decreases m@.len() - i,
    {
        assert(m@.skip(i as int).skip(1) =~= m@.skip(i + 1));
        assert(m@.skip(i as int)[0] == m@[i as int]);
        if str_eq(m[i].0.as_str(), k) {
            return match m[i].1.as_str() {
                Some(s) => Some(s.clone()),
                None => None,
            };
        }
        i = i + 1;
    }
    assert(m@.skip(i as int).len() == 0);
    None
}

/// The member `k` of an object's members.
pub(crate) fn members_get<'a>(m: &'a Vec<(String, Json)>, k: &str) -> (r: Option<&'a Json>)
    ensures
        r matches Some(v) ==> member(m@, k@) == Some(*v),
        r is None ==> member(m@, k@) is None,
{
    let mut i: usize = 0;
    assert(m@.skip(0) =~= m@);
    while i < m.len()
        invariant
            i <= m@.len(),
            member(m@, k@) == member(m@.skip(i as int), k@),
        decreases m@.len() - i,
    {
        assert(m@.skip(i as int).skip(1) =~= m@.skip(i + 1));
        assert(m@.skip(i as int)[0] == m@[i as int]);
        if str_eq(m[i].0.as_str(), k) {
            return Some(&m[i].1);
        }
        i = i + 1;
    }
    assert(m@.skip(i as int).len() == 0);
    None
}

/// Normalizes a parsed provider event document: fails with a parse error
/// when the envelope is incomplete.
pub fn normalize_event(doc: Json, provider: &str) -> (r: PaymentResult<WebhookEvent>)
    ensures
        r is Ok <==> event_envelope(doc) is Some,
        r matches Ok(ev) ==> normalized_from(ev, provider@, event_envelope(doc)->0),
        r matches Err(e) ==> e is WebhookParseError,
{
    let id = get_string(&doc, "id");
    let t = get_string(&doc, "type");
    let created = match doc.get("created") {
        Some(c) => c.as_i64(),
        None => None,
    };
    let ghost d0 = doc.spec_get("data"@);
    let obj: Option<Vec<(String, Json)>> = match doc {
        Json::Object(env) => match take_member(env, "data") {
            Some(Json::Object(data)) => match take_member(data, "object") {
                Some(Json::Object(o)) => Some(o),
                _ => None,
            },
            _ => None,
        },
        _ => None,
    };
    let parse_error = PaymentError::WebhookParseError(String::from_str("Failed to parse webhook"));
    let (id, t, created, obj) = match (id, t, created, obj) {
        (Some(id), Some(t), Some(c), Some(o)) => (id, t, c, o),
        _ => return Err(parse_error),
    };
    let event_type = map_event_type(t.as_str());
    let session_id = members_string(&obj, "id");
    let payment_intent_id = members_string(&obj, "payment_intent");
    let customer_email = match members_get(&obj, "customer_details") {
        Some(cd) => get_string(cd, "email"),
        None => None,
    };
    let amount_paid = match members_get(&obj, "amount_total") {
        Some(v) => v.as_i64(),
        None => None,
    };
    Ok(WebhookEvent {
        event_id: id,
        event_type,
        provider: String::from_str(provider),
        session_id,
        payment_intent_id,
        customer_email,
        amount_paid,
        currency: None,
        raw_data: Some(Json::Object(obj)),
        timestamp: created,
    })
}

/// Recurrence of a provider price.
#[derive(Debug, Clone)]
pub struct StripeRecurring {
    pub interval: String,
    pub interval_count: i64,
}

/// Product part of a provider price.
#[derive(Debug, Clone)]
pub struct StripeProductData {
    pub name: String,
    pub description: Option<String>,
    pub images: Option<Vec<String>>,
}

/// An inline provider price.
#[derive(Debug, Clone)]
pub struct StripePriceData {
    pub currency: String,
    pub unit_amount: i64,
    pub product_data: StripeProductData,
    pub recurring: Option<StripeRecurring>,
}

/// A provider line item.
#[derive(Debug, Clone)]
pub struct StripeLineItem {
    pub price_data: StripePriceData,
    pub quantity: i64,
}

/// The provider's name of a billing interval; none for one-time.
pub open spec fn interval_name(b: BillingInterval) -> Option<Seq<char>> {
    match b {
        BillingInterval::OneTime => None,
        BillingInterval::Weekly => Some("week"@),
        BillingInterval::Monthly => Some("month"@),
        BillingInterval::Yearly => Some("year"@),
    }
}

/// Whether `s` is the provider line item of `item`.
pub open spec fn line_item_of(s: StripeLineItem, item: LineItem) -> bool {
    &&& s.price_data.currency@ == item.unit_price.currency.spec_code()
    &&& s.price_data.unit_amount == item.unit_price.amount
    &&& s.price_data.product_data.name == item.name
    &&& s.price_data.product_data.description == item.description
    &&& (match item.image_url {
        Some(u) => s.price_data.product_data.images matches Some(v) && v@ == seq![u],
        None => s.price_data.product_data.images is None,
    })
    &&& (match interval_name(item.billing_interval) {
        Some(n) => s.price_data.recurring matches Some(r) && r.interval@ == n && r.interval_count == 1,
        None => s.price_data.recurring is None,
    })
    &&& s.quantity == item.quantity as i64
}

/// The provider's name of a checkout mode.
pub open spec fn mode_name(m: CheckoutMode) -> Seq<char> {
    match m {
        CheckoutMode::Payment => "payment"@,
        CheckoutMode::Subscription => "subscription"@,
        CheckoutMode::Setup => "setup"@,
    }
}

/// The views of form pairs.
pub open spec fn pairs_view(v: Seq<(String, String)>) -> Seq<(Seq<char>, Seq<char>)> {
    v.map_values(|p: (String, String)| (p.0@, p.1@))
}

/// The form key `line_items[<i>]<suffix>`.
pub open spec fn item_key(i: int, suffix: Seq<char>) -> Seq<char> {
    "line_items["@ + int_text(i) + "]"@ + suffix
}

/// Form fields of the images of line item `i`.
pub open spec fn image_params(i: int, imgs: Seq<String>) -> Seq<(Seq<char>, Seq<char>)>
    decreases imgs.len(),
{
    if imgs.len() == 0 {
        Seq::empty()
    } else {
        image_params(i, imgs.drop_last()).push((
            item_key(i, "[price_data][product_data][images]["@ + int_text(imgs.len() - 1) + "]"@),
            imgs.last()@,
        ))
    }
}

/// Form fields of provider line item `s` at position `i`.
pub open spec fn item_params(i: int, s: StripeLineItem) -> Seq<(Seq<char>, Seq<char>)> {
    let p = s.price_data;
    seq![
        (item_key(i, "[price_data][currency]"@), p.currency@),
        (item_key(i, "[price_data][unit_amount]"@), int_text(p.unit_amount as int)),
        (item_key(i, "[price_data][product_data][name]"@), p.product_data.name@),
    ] + (match p.product_data.description {
        Some(d) => seq![(item_key(i, "[price_data][product_data][description]"@), d@)],
        None => Seq::empty(),
    }) + (match p.product_data.images {
        Some(v) => image_params(i, v@),
        None => Seq::empty(),
    }) + (match p.recurring {
        Some(r) => seq![
            (item_key(i, "[price_data][recurring][interval]"@), r.interval@),
            (item_key(i, "[price_data][recurring][interval_count]"@), int_text(r.interval_count as int)),
        ],
        None => Seq::empty(),
    }) + seq![(item_key(i, "[quantity]"@), int_text(s.quantity as int))]
}

/// Form fields of all provider line items, in order.
pub open spec fn items_params(items: Seq<StripeLineItem>) -> Seq<(Seq<char>, Seq<char>)>
    decreases items.len(),
{
    if items.len() == 0 {
        Seq::empty()
    } else {
        items_params(items.drop_last()) + item_params(items.len() - 1, items.last())
    }
}

/// Form fields of metadata pairs, in order.
pub open spec fn metadata_params(e: Seq<(String, String)>) -> Seq<(Seq<char>, Seq<char>)>
    decreases e.len(),
{
    if e.len() == 0 {
        Seq::empty()
    } else {
        metadata_params(e.drop_last()).push(("metadata["@ + e.last().0@ + "]"@, e.last().1@))
    }
}

/// The whole checkout form of `order` with its provider line items.
pub open spec fn checkout_params(
    order: Order,
    items: Seq<StripeLineItem>,
    success_url: Seq<char>,
    cancel_url: Seq<char>,
) -> Seq<(Seq<char>, Seq<char>)> {
    seq![("mode"@, mode_name(order.mode)), ("success_url"@, success_url), ("cancel_url"@, cancel_url)]
        + items_params(items)
        + (match order.customer_email {
            Some(e) => seq![("customer_email"@, e@)],
            None => Seq::empty(),
        })
        + seq![("metadata[order_id]"@, order.id@)]
        + metadata_params(order.metadata.spec_entries())
}

fn push_pair(form: &mut Vec<(String, String)>, k: String, v: String)
    ensures
        pairs_view(final(form)@) == pairs_view(old(form)@).push((k@, v@)),
{
    form.push((k, v));
    assert(pairs_view(form@) =~= pairs_view(old(form)@).push((k@, v@)));
}

fn line_key(i: usize, suffix: &str) -> (r: String)
    ensures
        r@ == item_key(i as int, suffix@),
{
    let n = u64_to_text(i as u64);
    proof { reveal_strlit("line_items["); reveal_strlit("]"); }
    let r = String::from_str("line_items[").concat(n.as_str()).concat("]").concat(suffix);
    assert(r@ =~= item_key(i as int, suffix@));
    r
}

fn push_item_params(form: &mut Vec<(String, String)>, i: usize, s: &StripeLineItem)
    ensures
        pairs_view(final(form)@) == pairs_view(old(form)@) + item_params(i as int, *s),
{
    let ghost start = pairs_view(form@);
    let p = &s.price_data;
    push_pair(form, line_key(i, "[price_data][currency]"), p.currency.clone());
    push_pair(form, line_key(i, "[price_data][unit_amount]"), i64_to_text(p.unit_amount));
    push_pair(form, line_key(i, "[price_data][product_data][name]"), p.product_data.name.clone());
    let ghost base = pairs_view(form@);
    assert(base =~= start + seq![
        (item_key(i as int, "[price_data][currency]"@), p.currency@),
        (item_key(i as int, "[price_data][unit_amount]"@), int_text(p.unit_amount as int)),
        (item_key(i as int, "[price_data][product_data][name]"@), p.product_data.name@),
    ]);
    if let Some(d) = &p.product_data.description {
        push_pair(form, line_key(i, "[price_data][product_data][description]"), d.clone());
    }
    let ghost after_desc = pairs_view(form@);
    assert(after_desc =~= base + (match p.product_data.description {
        Some(d) => seq![(item_key(i as int, "[price_data][product_data][description]"@), d@)],
        None => Seq::<(Seq<char>, Seq<char>)>::empty(),
    }));
    if let Some(imgs) = &p.product_data.images {
        let mut j: usize = 0;
        assert(imgs@.subrange(0, 0) =~= Seq::<String>::empty());
        while j < imgs.len()
            invariant
                j <= imgs@.len(),
                pairs_view(form@) == after_desc + image_params(i as int, imgs@.subrange(0, j as int)),
            decreases imgs@.len() - j,
        {
            let ghost sub = imgs@.subrange(0, j + 1);
            assert(sub.drop_last() =~= imgs@.subrange(0, j as int));
            let n = u64_to_text(j as u64);
            proof { reveal_strlit("[price_data][product_data][images]["); reveal_strlit("]"); }
            let suffix = join3("[price_data][product_data][images][", n.as_str(), "]");
            push_pair(form, line_key(i, suffix.as_str()), imgs[j].clone());
            j = j + 1;
        }
        assert(imgs@.subrange(0, j as int) =~= imgs@);
    }
    let ghost after_img = pairs_view(form@);
    assert(after_img =~= after_desc + (match p.product_data.images {
        Some(v) => image_params(i as int, v@),
        None => Seq::<(Seq<char>, Seq<char>)>::empty(),
    }));
    if let Some(r) = &p.recurring {
        push_pair(form, line_key(i, "[price_data][recurring][interval]"), r.interval.clone());
        push_pair(form, line_key(i, "[price_data][recurring][interval_count]"), i64_to_text(r.interval_count));
    }
    let ghost after_rec = pairs_view(form@);
    assert(after_rec =~= after_img + (match p.recurring {
        Some(r) => seq![
            (item_key(i as int, "[price_data][recurring][interval]"@), r.interval@),
            (item_key(i as int, "[price_data][recurring][interval_count]"@), int_text(r.interval_count as int)),
        ],
        None => Seq::<(Seq<char>, Seq<char>)>::empty(),
    }));
    push_pair(form, line_key(i, "[quantity]"), i64_to_text(s.quantity));
    assert(pairs_view(form@) =~= start + item_params(i as int, *s));
}

/// An optional string member as a lenient reader takes it: absent or null
/// is `Some(None)`, a string is `Some(Some(text))`, anything else `None`.
pub open spec fn optional_str(j: Json, k: Seq<char>) -> Option<Option<Seq<char>>> {
    match j.spec_get(k) {
        None => Some(None),
        Some(Json::Null) => Some(None),
        Some(Json::Str(s)) => Some(Some(s@)),
        _ => None,
    }
}

/// An optional integer member: absent or null is `Some(None)`, an `i64`
/// is `Some(Some(n))`, anything else `None`.
pub open spec fn optional_i64(j: Json, k: Seq<char>) -> Option<Option<i64>> {
    match j.spec_get(k) {
        None => Some(None),
        Some(Json::Null) => Some(None),
        Some(Json::Number(Some(n))) => Some(Some(n)),
        _ => None,
    }
}

fn read_optional_str(j: &Json, k: &str) -> (r: Option<Option<String>>)
    ensures
        (match r {
            Some(o) => Some(opt_view(o)),
            None => None,
        }) == optional_str(*j, k@),
{
    match j.get(k) {
        None => Some(None),
        Some(Json::Null) => Some(None),
        Some(Json::Str(s)) => Some(Some(s.clone())),
        _ => None,
    }
}

fn read_optional_i64(j: &Json, k: &str) -> (r: Option<Option<i64>>)
    ensures
        r == optional_i64(*j, k@),
{
    match j.get(k) {
        None => Some(None),
        Some(Json::Null) => Some(None),
        Some(Json::Number(Some(n))) => Some(Some(*n)),
        _ => None,
    }
}

/// The fields of a created checkout session in a response document: id,
/// URL, and the optional payment intent, customer and expiry.
pub open spec fn session_fields(j: Json) -> Option<(Seq<char>, Seq<char>, Option<Seq<char>>, Option<Seq<char>>, Option<i64>)> {
    match (str_member(j, "id"@), str_member(j, "url"@), optional_str(j, "payment_intent"@),
        optional_str(j, "customer"@), optional_i64(j, "expires_at"@)) {
        (Some(id), Some(url), Some(pi), Some(cu), Some(ex)) => Some((id, url, pi, cu, ex)),
        _ => None,
    }
}

/// The message of a provider error document: `error.message`.
pub open spec fn error_message(j: Json) -> Option<Seq<char>> {
    match j.spec_get("error"@) {
        Some(e) => str_member(e, "message"@),
        None => None,
    }
}

/// The checkout-session strategy of the provider.
#[derive(Debug, Clone)]
pub struct StripeCheckoutStrategy {
    pub config: StripeConfig,
}

impl PaymentStrategy for StripeCheckoutStrategy {
    open spec fn spec_provider_name(&self) -> Seq<char> {
        "stripe"@
    }

    fn provider_name(&self) -> (r: &'static str) {
        "stripe"
    }

    fn supports_subscriptions(&self) -> bool {
        true
    }
}

impl StripeCheckoutStrategy {
    /// A strategy using `config`.
    pub fn new(config: StripeConfig) -> (r: Self)
        ensures
            r.config == config,
    {
        StripeCheckoutStrategy { config }
    }

    /// The provider's name of a checkout mode.
    pub fn stripe_mode(mode: CheckoutMode) -> (r: &'static str)
        ensures
            r@ == mode_name(mode),
    {
        match mode {
            CheckoutMode::Payment => "payment",
            CheckoutMode::Subscription => "subscription",
            CheckoutMode::Setup => "setup",
        }
    }

    /// The provider line items of an order, one per line item, in order.
    pub fn build_line_items(&self, order: &Order) -> (r: Vec<StripeLineItem>)
        ensures
            r@.len() == order.line_items@.len(),
            forall|i: int| 0 <= i < r@.len() ==> line_item_of(#[trigger] r@[i], order.line_items@[i]),
    {
        let mut r: Vec<StripeLineItem> = Vec::new();
        let mut i: usize = 0;
        while i < order.line_items.len()
            invariant
                i <= order.line_items@.len(),
                r@.len() == i,
                forall|j: int| 0 <= j < i ==> line_item_of(#[trigger] r@[j], order.line_items@[j]),
            decreases order.line_items@.len() - i,
        {
            let item = &order.line_items[i];
            let recurring = match item.billing_interval {
                BillingInterval::OneTime => None,
                BillingInterval::Weekly => Some(StripeRecurring { interval: String::from_str("week"), interval_count: 1 }),
                BillingInterval::Monthly => Some(StripeRecurring { interval: String::from_str("month"), interval_count: 1 }),
                BillingInterval::Yearly => Some(StripeRecurring { interval: String::from_str("year"), interval_count: 1 }),
            };
            let images = match &item.image_url {
                Some(u) => {
                    let mut v: Vec<String> = Vec::new();
                    v.push(u.clone());
                    assert(v@ =~= seq![*u]);
                    Some(v)
                },
                None => None,
            };
            let description = match &item.description {
                Some(d) => Some(d.clone()),
                None => None,
            };
            let s = StripeLineItem {
                price_data: StripePriceData {
                    currency: String::from_str(item.unit_price.currency.as_str()),
                    unit_amount: item.unit_price.amount,
                    product_data: StripeProductData { name: item.name.clone(), description, images },
                    recurring,
                },
                quantity: item.quantity as i64,
            };
            r.push(s);
            i = i + 1;
        }
        r
    }

    /// The form of a checkout-session request: mode and URLs, each line
    /// item's fields, the customer email when known, then the order id and
    /// the order's metadata. An order without items is an invalid request.
    pub fn checkout_form(&self, order: &Order, success_url: &str, cancel_url: &str) -> (r: PaymentResult<Vec<(String, String)>>)
        ensures
            r is Err <==> order.line_items@.len() == 0,
            r matches Err(e) ==> e is InvalidRequest,
            r matches Ok(form) ==> exists|items: Seq<StripeLineItem>|
                items.len() == order.line_items@.len()
                && (forall|i: int| 0 <= i < items.len() ==> line_item_of(#[trigger] items[i], order.line_items@[i]))
                && pairs_view(form@) == checkout_params(*order, items, success_url@, cancel_url@),
    {
        if order.is_empty() {
            return Err(PaymentError::InvalidRequest(String::from_str("Order has no items")));
        }
        let line_items = self.build_line_items(order);
        let mut form: Vec<(String, String)> = Vec::new();
        push_pair(&mut form, String::from_str("mode"), String::from_str(Self::stripe_mode(order.mode)));
        push_pair(&mut form, String::from_str("success_url"), String::from_str(success_url));
        push_pair(&mut form, String::from_str("cancel_url"), String::from_str(cancel_url));
        let ghost head = pairs_view(form@);
        let mut i: usize = 0;
        assert(line_items@.subrange(0, 0) =~= Seq::<StripeLineItem>::empty());
        while i < line_items.len()
            invariant
                i <= line_items@.len(),
                pairs_view(form@) == head + items_params(line_items@.subrange(0, i as int)),
            decreases line_items@.len() - i,
        {
            let ghost sub = line_items@.subrange(0, i + 1);
            assert(sub.drop_last() =~= line_items@.subrange(0, i as int));
            push_item_params(&mut form, i, &line_items[i]);
            assert(pairs_view(form@) =~= head + items_params(sub));
            i = i + 1;
        }
        assert(line_items@.subrange(0, i as int) =~= line_items@);
        if let Some(email) = &order.customer_email {
            push_pair(&mut form, String::from_str("customer_email"), email.clone());
        }
        push_pair(&mut form, String::from_str("metadata[order_id]"), order.id.clone());
        let ghost mid = pairs_view(form@);
        let entries = order.metadata.entries();
        let mut k: usize = 0;
        assert(entries@.subrange(0, 0) =~= Seq::<(String, String)>::empty());
        while k < entries.len()
            invariant
                k <= entries@.len(),
                pairs_view(form@) == mid + metadata_params(entries@.subrange(0, k as int)),
            decreases entries@.len() - k,
        {
            let ghost sub = entries@.subrange(0, k + 1);
            assert(sub.drop_last() =~= entries@.subrange(0, k as int));
            proof { reveal_strlit("metadata["); reveal_strlit("]"); }
            let key = join3("metadata[", entries[k].0.as_str(), "]");
            push_pair(&mut form, key, entries[k].1.clone());
            assert(pairs_view(form@) =~= mid + metadata_params(sub));
            k = k + 1;
        }
        assert(entries@.subrange(0, k as int) =~= entries@);
        assert(pairs_view(form@) =~= checkout_params(*order, line_items@, success_url@, cancel_url@));
        Ok(form)
    }

    /// The session that a checkout-session response describes, for `order`,
    /// at time `now`. A non-2xx status is a provider error carrying the
    /// provider's message when the body has one; a 2xx body without the
    /// session fields is a serialization error.
    pub fn session_from_response(order: &Order, status: u16, body: &str, now: i64) -> (r: PaymentResult<CheckoutSession>)
        ensures
            !(200 <= status <= 299) ==> (r matches Err(e) && e is ProviderError),
            !(200 <= status <= 299) ==> (match json_document(encode_utf8(body@)) {
                Some(doc) => match error_message(doc) {
                    Some(m) => r matches Err(PaymentError::ProviderError { provider, message }) && provider@ == "stripe"@ && message@ == m,
                    None => true,
                },
                None => true,
            }),
            200 <= status <= 299 ==> (match json_document(encode_utf8(body@)) {
                Some(doc) => match session_fields(doc) {
                    Some(f) => r matches Ok(s) && s.session_id@ == f.0 && s.checkout_url@ == f.1
                        && opt_view(s.payment_intent_id) == f.2 && opt_view(s.customer_id) == f.3
                        && s.expires_at == f.4 && s.order_id == order.id && s.provider@ == "stripe"@
                        && s.status == CheckoutStatus::Open && s.created_at == now,
                    None => r matches Err(e) && e is Serialization,
                },
                None => r matches Err(e) && e is Serialization,
            }),
    {
        let parsed = parse_json(body.as_bytes());
        if status < 200 || status > 299 {
            if let Some(doc) = &parsed {
                if let Some(e) = doc.get("error") {
                    if let Some(m) = get_string(e, "message") {
                        return Err(PaymentError::ProviderError { provider: String::from_str("stripe"), message: m });
                    }
                }
            }
            let code = u64_to_text(status as u64);
            let message = join3("HTTP ", code.as_str(), ": ").concat(body);
            return Err(PaymentError::ProviderError { provider: String::from_str("stripe"), message });
        }
        let serialization_error = PaymentError::Serialization(String::from_str("Failed to parse Stripe response"));
        let doc = match parsed {
            Some(d) => d,
            None => return Err(serialization_error),
        };
        let id = get_string(&doc, "id");
        let url = get_string(&doc, "url");
        let pi = read_optional_str(&doc, "payment_intent");
        let cu = read_optional_str(&doc, "customer");
        let ex = read_optional_i64(&doc, "expires_at");
        match (id, url, pi, cu, ex) {
            (Some(id), Some(url), Some(pi), Some(cu), Some(ex)) => Ok(CheckoutSession {
                session_id: id,
                order_id: order.id.clone(),
                provider: String::from_str("stripe"),
                checkout_url: url,
                status: CheckoutStatus::Open,
                expires_at: ex,
                payment_intent_id: pi,
                customer_id: cu,
                created_at: now,
            }),
            _ => Err(serialization_error),
        }
    }

    /// The idempotency key sent with a checkout request: the order's key,
    /// else its id.
    pub fn idempotency_key(order: &Order) -> (r: String)
        ensures
            r@ == (match order.idempotency_key {
                Some(k) => k@,
                None => order.id@,
            }),
    {
        match &order.idempotency_key {
            Some(k) => k.clone(),
            None => order.id.clone(),
        }
    }

    /// Verifies a webhook at time `now` (Unix seconds) and normalizes it.
    /// Any failure of the signature check is a verification failure; a body
    /// without a complete event envelope is a parse error.
    pub fn verify_webhook_at(&self, payload: &[u8], signature: &str, now: i64) -> (r: PaymentResult<WebhookEvent>)
        ensures
            !signature_accepted(signature@, now, self.config.webhook_secret@, payload@)
                ==> (r matches Err(e) && e is WebhookVerificationFailed),
            signature_accepted(signature@, now, self.config.webhook_secret@, payload@) ==> (match json_document(payload@) {
                Some(doc) => match event_envelope(doc) {
                    Some(env) => r matches Ok(ev) && normalized_from(ev, "stripe"@, env),
                    None => r matches Err(e) && e is WebhookParseError,
                },
                None => r matches Err(e) && e is WebhookParseError,
            }),
    {
        let header = parse_signature_header(signature)?;
        let ts = header.timestamp;
        let diff = now as i128 - ts as i128;
        if diff > 300 || diff < -300 {
            return Err(PaymentError::WebhookVerificationFailed(String::from_str("Timestamp outside tolerance")));
        }
        let body = text_lossy(payload);
        let ts_text = i64_to_text(ts);
        let signed = ts_text.concat(".").concat(body.as_str());
        proof { reveal_strlit("."); }
        assert(signed@ =~= signed_payload(ts, payload@));
        let expected = compute_hmac_sha256(self.config.webhook_secret.as_str(), signed.as_str());
        let mut valid = false;
        let mut i: usize = 0;
        while i < header.signatures.len()
            invariant
                i <= header.signatures@.len(),
                valid <==> exists|j: int| 0 <= j < i && #[trigger] header.signatures@[j]@ == expected@,
            decreases header.signatures@.len() - i,
        {
            if constant_time_compare(header.signatures[i].as_str(), expected.as_str()) {
                valid = true;
            }
            i = i + 1;
        }
        let ghost sigs = crate::signature::views(header.signatures@);
        assert(valid <==> sigs.contains(expected@)) by {
            if valid {
                let j = choose|j: int| 0 <= j < i && #[trigger] header.signatures@[j]@ == expected@;
                assert(sigs[j] == expected@);
            }
            if sigs.contains(expected@) {
                let j = choose|j: int| 0 <= j < sigs.len() && sigs[j] == expected@;
                assert(header.signatures@[j]@ == expected@);
            }
        }
        if !valid {
            return Err(PaymentError::WebhookVerificationFailed(String::from_str("Signature mismatch")));
        }
        match parse_json(payload) {
            Some(doc) => normalize_event(doc, "stripe"),
            None => Err(PaymentError::WebhookParseError(String::from_str("Failed to parse webhook"))),
        }
    }

    /// Verifies a webhook against the server clock and normalizes it.
    /// Whatever the clock reads, an event comes back only for a header
    /// accepted at that time and a body with a complete envelope.
    pub fn verify_webhook(&self, payload: &[u8], signature: &str) -> (r: PaymentResult<WebhookEvent>)
        ensures
            parse_header_spec(signature@) is None ==> (r matches Err(e) && e is WebhookVerificationFailed),
            r matches Ok(ev) ==> exists|now: i64| #[trigger] signature_accepted(signature@, now, self.config.webhook_secret@, payload@)
                && (json_document(payload@) matches Some(doc) && event_envelope(doc) matches Some(env)
                && normalized_from(ev, "stripe"@, env)),
            r matches Err(e) ==> (e is WebhookVerificationFailed || e is WebhookParseError),
    {
        let now = now_unix_seconds();
        let r = self.verify_webhook_at(payload, signature, now);
        assert(r is Ok ==> signature_accepted(signature@, now, self.config.webhook_secret@, payload@));
        r
    }
}

} // verus!

//! Client-side cart helpers: line totals, cart totals, price text and
//! product-id validation.
use vstd::prelude::*;
use vstd::string::StringSliceAdditionalSpecFns;
use crate::product::{Currency, format_amount, price_text};

verus! {

/// Whether `c` is alphabetic or numeric in Unicode's sense.
pub uninterp spec fn alphanumeric(c: char) -> bool;

/// Relies on char::is_alphanumeric: Unicode alphabetic or numeric; the
/// answer depends on the character alone.
#[verifier::external_body]
fn is_alphanumeric(c: char) -> (r: bool)
    ensures
        r == alphanumeric(c),
{
    c.is_alphanumeric()
}

/// An item of a browser cart.
#[derive(Debug, Clone)]
pub struct WasmCartItem {
    product_id: String,
    name: String,
    price_cents: i64,
    quantity: u32,
}

/// Price times quantity of a cart item.
pub open spec fn cart_line_total(price_cents: i64, quantity: u32) -> int {
    price_cents * quantity
}

impl WasmCartItem {
    /// A cart item.
    pub fn new(product_id: String, name: String, price_cents: i64, quantity: u32) -> (r: Self)
        ensures
            r.spec_product_id() == product_id@,
            r.spec_name() == name@,
            r.spec_price_cents() == price_cents,
            r.spec_quantity() == quantity,
    {
        WasmCartItem { product_id, name, price_cents, quantity }
    }

    pub closed spec fn spec_product_id(&self) -> Seq<char> {
        self.product_id@
    }

    pub closed spec fn spec_name(&self) -> Seq<char> {
        self.name@
    }

    pub closed spec fn spec_price_cents(&self) -> i64 {
        self.price_cents
    }

    pub closed spec fn spec_quantity(&self) -> u32 {
        self.quantity
    }

    /// The product id.
    pub fn product_id(&self) -> (r: String)
        ensures
            r@ == self.spec_product_id(),
    {
        self.product_id.clone()
    }

    /// The display name.
    pub fn name(&self) -> (r: String)
        ensures
            r@ == self.spec_name(),
    {
        self.name.clone()
    }

    /// Unit price in cents.
    pub fn price_cents(&self) -> (r: i64)
        ensures
            r == self.spec_price_cents(),
    {
        self.price_cents
    }

    /// Quantity.
    pub fn quantity(&self) -> (r: u32)
        ensures
            r == self.spec_quantity(),
    {
        self.quantity
    }

    /// Price times quantity, in cents.
    pub fn total_cents(&self) -> (r: i64)
        requires
            i64::MIN <= cart_line_total(self.spec_price_cents(), self.spec_quantity()) <= i64::MAX,
        ensures
            r == cart_line_total(self.spec_price_cents(), self.spec_quantity()),
    {
        self.price_cents * self.quantity as i64
    }

    /// The unit price as dollars, such as `$19.99`.
    pub fn format_price(&self) -> (r: String)
        ensures
            r@ == price_text(self.spec_price_cents() as int, Currency::USD),
    {
        format_amount(self.price_cents, Currency::USD)
    }

    /// The line total as dollars.
    pub fn format_total(&self) -> (r: String)
        requires
            i64::MIN <= cart_line_total(self.spec_price_cents(), self.spec_quantity()) <= i64::MAX,
        ensures
            r@ == price_text(cart_line_total(self.spec_price_cents(), self.spec_quantity()), Currency::USD),
    {
        format_amount(self.total_cents(), Currency::USD)
    }
}

/// Sum of the line totals of a cart.
pub open spec fn cart_total(items: Seq<WasmCartItem>) -> int
    decreases items.len(),
{
    if items.len() == 0 {
        0
    } else {
        cart_total(items.drop_last()) + cart_line_total(items.last().spec_price_cents(), items.last().spec_quantity())
    }
}

/// The sum of the cart's line totals; `None` when a line total or a running
/// sum leaves `i64`.
pub fn calculate_cart_total(items: &Vec<WasmCartItem>) -> (r: Option<i64>)
    ensures
        r matches Some(t) ==> t == cart_total(items@),
        r is None ==> (exists|i: int| 0 <= i <= items@.len()
            && !(i64::MIN <= #[trigger] cart_total(items@.subrange(0, i)) <= i64::MAX))
            || (exists|i: int| 0 <= i < items@.len()
            && !(i64::MIN <= cart_line_total((#[trigger] items@[i]).spec_price_cents(), items@[i].spec_quantity()) <= i64::MAX)),
{
    let mut sum: i64 = 0;
    let mut i: usize = 0;
    assert(items@.subrange(0, 0) =~= Seq::<WasmCartItem>::empty());
    while i < items.len()
        invariant
            i <= items@.len(),
            sum == cart_total(items@.subrange(0, i as int)),
        decreases items@.len() - i,
    {
        let item = &items[i];
        let p = item.price_cents();
        let q = item.quantity();
        assert(p * q <= 9223372036854775807 * 4294967295) by (nonlinear_arith)
            requires
                p <= 9223372036854775807,
                0 <= q <= 4294967295,
        ;
        assert(p * q >= -9223372036854775808 * 4294967295) by (nonlinear_arith)
            requires
                p >= -9223372036854775808,
                0 <= q <= 4294967295,
        ;
        let t = p as i128 * q as i128;
        let ghost sub = items@.subrange(0, i + 1);
        assert(sub.drop_last() =~= items@.subrange(0, i as int));
        if t < i64::MIN as i128 || t > i64::MAX as i128 {
            assert(!(i64::MIN <= cart_line_total(items@[i as int].spec_price_cents(), items@[i as int].spec_quantity()) <= i64::MAX));
            return None;
        }
        let next = sum as i128 + t;
        if next < i64::MIN as i128 || next > i64::MAX as i128 {
            assert(!(i64::MIN <= cart_total(sub) <= i64::MAX));
            return None;
        }
        sum = next as i64;
        i = i + 1;
    }
    assert(items@.subrange(0, i as int) =~= items@);
    Some(sum)
}

/// Cents as dollars, such as `$19.99`.
pub fn format_price(cents: i64) -> (r: String)
    ensures
        r@ == price_text(cents as int, Currency::USD),
{
    format_amount(cents, Currency::USD)
}

/// Whether `c` may appear in a product id.
pub open spec fn id_char(c: char) -> bool {
    alphanumeric(c) || c == '-' || c == '_'
}

/// A product id is valid when it is not empty, has at most 100 bytes, and
/// holds only alphanumeric characters, `-` and `_`.
pub fn validate_product_id(product_id: &str) -> (r: bool)
    ensures
        r == (product_id@.len() > 0 && product_id.spec_bytes().len() <= 100
            && forall|i: int| 0 <= i < product_id@.len() ==> id_char(#[trigger] product_id@[i])),
{
    if product_id.unicode_len() == 0 || product_id.as_bytes().len() > 100 {
        return false;
    }
    let n = product_id.unicode_len();
    let mut i: usize = 0;
    while i < n
        invariant
            n == product_id@.len(),
            n > 0,
            product_id.spec_bytes().len() <= 100,
            i <= n,
            forall|j: int| 0 <= j < i ==> id_char(#[trigger] product_id@[j]),
        decreases n - i,
    {
        let c = product_id.get_char(i);
        if !(is_alphanumeric(c) || c == '-' || c == '_') {
            return false;
        }
        i = i + 1;
    }
    true
}

} // verus!

//! Currencies, exact decimal amounts, prices, products and the catalog.
use vstd::prelude::*;
use vstd::arithmetic::div_mod::{lemma_div_multiples_vanish, lemma_fundamental_div_mod, lemma_mod_multiples_basic};
use crate::metadata::Metadata;
use crate::text::{int_text, nat_text, digit_char, i64_to_text, u64_to_text, digit_str, join2};

verus! {

/// Supported currencies (ISO 4217).
#[derive(Debug, Clone, Copy, PartialEq, Eq, Hash, Structural)]
pub enum Currency {
    USD,
    EUR,
    GBP,
    JPY,
    CAD,
    AUD,
    CHF,
    MXN,
}

/// Ten to the power `n`.
pub open spec fn pow10(n: nat) -> int
    decreases n,
{
    if n == 0 { 1 } else { 10 * pow10((n - 1) as nat) }
}

/// A decimal amount: `units / 10^scale`.
#[derive(Debug, Clone, Copy, PartialEq, Eq, Structural)]
pub struct Decimal {
    pub units: i64,
    pub scale: u8,
}

impl Decimal {
    /// The amount `units / 10^scale`.
    pub fn new(units: i64, scale: u8) -> (r: Self)
        ensures
            r.units == units,
            r.scale == scale,
    {
        Decimal { units, scale }
    }

    /// Whether two decimals denote the same number.
    pub open spec fn same_value(self, other: Decimal) -> bool {
        self.units * pow10(other.scale as nat) == other.units * pow10(self.scale as nat)
    }
}

/// `a / b` rounded to the nearest integer, halves away from zero.
pub open spec fn round_half_away(a: int, b: int) -> int
    recommends
        b > 0,
{
    let mag = if a < 0 { -a } else { a };
    let q = mag / b;
    let m = if 2 * (mag % b) >= b { q + 1 } else { q };
    if a < 0 { -m } else { m }
}

/// `a` in units of `10^-places`, rounded halves away from zero.
pub open spec fn smallest_units(a: Decimal, places: nat) -> int {
    if a.scale <= places {
        a.units * pow10((places - a.scale) as nat)
    } else {
        round_half_away(a.units as int, pow10((a.scale - places) as nat))
    }
}

proof fn lemma_pow10_pos(n: nat)
    ensures
        pow10(n) >= 1,
    decreases n,
{
    if n > 0 { lemma_pow10_pos((n - 1) as nat); }
}

proof fn lemma_pow10_add(a: nat, b: nat)
    ensures
        pow10(a + b) == pow10(a) * pow10(b),
    decreases a,
{
    if a > 0 {
        lemma_pow10_add((a - 1) as nat, b);
        assert(pow10(a + b) == 10 * pow10((a - 1 + b) as nat));
        assert(10 * (pow10((a - 1) as nat) * pow10(b)) == (10 * pow10((a - 1) as nat)) * pow10(b)) by (nonlinear_arith);
    }
}

fn pow10_u64(n: u8) -> (r: u64)
    requires
        n <= 18,
    ensures
        r == pow10(n as nat),
{
    let mut r: u64 = 1;
    let mut i: u8 = 0;
    while i < n
        invariant
            i <= n <= 18,
            r == pow10(i as nat),
            r <= 1_000_000_000_000_000_000u64,
        decreases n - i,
    {
        proof { lemma_pow10_bound(i as nat); }
        r = r * 10;
        i = i + 1;
    }
    r
}

proof fn lemma_pow10_bound(n: nat)
    requires
        n < 18,
    ensures
        10 * pow10(n) <= 1_000_000_000_000_000_000,
{
    lemma_pow10_add((n + 1) as nat, (17 - n) as nat);
    lemma_pow10_pos((17 - n) as nat);
    lemma_pow10_pos((n + 1) as nat);
    reveal_with_fuel(pow10, 19);
    assert(pow10(18) == 1_000_000_000_000_000_000);
    assert(pow10((n + 1) as nat) == 10 * pow10(n));
    let a = pow10((n + 1) as nat);
    let b = pow10((17 - n) as nat);
    assert(a <= a * b) by (nonlinear_arith)
        requires
            a >= 1,
            b >= 1,
    ;
}

impl Currency {
    /// Lowercase ISO 4217 code.
    pub open spec fn spec_code(self) -> Seq<char> {
        match self {
            Currency::USD => "usd"@,
            Currency::EUR => "eur"@,
            Currency::GBP => "gbp"@,
            Currency::JPY => "jpy"@,
            Currency::CAD => "cad"@,
            Currency::AUD => "aud"@,
            Currency::CHF => "chf"@,
            Currency::MXN => "mxn"@,
        }
    }

    /// Minor-unit digits: none for JPY, two otherwise.
    pub open spec fn spec_decimal_places(self) -> nat {
        if self == Currency::JPY { 0 } else { 2 }
    }

    /// Display symbol placed before an amount.
    pub open spec fn spec_symbol(self) -> Seq<char> {
        match self {
            Currency::USD => "$"@,
            Currency::EUR => "€"@,
            Currency::GBP => "£"@,
            Currency::JPY => "¥"@,
            Currency::CAD => "C$"@,
            Currency::AUD => "A$"@,
            Currency::CHF => "CHF "@,
            Currency::MXN => "MX$"@,
        }
    }

    /// The ISO 4217 code.
    pub fn as_str(&self) -> (r: &'static str)
        ensures
            r@ == self.spec_code(),
    {
        match self {
            Currency::USD => "usd",
            Currency::EUR => "eur",
            Currency::GBP => "gbp",
            Currency::JPY => "jpy",
            Currency::CAD => "cad",
            Currency::AUD => "aud",
            Currency::CHF => "chf",
            Currency::MXN => "mxn",
        }
    }

    /// Uppercase ISO 4217 code, as shown to people.
    pub open spec fn spec_display_code(self) -> Seq<char> {
        match self {
            Currency::USD => "USD"@,
            Currency::EUR => "EUR"@,
            Currency::GBP => "GBP"@,
            Currency::JPY => "JPY"@,
            Currency::CAD => "CAD"@,
            Currency::AUD => "AUD"@,
            Currency::CHF => "CHF"@,
            Currency::MXN => "MXN"@,
        }
    }

    /// The uppercase ISO 4217 code.
    pub fn display_code(&self) -> (r: String)
        ensures
            r@ == self.spec_display_code(),
    {
        String::from_str(match self {
            Currency::USD => "USD",
            Currency::EUR => "EUR",
            Currency::GBP => "GBP",
            Currency::JPY => "JPY",
            Currency::CAD => "CAD",
            Currency::AUD => "AUD",
            Currency::CHF => "CHF",
            Currency::MXN => "MXN",
        })
    }

    /// Number of decimal places of the minor unit.
    pub fn decimal_places(&self) -> (r: u8)
        ensures
            r == self.spec_decimal_places(),
    {
        match self {
            Currency::JPY => 0,
            _ => 2,
        }
    }

    /// Display symbol.
    pub fn symbol(&self) -> (r: &'static str)
        ensures
            r@ == self.spec_symbol(),
    {
        match self {
            Currency::USD => "$",
            Currency::EUR => "€",
            Currency::GBP => "£",
            Currency::JPY => "¥",
            Currency::CAD => "C$",
            Currency::AUD => "A$",
            Currency::CHF => "CHF ",
            Currency::MXN => "MX$",
        }
    }

    /// Converts a decimal amount to the smallest unit, multiplying by
    /// `10^decimal_places` and rounding halves away from zero.
    pub fn to_smallest_unit(&self, amount: Decimal) -> (r: i64)
        requires
            amount.scale <= 18,
            i64::MIN <= smallest_units(amount, self.spec_decimal_places()) <= i64::MAX,
        ensures
            r == smallest_units(amount, self.spec_decimal_places()),
    {
        let places = self.decimal_places();
        if amount.scale <= places {
            let m = pow10_u64(places - amount.scale);
            proof { lemma_pow10_pos((places - amount.scale) as nat); }
            assert(m <= 100) by {
                assert(pow10(0) == 1);
                assert(pow10(1) == 10);
                assert(pow10(2) == 100);
            }
            (amount.units as i128 * m as i128) as i64
        } else {
            let p = pow10_u64(amount.scale - places);
            proof { lemma_pow10_pos((amount.scale - places) as nat); }
            let mag: u64 = if amount.units < 0 { (0i128 - amount.units as i128) as u64 } else { amount.units as u64 };
            let q = mag / p;
            let rem = mag % p;
            let m: u64 = if rem as u128 * 2 >= p as u128 { q + 1 } else { q };
            if amount.units < 0 {
                (0i128 - m as i128) as i64
            } else {
                m as i64
            }
        }
    }

    /// `amount` smallest units as a decimal.
    pub open spec fn spec_from_smallest(self, amount: i64) -> Decimal {
        Decimal { units: amount, scale: self.spec_decimal_places() as u8 }
    }

    /// Converts an amount in the smallest unit back to a decimal amount.
    pub fn from_smallest_unit(&self, amount: i64) -> (r: Decimal)
        ensures
            r == self.spec_from_smallest(amount),
    {
        Decimal { units: amount, scale: self.decimal_places() }
    }
}

/// Whether the number `a` has at most `places` fractional digits.
pub open spec fn at_most_places(a: Decimal, places: nat) -> bool {
    a.scale <= places || (a.units as int) % pow10((a.scale - places) as nat) == 0
}

/// Converting an amount with no more fractional digits than the currency
/// has to the smallest unit and back gives the same number.
pub proof fn lemma_smallest_unit_round_trip(c: Currency, a: Decimal)
    requires
        at_most_places(a, c.spec_decimal_places()),
        i64::MIN <= smallest_units(a, c.spec_decimal_places()) <= i64::MAX,
    ensures
        c.spec_from_smallest(smallest_units(a, c.spec_decimal_places()) as i64).same_value(a),
{
    let places = c.spec_decimal_places();
    let u = smallest_units(a, places);
    if a.scale <= places {
        let d = (places - a.scale) as nat;
        lemma_pow10_add(d, a.scale as nat);
        assert(d + a.scale == places);
        assert(u == a.units * pow10(d));
        assert(u * pow10(a.scale as nat) == a.units * (pow10(d) * pow10(a.scale as nat))) by (nonlinear_arith)
            requires
                u == a.units * pow10(d),
        ;
    } else {
        let d = (a.scale - places) as nat;
        let p = pow10(d);
        lemma_pow10_pos(d);
        lemma_pow10_add(d, places);
        assert(d + places == a.scale);
        let x = a.units as int;
        let k = x / p;
        lemma_fundamental_div_mod(x, p);
        assert(x == p * k);
        let mag = if x < 0 { -x } else { x };
        let kk = if x < 0 { -k } else { k };
        assert(mag == p * kk) by (nonlinear_arith)
            requires
                x == p * k,
                mag == (if x < 0 { -x } else { x }),
                kk == (if x < 0 { -k } else { k }),
        ;
        assert(kk * p == p * kk) by (nonlinear_arith);
        lemma_div_multiples_vanish(kk, p);
        lemma_mod_multiples_basic(kk, p);
        assert(mag / p == kk);
        assert(mag % p == 0);
        assert(u == k);
        assert(k * pow10(a.scale as nat) == x * pow10(places)) by (nonlinear_arith)
            requires
                x == p * k,
                pow10(a.scale as nat) == p * pow10(places),
        ;
    }
}

/// A price in the smallest unit of its currency.
#[derive(Debug, Clone, Copy, PartialEq, Eq, Structural)]
pub struct Price {
    /// Amount in the smallest unit (cents for USD).
    pub amount: i64,
    pub currency: Currency,
}

/// Two-digit rendering of `n < 100`.
pub open spec fn two_digits(n: nat) -> Seq<char> {
    seq![digit_char(n / 10), digit_char(n % 10)]
}

/// The display text of an amount: currency symbol, then the amount; with two
/// decimals unless the currency has no minor unit.
pub open spec fn price_text(amount: int, c: Currency) -> Seq<char> {
    if c.spec_decimal_places() == 0 {
        c.spec_symbol() + int_text(amount)
    } else {
        let mag = if amount < 0 { -amount } else { amount };
        c.spec_symbol() + (if amount < 0 { "-"@ } else { ""@ }) + nat_text((mag / 100) as nat)
            + seq!['.'] + two_digits((mag % 100) as nat)
    }
}

impl Price {
    /// A price from a decimal amount.
    pub fn new(amount: Decimal, currency: Currency) -> (r: Self)
        requires
            amount.scale <= 18,
            i64::MIN <= smallest_units(amount, currency.spec_decimal_places()) <= i64::MAX,
        ensures
            r.amount == smallest_units(amount, currency.spec_decimal_places()),
            r.currency == currency,
    {
        Price { amount: currency.to_smallest_unit(amount), currency }
    }

    /// A price from an amount already in the smallest unit.
    pub fn from_cents(amount: i64, currency: Currency) -> (r: Self)
        ensures
            r.amount == amount,
            r.currency == currency,
    {
        Price { amount, currency }
    }

    /// The amount as a decimal.
    pub fn as_decimal(&self) -> (r: Decimal)
        ensures
            r.units == self.amount,
            r.scale == self.currency.spec_decimal_places(),
    {
        self.currency.from_smallest_unit(self.amount)
    }

    /// Display text, such as `$10.00` or `¥1000`.
    pub fn display(&self) -> (r: String)
        ensures
            r@ == price_text(self.amount as int, self.currency),
    {
        format_amount(self.amount, self.currency)
    }
}

/// Renders `amount` in the smallest unit of `c` with its symbol.
pub fn format_amount(amount: i64, c: Currency) -> (r: String)
    ensures
        r@ == price_text(amount as int, c),
{
    let sym = c.symbol();
    if c.decimal_places() == 0 {
        let digits = i64_to_text(amount);
        join2(sym, digits.as_str())
    } else {
        let mag: u64 = if amount < 0 { (0i128 - amount as i128) as u64 } else { amount as u64 };
        let whole = u64_to_text(mag / 100);
        let frac = mag % 100;
        let sign: &str = if amount < 0 { "-" } else { "" };
        proof {
            reveal_strlit("-");
            reveal_strlit("");
            reveal_strlit(".");
        }
        let r = String::from_str(sym).concat(sign).concat(whole.as_str()).concat(".")
            .concat(digit_str(frac / 10)).concat(digit_str(frac % 10));
        assert(r@ =~= price_text(amount as int, c));
        r
    }
}

impl Default for Currency {
    fn default() -> (r: Self)
        ensures
            r == Currency::USD,
    {
        Currency::USD
    }
}

/// Billing interval of a product.
#[derive(Debug, Clone, Copy, PartialEq, Eq, Structural)]
pub enum BillingInterval {
    /// One-time payment.
    OneTime,
    Weekly,
    Monthly,
    Yearly,
}

impl Default for BillingInterval {
    fn default() -> (r: Self)
        ensures
            r == BillingInterval::OneTime,
    {
        BillingInterval::OneTime
    }
}

/// Kind of product.
#[derive(Debug, Clone, Copy, PartialEq, Eq, Structural)]
pub enum ProductType {
    Digital,
    Subscription,
    ApiAccess,
    Physical,
}

impl Default for ProductType {
    fn default() -> (r: Self)
        ensures
            r == ProductType::Digital,
    {
        ProductType::Digital
    }
}

/// A product of the catalog.
#[derive(Debug, Clone)]
pub struct Product {
    /// Unique product identifier.
    pub id: String,
    pub name: String,
    pub description: String,
    pub product_type: ProductType,
    pub price: Price,
    pub billing_interval: BillingInterval,
    /// Whether the product can be bought.
    pub active: bool,
    pub image_url: Option<String>,
    pub metadata: Metadata,
}

impl Product {
    /// An active one-time digital product with empty description and metadata.
    pub fn one_time(id: &str, name: &str, price: Price) -> (r: Self)
        ensures
            r.id@ == id@,
            r.name@ == name@,
            r.description@.len() == 0,
            r.product_type == ProductType::Digital,
            r.price == price,
            r.billing_interval == BillingInterval::OneTime,
            r.active,
            r.image_url is None,
            r.metadata@ == Map::<Seq<char>, Seq<char>>::empty(),
    {
        Product {
            id: String::from_str(id),
            name: String::from_str(name),
            description: String::new(),
            product_type: ProductType::Digital,
            price,
            billing_interval: BillingInterval::OneTime,
            active: true,
            image_url: None,
            metadata: Metadata::new(),
        }
    }

    /// An active subscription product billed every `interval`.
    pub fn subscription(id: &str, name: &str, price: Price, interval: BillingInterval) -> (r: Self)
        ensures
            r.id@ == id@,
            r.name@ == name@,
            r.description@.len() == 0,
            r.product_type == ProductType::Subscription,
            r.price == price,
            r.billing_interval == interval,
            r.active,
            r.image_url is None,
            r.metadata@ == Map::<Seq<char>, Seq<char>>::empty(),
    {
        Product {
            id: String::from_str(id),
            name: String::from_str(name),
            description: String::new(),
            product_type: ProductType::Subscription,
            price,
            billing_interval: interval,
            active: true,
            image_url: None,
            metadata: Metadata::new(),
        }
    }

    /// Sets the description.
    pub fn with_description(self, desc: &str) -> (r: Self)
        ensures
            r.description@ == desc@,
            r.id == self.id,
            r.name == self.name,
            r.product_type == self.product_type,
            r.price == self.price,
            r.billing_interval == self.billing_interval,
            r.active == self.active,
            r.image_url == self.image_url,
            r.metadata@ == self.metadata@,
    {
        let mut p = self;
        p.description = String::from_str(desc);
        p
    }

    /// Sets the image URL.
    pub fn with_image(self, url: &str) -> (r: Self)
        ensures
            r.image_url matches Some(u) && u@ == url@,
            r.id == self.id,
            r.name == self.name,
            r.description == self.description,
            r.product_type == self.product_type,
            r.price == self.price,
            r.billing_interval == self.billing_interval,
            r.active == self.active,
            r.metadata@ == self.metadata@,
    {
        let mut p = self;
        p.image_url = Some(String::from_str(url));
        p
    }

    /// Adds one metadata entry.
    pub fn with_metadata(self, key: &str, value: &str) -> (r: Self)
        ensures
            r.metadata@ == self.metadata@.insert(key@, value@),
            r.id == self.id,
            r.name == self.name,
            r.description == self.description,
            r.product_type == self.product_type,
            r.price == self.price,
            r.billing_interval == self.billing_interval,
            r.active == self.active,
            r.image_url == self.image_url,
    {
        let mut p = self;
        p.metadata.insert(String::from_str(key), String::from_str(value));
        p
    }

    /// Whether the product is billed repeatedly.
    pub fn is_subscription(&self) -> (r: bool)
        ensures
            r == (self.billing_interval != BillingInterval::OneTime),
    {
        !matches!(self.billing_interval, BillingInterval::OneTime)
    }
}

/// The first product with id `id` in `s`.
pub open spec fn find_product(s: Seq<Product>, id: Seq<char>) -> Option<Product>
    decreases s.len(),
{
    if s.len() == 0 {
        None
    } else if s[0].id@ == id {
        Some(s[0])
    } else {
        find_product(s.skip(1), id)
    }
}

/// All products, in registration order.
#[derive(Debug, Clone)]
pub struct ProductCatalog {
    pub products: Vec<Product>,
}

impl ProductCatalog {
    /// An empty catalog.
    pub fn new() -> (r: Self)
        ensures
            r.products@.len() == 0,
    {
        ProductCatalog { products: Vec::new() }
    }

    /// Appends a product.
    pub fn add(&mut self, product: Product)
        ensures
            final(self).products@ == old(self).products@.push(product),
    {
        self.products.push(product);
    }

    /// The first product whose id is `id`.
    pub fn get(&self, id: &str) -> (r: Option<&Product>)
        ensures
            r matches Some(p) ==> find_product(self.products@, id@) == Some(*p),
            r is None ==> find_product(self.products@, id@) is None,
    {
        let mut i: usize = 0;
        assert(self.products@.skip(0) =~= self.products@);
        while i < self.products.len()
            invariant
                i <= self.products@.len(),
                find_product(self.products@, id@) == find_product(self.products@.skip(i as int), id@),
            decreases self.products@.len() - i,
        {
            assert(self.products@.skip(i as int).skip(1) =~= self.products@.skip(i + 1));
            assert(self.products@.skip(i as int)[0] == self.products@[i as int]);
            if crate::text::str_eq(self.products[i].id.as_str(), id) {
                return Some(&self.products[i]);
            }
            i = i + 1;
        }
        assert(self.products@.skip(i as int).len() == 0);
        None
    }

    /// The active products, in registration order.
    pub fn active_products(&self) -> (r: Vec<&Product>)
        ensures
            r@.map_values(|p: &Product| *p) == self.products@.filter(|p: Product| p.active),
    {
        let mut r: Vec<&Product> = Vec::new();
        let mut i: usize = 0;
        while i < self.products.len()
            invariant
                i <= self.products@.len(),
                r@.map_values(|p: &Product| *p) == self.products@.subrange(0, i as int).filter(|p: Product| p.active),
            decreases self.products@.len() - i,
        {
            proof {
                reveal(Seq::filter);
                assert(self.products@.subrange(0, i + 1).drop_last() =~= self.products@.subrange(0, i as int));
            }
            if self.products[i].active {
                let ghost before = r@;
                r.push(&self.products[i]);
                assert(r@.map_values(|p: &Product| *p) =~= before.map_values(|p: &Product| *p).push(self.products@[i as int]));
            }
            i = i + 1;
        }
        assert(self.products@.subrange(0, i as int) =~= self.products@);
        r
    }
}

} // verus!

//! The payment-provider interface, the registry that selects a provider,
//! and fallback checkout URLs.
use vstd::prelude::*;
use crate::text::{join2, join3, opt_chars, str_eq};

verus! {

/// What every payment provider offers to the selector.
pub trait PaymentStrategy {
    /// The provider's stable name.
    spec fn spec_provider_name(&self) -> Seq<char>;

    /// The provider's stable name, used as its registry key.
    fn provider_name(&self) -> (r: &'static str)
        ensures
            r@ == self.spec_provider_name(),
    ;

    /// Whether the provider can sell subscriptions.
    fn supports_subscriptions(&self) -> bool;

    /// The webhook endpoint path: `/webhook/<provider name>`.
    fn webhook_path(&self) -> (r: String)
        ensures
            r@ == "/webhook/"@ + self.spec_provider_name(),
    {
        join2("/webhook/", self.provider_name())
    }
}

/// The index of the first entry named `n` in `s`.
#[verifier::opaque]
pub open spec fn first_named<S>(s: Seq<(String, S)>, n: Seq<char>) -> Option<int> {
    if exists|i: int| 0 <= i < s.len() && #[trigger] s[i].0@ == n {
        Some(choose|i: int| 0 <= i < s.len() && #[trigger] s[i].0@ == n
            && forall|j: int| 0 <= j < i ==> s[j].0@ != n)
    } else {
        None
    }
}

/// The strategy of the first entry named `n` in `s`.
pub open spec fn entry_for<S>(s: Seq<(String, S)>, n: Seq<char>) -> Option<S> {
    match first_named(s, n) {
        Some(i) => Some(s[i].1),
        None => None,
    }
}

proof fn lemma_first_named<S>(s: Seq<(String, S)>, n: Seq<char>, i: int)
    requires
        0 <= i < s.len(),
        s[i].0@ == n,
        forall|j: int| 0 <= j < i ==> s[j].0@ != n,
    ensures
        first_named(s, n) == Some(i),
{
    reveal(first_named);
    let c = choose|c: int| 0 <= c < s.len() && #[trigger] s[c].0@ == n
        && forall|j: int| 0 <= j < c ==> s[j].0@ != n;
    assert(0 <= c < s.len() && s[c].0@ == n && forall|j: int| 0 <= j < c ==> s[j].0@ != n);
    if c < i {
        assert(s[c].0@ != n);
    } else if c > i {
        assert(s[i].0@ != n);
    }
}

proof fn lemma_min_witness<S>(s: Seq<(String, S)>, n: Seq<char>, w: int)
    requires
        0 <= w < s.len(),
        s[w].0@ == n,
    ensures
        first_named(s, n) is Some,
        0 <= first_named(s, n)->0 < s.len(),
        s[first_named(s, n)->0].0@ == n,
        forall|j: int| 0 <= j < first_named(s, n)->0 ==> s[j].0@ != n,
    decreases w,
{
    reveal(first_named);
    if exists|j: int| 0 <= j < w && #[trigger] s[j].0@ == n {
        let j = choose|j: int| 0 <= j < w && #[trigger] s[j].0@ == n;
        lemma_min_witness(s, n, j);
    } else {
        lemma_first_named(s, n, w);
    }
}

proof fn lemma_names_contains<S>(s: Seq<(String, S)>, n: Seq<char>)
    ensures
        s.map_values(|e: (String, S)| e.0@).contains(n) <==> first_named(s, n) is Some,
{
    reveal(first_named);
    let names = s.map_values(|e: (String, S)| e.0@);
    if names.contains(n) {
        let k = choose|k: int| 0 <= k < names.len() && names[k] == n;
        lemma_min_witness(s, n, k);
    }
    if first_named(s, n) is Some {
        let k = choose|k: int| 0 <= k < s.len() && #[trigger] s[k].0@ == n;
        assert(names[k] == n);
    }
}

proof fn lemma_same_names<S>(a: Seq<(String, S)>, b: Seq<(String, S)>, m: Seq<char>)
    requires
        a.len() == b.len(),
        forall|j: int| 0 <= j < a.len() ==> #[trigger] a[j].0@ == b[j].0@,
    ensures
        first_named(a, m) == first_named(b, m),
{
    reveal(first_named);
    if exists|k: int| 0 <= k < a.len() && #[trigger] a[k].0@ == m {
        let w = choose|k: int| 0 <= k < a.len() && #[trigger] a[k].0@ == m;
        lemma_min_witness(a, m, w);
        let k = first_named(a, m)->0;
        assert(b[k].0@ == m);
        assert forall|j: int| 0 <= j < k implies b[j].0@ != m by {
            assert(a[j].0@ != m);
        }
        lemma_first_named(b, m, k);
    } else {
        assert(!exists|k: int| 0 <= k < b.len() && #[trigger] b[k].0@ == m) by {
            if exists|k: int| 0 <= k < b.len() && #[trigger] b[k].0@ == m {
                let k = choose|k: int| 0 <= k < b.len() && #[trigger] b[k].0@ == m;
                assert(a[k].0@ == m);
            }
        }
    }
}

proof fn lemma_replace<S>(old_s: Seq<(String, S)>, s: Seq<(String, S)>, i: int, n: Seq<char>)
    requires
        0 <= i < old_s.len(),
        first_named(old_s, n) == Some(i),
        old_s[i].0@ == n,
        s == old_s.update(i, s[i]),
        s[i].0@ == n,
    ensures
        first_named(s, n) == Some(i),
        forall|m: Seq<char>| m != n ==> #[trigger] entry_for(s, m) == entry_for(old_s, m),
{
    reveal(first_named);
    assert forall|j: int| 0 <= j < s.len() implies #[trigger] s[j].0@ == old_s[j].0@ by {}
    assert forall|m: Seq<char>| true implies #[trigger] first_named(s, m) == first_named(old_s, m) by {
        lemma_same_names(s, old_s, m);
    }
    assert forall|m: Seq<char>| m != n implies #[trigger] entry_for(s, m) == entry_for(old_s, m) by {
        if exists|k: int| 0 <= k < s.len() && #[trigger] s[k].0@ == m {
            let w = choose|k: int| 0 <= k < s.len() && #[trigger] s[k].0@ == m;
            lemma_min_witness(s, m, w);
        }
    }
}

proof fn lemma_append<S>(old_s: Seq<(String, S)>, s: Seq<(String, S)>, n: Seq<char>)
    requires
        first_named(old_s, n) is None,
        s.len() == old_s.len() + 1,
        s.drop_last() == old_s,
        s.last().0@ == n,
    ensures
        first_named(s, n) == Some(old_s.len() as int),
        forall|m: Seq<char>| m != n ==> #[trigger] entry_for(s, m) == entry_for(old_s, m),
{
    reveal(first_named);
    assert forall|j: int| 0 <= j < old_s.len() implies old_s[j].0@ != n by {
        if old_s[j].0@ == n {
            lemma_min_witness(old_s, n, j);
        }
    }
    assert forall|j: int| 0 <= j < old_s.len() implies #[trigger] s[j] == old_s[j] by {
        assert(s.drop_last()[j] == s[j]);
    }
    lemma_first_named(s, n, old_s.len() as int);
    assert forall|m: Seq<char>| m != n implies #[trigger] entry_for(s, m) == entry_for(old_s, m) by {
        if exists|k: int| 0 <= k < old_s.len() && #[trigger] old_s[k].0@ == m {
            let w = choose|k: int| 0 <= k < old_s.len() && #[trigger] old_s[k].0@ == m;
            lemma_min_witness(old_s, m, w);
            let k = first_named(old_s, m)->0;
            assert(s[k].0@ == m);
            assert forall|j: int| 0 <= j < k implies s[j].0@ != m by {
                assert(old_s[j].0@ != m);
            }
            lemma_first_named(s, m, k);
        } else {
            assert(!exists|k: int| 0 <= k < s.len() && #[trigger] s[k].0@ == m) by {
                if exists|k: int| 0 <= k < s.len() && #[trigger] s[k].0@ == m {
                    let k = choose|k: int| 0 <= k < s.len() && #[trigger] s[k].0@ == m;
                    if k < old_s.len() {
                        assert(old_s[k].0@ == m);
                    }
                }
            }
        }
    }
}

/// Providers by name, with a default provider name.
pub struct PaymentStrategySelector<S> {
    strategies: Vec<(String, S)>,
    default_provider: String,
}

impl<S: PaymentStrategy> PaymentStrategySelector<S> {
    /// The registered entries, in registration order.
    pub closed spec fn spec_entries(&self) -> Seq<(String, S)> {
        self.strategies@
    }

    /// The names of the registered providers, in registration order.
    pub closed spec fn spec_names(&self) -> Seq<Seq<char>> {
        self.strategies@.map_values(|e: (String, S)| e.0@)
    }

    /// The strategy registered under `name`.
    pub closed spec fn spec_get(&self, name: Seq<char>) -> Option<S> {
        entry_for(self.strategies@, name)
    }

    /// The name of the default provider.
    pub closed spec fn spec_default_provider(&self) -> Seq<char> {
        self.default_provider@
    }

    /// The strategy of the default provider.
    pub open spec fn spec_default(&self) -> Option<S> {
        self.spec_get(self.spec_default_provider())
    }

    /// The strategy named `name` when given and registered, else the default one.
    pub open spec fn spec_get_or_default(&self, name: Option<Seq<char>>) -> Option<S> {
        match name {
            Some(n) => match self.spec_get(n) {
                Some(s) => Some(s),
                None => self.spec_default(),
            },
            None => self.spec_default(),
        }
    }

    /// An empty selector whose default provider is `default_provider`.
    pub fn new(default_provider: &str) -> (r: Self)
        ensures
            r.spec_default_provider() == default_provider@,
            forall|n: Seq<char>| r.spec_get(n) is None,
            r.spec_names().len() == 0,
    {
        let r = PaymentStrategySelector { strategies: Vec::new(), default_provider: String::from_str(default_provider) };
        assert(r.spec_names() =~= Seq::<Seq<char>>::empty());
        proof { reveal(first_named); }
        r
    }

    fn find(&self, name: &str) -> (r: Option<usize>)
        ensures
            r matches Some(i) ==> first_named(self.strategies@, name@) == Some(i as int)
                && i < self.strategies@.len() && self.strategies@[i as int].0@ == name@,
            r is None ==> first_named(self.strategies@, name@) is None,
    {
        let mut i: usize = 0;
        while i < self.strategies.len()
            invariant
                i <= self.strategies@.len(),
                forall|j: int| 0 <= j < i ==> self.strategies@[j].0@ != name@,
            decreases self.strategies@.len() - i,
        {
            if str_eq(self.strategies[i].0.as_str(), name) {
                proof { lemma_first_named(self.strategies@, name@, i as int); }
                return Some(i);
            }
            i = i + 1;
        }
        proof { reveal(first_named); }
        None
    }

    /// Registers `strategy` under its own provider name; a later registration
    /// under the same name replaces the earlier one.
    pub fn register(&mut self, strategy: S)
        ensures
            final(self).spec_get(strategy.spec_provider_name()) == Some(strategy),
            forall|n: Seq<char>| n != strategy.spec_provider_name() ==> #[trigger] final(self).spec_get(n) == old(self).spec_get(n),
            final(self).spec_default_provider() == old(self).spec_default_provider(),
            old(self).spec_names().contains(strategy.spec_provider_name()) ==> final(self).spec_names() == old(self).spec_names(),
            !old(self).spec_names().contains(strategy.spec_provider_name()) ==> final(self).spec_names() == old(self).spec_names().push(strategy.spec_provider_name()),
    {
        let name = strategy.provider_name();
        let ghost old_s = self.strategies@;
        let ghost n = strategy.spec_provider_name();
        let found = self.find(name);
        proof { lemma_names_contains(old_s, n); }
        match found {
            Some(i) => {
                self.strategies.set(i, (String::from_str(name), strategy));
                proof { lemma_replace(old_s, self.strategies@, i as int, n); }
                assert(self.spec_names() =~= old(self).spec_names());
            },
            None => {
                self.strategies.push((String::from_str(name), strategy));
                assert(self.strategies@.drop_last() =~= old_s);
                proof { lemma_append(old_s, self.strategies@, n); }
                assert(self.spec_names() =~= old(self).spec_names().push(n));
            },
        }
    }

    /// Registers `strategy` and returns the selector.
    pub fn with_strategy(self, strategy: S) -> (r: Self)
        ensures
            r.spec_get(strategy.spec_provider_name()) == Some(strategy),
            forall|n: Seq<char>| n != strategy.spec_provider_name() ==> #[trigger] r.spec_get(n) == self.spec_get(n),
            r.spec_default_provider() == self.spec_default_provider(),
    {
        let mut s = self;
        s.register(strategy);
        s
    }

    /// The strategy of the default provider.
    pub fn default_strategy(&self) -> (r: Option<&S>)
        ensures
            r matches Some(s) ==> self.spec_default() == Some(*s),
            r is None ==> self.spec_default() is None,
    {
        self.get(self.default_provider.as_str())
    }

    /// The strategy registered under `provider`.
    pub fn get(&self, provider: &str) -> (r: Option<&S>)
        ensures
            r matches Some(s) ==> self.spec_get(provider@) == Some(*s),
            r is None ==> self.spec_get(provider@) is None,
    {
        match self.find(provider) {
            Some(i) => Some(&self.strategies[i].1),
            None => None,
        }
    }

    /// The strategy `provider` when given and registered, else the default one.
    pub fn get_or_default(&self, provider: Option<&str>) -> (r: Option<&S>)
        ensures
            r matches Some(s) ==> self.spec_get_or_default(opt_chars(provider)) == Some(*s),
            r is None ==> self.spec_get_or_default(opt_chars(provider)) is None,
    {
        match provider {
            Some(p) => match self.get(p) {
                Some(s) => Some(s),
                None => self.default_strategy(),
            },
            None => self.default_strategy(),
        }
    }

    /// The names of the registered providers.
    pub fn providers(&self) -> (r: Vec<&str>)
        ensures
            r@.len() == self.spec_names().len(),
            forall|i: int| 0 <= i < r@.len() ==> #[trigger] r@[i]@ == self.spec_names()[i],
    {
        let mut r: Vec<&str> = Vec::new();
        let mut i: usize = 0;
        while i < self.strategies.len()
            invariant
                i <= self.strategies@.len(),
                r@.len() == i,
                forall|j: int| 0 <= j < i ==> #[trigger] r@[j]@ == self.strategies@[j].0@,
            decreases self.strategies@.len() - i,
        {
            r.push(self.strategies[i].0.as_str());
            i = i + 1;
        }
        r
    }

    /// Whether a provider named `provider` is registered.
    pub fn has_provider(&self, provider: &str) -> (r: bool)
        ensures
            r == self.spec_get(provider@) is Some,
    {
        self.find(provider).is_some()
    }
}

/// A requested provider that is not registered resolves exactly as no request.
pub proof fn lemma_unknown_provider_falls_back<S: PaymentStrategy>(sel: PaymentStrategySelector<S>, name: Seq<char>)
    requires
        sel.spec_get(name) is None,
    ensures
        sel.spec_get_or_default(Some(name)) == sel.spec_get_or_default(None),
{
}

impl<S: PaymentStrategy> Default for PaymentStrategySelector<S> {
    fn default() -> (r: Self)
        ensures
            r.spec_default_provider() == "stripe"@,
            r.spec_names().len() == 0,
    {
        Self::new("stripe")
    }
}

/// Fallback checkout URLs: a base URL and two paths.
#[derive(Debug, Clone)]
pub struct CheckoutUrls {
    pub base_url: String,
    pub success_path: String,
    pub cancel_path: String,
}

impl CheckoutUrls {
    /// URLs under `base_url` with paths `/checkout/success` and `/checkout/cancel`.
    pub fn new(base_url: &str) -> (r: Self)
        ensures
            r.base_url@ == base_url@,
            r.success_path@ == "/checkout/success"@,
            r.cancel_path@ == "/checkout/cancel"@,
    {
        CheckoutUrls {
            base_url: String::from_str(base_url),
            success_path: String::from_str("/checkout/success"),
            cancel_path: String::from_str("/checkout/cancel"),
        }
    }

    /// Base URL followed by the success path.
    pub fn success_url(&self) -> (r: String)
        ensures
            r@ == self.base_url@ + self.success_path@,
    {
        join2(self.base_url.as_str(), self.success_path.as_str())
    }

    /// Base URL followed by the cancel path.
    pub fn cancel_url(&self) -> (r: String)
        ensures
            r@ == self.base_url@ + self.cancel_path@,
    {
        join2(self.base_url.as_str(), self.cancel_path.as_str())
    }

    /// Both URLs with `?session_id=<session_id>` appended.
    pub fn with_session_id(&self, session_id: &str) -> (r: (String, String))
        ensures
            r.0@ == self.base_url@ + self.success_path@ + "?session_id="@ + session_id@,
            r.1@ == self.base_url@ + self.cancel_path@ + "?session_id="@ + session_id@,
    {
        let s = self.success_url();
        let c = self.cancel_url();
        (join3(s.as_str(), "?session_id=", session_id), join3(c.as_str(), "?session_id=", session_id))
    }
}

impl Default for CheckoutUrls {
    fn default() -> (r: Self)
        ensures
            r.base_url@ == "http://localhost:3000"@,
            r.success_path@ == "/checkout/success"@,
            r.cancel_path@ == "/checkout/cancel"@,
    {
        Self::new("http://localhost:3000")
    }
}

} // verus!

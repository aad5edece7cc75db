//! Tenant sites and the registry that resolves them.
use vstd::prelude::*;
use crate::metadata::Metadata;
use crate::text::{contains_char, join3, opt_chars, str_eq};

verus! {

/// Configuration of one tenant site.
#[derive(Debug, Clone)]
pub struct Site {
    /// Unique site identifier.
    pub id: String,
    pub name: String,
    pub domain: String,
    /// Bank-statement suffix; keep it short (about ten characters).
    pub statement_descriptor_suffix: String,
    pub success_url: String,
    pub cancel_url: String,
    pub support_email: Option<String>,
    pub active: bool,
    pub metadata: Metadata,
}

/// The placeholder that the provider replaces by the session id.
pub open spec fn session_query(sep: char) -> Seq<char> {
    seq![sep] + "session_id={CHECKOUT_SESSION_ID}"@
}

impl Site {
    /// An active site with default URLs under `https://<domain>`.
    pub fn new(id: &str, name: &str, domain: &str) -> (r: Self)
        ensures
            r.id@ == id@,
            r.name@ == name@,
            r.domain@ == domain@,
            r.statement_descriptor_suffix@.len() == 0,
            r.success_url@ == "https://"@ + domain@ + "/checkout/success"@,
            r.cancel_url@ == "https://"@ + domain@ + "/checkout/cancel"@,
            r.support_email is None,
            r.active,
            r.metadata@ == Map::<Seq<char>, Seq<char>>::empty(),
    {
        Site {
            id: String::from_str(id),
            name: String::from_str(name),
            domain: String::from_str(domain),
            statement_descriptor_suffix: String::new(),
            success_url: join3("https://", domain, "/checkout/success"),
            cancel_url: join3("https://", domain, "/checkout/cancel"),
            support_email: None,
            active: true,
            metadata: Metadata::new(),
        }
    }

    /// Sets the statement descriptor suffix.
    pub fn with_statement_descriptor(self, suffix: &str) -> (r: Self)
        ensures
            r.statement_descriptor_suffix@ == suffix@,
            r.id == self.id,
            r.name == self.name,
            r.domain == self.domain,
            r.success_url == self.success_url,
            r.cancel_url == self.cancel_url,
            r.support_email == self.support_email,
            r.active == self.active,
            r.metadata@ == self.metadata@,
    {
        let mut s = self;
        s.statement_descriptor_suffix = String::from_str(suffix);
        s
    }

    /// Sets the success URL.
    pub fn with_success_url(self, url: &str) -> (r: Self)
        ensures
            r.success_url@ == url@,
            r.id == self.id,
            r.name == self.name,
            r.domain == self.domain,
            r.statement_descriptor_suffix == self.statement_descriptor_suffix,
            r.cancel_url == self.cancel_url,
            r.support_email == self.support_email,
            r.active == self.active,
            r.metadata@ == self.metadata@,
    {
        let mut s = self;
        s.success_url = String::from_str(url);
        s
    }

    /// Sets the cancel URL.
    pub fn with_cancel_url(self, url: &str) -> (r: Self)
        ensures
            r.cancel_url@ == url@,
            r.id == self.id,
            r.name == self.name,
            r.domain == self.domain,
            r.statement_descriptor_suffix == self.statement_descriptor_suffix,
            r.success_url == self.success_url,
            r.support_email == self.support_email,
            r.active == self.active,
            r.metadata@ == self.metadata@,
    {
        let mut s = self;
        s.cancel_url = String::from_str(url);
        s
    }

    /// Sets the support email.
    pub fn with_support_email(self, email: &str) -> (r: Self)
        ensures
            r.support_email matches Some(e) && e@ == email@,
            r.id == self.id,
            r.name == self.name,
            r.domain == self.domain,
            r.statement_descriptor_suffix == self.statement_descriptor_suffix,
            r.success_url == self.success_url,
            r.cancel_url == self.cancel_url,
            r.active == self.active,
            r.metadata@ == self.metadata@,
    {
        let mut s = self;
        s.support_email = Some(String::from_str(email));
        s
    }

    /// Adds one metadata entry.
    pub fn with_metadata(self, key: &str, value: &str) -> (r: Self)
        ensures
            r.metadata@ == self.metadata@.insert(key@, value@),
            r.id == self.id,
            r.name == self.name,
            r.domain == self.domain,
            r.statement_descriptor_suffix == self.statement_descriptor_suffix,
            r.success_url == self.success_url,
            r.cancel_url == self.cancel_url,
            r.support_email == self.support_email,
            r.active == self.active,
    {
        let mut s = self;
        s.metadata.insert(String::from_str(key), String::from_str(value));
        s
    }

    /// The success URL with the session-id placeholder appended, after `&`
    /// when the URL already has a query, else after `?`.
    pub open spec fn spec_success_url_with_session(&self) -> Seq<char> {
        self.success_url@ + session_query(if self.success_url@.contains('?') { '&' } else { '?' })
    }

    /// The success URL with the session-id placeholder appended.
    pub fn success_url_with_session(&self) -> (r: String)
        ensures
            r@ == self.spec_success_url_with_session(),
    {
        proof {
            reveal_strlit("&session_id={CHECKOUT_SESSION_ID}");
            reveal_strlit("?session_id={CHECKOUT_SESSION_ID}");
            reveal_strlit("session_id={CHECKOUT_SESSION_ID}");
        }
        if contains_char(self.success_url.as_str(), '?') {
            let r = String::from_str(self.success_url.as_str()).concat("&session_id={CHECKOUT_SESSION_ID}");
            assert(r@ =~= self.spec_success_url_with_session());
            r
        } else {
            let r = String::from_str(self.success_url.as_str()).concat("?session_id={CHECKOUT_SESSION_ID}");
            assert(r@ =~= self.spec_success_url_with_session());
            r
        }
    }
}

/// The first active site with id `id` in `s`.
pub open spec fn find_site(s: Seq<Site>, id: Seq<char>) -> Option<Site>
    decreases s.len(),
{
    if s.len() == 0 {
        None
    } else if s[0].id@ == id && s[0].active {
        Some(s[0])
    } else {
        find_site(s.skip(1), id)
    }
}

/// All tenant sites, with an optional default site id.
#[derive(Debug, Clone)]
pub struct SiteRegistry {
    pub sites: Vec<Site>,
    /// Site used when none is asked for or found.
    pub default_site_id: Option<String>,
}

impl SiteRegistry {
    /// The configured default site id.
    pub open spec fn spec_default_id(&self) -> Option<String> {
        self.default_site_id
    }

    /// The active site with id `id`.
    pub open spec fn spec_get(&self, id: Seq<char>) -> Option<Site> {
        find_site(self.sites@, id)
    }

    /// The first registered site, active or not.
    pub open spec fn spec_first(&self) -> Option<Site> {
        if self.sites@.len() > 0 { Some(self.sites@[0]) } else { None }
    }

    /// The configured default site, when it is registered and active.
    pub open spec fn spec_configured_default(&self) -> Option<Site> {
        match self.spec_default_id() {
            Some(id) => self.spec_get(id@),
            None => None,
        }
    }

    /// The configured default site when it is registered and active, else
    /// the first registered site.
    pub open spec fn spec_default_site(&self) -> Option<Site> {
        match self.spec_default_id() {
            Some(id) => match self.spec_get(id@) {
                Some(s) => Some(s),
                None => self.spec_first(),
            },
            None => self.spec_first(),
        }
    }

    /// The site with id `id` when given and found, else the default site.
    pub open spec fn spec_get_or_default(&self, id: Option<Seq<char>>) -> Option<Site> {
        match id {
            Some(i) => match self.spec_get(i) {
                Some(s) => Some(s),
                None => self.spec_default_site(),
            },
            None => self.spec_default_site(),
        }
    }

    /// An empty registry without a default.
    pub fn new() -> (r: Self)
        ensures
            r.sites@.len() == 0,
            r.spec_default_id() is None,
    {
        SiteRegistry { sites: Vec::new(), default_site_id: None }
    }

    /// An empty registry whose default site id is `default_site_id`.
    pub fn with_default(default_site_id: &str) -> (r: Self)
        ensures
            r.sites@.len() == 0,
            r.spec_default_id() matches Some(d) && d@ == default_site_id@,
    {
        SiteRegistry { sites: Vec::new(), default_site_id: Some(String::from_str(default_site_id)) }
    }

    /// Appends a site.
    pub fn add(&mut self, site: Site)
        ensures
            final(self).sites@ == old(self).sites@.push(site),
            final(self).spec_default_id() == old(self).spec_default_id(),
    {
        self.sites.push(site);
    }

    /// Appends a site.
    pub fn with_site(self, site: Site) -> (r: Self)
        ensures
            r.sites@ == self.sites@.push(site),
            r.spec_default_id() == self.spec_default_id(),
    {
        let mut s = self;
        s.add(site);
        s
    }

    /// Sets the default site id.
    pub fn set_default(&mut self, site_id: &str)
        ensures
            final(self).sites == old(self).sites,
            final(self).spec_default_id() matches Some(d) && d@ == site_id@,
    {
        self.default_site_id = Some(String::from_str(site_id));
    }

    /// The active site with id `site_id`.
    pub fn get(&self, site_id: &str) -> (r: Option<&Site>)
        ensures
            r matches Some(s) ==> self.spec_get(site_id@) == Some(*s),
            r is None ==> self.spec_get(site_id@) is None,
    {
        let mut i: usize = 0;
        assert(self.sites@.skip(0) =~= self.sites@);
        while i < self.sites.len()
            invariant
                i <= self.sites@.len(),
                find_site(self.sites@, site_id@) == find_site(self.sites@.skip(i as int), site_id@),
            decreases self.sites@.len() - i,
        {
            assert(self.sites@.skip(i as int).skip(1) =~= self.sites@.skip(i + 1));
            assert(self.sites@.skip(i as int)[0] == self.sites@[i as int]);
            let s = &self.sites[i];
            if s.active && str_eq(s.id.as_str(), site_id) {
                return Some(s);
            }
            i = i + 1;
        }
        assert(self.sites@.skip(i as int).len() == 0);
        None
    }

    /// The configured default site if registered and active, else the first site.
    pub fn default_site(&self) -> (r: Option<&Site>)
        ensures
            r matches Some(s) ==> self.spec_default_site() == Some(*s),
            r is None ==> self.spec_default_site() is None,
    {
        let found = match &self.default_site_id {
            Some(id) => self.get(id.as_str()),
            None => None,
        };
        match found {
            Some(s) => Some(s),
            None => if self.sites.len() > 0 { Some(&self.sites[0]) } else { None },
        }
    }

    /// The site `site_id` when given and found, else the default site.
    pub fn get_or_default(&self, site_id: Option<&str>) -> (r: Option<&Site>)
        ensures
            r matches Some(s) ==> self.spec_get_or_default(opt_chars(site_id)) == Some(*s),
            r is None ==> self.spec_get_or_default(opt_chars(site_id)) is None,
    {
        match site_id {
            Some(id) => match self.get(id) {
                Some(s) => Some(s),
                None => self.default_site(),
            },
            None => self.default_site(),
        }
    }

    /// The active sites, in registration order.
    pub fn active_sites(&self) -> (r: Vec<&Site>)
        ensures
            r@.map_values(|s: &Site| *s) == self.sites@.filter(|s: Site| s.active),
    {
        let mut r: Vec<&Site> = Vec::new();
        let mut i: usize = 0;
        while i < self.sites.len()
            invariant
                i <= self.sites@.len(),
                r@.map_values(|s: &Site| *s) == self.sites@.subrange(0, i as int).filter(|s: Site| s.active),
            decreases self.sites@.len() - i,
        {
            proof {
                reveal(Seq::filter);
                assert(self.sites@.subrange(0, i + 1).drop_last() =~= self.sites@.subrange(0, i as int));
            }
            if self.sites[i].active {
                let ghost before = r@;
                r.push(&self.sites[i]);
                assert(r@.map_values(|s: &Site| *s) =~= before.map_values(|s: &Site| *s).push(self.sites@[i as int]));
            }
            i = i + 1;
        }
        assert(self.sites@.subrange(0, i as int) =~= self.sites@);
        r
    }

    /// Whether an active site with id `site_id` exists.
    pub fn has_site(&self, site_id: &str) -> (r: bool)
        ensures
            r == self.spec_get(site_id@) is Some,
    {
        self.get(site_id).is_some()
    }

    /// The ids of all sites, in registration order.
    pub fn site_ids(&self) -> (r: Vec<&str>)
        ensures
            r@.len() == self.sites@.len(),
            forall|i: int| 0 <= i < r@.len() ==> #[trigger] r@[i]@ == self.sites@[i].id@,
    {
        let mut r: Vec<&str> = Vec::new();
        let mut i: usize = 0;
        while i < self.sites.len()
            invariant
                i <= self.sites@.len(),
                r@.len() == i,
                forall|j: int| 0 <= j < i ==> #[trigger] r@[j]@ == self.sites@[j].id@,
            decreases self.sites@.len() - i,
        {
            r.push(self.sites[i].id.as_str());
            i = i + 1;
        }
        r
    }

    /// Number of sites.
    pub fn len(&self) -> (r: usize)
        ensures
            r == self.sites@.len(),
    {
        self.sites.len()
    }

    /// Whether there are no sites.
    pub fn is_empty(&self) -> (r: bool)
        ensures
            r == (self.sites@.len() == 0),
    {
        self.sites.len() == 0
    }
}

/// An unknown site id resolves exactly as an absent one: to the default site.
pub proof fn lemma_unknown_site_falls_back(reg: SiteRegistry, id: Seq<char>)
    requires
        reg.spec_get(id) is None,
    ensures
        reg.spec_get_or_default(Some(id)) == reg.spec_get_or_default(None),
{
}

/// Without an id, resolution gives the configured default site when it is
/// registered and active, else the first registered site, else nothing.
pub proof fn lemma_default_resolution(reg: SiteRegistry)
    ensures
        reg.spec_configured_default() is Some ==> reg.spec_get_or_default(None) == reg.spec_configured_default(),
        reg.spec_configured_default() is None && reg.sites@.len() > 0
            ==> reg.spec_get_or_default(None) == Some(reg.sites@[0]),
        reg.spec_configured_default() is None && reg.sites@.len() == 0
            ==> reg.spec_get_or_default(None) is None,
{
}

} // verus!

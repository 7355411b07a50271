//! Read-only lookup against huggian-core's product registry
//! (`GET /v1/products`), cached with a refresh interval.
//!
//! Uses the *read-scoped* platform key — never the admin key that can
//! register a product or rotate another product's API key. Distributing
//! the admin key into every consumer of this crate would hand each of them
//! platform-registration power over the whole system for what should be a
//! read-only slug lookup.
//!
//! The caller sends the requests and supplies the reading of a monotonic clock.

use crate::http::is_success;
use crate::text::decimal_text;
use crate::time::{is_fresh, Nanos};
use uuid::Uuid;
use vstd::hash_map::StringHashMap;
use vstd::prelude::*;

verus! {

/// A product's id, carried without looking into it.
#[verifier::external_type_specification]
#[verifier::external_body]
pub struct ExUuid(uuid::Uuid);

#[derive(Debug)]
pub struct Product {
    pub id: Uuid,
    pub name: String,
    pub slug: String,
    pub webhook_url: Option<String>,
    pub is_active: bool,
    pub created_at: String,
}

impl Clone for Product {
    fn clone(&self) -> (copy: Self)
        ensures
            copy == *self,
    {
        Product {
            id: self.id,
            name: self.name.clone(),
            slug: self.slug.clone(),
            webhook_url: match &self.webhook_url {
                Some(url) => Some(url.clone()),
                None => None,
            },
            is_active: self.is_active,
            created_at: self.created_at.clone(),
        }
    }
}

#[derive(Debug)]
pub enum ProductsError {
    Request(String),
    UpstreamStatus(u16),
    UnknownSlug(String),
}

impl ProductsError {
    /// The error in words.
    pub open spec fn text(self) -> Seq<char> {
        match self {
            ProductsError::Request(msg) => "request to huggian-core failed: "@ + msg@,
            ProductsError::UpstreamStatus(code) => "huggian-core returned status "@
                + crate::text::decimal(code as nat),
            ProductsError::UnknownSlug(slug) => "unknown product slug: "@ + slug@,
        }
    }

    /// The error in words.
    pub fn message(&self) -> (message: String)
        ensures
            message@ == self.text(),
    {
        match self {
            ProductsError::Request(msg) => "request to huggian-core failed: ".to_string().concat(
                msg.as_str(),
            ),
            ProductsError::UpstreamStatus(code) =>
                "huggian-core returned status ".to_string().concat(decimal_text(*code).as_str()),
            ProductsError::UnknownSlug(slug) => "unknown product slug: ".to_string().concat(
                slug.as_str(),
            ),
        }
    }
}

/// Default cache lifetime before `resolve` refetches the registry: five minutes.
pub const DEFAULT_TTL: Nanos = 300_000_000_000;

pub struct ProductsClient {
    base_url: String,
    read_key: String,
    ttl: Nanos,
    fetched_at: Option<Nanos>,
    by_slug: StringHashMap<Product>,
}

/// A [`ProductsClient`], its registry as a map from slug to product.
pub struct ProductsClientView {
    pub base_url: Seq<char>,
    pub read_key: Seq<char>,
    pub ttl: Nanos,
    pub fetched_at: Option<Nanos>,
    pub by_slug: Map<Seq<char>, Product>,
}

/// The request for the registry. Its header `X-Platform-Key` carries `platform_key`.
#[derive(Debug, Clone)]
pub struct ProductsRequest {
    pub url: String,
    pub platform_key: String,
}

/// A lookup or a refresh that waits for something. Only a lookup has a slug.
#[derive(Debug)]
pub enum ProductsFlow {
    Answer { slug: Option<String> },
    Body { slug: Option<String> },
}

/// What was waited for.
#[derive(Debug)]
pub enum ProductsEvent {
    /// The status of the answer, or why there is none.
    Answer(Result<u16, String>),
    /// The products in the body, or why they could not be read.
    Body(Result<Vec<Product>, String>),
}

/// How far a lookup or a refresh has come.
#[derive(Debug)]
pub enum ProductsStep {
    Send { request: ProductsRequest, then: ProductsFlow },
    ReadBody { then: ProductsFlow },
    /// A lookup is done with the product.
    Found(Product),
    /// A refresh is done.
    Refreshed,
    Failed(ProductsError),
}

impl ProductsFlow {
    /// Whether an event is of the kind that is waited for.
    pub open spec fn awaits(self, event: ProductsEvent) -> bool {
        match self {
            ProductsFlow::Answer { .. } => event is Answer,
            ProductsFlow::Body { .. } => event is Body,
        }
    }
}

/// A list of products by slug. Of two with the same slug the later one counts.
pub open spec fn registry(products: Seq<Product>) -> Map<Seq<char>, Product>
    decreases products.len(),
{
    if products.len() == 0 {
        Map::empty()
    } else {
        registry(products.drop_last()).insert(products.last().slug@, products.last())
    }
}

impl ProductsClientView {
    /// Whether the registry was fetched and is still trusted.
    pub open spec fn fresh(self, now: Nanos) -> bool {
        self.fetched_at matches Some(at) && crate::time::elapsed(at, now) < self.ttl
    }

    /// What the cache answers for a slug.
    pub open spec fn lookup(self, slug: Seq<char>, now: Nanos) -> Option<Product> {
        if self.fresh(now) && self.by_slug.contains_key(slug) {
            Some(self.by_slug[slug])
        } else {
            None
        }
    }

    /// The client after the registry was fetched.
    pub open spec fn refreshed(self, products: Seq<Product>, now: Nanos) -> ProductsClientView {
        ProductsClientView { fetched_at: Some(now), by_slug: registry(products), ..self }
    }

    /// Whether a step asks for the registry.
    pub open spec fn sends(self, step: ProductsStep, slug: Option<Seq<char>>) -> bool {
        &&& step matches ProductsStep::Send { request, then }
        &&& request.url@ == self.base_url + "/v1/products"@
        &&& request.platform_key@ == self.read_key
        &&& then matches ProductsFlow::Answer { slug: wanted }
        &&& wanted.deep_view() == slug
    }

    /// Whether a lookup or a refresh goes on as it should with an event.
    pub open spec fn resumes(
        self,
        flow: ProductsFlow,
        event: ProductsEvent,
        now: Nanos,
        after: ProductsClientView,
        step: ProductsStep,
    ) -> bool {
        match flow {
            ProductsFlow::Answer { slug } => after == self && step == match event->Answer_0 {
                Err(error) => ProductsStep::Failed(ProductsError::Request(error)),
                Ok(status) => if crate::http::success_status(status) {
                    ProductsStep::ReadBody { then: ProductsFlow::Body { slug } }
                } else {
                    ProductsStep::Failed(ProductsError::UpstreamStatus(status))
                },
            },
            ProductsFlow::Body { slug } => match event->Body_0 {
                Err(error) => after == self && step == ProductsStep::Failed(
                    ProductsError::Request(error),
                ),
                Ok(products) => {
                    &&& after == self.refreshed(products@, now)
                    &&& step == match slug {
                        None => ProductsStep::Refreshed,
                        Some(slug) => if registry(products@).contains_key(slug@) {
                            ProductsStep::Found(registry(products@)[slug@])
                        } else {
                            ProductsStep::Failed(ProductsError::UnknownSlug(slug))
                        },
                    }
                },
            },
        }
    }
}

impl View for ProductsClient {
    type V = ProductsClientView;

    closed spec fn view(&self) -> ProductsClientView {
        ProductsClientView {
            base_url: self.base_url@,
            read_key: self.read_key@,
            ttl: self.ttl,
            fetched_at: self.fetched_at,
            by_slug: self.by_slug@,
        }
    }
}

/// Sorts products by slug.
fn index_by_slug(products: Vec<Product>) -> (by_slug: StringHashMap<Product>)
    ensures
        by_slug@ == registry(products@),
{
    let ghost all = products@;
    let mut rest = products;
    let mut by_slug: StringHashMap<Product> = StringHashMap::new();
    assert(registry(rest@).union_prefer_right(by_slug@) =~= registry(all));
    while rest.len() > 0
        invariant
            registry(rest@).union_prefer_right(by_slug@) == registry(all),
        decreases rest@.len(),
    {
        let ghost before = rest@;
        let ghost indexed = by_slug@;
        let product = rest.pop().unwrap();
        let ghost added = product;
        assert(rest@ =~= before.drop_last());
        if !by_slug.contains_key(product.slug.as_str()) {
            by_slug.insert(product.slug.clone(), product);
        }
        assert(registry(rest@).union_prefer_right(by_slug@) =~= registry(before).union_prefer_right(
            indexed,
        ));
    }
    assert(registry(rest@).union_prefer_right(by_slug@) =~= by_slug@);
    by_slug
}

proof fn lemma_products_are_filed_under_their_slugs(products: Seq<Product>)
    ensures
        forall|slug: Seq<char>| #[trigger]
            registry(products).contains_key(slug) ==> registry(products)[slug].slug@ == slug,
    decreases products.len(),
{
    if products.len() > 0 {
        lemma_products_are_filed_under_their_slugs(products.drop_last());
    }
}

impl ProductsClient {
    /// Every product is filed under its own slug.
    #[verifier::type_invariant]
    spec fn filed_by_slug(self) -> bool {
        forall|slug: Seq<char>| #[trigger]
            self.by_slug@.contains_key(slug) ==> self.by_slug@[slug].slug@ == slug
    }

    pub fn new(base_url: &str, read_key: &str) -> (client: Self)
        ensures
            client@ == (ProductsClientView {
                base_url: base_url@,
                read_key: read_key@,
                ttl: DEFAULT_TTL,
                fetched_at: None,
                by_slug: Map::empty(),
            }),
    {
        Self::with_ttl(base_url, read_key, DEFAULT_TTL)
    }

    pub fn with_ttl(base_url: &str, read_key: &str, ttl: Nanos) -> (client: Self)
        ensures
            client@ == (ProductsClientView {
                base_url: base_url@,
                read_key: read_key@,
                ttl,
                fetched_at: None,
                by_slug: Map::empty(),
            }),
    {
        ProductsClient {
            base_url: base_url.to_string(),
            read_key: read_key.to_string(),
            ttl,
            fetched_at: None,
            by_slug: StringHashMap::new(),
        }
    }

    /// Resolves a product slug to its registry row.
    ///
    /// Refreshes the cache when stale, or when the slug isn't in the current
    /// cache at all — so a product registered after this process's last
    /// refresh resolves without waiting out a full TTL, at the cost of one
    /// extra round trip for a genuinely unknown slug.
    pub fn resolve(&self, slug: &str, now: Nanos) -> (step: ProductsStep)
        ensures
            match self@.lookup(slug@, now) {
                Some(product) => step == ProductsStep::Found(product),
                None => self@.sends(step, Some(slug@)),
            },
            step matches ProductsStep::Found(product) ==> product.slug@ == slug@,
    {
        if let Some(product) = self.cached(slug, now) {
            return ProductsStep::Found(product);
        }
        self.fetch(Some(slug.to_string()))
    }

    /// What the cache answers for a slug.
    pub fn cached(&self, slug: &str, now: Nanos) -> (product: Option<Product>)
        ensures
            product == self@.lookup(slug@, now),
            product matches Some(found) ==> found.slug@ == slug@,
    {
        proof {
            use_type_invariant(self);
        }
        let fresh = match self.fetched_at {
            Some(at) => is_fresh(at, now, self.ttl),
            None => false,
        };
        if fresh {
            match self.by_slug.get(slug) {
                Some(product) => Some(product.clone()),
                None => None,
            }
        } else {
            None
        }
    }

    /// Forces a re-fetch of the registry, regardless of TTL.
    pub fn refresh(&self) -> (step: ProductsStep)
        ensures
            self@.sends(step, None),
    {
        self.fetch(None)
    }

    fn fetch(&self, slug: Option<String>) -> (step: ProductsStep)
        ensures
            self@.sends(step, slug.deep_view()),
    {
        ProductsStep::Send {
            request: ProductsRequest {
                url: self.base_url.clone().concat("/v1/products"),
                platform_key: self.read_key.clone(),
            },
            then: ProductsFlow::Answer { slug },
        }
    }

    /// Goes on with a lookup or a refresh when what it waited for is there.
    pub fn resume(&mut self, flow: ProductsFlow, event: ProductsEvent, now: Nanos) -> (step:
        ProductsStep)
        requires
            flow.awaits(event),
        ensures
            old(self)@.resumes(flow, event, now, final(self)@, step),
            step matches ProductsStep::Found(product) ==> (flow matches ProductsFlow::Body {
                slug: Some(slug),
            } && product.slug@ == slug@),
    {
        match (flow, event) {
            (ProductsFlow::Answer { slug }, ProductsEvent::Answer(answer)) => match answer {
                Err(error) => ProductsStep::Failed(ProductsError::Request(error)),
                Ok(status) => if is_success(status) {
                    ProductsStep::ReadBody { then: ProductsFlow::Body { slug } }
                } else {
                    ProductsStep::Failed(ProductsError::UpstreamStatus(status))
                },
            },
            (ProductsFlow::Body { slug }, ProductsEvent::Body(body)) => match body {
                Err(error) => ProductsStep::Failed(ProductsError::Request(error)),
                Ok(products) => {
                    proof {
                        lemma_products_are_filed_under_their_slugs(products@);
                    }
                    self.by_slug = index_by_slug(products);
                    self.fetched_at = Some(now);
                    match slug {
                        None => ProductsStep::Refreshed,
                        Some(slug) => match self.by_slug.get(slug.as_str()) {
                            Some(product) => ProductsStep::Found(product.clone()),
                            None => ProductsStep::Failed(ProductsError::UnknownSlug(slug)),
                        },
                    }
                },
            },
            _ => {
                assert(false);
                ProductsStep::Refreshed
            },
        }
    }
}

// -- laws -------------------------------------------------------------------------

/// The registry holds under a slug the last product listed with it, and nothing
/// under a slug that none is listed with.
pub proof fn law_registry_holds_the_last_of_each_slug(products: Seq<Product>, slug: Seq<char>)
    ensures
        registry(products).contains_key(slug) <==> exists|i: int|
            0 <= i < products.len() && (#[trigger] products[i]).slug@ == slug,
        registry(products).contains_key(slug) ==> exists|i: int|
            {
                &&& 0 <= i < products.len()
                &&& #[trigger] products[i] == registry(products)[slug]
                &&& products[i].slug@ == slug
                &&& forall|j: int| i < j < products.len() ==> (#[trigger] products[j]).slug@ != slug
            },
    decreases products.len(),
{
    if products.len() > 0 {
        let before = products.drop_last();
        let last = products.len() - 1;
        law_registry_holds_the_last_of_each_slug(before, slug);
        assert(products[last] == products.last());
        if products.last().slug@ != slug {
            if registry(before).contains_key(slug) {
                let i = choose|i: int|
                    {
                        &&& 0 <= i < before.len()
                        &&& #[trigger] before[i] == registry(before)[slug]
                        &&& before[i].slug@ == slug
                        &&& forall|j: int|
                            i < j < before.len() ==> (#[trigger] before[j]).slug@ != slug
                    };
                assert(products[i] == before[i]);
                assert forall|j: int| i < j < products.len() implies (
                #[trigger] products[j]).slug@ != slug by {
                    if j < last {
                        assert(products[j] == before[j]);
                    }
                }
            } else {
                assert forall|i: int| 0 <= i < products.len() implies (
                #[trigger] products[i]).slug@ != slug by {
                    if i < last {
                        assert(products[i] == before[i]);
                    }
                }
            }
        }
    }
}

/// A lookup answers from the cache for as long as the registry is trusted, and a
/// lookup after that, or of a slug that the cache does not hold, fetches again.
pub proof fn law_registry_is_trusted_for_its_lifetime(
    client: ProductsClientView,
    products: Seq<Product>,
    slug: Seq<char>,
    fetched_at: Nanos,
    now: Nanos,
)
    ensures
        client.refreshed(products, fetched_at).lookup(slug, now) == if crate::time::elapsed(
            fetched_at,
            now,
        ) < client.ttl && registry(products).contains_key(slug) {
            Some(registry(products)[slug])
        } else {
            None
        },
{
}

/// A lookup that fetches the registry finds what is listed there, also a product that
/// was registered since the last fetch, and names the slug of one that is not.
pub proof fn law_lookup_finds_what_is_listed(
    client: ProductsClientView,
    slug: String,
    products: Vec<Product>,
    now: Nanos,
    after: ProductsClientView,
    step: ProductsStep,
)
    requires
        client.resumes(
            ProductsFlow::Body { slug: Some(slug) },
            ProductsEvent::Body(Ok(products)),
            now,
            after,
            step,
        ),
    ensures
        step == if registry(products@).contains_key(slug@) {
            ProductsStep::Found(registry(products@)[slug@])
        } else {
            ProductsStep::Failed(ProductsError::UnknownSlug(slug))
        },
{
}

/// A refresh that fails leaves the cache as it is.
pub proof fn law_failed_refresh_keeps_the_cache(
    client: ProductsClientView,
    flow: ProductsFlow,
    event: ProductsEvent,
    now: Nanos,
    after: ProductsClientView,
    step: ProductsStep,
)
    requires
        flow.awaits(event),
        client.resumes(flow, event, now, after, step),
        step matches ProductsStep::Failed(e) && e !is UnknownSlug,
    ensures
        after == client,
{
}

/// A lookup is answered from the cache exactly when the registry was fetched less than its
/// lifetime ago and holds the slug.
pub proof fn law_answers_come_from_a_fresh_registry(
    client: ProductsClientView,
    slug: Seq<char>,
    now: Nanos,
)
    ensures
        client.fetched_at is None ==> client.lookup(slug, now) is None,
        client.fetched_at matches Some(at) ==> (at <= now ==> (client.lookup(slug, now) is Some
            <==> now < at + client.ttl && client.by_slug.contains_key(slug))),
        client.lookup(slug, now) matches Some(product) ==> client.by_slug.contains_key(slug)
            && product == client.by_slug[slug],
{
}

/// A request for the registry goes to its one address with the read key, and remembers what
/// it is for.
pub proof fn law_registry_request(
    client: ProductsClientView,
    step: ProductsStep,
    slug: Option<Seq<char>>,
)
    requires
        client.sends(step, slug),
    ensures
        step matches ProductsStep::Send { request, then } && {
            &&& request.url@ == client.base_url + "/v1/products"@
            &&& request.platform_key@ == client.read_key
            &&& then matches ProductsFlow::Answer { slug: wanted }
            &&& wanted is None <==> slug is None
            &&& wanted matches Some(text) ==> slug == Some(text@)
        },
{
}

/// An answer is read on exactly when its status is from 200 to 299; otherwise the status,
/// or the reason why there is none, is the error. Either way nothing is cached yet.
pub proof fn law_answers_by_status(
    client: ProductsClientView,
    slug: Option<String>,
    answer: Result<u16, String>,
    now: Nanos,
    after: ProductsClientView,
    step: ProductsStep,
)
    requires
        client.resumes(
            ProductsFlow::Answer { slug },
            ProductsEvent::Answer(answer),
            now,
            after,
            step,
        ),
    ensures
        after == client,
        match answer {
            Err(error) => step == ProductsStep::Failed(ProductsError::Request(error)),
            Ok(status) => if 200 <= status <= 299 {
                step == (ProductsStep::ReadBody { then: ProductsFlow::Body { slug } })
            } else {
                step == ProductsStep::Failed(ProductsError::UpstreamStatus(status))
            },
        },
{
}

/// A body that could not be read is an error and changes nothing. One that was read is the
/// registry from then on, whatever was cached before; a refresh is then done.
pub proof fn law_bodies_become_the_registry(
    client: ProductsClientView,
    slug: Option<String>,
    body: Result<Vec<Product>, String>,
    now: Nanos,
    after: ProductsClientView,
    step: ProductsStep,
)
    requires
        client.resumes(ProductsFlow::Body { slug }, ProductsEvent::Body(body), now, after, step),
    ensures
        body matches Err(error) ==> after == client && step == ProductsStep::Failed(
            ProductsError::Request(error),
        ),
        body matches Ok(products) ==> {
            &&& after.fetched_at == Some(now)
            &&& after.ttl == client.ttl
            &&& after.base_url == client.base_url
            &&& after.read_key == client.read_key
            &&& forall|name: Seq<char>| #[trigger]
                after.by_slug.contains_key(name) <==> exists|i: int|
                    0 <= i < products@.len() && (#[trigger] products@[i]).slug@ == name
            &&& slug is None ==> step == ProductsStep::Refreshed
            &&& step is Refreshed ==> slug is None
        },
{
    if body is Ok {
        let products = body->Ok_0;
        assert forall|name: Seq<char>| #[trigger]
            after.by_slug.contains_key(name) <==> exists|i: int|
                0 <= i < products@.len() && (#[trigger] products@[i]).slug@ == name by {
            law_registry_holds_the_last_of_each_slug(products@, name);
        }
    }
}

/// A lookup that fetched the registry gives a product of the list with the slug asked for,
/// and fails exactly when the list has none.
pub proof fn law_lookup_gives_a_listed_product(
    client: ProductsClientView,
    slug: String,
    products: Vec<Product>,
    now: Nanos,
    after: ProductsClientView,
    step: ProductsStep,
)
    requires
        client.resumes(
            ProductsFlow::Body { slug: Some(slug) },
            ProductsEvent::Body(Ok(products)),
            now,
            after,
            step,
        ),
    ensures
        step matches ProductsStep::Found(product) ==> product.slug@ == slug@ && exists|i: int|
            0 <= i < products@.len() && #[trigger] products@[i] == product,
        (exists|i: int| 0 <= i < products@.len() && (#[trigger] products@[i]).slug@ == slug@)
            <==> step is Found,
        !(step is Found) ==> step == ProductsStep::Failed(ProductsError::UnknownSlug(slug)),
{
    law_registry_holds_the_last_of_each_slug(products@, slug@);
}

/// An error in words ends with what went wrong.
pub proof fn law_products_errors_tell_everything(e: ProductsError)
    ensures
        e matches ProductsError::Request(why) ==> e.text() == "request to huggian-core failed: "@
            + why@,
        e matches ProductsError::UpstreamStatus(status) ==> e.text()
            == "huggian-core returned status "@ + crate::text::decimal(status as nat),
        e matches ProductsError::UnknownSlug(slug) ==> e.text() == "unknown product slug: "@
            + slug@,
{
}

/// A new client knows its address and key, holds nothing, and trusts the registry for five
/// minutes unless it is told for how long.
pub proof fn law_new_clients_hold_nothing(
    base_url: &str,
    read_key: &str,
    ttl: Nanos,
    client: ProductsClient,
    timed: ProductsClient,
    slug: Seq<char>,
    now: Nanos,
)
    requires
        call_ensures(ProductsClient::new, (base_url, read_key), client),
        call_ensures(ProductsClient::with_ttl, (base_url, read_key, ttl), timed),
    ensures
        client@.ttl == 300_000_000_000,
        timed@.ttl == ttl,
        client@.base_url == base_url@ && timed@.base_url == base_url@,
        client@.read_key == read_key@ && timed@.read_key == read_key@,
        client@.lookup(slug, now) is None,
        timed@.lookup(slug, now) is None,
{
}

/// A lookup that the cache answers makes no request; any other asks for the registry with
/// the slug in mind, and so does a refresh, for none.
pub proof fn law_when_the_registry_is_asked_for(
    client: &ProductsClient,
    slug: &str,
    now: Nanos,
    step: ProductsStep,
    refresh: ProductsStep,
)
    requires
        call_ensures(ProductsClient::resolve, (client, slug, now), step),
        call_ensures(ProductsClient::refresh, (client,), refresh),
    ensures
        client@.lookup(slug@, now) matches Some(product) ==> step == ProductsStep::Found(product),
        client@.lookup(slug@, now) is None ==> (step matches ProductsStep::Send { request, then } && {
            &&& request.url@ == client@.base_url + "/v1/products"@
            &&& request.platform_key@ == client@.read_key
            &&& then matches ProductsFlow::Answer { slug: Some(wanted) }
            &&& wanted@ == slug@
        }),
        step matches ProductsStep::Found(product) ==> product.slug@ == slug@,
        refresh matches ProductsStep::Send { request, then } && {
            &&& request.url@ == client@.base_url + "/v1/products"@
            &&& request.platform_key@ == client@.read_key
            &&& then matches ProductsFlow::Answer { slug: None }
        },
{
}

/// A body that was read answers the lookup it was fetched for, and every later one for as
/// long as the registry is trusted.
pub proof fn law_fetched_products_are_looked_up(
    client: &mut ProductsClient,
    slug: String,
    products: Vec<Product>,
    now: Nanos,
    step: ProductsStep,
    name: &str,
    later: Nanos,
    cached: Option<Product>,
)
    requires
        call_ensures(
            ProductsClient::resume,
            (
                client,
                ProductsFlow::Body { slug: Some(slug) },
                ProductsEvent::Body(Ok(products)),
                now,
            ),
            step,
        ),
        call_ensures(ProductsClient::cached, (final(client), name, later), cached),
        now <= later,
    ensures
        step matches ProductsStep::Found(product) ==> product.slug@ == slug@,
        step is Found <==> exists|i: int|
            0 <= i < products@.len() && (#[trigger] products@[i]).slug@ == slug@,
        later >= now + old(client)@.ttl ==> cached is None,
        later < now + old(client)@.ttl ==> (cached is Some <==> exists|i: int|
            0 <= i < products@.len() && (#[trigger] products@[i]).slug@ == name@),
        later < now + old(client)@.ttl && name@ == slug@ ==> (step matches ProductsStep::Found(
            product,
        ) ==> cached == Some(product)),
{
    law_registry_holds_the_last_of_each_slug(products@, slug@);
    law_registry_holds_the_last_of_each_slug(products@, name@);
}

} // verus!

use huggian_client::products::{
    Product, ProductsClient, ProductsError, ProductsEvent, ProductsRequest, ProductsStep,
    DEFAULT_TTL,
};
use huggian_client::time::Nanos;
use uuid::Uuid;

const MS: Nanos = 1_000_000;

fn product(slug: &str, name: &str) -> Product {
    Product {
        id: Uuid::parse_str("e91e4a01-49d9-4a56-a68a-4998bf61c2f0").unwrap(),
        name: name.into(),
        slug: slug.into(),
        webhook_url: None,
        is_active: true,
        created_at: "2026-05-05T00:04:43.361Z".into(),
    }
}

fn sample() -> Vec<Product> {
    vec![product("ez-catalog", "EZ Catalog")]
}

/// Goes on until the step is final, answering each request with `status` and
/// `products`, and recording the requests.
fn run(
    client: &mut ProductsClient,
    start: ProductsStep,
    now: Nanos,
    status: u16,
    products: Vec<Product>,
    requests: &mut Vec<ProductsRequest>,
) -> Result<Option<Product>, ProductsError> {
    let mut step = start;
    loop {
        step = match step {
            ProductsStep::Send { request, then } => {
                requests.push(request);
                client.resume(then, ProductsEvent::Answer(Ok(status)), now)
            }
            ProductsStep::ReadBody { then } => {
                client.resume(then, ProductsEvent::Body(Ok(products.clone())), now)
            }
            ProductsStep::Found(product) => return Ok(Some(product)),
            ProductsStep::Refreshed => return Ok(None),
            ProductsStep::Failed(e) => return Err(e),
        }
    }
}

fn resolve(
    client: &mut ProductsClient,
    slug: &str,
    now: Nanos,
    status: u16,
    requests: &mut Vec<ProductsRequest>,
) -> Result<Product, ProductsError> {
    let start = client.resolve(slug, now);
    run(client, start, now, status, sample(), requests).map(Option::unwrap)
}

#[test]
fn resolve_fetches_and_caches_using_the_read_key() {
    let mut client = ProductsClient::new("http://core.test", "read-key");
    let mut requests = vec![];
    let product = resolve(&mut client, "ez-catalog", 0, 200, &mut requests).unwrap();
    assert_eq!(product.slug, "ez-catalog");
    assert!(product.webhook_url.is_none());
    assert_eq!(product.id, Uuid::parse_str("e91e4a01-49d9-4a56-a68a-4998bf61c2f0").unwrap());

    // Cached — no second request.
    resolve(&mut client, "ez-catalog", DEFAULT_TTL - 1, 200, &mut requests).unwrap();
    assert_eq!(requests.len(), 1);
    assert_eq!(requests[0].url, "http://core.test/v1/products");
    assert_eq!(requests[0].platform_key, "read-key");
}

#[test]
fn resolve_returns_unknown_slug_for_a_slug_not_in_the_registry() {
    let mut client = ProductsClient::new("http://core.test", "read-key");
    let err = resolve(&mut client, "does-not-exist", 0, 200, &mut vec![]).unwrap_err();
    assert!(matches!(err, ProductsError::UnknownSlug(slug) if slug == "does-not-exist"));
}

#[test]
fn resolve_surfaces_a_non_success_upstream_status() {
    let mut client = ProductsClient::new("http://core.test", "wrong-key");
    let err = resolve(&mut client, "ez-catalog", 0, 403, &mut vec![]).unwrap_err();
    assert!(matches!(err, ProductsError::UpstreamStatus(403)));
}

#[test]
fn resolve_refetches_once_the_ttl_expires() {
    let mut client = ProductsClient::with_ttl("http://core.test", "read-key", MS);
    let mut requests = vec![];
    resolve(&mut client, "ez-catalog", 0, 200, &mut requests).unwrap();
    resolve(&mut client, "ez-catalog", 5 * MS, 200, &mut requests).unwrap();
    assert_eq!(requests.len(), 2);
}

#[test]
fn an_unknown_slug_is_asked_for_again_though_the_registry_is_fresh() {
    let mut client = ProductsClient::new("http://core.test", "k");
    let mut requests = vec![];
    resolve(&mut client, "ez-catalog", 0, 200, &mut requests).unwrap();
    assert!(resolve(&mut client, "new", 1, 200, &mut requests).is_err());
    assert_eq!(requests.len(), 2);
    let start = client.resolve("new", 2);
    let all = vec![product("ez-catalog", "EZ Catalog"), product("new", "New")];
    let found = run(&mut client, start, 2, 200, all, &mut requests).unwrap().unwrap();
    assert_eq!(found.name, "New");
}

#[test]
fn a_failed_refresh_keeps_the_registry() {
    let mut client = ProductsClient::new("http://core.test", "k");
    resolve(&mut client, "ez-catalog", 0, 200, &mut vec![]).unwrap();
    let start = client.refresh();
    assert!(matches!(
        run(&mut client, start, 1, 500, vec![], &mut vec![]),
        Err(ProductsError::UpstreamStatus(500))
    ));
    assert!(client.cached("ez-catalog", 1).is_some());
    let unsent = match client.refresh() {
        ProductsStep::Send { then, .. } => {
            client.resume(then, ProductsEvent::Answer(Err("refused".into())), 1)
        }
        other => panic!("expected a request, got {other:?}"),
    };
    assert!(matches!(unsent, ProductsStep::Failed(ProductsError::Request(e)) if e == "refused"));
    let step = match client.refresh() {
        ProductsStep::Send { then, .. } => client.resume(then, ProductsEvent::Answer(Ok(200)), 1),
        other => panic!("expected a request, got {other:?}"),
    };
    let unread = match step {
        ProductsStep::ReadBody { then } => {
            client.resume(then, ProductsEvent::Body(Err("eof".into())), 1)
        }
        other => panic!("expected a body, got {other:?}"),
    };
    assert!(matches!(unread, ProductsStep::Failed(ProductsError::Request(e)) if e == "eof"));
    assert!(client.cached("ez-catalog", 1).is_some());
}

#[test]
fn a_refresh_replaces_the_registry_and_the_later_of_two_slugs_counts() {
    let mut client = ProductsClient::new("http://core.test", "k");
    resolve(&mut client, "ez-catalog", 0, 200, &mut vec![]).unwrap();
    let start = client.refresh();
    let all = vec![product("a", "first"), product("b", "B"), product("a", "second")];
    assert!(run(&mut client, start, 1, 200, all, &mut vec![]).unwrap().is_none());
    assert_eq!(client.cached("a", 1).unwrap().name, "second");
    assert_eq!(client.cached("b", 1).unwrap().name, "B");
    assert!(client.cached("ez-catalog", 1).is_none());
}

#[test]
fn a_registry_without_a_lifetime_is_fetched_for_every_lookup() {
    let mut client = ProductsClient::with_ttl("http://core.test", "read-key", 0);
    let mut requests = vec![];
    for _ in 0..2 {
        let product = resolve(&mut client, "ez-catalog", 0, 200, &mut requests).unwrap();
        assert_eq!(product.slug, "ez-catalog");
    }
    assert_eq!(requests.len(), 2);
    assert!(client.cached("ez-catalog", 0).is_none());
    assert!(matches!(
        resolve(&mut client, "unknown", 0, 200, &mut requests),
        Err(ProductsError::UnknownSlug(_))
    ));
}

#[test]
fn products_errors_speak_in_words() {
    assert_eq!(
        ProductsError::Request("timed out".into()).message(),
        "request to huggian-core failed: timed out"
    );
    assert_eq!(ProductsError::UpstreamStatus(403).message(), "huggian-core returned status 403");
    assert_eq!(ProductsError::UnknownSlug("x".into()).message(), "unknown product slug: x");
}

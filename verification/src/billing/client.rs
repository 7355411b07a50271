//! The subscription subset of huggian-core's API: what each call sends, and what
//! each answer means.
//!
//! One attempt per call, no retry, no idempotency header: core reads none on
//! these routes. It is idempotent by natural key instead — `POST /customers`
//! and `POST /subscriptions` return the existing row — so a retried call is safe
//! by construction, and the caller decides whether to retry.

use crate::billing::error::BillingError;
use crate::billing::types::{Customer, Subscription};
use crate::http::is_success;
use crate::time::{Nanos, Timestamp};
use crate::url::{encoded_len, join_url, BASE_GROWTH, MAX_URL_TEXT, URL_MARGIN};
use vstd::prelude::*;

verus! {

/// Reads that sit on the request path of a gated call get a tight ceiling so a
/// cold cache cannot hold a request for the shared client's full timeout.
pub const DEFAULT_READ_TIMEOUT: Nanos = 5_000_000_000;

#[derive(Debug, Clone)]
pub struct BillingConfig {
    pub base_url: String,
    /// The product's own `X-Api-Key` (e.g. `COCHERA_HUGGIAN_API_KEY`). Core
    /// derives the product — and so the customer namespace — from it.
    pub api_key: String,
    pub read_timeout: Nanos,
}

impl BillingConfig {
    pub fn new(base_url: &str, api_key: &str) -> (cfg: Self)
        ensures
            cfg.base_url@ == base_url@,
            cfg.api_key@ == api_key@,
            cfg.read_timeout == DEFAULT_READ_TIMEOUT,
    {
        BillingConfig {
            base_url: base_url.to_string(),
            api_key: api_key.to_string(),
            read_timeout: DEFAULT_READ_TIMEOUT,
        }
    }
}

#[derive(Debug, Clone, Copy, PartialEq, Eq, Structural)]
pub enum Method {
    Get,
    Post,
    Delete,
}

/// The body of `POST /v1/customers`.
#[derive(Debug, Clone)]
pub struct CreateCustomer {
    pub external_id: String,
    pub name: String,
    pub email: String,
    pub metadata: Option<serde_json::Value>,
}

/// The body of `POST /v1/subscriptions`, its instants in RFC 3339.
#[derive(Debug, Clone)]
pub struct CreateSubscription {
    pub customer_id: String,
    pub plan_id: String,
    pub payment_provider: String,
    pub current_period_start: String,
    pub current_period_end: String,
    pub trial_ends_at: Option<String>,
}

/// The body of `POST /v1/payments/checkout`.
#[derive(Debug, Clone)]
pub struct Checkout {
    pub subscription_id: String,
    pub provider: String,
    pub customer_email: String,
    pub back_url: String,
    pub success_url: Option<String>,
}

/// The body of `DELETE /v1/subscriptions/{id}`.
#[derive(Debug, Clone)]
pub struct Cancel {
    pub reason: Option<String>,
}

#[derive(Debug, Clone)]
pub enum RequestBody {
    Empty,
    CreateCustomer(CreateCustomer),
    CreateSubscription(CreateSubscription),
    Checkout(Checkout),
    Cancel(Cancel),
}

/// One HTTP request to core. Its header `X-Api-Key` carries `api_key`.
#[derive(Debug, Clone)]
pub struct Request {
    /// What the request is for, as errors name it.
    pub op: &'static str,
    pub method: Method,
    pub url: String,
    /// A query parameter and its value.
    pub query: Option<(&'static str, &'static str)>,
    /// A ceiling for this request alone.
    pub timeout: Option<Nanos>,
    pub api_key: String,
    pub body: RequestBody,
}

/// A [`RequestBody`], its texts as sequences of characters.
pub enum RequestBodyView {
    Empty,
    CreateCustomer {
        external_id: Seq<char>,
        name: Seq<char>,
        email: Seq<char>,
        metadata: Option<serde_json::Value>,
    },
    CreateSubscription {
        customer_id: Seq<char>,
        plan_id: Seq<char>,
        payment_provider: Seq<char>,
        current_period_start: Seq<char>,
        current_period_end: Seq<char>,
        trial_ends_at: Option<Seq<char>>,
    },
    Checkout {
        subscription_id: Seq<char>,
        provider: Seq<char>,
        customer_email: Seq<char>,
        back_url: Seq<char>,
        success_url: Option<Seq<char>>,
    },
    Cancel { reason: Option<Seq<char>> },
}

/// A [`Request`], its texts as sequences of characters.
pub struct RequestView {
    pub op: Seq<char>,
    pub method: Method,
    pub url: Seq<char>,
    pub query: Option<(Seq<char>, Seq<char>)>,
    pub timeout: Option<Nanos>,
    pub api_key: Seq<char>,
    pub body: RequestBodyView,
}

impl View for RequestBody {
    type V = RequestBodyView;

    open spec fn view(&self) -> RequestBodyView {
        match *self {
            RequestBody::Empty => RequestBodyView::Empty,
            RequestBody::CreateCustomer(body) => RequestBodyView::CreateCustomer {
                external_id: body.external_id@,
                name: body.name@,
                email: body.email@,
                metadata: body.metadata,
            },
            RequestBody::CreateSubscription(body) => RequestBodyView::CreateSubscription {
                customer_id: body.customer_id@,
                plan_id: body.plan_id@,
                payment_provider: body.payment_provider@,
                current_period_start: body.current_period_start@,
                current_period_end: body.current_period_end@,
                trial_ends_at: body.trial_ends_at.deep_view(),
            },
            RequestBody::Checkout(body) => RequestBodyView::Checkout {
                subscription_id: body.subscription_id@,
                provider: body.provider@,
                customer_email: body.customer_email@,
                back_url: body.back_url@,
                success_url: body.success_url.deep_view(),
            },
            RequestBody::Cancel(body) => RequestBodyView::Cancel {
                reason: body.reason.deep_view(),
            },
        }
    }
}

impl View for Request {
    type V = RequestView;

    open spec fn view(&self) -> RequestView {
        RequestView {
            op: self.op@,
            method: self.method,
            url: self.url@,
            query: match self.query {
                Some((key, value)) => Some((key@, value@)),
                None => None,
            },
            timeout: self.timeout,
            api_key: self.api_key@,
            body: self.body@,
        }
    }
}

impl BillingConfig {
    /// The base URL with path segments appended, or the error of a base URL that
    /// cannot be built on.
    pub open spec fn joined(self, segments: Seq<Seq<char>>) -> Result<
        Seq<char>,
        crate::billing::error::BillingErrorView,
    > {
        match crate::url::base_url_parts(self.base_url@) {
            Ok(_) => Ok(crate::url::url_with_segments(self.base_url@, segments)),
            Err(detail) => Err(
                crate::billing::error::BillingErrorView::Decode {
                    op: "build url"@,
                    detail: match detail {
                        Some(message) => message,
                        None => "base url cannot carry a path"@,
                    },
                },
            ),
        }
    }

    /// How the URL is spelled where the base is a plain HTTP one and no segment hides a
    /// directory step: the segments follow the base's path, percent-encoded.
    pub open spec fn spelled(self, segments: Seq<Seq<char>>, url: Seq<char>) -> bool {
        crate::url::is_http(self.base_url@) && crate::url::plain_path(segments) ==> url
            == (crate::url::base_url_parts(self.base_url@)->Ok_0).0 + crate::url::path_of(segments)
            + (crate::url::base_url_parts(self.base_url@)->Ok_0).1
    }

    /// A request without a body, with the product's key.
    pub open spec fn bare_request(self, op: Seq<char>, method: Method, url: Seq<char>) -> RequestView {
        RequestView {
            op,
            method,
            url,
            query: None,
            timeout: None,
            api_key: self.api_key@,
            body: RequestBodyView::Empty,
        }
    }

    /// Whether a URL with this id in its path is short enough to be built.
    pub open spec fn fits(self, id: Seq<char>) -> bool {
        crate::url::grown_len(self.base_url@, crate::url::encoded_segment(id).len())
            <= MAX_URL_TEXT
    }
}

/// The text of an instant in a request.
pub open spec fn instant_text(at: Timestamp) -> Seq<char> {
    crate::time::rfc3339_text(at.secs, at.nanos)
}

/// Whether a text stands for an instant, as is owed within the years 0 to 9999.
pub open spec fn reads_back(text: Seq<char>, at: Timestamp) -> bool {
    crate::time::YEAR_0_SECS <= at.secs <= crate::time::YEAR_9999_SECS
        ==> crate::billing::state::instant_of(text) == Some(at)
}

/// Copies a text that may be absent.
fn owned(text: Option<&str>) -> (copy: Option<String>)
    ensures
        copy.deep_view() == text.deep_view(),
{
    match text {
        Some(text) => Some(text.to_string()),
        None => None,
    }
}

/// A path of a few short segments, of which the last may be an id, fits the margin
/// next to that id.
proof fn lemma_short_path_length(segments: Seq<Seq<char>>, id: Seq<char>)
    requires
        2 <= segments.len() <= 4,
        forall|i: int| 0 <= i < segments.len() - 1 ==> #[trigger] segments[i].len() <= 20,
        segments.last() == id || (id.len() == 0 && segments.last().len() <= 20),
    ensures
        crate::url::path_len(segments) <= crate::url::encoded_segment(id).len() + URL_MARGIN,
{
    reveal_with_fuel(crate::url::path_len, 5);
    crate::url::lemma_encoded_segment_length(segments[0]);
    crate::url::lemma_encoded_segment_length(segments[1]);
    if segments.len() > 2 {
        crate::url::lemma_encoded_segment_length(segments[2]);
    }
    if segments.len() > 3 {
        crate::url::lemma_encoded_segment_length(segments[3]);
    }
}

#[derive(Debug, Clone)]
pub struct BillingClient {
    pub cfg: BillingConfig,
}

impl BillingClient {
    #[must_use]
    pub fn new(cfg: BillingConfig) -> (client: Self)
        ensures
            client.cfg == cfg,
    {
        BillingClient { cfg }
    }

    /// Whether a URL with this id in its path is short enough to be built.
    pub fn url_fits(&self, id: &str) -> (fits: bool)
        ensures
            fits == self.cfg.fits(id@),
    {
        let base: usize = self.cfg.base_url.as_str().unicode_len();
        proof {
            assert(BASE_GROWTH * base <= 128 * usize::MAX) by (nonlinear_arith)
                requires
                    BASE_GROWTH == 128,
                    base <= usize::MAX,
            ;
        }
        BASE_GROWTH as u128 * base as u128 + encoded_len(id) <= MAX_URL_TEXT as u128
    }

    /// Base URL + path segments, percent-encoded so an id can never add a path.
    fn url(&self, segments: &Vec<&str>) -> (url: Result<String, BillingError>)
        requires
            crate::url::grown_len(
                self.cfg.base_url@,
                crate::url::path_len(crate::url::texts(segments@)),
            ) <= MAX_URL_TEXT + URL_MARGIN,
        ensures
            match self.cfg.joined(crate::url::texts(segments@)) {
                Ok(joined) => url matches Ok(url) && url@ == joined && self.cfg.spelled(
                    crate::url::texts(segments@),
                    joined,
                ),
                Err(error) => url matches Err(e) && e@ == error,
            },
    {
        match join_url(self.cfg.base_url.as_str(), segments) {
            Ok(url) => Ok(url),
            Err(Some(detail)) => Err(BillingError::Decode { op: "build url", detail }),
            Err(None) => Err(
                BillingError::Decode {
                    op: "build url",
                    detail: "base url cannot carry a path".to_string(),
                },
            ),
        }
    }

    /// A request without a body.
    fn request(&self, op: &'static str, method: Method, url: String) -> (request: Request)
        ensures
            request@ == self.cfg.bare_request(op@, method, url@),
    {
        Request {
            op,
            method,
            url,
            query: None,
            timeout: None,
            api_key: self.cfg.api_key.clone(),
            body: RequestBody::Empty,
        }
    }

    /// `GET /v1/customers/external/{id}`; a 404 is no customer, see
    /// [`found_customer`].
    pub fn find_customer_by_external_id(&self, external_id: &str) -> (built: Result<
        Request,
        BillingError,
    >)
        requires
            self.cfg.fits(external_id@),
        ensures
            match self.cfg.joined(seq!["v1"@, "customers"@, "external"@, external_id@]) {
                Ok(url) => built matches Ok(request) && self.cfg.spelled(
                    seq!["v1"@, "customers"@, "external"@, external_id@],
                    url,
                ) && request@ == (RequestView {
                    timeout: Some(self.cfg.read_timeout),
                    ..self.cfg.bare_request("find customer"@, Method::Get, url)
                }),
                Err(error) => built matches Err(e) && e@ == error,
            },
    {
        let segments = vec!["v1", "customers", "external", external_id];
        proof {
            let path = seq!["v1"@, "customers"@, "external"@, external_id@];
            assert(crate::url::texts(segments@) =~= path);
            reveal_strlit("v1");
            reveal_strlit("customers");
            reveal_strlit("external");
            lemma_short_path_length(path, external_id@);
        }
        let url = match self.url(&segments) {
            Ok(url) => url,
            Err(e) => {
                return Err(e);
            },
        };
        let mut request = self.request("find customer", Method::Get, url);
        request.timeout = Some(self.cfg.read_timeout);
        Ok(request)
    }

    /// `POST /v1/customers`. Returns the existing customer when one already
    /// exists for this product + `external_id`.
    pub fn create_customer(
        &self,
        external_id: &str,
        name: &str,
        email: &str,
        metadata: Option<serde_json::Value>,
    ) -> (built: Result<Request, BillingError>)
        requires
            self.cfg.fits(seq![]),
        ensures
            match self.cfg.joined(seq!["v1"@, "customers"@]) {
                Ok(url) => built matches Ok(request) && self.cfg.spelled(
                    seq!["v1"@, "customers"@],
                    url,
                ) && request@ == (RequestView {
                    body: RequestBodyView::CreateCustomer {
                        external_id: external_id@,
                        name: name@,
                        email: email@,
                        metadata,
                    },
                    ..self.cfg.bare_request("create customer"@, Method::Post, url)
                }),
                Err(error) => built matches Err(e) && e@ == error,
            },
    {
        let segments = vec!["v1", "customers"];
        proof {
            let path = seq!["v1"@, "customers"@];
            assert(crate::url::texts(segments@) =~= path);
            reveal_strlit("v1");
            reveal_strlit("customers");
            lemma_short_path_length(path, seq![]);
        }
        let url = match self.url(&segments) {
            Ok(url) => url,
            Err(e) => {
                return Err(e);
            },
        };
        let mut request = self.request("create customer", Method::Post, url);
        request.body = RequestBody::CreateCustomer(
            CreateCustomer {
                external_id: external_id.to_string(),
                name: name.to_string(),
                email: email.to_string(),
                metadata,
            },
        );
        Ok(request)
    }

    /// `GET /v1/plans?kind=plan`: this product's **active** plans only.
    pub fn list_plans(&self) -> (built: Result<Request, BillingError>)
        requires
            self.cfg.fits(seq![]),
        ensures
            match self.cfg.joined(seq!["v1"@, "plans"@]) {
                Ok(url) => built matches Ok(request) && self.cfg.spelled(
                    seq!["v1"@, "plans"@],
                    url,
                ) && request@ == (RequestView {
                    query: Some(("kind"@, "plan"@)),
                    ..self.cfg.bare_request("list plans"@, Method::Get, url)
                }),
                Err(error) => built matches Err(e) && e@ == error,
            },
    {
        let segments = vec!["v1", "plans"];
        proof {
            let path = seq!["v1"@, "plans"@];
            assert(crate::url::texts(segments@) =~= path);
            reveal_strlit("v1");
            reveal_strlit("plans");
            lemma_short_path_length(path, seq![]);
        }
        let url = match self.url(&segments) {
            Ok(url) => url,
            Err(e) => {
                return Err(e);
            },
        };
        let mut request = self.request("list plans", Method::Get, url);
        request.query = Some(("kind", "plan"));
        Ok(request)
    }

    /// `POST /v1/subscriptions`. With `trial_ends_at` the subscription starts
    /// `trialing` and nothing is charged; without it, `incomplete`. Core requires
    /// `period_end == plan.period_end_from(period_start)`. Returns the customer's
    /// open subscription for the plan if one already exists.
    pub fn create_subscription(
        &self,
        customer_id: &str,
        plan_id: &str,
        payment_provider: &str,
        period_start: Timestamp,
        period_end: Timestamp,
        trial_ends_at: Option<Timestamp>,
    ) -> (built: Result<Request, BillingError>)
        requires
            self.cfg.fits(seq![]),
            period_start.valid(),
            period_end.valid(),
            trial_ends_at matches Some(end) ==> end.valid(),
        ensures
            match self.cfg.joined(seq!["v1"@, "subscriptions"@]) {
                Ok(url) => built matches Ok(request) && self.cfg.spelled(
                    seq!["v1"@, "subscriptions"@],
                    url,
                ) && request@ == (RequestView {
                    body: RequestBodyView::CreateSubscription {
                        customer_id: customer_id@,
                        plan_id: plan_id@,
                        payment_provider: payment_provider@,
                        current_period_start: instant_text(period_start),
                        current_period_end: instant_text(period_end),
                        trial_ends_at: match trial_ends_at {
                            Some(end) => Some(instant_text(end)),
                            None => None,
                        },
                    },
                    ..self.cfg.bare_request("create subscription"@, Method::Post, url)
                }),
                Err(error) => built matches Err(e) && e@ == error,
            },
            built is Ok ==> {
                &&& reads_back(instant_text(period_start), period_start)
                &&& reads_back(instant_text(period_end), period_end)
                &&& trial_ends_at matches Some(end) ==> reads_back(instant_text(end), end)
            },
    {
        let segments = vec!["v1", "subscriptions"];
        proof {
            let path = seq!["v1"@, "subscriptions"@];
            assert(crate::url::texts(segments@) =~= path);
            reveal_strlit("v1");
            reveal_strlit("subscriptions");
            lemma_short_path_length(path, seq![]);
        }
        let url = match self.url(&segments) {
            Ok(url) => url,
            Err(e) => {
                return Err(e);
            },
        };
        let mut request = self.request("create subscription", Method::Post, url);
        request.body = RequestBody::CreateSubscription(
            CreateSubscription {
                customer_id: customer_id.to_string(),
                plan_id: plan_id.to_string(),
                payment_provider: payment_provider.to_string(),
                current_period_start: period_start.to_rfc3339(),
                current_period_end: period_end.to_rfc3339(),
                trial_ends_at: match trial_ends_at {
                    Some(end) => Some(end.to_rfc3339()),
                    None => None,
                },
            },
        );
        Ok(request)
    }

    /// `GET /v1/subscriptions/customer/{id}`, of which [`plan_rows`] keeps the plan
    /// rows. An unknown customer is an empty list, not a 404.
    pub fn customer_subscriptions(&self, customer_id: &str) -> (built: Result<
        Request,
        BillingError,
    >)
        requires
            self.cfg.fits(customer_id@),
        ensures
            match self.cfg.joined(seq!["v1"@, "subscriptions"@, "customer"@, customer_id@]) {
                Ok(url) => built matches Ok(request) && self.cfg.spelled(
                    seq!["v1"@, "subscriptions"@, "customer"@, customer_id@],
                    url,
                ) && request@ == (RequestView {
                    timeout: Some(self.cfg.read_timeout),
                    ..self.cfg.bare_request("get customer subscriptions"@, Method::Get, url)
                }),
                Err(error) => built matches Err(e) && e@ == error,
            },
    {
        let segments = vec!["v1", "subscriptions", "customer", customer_id];
        proof {
            let path = seq!["v1"@, "subscriptions"@, "customer"@, customer_id@];
            assert(crate::url::texts(segments@) =~= path);
            reveal_strlit("v1");
            reveal_strlit("subscriptions");
            reveal_strlit("customer");
            lemma_short_path_length(path, customer_id@);
        }
        let url = match self.url(&segments) {
            Ok(url) => url,
            Err(e) => {
                return Err(e);
            },
        };
        let mut request = self.request("get customer subscriptions", Method::Get, url);
        request.timeout = Some(self.cfg.read_timeout);
        Ok(request)
    }

    /// `POST /v1/payments/checkout`. `customer_email` may be `""`: core then
    /// uses the email on the customer record.
    pub fn initiate_checkout(
        &self,
        subscription_id: &str,
        provider: &str,
        customer_email: &str,
        back_url: &str,
        success_url: Option<&str>,
    ) -> (built: Result<Request, BillingError>)
        requires
            self.cfg.fits(seq![]),
        ensures
            match self.cfg.joined(seq!["v1"@, "payments"@, "checkout"@]) {
                Ok(url) => built matches Ok(request) && self.cfg.spelled(
                    seq!["v1"@, "payments"@, "checkout"@],
                    url,
                ) && request@ == (RequestView {
                    body: RequestBodyView::Checkout {
                        subscription_id: subscription_id@,
                        provider: provider@,
                        customer_email: customer_email@,
                        back_url: back_url@,
                        success_url: success_url.deep_view(),
                    },
                    ..self.cfg.bare_request("initiate checkout"@, Method::Post, url)
                }),
                Err(error) => built matches Err(e) && e@ == error,
            },
    {
        let segments = vec!["v1", "payments", "checkout"];
        proof {
            let path = seq!["v1"@, "payments"@, "checkout"@];
            assert(crate::url::texts(segments@) =~= path);
            reveal_strlit("v1");
            reveal_strlit("payments");
            reveal_strlit("checkout");
            lemma_short_path_length(path, seq![]);
        }
        let url = match self.url(&segments) {
            Ok(url) => url,
            Err(e) => {
                return Err(e);
            },
        };
        let mut request = self.request("initiate checkout", Method::Post, url);
        request.body = RequestBody::Checkout(
            Checkout {
                subscription_id: subscription_id.to_string(),
                provider: provider.to_string(),
                customer_email: customer_email.to_string(),
                back_url: back_url.to_string(),
                success_url: owned(success_url),
            },
        );
        Ok(request)
    }

    /// `DELETE /v1/subscriptions/{id}`. Both 204 and 202 (`cascade_pending`,
    /// an add-on cascade that will finish later) are success.
    pub fn cancel_subscription(&self, subscription_id: &str, reason: Option<&str>) -> (built: Result<
        Request,
        BillingError,
    >)
        requires
            self.cfg.fits(subscription_id@),
        ensures
            match self.cfg.joined(seq!["v1"@, "subscriptions"@, subscription_id@]) {
                Ok(url) => built matches Ok(request) && self.cfg.spelled(
                    seq!["v1"@, "subscriptions"@, subscription_id@],
                    url,
                ) && request@ == (RequestView {
                    body: RequestBodyView::Cancel { reason: reason.deep_view() },
                    ..self.cfg.bare_request("cancel subscription"@, Method::Delete, url)
                }),
                Err(error) => built matches Err(e) && e@ == error,
            },
    {
        let segments = vec!["v1", "subscriptions", subscription_id];
        proof {
            let path = seq!["v1"@, "subscriptions"@, subscription_id@];
            assert(crate::url::texts(segments@) =~= path);
            reveal_strlit("v1");
            reveal_strlit("subscriptions");
            lemma_short_path_length(path, subscription_id@);
        }
        let url = match self.url(&segments) {
            Ok(url) => url,
            Err(e) => {
                return Err(e);
            },
        };
        let mut request = self.request("cancel subscription", Method::Delete, url);
        request.body = RequestBody::Cancel(Cancel { reason: owned(reason) });
        Ok(request)
    }
}

/// One call of the API, with all that it takes.
#[derive(Debug, Clone)]
pub enum Call {
    FindCustomer { external_id: String },
    CreateCustomer { external_id: String, name: String, email: String },
    ListPlans,
    CustomerSubscriptions { customer_id: String },
    CreateSubscription {
        customer_id: String,
        plan_id: String,
        payment_provider: String,
        period_start: Timestamp,
        period_end: Timestamp,
        trial_ends_at: Option<Timestamp>,
    },
    InitiateCheckout {
        subscription_id: String,
        provider: String,
        customer_email: String,
        back_url: String,
        success_url: Option<String>,
    },
    CancelSubscription { subscription_id: String, reason: Option<String> },
}

impl Call {
    /// The path of the call, below the base URL.
    pub open spec fn segments(self) -> Seq<Seq<char>> {
        match self {
            Call::FindCustomer { external_id } => seq![
                "v1"@,
                "customers"@,
                "external"@,
                external_id@,
            ],
            Call::CreateCustomer { .. } => seq!["v1"@, "customers"@],
            Call::ListPlans => seq!["v1"@, "plans"@],
            Call::CustomerSubscriptions { customer_id } => seq![
                "v1"@,
                "subscriptions"@,
                "customer"@,
                customer_id@,
            ],
            Call::CreateSubscription { .. } => seq!["v1"@, "subscriptions"@],
            Call::InitiateCheckout { .. } => seq!["v1"@, "payments"@, "checkout"@],
            Call::CancelSubscription { subscription_id, .. } => seq![
                "v1"@,
                "subscriptions"@,
                subscription_id@,
            ],
        }
    }

    /// The id in the path of the call, empty where there is none.
    pub open spec fn path_id(self) -> Seq<char> {
        match self {
            Call::FindCustomer { external_id } => external_id@,
            Call::CustomerSubscriptions { customer_id } => customer_id@,
            Call::CancelSubscription { subscription_id, .. } => subscription_id@,
            _ => seq![],
        }
    }

    /// Whether the instants in the call lie within the calendar.
    pub open spec fn dated(self) -> bool {
        match self {
            Call::CreateSubscription { period_start, period_end, trial_ends_at, .. } => {
                &&& period_start.valid()
                &&& period_end.valid()
                &&& trial_ends_at matches Some(end) ==> end.valid()
            },
            _ => true,
        }
    }

    /// Whether the call can only read.
    pub open spec fn is_read(self) -> bool {
        ||| self is FindCustomer
        ||| self is ListPlans
        ||| self is CustomerSubscriptions
    }
}

impl BillingConfig {
    /// The request of a call, sent to `url`.
    pub open spec fn call_request(self, call: Call, url: Seq<char>) -> RequestView {
        match call {
            Call::FindCustomer { .. } => RequestView {
                timeout: Some(self.read_timeout),
                ..self.bare_request("find customer"@, Method::Get, url)
            },
            Call::CreateCustomer { external_id, name, email } => RequestView {
                body: RequestBodyView::CreateCustomer {
                    external_id: external_id@,
                    name: name@,
                    email: email@,
                    metadata: None,
                },
                ..self.bare_request("create customer"@, Method::Post, url)
            },
            Call::ListPlans => RequestView {
                query: Some(("kind"@, "plan"@)),
                ..self.bare_request("list plans"@, Method::Get, url)
            },
            Call::CustomerSubscriptions { .. } => RequestView {
                timeout: Some(self.read_timeout),
                ..self.bare_request("get customer subscriptions"@, Method::Get, url)
            },
            Call::CreateSubscription {
                customer_id,
                plan_id,
                payment_provider,
                period_start,
                period_end,
                trial_ends_at,
            } => RequestView {
                body: RequestBodyView::CreateSubscription {
                    customer_id: customer_id@,
                    plan_id: plan_id@,
                    payment_provider: payment_provider@,
                    current_period_start: instant_text(period_start),
                    current_period_end: instant_text(period_end),
                    trial_ends_at: match trial_ends_at {
                        Some(end) => Some(instant_text(end)),
                        None => None,
                    },
                },
                ..self.bare_request("create subscription"@, Method::Post, url)
            },
            Call::InitiateCheckout {
                subscription_id,
                provider,
                customer_email,
                back_url,
                success_url,
            } => RequestView {
                body: RequestBodyView::Checkout {
                    subscription_id: subscription_id@,
                    provider: provider@,
                    customer_email: customer_email@,
                    back_url: back_url@,
                    success_url: success_url.deep_view(),
                },
                ..self.bare_request("initiate checkout"@, Method::Post, url)
            },
            Call::CancelSubscription { reason, .. } => RequestView {
                body: RequestBodyView::Cancel { reason: reason.deep_view() },
                ..self.bare_request("cancel subscription"@, Method::Delete, url)
            },
        }
    }
}

/// Only its id can hide a directory step in the path of a call. Where it hides none,
/// `BillingConfig::spelled` says how the URL is spelled.
pub proof fn law_calls_have_plain_paths(call: Call)
    requires
        !crate::url::hides_dot_segment(call.path_id()),
    ensures
        crate::url::plain_path(call.segments()),
{
    reveal_strlit("v1");
    reveal_strlit("customers");
    reveal_strlit("external");
    reveal_strlit("plans");
    reveal_strlit("subscriptions");
    reveal_strlit("customer");
    reveal_strlit("payments");
    reveal_strlit("checkout");
    crate::url::lemma_single_line_is_kept("v1"@);
    crate::url::lemma_single_line_is_kept("customers"@);
    crate::url::lemma_single_line_is_kept("external"@);
    crate::url::lemma_single_line_is_kept("plans"@);
    crate::url::lemma_single_line_is_kept("subscriptions"@);
    crate::url::lemma_single_line_is_kept("customer"@);
    crate::url::lemma_single_line_is_kept("payments"@);
    crate::url::lemma_single_line_is_kept("checkout"@);
    reveal_strlit(".");
    reveal_strlit("..");
    assert("v1"@.len() == 2 && "v1"@[0] == 'v');
    assert("."@.len() == 1 && ".."@[0] == '.');
}

/// Borrows a text that may be absent.
fn borrowed(text: &Option<String>) -> (borrow: Option<&str>)
    ensures
        borrow.deep_view() == text.deep_view(),
{
    match text {
        Some(text) => Some(text.as_str()),
        None => None,
    }
}

impl BillingClient {
    /// Whether the URL of a call is short enough to be built.
    pub fn call_fits(&self, call: &Call) -> (fits: bool)
        ensures
            fits == self.cfg.fits(call.path_id()),
    {
        match call {
            Call::FindCustomer { external_id } => self.url_fits(external_id.as_str()),
            Call::CustomerSubscriptions { customer_id } => self.url_fits(customer_id.as_str()),
            Call::CancelSubscription { subscription_id, .. } => self.url_fits(
                subscription_id.as_str(),
            ),
            _ => {
                proof {
                    reveal_strlit("");
                    assert(""@ =~= Seq::<char>::empty());
                }
                self.url_fits("")
            },
        }
    }

    /// The request that makes a call.
    pub fn request_for(&self, call: &Call) -> (built: Result<Request, BillingError>)
        requires
            self.cfg.fits(call.path_id()),
            call.dated(),
        ensures
            match self.cfg.joined(call.segments()) {
                Ok(url) => built matches Ok(request) && self.cfg.spelled(call.segments(), url)
                    && request@ == self.cfg.call_request(*call, url),
                Err(error) => built matches Err(e) && e@ == error,
            },
            built is Ok ==> (*call matches Call::CreateSubscription {
                period_start,
                period_end,
                trial_ends_at,
                ..
            } ==> {
                &&& reads_back(instant_text(period_start), period_start)
                &&& reads_back(instant_text(period_end), period_end)
                &&& trial_ends_at matches Some(end) ==> reads_back(instant_text(end), end)
            }),
    {
        match call {
            Call::FindCustomer { external_id } => self.find_customer_by_external_id(
                external_id.as_str(),
            ),
            Call::CreateCustomer { external_id, name, email } => self.create_customer(
                external_id.as_str(),
                name.as_str(),
                email.as_str(),
                None,
            ),
            Call::ListPlans => self.list_plans(),
            Call::CustomerSubscriptions { customer_id } => self.customer_subscriptions(
                customer_id.as_str(),
            ),
            Call::CreateSubscription {
                customer_id,
                plan_id,
                payment_provider,
                period_start,
                period_end,
                trial_ends_at,
            } => self.create_subscription(
                customer_id.as_str(),
                plan_id.as_str(),
                payment_provider.as_str(),
                *period_start,
                *period_end,
                *trial_ends_at,
            ),
            Call::InitiateCheckout {
                subscription_id,
                provider,
                customer_email,
                back_url,
                success_url,
            } => self.initiate_checkout(
                subscription_id.as_str(),
                provider.as_str(),
                customer_email.as_str(),
                back_url.as_str(),
                borrowed(success_url),
            ),
            Call::CancelSubscription { subscription_id, reason } => self.cancel_subscription(
                subscription_id.as_str(),
                borrowed(reason),
            ),
        }
    }
}

// -- answers --------------------------------------------------------------------

/// What became of a request.
#[derive(Debug)]
pub enum Received {
    /// A 2xx: the body, if any, is the answer.
    Success,
    /// A refusal of which the body is part of the error: see [`refused`].
    Refused { status: u16 },
    Failed(BillingError),
}

/// Judges what came back for a request: a status, or why there is none.
pub fn received(op: &'static str, sent: Result<u16, String>) -> (received: Received)
    ensures
        match sent {
            Err(source) => received matches Received::Failed(e) && e
                == (BillingError::Transport { op, source }),
            Ok(status) => if crate::http::success_status(status) {
                received == Received::Success
            } else if status == 401 || status == 403 {
                received == Received::Failed(BillingError::Unauthorized)
            } else if status == 404 {
                received == Received::Failed(BillingError::NotFound(op))
            } else {
                received == Received::Refused { status }
            },
        },
{
    let status = match sent {
        Ok(status) => status,
        Err(source) => {
            return Received::Failed(BillingError::Transport { op, source });
        },
    };
    if is_success(status) {
        Received::Success
    } else if status == 401 || status == 403 {
        Received::Failed(BillingError::Unauthorized)
    } else if status == 404 {
        Received::Failed(BillingError::NotFound(op))
    } else {
        Received::Refused { status }
    }
}

/// The error of a refused request. A body that could not be read counts as empty.
pub fn refused(op: &'static str, status: u16, body: Option<String>) -> (error: BillingError)
    ensures
        error@ == (crate::billing::error::BillingErrorView::Upstream {
            op: op@,
            status,
            body: match body {
                Some(body) => body@,
                None => seq![],
            },
        }),
{
    BillingError::Upstream {
        op,
        status,
        body: match body {
            Some(body) => body,
            None => String::new(),
        },
    }
}

/// The body of an answer, as far as it could be read.
pub fn body_text(op: &'static str, read: Result<String, String>) -> (body: Result<
    String,
    BillingError,
>)
    ensures
        match read {
            Ok(text) => body == Ok::<_, BillingError>(text),
            Err(error) => body matches Err(e) && e@
                == (crate::billing::error::BillingErrorView::Decode {
                op: op@,
                detail: "failed to read body: "@ + error@,
            }),
        },
{
    match read {
        Ok(text) => Ok(text),
        Err(error) => Err(
            BillingError::Decode {
                op,
                detail: "failed to read body: ".to_string().concat(error.as_str()),
            },
        ),
    }
}

/// The error of an answer whose body is not of the expected shape.
pub fn undecodable(op: &'static str, error: &str, body: &str) -> (failure: BillingError)
    ensures
        failure@ == (crate::billing::error::BillingErrorView::Decode {
            op: op@,
            detail: error@ + " | body: "@ + body@,
        }),
{
    BillingError::Decode { op, detail: error.to_string().concat(" | body: ").concat(body) }
}

/// The customer that was looked for: none where core knows no such customer.
pub fn found_customer(answer: Result<Customer, BillingError>) -> (found: Result<
    Option<Customer>,
    BillingError,
>)
    ensures
        found == match answer {
            Ok(customer) => Ok(Some(customer)),
            Err(BillingError::NotFound(_)) => Ok(None),
            Err(e) => Err(e),
        },
{
    match answer {
        Ok(customer) => Ok(Some(customer)),
        Err(BillingError::NotFound(_)) => Ok(None),
        Err(e) => Err(e),
    }
}

/// The rows of a customer that are plans', in order.
pub open spec fn only_plan_rows(subs: Seq<Subscription>) -> Seq<Subscription> {
    subs.filter(|sub: Subscription| sub.plan_row())
}

/// Keeps the plan rows, in order.
pub fn plan_rows(subs: Vec<Subscription>) -> (rows: Vec<Subscription>)
    ensures
        rows@ == only_plan_rows(subs@),
{
    let mut rows = subs;
    let ghost all = subs@;
    let ghost is_plan = |sub: Subscription| sub.plan_row();
    let ghost mut seen: int = 0;
    let mut i: usize = 0;
    assert(rows@ =~= all.take(0).filter(is_plan) + all.skip(0)) by {
        reveal_with_fuel(Seq::filter, 2);
    }
    while i < rows.len()
        invariant
            is_plan == (|sub: Subscription| sub.plan_row()),
            0 <= seen <= all.len(),
            i == all.take(seen).filter(is_plan).len(),
            rows@ == all.take(seen).filter(is_plan) + all.skip(seen),
        decreases rows@.len() - i,
    {
        let ghost kept = all.take(seen).filter(is_plan);
        let ghost before = rows@;
        proof {
            assert(before[i as int] == all[seen]);
            assert(all.take(seen + 1) =~= all.take(seen).push(all[seen]));
            assert(all.take(seen + 1).drop_last() =~= all.take(seen));
            reveal_with_fuel(Seq::filter, 2);
            assert(all.take(seen + 1).filter(is_plan) == if is_plan(all[seen]) {
                kept.push(all[seen])
            } else {
                kept
            });
        }
        if rows[i].is_plan() {
            i = i + 1;
            assert(kept.push(all[seen]) + all.skip(seen + 1) =~= before);
        } else {
            rows.remove(i);
            assert(rows@ =~= kept + all.skip(seen + 1));
        }
        proof {
            seen = seen + 1;
        }
    }
    proof {
        assert(all.skip(seen).len() == 0);
        assert(all.take(seen) =~= all);
        assert(rows@ =~= all.filter(is_plan));
    }
    rows
}

/// Where each call goes: the id in a path is the one that the call is about, and the last
/// segment.
pub proof fn law_calls_go_to_their_resources(call: Call)
    ensures
        call matches Call::FindCustomer { external_id } ==> call.segments() == seq![
            "v1"@,
            "customers"@,
            "external"@,
            external_id@,
        ] && call.path_id() == external_id@,
        call is CreateCustomer ==> call.segments() == seq!["v1"@, "customers"@],
        call is ListPlans ==> call.segments() == seq!["v1"@, "plans"@],
        call matches Call::CustomerSubscriptions { customer_id } ==> call.segments() == seq![
            "v1"@,
            "subscriptions"@,
            "customer"@,
            customer_id@,
        ] && call.path_id() == customer_id@,
        call is CreateSubscription ==> call.segments() == seq!["v1"@, "subscriptions"@],
        call is InitiateCheckout ==> call.segments() == seq!["v1"@, "payments"@, "checkout"@],
        call matches Call::CancelSubscription { subscription_id, .. } ==> call.segments() == seq![
            "v1"@,
            "subscriptions"@,
            subscription_id@,
        ] && call.path_id() == subscription_id@,
        call is CreateCustomer || call is ListPlans || call is CreateSubscription
            || call is InitiateCheckout ==> call.path_id().len() == 0,
{
}

/// Every request carries the product's key and goes to the URL of its call. The three
/// questions are read with a bare GET, and so told from the four calls that change
/// something; only the two lookups on the path of a gated call have a ceiling of their own;
/// only the list of plans has a query.
pub proof fn law_what_requests_share(cfg: BillingConfig, call: Call, url: Seq<char>)
    ensures
        cfg.call_request(call, url).api_key == cfg.api_key@,
        cfg.call_request(call, url).url == url,
        call is FindCustomer || call is ListPlans || call is CustomerSubscriptions
            <==> call.is_read(),
        call.is_read() <==> cfg.call_request(call, url).method == Method::Get,
        call.is_read() <==> cfg.call_request(call, url).body is Empty,
        call is CancelSubscription <==> cfg.call_request(call, url).method == Method::Delete,
        call is FindCustomer || call is CustomerSubscriptions ==> cfg.call_request(
            call,
            url,
        ).timeout == Some(cfg.read_timeout),
        !(call is FindCustomer || call is CustomerSubscriptions) ==> cfg.call_request(
            call,
            url,
        ).timeout is None,
        call is ListPlans ==> cfg.call_request(call, url).query == Some(("kind"@, "plan"@)),
        call !is ListPlans ==> cfg.call_request(call, url).query is None,
{
}

/// Errors name a call by what it is for, each call by a name of its own.
pub proof fn law_calls_have_names(cfg: BillingConfig, call: Call, url: Seq<char>)
    ensures
        call is FindCustomer ==> cfg.call_request(call, url).op == "find customer"@,
        call is CreateCustomer ==> cfg.call_request(call, url).op == "create customer"@,
        call is ListPlans ==> cfg.call_request(call, url).op == "list plans"@,
        call is CustomerSubscriptions ==> cfg.call_request(call, url).op
            == "get customer subscriptions"@,
        call is CreateSubscription ==> cfg.call_request(call, url).op == "create subscription"@,
        call is InitiateCheckout ==> cfg.call_request(call, url).op == "initiate checkout"@,
        call is CancelSubscription ==> cfg.call_request(call, url).op == "cancel subscription"@,
{
}

/// A request that changes something carries each value of its call under its own name, and
/// no other; an absent value stays absent. An instant is written in RFC 3339.
pub proof fn law_bodies_carry_the_call(cfg: BillingConfig, call: Call, url: Seq<char>)
    ensures
        call matches Call::CreateCustomer { external_id, name, email } ==> {
            &&& cfg.call_request(call, url).body matches RequestBodyView::CreateCustomer {
                external_id: sent_id,
                name: sent_name,
                email: sent_email,
                metadata,
            }
            &&& sent_id == external_id@
            &&& sent_name == name@
            &&& sent_email == email@
            &&& metadata is None
        },
        call matches Call::CreateSubscription {
            customer_id,
            plan_id,
            payment_provider,
            period_start,
            period_end,
            trial_ends_at,
        } ==> {
            &&& cfg.call_request(call, url).body matches RequestBodyView::CreateSubscription {
                customer_id: sent_customer,
                plan_id: sent_plan,
                payment_provider: sent_provider,
                current_period_start,
                current_period_end,
                trial_ends_at: sent_trial_end,
            }
            &&& sent_customer == customer_id@
            &&& sent_plan == plan_id@
            &&& sent_provider == payment_provider@
            &&& current_period_start == crate::time::rfc3339_text(
                period_start.secs,
                period_start.nanos,
            )
            &&& current_period_end == crate::time::rfc3339_text(period_end.secs, period_end.nanos)
            &&& trial_ends_at matches Some(end) ==> sent_trial_end == Some(
                crate::time::rfc3339_text(end.secs, end.nanos),
            )
            &&& trial_ends_at is None ==> sent_trial_end is None
        },
        call matches Call::InitiateCheckout {
            subscription_id,
            provider,
            customer_email,
            back_url,
            success_url,
        } ==> {
            &&& cfg.call_request(call, url).body matches RequestBodyView::Checkout {
                subscription_id: sent_subscription,
                provider: sent_provider,
                customer_email: sent_email,
                back_url: sent_back,
                success_url: sent_success,
            }
            &&& sent_subscription == subscription_id@
            &&& sent_provider == provider@
            &&& sent_email == customer_email@
            &&& sent_back == back_url@
            &&& success_url matches Some(link) ==> sent_success == Some(link@)
            &&& success_url is None ==> sent_success is None
        },
        call matches Call::CancelSubscription { reason, .. } ==> {
            &&& cfg.call_request(call, url).body matches RequestBodyView::Cancel {
                reason: sent_reason,
            }
            &&& reason matches Some(why) ==> sent_reason == Some(why@)
            &&& reason is None ==> sent_reason is None
        },
{
}

/// A request is viewed whole: two requests with one view differ in no text, number or
/// method.
pub proof fn law_requests_are_viewed_whole(a: Request, b: Request)
    requires
        a@ == b@,
    ensures
        a.op@ == b.op@,
        a.method == b.method,
        a.url@ == b.url@,
        a.query is Some <==> b.query is Some,
        a.query matches Some((key, value)) ==> (b.query->0).0@ == key@ && (b.query->0).1@ == value@,
        a.timeout == b.timeout,
        a.api_key@ == b.api_key@,
        a.body is Empty <==> b.body is Empty,
        a.body matches RequestBody::CreateCustomer(x) ==> {
            &&& b.body matches RequestBody::CreateCustomer(y)
            &&& x.external_id@ == y.external_id@
            &&& x.name@ == y.name@
            &&& x.email@ == y.email@
            &&& x.metadata == y.metadata
        },
        a.body matches RequestBody::CreateSubscription(x) ==> {
            &&& b.body matches RequestBody::CreateSubscription(y)
            &&& x.customer_id@ == y.customer_id@
            &&& x.plan_id@ == y.plan_id@
            &&& x.payment_provider@ == y.payment_provider@
            &&& x.current_period_start@ == y.current_period_start@
            &&& x.current_period_end@ == y.current_period_end@
            &&& x.trial_ends_at is Some <==> y.trial_ends_at is Some
            &&& x.trial_ends_at matches Some(end) ==> y.trial_ends_at->0@ == end@
        },
        a.body matches RequestBody::Checkout(x) ==> {
            &&& b.body matches RequestBody::Checkout(y)
            &&& x.subscription_id@ == y.subscription_id@
            &&& x.provider@ == y.provider@
            &&& x.customer_email@ == y.customer_email@
            &&& x.back_url@ == y.back_url@
            &&& x.success_url is Some <==> y.success_url is Some
            &&& x.success_url matches Some(link) ==> y.success_url->0@ == link@
        },
        a.body matches RequestBody::Cancel(x) ==> {
            &&& b.body matches RequestBody::Cancel(y)
            &&& x.reason is Some <==> y.reason is Some
            &&& x.reason matches Some(why) ==> y.reason->0@ == why@
        },
{
}

/// A base URL that parses gives a URL for every path; one that does not gives an error that
/// names the step and carries the reason.
pub proof fn law_urls_are_built_on_any_good_base(cfg: BillingConfig, segments: Seq<Seq<char>>)
    ensures
        crate::url::base_url_parts(cfg.base_url@) is Ok <==> cfg.joined(segments) is Ok,
        cfg.joined(segments) matches Ok(url) ==> url == crate::url::url_with_segments(
            cfg.base_url@,
            segments,
        ),
        crate::url::base_url_parts(cfg.base_url@) matches Err(Some(reason)) ==> cfg.joined(segments)
            == Err::<Seq<char>, _>(
            crate::billing::error::BillingErrorView::Decode { op: "build url"@, detail: reason },
        ),
        crate::url::base_url_parts(cfg.base_url@) matches Err(None) ==> cfg.joined(segments)
            == Err::<Seq<char>, _>(
            crate::billing::error::BillingErrorView::Decode {
                op: "build url"@,
                detail: "base url cannot carry a path"@,
            },
        ),
{
}

/// Of a customer's rows exactly those without a kind and those of kind `plan` are kept, each
/// as often as it is listed, and in the order in which they are listed.
pub proof fn law_plan_rows_are_kept_in_order(
    before: Seq<Subscription>,
    row: Subscription,
    after: Seq<Subscription>,
)
    ensures
        only_plan_rows(Seq::empty()) == Seq::<Subscription>::empty(),
        (row.kind matches Some(kind) ==> kind@ == "plan"@) ==> only_plan_rows(
            before.push(row) + after,
        ) == only_plan_rows(before).push(row) + only_plan_rows(after),
        (row.kind matches Some(kind) && kind@ != "plan"@) ==> only_plan_rows(
            before.push(row) + after,
        ) == only_plan_rows(before) + only_plan_rows(after),
{
    let is_plan = |sub: Subscription| sub.plan_row();
    reveal_with_fuel(Seq::filter, 2);
    Seq::filter_distributes_over_add(before.push(row), after, is_plan);
    assert(before.push(row).drop_last() =~= before);
    assert(before.push(row).last() == row);
}

/// What an answer's status means: 200 to 299 is success, 401 and 403 refuse the key, 404 is a
/// missing row that the call names, and any other status is a refusal. A request that got no
/// answer failed, for the reason given.
pub proof fn law_statuses_of_answers(
    op: &'static str,
    sent: Result<u16, String>,
    outcome: Received,
)
    requires
        call_ensures(received, (op, sent), outcome),
    ensures
        sent matches Ok(status) ==> {
            &&& 200 <= status <= 299 <==> outcome is Success
            &&& status == 401 || status == 403 <==> outcome == Received::Failed(
                BillingError::Unauthorized,
            )
            &&& status == 404 ==> outcome == Received::Failed(BillingError::NotFound(op))
            &&& outcome is Failed ==> status == 401 || status == 403 || status == 404
            &&& outcome matches Received::Refused { status: told } ==> told == status
        },
        sent matches Err(reason) ==> outcome == Received::Failed(
            BillingError::Transport { op, source: reason },
        ),
{
}

/// A refusal tells the call, the status and the body, of which an unreadable one counts as
/// empty; a body that cannot be read or decoded is told with the call and the reason.
pub proof fn law_failures_tell_what_happened(
    op: &'static str,
    status: u16,
    body: Option<String>,
    refusal: BillingError,
    read: Result<String, String>,
    text: Result<String, BillingError>,
    error: &str,
    content: &str,
    failure: BillingError,
)
    requires
        call_ensures(refused, (op, status, body), refusal),
        call_ensures(body_text, (op, read), text),
        call_ensures(undecodable, (op, error, content), failure),
    ensures
        refusal matches BillingError::Upstream { op: told, status: code, body: shown } && {
            &&& told@ == op@
            &&& code == status
            &&& body matches Some(content) ==> shown@ == content@
            &&& body is None ==> shown@.len() == 0
        },
        read matches Ok(content) ==> text == Ok::<String, BillingError>(content),
        read matches Err(reason) ==> (text matches Err(BillingError::Decode { op: told, detail })
            && told@ == op@ && detail@ == "failed to read body: "@ + reason@),
        failure matches BillingError::Decode { op: told, detail } && told@ == op@ && detail@
            == error@ + " | body: "@ + content@,
{
}

/// Only a missing row means that there is no customer: a customer is handed on, and so is
/// every other error.
pub proof fn law_only_a_missing_row_is_no_customer(
    answer: Result<Customer, BillingError>,
    found: Result<Option<Customer>, BillingError>,
)
    requires
        call_ensures(found_customer, (answer,), found),
    ensures
        answer matches Ok(customer) ==> found == Ok::<_, BillingError>(Some(customer)),
        answer matches Err(error) ==> {
            &&& error is NotFound <==> found == Ok::<Option<Customer>, BillingError>(None)
            &&& error !is NotFound ==> found == Err::<Option<Customer>, _>(error)
        },
{
}

/// A new configuration keeps its address and key, and lets a lookup take five seconds.
pub proof fn law_new_configurations(base_url: &str, api_key: &str, cfg: BillingConfig)
    requires
        call_ensures(BillingConfig::new, (base_url, api_key), cfg),
    ensures
        cfg.base_url@ == base_url@,
        cfg.api_key@ == api_key@,
        cfg.read_timeout == 5_000_000_000,
{
}

/// What a customer is created with is sent, the product's own data about them too.
pub proof fn law_customers_are_created_with_their_data(
    client: &BillingClient,
    external_id: &str,
    name: &str,
    email: &str,
    metadata: Option<serde_json::Value>,
    built: Result<Request, BillingError>,
)
    requires
        call_ensures(
            BillingClient::create_customer,
            (client, external_id, name, email, metadata),
            built,
        ),
    ensures
        built is Ok <==> crate::url::base_url_parts(client.cfg.base_url@) is Ok,
        built matches Ok(request) ==> {
            &&& request.method == Method::Post
            &&& request.api_key@ == client.cfg.api_key@
            &&& request.body matches RequestBody::CreateCustomer(body)
            &&& body.external_id@ == external_id@
            &&& body.name@ == name@
            &&& body.email@ == email@
            &&& body.metadata == metadata
        },
{
}

/// A URL is short enough to be built whenever its id, at twelve characters for each of its
/// own, and 128 times the length of the base stay below four thousand million.
pub proof fn law_ordinary_urls_fit(cfg: BillingConfig, id: Seq<char>)
    requires
        128 * cfg.base_url@.len() + 12 * id.len() <= 4_000_000_000,
    ensures
        cfg.fits(id),
{
    crate::url::lemma_encoded_segment_length(id);
}

/// A call has its dates within the calendar exactly when each instant in it is: any call but
/// the creation of a subscription has none.
pub proof fn law_dates_of_calls(call: Call)
    ensures
        call !is CreateSubscription ==> call.dated(),
        call matches Call::CreateSubscription { period_start, period_end, trial_ends_at, .. } ==> (
        call.dated() <==> period_start.valid() && period_end.valid() && (trial_ends_at is None
            || trial_ends_at->0.valid())),
{
}

} // verus!

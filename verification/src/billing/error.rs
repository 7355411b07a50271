//! What can go wrong talking to Huggian's billing API.

use crate::text::decimal_text;
use vstd::prelude::*;

verus! {

/// Everything that can go wrong talking to Huggian's billing API.
///
/// Deliberately small and product-agnostic: each consumer maps these to its
/// own error/HTTP envelope.
#[derive(Debug)]
pub enum BillingError {
    /// 401/403 — the product API key is missing, wrong, or the product is inactive.
    Unauthorized,
    /// 404 on an operation where a missing row is an error (the name says which).
    NotFound(&'static str),
    /// Any other non-2xx answer.
    Upstream { op: &'static str, status: u16, body: String },
    /// The request never got an answer (connect/timeout).
    Transport { op: &'static str, source: String },
    /// A 2xx whose body is not the shape we expect.
    Decode { op: &'static str, detail: String },
    /// The product's plan slug is not in Huggian's *active* catalogue
    /// (`GET /v1/plans` lists active plans only, so an inactive plan lands here).
    PlanUnavailable(String),
}

/// A [`BillingError`], its texts as sequences of characters.
pub enum BillingErrorView {
    Unauthorized,
    NotFound(Seq<char>),
    Upstream { op: Seq<char>, status: u16, body: Seq<char> },
    Transport { op: Seq<char>, source: Seq<char> },
    Decode { op: Seq<char>, detail: Seq<char> },
    PlanUnavailable(Seq<char>),
}

impl View for BillingError {
    type V = BillingErrorView;

    open spec fn view(&self) -> BillingErrorView {
        match *self {
            BillingError::Unauthorized => BillingErrorView::Unauthorized,
            BillingError::NotFound(what) => BillingErrorView::NotFound(what@),
            BillingError::Upstream { op, status, body } => BillingErrorView::Upstream {
                op: op@,
                status,
                body: body@,
            },
            BillingError::Transport { op, source } => BillingErrorView::Transport {
                op: op@,
                source: source@,
            },
            BillingError::Decode { op, detail } => BillingErrorView::Decode {
                op: op@,
                detail: detail@,
            },
            BillingError::PlanUnavailable(slug) => BillingErrorView::PlanUnavailable(slug@),
        }
    }
}

impl BillingErrorView {
    /// The error in words.
    pub open spec fn message(self) -> Seq<char> {
        match self {
            BillingErrorView::Unauthorized => "huggian rejected the api key"@,
            BillingErrorView::NotFound(what) => what + " not found"@,
            BillingErrorView::Upstream { op, status, body } => "huggian "@ + op + " returned "@
                + crate::text::decimal(status as nat) + ": "@ + body,
            BillingErrorView::Transport { op, source } => "huggian "@ + op + " unreachable: "@
                + source,
            BillingErrorView::Decode { op, detail } => "huggian "@ + op
                + " sent an unparseable body: "@ + detail,
            BillingErrorView::PlanUnavailable(slug) => "plan `"@ + slug
                + "` is not available in the catalogue"@,
        }
    }
}

impl BillingError {
    /// The error in words.
    pub fn message(&self) -> (message: String)
        ensures
            message@ == self@.message(),
    {
        match self {
            BillingError::Unauthorized => "huggian rejected the api key".to_string(),
            BillingError::NotFound(what) => (*what).to_string().concat(" not found"),
            BillingError::Upstream { op, status, body } => "huggian ".to_string().concat(
                op,
            ).concat(" returned ").concat(decimal_text(*status).as_str()).concat(": ").concat(
                body.as_str(),
            ),
            BillingError::Transport { op, source } => "huggian ".to_string().concat(op).concat(
                " unreachable: ",
            ).concat(source.as_str()),
            BillingError::Decode { op, detail } => "huggian ".to_string().concat(op).concat(
                " sent an unparseable body: ",
            ).concat(detail.as_str()),
            BillingError::PlanUnavailable(slug) => "plan `".to_string().concat(
                slug.as_str(),
            ).concat("` is not available in the catalogue"),
        }
    }
}

/// An error viewed tells all that the error holds.
pub proof fn law_errors_are_viewed_whole(error: BillingError)
    ensures
        error is Unauthorized <==> error@ is Unauthorized,
        error matches BillingError::NotFound(what) ==> error@ == BillingErrorView::NotFound(what@),
        error matches BillingError::Upstream { op, status, body } ==> error@ == (
        BillingErrorView::Upstream { op: op@, status, body: body@ }),
        error matches BillingError::Transport { op, source } ==> error@ == (
        BillingErrorView::Transport { op: op@, source: source@ }),
        error matches BillingError::Decode { op, detail } ==> error@ == (BillingErrorView::Decode {
            op: op@,
            detail: detail@,
        }),
        error matches BillingError::PlanUnavailable(slug) ==> error@
            == BillingErrorView::PlanUnavailable(slug@),
{
}

/// The words of an error hold what went wrong: what was missing, which call failed, its
/// status, and the reason or the body that came with it, which ends the message.
pub proof fn law_errors_tell_everything(op: Seq<char>, status: u16, text: Seq<char>)
    ensures
        BillingErrorView::Unauthorized.message() == "huggian rejected the api key"@,
        BillingErrorView::NotFound(op).message() == op + " not found"@,
        (BillingErrorView::Upstream { op, status, body: text }).message() == "huggian "@ + op
            + " returned "@ + crate::text::decimal(status as nat) + ": "@ + text,
        (BillingErrorView::Transport { op, source: text }).message() == "huggian "@ + op
            + " unreachable: "@ + text,
        (BillingErrorView::Decode { op, detail: text }).message() == "huggian "@ + op
            + " sent an unparseable body: "@ + text,
        BillingErrorView::PlanUnavailable(text).message() == "plan `"@ + text
            + "` is not available in the catalogue"@,
{
}

} // verus!

//! The endpoint dispatch convention.
//!
//! Every endpoint operation follows one fixed table: build a request, send
//! it, and map the numeric status code to an outcome. This module holds the
//! table once — the request descriptor, the per-endpoint branch set, the
//! status classification, and the error each terminal branch produces.

use vstd::prelude::*;

use crate::error::ApiError;
use crate::models::errors::{HTTPValidationError, ValidationError};

verus! {

/// An HTTP method of the endpoint set.
#[derive(Clone, Copy, PartialEq, Eq, Structural, Debug)]
pub enum Method {
    Get,
    Post,
    Put,
    Delete,
}

/// How an endpoint encodes its request body; the caller attaches the body
/// value itself with this encoding.
#[derive(Clone, Copy, PartialEq, Eq, Structural, Debug)]
pub enum BodyEncoding {
    Empty,
    Json,
    Form,
}

/// Everything about a request that is fixed before it is sent: method, full
/// URL, the bearer token to attach (if any), the query pairs, and the body
/// encoding.
#[derive(Debug)]
pub struct RequestDescriptor {
    pub method: Method,
    pub url: String,
    pub bearer: Option<String>,
    pub query: Vec<(String, String)>,
    pub body: BodyEncoding,
}

/// The resource kind an endpoint's not-found and conflict answers name.
#[derive(Clone, Copy, PartialEq, Eq, Structural, Debug)]
pub enum ResourceKind {
    Admin,
    User,
    Node,
    UserTemplate,
}

/// Which of the table's error branches an endpoint declares, and which
/// resource its not-found and conflict messages name.
#[derive(Clone, Copy, PartialEq, Eq, Structural, Debug)]
pub struct EndpointBranches {
    pub unauthorized: bool,
    pub forbidden: bool,
    pub not_found: bool,
    pub conflict: bool,
    pub unprocessable: bool,
    pub resource: ResourceKind,
}

/// One endpoint call, fully planned: the request to send and the branch set
/// to map its status code with.
#[derive(Debug)]
pub struct EndpointCall {
    pub request: RequestDescriptor,
    pub branches: EndpointBranches,
}

/// What to do with a response: decode the success body, decode a
/// validation-error envelope, or fail with the branch's fixed error.
#[derive(Clone, Copy, PartialEq, Eq, Structural, Debug)]
pub enum ResponseDirective {
    DecodeSuccess,
    DecodeValidation,
    Forbidden,
    NotFound,
    Conflict,
    Unexpected,
}

/// The fixed precedence table: exact status match first, then the catch-all.
/// A status whose branch the endpoint does not declare falls to the
/// catch-all.
pub open spec fn spec_classify(b: EndpointBranches, status: u16) -> ResponseDirective {
    if status == 200 {
        ResponseDirective::DecodeSuccess
    } else if status == 401 && b.unauthorized {
        ResponseDirective::DecodeValidation
    } else if status == 403 && b.forbidden {
        ResponseDirective::Forbidden
    } else if status == 404 && b.not_found {
        ResponseDirective::NotFound
    } else if status == 409 && b.conflict {
        ResponseDirective::Conflict
    } else if status == 422 && b.unprocessable {
        ResponseDirective::DecodeValidation
    } else {
        ResponseDirective::Unexpected
    }
}

/// Map a status code through the endpoint's branch set.
pub fn classify_status(b: &EndpointBranches, status: u16) -> (d: ResponseDirective)
    ensures
        d == spec_classify(*b, status),
{
    if status == 200 {
        ResponseDirective::DecodeSuccess
    } else if status == 401 && b.unauthorized {
        ResponseDirective::DecodeValidation
    } else if status == 403 && b.forbidden {
        ResponseDirective::Forbidden
    } else if status == 404 && b.not_found {
        ResponseDirective::NotFound
    } else if status == 409 && b.conflict {
        ResponseDirective::Conflict
    } else if status == 422 && b.unprocessable {
        ResponseDirective::DecodeValidation
    } else {
        ResponseDirective::Unexpected
    }
}

/// Any status outside the recognized set maps to the unexpected-response
/// branch, whatever the endpoint's branch set — never to success.
pub proof fn lemma_unknown_status_is_unexpected(b: EndpointBranches, status: u16)
    requires
        status != 200,
        status != 401,
        status != 403,
        status != 404,
        status != 409,
        status != 422,
    ensures
        spec_classify(b, status) == ResponseDirective::Unexpected,
{
}

/// A 403 on an endpoint that declares the forbidden branch always maps to
/// the fixed forbidden outcome, whatever the response body held.
pub proof fn lemma_forbidden_is_uniform(b: EndpointBranches)
    requires
        b.forbidden,
    ensures
        spec_classify(b, 403) == ResponseDirective::Forbidden,
{
}

/// A 404 on an endpoint that declares the not-found branch always maps to
/// the fixed not-found outcome, whose message names the endpoint's resource.
pub proof fn lemma_not_found_is_uniform(b: EndpointBranches)
    requires
        b.not_found,
    ensures
        spec_classify(b, 404) == ResponseDirective::NotFound,
{
}

/// The message of the fixed not-found error, by resource kind.
pub open spec fn spec_not_found_message(r: ResourceKind) -> Seq<char> {
    match r {
        ResourceKind::Admin => "Admin not found"@,
        ResourceKind::User => "User not found"@,
        ResourceKind::Node => "Node not found"@,
        ResourceKind::UserTemplate => "User Template not found"@,
    }
}

/// The message of the fixed conflict error, by resource kind.
pub open spec fn spec_conflict_message(r: ResourceKind) -> Seq<char> {
    match r {
        ResourceKind::Admin => "Admin already exists"@,
        ResourceKind::User => "User already exists"@,
        ResourceKind::Node => "Node already exists"@,
        ResourceKind::UserTemplate => "Template by this name already exists"@,
    }
}

/// The finished error of a terminal directive: the fixed forbidden,
/// not-found, conflict, or unexpected-response error. The two decode
/// directives produce none — their outcome depends on the body.
pub fn response_error(d: ResponseDirective, resource: ResourceKind) -> (e: Option<ApiError>)
    ensures
        d == ResponseDirective::DecodeSuccess ==> e is None,
        d == ResponseDirective::DecodeValidation ==> e is None,
        d == ResponseDirective::Forbidden ==> (e matches Some(err) && err matches
            ApiError::ApiResponseError(m) && m@ == "You're not allowed"@),
        d == ResponseDirective::NotFound ==> (e matches Some(err) && err matches
            ApiError::ApiResponseError(m) && m@ == spec_not_found_message(resource)),
        d == ResponseDirective::Conflict ==> (e matches Some(err) && err matches
            ApiError::ApiResponseError(m) && m@ == spec_conflict_message(resource)),
        d == ResponseDirective::Unexpected ==> (e matches Some(err) && err is UnexpectedResponse),
{
    match d {
        ResponseDirective::DecodeSuccess => None,
        ResponseDirective::DecodeValidation => None,
        ResponseDirective::Forbidden => Some(
            ApiError::ApiResponseError(String::from_str("You're not allowed")),
        ),
        ResponseDirective::NotFound => {
            let m = match resource {
                ResourceKind::Admin => String::from_str("Admin not found"),
                ResourceKind::User => String::from_str("User not found"),
                ResourceKind::Node => String::from_str("Node not found"),
                ResourceKind::UserTemplate => String::from_str("User Template not found"),
            };
            Some(ApiError::ApiResponseError(m))
        },
        ResponseDirective::Conflict => {
            let m = match resource {
                ResourceKind::Admin => String::from_str("Admin already exists"),
                ResourceKind::User => String::from_str("User already exists"),
                ResourceKind::Node => String::from_str("Node already exists"),
                ResourceKind::UserTemplate => String::from_str(
                    "Template by this name already exists",
                ),
            };
            Some(ApiError::ApiResponseError(m))
        },
        ResponseDirective::Unexpected => Some(ApiError::UnexpectedResponse),
    }
}

/// The text of one validation error: its message, then its type in
/// parentheses.
pub open spec fn spec_detail_text(v: ValidationError) -> Seq<char> {
    v.msg@ + " ("@ + v.error_type@ + ")"@
}

/// The text of a list of validation errors, separated by "; ".
pub open spec fn spec_details_text(ds: Seq<ValidationError>) -> Seq<char>
    decreases ds.len(),
{
    if ds.len() == 0 {
        Seq::empty()
    } else if ds.len() == 1 {
        spec_detail_text(ds[0])
    } else {
        spec_detail_text(ds[0]) + "; "@ + spec_details_text(ds.drop_first())
    }
}

/// The message of the classified error a validation envelope becomes.
pub open spec fn spec_validation_message(env: HTTPValidationError) -> Seq<char> {
    match env.detail {
        Some(ds) => "Validation Error: "@ + spec_details_text(ds@),
        None => "Validation Error: "@ + "no detail"@,
    }
}

/// Render one validation error.
fn detail_text(v: &ValidationError) -> (t: String)
    ensures
        t@ == spec_detail_text(*v),
{
    let mut t = v.msg.clone();
    t.append(" (");
    t.append(v.error_type.as_str());
    t.append(")");
    t
}

/// The classified API error a decoded validation envelope becomes: its
/// message carries the envelope's content.
pub fn validation_failure(env: &HTTPValidationError) -> (e: ApiError)
    ensures
        e matches ApiError::ApiResponseError(m) && m@ == spec_validation_message(*env),
{
    let mut m = String::from_str("Validation Error: ");
    match &env.detail {
        None => {
            m.append("no detail");
        },
        Some(ds) => {
            let mut i: usize = 0;
            while i < ds.len()
                invariant
                    i <= ds@.len(),
                    m@ == "Validation Error: "@ + spec_details_text(ds@.take(i as int)),
                decreases ds@.len() - i,
            {
                if i > 0 {
                    m.append("; ");
                }
                m.append(detail_text(&ds[i]).as_str());
                proof {
                    lemma_details_text_snoc(ds@, i as int);
                }
                i = i + 1;
            }
            proof {
                assert(ds@.take(ds@.len() as int) =~= ds@);
            }
        },
    }
    ApiError::ApiResponseError(m)
}

/// Extending the rendered list by one error appends the separator (after the
/// first) and that error's text.
proof fn lemma_details_text_snoc(ds: Seq<ValidationError>, i: int)
    requires
        0 <= i < ds.len(),
    ensures
        spec_details_text(ds.take(i + 1)) == spec_details_text(ds.take(i)) + (if i == 0 {
            Seq::<char>::empty()
        } else {
            "; "@
        }) + spec_detail_text(ds[i]),
    decreases i,
{
    let t = ds.take(i + 1);
    if i == 0 {
        assert(t.len() == 1);
        assert(t[0] == ds[0]);
        assert(spec_details_text(ds.take(0)) =~= Seq::<char>::empty());
        assert(spec_details_text(t) =~= Seq::<char>::empty() + Seq::<char>::empty()
            + spec_detail_text(ds[0]));
    } else {
        assert(t.len() >= 2);
        assert(spec_details_text(t) == spec_detail_text(t[0]) + "; "@ + spec_details_text(
            t.drop_first(),
        ));
        assert(t.drop_first() =~= ds.drop_first().take(i));
        assert(ds.take(i).drop_first() =~= ds.drop_first().take(i - 1));
        lemma_details_text_snoc(ds.drop_first(), i - 1);
        if i == 1 {
            assert(ds.drop_first().take(0) =~= Seq::<ValidationError>::empty());
            assert(spec_details_text(ds.drop_first().take(1)) == spec_detail_text(
                ds.drop_first()[0],
            ));
            assert(ds.take(1).len() == 1);
            assert(spec_details_text(ds.take(1)) == spec_detail_text(ds[0]));
            assert(spec_details_text(t) =~= spec_details_text(ds.take(1)) + "; "@
                + spec_detail_text(ds[1]));
        } else {
            assert(ds.take(i).len() >= 2);
            assert(spec_details_text(ds.take(i)) == spec_detail_text(ds[0]) + "; "@
                + spec_details_text(ds.drop_first().take(i - 1)));
            assert(spec_details_text(t) =~= spec_details_text(ds.take(i)) + "; "@
                + spec_detail_text(ds[i]));
        }
    }
}

/// Where the `k`-th error's message starts inside the rendered list.
pub open spec fn spec_detail_offset(ds: Seq<ValidationError>, k: int) -> int
    decreases k,
{
    if k <= 0 {
        0
    } else {
        spec_detail_text(ds[0]).len() + 2 + spec_detail_offset(ds.drop_first(), k - 1)
    }
}

/// Each error's message appears verbatim, contiguously, inside the rendered
/// list, at its offset.
proof fn lemma_details_text_contains_msg(ds: Seq<ValidationError>, k: int)
    requires
        0 <= k < ds.len(),
    ensures
        0 <= spec_detail_offset(ds, k),
        spec_detail_offset(ds, k) + ds[k].msg@.len() <= spec_details_text(ds).len(),
        spec_details_text(ds).subrange(
            spec_detail_offset(ds, k),
            spec_detail_offset(ds, k) + ds[k].msg@.len(),
        ) == ds[k].msg@,
    decreases k,
{
    if k == 0 {
        if ds.len() == 1 {
            assert(spec_details_text(ds) == spec_detail_text(ds[0]));
        }
        assert(spec_details_text(ds).subrange(0, ds[0].msg@.len() as int) =~= ds[0].msg@);
    } else {
        reveal_strlit("; ");
        let rest = ds.drop_first();
        lemma_details_text_contains_msg(rest, k - 1);
        let head = spec_detail_text(ds[0]) + "; "@;
        assert(spec_details_text(ds) == spec_detail_text(ds[0]) + "; "@ + spec_details_text(rest));
        let off = spec_detail_offset(ds, k);
        let off1 = spec_detail_offset(rest, k - 1);
        assert(off == head.len() + off1);
        assert(rest[k - 1] == ds[k]);
        assert(spec_details_text(ds).subrange(off, off + ds[k].msg@.len()) =~= spec_details_text(
            rest,
        ).subrange(off1, off1 + ds[k].msg@.len()));
    }
}

/// No information loss: every message of a decoded validation envelope
/// appears verbatim inside the classified error's message.
pub proof fn lemma_validation_message_contains_msg(env: HTTPValidationError, k: int)
    requires
        env.detail is Some,
        0 <= k < env.detail->0@.len(),
    ensures
        exists|i: int|
            0 <= i && i + env.detail->0@[k].msg@.len() <= spec_validation_message(env).len()
                && #[trigger] spec_validation_message(env).subrange(
                i,
                i + env.detail->0@[k].msg@.len(),
            ) == env.detail->0@[k].msg@,
{
    let ds = env.detail->0@;
    let msg = ds[k].msg@;
    lemma_details_text_contains_msg(ds, k);
    let prefix = "Validation Error: "@;
    let w = prefix.len() + spec_detail_offset(ds, k);
    assert(spec_validation_message(env).subrange(w, w + msg.len()) =~= spec_details_text(
        ds,
    ).subrange(spec_detail_offset(ds, k), spec_detail_offset(ds, k) + msg.len()));
    assert(spec_validation_message(env).subrange(w, w + msg.len()) == msg);
}

} // verus!

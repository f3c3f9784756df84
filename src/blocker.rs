use vstd::prelude::*;

use crate::errors::RustException;
use adblock::lists::{FilterSet, ParseOptions};
use adblock::request::{Request, RequestError};
use adblock::Engine;

verus! {

#[verifier::external_type_specification]
#[verifier::external_body]
pub struct ExFilterSet(adblock::lists::FilterSet);

#[verifier::external_type_specification]
#[verifier::external_body]
pub struct ExEngine(adblock::Engine);

#[verifier::external_type_specification]
#[verifier::external_body]
pub struct ExRequest(adblock::request::Request);

/// The filter rule lines a filter set has been given, in order.
pub uninterp spec fn filter_set_rules(f: FilterSet) -> Seq<Seq<char>>;

/// The filter rule lines an engine was compiled from, in order.
pub uninterp spec fn engine_rules(e: Engine) -> Seq<Seq<char>>;

/// The (url, source url, resource type) triple a request was made from.
pub uninterp spec fn request_triple(r: Request) -> Seq<Seq<char>>;

/// Whether the engine accepts the triple as a request.
pub uninterp spec fn request_ok(url: Seq<char>, source_url: Seq<char>, request_type: Seq<char>) -> bool;

/// Whether an engine compiled from `rules` blocks the request made from `triple`.
pub uninterp spec fn blocks(rules: Seq<Seq<char>>, triple: Seq<Seq<char>>) -> bool;

pub open spec fn strings_view(v: Seq<String>) -> Seq<Seq<char>> {
    v.map_values(|s: String| s@)
}

/// Relies on `FilterSet::new`: a new set holds no rules.
#[verifier::external_body]
fn new_filter_set(debug: bool) -> (r: FilterSet)
    ensures
        filter_set_rules(r) == Seq::<Seq<char>>::empty(),
{
    FilterSet::new(debug)
}

/// Relies on `FilterSet::add_filters`: the lines are added after those
/// already given; lines that do not parse are ignored by the engine.
#[verifier::external_body]
fn add_filters(set: &mut FilterSet, filters: &Vec<String>)
    ensures
        filter_set_rules(*final(set)) == filter_set_rules(*old(set)) + strings_view(filters@),
{
    set.add_filters(filters, ParseOptions::default());
}

/// Relies on `Engine::from_filter_set`: the engine is compiled from the
/// rules of the set.
#[verifier::external_body]
fn engine_from_filter_set(set: FilterSet) -> (r: Engine)
    ensures
        engine_rules(r) == filter_set_rules(set),
{
    Engine::from_filter_set(set, true)
}

/// Relies on `Request::new`: it succeeds on the triples that parse, never
/// on an empty url.
#[verifier::external_body]
fn new_request(url: &str, source_url: &str, request_type: &str) -> (r: Result<Request, RequestError>)
    ensures
        r is Ok <==> request_ok(url@, source_url@, request_type@),
        r is Ok ==> request_triple(r->Ok_0) == seq![url@, source_url@, request_type@],
        url@.len() == 0 ==> r is Err,
{
    Request::new(url, source_url, request_type)
}

/// Relies on `Engine::check_network_request`: the verdict depends only on
/// the engine's rules and the request; an engine without rules matches
/// nothing.
#[verifier::external_body]
fn check_network_request(engine: &Engine, request: &Request) -> (r: bool)
    ensures
        r == blocks(engine_rules(*engine), request_triple(*request)),
        engine_rules(*engine).len() == 0 ==> !r,
{
    engine.check_network_request(request).matched
}

/// One compiled filtering engine; immutable once built.
pub struct AdvtBlocker {
    engine: Engine,
}

impl AdvtBlocker {
    /// The rule lines this blocker was built from.
    pub closed spec fn rules(&self) -> Seq<Seq<char>> {
        engine_rules(self.engine)
    }

    /// Builds a blocker from the given rule lines; never fails.
    pub fn new(filter_list: Vec<String>) -> (r: Self)
        ensures
            r.rules() == strings_view(filter_list@),
    {
        let mut filter_set = new_filter_set(false);
        add_filters(&mut filter_set, &filter_list);
        let filter_engine = engine_from_filter_set(filter_set);
        proof {
            assert(Seq::<Seq<char>>::empty() + strings_view(filter_list@) =~= strings_view(filter_list@));
        }
        AdvtBlocker { engine: filter_engine }
    }

    /// Whether the request made from the triple is blocked; fails when the
    /// triple does not form a request.
    pub fn check_network_urls(&self, url: &str, src_url: &str, req_type: &str) -> (r: Result<bool, RustException>)
        ensures
            r is Ok <==> request_ok(url@, src_url@, req_type@),
            r is Ok ==> r->Ok_0 == blocks(self.rules(), seq![url@, src_url@, req_type@]),
            r is Err ==> r->Err_0 is CreateRequest,
            url@.len() == 0 ==> r is Err,
            self.rules().len() == 0 ==> r != Ok::<bool, RustException>(true),
    {
        match new_request(url, src_url, req_type) {
            Ok(request) => Ok(check_network_request(&self.engine, &request)),
            Err(e) => Err(RustException::CreateRequest(e)),
        }
    }
}

impl Default for AdvtBlocker {
    /// A blocker without rules, which blocks nothing.
    fn default() -> (r: Self)
        ensures
            r.rules().len() == 0,
    {
        AdvtBlocker::new(Vec::new())
    }
}

} // verus!

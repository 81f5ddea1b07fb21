use adblock::lists::{FilterSet, ParseOptions};
use adblock::request::{Request, RequestError};
use adblock::Engine;
use vstd::prelude::*;

use crate::error::{BridgeError, RequestRejection};

verus! {

#[verifier::external_type_specification]
#[verifier::external_body]
pub struct ExEngine(adblock::Engine);

#[verifier::external_type_specification]
#[verifier::external_body]
pub struct ExFilterSet(adblock::lists::FilterSet);

#[verifier::external_type_specification]
#[verifier::external_body]
pub struct ExRequest(adblock::request::Request);

#[verifier::external_type_specification]
#[verifier::external_body]
pub struct ExRequestError(adblock::request::RequestError);

/// Whether the engine can form a request from these URLs and request type
/// (the request URL must parse; a source URL that does not parse makes a
/// third-party request, no failure).
pub uninterp spec fn request_accepted(url: Seq<char>, source_url: Seq<char>, request_type: Seq<char>) -> bool;

/// The rules that a filter set was given, in order.
pub uninterp spec fn filter_set_rules(s: FilterSet) -> Seq<String>;

/// The rules that an engine was built from, in order.
pub uninterp spec fn engine_rules(e: Engine) -> Seq<String>;

/// The engine's verdict, for an engine built from `rules`, on a request it
/// can form: whether a blocking rule matched.
pub uninterp spec fn network_match(rules: Seq<String>, url: Seq<char>, source_url: Seq<char>, request_type: Seq<char>) -> bool;

/// The selectors to hide on the page at `url`, for an engine built from `rules`.
pub uninterp spec fn cosmetic_hide(rules: Seq<String>, url: Seq<char>) -> Set<String>;

/// The generic-rule exceptions for the page at `url`, for an engine built
/// from `rules`.
pub uninterp spec fn cosmetic_exceptions(rules: Seq<String>, url: Seq<char>) -> Set<String>;

/// Whether generic cosmetic rules are off for the page at `url`, for an
/// engine built from `rules`.
pub uninterp spec fn cosmetic_generic_hide(rules: Seq<String>, url: Seq<char>) -> bool;

/// What a page needs for cosmetic filtering.
#[derive(Debug, Clone)]
pub struct CosmeticResources {
    /// Selectors of elements to hide.
    pub hide_selectors: Vec<String>,
    /// Script to inject into the page.
    pub injected_script: String,
    /// Class and id selectors that generic rules must not touch.
    pub exceptions: Vec<String>,
    /// Whether generic cosmetic rules are switched off for the page.
    pub generic_hide: bool,
}

impl CosmeticResources {
    pub open spec fn is_empty(&self) -> bool {
        &&& self.hide_selectors@.len() == 0
        &&& self.injected_script@.len() == 0
        &&& self.exceptions@.len() == 0
        &&& !self.generic_hide
    }

    /// Resources that change nothing on a page.
    pub fn empty() -> (r: Self)
        ensures
            r.is_empty(),
    {
        CosmeticResources {
            hide_selectors: Vec::new(),
            injected_script: String::new(),
            exceptions: Vec::new(),
            generic_hide: false,
        }
    }
}

/// Relies on adblock's `FilterSet::new`: an empty set of parsed filters.
#[verifier::external_body]
fn new_filter_set(debug: bool) -> (r: FilterSet)
    ensures
        filter_set_rules(r) == Seq::<String>::empty(),
{
    FilterSet::new(debug)
}

/// Relies on adblock's `FilterSet::add_filters`: the rules are added after
/// those already in the set (each one parsed; those it cannot parse it
/// ignores).
#[verifier::external_body]
fn add_filters(set: &mut FilterSet, rules: &Vec<String>)
    ensures
        filter_set_rules(*final(set)) == filter_set_rules(*old(set)) + rules@,
{
    set.add_filters(rules, ParseOptions::default());
}

/// Relies on adblock's `Engine::from_filter_set`, with optimisation on: the
/// engine holds the rules of the set.
#[verifier::external_body]
fn engine_from_filter_set(set: FilterSet) -> (r: Engine)
    ensures
        engine_rules(r) == filter_set_rules(set),
{
    Engine::from_filter_set(set, true)
}

/// Relies on adblock's `Request::new` and `Engine::check_network_request`:
/// the request is formed exactly where the URL can be parsed, and then the
/// verdict is whether a blocking rule of the engine matched it.
#[verifier::external_body]
fn check_network(engine: &Engine, url: &str, source_url: &str, request_type: &str) -> (r: Result<
    bool,
    RequestError,
>)
    ensures
        r is Ok <==> request_accepted(url@, source_url@, request_type@),
        r is Ok ==> r->Ok_0 == network_match(engine_rules(*engine), url@, source_url@, request_type@),
{
    match Request::new(url, source_url, request_type) {
        Ok(request) => Ok(engine.check_network_request(&request).matched),
        Err(e) => Err(e),
    }
}

/// Relies on adblock's `RequestError`: its three variants, one for one.
#[verifier::external_body]
fn rejection_of(e: &RequestError) -> RequestRejection {
    match e {
        RequestError::HostnameParseError => RequestRejection::HostnameParse,
        RequestError::SourceHostnameParseError => RequestRejection::SourceHostnameParse,
        RequestError::UnicodeDecodingError => RequestRejection::UnicodeDecoding,
    }
}

/// Relies on adblock's `Engine::url_cosmetic_resources`: the hidden
/// selectors, exceptions and generic-hide flag that the engine's rules give
/// for the page, each selector once; all empty where it cannot form a
/// `document` request from `url` to itself.
#[verifier::external_body]
fn url_cosmetic_resources_of(engine: &Engine, url: &str) -> (r: CosmeticResources)
    ensures
        r.hide_selectors@.to_set() == cosmetic_hide(engine_rules(*engine), url@),
        r.exceptions@.to_set() == cosmetic_exceptions(engine_rules(*engine), url@),
        r.generic_hide == cosmetic_generic_hide(engine_rules(*engine), url@),
        r.hide_selectors@.no_duplicates(),
        r.exceptions@.no_duplicates(),
        !request_accepted(url@, url@, seq!['d', 'o', 'c', 'u', 'm', 'e', 'n', 't']) ==> r.is_empty(),
{
    let r = engine.url_cosmetic_resources(url);
    CosmeticResources {
        hide_selectors: r.hide_selectors.into_iter().collect(),
        injected_script: r.injected_script,
        exceptions: r.exceptions.into_iter().collect(),
        generic_hide: r.generichide,
    }
}

/// One filtering engine, built from a rule list.
pub struct AdvtBlocker {
    engine: Engine,
}

impl AdvtBlocker {
    /// The rules that the engine was built from, in order.
    pub closed spec fn rules(&self) -> Seq<String> {
        engine_rules(self.engine)
    }

    /// Whether a blocking rule of this blocker matches the request, where the
    /// request can be formed.
    pub open spec fn matches(&self, url: Seq<char>, source_url: Seq<char>, request_type: Seq<char>) -> bool {
        network_match(self.rules(), url, source_url, request_type)
    }

    /// Whether `r` is what this blocker gives for the page at `url`.
    pub open spec fn resources_for(&self, url: Seq<char>, r: CosmeticResources) -> bool {
        &&& r.hide_selectors@.to_set() == cosmetic_hide(self.rules(), url)
        &&& r.exceptions@.to_set() == cosmetic_exceptions(self.rules(), url)
        &&& r.generic_hide == cosmetic_generic_hide(self.rules(), url)
        &&& r.hide_selectors@.no_duplicates()
        &&& r.exceptions@.no_duplicates()
        &&& !request_accepted(url, url, seq!['d', 'o', 'c', 'u', 'm', 'e', 'n', 't']) ==> r.is_empty()
    }

    /// Builds a blocker whose engine holds the given rules; rules the engine
    /// cannot parse are ignored.
    pub fn new(filter_list: Vec<String>) -> (r: Self)
        ensures
            r.rules() == filter_list@,
    {
        let mut filter_set = new_filter_set(false);
        add_filters(&mut filter_set, &filter_list);
        let engine = engine_from_filter_set(filter_set);
        proof {
            assert(Seq::<String>::empty() + filter_list@ =~= filter_list@);
        }
        AdvtBlocker { engine }
    }

    /// Whether a blocking rule matches a request for `url` made from
    /// `src_url` for a resource of kind `req_type`. Fails, with the engine's
    /// reason, exactly where the engine cannot form the request.
    pub fn check_network_urls(&self, url: &str, src_url: &str, req_type: &str) -> (r: Result<
        bool,
        BridgeError,
    >)
        ensures
            r is Ok <==> request_accepted(url@, src_url@, req_type@),
            r is Ok ==> r->Ok_0 == self.matches(url@, src_url@, req_type@),
            r is Err ==> r->Err_0 is EngineRejected,
    {
        match check_network(&self.engine, url, src_url, req_type) {
            Ok(matched) => Ok(matched),
            Err(e) => Err(BridgeError::EngineRejected(rejection_of(&e))),
        }
    }

    /// The cosmetic resources for the page at `url`; never fails.
    pub fn url_cosmetic_resources(&self, url: &str) -> (r: Result<CosmeticResources, BridgeError>)
        ensures
            r is Ok,
            self.resources_for(url@, r->Ok_0),
    {
        Ok(url_cosmetic_resources_of(&self.engine, url))
    }
}

impl Default for AdvtBlocker {
    /// A blocker with no rules.
    fn default() -> (r: Self)
        ensures
            r.rules() == Seq::<String>::empty(),
    {
        AdvtBlocker::new(Vec::new())
    }
}

/// Two blockers built from equal rule lists give the same verdict on every
/// request and the same cosmetic sets on every page.
pub proof fn lemma_equal_rules_agree(
    a: AdvtBlocker,
    b: AdvtBlocker,
    url: Seq<char>,
    source_url: Seq<char>,
    request_type: Seq<char>,
)
    requires
        a.rules() == b.rules(),
    ensures
        a.matches(url, source_url, request_type) == b.matches(url, source_url, request_type),
        cosmetic_hide(a.rules(), url) == cosmetic_hide(b.rules(), url),
        cosmetic_exceptions(a.rules(), url) == cosmetic_exceptions(b.rules(), url),
        cosmetic_generic_hide(a.rules(), url) == cosmetic_generic_hide(b.rules(), url),
{
}

} // verus!

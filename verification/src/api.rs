//! The requests that the service answers and the pages it answers with.
//!
//! A request gives the address it is sent to and the parameters that go into
//! the query string, in order. Sending it is the caller's business.

use vstd::prelude::*;
use vstd::string::*;
use crate::decode::{field, members_of, object, required, Decode, WireName};
use crate::error::DecodeError;
use crate::json::{Json, JsonView};
use crate::object::{
    Category, Pagination, Platform, Project, ProjectView, ProjectsSort, Version, VersionView,
};
use crate::text::{decimal, decimal_string, decimal_value, lemma_decimal_round_trip};

verus! {

/// The root that every address of the interface starts with.
pub const BASE_API_URL: &'static str = "https://hangar.papermc.io/api/v1";

/// A parameter of a query string: its key and its value.
pub type Parameter = (Seq<char>, Seq<char>);

/// The parameter `key`, if it has a value: a filter that was not set leaves
/// nothing behind, not even its key.
pub open spec fn given(key: &'static str, value: Option<Seq<char>>) -> Seq<Parameter> {
    match value {
        Some(v) => seq![(key@, v)],
        None => Seq::empty(),
    }
}

/// How a flag is written.
pub open spec fn flag_text(flag: bool) -> Seq<char> {
    if flag {
        "true"@
    } else {
        "false"@
    }
}

/// The value of the first parameter with the key `key`.
pub open spec fn value_of(parameters: Seq<Parameter>, key: Seq<char>) -> Option<Seq<char>>
    decreases parameters.len(),
{
    if parameters.len() == 0 {
        None
    } else if parameters[0].0 == key {
        Some(parameters[0].1)
    } else {
        value_of(parameters.skip(1), key)
    }
}

/// Looking a key up in two runs of parameters, one after the other, finds
/// what the first run has for it, and only else what the second has.
pub proof fn lemma_value_of_concat(a: Seq<Parameter>, b: Seq<Parameter>, key: Seq<char>)
    ensures
        value_of(a + b, key) == if value_of(a, key) is Some {
            value_of(a, key)
        } else {
            value_of(b, key)
        },
    decreases a.len(),
{
    if a.len() == 0 {
        assert(a + b =~= b);
    } else {
        assert((a + b)[0] == a[0]);
        assert((a + b).skip(1) =~= a.skip(1) + b);
        lemma_value_of_concat(a.skip(1), b, key);
    }
}

/// A key has no value exactly when no parameter carries it.
pub proof fn lemma_value_of_none(parameters: Seq<Parameter>, key: Seq<char>)
    ensures
        value_of(parameters, key) is None <==> forall|i: int|
            0 <= i < parameters.len() ==> (#[trigger] parameters[i]).0 != key,
    decreases parameters.len(),
{
    if parameters.len() > 0 {
        let rest = parameters.skip(1);
        lemma_value_of_none(rest, key);
        if parameters[0].0 != key {
            if value_of(rest, key) is None {
                assert forall|i: int| 0 <= i < parameters.len() implies (#[trigger] parameters[i]).0
                    != key by {
                    if i > 0 {
                        assert(parameters[i] == rest[i - 1]);
                    }
                }
            } else {
                let i = choose|i: int| 0 <= i < rest.len() && (#[trigger] rest[i]).0 == key;
                assert(parameters[i + 1] == rest[i]);
            }
        }
    }
}

/// Appends a parameter.
fn push_parameter(out: &mut Vec<(String, String)>, key: &'static str, value: String)
    ensures
        final(out).deep_view() == old(out).deep_view() + given(key, Some(value@)),
{
    out.push((String::from_str(key), value));
    assert(out.deep_view() =~= old(out).deep_view() + given(key, Some(value@)));
}

/// Appends a parameter of text, if the filter is set.
fn push_text(out: &mut Vec<(String, String)>, key: &'static str, value: &Option<String>)
    ensures
        final(out).deep_view() == old(out).deep_view() + given(key, value.deep_view()),
{
    match value {
        Some(v) => push_parameter(out, key, v.clone()),
        None => {
            assert(out.deep_view() =~= old(out).deep_view() + given(key, None));
        },
    }
}

/// Appends a parameter that is one of a set of names, if the filter is set.
fn push_name(out: &mut Vec<(String, String)>, key: &'static str, value: Option<&'static str>)
    ensures
        final(out).deep_view() == old(out).deep_view() + given(
            key,
            match value {
                Some(v) => Some(v@),
                None => None,
            },
        ),
{
    match value {
        Some(v) => push_parameter(out, key, String::from_str(v)),
        None => {
            assert(out.deep_view() =~= old(out).deep_view() + given(key, None));
        },
    }
}

/// The text of a flag, if the flag is set.
pub open spec fn flag_value(flag: Option<bool>) -> Option<Seq<char>> {
    match flag {
        Some(b) => Some(flag_text(b)),
        None => None,
    }
}

/// The name of a sort key, if one is set.
pub open spec fn sort_value(sort: Option<ProjectsSort>) -> Option<Seq<char>> {
    match sort {
        Some(s) => Some(s.wire_name()),
        None => None,
    }
}

/// The name of a category, if one is set.
pub open spec fn category_value(category: Option<Category>) -> Option<Seq<char>> {
    match category {
        Some(c) => Some(c.wire_name()),
        None => None,
    }
}

/// The name of a platform, if one is set.
pub open spec fn platform_value(platform: Option<Platform>) -> Option<Seq<char>> {
    match platform {
        Some(p) => Some(p.wire_name()),
        None => None,
    }
}

fn flag_name(flag: &Option<bool>) -> (r: Option<&'static str>)
    ensures
        (match r {
            Some(v) => Some(v@),
            None => None,
        }) == flag_value(*flag),
{
    match flag {
        Some(true) => Some("true"),
        Some(false) => Some("false"),
        None => None,
    }
}

fn sort_name(sort: &Option<ProjectsSort>) -> (r: Option<&'static str>)
    ensures
        (match r {
            Some(v) => Some(v@),
            None => None,
        }) == sort_value(*sort),
{
    match sort {
        Some(s) => Some(s.as_str()),
        None => None,
    }
}

fn category_name(category: &Option<Category>) -> (r: Option<&'static str>)
    ensures
        (match r {
            Some(v) => Some(v@),
            None => None,
        }) == category_value(*category),
{
    match category {
        Some(c) => Some(c.as_str()),
        None => None,
    }
}

fn platform_name(platform: &Option<Platform>) -> (r: Option<&'static str>)
    ensures
        (match r {
            Some(v) => Some(v@),
            None => None,
        }) == platform_value(*platform),
{
    match platform {
        Some(p) => Some(p.as_str()),
        None => None,
    }
}

impl Pagination {
    /// The two parameters of a window: `limit`, then `offset`, in decimal.
    pub open spec fn parameters(self) -> Seq<Parameter> {
        given("limit", Some(decimal(self.limit as int)))
            + given("offset", Some(decimal(self.offset as int)))
    }

    /// Appends the two parameters of the window.
    fn push_parameters(&self, out: &mut Vec<(String, String)>)
        ensures
            final(out).deep_view() == old(out).deep_view() + self.parameters(),
    {
        push_parameter(out, "limit", decimal_string(self.limit));
        push_parameter(out, "offset", decimal_string(self.offset));
        assert(out.deep_view() =~= old(out).deep_view() + self.parameters());
    }
}

/// What every request has: where it goes and what it carries.
pub trait HangarRequest {
    /// The address the request is sent to.
    spec fn address(&self) -> Seq<char>;

    /// The parameters of the query string, in order.
    spec fn parameters(&self) -> Seq<Parameter>;

    /// The address the request is sent to.
    fn url(&self) -> (r: String)
        ensures
            r@ == self.address(),
    ;

    /// The parameters of the query string, in order.
    fn params(&self) -> (r: Vec<(String, String)>)
        ensures
            r.deep_view() == self.parameters(),
    ;
}

/// Searches the projects of the service, or those of one user.
#[derive(Debug, Clone, PartialEq)]
pub struct ProjectsRequest {
    /// Whether a project whose name matches exactly comes first.
    pub prioritize_exact_match: Option<bool>,
    pub pagination: Pagination,
    /// The order of the result.
    pub sort: Option<ProjectsSort>,
    pub category: Option<Category>,
    pub platform: Option<Platform>,
    /// The author of the project.
    pub owner: Option<String>,
    /// What to search for.
    pub query: Option<String>,
    pub license: Option<String>,
    /// A version of the platform.
    pub version: Option<String>,
    pub tag: Option<String>,
    /// A member of the project.
    pub member: Option<String>,
}

impl HangarRequest for ProjectsRequest {
    open spec fn address(&self) -> Seq<char> {
        BASE_API_URL@ + "/projects"@
    }

    open spec fn parameters(&self) -> Seq<Parameter> {
        given("prioritizeExactMatch", flag_value(self.prioritize_exact_match))
            + self.pagination.parameters()
            + given("sort", sort_value(self.sort))
            + given("category", category_value(self.category))
            + given("platform", platform_value(self.platform))
            + given("owner", self.owner.deep_view())
            + given("query", self.query.deep_view())
            + given("license", self.license.deep_view())
            + given("version", self.version.deep_view())
            + given("tag", self.tag.deep_view())
            + given("member", self.member.deep_view())
    }

    fn url(&self) -> (r: String) {
        let mut out = String::from_str(BASE_API_URL);
        out.append("/projects");
        out
    }

    fn params(&self) -> (r: Vec<(String, String)>) {
        let mut out: Vec<(String, String)> = Vec::new();
        push_name(&mut out, "prioritizeExactMatch", flag_name(&self.prioritize_exact_match));
        self.pagination.push_parameters(&mut out);
        push_name(&mut out, "sort", sort_name(&self.sort));
        push_name(&mut out, "category", category_name(&self.category));
        push_name(&mut out, "platform", platform_name(&self.platform));
        push_text(&mut out, "owner", &self.owner);
        push_text(&mut out, "query", &self.query);
        push_text(&mut out, "license", &self.license);
        push_text(&mut out, "version", &self.version);
        push_text(&mut out, "tag", &self.tag);
        push_text(&mut out, "member", &self.member);
        assert(out.deep_view() =~= self.parameters());
        out
    }
}

/// Asks for one project.
#[derive(Debug, Clone, PartialEq)]
pub struct ProjectRequest {
    /// The slug of the project.
    pub slug: String,
}

impl HangarRequest for ProjectRequest {
    open spec fn address(&self) -> Seq<char> {
        BASE_API_URL@ + "/projects/"@ + self.slug@
    }

    open spec fn parameters(&self) -> Seq<Parameter> {
        Seq::empty()
    }

    fn url(&self) -> (r: String) {
        let mut out = String::from_str(BASE_API_URL);
        out.append("/projects/");
        out.append(self.slug.as_str());
        out
    }

    fn params(&self) -> (r: Vec<(String, String)>) {
        let out: Vec<(String, String)> = Vec::new();
        assert(out.deep_view() =~= self.parameters());
        out
    }
}

/// Asks for a page of a project.
#[derive(Debug, Clone, PartialEq)]
pub struct PageRequest {
    /// The slug of the project.
    pub slug: String,
    /// The path of the page. It travels as a parameter: the address does not
    /// hold it.
    pub path: String,
}

impl HangarRequest for PageRequest {
    open spec fn address(&self) -> Seq<char> {
        BASE_API_URL@ + "/pages/page/"@ + self.slug@
    }

    open spec fn parameters(&self) -> Seq<Parameter> {
        given("path", Some(self.path@))
    }

    fn url(&self) -> (r: String) {
        let mut out = String::from_str(BASE_API_URL);
        out.append("/pages/page/");
        out.append(self.slug.as_str());
        out
    }

    fn params(&self) -> (r: Vec<(String, String)>) {
        let mut out: Vec<(String, String)> = Vec::new();
        push_parameter(&mut out, "path", self.path.clone());
        assert(out.deep_view() =~= self.parameters());
        out
    }
}

/// Lists the versions of a project.
#[derive(Debug, Clone, PartialEq)]
pub struct VersionsRequest {
    /// The slug of the project.
    pub slug: String,
    pub pagination: Pagination,
    /// Whether channels that are hidden by default are included.
    pub include_hidden_channels: Option<bool>,
    /// The name of a channel.
    pub channel: Option<String>,
    pub platform: Option<Platform>,
    /// A version of the platform.
    pub platform_version: Option<String>,
}

impl HangarRequest for VersionsRequest {
    open spec fn address(&self) -> Seq<char> {
        BASE_API_URL@ + "/projects/"@ + self.slug@ + "/versions"@
    }

    open spec fn parameters(&self) -> Seq<Parameter> {
        self.pagination.parameters()
            + given("includeHiddenChannels", flag_value(self.include_hidden_channels))
            + given("channel", self.channel.deep_view())
            + given("platform", platform_value(self.platform))
            + given("platformVersion", self.platform_version.deep_view())
    }

    fn url(&self) -> (r: String) {
        let mut out = String::from_str(BASE_API_URL);
        out.append("/projects/");
        out.append(self.slug.as_str());
        out.append("/versions");
        out
    }

    fn params(&self) -> (r: Vec<(String, String)>) {
        let mut out: Vec<(String, String)> = Vec::new();
        self.pagination.push_parameters(&mut out);
        push_name(&mut out, "includeHiddenChannels", flag_name(&self.include_hidden_channels));
        push_text(&mut out, "channel", &self.channel);
        push_name(&mut out, "platform", platform_name(&self.platform));
        push_text(&mut out, "platformVersion", &self.platform_version);
        assert(out.deep_view() =~= self.parameters());
        out
    }
}

/// Asks for one version of a project.
#[derive(Debug, Clone, PartialEq)]
pub struct VersionRequest {
    /// The slug of the project.
    pub slug: String,
    /// The name of the version.
    pub name: String,
}

impl HangarRequest for VersionRequest {
    open spec fn address(&self) -> Seq<char> {
        BASE_API_URL@ + "/projects/"@ + self.slug@ + "/versions/"@ + self.name@
    }

    open spec fn parameters(&self) -> Seq<Parameter> {
        Seq::empty()
    }

    fn url(&self) -> (r: String) {
        let mut out = String::from_str(BASE_API_URL);
        out.append("/projects/");
        out.append(self.slug.as_str());
        out.append("/versions/");
        out.append(self.name.as_str());
        out
    }

    fn params(&self) -> (r: Vec<(String, String)>) {
        let out: Vec<(String, String)> = Vec::new();
        assert(out.deep_view() =~= self.parameters());
        out
    }
}

/// Some parameter carries the key `key`.
pub open spec fn has_key(parameters: Seq<Parameter>, key: Seq<char>) -> bool {
    exists|i: int| 0 <= i < parameters.len() && (#[trigger] parameters[i]).0 == key
}

/// What a lone optional parameter has for a key: its value under its own
/// key, nothing under any other.
pub proof fn lemma_value_of_given(key: &'static str, value: Option<Seq<char>>)
    ensures
        forall|wanted: Seq<char>| #[trigger]
            value_of(given(key, value), wanted) == if key@ == wanted {
                value
            } else {
                None
            },
{
    assert forall|wanted: Seq<char>| #[trigger]
        value_of(given(key, value), wanted) == if key@ == wanted {
            value
        } else {
            None
        } by {
        let g = given(key, value);
        if value is Some {
            assert(g.len() == 1);
            assert(g.skip(1).len() == 0);
            assert(value_of(g.skip(1), wanted) is None);
        }
    }
}

/// [`lemma_value_of_concat`] for every key at once.
pub proof fn lemma_value_of_concat_any(a: Seq<Parameter>, b: Seq<Parameter>)
    ensures
        forall|key: Seq<char>| #[trigger]
            value_of(a + b, key) == if value_of(a, key) is Some {
                value_of(a, key)
            } else {
                value_of(b, key)
            },
{
    assert forall|key: Seq<char>| #[trigger]
        value_of(a + b, key) == if value_of(a, key) is Some {
            value_of(a, key)
        } else {
            value_of(b, key)
        } by {
        lemma_value_of_concat(a, b, key);
    }
}

impl Pagination {
    /// What the two parameters of a window have for each key.
    pub proof fn lemma_parameters_by_key(self)
        ensures
            forall|key: Seq<char>| #[trigger]
                value_of(self.parameters(), key) == if key == "limit"@ {
                    Some(decimal(self.limit as int))
                } else if key == "offset"@ {
                    Some(decimal(self.offset as int))
                } else {
                    None
                },
    {
        let limit = given("limit", Some(decimal(self.limit as int)));
        let offset = given("offset", Some(decimal(self.offset as int)));
        lemma_value_of_given("limit", Some(decimal(self.limit as int)));
        lemma_value_of_given("offset", Some(decimal(self.offset as int)));
        lemma_value_of_concat_any(limit, offset);
    }
}

impl ProjectsRequest {
    /// The keys of the parameters are twelve different strings.
    proof fn lemma_keys_differ()
        ensures
            "prioritizeExactMatch"@.len() == 20,
            "limit"@.len() == 5 && "limit"@[0] == 'l',
            "offset"@.len() == 6 && "offset"@[0] == 'o',
            "sort"@.len() == 4,
            "category"@.len() == 8 && "category"@[0] == 'c',
            "platform"@.len() == 8 && "platform"@[0] == 'p',
            "owner"@.len() == 5 && "owner"@[0] == 'o',
            "query"@.len() == 5 && "query"@[0] == 'q',
            "license"@.len() == 7 && "license"@[0] == 'l',
            "version"@.len() == 7 && "version"@[0] == 'v',
            "tag"@.len() == 3,
            "member"@.len() == 6 && "member"@[0] == 'm',
    {
        reveal_strlit("prioritizeExactMatch");
        reveal_strlit("limit");
        reveal_strlit("offset");
        reveal_strlit("sort");
        reveal_strlit("category");
        reveal_strlit("platform");
        reveal_strlit("owner");
        reveal_strlit("query");
        reveal_strlit("license");
        reveal_strlit("version");
        reveal_strlit("tag");
        reveal_strlit("member");
    }

    /// Under each key the parameters have what the request holds for it: the
    /// window's two numbers always, a filter's value exactly when it is set.
    pub proof fn lemma_parameters_by_key(&self)
        ensures
            value_of(self.parameters(), "prioritizeExactMatch"@) == flag_value(
                self.prioritize_exact_match,
            ),
            value_of(self.parameters(), "limit"@) == Some(decimal(self.pagination.limit as int)),
            value_of(self.parameters(), "offset"@) == Some(decimal(self.pagination.offset as int)),
            value_of(self.parameters(), "sort"@) == sort_value(self.sort),
            value_of(self.parameters(), "category"@) == category_value(self.category),
            value_of(self.parameters(), "platform"@) == platform_value(self.platform),
            value_of(self.parameters(), "owner"@) == self.owner.deep_view(),
            value_of(self.parameters(), "query"@) == self.query.deep_view(),
            value_of(self.parameters(), "license"@) == self.license.deep_view(),
            value_of(self.parameters(), "version"@) == self.version.deep_view(),
            value_of(self.parameters(), "tag"@) == self.tag.deep_view(),
            value_of(self.parameters(), "member"@) == self.member.deep_view(),
    {
        ProjectsRequest::lemma_keys_differ();
        let exact = given("prioritizeExactMatch", flag_value(self.prioritize_exact_match));
        let window = self.pagination.parameters();
        let sort = given("sort", sort_value(self.sort));
        let category = given("category", category_value(self.category));
        let platform = given("platform", platform_value(self.platform));
        let owner = given("owner", self.owner.deep_view());
        let query = given("query", self.query.deep_view());
        let license = given("license", self.license.deep_view());
        let version = given("version", self.version.deep_view());
        let tag = given("tag", self.tag.deep_view());
        let member = given("member", self.member.deep_view());
        lemma_value_of_given("prioritizeExactMatch", flag_value(self.prioritize_exact_match));
        self.pagination.lemma_parameters_by_key();
        lemma_value_of_given("sort", sort_value(self.sort));
        lemma_value_of_given("category", category_value(self.category));
        lemma_value_of_given("platform", platform_value(self.platform));
        lemma_value_of_given("owner", self.owner.deep_view());
        lemma_value_of_given("query", self.query.deep_view());
        lemma_value_of_given("license", self.license.deep_view());
        lemma_value_of_given("version", self.version.deep_view());
        lemma_value_of_given("tag", self.tag.deep_view());
        lemma_value_of_given("member", self.member.deep_view());
        let p1 = exact + window;
        let p2 = p1 + sort;
        let p3 = p2 + category;
        let p4 = p3 + platform;
        let p5 = p4 + owner;
        let p6 = p5 + query;
        let p7 = p6 + license;
        let p8 = p7 + version;
        let p9 = p8 + tag;
        let p10 = p9 + member;
        assert(p10 == self.parameters());
        lemma_value_of_concat_any(exact, window);
        lemma_value_of_concat_any(p1, sort);
        lemma_value_of_concat_any(p2, category);
        lemma_value_of_concat_any(p3, platform);
        lemma_value_of_concat_any(p4, owner);
        lemma_value_of_concat_any(p5, query);
        lemma_value_of_concat_any(p6, license);
        lemma_value_of_concat_any(p7, version);
        lemma_value_of_concat_any(p8, tag);
        lemma_value_of_concat_any(p9, member);
    }

    /// Writing the window into the parameters and reading the two numbers
    /// back gives the window again.
    pub proof fn lemma_pagination_round_trip(&self)
        ensures
            value_of(self.parameters(), "limit"@) is Some,
            value_of(self.parameters(), "offset"@) is Some,
            decimal_value(value_of(self.parameters(), "limit"@)->Some_0) == Some(
                self.pagination.limit as int,
            ),
            decimal_value(value_of(self.parameters(), "offset"@)->Some_0) == Some(
                self.pagination.offset as int,
            ),
    {
        self.lemma_parameters_by_key();
        lemma_decimal_round_trip(self.pagination.limit as int);
        lemma_decimal_round_trip(self.pagination.offset as int);
    }

    /// A filter that is not set leaves no parameter with its key.
    pub proof fn lemma_unset_filters_are_omitted(&self)
        ensures
            self.prioritize_exact_match is None ==> !has_key(
                self.parameters(),
                "prioritizeExactMatch"@,
            ),
            self.sort is None ==> !has_key(self.parameters(), "sort"@),
            self.category is None ==> !has_key(self.parameters(), "category"@),
            self.platform is None ==> !has_key(self.parameters(), "platform"@),
            self.owner is None ==> !has_key(self.parameters(), "owner"@),
            self.query is None ==> !has_key(self.parameters(), "query"@),
            self.license is None ==> !has_key(self.parameters(), "license"@),
            self.version is None ==> !has_key(self.parameters(), "version"@),
            self.tag is None ==> !has_key(self.parameters(), "tag"@),
            self.member is None ==> !has_key(self.parameters(), "member"@),
    {
        self.lemma_parameters_by_key();
        let p = self.parameters();
        lemma_value_of_none(p, "prioritizeExactMatch"@);
        lemma_value_of_none(p, "sort"@);
        lemma_value_of_none(p, "category"@);
        lemma_value_of_none(p, "platform"@);
        lemma_value_of_none(p, "owner"@);
        lemma_value_of_none(p, "query"@);
        lemma_value_of_none(p, "license"@);
        lemma_value_of_none(p, "version"@);
        lemma_value_of_none(p, "tag"@);
        lemma_value_of_none(p, "member"@);
    }
}

impl VersionsRequest {
    /// The keys of the parameters are six different strings.
    proof fn lemma_keys_differ()
        ensures
            "limit"@.len() == 5,
            "offset"@.len() == 6,
            "includeHiddenChannels"@.len() == 21,
            "channel"@.len() == 7,
            "platform"@.len() == 8,
            "platformVersion"@.len() == 15,
    {
        reveal_strlit("limit");
        reveal_strlit("offset");
        reveal_strlit("includeHiddenChannels");
        reveal_strlit("channel");
        reveal_strlit("platform");
        reveal_strlit("platformVersion");
    }

    /// Under each key the parameters have what the request holds for it: the
    /// window's two numbers always, a filter's value exactly when it is set.
    pub proof fn lemma_parameters_by_key(&self)
        ensures
            value_of(self.parameters(), "limit"@) == Some(decimal(self.pagination.limit as int)),
            value_of(self.parameters(), "offset"@) == Some(decimal(self.pagination.offset as int)),
            value_of(self.parameters(), "includeHiddenChannels"@) == flag_value(
                self.include_hidden_channels,
            ),
            value_of(self.parameters(), "channel"@) == self.channel.deep_view(),
            value_of(self.parameters(), "platform"@) == platform_value(self.platform),
            value_of(self.parameters(), "platformVersion"@) == self.platform_version.deep_view(),
    {
        VersionsRequest::lemma_keys_differ();
        let window = self.pagination.parameters();
        let hidden = given("includeHiddenChannels", flag_value(self.include_hidden_channels));
        let channel = given("channel", self.channel.deep_view());
        let platform = given("platform", platform_value(self.platform));
        let version = given("platformVersion", self.platform_version.deep_view());
        self.pagination.lemma_parameters_by_key();
        lemma_value_of_given("includeHiddenChannels", flag_value(self.include_hidden_channels));
        lemma_value_of_given("channel", self.channel.deep_view());
        lemma_value_of_given("platform", platform_value(self.platform));
        lemma_value_of_given("platformVersion", self.platform_version.deep_view());
        let p1 = window + hidden;
        let p2 = p1 + channel;
        let p3 = p2 + platform;
        let p4 = p3 + version;
        assert(p4 == self.parameters());
        lemma_value_of_concat_any(window, hidden);
        lemma_value_of_concat_any(p1, channel);
        lemma_value_of_concat_any(p2, platform);
        lemma_value_of_concat_any(p3, version);
    }

    /// Writing the window into the parameters and reading the two numbers
    /// back gives the window again.
    pub proof fn lemma_pagination_round_trip(&self)
        ensures
            value_of(self.parameters(), "limit"@) is Some,
            value_of(self.parameters(), "offset"@) is Some,
            decimal_value(value_of(self.parameters(), "limit"@)->Some_0) == Some(
                self.pagination.limit as int,
            ),
            decimal_value(value_of(self.parameters(), "offset"@)->Some_0) == Some(
                self.pagination.offset as int,
            ),
    {
        self.lemma_parameters_by_key();
        lemma_decimal_round_trip(self.pagination.limit as int);
        lemma_decimal_round_trip(self.pagination.offset as int);
    }

    /// A filter that is not set leaves no parameter with its key.
    pub proof fn lemma_unset_filters_are_omitted(&self)
        ensures
            self.include_hidden_channels is None ==> !has_key(
                self.parameters(),
                "includeHiddenChannels"@,
            ),
            self.channel is None ==> !has_key(self.parameters(), "channel"@),
            self.platform is None ==> !has_key(self.parameters(), "platform"@),
            self.platform_version is None ==> !has_key(self.parameters(), "platformVersion"@),
    {
        self.lemma_parameters_by_key();
        let p = self.parameters();
        lemma_value_of_none(p, "includeHiddenChannels"@);
        lemma_value_of_none(p, "channel"@);
        lemma_value_of_none(p, "platform"@);
        lemma_value_of_none(p, "platformVersion"@);
    }
}

impl ProjectsRequest {
    /// The request for a window of all projects, with no filter set.
    pub open spec fn unfiltered(pagination: Pagination) -> ProjectsRequest {
        ProjectsRequest {
            prioritize_exact_match: None,
            pagination,
            sort: None,
            category: None,
            platform: None,
            owner: None,
            query: None,
            license: None,
            version: None,
            tag: None,
            member: None,
        }
    }

    /// A request for a window of all projects. Filters are added one by one.
    pub fn new(pagination: Pagination) -> (r: Self)
        ensures
            r == ProjectsRequest::unfiltered(pagination),
    {
        ProjectsRequest {
            prioritize_exact_match: None,
            pagination,
            sort: None,
            category: None,
            platform: None,
            owner: None,
            query: None,
            license: None,
            version: None,
            tag: None,
            member: None,
        }
    }

    /// Asks whether a project whose name matches exactly comes first.
    pub fn prioritize_exact_match(self, prioritize_exact_match: bool) -> (r: Self)
        ensures
            r == (ProjectsRequest { prioritize_exact_match: Some(prioritize_exact_match), ..self }),
    {
        ProjectsRequest { prioritize_exact_match: Some(prioritize_exact_match), ..self }
    }

    /// Asks for an order.
    pub fn sort(self, sort: ProjectsSort) -> (r: Self)
        ensures
            r == (ProjectsRequest { sort: Some(sort), ..self }),
    {
        ProjectsRequest { sort: Some(sort), ..self }
    }

    /// Keeps the projects of one category.
    pub fn category(self, category: Category) -> (r: Self)
        ensures
            r == (ProjectsRequest { category: Some(category), ..self }),
    {
        ProjectsRequest { category: Some(category), ..self }
    }

    /// Keeps the projects for one platform.
    pub fn platform(self, platform: Platform) -> (r: Self)
        ensures
            r == (ProjectsRequest { platform: Some(platform), ..self }),
    {
        ProjectsRequest { platform: Some(platform), ..self }
    }

    /// Keeps the projects of one author.
    pub fn owner(self, owner: String) -> (r: Self)
        ensures
            r == (ProjectsRequest { owner: Some(owner), ..self }),
    {
        ProjectsRequest { owner: Some(owner), ..self }
    }

    /// Searches for a text.
    pub fn query(self, query: String) -> (r: Self)
        ensures
            r == (ProjectsRequest { query: Some(query), ..self }),
    {
        ProjectsRequest { query: Some(query), ..self }
    }

    /// Keeps the projects under one license.
    pub fn license(self, license: String) -> (r: Self)
        ensures
            r == (ProjectsRequest { license: Some(license), ..self }),
    {
        ProjectsRequest { license: Some(license), ..self }
    }

    /// Keeps the projects for one version of the platform.
    pub fn version(self, version: String) -> (r: Self)
        ensures
            r == (ProjectsRequest { version: Some(version), ..self }),
    {
        ProjectsRequest { version: Some(version), ..self }
    }

    /// Keeps the projects that carry a tag.
    pub fn tag(self, tag: String) -> (r: Self)
        ensures
            r == (ProjectsRequest { tag: Some(tag), ..self }),
    {
        ProjectsRequest { tag: Some(tag), ..self }
    }

    /// Keeps the projects that have a member.
    pub fn member(self, member: String) -> (r: Self)
        ensures
            r == (ProjectsRequest { member: Some(member), ..self }),
    {
        ProjectsRequest { member: Some(member), ..self }
    }
}

impl Default for ProjectsRequest {
    /// The first page of all projects.
    fn default() -> (r: Self)
        ensures
            r == ProjectsRequest::unfiltered(Pagination { limit: 25, offset: 0 }),
    {
        ProjectsRequest::new(Pagination::default())
    }
}

impl ProjectRequest {
    /// A request for the project with this slug.
    pub fn new(slug: String) -> (r: Self)
        ensures
            r == (ProjectRequest { slug }),
    {
        ProjectRequest { slug }
    }
}

impl PageRequest {
    /// A request for the page at `path` of the project with this slug.
    pub fn new(slug: String, path: String) -> (r: Self)
        ensures
            r == (PageRequest { slug, path }),
    {
        PageRequest { slug, path }
    }
}

impl VersionsRequest {
    /// The request for a window of all versions of a project, with no filter set.
    pub open spec fn unfiltered(slug: String, pagination: Pagination) -> VersionsRequest {
        VersionsRequest {
            slug,
            pagination,
            include_hidden_channels: None,
            channel: None,
            platform: None,
            platform_version: None,
        }
    }

    /// A request for a window of all versions of the project with this slug.
    /// Filters are added one by one.
    pub fn new(slug: String, pagination: Pagination) -> (r: Self)
        ensures
            r == VersionsRequest::unfiltered(slug, pagination),
    {
        VersionsRequest {
            slug,
            pagination,
            include_hidden_channels: None,
            channel: None,
            platform: None,
            platform_version: None,
        }
    }

    /// Asks whether channels that are hidden by default are included.
    pub fn include_hidden_channels(self, include_hidden_channels: bool) -> (r: Self)
        ensures
            r == (VersionsRequest { include_hidden_channels: Some(include_hidden_channels), ..self }),
    {
        VersionsRequest { include_hidden_channels: Some(include_hidden_channels), ..self }
    }

    /// Keeps the versions of one channel.
    pub fn channel(self, channel: String) -> (r: Self)
        ensures
            r == (VersionsRequest { channel: Some(channel), ..self }),
    {
        VersionsRequest { channel: Some(channel), ..self }
    }

    /// Keeps the versions for one platform.
    pub fn platform(self, platform: Platform) -> (r: Self)
        ensures
            r == (VersionsRequest { platform: Some(platform), ..self }),
    {
        VersionsRequest { platform: Some(platform), ..self }
    }

    /// Keeps the versions for one version of the platform.
    pub fn platform_version(self, platform_version: String) -> (r: Self)
        ensures
            r == (VersionsRequest { platform_version: Some(platform_version), ..self }),
    {
        VersionsRequest { platform_version: Some(platform_version), ..self }
    }
}

impl VersionRequest {
    /// A request for the version `name` of the project with this slug.
    pub fn new(slug: String, name: String) -> (r: Self)
        ensures
            r == (VersionRequest { slug, name }),
    {
        VersionRequest { slug, name }
    }
}

/// The window that the service applied, and how many records match in all.
#[derive(Debug, Clone, Copy, PartialEq, Eq)]
pub struct PaginationResponse {
    /// The most records a page holds.
    pub limit: i64,
    /// How many records were skipped.
    pub offset: i64,
    /// How many records match.
    pub count: i64,
}

impl DeepView for PaginationResponse {
    type V = PaginationResponse;

    open spec fn deep_view(&self) -> PaginationResponse {
        *self
    }
}

impl Decode for PaginationResponse {
    open spec fn decoded(j: JsonView) -> Result<PaginationResponse, DecodeError> {
        match members_of(j) {
            Err(e) => Err(e),
            Ok(m) => {
                let limit = required::<i64>(m, "limit");
                let offset = required::<i64>(m, "offset");
                let count = required::<i64>(m, "count");
                if limit is Err {
                    Err(limit->Err_0)
                } else if offset is Err {
                    Err(offset->Err_0)
                } else if count is Err {
                    Err(count->Err_0)
                } else {
                    Ok(
                        PaginationResponse {
                            limit: limit->Ok_0,
                            offset: offset->Ok_0,
                            count: count->Ok_0,
                        },
                    )
                }
            },
        }
    }

    fn decode(j: &Json) -> (r: Result<Self, DecodeError>) {
        let m = object(j)?;
        let limit = field::<i64>(m, "limit")?;
        let offset = field::<i64>(m, "offset")?;
        let count = field::<i64>(m, "count")?;
        Ok(PaginationResponse { limit, offset, count })
    }
}

/// One page of a listing of projects.
#[derive(Debug, Clone, PartialEq)]
pub struct ProjectsResponse {
    pub pagination: PaginationResponse,
    pub result: Vec<Project>,
}

/// The mathematical value of a [`ProjectsResponse`].
pub struct ProjectsResponseView {
    pub pagination: PaginationResponse,
    pub result: Seq<ProjectView>,
}

impl DeepView for ProjectsResponse {
    type V = ProjectsResponseView;

    open spec fn deep_view(&self) -> ProjectsResponseView {
        ProjectsResponseView {
            pagination: self.pagination.deep_view(),
            result: self.result.deep_view(),
        }
    }
}

impl Decode for ProjectsResponse {
    open spec fn decoded(j: JsonView) -> Result<ProjectsResponseView, DecodeError> {
        match members_of(j) {
            Err(e) => Err(e),
            Ok(m) => {
                let pagination = required::<PaginationResponse>(m, "pagination");
                let result = required::<Vec<Project>>(m, "result");
                if pagination is Err {
                    Err(pagination->Err_0)
                } else if result is Err {
                    Err(result->Err_0)
                } else {
                    Ok(
                        ProjectsResponseView {
                            pagination: pagination->Ok_0,
                            result: result->Ok_0,
                        },
                    )
                }
            },
        }
    }

    fn decode(j: &Json) -> (r: Result<Self, DecodeError>) {
        let m = object(j)?;
        let pagination = field::<PaginationResponse>(m, "pagination")?;
        let result = field::<Vec<Project>>(m, "result")?;
        Ok(ProjectsResponse { pagination, result })
    }
}

/// One page of a listing of versions.
#[derive(Debug, Clone, PartialEq)]
pub struct VersionsResponse {
    pub pagination: PaginationResponse,
    pub result: Vec<Version>,
}

/// The mathematical value of a [`VersionsResponse`].
pub struct VersionsResponseView {
    pub pagination: PaginationResponse,
    pub result: Seq<VersionView>,
}

impl DeepView for VersionsResponse {
    type V = VersionsResponseView;

    open spec fn deep_view(&self) -> VersionsResponseView {
        VersionsResponseView {
            pagination: self.pagination.deep_view(),
            result: self.result.deep_view(),
        }
    }
}

impl Decode for VersionsResponse {
    open spec fn decoded(j: JsonView) -> Result<VersionsResponseView, DecodeError> {
        match members_of(j) {
            Err(e) => Err(e),
            Ok(m) => {
                let pagination = required::<PaginationResponse>(m, "pagination");
                let result = required::<Vec<Version>>(m, "result");
                if pagination is Err {
                    Err(pagination->Err_0)
                } else if result is Err {
                    Err(result->Err_0)
                } else {
                    Ok(
                        VersionsResponseView {
                            pagination: pagination->Ok_0,
                            result: result->Ok_0,
                        },
                    )
                }
            },
        }
    }

    fn decode(j: &Json) -> (r: Result<Self, DecodeError>) {
        let m = object(j)?;
        let pagination = field::<PaginationResponse>(m, "pagination")?;
        let result = field::<Vec<Version>>(m, "result")?;
        Ok(VersionsResponse { pagination, result })
    }
}


} // verus!

//! The native scanner: route metadata registered by the application is
//! turned into module definitions.
use vstd::prelude::*;

use crate::engine::tasks::clone_json;
use crate::errors::AxumApcoreError;
use crate::scanner::{
    dedup_modules, deduplicated_from, filter_modules, filtered, ids_distinct, infer_annotations,
    lemma_filtered_ids_distinct, pattern_refused,
    lowercase, method_annotations_hold, opt_str_view, patterns_valid, to_lowercase, ScannedModule,
};
use crate::text::{
    append_str, chars_of, split_chars, split_on, string_from_chars, string_of, string_views,
    views_of,
};

verus! {

/// Metadata of one Axum route, used for scanning.
#[derive(Debug)]
pub struct RouteMetadata {
    /// HTTP method (GET, POST, PUT, DELETE, PATCH).
    pub method: String,
    /// URL path (e.g., "/api/users/:id").
    pub path: String,
    /// Handler function name or target string.
    pub handler_name: String,
    /// Human-readable description.
    pub description: String,
    /// Tags for grouping.
    pub tags: Vec<String>,
    /// JSON Schema for inputs.
    pub input_schema: serde_json::Value,
    /// JSON Schema for outputs.
    pub output_schema: serde_json::Value,
    /// Optional full documentation.
    pub documentation: Option<String>,
}

/// The view of an optional `String`.
pub open spec fn opt_string_view(s: Option<String>) -> Option<Seq<char>> {
    match s {
        Some(x) => Some(x@),
        None => None,
    }
}

/// Two route records hold the same values.
pub open spec fn same_route(a: RouteMetadata, b: RouteMetadata) -> bool {
    &&& a.method@ == b.method@
    &&& a.path@ == b.path@
    &&& a.handler_name@ == b.handler_name@
    &&& a.description@ == b.description@
    &&& string_views(a.tags@) == string_views(b.tags@)
    &&& a.input_schema == b.input_schema
    &&& a.output_schema == b.output_schema
    &&& opt_string_view(a.documentation) == opt_string_view(b.documentation)
}

impl Clone for RouteMetadata {
    fn clone(&self) -> (r: Self)
        ensures
            same_route(r, *self),
    {
        let tags = self.tags.clone();
        assert(string_views(tags@) =~= string_views(self.tags@));
        let documentation = match &self.documentation {
            Some(d) => Some(d.clone()),
            None => None,
        };
        RouteMetadata {
            method: self.method.clone(),
            path: self.path.clone(),
            handler_name: self.handler_name.clone(),
            description: self.description.clone(),
            tags,
            input_schema: clone_json(&self.input_schema),
            output_schema: clone_json(&self.output_schema),
            documentation,
        }
    }
}

/// Registers route metadata for scanning.
pub fn register_route(registry: &mut Vec<RouteMetadata>, metadata: RouteMetadata)
    ensures
        final(registry)@ == old(registry)@.push(metadata),
{
    registry.push(metadata);
}

/// Clears all registered route metadata.
pub fn clear_routes(registry: &mut Vec<RouteMetadata>)
    ensures
        final(registry)@.len() == 0,
{
    registry.clear();
}

/// A copy of all registered route metadata.
pub fn get_registered_routes(registry: &Vec<RouteMetadata>) -> (r: Vec<RouteMetadata>)
    ensures
        r@.len() == registry@.len(),
        forall|i: int| 0 <= i < r@.len() ==> same_route(#[trigger] r@[i], registry@[i]),
{
    let mut r: Vec<RouteMetadata> = Vec::new();
    let mut i: usize = 0;
    while i < registry.len()
        invariant
            i <= registry@.len(),
            r@.len() == i,
            forall|j: int| 0 <= j < i ==> same_route(#[trigger] r@[j], registry@[j]),
        decreases registry.len() - i,
    {
        r.push(registry[i].clone());
        i = i + 1;
    }
    r
}

/// A version segment such as "v1" or "v2beta": a `v` followed by a digit.
pub open spec fn version_segment(s: Seq<char>) -> bool {
    s.len() >= 2 && s[0] == 'v' && '0' <= s[1] && s[1] <= '9'
}

/// A path segment that can serve as a tag: not empty, not a parameter
/// (`:`), not "api", and not a version segment.
pub open spec fn tag_segment(s: Seq<char>) -> bool {
    &&& s.len() > 0
    &&& s[0] != ':'
    &&& s != "api"@
    &&& !version_segment(s)
}

/// The first tag segment among `segs`.
pub open spec fn first_tag_segment(segs: Seq<Seq<char>>) -> Option<Seq<char>>
    decreases segs.len(),
{
    if segs.len() == 0 {
        None
    } else if tag_segment(segs[0]) {
        Some(segs[0])
    } else {
        first_tag_segment(segs.drop_first())
    }
}

/// The tag of a URL path: its first tag segment, or "default".
pub open spec fn path_tag(path: Seq<char>) -> Seq<char> {
    match first_tag_segment(split_on(path, '/')) {
        Some(t) => t,
        None => "default"@,
    }
}

/// The tag of a path is "default" or one of the path's own segments, one
/// that can serve as a tag.
pub proof fn law_path_tag_is_a_segment(path: Seq<char>)
    ensures
        path_tag(path) == "default"@ || (tag_segment(path_tag(path)) && split_on(path, '/').contains(
            path_tag(path),
        )),
{
    lemma_first_tag_found(split_on(path, '/'));
}

proof fn lemma_first_tag_found(segs: Seq<Seq<char>>)
    ensures
        first_tag_segment(segs) matches Some(t) ==> tag_segment(t) && segs.contains(t),
    decreases segs.len(),
{
    if segs.len() > 0 {
        if tag_segment(segs[0]) {
            assert(segs[0] == segs[0]);
        } else {
            lemma_first_tag_found(segs.drop_first());
            if let Some(t) = first_tag_segment(segs.drop_first()) {
                let k = choose|k: int| 0 <= k < segs.drop_first().len() && segs.drop_first()[k] == t;
                assert(segs[k + 1] == t);
            }
        }
    }
}

proof fn lemma_first_tag_skip(segs: Seq<Seq<char>>, i: int)
    requires
        0 <= i <= segs.len(),
        forall|j: int| 0 <= j < i ==> !tag_segment(#[trigger] segs[j]),
    ensures
        first_tag_segment(segs) == first_tag_segment(segs.skip(i)),
    decreases i,
{
    if i > 0 {
        assert(segs.drop_first().skip(i - 1) =~= segs.skip(i));
        assert forall|j: int| 0 <= j < i - 1 implies !tag_segment(#[trigger] segs.drop_first()[j]) by {
            assert(segs.drop_first()[j] == segs[j + 1]);
        }
        lemma_first_tag_skip(segs.drop_first(), i - 1);
    } else {
        assert(segs.skip(0) =~= segs);
    }
}

fn is_tag_segment(s: &Vec<char>) -> (b: bool)
    ensures
        b == tag_segment(s@),
{
    if s.len() == 0 {
        return false;
    }
    let api = chars_of("api");
    let version = s.len() >= 2 && s[0] == 'v' && '0' <= s[1] && s[1] <= '9';
    s[0] != ':' && !version && !crate::text::chars_eq(s, &api)
}

/// The tag of a URL path: its first segment that is not empty, not a
/// parameter, not "api" and not a version; "default" when there is none.
pub fn extract_tag_from_path(path: &str) -> (tag: String)
    ensures
        tag@ == path_tag(path@),
{
    let v = chars_of(path);
    let segs = split_chars(&v, '/');
    let mut i: usize = 0;
    while i < segs.len()
        invariant
            i <= segs@.len(),
            views_of(segs@) == split_on(path@, '/'),
            forall|j: int| 0 <= j < i ==> !tag_segment(#[trigger] views_of(segs@)[j]),
        decreases segs.len() - i,
    {
        if is_tag_segment(&segs[i]) {
            proof {
                lemma_first_tag_skip(views_of(segs@), i as int);
                assert(views_of(segs@).skip(i as int)[0] == segs@[i as int]@);
            }
            return string_from_chars(&segs[i]);
        }
        assert(views_of(segs@)[i as int] == segs@[i as int]@);
        i = i + 1;
    }
    proof {
        lemma_first_tag_skip(views_of(segs@), segs@.len() as int);
    }
    string_of("default")
}


/// The tag of a route: its first tag, or else the tag of its path.
pub open spec fn route_tag(meta: RouteMetadata) -> Seq<char> {
    if meta.tags@.len() == 0 {
        path_tag(meta.path@)
    } else {
        meta.tags@[0]@
    }
}

/// `m` is the module definition of route `meta`.
pub open spec fn describes_route(m: ScannedModule, meta: RouteMetadata) -> bool {
    &&& m.module_id@ == route_tag(meta) + "."@ + meta.handler_name@ + "."@ + lowercase(meta.method@)
    &&& m.description@ == meta.description@
    &&& m.input_schema == meta.input_schema
    &&& m.output_schema == meta.output_schema
    &&& string_views(m.tags@) == string_views(meta.tags@)
    &&& m.target@ == "axum::"@ + meta.handler_name@
    &&& m.version@ == "1.0.0"@
    &&& m.annotations matches Some(a) && method_annotations_hold(meta.method@, a)
    &&& opt_string_view(m.documentation) == opt_string_view(meta.documentation)
    &&& m.metadata@.len() == 2
    &&& m.metadata@[0].0@ == "http_method"@
    &&& m.metadata@[0].1@ == meta.method@
    &&& m.metadata@[1].0@ == "url_path"@
    &&& m.metadata@[1].1@ == meta.path@
    &&& m.warnings@.len() == 0
}

/// A route's module id is its first tag, when it has tags, else the tag of
/// its path, then its handler name and its lower-cased method, separated by
/// dots.
pub proof fn law_first_tag_names_the_module(m: ScannedModule, meta: RouteMetadata)
    requires
        describes_route(m, meta),
    ensures
        meta.tags@.len() > 0 ==> m.module_id@ == meta.tags@[0]@ + "."@ + meta.handler_name@ + "."@
            + lowercase(meta.method@),
        meta.tags@.len() == 0 ==> m.module_id@ == path_tag(meta.path@) + "."@ + meta.handler_name@
            + "."@ + lowercase(meta.method@),
{
}

/// `built` holds the module definitions of `routes`, in order.
pub open spec fn built_from_routes(routes: Seq<RouteMetadata>, built: Seq<ScannedModule>) -> bool {
    &&& built.len() == routes.len()
    &&& forall|i: int| 0 <= i < routes.len() ==> describes_route(#[trigger] built[i], routes[i])
}

/// `r` is the outcome of scanning `routes`: their module definitions with
/// ids de-duplicated, then filtered by the keep and drop patterns; or the
/// error of an invalid pattern.
pub open spec fn routes_scanned(
    routes: Seq<RouteMetadata>,
    keep_pattern: Option<Seq<char>>,
    drop_pattern: Option<Seq<char>>,
    r: Result<Vec<ScannedModule>, AxumApcoreError>,
) -> bool {
    match r {
        Ok(v) => exists|built: Seq<ScannedModule>, deduped: Seq<ScannedModule>|
            #![trigger built_from_routes(routes, built), deduplicated_from(built, deduped)]
            {
                &&& built_from_routes(routes, built)
                &&& deduplicated_from(built, deduped)
                &&& patterns_valid(keep_pattern, drop_pattern)
                &&& v@ == filtered(deduped, keep_pattern, drop_pattern)
            },
        Err(e) => pattern_refused(keep_pattern, drop_pattern, e),
    }
}

/// The modules that a scan of routes gives have pairwise distinct ids.
pub proof fn law_scanned_route_ids_distinct(
    routes: Seq<RouteMetadata>,
    keep_pattern: Option<Seq<char>>,
    drop_pattern: Option<Seq<char>>,
    r: Result<Vec<ScannedModule>, AxumApcoreError>,
)
    requires
        routes_scanned(routes, keep_pattern, drop_pattern, r),
        r is Ok,
    ensures
        ids_distinct(r->Ok_0@),
{
    let (built, deduped) = choose|built: Seq<ScannedModule>, deduped: Seq<ScannedModule>|
        {
            &&& built_from_routes(routes, built)
            &&& deduplicated_from(built, deduped)
            &&& patterns_valid(keep_pattern, drop_pattern)
            &&& r->Ok_0@ == filtered(deduped, keep_pattern, drop_pattern)
        };
    lemma_filtered_ids_distinct(deduped, keep_pattern, drop_pattern);
}

/// Joins three pieces with dots.
pub fn dotted(a: &str, b: &str, c: &str) -> (r: String)
    ensures
        r@ == a@ + "."@ + b@ + "."@ + c@,
{
    let mut r = string_of(a);
    append_str(&mut r, ".");
    append_str(&mut r, b);
    append_str(&mut r, ".");
    append_str(&mut r, c);
    r
}

/// Scans route metadata into module definitions.
pub struct NativeAxumScanner;

impl NativeAxumScanner {
    /// A native scanner.
    pub fn new() -> (s: Self) {
        NativeAxumScanner
    }

    /// The module definition of one route.
    pub fn metadata_to_module(&self, meta: &RouteMetadata) -> (m: ScannedModule)
        ensures
            describes_route(m, *meta),
    {
        let tag = if meta.tags.len() == 0 {
            extract_tag_from_path(meta.path.as_str())
        } else {
            meta.tags[0].clone()
        };
        let method_lower = to_lowercase(meta.method.as_str());
        let module_id = dotted(tag.as_str(), meta.handler_name.as_str(), method_lower.as_str());
        let mut target = string_of("axum::");
        append_str(&mut target, meta.handler_name.as_str());
        let tags = meta.tags.clone();
        assert(string_views(tags@) =~= string_views(meta.tags@));
        let documentation = match &meta.documentation {
            Some(d) => Some(d.clone()),
            None => None,
        };
        let mut metadata: Vec<(String, String)> = Vec::new();
        metadata.push((string_of("http_method"), meta.method.clone()));
        metadata.push((string_of("url_path"), meta.path.clone()));
        ScannedModule {
            module_id,
            description: meta.description.clone(),
            input_schema: clone_json(&meta.input_schema),
            output_schema: clone_json(&meta.output_schema),
            tags,
            target,
            version: string_of("1.0.0"),
            annotations: Some(infer_annotations(meta.method.as_str())),
            documentation,
            metadata,
            warnings: Vec::new(),
        }
    }

    /// Scans an explicit list of routes: each route becomes a module
    /// definition, ids are de-duplicated, then the keep and drop patterns
    /// are applied to the ids. An invalid pattern is an error.
    pub fn scan_routes(
        &self,
        routes: &[RouteMetadata],
        keep_pattern: Option<&str>,
        drop_pattern: Option<&str>,
    ) -> (r: Result<Vec<ScannedModule>, AxumApcoreError>)
        ensures
            routes_scanned(routes@, opt_str_view(keep_pattern), opt_str_view(drop_pattern), r),
    {
        let mut built: Vec<ScannedModule> = Vec::new();
        let mut i: usize = 0;
        while i < routes.len()
            invariant
                i <= routes@.len(),
                built@.len() == i,
                forall|j: int| 0 <= j < i ==> describes_route(#[trigger] built@[j], routes@[j]),
            decreases routes.len() - i,
        {
            let m = self.metadata_to_module(&routes[i]);
            built.push(m);
            i = i + 1;
        }
        let ghost b = built@;
        let deduped = dedup_modules(built);
        let ghost d = deduped@;
        let r = filter_modules(deduped, keep_pattern, drop_pattern);
        assert(built_from_routes(routes@, b));
        assert(deduplicated_from(b, d));
        r
    }
}

impl Default for NativeAxumScanner {
    fn default() -> (s: Self) {
        NativeAxumScanner
    }
}

} // verus!

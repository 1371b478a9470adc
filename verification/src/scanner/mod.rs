//! Scanning routes into module definitions: the scanned-module record, the
//! steps that every scanner shares (id de-duplication and keep/drop
//! filtering), and the choice of scanner by name.
pub mod native;
pub mod openapi;

use std::collections::HashMap;
use vstd::prelude::*;

use crate::errors::{regex_error_display, AxumApcoreError};
use crate::text::{append_str, str_eq, string_of, string_views};

verus! {

#[verifier::external_type_specification]
#[verifier::external_body]
pub struct ExRegex(regex::Regex);

/// A route scanned into a module definition.
#[derive(Debug)]
pub struct ScannedModule {
    /// Unique module identifier (e.g., "users.get_user.get").
    pub module_id: String,
    /// Human-readable description.
    pub description: String,
    /// JSON Schema for module input.
    pub input_schema: serde_json::Value,
    /// JSON Schema for module output.
    pub output_schema: serde_json::Value,
    /// Categorization tags.
    pub tags: Vec<String>,
    /// Callable reference.
    pub target: String,
    /// Module version string.
    pub version: String,
    /// Behavioral annotations.
    pub annotations: Option<Annotations>,
    /// Full documentation text.
    pub documentation: Option<String>,
    /// Key-value data with text values (e.g., http_method, url_path).
    pub metadata: Vec<(String, String)>,
    /// Non-fatal issues encountered during scanning.
    pub warnings: Vec<String>,
}

/// The lower-case text of a string as `str::to_lowercase` gives it.
pub uninterp spec fn lowercase(s: Seq<char>) -> Seq<char>;

/// The upper-case text of a string as `str::to_uppercase` gives it.
pub uninterp spec fn uppercase(s: Seq<char>) -> Seq<char>;

/// Lower-cases a string (`str::to_lowercase`, Unicode case mapping).
#[verifier::external_body]
pub(crate) fn to_lowercase(s: &str) -> (r: String)
    ensures
        r@ == lowercase(s@),
{
    s.to_lowercase()
}

/// Upper-cases a string (`str::to_uppercase`, Unicode case mapping).
#[verifier::external_body]
pub(crate) fn to_uppercase(s: &str) -> (r: String)
    ensures
        r@ == uppercase(s@),
{
    s.to_uppercase()
}

/// Behavioural annotations of a module, field for field those of apcore's
/// `ModuleAnnotations`.
#[derive(Debug)]
pub struct Annotations {
    pub readonly: bool,
    pub destructive: bool,
    pub idempotent: bool,
    pub requires_approval: bool,
    pub open_world: bool,
    pub streaming: bool,
    pub cacheable: bool,
    pub cache_ttl: u64,
    pub cache_key_fields: Option<Vec<String>>,
    pub paginated: bool,
    pub pagination_style: String,
    pub discoverable: bool,
    pub extra: HashMap<String, serde_json::Value>,
}

/// `a` has the four given flags and apcore's defaults elsewhere: open
/// world, discoverable, "cursor" pagination style, and nothing else set.
pub open spec fn annotations_with(
    a: Annotations,
    readonly: bool,
    destructive: bool,
    idempotent: bool,
    cacheable: bool,
) -> bool {
    &&& a.readonly == readonly
    &&& a.destructive == destructive
    &&& a.idempotent == idempotent
    &&& !a.requires_approval
    &&& a.open_world
    &&& !a.streaming
    &&& a.cacheable == cacheable
    &&& a.cache_ttl == 0
    &&& a.cache_key_fields is None
    &&& !a.paginated
    &&& a.pagination_style@ == "cursor"@
    &&& a.discoverable
    &&& a.extra@.len() == 0
}

/// The default annotations (those of `ModuleAnnotations::default`).
pub open spec fn default_annotations_hold(a: Annotations) -> bool {
    annotations_with(a, false, false, false, false)
}

/// The annotations an HTTP method implies, as apcore-toolkit's
/// `infer_annotations_from_method` gives them: the method upper-cased,
/// GET is read-only and cacheable, HEAD and OPTIONS read-only, DELETE
/// destructive, PUT idempotent, anything else the defaults.
pub open spec fn method_annotations_hold(method: Seq<char>, a: Annotations) -> bool {
    let m = uppercase(method);
    annotations_with(
        a,
        m == "GET"@ || m == "HEAD"@ || m == "OPTIONS"@,
        m == "DELETE"@,
        m == "PUT"@,
        m == "GET"@,
    )
}

fn annotations_of(readonly: bool, destructive: bool, idempotent: bool, cacheable: bool) -> (a: Annotations)
    ensures
        annotations_with(a, readonly, destructive, idempotent, cacheable),
{
    Annotations {
        readonly,
        destructive,
        idempotent,
        requires_approval: false,
        open_world: true,
        streaming: false,
        cacheable,
        cache_ttl: 0,
        cache_key_fields: None,
        paginated: false,
        pagination_style: string_of("cursor"),
        discoverable: true,
        extra: HashMap::new(),
    }
}

impl Default for Annotations {
    fn default() -> (a: Self)
        ensures
            default_annotations_hold(a),
    {
        annotations_of(false, false, false, false)
    }
}

/// The annotations an HTTP method implies.
pub(crate) fn infer_annotations(method: &str) -> (r: Annotations)
    ensures
        method_annotations_hold(method@, r),
{
    let m = to_uppercase(method);
    let get = str_eq(m.as_str(), "GET");
    let read = get || str_eq(m.as_str(), "HEAD") || str_eq(m.as_str(), "OPTIONS");
    annotations_of(read, str_eq(m.as_str(), "DELETE"), str_eq(m.as_str(), "PUT"), get)
}

/// For each of a list of module ids, in order, the id that
/// `apcore_toolkit::deduplicate_ids` gives it and the warnings it adds.
pub uninterp spec fn deduplicated(ids: Seq<Seq<char>>) -> Seq<(Seq<char>, Seq<Seq<char>>)>;

/// The views of id and warning pairs.
pub open spec fn renaming_views(r: Seq<(String, Vec<String>)>) -> Seq<(Seq<char>, Seq<Seq<char>>)> {
    r.map_values(|p: (String, Vec<String>)| (p.0@, string_views(p.1@)))
}

/// The warning added to a module whose id is renamed.
pub open spec fn renamed_warning(from: Seq<char>, to: Seq<char>) -> Seq<char> {
    "Module ID renamed from '"@ + from + "' to '"@ + to + "' to avoid collision"@
}

/// The first module with an id among `ids`.
pub open spec fn first_with_id(ids: Seq<Seq<char>>, i: int) -> bool {
    forall|j: int| 0 <= j < i ==> ids[j] != ids[i]
}

/// Resolves duplicate module ids (`apcore_toolkit::deduplicate_ids`, which
/// reads nothing of a module but its id and only changes its id and
/// warnings): for each id, the id it gets and the warnings added to it.
/// As its source shows, the first module with an id keeps it and gets no
/// warning; each later one gets an id that no other module has (its id with
/// a numeric suffix) and one warning naming both ids; so no two modules end
/// up with the same id.
#[verifier::external_body]
fn deduplicate(ids: Vec<String>) -> (r: Vec<(String, Vec<String>)>)
    ensures
        r@.len() == ids@.len(),
        renaming_views(r@) == deduplicated(string_views(ids@)),
        forall|i: int, j: int|
            0 <= i < j < r@.len() ==> (#[trigger] r@[i]).0@ != (#[trigger] r@[j]).0@,
        forall|i: int|
            0 <= i < r@.len() ==> if first_with_id(string_views(ids@), i) {
                (#[trigger] r@[i]).0@ == ids@[i]@ && r@[i].1@.len() == 0
            } else {
                string_views(r@[i].1@) == seq![renamed_warning(ids@[i]@, r@[i].0@)]
            },
{
    let modules: Vec<apcore_toolkit::ScannedModule> = ids
        .into_iter()
        .map(|id| apcore_toolkit::ScannedModule::new(id, String::new(), serde_json::Value::Null,
            serde_json::Value::Null, Vec::new(), String::new()))
        .collect();
    apcore_toolkit::deduplicate_ids(modules).into_iter().map(|m| (m.module_id, m.warnings)).collect()
}

/// A regular expression together with its source text.
pub struct Pattern {
    source: String,
    compiled: regex::Regex,
}

impl Pattern {
    /// The source text of the pattern.
    pub closed spec fn source(&self) -> Seq<char> {
        self.source@
    }
}

/// The display text of the error `regex::Regex::new` gives for a pattern,
/// or `None` where the pattern compiles.
pub uninterp spec fn regex_compile_error(pattern: Seq<char>) -> Option<Seq<char>>;

/// The pattern compiles (`regex::Regex::new` succeeds).
pub open spec fn regex_valid(pattern: Seq<char>) -> bool {
    regex_compile_error(pattern) is None
}

/// The pattern matches somewhere in the text (`regex::Regex::is_match`).
pub uninterp spec fn regex_matches(pattern: Seq<char>, text: Seq<char>) -> bool;

/// Compiles a pattern (`regex::Regex::new`).
#[verifier::external_body]
fn compile_pattern(pattern: &str) -> (r: Result<Pattern, regex::Error>)
    ensures
        match r {
            Ok(p) => regex_valid(pattern@) && p.source() == pattern@,
            Err(e) => regex_compile_error(pattern@) == Some(regex_error_display(e)),
        },
{
    regex::Regex::new(pattern).map(|compiled| Pattern { source: pattern.to_string(), compiled })
}

/// Whether a compiled pattern matches the text (`regex::Regex::is_match`).
#[verifier::external_body]
fn pattern_matches(p: &Pattern, text: &str) -> (b: bool)
    ensures
        b == regex_matches(p.source(), text@),
{
    p.compiled.is_match(text)
}

/// The ids of a list of modules.
pub open spec fn module_ids(ms: Seq<ScannedModule>) -> Seq<Seq<char>> {
    ms.map_values(|m: ScannedModule| m.module_id@)
}

/// No two modules have the same id.
pub open spec fn ids_distinct(ms: Seq<ScannedModule>) -> bool {
    forall|i: int, j: int|
        0 <= i < j < ms.len() ==> (#[trigger] ms[i]).module_id@ != (#[trigger] ms[j]).module_id@
}

/// `after` is `before` with ids de-duplicated: every module keeps all it
/// had but its id, which becomes the one given to it, and its warnings,
/// which get the ones added to it; the first module with an id keeps it and
/// gets no warning, and no two modules end up with the same id.
pub open spec fn deduplicated_from(before: Seq<ScannedModule>, after: Seq<ScannedModule>) -> bool {
    let d = deduplicated(module_ids(before));
    &&& after.len() == before.len()
    &&& ids_distinct(after)
    &&& forall|i: int|
        0 <= i < before.len() && first_with_id(module_ids(before), i) ==> {
            &&& (#[trigger] after[i]).module_id@ == before[i].module_id@
            &&& string_views(after[i].warnings@) == string_views(before[i].warnings@)
        }
    &&& forall|i: int|
        0 <= i < before.len() ==> {
            &&& (#[trigger] after[i]).module_id@ == d[i].0
            &&& string_views(after[i].warnings@) == string_views(before[i].warnings@) + d[i].1
            &&& after[i].description == before[i].description
            &&& after[i].input_schema == before[i].input_schema
            &&& after[i].output_schema == before[i].output_schema
            &&& after[i].tags == before[i].tags
            &&& after[i].target == before[i].target
            &&& after[i].version == before[i].version
            &&& after[i].annotations == before[i].annotations
            &&& after[i].documentation == before[i].documentation
            &&& after[i].metadata == before[i].metadata
        }
}

/// A module is kept when its id matches the keep pattern, if there is
/// one, and does not match the drop pattern, if there is one.
pub open spec fn kept_by(keep_pattern: Option<Seq<char>>, drop_pattern: Option<Seq<char>>, id: Seq<char>) -> bool {
    &&& match keep_pattern {
        Some(p) => regex_matches(p, id),
        None => true,
    }
    &&& match drop_pattern {
        Some(p) => !regex_matches(p, id),
        None => true,
    }
}

/// Both patterns that are given compile.
pub open spec fn patterns_valid(keep_pattern: Option<Seq<char>>, drop_pattern: Option<Seq<char>>) -> bool {
    &&& match keep_pattern {
        Some(p) => regex_valid(p),
        None => true,
    }
    &&& match drop_pattern {
        Some(p) => regex_valid(p),
        None => true,
    }
}

/// The modules that the filters keep, in order.
pub open spec fn filtered(
    ms: Seq<ScannedModule>,
    keep_pattern: Option<Seq<char>>,
    drop_pattern: Option<Seq<char>>,
) -> Seq<ScannedModule>
    decreases ms.len(),
{
    if ms.len() == 0 {
        Seq::empty()
    } else {
        let prev = filtered(ms.drop_last(), keep_pattern, drop_pattern);
        if kept_by(keep_pattern, drop_pattern, ms.last().module_id@) {
            prev.push(ms.last())
        } else {
            prev
        }
    }
}

/// What the filters keep is taken from the modules given, in order.
proof fn lemma_filtered_from(
    ms: Seq<ScannedModule>,
    keep_pattern: Option<Seq<char>>,
    drop_pattern: Option<Seq<char>>,
)
    ensures
        forall|i: int|
            0 <= i < filtered(ms, keep_pattern, drop_pattern).len() ==> ms.contains(
                #[trigger] filtered(ms, keep_pattern, drop_pattern)[i],
            ),
        filtered(ms, keep_pattern, drop_pattern).len() <= ms.len(),
    decreases ms.len(),
{
    if ms.len() > 0 {
        let prev = filtered(ms.drop_last(), keep_pattern, drop_pattern);
        lemma_filtered_from(ms.drop_last(), keep_pattern, drop_pattern);
        assert forall|i: int| 0 <= i < filtered(ms, keep_pattern, drop_pattern).len() implies ms.contains(
            #[trigger] filtered(ms, keep_pattern, drop_pattern)[i],
        ) by {
            if i < prev.len() {
                assert(filtered(ms, keep_pattern, drop_pattern)[i] == prev[i]);
                let k = choose|k: int| 0 <= k < ms.drop_last().len() && ms.drop_last()[k] == prev[i];
                assert(ms[k] == prev[i]);
            } else {
                assert(ms[ms.len() - 1] == ms.last());
            }
        }
    }
}

/// Filtering keeps ids distinct.
pub proof fn lemma_filtered_ids_distinct(
    ms: Seq<ScannedModule>,
    keep_pattern: Option<Seq<char>>,
    drop_pattern: Option<Seq<char>>,
)
    requires
        ids_distinct(ms),
    ensures
        ids_distinct(filtered(ms, keep_pattern, drop_pattern)),
    decreases ms.len(),
{
    if ms.len() > 0 {
        let prev = filtered(ms.drop_last(), keep_pattern, drop_pattern);
        assert(ids_distinct(ms.drop_last())) by {
            assert forall|i: int, j: int| 0 <= i < j < ms.drop_last().len() implies (
            #[trigger] ms.drop_last()[i]).module_id@ != (#[trigger] ms.drop_last()[j]).module_id@ by {
                assert(ms.drop_last()[i] == ms[i] && ms.drop_last()[j] == ms[j]);
            }
        }
        lemma_filtered_ids_distinct(ms.drop_last(), keep_pattern, drop_pattern);
        lemma_filtered_from(ms.drop_last(), keep_pattern, drop_pattern);
        let f = filtered(ms, keep_pattern, drop_pattern);
        assert forall|i: int, j: int| 0 <= i < j < f.len() implies (#[trigger] f[i]).module_id@
            != (#[trigger] f[j]).module_id@ by {
            if j < prev.len() {
                assert(f[i] == prev[i] && f[j] == prev[j]);
            } else {
                assert(f[j] == ms.last());
                assert(f[i] == prev[i]);
                assert(ms.drop_last().contains(prev[i]));
                let k = choose|k: int| 0 <= k < ms.drop_last().len() && ms.drop_last()[k] == prev[i];
                assert(ms[k] == prev[i]);
                assert(ms[ms.len() - 1] == ms.last());
            }
        }
    }
}

/// The view of an optional string slice.
pub open spec fn opt_str_view(s: Option<&str>) -> Option<Seq<char>> {
    match s {
        Some(x) => Some(x@),
        None => None,
    }
}


/// Gives every module the id that de-duplication assigns it, adding the
/// warnings that come with a new id.
pub fn dedup_modules(ms: Vec<ScannedModule>) -> (r: Vec<ScannedModule>)
    ensures
        deduplicated_from(ms@, r@),
{
    let mut ids: Vec<String> = Vec::new();
    let mut i: usize = 0;
    while i < ms.len()
        invariant
            i <= ms@.len(),
            string_views(ids@) == module_ids(ms@).take(i as int),
        decreases ms.len() - i,
    {
        let ghost before = ids@;
        ids.push(ms[i].module_id.clone());
        proof {
            crate::text::lemma_string_views_push(before, ids@.last());
        }
        assert(module_ids(ms@).take(i + 1) =~= module_ids(ms@).take(i as int).push(ms@[i as int].module_id@));
        i = i + 1;
    }
    assert(module_ids(ms@).take(ms@.len() as int) =~= module_ids(ms@));
    let renames = deduplicate(ids);
    let ghost d = deduplicated(module_ids(ms@));
    let ghost orig = ms@;
    let mut rest = ms;
    let mut out: Vec<ScannedModule> = Vec::new();
    let mut k: usize = 0;
    let n = rest.len();
    while rest.len() > 0
        invariant
            k + rest@.len() == n,
            n == orig.len(),
            renames@.len() == n,
            renaming_views(renames@) == d,
            d == deduplicated(module_ids(orig)),
            rest@ == orig.skip(k as int),
            out@.len() == k,
            forall|j: int|
                0 <= j < k ==> {
                    &&& (#[trigger] out@[j]).module_id@ == d[j].0
                    &&& string_views(out@[j].warnings@) == string_views(orig[j].warnings@) + d[j].1
                    &&& out@[j].description == orig[j].description
                    &&& out@[j].input_schema == orig[j].input_schema
                    &&& out@[j].output_schema == orig[j].output_schema
                    &&& out@[j].tags == orig[j].tags
                    &&& out@[j].target == orig[j].target
                    &&& out@[j].version == orig[j].version
                    &&& out@[j].annotations == orig[j].annotations
                    &&& out@[j].documentation == orig[j].documentation
                    &&& out@[j].metadata == orig[j].metadata
                },
        decreases rest@.len(),
    {
        let m = rest.remove(0);
        assert(m == orig[k as int]);
        assert(orig.skip(k + 1) =~= orig.skip(k as int).remove(0));
        let new_id = renames[k].0.clone();
        let mut warnings = m.warnings;
        let mut added = renames[k].1.clone();
        assert(renaming_views(renames@)[k as int] == (renames@[k as int].0@, string_views(renames@[k as int].1@)));
        let ghost w0 = warnings@;
        let ghost a0 = added@;
        warnings.append(&mut added);
        assert(string_views(warnings@) =~= string_views(w0) + string_views(a0));
        let nm = ScannedModule {
            module_id: new_id,
            description: m.description,
            input_schema: m.input_schema,
            output_schema: m.output_schema,
            tags: m.tags,
            target: m.target,
            version: m.version,
            annotations: m.annotations,
            documentation: m.documentation,
            metadata: m.metadata,
            warnings,
        };
        out.push(nm);
        k = k + 1;
    }
    proof {
        assert forall|i: int, j: int| 0 <= i < j < out@.len() implies (#[trigger] out@[i]).module_id@
            != (#[trigger] out@[j]).module_id@ by {
            assert(renaming_views(renames@)[i] == (renames@[i].0@, string_views(renames@[i].1@)));
            assert(renaming_views(renames@)[j] == (renames@[j].0@, string_views(renames@[j].1@)));
        }
        assert(string_views(ids@) == module_ids(orig));
        assert forall|i: int| 0 <= i < orig.len() && first_with_id(module_ids(orig), i) implies {
            &&& (#[trigger] out@[i]).module_id@ == orig[i].module_id@
            &&& string_views(out@[i].warnings@) == string_views(orig[i].warnings@)
        } by {
            assert(renaming_views(renames@)[i] == (renames@[i].0@, string_views(renames@[i].1@)));
            assert(string_views(ids@)[i] == ids@[i]@);
            assert(module_ids(orig)[i] == orig[i].module_id@);
            assert(string_views(renames@[i].1@) =~= Seq::<Seq<char>>::empty());
            assert(string_views(orig[i].warnings@) + Seq::<Seq<char>>::empty() =~= string_views(orig[i].warnings@));
        }
    }
    out
}

/// The compile error of the first pattern that does not compile: the keep
/// pattern is compiled first, then the drop pattern.
pub open spec fn first_pattern_error(keep_pattern: Option<Seq<char>>, drop_pattern: Option<Seq<char>>) -> Option<
    Seq<char>,
> {
    match keep_pattern {
        Some(p) if regex_compile_error(p) is Some => regex_compile_error(p),
        _ => match drop_pattern {
            Some(p) => regex_compile_error(p),
            None => None,
        },
    }
}

/// `e` is the error of the first pattern that does not compile.
pub open spec fn pattern_refused(
    keep_pattern: Option<Seq<char>>,
    drop_pattern: Option<Seq<char>>,
    e: AxumApcoreError,
) -> bool {
    &&& !patterns_valid(keep_pattern, drop_pattern)
    &&& e matches AxumApcoreError::Regex(x) && first_pattern_error(keep_pattern, drop_pattern) == Some(
        regex_error_display(x),
    )
}

/// Applies the keep and drop patterns to the module ids; an invalid
/// pattern is an error, that of the keep pattern when both are invalid.
pub fn filter_modules(
    ms: Vec<ScannedModule>,
    keep_pattern: Option<&str>,
    drop_pattern: Option<&str>,
) -> (r: Result<Vec<ScannedModule>, AxumApcoreError>)
    ensures
        match r {
            Ok(v) => patterns_valid(opt_str_view(keep_pattern), opt_str_view(drop_pattern)) && v@
                == filtered(ms@, opt_str_view(keep_pattern), opt_str_view(drop_pattern)),
            Err(e) => pattern_refused(opt_str_view(keep_pattern), opt_str_view(drop_pattern), e),
        },
{
    let keep_re: Option<Pattern> = match keep_pattern {
        Some(p) => match compile_pattern(p) {
            Ok(c) => Some(c),
            Err(e) => {
                return Err(AxumApcoreError::Regex(e));
            },
        },
        None => None,
    };
    let drop_re: Option<Pattern> = match drop_pattern {
        Some(p) => match compile_pattern(p) {
            Ok(c) => Some(c),
            Err(e) => {
                return Err(AxumApcoreError::Regex(e));
            },
        },
        None => None,
    };
    let ghost kp = opt_str_view(keep_pattern);
    let ghost dp = opt_str_view(drop_pattern);
    let ghost orig = ms@;
    let mut rest = ms;
    let mut out: Vec<ScannedModule> = Vec::new();
    let mut k: usize = 0;
    let n = rest.len();
    while rest.len() > 0
        invariant
            k + rest@.len() == n,
            n == orig.len(),
            rest@ == orig.skip(k as int),
            out@ == filtered(orig.take(k as int), kp, dp),
            match keep_re {
                Some(c) => kp == Some(c.source()),
                None => kp is None,
            },
            match drop_re {
                Some(c) => dp == Some(c.source()),
                None => dp is None,
            },
        decreases rest@.len(),
    {
        let m = rest.remove(0);
        assert(m == orig[k as int]);
        assert(orig.skip(k + 1) =~= orig.skip(k as int).remove(0));
        assert(orig.take(k + 1).drop_last() =~= orig.take(k as int));
        let keep_ok = match &keep_re {
            Some(c) => pattern_matches(c, m.module_id.as_str()),
            None => true,
        };
        let drop_ok = match &drop_re {
            Some(c) => !pattern_matches(c, m.module_id.as_str()),
            None => true,
        };
        if keep_ok && drop_ok {
            out.push(m);
        }
        k = k + 1;
    }
    assert(orig.take(n as int) =~= orig);
    Ok(out)
}


/// The scanners that can be chosen by name.
#[derive(Clone, Copy, Debug, PartialEq, Eq, Structural)]
pub enum ScannerSource {
    /// Reads registered route metadata.
    Native,
    /// Reads an OpenAPI document.
    OpenApi,
}

/// The name a scanner is chosen by.
pub open spec fn source_name_of(s: ScannerSource) -> Seq<char> {
    match s {
        ScannerSource::Native => "native"@,
        ScannerSource::OpenApi => "openapi"@,
    }
}

/// The message for an unknown scanner name.
pub open spec fn unknown_source_message(name: Seq<char>) -> Seq<char> {
    "Unknown scanner source: '"@ + name + "'. Available: native, openapi"@
}

impl ScannerSource {
    /// The name the scanner is chosen by.
    pub fn source_name(&self) -> (r: String)
        ensures
            r@ == source_name_of(*self),
    {
        match self {
            ScannerSource::Native => string_of("native"),
            ScannerSource::OpenApi => string_of("openapi"),
        }
    }
}

/// The scanner of the given name: "native" or "openapi"; any other name is
/// an error.
pub fn get_scanner(source: &str) -> (r: Result<ScannerSource, AxumApcoreError>)
    ensures
        match r {
            Ok(s) => source_name_of(s) == source@,
            Err(e) => source@ != "native"@ && source@ != "openapi"@ && (e matches AxumApcoreError::Scanner(
                m,
            ) && m@ == unknown_source_message(source@)),
        },
{
    if str_eq(source, "native") {
        Ok(ScannerSource::Native)
    } else if str_eq(source, "openapi") {
        Ok(ScannerSource::OpenApi)
    } else {
        let mut m = string_of("Unknown scanner source: '");
        append_str(&mut m, source);
        append_str(&mut m, "'. Available: native, openapi");
        Err(AxumApcoreError::Scanner(m))
    }
}

} // verus!

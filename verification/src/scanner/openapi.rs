//! The OpenAPI scanner: the operations of an OpenAPI document become
//! module definitions.
use vstd::prelude::*;

use crate::errors::AxumApcoreError;
use crate::json::{get, json_get, json_text, serde_of, to_serde, JsonValue};
use crate::scanner::native::{dotted, opt_string_view};
use crate::scanner::{
    dedup_modules, deduplicated_from, filter_modules, filtered, ids_distinct, infer_annotations,
    lemma_filtered_ids_distinct, pattern_refused,
    lowercase, method_annotations_hold, opt_str_view, patterns_valid, to_lowercase, to_uppercase,
    uppercase, ScannedModule,
};
use crate::text::{
    append_str, chars_eq, chars_eq_ignore_ascii_case, chars_of, eq_ignore_ascii_case,
    string_from_chars, string_of, string_views,
};

verus! {

/// The standard HTTP methods, compared without regard to ASCII case. This
/// is the same as comparing lower-cased text: apart from ASCII letters, only
/// the Kelvin sign lower-cases to a single ASCII letter, and no method name
/// has a `k`.
pub open spec fn http_method(s: Seq<char>) -> bool {
    ||| eq_ignore_ascii_case(s, "get"@)
    ||| eq_ignore_ascii_case(s, "post"@)
    ||| eq_ignore_ascii_case(s, "put"@)
    ||| eq_ignore_ascii_case(s, "delete"@)
    ||| eq_ignore_ascii_case(s, "patch"@)
    ||| eq_ignore_ascii_case(s, "head"@)
    ||| eq_ignore_ascii_case(s, "options"@)
    ||| eq_ignore_ascii_case(s, "trace"@)
}

/// Whether a name is a standard HTTP method, in any case.
pub fn is_http_method(s: &str) -> (b: bool)
    ensures
        b == http_method(s@),
{
    let v = chars_of(s);
    chars_eq_ignore_ascii_case(&v, "get") || chars_eq_ignore_ascii_case(&v, "post")
        || chars_eq_ignore_ascii_case(&v, "put") || chars_eq_ignore_ascii_case(&v, "delete")
        || chars_eq_ignore_ascii_case(&v, "patch") || chars_eq_ignore_ascii_case(&v, "head")
        || chars_eq_ignore_ascii_case(&v, "options") || chars_eq_ignore_ascii_case(&v, "trace")
}

/// `s` without `suffix` when it ends with it, else `s` itself.
pub open spec fn strip_suffix(s: Seq<char>, suffix: Seq<char>) -> Seq<char> {
    if suffix.len() <= s.len() && s.subrange(s.len() - suffix.len(), s.len() as int) == suffix {
        s.subrange(0, s.len() - suffix.len())
    } else {
        s
    }
}

/// An operation id without the `_<method>` suffix, the method lower-cased
/// (e.g., "get_user_get" with "get" gives "get_user").
pub open spec fn stripped_operation_id(operation_id: Seq<char>, method: Seq<char>) -> Seq<char> {
    strip_suffix(operation_id, "_"@ + lowercase(method))
}

/// Appending `_<method>` to an id and stripping it with the same method
/// gives the id back.
pub proof fn law_strip_undoes_append(base: Seq<char>, method: Seq<char>)
    ensures
        stripped_operation_id(base + "_"@ + lowercase(method), method) == base,
{
    let suffix = "_"@ + lowercase(method);
    let s = base + suffix;
    assert(base + "_"@ + lowercase(method) =~= s);
    assert(s.subrange(s.len() - suffix.len(), s.len() as int) =~= suffix);
    assert(s.subrange(0, s.len() - suffix.len()) =~= base);
}

/// Strips the `_<method>` suffix from an operation id.
pub fn strip_method_suffix(operation_id: &str, method: &str) -> (r: String)
    ensures
        r@ == stripped_operation_id(operation_id@, method@),
{
    let mut suffix = string_of("_");
    let lower = to_lowercase(method);
    append_str(&mut suffix, lower.as_str());
    let sv = chars_of(suffix.as_str());
    let ov = chars_of(operation_id);
    if sv.len() <= ov.len() {
        let start = ov.len() - sv.len();
        let mut tail: Vec<char> = Vec::new();
        let mut i: usize = start;
        while i < ov.len()
            invariant
                start <= i <= ov@.len(),
                tail@ == ov@.subrange(start as int, i as int),
            decreases ov.len() - i,
        {
            tail.push(ov[i]);
            assert(ov@.subrange(start as int, i + 1) == ov@.subrange(start as int, i as int).push(ov@[i as int]));
            i = i + 1;
        }
        if chars_eq(&tail, &sv) {
            let mut head: Vec<char> = Vec::new();
            let mut j: usize = 0;
            while j < start
                invariant
                    j <= start <= ov@.len(),
                    head@ == ov@.subrange(0, j as int),
                decreases start - j,
            {
                head.push(ov[j]);
                assert(ov@.subrange(0, j + 1) == ov@.subrange(0, j as int).push(ov@[j as int]));
                j = j + 1;
            }
            return string_from_chars(&head);
        }
    }
    string_of(operation_id)
}


/// The input schema that `apcore_toolkit::extract_input_schema` gives an
/// operation of a document.
pub uninterp spec fn extracted_input_schema(
    operation: serde_json::Value,
    document: serde_json::Value,
) -> serde_json::Value;

/// The output schema that `apcore_toolkit::extract_output_schema` gives an
/// operation of a document.
pub uninterp spec fn extracted_output_schema(
    operation: serde_json::Value,
    document: serde_json::Value,
) -> serde_json::Value;

/// The input schema of an operation, references resolved in the document
/// (`apcore_toolkit::extract_input_schema`).
#[verifier::external_body]
fn input_schema_for(operation: &serde_json::Value, document: &serde_json::Value) -> (r: serde_json::Value)
    ensures
        r == extracted_input_schema(*operation, *document),
{
    apcore_toolkit::extract_input_schema(operation, Some(document))
}

/// The output schema of an operation, references resolved in the document
/// (`apcore_toolkit::extract_output_schema`).
#[verifier::external_body]
fn output_schema_for(operation: &serde_json::Value, document: &serde_json::Value) -> (r: serde_json::Value)
    ensures
        r == extracted_output_schema(*operation, *document),
{
    apcore_toolkit::extract_output_schema(operation, Some(document))
}

/// The texts among a list of documents, in order.
pub open spec fn string_items(items: Seq<JsonValue>) -> Seq<Seq<char>>
    decreases items.len(),
{
    if items.len() == 0 {
        Seq::empty()
    } else {
        let prev = string_items(items.drop_last());
        match items.last() {
            JsonValue::String(t) => prev.push(t@),
            _ => prev,
        }
    }
}

/// The tags of an operation: the texts in its "tags" array.
pub open spec fn operation_tags(op: JsonValue) -> Seq<Seq<char>> {
    match json_get(op, "tags"@) {
        Some(JsonValue::Array(items)) => string_items(items@),
        _ => Seq::empty(),
    }
}

/// The id of an operation: its "operationId" text, or "unknown".
pub open spec fn operation_id_of(op: JsonValue) -> Seq<char> {
    match json_text(json_get(op, "operationId"@)) {
        Some(t) => t,
        None => "unknown"@,
    }
}

/// The description of an operation: its "summary" member when it has one,
/// else its "description" member, provided that member is text; else empty.
pub open spec fn operation_description(op: JsonValue) -> Seq<char> {
    let chosen = match json_get(op, "summary"@) {
        Some(x) => Some(x),
        None => json_get(op, "description"@),
    };
    match json_text(chosen) {
        Some(t) => t,
        None => Seq::empty(),
    }
}

/// `m` is the module definition of operation `op`, found under method
/// `method` of path `path` in document `doc`.
pub open spec fn describes_operation(
    m: ScannedModule,
    path: Seq<char>,
    method: Seq<char>,
    op: JsonValue,
    doc: JsonValue,
    simplify_ids: bool,
) -> bool {
    let tags = operation_tags(op);
    let tag = if tags.len() > 0 {
        tags[0]
    } else {
        "default"@
    };
    let func = if simplify_ids {
        stripped_operation_id(operation_id_of(op), method)
    } else {
        operation_id_of(op)
    };
    &&& m.module_id@ == tag + "."@ + func + "."@ + lowercase(method)
    &&& m.description@ == operation_description(op)
    &&& m.input_schema == extracted_input_schema(serde_of(op), serde_of(doc))
    &&& m.output_schema == extracted_output_schema(serde_of(op), serde_of(doc))
    &&& string_views(m.tags@) == tags
    &&& m.target@ == "axum::"@ + operation_id_of(op)
    &&& m.version@ == "1.0.0"@
    &&& m.annotations matches Some(a) && method_annotations_hold(method, a)
    &&& opt_string_view(m.documentation) == json_text(json_get(op, "description"@))
    &&& m.metadata@.len() == 2
    &&& m.metadata@[0].0@ == "http_method"@
    &&& m.metadata@[0].1@ == uppercase(method)
    &&& m.metadata@[1].0@ == "url_path"@
    &&& m.metadata@[1].1@ == path
    &&& m.warnings@.len() == 0
}

/// The operations of one path item, as (path, method, operation), in
/// order: the members whose name is an HTTP method.
pub open spec fn item_operations(path: Seq<char>, members: Seq<(String, JsonValue)>) -> Seq<
    (Seq<char>, Seq<char>, JsonValue),
>
    decreases members.len(),
{
    if members.len() == 0 {
        Seq::empty()
    } else {
        let prev = item_operations(path, members.drop_last());
        if http_method(members.last().0@) {
            prev.push((path, members.last().0@, members.last().1))
        } else {
            prev
        }
    }
}

/// The operations of all path items that are objects, in order.
pub open spec fn path_operations(paths: Seq<(String, JsonValue)>) -> Seq<
    (Seq<char>, Seq<char>, JsonValue),
>
    decreases paths.len(),
{
    if paths.len() == 0 {
        Seq::empty()
    } else {
        let prev = path_operations(paths.drop_last());
        match paths.last().1 {
            JsonValue::Object(ms) => prev + item_operations(paths.last().0@, ms@),
            _ => prev,
        }
    }
}

/// `built` holds the module definitions of `ops`, in order.
pub open spec fn built_from_operations(
    ops: Seq<(Seq<char>, Seq<char>, JsonValue)>,
    doc: JsonValue,
    simplify_ids: bool,
    built: Seq<ScannedModule>,
) -> bool {
    &&& built.len() == ops.len()
    &&& forall|i: int|
        0 <= i < ops.len() ==> describes_operation(
            #[trigger] built[i],
            ops[i].0,
            ops[i].1,
            ops[i].2,
            doc,
            simplify_ids,
        )
}

/// The "paths" object of a document, when it has one.
pub open spec fn document_paths(doc: JsonValue) -> Option<Seq<(String, JsonValue)>> {
    match json_get(doc, "paths"@) {
        Some(JsonValue::Object(ps)) => Some(ps@),
        _ => None,
    }
}

fn text_of(v: Option<&JsonValue>) -> (r: Option<String>)
    ensures
        opt_string_view(r) == json_text(
            match v {
                Some(x) => Some(*x),
                None => None,
            },
        ),
{
    match v {
        Some(JsonValue::String(t)) => Some(t.clone()),
        _ => None,
    }
}

fn tags_of(op: &JsonValue) -> (r: Vec<String>)
    ensures
        string_views(r@) == operation_tags(*op),
{
    let mut r: Vec<String> = Vec::new();
    match get(op, "tags") {
        Some(JsonValue::Array(items)) => {
            let mut i: usize = 0;
            while i < items.len()
                invariant
                    i <= items@.len(),
                    string_views(r@) == string_items(items@.take(i as int)),
                decreases items.len() - i,
            {
                assert(items@.take(i + 1).drop_last() =~= items@.take(i as int));
                match &items[i] {
                    JsonValue::String(t) => {
                        let ghost before = r@;
                        r.push(t.clone());
                        proof {
                            crate::text::lemma_string_views_push(before, r@.last());
                        }
                    },
                    _ => {},
                }
                i = i + 1;
            }
            assert(items@.take(items@.len() as int) =~= items@);
        },
        _ => {},
    }
    r
}

/// What a scan of an OpenAPI document gives: the module of every operation
/// under an HTTP-method member of a path item, in document order, with ids
/// de-duplicated and then filtered by the patterns; an error when the
/// document has no "paths" object or a pattern is invalid.
pub open spec fn document_scanned(
    spec: JsonValue,
    simplify_ids: bool,
    keep_pattern: Option<Seq<char>>,
    drop_pattern: Option<Seq<char>>,
    r: Result<Vec<ScannedModule>, AxumApcoreError>,
) -> bool {
    match document_paths(spec) {
        Some(paths) => match r {
            Ok(v) => exists|built: Seq<ScannedModule>, deduped: Seq<ScannedModule>|
                #![trigger built_from_operations(path_operations(paths), spec, simplify_ids, built), deduplicated_from(built, deduped)]
                {
                    &&& built_from_operations(path_operations(paths), spec, simplify_ids, built)
                    &&& deduplicated_from(built, deduped)
                    &&& patterns_valid(keep_pattern, drop_pattern)
                    &&& v@ == filtered(deduped, keep_pattern, drop_pattern)
                },
            Err(e) => pattern_refused(keep_pattern, drop_pattern, e),
        },
        None => r matches Err(AxumApcoreError::Scanner(msg)) && msg@ == "No 'paths' in OpenAPI spec"@,
    }
}

/// The modules that a scan of an OpenAPI document gives have pairwise
/// distinct ids.
pub proof fn law_scanned_operation_ids_distinct(
    spec: JsonValue,
    simplify_ids: bool,
    keep_pattern: Option<Seq<char>>,
    drop_pattern: Option<Seq<char>>,
    r: Result<Vec<ScannedModule>, AxumApcoreError>,
)
    requires
        document_scanned(spec, simplify_ids, keep_pattern, drop_pattern, r),
        r is Ok,
    ensures
        ids_distinct(r->Ok_0@),
{
    let paths = document_paths(spec)->0;
    let (built, deduped) = choose|built: Seq<ScannedModule>, deduped: Seq<ScannedModule>|
        {
            &&& built_from_operations(path_operations(paths), spec, simplify_ids, built)
            &&& deduplicated_from(built, deduped)
            &&& patterns_valid(keep_pattern, drop_pattern)
            &&& r->Ok_0@ == filtered(deduped, keep_pattern, drop_pattern)
        };
    lemma_filtered_ids_distinct(deduped, keep_pattern, drop_pattern);
}

/// Every member of a path item named get, post, put, delete, patch, head,
/// options or trace, in any ASCII case, is one of the path item's
/// operations: its operation is scanned into a module.
pub proof fn law_method_members_are_operations(
    path: Seq<char>,
    members: Seq<(String, JsonValue)>,
    i: int,
)
    requires
        0 <= i < members.len(),
        ({
            let name = members[i].0@;
            ||| eq_ignore_ascii_case(name, "get"@)
            ||| eq_ignore_ascii_case(name, "post"@)
            ||| eq_ignore_ascii_case(name, "put"@)
            ||| eq_ignore_ascii_case(name, "delete"@)
            ||| eq_ignore_ascii_case(name, "patch"@)
            ||| eq_ignore_ascii_case(name, "head"@)
            ||| eq_ignore_ascii_case(name, "options"@)
            ||| eq_ignore_ascii_case(name, "trace"@)
        }),
    ensures
        item_operations(path, members).contains((path, members[i].0@, members[i].1)),
    decreases members.len(),
{
    let ops = item_operations(path, members);
    if i == members.len() - 1 {
        assert(ops.last() == (path, members[i].0@, members[i].1));
        assert(ops[ops.len() - 1] == ops.last());
    } else {
        assert(members.drop_last()[i] == members[i]);
        law_method_members_are_operations(path, members.drop_last(), i);
        let prev = item_operations(path, members.drop_last());
        let k = choose|k: int| 0 <= k < prev.len() && prev[k] == (path, members[i].0@, members[i].1);
        assert(ops[k] == prev[k]);
    }
}

/// The description of an operation's module is its text "summary" when it
/// has one, whatever its "description" holds; without a summary, its text
/// "description"; with neither, empty. Its documentation is the text
/// "description".
pub proof fn law_summary_comes_first(
    m: ScannedModule,
    path: Seq<char>,
    method: Seq<char>,
    op: JsonValue,
    doc: JsonValue,
    simplify_ids: bool,
)
    requires
        describes_operation(m, path, method, op, doc, simplify_ids),
    ensures
        json_get(op, "summary"@) matches Some(JsonValue::String(t)) ==> m.description@ == t@,
        json_get(op, "summary"@) is None ==> match json_get(op, "description"@) {
            Some(JsonValue::String(t)) => m.description@ == t@,
            _ => m.description@ == Seq::<char>::empty(),
        },
        match json_get(op, "description"@) {
            Some(JsonValue::String(t)) => m.documentation matches Some(d) && d@ == t@,
            _ => m.documentation is None,
        },
{
}

/// Scans a JSON OpenAPI document into module definitions.
pub struct OpenAPIScanner {
    /// Whether to simplify module ids (strip method suffixes).
    pub simplify_ids: bool,
}

impl OpenAPIScanner {
    /// A scanner that simplifies module ids.
    pub fn new() -> (s: Self)
        ensures
            s.simplify_ids,
    {
        OpenAPIScanner { simplify_ids: true }
    }

    /// A scanner with the given id simplification.
    pub fn with_simplify_ids(simplify_ids: bool) -> (s: Self)
        ensures
            s.simplify_ids == simplify_ids,
    {
        OpenAPIScanner { simplify_ids }
    }

    /// The module definition of one operation.
    fn operation_to_module(
        &self,
        path: &str,
        method: &str,
        operation: &JsonValue,
        spec: &JsonValue,
        spec_serde: &serde_json::Value,
    ) -> (m: ScannedModule)
        requires
            *spec_serde == serde_of(*spec),
        ensures
            describes_operation(m, path@, method@, *operation, *spec, self.simplify_ids),
    {
        let operation_id = match text_of(get(operation, "operationId")) {
            Some(t) => t,
            None => string_of("unknown"),
        };
        let tags = tags_of(operation);
        let tag = if tags.len() > 0 {
            tags[0].clone()
        } else {
            string_of("default")
        };
        let func_name = if self.simplify_ids {
            strip_method_suffix(operation_id.as_str(), method)
        } else {
            operation_id.clone()
        };
        let method_lower = to_lowercase(method);
        let module_id = dotted(tag.as_str(), func_name.as_str(), method_lower.as_str());
        let chosen = match get(operation, "summary") {
            Some(x) => Some(x),
            None => get(operation, "description"),
        };
        let description = match text_of(chosen) {
            Some(t) => t,
            None => String::new(),
        };
        let op_serde = to_serde(operation);
        let input_schema = input_schema_for(&op_serde, spec_serde);
        let output_schema = output_schema_for(&op_serde, spec_serde);
        let mut metadata: Vec<(String, String)> = Vec::new();
        metadata.push((string_of("http_method"), to_uppercase(method)));
        metadata.push((string_of("url_path"), string_of(path)));
        let mut target = string_of("axum::");
        append_str(&mut target, operation_id.as_str());
        ScannedModule {
            module_id,
            description,
            input_schema,
            output_schema,
            tags,
            target,
            version: string_of("1.0.0"),
            annotations: Some(infer_annotations(method)),
            documentation: text_of(get(operation, "description")),
            metadata,
            warnings: Vec::new(),
        }
    }
}

impl OpenAPIScanner {
    /// Scans a document: every operation under an HTTP-method member of a
    /// path item becomes a module definition, in document order; ids are
    /// de-duplicated, then the keep and drop patterns are applied to them.
    /// A document without a "paths" object, and an invalid pattern, are
    /// errors.
    pub fn scan_spec(
        &self,
        spec: &JsonValue,
        keep_pattern: Option<&str>,
        drop_pattern: Option<&str>,
    ) -> (r: Result<Vec<ScannedModule>, AxumApcoreError>)
        ensures
            document_scanned(
                *spec,
                self.simplify_ids,
                opt_str_view(keep_pattern),
                opt_str_view(drop_pattern),
                r,
            ),
    {
        let paths = match get(spec, "paths") {
            Some(JsonValue::Object(ps)) => ps,
            _ => {
                return Err(AxumApcoreError::Scanner(string_of("No 'paths' in OpenAPI spec")));
            },
        };
        let spec_serde = to_serde(spec);
        let mut built: Vec<ScannedModule> = Vec::new();
        let mut i: usize = 0;
        while i < paths.len()
            invariant
                i <= paths@.len(),
                spec_serde == serde_of(*spec),
                built_from_operations(
                    path_operations(paths@.take(i as int)),
                    *spec,
                    self.simplify_ids,
                    built@,
                ),
            decreases paths.len() - i,
        {
            assert(paths@.take(i + 1).drop_last() =~= paths@.take(i as int));
            let ghost ops_before = path_operations(paths@.take(i as int));
            match &paths[i].1 {
                JsonValue::Object(members) => {
                    let path = paths[i].0.as_str();
                    let mut j: usize = 0;
                    while j < members.len()
                        invariant
                            j <= members@.len(),
                            spec_serde == serde_of(*spec),
                            path@ == paths@[i as int].0@,
                            built_from_operations(
                                ops_before + item_operations(path@, members@.take(j as int)),
                                *spec,
                                self.simplify_ids,
                                built@,
                            ),
                        decreases members.len() - j,
                    {
                        assert(members@.take(j + 1).drop_last() =~= members@.take(j as int));
                        let ghost before = ops_before + item_operations(path@, members@.take(j as int));
                        if is_http_method(members[j].0.as_str()) {
                            let m = self.operation_to_module(
                                path,
                                members[j].0.as_str(),
                                &members[j].1,
                                spec,
                                &spec_serde,
                            );
                            built.push(m);
                            assert(ops_before + item_operations(path@, members@.take(j + 1)) =~= before.push(
                                (path@, members@[j as int].0@, members@[j as int].1),
                            ));
                        } else {
                            assert(ops_before + item_operations(path@, members@.take(j + 1)) =~= before);
                        }
                        j = j + 1;
                    }
                    assert(members@.take(members@.len() as int) =~= members@);
                },
                _ => {
                    assert(path_operations(paths@.take(i + 1)) =~= ops_before);
                },
            }
            i = i + 1;
        }
        assert(paths@.take(paths@.len() as int) =~= paths@);
        let ghost b = built@;
        let deduped = dedup_modules(built);
        let ghost d = deduped@;
        let r = filter_modules(deduped, keep_pattern, drop_pattern);
        assert(document_paths(*spec) == Some(paths@));
        assert(built_from_operations(path_operations(paths@), *spec, self.simplify_ids, b));
        assert(deduplicated_from(b, d));
        proof {
            if r is Ok {
                let v = r->Ok_0;
                assert(patterns_valid(opt_str_view(keep_pattern), opt_str_view(drop_pattern)));
                assert(v@ == filtered(d, opt_str_view(keep_pattern), opt_str_view(drop_pattern)));
                let ps = document_paths(*spec)->0;
                assert(ps == paths@);
                assert(exists|built: Seq<ScannedModule>, deduped: Seq<ScannedModule>|
                    #![trigger built_from_operations(path_operations(ps), *spec, self.simplify_ids, built), deduplicated_from(built, deduped)]
                    {
                        &&& built_from_operations(path_operations(ps), *spec, self.simplify_ids, built)
                        &&& deduplicated_from(built, deduped)
                        &&& patterns_valid(opt_str_view(keep_pattern), opt_str_view(drop_pattern))
                        &&& v@ == filtered(deduped, opt_str_view(keep_pattern), opt_str_view(drop_pattern))
                    });
            }
        }
        r
    }
}

impl Default for OpenAPIScanner {
    fn default() -> (s: Self)
        ensures
            s.simplify_ids,
    {
        OpenAPIScanner { simplify_ids: true }
    }
}

} // verus!

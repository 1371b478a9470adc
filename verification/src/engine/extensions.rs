//! Module-id validation, and reading module definitions out of binding
//! documents.
use vstd::prelude::*;

use crate::config::ApcoreSettings;
use crate::errors::AxumApcoreError;
use crate::json::{get, json_document, json_get, json_text, new_object_type_schema, object_type_schema, serde_of, to_serde, JsonValue};
use crate::scanner::openapi::string_items;
use crate::scanner::{default_annotations_hold, Annotations};

use crate::text::{
    append_str, chars_of, lemma_string_views_push, split_chars, split_on, str_eq, string_of,
    string_views, views_of,
};

verus! {

/// Maximum allowed module ID length, in bytes.
pub const MAX_MODULE_ID_LENGTH: usize = 256;

/// Module ids that are reserved words.
pub open spec fn is_reserved_word(id: Seq<char>) -> bool {
    id == "__init__"@ || id == "__main__"@ || id == "apcore"@ || id == "system"@
}

/// The message for an empty id.
pub open spec fn empty_id_message() -> Seq<char> {
    "Module ID cannot be empty"@
}

/// The message for an id longer than the limit.
pub open spec fn too_long_message(id: Seq<char>) -> Seq<char> {
    "Module ID '"@ + id + "' exceeds maximum length of 256"@
}

/// The message for a reserved id.
pub open spec fn reserved_message(id: Seq<char>) -> Seq<char> {
    "Module ID '"@ + id + "' is a reserved word"@
}

/// The message for an empty segment.
pub open spec fn empty_segment_message(id: Seq<char>) -> Seq<char> {
    "Module ID '"@ + id + "' contains empty segment (double dot)"@
}

/// One empty-segment message for each empty piece among `segs`.
pub open spec fn empty_segment_messages(segs: Seq<Seq<char>>, id: Seq<char>) -> Seq<Seq<char>>
    decreases segs.len(),
{
    if segs.len() == 0 {
        Seq::empty()
    } else {
        let prev = empty_segment_messages(segs.drop_last(), id);
        if segs.last().len() == 0 {
            prev.push(empty_segment_message(id))
        } else {
            prev
        }
    }
}

/// The problems of a module id, in the order they are reported: an empty
/// id has that one problem; otherwise a length over the limit (in UTF-8
/// bytes), a reserved word, and one problem for each empty dot-separated
/// segment.
pub open spec fn id_problems(id: Seq<char>) -> Seq<Seq<char>> {
    if id.len() == 0 {
        seq![empty_id_message()]
    } else {
        (if vstd::utf8::encode_utf8(id).len() > 256 {
            seq![too_long_message(id)]
        } else {
            Seq::empty()
        }) + (if is_reserved_word(id) {
            seq![reserved_message(id)]
        } else {
            Seq::empty()
        }) + empty_segment_messages(split_on(id, '.'), id)
    }
}

fn id_message(prefix: &str, id: &str, suffix: &str) -> (m: String)
    ensures
        m@ == prefix@ + id@ + suffix@,
{
    let mut m = string_of(prefix);
    append_str(&mut m, id);
    append_str(&mut m, suffix);
    m
}

/// Validates module ids against the constraints of apcore.
pub struct AxumModuleValidator;

impl AxumModuleValidator {
    /// A validator.
    pub fn new() -> (v: Self) {
        AxumModuleValidator
    }

    /// The problems of a module id; none when it is valid.
    pub fn validate(&self, module_id: &str) -> (errors: Vec<String>)
        ensures
            string_views(errors@) == id_problems(module_id@),
    {
        let mut errors: Vec<String> = Vec::new();
        let v = chars_of(module_id);
        if v.len() == 0 {
            errors.push(string_of("Module ID cannot be empty"));
            assert(string_views(errors@) =~= id_problems(module_id@));
            return errors;
        }
        let ghost e0 = errors@;
        let too_long = module_id.as_bytes().len() > MAX_MODULE_ID_LENGTH;
        if too_long {
            let m = id_message("Module ID '", module_id, "' exceeds maximum length of 256");
            errors.push(m);
            proof {
                lemma_string_views_push(e0, m);
            }
        }
        assert(string_views(errors@) =~= (if vstd::utf8::encode_utf8(module_id@).len() > 256 {
            seq![too_long_message(module_id@)]
        } else {
            Seq::<Seq<char>>::empty()
        }));
        let ghost e1 = errors@;
        if str_eq(module_id, "__init__") || str_eq(module_id, "__main__") || str_eq(
            module_id,
            "apcore",
        ) || str_eq(module_id, "system") {
            let m = id_message("Module ID '", module_id, "' is a reserved word");
            errors.push(m);
            proof {
                lemma_string_views_push(e1, m);
            }
        }
        let ghost head = string_views(errors@);
        let segments = split_chars(&v, '.');
        let mut i: usize = 0;
        while i < segments.len()
            invariant
                i <= segments@.len(),
                views_of(segments@) == split_on(module_id@, '.'),
                string_views(errors@) == head + empty_segment_messages(
                    views_of(segments@).take(i as int),
                    module_id@,
                ),
            decreases segments.len() - i,
        {
            assert(views_of(segments@).take(i + 1).drop_last() =~= views_of(segments@).take(
                i as int,
            ));
            assert(views_of(segments@)[i as int] == segments@[i as int]@);
            let ghost ei = errors@;
            if segments[i].len() == 0 {
                let m = id_message("Module ID '", module_id, "' contains empty segment (double dot)");
                errors.push(m);
                proof {
                    lemma_string_views_push(ei, m);
                }
            }
            assert(string_views(errors@) =~= head + empty_segment_messages(
                views_of(segments@).take(i + 1),
                module_id@,
            ));
            i = i + 1;
        }
        assert(views_of(segments@).take(segments@.len() as int) =~= views_of(segments@));
        assert(string_views(errors@) =~= id_problems(module_id@));
        errors
    }
}

/// A module id that apcore accepts: not empty, at most 256 UTF-8 bytes,
/// not a reserved word, and with no empty dot-separated segment.
pub open spec fn valid_module_id(id: Seq<char>) -> bool {
    &&& id.len() > 0
    &&& vstd::utf8::encode_utf8(id).len() <= 256
    &&& !is_reserved_word(id)
    &&& forall|i: int| 0 <= i < split_on(id, '.').len() ==> (#[trigger] split_on(id, '.')[i]).len() > 0
}

/// The validator finds no problem in exactly the valid ids, and an empty id
/// has exactly one problem.
pub proof fn law_validator_accepts_exactly_valid_ids(id: Seq<char>)
    ensures
        id_problems(id).len() == 0 <==> valid_module_id(id),
        id.len() == 0 ==> id_problems(id) == seq![empty_id_message()],
{
    lemma_no_empty_segment_messages(split_on(id, '.'), id);
}

proof fn lemma_no_empty_segment_messages(segs: Seq<Seq<char>>, id: Seq<char>)
    ensures
        empty_segment_messages(segs, id).len() == 0 <==> forall|i: int|
            0 <= i < segs.len() ==> (#[trigger] segs[i]).len() > 0,
    decreases segs.len(),
{
    if segs.len() > 0 {
        lemma_no_empty_segment_messages(segs.drop_last(), id);
        if empty_segment_messages(segs, id).len() == 0 {
            assert forall|i: int| 0 <= i < segs.len() implies (#[trigger] segs[i]).len() > 0 by {
                if i < segs.len() - 1 {
                    assert(segs.drop_last()[i] == segs[i]);
                }
            }
        } else if forall|i: int| 0 <= i < segs.len() ==> (#[trigger] segs[i]).len() > 0 {
            assert forall|i: int| 0 <= i < segs.drop_last().len() implies (
            #[trigger] segs.drop_last()[i]).len() > 0 by {
                assert(segs.drop_last()[i] == segs[i]);
            }
            assert(segs[segs.len() - 1].len() > 0);
        }
    }
}

impl Default for AxumModuleValidator {
    fn default() -> (v: Self) {
        AxumModuleValidator
    }
}


/// A module read from a binding document.
#[derive(Debug)]
pub struct DiscoveredModule {
    pub module_id: String,
    pub target: String,
    pub description: String,
    pub input_schema: serde_json::Value,
    pub output_schema: serde_json::Value,
    pub tags: Vec<String>,
    pub annotations: Annotations,
}

/// The text of member `key` of `entry`, or empty when it has no text there.
pub open spec fn text_member(entry: JsonValue, key: Seq<char>) -> Seq<char> {
    match json_text(json_get(entry, key)) {
        Some(t) => t,
        None => Seq::empty(),
    }
}

/// The schema in member `key` of `entry`, or `{"type": "object"}`.
pub open spec fn schema_member(entry: JsonValue, key: Seq<char>) -> serde_json::Value {
    match json_get(entry, key) {
        Some(x) => serde_of(x),
        None => object_type_schema(),
    }
}

/// The texts in the "tags" array of `entry`.
pub open spec fn tag_member(entry: JsonValue) -> Seq<Seq<char>> {
    match json_get(entry, "tags"@) {
        Some(JsonValue::Array(items)) => string_items(items@),
        _ => Seq::empty(),
    }
}

/// `d` is the module that binding entry `entry` declares.
pub open spec fn describes_binding(d: DiscoveredModule, entry: JsonValue) -> bool {
    &&& d.module_id@ == text_member(entry, "module_id"@)
    &&& d.target@ == text_member(entry, "target"@)
    &&& d.description@ == text_member(entry, "description"@)
    &&& d.input_schema == schema_member(entry, "input_schema"@)
    &&& d.output_schema == schema_member(entry, "output_schema"@)
    &&& string_views(d.tags@) == tag_member(entry)
    &&& default_annotations_hold(d.annotations)
}

/// The entries of the "modules" array of a binding document.
pub open spec fn binding_entries(doc: JsonValue) -> Option<Seq<JsonValue>> {
    match json_get(doc, "modules"@) {
        Some(JsonValue::Array(items)) => Some(items@),
        _ => None,
    }
}

fn text_member_of(entry: &JsonValue, key: &str) -> (r: String)
    ensures
        r@ == text_member(*entry, key@),
{
    match get(entry, key) {
        Some(JsonValue::String(t)) => t.clone(),
        _ => String::new(),
    }
}

fn schema_member_of(entry: &JsonValue, key: &str) -> (r: serde_json::Value)
    ensures
        r == schema_member(*entry, key@),
{
    match get(entry, key) {
        Some(x) => to_serde(x),
        None => new_object_type_schema(),
    }
}

fn tag_member_of(entry: &JsonValue) -> (r: Vec<String>)
    ensures
        string_views(r@) == tag_member(*entry),
{
    let mut r: Vec<String> = Vec::new();
    match get(entry, "tags") {
        Some(JsonValue::Array(items)) => {
            let mut i: usize = 0;
            while i < items.len()
                invariant
                    i <= items@.len(),
                    string_views(r@) == string_items(items@.take(i as int)),
                decreases items.len() - i,
            {
                assert(items@.take(i + 1).drop_last() =~= items@.take(i as int));
                match &items[i] {
                    JsonValue::String(t) => {
                        let ghost before = r@;
                        r.push(t.clone());
                        proof {
                            lemma_string_views_push(before, r@.last());
                        }
                    },
                    _ => {},
                }
                i = i + 1;
            }
            assert(items@.take(items@.len() as int) =~= items@);
        },
        _ => {},
    }
    r
}

/// The message for a binding document without a "modules" array.
pub open spec fn no_modules_message(path: Seq<char>) -> Seq<char> {
    "No 'modules' array in binding file: "@ + path
}

/// What reading binding document `doc` named `path` gives: one module per
/// entry of its "modules" array, in order, or, without that array, an
/// error naming the document.
pub open spec fn binding_loaded(
    path: Seq<char>,
    doc: JsonValue,
    r: Result<Vec<DiscoveredModule>, AxumApcoreError>,
) -> bool {
    match binding_entries(doc) {
        Some(entries) => r is Ok && r->Ok_0@.len() == entries.len() && forall|i: int|
            0 <= i < entries.len() ==> describes_binding(#[trigger] r->Ok_0@[i], entries[i]),
        None => r matches Err(AxumApcoreError::Config(m)) && m@ == no_modules_message(path),
    }
}

/// The modules that a binding document declares, one per entry of its
/// "modules" array, in order; a document without that array is an error.
/// `path` names the document in the message.
pub fn modules_from_binding(path: &str, doc: &JsonValue) -> (r: Result<
    Vec<DiscoveredModule>,
    AxumApcoreError,
>)
    ensures
        binding_loaded(path@, *doc, r),
{
    let items = match get(doc, "modules") {
        Some(JsonValue::Array(items)) => items,
        _ => {
            let mut m = string_of("No 'modules' array in binding file: ");
            append_str(&mut m, path);
            return Err(AxumApcoreError::Config(m));
        },
    };
    let mut modules: Vec<DiscoveredModule> = Vec::new();
    let mut i: usize = 0;
    while i < items.len()
        invariant
            i <= items@.len(),
            modules@.len() == i,
            forall|j: int| 0 <= j < i ==> describes_binding(#[trigger] modules@[j], items@[j]),
        decreases items.len() - i,
    {
        let entry = &items[i];
        let d = DiscoveredModule {
            module_id: text_member_of(entry, "module_id"),
            target: text_member_of(entry, "target"),
            description: text_member_of(entry, "description"),
            input_schema: schema_member_of(entry, "input_schema"),
            output_schema: schema_member_of(entry, "output_schema"),
            tags: tag_member_of(entry),
            annotations: Annotations::default(),
        };
        modules.push(d);
        i = i + 1;
    }
    Ok(modules)
}

/// What `serde_yaml::from_str` reads from a YAML text as a JSON value, or
/// the display text of its error.
pub uninterp spec fn yaml_parsed(content: Seq<char>) -> Result<serde_json::Value, Seq<char>>;

/// A parse result with its error as plain text.
pub open spec fn text_result(r: Result<serde_json::Value, String>) -> Result<serde_json::Value, Seq<char>> {
    match r {
        Ok(v) => Ok(v),
        Err(m) => Err(m@),
    }
}

/// Parses a YAML text into a JSON value (`serde_yaml::from_str`); an error
/// gives its display text.
#[verifier::external_body]
fn parse_yaml_document(content: &str) -> (r: Result<serde_json::Value, String>)
    ensures
        text_result(r) == yaml_parsed(content@),
{
    serde_yaml::from_str::<serde_json::Value>(content).map_err(|e| e.to_string())
}

/// The message for a binding text that is not YAML.
pub open spec fn parse_failure_message(path: Seq<char>, error: Seq<char>) -> Seq<char> {
    "Failed to parse "@ + path + ": "@ + error
}

/// The modules of binding file `path` with text `content`: a text that is
/// not YAML is an error naming the file and the parse error; otherwise the
/// modules that the parsed document declares.
pub fn load_binding_text(path: &str, content: &str) -> (r: Result<
    Vec<DiscoveredModule>,
    AxumApcoreError,
>)
    ensures
        match yaml_parsed(content@) {
            Err(t) => r matches Err(AxumApcoreError::Config(m)) && m@ == parse_failure_message(path@, t),
            Ok(v) => exists|doc: JsonValue| #[trigger] serde_of(doc) == v && binding_loaded(path@, doc, r),
        },
{
    match parse_yaml_document(content) {
        Err(e) => {
            let mut m = string_of("Failed to parse ");
            append_str(&mut m, path);
            append_str(&mut m, ": ");
            append_str(&mut m, e.as_str());
            Err(AxumApcoreError::Config(m))
        },
        Ok(v) => {
            let doc = json_document(&v);
            let r = modules_from_binding(path, &doc);
            assert(serde_of(doc) == v && binding_loaded(path@, doc, r));
            r
        },
    }
}

/// The part of a binding-file name pattern after a leading `*`.
pub open spec fn pattern_suffix(pattern: Seq<char>) -> Seq<char> {
    if pattern.len() > 0 && pattern[0] == '*' {
        pattern.drop_first()
    } else {
        pattern
    }
}

/// A file name matches a binding-file name pattern when it ends with the
/// pattern's suffix.
pub open spec fn name_matches_pattern(name: Seq<char>, pattern: Seq<char>) -> bool {
    let suffix = pattern_suffix(pattern);
    suffix.len() <= name.len() && name.subrange(name.len() - suffix.len(), name.len() as int) == suffix
}

/// Whether a file name matches a binding-file name pattern such as
/// "*.binding.yaml".
pub fn binding_name_matches(name: &str, pattern: &str) -> (b: bool)
    ensures
        b == name_matches_pattern(name@, pattern@),
{
    let p = chars_of(pattern);
    let n = chars_of(name);
    let start: usize = if p.len() > 0 && p[0] == '*' { 1 } else { 0 };
    let ghost suffix = pattern_suffix(pattern@);
    assert(suffix =~= p@.skip(start as int));
    let slen = p.len() - start;
    if slen > n.len() {
        return false;
    }
    let offset = n.len() - slen;
    let mut i: usize = 0;
    while i < slen
        invariant
            i <= slen,
            n@ == name@,
            p@ == pattern@,
            suffix == pattern_suffix(pattern@),
            slen == suffix.len(),
            offset + slen == n@.len(),
            n@.len() == n.len(),
            suffix == p@.skip(start as int),
            start + slen == p@.len(),
            forall|j: int| 0 <= j < i ==> n@[offset + j] == suffix[j],
        decreases slen - i,
    {
        if n[offset + i] != p[start + i] {
            assert(n@.subrange(offset as int, n@.len() as int)[i as int] != suffix[i as int]);
            assert(n@.subrange(offset as int, n@.len() as int) != suffix);
            return false;
        }
        i = i + 1;
    }
    assert(n@.subrange(offset as int, n@.len() as int) =~= suffix);
    true
}


/// The modules of the binding files that loaded, in order; files that
/// failed to load contribute nothing.
pub open spec fn loaded_modules(
    batches: Seq<Result<Vec<DiscoveredModule>, AxumApcoreError>>,
) -> Seq<DiscoveredModule>
    decreases batches.len(),
{
    if batches.len() == 0 {
        Seq::empty()
    } else {
        let prev = loaded_modules(batches.drop_last());
        match batches.last() {
            Ok(ms) => prev + ms@,
            Err(_) => prev,
        }
    }
}

/// Joins the modules of the binding files that loaded, skipping the files
/// that failed.
pub fn collect_discovered(batches: Vec<Result<Vec<DiscoveredModule>, AxumApcoreError>>) -> (r: Vec<
    DiscoveredModule,
>)
    ensures
        r@ == loaded_modules(batches@),
{
    let ghost orig = batches@;
    let mut rest = batches;
    let mut out: Vec<DiscoveredModule> = Vec::new();
    let mut k: usize = 0;
    let n = rest.len();
    while rest.len() > 0
        invariant
            k + rest@.len() == n,
            n == orig.len(),
            rest@ == orig.skip(k as int),
            out@ == loaded_modules(orig.take(k as int)),
        decreases rest@.len(),
    {
        let b = rest.remove(0);
        assert(b == orig[k as int]);
        assert(orig.skip(k + 1) =~= orig.skip(k as int).remove(0));
        assert(orig.take(k + 1).drop_last() =~= orig.take(k as int));
        match b {
            Ok(mut ms) => {
                let ghost before = out@;
                let ghost added = ms@;
                out.append(&mut ms);
                assert(out@ =~= before + added);
            },
            Err(_) => {},
        }
        k = k + 1;
    }
    assert(orig.take(n as int) =~= orig);
    out
}

/// Discovers modules from the binding files in the configured directory.
pub struct AxumDiscoverer {
    settings: ApcoreSettings,
}

impl AxumDiscoverer {
    /// A discoverer for the given settings.
    pub fn new(settings: ApcoreSettings) -> (d: Self)
        ensures
            d.settings() == settings,
    {
        AxumDiscoverer { settings }
    }

    /// The settings the discoverer reads.
    pub closed spec fn settings(&self) -> ApcoreSettings {
        self.settings
    }

    /// The directory the binding files are in.
    pub fn module_dir(&self) -> (r: &String)
        ensures
            *r == self.settings().module_dir,
    {
        &self.settings.module_dir
    }

    /// The pattern the binding files are named by.
    pub fn binding_pattern(&self) -> (r: &String)
        ensures
            *r == self.settings().binding_pattern,
    {
        &self.settings.binding_pattern
    }
}

} // verus!

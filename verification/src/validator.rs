//! The content validator: YAML frontmatter extraction, schema checks and
//! file-size limits, combined into one hook decision.
//!
//! The frontmatter delimiters, the line handling and every decision rule
//! are verified here; only the YAML text itself is handed to an outside
//! parser, whose result is named by `yaml_map_of`.

use vstd::prelude::*;
use vstd::string::StringExecFns;
use crate::text::{
    chars_vec, dec_digits, join_lines, join_nl, lines_spec, split_lines, string_from_chars,
    trim_chars, trim_spec, u64_to_string,
};

verus! {

/// What a hook decides for one event.
#[derive(Debug, Clone, PartialEq, Eq)]
pub enum HookDecision {
    /// Let the event proceed.
    Allow,
    /// Let the event proceed, with a warning.
    Warn { message: String },
    /// Block the event.
    Block { reason: String },
}

/// The view of a decision: the same shape over character sequences.
pub enum DecisionView {
    Allow,
    Warn(Seq<char>),
    Block(Seq<char>),
}

impl View for HookDecision {
    type V = DecisionView;

    open spec fn view(&self) -> DecisionView {
        match self {
            HookDecision::Allow => DecisionView::Allow,
            HookDecision::Warn { message } => DecisionView::Warn(message@),
            HookDecision::Block { reason } => DecisionView::Block(reason@),
        }
    }
}

/// The errors the validator surfaces.
#[derive(Debug, Clone, PartialEq, Eq)]
pub enum LevError {
    /// A configuration input could not be understood.
    ConfigError(String),
    /// An input could not be read.
    Io(String),
    /// A value could not be serialized.
    Serialization(String),
}

/// Frontmatter metadata extracted from a file: the parsed mapping, with
/// string values kept and any other value marked as non-string.
#[derive(Debug, Clone)]
pub struct Frontmatter {
    /// The entries of the mapping, keys distinct.
    pub data: Vec<(String, Option<String>)>,
}

/// Whether some entry carries the given key.
pub open spec fn entries_has_key(es: Seq<(String, Option<String>)>, k: Seq<char>) -> bool {
    exists|i: int| 0 <= i < es.len() && (#[trigger] es[i]).0@ == k
}

/// The view of one entry value.
pub open spec fn entry_val_view(v: Option<String>) -> Option<Seq<char>> {
    match v {
        Some(s) => Some(s@),
        None => None,
    }
}

/// Whether a flat entry list and a keyed map carry the same contents,
/// with the entries' keys distinct.
pub open spec fn entries_agree(
    es: Seq<(String, Option<String>)>,
    m: Map<Seq<char>, Option<Seq<char>>>,
) -> bool {
    &&& forall|k: Seq<char>|
        #[trigger] m.dom().contains(k) ==> exists|i: int|
            0 <= i < es.len() && (#[trigger] es[i]).0@ == k
    &&& forall|i: int|
        0 <= i < es.len() ==> m.dom().contains((#[trigger] es[i]).0@) && m[es[i].0@]
            == entry_val_view(es[i].1)
    &&& forall|i: int, j: int| 0 <= i < j < es.len() ==> (#[trigger] es[i]).0@ != (#[trigger] es[j]).0@
}

/// The value stored under the first entry carrying the given key.
pub open spec fn first_val(es: Seq<(String, Option<String>)>, k: Seq<char>) -> Option<Seq<char>>
    decreases es.len(),
{
    if es.len() == 0 {
        None
    } else if es[0].0@ == k {
        entry_val_view(es[0].1)
    } else {
        first_val(es.drop_first(), k)
    }
}

/// When the first match sits at index `i`, `first_val` yields its value.
proof fn lemma_first_val_at(es: Seq<(String, Option<String>)>, k: Seq<char>, i: int)
    requires
        0 <= i < es.len(),
        forall|t: int| 0 <= t < i ==> (#[trigger] es[t]).0@ != k,
        es[i].0@ == k,
    ensures
        first_val(es, k) == entry_val_view(es[i].1),
    decreases i,
{
    if i > 0 {
        assert(es[0].0@ != k);
        lemma_first_val_at(es.drop_first(), k, i - 1);
    }
}

/// A key that some entry carries has the value of its first carrier.
proof fn lemma_first_val_found(es: Seq<(String, Option<String>)>, k: Seq<char>)
    requires
        entries_has_key(es, k),
    ensures
        exists|i: int|
            0 <= i < es.len() && (#[trigger] es[i]).0@ == k && first_val(es, k) == entry_val_view(
                es[i].1,
            ),
    decreases es.len(),
{
    if es[0].0@ == k {
        assert(first_val(es, k) == entry_val_view(es[0].1));
    } else {
        let w = choose|i: int| 0 <= i < es.len() && (#[trigger] es[i]).0@ == k;
        assert(w > 0);
        assert(es.drop_first()[w - 1] == es[w]);
        assert(entries_has_key(es.drop_first(), k));
        lemma_first_val_found(es.drop_first(), k);
        let j = choose|i: int|
            0 <= i < es.drop_first().len() && (#[trigger] es.drop_first()[i]).0@ == k && first_val(
                es.drop_first(),
                k,
            ) == entry_val_view(es.drop_first()[i].1);
        assert(es[j + 1] == es.drop_first()[j]);
        assert((es[j + 1]).0@ == k && first_val(es, k) == entry_val_view(es[j + 1].1));
    }
}

impl Frontmatter {
    /// Whether the entry keys are distinct, as a parsed mapping's are.
    pub open spec fn wf(self) -> bool {
        forall|i: int, j: int|
            #![trigger self.data@[i].0@, self.data@[j].0@]
            0 <= i < j < self.data@.len() ==> self.data@[i].0@ != self.data@[j].0@
    }

    /// The mapping this frontmatter holds.
    pub open spec fn spec_map(self) -> Map<Seq<char>, Option<Seq<char>>> {
        Map::new(
            |k: Seq<char>| entries_has_key(self.data@, k),
            |k: Seq<char>| first_val(self.data@, k),
        )
    }

    /// Whether the frontmatter carries the given key.
    pub fn contains_key(&self, key: &String) -> (r: bool)
        ensures
            r == self.spec_map().dom().contains(key@),
    {
        let n = self.data.len();
        let mut i: usize = 0;
        while i < n
            invariant
                n == self.data@.len(),
                i <= n,
                forall|t: int| 0 <= t < i ==> (#[trigger] self.data@[t]).0@ != key@,
            decreases n - i,
        {
            if self.data[i].0 == *key {
                return true;
            }
            i = i + 1;
        }
        false
    }

    /// The string value stored under the given key, if the key is present
    /// and its value is a string.
    pub fn get_str(&self, key: &String) -> (r: Option<&String>)
        ensures
            match r {
                Some(v) => self.spec_map().dom().contains(key@) && self.spec_map()[key@] == Some(
                    v@,
                ),
                None => !self.spec_map().dom().contains(key@) || self.spec_map()[key@] is None,
            },
    {
        let n = self.data.len();
        let mut i: usize = 0;
        while i < n
            invariant
                n == self.data@.len(),
                i <= n,
                forall|t: int| 0 <= t < i ==> (#[trigger] self.data@[t]).0@ != key@,
            decreases n - i,
        {
            if self.data[i].0 == *key {
                proof {
                    assert(entries_has_key(self.data@, key@)) by {
                        assert((self.data@[i as int]).0@ == key@);
                    }
                    lemma_first_val_at(self.data@, key@, i as int);
                }
                return match &self.data[i].1 {
                    Some(v) => Some(v),
                    None => None,
                };
            }
            i = i + 1;
        }
        None
    }
}

/// Schema validation rules.
#[derive(Debug, Clone)]
pub struct Schema {
    pub name: String,
    pub required_fields: Vec<String>,
    pub optional_fields: Option<Vec<String>>,
    pub max_size: Option<usize>,
}

/// The name an outside YAML parser's result goes by: the mapping the text
/// denotes — keys to string values, `None` standing for a non-string
/// value — or no mapping at all when the text is not a well-formed YAML
/// mapping. A function of the text alone.
pub uninterp spec fn yaml_map_of(s: Seq<char>) -> Option<Map<Seq<char>, Option<Seq<char>>>>;

/// Relies on `serde_yaml::from_str`, deserializing into a map of
/// `serde_json::Value`: parses the text as a YAML mapping, failing on
/// anything else; the result depends on the text alone. The entries come
/// in no promised order, keys distinct; each string value is kept, every
/// other value is flattened to `None`.
#[verifier::external_body]
fn parse_yaml_entries(s: &str) -> (r: Result<Vec<(String, Option<String>)>, String>)
    ensures
        match r {
            Ok(es) => yaml_map_of(s@) matches Some(m) && entries_agree(es@, m),
            Err(_) => yaml_map_of(s@) is None,
        },
{
    let map: std::collections::HashMap<String, serde_json::Value> = match serde_yaml::from_str(s) {
        Ok(m) => m,
        Err(e) => {
            return Err(e.to_string());
        },
    };
    Ok(map.into_iter().map(|(k, v)| {
        let sv = v.as_str().map(|t| t.to_string());
        (k, sv)
    }).collect())
}

/// Relies on `dirs::config_dir`: the platform's configuration directory,
/// if it defines one. The result depends on the environment, so nothing is
/// promised of it.
#[verifier::external_body]
fn config_dir_string() -> (r: Option<String>) {
    dirs::config_dir().map(|p| p.to_string_lossy().into_owned())
}

/// Whether the text opens with the frontmatter delimiter.
pub open spec fn starts_with_dashes(s: Seq<char>) -> bool {
    s.len() >= 3 && s[0] == '-' && s[1] == '-' && s[2] == '-'
}

/// Whether a line is a closing delimiter: three dashes up to white space.
pub open spec fn is_marker_line(l: Seq<char>) -> bool {
    trim_spec(l) == seq!['-', '-', '-']
}

/// The first marker line at or after index `i`, or `ls.len()` if none.
pub open spec fn find_marker_from(ls: Seq<Seq<char>>, i: int) -> int
    decreases ls.len() - i,
{
    if i < 0 || i >= ls.len() {
        ls.len() as int
    } else if is_marker_line(ls[i]) {
        i
    } else {
        find_marker_from(ls, i + 1)
    }
}

/// A position that is a first marker line — or the end, with none before
/// it — is what `find_marker_from` returns.
pub proof fn lemma_find_marker_at(ls: Seq<Seq<char>>, from: int, k: int)
    requires
        0 <= from <= k <= ls.len(),
        forall|m: int| from <= m < k ==> !is_marker_line(#[trigger] ls[m]),
        k == ls.len() || is_marker_line(ls[k]),
    ensures
        find_marker_from(ls, from) == k,
    decreases k - from,
{
    if from < k {
        lemma_find_marker_at(ls, from + 1, k);
    }
}

/// Decide whether a line is a closing delimiter.
fn line_is_marker(line: &Vec<char>) -> (r: bool)
    ensures
        r == is_marker_line(line@),
{
    let t = trim_chars(line);
    let r = t.len() == 3 && t[0] == '-' && t[1] == '-' && t[2] == '-';
    proof {
        if r {
            assert(t@ =~= seq!['-', '-', '-']);
        } else {
            assert(t@ != seq!['-', '-', '-']);
        }
    }
    r
}

/// The frontmatter block of a text: the lines between an opening `---`
/// prefix and the first closing marker line, joined with newlines — or
/// nothing, when the text has no such block.
pub open spec fn frontmatter_block(s: Seq<char>) -> Option<Seq<char>> {
    if !starts_with_dashes(s) {
        None
    } else {
        let ls = lines_spec(s);
        if ls.len() < 3 {
            None
        } else {
            let e = find_marker_from(ls, 1);
            if e == ls.len() {
                None
            } else {
                Some(join_nl(ls.subrange(1, e)))
            }
        }
    }
}

/// LevFS validator: checks file content against size limits and loaded
/// schemas.
pub struct LevFSValidator {
    name: String,
    max_size: usize,
    schemas: Vec<(String, Schema)>,
    schema_dir: String,
}

/// The first schema entry carrying the given name at or after index `i`,
/// or `ss.len()` if none.
pub open spec fn find_schema_from(ss: Seq<(String, Schema)>, name: Seq<char>, i: int) -> int
    decreases ss.len() - i,
{
    if i < 0 || i >= ss.len() {
        ss.len() as int
    } else if ss[i].0@ == name {
        i
    } else {
        find_schema_from(ss, name, i + 1)
    }
}

/// The decision view when a size exceeds the limit.
pub open spec fn exceeds_message(size: nat, max: nat) -> Seq<char> {
    "File size "@ + dec_digits(size) + " exceeds maximum "@ + dec_digits(max)
}

/// The decision view when a size approaches the limit.
pub open spec fn approaching_message(size: nat, max: nat) -> Seq<char> {
    "File size "@ + dec_digits(size) + " approaching maximum "@ + dec_digits(max)
}

/// The message blaming one missing required field.
pub open spec fn missing_field_message(field: Seq<char>) -> Seq<char> {
    "Missing required field: "@ + field
}

/// The message warning that a named schema has not been loaded.
pub open spec fn schema_not_loaded_message(name: Seq<char>) -> Seq<char> {
    "Schema '"@ + name + "' not loaded"@
}

/// What the size check decides: block above the limit, warn above 80% of
/// it (with integer rounding), allow otherwise.
pub open spec fn spec_size_decision(max: nat, size: nat) -> DecisionView {
    if size > max {
        DecisionView::Block(exceeds_message(size, max))
    } else if size > (max * 80) / 100 {
        DecisionView::Warn(approaching_message(size, max))
    } else {
        DecisionView::Allow
    }
}

/// The first required field missing from the mapping at or after index
/// `i`, or `fields.len()` if all are present.
pub open spec fn first_missing_from(
    m: Map<Seq<char>, Option<Seq<char>>>,
    fields: Seq<Seq<char>>,
    i: int,
) -> int
    decreases fields.len() - i,
{
    if i < 0 || i >= fields.len() {
        fields.len() as int
    } else if !m.dom().contains(fields[i]) {
        i
    } else {
        first_missing_from(m, fields, i + 1)
    }
}

/// What the schema check decides: block on the first missing required
/// field, allow when all are present.
pub open spec fn spec_required_check(
    m: Map<Seq<char>, Option<Seq<char>>>,
    fields: Seq<Seq<char>>,
) -> DecisionView {
    let i = first_missing_from(m, fields, 0);
    if i == fields.len() {
        DecisionView::Allow
    } else {
        DecisionView::Block(missing_field_message(fields[i]))
    }
}

/// What validating content decides, or `None` where the frontmatter text
/// is present but fails to parse: no frontmatter or no schema requested
/// allows; a requested but unloaded schema warns; a loaded schema is
/// checked for its required fields.
pub open spec fn spec_content_decision(
    v: LevFSValidator,
    c: Seq<char>,
    schema_name: Option<Seq<char>>,
) -> Option<DecisionView> {
    match frontmatter_block(c) {
        None => Some(DecisionView::Allow),
        Some(b) => match yaml_map_of(b) {
            None => None,
            Some(m) => match schema_name {
                None => Some(DecisionView::Allow),
                Some(n) => match v.spec_schema_for(n) {
                    None => Some(DecisionView::Warn(schema_not_loaded_message(n))),
                    Some(schema) => Some(
                        spec_required_check(m, schema.required_fields.deep_view()),
                    ),
                },
            },
        },
    }
}

/// How two decisions combine: a block wins, a lone warning wins over an
/// allowance, and anything else allows.
pub open spec fn spec_combine(sd: DecisionView, cd: DecisionView) -> DecisionView {
    if sd is Block {
        sd
    } else if cd is Block {
        cd
    } else if sd is Warn && cd is Allow {
        sd
    } else if sd is Allow && cd is Warn {
        cd
    } else {
        DecisionView::Allow
    }
}

impl LevFSValidator {
    /// The schemas view: the schema stored under a name, first entry wins.
    pub closed spec fn spec_schema_for(self, name: Seq<char>) -> Option<Schema> {
        let i = find_schema_from(self.schemas@, name, 0);
        if i == self.schemas@.len() {
            None
        } else {
            Some(self.schemas@[i].1)
        }
    }

    /// The configured maximum content size in bytes.
    pub closed spec fn spec_max_size(self) -> nat {
        self.max_size as nat
    }

    /// The validator's hook name.
    pub closed spec fn spec_name(self) -> Seq<char> {
        self.name@
    }

    /// The configured schema directory.
    pub closed spec fn spec_schema_dir(self) -> Seq<char> {
        self.schema_dir@
    }

    /// Create a validator with the default 10 MiB size limit, no schemas,
    /// and the schema directory under the platform's configuration
    /// directory (or the working directory, where none is defined).
    pub fn new() -> (r: LevFSValidator)
        ensures
            r.spec_name() == "levfs-validator"@,
            r.spec_max_size() == 10485760nat,
            forall|n: Seq<char>| #[trigger] r.spec_schema_for(n) is None,
    {
        let base = match config_dir_string() {
            Some(d) => d,
            None => ".".to_owned(),
        };
        let schema_dir = base.concat("/lev/schemas");
        LevFSValidator {
            name: "levfs-validator".to_owned(),
            max_size: 10 * 1024 * 1024,
            schemas: Vec::new(),
            schema_dir,
        }
    }

    /// Configure the maximum content size.
    pub fn with_max_size(self, max_size: usize) -> (r: LevFSValidator)
        ensures
            r.spec_max_size() == max_size as nat,
            r.spec_name() == self.spec_name(),
            r.spec_schema_dir() == self.spec_schema_dir(),
            forall|n: Seq<char>| #[trigger] r.spec_schema_for(n) == self.spec_schema_for(n),
    {
        LevFSValidator { max_size, ..self }
    }

    /// Configure the schema directory.
    pub fn with_schema_dir(self, dir: String) -> (r: LevFSValidator)
        ensures
            r.spec_schema_dir() == dir@,
            r.spec_max_size() == self.spec_max_size(),
            r.spec_name() == self.spec_name(),
            forall|n: Seq<char>| #[trigger] r.spec_schema_for(n) == self.spec_schema_for(n),
    {
        LevFSValidator { schema_dir: dir, ..self }
    }

    /// The configured schema directory.
    pub fn schema_dir(&self) -> (r: &String)
        ensures
            r@ == self.spec_schema_dir(),
    {
        &self.schema_dir
    }

    /// Register a schema under a name, replacing any schema already stored
    /// under it.
    pub fn add_schema(&mut self, name: String, schema: Schema)
        ensures
            final(self).spec_schema_for(name@) == Some(schema),
            forall|other: Seq<char>|
                other != name@ ==> #[trigger] final(self).spec_schema_for(other) == old(
                    self,
                ).spec_schema_for(other),
            final(self).spec_max_size() == old(self).spec_max_size(),
            final(self).spec_name() == old(self).spec_name(),
            final(self).spec_schema_dir() == old(self).spec_schema_dir(),
    {
        let n = self.schemas.len();
        let mut i: usize = 0;
        while i < n
            invariant
                *self == *old(self),
                n == self.schemas@.len(),
                i <= n,
                forall|t: int| 0 <= t < i ==> (#[trigger] self.schemas@[t]).0@ != name@,
            decreases n - i,
        {
            if self.schemas[i].0 == name {
                self.schemas.set(i, (name, schema));
                proof {
                    assert(forall|t: int|
                        0 <= t < n && t != i ==> #[trigger] self.schemas@[t] == old(
                            self,
                        ).schemas@[t]);
                    lemma_find_schema_at(self.schemas@, name@, 0, i as int);
                    assert forall|other: Seq<char>|
                        other != name@ implies #[trigger] self.spec_schema_for(other) == old(
                        self,
                    ).spec_schema_for(other) by {
                        lemma_lookup_frame(
                            self.schemas@,
                            old(self).schemas@,
                            name@,
                            i as int,
                            other,
                        );
                    }
                }
                return;
            }
            i = i + 1;
        }
        self.schemas.push((name, schema));
        proof {
            assert(forall|t: int|
                0 <= t < n ==> #[trigger] self.schemas@[t] == old(self).schemas@[t]);
            lemma_find_schema_at(self.schemas@, name@, 0, n as int);
            assert forall|other: Seq<char>|
                other != name@ implies #[trigger] self.spec_schema_for(other) == old(
                self,
            ).spec_schema_for(other) by {
                lemma_lookup_frame(self.schemas@, old(self).schemas@, name@, n as int, other);
            }
        }
    }

    /// Look up a schema by name.
    pub fn schema_for(&self, name: &String) -> (r: Option<&Schema>)
        ensures
            match r {
                Some(s) => self.spec_schema_for(name@) == Some(*s),
                None => self.spec_schema_for(name@) is None,
            },
    {
        let n = self.schemas.len();
        let mut i: usize = 0;
        while i < n
            invariant
                n == self.schemas@.len(),
                i <= n,
                forall|t: int| 0 <= t < i ==> (#[trigger] self.schemas@[t]).0@ != name@,
            decreases n - i,
        {
            if self.schemas[i].0 == *name {
                proof {
                    lemma_find_schema_at(self.schemas@, name@, 0, i as int);
                }
                return Some(&self.schemas[i].1);
            }
            i = i + 1;
        }
        proof {
            lemma_find_schema_at(self.schemas@, name@, 0, n as int);
        }
        None
    }

    /// Parse YAML frontmatter from content: the block between the opening
    /// `---` and the first closing marker line, handed to the YAML parser.
    /// Returns the parsed mapping, nothing when the text has no
    /// frontmatter block, or a configuration error when the block is not
    /// well-formed YAML.
    pub fn parse_frontmatter(&self, content: &str) -> (r: Result<Option<Frontmatter>, LevError>)
        ensures
            match r {
                Ok(None) => frontmatter_block(content@) is None,
                Ok(Some(fm)) => {
                    &&& fm.wf()
                    &&& frontmatter_block(content@) matches Some(b) && yaml_map_of(b) == Some(
                        fm.spec_map(),
                    )
                },
                Err(e) => {
                    &&& frontmatter_block(content@) matches Some(b) && yaml_map_of(b) is None
                    &&& e is ConfigError
                },
            },
    {
        let cs = chars_vec(content);
        if !(cs.len() >= 3 && cs[0] == '-' && cs[1] == '-' && cs[2] == '-') {
            return Ok(None);
        }
        let lines = split_lines(&cs);
        if lines.len() < 3 {
            return Ok(None);
        }
        let n = lines.len();
        proof {
            assert(forall|m: int|
                0 <= m < n ==> #[trigger] lines.deep_view()[m] =~= lines@[m]@);
        }
        let mut idx: usize = 1;
        while idx < n && !line_is_marker(&lines[idx])
            invariant
                1 <= idx <= n,
                n == lines@.len(),
                lines.deep_view().len() == n,
                forall|m: int| 0 <= m < n ==> #[trigger] lines.deep_view()[m] == lines@[m]@,
                forall|m: int| 1 <= m < idx ==> !is_marker_line(#[trigger] lines.deep_view()[m]),
            decreases n - idx,
        {
            idx = idx + 1;
        }
        if idx == n {
            proof {
                lemma_find_marker_at(lines.deep_view(), 1, n as int);
            }
            return Ok(None);
        }
        let end_idx = idx;
        proof {
            lemma_find_marker_at(lines.deep_view(), 1, end_idx as int);
        }
        let block_chars = join_lines(&lines, 1, end_idx);
        let block = string_from_chars(&block_chars);
        match parse_yaml_entries(block.as_str()) {
            Ok(entries) => {
                let fm = Frontmatter { data: entries };
                proof {
                    let m = yaml_map_of(block@)->Some_0;
                    lemma_entries_agree_map(fm, m);
                }
                Ok(Some(fm))
            },
            Err(msg) => Err(LevError::ConfigError("Invalid YAML: ".to_owned().concat(msg.as_str()))),
        }
    }

    /// Validate frontmatter against a schema: block on the first missing
    /// required field, allow when every required field is present.
    pub fn validate_against_schema(&self, frontmatter: &Frontmatter, schema: &Schema) -> (r:
        Result<HookDecision, LevError>)
        ensures
            r matches Ok(d) && d@ == spec_required_check(
                frontmatter.spec_map(),
                schema.required_fields.deep_view(),
            ),
    {
        let n = schema.required_fields.len();
        let mut i: usize = 0;
        proof {
            assert(schema.required_fields.deep_view().len() == n);
        }
        while i < n
            invariant
                n == schema.required_fields@.len(),
                schema.required_fields.deep_view().len() == n,
                i <= n,
                forall|t: int|
                    0 <= t < i ==> frontmatter.spec_map().dom().contains(
                        #[trigger] schema.required_fields.deep_view()[t],
                    ),
            decreases n - i,
        {
            let field = &schema.required_fields[i];
            proof {
                assert(schema.required_fields.deep_view()[i as int] == field@);
            }
            if !frontmatter.contains_key(field) {
                proof {
                    lemma_first_missing_at(
                        frontmatter.spec_map(),
                        schema.required_fields.deep_view(),
                        0,
                        i as int,
                    );
                }
                let reason = "Missing required field: ".to_owned().concat(field.as_str());
                return Ok(HookDecision::Block { reason });
            }
            i = i + 1;
        }
        proof {
            lemma_first_missing_at(
                frontmatter.spec_map(),
                schema.required_fields.deep_view(),
                0,
                n as int,
            );
        }
        Ok(HookDecision::Allow)
    }

    /// Check a content size against the configured limit: block above it,
    /// warn above 80% of it, allow otherwise.
    pub fn check_size(&self, size: usize) -> (r: HookDecision)
        ensures
            r@ == spec_size_decision(self.spec_max_size(), size as nat),
    {
        if size > self.max_size {
            let size_str = u64_to_string(size as u64);
            let max_str = u64_to_string(self.max_size as u64);
            let reason = "File size ".to_owned().concat(size_str.as_str()).concat(
                " exceeds maximum ",
            ).concat(max_str.as_str());
            HookDecision::Block { reason }
        } else {
            let threshold = (self.max_size as u128) * 80 / 100;
            if (size as u128) > threshold {
                let size_str = u64_to_string(size as u64);
                let max_str = u64_to_string(self.max_size as u64);
                let message = "File size ".to_owned().concat(size_str.as_str()).concat(
                    " approaching maximum ",
                ).concat(max_str.as_str());
                HookDecision::Warn { message }
            } else {
                HookDecision::Allow
            }
        }
    }

    /// Validate file content: parse the frontmatter and, where a schema
    /// was requested, hold the frontmatter to it; an unloaded schema only
    /// warns; content without frontmatter is allowed.
    pub fn validate_content(&self, content: &str, schema_name: Option<&String>) -> (r: Result<
        HookDecision,
        LevError,
    >)
        ensures
            match r {
                Ok(d) => spec_content_decision(*self, content@, spec_opt_name(schema_name))
                    == Some(d@),
                Err(e) => spec_content_decision(*self, content@, spec_opt_name(schema_name))
                    is None && e is ConfigError,
            },
    {
        let frontmatter = match self.parse_frontmatter(content) {
            Ok(fm) => fm,
            Err(e) => {
                return Err(e);
            },
        };
        if let (Some(name), Some(fm)) = (schema_name, &frontmatter) {
            match self.schema_for(name) {
                Some(schema) => {
                    return self.validate_against_schema(fm, schema);
                },
                None => {
                    let message = "Schema '".to_owned().concat(name.as_str()).concat(
                        "' not loaded",
                    );
                    return Ok(HookDecision::Warn { message });
                },
            }
        }
        Ok(HookDecision::Allow)
    }
}

/// The view of an optional schema name.
pub open spec fn spec_opt_name(n: Option<&String>) -> Option<Seq<char>> {
    match n {
        Some(s) => Some(s@),
        None => None,
    }
}

/// The schema stored under a name, as `spec_schema_for` computes it.
pub open spec fn spec_lookup(ss: Seq<(String, Schema)>, name: Seq<char>) -> Option<Schema> {
    let i = find_schema_from(ss, name, 0);
    if i == ss.len() {
        None
    } else {
        Some(ss[i].1)
    }
}

/// A position that is a first name match — or the end, with none before
/// it — is what `find_schema_from` returns.
proof fn lemma_find_schema_at(ss: Seq<(String, Schema)>, name: Seq<char>, from: int, k: int)
    requires
        0 <= from <= k <= ss.len(),
        forall|m: int| from <= m < k ==> (#[trigger] ss[m]).0@ != name,
        k == ss.len() || ss[k].0@ == name,
    ensures
        find_schema_from(ss, name, from) == k,
    decreases k - from,
{
    if from < k {
        lemma_find_schema_at(ss, name, from + 1, k);
    }
}

/// Replacing or appending under one name leaves every other lookup as it
/// was.
proof fn lemma_lookup_frame(
    now: Seq<(String, Schema)>,
    before: Seq<(String, Schema)>,
    name: Seq<char>,
    at: int,
    other: Seq<char>,
)
    requires
        0 <= at < now.len(),
        now[at].0@ == name,
        before.len() == now.len() || before.len() + 1 == now.len(),
        before.len() == now.len() ==> at < before.len() && before[at].0@ == name,
        forall|t: int| 0 <= t < now.len() && t != at && t < before.len() ==> #[trigger] now[t]
            == before[t],
        before.len() + 1 == now.len() ==> at == before.len(),
        other != name,
    ensures
        spec_lookup(now, other) == spec_lookup(before, other),
{
    let i_now = find_schema_from(now, other, 0);
    let i_before = find_schema_from(before, other, 0);
    lemma_find_schema_props(now, other, 0);
    lemma_find_schema_props(before, other, 0);
    if i_before < before.len() {
        assert(now[i_before].0@ == other);
        lemma_find_schema_at(now, other, 0, i_before);
    } else {
        lemma_find_schema_at(now, other, 0, now.len() as int);
    }
}

/// `find_schema_from` indeed points at the first match at or after `from`.
proof fn lemma_find_schema_props(ss: Seq<(String, Schema)>, name: Seq<char>, from: int)
    requires
        0 <= from <= ss.len(),
    ensures
        from <= find_schema_from(ss, name, from) <= ss.len(),
        find_schema_from(ss, name, from) < ss.len() ==> ss[find_schema_from(ss, name, from)].0@
            == name,
        forall|m: int| from <= m < find_schema_from(ss, name, from) ==> (#[trigger] ss[m]).0@
            != name,
    decreases ss.len() - from,
{
    if from < ss.len() && ss[from].0@ != name {
        lemma_find_schema_props(ss, name, from + 1);
    }
}

/// A position that is a first missing field — or the end, with all fields
/// before it present — is what `first_missing_from` returns.
proof fn lemma_first_missing_at(
    m: Map<Seq<char>, Option<Seq<char>>>,
    fields: Seq<Seq<char>>,
    from: int,
    k: int,
)
    requires
        0 <= from <= k <= fields.len(),
        forall|t: int| from <= t < k ==> m.dom().contains(#[trigger] fields[t]),
        k == fields.len() || !m.dom().contains(fields[k]),
    ensures
        first_missing_from(m, fields, from) == k,
    decreases k - from,
{
    if from < k {
        lemma_first_missing_at(m, fields, from + 1, k);
    }
}

/// Entries that agree with a mapping denote exactly that mapping.
proof fn lemma_entries_agree_map(fm: Frontmatter, m: Map<Seq<char>, Option<Seq<char>>>)
    requires
        entries_agree(fm.data@, m),
    ensures
        fm.wf(),
        fm.spec_map() == m,
{
    let sm = fm.spec_map();
    assert forall|k: Seq<char>| #[trigger] sm.dom().contains(k) implies m.dom().contains(k) by {
        let i = choose|i: int| 0 <= i < fm.data@.len() && (#[trigger] fm.data@[i]).0@ == k;
        assert(m.dom().contains(fm.data@[i].0@));
    }
    assert forall|k: Seq<char>| #[trigger] m.dom().contains(k) implies sm.dom().contains(k) by {
        let i = choose|i: int| 0 <= i < fm.data@.len() && (#[trigger] fm.data@[i]).0@ == k;
        assert(entries_has_key(fm.data@, k));
    }
    assert forall|k: Seq<char>| #[trigger] sm.dom().contains(k) implies sm[k] == m[k] by {
        lemma_first_val_found(fm.data@, k);
        let i = choose|i: int|
            0 <= i < fm.data@.len() && (#[trigger] fm.data@[i]).0@ == k && first_val(fm.data@, k)
                == entry_val_view(fm.data@[i].1);
        assert(m[fm.data@[i].0@] == entry_val_view(fm.data@[i].1));
    }
    assert(sm =~= m);
}

/// The context one hook event carries, as plain values: the event name,
/// the file content, the declared size, and the requested schema name.
#[derive(Debug, Clone)]
pub struct HookContext {
    pub event: String,
    pub content: String,
    pub size: Option<u64>,
    pub schema: Option<String>,
}

impl HookContext {
    /// A context for an event over some content, with no declared size and
    /// no schema requested.
    pub fn new(event: String, content: String) -> (r: HookContext)
        ensures
            r.event == event,
            r.content == content,
            r.size is None,
            r.schema is None,
    {
        HookContext { event, content, size: None, schema: None }
    }
}

/// The content size an event is checked at: the declared size if one was
/// given, the content's byte length otherwise.
pub open spec fn spec_effective_size(ctx: HookContext) -> nat {
    match ctx.size {
        Some(s) => (s as usize) as nat,
        None => (vstd::utf8::encode_utf8(ctx.content@).len() as usize) as nat,
    }
}

impl LevFSValidator {
    /// The validator's hook name.
    pub fn name(&self) -> (r: &str)
        ensures
            r@ == self.spec_name(),
    {
        self.name.as_str()
    }

    /// The validator's hook priority: high, so validation runs early.
    pub fn priority(&self) -> (r: i32)
        ensures
            r == 100,
    {
        100
    }

    /// Execute the hook on one event: check the size first — a size block
    /// is final — then validate the content, and combine the two decisions,
    /// the more severe one winning.
    pub fn execute(&self, context: &HookContext) -> (r: Result<HookDecision, LevError>)
        ensures
            ({
                let sd = spec_size_decision(self.spec_max_size(), spec_effective_size(*context));
                let cd = spec_content_decision(
                    *self,
                    context.content@,
                    spec_opt_ref_name(context.schema),
                );
                match r {
                    Ok(d) => {
                        ||| (sd is Block && d@ == sd)
                        ||| (!(sd is Block) && (cd matches Some(c) && d@ == spec_combine(sd, c)))
                    },
                    Err(e) => !(sd is Block) && cd is None && e is ConfigError,
                }
            }),
    {
        let size: usize = match context.size {
            Some(s) => s as usize,
            None => context.content.as_str().len(),
        };
        proof {
            assert(size as nat == spec_effective_size(*context));
        }
        let size_decision = self.check_size(size);
        if matches!(size_decision, HookDecision::Block { .. }) {
            return Ok(size_decision);
        }
        let content_decision = match self.validate_content(
            context.content.as_str(),
            context.schema.as_ref(),
        ) {
            Ok(d) => d,
            Err(e) => {
                return Err(e);
            },
        };
        match (&size_decision, &content_decision) {
            (HookDecision::Block { .. }, _) => Ok(size_decision),
            (_, HookDecision::Block { .. }) => Ok(content_decision),
            (HookDecision::Warn { .. }, HookDecision::Allow) => Ok(size_decision),
            (HookDecision::Allow, HookDecision::Warn { .. }) => Ok(content_decision),
            _ => Ok(HookDecision::Allow),
        }
    }
}

impl Default for LevFSValidator {
    /// The validator with its default settings.
    fn default() -> (r: LevFSValidator)
        ensures
            r.spec_name() == "levfs-validator"@,
            r.spec_max_size() == 10485760nat,
            forall|n: Seq<char>| #[trigger] r.spec_schema_for(n) is None,
    {
        LevFSValidator::new()
    }
}

/// The view of an optional owned schema name.
pub open spec fn spec_opt_ref_name(n: Option<String>) -> Option<Seq<char>> {
    match n {
        Some(s) => Some(s@),
        None => None,
    }
}

} // verus!

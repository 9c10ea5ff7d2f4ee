use vstd::prelude::*;

verus! {

/// A TOML value as the settings read it. Tables keep their keys in the
/// order the parser hands them over; keys are unique.
pub enum TomlValue {
    Str(String),
    Array(Vec<TomlValue>),
    Table(Vec<(String, TomlValue)>),
    /// An integer, float, boolean or date.
    Other,
}

/// The value under `key` in a table's entries, the first one if repeated.
pub open spec fn lookup(entries: Seq<(String, TomlValue)>, key: Seq<char>) -> Option<TomlValue>
    decreases entries.len(),
{
    if entries.len() == 0 {
        None
    } else if entries[0].0@ == key {
        Some(entries[0].1)
    } else {
        lookup(entries.drop_first(), key)
    }
}

/// The field `key` of a table value, or why there is none.
pub open spec fn field_spec(v: TomlValue, key: Seq<char>) -> Result<TomlValue, Seq<char>> {
    match v {
        TomlValue::Table(t) => match lookup(t@, key) {
            Some(x) => Ok(x),
            None => Err("expect a field named '"@ + key + "'"@),
        },
        _ => Err("expect a table"@),
    }
}

pub open spec fn string_spec(v: TomlValue) -> Result<Seq<char>, Seq<char>> {
    match v {
        TomlValue::Str(s) => Ok(s@),
        _ => Err("expect a string"@),
    }
}

pub open spec fn all_strings(a: Seq<TomlValue>) -> bool {
    forall|i: int| 0 <= i < a.len() ==> (#[trigger] a[i]) is Str
}

pub open spec fn strings_spec(v: TomlValue) -> Result<Seq<Seq<char>>, Seq<char>> {
    match v {
        TomlValue::Array(a) => if all_strings(a@) {
            Ok(a@.map_values(|x: TomlValue| x->Str_0@))
        } else {
            Err("expect an all string array"@)
        },
        _ => Err("expect an array"@),
    }
}

/// Prefixes an error message, leaves a success as it is.
pub open spec fn with_prefix<T>(r: Result<T, Seq<char>>, prefix: Seq<char>) -> Result<T, Seq<char>> {
    match r {
        Ok(x) => Ok(x),
        Err(e) => Err(prefix + e),
    }
}

/// A field of a table, converted by `f`, with errors prefixed.
pub open spec fn read_field<T>(
    v: TomlValue,
    key: Seq<char>,
    prefix: Seq<char>,
    f: spec_fn(TomlValue) -> Result<T, Seq<char>>,
) -> Result<T, Seq<char>> {
    with_prefix(
        match field_spec(v, key) {
            Ok(x) => f(x),
            Err(e) => Err(e),
        },
        prefix,
    )
}

/// Settings of the archive: where it is, and an optional list of entry names
/// to probe instead of enumerating the archive.
#[derive(Debug, PartialEq)]
pub struct StorageConfig {
    pub path: String,
    pub listfile: Option<String>,
}

/// Settings of the extraction: the glob patterns and the output directory.
#[derive(Debug, PartialEq)]
pub struct ExtractConfig {
    pub globs: Vec<String>,
    pub out_dir: String,
}

#[derive(Debug, PartialEq)]
pub struct Config {
    pub storage: StorageConfig,
    pub extract: ExtractConfig,
}

impl View for StorageConfig {
    type V = (Seq<char>, Option<Seq<char>>);

    open spec fn view(&self) -> (Seq<char>, Option<Seq<char>>) {
        (self.path@, match self.listfile {
            Some(l) => Some(l@),
            None => None,
        })
    }
}

impl View for ExtractConfig {
    type V = (Seq<Seq<char>>, Seq<char>);

    open spec fn view(&self) -> (Seq<Seq<char>>, Seq<char>) {
        (self.globs@.map_values(|g: String| g@), self.out_dir@)
    }
}

impl View for Config {
    type V = ((Seq<char>, Option<Seq<char>>), (Seq<Seq<char>>, Seq<char>));

    open spec fn view(&self) -> Self::V {
        (self.storage@, self.extract@)
    }
}

/// The optional `listfile` field of the storage table.
pub open spec fn listfile_spec(v: TomlValue) -> Result<Option<Seq<char>>, Seq<char>> {
    match v {
        TomlValue::Table(t) => match lookup(t@, "listfile"@) {
            Some(x) => match string_spec(x) {
                Ok(s) => Ok(Some(s)),
                Err(e) => Err("[storage].listfile: "@ + e),
            },
            None => Ok(None),
        },
        _ => Ok(None),
    }
}

pub open spec fn storage_spec(v: TomlValue) -> Result<(Seq<char>, Option<Seq<char>>), Seq<char>> {
    match read_field(v, "path"@, "[storage].path: "@, |x: TomlValue| string_spec(x)) {
        Ok(p) => match listfile_spec(v) {
            Ok(l) => Ok((p, l)),
            Err(e) => Err(e),
        },
        Err(e) => Err(e),
    }
}

pub open spec fn extract_spec(v: TomlValue) -> Result<(Seq<Seq<char>>, Seq<char>), Seq<char>> {
    match read_field(v, "globs"@, "[extract].globs: "@, |x: TomlValue| strings_spec(x)) {
        Ok(g) => match read_field(v, "out_dir"@, "[extract].out_dir: "@, |x: TomlValue| string_spec(x)) {
            Ok(o) => Ok((g, o)),
            Err(e) => Err(e),
        },
        Err(e) => Err(e),
    }
}

/// The settings a parsed document describes, or the first problem found.
pub open spec fn config_spec(doc: TomlValue) -> Result<
    ((Seq<char>, Option<Seq<char>>), (Seq<Seq<char>>, Seq<char>)),
    Seq<char>,
> {
    match read_field(doc, "storage"@, "[storage]: "@, |x: TomlValue| storage_spec(x)) {
        Ok(s) => match read_field(doc, "extract"@, "[extract]: "@, |x: TomlValue| extract_spec(x)) {
            Ok(e) => Ok((s, e)),
            Err(e) => Err(e),
        },
        Err(e) => Err(e),
    }
}

pub open spec fn string_result(r: Result<String, String>, s: Result<Seq<char>, Seq<char>>) -> bool {
    match (r, s) {
        (Ok(x), Ok(y)) => x@ == y,
        (Err(e), Err(m)) => e@ == m,
        _ => false,
    }
}

pub open spec fn view_result<T: View>(r: Result<T, String>, s: Result<T::V, Seq<char>>) -> bool {
    match (r, s) {
        (Ok(x), Ok(y)) => x@ == y,
        (Err(e), Err(m)) => e@ == m,
        _ => false,
    }
}

proof fn lemma_lookup_step(t: Seq<(String, TomlValue)>, i: int, key: Seq<char>)
    requires
        0 <= i < t.len(),
    ensures
        lookup(t.subrange(i, t.len() as int), key) == if t[i].0@ == key {
            Some(t[i].1)
        } else {
            lookup(t.subrange(i + 1, t.len() as int), key)
        },
{
    assert(t.subrange(i, t.len() as int).drop_first() =~= t.subrange(i + 1, t.len() as int));
}

/// An error message with `prefix` in front.
fn prefixed(prefix: &str, e: String) -> (r: String)
    ensures
        r@ == prefix@ + e@,
{
    let mut m = String::from_str(prefix);
    m.append(e.as_str());
    m
}

/// The field `key` of a table value.
fn table_field<'a>(value: &'a TomlValue, key: &str) -> (r: Result<&'a TomlValue, String>)
    ensures
        match (r, field_spec(*value, key@)) {
            (Ok(x), Ok(y)) => *x == y,
            (Err(e), Err(m)) => e@ == m,
            _ => false,
        },
{
    match value {
        TomlValue::Table(t) => {
            let k = String::from_str(key);
            let mut i: usize = 0;
            assert(t@.subrange(0, t@.len() as int) =~= t@);
            while i < t.len()
                invariant
                    i <= t.len(),
                    k@ == key@,
                    *value == TomlValue::Table(*t),
                    lookup(t@, key@) == lookup(t@.subrange(i as int, t@.len() as int), key@),
                decreases t.len() - i,
            {
                proof {
                    lemma_lookup_step(t@, i as int, key@);
                }
                if t[i].0 == k {
                    assert(t@[i as int].0@ == key@);
                    return Ok(&t[i].1);
                }
                i = i + 1;
            }
            assert(t@.subrange(i as int, t@.len() as int) =~= Seq::<(String, TomlValue)>::empty());
            let mut m = String::from_str("expect a field named '");
            m.append(key);
            m.append("'");
            Err(m)
        },
        _ => Err(String::from_str("expect a table")),
    }
}

fn string_value(value: &TomlValue) -> (r: Result<String, String>)
    ensures
        string_result(r, string_spec(*value)),
{
    match value {
        TomlValue::Str(s) => Ok(s.clone()),
        _ => Err(String::from_str("expect a string")),
    }
}

fn strings_value(value: &TomlValue) -> (r: Result<Vec<String>, String>)
    ensures
        match (r, strings_spec(*value)) {
            (Ok(x), Ok(y)) => x@.map_values(|g: String| g@) == y,
            (Err(e), Err(m)) => e@ == m,
            _ => false,
        },
{
    match value {
        TomlValue::Array(a) => {
            let mut out: Vec<String> = Vec::new();
            let mut i: usize = 0;
            while i < a.len()
                invariant
                    i <= a.len(),
                    out.len() == i,
                    *value == TomlValue::Array(*a),
                    all_strings(a@.subrange(0, i as int)),
                    forall|j: int| 0 <= j < i ==> (#[trigger] out@[j])@ == a@[j]->Str_0@,
                decreases a.len() - i,
            {
                match &a[i] {
                    TomlValue::Str(s) => {
                        out.push(s.clone());
                    },
                    _ => {
                        assert(!(a@[i as int] is Str));
                        assert(!all_strings(a@));
                        return Err(String::from_str("expect an all string array"));
                    },
                }
                assert(forall|j: int| 0 <= j < i ==> a@.subrange(0, i as int)[j] == #[trigger] a@[j]);
                assert(forall|j: int| 0 <= j <= i ==> a@.subrange(0, i + 1)[j] == #[trigger] a@[j]);
                i = i + 1;
            }
            assert(a@.subrange(0, i as int) =~= a@);
            assert(out@.map_values(|g: String| g@) =~= a@.map_values(|x: TomlValue| x->Str_0@));
            Ok(out)
        },
        _ => Err(String::from_str("expect an array")),
    }
}

impl StorageConfig {
    /// Reads the storage table: `path` is required, `listfile` optional.
    pub fn from_toml_value(value: &TomlValue) -> (r: Result<StorageConfig, String>)
        ensures
            view_result(r, storage_spec(*value)),
    {
        let path = match table_field(value, "path") {
            Ok(x) => match string_value(x) {
                Ok(s) => s,
                Err(e) => {
                    return Err(prefixed("[storage].path: ", e));
                },
            },
            Err(e) => {
                return Err(prefixed("[storage].path: ", e));
            },
        };
        let listfile = match table_field(value, "listfile") {
            Ok(x) => match string_value(x) {
                Ok(s) => Some(s),
                Err(e) => {
                    return Err(prefixed("[storage].listfile: ", e));
                },
            },
            Err(_) => None,
        };
        Ok(StorageConfig { path, listfile })
    }
}

impl ExtractConfig {
    /// Reads the extract table: the array `globs` and the string `out_dir`.
    pub fn from_toml_value(value: &TomlValue) -> (r: Result<ExtractConfig, String>)
        ensures
            view_result(r, extract_spec(*value)),
    {
        let globs = match table_field(value, "globs") {
            Ok(x) => match strings_value(x) {
                Ok(g) => g,
                Err(e) => {
                    return Err(prefixed("[extract].globs: ", e));
                },
            },
            Err(e) => {
                return Err(prefixed("[extract].globs: ", e));
            },
        };
        let out_dir = match table_field(value, "out_dir") {
            Ok(x) => match string_value(x) {
                Ok(s) => s,
                Err(e) => {
                    return Err(prefixed("[extract].out_dir: ", e));
                },
            },
            Err(e) => {
                return Err(prefixed("[extract].out_dir: ", e));
            },
        };
        Ok(ExtractConfig { globs, out_dir })
    }
}

/// What `toml::Parser::parse` makes of a text: the document as a table, or
/// its error descriptions joined and quoted.
pub uninterp spec fn toml_parse(src: Seq<char>) -> Result<TomlValue, Seq<char>>;

#[verifier::external_type_specification]
#[verifier::external_body]
pub struct ExTomlValue(toml::Value);

/// Relies on `toml::Value` being a tree of the variants matched here; copies
/// it into the library's model, one variant for one variant.
#[verifier::external_body]
fn document_of(v: toml::Value) -> TomlValue {
    match v {
        toml::Value::String(s) => TomlValue::Str(s),
        toml::Value::Array(a) => TomlValue::Array(a.into_iter().map(document_of).collect()),
        toml::Value::Table(t) => TomlValue::Table(t.into_iter().map(|(k, x)| (k, document_of(x))).collect()),
        _ => TomlValue::Other,
    }
}

/// Relies on `toml::Parser::parse`: the outcome depends on the text alone,
/// and a document that parses is a table.
#[verifier::external_body]
fn parse_toml(src: &str) -> (r: Result<TomlValue, String>)
    ensures
        match (r, toml_parse(src@)) {
            (Ok(d), Ok(e)) => d == e && d is Table,
            (Err(x), Err(m)) => x@ == m,
            _ => false,
        },
{
    let mut parser = toml::Parser::new(src);
    match parser.parse() {
        Some(table) => Ok(document_of(toml::Value::Table(table))),
        None => Err(format!("{:?}", parser.errors.iter().map(|e| e.desc.as_str()).collect::<String>())),
    }
}

/// The settings a text describes: the parser's error, or what
/// `Config::from_document` finds in the document.
pub open spec fn parse_spec(src: Seq<char>) -> Result<
    ((Seq<char>, Option<Seq<char>>), (Seq<Seq<char>>, Seq<char>)),
    Seq<char>,
> {
    match toml_parse(src) {
        Ok(doc) => config_spec(doc),
        Err(m) => Err(m),
    }
}

impl Config {
    /// Reads the settings from a parsed document: the tables `storage` and
    /// `extract`, in that order; the first problem found is the error.
    pub fn from_document(doc: &TomlValue) -> (r: Result<Config, String>)
        ensures
            view_result(r, config_spec(*doc)),
    {
        let storage = match table_field(doc, "storage") {
            Ok(x) => match StorageConfig::from_toml_value(x) {
                Ok(s) => s,
                Err(e) => {
                    return Err(prefixed("[storage]: ", e));
                },
            },
            Err(e) => {
                return Err(prefixed("[storage]: ", e));
            },
        };
        let extract = match table_field(doc, "extract") {
            Ok(x) => match ExtractConfig::from_toml_value(x) {
                Ok(s) => s,
                Err(e) => {
                    return Err(prefixed("[extract]: ", e));
                },
            },
            Err(e) => {
                return Err(prefixed("[extract]: ", e));
            },
        };
        Ok(Config { storage, extract })
    }

    /// Parses the settings from TOML text.
    pub fn parse(src: &str) -> (r: Result<Config, String>)
        ensures
            view_result(r, parse_spec(src@)),
    {
        match parse_toml(src) {
            Ok(doc) => Config::from_document(&doc),
            Err(e) => Err(e),
        }
    }
}

} // verus!

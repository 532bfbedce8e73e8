//! The snippet mapper: a pure, bidirectional transform between the
//! provider's multi-file record shape and the snippet shape served to the
//! web client.

use vstd::prelude::*;
use vstd::string::StringExecFns;
use crate::json::check_json;
use crate::json::json_ok;

verus! {

/// The unit of content exchanged with the web client. `variables` and
/// `setup` hold the JSON text of the respective values; `id` is present
/// only for snippets the provider has already stored.
#[derive(Debug)]
pub struct Snippet {
    pub id: Option<String>,
    pub messages: String,
    pub variables: String,
    pub setup: String,
}

#[verifier::ext_equal]
pub struct SnippetAbs {
    pub id: Option<Seq<char>>,
    pub messages: Seq<char>,
    pub variables: Seq<char>,
    pub setup: Seq<char>,
}

impl View for Snippet {
    type V = SnippetAbs;

    open spec fn view(&self) -> SnippetAbs {
        SnippetAbs {
            id: self.id.deep_view(),
            messages: self.messages@,
            variables: self.variables@,
            setup: self.setup@,
        }
    }
}

/// One named text entry of a provider record.
#[derive(Debug)]
pub struct FileEntry {
    pub name: String,
    pub content: String,
}

#[verifier::ext_equal]
pub struct FileEntryAbs {
    pub name: Seq<char>,
    pub content: Seq<char>,
}

impl View for FileEntry {
    type V = FileEntryAbs;

    open spec fn view(&self) -> FileEntryAbs {
        FileEntryAbs { name: self.name@, content: self.content@ }
    }
}

impl DeepView for FileEntry {
    type V = FileEntryAbs;

    open spec fn deep_view(&self) -> FileEntryAbs {
        self.view()
    }
}

/// What this system reads of a provider record: its identifier, the
/// record-level metadata it writes, and the named text entries.
#[derive(Debug)]
pub struct ExternalRecord {
    pub id: Option<String>,
    pub description: Option<String>,
    pub public: Option<bool>,
    pub files: Vec<FileEntry>,
}

#[verifier::ext_equal]
pub struct ExternalRecordAbs {
    pub id: Option<Seq<char>>,
    pub description: Option<Seq<char>>,
    pub public: Option<bool>,
    pub files: Seq<FileEntryAbs>,
}

impl View for ExternalRecord {
    type V = ExternalRecordAbs;

    open spec fn view(&self) -> ExternalRecordAbs {
        ExternalRecordAbs {
            id: self.id.deep_view(),
            description: self.description.deep_view(),
            public: self.public,
            files: self.files.deep_view(),
        }
    }
}

/// Why a provider record could not be read back as a snippet: a named
/// entry is absent, or a JSON-bearing entry does not parse.
#[derive(Debug)]
pub enum MapError {
    MissingField(String),
    MalformedContent(String),
}

#[verifier::ext_equal]
pub enum MapErrorAbs {
    MissingField(Seq<char>),
    MalformedContent(Seq<char>),
}

impl View for MapError {
    type V = MapErrorAbs;

    open spec fn view(&self) -> MapErrorAbs {
        match self {
            MapError::MissingField(n) => MapErrorAbs::MissingField(n@),
            MapError::MalformedContent(n) => MapErrorAbs::MalformedContent(n@),
        }
    }
}

/// The entry that holds the message-syntax source verbatim.
pub open spec fn messages_file() -> Seq<char> {
    "playground.ftl"@
}

/// The entry that holds the JSON-serialized variables.
pub open spec fn variables_file() -> Seq<char> {
    "playground.json"@
}

/// The entry that holds the JSON-serialized setup.
pub open spec fn setup_file() -> Seq<char> {
    "setup.json"@
}

/// The fixed description attached to every record this system creates.
pub open spec fn record_description() -> Seq<char> {
    "A Fluent Playground snippet"@
}

/// The content of the first entry named `name`, if any.
pub open spec fn lookup(files: Seq<FileEntryAbs>, name: Seq<char>) -> Option<Seq<char>>
    decreases files.len(),
{
    if files.len() == 0 {
        None
    } else if files[0].name == name {
        Some(files[0].content)
    } else {
        lookup(files.drop_first(), name)
    }
}

/// A snippet whose JSON-bearing fields hold well-formed JSON text.
pub open spec fn snippet_wf(s: SnippetAbs) -> bool {
    json_ok(s.variables) && json_ok(s.setup)
}

/// The record a snippet is stored as: the three named entries, the fixed
/// description, and the public-visibility flag. No identifier yet: the
/// provider assigns one.
pub open spec fn spec_to_external(s: SnippetAbs) -> ExternalRecordAbs {
    ExternalRecordAbs {
        id: None,
        description: Some(record_description()),
        public: Some(true),
        files: seq![
            FileEntryAbs { name: messages_file(), content: s.messages },
            FileEntryAbs { name: variables_file(), content: s.variables },
            FileEntryAbs { name: setup_file(), content: s.setup },
        ],
    }
}

/// How a provider record reads back as a snippet: each named entry is
/// looked up in turn, a missing one fails with `MissingField`, a
/// JSON-bearing one that does not parse fails with `MalformedContent`,
/// and the record's identifier is carried into the snippet.
pub open spec fn spec_from_external(r: ExternalRecordAbs) -> Result<SnippetAbs, MapErrorAbs> {
    if lookup(r.files, messages_file()) is None {
        Err(MapErrorAbs::MissingField(messages_file()))
    } else if lookup(r.files, variables_file()) is None {
        Err(MapErrorAbs::MissingField(variables_file()))
    } else if !json_ok(lookup(r.files, variables_file())->Some_0) {
        Err(MapErrorAbs::MalformedContent(variables_file()))
    } else if lookup(r.files, setup_file()) is None {
        Err(MapErrorAbs::MissingField(setup_file()))
    } else if !json_ok(lookup(r.files, setup_file())->Some_0) {
        Err(MapErrorAbs::MalformedContent(setup_file()))
    } else {
        Ok(SnippetAbs {
            id: r.id,
            messages: lookup(r.files, messages_file())->Some_0,
            variables: lookup(r.files, variables_file())->Some_0,
            setup: lookup(r.files, setup_file())->Some_0,
        })
    }
}

pub open spec fn map_result_view(r: Result<Snippet, MapError>) -> Result<SnippetAbs, MapErrorAbs> {
    match r {
        Ok(s) => Ok(s@),
        Err(e) => Err(e@),
    }
}

proof fn lemma_lookup_skip(files: Seq<FileEntryAbs>, name: Seq<char>, i: int)
    requires
        0 <= i <= files.len(),
        forall|j: int| 0 <= j < i ==> files[j].name != name,
    ensures
        lookup(files, name) == lookup(files.skip(i), name),
    decreases i,
{
    if i > 0 {
        assert(files[0].name != name);
        assert forall|j: int| 0 <= j < i - 1 implies files.drop_first()[j].name != name by {
            assert(files.drop_first()[j] == files[j + 1]);
        }
        lemma_lookup_skip(files.drop_first(), name, i - 1);
        assert(files.drop_first().skip(i - 1) =~= files.skip(i));
    } else {
        assert(files.skip(0) =~= files);
    }
}

/// Finds the first entry named `name`.
fn find_file<'a>(files: &'a Vec<FileEntry>, name: &String) -> (out: Option<&'a String>)
    ensures
        match out {
            Some(c) => lookup(files.deep_view(), name@) == Some(c@),
            None => lookup(files.deep_view(), name@) is None,
        },
{
    let ghost fs = files.deep_view();
    let mut i: usize = 0;
    while i < files.len()
        invariant
            i <= files.len(),
            fs == files.deep_view(),
            fs.len() == files.len(),
            forall|j: int| 0 <= j < i ==> fs[j].name != name@,
        decreases files.len() - i,
    {
        if files[i].name == *name {
            proof {
                lemma_lookup_skip(fs, name@, i as int);
                assert(fs.skip(i as int)[0] == fs[i as int]);
                assert(fs.skip(i as int).len() > 0);
            }
            return Some(&files[i].content);
        }
        i += 1;
    }
    proof {
        lemma_lookup_skip(fs, name@, files.len() as int);
        assert(fs.skip(files.len() as int) =~= Seq::<FileEntryAbs>::empty());
    }
    None
}

/// Maps a snippet out to the record it is stored as: the message source
/// verbatim and the two JSON texts, under their fixed entry names, with
/// the fixed description and the public flag.
pub fn to_external(s: &Snippet) -> (r: ExternalRecord)
    ensures
        r@ == spec_to_external(s@),
{
    let mut files: Vec<FileEntry> = Vec::new();
    files.push(FileEntry { name: String::from_str("playground.ftl"), content: s.messages.clone() });
    files.push(
        FileEntry { name: String::from_str("playground.json"), content: s.variables.clone() },
    );
    files.push(FileEntry { name: String::from_str("setup.json"), content: s.setup.clone() });
    let r = ExternalRecord {
        id: None,
        description: Some(String::from_str("A Fluent Playground snippet")),
        public: Some(true),
        files,
    };
    proof {
        assert(r@.files =~= spec_to_external(s@).files);
        assert(r@ =~= spec_to_external(s@));
    }
    r
}

/// Reads a provider record back as a snippet: looks the three named
/// entries up, fails with `MissingField` for an absent entry and with
/// `MalformedContent` for a JSON-bearing entry that does not parse, and
/// carries the record's identifier over.
pub fn from_external(r: &ExternalRecord) -> (out: Result<Snippet, MapError>)
    ensures
        map_result_view(out) == spec_from_external(r@),
        out matches Ok(s) ==> snippet_wf(s@),
{
    let ftl_key = String::from_str("playground.ftl");
    let messages: String = match find_file(&r.files, &ftl_key) {
        Some(c) => c.clone(),
        None => {
            return Err(MapError::MissingField(ftl_key));
        },
    };
    let vars_key = String::from_str("playground.json");
    let variables: String = match find_file(&r.files, &vars_key) {
        Some(c) => c.clone(),
        None => {
            return Err(MapError::MissingField(vars_key));
        },
    };
    if !check_json(variables.as_str()) {
        return Err(MapError::MalformedContent(vars_key));
    }
    let setup_key = String::from_str("setup.json");
    let setup: String = match find_file(&r.files, &setup_key) {
        Some(c) => c.clone(),
        None => {
            return Err(MapError::MissingField(setup_key));
        },
    };
    if !check_json(setup.as_str()) {
        return Err(MapError::MalformedContent(setup_key));
    }
    let id: Option<String> = match &r.id {
        Some(i) => Some(i.clone()),
        None => None,
    };
    Ok(Snippet { id, messages, variables, setup })
}

/// Round trip: a snippet written out as a record and read back keeps its
/// message source, its variables text, and its setup text exactly; the
/// identifier is the provider's to assign and is outside this law.
pub proof fn lemma_round_trip(s: SnippetAbs)
    ensures
        snippet_wf(s) ==> {
            let out = spec_from_external(spec_to_external(s));
            &&& out is Ok
            &&& out->Ok_0.messages == s.messages
            &&& out->Ok_0.variables == s.variables
            &&& out->Ok_0.setup == s.setup
        },
{
    reveal_strlit("playground.ftl");
    reveal_strlit("playground.json");
    reveal_strlit("setup.json");
    let f = spec_to_external(s).files;
    assert(messages_file().len() == 14);
    assert(variables_file().len() == 15);
    assert(setup_file().len() == 10);
    assert(messages_file() != variables_file());
    assert(messages_file() != setup_file());
    assert(variables_file() != setup_file());
    let f1 = f.drop_first();
    let f2 = f1.drop_first();
    assert(f[0].name == messages_file());
    assert(f1.len() == 2 && f1[0] == f[1]);
    assert(f2.len() == 1 && f2[0] == f[2]);
    assert(lookup(f, messages_file()) == Some(s.messages));
    assert(lookup(f, variables_file()) == lookup(f1, variables_file()));
    assert(lookup(f1, variables_file()) == Some(s.variables));
    assert(lookup(f, setup_file()) == lookup(f1, setup_file()));
    assert(lookup(f1, setup_file()) == lookup(f2, setup_file()));
    assert(lookup(f2, setup_file()) == Some(s.setup));
}

/// A record lacking a named entry fails with `MissingField` naming that
/// entry, for each of the three entries independently: the message entry
/// first, then the variables entry, then the setup entry.
pub proof fn lemma_missing_field(r: ExternalRecordAbs)
    ensures
        lookup(r.files, messages_file()) is None ==> spec_from_external(r) == Err::<
            SnippetAbs,
            MapErrorAbs,
        >(MapErrorAbs::MissingField(messages_file())),
        lookup(r.files, messages_file()) is Some && lookup(r.files, variables_file()) is None
            ==> spec_from_external(r) == Err::<SnippetAbs, MapErrorAbs>(
            MapErrorAbs::MissingField(variables_file()),
        ),
        (lookup(r.files, messages_file()) is Some && (lookup(r.files, variables_file())
            matches Some(v) && json_ok(v)) && lookup(r.files, setup_file()) is None)
            ==> spec_from_external(r) == Err::<SnippetAbs, MapErrorAbs>(
            MapErrorAbs::MissingField(setup_file()),
        ),
{
}

/// A record whose JSON-bearing entry does not parse fails with
/// `MalformedContent` naming that entry, for the variables entry and for
/// the setup entry.
pub proof fn lemma_malformed_content(r: ExternalRecordAbs)
    ensures
        (lookup(r.files, messages_file()) is Some && (lookup(r.files, variables_file())
            matches Some(v) && !json_ok(v))) ==> spec_from_external(r) == Err::<
            SnippetAbs,
            MapErrorAbs,
        >(MapErrorAbs::MalformedContent(variables_file())),
        (lookup(r.files, messages_file()) is Some && (lookup(r.files, variables_file())
            matches Some(v) && json_ok(v)) && (lookup(r.files, setup_file()) matches Some(t)
            && !json_ok(t))) ==> spec_from_external(r) == Err::<SnippetAbs, MapErrorAbs>(
            MapErrorAbs::MalformedContent(setup_file()),
        ),
{
}

} // verus!

//! The project's manifest, `package.json`, and the scripts it declares.

use vstd::prelude::*;
use crate::text::{text_eq, texts};

verus! {

/// The error of `serde_json` when a text is not JSON.
#[verifier::external_type_specification]
#[verifier::external_body]
pub struct ExJsonError(serde_json::Error);

/// What `serde_json` reads from a manifest's text. The outer `None` stands for
/// a text that is not JSON. The inner `None` stands for a document whose
/// `scripts` field is missing or is not an object. Otherwise the fields of that
/// object follow, in the order in which they are written, each with its value
/// if that value is a string.
pub uninterp spec fn manifest_scripts(text: Seq<char>) -> Option<
    Option<Seq<(Seq<char>, Option<Seq<char>>)>>,
>;

/// The fields of a `scripts` object as plain values.
pub open spec fn fields_view(fields: Seq<(String, Option<String>)>) -> Seq<
    (Seq<char>, Option<Seq<char>>),
> {
    fields.map_values(
        |f: (String, Option<String>)|
            (
                f.0@,
                match f.1 {
                    Some(c) => Some(c@),
                    None => None,
                },
            ),
    )
}

/// Parses `text` with `serde_json::from_str` and takes the `scripts` object out
/// of the document with `Value::as_object`, each value with `Value::as_str`.
/// Claimed: the result depends on the text alone.
#[verifier::external_body]
fn read_scripts(text: &str) -> (parsed: Result<
    Option<Vec<(String, Option<String>)>>,
    serde_json::Error,
>)
    ensures
        match parsed {
            Ok(Some(fields)) => manifest_scripts(text@) == Some(Some(fields_view(fields@))),
            Ok(None) => manifest_scripts(text@) == Some(
                None::<Seq<(Seq<char>, Option<Seq<char>>)>>,
            ),
            Err(_) => manifest_scripts(text@) is None,
        },
{
    let document: serde_json::Value = serde_json::from_str(text)?;
    Ok(
        document["scripts"].as_object().map(
            |scripts|
                scripts.iter().map(
                    |(name, value)| (name.clone(), value.as_str().map(|c| c.to_owned())),
                ).collect(),
        ),
    )
}

/// One declared script: its name and the command line it stands for.
#[derive(Clone, Debug, PartialEq, Eq)]
pub struct Script {
    pub name: String,
    pub command: String,
}

/// The scripts of a manifest, in the order of their declaration.
#[derive(Clone, Debug, PartialEq, Eq)]
pub struct ScriptTable {
    pub scripts: Vec<Script>,
}

impl View for ScriptTable {
    type V = Seq<(Seq<char>, Seq<char>)>;

    open spec fn view(&self) -> Seq<(Seq<char>, Seq<char>)> {
        self.scripts@.map_values(|s: Script| (s.name@, s.command@))
    }
}

/// Why a manifest gave no script table.
#[derive(Clone, Copy, Debug, PartialEq, Eq, Structural)]
pub enum ManifestError {
    /// The file could not be read.
    Missing,
    /// The file is not a JSON document.
    Invalid,
}

/// The command of a field of the `scripts` object: its value if that is a
/// string, and the empty command otherwise.
pub open spec fn command_text(value: Option<Seq<char>>) -> Seq<char> {
    match value {
        Some(c) => c,
        None => Seq::empty(),
    }
}

/// The script table that the fields of a `scripts` object stand for. A
/// manifest without such an object declares no scripts.
pub open spec fn table_of(fields: Option<Seq<(Seq<char>, Option<Seq<char>>)>>) -> Seq<
    (Seq<char>, Seq<char>),
> {
    match fields {
        None => Seq::empty(),
        Some(fields) => fields.map_values(
            |f: (Seq<char>, Option<Seq<char>>)| (f.0, command_text(f.1)),
        ),
    }
}

/// The script table of a manifest's text, or `None` where the text is not JSON.
pub open spec fn script_table(text: Seq<char>) -> Option<Seq<(Seq<char>, Seq<char>)>> {
    match manifest_scripts(text) {
        None => None,
        Some(fields) => Some(table_of(fields)),
    }
}

/// What loading a manifest gives, from what reading the file gave.
pub open spec fn loaded(contents: Option<Seq<char>>) -> Result<
    Seq<(Seq<char>, Seq<char>)>,
    ManifestError,
> {
    match contents {
        None => Err(ManifestError::Missing),
        Some(text) => match script_table(text) {
            Some(table) => Ok(table),
            None => Err(ManifestError::Invalid),
        },
    }
}

/// The command that `table` declares for `name`: that of the first script so called.
pub open spec fn command_of(table: Seq<(Seq<char>, Seq<char>)>, name: Seq<char>) -> Option<
    Seq<char>,
>
    decreases table.len(),
{
    if table.len() == 0 {
        None
    } else if table[0].0 == name {
        Some(table[0].1)
    } else {
        command_of(table.drop_first(), name)
    }
}

/// The names that `table` declares, in order.
pub open spec fn names_of(table: Seq<(Seq<char>, Seq<char>)>) -> Seq<Seq<char>> {
    table.map_values(|s: (Seq<char>, Seq<char>)| s.0)
}

/// A name has a command exactly if the table declares it, and the command is
/// that of its first declaration.
pub proof fn lemma_command_of(table: Seq<(Seq<char>, Seq<char>)>, name: Seq<char>)
    ensures
        command_of(table, name) is Some <==> names_of(table).contains(name),
        command_of(table, name) matches Some(command) ==> exists|i: int|
            0 <= i < table.len() && #[trigger] table[i] == (name, command) && forall|j: int|
                0 <= j < i ==> (#[trigger] table[j]).0 != name,
    decreases table.len(),
{
    let names = names_of(table);
    if table.len() > 0 {
        let rest = table.drop_first();
        lemma_command_of(rest, name);
        if table[0].0 == name {
            assert(names[0] == name);
            assert(table[0] == (name, table[0].1));
        } else {
            if command_of(rest, name) is Some {
                let command = command_of(rest, name)->0;
                let k = choose|k: int|
                    0 <= k < rest.len() && #[trigger] rest[k] == (name, command) && forall|j: int|
                        0 <= j < k ==> (#[trigger] rest[j]).0 != name;
                assert(table[k + 1] == (name, command));
                assert forall|j: int| 0 <= j < k + 1 implies (#[trigger] table[j]).0 != name by {
                    if j > 0 {
                        assert(table[j] == rest[j - 1]);
                    }
                }
                assert(names[k + 1] == name);
            }
            if names.contains(name) {
                let i = choose|i: int| 0 <= i < names.len() && names[i] == name;
                assert(names_of(rest)[i - 1] == name);
            }
        }
    }
}

impl ScriptTable {
    /// The script table for the fields of a manifest's `scripts` object, or for
    /// a manifest without one. A field whose value is not a string stands for
    /// the empty command.
    pub fn from_fields(fields: &Option<Vec<(String, Option<String>)>>) -> (table: ScriptTable)
        ensures
            table@ == table_of(
                match *fields {
                    Some(f) => Some(fields_view(f@)),
                    None => None,
                },
            ),
    {
        let mut scripts: Vec<Script> = Vec::new();
        match fields {
            Some(fields) => {
                let mut i: usize = 0;
                while i < fields.len()
                    invariant
                        i <= fields.len(),
                        scripts.len() == i,
                        forall|j: int|
                            0 <= j < i ==> scripts[j].name@ == fields_view(fields@)[j].0
                                && scripts[j].command@ == command_text(fields_view(fields@)[j].1),
                    decreases fields.len() - i,
                {
                    let name = fields[i].0.clone();
                    let command = match &fields[i].1 {
                        Some(c) => c.clone(),
                        None => String::new(),
                    };
                    scripts.push(Script { name, command });
                    i += 1;
                }
                let table = ScriptTable { scripts };
                assert(table@ =~= table_of(Some(fields_view(fields@))));
                table
            },
            None => {
                let table = ScriptTable { scripts };
                assert(table@ =~= Seq::<(Seq<char>, Seq<char>)>::empty());
                table
            },
        }
    }

    /// Loads the script table from what reading the manifest gave: its text, or
    /// nothing if the file could not be read.
    pub fn load(contents: &Option<String>) -> (table: Result<ScriptTable, ManifestError>)
        ensures
            match table {
                Ok(t) => loaded(
                    match *contents {
                        Some(text) => Some(text@),
                        None => None,
                    },
                ) == Ok::<Seq<(Seq<char>, Seq<char>)>, ManifestError>(t@),
                Err(e) => loaded(
                    match *contents {
                        Some(text) => Some(text@),
                        None => None,
                    },
                ) == Err::<Seq<(Seq<char>, Seq<char>)>, ManifestError>(e),
            },
    {
        match contents {
            Some(text) => match read_scripts(text.as_str()) {
                Ok(fields) => Ok(ScriptTable::from_fields(&fields)),
                Err(_) => Err(ManifestError::Invalid),
            },
            None => Err(ManifestError::Missing),
        }
    }

    /// A copy of this table.
    pub fn copy(&self) -> (table: ScriptTable)
        ensures
            table@ == self@,
    {
        let mut scripts: Vec<Script> = Vec::new();
        let mut i: usize = 0;
        while i < self.scripts.len()
            invariant
                i <= self.scripts.len(),
                scripts.len() == i,
                forall|j: int|
                    0 <= j < i ==> scripts[j].name@ == self.scripts[j].name@ && scripts[j].command@
                        == self.scripts[j].command@,
            decreases self.scripts.len() - i,
        {
            scripts.push(
                Script { name: self.scripts[i].name.clone(), command: self.scripts[i].command.clone() },
            );
            i += 1;
        }
        let table = ScriptTable { scripts };
        assert(table@ =~= self@);
        table
    }

    /// Whether no script is declared.
    pub fn is_empty(&self) -> (empty: bool)
        ensures
            empty == (self@.len() == 0),
    {
        self.scripts.len() == 0
    }

    /// The names of the declared scripts, in the order of their declaration.
    pub fn names(&self) -> (names: Vec<String>)
        ensures
            texts(names@) == names_of(self@),
    {
        let mut names: Vec<String> = Vec::new();
        let mut i: usize = 0;
        while i < self.scripts.len()
            invariant
                i <= self.scripts.len(),
                names.len() == i,
                forall|j: int| 0 <= j < i ==> names[j]@ == self.scripts[j].name@,
            decreases self.scripts.len() - i,
        {
            names.push(self.scripts[i].name.clone());
            i += 1;
        }
        assert(texts(names@) =~= names_of(self@));
        names
    }

    /// The command declared for `name`, if the table declares that name.
    pub fn lookup(&self, name: &str) -> (command: Option<String>)
        ensures
            match command {
                Some(c) => command_of(self@, name@) == Some(c@),
                None => command_of(self@, name@) is None,
            },
    {
        let mut i: usize = 0;
        assert(self@.skip(0) =~= self@);
        while i < self.scripts.len()
            invariant
                i <= self.scripts.len(),
                command_of(self@, name@) == command_of(self@.skip(i as int), name@),
            decreases self.scripts.len() - i,
        {
            assert(self@.skip(i as int).drop_first() =~= self@.skip(i + 1));
            if text_eq(self.scripts[i].name.as_str(), name) {
                return Some(self.scripts[i].command.clone());
            }
            i += 1;
        }
        None
    }
}

} // verus!

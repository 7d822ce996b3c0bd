//! The manifest resolver: it parses manifest text, extracts the commands
//! table of the package or workspace scope, and resolves a requested
//! command name to the ordered command set, `pre` and `post` hooks
//! included.

use vstd::prelude::*;

verus! {

use vstd::string::StringExecFns;
use crate::model::{
    all_strings,
    chosen_table,
    lemma_seq_lookup_skip,
    ManifestView,
    scope_commands,
    seq_lookup,
    spec_commands,
    spec_manifest,
    spec_resolved,
    strings_of,
    ResolveOutcome,
    TomlView,
};
use crate::toml_api::{
    doc_of,
    parse_toml,
    table_entries,
    table_get,
    table_model,
    value_as_str,
    value_as_table,
    view_of,
};

/// Why resolving failed: the manifest text is not a valid manifest, no
/// scope holds a commands table, or the requested command has no entry.
#[derive(Debug)]
pub enum CmdError {
    Parse,
    Schema,
    CommandNotFound(String),
}

/// The message a failed resolution surfaces.
pub open spec fn spec_message(e: CmdError) -> Seq<char> {
    match e {
        CmdError::Parse => "Could not find commands in Cargo.toml"@,
        CmdError::Schema => "Could not find commands in Cargo.toml"@,
        CmdError::CommandNotFound(c) => "Command \""@ + c@ + "\" not found in Cargo.toml"@,
    }
}

impl CmdError {
    /// The human-readable message for this error.
    pub fn message(&self) -> (r: String)
        ensures
            r@ == spec_message(*self),
    {
        match self {
            CmdError::Parse => "Could not find commands in Cargo.toml".to_owned(),
            CmdError::Schema => "Could not find commands in Cargo.toml".to_owned(),
            CmdError::CommandNotFound(c) => "Command \"".to_owned().concat(c.as_str()).concat(
                "\" not found in Cargo.toml",
            ),
        }
    }
}

/// A commands table: (name, shell command) pairs with the names unique, in
/// the order the manifest's table hands them out.
#[derive(Debug)]
pub struct CommandTable {
    pub entries: Vec<(String, String)>,
}

impl View for CommandTable {
    type V = Seq<(Seq<char>, Seq<char>)>;

    open spec fn view(&self) -> Seq<(Seq<char>, Seq<char>)> {
        self.entries@.map_values(|p: (String, String)| (p.0@, p.1@))
    }
}

impl CommandTable {
    /// The shell command bound to `name`, if any.
    pub fn get<'a>(&'a self, name: &String) -> (r: Option<&'a String>)
        ensures
            match seq_lookup(self@, name@) {
                Some(v) => r matches Some(s) && s@ == v,
                None => r is None,
            },
    {
        let n = self.entries.len();
        for i in 0..n
            invariant
                n == self.entries.len(),
                forall|j: int| 0 <= j < i ==> self@[j].0 != name@,
        {
            if self.entries[i].0 == *name {
                proof {
                    lemma_seq_lookup_skip(self@, name@, i as int);
                    assert(self@.skip(i as int)[0] == self@[i as int]);
                }
                return Some(&self.entries[i].1);
            }
        }
        proof {
            lemma_seq_lookup_skip(self@, name@, self@.len() as int);
        }
        None
    }

    /// How many commands the table holds.
    pub fn len(&self) -> (r: usize)
        ensures
            r == self@.len(),
    {
        self.entries.len()
    }
}

/// The commands tables a manifest carries: the package scope's, the
/// workspace scope's, or none. At most one is in force, the package scope
/// first.
#[derive(Debug)]
pub enum ManifestCommands {
    Package(CommandTable),
    Workspace(CommandTable),
    Neither,
}

impl View for ManifestCommands {
    type V = ManifestView;

    open spec fn view(&self) -> ManifestView {
        match self {
            ManifestCommands::Package(t) => ManifestView::Package(t@),
            ManifestCommands::Workspace(t) => ManifestView::Workspace(t@),
            ManifestCommands::Neither => ManifestView::Neither,
        }
    }
}

/// Walks one scope of the parsed document down to its commands table:
/// `<scope>.metadata.commands`, if every step of the path is a table.
fn scope_table<'a>(
    top: &'a toml::map::Map<String, toml::Value>,
    scope: &str,
) -> (r: Option<&'a toml::map::Map<String, toml::Value>>)
    ensures
        match scope_commands(table_model(*top), scope@) {
            Some(entries) => r matches Some(t) && table_model(*t) == entries,
            None => r is None,
        },
{
    let scope_val = match table_get(top, scope) {
        Some(v) => v,
        None => return None,
    };
    let scope_tab = match value_as_table(scope_val) {
        Some(t) => t,
        None => return None,
    };
    let meta_val = match table_get(scope_tab, "metadata") {
        Some(v) => v,
        None => return None,
    };
    let meta_tab = match value_as_table(meta_val) {
        Some(t) => t,
        None => return None,
    };
    let cmds_val = match table_get(meta_tab, "commands") {
        Some(v) => v,
        None => return None,
    };
    value_as_table(cmds_val)
}

/// Reads a commands table out as plain strings; a non-string value makes
/// the whole table malformed.
fn strings_table(table: &toml::map::Map<String, toml::Value>) -> (r: Option<CommandTable>)
    ensures
        all_strings(table_model(*table)) ==> (r matches Some(ct) && ct@ == strings_of(
            table_model(*table),
        )),
        !all_strings(table_model(*table)) ==> r is None,
{
    let raw = table_entries(table);
    let mut out: Vec<(String, String)> = Vec::new();
    let ghost es = table_model(*table);
    let n = raw.len();
    for i in 0..n
        invariant
            n == raw@.len(),
            raw@.len() == es.len(),
            es == table_model(*table),
            forall|j: int|
                0 <= j < raw@.len() ==> raw@[j].0@ == es[j].0 && view_of(raw@[j].1) == es[j].1,
            out@.len() == i,
            forall|j: int| 0 <= j < i ==> es[j].1 is Str,
            forall|j: int| 0 <= j < i ==> out@[j].0@ == es[j].0 && out@[j].1@ == es[j].1->Str_0,
    {
        match value_as_str(&raw[i].1) {
            Some(s) => {
                out.push((raw[i].0.clone(), s.to_owned()));
            },
            None => {
                proof {
                    assert(!(es[i as int].1 is Str));
                }
                return None;
            },
        }
    }
    let ct = CommandTable { entries: out };
    proof {
        assert(ct@ =~= strings_of(es));
    }
    Some(ct)
}

/// Parses manifest text and extracts its commands tables: the package
/// scope's table if that scope has one, else the workspace scope's, else
/// neither; text that is not valid TOML, or a commands table with a
/// non-string value, is a parse error.
pub fn parse_manifest(text: &str) -> (r: Result<ManifestCommands, CmdError>)
    ensures
        doc_of(text@) is None ==> (r matches Err(e) && e is Parse),
        doc_of(text@) matches Some(doc) ==> match spec_manifest(doc) {
            None => r matches Err(e) && e is Parse,
            Some(mv) => r matches Ok(m) && m@ == mv,
        },
{
    let top = match parse_toml(text) {
        Ok(t) => t,
        Err(_) => return Err(CmdError::Parse),
    };
    match scope_table(&top, "package") {
        Some(t) => match strings_table(t) {
            Some(ct) => Ok(ManifestCommands::Package(ct)),
            None => Err(CmdError::Parse),
        },
        None => match scope_table(&top, "workspace") {
            Some(t) => match strings_table(t) {
                Some(ct) => Ok(ManifestCommands::Workspace(ct)),
                None => Err(CmdError::Parse),
            },
            None => Ok(ManifestCommands::Neither),
        },
    }
}

impl ManifestCommands {
    /// The commands table in force; a manifest with none in either scope
    /// has no commands at all.
    pub fn commands_table<'a>(&'a self) -> (r: Result<&'a CommandTable, CmdError>)
        ensures
            match chosen_table(self@) {
                Some(t) => r matches Ok(ct) && ct@ == t,
                None => r matches Err(e) && e is Schema,
            },
    {
        match self {
            ManifestCommands::Package(t) => Ok(t),
            ManifestCommands::Workspace(t) => Ok(t),
            ManifestCommands::Neither => Err(CmdError::Schema),
        }
    }
}

/// Parses manifest text down to the commands table in force.
pub fn get_commands_from_str(text: &str) -> (r: Result<CommandTable, CmdError>)
    ensures
        doc_of(text@) is None ==> (r matches Err(e) && e is Parse),
        doc_of(text@) matches Some(doc) ==> match spec_manifest(doc) {
            None => r matches Err(e) && e is Parse,
            Some(mv) => match chosen_table(mv) {
                Some(t) => r matches Ok(ct) && ct@ == t,
                None => r matches Err(e) && e is Schema,
            },
        },
{
    let m = match parse_manifest(text) {
        Ok(m) => m,
        Err(e) => return Err(e),
    };
    match m {
        ManifestCommands::Package(ct) => Ok(ct),
        ManifestCommands::Workspace(ct) => Ok(ct),
        ManifestCommands::Neither => Err(CmdError::Schema),
    }
}

/// The views of a sequence of (name, command) pairs.
pub open spec fn pairs_view(s: Seq<(String, String)>) -> Seq<(Seq<char>, Seq<char>)> {
    s.map_values(|p: (String, String)| (p.0@, p.1@))
}

/// The derived name of a hook: the prefix put before the command name.
fn hook_name(prefix: &str, command: &String) -> (r: String)
    ensures
        r@ == prefix@ + command@,
{
    let mut s = prefix.to_owned();
    s.append(command.as_str());
    s
}

/// Resolves a command name against a commands table: the `pre` hook if
/// bound, the command itself — whose absence is an error, whatever hooks
/// are bound — then the `post` hook if bound, in that order.
pub fn resolve(table: &CommandTable, command: &String) -> (r: Result<
    Vec<(String, String)>,
    CmdError,
>)
    ensures
        match seq_lookup(table@, command@) {
            Some(_) => r matches Ok(v) && pairs_view(v@) == spec_resolved(table@, command@),
            None => r matches Err(e) && (e matches CmdError::CommandNotFound(c) && c@
                == command@),
        },
{
    let pre = hook_name("pre", command);
    let post = hook_name("post", command);
    let mut out: Vec<(String, String)> = Vec::new();
    match table.get(&pre) {
        Some(v) => {
            let hook = v.clone();
            out.push((pre, hook));
        },
        None => {},
    }
    match table.get(command) {
        Some(v) => {
            let main = v.clone();
            out.push((command.clone(), main));
        },
        None => {
            return Err(CmdError::CommandNotFound(command.clone()));
        },
    }
    match table.get(&post) {
        Some(v) => {
            let hook = v.clone();
            out.push((post, hook));
        },
        None => {},
    }
    proof {
        assert(pairs_view(out@) =~= spec_resolved(table@, command@));
    }
    Ok(out)
}

/// Resolves a command name against manifest text: the whole pipeline of
/// the resolver, from text to the ordered command set.
pub fn get_commands(text: &str, command: &String) -> (r: Result<Vec<(String, String)>, CmdError>)
    ensures
        doc_of(text@) is None ==> (r matches Err(e) && e is Parse),
        doc_of(text@) matches Some(doc) ==> match spec_manifest(doc) {
            None => r matches Err(e) && e is Parse,
            Some(mv) => match spec_commands(mv, command@) {
                ResolveOutcome::Resolved(cs) => r matches Ok(v) && pairs_view(v@) == cs,
                ResolveOutcome::NoTable => r matches Err(e) && e is Schema,
                ResolveOutcome::NotFound => r matches Err(e) && (e
                    matches CmdError::CommandNotFound(c) && c@ == command@),
            },
        },
{
    let table = match get_commands_from_str(text) {
        Ok(t) => t,
        Err(e) => return Err(e),
    };
    resolve(&table, command)
}

} // verus!

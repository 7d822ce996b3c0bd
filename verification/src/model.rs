//! The mathematical model of a parsed manifest document.
//!
//! A document is a tree of tables whose leaves the library cares about are
//! strings; everything else is opaque. The model keeps a table as a
//! sequence of (key, value) pairs in the order the underlying map hands
//! them out; keys of a real table are unique, but no proof here leans on
//! that, so lookups take the first match.

use vstd::prelude::*;

verus! {

/// A manifest value as the library models it: a string, a table of named
/// values, or anything else (numbers, arrays, dates, ...), which the
/// library never reads.
pub enum TomlView {
    Str(Seq<char>),
    Table(Seq<(Seq<char>, TomlView)>),
    Other,
}

/// The first value bound to `key` in a sequence of (key, value) pairs.
pub open spec fn seq_lookup<T>(entries: Seq<(Seq<char>, T)>, key: Seq<char>) -> Option<T>
    decreases entries.len(),
{
    if entries.len() == 0 {
        None
    } else if entries[0].0 == key {
        Some(entries[0].1)
    } else {
        seq_lookup(entries.skip(1), key)
    }
}

/// A lookup skips any prefix that does not hold the key.
pub proof fn lemma_seq_lookup_skip<T>(entries: Seq<(Seq<char>, T)>, key: Seq<char>, i: int)
    requires
        0 <= i <= entries.len(),
        forall|j: int| 0 <= j < i ==> entries[j].0 != key,
    ensures
        seq_lookup(entries, key) == seq_lookup(entries.skip(i), key),
    decreases i,
{
    if i > 0 {
        lemma_seq_lookup_skip(entries, key, i - 1);
        let tail = entries.skip(i - 1);
        assert(tail[0] == entries[i - 1]);
        assert(tail.skip(1) =~= entries.skip(i));
    } else {
        assert(entries.skip(0) =~= entries);
    }
}

/// The table bound to `key`, if `key` is bound and bound to a table.
pub open spec fn sub_table(entries: Seq<(Seq<char>, TomlView)>, key: Seq<char>) -> Option<
    Seq<(Seq<char>, TomlView)>,
> {
    match seq_lookup(entries, key) {
        Some(TomlView::Table(inner)) => Some(inner),
        _ => None,
    }
}

/// The commands table of one scope of the document: the table at
/// `<scope>.metadata.commands`, if every step of that path is a table.
pub open spec fn scope_commands(doc: Seq<(Seq<char>, TomlView)>, scope: Seq<char>) -> Option<
    Seq<(Seq<char>, TomlView)>,
> {
    match sub_table(doc, scope) {
        Some(meta_holder) => match sub_table(meta_holder, "metadata"@) {
            Some(meta) => sub_table(meta, "commands"@),
            None => None,
        },
        None => None,
    }
}

/// Whether every value of a commands table is a string.
pub open spec fn all_strings(entries: Seq<(Seq<char>, TomlView)>) -> bool {
    forall|i: int| 0 <= i < entries.len() ==> entries[i].1 is Str
}

/// A commands table of string values, as plain (name, command) pairs.
pub open spec fn strings_of(entries: Seq<(Seq<char>, TomlView)>) -> Seq<(Seq<char>, Seq<char>)> {
    entries.map_values(|p: (Seq<char>, TomlView)| (p.0, p.1->Str_0))
}

/// The commands tables a manifest may carry, with the package scope
/// checked before the workspace scope and exactly one of them in force.
pub enum ManifestView {
    Package(Seq<(Seq<char>, Seq<char>)>),
    Workspace(Seq<(Seq<char>, Seq<char>)>),
    Neither,
}

/// What extracting the commands tables from a parsed document yields:
/// the package scope's table if that scope has one, else the workspace
/// scope's, else neither; a present table with a non-string value is a
/// malformed manifest (`None`).
pub open spec fn spec_manifest(doc: Seq<(Seq<char>, TomlView)>) -> Option<ManifestView> {
    match scope_commands(doc, "package"@) {
        Some(entries) => if all_strings(entries) {
            Some(ManifestView::Package(strings_of(entries)))
        } else {
            None
        },
        None => match scope_commands(doc, "workspace"@) {
            Some(entries) => if all_strings(entries) {
                Some(ManifestView::Workspace(strings_of(entries)))
            } else {
                None
            },
            None => Some(ManifestView::Neither),
        },
    }
}

/// The derived name of the hook that runs before a command.
pub open spec fn pre_name(command: Seq<char>) -> Seq<char> {
    "pre"@ + command
}

/// The derived name of the hook that runs after a command.
pub open spec fn post_name(command: Seq<char>) -> Seq<char> {
    "post"@ + command
}

/// The ordered command set for `command` in a commands table whose main
/// entry is present: the pre hook if bound, the command itself, the post
/// hook if bound.
pub open spec fn spec_resolved(table: Seq<(Seq<char>, Seq<char>)>, command: Seq<char>) -> Seq<
    (Seq<char>, Seq<char>),
> {
    match seq_lookup(table, command) {
        Some(main) => (match seq_lookup(table, pre_name(command)) {
            Some(p) => seq![(pre_name(command), p)],
            None => Seq::empty(),
        }) + seq![(command, main)] + (match seq_lookup(table, post_name(command)) {
            Some(q) => seq![(post_name(command), q)],
            None => Seq::empty(),
        }),
        None => Seq::empty(),
    }
}

/// How resolving a command against a whole manifest ends: with the ordered
/// command set, with no commands table to look in, or with no entry for
/// the requested name.
pub enum ResolveOutcome {
    Resolved(Seq<(Seq<char>, Seq<char>)>),
    NoTable,
    NotFound,
}

/// The table a manifest puts in force, if any.
pub open spec fn chosen_table(mv: ManifestView) -> Option<Seq<(Seq<char>, Seq<char>)>> {
    match mv {
        ManifestView::Package(t) => Some(t),
        ManifestView::Workspace(t) => Some(t),
        ManifestView::Neither => None,
    }
}

/// Resolving a command name against a manifest: no table means no
/// commands, a table without the requested name is an error even when the
/// hooks are bound, and otherwise the ordered command set comes out.
pub open spec fn spec_commands(mv: ManifestView, command: Seq<char>) -> ResolveOutcome {
    match chosen_table(mv) {
        None => ResolveOutcome::NoTable,
        Some(table) => if seq_lookup(table, command) is Some {
            ResolveOutcome::Resolved(spec_resolved(table, command))
        } else {
            ResolveOutcome::NotFound
        },
    }
}

/// Law: a manifest whose package scope binds the requested command, and
/// neither of its derived hooks, resolves to exactly the one requested
/// entry.
pub proof fn lemma_lone_command_resolves_alone(
    table: Seq<(Seq<char>, Seq<char>)>,
    command: Seq<char>,
    value: Seq<char>,
)
    requires
        seq_lookup(table, command) == Some(value),
        seq_lookup(table, pre_name(command)) is None,
        seq_lookup(table, post_name(command)) is None,
    ensures
        spec_commands(ManifestView::Package(table), command) == ResolveOutcome::Resolved(
            seq![(command, value)],
        ),
{
    assert(spec_resolved(table, command) =~= seq![(command, value)]);
}

/// Law: a workspace-scope commands table resolves every command exactly as
/// the same table would in package scope.
pub proof fn lemma_workspace_resolves_like_package(
    table: Seq<(Seq<char>, Seq<char>)>,
    command: Seq<char>,
)
    ensures
        spec_commands(ManifestView::Workspace(table), command) == spec_commands(
            ManifestView::Package(table),
            command,
        ),
{
}

/// Law: when the command and both of its hooks are bound, the command set
/// is the pre hook, the command, then the post hook, in that order.
pub proof fn lemma_hooks_in_order(
    table: Seq<(Seq<char>, Seq<char>)>,
    command: Seq<char>,
    pre_cmd: Seq<char>,
    main_cmd: Seq<char>,
    post_cmd: Seq<char>,
)
    requires
        seq_lookup(table, pre_name(command)) == Some(pre_cmd),
        seq_lookup(table, command) == Some(main_cmd),
        seq_lookup(table, post_name(command)) == Some(post_cmd),
    ensures
        spec_commands(ManifestView::Package(table), command) == ResolveOutcome::Resolved(
            seq![(pre_name(command), pre_cmd), (command, main_cmd), (post_name(command), post_cmd)],
        ),
{
    assert(spec_resolved(table, command) =~= seq![
        (pre_name(command), pre_cmd),
        (command, main_cmd),
        (post_name(command), post_cmd),
    ]);
}

/// Law: a commands table without the requested name never resolves, in
/// either scope, even when hook-named entries are bound.
pub proof fn lemma_absent_command_fails(table: Seq<(Seq<char>, Seq<char>)>, command: Seq<char>)
    requires
        seq_lookup(table, command) is None,
    ensures
        spec_commands(ManifestView::Package(table), command) == ResolveOutcome::NotFound,
        spec_commands(ManifestView::Workspace(table), command) == ResolveOutcome::NotFound,
{
}

/// Law: a manifest with no commands table in either scope yields no
/// commands, whatever name is requested.
pub proof fn lemma_neither_scope_fails(command: Seq<char>)
    ensures
        spec_commands(ManifestView::Neither, command) == ResolveOutcome::NoTable,
{
}

} // verus!

//! The ingestion configuration and the command lines built from it.

use vstd::prelude::*;

use crate::text::{joined, same_text};

verus! {

/// What the user asked to ingest, and from where.
#[derive(Debug, Clone)]
pub struct IngestionConfig {
    pub path: Option<String>,
    pub name: Option<String>,
    pub source: String,
    pub tags: Vec<String>,
    pub license: Option<String>,
    pub download_strategy: Option<String>,
    pub output_dir: Option<String>,
}

/// The characters of an optional text.
pub open spec fn opt_text(o: Option<String>) -> Option<Seq<char>> {
    match o {
        Some(s) => Some(s@),
        None => None,
    }
}

/// The characters of each text of a sequence.
pub open spec fn texts(v: Seq<String>) -> Seq<Seq<char>> {
    v.map_values(|s: String| s@)
}

/// An ingestion configuration as plain characters.
pub struct IngestionConfigView {
    pub path: Option<Seq<char>>,
    pub name: Option<Seq<char>>,
    pub source: Seq<char>,
    pub tags: Seq<Seq<char>>,
    pub license: Option<Seq<char>>,
    pub download_strategy: Option<Seq<char>>,
    pub output_dir: Option<Seq<char>>,
}

impl View for IngestionConfig {
    type V = IngestionConfigView;

    open spec fn view(&self) -> IngestionConfigView {
        IngestionConfigView {
            path: opt_text(self.path),
            name: opt_text(self.name),
            source: self.source@,
            tags: texts(self.tags@),
            license: opt_text(self.license),
            download_strategy: opt_text(self.download_strategy),
            output_dir: opt_text(self.output_dir),
        }
    }
}

/// The kinds of source that the ingestion tool knows.
#[derive(Debug, Clone, Copy, PartialEq, Eq, Structural)]
pub enum SourceKind {
    Filesystem,
    Fab,
    Uas,
}

/// The source kind that a `source` value names, if any.
pub open spec fn source_kind_of(s: Seq<char>) -> Option<SourceKind> {
    if s == "filesystem"@ {
        Some(SourceKind::Filesystem)
    } else if s == "fab"@ {
        Some(SourceKind::Fab)
    } else if s == "uas"@ {
        Some(SourceKind::Uas)
    } else {
        None
    }
}

/// A field that a source kind cannot do without.
#[derive(Debug, Clone, Copy, PartialEq, Eq, Structural)]
pub enum RequiredField {
    Path,
    Name,
}

/// Why no command could be built from a configuration.
#[derive(Debug, Clone)]
pub enum BuildError {
    MissingField(RequiredField),
    UnknownSource(String),
}

/// A build error as plain characters.
pub enum BuildErrorView {
    MissingField(RequiredField),
    UnknownSource(Seq<char>),
}

impl View for BuildError {
    type V = BuildErrorView;

    open spec fn view(&self) -> BuildErrorView {
        match self {
            BuildError::MissingField(f) => BuildErrorView::MissingField(*f),
            BuildError::UnknownSource(s) => BuildErrorView::UnknownSource(s@),
        }
    }
}

impl BuildError {
    /// The message shown to the user for this error.
    pub fn message(&self) -> (r: String)
        ensures
            r@ == build_error_message(self@),
    {
        match self {
            BuildError::MissingField(RequiredField::Path) => {
                "Path is required for filesystem source".to_string()
            },
            BuildError::MissingField(RequiredField::Name) => {
                "Name is required for filesystem source".to_string()
            },
            BuildError::UnknownSource(s) => joined("Unknown source type: ", s.as_str()),
        }
    }
}

/// The message of a build error.
pub open spec fn build_error_message(e: BuildErrorView) -> Seq<char> {
    match e {
        BuildErrorView::MissingField(RequiredField::Path) => "Path is required for filesystem source"@,
        BuildErrorView::MissingField(RequiredField::Name) => "Name is required for filesystem source"@,
        BuildErrorView::UnknownSource(s) => "Unknown source type: "@ + s,
    }
}

impl SourceKind {
    /// Reads the `source` value of a configuration.
    pub fn parse(s: &str) -> (r: Result<SourceKind, BuildError>)
        ensures
            match source_kind_of(s@) {
                Some(k) => r == Ok::<SourceKind, BuildError>(k),
                None => r is Err && r->Err_0@ == BuildErrorView::UnknownSource(s@),
            },
    {
        if same_text(s, "filesystem") {
            Ok(SourceKind::Filesystem)
        } else if same_text(s, "fab") {
            Ok(SourceKind::Fab)
        } else if same_text(s, "uas") {
            Ok(SourceKind::Uas)
        } else {
            Err(BuildError::UnknownSource(s.to_string()))
        }
    }
}

/// Whether a source can be used: a filesystem source always can, a
/// marketplace source only where the ingestion project is present, and an
/// unknown source never.
pub fn source_available(source: &str, project_present: bool) -> (r: bool)
    ensures
        r == match source_kind_of(source@) {
            Some(SourceKind::Filesystem) => true,
            Some(_) => project_present,
            None => false,
        },
{
    match SourceKind::parse(source) {
        Ok(SourceKind::Filesystem) => true,
        Ok(_) => project_present,
        Err(_) => false,
    }
}

/// One invocation of the ingestion tool: its arguments, in order, and the
/// directory it runs in.
#[derive(Debug, Clone)]
pub struct CommandSpec {
    pub args: Vec<String>,
    pub working_dir: String,
}

/// A command as plain characters.
pub struct CommandSpecView {
    pub args: Seq<Seq<char>>,
    pub working_dir: Seq<char>,
}

impl View for CommandSpec {
    type V = CommandSpecView;

    open spec fn view(&self) -> CommandSpecView {
        CommandSpecView { args: texts(self.args@), working_dir: self.working_dir@ }
    }
}

/// A flag followed by its value, or nothing where there is no value.
pub open spec fn flag_pair(flag: Seq<char>, value: Option<Seq<char>>) -> Seq<Seq<char>> {
    match value {
        Some(v) => seq![flag, v],
        None => Seq::empty(),
    }
}

/// The `--tags` flag followed by every tag in order, or nothing without tags.
pub open spec fn tag_args(tags: Seq<Seq<char>>) -> Seq<Seq<char>> {
    if tags.len() == 0 {
        Seq::empty()
    } else {
        seq!["--tags"@] + tags
    }
}

/// The `--license` flag and its value, where a non-empty license is given.
pub open spec fn license_args(license: Option<Seq<char>>) -> Seq<Seq<char>> {
    match license {
        Some(l) => if l.len() > 0 {
            seq!["--license"@, l]
        } else {
            Seq::empty()
        },
        None => Seq::empty(),
    }
}

/// The arguments of a direct ingestion of a local directory.
pub open spec fn filesystem_args(
    path: Seq<char>,
    name: Seq<char>,
    tags: Seq<Seq<char>>,
    license: Option<Seq<char>>,
) -> Seq<Seq<char>> {
    seq![
        "run"@,
        "ingest"@,
        "--path"@,
        path,
        "--name"@,
        name,
        "--source"@,
        "filesystem"@,
    ] + tag_args(tags) + license_args(license)
}

/// The arguments of the helper module that ingests from a marketplace.
pub open spec fn marketplace_args(
    source: Seq<char>,
    download_strategy: Option<Seq<char>>,
    output_dir: Option<Seq<char>>,
) -> Seq<Seq<char>> {
    seq!["run"@, "python"@, "-m"@, "game_asset_tracker_ingestion.gui_helper"@, source]
        + flag_pair("--download-strategy"@, download_strategy) + flag_pair(
        "--output-dir"@,
        output_dir,
    )
}

/// The arguments of the dependency sync that a marketplace source needs.
pub open spec fn sync_args(source: Seq<char>) -> Seq<Seq<char>> {
    seq!["sync"@, "--extra"@, source]
}

/// The main command for a configuration, or why there is none.
pub open spec fn build_spec(c: IngestionConfigView, working_dir: Seq<char>) -> Result<
    CommandSpecView,
    BuildErrorView,
> {
    match source_kind_of(c.source) {
        None => Err(BuildErrorView::UnknownSource(c.source)),
        Some(SourceKind::Filesystem) => match (c.path, c.name) {
            (None, _) => Err(BuildErrorView::MissingField(RequiredField::Path)),
            (Some(_), None) => Err(BuildErrorView::MissingField(RequiredField::Name)),
            (Some(p), Some(n)) => Ok(
                CommandSpecView {
                    args: filesystem_args(p, n, c.tags, c.license),
                    working_dir,
                },
            ),
        },
        Some(_) => Ok(
            CommandSpecView {
                args: marketplace_args(c.source, c.download_strategy, c.output_dir),
                working_dir,
            },
        ),
    }
}

/// The view of a build outcome.
pub open spec fn built_view(r: Result<CommandSpec, BuildError>) -> Result<
    CommandSpecView,
    BuildErrorView,
> {
    match r {
        Ok(c) => Ok(c@),
        Err(e) => Err(e@),
    }
}

/// Appends a copy of `s` to the arguments.
fn push_arg(args: &mut Vec<String>, s: &str)
    ensures
        texts(final(args)@) == texts(old(args)@).push(s@),
{
    args.push(s.to_string());
    assert(texts(final(args)@) =~= texts(old(args)@).push(s@));
}

/// Appends `flag` and a copy of `value`, where there is a value.
fn push_flag_pair(args: &mut Vec<String>, flag: &str, value: &Option<String>)
    ensures
        texts(final(args)@) == texts(old(args)@) + flag_pair(flag@, opt_text(*value)),
{
    match value {
        Some(v) => {
            push_arg(args, flag);
            push_arg(args, v.as_str());
            assert(texts(final(args)@) =~= texts(old(args)@) + flag_pair(flag@, opt_text(*value)));
        },
        None => {
            assert(texts(final(args)@) =~= texts(old(args)@) + flag_pair(flag@, opt_text(*value)));
        },
    }
}

/// Appends the `--tags` flag and every tag in order, where there are tags.
fn push_tags(args: &mut Vec<String>, tags: &Vec<String>)
    ensures
        texts(final(args)@) == texts(old(args)@) + tag_args(texts(tags@)),
{
    if tags.len() == 0 {
        assert(texts(final(args)@) =~= texts(old(args)@) + tag_args(texts(tags@)));
        return;
    }
    push_arg(args, "--tags");
    let ghost start = texts(args@);
    let mut i: usize = 0;
    while i < tags.len()
        invariant
            i <= tags@.len(),
            texts(args@) == start + texts(tags@).subrange(0, i as int),
        decreases tags@.len() - i,
    {
        push_arg(args, tags[i].as_str());
        assert(texts(tags@).subrange(0, i + 1) =~= texts(tags@).subrange(0, i as int).push(
            tags@[i as int]@,
        ));
        i = i + 1;
    }
    assert(texts(tags@).subrange(0, i as int) =~= texts(tags@));
    assert(texts(final(args)@) =~= texts(old(args)@) + tag_args(texts(tags@)));
}

/// Builds the main command for a configuration. A filesystem source needs a
/// path and a name; a marketplace source needs nothing more; any other source
/// is refused.
pub fn build_command(config: &IngestionConfig, working_dir: &str) -> (r: Result<
    CommandSpec,
    BuildError,
>)
    ensures
        built_view(r) == build_spec(config@, working_dir@),
{
    let kind = match SourceKind::parse(config.source.as_str()) {
        Ok(k) => k,
        Err(e) => {
            return Err(e);
        },
    };
    let mut args: Vec<String> = Vec::new();
    match kind {
        SourceKind::Filesystem => {
            let path = match &config.path {
                Some(p) => p,
                None => {
                    return Err(BuildError::MissingField(RequiredField::Path));
                },
            };
            let name = match &config.name {
                Some(n) => n,
                None => {
                    return Err(BuildError::MissingField(RequiredField::Name));
                },
            };
            push_arg(&mut args, "run");
            push_arg(&mut args, "ingest");
            push_arg(&mut args, "--path");
            push_arg(&mut args, path.as_str());
            push_arg(&mut args, "--name");
            push_arg(&mut args, name.as_str());
            push_arg(&mut args, "--source");
            push_arg(&mut args, "filesystem");
            assert(texts(args@) =~= seq![
                "run"@,
                "ingest"@,
                "--path"@,
                path@,
                "--name"@,
                name@,
                "--source"@,
                "filesystem"@,
            ]);
            push_tags(&mut args, &config.tags);
            let ghost before = texts(args@);
            match &config.license {
                Some(l) => {
                    if l.as_str().unicode_len() > 0 {
                        push_arg(&mut args, "--license");
                        push_arg(&mut args, l.as_str());
                    }
                },
                None => {},
            }
            assert(texts(args@) =~= before + license_args(config@.license));
            assert(texts(args@) =~= filesystem_args(
                path@,
                name@,
                config@.tags,
                config@.license,
            ));
        },
        _ => {
            push_arg(&mut args, "run");
            push_arg(&mut args, "python");
            push_arg(&mut args, "-m");
            push_arg(&mut args, "game_asset_tracker_ingestion.gui_helper");
            push_arg(&mut args, config.source.as_str());
            let ghost head = texts(args@);
            assert(head =~= seq![
                "run"@,
                "python"@,
                "-m"@,
                "game_asset_tracker_ingestion.gui_helper"@,
                config.source@,
            ]);
            push_flag_pair(&mut args, "--download-strategy", &config.download_strategy);
            push_flag_pair(&mut args, "--output-dir", &config.output_dir);
            assert(texts(args@) =~= marketplace_args(
                config@.source,
                config@.download_strategy,
                config@.output_dir,
            ));
        },
    }
    Ok(CommandSpec { args, working_dir: working_dir.to_string() })
}

/// Builds the dependency sync that runs before a marketplace ingestion.
pub fn build_sync_command(source: &str, working_dir: &str) -> (r: CommandSpec)
    ensures
        r@ == (CommandSpecView { args: sync_args(source@), working_dir: working_dir@ }),
{
    let mut args: Vec<String> = Vec::new();
    push_arg(&mut args, "sync");
    push_arg(&mut args, "--extra");
    push_arg(&mut args, source);
    assert(texts(args@) =~= sync_args(source@));
    CommandSpec { args, working_dir: working_dir.to_string() }
}

/// The commands of one ingestion: a dependency sync for marketplace sources,
/// then the main command.
#[derive(Debug, Clone)]
pub struct Invocation {
    pub sync: Option<CommandSpec>,
    pub main: CommandSpec,
}

/// Plans one ingestion: the main command as `build_command` gives it, preceded
/// by a dependency sync exactly when the source is a marketplace.
pub fn plan_invocation(config: &IngestionConfig, working_dir: &str) -> (r: Result<
    Invocation,
    BuildError,
>)
    ensures
        match r {
            Ok(inv) => {
                &&& build_spec(config@, working_dir@) == Ok::<CommandSpecView, BuildErrorView>(
                    inv.main@,
                )
                &&& match source_kind_of(config@.source) {
                    Some(SourceKind::Filesystem) => inv.sync is None,
                    _ => inv.sync is Some && inv.sync->Some_0@ == (CommandSpecView {
                        args: sync_args(config@.source),
                        working_dir: working_dir@,
                    }),
                }
            },
            Err(e) => build_spec(config@, working_dir@) == Err::<CommandSpecView, BuildErrorView>(
                e@,
            ),
        },
{
    let main = match build_command(config, working_dir) {
        Ok(m) => m,
        Err(e) => {
            return Err(e);
        },
    };
    let marketplace = !same_text(config.source.as_str(), "filesystem");
    let sync = if marketplace {
        Some(build_sync_command(config.source.as_str(), working_dir))
    } else {
        None
    };
    Ok(Invocation { sync, main })
}

/// A filesystem configuration without a path or without a name is refused
/// with a missing-field error, and no command is built from it.
pub proof fn lemma_missing_field_refused(c: IngestionConfigView, working_dir: Seq<char>)
    requires
        source_kind_of(c.source) == Some(SourceKind::Filesystem),
        c.path is None || c.name is None,
    ensures
        build_spec(c, working_dir) is Err,
        build_spec(c, working_dir)->Err_0 is MissingField,
{
}

/// A configuration whose source names no known kind is refused with an
/// unknown-source error that carries the offending value.
pub proof fn lemma_unknown_source_refused(c: IngestionConfigView, working_dir: Seq<char>)
    requires
        source_kind_of(c.source) is None,
    ensures
        build_spec(c, working_dir) == Err::<CommandSpecView, BuildErrorView>(
            BuildErrorView::UnknownSource(c.source),
        ),
{
}

/// Building twice from the same configuration and directory gives the same
/// arguments and working directory, or the same error.
pub proof fn lemma_build_repeatable(
    config: IngestionConfig,
    working_dir: &str,
    first: Result<CommandSpec, BuildError>,
    second: Result<CommandSpec, BuildError>,
)
    requires
        built_view(first) == build_spec(config@, working_dir@),
        built_view(second) == build_spec(config@, working_dir@),
    ensures
        built_view(first) == built_view(second),
        first is Ok ==> second is Ok && first->Ok_0@.args == second->Ok_0@.args
            && first->Ok_0@.working_dir == second->Ok_0@.working_dir,
{
}

/// The tags of a filesystem ingestion follow `--tags` right after the fixed
/// arguments, in the order given and with none dropped.
pub proof fn lemma_tags_in_order(c: IngestionConfigView, working_dir: Seq<char>)
    requires
        source_kind_of(c.source) == Some(SourceKind::Filesystem),
        c.path is Some,
        c.name is Some,
        c.tags.len() > 0,
    ensures
        build_spec(c, working_dir) is Ok,
        build_spec(c, working_dir)->Ok_0.args.len() >= 9 + c.tags.len(),
        build_spec(c, working_dir)->Ok_0.args.subrange(8, 9 + c.tags.len() as int) == seq!["--tags"@]
            + c.tags,
{
    let args = build_spec(c, working_dir)->Ok_0.args;
    let head = seq![
        "run"@,
        "ingest"@,
        "--path"@,
        c.path->Some_0,
        "--name"@,
        c.name->Some_0,
        "--source"@,
        "filesystem"@,
    ];
    assert(args == head + (seq!["--tags"@] + c.tags) + license_args(c.license));
    assert(args.subrange(8, 9 + c.tags.len() as int) =~= seq!["--tags"@] + c.tags);
}

} // verus!

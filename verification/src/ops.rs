//! The operations exposed through the command line: `cargo uwp new <path>`.
//!
//! Creating a package alternates work on the file system with decisions, so the
//! decisions stand here as a state machine: [`NewOperation::step`] takes the outcome of
//! the previous action and names the next one. The caller performs the actions.
//! Paths and command line arguments are operating-system strings, held as their code
//! units; a path is a sequence of components starting at the package root.

use vstd::prelude::*;
use crate::cargo::{new_command, new_command_args};
use crate::data::{
    APPX_MANIFEST_TEMPLATE_FILENAME, ASSETS_DIR, BINDINGS_CRATE_PATH, BUILD_DIR,
    BUILD_MAIN_RS_FILENAME, BUILD_RS_FILENAME, BUILD_SHARED_RS_FILENAME, CARGO_CONFIG_DIR,
    CARGO_CONFIG_TOML_FILENAME, CARGO_TOML_FILENAME, FILE_MAPPINGS_TEMPLATE_FILENAME,
    LIB_RS_FILENAME, MAIN_RS_FILENAME, PACKAGE_IDENTITY_NAME_PLACEHOLDER,
    PACKAGE_IDENTITY_PUBLISHER_PLACEHOLDER, package_metadata_init, package_metadata_init_text,
    PACKAGE_PUBLISHER_DISPLAY_NAME_PLACEHOLDER, PACKAGE_VISUAL_DESCRIPTION_PLACEHOLDER,
    PACKAGE_VISUAL_DISPLAY_NAME_PLACEHOLDER, RUST_TOOLCHAIN_TOML_FILENAME,
    SPLASH_SCREEN_PNG_FILENAME, SQUARE_150_LOGO_PNG_FILENAME, SQUARE_44_LOGO_PNG_FILENAME,
    SRC_DIR, STORE_LOGO_PNG_FILENAME, TEMPLATES_DIR, WINDOWS_RS_VERSION,
    WINDOWS_RS_VERSION_PLACEHOLDER,
};
use crate::manifest::{
    manifest_can_be_updated, toml_parse, try_add_windows_dependencies,
    windows_dependencies_added, ManifestError,
};
use crate::os::{copy_units, os_string, os_units, units_view};
use crate::data::{lemma_package_metadata_layout, metadata_placeholders, package_metadata_pieces};
use crate::text::{
    join, lemma_join_lacks_char, lemma_join_split, lemma_replaced_pieces, occurs_at, occurs_in, piece_fits, replace_all,
    replace_piece, replaced,
};
use vstd::utf8::encode_utf8;

verus! {

/// A file to write: the directory it lies in and its own path; whether the directory
/// (with its parents) is created first when it does not exist; and the bytes to write.
pub struct FileWrite {
    pub dir: Vec<Vec<u16>>,
    pub file: Vec<Vec<u16>>,
    pub create_dir: bool,
    pub contents: Vec<u8>,
}

/// The view of a [`FileWrite`].
pub struct FileWriteView {
    pub dir: Seq<Seq<u16>>,
    pub file: Seq<Seq<u16>>,
    pub create_dir: bool,
    pub contents: Seq<u8>,
}

impl View for FileWrite {
    type V = FileWriteView;

    open spec fn view(&self) -> FileWriteView {
        FileWriteView {
            dir: units_view(self.dir@),
            file: units_view(self.file@),
            create_dir: self.create_dir,
            contents: self.contents@,
        }
    }
}

/// The code units of each of a sequence of names.
pub open spec fn names_units(names: Seq<&str>) -> Seq<Seq<u16>> {
    names.map_values(|s: &str| os_units(s@))
}

/// The write that copies `contents` into `dest_name` inside `base_dir` joined with the
/// sub directories, creating the directory first if it does not exist.
pub open spec fn copied_file(base_dir: Seq<u16>, sub_dir: Seq<Seq<u16>>, dest_name: Seq<u16>, contents: Seq<u8>) -> FileWriteView {
    FileWriteView {
        dir: seq![base_dir] + sub_dir,
        file: (seq![base_dir] + sub_dir).push(dest_name),
        create_dir: true,
        contents: contents,
    }
}

/// Copies file contents into a destination file. The destination is made from
/// `base_dir` by appending all `sub_dir` parts, if any; the directory is created when it
/// (or a parent) does not exist.
pub fn copy_file(base_dir: &Vec<u16>, sub_dir: &[&str], dest_name: &str, contents: Vec<u8>) -> (w: FileWrite)
    ensures
        w@ == copied_file(base_dir@, names_units(sub_dir@), os_units(dest_name@), contents@),
{
    let mut dir: Vec<Vec<u16>> = Vec::new();
    dir.push(copy_units(base_dir));
    let mut i: usize = 0;
    while i < sub_dir.len()
        invariant
            i <= sub_dir@.len(),
            units_view(dir@) == seq![base_dir@] + names_units(sub_dir@).take(i as int),
        decreases sub_dir@.len() - i,
    {
        let ghost before = dir@;
        dir.push(os_string(sub_dir[i]));
        assert(names_units(sub_dir@).take(i + 1) =~= names_units(sub_dir@).take(i as int).push(os_units(sub_dir@[i as int]@)));
        assert(units_view(dir@) =~= units_view(before).push(os_units(sub_dir@[i as int]@)));
        i = i + 1;
    }
    assert(names_units(sub_dir@).take(sub_dir@.len() as int) =~= names_units(sub_dir@));
    let mut file: Vec<Vec<u16>> = Vec::new();
    let mut j: usize = 0;
    while j < dir.len()
        invariant
            j <= dir@.len(),
            units_view(file@) == units_view(dir@).take(j as int),
        decreases dir@.len() - j,
    {
        let ghost before = file@;
        file.push(copy_units(&dir[j]));
        assert(units_view(dir@).take(j + 1) =~= units_view(dir@).take(j as int).push(dir@[j as int]@));
        assert(units_view(file@) =~= units_view(before).push(dir@[j as int]@));
        j = j + 1;
    }
    assert(units_view(dir@).take(dir@.len() as int) =~= units_view(dir@));
    let ghost dir_units = file@;
    file.push(os_string(dest_name));
    assert(units_view(file@) =~= units_view(dir_units).push(os_units(dest_name@)));
    FileWrite { dir, file, create_dir: true, contents }
}

/// `v` followed by `s`.
fn append_bytes(v: &mut Vec<u8>, s: &[u8])
    ensures
        final(v)@ == old(v)@ + s@,
{
    let mut i: usize = 0;
    while i < s.len()
        invariant
            i <= s@.len(),
            v@ == old(v)@ + s@.take(i as int),
        decreases s@.len() - i,
    {
        v.push(s[i]);
        assert(s@.take(i + 1) =~= s@.take(i as int).push(s@[i as int]));
        i = i + 1;
    }
    assert(s@.take(s@.len() as int) =~= s@);
}

/// A key of the package metadata with its default value.
pub struct MetadataEntry {
    pub key: String,
    pub value: String,
}

/// The default entries that replace the placeholders of the package metadata.
pub struct MetadataDefaults {
    pub identity_name: MetadataEntry,
    pub identity_publisher: MetadataEntry,
    pub publisher_display_name: MetadataEntry,
    pub visual_display_name: MetadataEntry,
    pub visual_description: MetadataEntry,
}

/// The line `<key> = "<value>"`.
pub open spec fn entry_line(e: MetadataEntry) -> Seq<char> {
    e.key@ + " = \""@ + e.value@ + "\""@
}

/// The package metadata with each placeholder replaced by its default entry's line.
pub open spec fn filled_metadata(d: MetadataDefaults) -> Seq<char> {
    replaced(
        replaced(
            replaced(
                replaced(
                    replaced(package_metadata_init(), PACKAGE_IDENTITY_NAME_PLACEHOLDER@, entry_line(d.identity_name)),
                    PACKAGE_IDENTITY_PUBLISHER_PLACEHOLDER@,
                    entry_line(d.identity_publisher),
                ),
                PACKAGE_PUBLISHER_DISPLAY_NAME_PLACEHOLDER@,
                entry_line(d.publisher_display_name),
            ),
            PACKAGE_VISUAL_DISPLAY_NAME_PLACEHOLDER@,
            entry_line(d.visual_display_name),
        ),
        PACKAGE_VISUAL_DESCRIPTION_PLACEHOLDER@,
        entry_line(d.visual_description),
    )
}

/// The line `<key> = "<value>"` of an entry.
fn line_of(e: &MetadataEntry) -> (r: String)
    ensures
        r@ == entry_line(*e),
{
    let mut r = String::from_str(e.key.as_str());
    r.append(" = \"");
    r.append(e.value.as_str());
    r.append("\"");
    r
}

/// The package metadata with every placeholder replaced by its default entry.
pub fn fill_metadata(d: &MetadataDefaults) -> (r: String)
    ensures
        r@ == filled_metadata(*d),
{
    let template = package_metadata_init_text();
    let s = replace_all(template.as_str(), PACKAGE_IDENTITY_NAME_PLACEHOLDER, line_of(&d.identity_name).as_str());
    let s = replace_all(s.as_str(), PACKAGE_IDENTITY_PUBLISHER_PLACEHOLDER, line_of(&d.identity_publisher).as_str());
    let s = replace_all(s.as_str(), PACKAGE_PUBLISHER_DISPLAY_NAME_PLACEHOLDER, line_of(&d.publisher_display_name).as_str());
    let s = replace_all(s.as_str(), PACKAGE_VISUAL_DISPLAY_NAME_PLACEHOLDER, line_of(&d.visual_display_name).as_str());
    replace_all(s.as_str(), PACKAGE_VISUAL_DESCRIPTION_PLACEHOLDER, line_of(&d.visual_description).as_str())
}

/// The contents of the files the package is made from, and the defaults of its
/// metadata.
pub struct Templates {
    /// *rust-toolchain.toml*: the nightly toolchain with the Rust sources.
    pub rust_toolchain_toml: Vec<u8>,
    /// *.cargo/config.toml*: how the standard library is built for the target.
    pub cargo_config_toml: Vec<u8>,
    /// *Assets/StoreLogo.png*.
    pub store_logo_png: Vec<u8>,
    /// *Assets/SplashScreen.scale-200.png*.
    pub splash_screen_png: Vec<u8>,
    /// *Assets/Square44x44Logo.scale-200.png*.
    pub square_44_logo_png: Vec<u8>,
    /// *Assets/Square150x150Logo.scale-200.png*.
    pub square_150_logo_png: Vec<u8>,
    /// *templates/AppxManifest.xml*.
    pub appx_manifest_template: Vec<u8>,
    /// *templates/FileMapping.ini*.
    pub file_mappings_template: Vec<u8>,
    /// *.build/main.rs*: the build script.
    pub build_rs: Vec<u8>,
    /// *.build/shared.rs*: what the build script shares with this tool.
    pub build_shared_rs: Vec<u8>,
    /// *src/main.rs*: the starter application.
    pub src_main_rs: Vec<u8>,
    /// The bindings crate's manifest, with the *windows-rs* version as a placeholder.
    pub bindings_cargo_toml: String,
    /// The bindings crate's build script.
    pub bindings_build_rs: Vec<u8>,
    /// The bindings crate's library root.
    pub bindings_src_lib_rs: Vec<u8>,
    /// The defaults that replace the package metadata's placeholders.
    pub metadata: MetadataDefaults,
}

/// The bindings crate's manifest: its template with the *windows-rs* version in place
/// of the placeholder.
pub open spec fn bindings_manifest(template: Seq<char>) -> Seq<char> {
    replaced(template, WINDOWS_RS_VERSION_PLACEHOLDER@, WINDOWS_RS_VERSION@)
}

/// How many files [`package_files`] lists.
pub open spec fn package_file_count() -> nat {
    13
}

/// The files written after the metadata, in order: the cargo configuration, the
/// assets, the build system's templates and scripts, the starter application, and the
/// bindings crate.
pub open spec fn package_files(root: Seq<u16>, t: Templates) -> Seq<FileWriteView> {
    seq![
        copied_file(root, seq![os_units(".cargo"@)], os_units("config.toml"@), t.cargo_config_toml@),
        copied_file(root, seq![os_units("Assets"@)], os_units("StoreLogo.png"@), t.store_logo_png@),
        copied_file(root, seq![os_units("Assets"@)], os_units("SplashScreen.scale-200.png"@), t.splash_screen_png@),
        copied_file(root, seq![os_units("Assets"@)], os_units("Square44x44Logo.scale-200.png"@), t.square_44_logo_png@),
        copied_file(root, seq![os_units("Assets"@)], os_units("Square150x150Logo.scale-200.png"@), t.square_150_logo_png@),
        copied_file(root, seq![os_units("templates"@)], os_units("AppxManifest.xml"@), t.appx_manifest_template@),
        copied_file(root, seq![os_units("templates"@)], os_units("FileMapping.ini"@), t.file_mappings_template@),
        copied_file(root, seq![os_units(".build"@)], os_units("main.rs"@), t.build_rs@),
        copied_file(root, seq![os_units(".build"@)], os_units("shared.rs"@), t.build_shared_rs@),
        copied_file(root, seq![os_units("src"@)], os_units("main.rs"@), t.src_main_rs@),
        copied_file(root, seq![os_units("bindings"@)], os_units("Cargo.toml"@), encode_utf8(bindings_manifest(t.bindings_cargo_toml@))),
        copied_file(root, seq![os_units("bindings"@)], os_units("build.rs"@), t.bindings_build_rs@),
        copied_file(root, seq![os_units("bindings"@), os_units("src"@)], os_units("lib.rs"@), t.bindings_src_lib_rs@),
    ]
}

/// Why an action failed: a message, and what caused it where that is known.
pub struct Failure {
    pub message: String,
    pub cause: Option<String>,
}

/// The view of a [`Failure`].
pub struct FailureView {
    pub message: Seq<char>,
    pub cause: Option<Seq<char>>,
}

impl View for Failure {
    type V = FailureView;

    open spec fn view(&self) -> FailureView {
        FailureView {
            message: self.message@,
            cause: match self.cause {
                Some(c) => Some(c@),
                None => None,
            },
        }
    }
}

/// What to do next.
pub enum Action {
    /// Run `cargo` with these arguments, relaying its output.
    RunCargo(Vec<Vec<u16>>),
    /// Read the bytes of the file at this path.
    Read(Vec<Vec<u16>>),
    /// Read the file at this path as UTF-8 text.
    ReadText(Vec<Vec<u16>>),
    /// Write a file.
    Write(FileWrite),
    /// The operation is over, with this outcome.
    Finish(Result<(), Failure>),
    /// The manifest has no `[dependencies]` table: the operation gives up on a missing
    /// value, as an `Option::unwrap()` on `None` does.
    MissingDependenciesTable,
}

/// The view of an [`Action`].
pub enum ActionView {
    RunCargo(Seq<Seq<u16>>),
    Read(Seq<Seq<u16>>),
    ReadText(Seq<Seq<u16>>),
    Write(FileWriteView),
    Finish(Result<(), FailureView>),
    MissingDependenciesTable,
}

impl View for Action {
    type V = ActionView;

    open spec fn view(&self) -> ActionView {
        match self {
            Action::RunCargo(args) => ActionView::RunCargo(units_view(args@)),
            Action::Read(path) => ActionView::Read(units_view(path@)),
            Action::ReadText(path) => ActionView::ReadText(units_view(path@)),
            Action::Write(w) => ActionView::Write(w@),
            Action::Finish(Ok(())) => ActionView::Finish(Ok(())),
            Action::Finish(Err(f)) => ActionView::Finish(Err(f@)),
            Action::MissingDependenciesTable => ActionView::MissingDependenciesTable,
        }
    }
}

/// What came of the previous action.
pub enum Event {
    /// Nothing has been done yet.
    Begin,
    /// The previous action succeeded.
    Completed,
    /// The file was read; these are its bytes.
    Read(Vec<u8>),
    /// The file was read; this is its text.
    ReadText(String),
    /// The previous action failed.
    Failed(Failure),
}

/// The view of an [`Event`].
pub enum EventView {
    Begin,
    Completed,
    Read(Seq<u8>),
    ReadText(Seq<char>),
    Failed(FailureView),
}

impl View for Event {
    type V = EventView;

    open spec fn view(&self) -> EventView {
        match self {
            Event::Begin => EventView::Begin,
            Event::Completed => EventView::Completed,
            Event::Read(b) => EventView::Read(b@),
            Event::ReadText(t) => EventView::ReadText(t@),
            Event::Failed(f) => EventView::Failed(f@),
        }
    }
}

/// Where an operation stands: which action's outcome it waits for.
#[derive(PartialEq, Eq, Structural, Clone, Copy, Debug)]
pub enum Stage {
    Start,
    CreatingPackage,
    WritingToolchain,
    ReadingManifest,
    AppendingMetadata,
    /// Writing the file of [`package_files`] with this index.
    WritingFile(usize),
    ReadingManifestText,
    WritingManifest,
    Finished,
}

/// The view of a [`NewOperation`].
pub struct OperationView {
    pub root: Seq<u16>,
    pub templates: Templates,
    pub stage: Stage,
}

/// The path of the package's manifest.
pub open spec fn manifest_path(root: Seq<u16>) -> Seq<Seq<u16>> {
    seq![root, os_units("Cargo.toml"@)]
}

/// Writing `contents` to the package's manifest, which exists.
pub open spec fn manifest_write(root: Seq<u16>, contents: Seq<u8>) -> FileWriteView {
    FileWriteView { dir: seq![root], file: manifest_path(root), create_dir: false, contents }
}

/// The stage is one an operation can be at.
pub open spec fn valid_stage(stage: Stage) -> bool {
    stage matches Stage::WritingFile(i) ==> i < package_file_count()
}

/// The event an operation at `stage` expects when the previous action succeeded.
pub open spec fn success_event(stage: Stage, e: EventView) -> bool {
    match stage {
        Stage::Start => e is Begin,
        Stage::ReadingManifest => e is Read,
        Stage::ReadingManifestText => e is ReadText,
        Stage::Finished => false,
        _ => e is Completed,
    }
}

/// An operation at `stage` can take the event `e`: it is not finished, and `e` is the
/// success it waits for or a failure.
pub open spec fn accepts(stage: Stage, e: EventView) -> bool {
    &&& valid_stage(stage)
    &&& stage != Stage::Finished
    &&& success_event(stage, e) || (e is Failed && stage != Stage::Start)
}

/// The stage after `stage` when its action succeeded.
pub open spec fn next_stage(stage: Stage) -> Stage {
    match stage {
        Stage::Start => Stage::CreatingPackage,
        Stage::CreatingPackage => Stage::WritingToolchain,
        Stage::WritingToolchain => Stage::ReadingManifest,
        Stage::ReadingManifest => Stage::AppendingMetadata,
        Stage::AppendingMetadata => Stage::WritingFile(0),
        Stage::WritingFile(i) => if i + 1 < package_file_count() {
            Stage::WritingFile((i + 1) as usize)
        } else {
            Stage::ReadingManifestText
        },
        Stage::ReadingManifestText => Stage::WritingManifest,
        Stage::WritingManifest => Stage::Finished,
        Stage::Finished => Stage::Finished,
    }
}

/// The action an operation takes after a success at `stage` that does not depend on
/// the manifest's TOML: every stage but the one that reads the manifest as text.
pub open spec fn action_after(root: Seq<u16>, t: Templates, stage: Stage, e: EventView) -> ActionView {
    match stage {
        Stage::Start => ActionView::RunCargo(new_command_args(seq![root])),
        Stage::CreatingPackage => ActionView::Write(
            copied_file(root, seq![], os_units("rust-toolchain.toml"@), t.rust_toolchain_toml@),
        ),
        Stage::WritingToolchain => ActionView::Read(manifest_path(root)),
        Stage::ReadingManifest => ActionView::Write(
            manifest_write(root, e->Read_0 + encode_utf8(filled_metadata(t.metadata))),
        ),
        Stage::AppendingMetadata => ActionView::Write(package_files(root, t)[0]),
        Stage::WritingFile(i) => if i + 1 < package_file_count() {
            ActionView::Write(package_files(root, t)[i + 1])
        } else {
            ActionView::ReadText(manifest_path(root))
        },
        _ => ActionView::Finish(Ok(())),
    }
}

/// How the operation answers the manifest's text: it gives up when the manifest is a
/// TOML document without a `[dependencies]` table, finishes with an error when it is no
/// TOML document, and otherwise writes back the manifest with the *bindings* and
/// *windows* dependencies set.
pub open spec fn manifest_text_step(root: Seq<u16>, text: Seq<char>, next: Stage, a: ActionView) -> bool {
    if !manifest_can_be_updated(text) {
        next == Stage::Finished && a is MissingDependenciesTable
    } else if toml_parse(text) is Err {
        &&& next == Stage::Finished
        &&& a matches ActionView::Finish(Err(f))
        &&& toml_parse(text) matches Err(m)
        &&& f.message == m
        &&& f.cause is None
    } else {
        &&& next == Stage::WritingManifest
        &&& exists|out: String| {
            &&& #[trigger] windows_dependencies_added(text, Ok(out))
            &&& a == ActionView::Write(manifest_write(root, encode_utf8(out@)))
        }
    }
}

/// One step of creating a package: from `pre`, taking event `e`, the operation moves to
/// `post` and asks for action `a`. A failure finishes the operation with it; each
/// success leads to the next step of the fixed sequence.
pub open spec fn step_spec(pre: OperationView, e: EventView, post: OperationView, a: ActionView) -> bool {
    &&& post.root == pre.root
    &&& post.templates == pre.templates
    &&& if e is Failed {
        post.stage == Stage::Finished && a == ActionView::Finish(Err(e->Failed_0))
    } else if pre.stage == Stage::ReadingManifestText {
        manifest_text_step(pre.root, e->ReadText_0, post.stage, a)
    } else {
        post.stage == next_stage(pre.stage) && a == action_after(pre.root, pre.templates, pre.stage, e)
    }
}

/// Creating a new UWP cargo package at a path.
pub struct New {
    /// Where the package is created, as an operating-system string.
    pub path: Vec<u16>,
}

/// An operation creating a package, at some stage of it.
pub struct NewOperation {
    root: Vec<u16>,
    templates: Templates,
    stage: Stage,
}

impl View for NewOperation {
    type V = OperationView;

    closed spec fn view(&self) -> OperationView {
        OperationView { root: self.root@, templates: self.templates, stage: self.stage }
    }
}

impl New {
    /// Starts creating the package at the path given.
    pub fn operation(&self, templates: Templates) -> (op: NewOperation)
        ensures
            op@.root == self.path@,
            op@.templates == templates,
            op@.stage == Stage::Start,
    {
        NewOperation { root: copy_units(&self.path), templates, stage: Stage::Start }
    }
}

impl NewOperation {
    /// The stage the operation is at.
    pub fn stage(&self) -> (s: Stage)
        ensures
            s == self@.stage,
    {
        self.stage
    }

    /// Whether the operation can take `event`: it is not finished, and the event is the
    /// success it waits for or a failure.
    pub fn accepts(&self, event: &Event) -> (b: bool)
        ensures
            b == accepts(self@.stage, event@),
    {
        match self.stage {
            Stage::Finished => false,
            Stage::Start => matches!(event, Event::Begin),
            Stage::ReadingManifest => matches!(event, Event::Read(_) | Event::Failed(_)),
            Stage::ReadingManifestText => matches!(event, Event::ReadText(_) | Event::Failed(_)),
            Stage::WritingFile(i) => i < 13 && matches!(event, Event::Completed | Event::Failed(_)),
            _ => matches!(event, Event::Completed | Event::Failed(_)),
        }
    }

    /// Takes the outcome of the previous action and names the next one.
    pub fn step(&mut self, event: Event) -> (a: Action)
        requires
            accepts(old(self)@.stage, event@),
        ensures
            step_spec(old(self)@, event@, final(self)@, a@),
    {
        if let Event::Failed(failure) = event {
            self.stage = Stage::Finished;
            return Action::Finish(Err(failure));
        }
        match self.stage {
            Stage::Start => {
                let mut args: Vec<Vec<u16>> = Vec::new();
                args.push(copy_units(&self.root));
                assert(units_view(args@) =~= seq![self.root@]);
                self.stage = Stage::CreatingPackage;
                Action::RunCargo(new_command(args))
            },
            Stage::CreatingPackage => {
                self.stage = Stage::WritingToolchain;
                let empty: [&str; 0] = [];
                let w = copy_file(&self.root, &empty, RUST_TOOLCHAIN_TOML_FILENAME, self.templates.rust_toolchain_toml.clone());
                assert(names_units(empty@) =~= Seq::<Seq<u16>>::empty());
                Action::Write(w)
            },
            Stage::WritingToolchain => {
                self.stage = Stage::ReadingManifest;
                Action::Read(self.manifest_path())
            },
            Stage::ReadingManifest => {
                let mut contents = match event {
                    Event::Read(b) => b,
                    _ => Vec::new(),
                };
                let metadata = fill_metadata(&self.templates.metadata);
                append_bytes(&mut contents, metadata.as_str().as_bytes());
                self.stage = Stage::AppendingMetadata;
                Action::Write(self.manifest_write(contents))
            },
            Stage::AppendingMetadata => {
                self.stage = Stage::WritingFile(0);
                Action::Write(self.package_file(0))
            },
            Stage::WritingFile(i) => {
                if i + 1 < 13 {
                    self.stage = Stage::WritingFile(i + 1);
                    Action::Write(self.package_file(i + 1))
                } else {
                    self.stage = Stage::ReadingManifestText;
                    Action::ReadText(self.manifest_path())
                }
            },
            Stage::ReadingManifestText => {
                let text = match event {
                    Event::ReadText(t) => t,
                    _ => String::new(),
                };
                match try_add_windows_dependencies(text.as_str()) {
                    None => {
                        self.stage = Stage::Finished;
                        Action::MissingDependenciesTable
                    },
                    Some(Err(ManifestError::InvalidToml(message))) => {
                        self.stage = Stage::Finished;
                        Action::Finish(Err(Failure { message, cause: None }))
                    },
                    Some(Ok(out)) => {
                        self.stage = Stage::WritingManifest;
                        let a = Action::Write(self.manifest_write(out.as_str().as_bytes_vec()));
                        assert(a@ == ActionView::Write(manifest_write(self.root@, encode_utf8(out@))));
                        a
                    },
                }
            },
            _ => {
                self.stage = Stage::Finished;
                Action::Finish(Ok(()))
            },
        }
    }

    /// The file of [`package_files`] with index `i`.
    fn package_file(&self, i: usize) -> (w: FileWrite)
        requires
            i < package_file_count(),
        ensures
            w@ == package_files(self.root@, self.templates)[i as int],
    {
        let t = &self.templates;
        let root = &self.root;
        let cargo: [&str; 1] = [CARGO_CONFIG_DIR];
        let assets: [&str; 1] = [ASSETS_DIR];
        let templates: [&str; 1] = [TEMPLATES_DIR];
        let build: [&str; 1] = [BUILD_DIR];
        let src: [&str; 1] = [SRC_DIR];
        let bindings: [&str; 1] = [BINDINGS_CRATE_PATH];
        let bindings_src: [&str; 2] = [BINDINGS_CRATE_PATH, SRC_DIR];
        assert(names_units(cargo@) =~= seq![os_units(".cargo"@)]);
        assert(names_units(assets@) =~= seq![os_units("Assets"@)]);
        assert(names_units(templates@) =~= seq![os_units("templates"@)]);
        assert(names_units(build@) =~= seq![os_units(".build"@)]);
        assert(names_units(src@) =~= seq![os_units("src"@)]);
        assert(names_units(bindings@) =~= seq![os_units("bindings"@)]);
        assert(names_units(bindings_src@) =~= seq![os_units("bindings"@), os_units("src"@)]);
        if i == 0 {
            copy_file(root, &cargo, CARGO_CONFIG_TOML_FILENAME, t.cargo_config_toml.clone())
        } else if i == 1 {
            copy_file(root, &assets, STORE_LOGO_PNG_FILENAME, t.store_logo_png.clone())
        } else if i == 2 {
            copy_file(root, &assets, SPLASH_SCREEN_PNG_FILENAME, t.splash_screen_png.clone())
        } else if i == 3 {
            copy_file(root, &assets, SQUARE_44_LOGO_PNG_FILENAME, t.square_44_logo_png.clone())
        } else if i == 4 {
            copy_file(root, &assets, SQUARE_150_LOGO_PNG_FILENAME, t.square_150_logo_png.clone())
        } else if i == 5 {
            copy_file(root, &templates, APPX_MANIFEST_TEMPLATE_FILENAME, t.appx_manifest_template.clone())
        } else if i == 6 {
            copy_file(root, &templates, FILE_MAPPINGS_TEMPLATE_FILENAME, t.file_mappings_template.clone())
        } else if i == 7 {
            copy_file(root, &build, BUILD_MAIN_RS_FILENAME, t.build_rs.clone())
        } else if i == 8 {
            copy_file(root, &build, BUILD_SHARED_RS_FILENAME, t.build_shared_rs.clone())
        } else if i == 9 {
            copy_file(root, &src, MAIN_RS_FILENAME, t.src_main_rs.clone())
        } else if i == 10 {
            let content = replace_all(t.bindings_cargo_toml.as_str(), WINDOWS_RS_VERSION_PLACEHOLDER, WINDOWS_RS_VERSION);
            copy_file(root, &bindings, CARGO_TOML_FILENAME, content.as_str().as_bytes_vec())
        } else if i == 11 {
            copy_file(root, &bindings, BUILD_RS_FILENAME, t.bindings_build_rs.clone())
        } else {
            copy_file(root, &bindings_src, LIB_RS_FILENAME, t.bindings_src_lib_rs.clone())
        }
    }

    /// The path of the package's manifest.
    fn manifest_path(&self) -> (p: Vec<Vec<u16>>)
        ensures
            units_view(p@) == manifest_path(self.root@),
    {
        let mut p: Vec<Vec<u16>> = Vec::new();
        p.push(copy_units(&self.root));
        p.push(os_string(CARGO_TOML_FILENAME));
        assert(units_view(p@) =~= manifest_path(self.root@));
        p
    }

    /// Writing `contents` to the package's manifest.
    fn manifest_write(&self, contents: Vec<u8>) -> (w: FileWrite)
        ensures
            w@ == manifest_write(self.root@, contents@),
    {
        let mut dir: Vec<Vec<u16>> = Vec::new();
        dir.push(copy_units(&self.root));
        assert(units_view(dir@) =~= seq![self.root@]);
        FileWrite { dir, file: self.manifest_path(), create_dir: false, contents }
    }
}


/// The events of a package creation in which every action up to reading the manifest
/// as text succeeds, `manifest` being the bytes read from *Cargo.toml*.
pub open spec fn creation_events(manifest: Seq<u8>) -> Seq<EventView> {
    seq![EventView::Begin, EventView::Completed, EventView::Completed, EventView::Read(manifest)]
        + Seq::new(package_file_count() + 1, |i: int| EventView::Completed)
}

/// The actions of such a creation: run `cargo new` on the package root, write the
/// toolchain file, read the manifest, write it back with the filled-in metadata
/// appended, write every file of [`package_files`] in order, and read the manifest
/// again as text.
pub open spec fn creation_actions(root: Seq<u16>, t: Templates, manifest: Seq<u8>) -> Seq<ActionView> {
    seq![
        ActionView::RunCargo(seq![os_units("new"@), os_units("--color"@), os_units("always"@), root]),
        ActionView::Write(copied_file(root, seq![], os_units("rust-toolchain.toml"@), t.rust_toolchain_toml@)),
        ActionView::Read(manifest_path(root)),
        ActionView::Write(manifest_write(root, manifest + encode_utf8(filled_metadata(t.metadata)))),
    ] + package_files(root, t).map_values(|w: FileWriteView| ActionView::Write(w))
        + seq![ActionView::ReadText(manifest_path(root))]
}

/// When every action succeeds, a package creation performs exactly the actions of
/// [`creation_actions`], in that order, and then waits for the manifest's text.
pub proof fn lemma_successful_creation_actions(states: Seq<OperationView>, actions: Seq<ActionView>, manifest: Seq<u8>)
    requires
        states.len() == 19,
        actions.len() == 18,
        states[0].stage == Stage::Start,
        forall|i: int| 0 <= i < 18 ==> step_spec(#[trigger] states[i], creation_events(manifest)[i], states[i + 1], actions[i]),
    ensures
        actions == creation_actions(states[0].root, states[0].templates, manifest),
        states[18].stage == Stage::ReadingManifestText,
        states[18].root == states[0].root,
        states[18].templates == states[0].templates,
{
    let root = states[0].root;
    let t = states[0].templates;
    let events = creation_events(manifest);
    let expected = creation_actions(root, t, manifest);
    assert(step_spec(states[0], events[0], states[1], actions[0]));
    assert(step_spec(states[1], events[1], states[2], actions[1]));
    assert(step_spec(states[2], events[2], states[3], actions[2]));
    assert(step_spec(states[3], events[3], states[4], actions[3]));
    assert(step_spec(states[4], events[4], states[5], actions[4]));
    assert(step_spec(states[5], events[5], states[6], actions[5]));
    assert(step_spec(states[6], events[6], states[7], actions[6]));
    assert(step_spec(states[7], events[7], states[8], actions[7]));
    assert(step_spec(states[8], events[8], states[9], actions[8]));
    assert(step_spec(states[9], events[9], states[10], actions[9]));
    assert(step_spec(states[10], events[10], states[11], actions[10]));
    assert(step_spec(states[11], events[11], states[12], actions[11]));
    assert(step_spec(states[12], events[12], states[13], actions[12]));
    assert(step_spec(states[13], events[13], states[14], actions[13]));
    assert(step_spec(states[14], events[14], states[15], actions[14]));
    assert(step_spec(states[15], events[15], states[16], actions[15]));
    assert(step_spec(states[16], events[16], states[17], actions[16]));
    assert(step_spec(states[17], events[17], states[18], actions[17]));
    assert(new_command_args(seq![root]) =~= expected[0]->RunCargo_0);
    let files = package_files(root, t);
    let writes = files.map_values(|w: FileWriteView| ActionView::Write(w));
    let head = seq![
        ActionView::RunCargo(seq![os_units("new"@), os_units("--color"@), os_units("always"@), root]),
        ActionView::Write(copied_file(root, seq![], os_units("rust-toolchain.toml"@), t.rust_toolchain_toml@)),
        ActionView::Read(manifest_path(root)),
        ActionView::Write(manifest_write(root, manifest + encode_utf8(filled_metadata(t.metadata)))),
    ];
    let tail = seq![ActionView::ReadText(manifest_path(root))];
    assert(files.len() == 13);
    assert(writes.len() == 13);
    assert(expected == head + writes + tail);

    assert forall|k: int| 0 <= k < 13 implies #[trigger] expected[4 + k] == ActionView::Write(files[k]) by {
        assert((head + writes)[4 + k] == writes[k]);
        assert(expected[4 + k] == (head + writes)[4 + k]);
    }
    assert(expected[17] == tail[0]);
    assert forall|i: int| 0 <= i < 18 implies actions[i] == #[trigger] expected[i] by {
        if i >= 4 && i < 17 {
            assert(expected[4 + (i - 4)] == expected[i]);
        }
    }
    assert(actions =~= expected);
}

/// When every action succeeds, the operation takes each success of the creation in
/// turn, and then the manifest's text, whatever it is: it never stops for want of
/// accepting an event.
pub proof fn lemma_successful_creation_is_accepted(states: Seq<OperationView>, actions: Seq<ActionView>, manifest: Seq<u8>)
    requires
        states.len() == 19,
        actions.len() == 18,
        states[0].stage == Stage::Start,
        forall|i: int| 0 <= i < 18 ==> step_spec(#[trigger] states[i], creation_events(manifest)[i], states[i + 1], actions[i]),
    ensures
        forall|i: int| 0 <= i < 18 ==> accepts(#[trigger] states[i].stage, creation_events(manifest)[i]),
        forall|text: Seq<char>| #[trigger] accepts(states[18].stage, EventView::ReadText(text)),
{
    let events = creation_events(manifest);
    lemma_creation_stage(states, actions, manifest, 17);
    assert(step_spec(states[17], events[17], states[18], actions[17]));
    assert(states[18].stage == Stage::ReadingManifestText);
    assert forall|i: int| 0 <= i < 18 implies accepts(#[trigger] states[i].stage, events[i]) by {
        lemma_creation_stage(states, actions, manifest, i);
    }
}

/// The stage of the operation after `i` successes of the creation.
proof fn lemma_creation_stage(states: Seq<OperationView>, actions: Seq<ActionView>, manifest: Seq<u8>, i: int)
    requires
        states.len() == 19,
        actions.len() == 18,
        states[0].stage == Stage::Start,
        0 <= i < 18,
        forall|j: int| 0 <= j < 18 ==> step_spec(#[trigger] states[j], creation_events(manifest)[j], states[j + 1], actions[j]),
    ensures
        states[i].stage == if i < 5 {
            seq![Stage::Start, Stage::CreatingPackage, Stage::WritingToolchain, Stage::ReadingManifest, Stage::AppendingMetadata][i]
        } else {
            Stage::WritingFile((i - 5) as usize)
        },
    decreases i,
{
    if i > 0 {
        lemma_creation_stage(states, actions, manifest, i - 1);
        let events = creation_events(manifest);
        assert(step_spec(states[i - 1], events[i - 1], states[i], actions[i - 1]));
    }
}

/// The operation never gets stuck: after any step it takes, unless it has finished, it
/// accepts the success it waits for and any failure.
pub proof fn lemma_step_keeps_operation_going(pre: OperationView, e: EventView, post: OperationView, a: ActionView)
    requires
        accepts(pre.stage, e),
        step_spec(pre, e, post, a),
    ensures
        post.stage != Stage::Finished ==> forall|next: EventView| #[trigger] success_event(post.stage, next) ==> accepts(post.stage, next),
        post.stage != Stage::Finished ==> forall|f: FailureView| #[trigger] accepts(post.stage, EventView::Failed(f)),
{
}

/// A failure at any point finishes the operation with that failure; nothing more is
/// done.
pub proof fn lemma_failure_finishes(pre: OperationView, failure: FailureView, post: OperationView, a: ActionView)
    requires
        step_spec(pre, EventView::Failed(failure), post, a),
    ensures
        post.stage == Stage::Finished,
        a == ActionView::Finish(Err(failure)),
{
}

/// The package is created at the path given: cargo creates it there, and every file
/// the operation reads or writes lies inside it.
pub proof fn lemma_files_stay_in_package(pre: OperationView, e: EventView, post: OperationView, a: ActionView)
    requires
        step_spec(pre, e, post, a),
    ensures
        a matches ActionView::RunCargo(args) ==> args.len() == 4 && args[3] == pre.root,
        a matches ActionView::Read(p) ==> p.len() >= 2 && p[0] == pre.root,
        a matches ActionView::ReadText(p) ==> p.len() >= 2 && p[0] == pre.root,
        a matches ActionView::Write(w) ==> w.file.len() >= 2 && w.file[0] == pre.root && w.dir.len() >= 1 && w.dir[0] == pre.root && w.file.drop_last() == w.dir,
{
    if e is Failed {
    } else if pre.stage == Stage::ReadingManifestText {
        if manifest_can_be_updated(e->ReadText_0) && toml_parse(e->ReadText_0) is Ok {
            let out = choose|out: String| #[trigger] windows_dependencies_added(e->ReadText_0, Ok(out))
                && a == ActionView::Write(manifest_write(pre.root, encode_utf8(out@)));
            assert(manifest_write(pre.root, encode_utf8(out@)).file.drop_last() =~= seq![pre.root]);
        }
    } else {
        match pre.stage {
            Stage::Start => {
                assert(new_command_args(seq![pre.root]) =~= seq![os_units("new"@), os_units("--color"@), os_units("always"@), pre.root]);
            },
            Stage::ReadingManifest => {
                assert(manifest_path(pre.root).drop_last() =~= seq![pre.root]);
            },
            _ => {
                if let ActionView::Write(w) = a {
                    assert(w.file.drop_last() =~= w.dir);
                }
            },
        }
    }
}

/// The bindings crate's manifest holds no *windows-rs* version placeholder, whatever
/// its template: every placeholder has been replaced by the version.
pub proof fn lemma_bindings_manifest_has_no_placeholder(template: Seq<char>)
    ensures
        !crate::text::occurs_in(bindings_manifest(template), WINDOWS_RS_VERSION_PLACEHOLDER@),
{
    reveal_strlit("$windows-rs-version$");
    reveal_strlit("0.18.0");
    let from = WINDOWS_RS_VERSION_PLACEHOLDER@;
    let to = WINDOWS_RS_VERSION@;
    assert forall|i: int| 0 <= i < from.len() implies !to.contains(#[trigger] from[i]) by {
        if to.contains(from[i]) {
            let j = choose|j: int| 0 <= j < to.len() && to[j] == from[i];
            assert(to[j] == '0' || to[j] == '.' || to[j] == '1' || to[j] == '8');
        }
    }
    crate::text::lemma_replaced_leaves_no_occurrence(template, from, to);
}


/// A metadata entry whose key and value hold no `$`.
pub open spec fn entry_without_marker(e: MetadataEntry) -> bool {
    !e.key@.contains('$') && !e.value@.contains('$')
}

/// `a + b` holds `c` only where `a` or `b` does.
proof fn lemma_concat_lacks_char(a: Seq<char>, b: Seq<char>, c: char)
    requires
        !a.contains(c),
        !b.contains(c),
    ensures
        !(a + b).contains(c),
{
    if (a + b).contains(c) {
        let k = choose|k: int| 0 <= k < (a + b).len() && (a + b)[k] == c;
        if k < a.len() {
            assert(a[k] == c);
        } else {
            assert(b[k - a.len()] == c);
        }
    }
}

/// The line of an entry without `$` holds no `$`.
proof fn lemma_entry_line_without_marker(e: MetadataEntry)
    requires
        entry_without_marker(e),
    ensures
        !entry_line(e).contains('$'),
{
    reveal_strlit(" = \"");
    reveal_strlit("\"");
    assert(!" = \""@.contains('$')) by {
        assert(forall|m: int| 0 <= m < " = \""@.len() ==> " = \""@[m] != '$');
    }
    assert(!"\""@.contains('$')) by {
        assert(forall|m: int| 0 <= m < "\""@.len() ==> "\""@[m] != '$');
    }
    lemma_concat_lacks_char(e.key@, " = \""@, '$');
    lemma_concat_lacks_char(e.key@ + " = \""@, e.value@, '$');
    lemma_concat_lacks_char(e.key@ + " = \""@ + e.value@, "\""@, '$');
}

/// The metadata's pieces, with some placeholders already replaced by lines without `$`:
/// every piece fits replacing the placeholder with index `k`.
proof fn lemma_metadata_pieces_fit(pieces: Seq<Seq<char>>, k: int)
    requires
        0 <= k < 5,
        pieces.len() == 11,
        forall|i: int| 0 <= i < 11 && i % 2 == 0 ==> #[trigger] pieces[i] == package_metadata_pieces()[i],
        forall|j: int| 0 <= j < 5 ==> #[trigger] pieces[2 * j + 1] == metadata_placeholders()[j] || !pieces[2 * j + 1].contains('$'),
    ensures
        forall|i: int| 0 <= i < 11 ==> piece_fits(pieces, i, #[trigger] metadata_placeholders()[k]) || piece_fits(pieces, i, metadata_placeholders()[k]),
{
    lemma_package_metadata_layout();
    let ph = metadata_placeholders();
    let from = ph[k];
    assert(from[0] == '$' && from[1] == 'p' && from.len() >= 2);
    assert forall|i: int| 0 <= i < 11 implies piece_fits(pieces, i, from) by {
        if i % 2 == 0 {
            assert(pieces[i] == package_metadata_pieces()[i]);
        } else {
            let j = (i - 1) / 2;
            assert(i == 2 * j + 1);
            assert(pieces[2 * j + 1] == ph[j] || !pieces[2 * j + 1].contains('$'));
            if pieces[i] == ph[j] && j != k {
                let p = ph[j];
                assert(p.len() >= 2 && p[0] == '$' && p[p.len() - 1] == '$');
                assert(forall|m: int| 0 < m < p.len() - 1 ==> #[trigger] p[m] != '$');
                let d = choose|d: int| 0 <= d < ph[j].len() && d < ph[k].len() && #[trigger] ph[j][d] != #[trigger] ph[k][d];
                assert(p[d] != from[d]);
                assert(pieces[i + 1] == package_metadata_pieces()[i + 1]);
                assert(pieces[i + 1][0] == '\n');
            }
        }
    }
}

/// After replacing the placeholder with index `k` in the pieces, the pieces have the
/// shape again, with that placeholder replaced by `line`.
proof fn lemma_metadata_step(pieces: Seq<Seq<char>>, k: int, line: Seq<char>) -> (next: Seq<Seq<char>>)
    requires
        0 <= k < 5,
        pieces.len() == 11,
        forall|i: int| 0 <= i < 11 && i % 2 == 0 ==> #[trigger] pieces[i] == package_metadata_pieces()[i],
        forall|j: int| 0 <= j < 5 ==> #[trigger] pieces[2 * j + 1] == metadata_placeholders()[j] || !pieces[2 * j + 1].contains('$'),
        pieces[2 * k + 1] == metadata_placeholders()[k],
        !line.contains('$'),
    ensures
        next == pieces.update(2 * k + 1, line),
        replaced(join(pieces), metadata_placeholders()[k], line) == join(next),
{
    lemma_package_metadata_layout();
    lemma_metadata_pieces_fit(pieces, k);
    let from = metadata_placeholders()[k];
    lemma_replaced_pieces(pieces, from, line);
    let next = pieces.update(2 * k + 1, line);
    let mapped = pieces.map_values(|p: Seq<char>| replace_piece(p, from, line));
    assert forall|i: int| 0 <= i < 11 implies #[trigger] mapped[i] == next[i] by {
        if i != 2 * k + 1 {
            if pieces[i] == from {
                assert(pieces[i].contains('$')) by {
                    assert(pieces[i][0] == '$');
                }
                if i % 2 == 0 {
                    assert(pieces[i] == package_metadata_pieces()[i]);
                } else {
                    let j = (i - 1) / 2;
                    assert(i == 2 * j + 1);
                    assert(pieces[2 * j + 1] == metadata_placeholders()[j] || !pieces[2 * j + 1].contains('$'));
                    assert(metadata_placeholders()[j] != metadata_placeholders()[k]) by {
                        let d = choose|d: int| 0 <= d < metadata_placeholders()[j].len() && d < metadata_placeholders()[k].len()
                            && #[trigger] metadata_placeholders()[j][d] != #[trigger] metadata_placeholders()[k][d];
                    }
                }
            }
        }
    }
    assert(mapped =~= next);
    next
}

/// Filling in the package metadata, when no default key or value holds a `$`, is the
/// metadata's pieces with each placeholder replaced by its entry's line.
proof fn lemma_filled_metadata_pieces(d: MetadataDefaults) -> (p: Seq<Seq<char>>)
    requires
        entry_without_marker(d.identity_name),
        entry_without_marker(d.identity_publisher),
        entry_without_marker(d.publisher_display_name),
        entry_without_marker(d.visual_display_name),
        entry_without_marker(d.visual_description),
    ensures
        p.len() == 11,
        filled_metadata(d) == join(p),
        forall|i: int| 0 <= i < 11 && i % 2 == 0 ==> #[trigger] p[i] == package_metadata_pieces()[i],
        p[1] == entry_line(d.identity_name),
        p[3] == entry_line(d.identity_publisher),
        p[5] == entry_line(d.publisher_display_name),
        p[7] == entry_line(d.visual_display_name),
        p[9] == entry_line(d.visual_description),
{
    lemma_package_metadata_layout();
    lemma_entry_line_without_marker(d.identity_name);
    lemma_entry_line_without_marker(d.identity_publisher);
    lemma_entry_line_without_marker(d.publisher_display_name);
    lemma_entry_line_without_marker(d.visual_display_name);
    lemma_entry_line_without_marker(d.visual_description);
    let ph = metadata_placeholders();
    let p0 = package_metadata_pieces();
    assert forall|j: int| 0 <= j < 5 implies #[trigger] p0[2 * j + 1] == ph[j] || !p0[2 * j + 1].contains('$') by {}
    let p1 = lemma_metadata_step(p0, 0, entry_line(d.identity_name));
    assert forall|j: int| 0 <= j < 5 implies #[trigger] p1[2 * j + 1] == ph[j] || !p1[2 * j + 1].contains('$') by {
        assert(p0[2 * j + 1] == ph[j]);
    }
    let p2 = lemma_metadata_step(p1, 1, entry_line(d.identity_publisher));
    assert forall|j: int| 0 <= j < 5 implies #[trigger] p2[2 * j + 1] == ph[j] || !p2[2 * j + 1].contains('$') by {
        assert(p0[2 * j + 1] == ph[j]);
    }
    let p3 = lemma_metadata_step(p2, 2, entry_line(d.publisher_display_name));
    assert forall|j: int| 0 <= j < 5 implies #[trigger] p3[2 * j + 1] == ph[j] || !p3[2 * j + 1].contains('$') by {
        assert(p0[2 * j + 1] == ph[j]);
    }
    let p4 = lemma_metadata_step(p3, 3, entry_line(d.visual_display_name));
    assert forall|j: int| 0 <= j < 5 implies #[trigger] p4[2 * j + 1] == ph[j] || !p4[2 * j + 1].contains('$') by {
        assert(p0[2 * j + 1] == ph[j]);
    }
    let p5 = lemma_metadata_step(p4, 4, entry_line(d.visual_description));
    assert(filled_metadata(d) == join(p5));
    p5
}

/// Filling in the package metadata leaves no `$`, and so none of its placeholders,
/// when no default key or value holds a `$`.
pub proof fn lemma_filled_metadata_has_no_placeholder(d: MetadataDefaults)
    requires
        entry_without_marker(d.identity_name),
        entry_without_marker(d.identity_publisher),
        entry_without_marker(d.publisher_display_name),
        entry_without_marker(d.visual_display_name),
        entry_without_marker(d.visual_description),
    ensures
        !filled_metadata(d).contains('$'),
        forall|k: int| 0 <= k < 5 ==> !occurs_in(filled_metadata(d), #[trigger] metadata_placeholders()[k]),
{
    lemma_package_metadata_layout();
    lemma_entry_line_without_marker(d.identity_name);
    lemma_entry_line_without_marker(d.identity_publisher);
    lemma_entry_line_without_marker(d.publisher_display_name);
    lemma_entry_line_without_marker(d.visual_display_name);
    lemma_entry_line_without_marker(d.visual_description);
    let ph = metadata_placeholders();
    let p5 = lemma_filled_metadata_pieces(d);
    assert forall|i: int| 0 <= i < p5.len() implies !(#[trigger] p5[i]).contains('$') by {
        if i % 2 == 0 {
            assert(p5[i] == package_metadata_pieces()[i]);
        }
    }
    lemma_join_lacks_char(p5, '$');
    let f = filled_metadata(d);
    assert forall|k: int| 0 <= k < 5 implies !occurs_in(f, #[trigger] ph[k]) by {
        if occurs_in(f, ph[k]) {
            let i = choose|i: int| occurs_at(f, ph[k], i);
            assert(f.subrange(i, i + ph[k].len())[0] == ph[k][0]);
            assert(f[i] == '$');
            assert(f.contains('$'));
        }
    }
}

/// `line` stands in `text` as a line of its own: a line break right before it and
/// right after it.
pub open spec fn stands_on_own_line(text: Seq<char>, line: Seq<char>) -> bool {
    occurs_in(text, seq!['\n'] + line + seq!['\n'])
}

/// In pieces whose piece `i` is preceded by a piece ending a line and followed by one
/// starting a line, piece `i` stands on a line of its own in their text.
proof fn lemma_piece_on_own_line(p: Seq<Seq<char>>, i: int)
    requires
        0 < i < p.len() - 1,
        p[i - 1].len() > 0,
        p[i - 1][p[i - 1].len() - 1] == '\n',
        p[i + 1].len() > 0,
        p[i + 1][0] == '\n',
    ensures
        stands_on_own_line(join(p), p[i]),
{
    lemma_join_split(p, i);
    lemma_join_split(p, i - 1);
    let before = join(p.take(i));
    let after = join(p.skip(i + 1));
    assert(p.skip(i + 1)[0] == p[i + 1]);
    assert(after == p[i + 1] + join(p.skip(i + 1).drop_first()));
    assert(before == join(p.take(i - 1)) + p[i - 1]);
    assert(before.len() > 0 && before[before.len() - 1] == '\n');
    assert(after.len() > 0 && after[0] == '\n');
    let t = join(p);
    let pat = seq!['\n'] + p[i] + seq!['\n'];
    let at = before.len() - 1;
    assert(t == before + p[i] + after);
    assert(t.subrange(at, at + pat.len()) =~= pat);
    assert(occurs_at(t, pat, at));
}

/// The filled-in package metadata gives every default entry a `KEY = "DEFAULT"` line of
/// its own, not commented out, when no default key or value holds a `$`.
pub proof fn lemma_filled_metadata_has_entry_lines(d: MetadataDefaults)
    requires
        entry_without_marker(d.identity_name),
        entry_without_marker(d.identity_publisher),
        entry_without_marker(d.publisher_display_name),
        entry_without_marker(d.visual_display_name),
        entry_without_marker(d.visual_description),
    ensures
        stands_on_own_line(filled_metadata(d), entry_line(d.identity_name)),
        stands_on_own_line(filled_metadata(d), entry_line(d.identity_publisher)),
        stands_on_own_line(filled_metadata(d), entry_line(d.publisher_display_name)),
        stands_on_own_line(filled_metadata(d), entry_line(d.visual_display_name)),
        stands_on_own_line(filled_metadata(d), entry_line(d.visual_description)),
{
    lemma_package_metadata_layout();
    let p = lemma_filled_metadata_pieces(d);
    let p0 = package_metadata_pieces();
    assert(p[0] == p0[0] && p[2] == p0[2] && p[4] == p0[4] && p[6] == p0[6] && p[8] == p0[8] && p[10] == p0[10]);
    lemma_piece_on_own_line(p, 1);
    lemma_piece_on_own_line(p, 3);
    lemma_piece_on_own_line(p, 5);
    lemma_piece_on_own_line(p, 7);
    lemma_piece_on_own_line(p, 9);
}

} // verus!

//! Logic of the first Risc0 backend, which builds guests through a template
//! build script: where that script and its report go, and how a file that
//! the build overwrites is put back afterwards.
use crate::manifest::opt_view;
use crate::text::string_of;
use serde_json::Error as JsonError;
use vstd::prelude::*;

verus! {

/// `serde_json::Error`, carried through unchanged.
#[verifier::external_type_specification]
#[verifier::external_body]
pub struct ExJsonError(JsonError);

/// The compiler of guests built through the template build script: its
/// `compile` is `compile_risczero_program`, whose steps are the functions
/// of this module.
pub struct RV32_IM_RISCZERO_ZKVM_ELF;

/// Errors of compiling a guest.
#[derive(Debug)]
pub enum CompileError {
    /// An I/O operation failed; `context` says which.
    Io { source: std::io::Error, context: String },
    /// A JSON document could not be read; `context` says which.
    SerdeJson { source: JsonError, context: String },
    /// The methods path is missing or is not a directory.
    InvalidMethodsPath(String),
    /// `cargo build` of the crate at `crate_path` failed with `status`.
    CargoBuildFailure { crate_path: String, status: String, stdout: String, stderr: String },
    /// The build report lacks a field.
    MissingJsonField { field: String, file: String },
}

impl CompileError {
    /// An I/O error with the step at which it happened.
    pub fn io(e: std::io::Error, context: &str) -> (r: Self)
        ensures
            r matches CompileError::Io { source, context: c } && source == e && c@ == context@,
    {
        CompileError::Io { source: e, context: string_of(context) }
    }

    /// A JSON error with the step at which it happened.
    pub fn serde(e: JsonError, context: &str) -> (r: Self)
        ensures
            r matches CompileError::SerdeJson { source, context: c } && source == e && c@ == context@,
    {
        CompileError::SerdeJson { source: e, context: string_of(context) }
    }
}

/// What `serde_json` reads at key `field` of a JSON text: `None` where the
/// text is no JSON document; else `Some` of the string at that key of the
/// top-level object, or `Some(None)` where there is no string there.
pub uninterp spec fn json_string_field(text: Seq<char>, field: Seq<char>) -> Option<Option<Seq<char>>>;

/// Parses `text` with `serde_json::from_str` into a `serde_json::Value`,
/// indexes it by `field` and reads a string with `as_str`. The result is
/// named by `json_string_field`: the parse fails exactly where the name is
/// `None`.
#[verifier::external_body]
fn json_read_string_field(text: &str, field: &str) -> (r: Result<Option<String>, JsonError>)
    ensures
        r is Ok <==> json_string_field(text@, field@) is Some,
        r matches Ok(v) ==> json_string_field(text@, field@) == Some(opt_view(v)),
{
    serde_json::from_str::<serde_json::Value>(text).map(|v| v[field].as_str().map(|s| s.to_string()))
}

/// The ELF path that the build reports in `info_file`, whose text is
/// `info_text`: a text that is no JSON document is reported as such, a
/// report without a string `elf_path` as a missing field.
pub fn guest_elf_path(info_text: &str, info_file: &str) -> (r: Result<String, CompileError>)
    ensures
        match json_string_field(info_text@, "elf_path"@) {
            None => r matches Err(CompileError::SerdeJson { context, .. }) && context@
                == "parsing ere_guest_info.json"@,
            Some(None) => r matches Err(CompileError::MissingJsonField { field, file }) && field@
                == "elf_path"@ && file@ == info_file@,
            Some(Some(p)) => r matches Ok(s) && s@ == p,
        },
{
    match json_read_string_field(info_text, "elf_path") {
        Err(e) => Err(CompileError::serde(e, "parsing ere_guest_info.json")),
        Ok(None) => Err(missing_elf_path(info_file)),
        Ok(Some(p)) => Ok(p),
    }
}

/// Whether a methods path can be built: it exists and is a directory.
pub fn methods_path_valid(exists: bool, is_dir: bool) -> (r: bool)
    ensures
        r == (exists && is_dir),
{
    exists && is_dir
}

/// Where the template build script goes: `{path}/build.rs`.
pub fn build_script_path(path: &str) -> (r: String)
    ensures
        r@ == path@ + "/build.rs"@,
{
    let mut p = string_of(path);
    p.append("/build.rs");
    p
}

/// Where the build script reports the guest: `{path}/ere_guest_info.json`.
pub fn guest_info_path(path: &str) -> (r: String)
    ensures
        r@ == path@ + "/ere_guest_info.json"@,
{
    let mut p = string_of(path);
    p.append("/ere_guest_info.json");
    p
}

/// The error for a report without `elf_path`.
pub fn missing_elf_path(file: &str) -> (r: CompileError)
    ensures
        r matches CompileError::MissingJsonField { field, file: f } && field@ == "elf_path"@ && f@ == file@,
{
    CompileError::MissingJsonField { field: string_of("elf_path"), file: string_of(file) }
}

/// What to do with a managed file once the build is over.
#[derive(Debug, PartialEq, Eq)]
pub enum RestoreAction {
    /// Write the original content back.
    Restore(Vec<u8>),
    /// The file existed but nothing was saved: report that it cannot be
    /// restored.
    ReportMissingBackup,
    /// The build created the file: remove it.
    Remove,
    /// The build created a directory where the file was expected: leave it
    /// and report it.
    ReportDirectory,
    /// Nothing is there to undo.
    Nothing,
}

/// Puts a file back as it was once the build that overwrites it is over.
#[derive(Debug)]
pub struct FileRestorer {
    path: String,
    original_content: Option<Vec<u8>>,
    was_originally_present: bool,
}

/// Abstract value of a restorer.
pub struct FileRestorerView {
    pub path: Seq<char>,
    pub original_content: Option<Seq<u8>>,
    pub was_originally_present: bool,
}

impl View for FileRestorer {
    type V = FileRestorerView;

    closed spec fn view(&self) -> FileRestorerView {
        FileRestorerView {
            path: self.path@,
            original_content: match self.original_content {
                Some(c) => Some(c@),
                None => None,
            },
            was_originally_present: self.was_originally_present,
        }
    }
}

/// What a restorer does once the build is over, as a value of
/// specification.
pub enum RestoreStep {
    Restore(Seq<u8>),
    ReportMissingBackup,
    Remove,
    ReportDirectory,
    Nothing,
}

impl View for RestoreAction {
    type V = RestoreStep;

    open spec fn view(&self) -> RestoreStep {
        match self {
            RestoreAction::Restore(c) => RestoreStep::Restore(c@),
            RestoreAction::ReportMissingBackup => RestoreStep::ReportMissingBackup,
            RestoreAction::Remove => RestoreStep::Remove,
            RestoreAction::ReportDirectory => RestoreStep::ReportDirectory,
            RestoreAction::Nothing => RestoreStep::Nothing,
        }
    }
}

/// What a restorer does, given whether its path now exists and is a
/// directory: restore saved content; report a file that existed without
/// saved content; remove a file the build created; report a directory in
/// its place; else nothing.
pub open spec fn restore_step_of(r: FileRestorerView, exists_now: bool, is_dir_now: bool) -> RestoreStep {
    match r.original_content {
        Some(c) => RestoreStep::Restore(c),
        None => if r.was_originally_present {
            RestoreStep::ReportMissingBackup
        } else if exists_now && !is_dir_now {
            RestoreStep::Remove
        } else if exists_now && is_dir_now {
            RestoreStep::ReportDirectory
        } else {
            RestoreStep::Nothing
        },
    }
}

/// What was found at a path before the build: nothing, a directory, or a
/// file with its content.
#[derive(Debug, PartialEq, Eq)]
pub enum PathState {
    Absent,
    Directory,
    File(Vec<u8>),
}

impl FileRestorer {
    /// A restorer of `path`, given what was found there: a file's content is
    /// kept to be written back, a path where nothing was is noted, and a
    /// directory is refused.
    pub fn new(path: &str, found: PathState) -> (r: Result<Self, CompileError>)
        ensures
            match found {
                PathState::Directory => r matches Err(CompileError::InvalidMethodsPath(p)) && p@
                    == path@,
                PathState::Absent => r matches Ok(f) && f@ == (FileRestorerView {
                    path: path@,
                    original_content: None,
                    was_originally_present: false,
                }),
                PathState::File(c) => r matches Ok(f) && f@ == (FileRestorerView {
                    path: path@,
                    original_content: Some(c@),
                    was_originally_present: true,
                }),
            },
    {
        match found {
            PathState::Directory => Err(CompileError::InvalidMethodsPath(string_of(path))),
            PathState::Absent => Ok(
                FileRestorer { path: string_of(path), original_content: None, was_originally_present: false },
            ),
            PathState::File(c) => Ok(
                FileRestorer { path: string_of(path), original_content: Some(c), was_originally_present: true },
            ),
        }
    }

    /// The managed path.
    pub fn path(&self) -> (r: &str)
        ensures
            r@ == self@.path,
    {
        self.path.as_str()
    }

    /// What to do once the build is over, given whether the path now
    /// exists and is a directory.
    pub fn restore_action(&self, exists_now: bool, is_dir_now: bool) -> (r: RestoreAction)
        ensures
            r@ == restore_step_of(self@, exists_now, is_dir_now),
    {
        match &self.original_content {
            Some(c) => RestoreAction::Restore(c.clone()),
            None => {
                if self.was_originally_present {
                    RestoreAction::ReportMissingBackup
                } else if exists_now && !is_dir_now {
                    RestoreAction::Remove
                } else if exists_now && is_dir_now {
                    RestoreAction::ReportDirectory
                } else {
                    RestoreAction::Nothing
                }
            },
        }
    }
}

/// A restorer puts back what it found: once a build has written the path,
/// a restorer made where a file was writes that file's content back, and
/// one made where nothing was removes the file the build left.
pub proof fn lemma_restore_undoes(path: Seq<char>, content: Option<Seq<u8>>)
    ensures
        ({
            let r = FileRestorerView {
                path,
                original_content: content,
                was_originally_present: content is Some,
            };
            restore_step_of(r, true, false) == match content {
                Some(c) => RestoreStep::Restore(c),
                None => RestoreStep::Remove,
            }
        }),
{
}

} // verus!

use vstd::prelude::*;
use vstd::string::*;
use vstd::utf8::*;
use crate::error::GitHydraError;
use crate::script::{template_script_starter, template_script_text};

verus! {

/// The persistent files that registration opens or creates.
#[derive(Clone, Copy, Debug, PartialEq, Eq, Structural)]
pub enum Resource {
    /// The shared identity-switching script.
    TemplateScript,
    /// The document mapping account directories to identity emails.
    LookupStore,
    /// The SSH config file that receives the host entry.
    SshConfig,
}

/// How an attempt to open an existing file for reading and appending ended.
#[derive(Clone, Copy, Debug, PartialEq, Eq, Structural)]
pub enum OpenOutcome {
    Opened,
    NotFound,
    /// Any other failure (permissions, a directory in the way, ...).
    OtherError,
}

/// What to do with a resource once the open attempt has ended.
pub enum OpenAction {
    /// Keep the file as it is (and, if it was opened, its handle).
    UseExisting,
    /// Create the file, which must not exist yet, and write its initial contents.
    CreateNew,
    /// Stop the workflow with this error.
    Fail(GitHydraError),
}

/// Which action the open-or-create policy of `resource` takes after `outcome`,
/// as 0 (use existing), 1 (create) or 2 (fail).
/// Only "not found" triggers creation. The template script swallows any other
/// failure; the other two resources report it.
pub open spec fn open_policy(resource: Resource, outcome: OpenOutcome) -> int {
    match outcome {
        OpenOutcome::Opened => 0,
        OpenOutcome::NotFound => 1,
        OpenOutcome::OtherError => if resource == Resource::TemplateScript { 0 } else { 2 },
    }
}

/// Message reported when `resource` at `path` cannot be opened.
pub open spec fn open_error_message(resource: Resource, path: Seq<char>) -> Seq<char> {
    match resource {
        Resource::SshConfig => "Problem opening ssh config file at path "@ + path,
        _ => "Error creating lookup.json"@,
    }
}

/// Message reported when `resource` at `path` cannot be created.
pub open spec fn create_error_message(resource: Resource, path: Seq<char>) -> Seq<char> {
    match resource {
        Resource::TemplateScript => "Error creating template script"@,
        Resource::LookupStore => "Error creating lookup.json"@,
        Resource::SshConfig => "Problem creating new ssh config file at path: "@ + path,
    }
}

/// Message reported when writing to `resource` at `path` fails.
pub open spec fn write_error_message(resource: Resource, path: Seq<char>) -> Seq<char> {
    match resource {
        Resource::TemplateScript => "Error writing to new script"@,
        Resource::LookupStore => "Error writing to lookup.json"@,
        Resource::SshConfig => "Problem writing to ssh config file at path: "@ + path,
    }
}

/// An I/O error carrying `msg`.
fn io_failure(msg: &str) -> (r: GitHydraError)
    ensures
        r matches GitHydraError::IOFailure { error } && error@ == msg@,
{
    GitHydraError::IOFailure { error: String::from_str(msg) }
}

/// An I/O error carrying the text of `a` followed by `b`.
fn io_error(a: &str, b: &str) -> (r: GitHydraError)
    ensures
        r matches GitHydraError::IOFailure { error } && error@ == a@ + b@,
{
    let mut error = String::from_str(a);
    error.append(b);
    GitHydraError::IOFailure { error }
}

/// Applies the open-or-create policy of `resource` (at `path`) to `outcome`.
pub fn open_action(resource: Resource, outcome: OpenOutcome, path: &str) -> (r: OpenAction)
    ensures
        open_policy(resource, outcome) == 0 <==> r is UseExisting,
        open_policy(resource, outcome) == 1 <==> r is CreateNew,
        open_policy(resource, outcome) == 2 <==> (r matches OpenAction::Fail(
            GitHydraError::IOFailure { error },
        ) && error@ == open_error_message(resource, path@)),
{
    match outcome {
        OpenOutcome::Opened => OpenAction::UseExisting,
        OpenOutcome::NotFound => OpenAction::CreateNew,
        OpenOutcome::OtherError => match resource {
            Resource::TemplateScript => OpenAction::UseExisting,
            Resource::LookupStore => OpenAction::Fail(io_failure("Error creating lookup.json")),
            Resource::SshConfig => OpenAction::Fail(
                io_error("Problem opening ssh config file at path ", path),
            ),
        },
    }
}

/// The error for a failed creation of `resource` at `path`.
pub fn create_error(resource: Resource, path: &str) -> (r: GitHydraError)
    ensures
        r matches GitHydraError::IOFailure { error } && error@ == create_error_message(
            resource,
            path@,
        ),
{
    match resource {
        Resource::TemplateScript => io_failure("Error creating template script"),
        Resource::LookupStore => io_failure("Error creating lookup.json"),
        Resource::SshConfig => io_error("Problem creating new ssh config file at path: ", path),
    }
}

/// The error for a failed write to `resource` at `path`.
pub fn write_error(resource: Resource, path: &str) -> (r: GitHydraError)
    ensures
        r matches GitHydraError::IOFailure { error } && error@ == write_error_message(
            resource,
            path@,
        ),
{
    match resource {
        Resource::TemplateScript => io_failure("Error writing to new script"),
        Resource::LookupStore => io_failure("Error writing to lookup.json"),
        Resource::SshConfig => io_error("Problem writing to ssh config file at path: ", path),
    }
}

/// The lookup document that holds no record yet.
pub open spec fn empty_lookup_document() -> Seq<char> {
    "[]"@
}

/// Bytes written to `resource` right after it was created. The SSH config
/// file starts empty: its entry is appended afterwards.
pub open spec fn initial_contents_spec(resource: Resource) -> Seq<u8> {
    match resource {
        Resource::TemplateScript => encode_utf8(template_script_text()),
        Resource::LookupStore => encode_utf8(empty_lookup_document()),
        Resource::SshConfig => Seq::empty(),
    }
}

/// The bytes to write into a newly created `resource`.
pub fn initial_contents(resource: Resource) -> (r: Vec<u8>)
    ensures
        r@ == initial_contents_spec(resource),
{
    match resource {
        Resource::TemplateScript => template_script_starter(),
        Resource::LookupStore => "[]".as_bytes_vec(),
        Resource::SshConfig => Vec::new(),
    }
}

/// The contents of `resource` after it was ensured: `before` is `None` where
/// no file was there, which the open attempt reports as "not found". Only
/// then does the policy create the file; an existing one is never rewritten.
pub open spec fn ensured_contents(resource: Resource, before: Option<Seq<u8>>) -> Seq<u8> {
    let outcome = if before is Some {
        OpenOutcome::Opened
    } else {
        OpenOutcome::NotFound
    };
    if open_policy(resource, outcome) == 1 {
        initial_contents_spec(resource)
    } else {
        before->0
    }
}

/// Ensuring a resource a second time changes nothing, and a file that
/// already exists keeps every byte: the template script is written at most
/// once.
pub proof fn lemma_ensure_is_idempotent(resource: Resource, before: Option<Seq<u8>>)
    ensures
        ensured_contents(resource, Some(ensured_contents(resource, before)))
            == ensured_contents(resource, before),
        before is Some ==> ensured_contents(resource, before) == before->0,
        before is None ==> ensured_contents(resource, before) == initial_contents_spec(resource),
{
}

/// How the attempt to create the account's directory ended.
#[derive(Clone, Copy, Debug, PartialEq, Eq, Structural)]
pub enum DirOutcome {
    Created,
    AlreadyExists,
    /// Any other failure, such as a missing parent directory.
    OtherError,
}

/// The result of the workspace step. Creating the directory is not
/// idempotent: an existing directory is a failure, which surfaces an account
/// that is registered a second time. `detail` describes the underlying error.
pub fn workspace_result(outcome: DirOutcome, detail: &str) -> (r: Result<(), GitHydraError>)
    ensures
        r is Ok <==> outcome == DirOutcome::Created,
        r is Err ==> (r matches Err(GitHydraError::IOFailure { error })
            && error@ == "Error creating directory: "@ + detail@),
{
    match outcome {
        DirOutcome::Created => Ok(()),
        _ => Err(io_error("Error creating directory: ", detail)),
    }
}

} // verus!

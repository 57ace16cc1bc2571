use std::collections::HashMap;

use githydra::config::{resolve, AccountRequest, ResolvedAccountConfig};
use githydra::error::{new_gh_err, GitHydraError};
use githydra::lookup::{
    escape_json, lookup_document, parse_lookup_document, record_json, staging_path,
    updated_lookup_document, LookupRecord,
};
use githydra::probe::{required_tools, user_from_probe, verify_installed, ToVerify};
use githydra::resources::{
    create_error, initial_contents, open_action, workspace_result, write_error, DirOutcome,
    OpenAction, OpenOutcome, Resource,
};
use githydra::script::{command_helper, template_script_starter};
use githydra::ssh_config::serialize_ssh_config_entry;
use githydra::workflow::{Action, Stage};

fn request(account: &str) -> AccountRequest {
    AccountRequest {
        account: account.to_string(),
        dirname: None,
        ssh_config_path: None,
        ssh_config_dir: None,
        ssh_alias: None,
        ssh_key_name: None,
        ssh_privkey_path: None,
        ssh_email: None,
        template_script_path: None,
        git_hooks_dir: None,
    }
}

#[test]
fn ssh_entry_serializes_exactly() {
    let bytes = serialize_ssh_config_entry("alice", "/home/alice/.ssh/id_rsa_alice");
    assert_eq!(
        bytes,
        b"# alice github\nHost alice\n        HostName github.com\n        User git\n        IdentityFile /home/alice/.ssh/id_rsa_alice\n\n".to_vec()
    );
}

#[test]
fn ssh_writer_appends_duplicates_on_rerun() {
    let mut file = b"Host existing\n".to_vec();
    let entry = serialize_ssh_config_entry("bob", "/home/carol/.ssh/id_rsa_bob");
    file.extend_from_slice(&entry);
    file.extend_from_slice(&serialize_ssh_config_entry("bob", "/home/carol/.ssh/id_rsa_bob"));
    assert!(file.starts_with(b"Host existing\n"));
    assert_eq!(file.len(), 14 + 2 * entry.len());
    assert_eq!(&file[14 + entry.len()..], &entry[..]);
}

#[test]
fn resolve_applies_defaults() {
    let cfg = resolve(&request("bob"), "carol");
    assert_eq!(cfg.private_key_path, "/home/carol/.ssh/id_rsa_bob");
    assert_eq!(cfg.ssh_alias, "bob");
    assert_eq!(cfg.workspace_dir, "/home/carol/bob");
    assert_eq!(cfg.dir_name, "bob");
    assert_eq!(cfg.template_script_path, "/home/carol/githydra/test_script.js");
    assert_eq!(cfg.lookup_path, "/home/carol/githydra/lookup.json");
    assert_eq!(cfg.ssh_config_path, "/home/carol/githydra/test.md");
    assert_eq!(cfg.email, "");
    assert_eq!(cfg.account, "bob");
}

#[test]
fn resolve_prefers_overrides() {
    let mut req = request("bob");
    req.dirname = Some("work".to_string());
    req.ssh_alias = Some("gh-work".to_string());
    req.ssh_key_name = Some("work_key".to_string());
    req.ssh_email = Some("bob@example.com".to_string());
    req.ssh_config_path = Some("/tmp/ssh_config".to_string());
    req.template_script_path = Some("/tmp/script.js".to_string());
    let cfg = resolve(&req, "carol");
    assert_eq!(cfg.private_key_path, "/home/carol/.ssh/work_key");
    assert_eq!(cfg.ssh_alias, "gh-work");
    assert_eq!(cfg.workspace_dir, "/home/carol/work");
    assert_eq!(cfg.dir_name, "work");
    assert_eq!(cfg.email, "bob@example.com");
    assert_eq!(cfg.ssh_config_path, "/tmp/ssh_config");
    assert_eq!(cfg.template_script_path, "/tmp/script.js");
    assert_eq!(cfg.lookup_path, "/home/carol/githydra/lookup.json");

    req.ssh_privkey_path = Some("/keys/bob".to_string());
    let cfg = resolve(&req, "carol");
    assert_eq!(cfg.private_key_path, "/keys/bob");
}

fn same(a: &ResolvedAccountConfig, b: &ResolvedAccountConfig) -> bool {
    a.account == b.account
        && a.private_key_path == b.private_key_path
        && a.ssh_alias == b.ssh_alias
        && a.template_script_path == b.template_script_path
        && a.lookup_path == b.lookup_path
        && a.ssh_config_path == b.ssh_config_path
        && a.workspace_dir == b.workspace_dir
        && a.dir_name == b.dir_name
        && a.email == b.email
}

#[test]
fn resolve_is_deterministic() {
    let mut req = request("dave");
    req.ssh_alias = Some("d".to_string());
    assert!(same(&resolve(&req, "erin"), &resolve(&req, "erin")));
}

#[test]
fn probe_with_empty_output_is_missing_dependency() {
    match verify_installed(ToVerify::GIT, b"") {
        Err(GitHydraError::MissingDependency { error }) => {
            assert_eq!(error, "git must be installed")
        }
        _ => panic!("expected a missing dependency"),
    }
    match verify_installed(ToVerify::SSH_KEYGEN, &[]) {
        Err(GitHydraError::MissingDependency { error }) => {
            assert_eq!(error, "ssh-keygen must be installed")
        }
        _ => panic!("expected a missing dependency"),
    }
}

#[test]
fn probe_with_output_is_installed() {
    assert!(verify_installed(ToVerify::SSH_KEYGEN, b"/usr/bin/ssh-keygen\n").is_ok());
    assert!(verify_installed(ToVerify::GIT, b"/usr/bin/git\n").is_ok());
}

#[test]
fn tools_are_probed_in_order() {
    assert_eq!(required_tools(), vec![ToVerify::SSH_KEYGEN, ToVerify::GIT]);
    assert_eq!(ToVerify::GIT.program_name(), "git");
    assert_eq!(ToVerify::SSH_KEYGEN.program_name(), "ssh-keygen");
}

#[test]
fn user_name_is_trimmed() {
    assert_eq!(user_from_probe("carol\n"), "carol");
    assert_eq!(user_from_probe("  carol \r\n"), "carol");
    assert_eq!(user_from_probe("\n"), "");
    assert_eq!(user_from_probe("carol"), "carol");
    assert_eq!(user_from_probe("\u{a0}car ol\u{3000}\u{2028}\x0b"), "car ol");
}

#[test]
fn command_helper_text_is_exact() {
    let text = command_helper("whoami", "whoami", "oops");
    let expected = "\nconst get_whoami = async () => {\n    let whoami = await exec('whoami');\n    if (whoami.stderr) {\n        console.error(`oops`);\n        process.exit(1);\n    }\n    return (whoami.stdout.indexOf('\\n') != -1) ? whoami.stdout.substring(0, whoami.stdout.indexOf('\\n')) : whoami.stdout\n};\n\n";
    assert_eq!(text, expected);
}

#[test]
fn template_script_has_all_parts() {
    let bytes = template_script_starter();
    let text = String::from_utf8(bytes).unwrap();
    assert!(text.starts_with("const util = require('node:util');\n"));
    assert!(text.contains("const get_whoami = async () => {"));
    assert!(text.contains("await exec('git rev-parse --show-toplevel');"));
    assert!(text.contains("console.error(`Error getting repo root`);"));
    assert!(text.contains("const get_lookup = async () => {"));
    assert!(text.contains("repo_root.startsWith(`/home/${username}/${lookup[x].dir}`)"));
    assert!(text.ends_with("})();\n\n"));
    assert!(!text.contains("{{"));
    let whoami_at = text.find("get_whoami = ").unwrap();
    let repo_at = text.find("get_repo_root = ").unwrap();
    let lookup_at = text.find("get_lookup = ").unwrap();
    assert!(whoami_at < repo_at && repo_at < lookup_at);
}

#[test]
fn only_not_found_creates() {
    for r in [Resource::TemplateScript, Resource::LookupStore, Resource::SshConfig] {
        assert!(matches!(open_action(r, OpenOutcome::Opened, "/p"), OpenAction::UseExisting));
        assert!(matches!(open_action(r, OpenOutcome::NotFound, "/p"), OpenAction::CreateNew));
    }
}

#[test]
fn other_open_errors_follow_the_policy() {
    assert!(matches!(
        open_action(Resource::TemplateScript, OpenOutcome::OtherError, "/p"),
        OpenAction::UseExisting
    ));
    match open_action(Resource::LookupStore, OpenOutcome::OtherError, "/p") {
        OpenAction::Fail(GitHydraError::IOFailure { error }) => {
            assert_eq!(error, "Error creating lookup.json")
        }
        _ => panic!("expected a failure"),
    }
    match open_action(Resource::SshConfig, OpenOutcome::OtherError, "/p/config") {
        OpenAction::Fail(GitHydraError::IOFailure { error }) => {
            assert_eq!(error, "Problem opening ssh config file at path /p/config")
        }
        _ => panic!("expected a failure"),
    }
}

#[test]
fn creation_and_write_errors_name_the_resource() {
    assert_eq!(create_error(Resource::TemplateScript, "/s").to_string(), "I/O failure: Error creating template script");
    assert_eq!(create_error(Resource::LookupStore, "/l").to_string(), "I/O failure: Error creating lookup.json");
    assert_eq!(
        create_error(Resource::SshConfig, "/c").to_string(),
        "I/O failure: Problem creating new ssh config file at path: /c"
    );
    assert_eq!(write_error(Resource::TemplateScript, "/s").to_string(), "I/O failure: Error writing to new script");
    assert_eq!(
        write_error(Resource::SshConfig, "/c").to_string(),
        "I/O failure: Problem writing to ssh config file at path: /c"
    );
}

#[test]
fn initial_contents_per_resource() {
    assert_eq!(initial_contents(Resource::TemplateScript), template_script_starter());
    assert_eq!(initial_contents(Resource::LookupStore), b"[]".to_vec());
    assert!(initial_contents(Resource::SshConfig).is_empty());
}

#[test]
fn workspace_fails_when_directory_exists() {
    assert!(workspace_result(DirOutcome::Created, "").is_ok());
    match workspace_result(DirOutcome::AlreadyExists, "AlreadyExists") {
        Err(GitHydraError::IOFailure { error }) => {
            assert_eq!(error, "Error creating directory: AlreadyExists")
        }
        _ => panic!("expected a failure"),
    }
    assert!(workspace_result(DirOutcome::OtherError, "NotFound").is_err());
}

#[test]
fn lookup_document_serializes_records() {
    assert_eq!(lookup_document(&Vec::new()), "[]");
    let records = vec![
        LookupRecord { dir: "bob".to_string(), email: "bob@example.com".to_string() },
        LookupRecord { dir: "work".to_string(), email: "w@example.com".to_string() },
    ];
    assert_eq!(
        lookup_document(&records),
        "[{\"dir\":\"bob\",\"email\":\"bob@example.com\"},{\"dir\":\"work\",\"email\":\"w@example.com\"}]"
    );
}

#[test]
fn json_strings_are_escaped() {
    assert_eq!(escape_json("a\"b\\c\nd"), "a\\\"b\\\\c\\nd");
    assert_eq!(escape_json(""), "");
    assert_eq!(escape_json("a\tb\r"), "a\\tb\\r");
    assert_eq!(escape_json("\u{1}\u{1f}"), "\\u0001\\u001f");
    assert_eq!(record_json("x", "é"), "{\"dir\":\"x\",\"email\":\"é\"}");
}

fn pairs(records: &[LookupRecord]) -> Vec<(String, String)> {
    records.iter().map(|r| (r.dir.clone(), r.email.clone())).collect()
}

#[test]
fn adding_records_extends_the_document() {
    let one = updated_lookup_document("[]", "/l", "bob", "b@x").unwrap();
    assert_eq!(one, "[{\"dir\":\"bob\",\"email\":\"b@x\"}]");
    let two = updated_lookup_document(&one, "/l", "amy", "a@x").unwrap();
    assert_eq!(two, "[{\"dir\":\"bob\",\"email\":\"b@x\"},{\"dir\":\"amy\",\"email\":\"a@x\"}]");
    let records = vec![
        LookupRecord { dir: "bob".to_string(), email: "b@x".to_string() },
        LookupRecord { dir: "amy".to_string(), email: "a@x".to_string() },
    ];
    assert_eq!(two, lookup_document(&records));
}

#[test]
fn empty_lookup_file_holds_no_record() {
    assert_eq!(
        updated_lookup_document("", "/l", "bob", "b@x").unwrap(),
        "[{\"dir\":\"bob\",\"email\":\"b@x\"}]"
    );
}

#[test]
fn lookup_document_parses_back() {
    let records = vec![
        LookupRecord { dir: "bo\"b".to_string(), email: "b\\@x\n".to_string() },
        LookupRecord { dir: "a\u{1}m\ty".to_string(), email: "é\r".to_string() },
    ];
    let doc = lookup_document(&records);
    let parsed = parse_lookup_document(&doc).unwrap();
    assert_eq!(pairs(&parsed), pairs(&records));
    assert!(parse_lookup_document("[]").unwrap().is_empty());
}

#[test]
fn foreign_lookup_documents_are_rejected() {
    for doc in ["[ ]", "[1]", "{}", "[", "]", "[{\"dir\":\"a\",\"email\":\"b\"},]", "[{\"dir\":\"a\"}]",
        "[{\"dir\":\"a\",\"email\":\"b\"}] ", "[{\"dir\":\"a\\q\",\"email\":\"b\"}]"]
    {
        assert!(parse_lookup_document(doc).is_none(), "{}", doc);
        assert!(updated_lookup_document(doc, "/l", "x", "y").is_err());
    }
}

#[test]
fn malformed_lookup_document_is_a_configuration_error() {
    match updated_lookup_document("not json", "/l.json", "bob", "b@x") {
        Err(GitHydraError::ConfigurationError { error }) => {
            assert_eq!(error, "Lookup document is not a JSON array of records: /l.json")
        }
        _ => panic!("expected a configuration error"),
    }
    assert_eq!(
        updated_lookup_document("[]", "/l.json", "d", "e").unwrap(),
        "[{\"dir\":\"d\",\"email\":\"e\"}]"
    );
    assert_eq!(staging_path("/l.json"), "/l.json.tmp");
}

#[test]
fn errors_carry_their_message() {
    match new_gh_err("boom".to_string()) {
        GitHydraError::GenErr { error } => assert_eq!(error, "boom"),
        _ => panic!("expected a generic error"),
    }
    assert_eq!(new_gh_err("boom".to_string()).to_string(), "Generic Error message: boom");
}

#[test]
fn stages_advance_in_order() {
    let expected = [
        Action::VerifyTools,
        Action::ResolveConfig,
        Action::EnsureTemplateScript,
        Action::EnsureLookupStore,
        Action::AppendSshEntry,
        Action::CreateWorkspace,
        Action::Finish,
    ];
    let mut stage = Stage::Init;
    for action in expected {
        assert_eq!(stage.next_action(), Some(action));
        stage = stage.advance(Ok(()));
    }
    assert!(matches!(stage, Stage::Done));
    assert_eq!(stage.next_action(), None);
    assert!(stage.into_result().is_ok());
}

#[test]
fn failure_stops_the_workflow() {
    let stage = Stage::Init.advance(Ok(())).advance(Ok(()));
    let stage = stage.advance(Err(new_gh_err("first".to_string())));
    assert!(stage.is_finished());
    assert_eq!(stage.next_action(), None);
    let stage = stage.advance(Ok(()));
    let stage = stage.advance(Err(new_gh_err("second".to_string())));
    match stage.into_result() {
        Err(e) => assert_eq!(e.to_string(), "Generic Error message: first"),
        Ok(()) => panic!("expected the first failure"),
    }
}

/// Files and directories of a simulated machine.
#[derive(Default)]
struct Disk {
    files: HashMap<String, Vec<u8>>,
    dirs: Vec<String>,
}

impl Disk {
    fn ensure(&mut self, resource: Resource, path: &str) -> Result<(), GitHydraError> {
        let outcome = if self.files.contains_key(path) { OpenOutcome::Opened } else { OpenOutcome::NotFound };
        match open_action(resource, outcome, path) {
            OpenAction::UseExisting => Ok(()),
            OpenAction::CreateNew => {
                self.files.insert(path.to_string(), initial_contents(resource));
                Ok(())
            }
            OpenAction::Fail(e) => Err(e),
        }
    }

    fn register(&mut self, req: &AccountRequest, user: &str, tools: &[u8]) -> Result<(), GitHydraError> {
        let mut cfg: Option<ResolvedAccountConfig> = None;
        let mut stage = Stage::Init;
        while let Some(action) = stage.next_action() {
            let outcome = match action {
                Action::VerifyTools => required_tools()
                    .into_iter()
                    .try_for_each(|t| verify_installed(t, tools)),
                Action::ResolveConfig => {
                    cfg = Some(resolve(req, user));
                    Ok(())
                }
                Action::EnsureTemplateScript => {
                    let path = cfg.as_ref().unwrap().template_script_path.clone();
                    self.ensure(Resource::TemplateScript, &path)
                }
                Action::EnsureLookupStore => {
                    let c = cfg.as_ref().unwrap();
                    let path = c.lookup_path.clone();
                    self.ensure(Resource::LookupStore, &path).and_then(|_| {
                        let doc = String::from_utf8(self.files[&path].clone()).unwrap();
                        let updated = updated_lookup_document(&doc, &path, &c.dir_name, &c.email)?;
                        self.files.insert(path.clone(), updated.into_bytes());
                        Ok(())
                    })
                }
                Action::AppendSshEntry => {
                    let c = cfg.as_ref().unwrap();
                    let path = c.ssh_config_path.clone();
                    self.ensure(Resource::SshConfig, &path).map(|_| {
                        let entry = serialize_ssh_config_entry(&c.ssh_alias, &c.private_key_path);
                        self.files.get_mut(&path).unwrap().extend_from_slice(&entry);
                    })
                }
                Action::CreateWorkspace => {
                    let dir = cfg.as_ref().unwrap().workspace_dir.clone();
                    let outcome = if self.dirs.contains(&dir) {
                        DirOutcome::AlreadyExists
                    } else {
                        self.dirs.push(dir.clone());
                        DirOutcome::Created
                    };
                    workspace_result(outcome, "AlreadyExists")
                }
                Action::Finish => Ok(()),
            };
            stage = stage.advance(outcome);
        }
        stage.into_result()
    }
}

#[test]
fn fresh_registration_creates_everything() {
    let mut disk = Disk::default();
    assert!(disk.register(&request("bob"), "carol", b"/usr/bin/x\n").is_ok());
    assert_eq!(disk.files["/home/carol/githydra/test_script.js"], template_script_starter());
    assert_eq!(
        disk.files["/home/carol/githydra/lookup.json"],
        b"[{\"dir\":\"bob\",\"email\":\"\"}]".to_vec()
    );
    assert_eq!(
        disk.files["/home/carol/githydra/test.md"],
        serialize_ssh_config_entry("bob", "/home/carol/.ssh/id_rsa_bob")
    );
    assert_eq!(disk.dirs, vec!["/home/carol/bob".to_string()]);
}

#[test]
fn rerun_keeps_script_and_fails_on_existing_workspace() {
    let mut disk = Disk::default();
    disk.register(&request("bob"), "carol", b"/usr/bin/x\n").unwrap();
    let script = disk.files["/home/carol/githydra/test_script.js"].clone();
    let second = disk.register(&request("bob"), "carol", b"/usr/bin/x\n");
    assert!(matches!(second, Err(GitHydraError::IOFailure { .. })));
    assert_eq!(disk.files["/home/carol/githydra/test_script.js"], script);
    let entry = serialize_ssh_config_entry("bob", "/home/carol/.ssh/id_rsa_bob");
    let mut twice = entry.clone();
    twice.extend_from_slice(&entry);
    assert_eq!(disk.files["/home/carol/githydra/test.md"], twice);
    assert_eq!(disk.dirs.len(), 1);
}

#[test]
fn missing_tool_aborts_before_any_file() {
    let mut disk = Disk::default();
    match disk.register(&request("bob"), "carol", b"") {
        Err(GitHydraError::MissingDependency { error }) => {
            assert_eq!(error, "ssh-keygen must be installed")
        }
        _ => panic!("expected a missing dependency"),
    }
    assert!(disk.files.is_empty());
    assert!(disk.dirs.is_empty());
}

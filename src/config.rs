use vstd::prelude::*;
use vstd::string::*;

verus! {

/// What the caller asks for when registering one account. Every field but
/// `account` is an override; an absent one takes its default.
pub struct AccountRequest {
    /// The account identifier (the GitHub user name); never empty.
    pub account: String,
    /// Name of the account's directory under the home directory.
    pub dirname: Option<String>,
    /// SSH config file to append the host entry to.
    pub ssh_config_path: Option<String>,
    /// Directory for a newly created SSH config file (accepted, not used).
    pub ssh_config_dir: Option<String>,
    /// SSH host alias of the account.
    pub ssh_alias: Option<String>,
    /// File name of the account's key under `~/.ssh`.
    pub ssh_key_name: Option<String>,
    /// Full path of the account's private key; wins over `ssh_key_name`.
    pub ssh_privkey_path: Option<String>,
    /// Email of the account's Git identity.
    pub ssh_email: Option<String>,
    /// Location of the shared identity-switching script.
    pub template_script_path: Option<String>,
    /// Git hooks directory (accepted, not used).
    pub git_hooks_dir: Option<String>,
}

/// An `AccountRequest` with every default applied.
pub struct ResolvedAccountConfig {
    pub account: String,
    pub private_key_path: String,
    pub ssh_alias: String,
    pub template_script_path: String,
    pub lookup_path: String,
    pub ssh_config_path: String,
    pub workspace_dir: String,
    /// Name of the workspace directory, as the lookup document records it.
    pub dir_name: String,
    /// The identity email; empty where none was given.
    pub email: String,
}

/// The fields of a `ResolvedAccountConfig`, as character sequences.
pub struct ResolvedView {
    pub account: Seq<char>,
    pub private_key_path: Seq<char>,
    pub ssh_alias: Seq<char>,
    pub template_script_path: Seq<char>,
    pub lookup_path: Seq<char>,
    pub ssh_config_path: Seq<char>,
    pub workspace_dir: Seq<char>,
    pub dir_name: Seq<char>,
    pub email: Seq<char>,
}

impl View for ResolvedAccountConfig {
    type V = ResolvedView;

    open spec fn view(&self) -> ResolvedView {
        ResolvedView {
            account: self.account@,
            private_key_path: self.private_key_path@,
            ssh_alias: self.ssh_alias@,
            template_script_path: self.template_script_path@,
            lookup_path: self.lookup_path@,
            ssh_config_path: self.ssh_config_path@,
            workspace_dir: self.workspace_dir@,
            dir_name: self.dir_name@,
            email: self.email@,
        }
    }
}

/// Home directory of `user`.
pub open spec fn home_dir(user: Seq<char>) -> Seq<char> {
    "/home/"@ + user
}

/// The supplied value, else `default`.
pub open spec fn or_default(o: Option<String>, default: Seq<char>) -> Seq<char> {
    match o {
        Some(s) => s@,
        None => default,
    }
}

/// Default file name of an account's private key.
pub open spec fn default_key_name(account: Seq<char>) -> Seq<char> {
    "id_rsa_"@ + account
}

/// The configuration that `req` resolves to for the current user `user`.
pub open spec fn resolution(req: AccountRequest, user: Seq<char>) -> ResolvedView {
    let home = home_dir(user);
    ResolvedView {
        account: req.account@,
        private_key_path: or_default(
            req.ssh_privkey_path,
            home + "/.ssh/"@ + or_default(req.ssh_key_name, default_key_name(req.account@)),
        ),
        ssh_alias: or_default(req.ssh_alias, req.account@),
        template_script_path: or_default(
            req.template_script_path,
            home + "/githydra/test_script.js"@,
        ),
        lookup_path: home + "/githydra/lookup.json"@,
        ssh_config_path: or_default(req.ssh_config_path, home + "/githydra/test.md"@),
        workspace_dir: home + "/"@ + or_default(req.dirname, req.account@),
        dir_name: or_default(req.dirname, req.account@),
        email: or_default(req.ssh_email, Seq::empty()),
    }
}

fn concat(a: &str, b: &str) -> (r: String)
    ensures
        r@ == a@ + b@,
{
    let mut s = String::from_str(a);
    s.append(b);
    s
}

fn value_or(o: &Option<String>, default: String) -> (r: String)
    ensures
        r@ == or_default(*o, default@),
{
    match o {
        Some(s) => s.clone(),
        None => default,
    }
}

/// Merges the overrides of `request` with the defaults computed for the
/// current user `current_user`. Pure: no lookup happens here.
pub fn resolve(request: &AccountRequest, current_user: &str) -> (r: ResolvedAccountConfig)
    ensures
        r@ == resolution(*request, current_user@),
{
    let home = concat("/home/", current_user);
    let account = request.account.as_str();
    let key_dir = concat(home.as_str(), "/.ssh/");
    let key_name = value_or(&request.ssh_key_name, concat("id_rsa_", account));
    let private_key_path = value_or(
        &request.ssh_privkey_path,
        concat(key_dir.as_str(), key_name.as_str()),
    );
    let ssh_alias = value_or(&request.ssh_alias, request.account.clone());
    let template_script_path = value_or(
        &request.template_script_path,
        concat(home.as_str(), "/githydra/test_script.js"),
    );
    let lookup_path = concat(home.as_str(), "/githydra/lookup.json");
    let ssh_config_path = value_or(
        &request.ssh_config_path,
        concat(home.as_str(), "/githydra/test.md"),
    );
    let home_slash = concat(home.as_str(), "/");
    let dir_name = value_or(&request.dirname, request.account.clone());
    let workspace_dir = concat(home_slash.as_str(), dir_name.as_str());
    let email = value_or(&request.ssh_email, String::new());
    ResolvedAccountConfig {
        account: request.account.clone(),
        private_key_path,
        ssh_alias,
        template_script_path,
        lookup_path,
        ssh_config_path,
        workspace_dir,
        dir_name,
        email,
    }
}

/// Resolution depends on the request and the current user alone: two
/// configurations that `resolve` may return for the same inputs agree in
/// every field.
pub proof fn lemma_resolve_deterministic(
    request: AccountRequest,
    current_user: Seq<char>,
    r1: ResolvedAccountConfig,
    r2: ResolvedAccountConfig,
)
    requires
        r1@ == resolution(request, current_user),
        r2@ == resolution(request, current_user),
    ensures
        r1@ == r2@,
{
}

} // verus!

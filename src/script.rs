use vstd::prelude::*;
use vstd::string::*;
use vstd::utf8::*;

verus! {

/// Module imports that open the generated helper script.
pub const SCRIPT_IMPORTS: &'static str = r#"const util = require('node:util');
const exec = util.promisify(require('node:child_process').exec);
const fs = require('node:fs/promises');

"#;

/// The helper that reads the lookup document.
pub const SCRIPT_GET_LOOKUP: &'static str = r#"
const get_lookup = async () => {
    let f = await fs.readFile('./lookup.json', {encoding: 'utf8'});
    let obj = JSON.parse(f);
    return obj
};

"#;

/// The entry point: sets the Git identity of the first lookup record whose
/// directory is a prefix of the current repository's root.
pub const SCRIPT_MAIN: &'static str = r#"
(async () => {

	const username = await get_whoami();
	const repo_root = await get_repo_root();
	const lookup = await get_lookup();

	for (let x = 0; x < lookup.length; x++) {
		// If the current repo path starts with a known lookup entry, set git config.email to corresp email
		if (repo_root.startsWith(`/home/${username}/${lookup[x].dir}`)) {
			const res = await exec (`git config user.email "${lookup[x].email}"`);
			if (res.stderr) {
				console.error(`Error setting git config user.email | ${res.stderr}`);
				process.exit(1);
			}
			const res2 = await exec (`git config user.name "${lookup[x].dir}"`);
			if (res2.stderr) {
				console.error(`Error setting git config user.name | ${res.stderr}`);
				process.exit(1);
			}
			console.log(`Git config user.email updated to ${lookup[x].email}`);
			console.log(`Git config user.name updated to ${lookup[x].dir}`);
			process.exit(0);
		}
	}

	console.log(`Directory doesnt match any known entries. Leaving git config email as default`);
	process.exit(0);
})();

"#;


/// The generated script defines one helper per external command: it runs the
/// command, exits on anything written to stderr, and returns the first line
/// of the command's output. These are the fixed pieces around the helper's
/// name, command and error message.
pub const HELPER_OPEN: &'static str = "\nconst get_";
pub const HELPER_LET: &'static str = " = async () => {\n    let ";
pub const HELPER_EXEC: &'static str = " = await exec('";
pub const HELPER_IF: &'static str = "');\n    if (";
pub const HELPER_ERR: &'static str = ".stderr) {\n        console.error(`";
pub const HELPER_RETURN: &'static str = "`);\n        process.exit(1);\n    }\n    return (";
pub const HELPER_HAS_LINE: &'static str = r#".stdout.indexOf('\n') != -1) ? "#;
pub const HELPER_FIRST_LINE: &'static str = ".stdout.substring(0, ";
pub const HELPER_LINE_END: &'static str = r#".stdout.indexOf('\n')) : "#;
pub const HELPER_CLOSE: &'static str = ".stdout\n};\n\n";

/// Text of the helper `get_<name>`, which runs `cmd` and reports `err` on failure.
pub open spec fn command_helper_text(name: Seq<char>, cmd: Seq<char>, err: Seq<char>) -> Seq<char> {
    HELPER_OPEN@ + name + HELPER_LET@ + name + HELPER_EXEC@ + cmd + HELPER_IF@ + name
        + HELPER_ERR@ + err + HELPER_RETURN@ + name + HELPER_HAS_LINE@ + name
        + HELPER_FIRST_LINE@ + name + HELPER_LINE_END@ + name + HELPER_CLOSE@
}

/// Full text of the identity-switching script.
pub open spec fn template_script_text() -> Seq<char> {
    SCRIPT_IMPORTS@
        + command_helper_text("whoami"@, "whoami"@, "Error getting current user via whoami"@)
        + command_helper_text(
        "repo_root"@,
        "git rev-parse --show-toplevel"@,
        "Error getting repo root"@,
    ) + SCRIPT_GET_LOOKUP@ + SCRIPT_MAIN@
}

/// Renders the helper `get_<name>`.
pub fn command_helper(name: &str, cmd: &str, err: &str) -> (r: String)
    ensures
        r@ == command_helper_text(name@, cmd@, err@),
{
    let mut s = String::from_str(HELPER_OPEN);
    s.append(name);
    s.append(HELPER_LET);
    s.append(name);
    s.append(HELPER_EXEC);
    s.append(cmd);
    s.append(HELPER_IF);
    s.append(name);
    s.append(HELPER_ERR);
    s.append(err);
    s.append(HELPER_RETURN);
    s.append(name);
    s.append(HELPER_HAS_LINE);
    s.append(name);
    s.append(HELPER_FIRST_LINE);
    s.append(name);
    s.append(HELPER_LINE_END);
    s.append(name);
    s.append(HELPER_CLOSE);
    s
}

/// The bytes written to a newly created template script.
pub fn template_script_starter() -> (r: Vec<u8>)
    ensures
        r@ == encode_utf8(template_script_text()),
{
    let mut s = String::from_str(SCRIPT_IMPORTS);
    let whoami = command_helper("whoami", "whoami", "Error getting current user via whoami");
    s.append(whoami.as_str());
    let repo_root = command_helper(
        "repo_root",
        "git rev-parse --show-toplevel",
        "Error getting repo root",
    );
    s.append(repo_root.as_str());
    s.append(SCRIPT_GET_LOOKUP);
    s.append(SCRIPT_MAIN);
    s.as_str().as_bytes_vec()
}

} // verus!

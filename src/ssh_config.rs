use vstd::prelude::*;
use vstd::string::*;
use vstd::utf8::*;

verus! {

/// Text of one host block of the SSH config file, selecting `identity_file`
/// when connecting to GitHub through the host alias `alias`.
pub open spec fn ssh_entry_text(alias: Seq<char>, identity_file: Seq<char>) -> Seq<char> {
    "# "@ + alias + " github\nHost "@ + alias
        + "\n        HostName github.com\n        User git\n        IdentityFile "@ + identity_file
        + "\n\n"@
}

/// Contents of the SSH config file after one entry for `alias` was appended
/// to `before`. The writer appends unconditionally: an alias that is already
/// present is not looked for.
pub open spec fn ssh_config_after(before: Seq<u8>, alias: Seq<char>, identity_file: Seq<char>) -> Seq<u8> {
    before + encode_utf8(ssh_entry_text(alias, identity_file))
}

/// Serialises the host block for `hostname`, as UTF-8 bytes ready to be
/// appended to the SSH config file.
pub fn serialize_ssh_config_entry(hostname: &str, privkeypath: &str) -> (r: Vec<u8>)
    ensures
        r@ == encode_utf8(ssh_entry_text(hostname@, privkeypath@)),
{
    let mut entry = String::from_str("# ");
    entry.append(hostname);
    entry.append(" github\nHost ");
    entry.append(hostname);
    entry.append("\n        HostName github.com\n        User git\n        IdentityFile ");
    entry.append(privkeypath);
    entry.append("\n\n");
    entry.as_str().as_bytes_vec()
}

/// Running the SSH config writer twice for the same account keeps every byte
/// that was in the file, and leaves two copies of the entry behind it.
pub proof fn lemma_ssh_writer_appends_each_run(
    before: Seq<u8>,
    alias: Seq<char>,
    identity_file: Seq<char>,
)
    ensures
        ({
            let once = ssh_config_after(before, alias, identity_file);
            let twice = ssh_config_after(once, alias, identity_file);
            let entry = encode_utf8(ssh_entry_text(alias, identity_file));
            &&& once.subrange(0, before.len() as int) == before
            &&& twice.subrange(0, before.len() as int) == before
            &&& twice == before + entry + entry
            &&& twice.len() == before.len() + 2 * entry.len()
        }),
{
    let entry = encode_utf8(ssh_entry_text(alias, identity_file));
    let once = ssh_config_after(before, alias, identity_file);
    let twice = ssh_config_after(once, alias, identity_file);
    assert(once.subrange(0, before.len() as int) =~= before);
    assert(twice.subrange(0, before.len() as int) =~= before);
}

} // verus!

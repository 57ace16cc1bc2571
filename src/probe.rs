use vstd::prelude::*;
use vstd::string::*;
use crate::error::GitHydraError;

verus! {

/// The external tools that must be installed before any file is touched.
#[allow(non_camel_case_types)]
#[derive(Clone, Copy, Debug, PartialEq, Eq, Structural)]
pub enum ToVerify {
    GIT,
    SSH_KEYGEN,
}

/// Name of the executable looked up for `tool`.
pub open spec fn tool_name(tool: ToVerify) -> Seq<char> {
    match tool {
        ToVerify::GIT => "git"@,
        ToVerify::SSH_KEYGEN => "ssh-keygen"@,
    }
}

/// Message reported when `tool` cannot be located.
pub open spec fn missing_tool_message(tool: ToVerify) -> Seq<char> {
    tool_name(tool) + " must be installed"@
}

impl ToVerify {
    /// Name of the executable to locate on the search path.
    pub fn program_name(&self) -> (r: &'static str)
        ensures
            r@ == tool_name(*self),
    {
        match self {
            ToVerify::GIT => "git",
            ToVerify::SSH_KEYGEN => "ssh-keygen",
        }
    }
}

/// The tools to probe, in the order in which they are probed.
pub fn required_tools() -> (r: Vec<ToVerify>)
    ensures
        r@ == seq![ToVerify::SSH_KEYGEN, ToVerify::GIT],
{
    vec![ToVerify::SSH_KEYGEN, ToVerify::GIT]
}

/// Decides from the output of the locate-executable probe for `prog` whether
/// the tool is installed: empty output means it is not, whatever the probe's
/// exit status was.
pub fn verify_installed(prog: ToVerify, probe_output: &[u8]) -> (r: Result<(), GitHydraError>)
    ensures
        r is Ok <==> probe_output@.len() > 0,
        r is Err ==> (r matches Err(GitHydraError::MissingDependency { error })
            && error@ == missing_tool_message(prog)),
{
    if probe_output.len() == 0 {
        let mut error = String::from_str(prog.program_name());
        error.append(" must be installed");
        Err(GitHydraError::MissingDependency { error })
    } else {
        Ok(())
    }
}

/// Characters dropped from both ends of a probe's output: those with the
/// Unicode `White_Space` property.
pub open spec fn is_blank(c: char) -> bool {
    let u = c as u32;
    (0x9 <= u && u <= 0xd) || u == 0x20 || u == 0x85 || u == 0xa0 || u == 0x1680 || (0x2000 <= u
        && u <= 0x200a) || u == 0x2028 || u == 0x2029 || u == 0x202f || u == 0x205f || u == 0x3000
}

/// `s` without its leading and trailing blanks.
pub open spec fn trimmed(s: Seq<char>) -> Seq<char>
    decreases s.len(),
{
    if s.len() > 0 && is_blank(s[0]) {
        trimmed(s.drop_first())
    } else if s.len() > 0 && is_blank(s.last()) {
        trimmed(s.drop_last())
    } else {
        s
    }
}

/// The name of the current user, from the output of the "who am I" probe:
/// the output without the whitespace around it (its final line break
/// among it).
pub fn user_from_probe(output: &str) -> (r: String)
    ensures
        r@ == trimmed(output@),
{
    let n = output.unicode_len();
    let mut lo: usize = 0;
    let mut hi: usize = n;
    assert(output@.subrange(0, n as int) =~= output@);
    while lo < hi && is_blank_char(output.get_char(lo))
        invariant
            n == output@.len(),
            lo <= hi == n,
            trimmed(output@) == trimmed(output@.subrange(lo as int, hi as int)),
        decreases hi - lo,
    {
        assert(output@.subrange(lo as int, hi as int).drop_first()
            =~= output@.subrange(lo + 1, hi as int));
        lo = lo + 1;
    }
    while lo < hi && is_blank_char(output.get_char(hi - 1))
        invariant
            n == output@.len(),
            lo <= hi <= n,
            lo < hi ==> !is_blank(output@[lo as int]),
            trimmed(output@) == trimmed(output@.subrange(lo as int, hi as int)),
        decreases hi - lo,
    {
        assert(output@.subrange(lo as int, hi as int).drop_last()
            =~= output@.subrange(lo as int, hi - 1));
        hi = hi - 1;
    }
    String::from_str(output.substring_char(lo, hi))
}

fn is_blank_char(c: char) -> (r: bool)
    ensures
        r == is_blank(c),
{
    let u = c as u32;
    (0x9 <= u && u <= 0xd) || u == 0x20 || u == 0x85 || u == 0xa0 || u == 0x1680 || (0x2000 <= u
        && u <= 0x200a) || u == 0x2028 || u == 0x2029 || u == 0x202f || u == 0x205f || u == 0x3000
}

} // verus!

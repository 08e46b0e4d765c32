//! Resolution of the filesystem path of a required external tool.
//!
//! A tool is looked for at an environment-variable override first, then at a
//! short fixed list of conventional install paths. The surrounding program
//! reads the override and checks which candidate paths exist on disk; the
//! choice among the candidates is made here: the first existing one wins,
//! and a tool with no existing candidate fails the start request with
//! `ExecutableNotFound`. The path is resolved anew on every start attempt,
//! never cached, since the tool's location may change.

use vstd::prelude::*;
use vstd::string::StringExecFns;

use crate::error::OrchestratorError;

verus! {

/// One place a tool may be installed, together with whether a file exists
/// there. Candidates are ordered: an environment-variable override comes
/// before the conventional paths.
pub struct ExecCandidate {
    /// The filesystem path of the candidate.
    pub path: String,
    /// Whether filesystem metadata was found at the path.
    pub exists: bool,
}

/// The position of the first existing candidate at or after `i`.
pub open spec fn first_existing_from(c: Seq<ExecCandidate>, i: int) -> Option<int>
    decreases c.len() - i,
{
    if 0 <= i < c.len() {
        if c[i].exists {
            Option::Some(i)
        } else {
            first_existing_from(c, i + 1)
        }
    } else {
        Option::None
    }
}

/// Picks the path of the first candidate that exists on disk, or fails with
/// `ExecutableNotFound` when none does.
pub fn locate_executable(candidates: &Vec<ExecCandidate>) -> (r: Result<
    String,
    OrchestratorError,
>)
    ensures
        match r {
            Ok(p) => {
                &&& first_existing_from(candidates@, 0) is Some
                &&& p@ == candidates@[first_existing_from(candidates@, 0)->0].path@
            },
            Err(e) => {
                &&& first_existing_from(candidates@, 0) is None
                &&& e == OrchestratorError::ExecutableNotFound
            },
        },
{
    let ghost c = candidates@;
    let mut i: usize = 0;
    while i < candidates.len()
        invariant
            c == candidates@,
            0 <= i <= c.len(),
            first_existing_from(c, 0) == first_existing_from(c, i as int),
        decreases c.len() - i,
    {
        if candidates[i].exists {
            assert(first_existing_from(c, i as int) == Option::Some(i as int));
            return Ok(candidates[i].path.clone());
        }
        i = i + 1;
    }
    Err(OrchestratorError::ExecutableNotFound)
}

/// Orders the places a tool is looked for: the environment-variable
/// override, when one is set, comes before the conventional install paths.
/// The surrounding program reads the variable and checks each path's
/// existence; the order is decided here.
pub fn candidate_paths(env_override: Option<String>, fallbacks: Vec<String>) -> (r: Vec<String>)
    ensures
        match env_override {
            Some(p) => r@ == seq![p] + fallbacks@,
            None => r@ == fallbacks@,
        },
{
    let ghost ov = env_override;
    let ghost rest = fallbacks@;
    let mut tail = fallbacks;
    let mut r: Vec<String> = Vec::new();
    if let Some(p) = env_override {
        r.push(p);
    }
    r.append(&mut tail);
    proof {
        if ov is Some {
            assert(r@ =~= seq![ov->0] + rest);
        } else {
            assert(r@ =~= rest);
        }
    }
    r
}

/// The conventional install paths of the companion-bot tool, in the order
/// they are tried after the environment override.
pub fn ytbot_fallback_paths() -> (r: Vec<String>)
    ensures
        r@.len() == 2,
        r@[0]@ == "/usr/local/bin/ytbot.sh"@,
        r@[1]@ == "/usr/local/bin/ytbot.py"@,
{
    let mut r: Vec<String> = Vec::new();
    r.push(String::from_str("/usr/local/bin/ytbot.sh"));
    r.push(String::from_str("/usr/local/bin/ytbot.py"));
    r
}

/// The conventional install paths of the transcoder, in the order they are
/// tried after the environment override.
pub fn ffmpeg_fallback_paths() -> (r: Vec<String>)
    ensures
        r@.len() == 2,
        r@[0]@ == "/usr/bin/ffmpeg"@,
        r@[1]@ == "/usr/local/bin/ffmpeg"@,
{
    let mut r: Vec<String> = Vec::new();
    r.push(String::from_str("/usr/bin/ffmpeg"));
    r.push(String::from_str("/usr/local/bin/ffmpeg"));
    r
}

/// The conventional install path of the stream-capture tool: a per-user
/// virtual environment under the given home directory. The home directory
/// is handed in without a trailing separator.
pub fn streamlink_default_path(home: &str) -> (r: String)
    ensures
        r@ == home@ + "/livebot/venv/bin/streamlink"@,
{
    let mut r = String::from_str(home);
    r.append("/livebot/venv/bin/streamlink");
    r
}

} // verus!

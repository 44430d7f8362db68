//! Decisions around the transcription engine invocation.
//!
//! Running the engine binary and reading its output file are external work;
//! the library computes the candidate binary locations, decides which one
//! is used, and names the output file the engine is expected to produce.

use vstd::prelude::*;

use crate::error::AssistantError;

verus! {

/// The preferred engine binary location under the engine directory.
pub open spec fn cli_candidate(dir: Seq<char>) -> Seq<char> {
    dir + "/build/bin/whisper-cli"@
}

/// The older engine binary location probed when the preferred one is
/// missing.
pub open spec fn fallback_candidate(dir: Seq<char>) -> Seq<char> {
    dir + "/build/bin/main"@
}

/// Pick the engine binary: the preferred candidate if it exists, else the
/// fallback if that exists, else the explicit not-found error carrying both
/// probed locations. The caller reports whether each candidate location
/// exists on disk.
pub fn find_whisper_binary(whisper_dir: &str, cli_exists: bool, fallback_exists: bool) -> (r:
    Result<String, AssistantError>)
    ensures
        cli_exists ==> (r matches Ok(p) && p@ == cli_candidate(whisper_dir@)),
        !cli_exists && fallback_exists ==> (r matches Ok(p) && p@ == fallback_candidate(
            whisper_dir@,
        )),
        !cli_exists && !fallback_exists ==> (r matches Err(e) && (e matches
            AssistantError::WhisperNotFound { cli, fallback } && cli@ == cli_candidate(whisper_dir@)
            && fallback@ == fallback_candidate(whisper_dir@))),
{
    if cli_exists {
        let mut p = whisper_dir.to_owned();
        p.append("/build/bin/whisper-cli");
        Ok(p)
    } else if fallback_exists {
        let mut p = whisper_dir.to_owned();
        p.append("/build/bin/main");
        Ok(p)
    } else {
        let mut cli = whisper_dir.to_owned();
        cli.append("/build/bin/whisper-cli");
        let mut fallback = whisper_dir.to_owned();
        fallback.append("/build/bin/main");
        Err(AssistantError::WhisperNotFound { cli, fallback })
    }
}

/// Where the engine writes the transcription for a given recording: the
/// recording's path with a text suffix.
pub fn transcript_output_path(wav_path: &str) -> (r: String)
    ensures
        r@ == wav_path@ + ".txt"@,
{
    let mut p = wav_path.to_owned();
    p.append(".txt");
    p
}

/// Blank characters the engine pads its output with.
pub open spec fn is_space(c: char) -> bool {
    c == ' ' || c == '\t' || c == '\n' || c == '\r'
}

/// The first index at or after `i` holding something other than blanks.
pub open spec fn trim_start_idx(s: Seq<char>, i: int) -> int
    decreases s.len() - i,
{
    if i < 0 || i >= s.len() {
        i
    } else if is_space(s[i]) {
        trim_start_idx(s, i + 1)
    } else {
        i
    }
}

/// The end of the last non-blank content strictly before `j`.
pub open spec fn trim_end_idx(s: Seq<char>, j: int) -> int
    decreases j,
{
    if j <= 0 {
        j
    } else if is_space(s[j - 1]) {
        trim_end_idx(s, j - 1)
    } else {
        j
    }
}

/// The text with leading and trailing blanks removed.
pub open spec fn trimmed(s: Seq<char>) -> Seq<char> {
    let lo = trim_start_idx(s, 0);
    let hi = trim_end_idx(s, s.len() as int);
    if lo <= hi {
        s.subrange(lo, hi)
    } else {
        Seq::empty()
    }
}

fn is_space_char(c: char) -> (r: bool)
    ensures
        r == is_space(c),
{
    c == ' ' || c == '\t' || c == '\n' || c == '\r'
}

/// The engine's raw output with the blanks it pads with removed from both
/// ends.
pub fn trimmed_text(s: &str) -> (r: String)
    ensures
        r@ == trimmed(s@),
{
    let len = s.unicode_len();
    let mut lo: usize = 0;
    while lo < len && is_space_char(s.get_char(lo))
        invariant
            len == s@.len(),
            0 <= lo <= len,
            trim_start_idx(s@, 0) == trim_start_idx(s@, lo as int),
        decreases len - lo,
    {
        lo = lo + 1;
    }
    assert(trim_start_idx(s@, 0) == lo as int);
    let mut hi: usize = len;
    while hi > 0 && is_space_char(s.get_char(hi - 1))
        invariant
            len == s@.len(),
            0 <= hi <= len,
            trim_end_idx(s@, len as int) == trim_end_idx(s@, hi as int),
        decreases hi,
    {
        hi = hi - 1;
    }
    assert(trim_end_idx(s@, len as int) == hi as int);
    if lo <= hi {
        s.substring_char(lo, hi).to_owned()
    } else {
        String::new()
    }
}

} // verus!

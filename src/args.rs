use vstd::prelude::*;

verus! {

/// The command-line options of the daemon.
#[derive(Debug)]
pub struct Args {
    /// The path to the main config file.
    pub config: String,
    /// More verbose logging.
    pub verbose: bool,
    /// Run the daemon detached from the terminal.
    pub daemon: bool,
}

/// Whether `pat` occurs in `s` as a contiguous run of characters.
pub open spec fn contains_seq(s: Seq<char>, pat: Seq<char>) -> bool {
    exists|i: int| 0 <= i && i + pat.len() <= s.len() && #[trigger] s.subrange(i, i + pat.len()) == pat
}

/// The word that a Raspberry Pi's device-tree model string carries.
pub open spec fn board_marker() -> Seq<char> {
    "Raspberry"@
}

/// How the process is to run.
#[derive(Debug, Clone, Copy, PartialEq, Eq, Structural)]
pub enum StartMode {
    /// In the foreground, attached to the terminal.
    Foreground,
    /// Detached, with output sent to a log file.
    Daemon,
}

/// Why the process refuses to start.
#[derive(Debug, Clone, Copy, PartialEq, Eq, Structural)]
pub enum StartError {
    /// Daemon mode was asked for on a device that is not known to be a
    /// Raspberry Pi.
    UnknownDevice,
}

fn matches_at(s: &str, s_len: usize, pat: &str, pat_len: usize, at: usize) -> (r: bool)
    requires
        s_len == s@.len(),
        pat_len == pat@.len(),
        at + pat_len <= s_len,
    ensures
        r == (s@.subrange(at as int, at + pat_len) == pat@),
{
    let mut k: usize = 0;
    while k < pat_len
        invariant
            k <= pat_len,
            at + pat_len <= s_len,
            s_len == s@.len(),
            pat_len == pat@.len(),
            forall|j: int| 0 <= j < k ==> s@[at + j] == pat@[j],
        decreases pat_len - k,
    {
        if s.get_char(at + k) != pat.get_char(k) {
            proof {
                assert(s@.subrange(at as int, at + pat_len)[k as int] != pat@[k as int]);
            }
            return false;
        }
        k = k + 1;
    }
    proof {
        assert(s@.subrange(at as int, at + pat_len) =~= pat@);
    }
    true
}

/// Whether `pat` occurs in `s`.
pub fn contains_str(s: &str, pat: &str) -> (r: bool)
    ensures
        r == contains_seq(s@, pat@),
{
    let s_len = s.unicode_len();
    let pat_len = pat.unicode_len();
    if pat_len > s_len {
        return false;
    }
    let mut at: usize = 0;
    while at <= s_len - pat_len
        invariant
            s_len == s@.len(),
            pat_len == pat@.len(),
            pat_len <= s_len,
            at <= s_len - pat_len,
            forall|i: int| 0 <= i < at ==> #[trigger] s@.subrange(i, i + pat@.len()) != pat@,
        decreases s_len - pat_len - at,
    {
        if matches_at(s, s_len, pat, pat_len, at) {
            return true;
        }
        if at == s_len - pat_len {
            return false;
        }
        at = at + 1;
    }
    false
}

/// Whether a device-tree model string names a Raspberry Pi.
pub fn is_raspberry_model(model: &str) -> (r: bool)
    ensures
        r == contains_seq(model@, board_marker()),
{
    contains_str(model, "Raspberry")
}

/// Decides how to run: daemon mode is granted only on a device whose model
/// string could be read and names a Raspberry Pi; otherwise asking for it is
/// refused. Without it the process runs in the foreground.
pub fn start_mode(daemon: bool, model: Option<&str>) -> (r: Result<StartMode, StartError>)
    ensures
        !daemon ==> r == Ok::<StartMode, StartError>(StartMode::Foreground),
        daemon ==> r == (if model is Some && contains_seq(model->Some_0@, board_marker()) {
            Ok::<StartMode, StartError>(StartMode::Daemon)
        } else {
            Err(StartError::UnknownDevice)
        }),
{
    if !daemon {
        return Ok(StartMode::Foreground);
    }
    let known = match model {
        Some(m) => is_raspberry_model(m),
        None => false,
    };
    if known {
        Ok(StartMode::Daemon)
    } else {
        Err(StartError::UnknownDevice)
    }
}

} // verus!

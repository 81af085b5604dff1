//! Filtering of enumerated processes and candidate paths: the compute
//! half of the shell's process listing and install-path probing. The
//! enumeration itself — process snapshots, filesystem checks — is OS
//! work of the surrounding shell, which hands the results in as plain
//! values.
use vstd::prelude::*;
use vstd::string::{StrSliceExecFns, StringExecFns};

use crate::error::EngineError;

verus! {

/// Whether `s` begins with `p`.
pub open spec fn spec_starts_with(s: Seq<char>, p: Seq<char>) -> bool {
    p.len() <= s.len() && s.subrange(0, p.len() as int) == p
}

/// Whether `s` ends with `p`.
pub open spec fn spec_ends_with(s: Seq<char>, p: Seq<char>) -> bool {
    p.len() <= s.len() && s.subrange(s.len() - p.len(), s.len() as int) == p
}

/// Whether `s` begins with `prefix`, by characters.
pub fn str_starts_with(s: &str, prefix: &str) -> (r: bool)
    ensures
        r == spec_starts_with(s@, prefix@),
{
    let n = prefix.unicode_len();
    let m = s.unicode_len();
    if n > m {
        return false;
    }
    let mut i: usize = 0;
    while i < n
        invariant
            i <= n,
            n == prefix@.len(),
            m == s@.len(),
            n <= m,
            forall|j: int| 0 <= j < i ==> s@[j] == prefix@[j],
        decreases n - i,
    {
        if s.get_char(i) != prefix.get_char(i) {
            proof {
                assert(s@.subrange(0, n as int)[i as int] != prefix@[i as int]);
            }
            return false;
        }
        i = i + 1;
    }
    proof {
        assert(s@.subrange(0, n as int) =~= prefix@);
    }
    true
}

/// Whether `s` ends with `suffix`, by characters.
pub fn str_ends_with(s: &str, suffix: &str) -> (r: bool)
    ensures
        r == spec_ends_with(s@, suffix@),
{
    let n = suffix.unicode_len();
    let m = s.unicode_len();
    if n > m {
        return false;
    }
    let off = m - n;
    let mut i: usize = 0;
    while i < n
        invariant
            i <= n,
            n == suffix@.len(),
            m == s@.len(),
            off == m - n,
            forall|j: int| 0 <= j < i ==> s@[off + j] == suffix@[j],
        decreases n - i,
    {
        if s.get_char(off + i) != suffix.get_char(i) {
            proof {
                assert(s@.subrange(off as int, m as int)[i as int] != suffix@[i as int]);
            }
            return false;
        }
        i = i + 1;
    }
    proof {
        assert(s@.subrange(off as int, m as int) =~= suffix@);
    }
    true
}

/// One process the shell enumerated.
pub struct ProcessEntry {
    /// The executable's file name.
    pub name: String,
    /// The process identifier.
    pub pid: u32,
}

/// Whether an enumerated process belongs in the user-visible list: a
/// named executable that is neither a service-host or system process nor
/// a screen saver.
pub open spec fn spec_keep_process(name: Seq<char>) -> bool {
    &&& name.len() > 0
    &&& !spec_starts_with(name, "svchost"@)
    &&& !spec_starts_with(name, "System"@)
    &&& !spec_ends_with(name, ".scr"@)
}

/// The enumerated processes that belong in the user-visible list, in
/// their original order.
pub open spec fn spec_gui_processes(s: Seq<ProcessEntry>) -> Seq<ProcessEntry>
    decreases s.len(),
{
    if s.len() == 0 {
        Seq::empty()
    } else {
        let rest = spec_gui_processes(s.drop_last());
        if spec_keep_process(s.last().name@) {
            rest.push(s.last())
        } else {
            rest
        }
    }
}

/// The user-visible process list, capped at `limit` entries.
pub open spec fn spec_gui_process_list(s: Seq<ProcessEntry>, limit: int) -> Seq<ProcessEntry> {
    let kept = spec_gui_processes(s);
    if kept.len() <= limit {
        kept
    } else {
        kept.subrange(0, limit)
    }
}

/// Filters an enumerated process list down to the user-visible
/// applications, keeping at most `limit` of them.
pub fn filter_gui_processes(entries: &Vec<ProcessEntry>, limit: usize) -> (r: Vec<ProcessEntry>)
    ensures
        r@ == spec_gui_process_list(entries@, limit as int),
{
    let mut kept: Vec<ProcessEntry> = Vec::new();
    let mut i: usize = 0;
    while i < entries.len()
        invariant
            i <= entries@.len(),
            kept@ == spec_gui_processes(entries@.take(i as int)),
        decreases entries@.len() - i,
    {
        proof {
            assert(entries@.take(i + 1).drop_last() =~= entries@.take(i as int));
            assert(entries@.take(i + 1).last() == entries@[i as int]);
        }
        let name = entries[i].name.as_str();
        let keep = name.unicode_len() > 0 && !str_starts_with(name, "svchost")
            && !str_starts_with(name, "System") && !str_ends_with(name, ".scr");
        if keep {
            kept.push(ProcessEntry { name: entries[i].name.clone(), pid: entries[i].pid });
            proof {
                assert(ProcessEntry {
                    name: entries@[i as int].name,
                    pid: entries@[i as int].pid,
                } == entries@[i as int]);
            }
        }
        proof {
            assert(kept@ =~= spec_gui_processes(entries@.take(i + 1)));
        }
        i = i + 1;
    }
    proof {
        assert(entries@.take(entries@.len() as int) =~= entries@);
    }
    kept.truncate(limit);
    proof {
        if spec_gui_processes(entries@).len() > limit as int {
            assert(kept@ =~= spec_gui_process_list(entries@, limit as int));
        }
    }
    kept
}

/// The given candidate paths that are non-empty and were found to exist,
/// the flags matched to the paths by position.
pub open spec fn spec_installed_paths(paths: Seq<String>, exists: Seq<bool>) -> Seq<String>
    recommends
        paths.len() == exists.len(),
    decreases paths.len(),
{
    if paths.len() == 0 {
        Seq::empty()
    } else {
        let rest = spec_installed_paths(paths.drop_last(), exists.drop_last());
        if exists.last() && paths.last()@.len() > 0 {
            rest.push(paths.last())
        } else {
            rest
        }
    }
}

/// Filters candidate install paths down to those that are non-empty and
/// exist, `exists` holding the shell's filesystem answer per path.
pub fn filter_installed_paths(paths: &Vec<String>, exists: &Vec<bool>) -> (r: Vec<String>)
    requires
        paths@.len() == exists@.len(),
    ensures
        r@ == spec_installed_paths(paths@, exists@),
{
    let mut out: Vec<String> = Vec::new();
    let mut i: usize = 0;
    while i < paths.len()
        invariant
            i <= paths@.len(),
            paths@.len() == exists@.len(),
            out@ == spec_installed_paths(paths@.take(i as int), exists@.take(i as int)),
        decreases paths@.len() - i,
    {
        proof {
            assert(paths@.take(i + 1).drop_last() =~= paths@.take(i as int));
            assert(exists@.take(i + 1).drop_last() =~= exists@.take(i as int));
            assert(paths@.take(i + 1).last() == paths@[i as int]);
            assert(exists@.take(i + 1).last() == exists@[i as int]);
        }
        if exists[i] && paths[i].as_str().unicode_len() > 0 {
            out.push(paths[i].clone());
        }
        proof {
            assert(out@ =~= spec_installed_paths(paths@.take(i + 1), exists@.take(i + 1)));
        }
        i = i + 1;
    }
    proof {
        assert(paths@.take(paths@.len() as int) =~= paths@);
        assert(exists@.take(exists@.len() as int) =~= exists@);
    }
    out
}

/// Whether `p` occurs in `s` as a contiguous run of characters.
pub open spec fn spec_contains_sub(s: Seq<char>, p: Seq<char>) -> bool {
    exists|k: int| 0 <= k <= s.len() - p.len() && #[trigger] s.subrange(k, k + p.len()) == p
}

/// Whether `p` matches `s` at position `k`.
fn matches_at(s: &str, p: &str, k: usize) -> (r: bool)
    requires
        k + p@.len() <= s@.len(),
    ensures
        r == (s@.subrange(k as int, k + p@.len()) == p@),
{
    let n = p.unicode_len();
    let m = s.unicode_len();
    let mut j: usize = 0;
    while j < n
        invariant
            j <= n,
            n == p@.len(),
            m == s@.len(),
            k + n <= m,
            forall|t: int| 0 <= t < j ==> s@[k + t] == p@[t],
        decreases n - j,
    {
        if s.get_char(k + j) != p.get_char(j) {
            proof {
                assert(s@.subrange(k as int, k + n as int)[j as int] != p@[j as int]);
            }
            return false;
        }
        j = j + 1;
    }
    proof {
        assert(s@.subrange(k as int, k + n as int) =~= p@);
    }
    true
}

/// Whether `s` contains `sub`, by characters.
pub fn str_contains(s: &str, sub: &str) -> (r: bool)
    ensures
        r == spec_contains_sub(s@, sub@),
{
    let n = sub.unicode_len();
    let m = s.unicode_len();
    if n > m {
        return false;
    }
    if n == 0 {
        proof {
            assert(s@.subrange(0, 0 + sub@.len() as int) =~= sub@);
            assert(spec_contains_sub(s@, sub@));
        }
        return true;
    }
    let mut k: usize = 0;
    while k <= m - n
        invariant
            1 <= n <= m,
            n == sub@.len(),
            m == s@.len(),
            k <= m - n + 1,
            forall|t: int| 0 <= t < k ==> #[trigger] s@.subrange(t, t + n as int) != sub@,
        decreases m + 1 - n - k,
    {
        if matches_at(s, sub, k) {
            proof {
                assert(s@.subrange(k as int, k + n as int) == sub@);
            }
            return true;
        }
        k = k + 1;
    }
    false
}

/// Whether a file name is a launchable game executable: it ends in
/// `.exe` and is neither an uninstaller, a setup program nor an
/// installer.
pub open spec fn spec_is_game_executable(name: Seq<char>) -> bool {
    &&& spec_ends_with(name, ".exe"@)
    &&& !spec_contains_sub(name, "unins"@)
    &&& !spec_contains_sub(name, "setup"@)
    &&& !spec_contains_sub(name, "installer"@)
}

/// Decides whether a file name is a launchable game executable.
pub fn is_game_executable_name(name: &str) -> (r: bool)
    ensures
        r == spec_is_game_executable(name@),
{
    str_ends_with(name, ".exe") && !str_contains(name, "unins") && !str_contains(name, "setup")
        && !str_contains(name, "installer")
}

/// The reply when a manually added game entry is accepted.
pub open spec fn spec_added_game_message(name: Seq<char>) -> Seq<char> {
    "game '"@ + name + "' added"@
}

/// Validates a manually added game entry: the executable must exist at
/// `exe_path` (`exists` being the shell's filesystem answer).
pub fn add_manual_game(name: &str, exe_path: &str, exists: bool) -> (r: Result<String, EngineError>)
    ensures
        r is Ok <==> exists,
        r matches Ok(t) ==> t@ == spec_added_game_message(name@),
        r matches Err(e) ==> (e matches EngineError::ExecutableNotFound(p) && p@ == exe_path@),
{
    if exists {
        let mut t = String::from_str("game '");
        t.append(name);
        t.append("' added");
        Ok(t)
    } else {
        Err(EngineError::ExecutableNotFound(String::from_str(exe_path)))
    }
}

} // verus!

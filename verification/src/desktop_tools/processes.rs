//! Killing processes safely: which processes a kill request may end (never
//! this server, never a system-critical process) and the replies. Listing
//! the processes and ending them is the caller's work.

use vstd::prelude::*;
use crate::text::{
    append_str, chars_of, contains, contains_exec, ends_with, int_text, join_exec, join_with, push_decimal,
    push_signed, slices_equal, string_from, to_lowercase, unicode_lowercase,
};

verus! {

/// The system-critical processes that are never killed.
pub open spec fn protected_processes() -> Seq<Seq<char>> {
    seq![
        "csrss.exe"@,
        "lsass.exe"@,
        "smss.exe"@,
        "svchost.exe"@,
        "dwm.exe"@,
        "winlogon.exe"@,
        "wininit.exe"@,
        "services.exe"@,
        "system"@,
        "explorer.exe"@,
        "conhost.exe"@,
    ]
}

fn protected_list() -> (r: Vec<Vec<char>>)
    ensures
        r@.map_values(|p: Vec<char>| p@) == protected_processes(),
{
    let mut v: Vec<Vec<char>> = Vec::new();
    v.push(chars_of("csrss.exe"));
    v.push(chars_of("lsass.exe"));
    v.push(chars_of("smss.exe"));
    v.push(chars_of("svchost.exe"));
    v.push(chars_of("dwm.exe"));
    v.push(chars_of("winlogon.exe"));
    v.push(chars_of("wininit.exe"));
    v.push(chars_of("services.exe"));
    v.push(chars_of("system"));
    v.push(chars_of("explorer.exe"));
    v.push(chars_of("conhost.exe"));
    assert(v@.map_values(|p: Vec<char>| p@) =~= protected_processes());
    v
}

/// `p` without a trailing `.exe`.
pub open spec fn trim_exe(p: Seq<char>) -> Seq<char> {
    if ends_with(p, ".exe"@) {
        p.take(p.len() - 4)
    } else {
        p
    }
}

/// Is a name, in lower case, that of a protected process, with or without
/// its `.exe`?
pub open spec fn is_protected(lower: Seq<char>) -> bool {
    exists|i: int|
        0 <= i < protected_processes().len() && (#[trigger] protected_processes()[i] == lower || trim_exe(
            protected_processes()[i],
        ) == lower)
}

/// Is a name, in lower case, that of a protected process?
pub fn is_protected_exec(lower: &Vec<char>) -> (r: bool)
    ensures
        r == is_protected(lower@),
{
    let list = protected_list();
    let ghost pv = list@.map_values(|p: Vec<char>| p@);
    let mut i: usize = 0;
    while i < list.len()
        invariant
            i <= list.len(),
            pv == list@.map_values(|p: Vec<char>| p@),
            pv == protected_processes(),
            forall|k: int| 0 <= k < i ==> !(#[trigger] pv[k] == lower@ || trim_exe(pv[k]) == lower@),
        decreases list.len() - i,
    {
        let p = &list[i];
        assert(pv[i as int] == p@);
        let n = p.len();
        let trimmed: Vec<char> = if n >= 4 && crate::text::ends_with_exec(p, &chars_of(".exe")) {
            crate::text::slice_of(p, 0, n - 4)
        } else {
            p.clone()
        };
        proof {
            reveal_strlit(".exe");
            if n >= 4 {
                assert(p@.take(p@.len() - 4) =~= p@.subrange(0, n - 4));
            }
        }
        assert(trimmed@ == trim_exe(p@));
        if slices_equal(p, lower) || slices_equal(&trimmed, lower) {
            return true;
        }
        i += 1;
    }
    false
}

/// A process as values: its id and name.
pub open spec fn procs_view(v: Seq<(u32, String)>) -> Seq<(u32, Seq<char>)> {
    Seq::new(v.len(), |i: int| (v[i].0, v[i].1@))
}

/// The name of the first process with id `pid`, if any.
pub open spec fn name_of_pid(procs: Seq<(u32, Seq<char>)>, pid: u32) -> Option<Seq<char>>
    decreases procs.len(),
{
    if procs.len() == 0 {
        None
    } else if procs[0].0 == pid {
        Some(procs[0].1)
    } else {
        name_of_pid(procs.drop_first(), pid)
    }
}

/// May a process be ended by a kill by name: not this server, its name in
/// lower case holds the name asked for (in lower case), and it is not
/// protected?
pub open spec fn is_kill_target(p: (u32, Seq<char>), own_pid: u32, lower_name: Seq<char>) -> bool {
    p.0 != own_pid && contains(unicode_lowercase(p.1), lower_name) && !is_protected(unicode_lowercase(p.1))
}

/// The processes a kill by name ends, in listing order.
pub open spec fn kill_targets(procs: Seq<(u32, Seq<char>)>, own_pid: u32, lower_name: Seq<char>) -> Seq<
    (u32, Seq<char>),
>
    decreases procs.len(),
{
    if procs.len() == 0 {
        Seq::empty()
    } else if is_kill_target(procs.last(), own_pid, lower_name) {
        kill_targets(procs.drop_last(), own_pid, lower_name).push(procs.last())
    } else {
        kill_targets(procs.drop_last(), own_pid, lower_name)
    }
}

/// What a kill request leads to.
pub enum KillPlan {
    /// Refuse, with the error message.
    Refuse { message: String },
    /// Answer with this text; nothing is killed.
    Reply { text: String },
    /// End the process with this id (forcibly, or gracefully first).
    KillPid { pid: u32, force: bool },
    /// End these processes, which match the name asked for.
    KillNamed { name: String, targets: Vec<(u32, String)>, force: bool },
}

/// The mathematical form of a `KillPlan`.
pub enum KillStep {
    Refuse(Seq<char>),
    Reply(Seq<char>),
    KillPid(u32, bool),
    KillNamed(Seq<char>, Seq<(u32, Seq<char>)>, bool),
}

impl View for KillPlan {
    type V = KillStep;

    open spec fn view(&self) -> KillStep {
        match self {
            KillPlan::Refuse { message } => KillStep::Refuse(message@),
            KillPlan::Reply { text } => KillStep::Reply(text@),
            KillPlan::KillPid { pid, force } => KillStep::KillPid(*pid, *force),
            KillPlan::KillNamed { name, targets, force } => KillStep::KillNamed(name@, procs_view(targets@), *force),
        }
    }
}

/// The plan for a kill request by `name` or `pid` (the id wins), made by
/// the server with id `own_pid` from the process listing (or the error
/// listing them).
pub open spec fn kill_plan_spec(
    name: Option<Seq<char>>,
    pid: Option<u32>,
    force: bool,
    own_pid: u32,
    processes: Result<Seq<(u32, Seq<char>)>, Seq<char>>,
) -> KillStep {
    match pid {
        Some(p) => if p == own_pid {
            KillStep::Refuse("refusing to kill own process"@)
        } else {
            match processes {
                Ok(procs) => match name_of_pid(procs, p) {
                    Some(n) => if is_protected(unicode_lowercase(n)) {
                        KillStep::Refuse(
                            "refusing to kill system-critical process '"@ + n + "' (PID "@ + int_text(p as int)
                                + ")"@,
                        )
                    } else {
                        KillStep::KillPid(p, force)
                    },
                    None => KillStep::KillPid(p, force),
                },
                Err(_) => KillStep::KillPid(p, force),
            }
        },
        None => match name {
            None => KillStep::Refuse("'name' or 'pid' is required"@),
            Some(n) => if is_protected(unicode_lowercase(n)) {
                KillStep::Refuse("refusing to kill system-critical process '"@ + n + "'"@)
            } else {
                match processes {
                    Err(e) => KillStep::Refuse(e),
                    Ok(procs) => {
                        let targets = kill_targets(procs, own_pid, unicode_lowercase(n));
                        if targets.len() == 0 {
                            KillStep::Reply("No process matching '"@ + n + "' found"@)
                        } else {
                            KillStep::KillNamed(n, targets, force)
                        }
                    },
                }
            },
        },
    }
}

/// The id and name of a listed process, copied.
fn copy_proc(p: &(u32, String)) -> (r: (u32, String))
    ensures
        r.0 == p.0,
        r.1@ == p.1@,
{
    (p.0, p.1.clone())
}

/// The first name listed for `pid`.
fn find_pid_name(procs: &Vec<(u32, String)>, pid: u32) -> (r: Option<String>)
    ensures
        match r {
            Some(n) => name_of_pid(procs_view(procs@), pid) == Some(n@),
            None => name_of_pid(procs_view(procs@), pid) is None,
        },
{
    let ghost pv = procs_view(procs@);
    let mut i: usize = 0;
    assert(pv.skip(0) =~= pv);
    while i < procs.len()
        invariant
            i <= procs.len(),
            pv == procs_view(procs@),
            name_of_pid(pv, pid) == name_of_pid(pv.skip(i as int), pid),
        decreases procs.len() - i,
    {
        assert(pv.skip(i as int)[0] == pv[i as int]);
        assert(pv.skip(i as int).drop_first() =~= pv.skip(i + 1));
        if procs[i].0 == pid {
            return Some(procs[i].1.clone());
        }
        i += 1;
    }
    assert(pv.skip(i as int) =~= Seq::<(u32, Seq<char>)>::empty());
    None
}

/// The plan for a kill request: the process to end by id, or those matching
/// a name; never this server's own process, never a protected process.
pub fn kill_plan(
    name: Option<&str>,
    pid: Option<u32>,
    force: bool,
    own_pid: u32,
    processes: &Result<Vec<(u32, String)>, String>,
) -> (r: KillPlan)
    ensures
        r@ == kill_plan_spec(
            match name {
                Some(n) => Some(n@),
                None => None,
            },
            pid,
            force,
            own_pid,
            match processes {
                Ok(v) => Ok(procs_view(v@)),
                Err(e) => Err(e@),
            },
        ),
{
    if let Some(p) = pid {
        if p == own_pid {
            return KillPlan::Refuse { message: "refusing to kill own process".to_string() };
        }
        if let Ok(procs) = processes {
            if let Some(n) = find_pid_name(procs, p) {
                let lower = chars_of(to_lowercase(n.as_str()).as_str());
                if is_protected_exec(&lower) {
                    let mut v = chars_of("refusing to kill system-critical process '");
                    append_str(&mut v, n.as_str());
                    append_str(&mut v, "' (PID ");
                    push_decimal(&mut v, p as u64);
                    append_str(&mut v, ")");
                    return KillPlan::Refuse { message: string_from(&v) };
                }
            }
        }
        return KillPlan::KillPid { pid: p, force };
    }
    let n = match name {
        Some(n) => n,
        None => return KillPlan::Refuse { message: "'name' or 'pid' is required".to_string() },
    };
    let lower = chars_of(to_lowercase(n).as_str());
    if is_protected_exec(&lower) {
        let mut v = chars_of("refusing to kill system-critical process '");
        append_str(&mut v, n);
        append_str(&mut v, "'");
        return KillPlan::Refuse { message: string_from(&v) };
    }
    let procs = match processes {
        Err(e) => return KillPlan::Refuse { message: e.clone() },
        Ok(v) => v,
    };
    let ghost pv = procs_view(procs@);
    let mut targets: Vec<(u32, String)> = Vec::new();
    let mut i: usize = 0;
    while i < procs.len()
        invariant
            i <= procs.len(),
            pv == procs_view(procs@),
            lower@ == unicode_lowercase(n@),
            procs_view(targets@) == kill_targets(pv.take(i as int), own_pid, lower@),
        decreases procs.len() - i,
    {
        let ghost before = procs_view(targets@);
        proof {
            assert(pv.take(i + 1).drop_last() =~= pv.take(i as int));
            assert(pv.take(i + 1).last() == pv[i as int]);
        }
        let pl = chars_of(to_lowercase(procs[i].1.as_str()).as_str());
        if procs[i].0 != own_pid && contains_exec(&pl, &lower) && !is_protected_exec(&pl) {
            targets.push(copy_proc(&procs[i]));
            assert(procs_view(targets@) =~= before.push(pv[i as int]));
        }
        i += 1;
    }
    assert(pv.take(procs.len() as int) =~= pv);
    if targets.len() == 0 {
        let mut v = chars_of("No process matching '");
        append_str(&mut v, n);
        append_str(&mut v, "' found");
        return KillPlan::Reply { text: string_from(&v) };
    }
    KillPlan::KillNamed { name: n.to_string(), targets, force }
}

/// Every process a kill plan ends is neither this server's own process nor
/// a protected one: a kill by id refuses both, and a kill by name lists only
/// other, unprotected processes whose name holds the name asked for.
pub proof fn lemma_kill_plan_safe(
    name: Option<Seq<char>>,
    pid: Option<u32>,
    force: bool,
    own_pid: u32,
    processes: Result<Seq<(u32, Seq<char>)>, Seq<char>>,
)
    ensures
        kill_plan_spec(name, pid, force, own_pid, processes) matches KillStep::KillPid(p, _) ==> p != own_pid
            && (processes matches Ok(procs) ==> (name_of_pid(procs, p) matches Some(n) ==> !is_protected(
            unicode_lowercase(n),
        ))),
        kill_plan_spec(name, pid, force, own_pid, processes) matches KillStep::KillNamed(n, targets, _) ==> forall|
            i: int,
        |
            0 <= i < targets.len() ==> #[trigger] targets[i].0 != own_pid && !is_protected(
                unicode_lowercase(targets[i].1),
            ) && contains(unicode_lowercase(targets[i].1), unicode_lowercase(n)),
{
    if let KillStep::KillNamed(n, targets, _) = kill_plan_spec(name, pid, force, own_pid, processes) {
        if let Ok(procs) = processes {
            lemma_targets_are_targets(procs, own_pid, unicode_lowercase(n));
        }
    }
}

proof fn lemma_targets_are_targets(procs: Seq<(u32, Seq<char>)>, own_pid: u32, lower: Seq<char>)
    ensures
        forall|i: int|
            0 <= i < kill_targets(procs, own_pid, lower).len() ==> is_kill_target(
                #[trigger] kill_targets(procs, own_pid, lower)[i],
                own_pid,
                lower,
            ),
    decreases procs.len(),
{
    if procs.len() > 0 {
        lemma_targets_are_targets(procs.drop_last(), own_pid, lower);
        let prev = kill_targets(procs.drop_last(), own_pid, lower);
        let all = kill_targets(procs, own_pid, lower);
        assert forall|i: int| 0 <= i < all.len() implies is_kill_target(#[trigger] all[i], own_pid, lower) by {
            if i < prev.len() {
                assert(all[i] == prev[i]);
            }
        }
    }
}

// ---------------------------------------------------------------------------
// Replies
// ---------------------------------------------------------------------------

/// The reply after a process was ended by id.
pub fn terminated_reply(pid: u32) -> (r: String)
    ensures
        r@ == "Terminated process PID "@ + int_text(pid as int),
{
    let mut v = chars_of("Terminated process PID ");
    push_decimal(&mut v, pid as u64);
    string_from(&v)
}

/// A failure to end one of the processes matched by name.
pub fn kill_error_line(pid: u32, name: &str, error: &str) -> (r: String)
    ensures
        r@ == "PID "@ + int_text(pid as int) + " ("@ + name@ + "): "@ + error@,
{
    let mut v = chars_of("PID ");
    push_decimal(&mut v, pid as u64);
    append_str(&mut v, " (");
    append_str(&mut v, name);
    append_str(&mut v, "): ");
    append_str(&mut v, error);
    string_from(&v)
}

/// The views of a list of strings.
pub open spec fn texts(v: Seq<String>) -> Seq<Seq<char>> {
    Seq::new(v.len(), |i: int| v[i]@)
}

fn lines_of(v: &Vec<String>) -> (r: Vec<Vec<char>>)
    ensures
        r@.map_values(|p: Vec<char>| p@) == texts(v@),
{
    let mut out: Vec<Vec<char>> = Vec::new();
    let mut i: usize = 0;
    while i < v.len()
        invariant
            i <= v.len(),
            out@.len() == i,
            forall|k: int| 0 <= k < i ==> #[trigger] out@[k]@ == v@[k]@,
        decreases v.len() - i,
    {
        out.push(chars_of(v[i].as_str()));
        i += 1;
    }
    assert(out@.map_values(|p: Vec<char>| p@) =~= texts(v@));
    out
}

/// The reply after the processes matching `name` were ended by force:
/// how many of how many, and the errors, if any.
pub fn killed_reply(name: &str, killed: u64, total: u64, errors: &Vec<String>) -> (r: String)
    ensures
        r@ == "Killed "@ + int_text(killed as int) + "/"@ + int_text(total as int) + " process(es) matching '"@
            + name@ + "'"@ + if errors@.len() > 0 {
            "\nErrors: "@ + join_with(texts(errors@), "; "@)
        } else {
            Seq::empty()
        },
{
    let mut v = chars_of("Killed ");
    push_decimal(&mut v, killed);
    append_str(&mut v, "/");
    push_decimal(&mut v, total);
    append_str(&mut v, " process(es) matching '");
    append_str(&mut v, name);
    append_str(&mut v, "'");
    if errors.len() > 0 {
        append_str(&mut v, "\nErrors: ");
        append_str(&mut v, join_exec(&lines_of(errors), "; ").as_str());
    }
    string_from(&v)
}

/// The reply after the processes matching `name` were ended gracefully,
/// with a line for each.
pub fn graceful_reply(name: &str, total: u64, results: &Vec<String>) -> (r: String)
    ensures
        r@ == "Graceful kill for "@ + int_text(total as int) + " process(es) matching '"@ + name@ + "':\n"@
            + join_with(texts(results@), "\n"@),
{
    let mut v = chars_of("Graceful kill for ");
    push_decimal(&mut v, total);
    append_str(&mut v, " process(es) matching '");
    append_str(&mut v, name);
    append_str(&mut v, "':\n");
    append_str(&mut v, join_exec(&lines_of(results), "\n").as_str());
    string_from(&v)
}

/// The grace period of a graceful kill: the requested milliseconds (5000
/// where none), kept between 500 and 15000.
pub fn grace_period(requested: Option<i64>) -> (r: u64)
    ensures
        r as int == ({
            let ms: int = match requested {
                Some(v) => v as int,
                None => 5000,
            };
            if ms > 15000 {
                15000
            } else if ms < 500 {
                500
            } else {
                ms
            }
        }),
{
    let ms: i64 = match requested {
        Some(v) => v,
        None => 5000,
    };
    let m = if ms > 15000 {
        15000
    } else if ms < 500 {
        500
    } else {
        ms
    };
    m as u64
}

/// How a graceful kill of one process ended.
pub enum GracefulOutcome {
    /// It has no windows to close and was ended at once.
    NoWindows,
    /// It exited by itself after this many milliseconds.
    Exited { elapsed_ms: u64 },
    /// It was still running after the grace period and was ended.
    Forced,
    /// It was still running and ending it failed.
    ForceFailed { error: String },
}

/// The reply for a graceful kill of process `pid` with grace period `grace_ms`.
pub fn graceful_outcome_reply(pid: u32, grace_ms: u64, outcome: &GracefulOutcome) -> (r: String)
    ensures
        r@ == match outcome {
            GracefulOutcome::NoWindows => "No windows for PID "@ + int_text(pid as int) + "; force-terminated"@,
            GracefulOutcome::Exited { elapsed_ms } => "Process PID "@ + int_text(pid as int)
                + " exited gracefully after "@ + int_text(*elapsed_ms as int) + "ms"@,
            GracefulOutcome::Forced => "Process PID "@ + int_text(pid as int) + " did not exit within "@ + int_text(
                grace_ms as int,
            ) + "ms; force-terminated"@,
            GracefulOutcome::ForceFailed { error } => "Process PID "@ + int_text(pid as int) + " did not exit within "@
                + int_text(grace_ms as int) + "ms; force-kill failed: "@ + error@,
        },
{
    match outcome {
        GracefulOutcome::NoWindows => {
            let mut v = chars_of("No windows for PID ");
            push_decimal(&mut v, pid as u64);
            append_str(&mut v, "; force-terminated");
            string_from(&v)
        },
        GracefulOutcome::Exited { elapsed_ms } => {
            let mut v = chars_of("Process PID ");
            push_decimal(&mut v, pid as u64);
            append_str(&mut v, " exited gracefully after ");
            push_decimal(&mut v, *elapsed_ms);
            append_str(&mut v, "ms");
            string_from(&v)
        },
        GracefulOutcome::Forced => {
            let mut v = chars_of("Process PID ");
            push_decimal(&mut v, pid as u64);
            append_str(&mut v, " did not exit within ");
            push_decimal(&mut v, grace_ms);
            append_str(&mut v, "ms; force-terminated");
            string_from(&v)
        },
        GracefulOutcome::ForceFailed { error } => {
            let mut v = chars_of("Process PID ");
            push_decimal(&mut v, pid as u64);
            append_str(&mut v, " did not exit within ");
            push_decimal(&mut v, grace_ms);
            append_str(&mut v, "ms; force-kill failed: ");
            append_str(&mut v, error.as_str());
            string_from(&v)
        },
    }
}

} // verus!

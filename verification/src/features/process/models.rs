use vstd::prelude::*;
use crate::shared::traits::Severity;

verus! {

/// The memory above which a process is of high severity: one gigabyte.
pub const HIGH_MEMORY_BYTES: u64 = 1_000_000_000;

/// The memory above which a process is of medium severity: half a gigabyte.
pub const MEDIUM_MEMORY_BYTES: u64 = 500_000_000;

/// How a severity ranks among the four.
pub open spec fn rank(severity: Severity) -> int {
    match severity {
        Severity::Low => 0,
        Severity::Medium => 1,
        Severity::High => 2,
        Severity::Critical => 3,
    }
}

/// The severity that the memory of a process gives it.
pub open spec fn severity_of_memory(memory_usage: u64) -> Severity {
    if memory_usage > HIGH_MEMORY_BYTES {
        Severity::High
    } else if memory_usage > MEDIUM_MEMORY_BYTES {
        Severity::Medium
    } else {
        Severity::Low
    }
}

/// Why the identity of a process is refused, if it is: its identifier is
/// zero where that is not allowed, or it has no name.
pub open spec fn identity_violation(
    pid: u32,
    name: Seq<char>,
    zero_pid_allowed: bool,
) -> Option<Seq<char>> {
    if !zero_pid_allowed && pid == 0 {
        Some("Process ID cannot be zero"@)
    } else if name.len() == 0 {
        Some("Process name cannot be empty"@)
    } else {
        None
    }
}

/// Why the figures of a process are refused, if they are: it uses no
/// memory, it has no status, user or command, or it has no thread.
pub open spec fn usage_violation(
    memory_usage: u64,
    status: Seq<char>,
    user: Seq<char>,
    command: Seq<char>,
    threads: u32,
) -> Option<Seq<char>> {
    if memory_usage == 0 {
        Some("Memory usage cannot be zero"@)
    } else if status.len() == 0 {
        Some("Process status cannot be empty"@)
    } else if user.len() == 0 {
        Some("User cannot be empty"@)
    } else if command.len() == 0 {
        Some("Command cannot be empty"@)
    } else if threads == 0 {
        Some("Thread count cannot be zero"@)
    } else {
        None
    }
}

/// The more severe of two severities.
pub fn max_severity(a: Severity, b: Severity) -> (max: Severity)
    ensures
        max == if rank(a) >= rank(b) {
            a
        } else {
            b
        },
{
    match (a, b) {
        (Severity::Critical, _) => a,
        (_, Severity::Critical) => b,
        (Severity::High, _) => a,
        (_, Severity::High) => b,
        (Severity::Medium, _) => a,
        (_, Severity::Medium) => b,
        _ => a,
    }
}

/// The severity that the memory of a process gives it.
pub fn memory_severity(memory_usage: u64) -> (severity: Severity)
    ensures
        severity == severity_of_memory(memory_usage),
{
    if memory_usage > HIGH_MEMORY_BYTES {
        Severity::High
    } else if memory_usage > MEDIUM_MEMORY_BYTES {
        Severity::Medium
    } else {
        Severity::Low
    }
}

/// Checks the identity of a process: its identifier, unless zero is allowed
/// for it, and its name.
pub fn validate_identity(pid: u32, name: &str, zero_pid_allowed: bool) -> (r: Result<(), String>)
    ensures
        match r {
            Ok(_) => identity_violation(pid, name@, zero_pid_allowed) is None,
            Err(m) => identity_violation(pid, name@, zero_pid_allowed) == Some(m@),
        },
{
    if !zero_pid_allowed && pid == 0 {
        return Err(String::from_str("Process ID cannot be zero"));
    }
    if name.is_empty() {
        return Err(String::from_str("Process name cannot be empty"));
    }
    Ok(())
}

/// Checks the figures of a process: its memory, status, user, command and
/// threads, in this order.
pub fn validate_usage(
    memory_usage: u64,
    status: &str,
    user: &str,
    command: &str,
    threads: u32,
) -> (r: Result<(), String>)
    ensures
        match r {
            Ok(_) => usage_violation(memory_usage, status@, user@, command@, threads) is None,
            Err(m) => usage_violation(memory_usage, status@, user@, command@, threads) == Some(m@),
        },
{
    if memory_usage == 0 {
        return Err(String::from_str("Memory usage cannot be zero"));
    }
    if status.is_empty() {
        return Err(String::from_str("Process status cannot be empty"));
    }
    if user.is_empty() {
        return Err(String::from_str("User cannot be empty"));
    }
    if command.is_empty() {
        return Err(String::from_str("Command cannot be empty"));
    }
    if threads == 0 {
        return Err(String::from_str("Thread count cannot be zero"));
    }
    Ok(())
}

} // verus!

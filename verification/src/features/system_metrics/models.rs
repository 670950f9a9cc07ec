use vstd::prelude::*;
use crate::shared::text::joined;

verus! {

/// How much memory and swap the host has and uses, in bytes.
#[derive(Debug, Clone)]
pub struct MemoryInformation {
    pub total_memory: u64,
    pub used_memory: u64,
    pub total_swap: u64,
    pub used_swap: u64,
}

/// One disk of the host.
#[derive(Debug, Clone)]
pub struct DiskInformation {
    pub name: String,
    pub mount_point: String,
    pub total_space: u64,
    pub available_space: u64,
    pub file_system: String,
}

impl MemoryInformation {
    /// The message of the first invariant that the figures break, if any: no
    /// more memory is used than there is, and no more swap.
    pub open spec fn violation(&self) -> Option<Seq<char>> {
        if self.used_memory > self.total_memory {
            Some("Used memory cannot exceed total memory"@)
        } else if self.used_swap > self.total_swap {
            Some("Used swap cannot exceed total swap"@)
        } else {
            None
        }
    }

    /// Checks the invariants of the figures.
    pub fn validate(&self) -> (r: Result<(), String>)
        ensures
            match r {
                Ok(_) => self.violation() is None,
                Err(m) => self.violation() == Some(m@),
            },
    {
        if self.used_memory > self.total_memory {
            return Err(String::from_str("Used memory cannot exceed total memory"));
        }
        if self.used_swap > self.total_swap {
            return Err(String::from_str("Used swap cannot exceed total swap"));
        }
        Ok(())
    }
}

impl DiskInformation {
    /// The message of the invariant that the disk breaks, if it does: no more
    /// space is available than there is.
    pub open spec fn violation(&self) -> Option<Seq<char>> {
        if self.available_space > self.total_space {
            Some("Available space cannot exceed total space for disk "@ + self.name@)
        } else {
            None
        }
    }

    /// Checks the invariant of the disk.
    pub fn validate(&self) -> (r: Result<(), String>)
        ensures
            match r {
                Ok(_) => self.violation() is None,
                Err(m) => self.violation() == Some(m@),
            },
    {
        if self.available_space > self.total_space {
            return Err(
                joined("Available space cannot exceed total space for disk ", self.name.as_str()),
            );
        }
        Ok(())
    }
}

/// The first violation among the disks from position `from` on.
pub open spec fn disk_violation(disks: Seq<DiskInformation>, from: int) -> Option<Seq<char>>
    decreases disks.len() - from,
{
    if from < 0 || from >= disks.len() {
        None
    } else if disks[from].violation() is Some {
        disks[from].violation()
    } else {
        disk_violation(disks, from + 1)
    }
}

/// Checks the invariant of every disk, in order, and fails with the message
/// of the first that breaks it.
pub fn validate_disks(disks: &Vec<DiskInformation>) -> (r: Result<(), String>)
    ensures
        match r {
            Ok(_) => disk_violation(disks@, 0) is None,
            Err(m) => disk_violation(disks@, 0) == Some(m@),
        },
{
    let mut i: usize = 0;
    while i < disks.len()
        invariant
            i <= disks.len(),
            disk_violation(disks@, 0) == disk_violation(disks@, i as int),
        decreases disks.len() - i,
    {
        match disks[i].validate() {
            Ok(_) => {},
            Err(message) => { return Err(message); },
        }
        i += 1;
    }
    Ok(())
}

} // verus!

//! Process groups, in which an emulator and its children are killed together.

use vstd::prelude::*;

verus! {

/// A Unix process group that contains the emulator process and all its children
///
/// When this handle is explicitly killed, all processes in the group
/// are terminated, ensuring clean shutdown even when the emulator spawns
/// child processes like qemu.
#[derive(Debug)]
pub struct EmulatorProcessGroup {
    pgid: u32,
}

impl EmulatorProcessGroup {
    /// The process group ID, which is the same as the leader's PID.
    pub closed spec fn spec_pgid(self) -> u32 {
        self.pgid
    }

    /// The group of a process that was started as the leader of a group of its
    /// own.
    pub fn spawn(child_id: Option<u32>) -> (res: Result<EmulatorProcessGroup, String>)
        ensures
            match child_id {
                Some(id) => res matches Ok(group) && group.spec_pgid() == id,
                None => res matches Err(m) && m@ == "Child process has no ID"@,
            },
    {
        match child_id {
            Some(pgid) => Ok(EmulatorProcessGroup { pgid }),
            None => Err("Child process has no ID".to_owned()),
        }
    }

    /// What the terminating signal is sent to: the group, which is written as
    /// the negative of its ID in 32 bits.
    pub fn kill(&self) -> (target: i32)
        requires
            self.spec_pgid() != 0x8000_0000,
        ensures
            self.spec_pgid() < 0x8000_0000 ==> target == -self.spec_pgid(),
            self.spec_pgid() > 0x8000_0000 ==> target == 0x1_0000_0000 - self.spec_pgid(),
    {
        if self.pgid < 0x8000_0000 {
            -(self.pgid as i32)
        } else {
            (0xffff_ffff - self.pgid) as i32 + 1
        }
    }

    /// Get the process group ID
    pub fn pgid(&self) -> (res: u32)
        ensures
            res == self.spec_pgid(),
    {
        self.pgid
    }
}

/// The signal goes to the group of the process that was started: to the
/// negative of its identifier, of which the group has the same.
pub proof fn law_group_is_signalled(
    child: u32,
    group: EmulatorProcessGroup,
    id: u32,
    target: i32,
)
    requires
        call_ensures(
            EmulatorProcessGroup::spawn,
            (Some(child),),
            Ok::<EmulatorProcessGroup, String>(group),
        ),
        call_ensures(EmulatorProcessGroup::pgid, (&group,), id),
        call_ensures(EmulatorProcessGroup::kill, (&group,), target),
    ensures
        id == child,
        child < 0x8000_0000 ==> target == -child,
        child > 0x8000_0000 ==> target == 0x1_0000_0000 - child,
{
}

/// A process without an identifier has no group.
pub proof fn law_no_group_without_identifier(
    child: Option<u32>,
    res: Result<EmulatorProcessGroup, String>,
)
    requires
        call_ensures(EmulatorProcessGroup::spawn, (child,), res),
    ensures
        res is Ok <==> child is Some,
        res matches Err(m) ==> m@ == "Child process has no ID"@,
{
}

} // verus!

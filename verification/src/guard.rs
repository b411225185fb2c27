//! The singleton-instance guard: given a snapshot of the operating
//! system's process table, fail fast when another process with the same
//! invocation name is already running. Best-effort and advisory: the
//! window between this check and the later brightness change is accepted.

use vstd::prelude::*;

use crate::Error;
use crate::text::{spec_ends_with, str_ends_with};

verus! {

/// One row of the process-table snapshot as the library reads it: the
/// process identifier, the process name, and the executable path (empty
/// when the path is unknown).
pub struct ProcEntry {
    pub pid: u32,
    pub name: String,
    pub exe: String,
}

/// Is the entry another live instance of this program: a different
/// process identifier, and an executable path that ends with the name
/// this program was invoked under?
pub open spec fn is_other_instance(
    p: ProcEntry,
    current_pid: u32,
    invocation_name: Seq<char>,
) -> bool {
    p.pid != current_pid && spec_ends_with(p.exe@, invocation_name)
}

/// Some entry of the snapshot is another instance.
pub open spec fn has_other_instance(
    procs: Seq<ProcEntry>,
    current_pid: u32,
    invocation_name: Seq<char>,
) -> bool {
    exists|i: int|
        0 <= i < procs.len() && is_other_instance(
            #[trigger] procs[i],
            current_pid,
            invocation_name,
        )
}

/// Succeeds exactly when no entry other than the current process itself
/// matches the invocation name; otherwise the program is already running
/// and no brightness change may be attempted.
pub fn check_existing_instances(
    procs: &Vec<ProcEntry>,
    current_pid: u32,
    invocation_name: &str,
) -> (r: Result<(), Error>)
    ensures
        r is Ok <==> !has_other_instance(procs@, current_pid, invocation_name@),
        r is Err ==> r->Err_0 == Error::AlreadyRunning,
{
    let n = procs.len();
    let mut i: usize = 0;
    while i < n
        invariant
            i <= n,
            n == procs@.len(),
            forall|k: int|
                0 <= k < i ==> !is_other_instance(
                    #[trigger] procs@[k],
                    current_pid,
                    invocation_name@,
                ),
        decreases n - i,
    {
        let p = &procs[i];
        if p.pid != current_pid && str_ends_with(p.exe.as_str(), invocation_name) {
            return Err(Error::AlreadyRunning);
        }
        i += 1;
    }
    Ok(())
}

} // verus!

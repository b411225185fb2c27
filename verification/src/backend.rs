//! Backend selection. The on-screen display client may be installed while
//! its server is not running, in which case invoking the client would
//! silently do nothing; so the service path is chosen only when the
//! client is on the search path and the server is among the running
//! processes, by exact name.

use vstd::prelude::*;

use crate::BackendChoice;
use crate::guard::ProcEntry;

verus! {

/// The exact process name of the on-screen display server.
pub open spec fn osd_server_name() -> Seq<char> {
    "swayosd-server"@
}

/// Is the server among the running processes, by exact name?
pub open spec fn server_running(procs: Seq<ProcEntry>) -> bool {
    exists|i: int| 0 <= i < procs.len() && (#[trigger] procs[i]).name@ == osd_server_name()
}

/// Picks the backend for this run: the on-screen display service exactly
/// when its client is resolvable on the search path and its server is
/// running; the direct controller otherwise. A failed search-path lookup
/// is given as the client being absent, never as a fatal error.
pub fn detect_backend(client_on_path: bool, procs: &Vec<ProcEntry>) -> (r: BackendChoice)
    ensures
        r == BackendChoice::OsdService <==> client_on_path && server_running(procs@),
        r == BackendChoice::DirectController <==> !(client_on_path && server_running(procs@)),
{
    if !client_on_path {
        return BackendChoice::DirectController;
    }
    let server = String::from_str("swayosd-server");
    let n = procs.len();
    let mut i: usize = 0;
    while i < n
        invariant
            i <= n,
            n == procs@.len(),
            client_on_path,
            server@ == osd_server_name(),
            forall|k: int| 0 <= k < i ==> (#[trigger] procs@[k]).name@ != osd_server_name(),
        decreases n - i,
    {
        let p = &procs[i];
        if p.name == server {
            proof {
                assert((procs@[i as int]).name@ == osd_server_name());
            }
            return BackendChoice::OsdService;
        }
        i += 1;
    }
    BackendChoice::DirectController
}

} // verus!

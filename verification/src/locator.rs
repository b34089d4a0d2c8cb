use vstd::prelude::*;
use crate::handles::NativeWindowHandle;

verus! {

/// The class name of the shell's background host window; the lookup is an
/// exact, case-sensitive match.
pub open spec fn shell_host_class() -> Seq<char> {
    "Progman"@
}

/// The class name of the shell's worker surface.
pub open spec fn worker_surface_class() -> Seq<char> {
    "WorkerW"@
}

/// The class name of the shell's desktop-icon view, found as a child window.
pub open spec fn icon_view_class() -> Seq<char> {
    "SHELLDLL_DefView"@
}

pub fn shell_host_class_name() -> (s: &'static str)
    ensures
        s@ == shell_host_class(),
{
    "Progman"
}

pub fn worker_surface_class_name() -> (s: &'static str)
    ensures
        s@ == worker_surface_class(),
{
    "WorkerW"
}

pub fn icon_view_class_name() -> (s: &'static str)
    ensures
        s@ == icon_view_class(),
{
    "SHELLDLL_DefView"
}

/// The control message sent to the shell host to provoke lazy creation of its
/// worker surface. Its nominal response is ignored; only completion within
/// the timeout matters, as a synchronization signal.
pub const WORKER_PROVOKE_MESSAGE: u32 = 0x052C;

/// The payload sent with the control message.
pub const WORKER_PROVOKE_PAYLOAD: u32 = 0;

/// The bound on the wait for the control message's completion.
pub const PROVOKE_TIMEOUT_MS: u32 = 1000;

/// One top-level window as the enumeration reports it: its handle, its window
/// class name, and whether a child of the desktop-icon-view class was found
/// on it.
#[derive(Clone, Debug)]
pub struct CandidateWindow {
    pub handle: NativeWindowHandle,
    pub class_name: String,
    pub has_icon_view_child: bool,
}

/// The shell's background container and its (possibly absent) worker surface.
/// Recomputed on every embedding attempt: the shell may tear its worker
/// surface down and recreate it between runs, so these are never cached.
#[derive(Clone, Copy, Debug, PartialEq, Eq)]
pub struct ShellHandles {
    pub host: NativeWindowHandle,
    pub worker: Option<NativeWindowHandle>,
}

/// Why the locator gave up or fell behind.
#[derive(Clone, Copy, Debug, PartialEq, Eq)]
pub enum LocatorError {
    /// The shell's background host window is absent.
    HostNotFound,
    /// The control message to the host did not complete within the bound;
    /// enumeration proceeds anyway on whatever worker surfaces exist.
    Timeout,
}

/// A candidate counts as the worker-surface match when its class is exactly
/// the worker-surface class and the desktop-icon view was found as its child.
pub open spec fn is_worker_match(c: CandidateWindow) -> bool {
    c.class_name@ == worker_surface_class() && c.has_icon_view_child
}

/// The first match of the enumeration stands at `i`: a match there, none
/// before it.
pub open spec fn found_first_at(cands: Seq<CandidateWindow>, i: int) -> bool {
    &&& 0 <= i < cands.len()
    &&& is_worker_match(cands[i])
    &&& forall|j: int| 0 <= j < i ==> !is_worker_match(cands[j])
}

/// The handle captured for a match at `i`: the previous window in the
/// enumeration order — the worker sits adjacent to the icon host, not only
/// equal to it — or, when the match opens the enumeration and has no
/// predecessor, the matching window itself.
pub open spec fn captured_worker(cands: Seq<CandidateWindow>, i: int) -> NativeWindowHandle {
    if i == 0 {
        cands[0].handle
    } else {
        cands[i - 1].handle
    }
}

/// Classifies the wait for the worker-provoking control message. A timeout is
/// reported but is not fatal: the caller proceeds with enumeration on
/// best-effort state.
pub fn provoke_wait_outcome(completed: bool) -> (r: Result<(), LocatorError>)
    ensures
        r == (if completed {
            Ok(())
        } else {
            Err::<(), LocatorError>(LocatorError::Timeout)
        }),
{
    if completed {
        Ok(())
    } else {
        Err(LocatorError::Timeout)
    }
}

/// Locates the shell's worker surface among the enumerated top-level windows.
///
/// `host_probe` is what the class-name lookup for the background host
/// returned, zero when it is absent — the one fatal case. The candidates come
/// from the window enumeration, which never reports the zero sentinel, so
/// each carries a valid handle; the zero sentinel therefore never escapes as
/// a located handle. The candidates are consumed in enumeration order with an
/// early exit on the first worker-surface match, whose previous window is
/// captured as the worker. When no candidate matches, the host handle itself
/// serves as the worker (degraded mode): that case is a success, never an
/// error.
pub fn locate_worker(host_probe: u64, candidates: &Vec<CandidateWindow>) -> (r: Result<
    ShellHandles,
    LocatorError,
>)
    requires
        forall|i: int| 0 <= i < candidates@.len() ==> (#[trigger] candidates@[i].handle).valid(),
    ensures
        r matches Ok(sh) ==> sh.host.valid() && (sh.worker matches Some(w) && w.valid()),
        host_probe == 0 ==> r == Err::<ShellHandles, LocatorError>(LocatorError::HostNotFound),
        host_probe != 0 && (forall|j: int|
            0 <= j < candidates@.len() ==> !is_worker_match(candidates@[j])) ==> r == Ok::<
            ShellHandles,
            LocatorError,
        >(
            ShellHandles {
                host: (NativeWindowHandle { raw: host_probe }),
                worker: Some(NativeWindowHandle { raw: host_probe }),
            },
        ),
        forall|i: int|
            host_probe != 0 && found_first_at(candidates@, i) ==> r == Ok::<
                ShellHandles,
                LocatorError,
            >(
                ShellHandles {
                    host: (NativeWindowHandle { raw: host_probe }),
                    worker: Some(captured_worker(candidates@, i)),
                },
            ),
{
    if host_probe == 0 {
        return Err(LocatorError::HostNotFound);
    }
    let host = NativeWindowHandle { raw: host_probe };
    let wanted: String = worker_surface_class_name().to_owned();
    let n = candidates.len();
    let mut i: usize = 0;
    while i < n
        invariant
            n == candidates@.len(),
            0 <= i <= n,
            wanted@ == worker_surface_class(),
            host.raw == host_probe,
            host_probe != 0,
            forall|j: int|
                0 <= j < candidates@.len() ==> (#[trigger] candidates@[j].handle).valid(),
            forall|j: int| 0 <= j < i ==> !is_worker_match(candidates@[j]),
        decreases n - i,
    {
        let c = &candidates[i];
        if c.has_icon_view_child && c.class_name == wanted {
            let worker = if i == 0 {
                c.handle
            } else {
                candidates[i - 1].handle
            };
            proof {
                assert(found_first_at(candidates@, i as int));
                assert(worker == captured_worker(candidates@, i as int));
                assert(candidates@[i as int].handle.valid());
                if i > 0 {
                    assert(candidates@[i as int - 1].handle.valid());
                }
                assert(worker.valid());
                assert forall|k: int| found_first_at(candidates@, k) implies k == i as int by {
                    if k < i as int {
                        assert(!is_worker_match(candidates@[k]));
                    } else if k > i as int {
                        assert(!is_worker_match(candidates@[i as int]));
                    }
                }
            }
            return Ok(ShellHandles { host, worker: Some(worker) });
        }
        i += 1;
    }
    Ok(ShellHandles { host, worker: Some(host) })
}

} // verus!

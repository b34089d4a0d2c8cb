use vstd::prelude::*;

verus! {

/// An opaque platform identifier for one OS-level window. The platform's
/// zero value is a distinguished "no handle" sentinel and never appears in
/// a constructed `NativeWindowHandle`.
#[derive(Clone, Copy, Debug, PartialEq, Eq)]
pub struct NativeWindowHandle {
    pub raw: u64,
}

impl NativeWindowHandle {
    /// The sentinel is excluded: a held handle always names a window.
    pub open spec fn valid(self) -> bool {
        self.raw != 0
    }

    /// Wraps a raw platform value, rejecting the "no handle" sentinel.
    pub fn from_raw(raw: u64) -> (r: Option<NativeWindowHandle>)
        ensures
            r == (if raw != 0 {
                Some(NativeWindowHandle { raw })
            } else {
                None::<NativeWindowHandle>
            }),
    {
        if raw != 0 {
            Some(NativeWindowHandle { raw })
        } else {
            None
        }
    }
}

/// What the platform's surface query reported for a window: no OS-backed
/// surface at all (never shown, or already destroyed), or a surface together
/// with the raw handle value the handle query returned for it — possibly the
/// zero sentinel.
#[derive(Clone, Copy, Debug, PartialEq, Eq)]
pub enum SurfaceProbe {
    NoSurface,
    Surface { raw_handle: u64 },
}

/// Why no native handle could be resolved for a window.
#[derive(Clone, Copy, Debug, PartialEq, Eq)]
pub enum HandleError {
    /// The window has no OS-backed surface.
    NoSurface,
    /// A surface exists but the native handle query returned the zero
    /// sentinel.
    NoHandle,
}

/// The resolution decision on a surface probe: `NoSurface` without a surface,
/// `NoHandle` on the zero sentinel, the wrapped handle otherwise.
pub open spec fn spec_resolve(probe: SurfaceProbe) -> Result<NativeWindowHandle, HandleError> {
    match probe {
        SurfaceProbe::NoSurface => Err(HandleError::NoSurface),
        SurfaceProbe::Surface { raw_handle } => if raw_handle == 0 {
            Err(HandleError::NoHandle)
        } else {
            Ok(NativeWindowHandle { raw: raw_handle })
        },
    }
}

/// Resolves a window's native handle from what the surface query reported.
/// The caller realizes the window first (realization is idempotent on the
/// platform side) and queries its surface; this function makes the decision.
pub fn resolve_native_handle(probe: SurfaceProbe) -> (r: Result<NativeWindowHandle, HandleError>)
    ensures
        r == spec_resolve(probe),
        r is Ok <==> (probe matches SurfaceProbe::Surface { raw_handle } && raw_handle != 0),
        r matches Ok(h) ==> h.valid(),
{
    match probe {
        SurfaceProbe::NoSurface => Err(HandleError::NoSurface),
        SurfaceProbe::Surface { raw_handle } => {
            if raw_handle == 0 {
                Err(HandleError::NoHandle)
            } else {
                Ok(NativeWindowHandle { raw: raw_handle })
            }
        },
    }
}

} // verus!

//! The COM apartment that the Windows back end needs on its thread.
//!
//! A thread is initialised for COM (single-threaded apartment) at most once:
//! the first request installs an apartment from the result of `CoInitializeEx`,
//! later requests find it in place. This library does not call `CoInitializeEx`
//! itself (it has no COM bindings): the caller that does hands its result here.
use vstd::prelude::*;
use vstd::string::StringExecFns;

use crate::error::WallpaperError;

verus! {

/// `S_OK`: COM was initialised on this thread by the call.
pub const S_OK: i32 = 0;

/// `S_FALSE`: COM was already initialised on this thread.
pub const S_FALSE: i32 = 1;

/// An apartment (thread) that has been initialised for COM usage.
pub struct ComApartment {
    owns_init: bool,
}

/// Whether an apartment made from the result `hr` of `CoInitializeEx` owns the
/// initialisation; `None` where `hr` is a failure.
pub open spec fn apartment_ownership(hr: i32) -> Option<bool> {
    if hr == S_OK {
        Some(true)
    } else if hr == S_FALSE {
        Some(false)
    } else {
        None
    }
}

impl ComApartment {
    /// The apartment must uninitialise COM when it is dropped.
    pub closed spec fn owns(self) -> bool {
        self.owns_init
    }

    /// The apartment from the result `hr` of `CoInitializeEx`: `S_OK` gives one
    /// that owns the initialisation, `S_FALSE` one that does not, any other
    /// result the error `Os("CoInitializeEx failed: <hr_text>")`, where
    /// `hr_text` is `hr` as the `HRESULT` type displays it.
    pub fn from_init_result(hr: i32, hr_text: &str) -> (r: Result<ComApartment, WallpaperError>)
        ensures
            match apartment_ownership(hr) {
                Some(owns) => r matches Ok(a) && a.owns() == owns,
                None => r matches Err(WallpaperError::Os(t)) && t@ == "CoInitializeEx failed: "@
                    + hr_text@,
            },
            hr == S_OK ==> (r matches Ok(a) && a.owns()),
            hr == S_FALSE ==> (r matches Ok(a) && !a.owns()),
            r is Ok <==> (hr == S_OK || hr == S_FALSE),
    {
        if hr == S_OK {
            Ok(ComApartment { owns_init: true })
        } else if hr == S_FALSE {
            Ok(ComApartment { owns_init: false })
        } else {
            Err(WallpaperError::Os(String::from_str("CoInitializeEx failed: ").concat(hr_text)))
        }
    }

    /// Whether dropping this apartment must call `CoUninitialize`.
    pub fn owns_init(&self) -> (r: bool)
        ensures
            r == self.owns(),
    {
        self.owns_init
    }
}

/// What a thread must do to have a COM apartment.
#[derive(PartialEq, Eq, Structural)]
pub enum StaStep {
    /// The thread's apartment is already in place.
    Ready,
    /// `CoInitializeEx` must be called, and its result handed to [`install_apartment`].
    Initialise,
}

/// The step for a thread whose apartment slot is `slot`.
pub open spec fn sta_step(slot: Option<ComApartment>) -> StaStep {
    if slot is Some {
        StaStep::Ready
    } else {
        StaStep::Initialise
    }
}

/// Ensure that the calling thread has a COM apartment (STA): decide whether
/// `CoInitializeEx` must be called.
pub fn ensure_sta(slot: &Option<ComApartment>) -> (r: StaStep)
    ensures
        r == sta_step(*slot),
        r == StaStep::Ready <==> slot is Some,
{
    match slot {
        Some(_) => StaStep::Ready,
        None => StaStep::Initialise,
    }
}

/// Put into an empty slot the apartment made from the result of
/// `CoInitializeEx`; on failure the slot stays empty and the error is returned.
pub fn install_apartment(slot: &mut Option<ComApartment>, hr: i32, hr_text: &str) -> (r: Result<
    (),
    WallpaperError,
>)
    requires
        *old(slot) is None,
    ensures
        r is Ok <==> (hr == S_OK || hr == S_FALSE),
        r is Ok <==> *final(slot) is Some,
        hr == S_OK ==> (*final(slot) matches Some(a) && a.owns()),
        hr == S_FALSE ==> (*final(slot) matches Some(a) && !a.owns()),
        match apartment_ownership(hr) {
            Some(owns) => {
                &&& r is Ok
                &&& *final(slot) matches Some(a) && a.owns() == owns
            },
            None => {
                &&& *final(slot) is None
                &&& r matches Err(WallpaperError::Os(t)) && t@ == "CoInitializeEx failed: "@
                    + hr_text@
            },
        },
{
    match ComApartment::from_init_result(hr, hr_text) {
        Ok(apartment) => {
            *slot = Some(apartment);
            Ok(())
        },
        Err(e) => Err(e),
    }
}

/// Initialisation is idempotent: once an apartment is installed, every later
/// request finds the thread ready and calls `CoInitializeEx` no more.
pub proof fn lemma_installed_apartment_is_ready(slot: Option<ComApartment>)
    requires
        slot is Some,
    ensures
        sta_step(slot) == StaStep::Ready,
{
}

} // verus!

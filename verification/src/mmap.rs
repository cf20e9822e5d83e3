//! The type-state-guarded memory-map resource and the user-data token it is
//! created from.
//!
//! A map's lifecycle stage is part of its type: an [`Inactive`] map is
//! configurable and not yet usable for transfers, an [`Active`] map is usable
//! and no longer configurable. Each transition consumes the old value and
//! produces a new typed one, so using a map before starting it, or
//! reconfiguring it after, is rejected when the program is built rather than
//! at run time. Whatever the stage, the underlying native region handle never
//! changes, and it is given up exactly once: by [`Mmap::destroy`], or beside
//! the error when a transition fails.

use vstd::prelude::*;

use crate::error::{errcode_to_result, Error, DOCA_SUCCESS};

verus! {

/// An opaque caller-supplied correlation tag attached to native objects; it
/// carries no behavior of its own and is only borrowed at map creation.
#[derive(Debug, Clone, Copy)]
pub struct Data {
    raw: u64,
}

impl Data {
    #[verifier::type_invariant]
    spec fn inv(self) -> bool {
        self.raw != 0
    }

    /// The native user-data handle this tag carries.
    pub closed spec fn spec_raw(&self) -> u64 {
        self.raw
    }

    /// Wraps a caller-supplied native user-data handle; a null handle is no
    /// tag at all.
    pub fn new(raw: u64) -> (r: Option<Data>)
        ensures
            r is Some <==> raw != 0,
            r is Some ==> r->0.spec_raw() == raw,
    {
        if raw != 0 {
            Some(Data { raw })
        } else {
            None
        }
    }

    /// The native user-data handle, to be passed to the native map-create
    /// entry point.
    pub fn raw(&self) -> (r: u64)
        ensures
            r == self.spec_raw(),
            r != 0,
    {
        proof {
            use_type_invariant(&*self);
        }
        self.raw
    }
}

/// Closes the set of lifecycle stages: no stage can be added outside this
/// crate, so every map is in one of the two stages below.
pub trait Sealed {}

/// A lifecycle stage of a memory map, encoded in the map's type.
pub trait State: Sealed {}

/// The stage in which a map is usable for transfers and not configurable.
#[derive(Debug)]
pub struct Active;

impl Sealed for Active {}

impl State for Active {}

/// The initial stage, in which a map is configurable and not yet usable.
#[derive(Debug)]
pub struct Inactive;

impl Sealed for Inactive {}

impl State for Inactive {}

/// A region descriptor for device-visible memory, tagged by its lifecycle
/// stage. Exclusively owned: only one live value ever refers to a given
/// native region.
#[derive(Debug)]
pub struct Mmap<S: State> {
    raw: u64,
    stage: core::marker::PhantomData<S>,
}

impl<S: State> Mmap<S> {
    #[verifier::type_invariant]
    spec fn inv(self) -> bool {
        self.raw != 0
    }

    /// The native region handle this map owns; transitions never change it.
    pub closed spec fn spec_raw(&self) -> u64 {
        self.raw
    }

    /// The native region handle, for making further native calls on this map
    /// while it stays owned here.
    pub fn raw(&self) -> (r: u64)
        ensures
            r == self.spec_raw(),
            r != 0,
    {
        proof {
            use_type_invariant(&*self);
        }
        self.raw
    }

    /// Consumes the map, in either stage, and hands back the native region
    /// handle, to be passed to the native destroy entry point exactly once; a
    /// destroy failure is for the embedder to log, never to escalate.
    pub fn destroy(self) -> (r: u64)
        ensures
            r == self.spec_raw(),
            r != 0,
    {
        proof {
            use_type_invariant(&self);
        }
        self.raw
    }
}

impl Mmap<Inactive> {
    /// Wraps the outcome of creating a map tied to the tag `user_data`:
    /// `code` is the status the native create call returned and `raw_mmap`
    /// the region handle it filled in. On success the new map is inactive and
    /// its handle non-null; on failure the mapped error comes back. A null
    /// handle beside a success code would be a broken native contract, so it
    /// is excluded up front rather than handled.
    pub fn new(user_data: &Data, code: u32, raw_mmap: u64) -> (r: Result<Mmap<Inactive>, Error>)
        requires
            code == DOCA_SUCCESS ==> raw_mmap != 0,
        ensures
            r is Ok <==> code == DOCA_SUCCESS,
            r is Ok ==> r->Ok_0.spec_raw() == raw_mmap && r->Ok_0.spec_raw() != 0,
            r is Err ==> r->Err_0.spec_code() == code,
    {
        match errcode_to_result(code) {
            Ok(()) => Ok(Mmap { raw: raw_mmap, stage: core::marker::PhantomData }),
            Err(e) => Err(e),
        }
    }

    /// Consumes this inactive map given the status `code` of the native start
    /// call. On success the same underlying region comes back as an active
    /// map. On failure no wrapper value represents the region any more: its
    /// handle comes back beside the mapped error, to be passed to the native
    /// destroy entry point exactly once.
    pub fn start(self, code: u32) -> (r: Result<Mmap<Active>, (Error, u64)>)
        ensures
            r is Ok <==> code == DOCA_SUCCESS,
            r is Ok ==> r->Ok_0.spec_raw() == self.spec_raw(),
            r is Err ==> r->Err_0.0.spec_code() == code && r->Err_0.1 == self.spec_raw(),
    {
        proof {
            use_type_invariant(&self);
        }
        match errcode_to_result(code) {
            Ok(()) => Ok(Mmap { raw: self.raw, stage: core::marker::PhantomData }),
            Err(e) => Err((e, self.raw)),
        }
    }
}

impl Mmap<Active> {
    /// Consumes this active map given the status `code` of the native stop
    /// call. On success the same underlying region comes back as an inactive
    /// map, ready to be reconfigured or started again. On failure the
    /// region's handle comes back beside the mapped error, with the same
    /// destruction duty as in [`Mmap::start`].
    pub fn stop(self, code: u32) -> (r: Result<Mmap<Inactive>, (Error, u64)>)
        ensures
            r is Ok <==> code == DOCA_SUCCESS,
            r is Ok ==> r->Ok_0.spec_raw() == self.spec_raw(),
            r is Err ==> r->Err_0.0.spec_code() == code && r->Err_0.1 == self.spec_raw(),
    {
        proof {
            use_type_invariant(&self);
        }
        match errcode_to_result(code) {
            Ok(()) => Ok(Mmap { raw: self.raw, stage: core::marker::PhantomData }),
            Err(e) => Err((e, self.raw)),
        }
    }
}

/// Law: a map taken through a successful start and then a successful stop is
/// observably equivalent to one that never transitioned — each transition
/// keeps the underlying region handle, so the round trip does too. The
/// premises are exactly what the contracts of [`Mmap::start`] and
/// [`Mmap::stop`] give for their success cases.
pub proof fn lemma_start_stop_round_trip(
    created: Mmap<Inactive>,
    started: Mmap<Active>,
    stopped: Mmap<Inactive>,
)
    requires
        started.spec_raw() == created.spec_raw(),
        stopped.spec_raw() == started.spec_raw(),
    ensures
        stopped.spec_raw() == created.spec_raw(),
{
}

} // verus!

//! Device enumeration lists and the exclusively owned device handle.
//!
//! A list wraps the outcome of one native enumeration call: the status code,
//! the array handle the call filled in, and the entry handles read from that
//! array. Its length is exactly the count the native call reported, every
//! entry is non-null, and the whole list is released at once, exactly once,
//! by consuming it.

use vstd::prelude::*;

use crate::error::{errcode_to_result, Error, DOCA_SUCCESS};

verus! {

/// Descriptor of one discoverable physical device: the native info handle,
/// supplied by value at open time. Entries are owned collectively by the
/// list they came from and are never destroyed individually.
#[derive(Debug, Clone, Copy)]
pub struct DevInfo {
    raw: u64,
}

impl DevInfo {
    #[verifier::type_invariant]
    spec fn inv(self) -> bool {
        self.raw != 0
    }

    /// The native info handle this descriptor carries.
    pub closed spec fn spec_raw(&self) -> u64 {
        self.raw
    }

    /// The native info handle, to be passed to the native open entry point.
    pub fn raw(&self) -> (r: u64)
        ensures
            r == self.spec_raw(),
            r != 0,
    {
        proof {
            use_type_invariant(&*self);
        }
        self.raw
    }
}

/// The enumerated set of physical-device descriptors.
#[derive(Debug)]
pub struct DevInfoList {
    raws: Vec<u64>,
    base: u64,
}

impl View for DevInfoList {
    type V = Seq<u64>;

    closed spec fn view(&self) -> Seq<u64> {
        self.raws@
    }
}

impl DevInfoList {
    #[verifier::type_invariant]
    spec fn inv(self) -> bool {
        forall|i: int| 0 <= i < self.raws@.len() ==> self.raws@[i] != 0
    }

    /// The native array handle the enumeration call filled in; it is what the
    /// native list-destroy entry point takes back.
    pub closed spec fn spec_base(&self) -> u64 {
        self.base
    }

    /// Wraps the outcome of the native device enumeration: `code` is the
    /// status the call returned, `base` the array handle it filled in, and
    /// `raw_entries` the entry handles read from that array, in order. On
    /// success the list holds exactly those entries; on failure the mapped
    /// error is returned and no partial state is retained. A null entry
    /// beside a success code would be a broken native contract, so it is
    /// excluded up front rather than handled.
    pub fn new(code: u32, base: u64, raw_entries: Vec<u64>) -> (r: Result<DevInfoList, Error>)
        requires
            code == DOCA_SUCCESS ==> forall|i: int|
                0 <= i < raw_entries@.len() ==> raw_entries@[i] != 0,
        ensures
            r is Ok <==> code == DOCA_SUCCESS,
            r is Ok ==> r->Ok_0@ == raw_entries@ && r->Ok_0.spec_base() == base,
            r is Ok ==> forall|i: int| 0 <= i < r->Ok_0@.len() ==> r->Ok_0@[i] != 0,
            r is Err ==> r->Err_0.spec_code() == code,
    {
        match errcode_to_result(code) {
            Ok(()) => Ok(DevInfoList { raws: raw_entries, base: base }),
            Err(e) => Err(e),
        }
    }

    /// The number of devices the native enumeration reported.
    pub fn len(&self) -> (n: usize)
        ensures
            n == self@.len(),
    {
        self.raws.len()
    }

    /// The descriptor at one position; always a non-null entry.
    pub fn get(&self, i: usize) -> (d: DevInfo)
        requires
            i < self@.len(),
        ensures
            d.spec_raw() == self@[i as int],
            d.spec_raw() != 0,
    {
        proof {
            use_type_invariant(&*self);
        }
        DevInfo { raw: self.raws[i] }
    }

    /// Consumes the list and hands back the native array handle, to be passed
    /// to the native list-destroy entry point exactly once; all entries are
    /// released with it at once.
    pub fn destroy(self) -> (r: u64)
        ensures
            r == self.spec_base(),
    {
        self.base
    }
}

/// Descriptor of one representor (proxy) device, scoped to the open device
/// and filter it was enumerated under.
#[derive(Debug, Clone, Copy)]
pub struct DevInfoRep {
    raw: u64,
}

impl DevInfoRep {
    #[verifier::type_invariant]
    spec fn inv(self) -> bool {
        self.raw != 0
    }

    /// The native representor-info handle this descriptor carries.
    pub closed spec fn spec_raw(&self) -> u64 {
        self.raw
    }

    /// The native representor-info handle.
    pub fn raw(&self) -> (r: u64)
        ensures
            r == self.spec_raw(),
            r != 0,
    {
        proof {
            use_type_invariant(&*self);
        }
        self.raw
    }
}

/// The enumerated set of representor-device descriptors for one open device
/// and one filter mask.
#[derive(Debug)]
pub struct DevInfoRepList {
    raws: Vec<u64>,
    base: u64,
}

impl View for DevInfoRepList {
    type V = Seq<u64>;

    closed spec fn view(&self) -> Seq<u64> {
        self.raws@
    }
}

impl DevInfoRepList {
    #[verifier::type_invariant]
    spec fn inv(self) -> bool {
        forall|i: int| 0 <= i < self.raws@.len() ==> self.raws@[i] != 0
    }

    /// The native array handle the enumeration call filled in.
    pub closed spec fn spec_base(&self) -> u64 {
        self.base
    }

    /// Wraps the outcome of the native representor enumeration for `dev`
    /// under `filter`, with the same discipline as [`DevInfoList::new`]:
    /// `code`, `base` and `raw_entries` are what the native call produced.
    pub fn new(
        dev: &Dev,
        filter: i32,
        code: u32,
        base: u64,
        raw_entries: Vec<u64>,
    ) -> (r: Result<DevInfoRepList, Error>)
        requires
            code == DOCA_SUCCESS ==> forall|i: int|
                0 <= i < raw_entries@.len() ==> raw_entries@[i] != 0,
        ensures
            r is Ok <==> code == DOCA_SUCCESS,
            r is Ok ==> r->Ok_0@ == raw_entries@ && r->Ok_0.spec_base() == base,
            r is Ok ==> forall|i: int| 0 <= i < r->Ok_0@.len() ==> r->Ok_0@[i] != 0,
            r is Err ==> r->Err_0.spec_code() == code,
    {
        match errcode_to_result(code) {
            Ok(()) => Ok(DevInfoRepList { raws: raw_entries, base: base }),
            Err(e) => Err(e),
        }
    }

    /// The number of representors the native enumeration reported.
    pub fn len(&self) -> (n: usize)
        ensures
            n == self@.len(),
    {
        self.raws.len()
    }

    /// The descriptor at one position; always a non-null entry.
    pub fn get(&self, i: usize) -> (d: DevInfoRep)
        requires
            i < self@.len(),
        ensures
            d.spec_raw() == self@[i as int],
            d.spec_raw() != 0,
    {
        proof {
            use_type_invariant(&*self);
        }
        DevInfoRep { raw: self.raws[i] }
    }

    /// Consumes the list and hands back the native array handle, to be passed
    /// to the native list-destroy entry point exactly once.
    pub fn destroy(self) -> (r: u64)
        ensures
            r == self.spec_base(),
    {
        self.base
    }
}

/// An opened, exclusively owned handle to one physical device. Only one live
/// value ever refers to a given native device handle, and [`Dev::close`]
/// consumes the value, so the handle is given up exactly once.
#[derive(Debug)]
pub struct Dev {
    raw: u64,
}

impl Dev {
    #[verifier::type_invariant]
    spec fn inv(self) -> bool {
        self.raw != 0
    }

    /// The native device handle this value owns.
    pub closed spec fn spec_raw(&self) -> u64 {
        self.raw
    }

    /// Wraps the outcome of opening the device `info` identifies: `code` is
    /// the status the native open call returned and `raw_dev` the handle it
    /// filled in. On success the handle is non-null and owned exclusively by
    /// the returned value; on failure the mapped error comes back. A null
    /// handle beside a success code would be a broken native contract, so it
    /// is excluded up front rather than handled.
    pub fn new(info: &DevInfo, code: u32, raw_dev: u64) -> (r: Result<Dev, Error>)
        requires
            code == DOCA_SUCCESS ==> raw_dev != 0,
        ensures
            r is Ok <==> code == DOCA_SUCCESS,
            r is Ok ==> r->Ok_0.spec_raw() == raw_dev && r->Ok_0.spec_raw() != 0,
            r is Err ==> r->Err_0.spec_code() == code,
    {
        match errcode_to_result(code) {
            Ok(()) => Ok(Dev { raw: raw_dev }),
            Err(e) => Err(e),
        }
    }

    /// The native device handle, for making further native calls on this
    /// device while it stays owned here.
    pub fn raw(&self) -> (r: u64)
        ensures
            r == self.spec_raw(),
            r != 0,
    {
        proof {
            use_type_invariant(&*self);
        }
        self.raw
    }

    /// Recovers the originating info descriptor of this open device:
    /// `raw_info` is what the native accessor returned for it. A null answer
    /// is an absent value, not an error, since this accessor is not
    /// essential.
    pub fn info(&self, raw_info: u64) -> (r: Option<DevInfo>)
        ensures
            r is Some <==> raw_info != 0,
            r is Some ==> r->0.spec_raw() == raw_info,
    {
        if raw_info != 0 {
            Some(DevInfo { raw: raw_info })
        } else {
            None
        }
    }

    /// Consumes the handle and hands back the native device handle, to be
    /// passed to the native close entry point exactly once; a close failure
    /// is for the embedder to log, never to escalate.
    pub fn close(self) -> (r: u64)
        ensures
            r == self.spec_raw(),
            r != 0,
    {
        proof {
            use_type_invariant(&self);
        }
        self.raw
    }
}

} // verus!

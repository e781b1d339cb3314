//! The map access layer: a created map record, a per-map readers-or-one-
//! writer state machine with fallible, non-blocking acquisition, and the
//! fallible typed-view conversions that guard every shaped access.

use vstd::prelude::*;
use crate::obj::{MapDef, ObjMap, resolved_def, BPF_MAP_TYPE_HASH, BPF_MAP_TYPE_ARRAY, BPF_MAP_TYPE_PERF_EVENT_ARRAY};

verus! {

/// Errors of the map layer: a failed element update, an already outstanding
/// incompatible view, or a typed view requested against the wrong shape.
#[derive(Debug)]
pub enum MapError {
    UpdateElementError { code: u32 },
    BorrowError { name: String },
    UnexpectedMapType { map_type: u32 },
    UnexpectedKeyValueSize { key_size: u32, value_size: u32 },
}

/// A created map: the parsed record with its resolved definition, and the
/// kernel resource handle, present from successful creation on.
#[derive(Debug)]
pub struct BpfMap {
    pub obj: ObjMap,
    pub fd: Option<u32>,
}

/// The per-map borrow arbiter: counts of outstanding shared views and the
/// one outstanding exclusive view over a single created map.
#[derive(Debug)]
pub struct MapLock {
    pub map: BpfMap,
    pub shared: usize,
    pub exclusive: bool,
}

/// A shared view of a map: the resolved definition and resource handle,
/// enough for every read-side kernel access without re-entering the loader.
#[derive(Debug)]
pub struct MapRef {
    pub name: String,
    pub def: MapDef,
    pub fd: Option<u32>,
}

/// An exclusive view of a map, carrying the same resolved identity.
#[derive(Debug)]
pub struct MapRefMut {
    pub name: String,
    pub def: MapDef,
    pub fd: Option<u32>,
}

/// A created map record carries the parsed map under its name, with the
/// definition resolved against the host's CPU ids and the handle creation
/// returned.
pub open spec fn created_map_matches(b: BpfMap, m: ObjMap, ids: Seq<u32>, fd: u32) -> bool {
    &&& b.obj.name@ == m.name@
    &&& b.obj.def == resolved_def(m.def, ids)
    &&& b.obj.data@ == m.data@
    &&& b.fd == Some(fd)
}

/// A shared view mirrors the map it was taken from.
pub open spec fn ref_matches(r: MapRef, m: BpfMap) -> bool {
    r.name@ == m.obj.name@ && r.def == m.obj.def && r.fd == m.fd
}

/// An exclusive view mirrors the map it was taken from.
pub open spec fn ref_mut_matches(r: MapRefMut, m: BpfMap) -> bool {
    r.name@ == m.obj.name@ && r.def == m.obj.def && r.fd == m.fd
}

impl MapLock {
    /// Whether a shared view may be handed out: no exclusive view is live.
    pub open spec fn can_read(self) -> bool {
        !self.exclusive
    }

    /// Whether an exclusive view may be handed out: no view at all is live.
    pub open spec fn can_write(self) -> bool {
        !self.exclusive && self.shared == 0
    }

    /// Wrap a freshly created map; no view is outstanding yet.
    pub fn new(map: BpfMap) -> (r: MapLock)
        ensures
            r.map == map,
            r.shared == 0,
            r.exclusive == false,
    {
        MapLock { map, shared: 0, exclusive: false }
    }

    /// Try to take a shared view: succeeds exactly when no exclusive view is
    /// outstanding, and then one more shared view is counted; fails with a
    /// named borrow error and an unchanged state otherwise.
    pub fn try_read(&mut self) -> (r: Result<MapRef, MapError>)
        requires
            old(self).shared < usize::MAX,
        ensures
            final(self).map == old(self).map,
            final(self).exclusive == old(self).exclusive,
            r is Ok <==> old(self).can_read(),
            r matches Ok(v) ==> ref_matches(v, old(self).map)
                && final(self).shared == old(self).shared + 1,
            r is Err ==> final(self).shared == old(self).shared
                && (r matches Err(MapError::BorrowError { name })
                    && name@ == old(self).map.obj.name@),
    {
        if self.exclusive {
            Err(MapError::BorrowError { name: self.map.obj.name.clone() })
        } else {
            self.shared = self.shared + 1;
            Ok(MapRef {
                name: self.map.obj.name.clone(),
                def: self.map.obj.def,
                fd: self.map.fd,
            })
        }
    }

    /// Try to take the exclusive view: succeeds exactly when no shared or
    /// exclusive view is outstanding; fails with a named borrow error and an
    /// unchanged state otherwise.
    pub fn try_write(&mut self) -> (r: Result<MapRefMut, MapError>)
        ensures
            final(self).map == old(self).map,
            final(self).shared == old(self).shared,
            r is Ok <==> old(self).can_write(),
            r matches Ok(v) ==> ref_mut_matches(v, old(self).map)
                && final(self).exclusive == true,
            r is Err ==> final(self).exclusive == old(self).exclusive
                && (r matches Err(MapError::BorrowError { name })
                    && name@ == old(self).map.obj.name@),
    {
        if self.exclusive || self.shared > 0 {
            Err(MapError::BorrowError { name: self.map.obj.name.clone() })
        } else {
            self.exclusive = true;
            Ok(MapRefMut {
                name: self.map.obj.name.clone(),
                def: self.map.obj.def,
                fd: self.map.fd,
            })
        }
    }

    /// Give a shared view back: one outstanding shared view fewer. Reports
    /// whether any shared view was outstanding at all.
    pub fn release_read(&mut self) -> (r: bool)
        ensures
            final(self).map == old(self).map,
            final(self).exclusive == old(self).exclusive,
            r == (old(self).shared > 0),
            r ==> final(self).shared == old(self).shared - 1,
            !r ==> final(self).shared == old(self).shared,
    {
        if self.shared > 0 {
            self.shared = self.shared - 1;
            true
        } else {
            false
        }
    }

    /// Give the exclusive view back. Reports whether one was outstanding.
    pub fn release_write(&mut self) -> (r: bool)
        ensures
            final(self).map == old(self).map,
            final(self).shared == old(self).shared,
            r == old(self).exclusive,
            final(self).exclusive == false,
    {
        let r = self.exclusive;
        self.exclusive = false;
        r
    }
}

/// The shape a hash-map view requires of a definition.
pub open spec fn hash_shape_ok(def: MapDef, key_size: u32, value_size: u32) -> bool {
    def.map_type == BPF_MAP_TYPE_HASH && def.key_size == key_size && def.value_size == value_size
}

/// The shape an array view requires of a definition: a 4-byte index key.
pub open spec fn array_shape_ok(def: MapDef, value_size: u32) -> bool {
    def.map_type == BPF_MAP_TYPE_ARRAY && def.key_size == 4 && def.value_size == value_size
}

/// A hash-map-shaped typed view over a shared map view.
#[derive(Debug)]
pub struct HashMapView {
    pub inner: MapRef,
}

/// An array-shaped typed view over a shared map view.
#[derive(Debug)]
pub struct ArrayView {
    pub inner: MapRef,
}

/// A perf-event-ring typed view over the exclusive map view.
#[derive(Debug)]
pub struct PerfEventArrayView {
    pub inner: MapRefMut,
}

impl HashMapView {
    /// Checked conversion from a shared view: succeeds exactly when the
    /// map's created definition is a hash map of the requested key and value
    /// sizes. On mismatch the view comes back beside the typed error, so the
    /// caller still holds it and can give the borrow back.
    pub fn try_from_ref(r: MapRef, key_size: u32, value_size: u32) -> (res: Result<
        HashMapView,
        (MapRef, MapError),
    >)
        ensures
            res is Ok <==> hash_shape_ok(r.def, key_size, value_size),
            res matches Ok(v) ==> v.inner == r,
            res matches Err((back, _)) ==> back == r,
            r.def.map_type != BPF_MAP_TYPE_HASH ==> (res matches Err(
                (_, MapError::UnexpectedMapType { map_type }),
            ) && map_type == r.def.map_type),
            r.def.map_type == BPF_MAP_TYPE_HASH && !hash_shape_ok(r.def, key_size, value_size)
                ==> (res matches Err(
                (_, MapError::UnexpectedKeyValueSize { key_size: k, value_size: v }),
            ) && k == r.def.key_size && v == r.def.value_size),
    {
        if r.def.map_type != BPF_MAP_TYPE_HASH {
            let map_type = r.def.map_type;
            Err((r, MapError::UnexpectedMapType { map_type }))
        } else if r.def.key_size != key_size || r.def.value_size != value_size {
            let key_size = r.def.key_size;
            let value_size = r.def.value_size;
            Err((r, MapError::UnexpectedKeyValueSize { key_size, value_size }))
        } else {
            Ok(HashMapView { inner: r })
        }
    }
}

impl ArrayView {
    /// Checked conversion from a shared view: succeeds exactly when the
    /// map's created definition is an array of the requested value size. On
    /// mismatch the view comes back beside the typed error.
    pub fn try_from_ref(r: MapRef, value_size: u32) -> (res: Result<ArrayView, (MapRef, MapError)>)
        ensures
            res is Ok <==> array_shape_ok(r.def, value_size),
            res matches Ok(v) ==> v.inner == r,
            res matches Err((back, _)) ==> back == r,
            r.def.map_type != BPF_MAP_TYPE_ARRAY ==> (res matches Err(
                (_, MapError::UnexpectedMapType { map_type }),
            ) && map_type == r.def.map_type),
            r.def.map_type == BPF_MAP_TYPE_ARRAY && !array_shape_ok(r.def, value_size) ==> (res
                matches Err((_, MapError::UnexpectedKeyValueSize { key_size: k, value_size: v }))
                && k == r.def.key_size && v == r.def.value_size),
    {
        if r.def.map_type != BPF_MAP_TYPE_ARRAY {
            let map_type = r.def.map_type;
            Err((r, MapError::UnexpectedMapType { map_type }))
        } else if r.def.key_size != 4 || r.def.value_size != value_size {
            let key_size = r.def.key_size;
            let value_size = r.def.value_size;
            Err((r, MapError::UnexpectedKeyValueSize { key_size, value_size }))
        } else {
            Ok(ArrayView { inner: r })
        }
    }
}

impl PerfEventArrayView {
    /// Checked conversion from the exclusive view: succeeds exactly when the
    /// map was created as a perf-event array. On mismatch the view comes
    /// back beside the typed error.
    pub fn try_from_mut(r: MapRefMut) -> (res: Result<PerfEventArrayView, (MapRefMut, MapError)>)
        ensures
            res is Ok <==> r.def.map_type == BPF_MAP_TYPE_PERF_EVENT_ARRAY,
            res matches Ok(v) ==> v.inner == r,
            res is Err ==> (res matches Err((back, MapError::UnexpectedMapType { map_type }))
                && back == r && map_type == r.def.map_type),
    {
        if r.def.map_type != BPF_MAP_TYPE_PERF_EVENT_ARRAY {
            let map_type = r.def.map_type;
            Err((r, MapError::UnexpectedMapType { map_type }))
        } else {
            Ok(PerfEventArrayView { inner: r })
        }
    }
}

} // verus!

//! The load pipeline and the loaded-object facade: resolve map definitions
//! against the host, create and initialize the kernel maps, resolve map and
//! call relocations, classify the programs, and expose the result through
//! name-keyed, borrow-checked, typed lookup.

use vstd::prelude::*;
use crate::maps::{MapError, MapLock, MapRef, MapRefMut, BpfMap, HashMapView, ArrayView, PerfEventArrayView, created_map_matches, ref_matches, ref_mut_matches, hash_shape_ok, array_shape_ok};
use crate::obj::{ObjMap, ObjProgram, ParsedObject, needs_cpu_resolution, resolved_def, writes_initial_data, BPF_MAP_TYPE_HASH, BPF_MAP_TYPE_ARRAY, BPF_MAP_TYPE_PERF_EVENT_ARRAY};
use crate::programs::{Program, ProgramError, program_wraps, kind_wrapped, wrap_program};
use crate::relocation::{apply_map_relocs_obj, apply_call_relocs, prog_names, relocate_maps, relocate_calls, lemma_apply_bridge, RelocationCause};
use crate::sys::{KernelMap, KernelMaps, EINVAL};

verus! {

/// The pseudo-file the host's available CPU ids are enumerated from; a
/// failure of that enumeration is reported together with this path.
pub const POSSIBLE_CPUS: &'static str = "/sys/devices/system/cpu/possible";

/// Plain-old-data values that may cross the map boundary byte for byte.
pub trait Pod: Copy {

}

impl Pod for i8 {

}

impl Pod for u8 {

}

impl Pod for i16 {

}

impl Pod for u16 {

}

impl Pod for i32 {

}

impl Pod for u32 {

}

impl Pod for i64 {

}

impl Pod for u64 {

}

/// The load-time error taxonomy. Every pipeline stage fails the whole load
/// with one of these; nothing is swallowed.
#[derive(Debug)]
pub enum BpfError {
    /// Reading the object file, or enumerating CPU ids, failed.
    FileError { path: String, code: i32 },
    /// The byte stream is not a well-formed object.
    ParseError { reason: String },
    /// Portability relocation failed against the supplied type context.
    BtfError { reason: String },
    /// A named resolution step failed; the cause says whether the entry
    /// named an unknown map, an unknown call target, or a location outside
    /// its instruction stream.
    RelocationError { function: String, cause: RelocationCause },
    /// An element update failed, a view could not be taken, or a typed
    /// view mismatched. Map creation cannot fail against the in-memory
    /// kernel model, so no creation error arises here.
    MapError(MapError),
    /// A program was requested under the wrong kind.
    ProgramError(ProgramError),
}

/// The CPU id list behind a successful enumeration; empty when it failed.
pub open spec fn cpu_seq(cpus: Result<Vec<u32>, i32>) -> Seq<u32> {
    match cpus {
        Ok(ids) => ids@,
        Err(_) => Seq::empty(),
    }
}

/// Whether one parsed map passes the creation stage: its CPU resolution, if
/// it needs one, has a CPU id list to draw from, and its initial data, if
/// it is written, has exactly the declared value size.
pub open spec fn map_ok(m: ObjMap, cpus: Result<Vec<u32>, i32>) -> bool {
    &&& (needs_cpu_resolution(m.def) ==> cpus is Ok)
    &&& (writes_initial_data(m) ==> m.data@.len() == m.def.value_size)
}

/// The first parsed map, from `i` on, that fails the creation stage.
pub open spec fn first_bad_map_from(ms: Seq<ObjMap>, cpus: Result<Vec<u32>, i32>, i: int) -> Option<
    int,
>
    decreases ms.len() - i,
{
    if i < 0 || i >= ms.len() {
        None
    } else if !map_ok(ms[i], cpus) {
        Some(i)
    } else {
        first_bad_map_from(ms, cpus, i + 1)
    }
}

/// The first parsed map that fails the creation stage.
pub open spec fn first_bad_map(ms: Seq<ObjMap>, cpus: Result<Vec<u32>, i32>) -> Option<int> {
    first_bad_map_from(ms, cpus, 0)
}

/// What one created kernel map holds after a successful load: the resolved
/// definition, and element zero equal to the map's initial data exactly
/// when that data is written.
pub open spec fn kernel_entry_matches(e: KernelMap, m: ObjMap, ids: Seq<u32>) -> bool {
    &&& e.def == resolved_def(m.def, ids)
    &&& (match e.element_zero {
        Some(v) => writes_initial_data(m) && v@ == m.data@,
        None => !writes_initial_data(m),
    })
}

/// The kernel map table grew by exactly the first `upto` parsed maps, in
/// order, each created and initialized as prescribed; everything already
/// there is untouched.
pub open spec fn kernel_extended(
    k0: Seq<KernelMap>,
    k1: Seq<KernelMap>,
    ms: Seq<ObjMap>,
    ids: Seq<u32>,
    upto: int,
) -> bool {
    &&& k1.len() == k0.len() + upto
    &&& (forall|t: int| 0 <= t < k0.len() ==> #[trigger] k1[t] == k0[t])
    &&& (forall|t: int| 0 <= t < upto ==> kernel_entry_matches(#[trigger] k1[k0.len() + t], ms[t], ids))
}

/// Whether every relocation entry of one program section resolves: its map
/// references against the parsed maps created from handle `fd_base` on,
/// and then its call targets against the section name table.
pub open spec fn prog_relocs_ok(
    p: ObjProgram,
    ms: Seq<ObjMap>,
    fd_base: int,
    names: Seq<Seq<char>>,
) -> bool {
    match apply_map_relocs_obj(p.insns@, p.map_relocs@, ms, fd_base) {
        Ok(s) => apply_call_relocs(s, p.call_relocs@, names) is Ok,
        Err(_) => false,
    }
}

/// The fully relocated instruction stream of one program section.
pub open spec fn final_prog_insns(
    p: ObjProgram,
    ms: Seq<ObjMap>,
    fd_base: int,
    names: Seq<Seq<char>>,
) -> Seq<crate::obj::Instruction> {
    match apply_map_relocs_obj(p.insns@, p.map_relocs@, ms, fd_base) {
        Ok(s) => match apply_call_relocs(s, p.call_relocs@, names) {
            Ok(t) => t,
            Err(_) => Seq::empty(),
        },
        Err(_) => Seq::empty(),
    }
}

/// A registered program record wraps its parsed section fully relocated:
/// same name and kind, instructions rewritten, relocation entries consumed,
/// no kernel handle, no attachment links, and the prescribed variant.
pub open spec fn program_wraps_relocated(
    q: Program,
    p: ObjProgram,
    ms: Seq<ObjMap>,
    fd_base: int,
    names: Seq<Seq<char>>,
) -> bool {
    let d = q.data_spec();
    &&& d.name@ == p.name@
    &&& d.fd is None
    &&& d.links@.len() == 0
    &&& d.obj.name@ == p.name@
    &&& d.obj.kind == p.kind
    &&& d.obj.insns@ == final_prog_insns(p, ms, fd_base, names)
    &&& d.obj.map_relocs@.len() == 0
    &&& d.obj.call_relocs@.len() == 0
    &&& kind_wrapped(q, p.kind)
}

/// What a successful load returns: one fresh, unborrowed map handle per
/// parsed map, created in order from handle `fd_base` on, and one wrapped,
/// fully relocated program record per parsed section, in order.
pub open spec fn load_ok_post(
    bpf: Bpf,
    ms: Seq<ObjMap>,
    ps: Seq<ObjProgram>,
    cpus: Result<Vec<u32>, i32>,
    fd_base: int,
) -> bool {
    &&& bpf.maps@.len() == ms.len()
    &&& (forall|i: int|
        0 <= i < ms.len() ==> {
            let l = #[trigger] bpf.maps@[i];
            l.shared == 0 && l.exclusive == false && created_map_matches(
                l.map,
                ms[i],
                cpu_seq(cpus),
                ((fd_base + i) as u32),
            )
        })
    &&& bpf.programs@.len() == ps.len()
    &&& (forall|i: int|
        0 <= i < ps.len() ==> program_wraps_relocated(
            #[trigger] bpf.programs@[i],
            ps[i],
            ms,
            fd_base,
            prog_names(ps),
        ))
}

/// The index of the first map lock named `name`, searching from `i`.
pub open spec fn find_lock_from(locks: Seq<MapLock>, name: Seq<char>, i: int) -> Option<int>
    decreases locks.len() - i,
{
    if i < 0 || i >= locks.len() {
        None
    } else if locks[i].map.obj.name@ == name {
        Some(i)
    } else {
        find_lock_from(locks, name, i + 1)
    }
}

/// The index of the first map lock named `name`.
pub open spec fn find_lock(locks: Seq<MapLock>, name: Seq<char>) -> Option<int> {
    find_lock_from(locks, name, 0)
}

/// A found lock index lies in range and names the map looked for.
proof fn lemma_find_lock_in_range(locks: Seq<MapLock>, name: Seq<char>, i: int)
    requires
        find_lock_from(locks, name, i) is Some,
    ensures
        ({
            let j = find_lock_from(locks, name, i)->Some_0;
            i <= j < locks.len() && locks[j].map.obj.name@ == name
        }),
    decreases locks.len() - i,
{
    if 0 <= i < locks.len() && locks[i].map.obj.name@ != name {
        lemma_find_lock_in_range(locks, name, i + 1);
    }
}

/// Replacing a lock by one over a map of the same name leaves every name
/// lookup result unchanged.
proof fn lemma_find_lock_update_same_name(
    locks: Seq<MapLock>,
    name: Seq<char>,
    j: int,
    l2: MapLock,
    i: int,
)
    requires
        0 <= j < locks.len(),
        l2.map.obj.name@ == locks[j].map.obj.name@,
    ensures
        find_lock_from(locks.update(j, l2), name, i) == find_lock_from(locks, name, i),
    decreases locks.len() - i,
{
    if 0 <= i < locks.len() {
        assert(locks.update(j, l2)[i].map.obj.name@ == locks[i].map.obj.name@);
        if locks[i].map.obj.name@ != name {
            lemma_find_lock_update_same_name(locks, name, j, l2, i + 1);
        }
    }
}

/// The index of the first program registered under `name`, from `i` on.
pub open spec fn find_program_from(ps: Seq<Program>, name: Seq<char>, i: int) -> Option<int>
    decreases ps.len() - i,
{
    if i < 0 || i >= ps.len() {
        None
    } else if ps[i].name_spec() == name {
        Some(i)
    } else {
        find_program_from(ps, name, i + 1)
    }
}

/// The index of the first program registered under `name`.
pub open spec fn find_program(ps: Seq<Program>, name: Seq<char>) -> Option<int> {
    find_program_from(ps, name, 0)
}

/// The loaded object: the created maps behind their borrow arbiters and
/// the wrapped programs, each keyed by name.
#[derive(Debug)]
pub struct Bpf {
    pub maps: Vec<MapLock>,
    pub programs: Vec<Program>,
}

impl Bpf {
    /// Load a parsed object: resolve each map definition against the host's
    /// CPU ids, create the kernel maps in order and write their initial
    /// data, resolve every map reference and cross-program call, and wrap
    /// each program section under its kind. Any failure aborts the whole
    /// load; no partial object is returned. `cpus` is the outcome of
    /// enumerating the host's ascending CPU id list, consulted only for a
    /// perf-event-array map declared with zero entries.
    #[verifier::loop_isolation(false)]
    pub fn load(obj: ParsedObject, cpus: Result<Vec<u32>, i32>, kernel: &mut KernelMaps) -> (r:
        Result<Bpf, BpfError>)
        requires
            old(kernel).maps@.len() + obj.maps@.len() < u32::MAX,
            obj.programs@.len() <= u32::MAX,
        ensures
            r is Ok <==> (first_bad_map(obj.maps@, cpus) is None && (forall|i: int|
                0 <= i < obj.programs@.len() ==> prog_relocs_ok(
                    #[trigger] obj.programs@[i],
                    obj.maps@,
                    old(kernel).maps@.len() as int,
                    prog_names(obj.programs@),
                ))),
            r matches Ok(bpf) ==> load_ok_post(
                bpf,
                obj.maps@,
                obj.programs@,
                cpus,
                old(kernel).maps@.len() as int,
            ) && kernel_extended(
                old(kernel).maps@,
                final(kernel).maps@,
                obj.maps@,
                cpu_seq(cpus),
                obj.maps@.len() as int,
            ),
            r matches Err(e) ==> (match first_bad_map(obj.maps@, cpus) {
                Some(j) => {
                    if needs_cpu_resolution(obj.maps@[j].def) && cpus is Err {
                        &&& (e matches BpfError::FileError { path, code } && path@ == POSSIBLE_CPUS@
                            && code == cpus->Err_0)
                        &&& kernel_extended(
                            old(kernel).maps@,
                            final(kernel).maps@,
                            obj.maps@,
                            cpu_seq(cpus),
                            j,
                        )
                    } else {
                        &&& (e matches BpfError::MapError(me) && me matches
                            MapError::UpdateElementError { code } && code == EINVAL)
                        &&& final(kernel).maps@.len() == old(kernel).maps@.len() + j + 1
                        &&& (forall|t: int|
                            0 <= t < old(kernel).maps@.len() ==> #[trigger] final(kernel).maps@[t]
                                == old(kernel).maps@[t])
                        &&& (forall|t: int|
                            0 <= t < j ==> kernel_entry_matches(
                                #[trigger] final(kernel).maps@[old(kernel).maps@.len() + t],
                                obj.maps@[t],
                                cpu_seq(cpus),
                            ))
                        &&& final(kernel).maps@[old(kernel).maps@.len() + j].def == resolved_def(
                            obj.maps@[j].def,
                            cpu_seq(cpus),
                        )
                        &&& final(kernel).maps@[old(kernel).maps@.len() + j].element_zero is None
                    }
                },
                None => {
                    &&& kernel_extended(
                        old(kernel).maps@,
                        final(kernel).maps@,
                        obj.maps@,
                        cpu_seq(cpus),
                        obj.maps@.len() as int,
                    )
                    &&& (e matches BpfError::RelocationError { function, .. } && (exists|k: int|
                        0 <= k < obj.programs@.len() && function@ == (
                        #[trigger] obj.programs@[k]).name@ && !prog_relocs_ok(
                            obj.programs@[k],
                            obj.maps@,
                            old(kernel).maps@.len() as int,
                            prog_names(obj.programs@),
                        )))
                },
            }),
    {
        let ghost ms = obj.maps@;
        let ghost ps = obj.programs@;
        let ghost fd0 = old(kernel).maps@.len() as int;
        let ghost ids = cpu_seq(cpus);
        let ghost names = prog_names(ps);
        let ParsedObject { maps: mut obj_maps, programs: mut obj_programs } = obj;
        let bss: String = ".bss".to_owned();

        let mut created: Vec<BpfMap> = Vec::new();
        let n = obj_maps.len();
        let mut i: usize = 0;
        while i < n
            invariant
                i <= n,
                n == ms.len(),
                obj_maps@ == ms.skip(i as int),
                created@.len() == i,
                bss@ == ".bss"@,
                ids == cpu_seq(cpus),
                fd0 == old(kernel).maps@.len(),
                fd0 + n < u32::MAX,
                kernel.maps@.len() == fd0 + i,
                forall|k: int| 0 <= k < i ==> map_ok(#[trigger] ms[k], cpus),
                first_bad_map(ms, cpus) == first_bad_map_from(ms, cpus, i as int),
                forall|k: int|
                    0 <= k < i ==> created_map_matches(
                        #[trigger] created@[k],
                        ms[k],
                        ids,
                        ((fd0 + k) as u32),
                    ),
                forall|t: int| 0 <= t < fd0 ==> #[trigger] kernel.maps@[t] == old(kernel).maps@[t],
                forall|k: int|
                    0 <= k < i ==> kernel_entry_matches(#[trigger] kernel.maps@[fd0 + k], ms[k], ids),
            decreases n - i,
        {
            let mut m = obj_maps.remove(0);
            proof {
                assert(ms.skip(i as int)[0] == ms[i as int]);
                assert(obj_maps@ =~= ms.skip(i as int + 1));
            }
            if m.def.map_type == BPF_MAP_TYPE_PERF_EVENT_ARRAY && m.def.max_entries == 0 {
                match &cpus {
                    Ok(cpu_ids) => {
                        let len = cpu_ids.len();
                        if len == 0 {
                            m.def.max_entries = 0;
                        } else {
                            m.def.max_entries = cpu_ids[len - 1];
                        }
                    },
                    Err(code) => {
                        proof {
                            assert(!map_ok(ms[i as int], cpus));
                            assert(first_bad_map_from(ms, cpus, i as int) == Some(i as int));
                        }
                        return Err(BpfError::FileError {
                            path: POSSIBLE_CPUS.to_owned(),
                            code: *code,
                        });
                    },
                }
            }
            proof {
                assert(m.def == resolved_def(ms[i as int].def, ids));
            }
            let fd = kernel.create(m.def);
            let has_data = m.data.len() > 0;
            let is_bss = m.name == bss;
            proof {
                assert((has_data && !is_bss) == writes_initial_data(ms[i as int]));
            }
            if has_data && !is_bss {
                match kernel.update_elem_zero(fd, &m.data) {
                    Ok(()) => {},
                    Err(code) => {
                        proof {
                            assert(!map_ok(ms[i as int], cpus));
                            assert(first_bad_map_from(ms, cpus, i as int) == Some(i as int));
                        }
                        return Err(BpfError::MapError(MapError::UpdateElementError { code }));
                    },
                }
            }
            created.push(BpfMap { obj: m, fd: Some(fd) });
            i = i + 1;
        }

        match relocate_maps(&mut obj_programs, &created) {
            Ok(()) => {},
            Err(e) => {
                proof {
                    let k = choose|k: int|
                        0 <= k < ps.len() && crate::relocation::apply_map_relocs(
                            ps[k].insns@,
                            ps[k].map_relocs@,
                            created@,
                        ) is Err && (e matches BpfError::RelocationError { function, .. }
                            && function@ == ps[k].name@);
                    lemma_apply_bridge(ps[k].insns@, ps[k].map_relocs@, created@, ms, ids, fd0, 0);
                    assert(!prog_relocs_ok(ps[k], ms, fd0, names));
                }
                return Err(e);
            },
        }
        let ghost post1 = obj_programs@;
        proof {
            assert(prog_names(post1) =~= names);
            assert forall|k: int| 0 <= k < ps.len() implies crate::relocation::apply_map_relocs(
                (#[trigger] ps[k]).insns@,
                ps[k].map_relocs@,
                created@,
            ) == apply_map_relocs_obj(ps[k].insns@, ps[k].map_relocs@, ms, fd0) by {
                lemma_apply_bridge(ps[k].insns@, ps[k].map_relocs@, created@, ms, ids, fd0, 0);
            }
        }
        match relocate_calls(&mut obj_programs) {
            Ok(()) => {},
            Err(e) => {
                proof {
                    let k = choose|k: int|
                        0 <= k < post1.len() && apply_call_relocs(
                            post1[k].insns@,
                            post1[k].call_relocs@,
                            prog_names(post1),
                        ) is Err && (e matches BpfError::RelocationError { function, .. }
                            && function@ == post1[k].name@);
                    assert(!prog_relocs_ok(ps[k], ms, fd0, names));
                }
                return Err(e);
            },
        }
        let ghost post2 = obj_programs@;

        let mut progs: Vec<Program> = Vec::new();
        let pn = obj_programs.len();
        let mut t: usize = 0;
        while t < pn
            invariant
                t <= pn,
                pn == post2.len(),
                obj_programs@ == post2.skip(t as int),
                progs@.len() == t,
                forall|k: int| 0 <= k < t ==> program_wraps(#[trigger] progs@[k], post2[k]),
            decreases pn - t,
        {
            let section = obj_programs.remove(0);
            proof {
                assert(post2.skip(t as int)[0] == post2[t as int]);
                assert(obj_programs@ =~= post2.skip(t as int + 1));
            }
            progs.push(wrap_program(section));
            t = t + 1;
        }
        proof {
            assert forall|k: int| 0 <= k < ps.len() implies program_wraps_relocated(
                #[trigger] progs@[k],
                ps[k],
                ms,
                fd0,
                names,
            ) by {
                assert(program_wraps(progs@[k], post2[k]));
                assert(post2[k].insns@ == final_prog_insns(ps[k], ms, fd0, names));
            }
        }

        let ghost created_snap = created@;
        let mut locks: Vec<MapLock> = Vec::new();
        let ln = created.len();
        let mut u: usize = 0;
        while u < ln
            invariant
                u <= ln,
                ln == created_snap.len(),
                created@ == created_snap.skip(u as int),
                locks@.len() == u,
                forall|k: int|
                    0 <= k < u ==> {
                        let l = #[trigger] locks@[k];
                        l.map == created_snap[k] && l.shared == 0 && l.exclusive == false
                    },
            decreases ln - u,
        {
            let map = created.remove(0);
            proof {
                assert(created_snap.skip(u as int)[0] == created_snap[u as int]);
                assert(created@ =~= created_snap.skip(u as int + 1));
            }
            locks.push(MapLock::new(map));
            u = u + 1;
        }

        Ok(Bpf { maps: locks, programs: progs })
    }

    /// Look a map up by name and try to take a shared view of it. Absence
    /// is not an error: an absent name yields `Ok(None)`, while a present
    /// map under an outstanding exclusive view yields a named borrow error.
    #[verifier::loop_isolation(false)]
    pub fn map(&mut self, name: &str) -> (r: Result<Option<MapRef>, MapError>)
        requires
            forall|j: int|
                0 <= j < old(self).maps@.len() ==> (#[trigger] old(self).maps@[j]).shared
                    < usize::MAX,
        ensures
            final(self).programs == old(self).programs,
            (match find_lock(old(self).maps@, name@) {
                None => r matches Ok(None) && *final(self) == *old(self),
                Some(j) => {
                    let l = old(self).maps@[j];
                    if l.exclusive {
                        (r matches Err(MapError::BorrowError { name: n }) && n@ == name@)
                            && final(self).maps@ == old(self).maps@
                    } else {
                        (r matches Ok(Some(v)) && ref_matches(v, l.map)) && final(self).maps@
                            == old(self).maps@.update(
                            j,
                            (MapLock { shared: (l.shared + 1) as usize, ..l }),
                        )
                    }
                },
            }),
    {
        let wanted: String = name.to_owned();
        let n = self.maps.len();
        let mut i: usize = 0;
        while i < n
            invariant
                i <= n,
                *self == *old(self),
                find_lock(old(self).maps@, name@) == find_lock_from(
                    old(self).maps@,
                    name@,
                    i as int,
                ),
            decreases n - i,
        {
            if self.maps[i].map.obj.name == wanted {
                let lock = &mut self.maps[i];
                let res = lock.try_read();
                match res {
                    Ok(v) => {
                        return Ok(Some(v));
                    },
                    Err(e) => {
                        proof {
                            assert(self.maps@ =~= old(self).maps@);
                        }
                        return Err(e);
                    },
                }
            }
            i = i + 1;
        }
        Ok(None)
    }

    /// Look a map up by name and try to take the exclusive view of it.
    /// Absence yields `Ok(None)`; any outstanding view yields a named
    /// borrow error.
    #[verifier::loop_isolation(false)]
    pub fn map_mut(&mut self, name: &str) -> (r: Result<Option<MapRefMut>, MapError>)
        ensures
            final(self).programs == old(self).programs,
            (match find_lock(old(self).maps@, name@) {
                None => r matches Ok(None) && *final(self) == *old(self),
                Some(j) => {
                    let l = old(self).maps@[j];
                    if l.exclusive || l.shared > 0 {
                        (r matches Err(MapError::BorrowError { name: n }) && n@ == name@)
                            && final(self).maps@ == old(self).maps@
                    } else {
                        (r matches Ok(Some(v)) && ref_mut_matches(v, l.map)) && final(self).maps@
                            == old(self).maps@.update(j, (MapLock { exclusive: true, ..l }))
                    }
                },
            }),
    {
        let wanted: String = name.to_owned();
        let n = self.maps.len();
        let mut i: usize = 0;
        while i < n
            invariant
                i <= n,
                *self == *old(self),
                find_lock(old(self).maps@, name@) == find_lock_from(
                    old(self).maps@,
                    name@,
                    i as int,
                ),
            decreases n - i,
        {
            if self.maps[i].map.obj.name == wanted {
                let lock = &mut self.maps[i];
                let res = lock.try_write();
                match res {
                    Ok(v) => {
                        return Ok(Some(v));
                    },
                    Err(e) => {
                        proof {
                            assert(self.maps@ =~= old(self).maps@);
                        }
                        return Err(e);
                    },
                }
            }
            i = i + 1;
        }
        Ok(None)
    }

    /// Look a map up by name and take a hash-map-shaped typed view of it
    /// over a fresh shared borrow. Absence yields `Ok(None)`; contention
    /// the named borrow error. On a shape mismatch the typed error comes
    /// back and the shared borrow taken for the attempt is given back, so
    /// the outstanding count is exactly what it was before the call.
    #[verifier::loop_isolation(false)]
    pub fn hash_map(&mut self, name: &str, key_size: u32, value_size: u32) -> (r: Result<
        Option<HashMapView>,
        MapError,
    >)
        requires
            forall|j: int|
                0 <= j < old(self).maps@.len() ==> (#[trigger] old(self).maps@[j]).shared
                    < usize::MAX,
        ensures
            final(self).programs == old(self).programs,
            (match find_lock(old(self).maps@, name@) {
                None => r matches Ok(None) && final(self).maps@ == old(self).maps@,
                Some(j) => {
                    let l = old(self).maps@[j];
                    if l.exclusive {
                        (r matches Err(MapError::BorrowError { name: n }) && n@ == name@)
                            && final(self).maps@ == old(self).maps@
                    } else if hash_shape_ok(l.map.obj.def, key_size, value_size) {
                        (r matches Ok(Some(v)) && ref_matches(v.inner, l.map)) && final(self).maps@
                            == old(self).maps@.update(
                            j,
                            (MapLock { shared: (l.shared + 1) as usize, ..l }),
                        )
                    } else {
                        final(self).maps@ == old(self).maps@ && (if l.map.obj.def.map_type
                            != BPF_MAP_TYPE_HASH {
                            r matches Err(MapError::UnexpectedMapType { map_type }) && map_type
                                == l.map.obj.def.map_type
                        } else {
                            r matches Err(MapError::UnexpectedKeyValueSize {
                                key_size: k,
                                value_size: v,
                            }) && k == l.map.obj.def.key_size && v == l.map.obj.def.value_size
                        })
                    }
                },
            }),
    {
        let got = self.map(name);
        match got {
            Ok(None) => Ok(None),
            Ok(Some(view)) => {
                match HashMapView::try_from_ref(view, key_size, value_size) {
                    Ok(v) => Ok(Some(v)),
                    Err((_view, e)) => {
                        proof {
                            lemma_find_lock_in_range(old(self).maps@, name@, 0);
                            let j = find_lock(old(self).maps@, name@)->Some_0;
                            let l = old(self).maps@[j];
                            lemma_find_lock_update_same_name(
                                old(self).maps@,
                                name@,
                                j,
                                (MapLock { shared: (l.shared + 1) as usize, ..l }),
                                0,
                            );
                        }
                        self.release_shared(name);
                        proof {
                            assert(self.maps@ =~= old(self).maps@);
                        }
                        Err(e)
                    },
                }
            },
            Err(e) => Err(e),
        }
    }

    /// Look a map up by name and take an array-shaped typed view of it over
    /// a fresh shared borrow, with the same release-on-mismatch discipline
    /// as the hash-map accessor.
    #[verifier::loop_isolation(false)]
    pub fn array(&mut self, name: &str, value_size: u32) -> (r: Result<Option<ArrayView>, MapError>)
        requires
            forall|j: int|
                0 <= j < old(self).maps@.len() ==> (#[trigger] old(self).maps@[j]).shared
                    < usize::MAX,
        ensures
            final(self).programs == old(self).programs,
            (match find_lock(old(self).maps@, name@) {
                None => r matches Ok(None) && final(self).maps@ == old(self).maps@,
                Some(j) => {
                    let l = old(self).maps@[j];
                    if l.exclusive {
                        (r matches Err(MapError::BorrowError { name: n }) && n@ == name@)
                            && final(self).maps@ == old(self).maps@
                    } else if array_shape_ok(l.map.obj.def, value_size) {
                        (r matches Ok(Some(v)) && ref_matches(v.inner, l.map)) && final(self).maps@
                            == old(self).maps@.update(
                            j,
                            (MapLock { shared: (l.shared + 1) as usize, ..l }),
                        )
                    } else {
                        final(self).maps@ == old(self).maps@ && (if l.map.obj.def.map_type
                            != BPF_MAP_TYPE_ARRAY {
                            r matches Err(MapError::UnexpectedMapType { map_type }) && map_type
                                == l.map.obj.def.map_type
                        } else {
                            r matches Err(MapError::UnexpectedKeyValueSize {
                                key_size: k,
                                value_size: v,
                            }) && k == l.map.obj.def.key_size && v == l.map.obj.def.value_size
                        })
                    }
                },
            }),
    {
        let got = self.map(name);
        match got {
            Ok(None) => Ok(None),
            Ok(Some(view)) => {
                match ArrayView::try_from_ref(view, value_size) {
                    Ok(v) => Ok(Some(v)),
                    Err((_view, e)) => {
                        proof {
                            lemma_find_lock_in_range(old(self).maps@, name@, 0);
                            let j = find_lock(old(self).maps@, name@)->Some_0;
                            let l = old(self).maps@[j];
                            lemma_find_lock_update_same_name(
                                old(self).maps@,
                                name@,
                                j,
                                (MapLock { shared: (l.shared + 1) as usize, ..l }),
                                0,
                            );
                        }
                        self.release_shared(name);
                        proof {
                            assert(self.maps@ =~= old(self).maps@);
                        }
                        Err(e)
                    },
                }
            },
            Err(e) => Err(e),
        }
    }

    /// Look a map up by name and take the perf-event-ring typed view of it
    /// over the exclusive borrow. On a kind mismatch the exclusive borrow
    /// taken for the attempt is given back, so a following acquisition of
    /// the right shape succeeds.
    #[verifier::loop_isolation(false)]
    pub fn perf_event_array(&mut self, name: &str) -> (r: Result<
        Option<PerfEventArrayView>,
        MapError,
    >)
        ensures
            final(self).programs == old(self).programs,
            (match find_lock(old(self).maps@, name@) {
                None => r matches Ok(None) && final(self).maps@ == old(self).maps@,
                Some(j) => {
                    let l = old(self).maps@[j];
                    if l.exclusive || l.shared > 0 {
                        (r matches Err(MapError::BorrowError { name: n }) && n@ == name@)
                            && final(self).maps@ == old(self).maps@
                    } else if l.map.obj.def.map_type == BPF_MAP_TYPE_PERF_EVENT_ARRAY {
                        (r matches Ok(Some(v)) && ref_mut_matches(v.inner, l.map))
                            && final(self).maps@ == old(self).maps@.update(
                            j,
                            (MapLock { exclusive: true, ..l }),
                        )
                    } else {
                        (r matches Err(MapError::UnexpectedMapType { map_type }) && map_type
                            == l.map.obj.def.map_type) && final(self).maps@ == old(self).maps@
                    }
                },
            }),
    {
        let got = self.map_mut(name);
        match got {
            Ok(None) => Ok(None),
            Ok(Some(view)) => {
                match PerfEventArrayView::try_from_mut(view) {
                    Ok(v) => Ok(Some(v)),
                    Err((_view, e)) => {
                        proof {
                            lemma_find_lock_in_range(old(self).maps@, name@, 0);
                            let j = find_lock(old(self).maps@, name@)->Some_0;
                            let l = old(self).maps@[j];
                            lemma_find_lock_update_same_name(
                                old(self).maps@,
                                name@,
                                j,
                                (MapLock { exclusive: true, ..l }),
                                0,
                            );
                        }
                        self.release_exclusive(name);
                        proof {
                            assert(self.maps@ =~= old(self).maps@);
                        }
                        Err(e)
                    },
                }
            },
            Err(e) => Err(e),
        }
    }

    /// Try a shared view of every map, in order: each entry yields its name
    /// and either a fresh shared view or a named borrow error, every map
    /// visited exactly once.
    #[verifier::loop_isolation(false)]
    pub fn maps(&mut self) -> (r: Vec<(String, Result<MapRef, MapError>)>)
        requires
            forall|j: int|
                0 <= j < old(self).maps@.len() ==> (#[trigger] old(self).maps@[j]).shared
                    < usize::MAX,
        ensures
            final(self).programs == old(self).programs,
            final(self).maps@.len() == old(self).maps@.len(),
            r@.len() == old(self).maps@.len(),
            forall|i: int|
                0 <= i < old(self).maps@.len() ==> {
                    let l = #[trigger] old(self).maps@[i];
                    &&& r@[i].0@ == l.map.obj.name@
                    &&& final(self).maps@[i].map == l.map
                    &&& final(self).maps@[i].exclusive == l.exclusive
                    &&& (if l.exclusive {
                        (r@[i].1 matches Err(MapError::BorrowError { name }) && name@
                            == l.map.obj.name@) && final(self).maps@[i].shared == l.shared
                    } else {
                        (r@[i].1 matches Ok(v) && ref_matches(v, l.map)) && final(self).maps@[i].shared
                            == l.shared + 1
                    })
                },
    {
        let n = self.maps.len();
        let mut out: Vec<(String, Result<MapRef, MapError>)> = Vec::new();
        let mut i: usize = 0;
        while i < n
            invariant
                i <= n,
                self.maps@.len() == n,
                self.programs == old(self).programs,
                out@.len() == i,
                forall|k: int| i <= k < n ==> #[trigger] self.maps@[k] == old(self).maps@[k],
                forall|k: int|
                    0 <= k < i ==> {
                        let l = #[trigger] old(self).maps@[k];
                        &&& out@[k].0@ == l.map.obj.name@
                        &&& self.maps@[k].map == l.map
                        &&& self.maps@[k].exclusive == l.exclusive
                        &&& (if l.exclusive {
                            (out@[k].1 matches Err(MapError::BorrowError { name }) && name@
                                == l.map.obj.name@) && self.maps@[k].shared == l.shared
                        } else {
                            (out@[k].1 matches Ok(v) && ref_matches(v, l.map))
                                && self.maps@[k].shared == l.shared + 1
                        })
                    },
            decreases n - i,
        {
            let lock = &mut self.maps[i];
            let nm = lock.map.obj.name.clone();
            let res = lock.try_read();
            out.push((nm, res));
            i = i + 1;
        }
        out
    }

    /// Look a program up by name; absence yields nothing, distinguishable
    /// from a kind mismatch reported by the typed accessors.
    #[verifier::loop_isolation(false)]
    pub fn program(&self, name: &str) -> (r: Option<&Program>)
        ensures
            (match find_program(self.programs@, name@) {
                None => r is None,
                Some(j) => r matches Some(p) && *p == self.programs@[j],
            }),
    {
        let wanted: String = name.to_owned();
        let n = self.programs.len();
        let mut i: usize = 0;
        while i < n
            invariant
                i <= n,
                find_program(self.programs@, name@) == find_program_from(
                    self.programs@,
                    name@,
                    i as int,
                ),
            decreases n - i,
        {
            if *self.programs[i].name() == wanted {
                return Some(&self.programs[i]);
            }
            i = i + 1;
        }
        None
    }

    /// Look a program up by name for mutation.
    #[verifier::loop_isolation(false)]
    pub fn program_mut(&mut self, name: &str) -> (r: Option<&mut Program>)
        ensures
            final(self).maps == old(self).maps,
            (match find_program(old(self).programs@, name@) {
                None => r is None && final(self).programs == old(self).programs,
                Some(j) => r matches Some(p) && *p == old(self).programs@[j]
                    && final(self).programs@ == old(self).programs@.update(j, *final(p)),
            }),
    {
        let wanted: String = name.to_owned();
        let n = self.programs.len();
        let mut i: usize = 0;
        while i < n
            invariant
                i <= n,
                *self == *old(self),
                find_program(old(self).programs@, name@) == find_program_from(
                    old(self).programs@,
                    name@,
                    i as int,
                ),
            decreases n - i,
        {
            if *self.programs[i].name() == wanted {
                return Some(&mut self.programs[i]);
            }
            i = i + 1;
        }
        None
    }

    /// All programs, in registry order.
    pub fn programs(&self) -> (r: &Vec<Program>)
        ensures
            r == &self.programs,
    {
        &self.programs
    }

    /// Give a shared view of the named map back. Reports whether a shared
    /// view of that map was outstanding at all.
    #[verifier::loop_isolation(false)]
    pub fn release_shared(&mut self, name: &str) -> (r: bool)
        ensures
            final(self).programs == old(self).programs,
            (match find_lock(old(self).maps@, name@) {
                None => !r && *final(self) == *old(self),
                Some(j) => {
                    let l = old(self).maps@[j];
                    r == (l.shared > 0) && (if l.shared > 0 {
                        final(self).maps@ == old(self).maps@.update(
                            j,
                            (MapLock { shared: (l.shared - 1) as usize, ..l }),
                        )
                    } else {
                        final(self).maps@ == old(self).maps@
                    })
                },
            }),
    {
        let wanted: String = name.to_owned();
        let n = self.maps.len();
        let mut i: usize = 0;
        while i < n
            invariant
                i <= n,
                *self == *old(self),
                find_lock(old(self).maps@, name@) == find_lock_from(
                    old(self).maps@,
                    name@,
                    i as int,
                ),
            decreases n - i,
        {
            if self.maps[i].map.obj.name == wanted {
                let lock = &mut self.maps[i];
                let r = lock.release_read();
                proof {
                    if !r {
                        assert(self.maps@ =~= old(self).maps@);
                    }
                }
                return r;
            }
            i = i + 1;
        }
        false
    }

    /// Give the exclusive view of the named map back. Reports whether it
    /// was outstanding.
    #[verifier::loop_isolation(false)]
    pub fn release_exclusive(&mut self, name: &str) -> (r: bool)
        ensures
            final(self).programs == old(self).programs,
            (match find_lock(old(self).maps@, name@) {
                None => !r && *final(self) == *old(self),
                Some(j) => {
                    let l = old(self).maps@[j];
                    r == l.exclusive && final(self).maps@ == old(self).maps@.update(
                        j,
                        (MapLock { exclusive: false, ..l }),
                    )
                },
            }),
    {
        let wanted: String = name.to_owned();
        let n = self.maps.len();
        let mut i: usize = 0;
        while i < n
            invariant
                i <= n,
                *self == *old(self),
                find_lock(old(self).maps@, name@) == find_lock_from(
                    old(self).maps@,
                    name@,
                    i as int,
                ),
            decreases n - i,
        {
            if self.maps[i].map.obj.name == wanted {
                let lock = &mut self.maps[i];
                let r = lock.release_write();
                return r;
            }
            i = i + 1;
        }
        false
    }
}

/// A name that occurs at index `j` is found by the lock lookup.
proof fn lemma_find_lock_present(locks: Seq<MapLock>, name: Seq<char>, i: int, j: int)
    requires
        0 <= i <= j < locks.len(),
        locks[j].map.obj.name@ == name,
    ensures
        find_lock_from(locks, name, i) is Some,
    decreases j - i,
{
    if i < j && locks[i].map.obj.name@ != name {
        lemma_find_lock_present(locks, name, i + 1, j);
    }
}

/// A name that occurs at index `j` is found by the program lookup.
proof fn lemma_find_program_present(ps: Seq<Program>, name: Seq<char>, i: int, j: int)
    requires
        0 <= i <= j < ps.len(),
        ps[j].name_spec() == name,
    ensures
        find_program_from(ps, name, i) is Some,
    decreases j - i,
{
    if i < j && ps[i].name_spec() != name {
        lemma_find_program_present(ps, name, i + 1, j);
    }
}

/// After a load, a created kernel map holds its parsed initial data in
/// element zero exactly when that data is non-empty and the map is not the
/// zero-initialized bookkeeping section; for that section, and for empty
/// data, no update was issued and element zero is untouched.
pub proof fn lemma_initial_data(e: KernelMap, m: ObjMap, ids: Seq<u32>)
    requires
        kernel_entry_matches(e, m, ids),
    ensures
        writes_initial_data(m) ==> (match e.element_zero {
            Some(v) => v@ == m.data@,
            None => false,
        }),
        !writes_initial_data(m) ==> e.element_zero is None,
{
}

/// Round trip: a successful load of an object with `N` map definitions and
/// `M` program sections exposes exactly `N` map entries and `M` program
/// entries, and each parsed map or program name is found by the loaded
/// object's lookup.
pub proof fn lemma_load_round_trip(
    bpf: Bpf,
    ms: Seq<ObjMap>,
    ps: Seq<ObjProgram>,
    cpus: Result<Vec<u32>, i32>,
    fd_base: int,
)
    requires
        load_ok_post(bpf, ms, ps, cpus, fd_base),
    ensures
        bpf.maps@.len() == ms.len(),
        bpf.programs@.len() == ps.len(),
        forall|i: int| 0 <= i < ms.len() ==> find_lock(bpf.maps@, (#[trigger] ms[i]).name@) is Some,
        forall|i: int|
            0 <= i < ps.len() ==> find_program(bpf.programs@, (#[trigger] ps[i]).name@) is Some,
{
    assert forall|i: int| 0 <= i < ms.len() implies find_lock(
        bpf.maps@,
        (#[trigger] ms[i]).name@,
    ) is Some by {
        assert(created_map_matches(bpf.maps@[i].map, ms[i], cpu_seq(cpus), ((fd_base + i) as u32)));
        lemma_find_lock_present(bpf.maps@, ms[i].name@, 0, i);
    }
    assert forall|i: int| 0 <= i < ps.len() implies find_program(
        bpf.programs@,
        (#[trigger] ps[i]).name@,
    ) is Some by {
        assert(program_wraps_relocated(bpf.programs@[i], ps[i], ms, fd_base, prog_names(ps)));
        lemma_find_program_present(bpf.programs@, ps[i].name@, 0, i);
    }
}

} // verus!

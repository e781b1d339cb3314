//! The relocation engine: rewrites the symbolic references embedded in
//! program instruction streams — map references into created kernel
//! resource handles, cross-program call targets into resolved section
//! indices — each entry consumed exactly once, in order.

use vstd::prelude::*;
use crate::obj::{Instruction, MapReloc, CallReloc, ObjMap, ObjProgram};
use crate::maps::{BpfMap, created_map_matches};
use crate::bpf::BpfError;

verus! {

/// Why one relocation entry failed to resolve: it names a map that was
/// never created, a call target no section carries, or a location outside
/// its instruction stream.
#[derive(Clone, Copy, PartialEq, Eq, Structural, Debug)]
pub enum RelocationCause {
    UnknownMap,
    UnknownCallTarget,
    InvalidInstructionIndex,
}

/// The handle of the first created map named `name`, searching from `i`;
/// nothing if no created map of that name has a handle.
pub open spec fn find_created_fd_from(maps: Seq<BpfMap>, name: Seq<char>, i: int) -> Option<u32>
    decreases maps.len() - i,
{
    if i < 0 || i >= maps.len() {
        None
    } else if maps[i].obj.name@ == name {
        maps[i].fd
    } else {
        find_created_fd_from(maps, name, i + 1)
    }
}

/// The handle of the first created map named `name`.
pub open spec fn find_created_fd(maps: Seq<BpfMap>, name: Seq<char>) -> Option<u32> {
    find_created_fd_from(maps, name, 0)
}

/// The same lookup over the parsed maps alone: the map at index `k` is
/// created with handle `fd_base + k`.
pub open spec fn find_obj_fd_from(ms: Seq<ObjMap>, name: Seq<char>, fd_base: int, i: int) -> Option<
    u32,
>
    decreases ms.len() - i,
{
    if i < 0 || i >= ms.len() {
        None
    } else if ms[i].name@ == name {
        Some(((fd_base + i) as u32))
    } else {
        find_obj_fd_from(ms, name, fd_base, i + 1)
    }
}

/// The handle the parsed map named `name` receives when the maps are
/// created in order starting from handle `fd_base`.
pub open spec fn find_obj_fd(ms: Seq<ObjMap>, name: Seq<char>, fd_base: int) -> Option<u32> {
    find_obj_fd_from(ms, name, fd_base, 0)
}

/// The instruction stream after the map relocation entries from `j` on are
/// applied in order against the created maps, or the cause of the first
/// entry that fails to resolve.
pub open spec fn apply_map_relocs_from(
    insns: Seq<Instruction>,
    relocs: Seq<MapReloc>,
    maps: Seq<BpfMap>,
    j: int,
) -> Result<Seq<Instruction>, RelocationCause>
    decreases relocs.len() - j,
{
    if j < 0 || j >= relocs.len() {
        if j == relocs.len() {
            Ok(insns)
        } else {
            Err(RelocationCause::InvalidInstructionIndex)
        }
    } else {
        match find_created_fd(maps, relocs[j].map_name@) {
            Some(fd) => if relocs[j].insn_index < insns.len() {
                apply_map_relocs_from(
                    insns.update(relocs[j].insn_index as int, (Instruction { imm: fd })),
                    relocs,
                    maps,
                    j + 1,
                )
            } else {
                Err(RelocationCause::InvalidInstructionIndex)
            },
            None => Err(RelocationCause::UnknownMap),
        }
    }
}

/// The instruction stream after all map relocation entries are applied.
pub open spec fn apply_map_relocs(
    insns: Seq<Instruction>,
    relocs: Seq<MapReloc>,
    maps: Seq<BpfMap>,
) -> Result<Seq<Instruction>, RelocationCause> {
    apply_map_relocs_from(insns, relocs, maps, 0)
}

/// The same application over the parsed maps alone.
pub open spec fn apply_map_relocs_obj_from(
    insns: Seq<Instruction>,
    relocs: Seq<MapReloc>,
    ms: Seq<ObjMap>,
    fd_base: int,
    j: int,
) -> Result<Seq<Instruction>, RelocationCause>
    decreases relocs.len() - j,
{
    if j < 0 || j >= relocs.len() {
        if j == relocs.len() {
            Ok(insns)
        } else {
            Err(RelocationCause::InvalidInstructionIndex)
        }
    } else {
        match find_obj_fd(ms, relocs[j].map_name@, fd_base) {
            Some(fd) => if relocs[j].insn_index < insns.len() {
                apply_map_relocs_obj_from(
                    insns.update(relocs[j].insn_index as int, (Instruction { imm: fd })),
                    relocs,
                    ms,
                    fd_base,
                    j + 1,
                )
            } else {
                Err(RelocationCause::InvalidInstructionIndex)
            },
            None => Err(RelocationCause::UnknownMap),
        }
    }
}

/// The instruction stream after all map relocation entries are applied,
/// stated over the parsed maps and the first handle the kernel hands out.
pub open spec fn apply_map_relocs_obj(
    insns: Seq<Instruction>,
    relocs: Seq<MapReloc>,
    ms: Seq<ObjMap>,
    fd_base: int,
) -> Result<Seq<Instruction>, RelocationCause> {
    apply_map_relocs_obj_from(insns, relocs, ms, fd_base, 0)
}

/// The section names of a parsed object's programs, in order.
pub open spec fn prog_names(ps: Seq<ObjProgram>) -> Seq<Seq<char>> {
    Seq::new(ps.len(), |i: int| ps[i].name@)
}

/// The view of a snapshot of section names.
pub open spec fn name_seq(names: Seq<String>) -> Seq<Seq<char>> {
    Seq::new(names.len(), |i: int| names[i]@)
}

/// The index of the first section named `target`, searching from `i`.
pub open spec fn find_section_from(names: Seq<Seq<char>>, target: Seq<char>, i: int) -> Option<int>
    decreases names.len() - i,
{
    if i < 0 || i >= names.len() {
        None
    } else if names[i] == target {
        Some(i)
    } else {
        find_section_from(names, target, i + 1)
    }
}

/// The index of the first section named `target`.
pub open spec fn find_section_idx(names: Seq<Seq<char>>, target: Seq<char>) -> Option<int> {
    find_section_from(names, target, 0)
}

/// The instruction stream after the call relocation entries from `j` on are
/// applied in order — each call immediate becomes the index of its target
/// section — or the cause of the first entry that fails to resolve.
pub open spec fn apply_call_relocs_from(
    insns: Seq<Instruction>,
    relocs: Seq<CallReloc>,
    names: Seq<Seq<char>>,
    j: int,
) -> Result<Seq<Instruction>, RelocationCause>
    decreases relocs.len() - j,
{
    if j < 0 || j >= relocs.len() {
        if j == relocs.len() {
            Ok(insns)
        } else {
            Err(RelocationCause::InvalidInstructionIndex)
        }
    } else {
        match find_section_idx(names, relocs[j].target_section@) {
            Some(k) => if relocs[j].insn_index < insns.len() {
                apply_call_relocs_from(
                    insns.update(relocs[j].insn_index as int, (Instruction { imm: k as u32 })),
                    relocs,
                    names,
                    j + 1,
                )
            } else {
                Err(RelocationCause::InvalidInstructionIndex)
            },
            None => Err(RelocationCause::UnknownCallTarget),
        }
    }
}

/// The instruction stream after all call relocation entries are applied.
pub open spec fn apply_call_relocs(
    insns: Seq<Instruction>,
    relocs: Seq<CallReloc>,
    names: Seq<Seq<char>>,
) -> Result<Seq<Instruction>, RelocationCause> {
    apply_call_relocs_from(insns, relocs, names, 0)
}

/// Everything but the instruction words survives a relocation pass.
pub open spec fn shape_kept(a: ObjProgram, b: ObjProgram) -> bool {
    &&& a.name == b.name
    &&& a.kind == b.kind
    &&& a.map_relocs == b.map_relocs
    &&& a.call_relocs == b.call_relocs
    &&& a.insns@.len() == b.insns@.len()
}

/// Handle lookup over created map records agrees with the lookup over the
/// parsed maps they were created from.
pub proof fn lemma_find_bridge(
    maps: Seq<BpfMap>,
    ms: Seq<ObjMap>,
    ids: Seq<u32>,
    fd_base: int,
    name: Seq<char>,
    i: int,
)
    requires
        maps.len() == ms.len(),
        forall|k: int|
            0 <= k < ms.len() ==> created_map_matches(
                #[trigger] maps[k],
                ms[k],
                ids,
                ((fd_base + k) as u32),
            ),
    ensures
        find_created_fd_from(maps, name, i) == find_obj_fd_from(ms, name, fd_base, i),
    decreases maps.len() - i,
{
    if 0 <= i < maps.len() && maps[i].obj.name@ != name {
        lemma_find_bridge(maps, ms, ids, fd_base, name, i + 1);
    }
}

/// Map relocation over created map records agrees with its statement over
/// the parsed maps they were created from.
pub proof fn lemma_apply_bridge(
    insns: Seq<Instruction>,
    relocs: Seq<MapReloc>,
    maps: Seq<BpfMap>,
    ms: Seq<ObjMap>,
    ids: Seq<u32>,
    fd_base: int,
    j: int,
)
    requires
        maps.len() == ms.len(),
        forall|k: int|
            0 <= k < ms.len() ==> created_map_matches(
                #[trigger] maps[k],
                ms[k],
                ids,
                ((fd_base + k) as u32),
            ),
    ensures
        apply_map_relocs_from(insns, relocs, maps, j) == apply_map_relocs_obj_from(
            insns,
            relocs,
            ms,
            fd_base,
            j,
        ),
    decreases relocs.len() - j,
{
    if 0 <= j < relocs.len() {
        lemma_find_bridge(maps, ms, ids, fd_base, relocs[j].map_name@, 0);
        match find_created_fd(maps, relocs[j].map_name@) {
            Some(fd) => {
                if relocs[j].insn_index < insns.len() {
                    lemma_apply_bridge(
                        insns.update(relocs[j].insn_index as int, (Instruction { imm: fd })),
                        relocs,
                        maps,
                        ms,
                        ids,
                        fd_base,
                        j + 1,
                    );
                }
            },
            None => {},
        }
    }
}

/// The handle of the first created map with the given name.
fn find_map_fd(maps: &Vec<BpfMap>, name: &String) -> (r: Option<u32>)
    ensures
        r == find_created_fd(maps@, name@),
{
    let n = maps.len();
    let mut i: usize = 0;
    while i < n
        invariant
            i <= n,
            n == maps@.len(),
            find_created_fd(maps@, name@) == find_created_fd_from(maps@, name@, i as int),
        decreases n - i,
    {
        if maps[i].obj.name == *name {
            return maps[i].fd;
        }
        i = i + 1;
    }
    None
}

/// The index of the first program section with the given name.
fn find_section(names: &Vec<String>, target: &String) -> (r: Option<usize>)
    ensures
        (match find_section_idx(name_seq(names@), target@) {
            Some(k) => r matches Some(u) && u as int == k,
            None => r is None,
        }),
{
    let n = names.len();
    let mut i: usize = 0;
    while i < n
        invariant
            i <= n,
            n == names@.len(),
            find_section_idx(name_seq(names@), target@) == find_section_from(
                name_seq(names@),
                target@,
                i as int,
            ),
        decreases n - i,
    {
        if names[i] == *target {
            proof {
                assert(name_seq(names@)[i as int] == names@[i as int]@);
            }
            return Some(i);
        }
        proof {
            assert(name_seq(names@)[i as int] == names@[i as int]@);
        }
        i = i + 1;
    }
    None
}

/// Resolve one program's map references against the created maps, in order,
/// rewriting each referenced immediate into the map's resource handle.
fn relocate_prog_maps(prog: &mut ObjProgram, maps: &Vec<BpfMap>) -> (r: Result<(), BpfError>)
    ensures
        shape_kept(*final(prog), *old(prog)),
        (match apply_map_relocs(old(prog).insns@, old(prog).map_relocs@, maps@) {
            Ok(s) => r is Ok && final(prog).insns@ == s,
            Err(c) => r matches Err(BpfError::RelocationError { function, cause }) && function@
                == old(prog).name@ && cause == c,
        }),
{
    let n = prog.map_relocs.len();
    let mut j: usize = 0;
    while j < n
        invariant
            j <= n,
            n == prog.map_relocs@.len(),
            shape_kept(*prog, *old(prog)),
            apply_map_relocs(old(prog).insns@, old(prog).map_relocs@, maps@)
                == apply_map_relocs_from(prog.insns@, prog.map_relocs@, maps@, j as int),
        decreases n - j,
    {
        let idx = prog.map_relocs[j].insn_index;
        let fd_opt = find_map_fd(maps, &prog.map_relocs[j].map_name);
        match fd_opt {
            Some(fd) => {
                if idx < prog.insns.len() {
                    let ghost pre = prog.insns@;
                    let slot = &mut prog.insns[idx];
                    *slot = Instruction { imm: fd };
                    proof {
                        assert(prog.insns@ == pre.update(idx as int, (Instruction { imm: fd })));
                    }
                } else {
                    return Err(BpfError::RelocationError {
                        function: prog.name.clone(),
                        cause: RelocationCause::InvalidInstructionIndex,
                    });
                }
            },
            None => {
                return Err(BpfError::RelocationError {
                    function: prog.name.clone(),
                    cause: RelocationCause::UnknownMap,
                });
            },
        }
        j = j + 1;
    }
    Ok(())
}

/// Resolve one program's cross-program call references against the section
/// name table, in order.
fn relocate_prog_calls(prog: &mut ObjProgram, names: &Vec<String>) -> (r: Result<(), BpfError>)
    requires
        names@.len() <= u32::MAX,
    ensures
        shape_kept(*final(prog), *old(prog)),
        (match apply_call_relocs(old(prog).insns@, old(prog).call_relocs@, name_seq(names@)) {
            Ok(s) => r is Ok && final(prog).insns@ == s,
            Err(c) => r matches Err(BpfError::RelocationError { function, cause }) && function@
                == old(prog).name@ && cause == c,
        }),
{
    let n = prog.call_relocs.len();
    let mut j: usize = 0;
    while j < n
        invariant
            j <= n,
            n == prog.call_relocs@.len(),
            names@.len() <= u32::MAX,
            shape_kept(*prog, *old(prog)),
            apply_call_relocs(old(prog).insns@, old(prog).call_relocs@, name_seq(names@))
                == apply_call_relocs_from(prog.insns@, prog.call_relocs@, name_seq(names@), j as int),
        decreases n - j,
    {
        let idx = prog.call_relocs[j].insn_index;
        let target_opt = find_section(names, &prog.call_relocs[j].target_section);
        match target_opt {
            Some(k) => {
                if idx < prog.insns.len() {
                    let ghost pre = prog.insns@;
                    let slot = &mut prog.insns[idx];
                    *slot = Instruction { imm: k as u32 };
                    proof {
                        assert(prog.insns@ == pre.update(idx as int, (Instruction {
                            imm: k as u32,
                        })));
                    }
                } else {
                    return Err(BpfError::RelocationError {
                        function: prog.name.clone(),
                        cause: RelocationCause::InvalidInstructionIndex,
                    });
                }
            },
            None => {
                return Err(BpfError::RelocationError {
                    function: prog.name.clone(),
                    cause: RelocationCause::UnknownCallTarget,
                });
            },
        }
        j = j + 1;
    }
    Ok(())
}

/// Resolve every map-reference relocation entry across all program
/// instruction streams against the created maps. Runs after all maps are
/// created; each program's instructions are rewritten once.
pub fn relocate_maps(programs: &mut Vec<ObjProgram>, maps: &Vec<BpfMap>) -> (r: Result<
    (),
    BpfError,
>)
    ensures
        final(programs)@.len() == old(programs)@.len(),
        forall|i: int|
            0 <= i < old(programs)@.len() ==> shape_kept(
                #[trigger] final(programs)@[i],
                old(programs)@[i],
            ),
        r is Ok <==> (forall|i: int|
            0 <= i < old(programs)@.len() ==> apply_map_relocs(
                (#[trigger] old(programs)@[i]).insns@,
                old(programs)@[i].map_relocs@,
                maps@,
            ) is Ok),
        r is Ok ==> (forall|i: int|
            0 <= i < old(programs)@.len() ==> (match apply_map_relocs(
                (#[trigger] old(programs)@[i]).insns@,
                old(programs)@[i].map_relocs@,
                maps@,
            ) {
                Ok(s) => final(programs)@[i].insns@ == s,
                Err(_) => false,
            })),
        r is Err ==> (exists|k: int|
            0 <= k < old(programs)@.len() && (match apply_map_relocs(
                (#[trigger] old(programs)@[k]).insns@,
                old(programs)@[k].map_relocs@,
                maps@,
            ) {
                Ok(_) => false,
                Err(c) => r matches Err(BpfError::RelocationError { function, cause })
                    && function@ == old(programs)@[k].name@ && cause == c,
            })),
{
    let n = programs.len();
    let mut i: usize = 0;
    while i < n
        invariant
            i <= n,
            n == programs@.len(),
            programs@.len() == old(programs)@.len(),
            forall|k: int|
                i <= k < n ==> #[trigger] programs@[k] == old(programs)@[k],
            forall|k: int|
                0 <= k < i ==> shape_kept(#[trigger] programs@[k], old(programs)@[k]),
            forall|k: int|
                0 <= k < i ==> (match apply_map_relocs(
                    (#[trigger] old(programs)@[k]).insns@,
                    old(programs)@[k].map_relocs@,
                    maps@,
                ) {
                    Ok(s) => programs@[k].insns@ == s,
                    Err(_) => false,
                }),
        decreases n - i,
    {
        let p = &mut programs[i];
        let res = relocate_prog_maps(p, maps);
        match res {
            Ok(()) => {},
            Err(e) => {
                return Err(e);
            },
        }
        i = i + 1;
    }
    Ok(())
}

/// A by-value snapshot of every program's section name, in order.
fn clone_names(programs: &Vec<ObjProgram>) -> (r: Vec<String>)
    ensures
        r@.len() == programs@.len(),
        forall|i: int| 0 <= i < programs@.len() ==> #[trigger] r@[i] == programs@[i].name,
{
    let n = programs.len();
    let mut out: Vec<String> = Vec::new();
    let mut i: usize = 0;
    while i < n
        invariant
            i <= n,
            n == programs@.len(),
            out@.len() == i,
            forall|k: int| 0 <= k < i ==> #[trigger] out@[k] == programs@[k].name,
        decreases n - i,
    {
        out.push(programs[i].name.clone());
        i = i + 1;
    }
    out
}

/// Resolve every cross-program call relocation entry: relative calls
/// between program sections of the same object become resolved section
/// indices. Independent of map relocation; runs before materialization.
pub fn relocate_calls(programs: &mut Vec<ObjProgram>) -> (r: Result<(), BpfError>)
    requires
        old(programs)@.len() <= u32::MAX,
    ensures
        final(programs)@.len() == old(programs)@.len(),
        forall|i: int|
            0 <= i < old(programs)@.len() ==> shape_kept(
                #[trigger] final(programs)@[i],
                old(programs)@[i],
            ),
        r is Ok <==> (forall|i: int|
            0 <= i < old(programs)@.len() ==> apply_call_relocs(
                (#[trigger] old(programs)@[i]).insns@,
                old(programs)@[i].call_relocs@,
                prog_names(old(programs)@),
            ) is Ok),
        r is Ok ==> (forall|i: int|
            0 <= i < old(programs)@.len() ==> (match apply_call_relocs(
                (#[trigger] old(programs)@[i]).insns@,
                old(programs)@[i].call_relocs@,
                prog_names(old(programs)@),
            ) {
                Ok(s) => final(programs)@[i].insns@ == s,
                Err(_) => false,
            })),
        r is Err ==> (exists|k: int|
            0 <= k < old(programs)@.len() && (match apply_call_relocs(
                (#[trigger] old(programs)@[k]).insns@,
                old(programs)@[k].call_relocs@,
                prog_names(old(programs)@),
            ) {
                Ok(_) => false,
                Err(c) => r matches Err(BpfError::RelocationError { function, cause })
                    && function@ == old(programs)@[k].name@ && cause == c,
            })),
{
    let names = clone_names(programs);
    proof {
        assert(name_seq(names@) =~= prog_names(programs@));
    }
    let n = programs.len();
    let mut i: usize = 0;
    while i < n
        invariant
            i <= n,
            n == programs@.len(),
            programs@.len() == old(programs)@.len(),
            old(programs)@.len() <= u32::MAX,
            names@.len() == n,
            name_seq(names@) == prog_names(old(programs)@),
            forall|k: int|
                i <= k < n ==> #[trigger] programs@[k] == old(programs)@[k],
            forall|k: int|
                0 <= k < i ==> shape_kept(#[trigger] programs@[k], old(programs)@[k]),
            forall|k: int|
                0 <= k < i ==> (match apply_call_relocs(
                    (#[trigger] old(programs)@[k]).insns@,
                    old(programs)@[k].call_relocs@,
                    prog_names(old(programs)@),
                ) {
                    Ok(s) => programs@[k].insns@ == s,
                    Err(_) => false,
                }),
        decreases n - i,
    {
        let p = &mut programs[i];
        let res = relocate_prog_calls(p, &names);
        match res {
            Ok(()) => {},
            Err(e) => {
                return Err(e);
            },
        }
        i = i + 1;
    }
    Ok(())
}

} // verus!

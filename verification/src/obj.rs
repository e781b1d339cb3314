//! The parsed, in-memory form of a compiled BPF object: map definitions with
//! optional initial data, program sections with their relocation entries, and
//! the rules that resolve a map definition against the host before creation.

use vstd::prelude::*;

verus! {

/// Kernel map kind: a hash table.
pub const BPF_MAP_TYPE_HASH: u32 = 1;

/// Kernel map kind: a plain array indexed by a 4-byte key.
pub const BPF_MAP_TYPE_ARRAY: u32 = 2;

/// Kernel map kind: a per-CPU perf event ring array.
pub const BPF_MAP_TYPE_PERF_EVENT_ARRAY: u32 = 4;

/// A kernel map definition, exactly the fields handed to map creation.
#[derive(Clone, Copy, PartialEq, Eq, Structural, Debug)]
pub struct MapDef {
    pub map_type: u32,
    pub key_size: u32,
    pub value_size: u32,
    pub max_entries: u32,
    pub map_flags: u32,
}

/// One instruction of a program section, reduced to the immediate operand
/// that relocation rewrites; the remaining encoding is out of scope.
#[derive(Clone, Copy, PartialEq, Eq, Structural, Debug)]
pub struct Instruction {
    pub imm: u32,
}

/// A symbolic reference from an instruction to a map, by name.
#[derive(Debug)]
pub struct MapReloc {
    pub insn_index: usize,
    pub map_name: String,
}

/// A symbolic reference from a call instruction to another program section.
#[derive(Debug)]
pub struct CallReloc {
    pub insn_index: usize,
    pub target_section: String,
}

/// The closed classification of a program section, fixed at parse time.
#[derive(Clone, Copy, PartialEq, Eq, Structural, Debug)]
pub enum ProgramKind {
    KProbe,
    KRetProbe,
    UProbe,
    URetProbe,
    TracePoint,
    SocketFilter,
    Xdp,
}

/// A parsed map: definition, name, and optional initial data.
#[derive(Debug)]
pub struct ObjMap {
    pub name: String,
    pub def: MapDef,
    pub data: Vec<u8>,
}

/// A parsed program section with its pending relocation entries.
#[derive(Debug)]
pub struct ObjProgram {
    pub name: String,
    pub kind: ProgramKind,
    pub insns: Vec<Instruction>,
    pub map_relocs: Vec<MapReloc>,
    pub call_relocs: Vec<CallReloc>,
}

/// A whole parsed object, as the external parser delivers it.
#[derive(Debug)]
pub struct ParsedObject {
    pub maps: Vec<ObjMap>,
    pub programs: Vec<ObjProgram>,
}

/// A perf-event-array map with a declared maximum of zero entries is sized
/// from the host's CPU ids at load time.
pub open spec fn needs_cpu_resolution(d: MapDef) -> bool {
    d.map_type == BPF_MAP_TYPE_PERF_EVENT_ARRAY && d.max_entries == 0
}

/// The auto-resolved entry count: the last id of the host's ascending CPU id
/// list, or zero when the host reports no CPU ids.
pub open spec fn auto_max_entries(ids: Seq<u32>) -> u32 {
    if ids.len() == 0 {
        0
    } else {
        ids[ids.len() - 1]
    }
}

/// The definition a map is created with: unchanged, unless it is a
/// perf-event array declared with zero entries, whose maximum is resolved
/// from the host's CPU ids.
pub open spec fn resolved_def(d: MapDef, ids: Seq<u32>) -> MapDef {
    if needs_cpu_resolution(d) {
        MapDef { max_entries: auto_max_entries(ids), ..d }
    } else {
        d
    }
}

/// The bytecode bookkeeping section that the kernel zero-initializes itself.
pub open spec fn is_zero_section(name: Seq<char>) -> bool {
    name == ".bss"@
}

/// Whether a map's initial data is written into element zero after creation:
/// only non-empty data outside the zero-initialized bookkeeping section.
pub open spec fn writes_initial_data(m: ObjMap) -> bool {
    m.data@.len() > 0 && !is_zero_section(m.name@)
}

/// A perf-event array declared with zero entries resolves to the largest
/// reported CPU id, and to zero on a host that reports none; the other
/// definition fields are untouched.
pub proof fn lemma_perf_event_array_autosize(d: MapDef, ids: Seq<u32>)
    requires
        needs_cpu_resolution(d),
    ensures
        resolved_def(d, ids).max_entries == (if ids.len() == 0 {
            0u32
        } else {
            ids[ids.len() - 1]
        }),
        resolved_def(d, ids).map_type == d.map_type,
        resolved_def(d, ids).key_size == d.key_size,
        resolved_def(d, ids).value_size == d.value_size,
        resolved_def(d, ids).map_flags == d.map_flags,
{
}

/// Every map that is not a perf-event array with a declared maximum of zero
/// keeps its definition unchanged, a zero maximum included.
pub proof fn lemma_other_kinds_pass_through(d: MapDef, ids: Seq<u32>)
    requires
        !needs_cpu_resolution(d),
    ensures
        resolved_def(d, ids) == d,
{
}

} // verus!

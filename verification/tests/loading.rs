use aya::bpf::{Bpf, BpfError, POSSIBLE_CPUS};
use aya::maps::MapError;
use aya::relocation::RelocationCause;
use aya::obj::{
    CallReloc, Instruction, MapDef, MapReloc, ObjMap, ObjProgram, ParsedObject, ProgramKind,
    BPF_MAP_TYPE_ARRAY, BPF_MAP_TYPE_HASH, BPF_MAP_TYPE_PERF_EVENT_ARRAY,
};
use aya::sys::KernelMaps;

fn def(map_type: u32, key_size: u32, value_size: u32, max_entries: u32) -> MapDef {
    MapDef { map_type, key_size, value_size, max_entries, map_flags: 0 }
}

fn map(name: &str, d: MapDef, data: Vec<u8>) -> ObjMap {
    ObjMap { name: name.to_string(), def: d, data }
}

fn prog(name: &str, kind: ProgramKind, insns: Vec<Instruction>) -> ObjProgram {
    ObjProgram {
        name: name.to_string(),
        kind,
        insns,
        map_relocs: Vec::new(),
        call_relocs: Vec::new(),
    }
}

fn insns(imms: &[u32]) -> Vec<Instruction> {
    imms.iter().map(|imm| Instruction { imm: *imm }).collect()
}

#[test]
fn perf_array_autosizes_to_last_cpu_id() {
    let obj = ParsedObject {
        maps: vec![map("events", def(BPF_MAP_TYPE_PERF_EVENT_ARRAY, 4, 4, 0), Vec::new())],
        programs: Vec::new(),
    };
    let mut kernel = KernelMaps::new();
    let mut bpf = Bpf::load(obj, Ok(vec![0, 1, 2, 3]), &mut kernel).unwrap();
    let view = bpf.map("events").unwrap().unwrap();
    assert_eq!(view.def.max_entries, 3);
    assert_eq!(kernel.maps[0].def.max_entries, 3);
}

#[test]
fn perf_array_empty_cpu_list_resolves_to_zero() {
    let obj = ParsedObject {
        maps: vec![map("events", def(BPF_MAP_TYPE_PERF_EVENT_ARRAY, 4, 4, 0), Vec::new())],
        programs: Vec::new(),
    };
    let mut kernel = KernelMaps::new();
    let mut bpf = Bpf::load(obj, Ok(Vec::new()), &mut kernel).unwrap();
    let view = bpf.map("events").unwrap().unwrap();
    assert_eq!(view.def.max_entries, 0);
}

#[test]
fn other_kinds_keep_declared_max_entries() {
    let obj = ParsedObject {
        maps: vec![
            map("zeroed_hash", def(BPF_MAP_TYPE_HASH, 4, 8, 0), Vec::new()),
            map("sized_array", def(BPF_MAP_TYPE_ARRAY, 4, 8, 7), Vec::new()),
        ],
        programs: Vec::new(),
    };
    let mut kernel = KernelMaps::new();
    let mut bpf = Bpf::load(obj, Ok(vec![0, 1, 2, 3]), &mut kernel).unwrap();
    assert_eq!(bpf.map("zeroed_hash").unwrap().unwrap().def.max_entries, 0);
    assert_eq!(bpf.map("sized_array").unwrap().unwrap().def.max_entries, 7);
}

#[test]
fn cpu_enumeration_failure_surfaces_path() {
    let obj = ParsedObject {
        maps: vec![map("events", def(BPF_MAP_TYPE_PERF_EVENT_ARRAY, 4, 4, 0), Vec::new())],
        programs: Vec::new(),
    };
    let mut kernel = KernelMaps::new();
    let err = Bpf::load(obj, Err(5), &mut kernel).unwrap_err();
    match err {
        BpfError::FileError { path, code } => {
            assert_eq!(path, POSSIBLE_CPUS);
            assert_eq!(code, 5);
        }
        _ => panic!("expected a file error"),
    }
}

#[test]
fn cpu_list_failure_ignored_by_sized_maps() {
    let obj = ParsedObject {
        maps: vec![map("sized", def(BPF_MAP_TYPE_PERF_EVENT_ARRAY, 4, 4, 16), Vec::new())],
        programs: Vec::new(),
    };
    let mut kernel = KernelMaps::new();
    let mut bpf = Bpf::load(obj, Err(5), &mut kernel).unwrap();
    assert_eq!(bpf.map("sized").unwrap().unwrap().def.max_entries, 16);
}

#[test]
fn initial_data_written_to_element_zero() {
    let obj = ParsedObject {
        maps: vec![map(".data", def(BPF_MAP_TYPE_ARRAY, 4, 4, 1), vec![1, 2, 3, 4])],
        programs: Vec::new(),
    };
    let mut kernel = KernelMaps::new();
    Bpf::load(obj, Ok(Vec::new()), &mut kernel).unwrap();
    assert_eq!(kernel.maps[0].element_zero, Some(vec![1, 2, 3, 4]));
}

#[test]
fn bss_section_not_written() {
    let obj = ParsedObject {
        maps: vec![map(".bss", def(BPF_MAP_TYPE_ARRAY, 4, 4, 1), vec![0, 0, 0, 0])],
        programs: Vec::new(),
    };
    let mut kernel = KernelMaps::new();
    Bpf::load(obj, Ok(Vec::new()), &mut kernel).unwrap();
    assert_eq!(kernel.maps[0].element_zero, None);
}

#[test]
fn wrong_size_initial_data_fails_update() {
    let obj = ParsedObject {
        maps: vec![map(".data", def(BPF_MAP_TYPE_ARRAY, 4, 8, 1), vec![1, 2, 3])],
        programs: Vec::new(),
    };
    let mut kernel = KernelMaps::new();
    let err = Bpf::load(obj, Ok(Vec::new()), &mut kernel).unwrap_err();
    assert!(matches!(
        err,
        BpfError::MapError(MapError::UpdateElementError { code: 22 })
    ));
}

#[test]
fn map_relocation_rewrites_immediates() {
    let mut p = prog("filter", ProgramKind::Xdp, insns(&[9, 9, 9]));
    p.map_relocs = vec![
        MapReloc { insn_index: 0, map_name: "first".to_string() },
        MapReloc { insn_index: 2, map_name: "second".to_string() },
    ];
    let obj = ParsedObject {
        maps: vec![
            map("first", def(BPF_MAP_TYPE_HASH, 4, 8, 8), Vec::new()),
            map("second", def(BPF_MAP_TYPE_HASH, 4, 8, 8), Vec::new()),
        ],
        programs: vec![p],
    };
    let mut kernel = KernelMaps::new();
    let bpf = Bpf::load(obj, Ok(Vec::new()), &mut kernel).unwrap();
    let loaded = bpf.program("filter").unwrap();
    let data = &loaded.as_xdp().unwrap().data;
    assert_eq!(data.obj.insns[0].imm, 0);
    assert_eq!(data.obj.insns[1].imm, 9);
    assert_eq!(data.obj.insns[2].imm, 1);
    assert!(data.obj.map_relocs.is_empty());
    assert!(data.fd.is_none());
    assert!(data.links.is_empty());
}

#[test]
fn call_relocation_resolves_section_index() {
    let helper = prog("helper", ProgramKind::Xdp, insns(&[0]));
    let mut caller = prog("caller", ProgramKind::Xdp, insns(&[9, 9]));
    caller.call_relocs = vec![CallReloc { insn_index: 1, target_section: "helper".to_string() }];
    let obj = ParsedObject { maps: Vec::new(), programs: vec![helper, caller] };
    let mut kernel = KernelMaps::new();
    let bpf = Bpf::load(obj, Ok(Vec::new()), &mut kernel).unwrap();
    let loaded = bpf.program("caller").unwrap();
    let data = &loaded.as_xdp().unwrap().data;
    assert_eq!(data.obj.insns[1].imm, 0);
    assert!(data.obj.call_relocs.is_empty());
}

#[test]
fn unknown_map_reference_fails_relocation() {
    let mut p = prog("broken", ProgramKind::Xdp, insns(&[0]));
    p.map_relocs = vec![MapReloc { insn_index: 0, map_name: "missing".to_string() }];
    let obj = ParsedObject { maps: Vec::new(), programs: vec![p] };
    let mut kernel = KernelMaps::new();
    let err = Bpf::load(obj, Ok(Vec::new()), &mut kernel).unwrap_err();
    match err {
        BpfError::RelocationError { function, cause } => {
            assert_eq!(function, "broken");
            assert_eq!(cause, RelocationCause::UnknownMap);
        }
        _ => panic!("expected a relocation error"),
    }
}

#[test]
fn unknown_call_target_fails_relocation() {
    let mut p = prog("broken", ProgramKind::Xdp, insns(&[0]));
    p.call_relocs = vec![CallReloc { insn_index: 0, target_section: "missing".to_string() }];
    let obj = ParsedObject { maps: Vec::new(), programs: vec![p] };
    let mut kernel = KernelMaps::new();
    let err = Bpf::load(obj, Ok(Vec::new()), &mut kernel).unwrap_err();
    assert!(matches!(
        err,
        BpfError::RelocationError { cause: RelocationCause::UnknownCallTarget, .. }
    ));
}

#[test]
fn out_of_range_relocation_entry_fails() {
    let mut p = prog("broken", ProgramKind::Xdp, insns(&[0]));
    p.map_relocs = vec![MapReloc { insn_index: 5, map_name: "m".to_string() }];
    let obj = ParsedObject {
        maps: vec![map("m", def(BPF_MAP_TYPE_HASH, 4, 8, 8), Vec::new())],
        programs: vec![p],
    };
    let mut kernel = KernelMaps::new();
    let err = Bpf::load(obj, Ok(Vec::new()), &mut kernel).unwrap_err();
    assert!(matches!(
        err,
        BpfError::RelocationError { cause: RelocationCause::InvalidInstructionIndex, .. }
    ));
}

#[test]
fn round_trip_exposes_every_entry() {
    let obj = ParsedObject {
        maps: vec![
            map("alpha", def(BPF_MAP_TYPE_HASH, 4, 8, 8), Vec::new()),
            map("beta", def(BPF_MAP_TYPE_ARRAY, 4, 8, 2), Vec::new()),
        ],
        programs: vec![
            prog("one", ProgramKind::KProbe, insns(&[0])),
            prog("two", ProgramKind::TracePoint, insns(&[0])),
            prog("three", ProgramKind::SocketFilter, insns(&[0])),
        ],
    };
    let mut kernel = KernelMaps::new();
    let mut bpf = Bpf::load(obj, Ok(Vec::new()), &mut kernel).unwrap();
    let entries = bpf.maps();
    assert_eq!(entries.len(), 2);
    let mut names: Vec<String> = entries.iter().map(|e| e.0.clone()).collect();
    names.sort();
    assert_eq!(names, vec!["alpha".to_string(), "beta".to_string()]);
    assert!(entries.iter().all(|e| e.1.is_ok()));
    assert_eq!(bpf.programs().len(), 3);
    assert!(bpf.program("one").is_some());
    assert!(bpf.program("two").is_some());
    assert!(bpf.program("three").is_some());
    assert!(bpf.map_mut("alpha").is_err());
    bpf.release_shared("alpha");
    assert!(bpf.map_mut("alpha").unwrap().is_some());
}

#[test]
fn end_to_end_perf_array_on_two_hosts() {
    let make = || ParsedObject {
        maps: vec![map("events", def(BPF_MAP_TYPE_PERF_EVENT_ARRAY, 4, 4, 0), Vec::new())],
        programs: vec![prog("probe", ProgramKind::KProbe, insns(&[0]))],
    };
    let mut kernel = KernelMaps::new();
    let mut first = Bpf::load(make(), Ok(vec![0, 1, 2, 3]), &mut kernel).unwrap();
    assert_eq!(first.map("events").unwrap().unwrap().def.max_entries, 3);
    let mut second = Bpf::load(make(), Ok(Vec::new()), &mut kernel).unwrap();
    assert_eq!(second.map("events").unwrap().unwrap().def.max_entries, 0);
}

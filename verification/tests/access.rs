use aya::bpf::Bpf;
use aya::maps::{ArrayView, HashMapView, MapError, PerfEventArrayView};
use aya::obj::{
    Instruction, MapDef, ObjMap, ObjProgram, ParsedObject, ProgramKind, BPF_MAP_TYPE_ARRAY,
    BPF_MAP_TYPE_HASH, BPF_MAP_TYPE_PERF_EVENT_ARRAY,
};
use aya::programs::{ProbeKind, Program, ProgramError};
use aya::sys::KernelMaps;

fn def(map_type: u32, key_size: u32, value_size: u32, max_entries: u32) -> MapDef {
    MapDef { map_type, key_size, value_size, max_entries, map_flags: 0 }
}

fn one_map_object(name: &str, d: MapDef) -> ParsedObject {
    ParsedObject {
        maps: vec![ObjMap { name: name.to_string(), def: d, data: Vec::new() }],
        programs: Vec::new(),
    }
}

fn one_prog_object(name: &str, kind: ProgramKind) -> ParsedObject {
    ParsedObject {
        maps: Vec::new(),
        programs: vec![ObjProgram {
            name: name.to_string(),
            kind,
            insns: vec![Instruction { imm: 0 }],
            map_relocs: Vec::new(),
            call_relocs: Vec::new(),
        }],
    }
}

#[test]
fn shared_views_coexist_but_exclude_the_writer() {
    let mut kernel = KernelMaps::new();
    let mut bpf =
        Bpf::load(one_map_object("m", def(BPF_MAP_TYPE_HASH, 4, 8, 8)), Ok(Vec::new()), &mut kernel)
            .unwrap();
    let first = bpf.map("m").unwrap();
    assert!(first.is_some());
    let second = bpf.map("m").unwrap();
    assert!(second.is_some());
    match bpf.map_mut("m") {
        Err(MapError::BorrowError { name }) => assert_eq!(name, "m"),
        _ => panic!("an exclusive view must fail while shared views are out"),
    }
    assert!(bpf.release_shared("m"));
    assert!(matches!(bpf.map_mut("m"), Err(MapError::BorrowError { .. })));
    assert!(bpf.release_shared("m"));
    assert!(!bpf.release_shared("m"));
    let writer = bpf.map_mut("m").unwrap();
    assert!(writer.is_some());
    assert!(matches!(bpf.map("m"), Err(MapError::BorrowError { .. })));
    assert!(matches!(bpf.map_mut("m"), Err(MapError::BorrowError { .. })));
    assert!(bpf.release_exclusive("m"));
    assert!(bpf.map("m").unwrap().is_some());
}

#[test]
fn absent_names_are_not_found() {
    let mut kernel = KernelMaps::new();
    let mut bpf =
        Bpf::load(one_map_object("m", def(BPF_MAP_TYPE_HASH, 4, 8, 8)), Ok(Vec::new()), &mut kernel)
            .unwrap();
    assert!(matches!(bpf.map("nope"), Ok(None)));
    assert!(matches!(bpf.map_mut("nope"), Ok(None)));
    assert!(bpf.program("nope").is_none());
    assert!(bpf.program_mut("nope").is_none());
    assert!(!bpf.release_shared("nope"));
    assert!(!bpf.release_exclusive("nope"));
}

#[test]
fn hash_view_checks_kind_and_sizes() {
    let mut kernel = KernelMaps::new();
    let mut bpf =
        Bpf::load(one_map_object("m", def(BPF_MAP_TYPE_HASH, 4, 8, 8)), Ok(Vec::new()), &mut kernel)
            .unwrap();
    let r = bpf.map("m").unwrap().unwrap();
    match HashMapView::try_from_ref(r, 4, 16) {
        Err((back, MapError::UnexpectedKeyValueSize { key_size, value_size })) => {
            assert_eq!(key_size, 4);
            assert_eq!(value_size, 8);
            assert_eq!(back.name, "m");
            assert!(bpf.release_shared("m"));
        }
        _ => panic!("a size mismatch must fail the conversion"),
    }
    let r = bpf.map("m").unwrap().unwrap();
    let view = HashMapView::try_from_ref(r, 4, 8).unwrap();
    assert_eq!(view.inner.def.map_type, BPF_MAP_TYPE_HASH);
}

#[test]
fn array_view_rejects_a_hash_map() {
    let mut kernel = KernelMaps::new();
    let mut bpf =
        Bpf::load(one_map_object("m", def(BPF_MAP_TYPE_HASH, 4, 8, 8)), Ok(Vec::new()), &mut kernel)
            .unwrap();
    let r = bpf.map("m").unwrap().unwrap();
    match ArrayView::try_from_ref(r, 8) {
        Err((back, MapError::UnexpectedMapType { map_type })) => {
            assert_eq!(map_type, BPF_MAP_TYPE_HASH);
            assert_eq!(back.name, "m");
        }
        _ => panic!("a kind mismatch must fail the conversion"),
    }
}

#[test]
fn array_view_accepts_a_matching_array() {
    let mut kernel = KernelMaps::new();
    let mut bpf = Bpf::load(
        one_map_object("m", def(BPF_MAP_TYPE_ARRAY, 4, 8, 2)),
        Ok(Vec::new()),
        &mut kernel,
    )
    .unwrap();
    let r = bpf.map("m").unwrap().unwrap();
    assert!(ArrayView::try_from_ref(r, 8).is_ok());
}

#[test]
fn perf_view_requires_a_perf_event_array() {
    let mut kernel = KernelMaps::new();
    let mut bpf = Bpf::load(
        one_map_object("ring", def(BPF_MAP_TYPE_PERF_EVENT_ARRAY, 4, 4, 0)),
        Ok(vec![0, 1]),
        &mut kernel,
    )
    .unwrap();
    let w = bpf.map_mut("ring").unwrap().unwrap();
    assert!(PerfEventArrayView::try_from_mut(w).is_ok());

    let mut other = Bpf::load(
        one_map_object("plain", def(BPF_MAP_TYPE_HASH, 4, 8, 8)),
        Ok(Vec::new()),
        &mut kernel,
    )
    .unwrap();
    let w = other.map_mut("plain").unwrap().unwrap();
    assert!(matches!(
        PerfEventArrayView::try_from_mut(w),
        Err((_, MapError::UnexpectedMapType { .. }))
    ));
}

#[test]
fn typed_mismatch_releases_the_shared_borrow() {
    let mut kernel = KernelMaps::new();
    let mut bpf =
        Bpf::load(one_map_object("m", def(BPF_MAP_TYPE_HASH, 4, 8, 8)), Ok(Vec::new()), &mut kernel)
            .unwrap();
    assert!(matches!(
        bpf.hash_map("m", 4, 16),
        Err(MapError::UnexpectedKeyValueSize { key_size: 4, value_size: 8 })
    ));
    let w = bpf.map_mut("m").unwrap();
    assert!(w.is_some());
    assert!(bpf.release_exclusive("m"));
    let view = bpf.hash_map("m", 4, 8).unwrap().unwrap();
    assert_eq!(view.inner.name, "m");
    assert!(matches!(bpf.map_mut("m"), Err(MapError::BorrowError { .. })));
    assert!(bpf.release_shared("m"));
    assert!(matches!(bpf.hash_map("absent", 4, 8), Ok(None)));
}

#[test]
fn typed_mismatch_releases_the_exclusive_borrow() {
    let mut kernel = KernelMaps::new();
    let mut bpf =
        Bpf::load(one_map_object("m", def(BPF_MAP_TYPE_HASH, 4, 8, 8)), Ok(Vec::new()), &mut kernel)
            .unwrap();
    assert!(matches!(
        bpf.perf_event_array("m"),
        Err(MapError::UnexpectedMapType { map_type: BPF_MAP_TYPE_HASH })
    ));
    let w = bpf.map_mut("m").unwrap();
    assert!(w.is_some());
}

#[test]
fn typed_accessors_accept_matching_shapes() {
    let mut kernel = KernelMaps::new();
    let mut bpf = Bpf::load(
        one_map_object("a", def(BPF_MAP_TYPE_ARRAY, 4, 8, 2)),
        Ok(Vec::new()),
        &mut kernel,
    )
    .unwrap();
    let view = bpf.array("a", 8).unwrap().unwrap();
    assert_eq!(view.inner.name, "a");
    assert!(matches!(
        bpf.array("a", 16),
        Err(MapError::UnexpectedKeyValueSize { .. })
    ));
    let mut ring = Bpf::load(
        one_map_object("ring", def(BPF_MAP_TYPE_PERF_EVENT_ARRAY, 4, 4, 0)),
        Ok(vec![0, 1]),
        &mut kernel,
    )
    .unwrap();
    let view = ring.perf_event_array("ring").unwrap().unwrap();
    assert_eq!(view.inner.def.max_entries, 1);
    assert!(matches!(ring.map("ring"), Err(MapError::BorrowError { .. })));
}

#[test]
fn kind_mismatch_is_distinct_from_absence() {
    let mut kernel = KernelMaps::new();
    let bpf = Bpf::load(one_prog_object("x", ProgramKind::Xdp), Ok(Vec::new()), &mut kernel)
        .unwrap();
    let p = bpf.program("x").unwrap();
    assert!(matches!(p.as_kprobe(), Err(ProgramError::UnexpectedProgramType)));
    assert!(p.as_xdp().is_ok());
}

#[test]
fn probe_flavors_share_a_representation() {
    let mut kernel = KernelMaps::new();
    let kinds = [
        (ProgramKind::KProbe, ProbeKind::KProbe),
        (ProgramKind::KRetProbe, ProbeKind::KRetProbe),
    ];
    for (kind, flavor) in kinds {
        let bpf = Bpf::load(one_prog_object("p", kind), Ok(Vec::new()), &mut kernel).unwrap();
        let probe = bpf.program("p").unwrap().as_kprobe().unwrap();
        assert_eq!(probe.kind, flavor);
    }
    let kinds = [
        (ProgramKind::UProbe, ProbeKind::UProbe),
        (ProgramKind::URetProbe, ProbeKind::URetProbe),
    ];
    for (kind, flavor) in kinds {
        let bpf = Bpf::load(one_prog_object("p", kind), Ok(Vec::new()), &mut kernel).unwrap();
        let probe = bpf.program("p").unwrap().as_uprobe().unwrap();
        assert_eq!(probe.kind, flavor);
    }
}

#[test]
fn trace_point_and_socket_filter_wrap_their_kind() {
    let mut kernel = KernelMaps::new();
    let bpf = Bpf::load(one_prog_object("t", ProgramKind::TracePoint), Ok(Vec::new()), &mut kernel)
        .unwrap();
    assert!(bpf.program("t").unwrap().as_trace_point().is_ok());
    let bpf =
        Bpf::load(one_prog_object("s", ProgramKind::SocketFilter), Ok(Vec::new()), &mut kernel)
            .unwrap();
    let p = bpf.program("s").unwrap();
    assert!(p.as_socket_filter().is_ok());
    assert!(matches!(p.as_trace_point(), Err(ProgramError::UnexpectedProgramType)));
    assert!(matches!(p.as_uprobe(), Err(ProgramError::UnexpectedProgramType)));
    assert!(matches!(p.as_socket_filter(), Ok(_)));
}

#[test]
fn program_mut_hands_out_the_stored_record() {
    let mut kernel = KernelMaps::new();
    let mut bpf = Bpf::load(one_prog_object("x", ProgramKind::Xdp), Ok(Vec::new()), &mut kernel)
        .unwrap();
    let p = bpf.program_mut("x").unwrap();
    match p {
        Program::Xdp(x) => {
            assert!(x.data.fd.is_none());
            x.data.fd = Some(9);
        }
        _ => panic!("the stored record must keep its kind"),
    }
    let p = bpf.program("x").unwrap();
    assert_eq!(p.as_xdp().unwrap().data.fd, Some(9));
}

#[test]
fn map_names_follow_the_view() {
    let mut kernel = KernelMaps::new();
    let mut bpf =
        Bpf::load(one_map_object("m", def(BPF_MAP_TYPE_HASH, 4, 8, 8)), Ok(Vec::new()), &mut kernel)
            .unwrap();
    let r = bpf.map("m").unwrap().unwrap();
    assert_eq!(r.name, "m");
    assert_eq!(r.fd, Some(0));
    assert_eq!(r.def.key_size, 4);
}

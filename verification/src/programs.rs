//! The program registry: each parsed program section is wrapped, according
//! to its fixed classification, into one variant of a closed set of
//! kind-tagged program records, looked up later by name and requested kind.

use vstd::prelude::*;
use crate::obj::{ObjProgram, ProgramKind};

verus! {

/// Errors of the program layer: a lookup requested a kind other than the
/// one the program was classified with at parse time.
#[derive(Debug)]
pub enum ProgramError {
    UnexpectedProgramType,
}

/// The probe flavor shared by the two probe representations: entry or
/// return probe, for kernel-function and user-space-function probes.
#[derive(Clone, Copy, PartialEq, Eq, Structural, Debug)]
pub enum ProbeKind {
    KProbe,
    KRetProbe,
    UProbe,
    URetProbe,
}

/// What every program record carries: the relocated section, its name, the
/// kernel handle once loaded, and the attachment links, empty until attach.
#[derive(Debug)]
pub struct ProgramData {
    pub obj: ObjProgram,
    pub name: String,
    pub fd: Option<u32>,
    pub links: Vec<u32>,
}

/// A kernel-function probe, entry or return flavor.
#[derive(Debug)]
pub struct KProbe {
    pub data: ProgramData,
    pub kind: ProbeKind,
}

/// A user-space-function probe, entry or return flavor.
#[derive(Debug)]
pub struct UProbe {
    pub data: ProgramData,
    pub kind: ProbeKind,
}

/// A tracepoint program.
#[derive(Debug)]
pub struct TracePoint {
    pub data: ProgramData,
}

/// A socket filter program.
#[derive(Debug)]
pub struct SocketFilter {
    pub data: ProgramData,
}

/// An XDP program.
#[derive(Debug)]
pub struct Xdp {
    pub data: ProgramData,
}

/// The closed set of kind-tagged program records.
#[derive(Debug)]
pub enum Program {
    KProbe(KProbe),
    UProbe(UProbe),
    TracePoint(TracePoint),
    SocketFilter(SocketFilter),
    Xdp(Xdp),
}

impl Program {
    /// The record shared by every variant.
    pub open spec fn data_spec(self) -> ProgramData {
        match self {
            Program::KProbe(p) => p.data,
            Program::UProbe(p) => p.data,
            Program::TracePoint(p) => p.data,
            Program::SocketFilter(p) => p.data,
            Program::Xdp(p) => p.data,
        }
    }

    /// The name the program is registered under.
    pub open spec fn name_spec(self) -> Seq<char> {
        self.data_spec().name@
    }

    /// The name the program is registered under.
    pub fn name(&self) -> (r: &String)
        ensures
            r@ == self.name_spec(),
    {
        match self {
            Program::KProbe(p) => &p.data.name,
            Program::UProbe(p) => &p.data.name,
            Program::TracePoint(p) => &p.data.name,
            Program::SocketFilter(p) => &p.data.name,
            Program::Xdp(p) => &p.data.name,
        }
    }

    /// Checked request for the kernel-probe representation: succeeds exactly
    /// when the program was classified as an entry or return kernel probe.
    pub fn as_kprobe(&self) -> (r: Result<&KProbe, ProgramError>)
        ensures
            r is Ok <==> self is KProbe,
            r matches Ok(p) ==> *self == Program::KProbe(*p),
            r is Err ==> r matches Err(ProgramError::UnexpectedProgramType),
    {
        match self {
            Program::KProbe(p) => Ok(p),
            _ => Err(ProgramError::UnexpectedProgramType),
        }
    }

    /// Checked request for the user-space-probe representation.
    pub fn as_uprobe(&self) -> (r: Result<&UProbe, ProgramError>)
        ensures
            r is Ok <==> self is UProbe,
            r matches Ok(p) ==> *self == Program::UProbe(*p),
            r is Err ==> r matches Err(ProgramError::UnexpectedProgramType),
    {
        match self {
            Program::UProbe(p) => Ok(p),
            _ => Err(ProgramError::UnexpectedProgramType),
        }
    }

    /// Checked request for the tracepoint representation.
    pub fn as_trace_point(&self) -> (r: Result<&TracePoint, ProgramError>)
        ensures
            r is Ok <==> self is TracePoint,
            r matches Ok(p) ==> *self == Program::TracePoint(*p),
            r is Err ==> r matches Err(ProgramError::UnexpectedProgramType),
    {
        match self {
            Program::TracePoint(p) => Ok(p),
            _ => Err(ProgramError::UnexpectedProgramType),
        }
    }

    /// Checked request for the socket-filter representation.
    pub fn as_socket_filter(&self) -> (r: Result<&SocketFilter, ProgramError>)
        ensures
            r is Ok <==> self is SocketFilter,
            r matches Ok(p) ==> *self == Program::SocketFilter(*p),
            r is Err ==> r matches Err(ProgramError::UnexpectedProgramType),
    {
        match self {
            Program::SocketFilter(p) => Ok(p),
            _ => Err(ProgramError::UnexpectedProgramType),
        }
    }

    /// Checked request for the XDP representation.
    pub fn as_xdp(&self) -> (r: Result<&Xdp, ProgramError>)
        ensures
            r is Ok <==> self is Xdp,
            r matches Ok(p) ==> *self == Program::Xdp(*p),
            r is Err ==> r matches Err(ProgramError::UnexpectedProgramType),
    {
        match self {
            Program::Xdp(p) => Ok(p),
            _ => Err(ProgramError::UnexpectedProgramType),
        }
    }
}

/// The variant and probe flavor a classification maps to.
pub open spec fn kind_wrapped(p: Program, kind: ProgramKind) -> bool {
    match kind {
        ProgramKind::KProbe => p matches Program::KProbe(k) && k.kind == ProbeKind::KProbe,
        ProgramKind::KRetProbe => p matches Program::KProbe(k) && k.kind == ProbeKind::KRetProbe,
        ProgramKind::UProbe => p matches Program::UProbe(u) && u.kind == ProbeKind::UProbe,
        ProgramKind::URetProbe => p matches Program::UProbe(u) && u.kind == ProbeKind::URetProbe,
        ProgramKind::TracePoint => p is TracePoint,
        ProgramKind::SocketFilter => p is SocketFilter,
        ProgramKind::Xdp => p is Xdp,
    }
}

/// A wrapped program record holds the given relocated section under its
/// name, with no kernel handle, no attachment links, no retained relocation
/// entries, and the variant its classification prescribes.
pub open spec fn program_wraps(p: Program, section: ObjProgram) -> bool {
    let d = p.data_spec();
    &&& d.name@ == section.name@
    &&& d.fd is None
    &&& d.links@.len() == 0
    &&& d.obj.name@ == section.name@
    &&& d.obj.kind == section.kind
    &&& d.obj.insns@ == section.insns@
    &&& d.obj.map_relocs@.len() == 0
    &&& d.obj.call_relocs@.len() == 0
    &&& kind_wrapped(p, section.kind)
}

/// Wrap a relocated program section into its kind-tagged record. The
/// section's relocation entries are consumed by resolution and are not
/// retained in the record.
pub fn wrap_program(section: ObjProgram) -> (p: Program)
    ensures
        program_wraps(p, section),
{
    let mut obj = section;
    obj.map_relocs = Vec::new();
    obj.call_relocs = Vec::new();
    let name = obj.name.clone();
    let kind = obj.kind;
    let data = ProgramData { obj, name, fd: None, links: Vec::new() };
    match kind {
        ProgramKind::KProbe => Program::KProbe(KProbe { data, kind: ProbeKind::KProbe }),
        ProgramKind::KRetProbe => Program::KProbe(KProbe { data, kind: ProbeKind::KRetProbe }),
        ProgramKind::UProbe => Program::UProbe(UProbe { data, kind: ProbeKind::UProbe }),
        ProgramKind::URetProbe => Program::UProbe(UProbe { data, kind: ProbeKind::URetProbe }),
        ProgramKind::TracePoint => Program::TracePoint(TracePoint { data }),
        ProgramKind::SocketFilter => Program::SocketFilter(SocketFilter { data }),
        ProgramKind::Xdp => Program::Xdp(Xdp { data }),
    }
}

} // verus!

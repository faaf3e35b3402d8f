use vstd::prelude::*;

verus! {

/// A duration in milliseconds.
pub type Milliseconds = u32;

/// A size in kilobytes.
pub type Kilobytes = u32;

/// A duration in whole seconds.
pub type WholeSeconds = u32;

/// Limits as a submission requests them: every field may be left out.
#[derive(Clone, Copy, Debug, PartialEq, Eq, Structural)]
pub struct Limits {
    pub wall_time: Option<Milliseconds>,
    pub cpu_time: Option<Milliseconds>,
    pub memory: Option<Kilobytes>,
    pub extra_time: Option<Milliseconds>,
    pub max_open_files: Option<u32>,
    pub max_file_size: Option<Kilobytes>,
    pub max_number_of_processes: Option<u32>,
}

/// Limits with every field set: what a sandbox run is given, and the shape
/// of an operator ceiling.
#[derive(Clone, Copy, Debug, PartialEq, Eq, Structural)]
pub struct MandatoryLimits {
    pub wall_time: Milliseconds,
    pub cpu_time: Milliseconds,
    pub memory: Kilobytes,
    pub extra_time: Milliseconds,
    pub max_open_files: u32,
    pub max_file_size: Kilobytes,
    pub max_number_of_processes: u32,
}

/// The operator ceilings for the compile and the run stage.
#[derive(Clone, Copy, Debug, PartialEq, Eq, Structural)]
pub struct SystemLimits {
    pub compile: MandatoryLimits,
    pub run: MandatoryLimits,
}

/// One field of a set of limits.
#[derive(Clone, Copy, Debug, PartialEq, Eq, Structural)]
pub enum LimitField {
    WallTime,
    CpuTime,
    Memory,
    ExtraTime,
    MaxOpenFiles,
    MaxFileSize,
    MaxNumberOfProcesses,
}

/// A requested limit went over its ceiling.
#[derive(Clone, Copy, Debug, PartialEq, Eq, Structural)]
pub struct InvalidLimit {
    pub field: LimitField,
    pub ceiling: u32,
}

/// Whether a requested value goes over its ceiling.
pub open spec fn exceeds(requested: Option<u32>, ceiling: u32) -> bool {
    match requested {
        Some(v) => v > ceiling,
        None => false,
    }
}

/// The requested value, or the ceiling when none was requested.
pub open spec fn or_ceiling(requested: Option<u32>, ceiling: u32) -> u32 {
    match requested {
        Some(v) => v,
        None => ceiling,
    }
}

/// The value of one field of a set of mandatory limits.
pub open spec fn field_of(l: MandatoryLimits, f: LimitField) -> u32 {
    match f {
        LimitField::WallTime => l.wall_time,
        LimitField::CpuTime => l.cpu_time,
        LimitField::Memory => l.memory,
        LimitField::ExtraTime => l.extra_time,
        LimitField::MaxOpenFiles => l.max_open_files,
        LimitField::MaxFileSize => l.max_file_size,
        LimitField::MaxNumberOfProcesses => l.max_number_of_processes,
    }
}

/// The value of one field of a request.
pub open spec fn requested_of(l: Limits, f: LimitField) -> Option<u32> {
    match f {
        LimitField::WallTime => l.wall_time,
        LimitField::CpuTime => l.cpu_time,
        LimitField::Memory => l.memory,
        LimitField::ExtraTime => l.extra_time,
        LimitField::MaxOpenFiles => l.max_open_files,
        LimitField::MaxFileSize => l.max_file_size,
        LimitField::MaxNumberOfProcesses => l.max_number_of_processes,
    }
}

/// The rejection for `f`, if the request goes over the ceiling there.
pub open spec fn check_field(req: Limits, ceiling: MandatoryLimits, f: LimitField) -> Option<
    InvalidLimit,
> {
    if exceeds(requested_of(req, f), field_of(ceiling, f)) {
        Some(InvalidLimit { field: f, ceiling: field_of(ceiling, f) })
    } else {
        None
    }
}

/// Negotiated limits: no request gives the ceiling; otherwise the first field,
/// in declaration order, that goes over its ceiling is rejected, and every
/// other field takes the requested value or, when absent, the ceiling.
pub open spec fn negotiate(request: Option<Limits>, ceiling: MandatoryLimits) -> Result<
    MandatoryLimits,
    InvalidLimit,
> {
    match request {
        None => Ok(ceiling),
        Some(req) => {
            if check_field(req, ceiling, LimitField::WallTime) is Some {
                Err(check_field(req, ceiling, LimitField::WallTime)->0)
            } else if check_field(req, ceiling, LimitField::CpuTime) is Some {
                Err(check_field(req, ceiling, LimitField::CpuTime)->0)
            } else if check_field(req, ceiling, LimitField::Memory) is Some {
                Err(check_field(req, ceiling, LimitField::Memory)->0)
            } else if check_field(req, ceiling, LimitField::ExtraTime) is Some {
                Err(check_field(req, ceiling, LimitField::ExtraTime)->0)
            } else if check_field(req, ceiling, LimitField::MaxOpenFiles) is Some {
                Err(check_field(req, ceiling, LimitField::MaxOpenFiles)->0)
            } else if check_field(req, ceiling, LimitField::MaxFileSize) is Some {
                Err(check_field(req, ceiling, LimitField::MaxFileSize)->0)
            } else if check_field(req, ceiling, LimitField::MaxNumberOfProcesses) is Some {
                Err(check_field(req, ceiling, LimitField::MaxNumberOfProcesses)->0)
            } else {
                Ok(
                    MandatoryLimits {
                        wall_time: or_ceiling(req.wall_time, ceiling.wall_time),
                        cpu_time: or_ceiling(req.cpu_time, ceiling.cpu_time),
                        memory: or_ceiling(req.memory, ceiling.memory),
                        extra_time: or_ceiling(req.extra_time, ceiling.extra_time),
                        max_open_files: or_ceiling(req.max_open_files, ceiling.max_open_files),
                        max_file_size: or_ceiling(req.max_file_size, ceiling.max_file_size),
                        max_number_of_processes: or_ceiling(
                            req.max_number_of_processes,
                            ceiling.max_number_of_processes,
                        ),
                    },
                )
            }
        },
    }
}

fn check_one(requested: Option<u32>, ceiling: u32, field: LimitField) -> (r: Result<u32, InvalidLimit>)
    ensures
        exceeds(requested, ceiling) ==> r == Err::<u32, InvalidLimit>(InvalidLimit { field, ceiling }),
        !exceeds(requested, ceiling) ==> r == Ok::<u32, InvalidLimit>(or_ceiling(requested, ceiling)),
{
    match requested {
        Some(v) => {
            if v > ceiling {
                Err(InvalidLimit { field, ceiling })
            } else {
                Ok(v)
            }
        },
        None => Ok(ceiling),
    }
}

/// Negotiation of requested limits against a ceiling.
pub trait GetLimits {
    spec fn spec_get(&self, system_limits: MandatoryLimits) -> Result<MandatoryLimits, InvalidLimit>;

    fn get(&self, system_limits: &MandatoryLimits) -> (r: Result<MandatoryLimits, InvalidLimit>)
        ensures
            r == self.spec_get(*system_limits),
    ;
}

impl GetLimits for Option<Limits> {
    open spec fn spec_get(&self, system_limits: MandatoryLimits) -> Result<MandatoryLimits, InvalidLimit> {
        negotiate(*self, system_limits)
    }

    fn get(&self, system_limits: &MandatoryLimits) -> (r: Result<MandatoryLimits, InvalidLimit>) {
        match self {
            None => Ok(*system_limits),
            Some(req) => {
                let c = system_limits;
                let wall_time = match check_one(req.wall_time, c.wall_time, LimitField::WallTime) {
                    Ok(v) => v,
                    Err(e) => return Err(e),
                };
                let cpu_time = match check_one(req.cpu_time, c.cpu_time, LimitField::CpuTime) {
                    Ok(v) => v,
                    Err(e) => return Err(e),
                };
                let memory = match check_one(req.memory, c.memory, LimitField::Memory) {
                    Ok(v) => v,
                    Err(e) => return Err(e),
                };
                let extra_time = match check_one(req.extra_time, c.extra_time, LimitField::ExtraTime) {
                    Ok(v) => v,
                    Err(e) => return Err(e),
                };
                let max_open_files = match check_one(
                    req.max_open_files,
                    c.max_open_files,
                    LimitField::MaxOpenFiles,
                ) {
                    Ok(v) => v,
                    Err(e) => return Err(e),
                };
                let max_file_size = match check_one(
                    req.max_file_size,
                    c.max_file_size,
                    LimitField::MaxFileSize,
                ) {
                    Ok(v) => v,
                    Err(e) => return Err(e),
                };
                let max_number_of_processes = match check_one(
                    req.max_number_of_processes,
                    c.max_number_of_processes,
                    LimitField::MaxNumberOfProcesses,
                ) {
                    Ok(v) => v,
                    Err(e) => return Err(e),
                };
                Ok(
                    MandatoryLimits {
                        wall_time,
                        cpu_time,
                        memory,
                        extra_time,
                        max_open_files,
                        max_file_size,
                        max_number_of_processes,
                    },
                )
            },
        }
    }
}

/// Negotiation never loosens a ceiling and never alters a requested value:
/// when it succeeds, every negotiated field is at most its ceiling and equals
/// the requested value wherever one was given (the ceiling otherwise); it
/// fails exactly when some requested field goes over its ceiling, and then
/// names that field and its ceiling.
pub proof fn lemma_negotiation_preserves_limits(request: Option<Limits>, ceiling: MandatoryLimits)
    ensures
        negotiate(request, ceiling) is Ok <==> (request is None || forall|f: LimitField|
            !exceeds(#[trigger] requested_of(request->0, f), field_of(ceiling, f))),
        negotiate(request, ceiling) is Ok ==> forall|f: LimitField|
            #![trigger field_of(negotiate(request, ceiling)->Ok_0, f)]
            field_of(negotiate(request, ceiling)->Ok_0, f) <= field_of(ceiling, f)
                && field_of(negotiate(request, ceiling)->Ok_0, f) == or_ceiling(
                match request {
                    Some(r) => requested_of(r, f),
                    None => None,
                },
                field_of(ceiling, f),
            ),
        negotiate(request, ceiling) is Err ==> {
            let e = negotiate(request, ceiling)->Err_0;
            &&& request is Some
            &&& exceeds(requested_of(request->0, e.field), field_of(ceiling, e.field))
            &&& e.ceiling == field_of(ceiling, e.field)
        },
{
    if let Some(r) = request {
        if negotiate(request, ceiling) is Ok {
            assert forall|f: LimitField| !exceeds(#[trigger] requested_of(r, f), field_of(ceiling, f)) by {
                match f {
                    LimitField::WallTime => {},
                    LimitField::CpuTime => {},
                    LimitField::Memory => {},
                    LimitField::ExtraTime => {},
                    LimitField::MaxOpenFiles => {},
                    LimitField::MaxFileSize => {},
                    LimitField::MaxNumberOfProcesses => {},
                }
            }
        }
    }
}

} // verus!

//! Results of a kernel tracing session, as the tracing consumer hands them out.
use vstd::prelude::*;

verus! {

#[derive(Clone, Debug)]
pub enum Error {
    /// Failed to initialize a tracing handle.
    InitializationError(String),
    /// Failed to compile a tracing program.
    ProgramCompilationError(String),
    /// An invalid option or value was requested.
    InvalidOption(String),
    /// Failed to carry out a tracing operation.
    OperationError(String),
}

#[derive(Clone, Copy, Debug, PartialEq, Eq, Structural)]
pub enum ProgramStatus {
    /// The program is still running.
    Ongoing,
    /// The program has completed.
    Done,
}

/// One firing of a probe.
#[derive(Clone, Debug)]
pub struct ProbeData {
    /// The CPU the probe fired on.
    pub cpu_id: i32,
    pub provider_name: String,
    pub module_name: String,
    pub function_name: String,
    pub name: String,
}

impl ProbeData {
    pub fn new(
        cpu_id: i32,
        provider_name: String,
        module_name: String,
        function_name: String,
        name: String,
    ) -> (r: ProbeData)
        ensures
            r.cpu_id == cpu_id,
            r.provider_name@ == provider_name@,
            r.module_name@ == module_name@,
            r.function_name@ == function_name@,
            r.name@ == name@,
    {
        ProbeData { cpu_id, provider_name, module_name, function_name, name }
    }
}

/// What one round of waiting and consuming yields.
#[derive(Clone, Debug)]
pub struct WaitAndConsumeResult {
    pub status: ProgramStatus,
    pub probes: Vec<ProbeData>,
}

/// Work status the tracing library reports while the program runs.
pub const WORKSTATUS_OKAY: i32 = 0;

/// Work status the tracing library reports once the program has completed.
pub const WORKSTATUS_DONE: i32 = 1;

/// The outcome of a consuming round that ended with work status `status`,
/// having collected `probes`; `error_message` is the library's account of
/// its last error, used where the status is neither of the two known ones.
pub fn consume_result(status: i32, probes: Vec<ProbeData>, error_message: String) -> (r: Result<WaitAndConsumeResult, Error>)
    ensures
        status == WORKSTATUS_OKAY ==> (r matches Ok(res) && res.status == ProgramStatus::Ongoing && res.probes@ == probes@),
        status == WORKSTATUS_DONE ==> (r matches Ok(res) && res.status == ProgramStatus::Done && res.probes@ == probes@),
        status != WORKSTATUS_OKAY && status != WORKSTATUS_DONE ==> (r matches Err(Error::OperationError(m)) && m@ == error_message@),
{
    if status == WORKSTATUS_OKAY {
        Ok(WaitAndConsumeResult { status: ProgramStatus::Ongoing, probes })
    } else if status == WORKSTATUS_DONE {
        Ok(WaitAndConsumeResult { status: ProgramStatus::Done, probes })
    } else {
        Err(Error::OperationError(error_message))
    }
}

} // verus!

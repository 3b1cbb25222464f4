//! Shader build outcomes: compiling a vertex and a fragment stage, linking
//! them into a program, and turning the driver's status queries and info
//! logs into a single tagged result. The policy is fail-fast: the first
//! stage whose status query reports failure decides the outcome, and its
//! info log is carried in the error.

use vstd::prelude::*;

verus! {

/// The two shader stages the bootstrap compiles.
#[derive(Clone, Copy, PartialEq, Eq, Structural, Debug)]
pub enum StageKind {
    /// The vertex shader stage.
    Vertex,
    /// The fragment shader stage.
    Fragment,
}

/// What the driver reports after a compile or link step: the boolean
/// status flag and the info log retrieved for the object. The driver
/// leaves the log non-empty whenever the status reports failure.
pub struct StageReport {
    /// The status flag: true when the compile or link succeeded.
    pub succeeded: bool,
    /// The info log retrieved for the shader or program object.
    pub log: String,
}

/// Why a shader build failed, carrying the driver's diagnostic text.
pub enum BuildError {
    /// One stage's compile-status query reported failure.
    CompileFailed {
        /// The stage whose compilation failed.
        stage: StageKind,
        /// The info log of the failed shader object.
        log: String,
    },
    /// The program's link-status query reported failure.
    LinkFailed {
        /// The info log of the failed program object.
        log: String,
    },
}

/// Judge one stage's compile report: success exactly when the status
/// flag reports success, and a failure carries the stage and its log
/// unchanged.
pub fn check_compile(stage: StageKind, report: StageReport) -> (r: Result<(), BuildError>)
    ensures
        r is Ok <==> report.succeeded,
        !report.succeeded ==> (r matches Err(BuildError::CompileFailed { stage: s, log })
            && s == stage && log@ == report.log@),
{
    if report.succeeded {
        Ok(())
    } else {
        Err(BuildError::CompileFailed { stage, log: report.log })
    }
}

/// Judge the program's link report: success exactly when the status flag
/// reports success, and a failure carries the program's log unchanged.
pub fn check_link(report: StageReport) -> (r: Result<(), BuildError>)
    ensures
        r is Ok <==> report.succeeded,
        !report.succeeded ==> (r matches Err(BuildError::LinkFailed { log })
            && log@ == report.log@),
{
    if report.succeeded {
        Ok(())
    } else {
        Err(BuildError::LinkFailed { log: report.log })
    }
}

/// The whole shader build judged at once: given the driver's reports for
/// the vertex compile, the fragment compile and the link, and the handle
/// of the linked program, return that program exactly when all three
/// reports succeeded, else the first failure with its log. In
/// particular, two stages that compiled successfully yield a program
/// exactly when its link-status query reported success.
pub fn evaluate_build(
    program: u32,
    vertex: StageReport,
    fragment: StageReport,
    link: StageReport,
) -> (r: Result<u32, BuildError>)
    ensures
        r is Ok <==> (vertex.succeeded && fragment.succeeded && link.succeeded),
        r matches Ok(p) ==> p == program,
        !vertex.succeeded ==> (r matches Err(BuildError::CompileFailed { stage, log })
            && stage is Vertex && log@ == vertex.log@),
        vertex.succeeded && !fragment.succeeded ==> (r matches Err(
            BuildError::CompileFailed { stage, log },
        ) && stage is Fragment && log@ == fragment.log@),
        vertex.succeeded && fragment.succeeded && !link.succeeded ==> (r matches Err(
            BuildError::LinkFailed { log },
        ) && log@ == link.log@),
{
    match check_compile(StageKind::Vertex, vertex) {
        Ok(_) => {}
        Err(e) => {
            return Err(e);
        }
    }
    match check_compile(StageKind::Fragment, fragment) {
        Ok(_) => {}
        Err(e) => {
            return Err(e);
        }
    }
    match check_link(link) {
        Ok(_) => {}
        Err(e) => {
            return Err(e);
        }
    }
    Ok(program)
}

} // verus!

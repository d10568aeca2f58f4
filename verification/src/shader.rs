//! The linked shader program, and the setup decisions around compiling it.
//!
//! The GLSL compiler and linker live in the host's GPU driver.  The host
//! runs them and reports, for each stage and for the link, whether it
//! succeeded and what its info log said; those reports are plain values, and
//! every decision taken on them — which failure aborts setup, which message
//! it carries, when a program object exists at all — is made and proved
//! here.  A `Shader` value exists only for a program whose stages compiled
//! and whose link succeeded: there is no half-initialized program.

use vstd::prelude::*;
use vstd::string::StringExecFns;

verus! {

/// A shader stage whose compilation can fail on its own.
#[derive(Clone, Copy, Debug, PartialEq, Eq, Structural)]
pub enum ShaderStage {
    Vertex,
    Fragment,
}

/// Why initialization had to stop.  All of these stem from static
/// misconfiguration and are fatal: no degraded object is ever returned.
#[derive(Debug, PartialEq, Eq)]
pub enum SetupError {
    /// One stage's compilation failed; `message` is the compiler's own
    /// diagnostic for that stage.
    ShaderCompileFailed { stage: ShaderStage, message: String },
    /// Both stages compiled but linking them failed; `message` is the
    /// linker's diagnostic.
    ProgramLinkFailed { message: String },
    /// A uniform or attribute name does not exist in the linked program: a
    /// mismatch between the shader source and the code referencing it.
    ShaderInputMissing { name: String },
}

/// What the host's GPU driver reported for one compile or link step: the
/// status bit it exposes, and its info log.
#[derive(Debug, PartialEq, Eq)]
pub struct CompileReport {
    pub success: bool,
    pub info_log: String,
}

/// A linked program, by the handle under which the host registered it.
#[derive(Clone, Copy, Debug, PartialEq, Eq, Structural)]
pub struct Shader {
    pub program: u64,
}

impl Shader {
    /// Judges the host's compile and link reports for a program.  Exactly
    /// when all three succeeded, the program exists as a `Shader`.  Failures
    /// are judged in pipeline order — vertex stage, fragment stage, link —
    /// and the first one aborts setup, carrying that step's diagnostic.
    pub fn new(
        program: u64,
        vertex_report: CompileReport,
        fragment_report: CompileReport,
        link_report: CompileReport,
    ) -> (result: Result<Shader, SetupError>)
        ensures
            result is Ok <==> (vertex_report.success && fragment_report.success
                && link_report.success),
            result matches Ok(shader) ==> shader.program == program,
            !vertex_report.success ==> (result matches Err(e)
                && e matches SetupError::ShaderCompileFailed { stage, message }
                && stage == ShaderStage::Vertex
                && message@ == vertex_report.info_log@),
            vertex_report.success && !fragment_report.success ==> (result matches Err(e)
                && e matches SetupError::ShaderCompileFailed { stage, message }
                && stage == ShaderStage::Fragment
                && message@ == fragment_report.info_log@),
            vertex_report.success && fragment_report.success && !link_report.success
                ==> (result matches Err(e)
                && e matches SetupError::ProgramLinkFailed { message }
                && message@ == link_report.info_log@),
    {
        if !vertex_report.success {
            return Err(SetupError::ShaderCompileFailed {
                stage: ShaderStage::Vertex,
                message: vertex_report.info_log,
            });
        }
        if !fragment_report.success {
            return Err(SetupError::ShaderCompileFailed {
                stage: ShaderStage::Fragment,
                message: fragment_report.info_log,
            });
        }
        if !link_report.success {
            return Err(SetupError::ProgramLinkFailed { message: link_report.info_log });
        }
        Ok(Shader { program })
    }

    /// The handle of the linked program.
    pub fn program(&self) -> (handle: u64)
        ensures
            handle == self.program,
    {
        self.program
    }

    /// Judges the host's lookup of a named uniform in the linked program.
    /// The host hands in the location it found, if any; a missing name is a
    /// setup-time contract violation, never a per-frame recoverable error.
    pub fn uniform_location(&self, name: &str, lookup: Option<u32>) -> (result: Result<
        u32,
        SetupError,
    >)
        ensures
            lookup matches Some(location) ==> result == Ok::<u32, SetupError>(location),
            lookup is None ==> (result matches Err(e)
                && e matches SetupError::ShaderInputMissing { name: missing }
                && missing@ == name@),
    {
        match lookup {
            Some(location) => Ok(location),
            None => Err(SetupError::ShaderInputMissing { name: String::from_str(name) }),
        }
    }

    /// Judges the host's lookup of a named attribute.  The host's context
    /// reports an attribute index, with a negative index meaning the name
    /// does not exist in the linked program.
    pub fn attribute_location(&self, name: &str, lookup: i32) -> (result: Result<
        u32,
        SetupError,
    >)
        ensures
            lookup >= 0 ==> result == Ok::<u32, SetupError>(lookup as u32),
            lookup < 0 ==> (result matches Err(e)
                && e matches SetupError::ShaderInputMissing { name: missing }
                && missing@ == name@),
    {
        if lookup >= 0 {
            Ok(lookup as u32)
        } else {
            Err(SetupError::ShaderInputMissing { name: String::from_str(name) })
        }
    }
}

} // verus!

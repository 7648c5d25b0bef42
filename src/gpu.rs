use vstd::prelude::*;

verus! {

/// The four ways in which setting up the scene's GPU resources can fail.
#[derive(Clone, Copy, PartialEq, Eq, Structural, Debug)]
pub enum ErrorKind {
    ShaderCompile,
    ProgramLink,
    ResourceAllocation,
    TextureUpload,
}

/// A setup failure, with the diagnostic that the driver or the library gave.
#[derive(Debug)]
pub struct GpuError {
    pub kind: ErrorKind,
    pub message: String,
}

/// GPU objects that the scene creates.
#[derive(Clone, Copy, PartialEq, Eq, Structural, Debug)]
pub enum Resource {
    Shader,
    Program,
    VertexBuffer,
    IndexBuffer,
    Texture,
}

/// The kind of error reported when the host hands back no object of this sort.
pub open spec fn allocation_kind(what: Resource) -> ErrorKind {
    match what {
        Resource::Shader => ErrorKind::ShaderCompile,
        Resource::Program => ErrorKind::ProgramLink,
        Resource::Texture => ErrorKind::TextureUpload,
        _ => ErrorKind::ResourceAllocation,
    }
}

/// The message reported when the host hands back no object of this sort.
pub open spec fn allocation_message(what: Resource) -> Seq<char> {
    match what {
        Resource::Shader => "Unable to create shader"@,
        Resource::Program => "Unable to create program"@,
        Resource::VertexBuffer => "Failed to create buffer"@,
        Resource::IndexBuffer => "Failed to create index buffer"@,
        Resource::Texture => "Failed to create texture"@,
    }
}

/// Passes on an object that the host created, or reports that it refused.
pub fn allocated<T>(handle: Option<T>, what: Resource) -> (r: Result<T, GpuError>)
    ensures
        handle is Some <==> r is Ok,
        handle is Some ==> r == Ok::<T, GpuError>(handle->0),
        r is Err ==> r->Err_0.kind == allocation_kind(what) && r->Err_0.message@
            == allocation_message(what),
{
    match handle {
        Some(h) => Ok(h),
        None => {
            let message = match what {
                Resource::Shader => String::from_str("Unable to create shader"),
                Resource::Program => String::from_str("Unable to create program"),
                Resource::VertexBuffer => String::from_str("Failed to create buffer"),
                Resource::IndexBuffer => String::from_str("Failed to create index buffer"),
                Resource::Texture => String::from_str("Failed to create texture"),
            };
            let kind = match what {
                Resource::Shader => ErrorKind::ShaderCompile,
                Resource::Program => ErrorKind::ProgramLink,
                Resource::Texture => ErrorKind::TextureUpload,
                _ => ErrorKind::ResourceAllocation,
            };
            Err(GpuError { kind, message })
        },
    }
}

/// What a status report that is not a plain `true` means: failure, with the
/// driver's log or, where it gave none, a fixed message.
fn failure(kind: ErrorKind, log: Option<String>, fallback: &str) -> (e: GpuError)
    ensures
        e.kind == kind,
        e.message@ == match log {
            Some(l) => l@,
            None => fallback@,
        },
{
    match log {
        Some(l) => GpuError { kind, message: l },
        None => GpuError { kind, message: String::from_str(fallback) },
    }
}

/// Reads the driver's report on a shader compilation: success only where its
/// status is `true`; else a compile error carrying the info log.
pub fn shader_status(compiled: Option<bool>, log: Option<String>) -> (r: Result<(), GpuError>)
    ensures
        r is Ok <==> compiled == Some(true),
        r is Err ==> r->Err_0.kind == ErrorKind::ShaderCompile && r->Err_0.message@ == match log {
            Some(l) => l@,
            None => "Unknown shader error"@,
        },
{
    match compiled {
        Some(true) => Ok(()),
        _ => Err(failure(ErrorKind::ShaderCompile, log, "Unknown shader error")),
    }
}

/// Reads the driver's report on a program link: success only where its
/// status is `true`; else a link error carrying the info log.
pub fn link_status(linked: Option<bool>, log: Option<String>) -> (r: Result<(), GpuError>)
    ensures
        r is Ok <==> linked == Some(true),
        r is Err ==> r->Err_0.kind == ErrorKind::ProgramLink && r->Err_0.message@ == match log {
            Some(l) => l@,
            None => "Unknown program error"@,
        },
{
    match linked {
        Some(true) => Ok(()),
        _ => Err(failure(ErrorKind::ProgramLink, log, "Unknown program error")),
    }
}

/// Reads the host's answer to a glyph-image upload.
pub fn upload_status(accepted: bool) -> (r: Result<(), GpuError>)
    ensures
        r is Ok <==> accepted,
        r is Err ==> r->Err_0.kind == ErrorKind::TextureUpload && r->Err_0.message@
            == "Failed to upload texture"@,
{
    if accepted {
        Ok(())
    } else {
        Err(GpuError { kind: ErrorKind::TextureUpload, message: String::from_str("Failed to upload texture") })
    }
}

} // verus!

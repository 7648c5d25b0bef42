use text_sphere::gpu::{allocated, link_status, shader_status, upload_status, ErrorKind, Resource};

#[test]
fn shader_compiled() {
    assert!(shader_status(Some(true), None).is_ok());
}

#[test]
fn shader_failure_carries_log() {
    let e = shader_status(Some(false), Some("0:3: syntax error".to_string())).unwrap_err();
    assert_eq!(e.kind, ErrorKind::ShaderCompile);
    assert_eq!(e.message, "0:3: syntax error");
    let e = shader_status(None, None).unwrap_err();
    assert_eq!(e.kind, ErrorKind::ShaderCompile);
    assert_eq!(e.message, "Unknown shader error");
}

#[test]
fn link_failure_carries_log() {
    assert!(link_status(Some(true), Some("ignored".to_string())).is_ok());
    let e = link_status(Some(false), None).unwrap_err();
    assert_eq!(e.kind, ErrorKind::ProgramLink);
    assert_eq!(e.message, "Unknown program error");
}

#[test]
fn allocation_refused() {
    assert_eq!(allocated(Some(7u32), Resource::VertexBuffer).unwrap(), 7);
    let e = allocated(None::<u32>, Resource::IndexBuffer).unwrap_err();
    assert_eq!(e.kind, ErrorKind::ResourceAllocation);
    assert_eq!(e.message, "Failed to create index buffer");
    let e = allocated(None::<u32>, Resource::Texture).unwrap_err();
    assert_eq!(e.kind, ErrorKind::TextureUpload);
    let e = allocated(None::<u32>, Resource::Shader).unwrap_err();
    assert_eq!(e.kind, ErrorKind::ShaderCompile);
    let e = allocated(None::<u32>, Resource::Program).unwrap_err();
    assert_eq!(e.kind, ErrorKind::ProgramLink);
}

#[test]
fn upload_refused() {
    assert!(upload_status(true).is_ok());
    let e = upload_status(false).unwrap_err();
    assert_eq!(e.kind, ErrorKind::TextureUpload);
    assert_eq!(e.message, "Failed to upload texture");
}

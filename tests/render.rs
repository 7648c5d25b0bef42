use text_sphere::render::{frame_commands, Buffer, DrawCommand, Matrix, Program, Uniform};

#[test]
fn frame_with_no_letters() {
    let f = frame_commands(36, 0);
    assert_eq!(f.len(), 19);
    assert_eq!(f[0], DrawCommand::Clear);
    assert_eq!(f[1], DrawCommand::UseProgram(Program::Sphere));
    assert_eq!(f[11], DrawCommand::DrawTriangles(36));
    assert_eq!(f[12], DrawCommand::UseProgram(Program::Text));
    assert_eq!(f[18], DrawCommand::BindIndices(Buffer::QuadIndices));
}

#[test]
fn frame_draws_each_letter_in_order() {
    let f = frame_commands(12288, 18);
    assert_eq!(f.len(), 19 + 3 * 18);
    for i in 0..18 {
        let at = 19 + 3 * i;
        assert_eq!(f[at], DrawCommand::SetMatrix(Uniform::Model, Matrix::Billboard(i)));
        assert_eq!(f[at + 1], DrawCommand::BindLetterTexture(i));
        assert_eq!(f[at + 2], DrawCommand::DrawTriangles(6));
    }
}

#[test]
fn frame_commands_do_not_depend_on_time() {
    assert_eq!(frame_commands(12288, 18), frame_commands(12288, 18));
}

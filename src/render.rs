use vstd::prelude::*;

verus! {

/// The two shader programs of the scene.
#[derive(Clone, Copy, PartialEq, Eq, Structural, Debug)]
pub enum Program {
    Sphere,
    Text,
}

/// Uniform slots that the programs declare.
#[derive(Clone, Copy, PartialEq, Eq, Structural, Debug)]
pub enum Uniform {
    Model,
    View,
    Projection,
    LightPos,
    Color,
    ViewPos,
    Texture,
}

/// Matrices that a frame uploads; `Billboard(i)` faces letter `i` to the camera.
#[derive(Clone, Copy, PartialEq, Eq, Structural, Debug)]
pub enum Matrix {
    SphereSpin,
    View,
    Projection,
    Billboard(usize),
}

/// Vectors that a frame uploads.
#[derive(Clone, Copy, PartialEq, Eq, Structural, Debug)]
pub enum Vector {
    Light,
    BaseColor,
    Eye,
}

/// Vertex attributes of the programs.
#[derive(Clone, Copy, PartialEq, Eq, Structural, Debug)]
pub enum Attribute {
    Position,
    Normal,
    Uv,
}

/// The static GPU buffers that scene setup uploads.
#[derive(Clone, Copy, PartialEq, Eq, Structural, Debug)]
pub enum Buffer {
    SphereVertices,
    SphereNormals,
    SphereIndices,
    QuadVertices,
    QuadUvs,
    QuadIndices,
}

/// One step of the draw protocol.
#[derive(Clone, Copy, PartialEq, Eq, Structural, Debug)]
pub enum DrawCommand {
    /// Clear the color and depth buffers.
    Clear,
    UseProgram(Program),
    SetMatrix(Uniform, Matrix),
    SetVector(Uniform, Vector),
    /// Point a sampler uniform at a texture unit.
    SetSampler(Uniform, u32),
    /// Feed an attribute from a buffer, with this many floats per vertex.
    BindAttribute(Buffer, Attribute, u32),
    BindIndices(Buffer),
    /// Bind letter `i`'s glyph texture to unit 0.
    BindLetterTexture(usize),
    /// Draw this many indices as triangles.
    DrawTriangles(u32),
}

/// The sphere's pass: clear, then draw the lit sphere with `index_count` indices.
pub open spec fn sphere_pass(index_count: u32) -> Seq<DrawCommand> {
    seq![
        DrawCommand::Clear,
        DrawCommand::UseProgram(Program::Sphere),
        DrawCommand::SetMatrix(Uniform::Model, Matrix::SphereSpin),
        DrawCommand::SetMatrix(Uniform::View, Matrix::View),
        DrawCommand::SetMatrix(Uniform::Projection, Matrix::Projection),
        DrawCommand::SetVector(Uniform::LightPos, Vector::Light),
        DrawCommand::SetVector(Uniform::Color, Vector::BaseColor),
        DrawCommand::SetVector(Uniform::ViewPos, Vector::Eye),
        DrawCommand::BindAttribute(Buffer::SphereVertices, Attribute::Position, 3),
        DrawCommand::BindAttribute(Buffer::SphereNormals, Attribute::Normal, 3),
        DrawCommand::BindIndices(Buffer::SphereIndices),
        DrawCommand::DrawTriangles(index_count),
    ]
}

/// Binds the text program and the shared quad once for all letters.
pub open spec fn text_setup() -> Seq<DrawCommand> {
    seq![
        DrawCommand::UseProgram(Program::Text),
        DrawCommand::SetMatrix(Uniform::View, Matrix::View),
        DrawCommand::SetMatrix(Uniform::Projection, Matrix::Projection),
        DrawCommand::SetSampler(Uniform::Texture, 0),
        DrawCommand::BindAttribute(Buffer::QuadVertices, Attribute::Position, 3),
        DrawCommand::BindAttribute(Buffer::QuadUvs, Attribute::Uv, 2),
        DrawCommand::BindIndices(Buffer::QuadIndices),
    ]
}

/// Draws letter `i` as a billboard of the shared quad.
pub open spec fn letter_pass(i: usize) -> Seq<DrawCommand> {
    seq![
        DrawCommand::SetMatrix(Uniform::Model, Matrix::Billboard(i)),
        DrawCommand::BindLetterTexture(i),
        DrawCommand::DrawTriangles(6),
    ]
}

/// The passes of letters `0 .. n`, in order.
pub open spec fn letters_pass(n: nat) -> Seq<DrawCommand>
    decreases n,
{
    if n == 0 {
        Seq::empty()
    } else {
        letters_pass((n - 1) as nat) + letter_pass((n - 1) as usize)
    }
}

/// A whole frame: the sphere, then every letter in entity order.
pub open spec fn frame(index_count: u32, letter_count: nat) -> Seq<DrawCommand> {
    sphere_pass(index_count) + text_setup() + letters_pass(letter_count)
}

proof fn lemma_letters_pass_len(n: nat)
    ensures
        letters_pass(n).len() == 3 * n,
    decreases n,
{
    if n > 0 {
        lemma_letters_pass_len((n - 1) as nat);
    }
}

/// Letter `i`'s three commands stand at `3·i` in the letters' passes.
proof fn lemma_letters_pass_at(n: nat, i: nat)
    requires
        i < n,
        n <= usize::MAX,
    ensures
        letters_pass(n).subrange(3 * (i as int), 3 * (i as int) + 3) == letter_pass(i as usize),
    decreases n,
{
    lemma_letters_pass_len((n - 1) as nat);
    if i + 1 == n {
        assert(letters_pass(n).subrange(3 * (i as int), 3 * (i as int) + 3) =~= letter_pass(i as usize));
    } else {
        lemma_letters_pass_at((n - 1) as nat, i);
        assert(letters_pass(n).subrange(3 * (i as int), 3 * (i as int) + 3) =~= letters_pass((n - 1) as nat).subrange(
            3 * (i as int),
            3 * (i as int) + 3,
        ));
    }
}

/// A frame has the sphere's twelve commands, the text program's seven, and
/// three per letter; letter `i` is drawn by the three that start at `19 + 3·i`,
/// so every letter is drawn once, in entity order, after the sphere.
pub proof fn lemma_frame_layout(index_count: u32, letter_count: nat, i: nat)
    requires
        i < letter_count,
        letter_count <= usize::MAX,
    ensures
        frame(index_count, letter_count).len() == 19 + 3 * letter_count,
        frame(index_count, letter_count).subrange(0, 12) == sphere_pass(index_count),
        frame(index_count, letter_count).subrange(19 + 3 * (i as int), 22 + 3 * (i as int))
            == letter_pass(i as usize),
{
    let f = frame(index_count, letter_count);
    lemma_letters_pass_len(letter_count);
    lemma_letters_pass_at(letter_count, i);
    assert(f.subrange(0, 12) =~= sphere_pass(index_count));
    assert(f.subrange(19 + 3 * (i as int), 22 + 3 * (i as int)) =~= letters_pass(
        letter_count,
    ).subrange(3 * (i as int), 3 * (i as int) + 3));
}

/// The commands of one frame. They depend on the mesh and the number of
/// letters only: the time of the frame enters through the matrices alone.
pub fn frame_commands(sphere_index_count: u32, letter_count: usize) -> (r: Vec<DrawCommand>)
    ensures
        r@ == frame(sphere_index_count, letter_count as nat),
{
    let mut r: Vec<DrawCommand> = Vec::new();
    r.push(DrawCommand::Clear);
    r.push(DrawCommand::UseProgram(Program::Sphere));
    r.push(DrawCommand::SetMatrix(Uniform::Model, Matrix::SphereSpin));
    r.push(DrawCommand::SetMatrix(Uniform::View, Matrix::View));
    r.push(DrawCommand::SetMatrix(Uniform::Projection, Matrix::Projection));
    r.push(DrawCommand::SetVector(Uniform::LightPos, Vector::Light));
    r.push(DrawCommand::SetVector(Uniform::Color, Vector::BaseColor));
    r.push(DrawCommand::SetVector(Uniform::ViewPos, Vector::Eye));
    r.push(DrawCommand::BindAttribute(Buffer::SphereVertices, Attribute::Position, 3));
    r.push(DrawCommand::BindAttribute(Buffer::SphereNormals, Attribute::Normal, 3));
    r.push(DrawCommand::BindIndices(Buffer::SphereIndices));
    r.push(DrawCommand::DrawTriangles(sphere_index_count));
    r.push(DrawCommand::UseProgram(Program::Text));
    r.push(DrawCommand::SetMatrix(Uniform::View, Matrix::View));
    r.push(DrawCommand::SetMatrix(Uniform::Projection, Matrix::Projection));
    r.push(DrawCommand::SetSampler(Uniform::Texture, 0));
    r.push(DrawCommand::BindAttribute(Buffer::QuadVertices, Attribute::Position, 3));
    r.push(DrawCommand::BindAttribute(Buffer::QuadUvs, Attribute::Uv, 2));
    r.push(DrawCommand::BindIndices(Buffer::QuadIndices));
    let ghost head = sphere_pass(sphere_index_count) + text_setup();
    assert(r@ =~= head + letters_pass(0));
    let mut i: usize = 0;
    while i < letter_count
        invariant
            i <= letter_count,
            head == sphere_pass(sphere_index_count) + text_setup(),
            r@ == head + letters_pass(i as nat),
        decreases letter_count - i,
    {
        r.push(DrawCommand::SetMatrix(Uniform::Model, Matrix::Billboard(i)));
        r.push(DrawCommand::BindLetterTexture(i));
        r.push(DrawCommand::DrawTriangles(6));
        assert(r@ =~= head + letters_pass((i + 1) as nat));
        i = i + 1;
    }
    r
}

} // verus!

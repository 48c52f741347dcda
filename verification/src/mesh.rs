use vstd::prelude::*;

verus! {

/// A vertex of the 3D mesh: a position and a colour.
///
/// Each coordinate and each colour channel is held in tenths, so that `5`
/// stands for `0.5` and `10` for full intensity. On the GPU each of the six
/// numbers is a 32-bit float.
#[derive(Clone, Copy, Debug, PartialEq, Eq)]
pub struct Vertex3d {
    pub position: (i32, i32, i32),
    pub color: (i32, i32, i32),
}

/// How the GPU reads one attribute of a vertex.
#[derive(Clone, Copy, Debug, PartialEq, Eq, Structural)]
pub enum VertexFormat {
    /// Three 32-bit floats.
    Float32x3,
}

/// Whether a vertex buffer advances per vertex or per instance.
#[derive(Clone, Copy, Debug, PartialEq, Eq, Structural)]
pub enum VertexStepMode {
    Vertex,
    Instance,
}

/// One attribute of a vertex: where it starts, which shader input it feeds
/// and in which format it is read.
#[derive(Clone, Copy, Debug, PartialEq, Eq, Structural)]
pub struct VertexAttribute {
    pub offset: u64,
    pub shader_location: u32,
    pub format: VertexFormat,
}

/// Layout of a vertex buffer.
#[derive(Clone, Debug)]
pub struct VertexBufferLayout {
    pub array_stride: u64,
    pub step_mode: VertexStepMode,
    pub attributes: Vec<VertexAttribute>,
}

/// Bytes that one 32-bit float takes.
pub const FLOAT_BYTES: u64 = 4;

/// Bytes that one 16-bit index takes.
pub const INDEX_BYTES: u64 = 2;

/// Number of vertices of the cube.
pub const CUBE_VERTEX_COUNT: u32 = 8;

/// Number of faces of the cube.
pub const CUBE_FACE_COUNT: u32 = 6;

/// Number of indices that describe the cube.
pub const CUBE_INDEX_COUNT: u32 = 36;

/// Number of vertices that the 2D client draws.
pub const TRIANGLE_VERTEX_COUNT: u32 = 3;

impl VertexFormat {
    /// Bytes that an attribute of this format takes.
    pub open spec fn byte_len(self) -> int {
        match self {
            VertexFormat::Float32x3 => 12,
        }
    }

    /// Bytes that an attribute of this format takes.
    pub fn size(&self) -> (r: u64)
        ensures
            r == self.byte_len(),
    {
        match self {
            VertexFormat::Float32x3 => 3 * FLOAT_BYTES,
        }
    }
}

impl VertexAttribute {
    /// First byte behind the attribute.
    pub open spec fn end(self) -> int {
        self.offset + self.format.byte_len()
    }
}

/// A layout is sound where every attribute lies within the stride, each has
/// a shader location of its own, and no two of them share a byte.
pub open spec fn layout_is_sound(stride: int, attributes: Seq<VertexAttribute>) -> bool {
    &&& forall|i: int| 0 <= i < attributes.len() ==> (#[trigger] attributes[i]).end() <= stride
    &&& forall|i: int, j: int|
        0 <= i < j < attributes.len() ==> {
            &&& (#[trigger] attributes[i]).shader_location != (#[trigger] attributes[j]).shader_location
            &&& (attributes[i].end() <= attributes[j].offset || attributes[j].end()
                <= attributes[i].offset)
        }
}

/// The two attributes of a `Vertex3d`: the position at byte 0 for shader
/// input 0, the colour at byte 12 for shader input 1.
pub open spec fn vertex3d_attributes() -> Seq<VertexAttribute> {
    seq![
        VertexAttribute { offset: 0, shader_location: 0, format: VertexFormat::Float32x3 },
        VertexAttribute { offset: 12, shader_location: 1, format: VertexFormat::Float32x3 },
    ]
}

impl Vertex3d {
    /// Bytes that one vertex takes in a vertex buffer.
    pub open spec fn stride() -> int {
        24
    }

    /// How a buffer of such vertices is read: 24 bytes per vertex, the
    /// position first and the colour behind it.
    pub fn layout() -> (r: VertexBufferLayout)
        ensures
            r.array_stride == Vertex3d::stride(),
            r.step_mode == VertexStepMode::Vertex,
            r.attributes@ == vertex3d_attributes(),
            layout_is_sound(r.array_stride as int, r.attributes@),
    {
        let position = VertexAttribute {
            offset: 0,
            shader_location: 0,
            format: VertexFormat::Float32x3,
        };
        let color = VertexAttribute {
            offset: position.offset + position.format.size(),
            shader_location: 1,
            format: VertexFormat::Float32x3,
        };
        let array_stride: u64 = color.offset + color.format.size();
        let mut attributes: Vec<VertexAttribute> = Vec::new();
        attributes.push(position);
        attributes.push(color);
        assert(attributes@ =~= vertex3d_attributes());
        VertexBufferLayout { array_stride, step_mode: VertexStepMode::Vertex, attributes }
    }
}

/// The vertices of the unit cube, front face first: corner `i` of the mesh.
pub open spec fn cube_vertex(i: int) -> Vertex3d {
    if i == 0 {
        Vertex3d { position: (-5i32, -5i32, 5), color: (10, 0, 0) }
    } else if i == 1 {
        Vertex3d { position: (5, -5i32, 5), color: (0, 10, 0) }
    } else if i == 2 {
        Vertex3d { position: (5, 5, 5), color: (0, 0, 10) }
    } else if i == 3 {
        Vertex3d { position: (-5i32, 5, 5), color: (10, 10, 0) }
    } else if i == 4 {
        Vertex3d { position: (-5i32, -5i32, -5i32), color: (10, 0, 10) }
    } else if i == 5 {
        Vertex3d { position: (5, -5i32, -5i32), color: (0, 10, 10) }
    } else if i == 6 {
        Vertex3d { position: (5, 5, -5i32), color: (10, 10, 10) }
    } else {
        Vertex3d { position: (-5i32, 5, -5i32), color: (2, 2, 2) }
    }
}

/// The vertices of the cube as a sequence.
pub open spec fn cube_vertex_seq() -> Seq<Vertex3d> {
    Seq::new(8, |i: int| cube_vertex(i))
}

/// Corner `corner` (0 to 3, counter-clockwise seen from outside) of face
/// `face` of the cube: front, right, back, left, top, bottom.
pub open spec fn quad_corner(face: int, corner: int) -> u16 {
    if face == 0 {
        if corner == 0 { 0 } else if corner == 1 { 1 } else if corner == 2 { 2 } else { 3 }
    } else if face == 1 {
        if corner == 0 { 1 } else if corner == 1 { 5 } else if corner == 2 { 6 } else { 2 }
    } else if face == 2 {
        if corner == 0 { 5 } else if corner == 1 { 4 } else if corner == 2 { 7 } else { 6 }
    } else if face == 3 {
        if corner == 0 { 4 } else if corner == 1 { 0 } else if corner == 2 { 3 } else { 7 }
    } else if face == 4 {
        if corner == 0 { 3 } else if corner == 1 { 2 } else if corner == 2 { 6 } else { 7 }
    } else {
        if corner == 0 { 4 } else if corner == 1 { 5 } else if corner == 2 { 1 } else { 0 }
    }
}

/// The corner of its face that index `k` (0 to 5) of the face's two
/// triangles names: the triangles are corners 0, 1, 2 and corners 0, 2, 3.
pub open spec fn triangle_corner(k: int) -> int {
    if k == 0 || k == 3 { 0 } else if k == 1 { 1 } else if k == 2 || k == 4 { 2 } else { 3 }
}

/// Index `i` of the cube's index list: six indices for each face in turn.
pub open spec fn cube_index(i: int) -> u16 {
    quad_corner(i / 6, triangle_corner(i % 6))
}

/// The index list of the cube.
pub open spec fn cube_index_seq() -> Seq<u16> {
    Seq::new(36, |i: int| cube_index(i))
}

/// Low byte of a 16-bit index.
pub open spec fn low_byte(v: u16) -> u8 {
    (v % 256) as u8
}

/// High byte of a 16-bit index.
pub open spec fn high_byte(v: u16) -> u8 {
    (v / 256) as u8
}

/// `bytes` holds `values` with two bytes each, the low byte first.
pub open spec fn is_little_endian(bytes: Seq<u8>, values: Seq<u16>) -> bool {
    &&& bytes.len() == 2 * values.len()
    &&& forall|i: int|
        0 <= i < values.len() ==> bytes[2 * i] == low_byte(#[trigger] values[i]) && bytes[2 * i
            + 1] == high_byte(values[i])
}

/// `bytes` holds `values` with two bytes each, the high byte first.
pub open spec fn is_big_endian(bytes: Seq<u8>, values: Seq<u16>) -> bool {
    &&& bytes.len() == 2 * values.len()
    &&& forall|i: int|
        0 <= i < values.len() ==> bytes[2 * i] == high_byte(#[trigger] values[i]) && bytes[2 * i
            + 1] == low_byte(values[i])
}

/// `bytes` holds `values` as the machine lays 16-bit integers out in memory:
/// in one of the two byte orders, the same for every value.
pub open spec fn is_native_layout(bytes: Seq<u8>, values: Seq<u16>) -> bool {
    is_little_endian(bytes, values) || is_big_endian(bytes, values)
}

/// Calls `bytemuck::cast_slice` from `u16` to `u8`, which reinterprets the
/// memory of the slice: two bytes for each index, in the byte order of the
/// machine. A cast to bytes cannot fail on alignment or length.
#[verifier::external_body]
fn index_bytes(indices: &Vec<u16>) -> (r: Vec<u8>)
    ensures
        is_native_layout(r@, indices@),
{
    bytemuck::cast_slice::<u16, u8>(indices.as_slice()).to_vec()
}

/// Corner `corner` of face `face`, as an index into the cube's vertices.
fn face_corner(face: u32, corner: u32) -> (r: u16)
    requires
        face < CUBE_FACE_COUNT,
        corner < 4,
    ensures
        r == quad_corner(face as int, corner as int),
        r < CUBE_VERTEX_COUNT,
{
    if face == 0 {
        if corner == 0 { 0 } else if corner == 1 { 1 } else if corner == 2 { 2 } else { 3 }
    } else if face == 1 {
        if corner == 0 { 1 } else if corner == 1 { 5 } else if corner == 2 { 6 } else { 2 }
    } else if face == 2 {
        if corner == 0 { 5 } else if corner == 1 { 4 } else if corner == 2 { 7 } else { 6 }
    } else if face == 3 {
        if corner == 0 { 4 } else if corner == 1 { 0 } else if corner == 2 { 3 } else { 7 }
    } else if face == 4 {
        if corner == 0 { 3 } else if corner == 1 { 2 } else if corner == 2 { 6 } else { 7 }
    } else {
        if corner == 0 { 4 } else if corner == 1 { 5 } else if corner == 2 { 1 } else { 0 }
    }
}

/// The eight vertices of the cube.
pub fn cube_vertices() -> (r: Vec<Vertex3d>)
    ensures
        r@ == cube_vertex_seq(),
        r@.len() == CUBE_VERTEX_COUNT,
{
    let mut vertices: Vec<Vertex3d> = Vec::new();
    vertices.push(Vertex3d { position: (-5, -5, 5), color: (10, 0, 0) });
    vertices.push(Vertex3d { position: (5, -5, 5), color: (0, 10, 0) });
    vertices.push(Vertex3d { position: (5, 5, 5), color: (0, 0, 10) });
    vertices.push(Vertex3d { position: (-5, 5, 5), color: (10, 10, 0) });
    vertices.push(Vertex3d { position: (-5, -5, -5), color: (10, 0, 10) });
    vertices.push(Vertex3d { position: (5, -5, -5), color: (0, 10, 10) });
    vertices.push(Vertex3d { position: (5, 5, -5), color: (10, 10, 10) });
    vertices.push(Vertex3d { position: (-5, 5, -5), color: (2, 2, 2) });
    assert(vertices@ =~= cube_vertex_seq());
    vertices
}

/// The index list of the cube: two triangles for each of the six faces.
pub fn cube_indices() -> (r: Vec<u16>)
    ensures
        r@ == cube_index_seq(),
        r@.len() == CUBE_INDEX_COUNT,
{
    let mut indices: Vec<u16> = Vec::new();
    let mut face: u32 = 0;
    while face < CUBE_FACE_COUNT
        invariant
            face <= CUBE_FACE_COUNT,
            indices@.len() == 6 * face,
            forall|j: int| 0 <= j < indices@.len() ==> indices@[j] == cube_index(j),
        decreases CUBE_FACE_COUNT - face,
    {
        let a = face_corner(face, 0);
        let b = face_corner(face, 1);
        let c = face_corner(face, 2);
        let d = face_corner(face, 3);
        indices.push(a);
        indices.push(b);
        indices.push(c);
        indices.push(a);
        indices.push(c);
        indices.push(d);
        face += 1;
    }
    assert(indices@ =~= cube_index_seq());
    indices
}

/// The mesh of the cube as it is uploaded: the vertices, the index list as
/// bytes, and the number of indices that a draw call covers.
#[derive(Clone, Debug)]
pub struct MeshData {
    pub vertices: Vec<Vertex3d>,
    pub index_bytes: Vec<u8>,
    pub index_count: u32,
}

/// Prepares the cube for upload.
pub fn create_mesh_data() -> (r: MeshData)
    ensures
        r.vertices@ == cube_vertex_seq(),
        is_native_layout(r.index_bytes@, cube_index_seq()),
        r.index_bytes@.len() == INDEX_BYTES * CUBE_INDEX_COUNT,
        r.index_count == CUBE_INDEX_COUNT,
{
    let vertices = cube_vertices();
    let indices = cube_indices();
    let index_bytes = index_bytes(&indices);
    MeshData { vertices, index_bytes, index_count: CUBE_INDEX_COUNT }
}

/// The cube has eight vertices and thirty-six indices, which are twelve
/// triangles, and every index names one of the eight vertices.
pub proof fn cube_mesh_is_closed()
    ensures
        cube_vertex_seq().len() == 8,
        cube_index_seq().len() == 36,
        cube_index_seq().len() == 3 * 12,
        forall|i: int| 0 <= i < cube_index_seq().len() ==> (#[trigger] cube_index_seq()[i]) < cube_vertex_seq().len(),
{
}

/// The three corners of every triangle of the cube are three different
/// vertices.
pub proof fn cube_triangles_are_proper(t: int)
    requires
        0 <= t < 12,
    ensures
        cube_index(3 * t) != cube_index(3 * t + 1),
        cube_index(3 * t + 1) != cube_index(3 * t + 2),
        cube_index(3 * t) != cube_index(3 * t + 2),
{
}

/// No two vertices of the cube share a colour or a position.
pub proof fn cube_vertices_are_distinct(i: int, j: int)
    requires
        0 <= i < 8,
        0 <= j < 8,
        i != j,
    ensures
        cube_vertex(i).color != cube_vertex(j).color,
        cube_vertex(i).position != cube_vertex(j).position,
{
}

/// Every vertex of the cube is a corner of some triangle.
pub proof fn cube_uses_every_vertex(v: int)
    requires
        0 <= v < 8,
    ensures
        exists|i: int| 0 <= i < 36 && #[trigger] cube_index(i) == v,
{
    let i: int = if v == 0 {
        0
    } else if v == 1 {
        1
    } else if v == 2 {
        2
    } else if v == 3 {
        5
    } else if v == 4 {
        13
    } else if v == 5 {
        7
    } else if v == 6 {
        8
    } else {
        14
    };
    assert(cube_index(i) == v);
}

/// The triple product of three points: positive where, seen from a place
/// beyond their plane and away from the origin, the three run
/// counter-clockwise.
pub open spec fn triple_product(a: (i32, i32, i32), b: (i32, i32, i32), c: (i32, i32, i32)) -> int {
    a.0 * (b.1 * c.2 - b.2 * c.1) + a.1 * (b.2 * c.0 - b.0 * c.2) + a.2 * (b.0 * c.1 - b.1
        * c.0)
}

/// The position of the vertex that index `i` of the cube's index list names.
pub open spec fn corner_position(i: int) -> (i32, i32, i32) {
    cube_vertex(cube_index(i) as int).position
}

/// Every triangle of the cube winds counter-clockwise seen from outside the
/// cube, so that a pipeline which culls back faces draws all twelve.
pub proof fn cube_triangles_face_outward(t: int)
    requires
        0 <= t < 12,
    ensures
        triple_product(
            corner_position(3 * t),
            corner_position(3 * t + 1),
            corner_position(3 * t + 2),
        ) > 0,
{
    let a = corner_position(3 * t);
    let b = corner_position(3 * t + 1);
    let c = corner_position(3 * t + 2);
    assert((a.0 == 5 || a.0 == -5) && (a.1 == 5 || a.1 == -5) && (a.2 == 5 || a.2 == -5));
    assert((b.0 == 5 || b.0 == -5) && (b.1 == 5 || b.1 == -5) && (b.2 == 5 || b.2 == -5));
    assert((c.0 == 5 || c.0 == -5) && (c.1 == 5 || c.1 == -5) && (c.2 == 5 || c.2 == -5));
    assert(triple_product(a, b, c) == 500);
}

/// The four corners of every face of the cube lie in one plane of the cube's
/// surface: they agree in one coordinate, which is half a unit from the
/// centre.
pub proof fn cube_faces_are_flat(face: int, a: int, b: int)
    requires
        0 <= face < 6,
        0 <= a < 4,
        0 <= b < 4,
    ensures
        ({
            let p = cube_vertex(quad_corner(face, a) as int).position;
            let q = cube_vertex(quad_corner(face, b) as int).position;
            ||| (p.0 == q.0 && (p.0 == 5 || p.0 == -5) && (face == 1 || face == 3))
            ||| (p.1 == q.1 && (p.1 == 5 || p.1 == -5) && (face == 4 || face == 5))
            ||| (p.2 == q.2 && (p.2 == 5 || p.2 == -5) && (face == 0 || face == 2))
        }),
{
}

} // verus!

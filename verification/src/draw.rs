//! The integer bookkeeping of a PMX model's draw assets: which faces each
//! material draws, its texture and toon texture slots, its edge flag and
//! its sphere mode code.

use vstd::prelude::*;
use vstd::slice::slice_subrange;

verus! {

/// How a material applies its sphere map.
#[derive(Debug, Clone, Copy, PartialEq, Eq, Structural)]
pub enum SphereMode {
    Disabled,
    Multiply,
    Add,
    SubTexture,
}

/// One triangle, by the indices of its three vertices.
#[derive(Debug, Clone, Copy, PartialEq, Eq)]
pub struct Face {
    pub vertices: [u32; 3],
}

/// The integer fields of a PMX material that drawing reads.
#[derive(Debug, Clone, Copy, PartialEq, Eq)]
pub struct MaterialSpec {
    /// Vertex indices of the material's faces, three per face.
    pub num_face_vertices: i32,
    /// Index into the model's texture list; out of range means none.
    pub texture_index: i32,
    /// Index of the toon texture; out of range means none.
    pub toon_texture_index: i32,
    /// The drawing flag bits.
    pub draw_mode: u8,
    pub sphere_mode: SphereMode,
}

/// What one material draws: the index list of its faces and its texture
/// slots, where the slot one past the model's textures is the blank texture.
pub struct DrawPlan {
    pub indices: Vec<u32>,
    pub texture: usize,
    pub toon_texture_index: usize,
    pub edge_flag: bool,
    pub sp: i32,
}

/// The code of a sphere mode that the fragment shader reads.
pub open spec fn sphere_code(m: SphereMode) -> i32 {
    match m {
        SphereMode::Disabled => 0,
        SphereMode::Multiply => 1,
        SphereMode::Add => 2,
        SphereMode::SubTexture => 3,
    }
}

/// The number of faces of a material: its vertex count divided by three,
/// rounded toward zero.
pub open spec fn face_count_of(num_face_vertices: i32) -> int {
    if num_face_vertices >= 0 {
        num_face_vertices / 3
    } else {
        0
    }
}

/// A texture index, or the blank texture's slot where it is out of range.
pub open spec fn clamp_texture(index: i32, blank: int) -> int {
    if index < 0 || index >= blank {
        blank
    } else {
        index as int
    }
}

/// Whether the edge bit `0x10` of the draw mode is set.
pub open spec fn edge_of(draw_mode: u8) -> bool {
    draw_mode & 0x10u8 == 0x10u8
}

/// A vertex count divided by three, rounded toward zero, as `i32` division does.
pub open spec fn truncated_third(n: i32) -> int {
    if n >= 0 {
        n / 3
    } else {
        -((-n) / 3)
    }
}

/// The vertex indices of faces, three per face, in order.
pub open spec fn face_indices(faces: Seq<Face>) -> Seq<u32>
    decreases faces.len(),
{
    if faces.len() == 0 {
        Seq::empty()
    } else {
        let f = faces.last();
        face_indices(faces.drop_last()) + seq![f.vertices[0], f.vertices[1], f.vertices[2]]
    }
}

/// The first face of material `k`: the faces of the materials before it.
pub open spec fn material_start(ms: Seq<MaterialSpec>, k: int) -> int
    decreases k,
{
    if k <= 0 {
        0
    } else {
        material_start(ms, k - 1) + face_count_of(ms[k - 1].num_face_vertices)
    }
}

/// Every material has a face count that is not negative after rounding, and
/// the faces that the materials take in turn are there.
pub open spec fn faces_suffice(face_total: int, ms: Seq<MaterialSpec>) -> bool {
    forall|k: int|
        0 <= k < ms.len() ==> ms[k].num_face_vertices > -3 && #[trigger] material_start(ms, k + 1)
            <= face_total
}

/// What material `m`, whose faces start at `start`, draws.
pub open spec fn plan_agrees(
    p: DrawPlan,
    faces: Seq<Face>,
    blank: int,
    m: MaterialSpec,
    start: int,
) -> bool {
    &&& p.indices@ == face_indices(faces.subrange(start, start + face_count_of(m.num_face_vertices)))
    &&& p.texture == clamp_texture(m.texture_index, blank)
    &&& p.toon_texture_index == clamp_texture(m.toon_texture_index, blank)
    &&& p.edge_flag == edge_of(m.draw_mode)
    &&& p.sp == sphere_code(m.sphere_mode)
}

proof fn lemma_face_indices_push(faces: Seq<Face>, f: Face)
    ensures
        face_indices(faces.push(f)) == face_indices(faces) + seq![f.vertices[0], f.vertices[1], f.vertices[2]],
{
    assert(faces.push(f).drop_last() =~= faces);
}

/// The index list of faces is the concatenation of the index lists of their
/// parts.
pub proof fn lemma_face_indices_concat(a: Seq<Face>, b: Seq<Face>)
    ensures
        face_indices(a + b) == face_indices(a) + face_indices(b),
    decreases b.len(),
{
    if b.len() == 0 {
        assert(a + b =~= a);
        assert(face_indices(a) + face_indices(b) =~= face_indices(a));
    } else {
        lemma_face_indices_concat(a, b.drop_last());
        assert((a + b).drop_last() =~= a + b.drop_last());
        assert((a + b).last() == b.last());
        let f = b.last();
        assert(face_indices(a) + face_indices(b) =~= face_indices(a) + face_indices(b.drop_last())
            + seq![f.vertices[0], f.vertices[1], f.vertices[2]]);
    }
}

/// The index list of faces, three indices per face.
pub fn convert_to_index_list(triangles: &[Face]) -> (indices: Vec<u32>)
    requires
        3 * triangles@.len() <= usize::MAX,
    ensures
        indices@ == face_indices(triangles@),
{
    let mut indices: Vec<u32> = Vec::new();
    let n = triangles.len();
    let mut i: usize = 0;
    while i < n
        invariant
            n == triangles@.len(),
            i <= n,
            indices@ == face_indices(triangles@.take(i as int)),
        decreases n - i,
    {
        let elem = triangles[i];
        indices.push(elem.vertices[0]);
        indices.push(elem.vertices[1]);
        indices.push(elem.vertices[2]);
        proof {
            assert(triangles@.take(i + 1) =~= triangles@.take(i as int).push(elem));
            lemma_face_indices_push(triangles@.take(i as int), elem);
            assert(indices@ =~= face_indices(triangles@.take(i + 1)));
        }
        i = i + 1;
    }
    assert(triangles@.take(n as int) =~= triangles@);
    indices
}

/// The code of a sphere mode.
pub fn sphere_mode_code(m: SphereMode) -> (code: i32)
    ensures
        code == sphere_code(m),
{
    match m {
        SphereMode::Disabled => 0,
        SphereMode::Multiply => 1,
        SphereMode::Add => 2,
        SphereMode::SubTexture => 3,
    }
}

/// The texture slot of an index: the index where it names one of `blank`
/// textures, else `blank`, the slot of the blank texture.
pub fn texture_slot(index: i32, blank: usize) -> (slot: usize)
    ensures
        slot == clamp_texture(index, blank as int),
        slot <= blank,
        0 <= index && index < blank ==> slot == index as usize,
        index < 0 || index >= blank ==> slot == blank,
{
    if index < 0 {
        return blank;
    }
    let i = index as usize;
    if i >= blank {
        blank
    } else {
        i
    }
}

/// Whether a material draws its edge, by bit `0x10` of its draw mode.
pub fn edge_flag_of(draw_mode: u8) -> (flag: bool)
    ensures
        flag == edge_of(draw_mode),
{
    let flag = (draw_mode & 0x10) > 1;
    assert((draw_mode & 0x10u8) > 1 <==> (draw_mode & 0x10u8 == 0x10u8)) by (bit_vector);
    flag
}

/// The number of faces of a material, its vertex count divided by three as
/// a `usize`: a negative quotient wraps around as the cast does.
pub fn face_count(num_face_vertices: i32) -> (n: usize)
    ensures
        n == truncated_third(num_face_vertices) as usize,
        num_face_vertices > -3 ==> n == face_count_of(num_face_vertices),
{
    let wide = num_face_vertices as i64;
    let q: i64 = if wide >= 0 {
        wide / 3
    } else {
        -((-wide) / 3)
    };
    q as usize
}

/// The draw plans of a model: material after material takes its faces from
/// the front of `faces`, and its texture slots are clamped to the blank
/// texture, whose slot is `texture_count`.
pub fn plan_draw_assets(faces: Vec<Face>, texture_count: usize, materials: &[MaterialSpec]) -> (plans:
    Vec<DrawPlan>)
    requires
        faces_suffice(faces@.len() as int, materials@),
        3 * faces@.len() <= usize::MAX,
    ensures
        plans@.len() == materials@.len(),
        forall|k: int|
            0 <= k < plans@.len() ==> plan_agrees(
                #[trigger] plans@[k],
                faces@,
                texture_count as int,
                materials@[k],
                material_start(materials@, k),
            ),
        forall|k: int|
            0 <= k < plans@.len() ==> #[trigger] plans@[k].texture <= texture_count
                && plans@[k].toon_texture_index <= texture_count,
        forall|k: int|
            0 <= k < plans@.len() ==> (0 <= materials@[k].texture_index < texture_count
                ==> #[trigger] plans@[k].texture == materials@[k].texture_index as usize)
                && (0 <= materials@[k].toon_texture_index < texture_count
                ==> plans@[k].toon_texture_index == materials@[k].toon_texture_index as usize),
{
    let mut plans: Vec<DrawPlan> = Vec::new();
    let blank_texture_id = texture_count;
    let total = faces.len();
    let mut start: usize = 0;
    let mut k: usize = 0;
    while k < materials.len()
        invariant
            total == faces@.len(),
            3 * total <= usize::MAX,
            faces_suffice(total as int, materials@),
            k <= materials@.len(),
            start == material_start(materials@, k as int),
            start <= total,
            plans@.len() == k,
            forall|j: int|
                0 <= j < k ==> plan_agrees(
                    #[trigger] plans@[j],
                    faces@,
                    blank_texture_id as int,
                    materials@[j],
                    material_start(materials@, j),
                ),
            forall|j: int|
                0 <= j < k ==> #[trigger] plans@[j].texture <= blank_texture_id
                    && plans@[j].toon_texture_index <= blank_texture_id,
        decreases materials@.len() - k,
    {
        let material = materials[k];
        assert(material_start(materials@, k + 1) <= total);
        let end = face_count(material.num_face_vertices);
        let part = slice_subrange(faces.as_slice(), start, start + end);
        let indices = convert_to_index_list(part);
        let sp = sphere_mode_code(material.sphere_mode);
        let toon_texture_index = texture_slot(material.toon_texture_index, blank_texture_id);
        let texture = texture_slot(material.texture_index, blank_texture_id);
        let edge_flag = edge_flag_of(material.draw_mode);
        plans.push(DrawPlan { indices, texture, toon_texture_index, edge_flag, sp });
        start = start + end;
        k = k + 1;
    }
    plans
}

/// A texture index that names one of the `blank` textures is kept; only a
/// negative index or one at or past `blank` is replaced by the blank slot.
pub proof fn lemma_texture_index_kept_in_range(index: i32, blank: int)
    requires
        0 <= blank,
    ensures
        0 <= index < blank ==> clamp_texture(index, blank) == index,
        index < 0 || index >= blank ==> clamp_texture(index, blank) == blank,
        0 <= clamp_texture(index, blank) <= blank,
{
}

/// The draw plans, taken in order, hold the index lists of the faces that
/// the materials use, each face once and in order: together they are the
/// index list of the first `material_start(ms, n)` faces.
pub proof fn lemma_materials_cover_faces(faces: Seq<Face>, ms: Seq<MaterialSpec>, n: int)
    requires
        faces_suffice(faces.len() as int, ms),
        0 <= n <= ms.len(),
    ensures
        0 <= material_start(ms, n) <= faces.len(),
        face_indices(faces.take(material_start(ms, n))) == material_indices(faces, ms, n),
    decreases n,
{
    if n > 0 {
        lemma_materials_cover_faces(faces, ms, n - 1);
        let s = material_start(ms, n - 1);
        let e = material_start(ms, n);
        assert(material_start(ms, (n - 1) + 1) <= faces.len());
        assert(faces.take(e) =~= faces.take(s) + faces.subrange(s, e));
        lemma_face_indices_concat(faces.take(s), faces.subrange(s, e));
    } else {
        assert(faces.take(0) =~= Seq::<Face>::empty());
    }
}

/// The index lists of the first `n` materials, concatenated.
pub open spec fn material_indices(faces: Seq<Face>, ms: Seq<MaterialSpec>, n: int) -> Seq<u32>
    decreases n,
{
    if n <= 0 {
        Seq::empty()
    } else {
        material_indices(faces, ms, n - 1) + face_indices(
            faces.subrange(material_start(ms, n - 1), material_start(ms, n)),
        )
    }
}

} // verus!

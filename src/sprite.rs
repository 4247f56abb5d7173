use vstd::prelude::*;

verus! {

/// Fixed-point resolution of positions, sizes and motions: one world (or local)
/// unit is `SUBUNITS` integer steps.
pub const SUBUNITS: i64 = 100;

/// Fixed-point resolution of the translation column of a model matrix
/// (`SUBUNITS` squared). The three other columns are in units of
/// `1 / SUBUNITS`.
pub const MATRIX_ONE: i64 = 10000;

/// Largest magnitude of a position or of the accumulated local motion.
pub const COORD_LIMIT: i64 = 100_000_000;

/// Largest magnitude of a size.
pub const SIZE_LIMIT: i64 = 1_000_000;

/// Bound on the entries of the first three columns handed to the matrix helpers.
pub const LINEAR_BOUND: i64 = 0x100_0000;

/// Bound on the entries of the last column handed to the matrix helpers.
pub const COLUMN_BOUND: i64 = 0x10_0000_0000_0000;

/// Bound on a translation handed to the matrix helpers.
pub const SHIFT_BOUND: i64 = 0x10_0000_0000;

/// A 2D vector in fixed-point steps (see [`SUBUNITS`]).
#[derive(Clone, Copy, PartialEq, Eq, Structural, Debug)]
pub struct Vec2i {
    pub x: i64,
    pub y: i64,
}

pub open spec fn coord_ok(v: Vec2i) -> bool {
    -COORD_LIMIT <= v.x <= COORD_LIMIT && -COORD_LIMIT <= v.y <= COORD_LIMIT
}

pub open spec fn size_ok(v: Vec2i) -> bool {
    -SIZE_LIMIT <= v.x <= SIZE_LIMIT && -SIZE_LIMIT <= v.y <= SIZE_LIMIT
}

/// The accumulated local motion `offset + d` stays within [`COORD_LIMIT`].
pub open spec fn can_move(offset: Vec2i, d: Vec2i) -> bool {
    &&& -COORD_LIMIT <= offset.x + d.x <= COORD_LIMIT
    &&& -COORD_LIMIT <= offset.y + d.y <= COORD_LIMIT
}

pub open spec fn vec_add(a: Vec2i, b: Vec2i) -> Vec2i {
    Vec2i { x: (a.x + b.x) as i64, y: (a.y + b.y) as i64 }
}

pub open spec fn ints(m: Seq<i64>) -> Seq<int> {
    m.map_values(|v: i64| v as int)
}

/// `m * translate(x, y, z)` for a column-major 4x4 matrix `m`: the first three
/// columns stay, the last gains `col0 * x + col1 * y + col2 * z`.
pub open spec fn mat_translate(m: Seq<int>, x: int, y: int, z: int) -> Seq<int> {
    Seq::new(
        16,
        |i: int|
            if 12 <= i < 16 {
                m[i] + m[i - 12] * x + m[i - 8] * y + m[i - 4] * z
            } else {
                m[i]
            },
    )
}

/// `m * scale(x, y, z)` for a column-major 4x4 matrix `m`: the first three
/// columns are multiplied by `x`, `y` and `z`.
pub open spec fn mat_scale(m: Seq<int>, x: int, y: int, z: int) -> Seq<int> {
    Seq::new(
        16,
        |i: int|
            if i < 4 {
                m[i] * x
            } else if i < 8 {
                m[i] * y
            } else if i < 12 {
                m[i] * z
            } else {
                m[i]
            },
    )
}

/// Entries of the first three columns lie within [`LINEAR_BOUND`], those of
/// the last within [`COLUMN_BOUND`].
pub open spec fn mat_bounded(m: Seq<i64>) -> bool {
    &&& m.len() == 16
    &&& forall|i: int| 0 <= i < 12 ==> -LINEAR_BOUND <= #[trigger] m[i] <= LINEAR_BOUND
    &&& forall|i: int| 12 <= i < 16 ==> -COLUMN_BOUND <= #[trigger] m[i] <= COLUMN_BOUND
}

/// Relies on nalgebra_glm::translate on `i64` matrices: the result is
/// `m * translate(x, y, z)` (nalgebra's `prepend_translation`). The bounds keep
/// every product and sum inside `i64`.
#[verifier::external_body]
fn glm_translate(m: &Vec<i64>, x: i64, y: i64, z: i64) -> (r: Vec<i64>)
    requires
        mat_bounded(m@),
        -SHIFT_BOUND <= x <= SHIFT_BOUND,
        -SHIFT_BOUND <= y <= SHIFT_BOUND,
        -SHIFT_BOUND <= z <= SHIFT_BOUND,
    ensures
        ints(r@) == mat_translate(ints(m@), x as int, y as int, z as int),
{
    let mat = nalgebra_glm::TMat4::<i64>::from_column_slice(m);
    nalgebra_glm::translate(&mat, &nalgebra_glm::vec3(x, y, z)).as_slice().to_vec()
}

/// Relies on nalgebra_glm::scale on `i64` matrices: the result is
/// `m * scale(x, y, z)` (nalgebra's `prepend_nonuniform_scaling`).
#[verifier::external_body]
fn glm_scale(m: &Vec<i64>, x: i64, y: i64, z: i64) -> (r: Vec<i64>)
    requires
        mat_bounded(m@),
        -LINEAR_BOUND <= x <= LINEAR_BOUND,
        -LINEAR_BOUND <= y <= LINEAR_BOUND,
        -LINEAR_BOUND <= z <= LINEAR_BOUND,
    ensures
        ints(r@) == mat_scale(ints(m@), x as int, y as int, z as int),
{
    let mat = nalgebra_glm::TMat4::<i64>::from_column_slice(m);
    nalgebra_glm::scale(&mat, &nalgebra_glm::vec3(x, y, z)).as_slice().to_vec()
}

/// The identity in this fixed-point layout: ones on the diagonal of the
/// first three columns, [`MATRIX_ONE`] in the corner.
pub open spec fn unit_matrix() -> Seq<int> {
    Seq::new(
        16,
        |i: int|
            if i == 15 {
                MATRIX_ONE as int
            } else if i == 0 || i == 5 || i == 10 {
                1
            } else {
                0
            },
    )
}

/// The entries of `model_matrix(pos, size, offset)`.
pub open spec fn model_entries(pos: Vec2i, size: Vec2i, offset: Vec2i) -> Seq<int> {
    Seq::new(
        16,
        |i: int|
            if i == 0 {
                size.x as int
            } else if i == 5 {
                size.y as int
            } else if i == 10 {
                SUBUNITS as int
            } else if i == 12 {
                SUBUNITS * pos.x + size.x * offset.x
            } else if i == 13 {
                SUBUNITS * pos.y + size.y * offset.y
            } else if i == 15 {
                MATRIX_ONE as int
            } else {
                0
            },
    )
}

/// `translate(pos) * scale(size.x, size.y, 1)` in fixed point.
pub open spec fn translate_scale(pos: Vec2i, size: Vec2i) -> Seq<int> {
    mat_scale(
        mat_translate(unit_matrix(), SUBUNITS * pos.x, SUBUNITS * pos.y, 0),
        size.x as int,
        size.y as int,
        SUBUNITS as int,
    )
}

/// `translate(pos) * scale(size.x, size.y, 1) * translate(offset)`, where the
/// last translation is a motion in the sprite's local (scaled) frame.
pub open spec fn model_matrix(pos: Vec2i, size: Vec2i, offset: Vec2i) -> Seq<int> {
    mat_translate(translate_scale(pos, size), offset.x as int, offset.y as int, 0)
}

/// Two successive translations equal one translation by their sum:
/// `m * translate(a) * translate(b) == m * translate(a + b)`.
pub proof fn lemma_translations_compose(m: Seq<int>, a: (int, int, int), b: (int, int, int))
    requires
        m.len() == 16,
    ensures
        mat_translate(mat_translate(m, a.0, a.1, a.2), b.0, b.1, b.2) == mat_translate(
            m,
            a.0 + b.0,
            a.1 + b.1,
            a.2 + b.2,
        ),
{
    let lhs = mat_translate(mat_translate(m, a.0, a.1, a.2), b.0, b.1, b.2);
    let rhs = mat_translate(m, a.0 + b.0, a.1 + b.1, a.2 + b.2);
    assert forall|i: int| 12 <= i < 16 implies lhs[i] == rhs[i] by {
        let (c0, c1, c2) = (m[i - 12], m[i - 8], m[i - 4]);
        assert(c0 * (a.0 + b.0) + c1 * (a.1 + b.1) + c2 * (a.2 + b.2) == c0 * a.0 + c1 * a.1 + c2
            * a.2 + c0 * b.0 + c1 * b.1 + c2 * b.2) by (nonlinear_arith);
    }
    assert(lhs =~= rhs);
}

/// Translating the unit matrix fills in its last column.
proof fn lemma_translate_unit(x: int, y: int)
    ensures
        mat_translate(unit_matrix(), x, y, 0) == Seq::new(
            16,
            |i: int|
                if i == 12 {
                    x
                } else if i == 13 {
                    y
                } else {
                    unit_matrix()[i]
                },
        ),
{
    let t = mat_translate(unit_matrix(), x, y, 0);
    let target = Seq::new(16, |i: int| if i == 12 { x } else if i == 13 { y } else { unit_matrix()[i] });
    assert forall|i: int| 0 <= i < 16 implies #[trigger] t[i] == target[i] by {
        let u = unit_matrix();
        if i == 12 {
            assert(u[0] == 1 && u[4] == 0 && u[8] == 0 && u[12] == 0);
            assert(t[i] == x);
        } else if i == 13 {
            assert(u[1] == 0 && u[5] == 1 && u[9] == 0 && u[13] == 0);
            assert(t[i] == y);
        } else if i == 14 {
            assert(u[2] == 0 && u[6] == 0 && u[10] == 1 && u[14] == 0);
            assert(t[i] == 0);
        } else if i == 15 {
            assert(u[3] == 0 && u[7] == 0 && u[11] == 0 && u[15] == MATRIX_ONE);
            assert(t[i] == MATRIX_ONE);
        }
    }
    assert(t =~= target);
}

/// The model matrix in closed form.
pub proof fn lemma_model_matrix_entries(pos: Vec2i, size: Vec2i, offset: Vec2i)
    ensures
        model_matrix(pos, size, offset) == model_entries(pos, size, offset),
{
    let zero = Vec2i { x: 0, y: 0 };
    let t = mat_translate(unit_matrix(), SUBUNITS * pos.x, SUBUNITS * pos.y, 0);
    let px = SUBUNITS * pos.x;
    let py = SUBUNITS * pos.y;
    lemma_translate_unit(px, py);
    let ts = translate_scale(pos, size);
    assert(ts =~= model_entries(pos, size, zero));
    let m = model_matrix(pos, size, offset);
    assert(m =~= model_entries(pos, size, offset));
}

/// A local motion of a sprite's model matrix adds to its accumulated offset.
pub proof fn lemma_move_model(pos: Vec2i, size: Vec2i, offset: Vec2i, d: Vec2i)
    requires
        can_move(offset, d),
    ensures
        mat_translate(model_matrix(pos, size, offset), d.x as int, d.y as int, 0) == model_matrix(
            pos,
            size,
            vec_add(offset, d),
        ),
{
    lemma_translations_compose(
        translate_scale(pos, size),
        (offset.x as int, offset.y as int, 0),
        (d.x as int, d.y as int, 0),
    );
}

/// The model matrix of a sprite in range stays within the helpers' bounds.
proof fn lemma_model_bounded(pos: Vec2i, size: Vec2i, offset: Vec2i, m: Seq<i64>)
    requires
        coord_ok(pos),
        size_ok(size),
        coord_ok(offset),
        ints(m) == model_matrix(pos, size, offset),
    ensures
        mat_bounded(m),
{
    lemma_model_matrix_entries(pos, size, offset);
    assert(-1_000_000_000_000_000 <= size.x * offset.x <= 1_000_000_000_000_000) by (nonlinear_arith)
        requires
            -SIZE_LIMIT <= size.x <= SIZE_LIMIT,
            -COORD_LIMIT <= offset.x <= COORD_LIMIT,
    ;
    assert(-1_000_000_000_000_000 <= size.y * offset.y <= 1_000_000_000_000_000) by (nonlinear_arith)
        requires
            -SIZE_LIMIT <= size.y <= SIZE_LIMIT,
            -COORD_LIMIT <= offset.y <= COORD_LIMIT,
    ;
    assert(ints(m).len() == m.len());
    assert forall|i: int| 0 <= i < 16 implies m[i] as int == ints(m)[i] by {}
}

/// A textured quad's transform: its model matrix and the contents of its
/// transform buffer.
pub struct Sprite {
    position: Vec2i,
    size: Vec2i,
    offset: Vec2i,
    model_mat: Vec<i64>,
    model_buf: Vec<i64>,
}

impl Sprite {
    pub closed spec fn position_view(&self) -> Vec2i {
        self.position
    }

    pub closed spec fn size_view(&self) -> Vec2i {
        self.size
    }

    /// Local motion accumulated since creation.
    pub closed spec fn offset_view(&self) -> Vec2i {
        self.offset
    }

    /// The current model matrix.
    pub closed spec fn matrix(&self) -> Seq<int> {
        ints(self.model_mat@)
    }

    /// What the transform buffer holds.
    pub closed spec fn buffer_view(&self) -> Seq<int> {
        ints(self.model_buf@)
    }

    /// Coordinates are in range, the model matrix is
    /// `translate(position) * scale(size) * translate(offset)`, and the
    /// transform buffer is never stale.
    pub open spec fn wf(&self) -> bool {
        &&& coord_ok(self.position_view())
        &&& size_ok(self.size_view())
        &&& coord_ok(self.offset_view())
        &&& self.matrix() == model_matrix(self.position_view(), self.size_view(), self.offset_view())
        &&& self.buffer_view() == self.matrix()
    }

    /// A sprite at `pos` with extent `size`; its model matrix is
    /// `translate(pos) * scale(size.x, size.y, 1)`, already written to its buffer.
    pub fn new(pos: Vec2i, size: Vec2i) -> (r: Sprite)
        requires
            coord_ok(pos),
            size_ok(size),
        ensures
            r.wf(),
            r.position_view() == pos,
            r.size_view() == size,
            r.offset_view() == (Vec2i { x: 0, y: 0 }),
            r.matrix() == translate_scale(pos, size),
            r.buffer_view() == translate_scale(pos, size),
    {
        let unit: Vec<i64> = vec![1, 0, 0, 0, 0, 1, 0, 0, 0, 0, 1, 0, 0, 0, 0, MATRIX_ONE];
        assert(ints(unit@) =~= unit_matrix());
        let shifted = glm_translate(&unit, SUBUNITS * pos.x, SUBUNITS * pos.y, 0);
        proof {
            let px = SUBUNITS * pos.x;
            let py = SUBUNITS * pos.y;
            lemma_translate_unit(px, py);
            assert(ints(shifted@).len() == shifted@.len());
        }
        assert forall|i: int| 0 <= i < 16 implies shifted@[i] as int == ints(shifted@)[i] by {}
        let model_mat = glm_scale(&shifted, size.x, size.y, SUBUNITS);
        let offset = Vec2i { x: 0, y: 0 };
        proof {
            lemma_translations_compose(translate_scale(pos, size), (0, 0, 0), (0, 0, 0));
            assert(mat_translate(translate_scale(pos, size), 0, 0, 0) =~= translate_scale(pos, size));
        }
        let model_buf = model_mat.clone();
        assert(model_buf@ =~= model_mat@);
        Sprite { position: pos, size, offset, model_mat, model_buf }
    }

    /// Post-multiplies the model matrix by `translate(d.x, d.y, 0)` (a motion in
    /// the sprite's local frame) and rewrites the transform buffer. Returns
    /// `false`, changing nothing, when the accumulated motion would leave the
    /// representable range.
    pub fn move_by(&mut self, d: Vec2i) -> (moved: bool)
        requires
            old(self).wf(),
        ensures
            final(self).wf(),
            moved == can_move(old(self).offset_view(), d),
            moved ==> final(self).position_view() == old(self).position_view()
                && final(self).size_view() == old(self).size_view()
                && final(self).offset_view() == vec_add(old(self).offset_view(), d)
                && final(self).matrix() == mat_translate(old(self).matrix(), d.x as int, d.y as int, 0),
            !moved ==> *final(self) == *old(self),
            final(self).buffer_view() == final(self).matrix(),
    {
        if d.x < -2 * COORD_LIMIT || d.x > 2 * COORD_LIMIT || d.y < -2 * COORD_LIMIT || d.y > 2
            * COORD_LIMIT {
            return false;
        }
        let nx = self.offset.x + d.x;
        let ny = self.offset.y + d.y;
        if nx < -COORD_LIMIT || nx > COORD_LIMIT || ny < -COORD_LIMIT || ny > COORD_LIMIT {
            return false;
        }
        proof {
            lemma_model_bounded(self.position, self.size, self.offset, self.model_mat@);
            lemma_move_model(self.position, self.size, self.offset, d);
        }
        self.model_mat = glm_translate(&self.model_mat, d.x, d.y, 0);
        self.offset = Vec2i { x: nx, y: ny };
        self.model_buf = self.model_mat.clone();
        assert(self.model_buf@ =~= self.model_mat@);
        true
    }

    /// The contents of the transform buffer (column-major; see [`MATRIX_ONE`]).
    pub fn get_buf(&self) -> (r: &Vec<i64>)
        ensures
            ints(r@) == self.buffer_view(),
    {
        &self.model_buf
    }

    pub fn position(&self) -> (r: Vec2i)
        ensures
            r == self.position_view(),
    {
        self.position
    }

    pub fn size(&self) -> (r: Vec2i)
        ensures
            r == self.size_view(),
    {
        self.size
    }

    pub fn offset(&self) -> (r: Vec2i)
        ensures
            r == self.offset_view(),
    {
        self.offset
    }
}

/// After a sequence of two motions, the model matrix equals the matrix after
/// one motion by their sum, and the transform buffer holds it.
pub proof fn lemma_moves_compose(s0: Sprite, s1: Sprite, s2: Sprite, d1: Vec2i, d2: Vec2i)
    requires
        s0.wf(),
        s1.wf(),
        s2.wf(),
        s1.matrix() == mat_translate(s0.matrix(), d1.x as int, d1.y as int, 0),
        s2.matrix() == mat_translate(s1.matrix(), d2.x as int, d2.y as int, 0),
    ensures
        s2.matrix() == mat_translate(s0.matrix(), d1.x + d2.x, d1.y + d2.y, 0),
        s2.buffer_view() == s2.matrix(),
{
    lemma_translations_compose(s0.matrix(), (d1.x as int, d1.y as int, 0), (d2.x as int, d2.y as int, 0));
}

} // verus!

//! The wire-format model: the per-frame structures handed in by the upstream
//! tracker, and the exact JSON text transmitted for them.
//!
//! Field policy: a blendshape category transmits only `score` and `name`
//! (the canonical category name, never the internal display name or index);
//! a landmark transmits only `x`, `y` and `z` (never its visibility or
//! presence confidence); a head-pose matrix transmits its four rows as the
//! top-level fields `x`, `y`, `z` and `w`, flattened beside `blendshapes`.
//!
//! Numeric values are carried as their already-rendered decimal text, so the
//! shape of the message is decided entirely here.

use vstd::prelude::*;

use crate::json::array_text;
use crate::json::chars_to_string;
use crate::json::join_comma;
use crate::json::lemma_fields2;
use crate::json::lemma_fields3;
use crate::json::lemma_fields5;
use crate::json::lemma_join4;
use crate::json::lemma_join_push;
use crate::json::object_text;
use crate::json::push_key;
use crate::json::push_quoted;
use crate::json::push_str_chars;
use crate::json::string_text;

verus! {

/// One blendshape score from the tracker's classification output. The
/// `index` and `display_name` are kept for the caller's use and are never
/// transmitted; `score` is the rendered confidence value.
pub struct Category {
    pub index: u16,
    pub score: String,
    pub display_name: String,
    pub category_name: String,
}

/// The mathematical model of a `Category`.
pub struct CategoryView {
    pub index: u16,
    pub score: Seq<char>,
    pub display_name: Seq<char>,
    pub category_name: Seq<char>,
}

impl View for Category {
    type V = CategoryView;

    open spec fn view(&self) -> CategoryView {
        CategoryView {
            index: self.index,
            score: self.score@,
            display_name: self.display_name@,
            category_name: self.category_name@,
        }
    }
}

/// One tracked spatial point. The visibility and presence confidences are
/// used upstream for filtering only and are never transmitted.
pub struct Landmark {
    pub x: String,
    pub y: String,
    pub z: String,
    pub visibility: String,
    pub presence: String,
}

/// The mathematical model of a `Landmark`.
pub struct LandmarkView {
    pub x: Seq<char>,
    pub y: Seq<char>,
    pub z: Seq<char>,
    pub visibility: Seq<char>,
    pub presence: Seq<char>,
}

impl View for Landmark {
    type V = LandmarkView;

    open spec fn view(&self) -> LandmarkView {
        LandmarkView {
            x: self.x@,
            y: self.y@,
            z: self.z@,
            visibility: self.visibility@,
            presence: self.presence@,
        }
    }
}

/// One row of a head-pose matrix.
pub struct Vector4 {
    pub x: String,
    pub y: String,
    pub z: String,
    pub w: String,
}

/// The mathematical model of a `Vector4`.
pub struct Vector4View {
    pub x: Seq<char>,
    pub y: Seq<char>,
    pub z: Seq<char>,
    pub w: Seq<char>,
}

impl View for Vector4 {
    type V = Vector4View;

    open spec fn view(&self) -> Vector4View {
        Vector4View { x: self.x@, y: self.y@, z: self.z@, w: self.w@ }
    }
}

/// A 4x4 head-pose matrix, one `Vector4` per row.
pub struct TransformationMatrix {
    pub x: Vector4,
    pub y: Vector4,
    pub z: Vector4,
    pub w: Vector4,
}

/// The mathematical model of a `TransformationMatrix`.
pub struct TransformationMatrixView {
    pub x: Vector4View,
    pub y: Vector4View,
    pub z: Vector4View,
    pub w: Vector4View,
}

impl View for TransformationMatrix {
    type V = TransformationMatrixView;

    open spec fn view(&self) -> TransformationMatrixView {
        TransformationMatrixView { x: self.x@, y: self.y@, z: self.z@, w: self.w@ }
    }
}

/// The per-frame payload beside the blendshapes: either the landmark list or
/// the head-pose matrix, a deployment-wide choice made once by the driver.
pub enum FramePayload {
    Landmarks(Vec<Landmark>),
    Matrix(TransformationMatrix),
}

/// The mathematical model of a `FramePayload`.
pub enum FramePayloadView {
    Landmarks(Seq<LandmarkView>),
    Matrix(TransformationMatrixView),
}

/// The models of a sequence of landmarks.
pub open spec fn landmark_views(s: Seq<Landmark>) -> Seq<LandmarkView> {
    Seq::new(s.len(), |i: int| s[i]@)
}

/// The models of a sequence of categories.
pub open spec fn category_views(s: Seq<Category>) -> Seq<CategoryView> {
    Seq::new(s.len(), |i: int| s[i]@)
}

impl View for FramePayload {
    type V = FramePayloadView;

    open spec fn view(&self) -> FramePayloadView {
        match self {
            FramePayload::Landmarks(ls) => FramePayloadView::Landmarks(landmark_views(ls@)),
            FramePayload::Matrix(m) => FramePayloadView::Matrix(m@),
        }
    }
}

/// The transmitted message for one frame, constructed fresh per send call.
pub struct WireData {
    pub payload: FramePayload,
    pub blendshapes: Vec<Category>,
}

/// The mathematical model of a `WireData`.
pub struct WireDataView {
    pub payload: FramePayloadView,
    pub blendshapes: Seq<CategoryView>,
}

impl View for WireData {
    type V = WireDataView;

    open spec fn view(&self) -> WireDataView {
        WireDataView { payload: self.payload@, blendshapes: category_views(self.blendshapes@) }
    }
}

/// The two fields transmitted for a category: its score and its canonical
/// name. The index and display name never appear.
pub open spec fn category_fields(c: CategoryView) -> Seq<(Seq<char>, Seq<char>)> {
    seq![("score"@, c.score), ("name"@, string_text(c.category_name))]
}

/// The JSON text of one category.
pub open spec fn category_json(c: CategoryView) -> Seq<char> {
    object_text(category_fields(c))
}

/// The three fields transmitted for a landmark: its coordinates. The
/// visibility and presence confidences never appear.
pub open spec fn landmark_fields(l: LandmarkView) -> Seq<(Seq<char>, Seq<char>)> {
    seq![("x"@, l.x), ("y"@, l.y), ("z"@, l.z)]
}

/// The JSON text of one landmark.
pub open spec fn landmark_json(l: LandmarkView) -> Seq<char> {
    object_text(landmark_fields(l))
}

/// The four items of a matrix row, in column order.
pub open spec fn vector4_items(v: Vector4View) -> Seq<Seq<char>> {
    seq![v.x, v.y, v.z, v.w]
}

/// The JSON text of one matrix row: a 4-element array.
pub open spec fn vector4_json(v: Vector4View) -> Seq<char> {
    array_text(vector4_items(v))
}

/// The rendered items of a category list.
pub open spec fn categories_rendered(cs: Seq<CategoryView>) -> Seq<Seq<char>> {
    Seq::new(cs.len(), |i: int| category_json(cs[i]))
}

/// The JSON text of the blendshape list.
pub open spec fn blendshapes_json(cs: Seq<CategoryView>) -> Seq<char> {
    array_text(categories_rendered(cs))
}

/// The rendered items of a landmark list.
pub open spec fn landmarks_rendered(ls: Seq<LandmarkView>) -> Seq<Seq<char>> {
    Seq::new(ls.len(), |i: int| landmark_json(ls[i]))
}

/// The JSON text of the landmark list.
pub open spec fn landmarks_json(ls: Seq<LandmarkView>) -> Seq<char> {
    array_text(landmarks_rendered(ls))
}

/// The top-level fields of the transmitted message. The landmark variant
/// nests the landmark list under one field; the matrix variant splices the
/// four row fields directly into the top level.
pub open spec fn wire_fields(w: WireDataView) -> Seq<(Seq<char>, Seq<char>)> {
    match w.payload {
        FramePayloadView::Landmarks(ls) => seq![
            ("landmarks"@, landmarks_json(ls)),
            ("blendshapes"@, blendshapes_json(w.blendshapes)),
        ],
        FramePayloadView::Matrix(m) => seq![
            ("x"@, vector4_json(m.x)),
            ("y"@, vector4_json(m.y)),
            ("z"@, vector4_json(m.z)),
            ("w"@, vector4_json(m.w)),
            ("blendshapes"@, blendshapes_json(w.blendshapes)),
        ],
    }
}

/// The complete JSON text of the transmitted message for one frame.
pub open spec fn wire_json(w: WireDataView) -> Seq<char> {
    object_text(wire_fields(w))
}

impl Category {
    /// Appends this category's JSON text to `out`.
    fn emit(&self, out: &mut Vec<char>)
        ensures
            final(out)@ == old(out)@ + category_json(self@),
    {
        out.push('{');
        push_key(out, "score");
        push_str_chars(out, self.score.as_str());
        out.push(',');
        push_key(out, "name");
        push_quoted(out, self.category_name.as_str());
        out.push('}');
        proof {
            lemma_fields2(
                "score"@,
                self@.score,
                "name"@,
                string_text(self@.category_name),
            );
            assert(out@ =~= old(out)@ + category_json(self@));
        }
    }

    /// The JSON text transmitted for this category: exactly the `score` and
    /// `name` fields.
    pub fn to_json(&self) -> (r: String)
        ensures
            r@ == category_json(self@),
    {
        let mut out: Vec<char> = Vec::new();
        self.emit(&mut out);
        chars_to_string(&out)
    }
}

impl Landmark {
    /// Appends this landmark's JSON text to `out`.
    fn emit(&self, out: &mut Vec<char>)
        ensures
            final(out)@ == old(out)@ + landmark_json(self@),
    {
        out.push('{');
        push_key(out, "x");
        push_str_chars(out, self.x.as_str());
        out.push(',');
        push_key(out, "y");
        push_str_chars(out, self.y.as_str());
        out.push(',');
        push_key(out, "z");
        push_str_chars(out, self.z.as_str());
        out.push('}');
        proof {
            lemma_fields3("x"@, self@.x, "y"@, self@.y, "z"@, self@.z);
            assert(out@ =~= old(out)@ + landmark_json(self@));
        }
    }

    /// The JSON text transmitted for this landmark: exactly the `x`, `y` and
    /// `z` fields.
    pub fn to_json(&self) -> (r: String)
        ensures
            r@ == landmark_json(self@),
    {
        let mut out: Vec<char> = Vec::new();
        self.emit(&mut out);
        chars_to_string(&out)
    }
}

impl Vector4 {
    /// Appends this row's JSON text to `out`.
    fn emit(&self, out: &mut Vec<char>)
        ensures
            final(out)@ == old(out)@ + vector4_json(self@),
    {
        out.push('[');
        push_str_chars(out, self.x.as_str());
        out.push(',');
        push_str_chars(out, self.y.as_str());
        out.push(',');
        push_str_chars(out, self.z.as_str());
        out.push(',');
        push_str_chars(out, self.w.as_str());
        out.push(']');
        proof {
            lemma_join4(self@.x, self@.y, self@.z, self@.w);
            assert(out@ =~= old(out)@ + vector4_json(self@));
        }
    }

    /// The JSON text transmitted for this row: a 4-element array in column
    /// order.
    pub fn to_json(&self) -> (r: String)
        ensures
            r@ == vector4_json(self@),
    {
        let mut out: Vec<char> = Vec::new();
        self.emit(&mut out);
        chars_to_string(&out)
    }
}

/// Appends the JSON text of the blendshape list to `out`.
fn emit_blendshapes(out: &mut Vec<char>, cats: &Vec<Category>)
    ensures
        final(out)@ == old(out)@ + blendshapes_json(category_views(cats@)),
{
    let ghost cvs = category_views(cats@);
    out.push('[');
    let mut i: usize = 0;
    while i < cats.len()
        invariant
            cvs == category_views(cats@),
            i <= cats@.len(),
            out@ == old(out)@ + seq!['['] + join_comma(categories_rendered(cvs.take(i as int))),
        decreases cats@.len() - i,
    {
        if i > 0 {
            out.push(',');
        }
        let c = &cats[i];
        c.emit(out);
        proof {
            lemma_join_push(
                categories_rendered(cvs.take(i as int)),
                category_json(cvs[i as int]),
            );
            assert(categories_rendered(cvs.take(i + 1)) =~= categories_rendered(
                cvs.take(i as int),
            ).push(category_json(cvs[i as int])));
            assert(out@ =~= old(out)@ + seq!['['] + join_comma(
                categories_rendered(cvs.take(i + 1)),
            ));
        }
        i = i + 1;
    }
    out.push(']');
    proof {
        assert(cvs.take(cats@.len() as int) =~= cvs);
        assert(out@ =~= old(out)@ + blendshapes_json(category_views(cats@)));
    }
}

/// Appends the JSON text of the landmark list to `out`.
fn emit_landmarks(out: &mut Vec<char>, lms: &Vec<Landmark>)
    ensures
        final(out)@ == old(out)@ + landmarks_json(landmark_views(lms@)),
{
    let ghost lvs = landmark_views(lms@);
    out.push('[');
    let mut i: usize = 0;
    while i < lms.len()
        invariant
            lvs == landmark_views(lms@),
            i <= lms@.len(),
            out@ == old(out)@ + seq!['['] + join_comma(landmarks_rendered(lvs.take(i as int))),
        decreases lms@.len() - i,
    {
        if i > 0 {
            out.push(',');
        }
        let l = &lms[i];
        l.emit(out);
        proof {
            lemma_join_push(
                landmarks_rendered(lvs.take(i as int)),
                landmark_json(lvs[i as int]),
            );
            assert(landmarks_rendered(lvs.take(i + 1)) =~= landmarks_rendered(
                lvs.take(i as int),
            ).push(landmark_json(lvs[i as int])));
            assert(out@ =~= old(out)@ + seq!['['] + join_comma(
                landmarks_rendered(lvs.take(i + 1)),
            ));
        }
        i = i + 1;
    }
    out.push(']');
    proof {
        assert(lvs.take(lms@.len() as int) =~= lvs);
        assert(out@ =~= old(out)@ + landmarks_json(landmark_views(lms@)));
    }
}

impl WireData {
    /// Builds the message for one frame.
    pub fn new(payload: FramePayload, blendshapes: Vec<Category>) -> (w: WireData)
        ensures
            w@.payload == payload@,
            w@.blendshapes == category_views(blendshapes@),
    {
        WireData { payload, blendshapes }
    }

    /// The complete JSON text transmitted for this frame. Total: every frame
    /// serializes, whatever its content, including empty lists.
    #[verifier::rlimit(60)]
    pub fn to_json(&self) -> (r: String)
        ensures
            r@ == wire_json(self@),
    {
        let mut out: Vec<char> = Vec::new();
        out.push('{');
        match &self.payload {
            FramePayload::Landmarks(ls) => {
                push_key(&mut out, "landmarks");
                emit_landmarks(&mut out, ls);
                out.push(',');
                push_key(&mut out, "blendshapes");
                emit_blendshapes(&mut out, &self.blendshapes);
                out.push('}');
                proof {
                    lemma_fields2(
                        "landmarks"@,
                        landmarks_json(landmark_views(ls@)),
                        "blendshapes"@,
                        blendshapes_json(category_views(self.blendshapes@)),
                    );
                    assert(out@ =~= wire_json(self@));
                }
            },
            FramePayload::Matrix(m) => {
                push_key(&mut out, "x");
                m.x.emit(&mut out);
                out.push(',');
                push_key(&mut out, "y");
                m.y.emit(&mut out);
                out.push(',');
                push_key(&mut out, "z");
                m.z.emit(&mut out);
                out.push(',');
                push_key(&mut out, "w");
                m.w.emit(&mut out);
                out.push(',');
                push_key(&mut out, "blendshapes");
                emit_blendshapes(&mut out, &self.blendshapes);
                out.push('}');
                proof {
                    lemma_fields5(
                        "x"@,
                        vector4_json(m@.x),
                        "y"@,
                        vector4_json(m@.y),
                        "z"@,
                        vector4_json(m@.z),
                        "w"@,
                        vector4_json(m@.w),
                        "blendshapes"@,
                        blendshapes_json(category_views(self.blendshapes@)),
                    );
                    assert(out@ =~= wire_json(self@));
                }
            },
        }
        chars_to_string(&out)
    }
}

/// The model of a 4x4 row array: row `i`, column `j` is `rows[i][j]`.
pub open spec fn row_views(row: Seq<String>) -> Seq<Seq<char>> {
    Seq::new(row.len(), |i: int| row[i]@)
}

/// The matrix whose rows are the four given rows.
pub open spec fn matrix_of_rows(rows: Seq<Seq<Seq<char>>>) -> TransformationMatrixView {
    TransformationMatrixView {
        x: Vector4View { x: rows[0][0], y: rows[0][1], z: rows[0][2], w: rows[0][3] },
        y: Vector4View { x: rows[1][0], y: rows[1][1], z: rows[1][2], w: rows[1][3] },
        z: Vector4View { x: rows[2][0], y: rows[2][1], z: rows[2][2], w: rows[2][3] },
        w: Vector4View { x: rows[3][0], y: rows[3][1], z: rows[3][2], w: rows[3][3] },
    }
}

/// The models of a rectangular row array.
pub open spec fn rows_views(rows: Seq<Vec<String>>) -> Seq<Seq<Seq<char>>> {
    Seq::new(rows.len(), |i: int| row_views(rows[i]@))
}

impl TransformationMatrix {
    /// Decomposes a 4x4 row array into the four named rows. A non-4x4 input
    /// is a caller error, excluded by precondition.
    pub fn from_rows(rows: &Vec<Vec<String>>) -> (m: TransformationMatrix)
        requires
            rows@.len() == 4,
            forall|i: int| 0 <= i < 4 ==> rows@[i]@.len() == 4,
        ensures
            m@ == matrix_of_rows(rows_views(rows@)),
    {
        let r0 = &rows[0];
        let r1 = &rows[1];
        let r2 = &rows[2];
        let r3 = &rows[3];
        let m = TransformationMatrix {
            x: Vector4 {
                x: r0[0].clone(),
                y: r0[1].clone(),
                z: r0[2].clone(),
                w: r0[3].clone(),
            },
            y: Vector4 {
                x: r1[0].clone(),
                y: r1[1].clone(),
                z: r1[2].clone(),
                w: r1[3].clone(),
            },
            z: Vector4 {
                x: r2[0].clone(),
                y: r2[1].clone(),
                z: r2[2].clone(),
                w: r2[3].clone(),
            },
            w: Vector4 {
                x: r3[0].clone(),
                y: r3[1].clone(),
                z: r3[2].clone(),
                w: r3[3].clone(),
            },
        };
        proof {
            assert(m@ == matrix_of_rows(rows_views(rows@)));
        }
        m
    }

    /// Validates the shape of a row array at the boundary: returns the
    /// decomposed matrix exactly when the input is 4x4, and nothing
    /// otherwise.
    pub fn try_from_rows(rows: &Vec<Vec<String>>) -> (r: Option<TransformationMatrix>)
        ensures
            r is Some <==> (rows@.len() == 4 && forall|i: int|
                0 <= i < 4 ==> rows@[i]@.len() == 4),
            r matches Some(m) ==> m@ == matrix_of_rows(rows_views(rows@)),
    {
        if rows.len() != 4 {
            return None;
        }
        let mut i: usize = 0;
        while i < 4
            invariant
                rows@.len() == 4,
                i <= 4,
                forall|j: int| 0 <= j < i ==> rows@[j]@.len() == 4,
            decreases 4 - i,
        {
            if rows[i].len() != 4 {
                return None;
            }
            i = i + 1;
        }
        Some(Self::from_rows(rows))
    }
}

/// For all categories, the transmitted object holds exactly the `score` and
/// `name` fields, in that order, with `name` the canonical category name.
pub proof fn lemma_category_fields_exact(c: CategoryView)
    ensures
        category_fields(c).len() == 2,
        category_fields(c)[0] == ("score"@, c.score),
        category_fields(c)[1] == ("name"@, string_text(c.category_name)),
{
}

/// The transmitted text of a category depends only on its score and its
/// canonical name: the internal index and display name never reach the wire.
pub proof fn lemma_category_ignores_internal(c1: CategoryView, c2: CategoryView)
    requires
        c1.score == c2.score,
        c1.category_name == c2.category_name,
    ensures
        category_json(c1) == category_json(c2),
{
    assert(category_fields(c1) =~= category_fields(c2));
}

/// For all landmarks, the transmitted object holds exactly the `x`, `y` and
/// `z` fields, in that order.
pub proof fn lemma_landmark_fields_exact(l: LandmarkView)
    ensures
        landmark_fields(l).len() == 3,
        landmark_fields(l)[0] == ("x"@, l.x),
        landmark_fields(l)[1] == ("y"@, l.y),
        landmark_fields(l)[2] == ("z"@, l.z),
{
}

/// The transmitted text of a landmark depends only on its coordinates: the
/// visibility and presence confidences never reach the wire.
pub proof fn lemma_landmark_ignores_confidence(l1: LandmarkView, l2: LandmarkView)
    requires
        l1.x == l2.x,
        l1.y == l2.y,
        l1.z == l2.z,
    ensures
        landmark_json(l1) == landmark_json(l2),
{
    assert(landmark_fields(l1) =~= landmark_fields(l2));
}

/// For every 4x4 row array, the matrix-variant message holds exactly five
/// top-level fields: `x`, `y`, `z` and `w`, each the 4-element array equal to
/// the corresponding input row, flattened beside `blendshapes`.
pub proof fn lemma_matrix_wire_shape(rows: Seq<Seq<Seq<char>>>, bs: Seq<CategoryView>)
    requires
        rows.len() == 4,
        forall|i: int| 0 <= i < 4 ==> rows[i].len() == 4,
    ensures
        ({
            let fs = wire_fields(
                WireDataView {
                    payload: FramePayloadView::Matrix(matrix_of_rows(rows)),
                    blendshapes: bs,
                },
            );
            &&& fs.len() == 5
            &&& fs[0] == ("x"@, array_text(rows[0]))
            &&& fs[1] == ("y"@, array_text(rows[1]))
            &&& fs[2] == ("z"@, array_text(rows[2]))
            &&& fs[3] == ("w"@, array_text(rows[3]))
            &&& fs[4] == ("blendshapes"@, blendshapes_json(bs))
        }),
{
    let m = matrix_of_rows(rows);
    assert(vector4_items(m.x) =~= rows[0]);
    assert(vector4_items(m.y) =~= rows[1]);
    assert(vector4_items(m.z) =~= rows[2]);
    assert(vector4_items(m.w) =~= rows[3]);
}

} // verus!

use vstd::prelude::*;
use crate::ratio::Ratio;
use crate::ndc::{ndc_x, ndc_y, pixel_to_ndc, lemma_ndc_monotone};

verus! {

/// Left edge of the rectangle, in pixels from the window's left edge.
pub const RECT_LEFT: i32 = 10;

/// Top edge of the rectangle, in pixels from the window's top edge.
pub const RECT_TOP: i32 = 5;

/// Right edge of the rectangle, in pixels from the window's left edge.
pub const RECT_RIGHT: i32 = 235;

/// Bottom edge of the rectangle, in pixels from the window's top edge.
pub const RECT_BOTTOM: i32 = 40;

/// Number of vertices in the rectangle's two triangles.
pub const VERTEX_COUNT: i32 = 6;

/// Number of coordinates stored for one vertex.
pub const COMPONENTS_PER_VERTEX: i32 = 2;

/// Size in bytes of one stored coordinate, a 32-bit float.
pub const BYTES_PER_COMPONENT: i32 = 4;

/// How the vertex buffer's memory is bound to the input of the vertex stage.
#[derive(Clone, Copy, Debug, PartialEq, Eq, Structural)]
pub struct VertexLayout {
    /// Index of the attribute that receives the data.
    pub index: u32,
    /// Number of 32-bit float components per vertex.
    pub size: i32,
    /// Whether the components are to be normalized when fetched.
    pub normalized: bool,
    /// Distance in bytes from one vertex to the next.
    pub stride: i32,
    /// Offset in bytes of the first vertex in the buffer.
    pub offset: i32,
}

/// Vertex data ready to be stored in a buffer of the graphics layer.
#[derive(Debug, PartialEq, Eq)]
pub struct Geometry {
    /// The coordinates, vertex after vertex, `x` before `y`.
    pub vertices: Vec<Ratio>,
    /// How the attribute reads them.
    pub layout: VertexLayout,
}

/// The layout of positions stored back to back: attribute 0 reads two
/// floats per vertex, and the next vertex begins where this one ends.
pub open spec fn packed_layout() -> VertexLayout {
    VertexLayout { index: 0, size: 2, normalized: false, stride: 8, offset: 0 }
}

/// The rectangle's top-left corner in a window of the given extent.
pub open spec fn top_left(w: i32, h: i32) -> (Ratio, Ratio) {
    (ndc_x(w, RECT_LEFT), ndc_y(h, RECT_TOP))
}

/// The rectangle's top-right corner in a window of the given extent.
pub open spec fn top_right(w: i32, h: i32) -> (Ratio, Ratio) {
    (ndc_x(w, RECT_RIGHT), ndc_y(h, RECT_TOP))
}

/// The rectangle's bottom-left corner in a window of the given extent.
pub open spec fn bottom_left(w: i32, h: i32) -> (Ratio, Ratio) {
    (ndc_x(w, RECT_LEFT), ndc_y(h, RECT_BOTTOM))
}

/// The rectangle's bottom-right corner in a window of the given extent.
pub open spec fn bottom_right(w: i32, h: i32) -> (Ratio, Ratio) {
    (ndc_x(w, RECT_RIGHT), ndc_y(h, RECT_BOTTOM))
}

/// The rectangle as a list of two triangles that share the diagonal from
/// the top-left to the bottom-right corner: first the triangle above the
/// diagonal, then the one below it, both clockwise on the screen.
pub open spec fn rect_vertices(w: i32, h: i32) -> Seq<Ratio> {
    seq![
        top_left(w, h).0, top_left(w, h).1,
        top_right(w, h).0, top_right(w, h).1,
        bottom_right(w, h).0, bottom_right(w, h).1,
        bottom_right(w, h).0, bottom_right(w, h).1,
        bottom_left(w, h).0, bottom_left(w, h).1,
        top_left(w, h).0, top_left(w, h).1,
    ]
}

/// Builds the rectangle's vertex data for a window of the given extent.
///
/// The rectangle keeps its place and size in pixels, so its device
/// coordinates change with the window.
pub fn gen_vao(win_width: i32, win_height: i32) -> (g: Geometry)
    ensures
        g.vertices@ == rect_vertices(win_width, win_height),
        g.layout == packed_layout(),
{
    let top_left = pixel_to_ndc(win_width, win_height, RECT_LEFT, RECT_TOP);
    let top_right = pixel_to_ndc(win_width, win_height, RECT_RIGHT, RECT_TOP);
    let bottom_left = pixel_to_ndc(win_width, win_height, RECT_LEFT, RECT_BOTTOM);
    let bottom_right = pixel_to_ndc(win_width, win_height, RECT_RIGHT, RECT_BOTTOM);
    let mut vertices: Vec<Ratio> = Vec::with_capacity(12);
    vertices.push(top_left.0);
    vertices.push(top_left.1);
    vertices.push(top_right.0);
    vertices.push(top_right.1);
    vertices.push(bottom_right.0);
    vertices.push(bottom_right.1);
    vertices.push(bottom_right.0);
    vertices.push(bottom_right.1);
    vertices.push(bottom_left.0);
    vertices.push(bottom_left.1);
    vertices.push(top_left.0);
    vertices.push(top_left.1);
    let layout = VertexLayout {
        index: 0,
        size: COMPONENTS_PER_VERTEX,
        normalized: false,
        stride: COMPONENTS_PER_VERTEX * BYTES_PER_COMPONENT,
        offset: 0,
    };
    proof {
        assert(vertices@ =~= rect_vertices(win_width, win_height));
    }
    Geometry { vertices, layout }
}

/// The vertex data holds exactly the vertices that a draw call over the
/// whole buffer reads, and the layout leaves no gap between them.
pub proof fn lemma_geometry_is_packed(w: i32, h: i32)
    ensures
        rect_vertices(w, h).len() == VERTEX_COUNT * COMPONENTS_PER_VERTEX,
        packed_layout().size == COMPONENTS_PER_VERTEX,
        packed_layout().stride == packed_layout().size * BYTES_PER_COMPONENT,
        packed_layout().index == 0,
        packed_layout().offset == 0,
{
}

/// In a window with extent the mapped rectangle keeps its orientation: its
/// left edge lies left of its right edge, and its top edge above its bottom
/// edge, which in device coordinates is the larger `y`.
pub proof fn lemma_rect_orientation(w: i32, h: i32)
    requires
        w > 0,
        h > 0,
    ensures
        top_left(w, h).0.less_than(top_right(w, h).0),
        bottom_left(w, h).1.less_than(top_left(w, h).1),
        top_left(w, h).0 == bottom_left(w, h).0,
        top_right(w, h).0 == bottom_right(w, h).0,
        top_left(w, h).1 == top_right(w, h).1,
        bottom_left(w, h).1 == bottom_right(w, h).1,
{
    lemma_ndc_monotone(w, h, RECT_LEFT, RECT_RIGHT, RECT_TOP, RECT_BOTTOM);
}

/// The vertex data depends on the window's extent alone: the same extent
/// gives the same data.
pub proof fn lemma_rect_vertices_repeatable(w1: i32, h1: i32, w2: i32, h2: i32)
    requires
        w1 == w2,
        h1 == h2,
    ensures
        rect_vertices(w1, h1) == rect_vertices(w2, h2),
{
}

} // verus!

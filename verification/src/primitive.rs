//! The drawing-primitive tree the compositor hands to the rasterizer, and
//! the recursive red/blue fix-up applied to every color in it.
//!
//! The rendering backend consumes colors in (B, G, R, A) order, so every
//! solid color, quad background, border, text or vertex color must have its
//! red and blue components exchanged before rasterization — recursively
//! through every grouped, clipped, translated or cached node.

use vstd::prelude::*;

use crate::color::{spec_adjust_color, Rgba};
use crate::geometry::{Point, Rect};

verus! {

/// A node of the primitive tree, in logical coordinates.
#[derive(Debug, PartialEq)]
pub enum Primitive {
    /// Several primitives drawn in order.
    Group { primitives: Vec<Primitive> },
    /// A primitive clipped to a rectangle.
    Clip { bounds: Rect, content: Box<Primitive> },
    /// A primitive drawn at an offset.
    Translate { translation: Point, content: Box<Primitive> },
    /// A primitive kept across frames.
    Cache { content: Box<Primitive> },
    Text { color: Rgba, content: String, size: i64, position: Point },
    Stroke { color: Rgba, width: i64, path: Vec<Point> },
    Fill { color: Rgba, path: Vec<Point> },
    Quad { bounds: Rect, background: Rgba, border_color: Rgba },
    /// A vector graphic with an optional color overlay.
    Svg { handle: u64, color: Option<Rgba>, bounds: Rect },
    /// A triangle mesh with one color per vertex.
    Mesh { colors: Vec<Rgba> },
    /// A raster image; it carries no color to fix up.
    Image { handle: u64, bounds: Rect },
}

/// Mathematical value of a `Primitive`.
pub enum PrimitiveV {
    Group { primitives: Seq<PrimitiveV> },
    Clip { bounds: Rect, content: Box<PrimitiveV> },
    Translate { translation: Point, content: Box<PrimitiveV> },
    Cache { content: Box<PrimitiveV> },
    Text { color: Rgba, content: Seq<char>, size: i64, position: Point },
    Stroke { color: Rgba, width: i64, path: Seq<Point> },
    Fill { color: Rgba, path: Seq<Point> },
    Quad { bounds: Rect, background: Rgba, border_color: Rgba },
    Svg { handle: u64, color: Option<Rgba>, bounds: Rect },
    Mesh { colors: Seq<Rgba> },
    Image { handle: u64, bounds: Rect },
}

/// Mathematical value of a primitive.
pub open spec fn prim_view(p: Primitive) -> PrimitiveV
    decreases p,
{
    match p {
        Primitive::Group { primitives } => PrimitiveV::Group {
            primitives: prim_views(primitives@),
        },
        Primitive::Clip { bounds, content } => PrimitiveV::Clip {
            bounds,
            content: Box::new(prim_view(*content)),
        },
        Primitive::Translate { translation, content } => PrimitiveV::Translate {
            translation,
            content: Box::new(prim_view(*content)),
        },
        Primitive::Cache { content } => PrimitiveV::Cache {
            content: Box::new(prim_view(*content)),
        },
        Primitive::Text { color, content, size, position } => PrimitiveV::Text {
            color,
            content: content@,
            size,
            position,
        },
        Primitive::Stroke { color, width, path } => PrimitiveV::Stroke {
            color,
            width,
            path: path@,
        },
        Primitive::Fill { color, path } => PrimitiveV::Fill { color, path: path@ },
        Primitive::Quad { bounds, background, border_color } => PrimitiveV::Quad {
            bounds,
            background,
            border_color,
        },
        Primitive::Svg { handle, color, bounds } => PrimitiveV::Svg { handle, color, bounds },
        Primitive::Mesh { colors } => PrimitiveV::Mesh { colors: colors@ },
        Primitive::Image { handle, bounds } => PrimitiveV::Image { handle, bounds },
    }
}

/// Mathematical values of a list of primitives.
pub open spec fn prim_views(s: Seq<Primitive>) -> Seq<PrimitiveV>
    decreases s,
{
    if s.len() == 0 {
        Seq::empty()
    } else {
        seq![prim_view(s[0])] + prim_views(s.subrange(1, s.len() as int))
    }
}

/// The red/blue fix-up over a whole tree: every color swapped, everything
/// else kept.
pub open spec fn spec_adjust_primitive(p: PrimitiveV) -> PrimitiveV
    decreases p,
{
    match p {
        PrimitiveV::Group { primitives } => PrimitiveV::Group {
            primitives: spec_adjust_primitives(primitives),
        },
        PrimitiveV::Clip { bounds, content } => PrimitiveV::Clip {
            bounds,
            content: Box::new(spec_adjust_primitive(*content)),
        },
        PrimitiveV::Translate { translation, content } => PrimitiveV::Translate {
            translation,
            content: Box::new(spec_adjust_primitive(*content)),
        },
        PrimitiveV::Cache { content } => PrimitiveV::Cache {
            content: Box::new(spec_adjust_primitive(*content)),
        },
        PrimitiveV::Text { color, content, size, position } => PrimitiveV::Text {
            color: spec_adjust_color(color),
            content,
            size,
            position,
        },
        PrimitiveV::Stroke { color, width, path } => PrimitiveV::Stroke {
            color: spec_adjust_color(color),
            width,
            path,
        },
        PrimitiveV::Fill { color, path } => PrimitiveV::Fill {
            color: spec_adjust_color(color),
            path,
        },
        PrimitiveV::Quad { bounds, background, border_color } => PrimitiveV::Quad {
            bounds,
            background: spec_adjust_color(background),
            border_color: spec_adjust_color(border_color),
        },
        PrimitiveV::Svg { handle, color, bounds } => PrimitiveV::Svg {
            handle,
            color: match color {
                Some(c) => Some(spec_adjust_color(c)),
                None => None,
            },
            bounds,
        },
        PrimitiveV::Mesh { colors } => PrimitiveV::Mesh {
            colors: colors.map_values(|c: Rgba| spec_adjust_color(c)),
        },
        PrimitiveV::Image { handle, bounds } => PrimitiveV::Image { handle, bounds },
    }
}

/// The fix-up over a list of trees.
pub open spec fn spec_adjust_primitives(s: Seq<PrimitiveV>) -> Seq<PrimitiveV>
    decreases s,
{
    if s.len() == 0 {
        Seq::empty()
    } else {
        seq![spec_adjust_primitive(s[0])] + spec_adjust_primitives(s.subrange(1, s.len() as int))
    }
}

/// Swaps red and blue in every color of the tree and keeps all geometry,
/// text and structure.
#[verifier::loop_isolation(false)]
pub fn adjust_primitive_colors(primitive: Primitive) -> (r: Primitive)
    ensures
        prim_view(r) == spec_adjust_primitive(prim_view(primitive)),
    decreases primitive,
{
    let ghost orig = primitive;
    match primitive {
        Primitive::Group { primitives } => {
            let ghost orig_children = primitives@;
            let mut rest = primitives;
            let mut out: Vec<Primitive> = Vec::new();
            proof {
                assert(prim_views(orig_children.take(0)) =~= Seq::<PrimitiveV>::empty());
                assert(spec_adjust_primitives(Seq::<PrimitiveV>::empty()) =~= Seq::<
                    PrimitiveV,
                >::empty());
                assert(prim_views(out@) =~= Seq::<PrimitiveV>::empty());
            }
            let mut i: usize = 0;
            while rest.len() > 0
                invariant
                    i + rest.len() == orig_children.len(),
                    rest@ == orig_children.skip(i as int),
                    prim_views(out@) == spec_adjust_primitives(prim_views(
                        orig_children.take(i as int),
                    )),
                decreases rest.len(),
            {
                proof {
                    assert(decreases_to!(orig_children => orig_children[i as int]));
                    assert(rest@[0] == orig_children[i as int]);
                }
                let ghost out_before = out@;
                let child = rest.remove(0);
                let adjusted = adjust_primitive_colors(child);
                out.push(adjusted);
                proof {
                    let prefix = orig_children.take(i as int);
                    lemma_prim_views_push(out_before, adjusted);
                    assert(prim_views(out@) == prim_views(out_before) + seq![prim_view(adjusted)]);
                    lemma_adjust_primitives_push(prim_views(prefix), prim_view(child));
                    assert(prim_views(prefix).push(prim_view(child)) =~= prim_views(prefix) + seq![
                        prim_view(child),
                    ]);
                    lemma_prim_views_push(prefix, child);
                    assert(prefix.push(child) =~= orig_children.take(i + 1 as int));
                    assert(rest@ =~= orig_children.skip(i + 1 as int));
                }
                i = i + 1;
            }
            proof {
                assert(orig_children.take(orig_children.len() as int) =~= orig_children);
            }
            Primitive::Group { primitives: out }
        },
        Primitive::Clip { bounds, content } => Primitive::Clip {
            bounds,
            content: Box::new(adjust_primitive_colors(*content)),
        },
        Primitive::Translate { translation, content } => Primitive::Translate {
            translation,
            content: Box::new(adjust_primitive_colors(*content)),
        },
        Primitive::Cache { content } => Primitive::Cache {
            content: Box::new(adjust_primitive_colors(*content)),
        },
        Primitive::Text { color, content, size, position } => Primitive::Text {
            color: crate::color::adjust_color(color),
            content,
            size,
            position,
        },
        Primitive::Stroke { color, width, path } => Primitive::Stroke {
            color: crate::color::adjust_color(color),
            width,
            path,
        },
        Primitive::Fill { color, path } => Primitive::Fill {
            color: crate::color::adjust_color(color),
            path,
        },
        Primitive::Quad { bounds, background, border_color } => Primitive::Quad {
            bounds,
            background: crate::color::adjust_color(background),
            border_color: crate::color::adjust_color(border_color),
        },
        Primitive::Svg { handle, color, bounds } => Primitive::Svg {
            handle,
            color: match color {
                Some(c) => Some(crate::color::adjust_color(c)),
                None => None,
            },
            bounds,
        },
        Primitive::Mesh { colors } => {
            let mut adjusted: Vec<Rgba> = Vec::with_capacity(colors.len());
            let mut i: usize = 0;
            while i < colors.len()
                invariant
                    i <= colors.len(),
                    adjusted@ == colors@.take(i as int).map_values(
                        |c: Rgba| spec_adjust_color(c),
                    ),
                decreases colors.len() - i,
            {
                adjusted.push(crate::color::adjust_color(colors[i]));
                proof {
                    assert(adjusted@ =~= colors@.take(i + 1 as int).map_values(
                        |c: Rgba| spec_adjust_color(c),
                    ));
                }
                i = i + 1;
            }
            proof {
                assert(colors@.take(colors@.len() as int) =~= colors@);
            }
            Primitive::Mesh { colors: adjusted }
        },
        Primitive::Image { handle, bounds } => Primitive::Image { handle, bounds },
    }
}

/// `prim_views` distributes over `push`.
proof fn lemma_prim_views_push(s: Seq<Primitive>, p: Primitive)
    ensures
        prim_views(s.push(p)) == prim_views(s) + seq![prim_view(p)],
    decreases s.len(),
{
    let sp = s.push(p);
    if s.len() == 0 {
        assert(prim_views(Seq::<Primitive>::empty()) == Seq::<PrimitiveV>::empty());
        assert(prim_views(sp) == seq![prim_view(sp[0])] + prim_views(
            sp.subrange(1, sp.len() as int),
        ));
        assert(sp.subrange(1, sp.len() as int) =~= Seq::<Primitive>::empty());
        assert(sp[0] == p);
        assert(prim_views(sp) =~~= prim_views(s) + seq![prim_view(p)]);
    } else {
        let tail = s.subrange(1, s.len() as int);
        assert(sp.subrange(1, sp.len() as int) =~= tail.push(p));
        assert(sp[0] == s[0]);
        lemma_prim_views_push(tail, p);
        assert(prim_views(sp) == seq![prim_view(s[0])] + (prim_views(tail) + seq![prim_view(p)]));
        assert(seq![prim_view(s[0])] + (prim_views(tail) + seq![prim_view(p)]) =~= (seq![
            prim_view(s[0]),
        ] + prim_views(tail)) + seq![prim_view(p)]);
    }
}

/// `spec_adjust_primitives` distributes over `push`.
proof fn lemma_adjust_primitives_push(s: Seq<PrimitiveV>, p: PrimitiveV)
    ensures
        spec_adjust_primitives(s.push(p)) == spec_adjust_primitives(s) + seq![
            spec_adjust_primitive(p),
        ],
    decreases s.len(),
{
    let sp = s.push(p);
    if s.len() == 0 {
        assert(spec_adjust_primitives(Seq::<PrimitiveV>::empty()) == Seq::<PrimitiveV>::empty());
        assert(spec_adjust_primitives(sp) == seq![spec_adjust_primitive(sp[0])]
            + spec_adjust_primitives(sp.subrange(1, sp.len() as int)));
        assert(sp.subrange(1, sp.len() as int) =~= Seq::<PrimitiveV>::empty());
        assert(sp[0] == p);
        assert(spec_adjust_primitives(sp) =~~= spec_adjust_primitives(s) + seq![
            spec_adjust_primitive(p),
        ]);
    } else {
        let tail = s.subrange(1, s.len() as int);
        assert(sp.subrange(1, sp.len() as int) =~= tail.push(p));
        assert(sp[0] == s[0]);
        lemma_adjust_primitives_push(tail, p);
        assert(spec_adjust_primitives(sp) == seq![spec_adjust_primitive(s[0])] + (
        spec_adjust_primitives(tail) + seq![spec_adjust_primitive(p)]));
        assert(seq![spec_adjust_primitive(s[0])] + (spec_adjust_primitives(tail) + seq![
            spec_adjust_primitive(p),
        ]) =~= (seq![spec_adjust_primitive(s[0])] + spec_adjust_primitives(tail)) + seq![
            spec_adjust_primitive(p),
        ]);
    }
}

/// The fix-up is an involution on whole trees: applying it twice returns the
/// original primitive, color for color and node for node.
pub proof fn lemma_adjust_primitive_involution(p: PrimitiveV)
    ensures
        spec_adjust_primitive(spec_adjust_primitive(p)) == p,
    decreases p,
{
    match p {
        PrimitiveV::Group { primitives } => {
            lemma_adjust_primitives_involution(primitives);
        },
        PrimitiveV::Clip { bounds, content } => {
            lemma_adjust_primitive_involution(*content);
        },
        PrimitiveV::Translate { translation, content } => {
            lemma_adjust_primitive_involution(*content);
        },
        PrimitiveV::Cache { content } => {
            lemma_adjust_primitive_involution(*content);
        },
        PrimitiveV::Mesh { colors } => {
            assert(colors.map_values(|c: Rgba| spec_adjust_color(c)).map_values(
                |c: Rgba| spec_adjust_color(c),
            ) =~= colors);
        },
        _ => {},
    }
}

/// The fix-up is an involution on lists of trees.
pub proof fn lemma_adjust_primitives_involution(s: Seq<PrimitiveV>)
    ensures
        spec_adjust_primitives(spec_adjust_primitives(s)) == s,
    decreases s,
{
    if s.len() == 0 {
        assert(spec_adjust_primitives(spec_adjust_primitives(s)) =~= s);
    } else {
        lemma_adjust_primitive_involution(s[0]);
        lemma_adjust_primitives_involution(s.drop_first());
        assert(spec_adjust_primitives(s).drop_first() =~= spec_adjust_primitives(s.drop_first()));
        assert(spec_adjust_primitives(s)[0] == spec_adjust_primitive(s[0]));
        assert(spec_adjust_primitives(spec_adjust_primitives(s)) =~= s);
    }
}

} // verus!

use vstd::prelude::*;
use crate::geom::{Point, Rect};
use crate::text::{label_text, spec_label_text};

verus! {

/// The render command list for one frame with an active selection: the
/// stroked outline, the four dimming quads that cover the overlay outside
/// the selection, and the live size label.
#[derive(Debug, Clone, Copy)]
pub struct FrameCommands {
    /// The normalized selection rectangle, to be stroked.
    pub outline: Rect,
    /// Dimming quad above the selection, flush with the container's top.
    pub cover_top: Rect,
    /// Dimming quad below the selection, flush with the container's bottom.
    pub cover_bottom: Rect,
    /// Dimming quad left of the selection.
    pub cover_left: Rect,
    /// Dimming quad right of the selection.
    pub cover_right: Rect,
    /// Where the size label is anchored: the outline's `min` corner.
    pub label_pos: Point,
    /// The selection's width in pixels, shown in the label.
    pub label_width: u64,
    /// The selection's height in pixels, shown in the label.
    pub label_height: u64,
}

/// The quad between the container's top edge and the selection's top edge,
/// spanning from the container's left edge to the selection's right edge.
pub open spec fn spec_cover_top(outline: Rect, container: Rect) -> Rect {
    Rect { min: container.min, max: Point { x: outline.max.x, y: outline.min.y } }
}

/// The quad between the selection's bottom edge and the container's bottom
/// edge, spanning from the selection's left edge to the container's right edge.
pub open spec fn spec_cover_bottom(outline: Rect, container: Rect) -> Rect {
    Rect { min: Point { x: outline.min.x, y: outline.max.y }, max: container.max }
}

/// The quad left of the selection, from the selection's top edge down to the
/// container's bottom edge.
pub open spec fn spec_cover_left(outline: Rect, container: Rect) -> Rect {
    Rect {
        min: Point { x: container.min.x, y: outline.min.y },
        max: Point { x: outline.min.x, y: container.max.y },
    }
}

/// The quad right of the selection, from the container's top edge down to the
/// selection's bottom edge.
pub open spec fn spec_cover_right(outline: Rect, container: Rect) -> Rect {
    Rect {
        min: Point { x: outline.max.x, y: container.min.y },
        max: Point { x: container.max.x, y: outline.max.y },
    }
}

/// Build the frame's render commands from the raw drag selection and the
/// container (the overlay's full area): normalize the selection, lay the
/// four dimming quads pinwheel-fashion around it, and label it with its
/// pixel size at its `min` corner.
pub fn frame_commands(selection: Rect, container: Rect) -> (f: FrameCommands)
    ensures
        f.outline == Rect::normalized_of(selection.min, selection.max),
        f.cover_top == spec_cover_top(f.outline, container),
        f.cover_bottom == spec_cover_bottom(f.outline, container),
        f.cover_left == spec_cover_left(f.outline, container),
        f.cover_right == spec_cover_right(f.outline, container),
        f.label_pos == f.outline.min,
        f.label_width == f.outline.spec_width(),
        f.label_height == f.outline.spec_height(),
{
    let outline = Rect::from_two_pos(selection.min, selection.max);
    let cover_top = Rect::from_min_max(container.min, Point::new(outline.max.x, outline.min.y));
    let cover_bottom = Rect::from_min_max(Point::new(outline.min.x, outline.max.y), container.max);
    let cover_left = Rect::from_min_max(
        Point::new(container.min.x, outline.min.y),
        Point::new(outline.min.x, container.max.y),
    );
    let cover_right = Rect::from_min_max(
        Point::new(outline.max.x, container.min.y),
        Point::new(container.max.x, outline.max.y),
    );
    let label_width = outline.width() as u64;
    let label_height = outline.height() as u64;
    FrameCommands {
        outline,
        cover_top,
        cover_bottom,
        cover_left,
        cover_right,
        label_pos: outline.min,
        label_width,
        label_height,
    }
}

impl FrameCommands {
    /// The size label's text, for example "200x100".
    pub fn label(&self) -> (s: String)
        ensures
            s@ == spec_label_text(self.label_width as nat, self.label_height as nat),
    {
        label_text(self.label_width, self.label_height)
    }
}

/// The outline lies within the container, corner-wise.
pub open spec fn outline_within(outline: Rect, container: Rect) -> bool {
    &&& container.min.x <= outline.min.x
    &&& container.min.y <= outline.min.y
    &&& outline.max.x <= container.max.x
    &&& outline.max.y <= container.max.y
}

/// The four dimming quads tile the container outside the selection exactly:
/// every point of the container lies either in the normalized selection or
/// in exactly one quad, and never both.
pub proof fn lemma_covers_partition_complement(outline: Rect, container: Rect, x: int, y: int)
    requires
        outline.is_normalized(),
        container.is_normalized(),
        outline_within(outline, container),
        container.spec_contains(x, y),
    ensures
        outline.spec_contains(x, y) || spec_cover_top(outline, container).spec_contains(x, y)
            || spec_cover_bottom(outline, container).spec_contains(x, y) || spec_cover_left(
            outline,
            container,
        ).spec_contains(x, y) || spec_cover_right(outline, container).spec_contains(x, y),
        outline.spec_contains(x, y) ==> !spec_cover_top(outline, container).spec_contains(x, y)
            && !spec_cover_bottom(outline, container).spec_contains(x, y) && !spec_cover_left(
            outline,
            container,
        ).spec_contains(x, y) && !spec_cover_right(outline, container).spec_contains(x, y),
        !(spec_cover_top(outline, container).spec_contains(x, y) && spec_cover_bottom(
            outline,
            container,
        ).spec_contains(x, y)),
        !(spec_cover_top(outline, container).spec_contains(x, y) && spec_cover_left(
            outline,
            container,
        ).spec_contains(x, y)),
        !(spec_cover_top(outline, container).spec_contains(x, y) && spec_cover_right(
            outline,
            container,
        ).spec_contains(x, y)),
        !(spec_cover_bottom(outline, container).spec_contains(x, y) && spec_cover_left(
            outline,
            container,
        ).spec_contains(x, y)),
        !(spec_cover_bottom(outline, container).spec_contains(x, y) && spec_cover_right(
            outline,
            container,
        ).spec_contains(x, y)),
        !(spec_cover_left(outline, container).spec_contains(x, y) && spec_cover_right(
            outline,
            container,
        ).spec_contains(x, y)),
{
}

/// Each dimming quad stays within the container.
pub proof fn lemma_covers_within_container(outline: Rect, container: Rect, x: int, y: int)
    requires
        outline.is_normalized(),
        container.is_normalized(),
        outline_within(outline, container),
    ensures
        spec_cover_top(outline, container).spec_contains(x, y) ==> container.spec_contains(x, y),
        spec_cover_bottom(outline, container).spec_contains(x, y) ==> container.spec_contains(x, y),
        spec_cover_left(outline, container).spec_contains(x, y) ==> container.spec_contains(x, y),
        spec_cover_right(outline, container).spec_contains(x, y) ==> container.spec_contains(x, y),
{
}

} // verus!

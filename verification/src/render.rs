//! What a presentation layer is told of a session: every live entity with
//! its cell and its footprint.

use crate::game::{Game, GameModel};
use crate::grid::Position;
use vstd::prelude::*;

verus! {

/// The footprint of the head, in hundredths of a tile.
pub const HEAD_FOOTPRINT: u32 = 80;

/// The footprint of a trailing segment, in hundredths of a tile.
pub const SEGMENT_FOOTPRINT: u32 = 65;

/// The footprint of food, in hundredths of a tile.
pub const FOOD_FOOTPRINT: u32 = 80;

/// The size of a sprite, in hundredths of a tile.
#[derive(Clone, Copy, Debug, PartialEq, Eq, Structural)]
pub struct Size {
    pub width: u32,
    pub height: u32,
}

/// What kind of entity is drawn.
#[derive(Clone, Copy, Debug, PartialEq, Eq, Structural)]
pub enum EntityKind {
    Head,
    Segment,
    Food,
}

/// One entity as the presentation layer sees it.
#[derive(Clone, Copy, Debug, PartialEq, Eq, Structural)]
pub struct RenderItem {
    pub kind: EntityKind,
    pub position: Position,
    pub size: Size,
}

/// The footprint of each kind of entity: a square of 0.8 tiles for the head
/// and for food, of 0.65 tiles for a trailing segment.
pub open spec fn footprint_spec(kind: EntityKind) -> Size {
    match kind {
        EntityKind::Head => Size { width: 80, height: 80 },
        EntityKind::Segment => Size { width: 65, height: 65 },
        EntityKind::Food => Size { width: 80, height: 80 },
    }
}

/// The entity of the given kind on the given cell.
pub open spec fn item_spec(kind: EntityKind, position: Position) -> RenderItem {
    RenderItem { kind, position, size: footprint_spec(kind) }
}

/// The kind of the snake's segment of rank `i`.
pub open spec fn kind_of_rank(i: int) -> EntityKind {
    if i == 0 {
        EntityKind::Head
    } else {
        EntityKind::Segment
    }
}

/// The snake's part of the feed: its segments in order, head first.
pub open spec fn snake_items(cells: Seq<Position>) -> Seq<RenderItem> {
    Seq::new(cells.len(), |i: int| item_spec(kind_of_rank(i), cells[i]))
}

/// The whole feed: the snake's segments in order, then the food if there is
/// any.
pub open spec fn render_spec(g: GameModel) -> Seq<RenderItem> {
    match g.food {
        Some(food) => snake_items(g.cells).push(item_spec(EntityKind::Food, food.position)),
        None => snake_items(g.cells),
    }
}

impl Size {
    /// Creates a square sprite.
    pub fn square(dim: u32) -> (r: Size)
        ensures
            r == (Size { width: dim, height: dim }),
    {
        Size { width: dim, height: dim }
    }
}

impl EntityKind {
    /// The footprint of an entity of this kind.
    pub fn footprint(self) -> (r: Size)
        ensures
            r == footprint_spec(self),
    {
        match self {
            EntityKind::Head => Size::square(HEAD_FOOTPRINT),
            EntityKind::Segment => Size::square(SEGMENT_FOOTPRINT),
            EntityKind::Food => Size::square(FOOD_FOOTPRINT),
        }
    }
}

impl Game {
    /// Every live entity with its cell and footprint: the head, the trailing
    /// segments in order, then the food.
    pub fn render_feed(&self) -> (r: Vec<RenderItem>)
        ensures
            r@ == render_spec(self@),
    {
        let mut items: Vec<RenderItem> = Vec::new();
        let n = self.snake.segments.len();
        let mut i: usize = 0;
        while i < n
            invariant
                n == self.snake.segments@.len(),
                i <= n,
                items@ == snake_items(self@.cells).take(i as int),
            decreases n - i,
        {
            let kind = if i == 0 {
                EntityKind::Head
            } else {
                EntityKind::Segment
            };
            items.push(
                RenderItem { kind, position: self.snake.segments[i], size: kind.footprint() },
            );
            proof {
                assert(items@ =~= snake_items(self@.cells).take(i + 1));
            }
            i += 1;
        }
        proof {
            assert(items@ =~= snake_items(self@.cells));
        }
        if let Some(food) = self.food {
            items.push(
                RenderItem {
                    kind: EntityKind::Food,
                    position: food.position,
                    size: EntityKind::Food.footprint(),
                },
            );
        }
        items
    }
}

/// The feed holds one item for each segment and one for the food, and the
/// item of rank `i` shows the segment of rank `i`.
pub proof fn lemma_feed_shows_every_entity(g: GameModel)
    ensures
        render_spec(g).len() == g.cells.len() + (if g.food is Some {
            1int
        } else {
            0int
        }),
        forall|i: int|
            0 <= i < g.cells.len() ==> (#[trigger] render_spec(g)[i]).position == g.cells[i],
        g.food is Some ==> render_spec(g).last().position == g.food.unwrap().position,
{
}

} // verus!

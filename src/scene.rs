use vstd::prelude::*;
use crate::animation::{AnimationIndices, SpriteAnimation};
use crate::ground::{ground_tiles, spec_ground_y, spec_num_tiles, spec_tile_x, TILE_HEIGHT, TILE_WIDTH};
use crate::timer::RepeatingTimer;

verus! {

/// Title of the primary window.
pub const WINDOW_TITLE: &'static str = "Fullscreen Test";

/// Sprite strip of the character: eight frames side by side.
pub const DOG_TEXTURE: &'static str = "images/dog_idle_strip8.png";

/// Image of one ground tile.
pub const GROUND_TEXTURE: &'static str = "images/ground.png";

/// First and last frame of the character's idle cycle.
pub const DOG_FIRST_FRAME: usize = 1;
pub const DOG_LAST_FRAME: usize = 7;

/// Interval between two frames of the character, in milliseconds.
pub const DOG_FRAME_MILLIS: u64 = 100;

/// How the primary window is presented.
#[derive(Clone, Copy, Debug, PartialEq, Eq)]
pub struct WindowConfig {
    pub title: &'static str,
    pub fullscreen: bool,
}

/// The primary window: titled, fullscreen, at the display's own resolution.
pub fn window_config() -> (r: WindowConfig)
    ensures
        r.title == WINDOW_TITLE,
        r.fullscreen,
{
    WindowConfig { title: WINDOW_TITLE, fullscreen: true }
}

/// Position (in half pixels) and uniform scale of an entity.
#[derive(Clone, Copy, Debug, PartialEq, Eq, Structural)]
pub struct Transform {
    pub x: i64,
    pub y: i64,
    pub scale: u32,
}

impl Transform {
    pub open spec fn spec_at(x: i64, y: i64) -> Transform {
        Transform { x, y, scale: 1 }
    }

    pub open spec fn spec_scaled(scale: u32) -> Transform {
        Transform { x: 0, y: 0, scale }
    }

    /// Unscaled, at `(x, y)`.
    pub fn at(x: i64, y: i64) -> (r: Transform)
        ensures
            r == Transform::spec_at(x, y),
    {
        Transform { x, y, scale: 1 }
    }

    /// At the origin, scaled by `scale`.
    pub fn scaled(scale: u32) -> (r: Transform)
        ensures
            r == Transform::spec_scaled(scale),
    {
        Transform { x: 0, y: 0, scale }
    }
}

/// How an image is cut into a grid of equally sized frames, numbered from
/// zero row by row.
#[derive(Clone, Copy, Debug, PartialEq, Eq, Structural)]
pub struct GridLayout {
    pub cell_width: u32,
    pub cell_height: u32,
    pub columns: u32,
    pub rows: u32,
}

impl GridLayout {
    pub open spec fn frame_count(self) -> nat {
        (self.columns * self.rows) as nat
    }

    pub open spec fn spec_dog() -> GridLayout {
        GridLayout { cell_width: 60, cell_height: 60, columns: 8, rows: 1 }
    }

    pub open spec fn spec_ground() -> GridLayout {
        GridLayout { cell_width: TILE_WIDTH, cell_height: TILE_HEIGHT, columns: 1, rows: 1 }
    }

    /// Eight 60 by 60 frames in one row.
    pub fn dog() -> (r: GridLayout)
        ensures
            r == GridLayout::spec_dog(),
            r.frame_count() == 8,
    {
        GridLayout { cell_width: 60, cell_height: 60, columns: 8, rows: 1 }
    }

    /// The whole 288 by 24 image as a single frame.
    pub fn ground() -> (r: GridLayout)
        ensures
            r == GridLayout::spec_ground(),
            r.frame_count() == 1,
    {
        GridLayout { cell_width: TILE_WIDTH, cell_height: TILE_HEIGHT, columns: 1, rows: 1 }
    }
}

/// Marks the entity that the player controls.
#[derive(Clone, Copy, Debug, PartialEq, Eq, Structural)]
pub struct Player;

/// What a sprite draws: a texture handle, a layout handle and where it stands.
#[derive(Clone, Copy, Debug, PartialEq, Eq, Structural)]
pub struct Sprite {
    pub texture: usize,
    pub layout: usize,
    pub transform: Transform,
}

/// One entity of the scene with its components.
#[derive(Clone, Copy, Debug, PartialEq, Eq, Structural)]
pub enum Entity {
    /// A 2D camera with the default projection.
    Camera,
    /// A sprite that always shows frame `index` of its layout.
    Tile { sprite: Sprite, index: usize },
    /// A sprite whose shown frame is driven by its animation.
    Animated { sprite: Sprite, animation: SpriteAnimation },
    /// The player marker with its transform.
    Player { player: Player, transform: Transform },
}

impl Entity {
    pub open spec fn wf(self) -> bool {
        match self {
            Entity::Animated { animation, .. } => animation.wf(),
            _ => true,
        }
    }

    /// The entity after one frame of `delta` nanoseconds.
    pub open spec fn animated(self, delta: nat) -> Entity {
        match self {
            Entity::Animated { sprite, animation } => Entity::Animated {
                sprite,
                animation: SpriteAnimation {
                    indices: animation.indices,
                    timer: animation.timer.ticked(delta),
                    index: if animation.timer.elapsed + delta >= animation.timer.duration {
                        animation.indices.spec_next(animation.index as int) as usize
                    } else {
                        animation.index
                    },
                },
            },
            _ => self,
        }
    }

    pub open spec fn is_ground_tile(self) -> bool {
        self is Tile
    }
}

/// The character as it is spawned, drawing texture `texture` with layout
/// `layout`.
pub open spec fn spec_dog(texture: usize, layout: usize) -> Entity {
    Entity::Animated {
        sprite: Sprite { texture, layout, transform: Transform::spec_scaled(2) },
        animation: SpriteAnimation {
            indices: AnimationIndices { first: DOG_FIRST_FRAME, last: DOG_LAST_FRAME },
            timer: RepeatingTimer { duration: 100_000_000, elapsed: 0, times_finished_this_tick: 0 },
            index: DOG_FIRST_FRAME,
        },
    }
}

/// Tile `i` of the `n` ground tiles for a window `height` pixels high.
pub open spec fn spec_ground_tile(texture: usize, layout: usize, i: int, n: int, height: int) -> Entity {
    Entity::Tile {
        sprite: Sprite {
            texture,
            layout,
            transform: Transform::spec_at(spec_tile_x(i, n) as i64, spec_ground_y(height) as i64),
        },
        index: 0,
    }
}

/// The entities that scene initialisation spawns, in order: the camera, the
/// character, then the ground tiles from left to right. `textures` and
/// `layouts` are the handles the scene's first texture and layout receive.
pub open spec fn startup_entities(textures: usize, layouts: usize, width: nat, height: int) -> Seq<Entity> {
    let n = spec_num_tiles(width);
    Seq::new(
        n + 2,
        |i: int|
            if i == 0 {
                Entity::Camera
            } else if i == 1 {
                spec_dog(textures, layouts)
            } else {
                spec_ground_tile((textures + 1) as usize, (layouts + 1) as usize, i - 2, n as int, height)
            },
    )
}

/// The entity that player spawning adds: a marker at the origin.
pub open spec fn spec_player() -> Entity {
    Entity::Player { player: Player, transform: Transform::spec_at(0, 0) }
}

/// The scene: requested texture paths and registered layouts, each addressed
/// by its position as a handle, and the spawned entities by id.
pub struct World {
    pub textures: Vec<&'static str>,
    pub layouts: Vec<GridLayout>,
    pub entities: Vec<Entity>,
}

impl World {
    /// `e` is well formed and its sprite, if any, names a texture and a layout
    /// of this world.
    pub open spec fn admits(&self, e: Entity) -> bool {
        e.wf() && match e {
            Entity::Tile { sprite, .. } => sprite.texture < self.textures@.len()
                && sprite.layout < self.layouts@.len(),
            Entity::Animated { sprite, .. } => sprite.texture < self.textures@.len()
                && sprite.layout < self.layouts@.len(),
            _ => true,
        }
    }

    pub open spec fn wf(&self) -> bool {
        forall|i: int| 0 <= i < self.entities@.len() ==> #[trigger] self.admits(self.entities@[i])
    }

    /// An empty scene.
    pub fn new() -> (r: World)
        ensures
            r.wf(),
            r.textures@.len() == 0,
            r.layouts@.len() == 0,
            r.entities@.len() == 0,
    {
        World { textures: Vec::new(), layouts: Vec::new(), entities: Vec::new() }
    }

    pub fn entity_count(&self) -> (r: usize)
        ensures
            r == self.entities@.len(),
    {
        self.entities.len()
    }

    /// Requests the image at `path`; its handle is returned.
    pub fn load_texture(&mut self, path: &'static str) -> (r: usize)
        requires
            old(self).wf(),
        ensures
            final(self).wf(),
            r == old(self).textures@.len(),
            final(self).textures@ == old(self).textures@.push(path),
            final(self).layouts@ == old(self).layouts@,
            final(self).entities@ == old(self).entities@,
    {
        let r = self.textures.len();
        self.textures.push(path);
        assert(forall|i: int| 0 <= i < self.entities@.len() ==> old(self).admits(#[trigger] self.entities@[i]));
        r
    }

    /// Registers `layout`; its handle is returned.
    pub fn add_layout(&mut self, layout: GridLayout) -> (r: usize)
        requires
            old(self).wf(),
        ensures
            final(self).wf(),
            r == old(self).layouts@.len(),
            final(self).layouts@ == old(self).layouts@.push(layout),
            final(self).textures@ == old(self).textures@,
            final(self).entities@ == old(self).entities@,
    {
        let r = self.layouts.len();
        self.layouts.push(layout);
        assert(forall|i: int| 0 <= i < self.entities@.len() ==> old(self).admits(#[trigger] self.entities@[i]));
        r
    }

    /// Adds `e` to the scene; its id is returned.
    pub fn spawn(&mut self, e: Entity) -> (r: usize)
        requires
            old(self).wf(),
            old(self).admits(e),
        ensures
            final(self).wf(),
            r == old(self).entities@.len(),
            final(self).entities@ == old(self).entities@.push(e),
            final(self).textures@ == old(self).textures@,
            final(self).layouts@ == old(self).layouts@,
    {
        let r = self.entities.len();
        self.entities.push(e);
        assert(forall|i: int| 0 <= i < old(self).entities@.len() ==> old(self).admits(#[trigger] self.entities@[i]));
        assert(self.admits(self.entities@[r as int]));
        r
    }

    /// Scene initialisation for a window `width` by `height` pixels: loads the
    /// character's and the ground's images, registers their layouts, and
    /// spawns the camera, the character and one row of ground tiles.
    pub fn setup(&mut self, width: u32, height: u32)
        requires
            old(self).wf(),
        ensures
            final(self).wf(),
            final(self).textures@ == old(self).textures@.push(DOG_TEXTURE).push(GROUND_TEXTURE),
            final(self).layouts@ == old(self).layouts@.push(GridLayout::spec_dog()).push(
                GridLayout::spec_ground(),
            ),
            final(self).entities@ == old(self).entities@ + startup_entities(
                old(self).textures@.len() as usize,
                old(self).layouts@.len() as usize,
                width as nat,
                height as int,
            ),
    {
        let ghost start = self.entities@;
        let dog_texture = self.load_texture(DOG_TEXTURE);
        let dog_layout = self.add_layout(GridLayout::dog());
        let indices = AnimationIndices::new(DOG_FIRST_FRAME, DOG_LAST_FRAME);
        let ground_texture = self.load_texture(GROUND_TEXTURE);
        let ground_layout = self.add_layout(GridLayout::ground());

        self.spawn(Entity::Camera);
        let animation = SpriteAnimation::new(indices, RepeatingTimer::from_millis(DOG_FRAME_MILLIS));
        self.spawn(
            Entity::Animated {
                sprite: Sprite { texture: dog_texture, layout: dog_layout, transform: Transform::scaled(2) },
                animation,
            },
        );

        let tiles = ground_tiles(width, height);
        let ghost expected = startup_entities(dog_texture, dog_layout, width as nat, height as int);
        let ghost n = tiles@.len();
        let mut i: usize = 0;
        while i < tiles.len()
            invariant
                self.wf(),
                n == tiles@.len(),
                n == spec_num_tiles(width as nat),
                forall|k: int|
                    0 <= k < n ==> tiles@[k].x == spec_tile_x(k, n as int) && tiles@[k].y
                        == spec_ground_y(height as int),
                ground_texture == dog_texture + 1,
                ground_layout == dog_layout + 1,
                ground_texture < self.textures@.len(),
                ground_layout < self.layouts@.len(),
                self.textures@ == old(self).textures@.push(DOG_TEXTURE).push(GROUND_TEXTURE),
                self.layouts@ == old(self).layouts@.push(GridLayout::spec_dog()).push(
                    GridLayout::spec_ground(),
                ),
                expected == startup_entities(dog_texture, dog_layout, width as nat, height as int),
                i <= n,
                self.entities@ == start + expected.subrange(0, i + 2),
            decreases n - i,
        {
            let t = tiles[i];
            assert(t.x == spec_tile_x(i as int, n as int) && t.y == spec_ground_y(height as int));
            assert(expected[i + 2] == spec_ground_tile(ground_texture, ground_layout, i as int, n as int, height as int));
            self.spawn(
                Entity::Tile {
                    sprite: Sprite { texture: ground_texture, layout: ground_layout, transform: Transform::at(t.x, t.y) },
                    index: 0,
                },
            );
            assert(self.entities@.last() == expected[i + 2]);
            assert(expected.subrange(0, i + 3) == expected.subrange(0, i + 2).push(expected[i + 2]));
            i = i + 1;
        }
        assert(expected.subrange(0, n + 2int) == expected);
    }

    /// Player spawning: adds the player marker at the origin.
    pub fn spawn_player(&mut self)
        requires
            old(self).wf(),
        ensures
            final(self).wf(),
            final(self).entities@ == old(self).entities@.push(spec_player()),
            final(self).textures@ == old(self).textures@,
            final(self).layouts@ == old(self).layouts@,
    {
        self.spawn(Entity::Player { player: Player, transform: Transform::at(0, 0) });
    }

    /// One frame of `delta` nanoseconds: every animated entity advances its
    /// timer and, on the tick that completes its interval, its frame.
    pub fn animate_sprite(&mut self, delta: u64)
        requires
            old(self).wf(),
        ensures
            final(self).wf(),
            final(self).textures@ == old(self).textures@,
            final(self).layouts@ == old(self).layouts@,
            final(self).entities@.len() == old(self).entities@.len(),
            forall|i: int|
                0 <= i < old(self).entities@.len() ==> final(self).entities@[i]
                    == #[trigger] old(self).entities@[i].animated(delta as nat),
    {
        let mut i: usize = 0;
        while i < self.entities.len()
            invariant
                self.wf(),
                self.textures@ == old(self).textures@,
                self.layouts@ == old(self).layouts@,
                self.entities@.len() == old(self).entities@.len(),
                i <= self.entities@.len(),
                forall|k: int| 0 <= k < i ==> self.entities@[k] == #[trigger] old(self).entities@[k].animated(delta as nat),
                forall|k: int| i <= k < self.entities@.len() ==> self.entities@[k] == old(self).entities@[k],
            decreases self.entities@.len() - i,
        {
            let e = self.entities[i];
            let ghost w = *self;
            assert(w.admits(w.entities@[i as int]));
            match e {
                Entity::Animated { sprite, animation } => {
                    let mut a = animation;
                    a.animate(delta);
                    self.entities.set(i, Entity::Animated { sprite, animation: a });
                    assert forall|k: int| 0 <= k < self.entities@.len() implies #[trigger] self.admits(
                        self.entities@[k],
                    ) by {
                        if k != i {
                            assert(w.admits(w.entities@[k]));
                        }
                    }
                },
                _ => {},
            }
            i = i + 1;
        }
    }
}

/// Scene initialisation run once on a scene adds exactly one camera, one
/// animated character and one ground tile per column of the row, so
/// `num_tiles + 2` entities; player spawning after it adds exactly one more,
/// which is no sprite.
pub proof fn lemma_startup_entity_count(
    start: Seq<Entity>,
    after_setup: Seq<Entity>,
    after_player: Seq<Entity>,
    textures: usize,
    layouts: usize,
    width: nat,
    height: int,
)
    requires
        after_setup == start + startup_entities(textures, layouts, width, height),
        after_player == after_setup.push(spec_player()),
    ensures
        after_setup.len() == start.len() + spec_num_tiles(width) + 2,
        after_player.len() == start.len() + spec_num_tiles(width) + 3,
        after_setup[start.len() as int] == Entity::Camera,
        after_setup[start.len() + 1int] is Animated,
        forall|i: int|
            start.len() + 2 <= i < after_setup.len() ==> #[trigger] after_setup[i] is Tile,
        !(after_player.last() is Tile) && !(after_player.last() is Animated),
{
}

} // verus!

//! The tile map and the player.
use crate::input::{InputManager, Key};
use crate::math::{Vec2, WORLD_UNIT};
use crate::renderer::Quad;
use crate::texture::{default_texture, SubTexture, Texture, UvRect, DEFAULT_ATLAS_SIZE};
use std::collections::BTreeMap;
use std::rc::Rc;
use vstd::prelude::*;

verus! {

/// Distance, in fixed-point steps, that one call of `Player::handle_input`
/// moves the player along x.
pub const MOVE_STEP: i64 = 1;

/// An axis-aligned box that other objects collide with.
#[derive(Clone, Copy, Debug, PartialEq, Eq, Structural)]
pub struct Aabb {
    pub min: Vec2,
    pub max: Vec2,
}

/// A single cell of a `TileMap`.
pub struct Tile {
    pub name: &'static str,
    /// Sprite region, shared with the other tiles that show it.
    pub image: Rc<SubTexture>,
    pub collider: Option<Aabb>,
}

impl Tile {
    /// A tile showing the region `uv` of the default atlas, with no collider.
    pub fn new_with_coords(name: &'static str, uv: UvRect) -> (r: Tile)
        ensures
            r.name == name,
            *r.image == (SubTexture { texture: default_texture(), region: uv }),
            r.collider is None,
    {
        Tile {
            name,
            image: Rc::new(SubTexture::new_with_coords(Texture::new(), uv)),
            collider: None,
        }
    }

    /// A tile showing the shared region `image`, with no collider.
    pub fn new_from_subtexture(name: &'static str, image: Rc<SubTexture>) -> (r: Tile)
        ensures
            r.name == name,
            r.image == image,
            r.collider is None,
    {
        Tile { name, image, collider: None }
    }
}

impl Default for Tile {
    /// An unnamed tile showing the whole default atlas, with no collider.
    fn default() -> (r: Tile)
        ensures
            r.name@ == "Unknown Tile"@,
            *r.image == (SubTexture {
                texture: default_texture(),
                region: UvRect { x: 0, y: 0, width: DEFAULT_ATLAS_SIZE, height: DEFAULT_ATLAS_SIZE },
            }),
            r.collider is None,
    {
        Tile { name: "Unknown Tile", image: Rc::new(SubTexture::new()), collider: None }
    }
}

/// A sparse grid of tiles; a cell is keyed by its flattened index, and an
/// absent key is an empty cell.
pub struct TileMap {
    pub width: u32,
    pub height: u32,
    pub tiles: BTreeMap<u32, Tile>,
}

/// How the player is shown.
#[derive(Clone, Copy, Debug, PartialEq, Eq, Structural, PartialOrd, Ord, Hash)]
pub enum PlayerState {
    /// Standing, facing right.
    Idle,
    /// Standing, facing left.
    IdleLeft,
    /// In the air, facing right.
    Jumping,
    /// In the air, facing left.
    JumpingLeft,
}

/// Key of a state in the player's sprite table.
pub open spec fn state_code(s: PlayerState) -> u8 {
    match s {
        PlayerState::Idle => 0,
        PlayerState::IdleLeft => 1,
        PlayerState::Jumping => 2,
        PlayerState::JumpingLeft => 3,
    }
}

/// The state that the two motion flags determine.
pub open spec fn state_for(is_jumping: bool, is_backward: bool) -> PlayerState {
    if is_jumping {
        if is_backward {
            PlayerState::JumpingLeft
        } else {
            PlayerState::Jumping
        }
    } else {
        if is_backward {
            PlayerState::IdleLeft
        } else {
            PlayerState::Idle
        }
    }
}

impl PlayerState {
    pub fn code(&self) -> (r: u8)
        ensures
            r == state_code(*self),
    {
        match self {
            PlayerState::Idle => 0,
            PlayerState::IdleLeft => 1,
            PlayerState::Jumping => 2,
            PlayerState::JumpingLeft => 3,
        }
    }

    /// The state for the given flags: jumping or idle, facing left when
    /// `is_backward`.
    pub fn from_flags(is_jumping: bool, is_backward: bool) -> (r: PlayerState)
        ensures
            r == state_for(is_jumping, is_backward),
    {
        if is_jumping {
            if is_backward {
                PlayerState::JumpingLeft
            } else {
                PlayerState::Jumping
            }
        } else {
            if is_backward {
                PlayerState::IdleLeft
            } else {
                PlayerState::Idle
            }
        }
    }
}

/// The state follows the flags in each of the four cases.
pub proof fn state_follows_flags()
    ensures
        state_for(false, false) == PlayerState::Idle,
        state_for(true, false) == PlayerState::Jumping,
        state_for(false, true) == PlayerState::IdleLeft,
        state_for(true, true) == PlayerState::JumpingLeft,
{
}

/// Net horizontal input: right (`D`) counts one, left (`A`) minus one.
pub open spec fn horizontal_axis(pressed: Set<Key>) -> int {
    (if pressed.contains(Key::D) {
        1int
    } else {
        0
    }) - (if pressed.contains(Key::A) {
        1int
    } else {
        0
    })
}

/// Holding `D` alone moves the player right by one step per call; holding
/// `A` and `D` together does not move it.
pub proof fn right_key_moves_right(pressed: Set<Key>)
    ensures
        pressed.contains(Key::D) && !pressed.contains(Key::A) ==> horizontal_axis(pressed)
            * MOVE_STEP == MOVE_STEP,
        pressed.contains(Key::D) && pressed.contains(Key::A) ==> horizontal_axis(pressed)
            * MOVE_STEP == 0,
{
}

/// `p` moved at speed `v` for `dt` ticks.
fn advance(p: i64, v: i64, dt: i64) -> (r: i64)
    requires
        i64::MIN <= p + v * dt <= i64::MAX,
    ensures
        r == p + v * dt,
{
    proof {
        assert(-0x4000_0000_0000_0000_0000_0000_0000_0000 <= (v as int) * (dt as int)
            <= 0x4000_0000_0000_0000_0000_0000_0000_0000) by (nonlinear_arith)
            requires
                i64::MIN <= v <= i64::MAX,
                i64::MIN <= dt <= i64::MAX,
        ;
    }
    let moved = (p as i128) + (v as i128) * (dt as i128);
    moved as i64
}

/// The sprite of each player state. There is always one for `Idle`.
pub struct SpriteTable {
    /// Keyed by `state_code`.
    sprites: BTreeMap<u8, SubTexture>,
}

impl View for SpriteTable {
    type V = Map<PlayerState, SubTexture>;

    closed spec fn view(&self) -> Map<PlayerState, SubTexture> {
        Map::new(
            |s: PlayerState| self.sprites@.contains_key(state_code(s)),
            |s: PlayerState| self.sprites@[state_code(s)],
        )
    }
}

/// The sprite of `state`, or the `Idle` sprite where `state` has none.
pub open spec fn sprite_for(sprites: Map<PlayerState, SubTexture>, state: PlayerState) -> SubTexture {
    if sprites.contains_key(state) {
        sprites[state]
    } else {
        sprites[PlayerState::Idle]
    }
}

impl SpriteTable {
    #[verifier::type_invariant]
    closed spec fn has_idle(self) -> bool {
        self.sprites@.contains_key(state_code(PlayerState::Idle))
    }

    /// A table with only the `Idle` sprite.
    pub fn new(idle: SubTexture) -> (r: SpriteTable)
        ensures
            r@ == map![PlayerState::Idle => idle],
    {
        broadcast use vstd::std_specs::btree::group_btree_axioms;
        broadcast use vstd::laws_cmp::group_laws_cmp;

        let mut sprites = BTreeMap::new();
        sprites.insert(PlayerState::Idle.code(), idle);
        let r = SpriteTable { sprites };
        assert(r@ =~= map![PlayerState::Idle => idle]);
        r
    }

    /// Binds `sprite` to `state`, in place of any sprite it had.
    pub fn insert(&mut self, state: PlayerState, sprite: SubTexture)
        ensures
            final(self)@ == old(self)@.insert(state, sprite),
    {
        broadcast use vstd::std_specs::btree::group_btree_axioms;
        broadcast use vstd::laws_cmp::group_laws_cmp;

        proof {
            use_type_invariant(&*self);
        }
        let ghost before = self@;
        let mut sprites = self.sprites.clone();
        sprites.insert(state.code(), sprite);
        *self = SpriteTable { sprites };
        assert(self@ =~= before.insert(state, sprite));
    }

    /// The sprite of `state`, or the `Idle` sprite where `state` has none.
    pub fn get(&self, state: PlayerState) -> (r: &SubTexture)
        ensures
            self@.contains_key(PlayerState::Idle),
            *r == sprite_for(self@, state),
    {
        broadcast use vstd::std_specs::btree::group_btree_axioms;
        broadcast use vstd::laws_cmp::group_laws_cmp;

        proof {
            use_type_invariant(self);
        }
        match self.sprites.get(&state.code()) {
            Some(sprite) => sprite,
            None => self.sprites.get(&PlayerState::Idle.code()).unwrap(),
        }
    }
}

/// The main character.
pub struct Player {
    state: PlayerState,
    position: Vec2,
    velocity: Vec2,
    is_grounded: bool,
    is_backward: bool,
    is_jumping: bool,
    sprites: SpriteTable,
}

/// What a `Player` holds.
pub struct PlayerView {
    pub state: PlayerState,
    pub position: Vec2,
    pub velocity: Vec2,
    pub is_grounded: bool,
    pub is_backward: bool,
    pub is_jumping: bool,
    pub sprites: Map<PlayerState, SubTexture>,
}

impl View for Player {
    type V = PlayerView;

    closed spec fn view(&self) -> PlayerView {
        PlayerView {
            state: self.state,
            position: self.position,
            velocity: self.velocity,
            is_grounded: self.is_grounded,
            is_backward: self.is_backward,
            is_jumping: self.is_jumping,
            sprites: self.sprites@,
        }
    }
}

/// The state is the one that the flags determine.
pub open spec fn state_is_current(p: PlayerView) -> bool {
    p.state == state_for(p.is_jumping, p.is_backward)
}

/// Sprites of a new player: standing, facing right and facing left.
pub open spec fn default_sprites() -> Map<PlayerState, SubTexture> {
    map![
        PlayerState::Idle => SubTexture {
            texture: default_texture(),
            region: UvRect { x: 6, y: 60, width: 100, height: 200 },
        },
        PlayerState::IdleLeft => SubTexture {
            texture: default_texture(),
            region: UvRect { x: 60, y: 6, width: 100, height: 200 },
        },
    ]
}

impl Player {
    /// A player at rest at the origin, standing, with the default sprites.
    pub fn new() -> (r: Player)
        ensures
            r@.state == PlayerState::Idle,
            r@.position == (Vec2 { x: 0, y: 0 }),
            r@.velocity == (Vec2 { x: 0, y: 0 }),
            !r@.is_grounded,
            !r@.is_backward,
            !r@.is_jumping,
            r@.sprites == default_sprites(),
            state_is_current(r@),
    {
        let texture = Texture::new();
        let mut sprites = SpriteTable::new(
            SubTexture::new_with_coords(texture, UvRect::new(6, 60, 100, 200)),
        );
        sprites.insert(
            PlayerState::IdleLeft,
            SubTexture::new_with_coords(texture, UvRect::new(60, 6, 100, 200)),
        );
        let r = Player {
            state: PlayerState::Idle,
            position: Vec2::zeros(),
            velocity: Vec2::zeros(),
            is_grounded: false,
            is_backward: false,
            is_jumping: false,
            sprites,
        };
        assert(r@.sprites =~= default_sprites());
        r
    }

    /// Moves the player along x by `MOVE_STEP` for each of `D` and `A`
    /// held down (right and left), then recomputes the state.
    pub fn handle_input(&mut self, input: &InputManager)
        requires
            i64::MIN < old(self)@.position.x < i64::MAX,
        ensures
            final(self)@.position.x == old(self)@.position.x + horizontal_axis(input@.pressed)
                * MOVE_STEP,
            final(self)@.position.y == old(self)@.position.y,
            state_is_current(final(self)@),
            final(self)@.velocity == old(self)@.velocity,
            final(self)@.is_grounded == old(self)@.is_grounded,
            final(self)@.is_backward == old(self)@.is_backward,
            final(self)@.is_jumping == old(self)@.is_jumping,
            final(self)@.sprites == old(self)@.sprites,
    {
        let right: i64 = if input.get_key_state(Key::D) {
            1
        } else {
            0
        };
        let left: i64 = if input.get_key_state(Key::A) {
            1
        } else {
            0
        };
        let horizontal_movement = right - left;
        self.position.x = self.position.x + horizontal_movement * MOVE_STEP;
        self.calculate_state();
    }

    /// Moves the player by its velocity over `delta_time` ticks.
    pub fn update(&mut self, delta_time: i64)
        requires
            i64::MIN <= old(self)@.position.x + old(self)@.velocity.x * delta_time <= i64::MAX,
            i64::MIN <= old(self)@.position.y + old(self)@.velocity.y * delta_time <= i64::MAX,
        ensures
            final(self)@.position.x == old(self)@.position.x + old(self)@.velocity.x * delta_time,
            final(self)@.position.y == old(self)@.position.y + old(self)@.velocity.y * delta_time,
            final(self)@.state == old(self)@.state,
            final(self)@.velocity == old(self)@.velocity,
            final(self)@.is_grounded == old(self)@.is_grounded,
            final(self)@.is_backward == old(self)@.is_backward,
            final(self)@.is_jumping == old(self)@.is_jumping,
            final(self)@.sprites == old(self)@.sprites,
    {
        self.position = Vec2::new(
            advance(self.position.x, self.velocity.x, delta_time),
            advance(self.position.y, self.velocity.y, delta_time),
        );
    }

    /// Sets the state from the motion flags.
    fn calculate_state(&mut self)
        ensures
            final(self)@.state == state_for(old(self)@.is_jumping, old(self)@.is_backward),
            final(self)@.position == old(self)@.position,
            final(self)@.velocity == old(self)@.velocity,
            final(self)@.is_grounded == old(self)@.is_grounded,
            final(self)@.is_backward == old(self)@.is_backward,
            final(self)@.is_jumping == old(self)@.is_jumping,
            final(self)@.sprites == old(self)@.sprites,
    {
        self.state = PlayerState::from_flags(self.is_jumping, self.is_backward);
    }

    /// Sets the motion flags, then recomputes the state from them.
    pub fn set_motion_flags(&mut self, is_jumping: bool, is_backward: bool)
        ensures
            final(self)@.is_jumping == is_jumping,
            final(self)@.is_backward == is_backward,
            final(self)@.state == state_for(is_jumping, is_backward),
            state_is_current(final(self)@),
            final(self)@.position == old(self)@.position,
            final(self)@.velocity == old(self)@.velocity,
            final(self)@.is_grounded == old(self)@.is_grounded,
            final(self)@.sprites == old(self)@.sprites,
    {
        self.is_jumping = is_jumping;
        self.is_backward = is_backward;
        self.calculate_state();
    }

    pub fn set_velocity(&mut self, velocity: Vec2)
        ensures
            final(self)@.velocity == velocity,
            final(self)@.position == old(self)@.position,
            final(self)@.state == old(self)@.state,
            final(self)@.is_grounded == old(self)@.is_grounded,
            final(self)@.is_backward == old(self)@.is_backward,
            final(self)@.is_jumping == old(self)@.is_jumping,
            final(self)@.sprites == old(self)@.sprites,
    {
        self.velocity = velocity;
    }

    pub fn state(&self) -> (r: PlayerState)
        ensures
            r == self@.state,
    {
        self.state
    }

    pub fn position(&self) -> (r: Vec2)
        ensures
            r == self@.position,
    {
        self.position
    }

    /// The sprite of the current state, or the `Idle` sprite where the
    /// current state has none. Every player has an `Idle` sprite.
    pub fn get_sprite(&self) -> (r: &SubTexture)
        ensures
            self@.sprites.contains_key(PlayerState::Idle),
            *r == sprite_for(self@.sprites, self@.state),
    {
        self.sprites.get(self.state)
    }

    /// A square of one world unit at the player's position, filled with the
    /// current sprite.
    pub fn quad(&self) -> (r: Quad)
        ensures
            r == (Quad {
                position: self@.position,
                size: Vec2 { x: WORLD_UNIT, y: WORLD_UNIT },
                sprite: sprite_for(self@.sprites, self@.state),
            }),
    {
        Quad::new_from_position_and_size_and_sprite(
            self.position.x,
            self.position.y,
            WORLD_UNIT,
            WORLD_UNIT,
            self.get_sprite(),
        )
    }
}

impl Default for Player {
    fn default() -> (r: Player)
        ensures
            r@.state == PlayerState::Idle,
            r@.position == (Vec2 { x: 0, y: 0 }),
            r@.velocity == (Vec2 { x: 0, y: 0 }),
            !r@.is_grounded,
            !r@.is_backward,
            !r@.is_jumping,
            r@.sprites == default_sprites(),
    {
        Player::new()
    }
}

} // verus!

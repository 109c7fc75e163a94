//! The rainbow renderer: a solid background whose colour drifts, and a pool
//! of one hundred particles that the treble band pushes along.
//!
//! The renderer draws no random numbers itself. Each frame the caller hands it
//! the rolls that the frame may consume: a roll is a fraction of 65536, so the
//! roll `r` stands for the number `r / 65536` of the interval `[0, 1)`.

use vstd::prelude::*;
use crate::units::{band_total, sum_band, UNIT};

verus! {

/// Number of particles of a renderer, at all times.
pub const POOL_SIZE: usize = 100;

/// Number of hue steps (degrees) in a full turn.
pub const FULL_TURN: u32 = 360;

/// Saturation of the background, in percent.
pub const SATURATION: u32 = 100;

/// First bin of the treble band.
pub const TREBLE_START: usize = 10;

/// One past the last bin of the treble band.
pub const TREBLE_END: usize = 30;

/// The five rolls that place one new particle.
#[derive(Clone, Copy, Debug)]
pub struct SpawnRoll {
    pub x: u16,
    pub y: u16,
    pub size: u16,
    pub speed_x: u16,
    pub speed_y: u16,
}

/// The rolls that one frame of one renderer may consume: one spawn per
/// particle, used only if that particle leaves the surface, and one for the
/// brightness.
#[derive(Clone, Copy, Debug)]
pub struct Entropy {
    pub spawns: [SpawnRoll; 100],
    pub brightness: u16,
}

/// Half of an extent of the surface, in fixed point.
pub open spec fn half_extent(extent: int) -> int {
    extent * UNIT as int / 2
}

/// A coordinate spread over an extent by a roll: `roll * extent - extent / 2`.
pub open spec fn spawn_coordinate(roll: int, extent: int) -> int {
    roll * extent - half_extent(extent)
}

/// A radius between 1 and 4: `roll * 3 + 1`.
pub open spec fn spawn_size(roll: int) -> int {
    roll * 3 + UNIT as int
}

/// A speed between -1 and 1 per frame: `roll * 2 - 1`.
pub open spec fn spawn_speed(roll: int) -> int {
    roll * 2 - UNIT as int
}

/// The sum of the bins of the treble band, 10 to 29, that a snapshot has. The
/// treble measure is this sum over 20.
pub open spec fn treble_total(snapshot: Seq<u8>) -> int {
    band_total(snapshot, TREBLE_START as int, TREBLE_END as int)
}

/// The distance that a particle moves in one frame, `treble` being the sum of
/// the treble band (twenty times the treble measure): its speed times the treble
/// measure as a fraction of 255, rounded towards zero.
pub open spec fn drift(speed: int, treble: int) -> int {
    if speed >= 0 {
        speed * treble / (20int * 255)
    } else {
        -((-speed) * treble / (20int * 255))
    }
}

/// The hue one frame later: a degree further, wrapping at a full turn.
pub open spec fn next_hue(hue: int) -> int {
    (hue + 1) % (FULL_TURN as int)
}

/// The brightness one frame later: moved by `roll * 10 - 5` percent, wrapping
/// into `[0, 100)`.
pub open spec fn next_brightness(brightness: int, roll: int) -> int {
    (brightness + roll * 10 - 5 * UNIT as int) % (100 * UNIT as int)
}

/// The mathematical state of one particle. Coordinates are relative to the
/// centre of the surface.
pub struct ParticleState {
    pub x: int,
    pub y: int,
    pub size: int,
    pub lifetime: int,
    pub speed_x: int,
    pub speed_y: int,
}

impl ParticleState {
    /// Whether the particle lies on a surface of the given size, its edges
    /// included.
    pub open spec fn within(self, width: int, height: int) -> bool {
        &&& -half_extent(width) <= self.x <= half_extent(width)
        &&& -half_extent(height) <= self.y <= half_extent(height)
    }

    /// The particle that a spawn roll places on a surface.
    pub open spec fn spawned(roll: SpawnRoll, width: int, height: int) -> ParticleState {
        ParticleState {
            x: spawn_coordinate(roll.x as int, width),
            y: spawn_coordinate(roll.y as int, height),
            size: spawn_size(roll.size as int),
            lifetime: 0,
            speed_x: spawn_speed(roll.speed_x as int),
            speed_y: spawn_speed(roll.speed_y as int),
        }
    }

    /// The particle one frame older, drifted by its speed. The age stops at
    /// the largest 64-bit count.
    pub open spec fn moved(self, treble: int) -> ParticleState {
        ParticleState {
            x: self.x + drift(self.speed_x, treble),
            y: self.y + drift(self.speed_y, treble),
            size: self.size,
            lifetime: if self.lifetime < u64::MAX { self.lifetime + 1 } else { self.lifetime },
            speed_x: self.speed_x,
            speed_y: self.speed_y,
        }
    }

    /// The particle after one frame: moved, and replaced by a spawn if the
    /// move took it off the surface.
    pub open spec fn updated(self, treble: int, width: int, height: int, roll: SpawnRoll) -> ParticleState {
        let moved = self.moved(treble);
        if moved.within(width, height) {
            moved
        } else {
            ParticleState::spawned(roll, width, height)
        }
    }
}

/// One particle of the pool, in fixed point.
#[derive(Clone, Copy, Debug)]
pub struct Particle {
    pub x: i64,
    pub y: i64,
    pub size: u64,
    pub lifetime: u64,
    pub speed_x: i64,
    pub speed_y: i64,
}

impl View for Particle {
    type V = ParticleState;

    open spec fn view(&self) -> ParticleState {
        ParticleState {
            x: self.x as int,
            y: self.y as int,
            size: self.size as int,
            lifetime: self.lifetime as int,
            speed_x: self.speed_x as int,
            speed_y: self.speed_y as int,
        }
    }
}

/// A spawned particle lies on the surface, whatever the roll. Its radius is
/// between 1 and 4, and it moves less than a pixel per frame either way.
pub proof fn lemma_spawned_within(roll: SpawnRoll, width: int, height: int)
    requires
        0 <= width <= u32::MAX,
        0 <= height <= u32::MAX,
    ensures
        ParticleState::spawned(roll, width, height).within(width, height),
        UNIT <= ParticleState::spawned(roll, width, height).size < 4 * UNIT,
        -(UNIT as int) <= ParticleState::spawned(roll, width, height).speed_x < UNIT,
        -(UNIT as int) <= ParticleState::spawned(roll, width, height).speed_y < UNIT,
        ParticleState::spawned(roll, width, height).lifetime == 0,
{
    lemma_spawn_coordinate_bounds(roll.x as int, width);
    lemma_spawn_coordinate_bounds(roll.y as int, height);
}

/// A roll spreads a coordinate over `[-extent / 2, extent / 2)`.
pub proof fn lemma_spawn_coordinate_bounds(roll: int, extent: int)
    requires
        0 <= roll < UNIT,
        0 <= extent <= u32::MAX,
    ensures
        -half_extent(extent) <= spawn_coordinate(roll, extent) <= half_extent(extent),
        extent > 0 ==> spawn_coordinate(roll, extent) < half_extent(extent),
        half_extent(extent) == extent * 32768,
{
    assert(0 <= roll * extent <= 65535 * extent) by (nonlinear_arith)
        requires
            0 <= roll <= 65535,
            0 <= extent,
    ;
}

/// Spawn coordinates are evenly spread: each further step of the roll moves
/// the coordinate by the same distance, so that a roll drawn uniformly places
/// the particle uniformly over the extent.
pub proof fn lemma_spawn_evenly_spread(roll: int, extent: int)
    ensures
        spawn_coordinate(roll + 1, extent) - spawn_coordinate(roll, extent) == extent,
        spawn_coordinate(0, extent) == -half_extent(extent),
{
    assert((roll + 1) * extent == roll * extent + extent) by (nonlinear_arith);
}

impl Particle {
    /// Places a new particle on a surface of the given size.
    pub fn new(width: u32, height: u32, roll: SpawnRoll) -> (p: Particle)
        ensures
            p@ == ParticleState::spawned(roll, width as int, height as int),
            p@.within(width as int, height as int),
    {
        proof {
            lemma_spawned_within(roll, width as int, height as int);
            lemma_spawn_coordinate_bounds(roll.x as int, width as int);
            lemma_spawn_coordinate_bounds(roll.y as int, height as int);
            assert(0 <= roll.x * width <= 65535 * 0xffff_ffff) by (nonlinear_arith)
                requires
                    0 <= roll.x <= 65535,
                    0 <= width <= 0xffff_ffff,
            ;
            assert(0 <= roll.y * height <= 65535 * 0xffff_ffff) by (nonlinear_arith)
                requires
                    0 <= roll.y <= 65535,
                    0 <= height <= 0xffff_ffff,
            ;
        }
        let half_width: i64 = (width as u64 * UNIT / 2) as i64;
        let half_height: i64 = (height as u64 * UNIT / 2) as i64;
        Particle {
            x: (roll.x as u64 * width as u64) as i64 - half_width,
            y: (roll.y as u64 * height as u64) as i64 - half_height,
            size: roll.size as u64 * 3 + UNIT,
            lifetime: 0,
            speed_x: (roll.speed_x as u64 * 2) as i64 - UNIT as i64,
            speed_y: (roll.speed_y as u64 * 2) as i64 - UNIT as i64,
        }
    }

    /// Ages the particle by one frame and moves it by its speed, scaled by the
    /// treble measure, of which `treble` is the sum over the twenty bins of the
    /// band. If that takes it off the surface, a particle spawned
    /// from `roll` takes its place.
    pub fn update(&mut self, treble: u64, width: u32, height: u32, roll: SpawnRoll)
        ensures
            final(self)@ == old(self)@.updated(treble as int, width as int, height as int, roll),
            final(self)@.within(width as int, height as int),
    {
        proof {
            lemma_spawn_coordinate_bounds(0, width as int);
            lemma_spawn_coordinate_bounds(0, height as int);
        }
        let x: i128 = self.x as i128 + drift_of(self.speed_x, treble);
        let y: i128 = self.y as i128 + drift_of(self.speed_y, treble);
        let half_width: i128 = (width as u64 * UNIT / 2) as i128;
        let half_height: i128 = (height as u64 * UNIT / 2) as i128;
        if x > half_width || x < -half_width || y > half_height || y < -half_height {
            *self = Particle::new(width, height, roll);
        } else {
            self.x = x as i64;
            self.y = y as i64;
            if self.lifetime < u64::MAX {
                self.lifetime = self.lifetime + 1;
            }
        }
    }
}

/// Computes [`drift`] in machine integers.
fn drift_of(speed: i64, treble: u64) -> (d: i128)
    ensures
        d == drift(speed as int, treble as int),
        -0x100_0000_0000_0000_0000_0000_0000_0000 <= d <= 0x100_0000_0000_0000_0000_0000_0000_0000,
{
    let magnitude: u128 = if speed >= 0 {
        speed as u128
    } else {
        (-(speed as i128)) as u128
    };
    assert(magnitude * treble <= 0x8000_0000_0000_0000 * 0x1_0000_0000_0000_0000)
        by (nonlinear_arith)
        requires
            0 <= magnitude <= 0x8000_0000_0000_0000,
            0 <= treble <= 0x1_0000_0000_0000_0000,
    ;
    let moved: i128 = (magnitude * (treble as u128) / 5100) as i128;
    if speed >= 0 {
        moved
    } else {
        -moved
    }
}

/// One particle as painted: a filled disc.
#[derive(Clone, Copy, Debug)]
pub struct Disc {
    /// Centre, relative to the centre of the surface, fixed-point pixels.
    pub x: i64,
    pub y: i64,
    /// Radius in fixed-point pixels.
    pub radius: u64,
    /// Fill hue in degrees.
    pub hue: u32,
}

/// What one frame of the rainbow renderer paints, in painting order: the
/// background over the whole surface, then one disc per particle.
#[derive(Debug)]
pub struct RainbowFrame {
    /// Width of the background rectangle in pixels.
    pub width: u32,
    /// Height of the background rectangle in pixels.
    pub height: u32,
    /// Background hue in degrees.
    pub hue: u32,
    /// Background saturation in percent.
    pub saturation: u32,
    /// Background brightness in whole percent.
    pub brightness: u32,
    pub discs: Vec<Disc>,
}

/// The mathematical state of a rainbow renderer.
pub struct BgState {
    pub width: int,
    pub height: int,
    /// Hue in degrees.
    pub hue: int,
    /// Brightness in fixed-point percent.
    pub brightness: int,
    pub particles: Seq<ParticleState>,
}

impl BgState {
    /// The states that a renderer can be in: the pool is full, and every
    /// particle lies on the surface.
    pub open spec fn wf(self) -> bool {
        &&& 0 <= self.width <= u32::MAX
        &&& 0 <= self.height <= u32::MAX
        &&& 0 <= self.hue < FULL_TURN
        &&& 0 <= self.brightness < 100 * UNIT
        &&& self.particles.len() == POOL_SIZE
        &&& forall|i: int|
            0 <= i < POOL_SIZE ==> (#[trigger] self.particles[i]).within(self.width, self.height)
    }

    /// The state of a fresh renderer whose particles the given rolls placed.
    pub open spec fn initial(width: int, height: int, rolls: Seq<SpawnRoll>) -> BgState {
        BgState {
            width,
            height,
            hue: 0,
            brightness: 50 * UNIT as int,
            particles: Seq::new(
                POOL_SIZE as nat,
                |i: int| ParticleState::spawned(rolls[i], width, height),
            ),
        }
    }

    /// The state after drawing one snapshot with the given rolls.
    pub open spec fn after_draw(self, snapshot: Seq<u8>, entropy: Entropy) -> BgState {
        BgState {
            width: self.width,
            height: self.height,
            hue: next_hue(self.hue),
            brightness: next_brightness(self.brightness, entropy.brightness as int),
            particles: Seq::new(
                POOL_SIZE as nat,
                |i: int|
                    self.particles[i].updated(
                        treble_total(snapshot),
                        self.width,
                        self.height,
                        entropy.spawns@[i],
                    ),
            ),
        }
    }

    /// The state after drawing the snapshots in order, each with its rolls.
    pub open spec fn after_draws(self, inputs: Seq<(Seq<u8>, Entropy)>) -> BgState
        decreases inputs.len(),
    {
        if inputs.len() == 0 {
            self
        } else {
            self.after_draws(inputs.drop_last()).after_draw(inputs.last().0, inputs.last().1)
        }
    }

    /// Whether `disc` shows particle `i` as the draw of `snapshot` leaves it:
    /// at its place and size, in the hue of the frame advanced by one degree
    /// per frame of the particle's age.
    pub open spec fn paints_disc(self, snapshot: Seq<u8>, entropy: Entropy, i: int, disc: Disc) -> bool {
        let p = self.after_draw(snapshot, entropy).particles[i];
        &&& disc.x == p.x
        &&& disc.y == p.y
        &&& disc.radius == p.size
        &&& disc.hue == (self.hue + p.lifetime) % (FULL_TURN as int)
    }

    /// Whether `frame` is what drawing `snapshot` in this state paints.
    pub open spec fn paints(self, snapshot: Seq<u8>, entropy: Entropy, frame: RainbowFrame) -> bool {
        &&& frame.width == self.width
        &&& frame.height == self.height
        &&& frame.hue == self.hue
        &&& frame.saturation == SATURATION
        &&& frame.brightness == self.brightness / (UNIT as int)
        &&& frame.discs@.len() == POOL_SIZE
        &&& forall|i: int|
            0 <= i < POOL_SIZE ==> self.paints_disc(snapshot, entropy, i, #[trigger] frame.discs@[i])
    }
}

/// The rainbow renderer's state between frames.
#[derive(Clone)]
pub struct Bg {
    width: u32,
    height: u32,
    hue: u32,
    brightness: u64,
    particles: Vec<Particle>,
}

impl View for Bg {
    type V = BgState;

    closed spec fn view(&self) -> BgState {
        BgState {
            width: self.width as int,
            height: self.height as int,
            hue: self.hue as int,
            brightness: self.brightness as int,
            particles: self.particles@.map_values(|p: Particle| p@),
        }
    }
}

impl Bg {
    spec fn inv(self) -> bool {
        &&& self.hue < FULL_TURN
        &&& self.brightness < 100 * UNIT
        &&& self.particles@.len() == POOL_SIZE
        &&& forall|i: int|
            0 <= i < POOL_SIZE ==> (#[trigger] self.particles@[i])@.within(
                self.width as int,
                self.height as int,
            )
    }

    proof fn lemma_inv_is_wf(self)
        ensures
            self.inv() <==> self@.wf(),
    {
        if self.inv() {
            assert forall|i: int| 0 <= i < POOL_SIZE implies (#[trigger] self@.particles[i]).within(
                self@.width,
                self@.height,
            ) by {
                assert(self@.particles[i] == self.particles@[i]@);
            }
        }
        if self@.wf() {
            assert forall|i: int| 0 <= i < POOL_SIZE implies (#[trigger] self.particles@[i])@.within(
                self.width as int,
                self.height as int,
            ) by {
                assert(self@.particles[i] == self.particles@[i]@);
            }
        }
    }

    /// A renderer for a surface of the given pixel size: hue 0, brightness
    /// 50%, and one particle placed by each roll.
    pub fn new(width: u32, height: u32, rolls: &[SpawnRoll; 100]) -> (bg: Bg)
        ensures
            bg@ == BgState::initial(width as int, height as int, rolls@),
            bg@.wf(),
    {
        let mut particles: Vec<Particle> = Vec::new();
        let mut i: usize = 0;
        while i < POOL_SIZE
            invariant
                i <= POOL_SIZE,
                particles@.len() == i,
                forall|k: int|
                    0 <= k < i ==> {
                        &&& (#[trigger] particles@[k])@ == ParticleState::spawned(
                            rolls@[k],
                            width as int,
                            height as int,
                        )
                        &&& particles@[k]@.within(width as int, height as int)
                    },
            decreases POOL_SIZE - i,
        {
            particles.push(Particle::new(width, height, rolls[i]));
            i = i + 1;
        }
        let bg = Bg { width, height, hue: 0, brightness: 50 * UNIT, particles };
        proof {
            bg.lemma_inv_is_wf();
            assert(bg@.particles =~= BgState::initial(
                width as int,
                height as int,
                rolls@,
            ).particles);
        }
        bg
    }

    /// Draws one frame from `audio_data`: paints the background in the colour
    /// that the state holds, moves every particle by the treble measure and
    /// respawns those that left the surface, paints the particles, and then
    /// advances the hue and perturbs the brightness.
    pub fn draw(&mut self, audio_data: &[u8], entropy: &Entropy) -> (frame: RainbowFrame)
        requires
            old(self)@.wf(),
        ensures
            final(self)@ == old(self)@.after_draw(audio_data@, *entropy),
            final(self)@.wf(),
            old(self)@.paints(audio_data@, *entropy, frame),
    {
        proof {
            self.lemma_inv_is_wf();
        }
        let ghost before = self@;
        let hue: u32 = self.hue;
        let brightness: u32 = (self.brightness / UNIT) as u32;
        let discs = self.draw_particles(audio_data, &entropy.spawns);
        self.hue = (self.hue + 1) % FULL_TURN;
        self.brightness = (self.brightness + entropy.brightness as u64 * 10 + 95 * UNIT) % (100
            * UNIT);
        proof {
            self.lemma_inv_is_wf();
            assert(self@.particles =~= before.after_draw(audio_data@, *entropy).particles);
            vstd::arithmetic::div_mod::lemma_mod_add_multiples_vanish(
                before.brightness + entropy.brightness * 10 - 5 * UNIT,
                100 * UNIT as int,
            );
        }
        RainbowFrame {
            width: self.width,
            height: self.height,
            hue,
            saturation: SATURATION,
            brightness,
            discs,
        }
    }

    /// Width of the surface in pixels.
    pub fn width(&self) -> (w: u32)
        ensures
            w == self@.width,
    {
        self.width
    }

    /// Height of the surface in pixels.
    pub fn height(&self) -> (h: u32)
        ensures
            h == self@.height,
    {
        self.height
    }

    /// The hue in degrees.
    pub fn hue(&self) -> (h: u32)
        ensures
            h == self@.hue,
    {
        self.hue
    }

    /// The brightness in fixed-point percent.
    pub fn brightness(&self) -> (b: u64)
        ensures
            b == self@.brightness,
    {
        self.brightness
    }

    /// Number of particles in the pool.
    pub fn particle_count(&self) -> (n: usize)
        ensures
            n == self@.particles.len(),
    {
        self.particles.len()
    }

    /// Particle `i` of the pool, if there is one.
    pub fn particle(&self, i: usize) -> (p: Option<Particle>)
        ensures
            i < self@.particles.len() ==> (p matches Some(q) && q@ == self@.particles[i as int]),
            i >= self@.particles.len() ==> p is None,
    {
        if i < self.particles.len() {
            Some(self.particles[i])
        } else {
            None
        }
    }

    fn draw_particles(&mut self, audio_data: &[u8], spawns: &[SpawnRoll; 100]) -> (discs: Vec<Disc>)
        requires
            old(self).inv(),
        ensures
            final(self).inv(),
            final(self).width == old(self).width,
            final(self).height == old(self).height,
            final(self).hue == old(self).hue,
            final(self).brightness == old(self).brightness,
            forall|i: int|
                0 <= i < POOL_SIZE ==> (#[trigger] final(self).particles@[i])@ == old(
                    self,
                ).particles@[i]@.updated(
                    treble_total(audio_data@),
                    old(self).width as int,
                    old(self).height as int,
                    spawns@[i],
                ),
            discs@.len() == POOL_SIZE,
            forall|i: int|
                0 <= i < POOL_SIZE ==> {
                    &&& (#[trigger] discs@[i]).x == final(self).particles@[i].x
                    &&& discs@[i].y == final(self).particles@[i].y
                    &&& discs@[i].radius == final(self).particles@[i].size
                    &&& discs@[i].hue == (old(self).hue + final(self).particles@[i].lifetime) % (
                    FULL_TURN as int)
                },
    {
        let treble: u64 = sum_band(audio_data, TREBLE_START, TREBLE_END);
        let hue: u32 = self.hue;
        let width: u32 = self.width;
        let height: u32 = self.height;
        let mut discs: Vec<Disc> = Vec::new();
        let mut i: usize = 0;
        while i < POOL_SIZE
            invariant
                i <= POOL_SIZE,
                treble == treble_total(audio_data@),
                self.width == old(self).width,
                self.height == old(self).height,
                self.hue == old(self).hue,
                self.brightness == old(self).brightness,
                hue == self.hue,
                width == self.width,
                height == self.height,
                old(self).inv(),
                self.inv(),
                forall|k: int|
                    0 <= k < i ==> (#[trigger] self.particles@[k])@ == old(
                        self,
                    ).particles@[k]@.updated(
                        treble as int,
                        width as int,
                        height as int,
                        spawns@[k],
                    ),
                forall|k: int| i <= k < POOL_SIZE ==> #[trigger] self.particles@[k] == old(self).particles@[k],
                discs@.len() == i,
                forall|k: int|
                    0 <= k < i ==> {
                        &&& (#[trigger] discs@[k]).x == self.particles@[k].x
                        &&& discs@[k].y == self.particles@[k].y
                        &&& discs@[k].radius == self.particles@[k].size
                        &&& discs@[k].hue == (hue + self.particles@[k].lifetime) % (FULL_TURN as int)
                    },
            decreases POOL_SIZE - i,
        {
            let mut particle: Particle = self.particles[i];
            particle.update(treble, width, height, spawns[i]);
            self.particles[i] = particle;
            let disc_hue: u32 = ((hue as u64 + particle.lifetime % (FULL_TURN as u64)) % (
            FULL_TURN as u64)) as u32;
            discs.push(Disc { x: particle.x, y: particle.y, radius: particle.size, hue: disc_hue });
            i = i + 1;
        }
        discs
    }
}

/// An update leaves a particle on the surface, wherever it was before.
pub proof fn lemma_updated_within(
    p: ParticleState,
    treble: int,
    width: int,
    height: int,
    roll: SpawnRoll,
)
    requires
        0 <= width <= u32::MAX,
        0 <= height <= u32::MAX,
    ensures
        p.updated(treble, width, height, roll).within(width, height),
{
    lemma_spawned_within(roll, width, height);
}

/// The boundary respawn law: a particle whose move takes it past an edge of
/// the surface is replaced, within the same update, by the particle that the
/// roll spawns, which lies on the surface; a particle whose move keeps it on
/// the surface is not replaced.
pub proof fn lemma_boundary_respawn(
    p: ParticleState,
    treble: int,
    width: int,
    height: int,
    roll: SpawnRoll,
)
    requires
        0 <= width <= u32::MAX,
        0 <= height <= u32::MAX,
    ensures
        !p.moved(treble).within(width, height) ==> {
            &&& p.updated(treble, width, height, roll) == ParticleState::spawned(roll, width, height)
            &&& p.updated(treble, width, height, roll).within(width, height)
            &&& p.updated(treble, width, height, roll).lifetime == 0
        },
        p.moved(treble).within(width, height) ==> p.updated(treble, width, height, roll) == p.moved(
            treble,
        ),
{
    lemma_spawned_within(roll, width, height);
}

/// A draw leaves a renderer in a state that it can be in: the pool is full,
/// and every particle lies on the surface.
pub proof fn lemma_after_draw_wf(state: BgState, snapshot: Seq<u8>, entropy: Entropy)
    requires
        state.wf(),
    ensures
        state.after_draw(snapshot, entropy).wf(),
        state.after_draw(snapshot, entropy).particles.len() == POOL_SIZE,
{
    let after = state.after_draw(snapshot, entropy);
    assert forall|i: int| 0 <= i < POOL_SIZE implies (#[trigger] after.particles[i]).within(
        after.width,
        after.height,
    ) by {
        lemma_updated_within(
            state.particles[i],
            treble_total(snapshot),
            state.width,
            state.height,
            entropy.spawns@[i],
        );
    }
}

/// The pool keeps its hundred particles through any sequence of draws.
pub proof fn lemma_pool_size_invariant(state: BgState, inputs: Seq<(Seq<u8>, Entropy)>)
    requires
        state.wf(),
    ensures
        state.after_draws(inputs).wf(),
        state.after_draws(inputs).particles.len() == POOL_SIZE,
    decreases inputs.len(),
{
    if inputs.len() > 0 {
        lemma_pool_size_invariant(state, inputs.drop_last());
        lemma_after_draw_wf(state.after_draws(inputs.drop_last()), inputs.last().0, inputs.last().1);
    }
}

/// The hue advances by one degree per draw and wraps at the full turn,
/// whatever is drawn and however often.
pub proof fn lemma_hue_after_draws(state: BgState, inputs: Seq<(Seq<u8>, Entropy)>)
    requires
        state.wf(),
    ensures
        state.after_draws(inputs).hue == (state.hue + inputs.len()) % (FULL_TURN as int),
    decreases inputs.len(),
{
    if inputs.len() > 0 {
        lemma_hue_after_draws(state, inputs.drop_last());
    }
}

} // verus!

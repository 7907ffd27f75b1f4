use rand::Rng;
use vstd::prelude::*;

verus! {

/// Number of texture frames generated for each star's animation.
pub const STAR_FRAME_COUNT: usize = 10;

/// Number of randomly placed stars added when the field is loaded.
pub const DESIRED_STARS: usize = 50;

/// Mass of each of the two heavy anchor stars placed at load time.
pub const ANCHOR_STAR_MASS: u64 = 9999999999999;

/// Mass of a test particle.
pub const PARTICLE_MASS: u64 = 1000;

/// A uniformly random `i32` in `low .. high` from the thread's random
/// generator: `rand::Rng::gen_range` on `rand::thread_rng()`. It panics on
/// an empty range, so one is not accepted; the value returned lies in the
/// half-open range, and nothing more is known of it.
#[verifier::external_body]
fn gen_range_i32(low: i32, high: i32) -> (r: i32)
    requires
        low < high,
    ensures
        low <= r < high,
{
    rand::thread_rng().gen_range(low..high)
}

/// A uniformly random `u64` in `low .. high` from the thread's random
/// generator: `rand::Rng::gen_range` on `rand::thread_rng()`. It panics on
/// an empty range, so one is not accepted; the value returned lies in the
/// half-open range, and nothing more is known of it.
#[verifier::external_body]
fn gen_range_u64(low: u64, high: u64) -> (r: u64)
    requires
        low < high,
    ensures
        low <= r < high,
{
    rand::thread_rng().gen_range(low..high)
}

/// Where a new body appears and how heavy it is.
#[derive(Clone, Copy, Debug, PartialEq, Eq)]
pub struct Spawn {
    pub x: i32,
    pub y: i32,
    pub mass: u64,
}

/// The temperature (in kelvin) of a new star, drawn at random from
/// `4000 .. 11000`.
pub fn random_star_temperature() -> (temperature: i32)
    ensures
        4000 <= temperature < 11000,
{
    gen_range_i32(4000, 11000)
}

/// A random point of a window of `win_width` by `win_height` pixels.
pub fn random_position(win_width: i32, win_height: i32) -> (pos: (i32, i32))
    requires
        win_width > 0,
        win_height > 0,
    ensures
        0 <= pos.0 < win_width,
        0 <= pos.1 < win_height,
{
    let x = gen_range_i32(0, win_width);
    let y = gen_range_i32(0, win_height);
    (x, y)
}

/// A random star: its mass drawn from `100 .. 100_000_000`, then its
/// position drawn anywhere in the window.
pub fn random_star_spawn(win_width: i32, win_height: i32) -> (spawn: Spawn)
    requires
        win_width > 0,
        win_height > 0,
    ensures
        100 <= spawn.mass < 100_000_000,
        0 <= spawn.x < win_width,
        0 <= spawn.y < win_height,
{
    let mass = gen_range_u64(100, 100_000_000);
    let (x, y) = random_position(win_width, win_height);
    Spawn { x, y, mass }
}

/// A test particle of mass `PARTICLE_MASS` anywhere in the window.
pub fn random_particle_spawn(win_width: i32, win_height: i32) -> (spawn: Spawn)
    requires
        win_width > 0,
        win_height > 0,
    ensures
        spawn.mass == PARTICLE_MASS,
        0 <= spawn.x < win_width,
        0 <= spawn.y < win_height,
{
    let (x, y) = random_position(win_width, win_height);
    Spawn { x, y, mass: PARTICLE_MASS }
}

/// The star field is loaded once, on the first redraw after the window has
/// reached its desired width.
pub fn should_load_stars(loaded: bool, window_width: u32, desired_width: u32) -> (load: bool)
    ensures
        load == (!loaded && window_width == desired_width),
{
    !loaded && window_width == desired_width
}

} // verus!

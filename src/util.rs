use vstd::prelude::*;

verus! {

/// A 2D integer vector (pixel coordinates).
#[derive(Clone, Copy, PartialEq, Eq, Structural, Debug)]
pub struct Vec2i {
    pub x: i32,
    pub y: i32,
}

/// A 3D integer vector (grid coordinates and grid directions).
#[derive(Clone, Copy, PartialEq, Eq, Structural, Debug)]
pub struct Vec3i {
    pub x: i32,
    pub y: i32,
    pub z: i32,
}

/// A 2D unsigned vector (window resolution).
#[derive(Clone, Copy, PartialEq, Eq, Structural, Debug)]
pub struct Vec2u {
    pub x: u32,
    pub y: u32,
}

impl View for Vec3i {
    type V = (int, int, int);

    open spec fn view(&self) -> (int, int, int) {
        (self.x as int, self.y as int, self.z as int)
    }
}

pub fn vec2i(x: i32, y: i32) -> (r: Vec2i)
    ensures
        r.x == x,
        r.y == y,
{
    Vec2i { x, y }
}

pub fn vec2u(x: u32, y: u32) -> (r: Vec2u)
    ensures
        r.x == x,
        r.y == y,
{
    Vec2u { x, y }
}

pub fn vec3i(x: i32, y: i32, z: i32) -> (r: Vec3i)
    ensures
        r@ == (x as int, y as int, z as int),
{
    Vec3i { x, y, z }
}

pub fn vec3i_arr(coords: [i32; 3]) -> (r: Vec3i)
    ensures
        r@ == (coords@[0] as int, coords@[1] as int, coords@[2] as int),
{
    Vec3i { x: coords[0], y: coords[1], z: coords[2] }
}

pub fn vec3i_to_arr(vec: &Vec3i) -> (r: [i32; 3])
    ensures
        r@ == seq![vec.x, vec.y, vec.z],
{
    let r = [vec.x, vec.y, vec.z];
    assert(r@ =~= seq![vec.x, vec.y, vec.z]);
    r
}

} // verus!

//! The fixed geometry: ten vertex positions and the two index lists that
//! trace a pentagon and a ten-point star over them.
//!
//! Positions are held exactly, in hundred-thousandths of a clip-space
//! unit, so that the constants are plain integers and the index lists can
//! be proved to stay inside the vertex table.

use vstd::prelude::*;

verus! {

/// A vertex position, each coordinate in hundred-thousandths of a
/// clip-space unit (so `50000` stands for half a unit).
#[derive(Clone, Copy, Debug, PartialEq, Eq, Structural)]
pub struct Vertex {
    pub x: i32,
    pub y: i32,
    pub z: i32,
}

/// The ten vertex positions shared by both shapes: the five outer points
/// of a star and the five points of the pentagon between them.
pub open spec fn spec_vertices() -> Seq<Vertex> {
    seq![
        Vertex { x: 0, y: 50000, z: 0 },
        Vertex { x: -76935i32, y: 105900, z: 0 },
        Vertex { x: -47550i32, y: 15450, z: 0 },
        Vertex { x: -124485i32, y: -40450i32, z: 0 },
        Vertex { x: -29385i32, y: -40450i32, z: 0 },
        Vertex { x: 0, y: -130900i32, z: 0 },
        Vertex { x: 29385, y: -40450i32, z: 0 },
        Vertex { x: 124485, y: -40450i32, z: 0 },
        Vertex { x: 47550, y: 15450, z: 0 },
        Vertex { x: 76935, y: 105900, z: 0 },
    ]
}

/// The three triangles that fill the central pentagon.
pub open spec fn spec_pentagon_indices() -> Seq<u16> {
    seq![0u16, 2, 8, 2, 4, 8, 4, 6, 8]
}

/// The pentagon triangles plus the five outer points of the star.
pub open spec fn spec_star_indices() -> Seq<u16> {
    seq![0u16, 2, 8, 2, 4, 8, 4, 6, 8, 0, 1, 2, 2, 3, 4, 4, 5, 6, 6, 7, 8, 0, 8, 9]
}

pub fn vertices() -> (v: Vec<Vertex>)
    ensures
        v@ == spec_vertices(),
{
    let mut v: Vec<Vertex> = Vec::new();
    v.push(Vertex { x: 0, y: 50000, z: 0 });
    v.push(Vertex { x: -76935i32, y: 105900, z: 0 });
    v.push(Vertex { x: -47550i32, y: 15450, z: 0 });
    v.push(Vertex { x: -124485i32, y: -40450i32, z: 0 });
    v.push(Vertex { x: -29385i32, y: -40450i32, z: 0 });
    v.push(Vertex { x: 0, y: -130900i32, z: 0 });
    v.push(Vertex { x: 29385, y: -40450i32, z: 0 });
    v.push(Vertex { x: 124485, y: -40450i32, z: 0 });
    v.push(Vertex { x: 47550, y: 15450, z: 0 });
    v.push(Vertex { x: 76935, y: 105900, z: 0 });
    proof {
        assert(v@ =~= spec_vertices());
    }
    v
}

pub fn pentagon_indices() -> (v: Vec<u16>)
    ensures
        v@ == spec_pentagon_indices(),
{
    let mut v: Vec<u16> = Vec::new();
    v.push(0);
    v.push(2);
    v.push(8);
    v.push(2);
    v.push(4);
    v.push(8);
    v.push(4);
    v.push(6);
    v.push(8);
    proof {
        assert(v@ =~= spec_pentagon_indices());
    }
    v
}

pub fn star_indices() -> (v: Vec<u16>)
    ensures
        v@ == spec_star_indices(),
{
    let mut v: Vec<u16> = Vec::new();
    v.push(0);
    v.push(2);
    v.push(8);
    v.push(2);
    v.push(4);
    v.push(8);
    v.push(4);
    v.push(6);
    v.push(8);
    v.push(0);
    v.push(1);
    v.push(2);
    v.push(2);
    v.push(3);
    v.push(4);
    v.push(4);
    v.push(5);
    v.push(6);
    v.push(6);
    v.push(7);
    v.push(8);
    v.push(0);
    v.push(8);
    v.push(9);
    proof {
        assert(v@ =~= spec_star_indices());
    }
    v
}

/// Every index of either list points at one of the ten vertices, so a
/// draw over the full index range never reads outside the vertex table.
pub proof fn lemma_indices_reference_vertices()
    ensures
        forall|i: int|
            0 <= i < spec_pentagon_indices().len() ==> spec_pentagon_indices()[i]
                < spec_vertices().len(),
        forall|i: int|
            0 <= i < spec_star_indices().len() ==> spec_star_indices()[i] < spec_vertices().len(),
{
}

} // verus!

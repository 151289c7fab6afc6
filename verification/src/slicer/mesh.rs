//! Mesh formats and the index data of meshes.

use vstd::prelude::*;
use crate::slicer::slicing::SlicerError;
use crate::units::{push_decimal, spec_decimal};

verus! {

/// Maximum file size to load in memory (100 MB).
pub const MAX_IN_MEMORY_SIZE: usize = 104857600;

/// Size of the header of a binary STL file: 80 bytes and the triangle
/// count.
pub const STL_BINARY_HEADER_SIZE: usize = 84;

/// Size of a triangle in a binary STL file.
pub const STL_BINARY_TRIANGLE_SIZE: usize = 50;

/// Units of a model.
#[derive(Debug, Clone, Copy, PartialEq, Eq, Structural)]
pub enum MeshUnits {
    Millimeters,
    Centimeters,
    Meters,
    Inches,
}

/// File format of a mesh.
#[derive(Debug, Clone, Copy, PartialEq, Eq, Structural)]
pub enum MeshFormat {
    StlAscii,
    StlBinary,
    Obj,
    ThreeMf,
    Unknown,
}

impl MeshFormat {
    /// The file extension of the format, if it has one.
    pub open spec fn spec_extension(&self) -> Option<Seq<char>> {
        match self {
            MeshFormat::StlAscii => Some("stl"@),
            MeshFormat::StlBinary => Some("stl"@),
            MeshFormat::Obj => Some("obj"@),
            MeshFormat::ThreeMf => Some("3mf"@),
            MeshFormat::Unknown => None,
        }
    }

    /// Returns the typical file extensions of this format.
    pub fn extensions(&self) -> (e: &'static [&'static str])
        ensures
            match self.spec_extension() {
                Some(x) => e@.len() == 1 && e@[0]@ == x,
                None => e@.len() == 0,
            },
    {
        match self {
            MeshFormat::StlAscii | MeshFormat::StlBinary => stl_extensions(),
            MeshFormat::Obj => obj_extensions(),
            MeshFormat::ThreeMf => threemf_extensions(),
            MeshFormat::Unknown => no_extensions(),
        }
    }

    /// The human-readable name of the format.
    pub open spec fn spec_name(&self) -> Seq<char> {
        match self {
            MeshFormat::StlAscii => "STL (ASCII)"@,
            MeshFormat::StlBinary => "STL (Binary)"@,
            MeshFormat::Obj => "Wavefront OBJ"@,
            MeshFormat::ThreeMf => "3D Manufacturing Format (3MF)"@,
            MeshFormat::Unknown => "Unknown"@,
        }
    }

    /// Returns the human-readable name of the format.
    pub fn name(&self) -> (n: &'static str)
        ensures
            n@ == self.spec_name(),
    {
        match self {
            MeshFormat::StlAscii => "STL (ASCII)",
            MeshFormat::StlBinary => "STL (Binary)",
            MeshFormat::Obj => "Wavefront OBJ",
            MeshFormat::ThreeMf => "3D Manufacturing Format (3MF)",
            MeshFormat::Unknown => "Unknown",
        }
    }
}

fn stl_extensions() -> (e: &'static [&'static str])
    ensures
        e@.len() == 1,
        e@[0]@ == "stl"@,
{
    &["stl"]
}

fn obj_extensions() -> (e: &'static [&'static str])
    ensures
        e@.len() == 1,
        e@[0]@ == "obj"@,
{
    &["obj"]
}

fn threemf_extensions() -> (e: &'static [&'static str])
    ensures
        e@.len() == 1,
        e@[0]@ == "3mf"@,
{
    &["3mf"]
}

fn no_extensions() -> (e: &'static [&'static str])
    ensures
        e@.len() == 0,
{
    &[]
}

/// A material of a 3MF file.
#[derive(Debug, Clone)]
pub struct ThreeMfMaterial {
    pub id: String,
    pub name: String,
    /// Red, green, blue and alpha.
    pub color: Rgba,
    pub material_type: String,
}

/// A colour with transparency.
#[derive(Debug, Clone, Copy, PartialEq, Eq, Structural)]
pub struct Rgba {
    pub r: u8,
    pub g: u8,
    pub b: u8,
    pub a: u8,
}

/// Metadata of a 3MF file.
#[derive(Debug, Clone)]
pub struct ThreeMfMetadata {
    pub title: Option<String>,
    pub designer: Option<String>,
    pub description: Option<String>,
    pub creation_date: Option<String>,
    pub modification_date: Option<String>,
}

/// Why a mesh could not be loaded.
#[derive(Debug, Clone, PartialEq, Eq)]
pub enum MeshLoadError {
    UnsupportedFormat(String),
    InvalidStl(String),
    InvalidObj(String),
    Invalid3mf(String),
    /// The size of the file, then the maximum.
    FileTooLarge(usize, usize),
    ValidationFailed(String),
    Io(String),
}

/// Checks the size of a file against the maximum that is loaded in
/// memory.
pub fn check_file_size(size: usize) -> (r: Result<(), MeshLoadError>)
    ensures
        size <= MAX_IN_MEMORY_SIZE ==> r is Ok,
        size > MAX_IN_MEMORY_SIZE ==> r == Err::<(), MeshLoadError>(
            MeshLoadError::FileTooLarge(size, MAX_IN_MEMORY_SIZE),
        ),
{
    if size > MAX_IN_MEMORY_SIZE {
        Err(MeshLoadError::FileTooLarge(size, MAX_IN_MEMORY_SIZE))
    } else {
        Ok(())
    }
}

/// The smallest of three indices.
pub open spec fn spec_low(a: u32, b: u32, c: u32) -> u32 {
    if a <= b && a <= c {
        a
    } else if b <= c {
        b
    } else {
        c
    }
}

/// The largest of three indices.
pub open spec fn spec_high(a: u32, b: u32, c: u32) -> u32 {
    if a >= b && a >= c {
        a
    } else if b >= c {
        b
    } else {
        c
    }
}

/// Three indices in ascending order.
pub open spec fn spec_sorted(a: u32, b: u32, c: u32) -> (u32, u32, u32) {
    (
        spec_low(a, b, c),
        (a as int + b as int + c as int - spec_low(a, b, c) as int - spec_high(a, b, c) as int) as u32,
        spec_high(a, b, c),
    )
}

/// Two triangles reference the same vertices: their indices agree once
/// each triple is put in ascending order.
pub open spec fn spec_triangles_equal(t1: Seq<u32>, t2: Seq<u32>) -> bool
    recommends
        t1.len() >= 3,
        t2.len() >= 3,
{
    spec_sorted(t1[0], t1[1], t1[2]) == spec_sorted(t2[0], t2[1], t2[2])
}

/// Two triples agree in ascending order exactly when one is a
/// rearrangement of the other.
pub proof fn lemma_sorted_is_rearrangement(a: u32, b: u32, c: u32, d: u32, e: u32, f: u32)
    ensures
        spec_sorted(a, b, c) == spec_sorted(d, e, f) <==> ((d, e, f) == (a, b, c) || (d, e, f) == (
            a,
            c,
            b,
        ) || (d, e, f) == (b, a, c) || (d, e, f) == (b, c, a) || (d, e, f) == (c, a, b) || (d, e, f)
            == (c, b, a)),
{
}

fn sorted(a: u32, b: u32, c: u32) -> (s: (u32, u32, u32))
    ensures
        s == spec_sorted(a, b, c),
{
    let (x, y) = if a <= b {
        (a, b)
    } else {
        (b, a)
    };
    if c <= x {
        (c, x, y)
    } else if c <= y {
        (x, c, y)
    } else {
        (x, y, c)
    }
}

/// Checks if two triangles reference the same vertices. Each slice holds
/// the three indices of a triangle.
pub fn triangles_equal(t1: &[u32], t2: &[u32]) -> (eq: bool)
    requires
        t1@.len() >= 3,
        t2@.len() >= 3,
    ensures
        eq == spec_triangles_equal(t1@, t2@),
{
    let s1 = sorted(t1[0], t1[1], t1[2]);
    let s2 = sorted(t2[0], t2[1], t2[2]);
    s1.0 == s2.0 && s1.1 == s2.1 && s1.2 == s2.2
}

/// The indices of triangle `i` of an index list.
pub open spec fn spec_triangle(indices: Seq<u32>, i: int) -> Seq<u32> {
    indices.subrange(3 * i, 3 * i + 3)
}

/// No triangle of the index list occurs twice. A trailing run of fewer
/// than three indices is no triangle.
pub open spec fn spec_no_duplicates(indices: Seq<u32>) -> bool {
    forall|i: int, j: int|
        0 <= i < j < indices.len() / 3 ==> !spec_triangles_equal(
            #[trigger] spec_triangle(indices, i),
            #[trigger] spec_triangle(indices, j),
        )
}

/// A simplified manifold check: no triangle occurs twice.
pub fn check_manifold(indices: &[u32]) -> (ok: bool)
    ensures
        ok == spec_no_duplicates(indices@),
{
    let count: usize = indices.len() / 3;
    let mut i: usize = 0;
    while i < count
        invariant
            i <= count,
            count == indices@.len() / 3,
            3 * count <= indices@.len() <= usize::MAX,
            forall|a: int, b: int|
                0 <= a < b < count && a < i ==> !spec_triangles_equal(
                    #[trigger] spec_triangle(indices@, a),
                    #[trigger] spec_triangle(indices@, b),
                ),
        decreases count - i,
    {
        let mut j: usize = i + 1;
        while j < count
            invariant
                i < j <= count,
                count == indices@.len() / 3,
                3 * count <= indices@.len() <= usize::MAX,
                forall|b: int|
                    i < b < j ==> !spec_triangles_equal(
                        spec_triangle(indices@, i as int),
                        #[trigger] spec_triangle(indices@, b),
                    ),
            decreases count - j,
        {
            let t1 = vstd::slice::slice_subrange(indices, 3 * i, 3 * i + 3);
            let t2 = vstd::slice::slice_subrange(indices, 3 * j, 3 * j + 3);
            if triangles_equal(t1, t2) {
                assert(spec_triangles_equal(
                    spec_triangle(indices@, i as int),
                    spec_triangle(indices@, j as int),
                ));
                return false;
            }
            j = j + 1;
        }
        i = i + 1;
    }
    true
}

/// The first index from `from` on that names no vertex.
pub open spec fn first_out_of_bounds(indices: Seq<u32>, vertex_count: int, from: int) -> Option<
    int,
>
    decreases indices.len() - from,
{
    if from < 0 || from >= indices.len() {
        None
    } else if indices[from] >= vertex_count {
        Some(from)
    } else {
        first_out_of_bounds(indices, vertex_count, from + 1)
    }
}

/// Why the data of a mesh is not sound, if it is not. The checks run in
/// this order: there are vertex values; their number is a multiple of
/// three; there are indices; their number is a multiple of three; every
/// index names a vertex.
pub open spec fn spec_mesh_fault(vertex_values: usize, indices: Seq<u32>) -> Option<Seq<char>> {
    if vertex_values == 0 {
        Some("Mesh has no vertices"@)
    } else if vertex_values % 3 != 0 {
        Some("Vertex data length not multiple of 3"@)
    } else if indices.len() == 0 {
        Some("Mesh has no triangles"@)
    } else if indices.len() % 3 != 0 {
        Some("Index data length not multiple of 3"@)
    } else if first_out_of_bounds(indices, vertex_values as int / 3, 0) is Some {
        Some(
            "Triangle references out-of-bounds vertex "@ + spec_decimal(
                indices[first_out_of_bounds(indices, vertex_values as int / 3, 0).unwrap()] as nat,
            ),
        )
    } else {
        None
    }
}

/// Validates the integrity of a mesh from the number of its vertex
/// values, three to a vertex, and its triangle indices.
pub fn validate_mesh(vertex_values: usize, indices: &[u32]) -> (r: Result<(), SlicerError>)
    ensures
        match spec_mesh_fault(vertex_values, indices@) {
            Some(reason) => r matches Err(SlicerError::InvalidGeometry(m)) && m@ == reason,
            None => r is Ok,
        },
{
    if vertex_values == 0 {
        return Err(SlicerError::InvalidGeometry(String::from_str("Mesh has no vertices")));
    }
    if vertex_values % 3 != 0 {
        return Err(
            SlicerError::InvalidGeometry(String::from_str("Vertex data length not multiple of 3")),
        );
    }
    if indices.len() == 0 {
        return Err(SlicerError::InvalidGeometry(String::from_str("Mesh has no triangles")));
    }
    if indices.len() % 3 != 0 {
        return Err(
            SlicerError::InvalidGeometry(String::from_str("Index data length not multiple of 3")),
        );
    }
    let vertex_count: usize = vertex_values / 3;
    let mut i: usize = 0;
    while i < indices.len()
        invariant
            i <= indices@.len(),
            vertex_values != 0,
            vertex_values % 3 == 0,
            indices@.len() != 0,
            indices@.len() % 3 == 0,
            vertex_count == vertex_values as int / 3,
            first_out_of_bounds(indices@, vertex_count as int, 0) == first_out_of_bounds(
                indices@,
                vertex_count as int,
                i as int,
            ),
        decreases indices@.len() - i,
    {
        let idx = indices[i];
        if idx as usize >= vertex_count {
            let mut m = String::from_str("Triangle references out-of-bounds vertex ");
            push_decimal(&mut m, idx as u64);
            assert(first_out_of_bounds(indices@, vertex_count as int, i as int) == Some(i as int));
            return Err(SlicerError::InvalidGeometry(m));
        }
        i = i + 1;
    }
    Ok(())
}

} // verus!

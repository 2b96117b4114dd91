//! The GPU-uniform packer: the view-projection matrix as a GPU-buffer-ready
//! value, and its byte-exact serialization.
//!
//! Matrix entries are `f32` values; the verified logic carries each entry as
//! its IEEE-754 bit pattern (a `u32`), which makes the required byte-for-byte
//! determinism a statement about plain integers.

use vstd::prelude::*;

verus! {

/// One column of a 4x4 matrix: the bit patterns of four `f32` components.
#[derive(Clone, Copy, Debug, PartialEq, Eq, Structural)]
pub struct Vec4Bits {
    pub x: u32,
    pub y: u32,
    pub z: u32,
    pub w: u32,
}

/// A 4x4 matrix in column vectors, each entry an `f32` bit pattern.
#[derive(Clone, Copy, Debug, PartialEq, Eq, Structural)]
pub struct Mat4Bits {
    pub x_axis: Vec4Bits,
    pub y_axis: Vec4Bits,
    pub z_axis: Vec4Bits,
    pub w_axis: Vec4Bits,
}

/// The bit pattern of `1.0f32`.
pub const F32_ONE_BITS: u32 = 0x3F80_0000;

/// The identity matrix: ones on the diagonal, zeroes elsewhere.
pub open spec fn identity_matrix() -> Mat4Bits {
    Mat4Bits {
        x_axis: Vec4Bits { x: F32_ONE_BITS, y: 0, z: 0, w: 0 },
        y_axis: Vec4Bits { x: 0, y: F32_ONE_BITS, z: 0, w: 0 },
        z_axis: Vec4Bits { x: 0, y: 0, z: F32_ONE_BITS, w: 0 },
        w_axis: Vec4Bits { x: 0, y: 0, z: 0, w: F32_ONE_BITS },
    }
}

/// The camera uniform: a byte-exact mirror of the view-projection matrix as
/// the shader expects it, 16 packed 32-bit entries, column-major, stored as
/// four rows of four entries each.
#[derive(Clone, Copy, Debug)]
pub struct CameraUniform {
    pub view_proj: [[u32; 4]; 4],
}

/// Whether the packed uniform holds exactly the columns of `m`, in order.
pub open spec fn uniform_matches(u: CameraUniform, m: Mat4Bits) -> bool {
    &&& u.view_proj[0][0] == m.x_axis.x
    &&& u.view_proj[0][1] == m.x_axis.y
    &&& u.view_proj[0][2] == m.x_axis.z
    &&& u.view_proj[0][3] == m.x_axis.w
    &&& u.view_proj[1][0] == m.y_axis.x
    &&& u.view_proj[1][1] == m.y_axis.y
    &&& u.view_proj[1][2] == m.y_axis.z
    &&& u.view_proj[1][3] == m.y_axis.w
    &&& u.view_proj[2][0] == m.z_axis.x
    &&& u.view_proj[2][1] == m.z_axis.y
    &&& u.view_proj[2][2] == m.z_axis.z
    &&& u.view_proj[2][3] == m.z_axis.w
    &&& u.view_proj[3][0] == m.w_axis.x
    &&& u.view_proj[3][1] == m.w_axis.y
    &&& u.view_proj[3][2] == m.w_axis.z
    &&& u.view_proj[3][3] == m.w_axis.w
}

/// The matrix a packed uniform denotes: the four stored rows read back as the
/// four columns they came from.
pub open spec fn matrix_of(u: CameraUniform) -> Mat4Bits {
    Mat4Bits {
        x_axis: Vec4Bits {
            x: u.view_proj[0][0],
            y: u.view_proj[0][1],
            z: u.view_proj[0][2],
            w: u.view_proj[0][3],
        },
        y_axis: Vec4Bits {
            x: u.view_proj[1][0],
            y: u.view_proj[1][1],
            z: u.view_proj[1][2],
            w: u.view_proj[1][3],
        },
        z_axis: Vec4Bits {
            x: u.view_proj[2][0],
            y: u.view_proj[2][1],
            z: u.view_proj[2][2],
            w: u.view_proj[2][3],
        },
        w_axis: Vec4Bits {
            x: u.view_proj[3][0],
            y: u.view_proj[3][1],
            z: u.view_proj[3][2],
            w: u.view_proj[3][3],
        },
    }
}

impl CameraUniform {
    /// A fresh uniform holding the identity matrix.
    pub fn new() -> (u: CameraUniform)
        ensures
            uniform_matches(u, identity_matrix()),
    {
        let vp: [[u32; 4]; 4] = [
            [F32_ONE_BITS, 0, 0, 0],
            [0, F32_ONE_BITS, 0, 0],
            [0, 0, F32_ONE_BITS, 0],
            [0, 0, 0, F32_ONE_BITS],
        ];
        CameraUniform { view_proj: vp }
    }

    /// Overwrites the packed columns with the columns of `m`. The result is a
    /// function of `m` alone: identical matrices give identical uniforms.
    pub fn update_view_proj(&mut self, m: &Mat4Bits)
        ensures
            uniform_matches(*final(self), *m),
    {
        let vp: [[u32; 4]; 4] = [
            [m.x_axis.x, m.x_axis.y, m.x_axis.z, m.x_axis.w],
            [m.y_axis.x, m.y_axis.y, m.y_axis.z, m.y_axis.w],
            [m.z_axis.x, m.z_axis.y, m.z_axis.z, m.z_axis.w],
            [m.w_axis.x, m.w_axis.y, m.w_axis.z, m.w_axis.w],
        ];
        self.view_proj = vp;
    }

    /// Reads the packed columns back into a matrix.
    pub fn to_matrix(&self) -> (m: Mat4Bits)
        ensures
            m == matrix_of(*self),
    {
        Mat4Bits {
            x_axis: Vec4Bits {
                x: self.view_proj[0][0],
                y: self.view_proj[0][1],
                z: self.view_proj[0][2],
                w: self.view_proj[0][3],
            },
            y_axis: Vec4Bits {
                x: self.view_proj[1][0],
                y: self.view_proj[1][1],
                z: self.view_proj[1][2],
                w: self.view_proj[1][3],
            },
            z_axis: Vec4Bits {
                x: self.view_proj[2][0],
                y: self.view_proj[2][1],
                z: self.view_proj[2][2],
                w: self.view_proj[2][3],
            },
            w_axis: Vec4Bits {
                x: self.view_proj[3][0],
                y: self.view_proj[3][1],
                z: self.view_proj[3][2],
                w: self.view_proj[3][3],
            },
        }
    }
}

/// Packing round-trips: a uniform that holds the columns of `m` reads back as
/// exactly `m`, so decomposing and re-composing the packed columns loses
/// nothing.
pub proof fn lemma_uniform_round_trip(u: CameraUniform, m: Mat4Bits)
    requires
        uniform_matches(u, m),
    ensures
        matrix_of(u) == m,
{
}

/// The four little-endian bytes of one 32-bit entry, least significant first.
pub open spec fn word_bytes(w: u32) -> Seq<u8> {
    seq![
        (w & 0xff) as u8,
        ((w >> 8) & 0xff) as u8,
        ((w >> 16) & 0xff) as u8,
        ((w >> 24) & 0xff) as u8,
    ]
}

/// The 16 packed entries in upload order: row by row as stored, which is the
/// column-major order of the matrix.
pub open spec fn uniform_words(u: CameraUniform) -> Seq<u32> {
    seq![
        u.view_proj[0][0], u.view_proj[0][1], u.view_proj[0][2], u.view_proj[0][3],
        u.view_proj[1][0], u.view_proj[1][1], u.view_proj[1][2], u.view_proj[1][3],
        u.view_proj[2][0], u.view_proj[2][1], u.view_proj[2][2], u.view_proj[2][3],
        u.view_proj[3][0], u.view_proj[3][1], u.view_proj[3][2], u.view_proj[3][3],
    ]
}

/// The exact 64-byte buffer image of a packed uniform: each entry's four
/// little-endian bytes, entries in upload order, no padding.
pub open spec fn uniform_bytes_spec(u: CameraUniform) -> Seq<u8> {
    Seq::new(64, |i: int| word_bytes(uniform_words(u)[i / 4])[i % 4])
}

/// Appends the four little-endian bytes of `w`.
pub(crate) fn push_word_le(out: &mut Vec<u8>, w: u32)
    ensures
        final(out)@ == old(out)@ + word_bytes(w),
{
    proof {
        assert((w & 0xff) < 256 && ((w >> 8) & 0xff) < 256 && ((w >> 16) & 0xff) < 256 && ((w
            >> 24) & 0xff) < 256) by (bit_vector);
    }
    out.push((w & 0xff) as u8);
    out.push(((w >> 8) & 0xff) as u8);
    out.push(((w >> 16) & 0xff) as u8);
    out.push(((w >> 24) & 0xff) as u8);
    proof {
        assert(out@ =~= old(out)@ + word_bytes(w));
    }
}

/// Serializes a packed uniform to the exact 64 bytes the GPU buffer holds.
/// Identical uniforms give identical bytes.
pub fn uniform_bytes(u: &CameraUniform) -> (r: Vec<u8>)
    ensures
        r@ == uniform_bytes_spec(*u),
        r@.len() == 64,
{
    let mut out: Vec<u8> = Vec::new();
    let mut row: usize = 0;
    while row < 4
        invariant
            row <= 4,
            out@.len() == 16 * row,
            forall|i: int|
                0 <= i < out@.len() ==> out@[i] == word_bytes(uniform_words(*u)[i / 4])[i % 4],
        decreases 4 - row,
    {
        let mut col: usize = 0;
        while col < 4
            invariant
                row < 4,
                col <= 4,
                out@.len() == 16 * row + 4 * col,
                forall|i: int|
                    0 <= i < out@.len() ==> out@[i] == word_bytes(uniform_words(*u)[i / 4])[i % 4],
            decreases 4 - col,
        {
            push_word_le(&mut out, u.view_proj[row][col]);
            proof {
                assert(uniform_words(*u)[4 * row + col] == u.view_proj[row as int][col as int]);
            }
            col = col + 1;
        }
        row = row + 1;
    }
    proof {
        assert(out@ =~= uniform_bytes_spec(*u));
    }
    out
}

} // verus!

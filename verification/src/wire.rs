//! Byte layout of the data shared between host and device.
//!
//! Both shader programs read the parameter block and the sphere array as runs
//! of 32-bit words. A number that the device reads as single precision is held
//! here by its IEEE-754 bit pattern, so a value of this module is exactly what
//! lands in device memory. Field order and padding are part of the contract
//! with the shaders: the functions below fix them, and the laws at the end of
//! the file say at which byte each field lies.

use vstd::prelude::*;

verus! {

/// Hard ceiling on the number of spheres; the device-side array has this many
/// elements whatever the live count.
pub const MAX_SPHERES_COUNT: usize = 100;

/// Bytes in one word.
pub const WORD_SIZE: u64 = 4;

/// Words in a parameter block.
pub const PARAMS_WORDS: usize = 8;

/// Words in one sphere.
pub const SPHERE_WORDS: usize = 8;

/// Bytes in a parameter block: a multiple of 16, as uniform blocks must be.
pub const PARAMS_SIZE: u64 = 32;

/// Bytes in one sphere.
pub const SPHERE_SIZE: u64 = 32;

/// Bytes in a sphere buffer: room for `MAX_SPHERES_COUNT` spheres.
pub const SPHERES_BUFFER_SIZE: u64 = 3200;

/// Order in which the bytes of a word lie in memory.
#[derive(Clone, Copy, Debug, PartialEq, Eq, Structural)]
pub enum ByteOrder {
    LittleEndian,
    BigEndian,
}

/// One sphere as the device reads it.
#[derive(Clone, Copy, Debug, PartialEq, Eq)]
pub struct Sphere {
    /// Centre: x, y, z.
    pub pos: [u32; 3],
    /// Radius.
    pub r: u32,
    /// Velocity: x, y, z; the fourth word is unused.
    pub vel: [u32; 4],
}

/// The per-frame parameter block as the device reads it.
#[derive(Clone, Copy, Debug, PartialEq, Eq)]
pub struct RayTracingParams {
    /// Camera position, homogeneous.
    pub camera_pos: [u32; 4],
    /// Width of the surface over its height.
    pub aspect_ratio: u32,
    /// Number of live spheres: an integer, not a bit pattern.
    pub spheres_count: u32,
    /// Seconds since the previous frame.
    pub time_elapsed: u32,
    /// Fills the block up to `PARAMS_SIZE`.
    pub padding: u32,
}

/// The four bytes of `word`, least significant first.
pub open spec fn word_le_bytes(word: u32) -> Seq<u8> {
    seq![
        (word % 256) as u8,
        (word / 256 % 256) as u8,
        (word / 65536 % 256) as u8,
        (word / 16777216) as u8,
    ]
}

/// The four bytes of `word` as they lie in memory under `order`.
pub open spec fn word_bytes(word: u32, order: ByteOrder) -> Seq<u8> {
    match order {
        ByteOrder::LittleEndian => word_le_bytes(word),
        ByteOrder::BigEndian => word_le_bytes(word).reverse(),
    }
}

/// The bytes of a run of words laid out back to back under `order`.
pub open spec fn words_bytes(words: Seq<u32>, order: ByteOrder) -> Seq<u8> {
    Seq::new(4 * words.len(), |i: int| word_bytes(words[i / 4], order)[i % 4])
}

/// `bytes` is the memory image of `words` on a machine of either byte order.
pub open spec fn is_memory_image(words: Seq<u32>, bytes: Seq<u8>) -> bool {
    ||| bytes == words_bytes(words, ByteOrder::LittleEndian)
    ||| bytes == words_bytes(words, ByteOrder::BigEndian)
}

/// The words of one sphere, in wire order.
pub open spec fn sphere_words(s: Sphere) -> Seq<u32> {
    seq![s.pos[0], s.pos[1], s.pos[2], s.r, s.vel[0], s.vel[1], s.vel[2], s.vel[3]]
}

/// The words of a sphere array: each sphere's words, one sphere after another.
pub open spec fn spheres_words(spheres: Seq<Sphere>) -> Seq<u32> {
    Seq::new(8 * spheres.len(), |i: int| sphere_words(spheres[i / 8])[i % 8])
}

/// The words of a parameter block, in wire order.
pub open spec fn params_words(p: RayTracingParams) -> Seq<u32> {
    seq![
        p.camera_pos[0],
        p.camera_pos[1],
        p.camera_pos[2],
        p.camera_pos[3],
        p.aspect_ratio,
        p.spheres_count,
        p.time_elapsed,
        p.padding,
    ]
}

/// Calls `bytemuck::cast_slice::<u32, u8>` and copies what it returns.
///
/// The cast hands back the words' own memory as a byte slice: four bytes per
/// word, in the byte order of the machine. For this pair of types it has no
/// failing case. The contract is read off the crate's source; it is not proved.
#[verifier::external_body]
fn cast_words(words: &[u32]) -> (bytes: Vec<u8>)
    ensures
        is_memory_image(words@, bytes@),
{
    bytemuck::cast_slice::<u32, u8>(words).to_vec()
}

impl Sphere {
    /// Appends the sphere's words to `words`.
    fn push_words(&self, words: &mut Vec<u32>)
        ensures
            final(words)@ == old(words)@ + sphere_words(*self),
    {
        words.push(self.pos[0]);
        words.push(self.pos[1]);
        words.push(self.pos[2]);
        words.push(self.r);
        words.push(self.vel[0]);
        words.push(self.vel[1]);
        words.push(self.vel[2]);
        words.push(self.vel[3]);
    }
}

/// The bytes to write into a sphere buffer for `spheres`, starting at offset 0.
pub fn spheres_to_bytes(spheres: &Vec<Sphere>) -> (bytes: Vec<u8>)
    ensures
        is_memory_image(spheres_words(spheres@), bytes@),
        bytes@.len() == SPHERE_SIZE * spheres@.len(),
{
    let mut words: Vec<u32> = Vec::new();
    let mut k: usize = 0;
    while k < spheres.len()
        invariant
            k <= spheres.len(),
            words@ == spheres_words(spheres@.take(k as int)),
        decreases spheres.len() - k,
    {
        let ghost before = words@;
        spheres[k].push_words(&mut words);
        proof {
            let done = spheres@.take(k as int);
            let next = spheres@.take(k as int + 1);
            assert forall|i: int| 0 <= i < words@.len() implies words@[i] == spheres_words(
                next,
            )[i] by {
                if i < 8 * k {
                    assert(before[i] == sphere_words(done[i / 8])[i % 8]);
                } else {
                    assert(i / 8 == k as int);
                }
            }
        }
        k = k + 1;
    }
    assert(spheres@.take(k as int) =~= spheres@);
    cast_words(words.as_slice())
}

impl RayTracingParams {
    /// The bytes to write into the parameter buffer, starting at offset 0.
    pub fn to_bytes(&self) -> (bytes: Vec<u8>)
        ensures
            is_memory_image(params_words(*self), bytes@),
            bytes@.len() == PARAMS_SIZE,
    {
        let mut words: Vec<u32> = Vec::new();
        words.push(self.camera_pos[0]);
        words.push(self.camera_pos[1]);
        words.push(self.camera_pos[2]);
        words.push(self.camera_pos[3]);
        words.push(self.aspect_ratio);
        words.push(self.spheres_count);
        words.push(self.time_elapsed);
        words.push(self.padding);
        assert(words@ =~= params_words(*self));
        cast_words(words.as_slice())
    }
}

/// The least-significant-first bytes of a word add up to the word again, so
/// nothing of it is lost on the wire.
pub proof fn law_word_bytes_value(word: u32)
    ensures
        word_le_bytes(word).len() == 4,
        word == word_le_bytes(word)[0] + 256 * word_le_bytes(word)[1] + 65536 * word_le_bytes(
            word,
        )[2] + 16777216 * word_le_bytes(word)[3],
{
}

/// Word `i` of a run occupies the four bytes from offset `4 * i`.
pub proof fn lemma_word_at_offset(words: Seq<u32>, order: ByteOrder, i: int)
    requires
        0 <= i < words.len(),
    ensures
        words_bytes(words, order).len() == 4 * words.len(),
        words_bytes(words, order).subrange(4 * i, 4 * i + 4) == word_bytes(words[i], order),
{
    let part = words_bytes(words, order).subrange(4 * i, 4 * i + 4);
    assert forall|j: int| 0 <= j < 4 implies part[j] == word_bytes(words[i], order)[j] by {
        assert((4 * i + j) / 4 == i);
        assert((4 * i + j) % 4 == j);
    }
}

/// Byte offsets of the fields of a parameter block: camera position at 0,
/// aspect ratio at 16, sphere count at 20, elapsed time at 24, padding at 28.
pub proof fn law_params_layout(p: RayTracingParams, order: ByteOrder)
    ensures
        words_bytes(params_words(p), order).len() == PARAMS_SIZE,
        forall|c: int|
            0 <= c < 4 ==> #[trigger] words_bytes(params_words(p), order).subrange(
                4 * c,
                4 * c + 4,
            ) == word_bytes(p.camera_pos[c], order),
        words_bytes(params_words(p), order).subrange(16, 20) == word_bytes(p.aspect_ratio, order),
        words_bytes(params_words(p), order).subrange(20, 24) == word_bytes(p.spheres_count, order),
        words_bytes(params_words(p), order).subrange(24, 28) == word_bytes(p.time_elapsed, order),
        words_bytes(params_words(p), order).subrange(28, 32) == word_bytes(p.padding, order),
{
    let words = params_words(p);
    assert forall|c: int| 0 <= c < 4 implies #[trigger] words_bytes(words, order).subrange(
        4 * c,
        4 * c + 4,
    ) == word_bytes(p.camera_pos[c], order) by {
        lemma_word_at_offset(words, order, c);
    }
    lemma_word_at_offset(words, order, 4);
    lemma_word_at_offset(words, order, 5);
    lemma_word_at_offset(words, order, 6);
    lemma_word_at_offset(words, order, 7);
}

/// Sphere `i` of an array occupies the `SPHERE_SIZE` bytes from offset
/// `SPHERE_SIZE * i`, and an array within the ceiling fits a sphere buffer.
pub proof fn law_spheres_layout(spheres: Seq<Sphere>, order: ByteOrder, i: int)
    requires
        0 <= i < spheres.len(),
    ensures
        words_bytes(spheres_words(spheres), order).len() == SPHERE_SIZE * spheres.len(),
        words_bytes(spheres_words(spheres), order).subrange(
            SPHERE_SIZE * i,
            SPHERE_SIZE * i + SPHERE_SIZE,
        ) == words_bytes(sphere_words(spheres[i]), order),
        spheres.len() <= MAX_SPHERES_COUNT ==> words_bytes(spheres_words(spheres), order).len()
            <= SPHERES_BUFFER_SIZE,
{
    let part = words_bytes(spheres_words(spheres), order).subrange(32 * i, 32 * i + 32);
    let one = words_bytes(sphere_words(spheres[i]), order);
    assert forall|j: int| 0 <= j < 32 implies part[j] == one[j] by {
        let word = 8 * i + j / 4;
        assert((32 * i + j) / 4 == word);
        assert((32 * i + j) % 4 == j % 4);
        assert(word / 8 == i);
        assert(word % 8 == j / 4);
    }
}

} // verus!

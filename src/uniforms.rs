use vstd::prelude::*;

verus! {

/// Bloom settings. Each value is the bit pattern of a 32-bit IEEE-754 float,
/// which is how the shaders read it.
#[derive(Debug, Clone, Copy, PartialEq, Eq, Structural, Default)]
pub struct Bloom {
    pub intensity: u32,
    pub threshold: u32,
}

/// The scene's post-processing settings.
#[derive(Debug, Clone, Copy, PartialEq, Eq, Structural, Default)]
pub struct PostProcessing {
    pub bloom: Bloom,
}

/// Size in bytes of one uniform word.
pub const WORD_BYTES: u64 = 4;

/// Size in bytes of the bright-pass uniforms: intensity and threshold.
pub const BRIGHT_UNIFORMS_SIZE: u64 = 8;

/// Size in bytes of the composite uniforms: exposure.
pub const COMPOSITE_UNIFORMS_SIZE: u64 = 4;

/// Relies on bytemuck::cast_slice from `u32` to `u8`: the words' bytes in memory
/// order, four for each word. Word `i` fills bytes `4 i` to `4 i + 4`, and two
/// words have the same bytes exactly when they are equal; which bytes a word
/// gives depends on the machine's byte order.
#[verifier::external_body]
fn cast_words_to_bytes(words: &[u32]) -> (r: Vec<u8>)
    requires
        words@.len() * 4 <= usize::MAX,
    ensures
        r@.len() == 4 * words@.len(),
        forall|i: int, j: int|
            0 <= i < words@.len() && 0 <= j < words@.len() ==> (#[trigger] words@[i] == #[trigger] words@[j]
                <==> r@.subrange(4 * i, 4 * i + 4) == r@.subrange(4 * j, 4 * j + 4)),
{
    bytemuck::cast_slice::<u32, u8>(words).to_vec()
}

/// The bytes a uniform buffer holding `words` is written with, four per word in
/// the machine's byte order.
pub fn uniform_bytes(words: &Vec<u32>) -> (r: Vec<u8>)
    requires
        words@.len() * 4 <= usize::MAX,
    ensures
        r@.len() == 4 * words@.len(),
        forall|i: int, j: int|
            0 <= i < words@.len() && 0 <= j < words@.len() ==> (#[trigger] words@[i] == #[trigger] words@[j]
                <==> r@.subrange(4 * i, 4 * i + 4) == r@.subrange(4 * j, 4 * j + 4)),
{
    cast_words_to_bytes(words.as_slice())
}

/// The words of the bloom bright-pass uniforms: intensity, then threshold.
pub fn bright_uniform_words(bloom: &Bloom) -> (r: Vec<u32>)
    ensures
        r@ == seq![bloom.intensity, bloom.threshold],
{
    let mut words: Vec<u32> = Vec::new();
    words.push(bloom.intensity);
    words.push(bloom.threshold);
    assert(words@ =~= seq![bloom.intensity, bloom.threshold]);
    words
}

/// The words of the render-target bright-pass uniforms: threshold, then intensity.
pub fn bright_pass_uniform_words(bloom: &Bloom) -> (r: Vec<u32>)
    ensures
        r@ == seq![bloom.threshold, bloom.intensity],
{
    let mut words: Vec<u32> = Vec::new();
    words.push(bloom.threshold);
    words.push(bloom.intensity);
    assert(words@ =~= seq![bloom.threshold, bloom.intensity]);
    words
}

/// The words of the composite uniforms: the camera's exposure.
pub fn composite_uniform_words(exposure: u32) -> (r: Vec<u32>)
    ensures
        r@ == seq![exposure],
{
    let mut words: Vec<u32> = Vec::new();
    words.push(exposure);
    assert(words@ =~= seq![exposure]);
    words
}

} // verus!

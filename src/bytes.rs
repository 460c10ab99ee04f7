use vstd::prelude::*;
use crate::sort::SortEntry;

verus! {

/// Bytes of one uniform block: 56 words.
pub const UNIFORM_BLOCK_SIZE: usize = 224;

/// The little-endian bytes of `w`.
pub open spec fn word_bytes(w: u32) -> Seq<u8> {
    seq![(w & 0xff) as u8, ((w >> 8u32) & 0xff) as u8, ((w >> 16u32) & 0xff) as u8, ((w >> 24u32) & 0xff) as u8]
}

/// The words of `ws` laid out one after the other, each little-endian.
pub open spec fn words_bytes(ws: Seq<u32>) -> Seq<u8>
    decreases ws.len(),
{
    if ws.len() == 0 {
        seq![]
    } else {
        words_bytes(ws.drop_last()) + word_bytes(ws.last())
    }
}

/// The words of sort entries: depth key, then splat index, for each entry.
pub open spec fn entry_words(s: Seq<SortEntry>) -> Seq<u32>
    decreases s.len(),
{
    if s.len() == 0 {
        seq![]
    } else {
        entry_words(s.drop_last()) + seq![s.last().0, s.last().1]
    }
}

pub proof fn lemma_words_bytes_len(ws: Seq<u32>)
    ensures
        words_bytes(ws).len() == 4 * ws.len(),
    decreases ws.len(),
{
    if ws.len() > 0 {
        lemma_words_bytes_len(ws.drop_last());
    }
}

/// Appends the little-endian bytes of `w`.
fn push_word(out: &mut Vec<u8>, w: u32)
    ensures
        final(out)@ == old(out)@ + word_bytes(w),
{
    out.push((w & 0xff) as u8);
    out.push(((w >> 8u32) & 0xff) as u8);
    out.push(((w >> 16u32) & 0xff) as u8);
    out.push(((w >> 24u32) & 0xff) as u8);
    assert(out@ =~= old(out)@ + word_bytes(w));
}

/// Lays out `words` as GPU buffer bytes, each word little-endian.
pub fn words_to_bytes(words: &Vec<u32>) -> (r: Vec<u8>)
    ensures
        r@ == words_bytes(words@),
        r.len() == 4 * words.len(),
{
    let mut out: Vec<u8> = Vec::new();
    let mut i: usize = 0;
    while i < words.len()
        invariant
            i <= words.len(),
            out@ == words_bytes(words@.subrange(0, i as int)),
        decreases words.len() - i,
    {
        push_word(&mut out, words[i]);
        assert(words@.subrange(0, i + 1).drop_last() =~= words@.subrange(0, i as int));
        i = i + 1;
    }
    assert(words@.subrange(0, words.len() as int) =~= words@);
    proof {
        lemma_words_bytes_len(words@);
    }
    out
}

/// Lays out sort entries as GPU buffer bytes: key, then index, each little-endian.
pub fn entries_to_bytes(entries: &Vec<SortEntry>) -> (r: Vec<u8>)
    ensures
        r@ == words_bytes(entry_words(entries@)),
{
    let mut words: Vec<u32> = Vec::new();
    let mut i: usize = 0;
    while i < entries.len()
        invariant
            i <= entries.len(),
            words@ == entry_words(entries@.subrange(0, i as int)),
        decreases entries.len() - i,
    {
        let e = entries[i];
        words.push(e.0);
        words.push(e.1);
        assert(entries@.subrange(0, i + 1).drop_last() =~= entries@.subrange(0, i as int));
        assert(words@ =~= entry_words(entries@.subrange(0, i + 1)));
        i = i + 1;
    }
    assert(entries@.subrange(0, entries.len() as int) =~= entries@);
    words_to_bytes(&words)
}

/// The uniform block shared with the shaders. Every field is the bit pattern of an
/// `f32` but `image_size`, which holds pixels.
#[derive(Clone, Copy, Debug)]
pub struct Uniforms {
    pub camera_matrix: [u32; 16],
    pub view_matrix: [u32; 16],
    pub view_projection_matrix: [u32; 16],
    pub view_size: [u32; 2],
    pub image_size: [u32; 2],
    pub frustum_culling_tolerance: u32,
    pub ellipse_size_bias: u32,
    pub ellipse_margin: u32,
    pub splat_scale: u32,
}

fn push_words(out: &mut Vec<u32>, a: &[u32])
    ensures
        final(out)@ == old(out)@ + a@,
{
    let mut i: usize = 0;
    while i < a.len()
        invariant
            i <= a.len(),
            out@ == old(out)@ + a@.subrange(0, i as int),
        decreases a.len() - i,
    {
        out.push(a[i]);
        assert(out@ =~= old(out)@ + a@.subrange(0, i + 1));
        i = i + 1;
    }
    assert(a@.subrange(0, a.len() as int) =~= a@);
}

impl Uniforms {
    /// The words of the block in field order, with no padding.
    pub open spec fn words(&self) -> Seq<u32> {
        self.camera_matrix@ + self.view_matrix@ + self.view_projection_matrix@ + self.view_size@
            + self.image_size@ + seq![
            self.frustum_culling_tolerance,
            self.ellipse_size_bias,
            self.ellipse_margin,
            self.splat_scale,
        ]
    }

    /// The bytes uploaded to the uniform buffer.
    pub fn to_bytes(&self) -> (r: Vec<u8>)
        ensures
            r@ == words_bytes(self.words()),
            r.len() == UNIFORM_BLOCK_SIZE,
    {
        let mut words: Vec<u32> = Vec::new();
        push_words(&mut words, self.camera_matrix.as_slice());
        push_words(&mut words, self.view_matrix.as_slice());
        push_words(&mut words, self.view_projection_matrix.as_slice());
        push_words(&mut words, self.view_size.as_slice());
        push_words(&mut words, self.image_size.as_slice());
        words.push(self.frustum_culling_tolerance);
        words.push(self.ellipse_size_bias);
        words.push(self.ellipse_margin);
        words.push(self.splat_scale);
        assert(words@ =~= self.words());
        words_to_bytes(&words)
    }
}

} // verus!

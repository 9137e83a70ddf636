//! The PCM line encoder: fixed-length FIFO delayers, the round-robin
//! interleaver with parity word injection, and the assembly of CRC-sealed
//! 128-bit line words.

use crate::crc::{add_crc_to_data, crc16_spec, crc_sealed};
use vstd::prelude::*;

verus! {

/// A sequence of `n` zero words.
pub open spec fn zero_seq(n: nat) -> Seq<u16> {
    Seq::new(n, |i: int| 0u16)
}

/// One feed of a delayer buffer: the new word enters at the front, every
/// stored word moves one slot toward the output, the oldest word falls out.
pub open spec fn delayer_feed(buf: Seq<u16>, sample: u16) -> Seq<u16>
    recommends
        buf.len() >= 1,
{
    seq![sample] + buf.drop_last()
}

/// The buffer of a delayer of delay length `n` after feeding `feeds` into a
/// fresh (all-zero) buffer, oldest feed first.
pub open spec fn delayer_run(n: nat, feeds: Seq<u16>) -> Seq<u16>
    decreases feeds.len(),
{
    if feeds.len() == 0 {
        zero_seq(n + 1)
    } else {
        delayer_feed(delayer_run(n, feeds.drop_last()), feeds.last())
    }
}

proof fn lemma_delayer_run_contents(n: nat, feeds: Seq<u16>)
    ensures
        delayer_run(n, feeds).len() == n + 1,
        forall|i: int|
            0 <= i <= n ==> delayer_run(n, feeds)[i] == (if feeds.len() > i {
                feeds[feeds.len() - 1 - i]
            } else {
                0u16
            }),
    decreases feeds.len(),
{
    if feeds.len() == 0 {
    } else {
        let prev = delayer_run(n, feeds.drop_last());
        lemma_delayer_run_contents(n, feeds.drop_last());
        assert forall|i: int|
            0 <= i <= n implies delayer_run(n, feeds)[i] == (if feeds.len() > i {
            feeds[feeds.len() - 1 - i]
        } else {
            0u16
        }) by {
            if i == 0 {
            } else {
                assert(delayer_run(n, feeds)[i] == prev[i - 1]);
            }
        }
    }
}

/// Delayer law: after any sequence of feeds into a fresh delayer of delay
/// length `n`, the output is the feed made `n` steps before the latest one,
/// and zero while fewer than `n + 1` feeds have been made.
pub proof fn lemma_delayer_law(n: nat, feeds: Seq<u16>)
    ensures
        delayer_run(n, feeds).len() == n + 1,
        delayer_run(n, feeds).last() == (if feeds.len() > n {
            feeds[feeds.len() - 1 - n]
        } else {
            0u16
        }),
{
    lemma_delayer_run_contents(n, feeds);
}

/// A fixed-capacity FIFO of 16-bit words; a delay length of `n` means the
/// buffer holds `n + 1` words and the output is the word fed `n` steps ago.
pub struct FIFODelayer {
    buf: Vec<u16>,
}

impl View for FIFODelayer {
    type V = Seq<u16>;

    closed spec fn view(&self) -> Seq<u16> {
        self.buf@
    }
}

impl FIFODelayer {
    /// The buffer is never empty.
    pub open spec fn wf(&self) -> bool {
        self@.len() >= 1
    }

    /// A fresh delayer of the given delay length, holding all zeros.
    pub fn new(delay_length: u8) -> (r: Self)
        ensures
            r@ == zero_seq(delay_length as nat + 1),
            r.wf(),
    {
        let n: usize = delay_length as usize + 1;
        let mut buf: Vec<u16> = Vec::new();
        let mut i: usize = 0;
        while i < n
            invariant
                i <= n,
                buf@ == zero_seq(i as nat),
            decreases n - i,
        {
            buf.push(0);
            proof {
                assert(buf@ =~= zero_seq(i as nat + 1));
            }
            i = i + 1;
        }
        FIFODelayer { buf }
    }

    /// Feeds one word into the FIFO.
    pub fn feed(&mut self, sample: u16)
        requires
            old(self).wf(),
        ensures
            final(self)@ == delayer_feed(old(self)@, sample),
            final(self).wf(),
    {
        let len = self.buf.len();
        let mut i: usize = len - 1;
        while i >= 1
            invariant
                1 <= len,
                len == self.buf@.len(),
                i <= len - 1,
                forall|j: int| i < j < len ==> self.buf@[j] == old(self)@[j - 1],
                forall|j: int| 0 <= j <= i ==> self.buf@[j] == old(self)@[j],
            decreases i,
        {
            let tmp = self.buf[i - 1];
            self.buf[i] = tmp;
            i = i - 1;
        }
        self.buf[0] = sample;
        proof {
            assert(self.buf@ =~= delayer_feed(old(self)@, sample));
        }
    }

    /// The delayed output: the oldest word still held.
    pub fn get_output(&self) -> (r: u16)
        requires
            self.wf(),
        ensures
            r == self@.last(),
    {
        self.buf[self.buf.len() - 1]
    }
}

/// Mathematical state of the encoder: the seven delayer buffers and the
/// window of up to two stereo samples awaiting completion of a triplet.
/// The round-robin input cursor is always twice the window length.
pub ghost struct EngineModel {
    pub delayers: Seq<Seq<u16>>,
    pub window: Seq<[u16; 2]>,
}

impl EngineModel {
    pub open spec fn wf(self) -> bool {
        &&& self.delayers.len() == 7
        &&& forall|d: int| 0 <= d < 7 ==> (#[trigger] self.delayers[d]).len() == 16 * d + 1
        &&& self.window.len() < 3
    }

    /// The round-robin cursor: the index of the delayer that receives the
    /// next 16-bit word.
    pub open spec fn cursor(self) -> int {
        2 * self.window.len() as int
    }
}

/// The state of a freshly constructed encoder: all-zero delayers of delay
/// lengths 0, 16, ..., 96 and an empty triplet window.
pub open spec fn initial_model() -> EngineModel {
    EngineModel {
        delayers: Seq::new(7, |d: int| zero_seq((16 * d + 1) as nat)),
        window: Seq::empty(),
    }
}

/// The parity word P of a window: the XOR of both channel words of every
/// stereo sample in it.
pub open spec fn p_of_window(w: Seq<[u16; 2]>) -> u16
    decreases w.len(),
{
    if w.len() == 0 {
        0
    } else {
        p_of_window(w.drop_last()) ^ w.last()[0] ^ w.last()[1]
    }
}

/// The S word: the low 2 bits of each delayer output, multiplexed into one
/// 14-bit word, delayer 0 highest.
pub open spec fn s_word_of(outs: Seq<u16>) -> u16
    recommends
        outs.len() == 7,
{
    ((outs[0] & 0x3) << 12) | ((outs[1] & 0x3) << 10) | ((outs[2] & 0x3) << 8) | ((outs[3] & 0x3)
        << 6) | ((outs[4] & 0x3) << 4) | ((outs[5] & 0x3) << 2) | (outs[6] & 0x3)
}

/// The unsealed 128-bit line word assembled from the seven delayer outputs:
/// the top 14 bits of each output in bits [127:30], the S word in bits
/// [29:16], and zeros in the CRC field [15:0].
pub open spec fn line_word_of(outs: Seq<u16>) -> u128
    recommends
        outs.len() == 7,
{
    (((outs[0] >> 2) as u128) << 114) | (((outs[1] >> 2) as u128) << 100) | (((outs[2] >> 2)
        as u128) << 86) | (((outs[3] >> 2) as u128) << 72) | (((outs[4] >> 2) as u128) << 58) | (((
    outs[5] >> 2) as u128) << 44) | (((outs[6] >> 2) as u128) << 30) | ((s_word_of(outs) as u128)
        << 16)
}

/// The CRC-sealed line word assembled from the seven delayer outputs.
pub open spec fn sealed_line_word_of(outs: Seq<u16>) -> u128
    recommends
        outs.len() == 7,
{
    crc_sealed(line_word_of(outs))
}

/// The current outputs of the seven delayers.
pub open spec fn outputs_of(delayers: Seq<Seq<u16>>) -> Seq<u16>
    recommends
        delayers.len() == 7,
{
    Seq::new(7, |d: int| delayers[d].last())
}

/// One submitted stereo sample: the left then the right word feed the
/// delayers at the cursor and after it, and the sample joins the window.
/// When the window reaches three samples, the parity word P feeds the
/// seventh delayer, the window empties (returning the cursor to 0), and the
/// sealed line word of the new delayer outputs is emitted.
pub open spec fn submit_spec(m: EngineModel, sample: [u16; 2]) -> (EngineModel, Option<u128>)
    recommends
        m.wf(),
{
    let c = m.cursor();
    let fed_left = m.delayers.update(c, delayer_feed(m.delayers[c], sample[0]));
    let fed_right = fed_left.update(c + 1, delayer_feed(fed_left[c + 1], sample[1]));
    let window = m.window.push(sample);
    if window.len() == 3 {
        let p = p_of_window(window);
        let fed_p = fed_right.update(6, delayer_feed(fed_right[6], p));
        (
            EngineModel { delayers: fed_p, window: Seq::empty() },
            Some(sealed_line_word_of(outputs_of(fed_p))),
        )
    } else {
        (EngineModel { delayers: fed_right, window }, None)
    }
}

/// Feeding a sample preserves well-formedness of the model.
pub proof fn lemma_submit_preserves_wf(m: EngineModel, sample: [u16; 2])
    requires
        m.wf(),
    ensures
        submit_spec(m, sample).0.wf(),
{
    let c = m.cursor();
    assert(delayer_feed(m.delayers[c], sample[0]).len() == m.delayers[c].len());
}

/// Parity law: for a window of three stereo samples, the parity word is the
/// XOR of their six 16-bit channel words.
pub proof fn lemma_p_parity(w: Seq<[u16; 2]>)
    requires
        w.len() == 3,
    ensures
        p_of_window(w) == w[0][0] ^ w[0][1] ^ w[1][0] ^ w[1][1] ^ w[2][0] ^ w[2][1],
{
    let w2 = w.drop_last();
    let w1 = w2.drop_last();
    let w0 = w1.drop_last();
    assert(w0.len() == 0);
    assert(w1.last() == w[0] && w2.last() == w[1] && w.last() == w[2]);
    let a = w[0][0];
    let b = w[0][1];
    let c = w[1][0];
    let d = w[1][1];
    let e = w[2][0];
    let f = w[2][1];
    assert(p_of_window(w0) == 0);
    assert(p_of_window(w1) == 0u16 ^ a ^ b);
    assert(p_of_window(w2) == (0u16 ^ a ^ b) ^ c ^ d);
    assert(p_of_window(w) == ((0u16 ^ a ^ b) ^ c ^ d) ^ e ^ f);
    assert(((0u16 ^ a ^ b) ^ c ^ d) ^ e ^ f == a ^ b ^ c ^ d ^ e ^ f) by (bit_vector);
}

/// Cursor cycle law: from an empty triplet window, the first two submitted
/// samples emit nothing; the third (after which seven words, the synthesized
/// P included, have been fed) emits exactly one line word and leaves the
/// window empty, returning the cursor to 0.
pub proof fn lemma_cursor_cycle(m: EngineModel, s0: [u16; 2], s1: [u16; 2], s2: [u16; 2])
    requires
        m.wf(),
        m.window.len() == 0,
    ensures
        ({
            let (m1, r0) = submit_spec(m, s0);
            let (m2, r1) = submit_spec(m1, s1);
            let (m3, r2) = submit_spec(m2, s2);
            &&& r0 is None
            &&& r1 is None
            &&& r2 is Some
            &&& m3.window.len() == 0
            &&& m3.cursor() == 0
            &&& m3.wf()
        }),
{
    let (m1, r0) = submit_spec(m, s0);
    lemma_submit_preserves_wf(m, s0);
    let (m2, r1) = submit_spec(m1, s1);
    lemma_submit_preserves_wf(m1, s1);
    let (m3, r2) = submit_spec(m2, s2);
    lemma_submit_preserves_wf(m2, s2);
}

/// The number of line words emitted when `samples` are submitted in order
/// to an engine in state `m`.
pub open spec fn run_emissions(m: EngineModel, samples: Seq<[u16; 2]>) -> nat
    decreases samples.len(),
{
    if samples.len() == 0 {
        0
    } else {
        let step = submit_spec(m, samples.first());
        (if step.1 is Some {
            1nat
        } else {
            0nat
        }) + run_emissions(step.0, samples.drop_first())
    }
}

proof fn lemma_run_emissions_count(m: EngineModel, samples: Seq<[u16; 2]>)
    requires
        m.wf(),
    ensures
        run_emissions(m, samples) == (m.window.len() + samples.len()) / 3,
    decreases samples.len(),
{
    if samples.len() == 0 {
    } else {
        let step = submit_spec(m, samples.first());
        lemma_submit_preserves_wf(m, samples.first());
        lemma_run_emissions_count(step.0, samples.drop_first());
        if m.window.len() == 2 {
            vstd::arithmetic::div_mod::lemma_div_plus_one(samples.len() - 1, 3);
        }
    }
}

/// Emission rate law: submitting 3·N stereo samples to an engine whose
/// triplet window is empty emits exactly N line words.
pub proof fn lemma_emission_rate(m: EngineModel, samples: Seq<[u16; 2]>)
    requires
        m.wf(),
        m.window.len() == 0,
        samples.len() % 3 == 0,
    ensures
        run_emissions(m, samples) == samples.len() / 3,
{
    lemma_run_emissions_count(m, samples);
}

/// Line word well-formedness: in a sealed line word the low 16 bits carry
/// exactly the CRC-16/CCITT-FALSE of the upper 112 bits, each 14-bit audio
/// field equals the corresponding delayer output shifted right by 2, and
/// bits [29:16] carry the S word.
pub proof fn lemma_line_word_wellformed(outs: Seq<u16>)
    requires
        outs.len() == 7,
    ensures
        ({
            let w = sealed_line_word_of(outs);
            &&& w & 0xFFFF == crc16_spec(w >> 16, 112)
            &&& (w >> 114) & 0x3FFF == outs[0] >> 2
            &&& (w >> 100) & 0x3FFF == outs[1] >> 2
            &&& (w >> 86) & 0x3FFF == outs[2] >> 2
            &&& (w >> 72) & 0x3FFF == outs[3] >> 2
            &&& (w >> 58) & 0x3FFF == outs[4] >> 2
            &&& (w >> 44) & 0x3FFF == outs[5] >> 2
            &&& (w >> 30) & 0x3FFF == outs[6] >> 2
            &&& (w >> 16) & 0x3FFF == s_word_of(outs)
        }),
{
    let o0 = outs[0];
    let o1 = outs[1];
    let o2 = outs[2];
    let o3 = outs[3];
    let o4 = outs[4];
    let o5 = outs[5];
    let o6 = outs[6];
    let s = s_word_of(outs);
    assert(s < 0x4000) by (bit_vector)
        requires
            s == ((o0 & 0x3) << 12) | ((o1 & 0x3) << 10) | ((o2 & 0x3) << 8) | ((o3 & 0x3) << 6) | (
            (o4 & 0x3) << 4) | ((o5 & 0x3) << 2) | (o6 & 0x3),
    ;
    let lw = line_word_of(outs);
    assert(lw & 0xFFFF == 0) by (bit_vector)
        requires
            lw == (((o0 >> 2) as u128) << 114) | (((o1 >> 2) as u128) << 100) | (((o2 >> 2)
                as u128) << 86) | (((o3 >> 2) as u128) << 72) | (((o4 >> 2) as u128) << 58) | (((o5
                >> 2) as u128) << 44) | (((o6 >> 2) as u128) << 30) | ((s as u128) << 16),
    ;
    let c = crc16_spec(lw >> 16, 112);
    let w = sealed_line_word_of(outs);
    assert(w == lw | (c as u128));
    assert(w >> 16 == lw >> 16 && w & 0xFFFF == c) by (bit_vector)
        requires
            w == lw | (c as u128),
            lw & 0xFFFF == 0,
    ;
    assert((w >> 114) & 0x3FFF == o0 >> 2 && (w >> 100) & 0x3FFF == o1 >> 2 && (w >> 86) & 0x3FFF
        == o2 >> 2 && (w >> 72) & 0x3FFF == o3 >> 2 && (w >> 58) & 0x3FFF == o4 >> 2 && (w >> 44)
        & 0x3FFF == o5 >> 2 && (w >> 30) & 0x3FFF == o6 >> 2 && (w >> 16) & 0x3FFF == s)
        by (bit_vector)
        requires
            w == (((o0 >> 2) as u128) << 114) | (((o1 >> 2) as u128) << 100) | (((o2 >> 2) as u128)
                << 86) | (((o3 >> 2) as u128) << 72) | (((o4 >> 2) as u128) << 58) | (((o5 >> 2)
                as u128) << 44) | (((o6 >> 2) as u128) << 30) | ((s as u128) << 16) | (c as u128),
            s < 0x4000,
    ;
}

/// The stateful PCM interleaver: seven delayers, a round-robin input
/// cursor, and a window of the most recent stereo samples of the triplet
/// being assembled.
pub struct PCMEngine {
    lines: Vec<FIFODelayer>,
    current_line_input: usize,
    last_three_stereo_samples: Vec<[u16; 2]>,
}

impl View for PCMEngine {
    type V = EngineModel;

    closed spec fn view(&self) -> EngineModel {
        EngineModel {
            delayers: self.lines@.map_values(|dl: FIFODelayer| dl@),
            window: self.last_three_stereo_samples@,
        }
    }
}

impl PCMEngine {
    /// The model is well formed and the stored cursor tracks it.
    pub closed spec fn wf(&self) -> bool {
        &&& self@.wf()
        &&& self.current_line_input == self@.cursor()
    }

    /// A fresh engine: all-zero delayers of delay lengths 0, 16, ..., 96
    /// words and an empty triplet window.
    pub fn new() -> (r: Self)
        ensures
            r@ == initial_model(),
            r.wf(),
    {
        let mut lines: Vec<FIFODelayer> = Vec::with_capacity(7);
        let mut d: u8 = 0;
        while d < 7
            invariant
                d <= 7,
                lines@.len() == d,
                forall|j: int|
                    0 <= j < d ==> (#[trigger] lines@[j])@ == zero_seq((16 * j + 1) as nat),
            decreases 7 - d,
        {
            lines.push(FIFODelayer::new(d * 16));
            d = d + 1;
        }
        let r = PCMEngine { lines, current_line_input: 0, last_three_stereo_samples: Vec::new() };
        proof {
            assert(r@.delayers =~= initial_model().delayers);
        }
        r
    }

    /// Each stored delayer is well formed and mirrors the model.
    proof fn lemma_lines_wf(&self)
        requires
            self@.wf(),
        ensures
            self.lines@.len() == 7,
            forall|d: int| 0 <= d < 7 ==> (#[trigger] self.lines@[d]).wf(),
            forall|d: int| 0 <= d < 7 ==> (#[trigger] self.lines@[d])@ == self@.delayers[d],
    {
        assert forall|d: int| 0 <= d < 7 implies (#[trigger] self.lines@[d]).wf() && self.lines@[d]@
            == self@.delayers[d] by {
            assert(self@.delayers[d].len() == 16 * d + 1);
        }
    }

    /// The sealed line word for the current delayer outputs.
    fn get_current_line_data(&self) -> (r: u128)
        requires
            self@.wf(),
        ensures
            r == sealed_line_word_of(outputs_of(self@.delayers)),
    {
        proof {
            self.lemma_lines_wf();
        }
        let o0 = self.lines[0].get_output();
        let o1 = self.lines[1].get_output();
        let o2 = self.lines[2].get_output();
        let o3 = self.lines[3].get_output();
        let o4 = self.lines[4].get_output();
        let o5 = self.lines[5].get_output();
        let o6 = self.lines[6].get_output();
        // 14-bit words in bits [127:30], delayer 0 highest
        let mut data: u128 = (((o0 >> 2) as u128) << 114) | (((o1 >> 2) as u128) << 100) | (((o2
            >> 2) as u128) << 86) | (((o3 >> 2) as u128) << 72) | (((o4 >> 2) as u128) << 58) | (((
        o5 >> 2) as u128) << 44) | (((o6 >> 2) as u128) << 30);
        // 2-bit words multiplexed into a single S word in bits [29:16]
        let s_word: u16 = ((o0 & 0x3) << 12) | ((o1 & 0x3) << 10) | ((o2 & 0x3) << 8) | ((o3 & 0x3)
            << 6) | ((o4 & 0x3) << 4) | ((o5 & 0x3) << 2) | (o6 & 0x3);
        data = data | ((s_word as u128) << 16);
        proof {
            assert(outputs_of(self@.delayers) =~= seq![o0, o1, o2, o3, o4, o5, o6]);
            assert(data & 0xFFFF == 0) by (bit_vector)
                requires
                    data == (((o0 >> 2) as u128) << 114) | (((o1 >> 2) as u128) << 100) | (((o2
                        >> 2) as u128) << 86) | (((o3 >> 2) as u128) << 72) | (((o4 >> 2) as u128)
                        << 58) | (((o5 >> 2) as u128) << 44) | (((o6 >> 2) as u128) << 30) | (((((
                    o0 & 0x3) << 12) | ((o1 & 0x3) << 10) | ((o2 & 0x3) << 8) | ((o3 & 0x3) << 6)
                        | ((o4 & 0x3) << 4) | ((o5 & 0x3) << 2) | (o6 & 0x3)) as u128) << 16),
            ;
        }
        add_crc_to_data(data)
    }

    /// The parity word of the three samples currently in the window.
    fn get_p_value(&self) -> (p: u16)
        requires
            self.last_three_stereo_samples@.len() == 3,
        ensures
            p == p_of_window(self@.window),
    {
        let mut p: u16 = 0;
        let mut i: usize = 0;
        while i < self.last_three_stereo_samples.len()
            invariant
                i <= self.last_three_stereo_samples@.len(),
                p == p_of_window(self@.window.take(i as int)),
            decreases self.last_three_stereo_samples@.len() - i,
        {
            let stereo_sample = self.last_three_stereo_samples[i];
            p = p ^ stereo_sample[0] ^ stereo_sample[1];
            proof {
                let w = self@.window;
                assert(w.take(i + 1).drop_last() =~= w.take(i as int));
                assert(w.take(i + 1).last() == w[i as int]);
            }
            i = i + 1;
        }
        proof {
            assert(self@.window.take(self@.window.len() as int) =~= self@.window);
        }
        p
    }

    /// Feeds one stereo sample; returns the sealed line word after every
    /// third consecutive sample, `None` otherwise, exactly as `submit_spec`
    /// describes.
    pub fn submit_stereo_sample(&mut self, stereo_sample: [u16; 2]) -> (r: Option<u128>)
        requires
            old(self).wf(),
        ensures
            final(self).wf(),
            final(self)@ == submit_spec(old(self)@, stereo_sample).0,
            r == submit_spec(old(self)@, stereo_sample).1,
            r is Some <==> old(self)@.window.len() == 2,
    {
        let ghost m = old(self)@;
        proof {
            self.lemma_lines_wf();
        }
        let c = self.current_line_input;
        let left = stereo_sample[0];
        let right = stereo_sample[1];
        let line_left = &mut self.lines[c];
        line_left.feed(left);
        proof {
            assert(self@.delayers =~= m.delayers.update(
                m.cursor(),
                delayer_feed(m.delayers[m.cursor()], left),
            ));
        }
        let ghost m1 = self@;
        proof {
            assert(m1.delayers[c + 1] == m.delayers[c + 1]);
            assert(m.delayers[c + 1].len() == 16 * (c + 1) + 1);
            assert(self.lines@[c + 1]@ == m1.delayers[c + 1]);
        }
        let line_right = &mut self.lines[c + 1];
        line_right.feed(right);
        proof {
            assert(self@.delayers =~= m1.delayers.update(
                m.cursor() + 1,
                delayer_feed(m1.delayers[m.cursor() + 1], right),
            ));
        }
        self.current_line_input = c + 2;
        self.last_three_stereo_samples.push(stereo_sample);

        if self.last_three_stereo_samples.len() == 3 {
            // the synthesized parity word is the seventh word of the rotation
            let ghost m2 = self@;
            let p_value = self.get_p_value();
            proof {
                assert(m2.delayers[6] == m.delayers[6]);
                assert(m.delayers[6].len() == 16 * 6 + 1);
                assert(self.lines@[6]@ == m2.delayers[6]);
            }
            let line_p = &mut self.lines[6];
            line_p.feed(p_value);
            proof {
                assert(self@.delayers =~= m2.delayers.update(
                    6,
                    delayer_feed(m2.delayers[6], p_value),
                ));
            }
            self.last_three_stereo_samples.clear();
            self.current_line_input = 0;
            proof {
                lemma_submit_preserves_wf(m, stereo_sample);
                assert(self@ =~= submit_spec(m, stereo_sample).0);
            }
            Some(self.get_current_line_data())
        } else {
            proof {
                lemma_submit_preserves_wf(m, stereo_sample);
                assert(self@ =~= submit_spec(m, stereo_sample).0);
            }
            None
        }
    }
}

} // verus!

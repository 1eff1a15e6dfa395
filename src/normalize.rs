use vstd::prelude::*;
use crate::device::Device;
use crate::raster::{PLANE_LEN, SAMPLE_LEN};

verus! {

/// Statistics are held in units of `1 / STAT_SCALE`.
pub const STAT_SCALE: u32 = 100000;

/// Per-channel pixel statistics of a reference dataset, each value in units of
/// `1 / STAT_SCALE` on the [0, 1] intensity scale.
#[derive(Clone, Copy, Debug)]
pub struct NormStats {
    pub mean: [u32; 3],
    pub std: [u32; 3],
}

impl NormStats {
    pub open spec fn wf(&self) -> bool {
        forall|c: int| 0 <= c < 3 ==> self.std@[c] > 0
    }

    pub open spec fn is_cifar10(&self) -> bool {
        &&& self.mean@ == seq![49140u32, 48216u32, 44653u32]
        &&& self.std@ == seq![24703u32, 24349u32, 26159u32]
    }

    /// The per-channel mean and standard deviation of the CIFAR-10 images.
    pub fn cifar10() -> (r: Self)
        ensures
            r.is_cifar10(),
            r.wf(),
    {
        let r = NormStats { mean: [49140, 48216, 44653], std: [24703, 24349, 26159] };
        assert(r.mean@ =~= seq![49140u32, 48216u32, 44653u32]);
        assert(r.std@ =~= seq![24703u32, 24349u32, 26159u32]);
        r
    }
}

/// Channel of the element at flat index `t` of a batch of samples stored
/// sample by sample, each as three planes.
pub open spec fn channel_of(t: int) -> int {
    (t % SAMPLE_LEN as int) / PLANE_LEN as int
}

/// Numerator of the normalized value of byte `v` in channel `c`:
/// `(v / 255 - mean) / std` equals this over `denominator(stats, c)`.
pub open spec fn numerator(stats: NormStats, c: int, v: u8) -> int {
    (v as int) * (STAT_SCALE as int) - 255 * (stats.mean@[c] as int)
}

/// Denominator shared by all normalized values of channel `c`.
pub open spec fn denominator(stats: NormStats, c: int) -> int {
    255 * (stats.std@[c] as int)
}

/// `out` holds, element by element, the numerators of the normalized values of `data`.
pub open spec fn normalizes(stats: NormStats, data: Seq<u8>, out: Seq<i64>) -> bool {
    &&& out.len() == data.len()
    &&& forall|t: int| 0 <= t < data.len() ==> #[trigger] out[t] as int == numerator(stats, channel_of(t), data[t])
}

/// Samples of 8-bit pixel values, each stored as three 32 by 32 planes, one
/// sample after the other.
pub struct PixelBatch {
    pub count: usize,
    pub data: Vec<u8>,
    pub device: Device,
}

impl PixelBatch {
    pub open spec fn wf(&self) -> bool {
        self.data@.len() == self.count * SAMPLE_LEN
    }
}

/// Normalized samples, laid out as in `PixelBatch`. The value at flat index
/// `t` is `numerators[t] / denominators[c]`, with `c` the channel of `t`.
pub struct NormalizedImages {
    pub count: usize,
    pub numerators: Vec<i64>,
    pub denominators: [i64; 3],
    pub device: Device,
}

impl NormalizedImages {
    pub open spec fn wf(&self) -> bool {
        self.numerators@.len() == self.count * SAMPLE_LEN
    }

    /// Dimensions of the batch: samples, channels, height, width.
    pub fn dims(&self) -> (r: [usize; 4])
        ensures
            r@ == seq![self.count, 3usize, 32usize, 32usize],
    {
        let r = [self.count, 3, 32, 32];
        assert(r@ =~= seq![self.count, 3usize, 32usize, 32usize]);
        r
    }
}

impl NormalizedImages {
    /// The denominator of the value at flat index `t`: that of its channel.
    pub fn denominator_at(&self, t: usize) -> (r: i64)
        ensures
            r == self.denominators@[channel_of(t as int)],
    {
        self.denominators[(t % SAMPLE_LEN) / PLANE_LEN]
    }
}

/// Per-channel affine normalization with fixed statistics, bound to a device.
#[derive(Clone, Copy, Debug)]
pub struct Normalizer {
    pub stats: NormStats,
    pub device: Device,
}

impl Normalizer {
    /// The same statistics, bound to `device`.
    pub open spec fn relocated(self, device: Device) -> Normalizer {
        Normalizer { stats: self.stats, device }
    }

    /// A normalizer with the CIFAR-10 statistics on `device`.
    pub fn new(device: &Device) -> (r: Self)
        ensures
            r.stats.is_cifar10(),
            r.stats.wf(),
            r.device == *device,
    {
        Self::from_stats(NormStats::cifar10(), device)
    }

    /// A normalizer with the given statistics on `device`.
    pub fn from_stats(stats: NormStats, device: &Device) -> (r: Self)
        ensures
            r.stats == stats,
            r.device == *device,
    {
        Normalizer { stats, device: *device }
    }

    /// A copy of this normalizer whose statistics live on `device`.
    pub fn to_device(&self, device: &Device) -> (r: Self)
        ensures
            r == self.relocated(*device),
    {
        Normalizer { stats: self.stats, device: *device }
    }

    /// Normalizes every value: `(v / 255 - mean) / std` with the statistics
    /// of its channel, held exactly as a numerator over a per-channel
    /// denominator. The batch must live on the normalizer's device.
    pub fn normalize(&self, input: &PixelBatch) -> (r: NormalizedImages)
        requires
            input.wf(),
            input.device == self.device,
            self.stats.wf(),
        ensures
            r.count == input.count,
            r.device == input.device,
            r.wf(),
            normalizes(self.stats, input.data@, r.numerators@),
            forall|c: int| 0 <= c < 3 ==> r.denominators@[c] as int == #[trigger] denominator(self.stats, c),
    {
        let mut numerators: Vec<i64> = Vec::with_capacity(input.data.len());
        let mut t: usize = 0;
        while t < input.data.len()
            invariant
                t <= input.data@.len(),
                numerators@.len() == t,
                forall|u: int| 0 <= u < t ==> #[trigger] numerators@[u] as int == numerator(self.stats, channel_of(u), input.data@[u]),
            decreases input.data@.len() - t,
        {
            let c = (t % SAMPLE_LEN) / PLANE_LEN;
            let v = input.data[t];
            let n: i64 = (v as i64) * (STAT_SCALE as i64) - 255 * (self.stats.mean[c] as i64);
            numerators.push(n);
            t = t + 1;
        }
        let denominators: [i64; 3] = [
            255 * (self.stats.std[0] as i64),
            255 * (self.stats.std[1] as i64),
            255 * (self.stats.std[2] as i64),
        ];
        NormalizedImages { count: input.count, numerators, denominators, device: input.device }
    }
}

/// A value equal to its channel's mean (both on the [0, 1] scale) normalizes to zero.
pub proof fn lemma_mean_normalizes_to_zero(stats: NormStats, data: Seq<u8>, out: Seq<i64>, t: int)
    requires
        normalizes(stats, data, out),
        0 <= t < data.len(),
        (data[t] as int) * (STAT_SCALE as int) == 255 * (stats.mean@[channel_of(t)] as int),
    ensures
        out[t] == 0,
{
}

/// Relocating a normalizer keeps its statistics, and relocating twice to
/// the same device gives the same normalizer as relocating once. (The
/// normalizer relocated is untouched: `to_device` takes it by shared reference.)
pub proof fn lemma_relocation_idempotent(n: Normalizer, device: Device)
    ensures
        n.relocated(device).stats == n.stats,
        n.relocated(device).device == device,
        n.relocated(device).relocated(device) == n.relocated(device),
{
}

} // verus!

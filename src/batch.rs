use vstd::prelude::*;
use crate::device::Device;
use crate::normalize::{NormStats, NormalizedImages, Normalizer, PixelBatch, denominator, normalizes, numerator};
use crate::raster::{IMAGE_SIZE, SAMPLE_LEN, append_chw, chw, decoded_rgb8, load_and_resize_rgb_u8, prepared};

verus! {

/// The annotation of a dataset item.
#[derive(Clone, Debug)]
pub enum Annotation {
    /// The index of the item's class.
    Label(usize),
    /// The indices of several classes.
    MultiLabel(Vec<usize>),
    /// A class index for each pixel.
    SegmentationMask(Vec<usize>),
    /// The class indices of boxes drawn on the image (their coordinates are not kept).
    BoundingBoxes(Vec<usize>),
}

/// One sample of a directory-labelled dataset: the path of its image file
/// and its annotation.
#[derive(Clone, Debug)]
pub struct ImageDatasetItem {
    pub image_path: String,
    pub annotation: Annotation,
}

/// A batch ready for a classifier: normalized images, class indices and the
/// paths of the source files, all in the order of the items.
pub struct ClassificationBatch {
    pub images: NormalizedImages,
    pub targets: Vec<usize>,
    pub images_path: Vec<String>,
}

/// Why a batch could not be built.
#[derive(Clone, Copy, Debug, PartialEq, Eq, Structural)]
pub enum BatchError {
    /// The item at `index` is not annotated with a single class label.
    InvalidTarget { index: usize },
    /// The image of the item at `index` could not be decoded.
    Decode { index: usize },
}

/// The class label of an annotation, if it is one.
pub open spec fn label_of(a: Annotation) -> Option<usize> {
    match a {
        Annotation::Label(y) => Some(y),
        _ => None,
    }
}

pub open spec fn all_labelled(items: Seq<ImageDatasetItem>) -> bool {
    forall|i: int| 0 <= i < items.len() ==> (#[trigger] label_of(items[i].annotation)) is Some
}

/// The 32 by 32 pixels of the image of item `i`, whose file holds `encoded[i]`.
pub open spec fn sample_of(items: Seq<ImageDatasetItem>, encoded: Seq<Vec<u8>>, i: int) -> Option<Seq<u8>> {
    prepared(items[i].image_path@, encoded[i]@, IMAGE_SIZE)
}

pub open spec fn all_decodable(items: Seq<ImageDatasetItem>, encoded: Seq<Vec<u8>>) -> bool {
    forall|i: int| 0 <= i < encoded.len() ==> (#[trigger] sample_of(items, encoded, i)) is Some
}

/// The 32 by 32 pixels of each item's image.
pub open spec fn samples(items: Seq<ImageDatasetItem>, encoded: Seq<Vec<u8>>) -> Seq<Seq<u8>> {
    Seq::new(encoded.len(), |i: int| sample_of(items, encoded, i)->0)
}

/// The channel planes of each sample, one sample after the other.
pub open spec fn stacked(s: Seq<Seq<u8>>) -> Seq<u8>
    decreases s.len(),
{
    if s.len() == 0 {
        Seq::empty()
    } else {
        stacked(s.drop_last()) + chw(s.last())
    }
}

/// `b` is the batch of `items`, whose images are `encoded`, normalized with
/// `stats` on `device`: every item labelled and every image decoded, targets
/// and paths in the order of the items, and the normalized channel planes of
/// the samples one after the other.
pub open spec fn assembled(
    stats: NormStats,
    items: Seq<ImageDatasetItem>,
    encoded: Seq<Vec<u8>>,
    device: Device,
    b: ClassificationBatch,
) -> bool {
    &&& encoded.len() == items.len()
    &&& all_labelled(items)
    &&& all_decodable(items, encoded)
    &&& b.targets@.len() == items.len()
    &&& forall|i: int| 0 <= i < items.len() ==> label_of(items[i].annotation) == Some(#[trigger] b.targets@[i])
    &&& b.images_path@.len() == items.len()
    &&& forall|i: int| 0 <= i < items.len() ==> (#[trigger] b.images_path@[i])@ == items[i].image_path@
    &&& b.images.count == items.len()
    &&& b.images.wf()
    &&& b.images.device == device
    &&& normalizes(stats, stacked(samples(items, encoded)), b.images.numerators@)
    &&& forall|c: int| 0 <= c < 3 ==> b.images.denominators@[c] as int == #[trigger] denominator(stats, c)
}

/// Holds a ready-made normalizer and assembles batches with it.
#[derive(Clone, Copy, Debug)]
pub struct ClassificationBatcher {
    pub normalizer: Normalizer,
}

impl ClassificationBatcher {
    /// A batcher whose normalizer has the CIFAR-10 statistics on `device`.
    pub fn new(device: Device) -> (r: Self)
        ensures
            r.normalizer.stats.is_cifar10(),
            r.normalizer.stats.wf(),
            r.normalizer.device == device,
    {
        ClassificationBatcher { normalizer: Normalizer::new(&device) }
    }

    /// Assembles a batch from dataset items and the encoded contents of
    /// their image files (`encoded[i]` is the file of `items[i]`).
    ///
    /// Each image is decoded to RGB, brought to 32 by 32 pixels, reordered to
    /// channel planes, stacked after the previous ones and normalized with
    /// this batcher's statistics relocated to `device`. Targets and paths keep
    /// the order of the items. An item without a single class label fails the
    /// batch, as does an image that cannot be decoded; the first such item is
    /// reported, labels being checked before any image is decoded.
    pub fn batch(&self, items: &Vec<ImageDatasetItem>, encoded: &Vec<Vec<u8>>, device: &Device) -> (r: Result<
        ClassificationBatch,
        BatchError,
    >)
        requires
            encoded@.len() == items@.len(),
            items@.len() * SAMPLE_LEN <= usize::MAX,
            self.normalizer.stats.wf(),
        ensures
            match r {
                Err(BatchError::InvalidTarget { index }) => {
                    &&& index < items@.len()
                    &&& label_of(items@[index as int].annotation) is None
                    &&& forall|j: int| 0 <= j < index ==> (#[trigger] label_of(items@[j].annotation)) is Some
                },
                Err(BatchError::Decode { index }) => {
                    &&& all_labelled(items@)
                    &&& index < items@.len()
                    &&& sample_of(items@, encoded@, index as int) is None
                    &&& forall|j: int| 0 <= j < index ==> (#[trigger] sample_of(items@, encoded@, j)) is Some
                },
                Ok(b) => assembled(self.normalizer.stats, items@, encoded@, *device, b),
            },
    {
        let n = items.len();
        let mut targets: Vec<usize> = Vec::with_capacity(n);
        let mut i: usize = 0;
        while i < n
            invariant
                n == items@.len(),
                i <= n,
                targets@.len() == i,
                forall|j: int| 0 <= j < i ==> label_of(items@[j].annotation) == Some(#[trigger] targets@[j]),
                forall|j: int| 0 <= j < i ==> (#[trigger] label_of(items@[j].annotation)) is Some,
            decreases n - i,
        {
            match &items[i].annotation {
                Annotation::Label(y) => targets.push(*y),
                _ => {
                    return Err(BatchError::InvalidTarget { index: i });
                },
            }
            i = i + 1;
        }
        assert(all_labelled(items@));

        let mut images_path: Vec<String> = Vec::with_capacity(n);
        i = 0;
        while i < n
            invariant
                n == items@.len(),
                i <= n,
                images_path@.len() == i,
                forall|j: int| 0 <= j < i ==> (#[trigger] images_path@[j])@ == items@[j].image_path@,
            decreases n - i,
        {
            images_path.push(items[i].image_path.clone());
            i = i + 1;
        }

        let mut data: Vec<u8> = Vec::new();
        i = 0;
        while i < n
            invariant
                n == items@.len(),
                n == encoded@.len(),
                i <= n,
                all_labelled(items@),
                forall|j: int| 0 <= j < i ==> (#[trigger] sample_of(items@, encoded@, j)) is Some,
                data@ == stacked(samples(items@, encoded@).take(i as int)),
            decreases n - i,
        {
            match load_and_resize_rgb_u8(items[i].image_path.as_str(), encoded[i].as_slice(), IMAGE_SIZE) {
                Some(pixels) => append_chw(&mut data, &pixels),
                None => {
                    return Err(BatchError::Decode { index: i });
                },
            }
            assert(samples(items@, encoded@).take(i + 1).drop_last() =~= samples(items@, encoded@).take(i as int));
            i = i + 1;
        }
        assert(samples(items@, encoded@).take(n as int) =~= samples(items@, encoded@));
        proof {
            lemma_stacked_len(samples(items@, encoded@));
        }
        let pixels = PixelBatch { count: n, data, device: *device };
        let normalizer = self.normalizer.to_device(device);
        let images = normalizer.normalize(&pixels);
        Ok(ClassificationBatch { images, targets, images_path })
    }
}

proof fn lemma_stacked_len(s: Seq<Seq<u8>>)
    ensures
        stacked(s).len() == s.len() * SAMPLE_LEN,
    decreases s.len(),
{
    if s.len() > 0 {
        lemma_stacked_len(s.drop_last());
    }
}

proof fn lemma_stacked_index(s: Seq<Seq<u8>>, i: int, k: int)
    requires
        0 <= i < s.len(),
        0 <= k < SAMPLE_LEN,
    ensures
        stacked(s)[i * SAMPLE_LEN + k] == chw(s[i])[k],
    decreases s.len(),
{
    lemma_stacked_len(s.drop_last());
    if i < s.len() - 1 {
        lemma_stacked_index(s.drop_last(), i, k);
    }
}

/// In a batch, the normalized value at sample `i`, channel `c`, row `y` and
/// column `x` of an image already at 32 by 32 is that of the decoded byte at
/// row `y`, column `x`, channel `c`: no resizing touches it.
pub proof fn lemma_passthrough_element(
    stats: NormStats,
    items: Seq<ImageDatasetItem>,
    encoded: Seq<Vec<u8>>,
    out: Seq<i64>,
    pixels: Seq<u8>,
    i: int,
    c: int,
    y: int,
    x: int,
)
    requires
        encoded.len() == items.len(),
        all_decodable(items, encoded),
        normalizes(stats, stacked(samples(items, encoded)), out),
        0 <= i < encoded.len(),
        0 <= c < 3,
        0 <= y < 32,
        0 <= x < 32,
        decoded_rgb8(items[i].image_path@, encoded[i]@) == Some((32u32, 32u32, pixels)),
    ensures
        out[i * 3072 + c * 1024 + y * 32 + x] as int == numerator(stats, c, pixels[(y * 32 + x) * 3 + c]),
{
    let k = c * 1024 + y * 32 + x;
    lemma_stacked_len(samples(items, encoded));
    lemma_stacked_index(samples(items, encoded), i, k);
    assert(k % 1024 == y * 32 + x && k / 1024 == c);
    assert((i * 3072 + k) % 3072 == k) by (nonlinear_arith)
        requires 0 <= i, 0 <= k < 3072;
}
/// A batch of `N` items has `N` images of three 32 by 32 planes, `N`
/// targets and `N` paths.
pub proof fn lemma_batch_shape(
    stats: NormStats,
    items: Seq<ImageDatasetItem>,
    encoded: Seq<Vec<u8>>,
    device: Device,
    b: ClassificationBatch,
)
    requires
        assembled(stats, items, encoded, device, b),
    ensures
        b.images.count == items.len(),
        b.images.numerators@.len() == items.len() * SAMPLE_LEN,
        b.targets@.len() == items.len(),
        b.images_path@.len() == items.len(),
{
}

/// A batch keeps the order of its items: the path and the target at `i` are
/// those of item `i`.
pub proof fn lemma_batch_order(
    stats: NormStats,
    items: Seq<ImageDatasetItem>,
    encoded: Seq<Vec<u8>>,
    device: Device,
    b: ClassificationBatch,
    i: int,
)
    requires
        assembled(stats, items, encoded, device, b),
        0 <= i < items.len(),
    ensures
        b.images_path@[i]@ == items[i].image_path@,
        items[i].annotation == Annotation::Label(b.targets@[i]),
{
}

/// In a batch, an image already at 32 by 32 is not resized: the value at
/// sample `k`, channel `c`, row `y`, column `x` is the normalized decoded
/// byte at row `y`, column `x`, channel `c`, as numerator over the channel's
/// denominator.
pub proof fn lemma_batch_passthrough(
    stats: NormStats,
    items: Seq<ImageDatasetItem>,
    encoded: Seq<Vec<u8>>,
    device: Device,
    b: ClassificationBatch,
    pixels: Seq<u8>,
    k: int,
    c: int,
    y: int,
    x: int,
)
    requires
        assembled(stats, items, encoded, device, b),
        0 <= k < encoded.len(),
        0 <= c < 3,
        0 <= y < 32,
        0 <= x < 32,
        decoded_rgb8(items[k].image_path@, encoded[k]@) == Some((32u32, 32u32, pixels)),
    ensures
        b.images.numerators@[k * 3072 + c * 1024 + y * 32 + x] as int == numerator(stats, c, pixels[(y * 32 + x) * 3 + c]),
        b.images.denominators@[c] as int == denominator(stats, c),
{
    lemma_passthrough_element(stats, items, encoded, b.images.numerators@, pixels, k, c, y, x);
}

} // verus!

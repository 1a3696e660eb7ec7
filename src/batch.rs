//! Collation of labeled image records into one batch, with the fixed
//! mean/standard-deviation normalization of every pixel.
//!
//! A normalized intensity `(p / 255 - 0.1307) / 0.3081` is the rational
//! `(2000 p - 66657) / 157131`; the batch holds its numerator, which is
//! exact, and the tensor side divides by `NORM_DENOMINATOR`.

use vstd::prelude::*;

verus! {

/// Pixels in one 28 by 28 image.
pub const PIXELS_PER_IMAGE: usize = 784;

/// Factor of the pixel in the normalized numerator.
pub const NORM_SCALE: i32 = 2000;

/// Offset subtracted in the normalized numerator.
pub const NORM_OFFSET: i32 = 66657;

/// Common denominator of every normalized intensity.
pub const NORM_DENOMINATOR: i32 = 157131;

/// The numerator of `(p / 255 - 0.1307) / 0.3081` over `NORM_DENOMINATOR`.
pub open spec fn normalized_numerator(p: u8) -> int {
    NORM_SCALE * p - NORM_OFFSET
}

/// One image, normalized pixel by pixel in row-major order.
pub open spec fn normalized_image(pixels: Seq<u8>) -> Seq<i32> {
    pixels.map_values(|p: u8| normalized_numerator(p) as i32)
}

/// A grayscale digit image (row-major, values 0 to 255) and its class label.
#[derive(Clone, Debug)]
pub struct ImageRecord {
    pub pixels: Vec<u8>,
    pub label: u8,
}

/// Images of a batch, one normalized row per record, and their labels.
#[derive(Clone, Debug)]
pub struct Batch {
    pub images: Vec<Vec<i32>>,
    pub targets: Vec<i64>,
}

/// Why a list of records cannot form a batch.
#[derive(Clone, Copy, Debug, PartialEq, Eq, Structural)]
pub enum BatchError {
    Empty,
    /// The first record whose pixel count is not `PIXELS_PER_IMAGE`.
    ImageSize { index: usize },
}

/// Whether every record before `k` has the full pixel count.
pub open spec fn sized_before(items: Seq<ImageRecord>, k: int) -> bool {
    forall|i: int| 0 <= i < k ==> (#[trigger] items[i]).pixels@.len() == PIXELS_PER_IMAGE
}

/// The normalized rows of a list of records, in order.
pub open spec fn batch_images(items: Seq<ImageRecord>) -> Seq<Seq<i32>> {
    items.map_values(|r: ImageRecord| normalized_image(r.pixels@))
}

/// The labels of a list of records, in order.
pub open spec fn batch_targets(items: Seq<ImageRecord>) -> Seq<i64> {
    items.map_values(|r: ImageRecord| r.label as i64)
}

/// The contents of a list of rows.
pub open spec fn rows_view(rows: Seq<Vec<i32>>) -> Seq<Seq<i32>> {
    rows.map_values(|row: Vec<i32>| row@)
}

impl Batch {
    pub open spec fn images_view(&self) -> Seq<Seq<i32>> {
        rows_view(self.images@)
    }

    /// Number of records in the batch.
    pub fn len(&self) -> (r: usize)
        ensures
            r == self.images@.len(),
    {
        self.images.len()
    }
}

/// Normalizes one pixel.
pub fn normalize_pixel(p: u8) -> (r: i32)
    ensures
        r == normalized_numerator(p),
{
    NORM_SCALE * (p as i32) - NORM_OFFSET
}

/// Normalizes one image, pixel by pixel.
pub fn normalize_image(pixels: &Vec<u8>) -> (r: Vec<i32>)
    ensures
        r@ == normalized_image(pixels@),
{
    let mut out: Vec<i32> = Vec::with_capacity(pixels.len());
    let mut j: usize = 0;
    while j < pixels.len()
        invariant
            0 <= j <= pixels.len(),
            out@ == normalized_image(pixels@.take(j as int)),
        decreases pixels.len() - j,
    {
        let v = normalize_pixel(pixels[j]);
        out.push(v);
        j = j + 1;
        assert(out@ =~= normalized_image(pixels@.take(j as int)));
    }
    assert(pixels@.take(j as int) =~= pixels@);
    out
}

/// Turns labeled image records into one batch.
#[derive(Clone, Copy, Debug, Default)]
pub struct MnistBatcher {}

impl MnistBatcher {
    /// Stacks the records, in order, into normalized image rows and labels.
    pub fn batch(&self, items: &Vec<ImageRecord>) -> (r: Result<Batch, BatchError>)
        ensures
            r matches Ok(b) ==> {
                &&& items@.len() >= 1
                &&& sized_before(items@, items@.len() as int)
                &&& b.images_view() == batch_images(items@)
                &&& b.targets@ == batch_targets(items@)
            },
            r == Err::<Batch, _>(BatchError::Empty) <==> items@.len() == 0,
            forall|k: usize|
                r == Err::<Batch, _>(BatchError::ImageSize { index: k }) <==> {
                    &&& k < items@.len()
                    &&& sized_before(items@, k as int)
                    &&& items@[k as int].pixels@.len() != PIXELS_PER_IMAGE
                },
    {
        if items.len() == 0 {
            return Err(BatchError::Empty);
        }
        let mut images: Vec<Vec<i32>> = Vec::with_capacity(items.len());
        let mut targets: Vec<i64> = Vec::with_capacity(items.len());
        let mut i: usize = 0;
        while i < items.len()
            invariant
                0 <= i <= items.len(),
                items@.len() >= 1,
                sized_before(items@, i as int),
                images@.len() == i,
                rows_view(images@) == batch_images(items@.take(i as int)),
                targets@ == batch_targets(items@.take(i as int)),
            decreases items.len() - i,
        {
            let item = &items[i];
            if item.pixels.len() != PIXELS_PER_IMAGE {
                proof {
                    assert forall|k: usize|
                        Err::<Batch, _>(BatchError::ImageSize { index: i }) == Err::<Batch, _>(
                            BatchError::ImageSize { index: k },
                        ) <==> {
                            &&& k < items@.len()
                            &&& sized_before(items@, k as int)
                            &&& items@[k as int].pixels@.len() != PIXELS_PER_IMAGE
                        } by {
                        if k > i && sized_before(items@, k as int) {
                            assert(items@[i as int].pixels@.len() == PIXELS_PER_IMAGE);
                        }
                    }
                }
                return Err(BatchError::ImageSize { index: i });
            }
            let row = normalize_image(&item.pixels);
            let ghost prev = images@;
            let ghost prev_items = items@.take(i as int);
            images.push(row);
            targets.push(item.label as i64);
            i = i + 1;
            assert(items@.take(i as int) =~= prev_items.push(*item));
            assert forall|k: int| 0 <= k < i implies #[trigger] rows_view(images@)[k] == batch_images(items@.take(i as int))[k] by {
                if k < i - 1 {
                    assert(images@[k] == prev[k]);
                    assert(rows_view(prev)[k] == batch_images(prev_items)[k]);
                }
            }
            assert(rows_view(images@) =~= batch_images(
                items@.take(i as int),
            ));
            assert(targets@ =~= batch_targets(items@.take(i as int)));
        }
        assert(items@.take(i as int) =~= items@);
        let b = Batch { images, targets };
        proof {
            assert forall|k: usize|
                !(Ok::<Batch, BatchError>(b) == Err::<Batch, _>(
                    BatchError::ImageSize { index: k },
                )) && !({
                    &&& k < items@.len()
                    &&& sized_before(items@, k as int)
                    &&& items@[k as int].pixels@.len() != PIXELS_PER_IMAGE
                }) by {}
        }
        Ok(b)
    }
}

/// Normalization is pure: a record's row in a batch depends on that record
/// alone, whatever else the batch holds and wherever the record stands.
pub proof fn lemma_normalization_is_per_record(
    xs: Seq<ImageRecord>,
    ys: Seq<ImageRecord>,
    i: int,
    j: int,
)
    requires
        0 <= i < xs.len(),
        0 <= j < ys.len(),
        xs[i].pixels@ == ys[j].pixels@,
    ensures
        batch_images(xs)[i] == batch_images(ys)[j],
        batch_images(xs)[i] == normalized_image(xs[i].pixels@),
        forall|p: int|
            0 <= p < xs[i].pixels@.len() ==> #[trigger] batch_images(xs)[i][p]
                == normalized_numerator(xs[i].pixels@[p]),
{
}

/// Batching keeps order: the `i`-th row and the `i`-th label both come from
/// the `i`-th record, for every `i`.
pub proof fn lemma_batch_keeps_order(items: Seq<ImageRecord>)
    ensures
        batch_images(items).len() == items.len(),
        batch_targets(items).len() == items.len(),
        forall|i: int|
            0 <= i < items.len() ==> #[trigger] batch_images(items)[i] == normalized_image(
                items[i].pixels@,
            ) && batch_targets(items)[i] == items[i].label as i64,
{
}

} // verus!

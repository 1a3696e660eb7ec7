//! The fixed layer graph: configuration, the shape rule of the forward pass,
//! and the shapes of the trainable parameters.

use vstd::prelude::*;

verus! {

/// Side length of an input image.
pub const IMAGE_SIDE: usize = 28;

/// Output channels of the first convolution.
pub const CONV1_CHANNELS: usize = 8;

/// Output channels of the second convolution.
pub const CONV2_CHANNELS: usize = 16;

/// Side length of both (square) convolution kernels.
pub const KERNEL_SIDE: usize = 3;

/// Spatial side that the adaptive average pool produces.
pub const POOL_SIDE: usize = 8;

/// Width of the flattened features that enter the first linear layer.
pub const FLAT_FEATURES: usize = 1024;

/// Probabilities are held in parts per million.
pub const PPM_ONE: u32 = 1000000;

/// Dropout probability of a fresh configuration: one half.
pub const DEFAULT_DROPOUT_PPM: u32 = 500000;

/// Smallest image side that leaves at least one pixel after both convolutions.
pub const MIN_INPUT_SIDE: usize = 5;

/// Hyperparameters that fix the shape of the model.
#[derive(Clone, Copy, Debug, PartialEq, Eq, Structural)]
pub struct ModelConfig {
    pub num_classes: usize,
    pub hidden_size: usize,
    /// Dropout probability, in parts per million.
    pub dropout_ppm: u32,
}

/// Why a configuration cannot build a model.
#[derive(Clone, Copy, Debug, PartialEq, Eq, Structural)]
pub enum ConfigError {
    NoClasses,
    NoHiddenUnits,
    DropoutAboveOne,
}

/// Why a batch of images cannot go through the forward pass.
#[derive(Clone, Copy, Debug, PartialEq, Eq, Structural)]
pub enum ShapeError {
    EmptyBatch,
    ImageTooSmall { height: usize, width: usize },
}

/// Why a saved parameter snapshot cannot be loaded into a model.
#[derive(Clone, Copy, Debug, PartialEq, Eq, Structural)]
pub enum CheckpointError {
    Missing,
    /// The first parameter (in layer order) whose saved shape differs.
    ShapeMismatch { parameter: usize },
}

/// A target label outside `[0, num_classes)`: the first such one.
#[derive(Clone, Copy, Debug, PartialEq, Eq, Structural)]
pub struct LabelRangeError {
    pub index: usize,
    pub label: i64,
}

/// Side length after one unpadded convolution with stride one.
pub open spec fn conv_side(side: int) -> int {
    side - (KERNEL_SIDE - 1)
}

/// The shape `[N, classes]` of the logits for an input of shape `[N, H, W]`,
/// or why there is none.
pub open spec fn logits_dims(cfg: ModelConfig, n: usize, h: usize, w: usize) -> Result<
    (usize, usize),
    ShapeError,
> {
    if n == 0 {
        Err(ShapeError::EmptyBatch)
    } else if conv_side(conv_side(h as int)) < 1 || conv_side(conv_side(w as int)) < 1 {
        Err(ShapeError::ImageTooSmall { height: h, width: w })
    } else {
        Ok((n, cfg.num_classes))
    }
}

/// Shapes of the trainable parameters, in layer order: each convolution's
/// weight `[out, in, k, k]` and bias `[out]`, then each linear layer's weight
/// `[in, out]` and bias `[out]`.
pub open spec fn param_shapes(cfg: ModelConfig) -> Seq<Seq<usize>> {
    seq![
        seq![CONV1_CHANNELS, 1usize, KERNEL_SIDE, KERNEL_SIDE],
        seq![CONV1_CHANNELS],
        seq![CONV2_CHANNELS, CONV1_CHANNELS, KERNEL_SIDE, KERNEL_SIDE],
        seq![CONV2_CHANNELS],
        seq![FLAT_FEATURES, cfg.hidden_size],
        seq![cfg.hidden_size],
        seq![cfg.hidden_size, cfg.num_classes],
        seq![cfg.num_classes],
    ]
}

impl ModelConfig {
    pub open spec fn is_valid(&self) -> bool {
        &&& self.num_classes >= 1
        &&& self.hidden_size >= 1
        &&& self.dropout_ppm <= PPM_ONE
    }

    pub open spec fn new_spec(num_classes: usize, hidden_size: usize) -> ModelConfig {
        ModelConfig { num_classes, hidden_size, dropout_ppm: DEFAULT_DROPOUT_PPM }
    }

    pub open spec fn validate_spec(&self) -> Result<(), ConfigError> {
        if self.num_classes == 0 {
            Err(ConfigError::NoClasses)
        } else if self.hidden_size == 0 {
            Err(ConfigError::NoHiddenUnits)
        } else if self.dropout_ppm > PPM_ONE {
            Err(ConfigError::DropoutAboveOne)
        } else {
            Ok(())
        }
    }

    /// A configuration with the default dropout probability.
    pub fn new(num_classes: usize, hidden_size: usize) -> (r: ModelConfig)
        ensures
            r == ModelConfig::new_spec(num_classes, hidden_size),
    {
        ModelConfig { num_classes, hidden_size, dropout_ppm: DEFAULT_DROPOUT_PPM }
    }

    /// The same configuration with another dropout probability.
    pub fn with_dropout_ppm(self, dropout_ppm: u32) -> (r: ModelConfig)
        ensures
            r == (ModelConfig { dropout_ppm, ..self }),
    {
        ModelConfig { dropout_ppm, ..self }
    }

    /// Checks that the configuration can build a model.
    pub fn validate(&self) -> (r: Result<(), ConfigError>)
        ensures
            r == self.validate_spec(),
            r is Ok <==> self.is_valid(),
            r == Err::<(), _>(ConfigError::NoClasses) <==> self.num_classes == 0,
            r == Err::<(), _>(ConfigError::NoHiddenUnits) <==> (self.num_classes >= 1
                && self.hidden_size == 0),
            r == Err::<(), _>(ConfigError::DropoutAboveOne) <==> (self.num_classes >= 1
                && self.hidden_size >= 1 && self.dropout_ppm > PPM_ONE),
    {
        if self.num_classes == 0 {
            Err(ConfigError::NoClasses)
        } else if self.hidden_size == 0 {
            Err(ConfigError::NoHiddenUnits)
        } else if self.dropout_ppm > PPM_ONE {
            Err(ConfigError::DropoutAboveOne)
        } else {
            Ok(())
        }
    }

    /// The shape of the logits that the forward pass gives for a batch of
    /// shape `[n, height, width]`.
    pub fn forward_dims(&self, n: usize, height: usize, width: usize) -> (r: Result<
        (usize, usize),
        ShapeError,
    >)
        ensures
            r == logits_dims(*self, n, height, width),
    {
        if n == 0 {
            Err(ShapeError::EmptyBatch)
        } else if height < MIN_INPUT_SIDE || width < MIN_INPUT_SIDE {
            Err(ShapeError::ImageTooSmall { height, width })
        } else {
            Ok((n, self.num_classes))
        }
    }

    /// Width of the features after pooling and flattening.
    pub fn flattened_width(&self) -> (r: usize)
        ensures
            r == CONV2_CHANNELS * POOL_SIDE * POOL_SIDE,
            r == FLAT_FEATURES,
    {
        CONV2_CHANNELS * POOL_SIDE * POOL_SIDE
    }

    /// Shapes of the trainable parameters, in layer order.
    pub fn parameter_shapes(&self) -> (r: Vec<Vec<usize>>)
        ensures
            r.deep_view() == param_shapes(*self),
    {
        let r = vec![
            vec![CONV1_CHANNELS, 1usize, KERNEL_SIDE, KERNEL_SIDE],
            vec![CONV1_CHANNELS],
            vec![CONV2_CHANNELS, CONV1_CHANNELS, KERNEL_SIDE, KERNEL_SIDE],
            vec![CONV2_CHANNELS],
            vec![FLAT_FEATURES, self.hidden_size],
            vec![self.hidden_size],
            vec![self.hidden_size, self.num_classes],
            vec![self.num_classes],
        ];
        assert forall|k: int| 0 <= k < 8 implies #[trigger] r.deep_view()[k] =~= param_shapes(
            *self,
        )[k] by {}
        assert(r.deep_view() =~= param_shapes(*self));
        r
    }
}


/// Whether a saved list of parameter shapes agrees with `expected` before
/// index `k`.
pub open spec fn shapes_agree_before(found: Seq<Seq<usize>>, expected: Seq<Seq<usize>>, k: int) -> bool {
    forall|j: int| 0 <= j < k ==> #[trigger] found[j] == expected[j]
}

/// Whether `k` is where the saved shapes first part from the expected ones.
pub open spec fn first_shape_mismatch(found: Seq<Seq<usize>>, expected: Seq<Seq<usize>>, k: int) -> bool {
    &&& 0 <= k <= found.len()
    &&& k <= expected.len()
    &&& shapes_agree_before(found, expected, k)
    &&& (k == found.len() || k == expected.len() || found[k] != expected[k])
    &&& found != expected
}

/// Whether every label lies in `[0, num_classes)`.
pub open spec fn labels_in_range(targets: Seq<i64>, num_classes: usize) -> bool {
    forall|i: int| 0 <= i < targets.len() ==> 0 <= #[trigger] targets[i] < num_classes
}

impl ModelConfig {
    /// Checks the shapes of a loaded parameter snapshot against the ones that
    /// this configuration builds.
    pub fn check_record_shapes(&self, found: &Vec<Vec<usize>>) -> (r: Result<(), CheckpointError>)
        ensures
            r is Ok <==> found.deep_view() == param_shapes(*self),
            r != Err::<(), _>(CheckpointError::Missing),
            forall|k: usize|
                r == Err::<(), _>(CheckpointError::ShapeMismatch { parameter: k })
                    ==> first_shape_mismatch(found.deep_view(), param_shapes(*self), k as int),
    {
        let expected = self.parameter_shapes();
        let ghost f = found.deep_view();
        let ghost e = expected.deep_view();
        let mut k: usize = 0;
        while k < found.len() && k < expected.len()
            invariant
                0 <= k <= found.len(),
                k <= expected.len(),
                f == found.deep_view(),
                e == expected.deep_view(),
                e == param_shapes(*self),
                shapes_agree_before(f, e, k as int),
            decreases found.len() - k,
        {
            let a = &found[k];
            let b = &expected[k];
            let mut same = false;
            if a.len() == b.len() {
                let mut d: usize = 0;
                while d < a.len() && a[d] == b[d]
                    invariant
                        a.len() == b.len(),
                        0 <= d <= a.len(),
                        forall|x: int| 0 <= x < d ==> a@[x] == b@[x],
                    decreases a.len() - d,
                {
                    d = d + 1;
                }
                same = d == a.len();
            }
            assert(f[k as int] == a@);
            assert(e[k as int] == b@);
            if !same {
                assert(a@ != b@);
                assert(f[k as int] != e[k as int]);
                assert(f != e);
                return Err(CheckpointError::ShapeMismatch { parameter: k });
            }
            assert(a@ =~= b@);
            k = k + 1;
        }
        if found.len() != expected.len() {
            assert(f.len() != e.len());
            Err(CheckpointError::ShapeMismatch { parameter: k })
        } else {
            assert(f =~= e);
            Ok(())
        }
    }

    /// Checks that every target label is a class of this model, so that the
    /// loss never indexes outside the logits.
    pub fn check_targets(&self, targets: &Vec<i64>) -> (r: Result<(), LabelRangeError>)
        ensures
            r is Ok <==> labels_in_range(targets@, self.num_classes),
            r matches Err(e) ==> {
                &&& e.index < targets@.len()
                &&& e.label == targets@[e.index as int]
                &&& !(0 <= e.label < self.num_classes)
                &&& labels_in_range(targets@.take(e.index as int), self.num_classes)
            },
    {
        let mut i: usize = 0;
        while i < targets.len()
            invariant
                0 <= i <= targets.len(),
                labels_in_range(targets@.take(i as int), self.num_classes),
            decreases targets.len() - i,
        {
            let label = targets[i];
            if label < 0 || label as u64 >= self.num_classes as u64 {
                return Err(LabelRangeError { index: i, label });
            }
            assert(targets@.take(i + 1) =~= targets@.take(i as int).push(label));
            i = i + 1;
        }
        assert(targets@.take(i as int) =~= targets@);
        Ok(())
    }
}

/// For every valid configuration and every batch of `n >= 1` images of the
/// training size, the forward pass gives logits of shape `[n, num_classes]`.
pub proof fn lemma_forward_gives_class_logits(cfg: ModelConfig, n: usize)
    requires
        cfg.is_valid(),
        n >= 1,
    ensures
        logits_dims(cfg, n, IMAGE_SIDE, IMAGE_SIDE) == Ok::<(usize, usize), ShapeError>(
            (n, cfg.num_classes),
        ),
{
}

/// Shapes round-trip through a checkpoint: the parameter shapes that a
/// configuration saves show no mismatch when loaded under that same
/// configuration, while a configuration edited in either shape setting
/// expects other shapes, so a stale snapshot is caught.
pub proof fn lemma_checkpoint_shapes_round_trip(saved: ModelConfig, loading: ModelConfig)
    ensures
        forall|k: int| !first_shape_mismatch(param_shapes(saved), param_shapes(saved), k),
        (saved.num_classes != loading.num_classes || saved.hidden_size != loading.hidden_size)
            <==> param_shapes(saved) != param_shapes(loading),
{
    if saved.hidden_size != loading.hidden_size {
        assert(param_shapes(saved)[5][0] != param_shapes(loading)[5][0]);
    } else if saved.num_classes != loading.num_classes {
        assert(param_shapes(saved)[7][0] != param_shapes(loading)[7][0]);
    } else {
        assert(param_shapes(saved) =~= param_shapes(loading));
    }
}

} // verus!

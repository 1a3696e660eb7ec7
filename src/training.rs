//! The training run: its configuration, the checkpoint layout under the
//! output directory, and the session that decides, step by step, what the
//! run does next.

use vstd::prelude::*;
use vstd::string::StringExecFns;
use crate::architecture::{ConfigError, ModelConfig};

verus! {

/// File name of the model configuration inside the output directory.
pub const MODEL_CONFIG_FILE: &'static str = "/model_config.json";

/// File name of the parameter snapshot inside the output directory.
pub const MODEL_FILE: &'static str = "/model";

/// The integer and text settings of a training run.
#[derive(Clone, Debug)]
pub struct TrainingConfig {
    pub model: ModelConfig,
    pub num_epochs: usize,
    pub batch_size: usize,
    pub num_workers: usize,
    pub seed: u64,
    pub output_dir: String,
}

/// Why a training run stopped.
#[derive(Clone, Copy, Debug, PartialEq, Eq, Structural)]
pub enum TrainError {
    Model(ConfigError),
    NoBatchSize,
    /// Creating the output directory or writing the configuration failed.
    Io,
    /// The optimization itself failed.
    Fit,
}

/// Number of batches of at most `batch_size` records that cover `len`
/// records: the last one is shorter when `batch_size` does not divide `len`.
pub open spec fn spec_batch_count(len: nat, batch_size: nat) -> nat
    recommends
        batch_size >= 1,
{
    if len % batch_size == 0 {
        len / batch_size
    } else {
        len / batch_size + 1
    }
}

impl TrainingConfig {
    pub open spec fn is_valid(&self) -> bool {
        self.model.is_valid() && self.batch_size >= 1
    }

    /// The configuration used when no file is given: ten classes, a hidden
    /// layer of 512, ten epochs, batches of 64, four workers, seed 42, and
    /// `./output` as output directory.
    pub fn default_config() -> (r: TrainingConfig)
        ensures
            r.model == ModelConfig::new_spec(10, 512),
            r.num_epochs == 10,
            r.batch_size == 64,
            r.num_workers == 4,
            r.seed == 42,
            r.output_dir@ == "./output"@,
            r.is_valid(),
    {
        TrainingConfig {
            model: ModelConfig::new(10, 512),
            num_epochs: 10,
            batch_size: 64,
            num_workers: 4,
            seed: 42,
            output_dir: String::from_str("./output"),
        }
    }

    /// Whether `e` is the error that `validate` gives for this configuration.
    pub open spec fn validate_error(&self, e: TrainError) -> bool {
        if !self.model.is_valid() {
            e == TrainError::Model(self.model.validate_spec()->Err_0)
        } else {
            !self.is_valid() && e == TrainError::NoBatchSize
        }
    }

    /// Checks that the run can start.
    pub fn validate(&self) -> (r: Result<(), TrainError>)
        ensures
            r is Ok <==> self.is_valid(),
            r matches Err(e) ==> self.validate_error(e),
            r matches Err(TrainError::Model(e)) ==> !self.model.is_valid()
                && self.model.validate_spec() == Err::<(), _>(e),
            r == Err::<(), _>(TrainError::NoBatchSize) <==> self.model.is_valid()
                && self.batch_size == 0,
            r != Err::<(), _>(TrainError::Io),
            r != Err::<(), _>(TrainError::Fit),
    {
        match self.model.validate() {
            Err(e) => Err(TrainError::Model(e)),
            Ok(()) => {
                if self.batch_size == 0 {
                    Err(TrainError::NoBatchSize)
                } else {
                    Ok(())
                }
            },
        }
    }

    /// Where the model configuration is written.
    pub fn config_path(&self) -> (r: String)
        ensures
            r@ == self.output_dir@ + MODEL_CONFIG_FILE@,
    {
        self.output_dir.clone().concat(MODEL_CONFIG_FILE)
    }

    /// Where the trained parameters are written.
    pub fn model_path(&self) -> (r: String)
        ensures
            r@ == self.output_dir@ + MODEL_FILE@,
    {
        self.output_dir.clone().concat(MODEL_FILE)
    }
}

/// Number of batches that cover `len` records.
pub fn batch_count(len: usize, batch_size: usize) -> (r: usize)
    requires
        batch_size >= 1,
    ensures
        r == spec_batch_count(len as nat, batch_size as nat),
{
    let q = len / batch_size;
    if len % batch_size == 0 {
        q
    } else {
        proof {
            assert(q < usize::MAX) by (nonlinear_arith)
                requires
                    q == len / batch_size,
                    batch_size >= 1,
                    len % batch_size != 0,
                    len <= usize::MAX,
            {
                if batch_size == 1 {
                } else {
                    assert(q * batch_size <= len);
                }
            }
        }
        q + 1
    }
}

/// Where a training run stands. Each phase but the two last waits for the
/// outcome of the action that led into it.
#[derive(Clone, Copy, Debug, PartialEq, Eq, Structural)]
pub enum TrainPhase {
    /// Waiting for the output directory to be created.
    CreatingOutputDir,
    /// Waiting for the model configuration to be written.
    WritingConfig,
    /// Waiting for the seeded optimization over all epochs.
    Fitting,
    /// Waiting for the trained parameters to be written.
    SavingModel,
    Finished,
    Aborted,
}

/// What the caller does next.
#[derive(Clone, Debug)]
pub enum TrainAction {
    CreateOutputDir { path: String },
    WriteModelConfig { path: String },
    /// Seed the random source, then run every epoch (a training pass and a
    /// validation pass) over batches of `batch_size`.
    Fit { seed: u64, num_epochs: usize, batch_size: usize, num_workers: usize },
    SaveModel { path: String },
    /// The run is complete.
    Finish,
    /// The run stops with an error, which is returned to the caller.
    Abort { error: TrainError },
    /// The trained parameters could not be written: the result of the run is
    /// lost, which must not pass silently.
    Fatal { path: String },
}

/// Outcome of the action that the caller last performed.
#[derive(Clone, Copy, Debug, PartialEq, Eq, Structural)]
pub enum StepOutcome {
    Succeeded,
    Failed,
}

/// The phase that follows `phase` on `outcome`.
pub open spec fn next_phase(phase: TrainPhase, outcome: StepOutcome) -> TrainPhase {
    match (phase, outcome) {
        (TrainPhase::CreatingOutputDir, StepOutcome::Succeeded) => TrainPhase::WritingConfig,
        (TrainPhase::WritingConfig, StepOutcome::Succeeded) => TrainPhase::Fitting,
        (TrainPhase::Fitting, StepOutcome::Succeeded) => TrainPhase::SavingModel,
        (TrainPhase::SavingModel, StepOutcome::Succeeded) => TrainPhase::Finished,
        (TrainPhase::SavingModel, StepOutcome::Failed) => TrainPhase::Aborted,
        (_, StepOutcome::Failed) => TrainPhase::Aborted,
        (p, _) => p,
    }
}

/// Whether `action` is what a session of `config` emits on moving from
/// `phase` on `outcome`.
pub open spec fn action_after(
    config: TrainingConfig,
    phase: TrainPhase,
    outcome: StepOutcome,
    action: TrainAction,
) -> bool {
    match (phase, outcome) {
        (TrainPhase::CreatingOutputDir, StepOutcome::Succeeded) => action matches TrainAction::WriteModelConfig { path }
            && path@ == config.output_dir@ + MODEL_CONFIG_FILE@,
        (TrainPhase::WritingConfig, StepOutcome::Succeeded) => action == (TrainAction::Fit {
            seed: config.seed,
            num_epochs: config.num_epochs,
            batch_size: config.batch_size,
            num_workers: config.num_workers,
        }),
        (TrainPhase::Fitting, StepOutcome::Succeeded) => action matches TrainAction::SaveModel { path }
            && path@ == config.output_dir@ + MODEL_FILE@,
        (TrainPhase::SavingModel, StepOutcome::Succeeded) => action == TrainAction::Finish,
        (TrainPhase::SavingModel, StepOutcome::Failed) => action matches TrainAction::Fatal { path }
            && path@ == config.output_dir@ + MODEL_FILE@,
        (TrainPhase::Fitting, StepOutcome::Failed) => action == (TrainAction::Abort {
            error: TrainError::Fit,
        }),
        (TrainPhase::CreatingOutputDir, StepOutcome::Failed) | (
            TrainPhase::WritingConfig,
            StepOutcome::Failed,
        ) => action == (TrainAction::Abort { error: TrainError::Io }),
        _ => action == TrainAction::Finish,
    }
}

/// A training run, from its configuration to the saved parameters.
#[derive(Clone, Debug)]
pub struct TrainingSession {
    pub config: TrainingConfig,
    pub phase: TrainPhase,
}

impl TrainingSession {
    pub open spec fn is_done(&self) -> bool {
        self.phase == TrainPhase::Finished || self.phase == TrainPhase::Aborted
    }

    /// Whether the run has ended, successfully or not.
    pub fn is_finished(&self) -> (r: bool)
        ensures
            r == self.is_done(),
    {
        match self.phase {
            TrainPhase::Finished | TrainPhase::Aborted => true,
            _ => false,
        }
    }

    /// Starts a run: a valid configuration leads to the creation of the
    /// output directory, an invalid one stops the run at once.
    pub fn start(config: TrainingConfig) -> (r: (TrainingSession, TrainAction))
        ensures
            r.0.config == config,
            config.is_valid() ==> r.0.phase == TrainPhase::CreatingOutputDir && (
            r.1 matches TrainAction::CreateOutputDir { path } && path@ == config.output_dir@),
            !config.is_valid() ==> r.0.phase == TrainPhase::Aborted && (
            r.1 matches TrainAction::Abort { error } && config.validate_error(error)),
    {
        match config.validate() {
            Ok(()) => {
                let path = config.output_dir.clone();
                (TrainingSession { config, phase: TrainPhase::CreatingOutputDir }, TrainAction::CreateOutputDir { path })
            },
            Err(error) => (TrainingSession { config, phase: TrainPhase::Aborted }, TrainAction::Abort { error }),
        }
    }

    /// Takes the outcome of the last action and says what to do next.
    pub fn advance(&mut self, outcome: StepOutcome) -> (r: TrainAction)
        requires
            !old(self).is_done(),
        ensures
            final(self).config == old(self).config,
            final(self).phase == next_phase(old(self).phase, outcome),
            action_after(old(self).config, old(self).phase, outcome, r),
    {
        let (phase, action) = match (self.phase, outcome) {
            (TrainPhase::CreatingOutputDir, StepOutcome::Succeeded) => (
                TrainPhase::WritingConfig,
                TrainAction::WriteModelConfig { path: self.config.config_path() },
            ),
            (TrainPhase::WritingConfig, StepOutcome::Succeeded) => (
                TrainPhase::Fitting,
                TrainAction::Fit {
                    seed: self.config.seed,
                    num_epochs: self.config.num_epochs,
                    batch_size: self.config.batch_size,
                    num_workers: self.config.num_workers,
                },
            ),
            (TrainPhase::Fitting, StepOutcome::Succeeded) => (
                TrainPhase::SavingModel,
                TrainAction::SaveModel { path: self.config.model_path() },
            ),
            (TrainPhase::SavingModel, StepOutcome::Succeeded) => (TrainPhase::Finished, TrainAction::Finish),
            (TrainPhase::SavingModel, StepOutcome::Failed) => (
                TrainPhase::Aborted,
                TrainAction::Fatal { path: self.config.model_path() },
            ),
            (TrainPhase::Fitting, StepOutcome::Failed) => (
                TrainPhase::Aborted,
                TrainAction::Abort { error: TrainError::Fit },
            ),
            (TrainPhase::CreatingOutputDir, StepOutcome::Failed) => (
                TrainPhase::Aborted,
                TrainAction::Abort { error: TrainError::Io },
            ),
            (TrainPhase::WritingConfig, StepOutcome::Failed) => (
                TrainPhase::Aborted,
                TrainAction::Abort { error: TrainError::Io },
            ),
            (p, _) => (p, TrainAction::Finish),
        };
        self.phase = phase;
        action
    }
}

/// The configuration reaches disk before any optimization starts, and the
/// parameters are saved only after it: from a fresh run, the phases on success
/// are the creation of the directory, the configuration, the fit, the save.
pub proof fn lemma_config_written_before_fit()
    ensures
        next_phase(TrainPhase::CreatingOutputDir, StepOutcome::Succeeded) == TrainPhase::WritingConfig,
        next_phase(TrainPhase::WritingConfig, StepOutcome::Succeeded) == TrainPhase::Fitting,
        next_phase(TrainPhase::Fitting, StepOutcome::Succeeded) == TrainPhase::SavingModel,
        next_phase(TrainPhase::SavingModel, StepOutcome::Succeeded) == TrainPhase::Finished,
        forall|p: TrainPhase, o: StepOutcome| #[trigger] next_phase(p, o) == TrainPhase::Fitting
            ==> p == TrainPhase::WritingConfig && o == StepOutcome::Succeeded,
{
}

} // verus!

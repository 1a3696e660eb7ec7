use burneural::backend::FlagBackend;
use burneural::architecture::{ConfigError, ModelConfig};
use burneural::training::{
    batch_count, StepOutcome, TrainAction, TrainError, TrainPhase, TrainingConfig,
    TrainingSession,
};

#[test]
fn default_config_values() {
    let c = TrainingConfig::default_config();
    assert_eq!(c.model, ModelConfig::new(10, 512));
    assert_eq!(c.num_epochs, 10);
    assert_eq!(c.batch_size, 64);
    assert_eq!(c.num_workers, 4);
    assert_eq!(c.seed, 42);
    assert_eq!(c.output_dir, "./output");
    assert_eq!(c.validate(), Ok(()));
}

#[test]
fn checkpoint_paths_sit_in_output_dir() {
    let mut c = TrainingConfig::default_config();
    c.output_dir = String::from("/tmp/run");
    assert_eq!(c.config_path(), "/tmp/run/model_config.json");
    assert_eq!(c.model_path(), "/tmp/run/model");
}

#[test]
fn validate_reports_bad_settings() {
    let mut c = TrainingConfig::default_config();
    c.batch_size = 0;
    assert_eq!(c.validate(), Err(TrainError::NoBatchSize));
    c.model = ModelConfig::new(0, 512);
    assert_eq!(c.validate(), Err(TrainError::Model(ConfigError::NoClasses)));
}

#[test]
fn batch_count_rounds_up() {
    assert_eq!(batch_count(64, 64), 1);
    assert_eq!(batch_count(128, 64), 2);
    assert_eq!(batch_count(65, 64), 2);
    assert_eq!(batch_count(0, 64), 0);
    assert_eq!(batch_count(60000, 64), 938);
    assert_eq!(batch_count(usize::MAX, 2), usize::MAX / 2 + 1);
}

fn small_run() -> TrainingConfig {
    TrainingConfig {
        model: ModelConfig::new(10, 512),
        num_epochs: 1,
        batch_size: 64,
        num_workers: 1,
        seed: 42,
        output_dir: String::from("out"),
    }
}

#[test]
fn session_runs_steps_in_order() {
    let (mut s, first) = TrainingSession::start(small_run());
    assert!(matches!(first, TrainAction::CreateOutputDir { ref path } if path == "out"));
    assert!(matches!(
        s.advance(StepOutcome::Succeeded),
        TrainAction::WriteModelConfig { ref path } if path == "out/model_config.json"
    ));
    assert!(matches!(
        s.advance(StepOutcome::Succeeded),
        TrainAction::Fit { seed: 42, num_epochs: 1, batch_size: 64, num_workers: 1 }
    ));
    assert!(matches!(
        s.advance(StepOutcome::Succeeded),
        TrainAction::SaveModel { ref path } if path == "out/model"
    ));
    assert!(matches!(s.advance(StepOutcome::Succeeded), TrainAction::Finish));
    assert_eq!(s.phase, TrainPhase::Finished);
}

#[test]
fn failed_save_is_fatal() {
    let (mut s, _) = TrainingSession::start(small_run());
    s.advance(StepOutcome::Succeeded);
    s.advance(StepOutcome::Succeeded);
    s.advance(StepOutcome::Succeeded);
    assert!(matches!(
        s.advance(StepOutcome::Failed),
        TrainAction::Fatal { ref path } if path == "out/model"
    ));
    assert_eq!(s.phase, TrainPhase::Aborted);
}

#[test]
fn failed_setup_aborts_with_error() {
    let (mut s, _) = TrainingSession::start(small_run());
    assert!(matches!(
        s.advance(StepOutcome::Failed),
        TrainAction::Abort { error: TrainError::Io }
    ));
    let (mut s, _) = TrainingSession::start(small_run());
    s.advance(StepOutcome::Succeeded);
    s.advance(StepOutcome::Succeeded);
    assert!(matches!(
        s.advance(StepOutcome::Failed),
        TrainAction::Abort { error: TrainError::Fit }
    ));
}

#[test]
fn invalid_config_stops_at_start() {
    let mut c = small_run();
    c.batch_size = 0;
    let (s, action) = TrainingSession::start(c);
    assert_eq!(s.phase, TrainPhase::Aborted);
    assert!(matches!(action, TrainAction::Abort { error: TrainError::NoBatchSize }));
}

#[test]
fn backend_names() {
    assert_eq!(FlagBackend::default_backend(), FlagBackend::Ndarray);
    assert_eq!(FlagBackend::Ndarray.name(), "ndarray");
    assert_eq!(FlagBackend::Cuda.name(), "cuda");
}

#[test]
fn session_reports_when_finished() {
    let (mut s, _) = TrainingSession::start(small_run());
    assert!(!s.is_finished());
    for _ in 0..4 {
        s.advance(StepOutcome::Succeeded);
    }
    assert!(s.is_finished());
}

#[test]
fn one_epoch_run_plans_both_artifacts() {
    let config = TrainingConfig {
        model: ModelConfig::new(10, 512),
        num_epochs: 1,
        batch_size: 64,
        num_workers: 4,
        seed: 42,
        output_dir: String::from("synthetic_out"),
    };
    assert_eq!(batch_count(64, config.batch_size), 1);
    let (mut s, _) = TrainingSession::start(config);
    let mut writes = Vec::new();
    loop {
        match s.advance(StepOutcome::Succeeded) {
            TrainAction::WriteModelConfig { path } | TrainAction::SaveModel { path } => {
                writes.push(path)
            }
            TrainAction::Fit { seed, num_epochs, batch_size, .. } => {
                assert_eq!((seed, num_epochs, batch_size), (42, 1, 64));
            }
            TrainAction::Finish => break,
            other => panic!("unexpected action {other:?}"),
        }
    }
    assert_eq!(writes, vec!["synthetic_out/model_config.json", "synthetic_out/model"]);
}

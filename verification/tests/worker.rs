use audio_synthesis_shader::messages::{Command, Next, Polled, UiCommand};
use audio_synthesis_shader::registry::{Analysis, CompileError, Pipelines};
use audio_synthesis_shader::worker::Worker;

const SINE_AND_SAW: &str = "
@compute @workgroup_size(1)
fn sine() {}

@compute @workgroup_size(1)
fn saw() {}
";

const SAW_AND_SQUARE: &str = "
@compute @workgroup_size(1)
fn saw() {}

@compute @workgroup_size(1)
fn square() {}
";

const INVALID: &str = "@compute fn";

const NO_WORKGROUP_SIZE: &str = "@compute fn square() {}";

fn front_end(source: &str) -> Analysis {
    let module = match naga::front::wgsl::Parser::new().parse(source) {
        Ok(module) => module,
        Err(error) => return Analysis::Unparsed(error.emit_to_string(source)),
    };
    let mut validator = naga::valid::Validator::new(
        naga::valid::ValidationFlags::all(),
        naga::valid::Capabilities::all(),
    );
    match validator.validate(&module) {
        Ok(_) => Analysis::Valid(module.entry_points.iter().map(|ep| ep.name.clone()).collect()),
        Err(error) => Analysis::Invalid(error.emit_to_string(source)),
    }
}

fn worker_at(sample_rate: u32) -> Worker<f32> {
    let pipelines = Pipelines::from_analysis(front_end(SINE_AND_SAW)).unwrap();
    Worker::new(pipelines, sample_rate, [0.0, 0.0])
}

#[test]
fn new_worker_has_run_nothing() {
    let worker = worker_at(44100);
    let params = worker.params();
    assert_eq!(params.samples_elapsed, 0);
    assert_eq!(params.sample_rate, 44100);
    assert_eq!(params.samples, 5512);
    assert_eq!(params.sliders, [0.0, 0.0]);
    assert_eq!(worker.pipelines().current_pipeline(), "sine");
}

#[test]
fn ninth_dispatch_observes_one_second_elapsed() {
    let mut worker = worker_at(48000);
    assert_eq!(worker.params().samples, 6000);
    for done in 0..8u32 {
        assert_eq!(worker.params().samples_elapsed, done * 6000);
        worker.advance();
    }
    assert_eq!(worker.params().samples_elapsed, 48000);
}

#[test]
fn elapsed_counter_wraps_at_u32() {
    let mut worker = worker_at(u32::MAX);
    let block = worker.params().samples;
    assert_eq!(block, 536870911);
    for _ in 0..8 {
        worker.advance();
    }
    assert_eq!(worker.params().samples_elapsed, 4294967288);
    worker.advance();
    assert_eq!(worker.params().samples_elapsed, 536870903);
}

#[test]
fn dispatch_observes_the_last_value_set_for_each_slider() {
    let mut worker = worker_at(48000);
    assert!(!worker.apply(Command::SetSlider(0, 0.25)));
    assert!(!worker.apply(Command::SetSlider(1, 0.5)));
    assert!(!worker.apply(Command::SetSlider(0, 0.75)));
    assert_eq!(worker.params().sliders, [0.75, 0.5]);
    worker.advance();
    assert_eq!(worker.params().sliders, [0.75, 0.5]);
    assert!(!worker.apply(Command::SetSlider(1, 1.0)));
    worker.advance();
    assert_eq!(worker.params().sliders, [0.75, 1.0]);
    assert_eq!(worker.params().samples_elapsed, 12000);
}

#[test]
fn commands_leave_the_counter_alone() {
    let mut worker = worker_at(48000);
    worker.advance();
    worker.apply(Command::SetSlider(0, 0.5));
    worker.apply(Command::SetCurrentPipeline("saw".to_string()));
    worker.apply(Command::ReloadPipeline);
    assert_eq!(worker.params().samples_elapsed, 6000);
}

#[test]
fn reload_command_asks_for_the_source() {
    let mut worker = worker_at(48000);
    assert!(worker.apply(Command::ReloadPipeline));
    assert_eq!(worker.pipelines().keys(), vec!["sine".to_string(), "saw".to_string()]);
    assert_eq!(worker.pipelines().current_pipeline(), "sine");
}

#[test]
fn select_command_takes_effect_only_for_known_names() {
    let mut worker = worker_at(48000);
    worker.apply(Command::SetCurrentPipeline("saw".to_string()));
    assert_eq!(worker.pipelines().current_pipeline(), "saw");
    assert_eq!(worker.pipelines().current_slot(), 1);
    worker.apply(Command::SetCurrentPipeline("square".to_string()));
    assert_eq!(worker.pipelines().current_pipeline(), "saw");
}

#[test]
fn reload_keeps_the_selection_that_still_exists() {
    let mut worker = worker_at(48000);
    worker.apply(Command::SetCurrentPipeline("saw".to_string()));
    match worker.reload(front_end(SAW_AND_SQUARE)) {
        Ok(UiCommand::NewPipelines(entry_points, current)) => {
            assert_eq!(entry_points, vec!["saw".to_string(), "square".to_string()]);
            assert_eq!(current, "saw");
        }
        other => panic!("expected the new list, got {:?}", other),
    }
    assert_eq!(worker.pipelines().current_pipeline(), "saw");
    assert_eq!(worker.pipelines().current_slot(), 0);
}

#[test]
fn reload_falls_back_to_the_first_entry_point() {
    let mut worker = worker_at(48000);
    assert_eq!(worker.pipelines().current_pipeline(), "sine");
    match worker.reload(front_end(SAW_AND_SQUARE)) {
        Ok(UiCommand::NewPipelines(_, current)) => assert_eq!(current, "saw"),
        other => panic!("expected the new list, got {:?}", other),
    }
    assert_eq!(worker.pipelines().current_pipeline(), "saw");
}

#[test]
fn failed_reload_changes_nothing_and_is_not_sticky() {
    let mut worker = worker_at(48000);
    worker.apply(Command::SetCurrentPipeline("saw".to_string()));
    worker.apply(Command::SetSlider(1, 0.5));
    worker.advance();

    match worker.reload(front_end(INVALID)) {
        Err(CompileError::SyntaxOrValidation(details)) => assert!(!details.is_empty()),
        other => panic!("expected a syntax error, got {:?}", other),
    }
    assert_eq!(worker.pipelines().keys(), vec!["sine".to_string(), "saw".to_string()]);
    assert_eq!(worker.pipelines().current_pipeline(), "saw");
    assert_eq!(worker.params().sliders, [0.0, 0.5]);
    assert_eq!(worker.params().samples_elapsed, 6000);

    assert_eq!(worker.reload(front_end("")).unwrap_err(), CompileError::NoEntryPoints);
    assert_eq!(worker.pipelines().current_pipeline(), "saw");

    match worker.reload(front_end(NO_WORKGROUP_SIZE)) {
        Err(CompileError::SyntaxOrValidation(details)) => assert!(!details.is_empty()),
        other => panic!("expected a validation error, got {:?}", other),
    }
    assert_eq!(worker.pipelines().keys(), vec!["sine".to_string(), "saw".to_string()]);
    assert_eq!(worker.pipelines().current_pipeline(), "saw");

    assert!(worker.reload(front_end(SAW_AND_SQUARE)).is_ok());
    assert_eq!(worker.pipelines().keys(), vec!["saw".to_string(), "square".to_string()]);
    assert_eq!(worker.pipelines().current_pipeline(), "saw");
}

#[test]
fn install_reports_the_new_list() {
    let mut worker = worker_at(48000);
    let fresh =
        Pipelines::from_analysis(Analysis::Valid(vec!["a".to_string(), "sine".to_string()])).unwrap();
    match worker.install(fresh) {
        UiCommand::NewPipelines(entry_points, current) => {
            assert_eq!(entry_points, vec!["a".to_string(), "sine".to_string()]);
            assert_eq!(current, "sine");
        }
        other => panic!("expected the new list, got {:?}", other),
    }
    assert_eq!(worker.pipelines().current_slot(), 1);
}

#[test]
fn commands_are_drained_before_the_shader_runs() {
    let mut worker = worker_at(48000);
    worker.advance();
    let polls = vec![
        Polled::Command(Command::SetSlider(0, 0.25)),
        Polled::Command(Command::SetCurrentPipeline("saw".to_string())),
        Polled::Command(Command::SetSlider(0, 0.5)),
    ];
    for polled in polls {
        assert!(matches!(worker.handle(polled), Next::Poll));
    }
    match worker.handle(Polled::Empty) {
        Next::Dispatch { slot, params } => {
            assert_eq!(slot, 1);
            assert_eq!(params.samples_elapsed, 6000);
            assert_eq!(params.sample_rate, 48000);
            assert_eq!(params.samples, 6000);
            assert_eq!(params.sliders, [0.5, 0.0]);
        }
        other => panic!("expected a dispatch, got {:?}", other),
    }
    assert_eq!(worker.params().samples_elapsed, 6000);
}

#[test]
fn reload_request_is_passed_to_the_loop() {
    let mut worker = worker_at(48000);
    assert!(matches!(
        worker.handle(Polled::Command(Command::ReloadPipeline)),
        Next::Reload
    ));
    assert_eq!(worker.pipelines().current_pipeline(), "sine");
}

#[test]
fn dropped_sender_stops_the_worker() {
    let mut worker = worker_at(48000);
    worker.apply(Command::SetSlider(1, 0.5));
    assert!(matches!(worker.handle(Polled::Disconnected), Next::Shutdown));
    assert_eq!(worker.params().sliders, [0.0, 0.5]);
    assert_eq!(worker.params().samples_elapsed, 0);
}

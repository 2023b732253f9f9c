use json_transform::params::{JobSpec, Param, ParamValue};
use json_transform::pipeline::{aggregate_input, Action, Event, FileProbe, JobOutcome, Pipeline};

fn text_param(id: &str, value: &str) -> Param {
    Param { id: id.to_string(), value: ParamValue::Text(value.to_string()) }
}

fn list_param(id: &str, values: &[&str]) -> Param {
    Param {
        id: id.to_string(),
        value: ParamValue::TextList(values.iter().map(|s| s.to_string()).collect()),
    }
}

fn flag_param(id: &str, value: bool) -> Param {
    Param { id: id.to_string(), value: ParamValue::Flag(value) }
}

fn expect_failed_report(action: Action, expected: &str) {
    match action {
        Action::Report { outcome: JobOutcome::Error(m) } => assert_eq!(m, expected),
        other => panic!("expected a failure report, got {:?}", action_name(&other)),
    }
}

fn action_name(action: &Action) -> &'static str {
    match action {
        Action::ProbeFilter { .. } => "ProbeFilter",
        Action::ReadFilterFile { .. } => "ReadFilterFile",
        Action::CompileFilter { .. } => "CompileFilter",
        Action::ProbeSource { .. } => "ProbeSource",
        Action::ReadSource { .. } => "ReadSource",
        Action::RunFilter { .. } => "RunFilter",
        Action::WriteDestination { .. } => "WriteDestination",
        Action::Report { .. } => "Report",
    }
}

#[test]
fn process_test_error() {
    let job = JobSpec {
        parameters: vec![
            list_param("source_paths", &["/tmp/wrong_source.json"]),
            text_param("template_mode", "string"),
            text_param("template", ".name"),
            text_param("destination_path", "/tmp/destination_6.json"),
        ],
    };
    let (p, a) = Pipeline::start(job);
    match &a {
        Action::CompileFilter { filter } => assert_eq!(filter, ".name"),
        other => panic!("expected CompileFilter, got {}", action_name(other)),
    }
    let (p, a) = p.on_event(Event::FilterCompiled { result: Ok(()) });
    match &a {
        Action::ProbeSource { path } => assert_eq!(path, "/tmp/wrong_source.json"),
        other => panic!("expected ProbeSource, got {}", action_name(other)),
    }
    let (p, a) = p.on_event(Event::SourceProbed { probe: FileProbe::Missing });
    expect_failed_report(a, "IO Error: No such file: \"/tmp/wrong_source.json\"");
    match p.outcome() {
        Some(JobOutcome::Error(m)) => {
            assert_eq!(m, "IO Error: No such file: \"/tmp/wrong_source.json\"")
        },
        _ => panic!("expected a failed outcome"),
    }
}

#[test]
fn mode_test_error() {
    let job = JobSpec {
        parameters: vec![
            list_param("source_paths", &["/tmp/source_7.json"]),
            text_param("template_mode", "url"),
        ],
    };
    let (p, a) = Pipeline::start(job);
    expect_failed_report(a, "IO Error: mode \"url\" not supported.");
    match p.outcome() {
        Some(JobOutcome::Error(m)) => assert_eq!(m, "IO Error: mode \"url\" not supported."),
        _ => panic!("expected a failed outcome"),
    }
}

/// Drives one JSON source through the whole pipeline and returns the write
/// the machine requested, with the filter's answer supplied by the caller.
fn run_single_json_source(content: &str, filter_answer: &str) -> (String, String) {
    let job = JobSpec {
        parameters: vec![
            list_param("source_paths", &["/tmp/source_1.json"]),
            text_param("template", ".name"),
            text_param("destination_path", "/tmp/destination_1.json"),
        ],
    };
    let (p, a) = Pipeline::start(job);
    match &a {
        Action::CompileFilter { filter } => assert_eq!(filter, ".name"),
        other => panic!("expected CompileFilter, got {}", action_name(other)),
    }
    let (p, a) = p.on_event(Event::FilterCompiled { result: Ok(()) });
    match &a {
        Action::ProbeSource { path } => assert_eq!(path, "/tmp/source_1.json"),
        other => panic!("expected ProbeSource, got {}", action_name(other)),
    }
    let (p, a) = p.on_event(Event::SourceProbed { probe: FileProbe::RegularFile });
    match &a {
        Action::ReadSource { path } => assert_eq!(path, "/tmp/source_1.json"),
        other => panic!("expected ReadSource, got {}", action_name(other)),
    }
    let (p, a) = p.on_event(Event::SourceRead { result: Ok(content.to_string()) });
    match &a {
        Action::RunFilter { input } => assert_eq!(input, content),
        other => panic!("expected RunFilter, got {}", action_name(other)),
    }
    let (p, a) = p.on_event(Event::FilterRan { result: Ok(filter_answer.to_string()) });
    let (path, written) = match a {
        Action::WriteDestination { path, content } => (path, content),
        other => panic!("expected WriteDestination, got {}", action_name(&other)),
    };
    let (p, a) = p.on_event(Event::DestinationWritten { result: Ok(()) });
    match a {
        Action::Report { outcome: JobOutcome::Completed } => {},
        other => panic!("expected a completion report, got {}", action_name(&other)),
    }
    assert!(p.outcome().unwrap().is_completed());
    (path, written)
}

#[test]
fn single_json_source_writes_filter_answer() {
    let content = "{\"name\":\"John Doe\",\"age\":43}";
    let (path, written) = run_single_json_source(content, "\"John Doe\"\n");
    assert_eq!(path, "/tmp/destination_1.json");
    assert_eq!(written, "\"John Doe\"\n");
}

#[test]
fn same_job_same_answers_same_write() {
    let content = "{\"name\":\"John Doe\",\"age\":43}";
    let first = run_single_json_source(content, "\"John Doe\"\n");
    let second = run_single_json_source(content, "\"John Doe\"\n");
    assert_eq!(first, second);
}

#[test]
fn later_sources_overwrite_earlier_ones() {
    let job = JobSpec {
        parameters: vec![
            list_param("source_paths", &["/tmp/a.json", "/tmp/b.json"]),
            text_param("template", "."),
            text_param("destination_path", "/tmp/out.json"),
        ],
    };
    let (p, _) = Pipeline::start(job);
    let (p, _) = p.on_event(Event::FilterCompiled { result: Ok(()) });
    let (p, _) = p.on_event(Event::SourceProbed { probe: FileProbe::RegularFile });
    let (p, _) = p.on_event(Event::SourceRead { result: Ok("{\"n\":1}".to_string()) });
    let (p, a) = p.on_event(Event::SourceProbed { probe: FileProbe::RegularFile });
    match &a {
        Action::ReadSource { path } => assert_eq!(path, "/tmp/b.json"),
        other => panic!("expected ReadSource, got {}", action_name(other)),
    }
    let (p, a) = p.on_event(Event::SourceRead { result: Ok("{\"n\":2}".to_string()) });
    match &a {
        Action::RunFilter { input } => assert_eq!(input, "{\"n\":1}"),
        other => panic!("expected RunFilter, got {}", action_name(other)),
    }
    let (p, a) = p.on_event(Event::FilterRan { result: Ok("{\"n\":1}\n".to_string()) });
    let first_write = match a {
        Action::WriteDestination { path, content } => {
            assert_eq!(path, "/tmp/out.json");
            content
        },
        other => panic!("expected WriteDestination, got {}", action_name(&other)),
    };
    assert_eq!(first_write, "{\"n\":1}\n");
    let (p, a) = p.on_event(Event::DestinationWritten { result: Ok(()) });
    match &a {
        Action::RunFilter { input } => assert_eq!(input, "{\"n\":2}"),
        other => panic!("expected RunFilter, got {}", action_name(other)),
    }
    let (p, a) = p.on_event(Event::FilterRan { result: Ok("{\"n\":2}\n".to_string()) });
    let last_write = match a {
        Action::WriteDestination { path, content } => {
            assert_eq!(path, "/tmp/out.json");
            content
        },
        other => panic!("expected WriteDestination, got {}", action_name(&other)),
    };
    let (p, a) = p.on_event(Event::DestinationWritten { result: Ok(()) });
    match a {
        Action::Report { outcome: JobOutcome::Completed } => {},
        other => panic!("expected a completion report, got {}", action_name(&other)),
    }
    assert!(p.outcome().unwrap().is_completed());
    assert_eq!(last_write, "{\"n\":2}\n");
}

#[test]
fn aggregate_mode_runs_filter_once_on_the_array() {
    let job = JobSpec {
        parameters: vec![
            list_param("source_paths", &["/tmp/s1.json", "/tmp/s2.json"]),
            flag_param("slurp", true),
            text_param("template", ".[0].word + .[1].word"),
            text_param("destination_path", "/tmp/out.json"),
        ],
    };
    let (p, _) = Pipeline::start(job);
    let (p, _) = p.on_event(Event::FilterCompiled { result: Ok(()) });
    let (p, _) = p.on_event(Event::SourceProbed { probe: FileProbe::RegularFile });
    let (p, _) = p.on_event(
        Event::SourceRead { result: Ok("{\"word\":\"Hello, \"}".to_string()) },
    );
    let (p, _) = p.on_event(Event::SourceProbed { probe: FileProbe::RegularFile });
    let (p, a) = p.on_event(Event::SourceRead { result: Ok("{\"word\":\"world!\"}".to_string()) });
    match &a {
        Action::RunFilter { input } => {
            assert_eq!(input, "[{\"word\":\"Hello, \"},{\"word\":\"world!\"}]")
        },
        other => panic!("expected RunFilter, got {}", action_name(other)),
    }
    let (p, a) = p.on_event(Event::FilterRan { result: Ok("\"Hello, world!\"\n".to_string()) });
    match &a {
        Action::WriteDestination { path, content } => {
            assert_eq!(path, "/tmp/out.json");
            assert_eq!(content, "\"Hello, world!\"\n");
        },
        other => panic!("expected WriteDestination, got {}", action_name(other)),
    }
    let (p, a) = p.on_event(Event::DestinationWritten { result: Ok(()) });
    match a {
        Action::Report { outcome: JobOutcome::Completed } => {},
        other => panic!("expected a completion report, got {}", action_name(&other)),
    }
    assert!(p.outcome().unwrap().is_completed());
}

#[test]
fn missing_second_source_fails_before_any_write() {
    let job = JobSpec {
        parameters: vec![
            list_param("source_paths", &["/tmp/a.json", "/tmp/b.json"]),
            text_param("template", "."),
            text_param("destination_path", "/tmp/out.json"),
        ],
    };
    let (p, a) = Pipeline::start(job);
    assert!(!matches!(a, Action::WriteDestination { .. }));
    let (p, a) = p.on_event(Event::FilterCompiled { result: Ok(()) });
    assert!(!matches!(a, Action::WriteDestination { .. }));
    let (p, a) = p.on_event(Event::SourceProbed { probe: FileProbe::RegularFile });
    assert!(!matches!(a, Action::WriteDestination { .. }));
    let (p, a) = p.on_event(Event::SourceRead { result: Ok("{\"n\":1}".to_string()) });
    assert!(!matches!(a, Action::WriteDestination { .. }));
    let (p, a) = p.on_event(Event::SourceProbed { probe: FileProbe::Missing });
    expect_failed_report(a, "IO Error: No such file: \"/tmp/b.json\"");
    match p.outcome() {
        Some(JobOutcome::Error(m)) => assert_eq!(m, "IO Error: No such file: \"/tmp/b.json\""),
        _ => panic!("expected a failed outcome"),
    }
}

#[test]
fn directory_source_fails_with_its_own_message() {
    let job = JobSpec {
        parameters: vec![
            text_param("source_path", "/tmp/somewhere"),
            text_param("template", "."),
            text_param("destination_path", "/tmp/out.json"),
        ],
    };
    let (p, _) = Pipeline::start(job);
    let (p, _) = p.on_event(Event::FilterCompiled { result: Ok(()) });
    let (_, a) = p.on_event(Event::SourceProbed { probe: FileProbe::Directory });
    expect_failed_report(a, "IO Error: Path is a directory: \"/tmp/somewhere\"");
}

#[test]
fn file_mode_filter_is_probed_read_then_compiled() {
    let job = JobSpec {
        parameters: vec![
            list_param("source_paths", &["/tmp/source_2.json"]),
            text_param("template_mode", "file"),
            text_param("template", "/tmp/template_2.jq"),
            text_param("output_mode", "json"),
            text_param("destination_path", "/tmp/destination_2.json"),
        ],
    };
    let (p, a) = Pipeline::start(job);
    match &a {
        Action::ProbeFilter { path } => assert_eq!(path, "/tmp/template_2.jq"),
        other => panic!("expected ProbeFilter, got {}", action_name(other)),
    }
    let (p, a) = p.on_event(Event::FilterProbed { probe: FileProbe::RegularFile });
    match &a {
        Action::ReadFilterFile { path } => assert_eq!(path, "/tmp/template_2.jq"),
        other => panic!("expected ReadFilterFile, got {}", action_name(other)),
    }
    let (_, a) = p.on_event(Event::FilterFileRead { result: Ok(".name".to_string()) });
    match &a {
        Action::CompileFilter { filter } => assert_eq!(filter, ".name"),
        other => panic!("expected CompileFilter, got {}", action_name(other)),
    }
}

#[test]
fn missing_filter_file_fails_before_reading() {
    let job = JobSpec {
        parameters: vec![
            list_param("source_paths", &["/tmp/source_2.json"]),
            text_param("template_mode", "file"),
            text_param("template", "/tmp/absent.jq"),
            text_param("destination_path", "/tmp/destination_2.json"),
        ],
    };
    let (p, a) = Pipeline::start(job);
    match &a {
        Action::ProbeFilter { path } => assert_eq!(path, "/tmp/absent.jq"),
        other => panic!("expected ProbeFilter, got {}", action_name(other)),
    }
    let (_, a) = p.on_event(Event::FilterProbed { probe: FileProbe::Missing });
    expect_failed_report(a, "IO Error: No such file: \"/tmp/absent.jq\"");
}

#[test]
fn missing_template_parameter_fails_at_once() {
    let job = JobSpec {
        parameters: vec![
            list_param("source_paths", &["/tmp/a.json"]),
            text_param("destination_path", "/tmp/out.json"),
        ],
    };
    let (_, a) = Pipeline::start(job);
    expect_failed_report(a, "IO Error: Missing template parameter");
}

#[test]
fn missing_sources_fail_at_once() {
    let job = JobSpec {
        parameters: vec![
            text_param("template", "."),
            text_param("destination_path", "/tmp/out.json"),
        ],
    };
    let (_, a) = Pipeline::start(job);
    expect_failed_report(a, "IO Error: Source path(s) must be defined.");
}

#[test]
fn missing_destination_fails_at_once() {
    let job = JobSpec {
        parameters: vec![
            list_param("source_paths", &["/tmp/a.json"]),
            text_param("template", "."),
        ],
    };
    let (_, a) = Pipeline::start(job);
    expect_failed_report(a, "IO Error: Destination path must be defined.");
}

#[test]
fn unsupported_output_mode_fails_at_once() {
    let job = JobSpec {
        parameters: vec![
            list_param("source_paths", &["/tmp/a.json"]),
            text_param("template", "."),
            text_param("destination_path", "/tmp/out.json"),
            text_param("output_mode", "yaml"),
        ],
    };
    let (_, a) = Pipeline::start(job);
    expect_failed_report(a, "IO Error: output mode \"yaml\" not supported.");
}

#[test]
fn compile_failure_reports_the_engine_message() {
    let job = JobSpec {
        parameters: vec![
            list_param("source_paths", &["/tmp/a.json"]),
            text_param("template", ".name"),
            text_param("destination_path", "/tmp/out.json"),
        ],
    };
    let (p, _) = Pipeline::start(job);
    let (_, a) = p.on_event(
        Event::FilterCompiled { result: Err("3 compile errors".to_string()) },
    );
    expect_failed_report(a, "IO Error: 3 compile errors");
}

#[test]
fn filter_run_failure_reports_with_its_prefix() {
    let job = JobSpec {
        parameters: vec![
            list_param("source_paths", &["/tmp/a.json"]),
            text_param("template", ".name"),
            text_param("destination_path", "/tmp/out.json"),
        ],
    };
    let (p, _) = Pipeline::start(job);
    let (p, _) = p.on_event(Event::FilterCompiled { result: Ok(()) });
    let (p, _) = p.on_event(Event::SourceProbed { probe: FileProbe::RegularFile });
    let (p, _) = p.on_event(Event::SourceRead { result: Ok("{}".to_string()) });
    let (_, a) = p.on_event(Event::FilterRan { result: Err("null has no field".to_string()) });
    expect_failed_report(a, "IO Error: Unable to process with JQ: null has no field");
}

#[test]
fn read_failure_names_the_source() {
    let job = JobSpec {
        parameters: vec![
            list_param("source_paths", &["/tmp/a.json"]),
            text_param("template", "."),
            text_param("destination_path", "/tmp/out.json"),
        ],
    };
    let (p, _) = Pipeline::start(job);
    let (p, _) = p.on_event(Event::FilterCompiled { result: Ok(()) });
    let (p, _) = p.on_event(Event::SourceProbed { probe: FileProbe::RegularFile });
    let (_, a) = p.on_event(Event::SourceRead { result: Err("permission denied".to_string()) });
    expect_failed_report(a, "IO Error: Unable to read file /tmp/a.json: permission denied");
}

#[test]
fn write_failure_reports_with_its_prefix() {
    let job = JobSpec {
        parameters: vec![
            list_param("source_paths", &["/tmp/a.json"]),
            text_param("template", "."),
            text_param("destination_path", "/tmp/out.json"),
        ],
    };
    let (p, _) = Pipeline::start(job);
    let (p, _) = p.on_event(Event::FilterCompiled { result: Ok(()) });
    let (p, _) = p.on_event(Event::SourceProbed { probe: FileProbe::RegularFile });
    let (p, _) = p.on_event(Event::SourceRead { result: Ok("{}".to_string()) });
    let (p, _) = p.on_event(Event::FilterRan { result: Ok("{}\n".to_string()) });
    let (_, a) = p.on_event(Event::DestinationWritten { result: Err("disk full".to_string()) });
    expect_failed_report(a, "IO Error: Unable to write generated result: disk full");
}

#[test]
fn single_source_path_takes_precedence_over_the_list() {
    let job = JobSpec {
        parameters: vec![
            text_param("source_path", "/tmp/single.json"),
            list_param("source_paths", &["/tmp/ignored.json"]),
            text_param("template", "."),
            text_param("destination_path", "/tmp/out.json"),
        ],
    };
    let (p, _) = Pipeline::start(job);
    let (_, a) = p.on_event(Event::FilterCompiled { result: Ok(()) });
    match &a {
        Action::ProbeSource { path } => assert_eq!(path, "/tmp/single.json"),
        other => panic!("expected ProbeSource, got {}", action_name(other)),
    }
}

#[test]
fn aggregate_input_is_the_array_of_documents() {
    let docs = vec!["{\"a\":1}".to_string(), "{\"b\":2}".to_string(), "3".to_string()];
    assert_eq!(aggregate_input(&docs), "[{\"a\":1},{\"b\":2},3]");
    let one = vec!["{\"a\":1}".to_string()];
    assert_eq!(aggregate_input(&one), "[{\"a\":1}]");
}

#[test]
fn xml_in_xml_out_identity_round_trips() {
    let content = "<name type=\"str\">John Doe</name>";
    let job = JobSpec {
        parameters: vec![
            list_param("source_paths", &["/tmp/source_3.xml"]),
            text_param("template", "."),
            text_param("output_mode", "xml"),
            text_param("destination_path", "/tmp/destination_3.xml"),
        ],
    };
    let (p, _) = Pipeline::start(job);
    let (p, _) = p.on_event(Event::FilterCompiled { result: Ok(()) });
    let (p, _) = p.on_event(Event::SourceProbed { probe: FileProbe::RegularFile });
    let (p, a) = p.on_event(Event::SourceRead { result: Ok(content.to_string()) });
    let canonical = match &a {
        Action::RunFilter { input } => {
            assert_eq!(input, "{\"name\":[{\"_\":\"John Doe\",\"$type\":\"str\"}]}");
            input.clone()
        },
        other => panic!("expected RunFilter, got {}", action_name(other)),
    };
    let identity_answer = format!("{}\n", canonical);
    let (p, a) = p.on_event(Event::FilterRan { result: Ok(identity_answer) });
    match &a {
        Action::WriteDestination { path, content: written } => {
            assert_eq!(path, "/tmp/destination_3.xml");
            assert_eq!(written, content);
        },
        other => panic!("expected WriteDestination, got {}", action_name(other)),
    }
    let (p, a) = p.on_event(Event::DestinationWritten { result: Ok(()) });
    match a {
        Action::Report { outcome: JobOutcome::Completed } => {},
        other => panic!("expected a completion report, got {}", action_name(&other)),
    }
    assert!(p.outcome().unwrap().is_completed());
}

#[test]
fn malformed_source_fails_during_decode() {
    let job = JobSpec {
        parameters: vec![
            list_param("source_paths", &["/tmp/bad.xml"]),
            text_param("template", "."),
            text_param("destination_path", "/tmp/out.json"),
        ],
    };
    let (p, _) = Pipeline::start(job);
    let (p, _) = p.on_event(Event::FilterCompiled { result: Ok(()) });
    let (p, _) = p.on_event(Event::SourceProbed { probe: FileProbe::RegularFile });
    let (_, a) = p.on_event(Event::SourceRead { result: Ok("<name>unclosed".to_string()) });
    match a {
        Action::Report { outcome: JobOutcome::Error(m) } => {
            assert!(m.starts_with("IO Error: Unable to convert input to json /tmp/bad.xml: "));
        },
        other => panic!("expected a failure report, got {}", action_name(&other)),
    }
}

use afterburner::cmd_train::{is_missing_adapter_message, parse_args, train_backend, TrainArgs, TrainBackend, TrainTask};

fn strings(v: &[&str]) -> Vec<String> {
    v.iter().map(|s| s.to_string()).collect()
}

fn as_f64(v: &Option<String>) -> Option<f64> {
    v.as_deref().map(|s| s.parse::<f64>().expect("float text"))
}

#[test]
fn parse_args_accepts_scalability_controls() {
    let args = strings(&["--batch-size", "32", "--num-epochs", "1", "--num-workers=4"]);
    let parsed = parse_args(&args).expect("parse args");
    assert_eq!(
        parsed,
        TrainArgs {
            task: TrainTask::Mnist,
            batch_size: Some(32),
            num_workers: Some(4),
            num_epochs: Some(1),
            world_size: None,
            device_group: None,
            participant_devices: None,
            checkpoint_group: None,
            max_train_items: None,
            max_valid_items: None,
            dataset_manifest: None,
            tokenizer_profile: None,
            token_cache: None,
            resume_epoch: None,
            max_validation_loss: None,
            max_validation_perplexity: None,
        }
    );
}

#[test]
fn parse_args_rejects_zero_batch_size() {
    let err = parse_args(&strings(&["--batch-size", "0"])).expect_err("zero batch size must fail");
    assert!(err.contains("--batch-size must be > 0"));
}

#[test]
fn parse_args_rejects_zero_num_epochs() {
    let err = parse_args(&strings(&["--num-epochs", "0"])).expect_err("zero num epochs must fail");
    assert!(err.contains("--num-epochs must be > 0"));
}

#[test]
fn cmd_train_parse_args_rejects_unknown_flag() {
    let err = parse_args(&strings(&["--bogus"])).expect_err("unknown flag must fail");
    assert!(err.contains("unknown argument for train: --bogus"));
}

#[test]
fn parse_args_accepts_explicit_single_node_dp_runtime_flags() {
    let args = strings(&[
        "--world-size",
        "2",
        "--device-group",
        "single-node:cpu",
        "--participant-devices",
        "cpu0,cpu1",
        "--checkpoint-group",
        "group-a",
        "--max-train-items",
        "64",
        "--max-valid-items",
        "32",
    ]);
    let parsed = parse_args(&args).expect("parse dp args");
    assert_eq!(parsed.world_size, Some(2));
    assert_eq!(parsed.device_group.as_deref(), Some("single-node:cpu"));
    assert_eq!(parsed.participant_devices, Some(vec!["cpu0".to_string(), "cpu1".to_string()]));
    assert_eq!(parsed.checkpoint_group.as_deref(), Some("group-a"));
    assert_eq!(parsed.max_train_items, Some(64));
    assert_eq!(parsed.max_valid_items, Some(32));
}

#[test]
fn parse_args_rejects_world_size_without_device_group() {
    let err = parse_args(&strings(&["--world-size", "2"])).expect_err("world size without device group");
    assert!(err.contains("--world-size requires --device-group"));
}

#[test]
fn parse_args_rejects_empty_device_group_inline() {
    let args = strings(&["--world-size=2", "--device-group=", "--participant-devices=cpu0,cpu1"]);
    let err = parse_args(&args).expect_err("empty device group must fail");
    assert!(err.contains("--device-group must be non-empty"));
}

#[test]
fn parse_args_rejects_world_size_without_participant_devices() {
    let args = strings(&["--world-size", "2", "--device-group", "single-node:cpu"]);
    let err = parse_args(&args).expect_err("world size without participant devices");
    assert!(err.contains("--world-size requires --participant-devices"));
}

#[test]
fn parse_args_rejects_resume_without_checkpoint_group() {
    let err = parse_args(&strings(&["--resume-epoch", "1"])).expect_err("resume without checkpoint group");
    assert!(err.contains("--resume-epoch requires --checkpoint-group"));
}

#[test]
fn parse_args_rejects_empty_participant_device_entries() {
    let args = strings(&[
        "--world-size=2",
        "--device-group=single-node:wgpu",
        "--participant-devices=default, ",
    ]);
    let err = parse_args(&args).expect_err("empty participant device entry");
    assert!(err.contains("--participant-devices entries must be non-empty"));
}

#[test]
fn parse_args_rejects_text_dp_path_until_later_queue_item() {
    let args = strings(&[
        "--task",
        "text",
        "--dataset-manifest",
        "fixtures/pretraining_dataset_manifest.example.json",
        "--tokenizer-profile",
        "fixtures/text_tokenizer_packing_profile.example.json",
        "--token-cache",
        "fixtures/text_token_cache.example.json",
        "--world-size",
        "2",
        "--device-group",
        "single-node:cpu",
        "--participant-devices",
        "cpu0,cpu1",
    ]);
    let err = parse_args(&args).expect_err("text dp must fail");
    assert!(err.contains("does not support the explicit DP runtime path yet"));
}

#[test]
fn parse_args_accepts_text_task() {
    let args = strings(&[
        "--task",
        "text",
        "--dataset-manifest",
        "fixtures/pretraining_dataset_manifest.example.json",
        "--tokenizer-profile",
        "fixtures/text_tokenizer_packing_profile.example.json",
        "--token-cache",
        "fixtures/text_token_cache.example.json",
        "--resume-epoch",
        "1",
        "--max-validation-loss",
        "4.0",
        "--max-validation-perplexity=80.0",
    ]);
    let parsed = parse_args(&args).expect("parse text args");
    assert_eq!(parsed.task, TrainTask::Text);
    assert_eq!(parsed.resume_epoch, Some(1));
    assert_eq!(as_f64(&parsed.max_validation_loss), Some(4.0));
    assert_eq!(as_f64(&parsed.max_validation_perplexity), Some(80.0));
    assert_eq!(
        parsed.dataset_manifest.as_deref(),
        Some("fixtures/pretraining_dataset_manifest.example.json")
    );
}

#[test]
fn train_parse_reports_value_errors_in_order() {
    let err = parse_args(&strings(&["--batch-size=x", "--bogus"])).err().unwrap();
    assert!(err.starts_with("invalid value for --batch-size: x\n"));
    let err = parse_args(&strings(&["--max-validation-loss", "4.0.0"])).err().unwrap();
    assert!(err.starts_with("invalid value for --max-validation-loss: 4.0.0\n"));
    let err = parse_args(&strings(&["--task=vision"])).err().unwrap();
    assert!(err.starts_with("invalid value for --task: vision (expected `mnist` or `text`)\n"));
    let err = parse_args(&strings(&["--token-cache"])).err().unwrap();
    assert!(err.starts_with("missing value for --token-cache\n"));
    let err = parse_args(&strings(&["--token-cache=x"])).err().unwrap();
    assert!(err.starts_with("unknown argument for train: --token-cache=x\n"));
    let err = parse_args(&strings(&["--world-size=3", "--device-group=g", "--participant-devices=a,b"]))
        .err()
        .unwrap();
    assert!(err.starts_with("--participant-devices must contain exactly 3 entries for --world-size 3\n"));
    let err = parse_args(&strings(&["--participant-devices", "  "])).err().unwrap();
    assert!(err.starts_with("--participant-devices must contain at least one device ref\n"));
}

#[test]
fn train_float_flags_follow_the_float_grammar() {
    for ok in ["1", "-2.5", "+.5", "3.", "1e9", "2.5E-3", "inf", "-Infinity", "NaN"] {
        let parsed = parse_args(&strings(&["--max-validation-loss", ok])).expect(ok);
        let text = parsed.max_validation_loss.unwrap();
        assert!(text.parse::<f64>().is_ok(), "{ok}");
    }
    for bad in ["", ".", "e5", "1e", "1.2.3", "--1", "infinit", " 1"] {
        assert!(parse_args(&strings(&["--max-validation-loss", bad])).is_err(), "{bad:?}");
        assert!(bad.parse::<f64>().is_err(), "{bad:?}");
    }
}

#[test]
fn train_backend_follows_the_setting() {
    assert_eq!(train_backend(None), TrainBackend::Wgpu);
    assert_eq!(train_backend(Some("CPU".to_string())), TrainBackend::Cpu);
    assert_eq!(train_backend(Some("Metal".to_string())), TrainBackend::Metal);
    assert_eq!(train_backend(Some("vulkan".to_string())), TrainBackend::Wgpu);
    assert_eq!(train_backend(Some(" cpu".to_string())), TrainBackend::Wgpu);
}

#[test]
fn missing_adapter_panics_are_recognised() {
    assert!(is_missing_adapter_message("wgpu: No possible adapter available for backend Vulkan"));
    assert!(is_missing_adapter_message("No possible adapter available for backend"));
    assert!(!is_missing_adapter_message("No possible adapter"));
    assert!(!is_missing_adapter_message(""));
}

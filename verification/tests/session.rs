//! Tests of the builder, validation, reconciliation, the write plan,
//! the global error register and snapshot enumeration.
use storage_config::builder::{gen_temp_path, ConfigBuilder, DEFAULT_SEGMENT_SIZE};
use storage_config::config::Config;
use storage_config::crate_version;
use storage_config::error::Error;
use storage_config::mode::Mode;
use storage_config::pipeline::{OpenEvent, OpenState};
use storage_config::snapshot::filter_snapshot_entries;
use storage_config::storage_parameters::StorageParameters;

fn unsupported_message(r: Result<(), Error>) -> &'static str {
    match r {
        Err(Error::Unsupported(msg)) => msg,
        other => panic!("expected an unsupported-configuration error, got {:?}", other),
    }
}

#[test]
fn defaults_match_the_documented_values() {
    let b = ConfigBuilder::default();
    assert_eq!(b.cache_capacity, 1024 * 1024 * 1024);
    assert_eq!(b.flush_every_ms, Some(500));
    assert_eq!(b.segment_size, 512 * 1024);
    assert_eq!(b.segment_size, DEFAULT_SEGMENT_SIZE);
    assert!(!b.create_new);
    assert!(matches!(b.mode, Mode::LowSpace));
    assert!(!b.temporary);
    assert!(!b.use_compression);
    assert_eq!(b.compression_factor, 5);
    assert_eq!(b.idgen_persist_interval, 1_000_000);
    assert_eq!(b.snapshot_after_ops, 1_000_000);
    assert_eq!(b.version, crate_version());
}

#[test]
fn setters_replace_exactly_one_field() {
    let b = ConfigBuilder::default()
        .cache_capacity(4096)
        .use_compression(true)
        .compression_factor(9)
        .temporary(true)
        .create_new(true)
        .mode(Mode::HighThroughput)
        .snapshot_after_ops(42)
        .flush_every_ms(None)
        .idgen_persist_interval(7)
        .segment_size(1024);
    assert_eq!(b.cache_capacity, 4096);
    assert!(b.use_compression);
    assert_eq!(b.compression_factor, 9);
    assert!(b.temporary);
    assert!(b.create_new);
    assert!(matches!(b.mode, Mode::HighThroughput));
    assert_eq!(b.snapshot_after_ops, 42);
    assert_eq!(b.flush_every_ms, None);
    assert_eq!(b.idgen_persist_interval, 7);
    assert_eq!(b.segment_size, 1024);
}

#[test]
fn paths_join_under_the_effective_root() {
    let b = ConfigBuilder::default().path("data/dir".to_string());
    assert_eq!(b.get_path(), "data/dir");
    assert_eq!(b.db_path(), "data/dir/db");
    assert_eq!(b.config_path(), "data/dir/conf");
}

#[test]
fn temporary_builder_uses_generated_path_only_without_explicit_path() {
    let tmp = gen_temp_path(1, 2, 3);
    let b = ConfigBuilder::default().temporary(true).tmp_path(tmp.clone());
    assert_eq!(b.get_path(), tmp);
    let b2 = ConfigBuilder::default()
        .temporary(true)
        .tmp_path(tmp.clone())
        .path("explicit".to_string());
    assert_eq!(b2.get_path(), "explicit");
    let b3 = ConfigBuilder::default().tmp_path(tmp);
    assert_eq!(b3.get_path(), "default.db");
}

#[test]
fn generated_temp_paths_embed_the_salt() {
    // salt = 1 * 2^16 + 2 * 2^48 + 3
    assert_eq!(
        gen_temp_path(1, 2, 3),
        "/dev/shm/pagecache.tmp.562949953486851"
    );
    assert_eq!(gen_temp_path(0, 0, 0), "/dev/shm/pagecache.tmp.0");
    assert_ne!(gen_temp_path(9, 9, 1), gen_temp_path(9, 9, 2));
}

#[test]
fn normalize_rounds_down_to_segment_multiples() {
    let b = ConfigBuilder::default().segment_size(512);
    assert_eq!(b.normalize(0), 0);
    assert_eq!(b.normalize(511), 0);
    assert_eq!(b.normalize(512), 512);
    assert_eq!(b.normalize(7000), 6656);
}

#[test]
fn cache_capacity_is_clamped_to_a_smaller_limit_only() {
    let mut b = ConfigBuilder::default().cache_capacity(1000);
    b.limit_cache_max_memory(Some(400));
    assert_eq!(b.cache_capacity, 400);
    let mut b = ConfigBuilder::default().cache_capacity(1000);
    b.limit_cache_max_memory(Some(4000));
    assert_eq!(b.cache_capacity, 1000);
    let mut b = ConfigBuilder::default().cache_capacity(1000);
    b.limit_cache_max_memory(None);
    assert_eq!(b.cache_capacity, 1000);
}

#[test]
fn validation_rejects_bad_segment_sizes() {
    // Zero, not a power of two, below 256, above 16 MiB.
    for bad in [0usize, 200, 524289, 128, 1 << 25] {
        let c = ConfigBuilder::default().segment_size(bad).build();
        let msg = unsupported_message(c.validate());
        assert!(msg.contains("segment_size"), "message was: {}", msg);
    }
}

#[test]
fn validation_example_sizes() {
    // 200 is not a power of two and fails; 524288 (512 KiB) succeeds.
    let c = ConfigBuilder::default().segment_size(200).build();
    assert!(matches!(c.validate(), Err(Error::Unsupported(_))));
    let c = ConfigBuilder::default().segment_size(524288).build();
    assert!(c.validate().is_ok());
}

#[test]
fn validation_accepts_the_boundaries() {
    for good in [256usize, 1024, 1 << 24] {
        let c = ConfigBuilder::default().segment_size(good).build();
        assert!(c.validate().is_ok());
    }
}

#[test]
fn validation_rejects_bad_compression_levels() {
    for bad in [0i32, -1, 23] {
        let c = ConfigBuilder::default().compression_factor(bad).build();
        let msg = unsupported_message(c.validate());
        assert!(msg.contains("compression_factor"), "message was: {}", msg);
    }
    for good in [1i32, 22] {
        let c = ConfigBuilder::default().compression_factor(good).build();
        assert!(c.validate().is_ok());
    }
}

#[test]
fn validation_rejects_a_zero_persistence_interval() {
    let c = ConfigBuilder::default().idgen_persist_interval(0).build();
    let msg = unsupported_message(c.validate());
    assert!(msg.contains("idgen_persist_interval"));
}

#[test]
fn reconcile_rejects_a_compression_change_in_either_direction() {
    let c_on = ConfigBuilder::default().use_compression(true).build();
    let old_off = c_on.storage_parameters();
    let old_off = StorageParameters { use_compression: false, ..old_off };
    let msg = unsupported_message(c_on.reconcile(&old_off));
    assert!(msg.contains("created without compression"));

    let c_off = ConfigBuilder::default().build();
    let old_on = StorageParameters { use_compression: true, ..c_off.storage_parameters() };
    let msg = unsupported_message(c_off.reconcile(&old_on));
    assert!(msg.contains("created with compression"));
}

#[test]
fn reconcile_rejects_a_segment_size_change() {
    let c = ConfigBuilder::default().segment_size(1024).build();
    let old = StorageParameters { segment_size: 2048, ..c.storage_parameters() };
    let msg = unsupported_message(c.reconcile(&old));
    assert!(msg.contains("io buffer size"));
}

#[test]
fn reconcile_rejects_a_version_change() {
    let c = ConfigBuilder::default().build();
    let old = StorageParameters { version: (99, 7), ..c.storage_parameters() };
    let msg = unsupported_message(c.reconcile(&old));
    assert!(msg.contains("version"));
}

#[test]
fn reconcile_accepts_identical_parameters() {
    let c = ConfigBuilder::default().build();
    assert!(c.reconcile(&c.storage_parameters()).is_ok());
}

#[test]
fn opening_twice_reads_back_what_the_first_open_wrote() {
    // First open: nothing persisted, so the decision stages a write.
    let c = ConfigBuilder::default().path("some/dir".to_string()).build();
    let staged = match c.verify_config_decision(Config::read_config_from(None)) {
        Ok(Some(bytes)) => bytes,
        other => panic!("first open should stage a write, got {:?}", other),
    };
    assert_eq!(staged, c.config_file_contents());
    assert!(Config::checksum_matches(&staged));

    // Second open: reading those bytes back reconciles cleanly and
    // stages nothing.
    let read = Config::read_config_from(Some(&staged));
    assert!(matches!(c.verify_config_decision(read), Ok(None)));
}

#[test]
fn reconciliation_errors_abort_the_decision() {
    let c = ConfigBuilder::default().use_compression(true).build();
    let old = StorageParameters { use_compression: false, ..c.storage_parameters() };
    assert!(matches!(
        c.verify_config_decision(Ok(Some(old))),
        Err(Error::Unsupported(_))
    ));
    assert!(matches!(
        c.verify_config_decision(Err(Error::Io("read failed"))),
        Err(Error::Io("read failed"))
    ));
}

#[test]
fn the_write_plan_stages_into_the_temporary_file() {
    let c = ConfigBuilder::default().path("root".to_string()).build();
    let plan = c.write_config_plan();
    assert_eq!(plan.tmp_path, "root/conf.tmp");
    assert_eq!(plan.final_path, "root/conf");
    assert_ne!(plan.tmp_path, plan.final_path);
    assert_eq!(plan.bytes, c.config_file_contents());
}

#[test]
fn global_error_register_first_writer_wins() {
    let c = ConfigBuilder::default().build();
    assert!(c.global_error().is_ok());
    c.set_global_error(Error::Io("first failure"));
    match c.global_error() {
        Err(Error::Io(msg)) => assert_eq!(msg, "first failure"),
        other => panic!("expected the first error, got {:?}", other),
    }
    // A later set is a no-op while the slot is occupied.
    c.set_global_error(Error::Corruption);
    assert!(matches!(c.global_error(), Err(Error::Io("first failure"))));
    // A reset empties the slot; a new set installs the new value.
    c.reset_global_error();
    assert!(c.global_error().is_ok());
    c.set_global_error(Error::Corruption);
    assert!(matches!(c.global_error(), Err(Error::Corruption)));
}

#[test]
fn clones_share_one_error_register() {
    let c = ConfigBuilder::default().build();
    let c2 = c.clone();
    c.set_global_error(Error::Unsupported("reported once"));
    assert!(matches!(
        c2.global_error(),
        Err(Error::Unsupported("reported once"))
    ));
    c2.reset_global_error();
    assert!(c.global_error().is_ok());
}

#[test]
fn snapshot_enumeration_keeps_finished_snapshots_in_order() {
    let c = ConfigBuilder::default().path("root".to_string()).build();
    let prefix = c.snapshot_prefix();
    assert_eq!(prefix, "root/snap.");
    let entries = vec![
        "root/snap.001".to_string(),
        "root/snap.002.generating".to_string(),
        "root/db".to_string(),
        "root/snap.010".to_string(),
        "elsewhere/snap.003".to_string(),
    ];
    let kept = filter_snapshot_entries(prefix.as_str(), &entries);
    assert_eq!(kept, vec!["root/snap.001".to_string(), "root/snap.010".to_string()]);
}

#[test]
fn the_open_pipeline_runs_its_steps_in_order() {
    let c = ConfigBuilder::default().path("root".to_string()).build();
    let mut state = c.open_begin();
    assert!(matches!(state, OpenState::EnsuringHeapDir));
    state = c.open_next(state, OpenEvent::Completed);
    assert!(matches!(state, OpenState::ReadingConfig));
    // Nothing persisted yet: the record must be written first.
    state = c.open_next(state, OpenEvent::ConfigRead { contents: None });
    assert!(matches!(state, OpenState::WritingConfig));
    state = c.open_next(state, OpenEvent::Completed);
    assert!(matches!(state, OpenState::DroppingSentinel));
    state = c.open_next(state, OpenEvent::Completed);
    assert!(matches!(state, OpenState::OpeningDbFile));
    state = c.open_next(state, OpenEvent::Completed);
    assert!(matches!(state, OpenState::LockingDbFile));
    state = c.open_next(state, OpenEvent::Completed);
    assert!(matches!(state, OpenState::SyncingRootDir));
    state = c.open_next(state, OpenEvent::Completed);
    assert!(matches!(state, OpenState::SyncingHeapDir));
    state = c.open_next(state, OpenEvent::Completed);
    assert!(matches!(state, OpenState::Done));
}

#[test]
fn the_open_pipeline_skips_the_write_when_the_record_reconciles() {
    let c = ConfigBuilder::default().path("root".to_string()).build();
    let persisted = c.config_file_contents();
    let mut state = c.open_begin();
    state = c.open_next(state, OpenEvent::Completed);
    state = c.open_next(state, OpenEvent::ConfigRead { contents: Some(persisted) });
    assert!(matches!(state, OpenState::DroppingSentinel));
}

#[test]
fn the_open_pipeline_aborts_on_invalid_options_and_on_failures() {
    let c = ConfigBuilder::default().segment_size(200).build();
    assert!(matches!(
        c.open_begin(),
        OpenState::Failed { error: Error::Unsupported(_) }
    ));

    let c = ConfigBuilder::default().build();
    let state = c.open_begin();
    let state = c.open_next(
        state,
        OpenEvent::Failed { error: Error::Io("could not create the heap directory") },
    );
    assert!(matches!(state, OpenState::Failed { error: Error::Io(_) }));

    // An incompatible persisted record aborts after the read.
    let other = ConfigBuilder::default().use_compression(true).build();
    let persisted = other.config_file_contents();
    let mut state = c.open_begin();
    state = c.open_next(state, OpenEvent::Completed);
    state = c.open_next(state, OpenEvent::ConfigRead { contents: Some(persisted) });
    assert!(matches!(state, OpenState::Failed { error: Error::Unsupported(_) }));

    // A corrupt record (long enough to be read) aborts as corruption.
    let garbage = b"not a record at all, but long enough to parse".to_vec();
    let mut state = c.open_begin();
    state = c.open_next(state, OpenEvent::Completed);
    state = c.open_next(state, OpenEvent::ConfigRead { contents: Some(garbage) });
    assert!(matches!(state, OpenState::Failed { error: Error::Corruption }));
}

#[test]
fn error_descriptions_carry_their_message() {
    assert_eq!(Error::Unsupported("why").describe(), "why");
    assert_eq!(Error::Io("disk trouble").describe(), "disk trouble");
    assert!(!Error::Corruption.describe().is_empty());
}

#[test]
fn crate_version_is_this_builds_schema_version() {
    assert_eq!(crate_version(), (0, 1));
}

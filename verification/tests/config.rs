use sc_executor_wasmedge::runtime::{
    prepare_blob_for_compilation, BlobPass, DataSegmentsSnapshot, ExposedMutableGlobalsSet,
    ModuleDescription,
};
use sc_executor_wasmedge::{
    common_config, create_runtime, create_runtime_from_artifact, Config, DeterministicStackLimit,
    Semantics, WasmError,
};
use wasmedge_types::CompilerOptimizationLevel;

fn semantics() -> Semantics {
    Semantics {
        fast_instance_reuse: false,
        deterministic_stack_limit: None,
        extra_heap_pages: 1024,
        max_memory_size: None,
    }
}

#[test]
fn the_engine_gets_no_extension() {
    let config = common_config(&semantics());
    assert_eq!(config.aot_optimization_level, CompilerOptimizationLevel::Os);
    assert_eq!(config.max_memory_pages, None);
    assert!(!config.reference_types);
    assert!(!config.simd);
    assert!(!config.bulk_memory_operations);
    assert!(!config.multi_value);
    assert!(!config.threads);
    assert!(!config.memory64);
}

#[test]
fn the_limit_of_memory_is_cut_down_to_whole_pages() {
    let pages = |size: usize| {
        common_config(&Semantics { max_memory_size: Some(size), ..semantics() }).max_memory_pages
    };
    assert_eq!(pages(0), Some(0));
    assert_eq!(pages(65535), Some(0));
    assert_eq!(pages(65536), Some(1));
    assert_eq!(pages(65536 * 1025), Some(1025));
    assert_eq!(pages(65536 * 1025 + 65535), Some(1025));
}

#[test]
fn the_module_is_changed_in_a_fixed_order() {
    assert_eq!(
        prepare_blob_for_compilation(&semantics()).unwrap(),
        vec![
            BlobPass::ConvertMemoryImportIntoExport,
            BlobPass::AddExtraHeapPages { extra_heap_pages: 1024 },
        ]
    );
    let all = Semantics {
        fast_instance_reuse: true,
        deterministic_stack_limit: Some(DeterministicStackLimit { logical_max: 65536 }),
        extra_heap_pages: u32::MAX as u64,
        max_memory_size: Some(1),
    };
    assert_eq!(
        prepare_blob_for_compilation(&all).unwrap(),
        vec![
            BlobPass::InjectStackDepthMetering { logical_max: 65536 },
            BlobPass::ExposeMutableGlobals,
            BlobPass::ConvertMemoryImportIntoExport,
            BlobPass::AddExtraHeapPages { extra_heap_pages: u32::MAX },
        ]
    );
}

#[test]
fn too_many_extra_heap_pages_are_refused() {
    let s = Semantics { extra_heap_pages: u32::MAX as u64 + 1, ..semantics() };
    match prepare_blob_for_compilation(&s).unwrap_err() {
        WasmError::Other(m) => assert_eq!(
            m,
            "invalid `extra_heap_pages`: out of range integral type conversion attempted"
        ),
    }
}

fn module() -> ModuleDescription {
    ModuleDescription {
        imports: vec![],
        data_segments: DataSegmentsSnapshot { data_segments: vec![(8, vec![1, 2, 3])] },
        mutable_globals: ExposedMutableGlobalsSet { names: vec!["counter".to_string()] },
    }
}

#[test]
fn a_runtime_keeps_the_snapshots_for_fast_reuse_only() {
    let fast = Config {
        allow_missing_func_imports: false,
        semantics: Semantics { fast_instance_reuse: true, ..semantics() },
    };
    let runtime = create_runtime(module(), vec![], fast);
    let data = runtime.snapshot_data.as_ref().unwrap();
    assert_eq!(data.data_segments_snapshot.data_segments, vec![(8, vec![1, 2, 3])]);
    assert_eq!(data.mutable_globals.names, vec!["counter".to_string()]);
    assert!(runtime.config.semantics.fast_instance_reuse);

    let slow = Config { allow_missing_func_imports: true, semantics: semantics() };
    let runtime = create_runtime(module(), vec![], slow);
    assert!(runtime.snapshot_data.is_none());
    assert!(runtime.config.allow_missing_func_imports);
}

#[test]
fn a_runtime_from_an_artifact_has_no_snapshots() {
    let fast = Config {
        allow_missing_func_imports: false,
        semantics: Semantics { fast_instance_reuse: true, ..semantics() },
    };
    let runtime = create_runtime_from_artifact(vec![], vec![], fast);
    assert!(runtime.snapshot_data.is_none());
    assert!(runtime.imports.is_empty());
    assert!(runtime.host_functions.is_empty());
}

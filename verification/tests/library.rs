use rs_board::library_index::{
    accept_index, check_index_metadata, nanos_to_system_time, system_time_to_nanos,
    DocumentSkeleton, DocumentSummary, IndexMetadata, IndexedDocument, LibraryIndexFile,
    ManifestFingerprint, INDEX_SCHEMA_VERSION, MAX_INDEX_BYTES,
};
use rs_board::library_worker::{
    Command, IndexAction, IndexInput, LibraryIndexCoordinatorError, LibraryIndexEvent,
    LibraryIndexWorker, SkeletonScan, Stage,
};

fn summary(document_id: u128, title: &str, revision: u64) -> DocumentSummary {
    DocumentSummary {
        document_id,
        title: title.to_owned(),
        revision,
        updated_at: 1_786_237_323_000_000_000,
        preview_revision: None,
        preview_path: None,
        manifest_fingerprint: ManifestFingerprint { byte_len: 42, modified_at: Some(123) },
    }
}

/// A library held in memory: its documents, some of which cannot be read, and the bytes of
/// its index as they would be understood.
struct Library {
    documents: Vec<(u128, Result<String, String>, ManifestFingerprint)>,
    index: Result<Vec<IndexedDocument>, String>,
}

impl Library {
    fn of(document_id: u128, title: &str) -> Library {
        let fingerprint = summary(document_id, title, 1).manifest_fingerprint;
        Library {
            documents: vec![(document_id, Ok(title.to_owned()), fingerprint)],
            index: Ok(Vec::new()),
        }
    }

    fn skeletons(&self) -> Vec<DocumentSkeleton> {
        self.documents
            .iter()
            .map(|document| DocumentSkeleton {
                document_id: document.0,
                manifest_fingerprint: document.2,
            })
            .collect()
    }

    fn read(&self, document_id: u128) -> Result<DocumentSummary, String> {
        for document in &self.documents {
            if document.0 == document_id {
                return match &document.1 {
                    Ok(title) => Ok(DocumentSummary {
                        manifest_fingerprint: document.2,
                        ..summary(document_id, title, 1)
                    }),
                    Err(error) => Err(error.clone()),
                };
            }
        }
        Err("no such document".to_owned())
    }

    fn load_index(&self) -> Result<LibraryIndexFile, String> {
        match &self.index {
            Ok(documents) => Ok(LibraryIndexFile {
                schema_version: INDEX_SCHEMA_VERSION,
                documents: documents.iter().map(|entry| entry.copy()).collect(),
            }),
            Err(error) => Err(error.clone()),
        }
    }

    /// Starts a worker and lets it run until there is nothing left to read, then ends it.
    fn reconcile(&mut self) -> Vec<LibraryIndexEvent> {
        let scan = SkeletonScan { skeletons: self.skeletons(), failures: Vec::new() };
        let (event, worker) = LibraryIndexWorker::bootstrap(Ok(scan), self.load_index(), 0);
        let mut events = vec![event];
        let mut worker = worker.unwrap();
        let mut now: u128 = 0;
        let mut input = IndexInput::NoCommand;
        loop {
            now += 1_000_000;
            input = match worker.step(input, now) {
                IndexAction::Poll => IndexInput::NoCommand,
                IndexAction::Load(skeleton) => IndexInput::Loaded {
                    skeleton,
                    result: self.read(skeleton.document_id),
                },
                IndexAction::LoadById { document_id, revision } => IndexInput::Refreshed {
                    document_id,
                    revision,
                    result: self.read(document_id),
                },
                IndexAction::Send(event) => {
                    events.push(event);
                    IndexInput::Sent(true)
                },
                IndexAction::Persist(file) => {
                    self.index = Ok(file.documents);
                    IndexInput::Persisted(true)
                },
                IndexAction::Wait(_) => IndexInput::Command(Command::Shutdown),
                IndexAction::Stop => return events,
            };
        }
    }
}

fn event_generation(event: &LibraryIndexEvent) -> u64 {
    match event {
        LibraryIndexEvent::Bootstrap { generation, .. } => *generation,
        LibraryIndexEvent::MetadataBatch { generation, .. } => *generation,
        LibraryIndexEvent::Reconciled { generation } => *generation,
    }
}

fn hydrated_titles(events: &Vec<LibraryIndexEvent>) -> Vec<String> {
    let mut titles = Vec::new();
    for event in events {
        if let LibraryIndexEvent::MetadataBatch { summaries, .. } = event {
            for summary in summaries {
                titles.push(summary.title.clone());
            }
        }
    }
    titles
}

fn is_reconciled(events: &Vec<LibraryIndexEvent>) -> bool {
    matches!(events.last(), Some(LibraryIndexEvent::Reconciled { .. }))
}

#[test]
fn index_round_trip_preserves_summary_fields() {
    let summary = DocumentSummary {
        document_id: 77,
        title: "讲义".to_owned(),
        revision: 3,
        updated_at: 1_786_237_323_000_000_000,
        preview_revision: Some(3),
        preview_path: Some("ignored".to_owned()),
        manifest_fingerprint: ManifestFingerprint { byte_len: 42, modified_at: Some(123) },
    };
    let indexed = IndexedDocument::from_summary(&summary);
    let file = LibraryIndexFile {
        schema_version: INDEX_SCHEMA_VERSION,
        documents: vec![indexed.copy()],
    };
    let decoded = accept_index(100, Ok(file)).ok().unwrap();

    assert_eq!(decoded.documents[0].document_id, summary.document_id);
    assert!(decoded.documents[0].manifest_fingerprint() == summary.manifest_fingerprint);
    let back = decoded.documents[0].to_summary();
    assert_eq!(back.title, summary.title);
    assert_eq!(back.revision, summary.revision);
    assert_eq!(back.updated_at, summary.updated_at);
    assert_eq!(back.preview_revision, summary.preview_revision);
    assert_eq!(
        back.preview_path.unwrap(),
        "00000000-0000-0000-0000-00000000004d/00000000-0000-0000-0000-00000000004d.preview.png"
    );
    assert!(IndexedDocument::from_summary(&DocumentSummary { revision: 4, ..summary })
        .to_summary()
        .preview_path
        .is_none());
}

#[test]
fn system_time_round_trip_is_exact() {
    let value: i128 = 1_234_000_000_567;
    assert_eq!(nanos_to_system_time(system_time_to_nanos(Some(value)).unwrap()), Some(value));
}

#[test]
fn times_before_the_epoch_are_not_kept() {
    assert_eq!(system_time_to_nanos(Some(-1)), None);
    assert_eq!(system_time_to_nanos(None), None);
}

#[test]
fn missing_index_bootstraps_from_manifests_and_is_rebuilt() {
    let mut library = Library::of(5, "来自 manifest");

    let events = library.reconcile();
    assert!(events.iter().all(|event| event_generation(event) == 1));
    match &events[0] {
        LibraryIndexEvent::Bootstrap { skeletons, cached_summaries, warning, .. } => {
            assert_eq!(skeletons.len(), 1);
            assert!(cached_summaries.is_empty());
            assert!(warning.is_none());
        },
        _ => unreachable!(),
    }
    assert_eq!(hydrated_titles(&events)[0], "来自 manifest");
    assert!(events.len() >= 2);
    assert!(is_reconciled(&events));

    let rebuilt = library.load_index().ok().unwrap();
    assert_eq!(rebuilt.schema_version, INDEX_SCHEMA_VERSION);
    assert_eq!(rebuilt.documents.len(), 1);
    assert_eq!(rebuilt.documents[0].title, "来自 manifest");
}

#[test]
fn corrupt_index_is_reported_ignored_and_rebuilt() {
    let mut library = Library::of(5, "健康 manifest");
    library.index = Err("expected ident at line 1 column 2".to_owned());

    let events = library.reconcile();
    match &events[0] {
        LibraryIndexEvent::Bootstrap { cached_summaries, warning, .. } => {
            assert!(cached_summaries.is_empty());
            assert!(warning.is_some());
        },
        _ => unreachable!(),
    }
    assert_eq!(hydrated_titles(&events)[0], "健康 manifest");

    assert_eq!(library.load_index().ok().unwrap().documents[0].title, "健康 manifest");
}

#[test]
fn unsupported_index_version_is_reported_ignored_and_rebuilt() {
    let parsed =
        LibraryIndexFile { schema_version: INDEX_SCHEMA_VERSION + 1, documents: Vec::new() };
    let loaded = accept_index(40, Ok(parsed));
    let mut library = Library { documents: Vec::new(), index: loaded.map(|file| file.documents) };

    let events = library.reconcile();
    match &events[0] {
        LibraryIndexEvent::Bootstrap { warning, .. } => {
            assert!(warning
                .as_deref()
                .is_some_and(|warning| warning.contains("unsupported library index")));
        },
        _ => unreachable!(),
    }

    let rebuilt = library.load_index().ok().unwrap();
    assert_eq!(rebuilt.schema_version, INDEX_SCHEMA_VERSION);
    assert!(rebuilt.documents.is_empty());
}

#[test]
fn stale_cached_entry_is_emitted_then_reconciled_from_the_manifest() {
    let mut library = Library::of(5, "当前标题");
    let mut stale = IndexedDocument::from_summary(&summary(5, "缓存旧标题", 1));
    stale.manifest_byte_len = stale.manifest_byte_len.saturating_add(1);
    library.index = Ok(vec![stale]);

    let events = library.reconcile();
    match &events[0] {
        LibraryIndexEvent::Bootstrap { cached_summaries, warning, .. } => {
            assert_eq!(cached_summaries[0].title, "缓存旧标题");
            assert!(warning.is_none());
        },
        _ => unreachable!(),
    }
    assert_eq!(hydrated_titles(&events)[0], "当前标题");

    assert_eq!(library.load_index().ok().unwrap().documents[0].title, "当前标题");
}

#[test]
fn failed_stale_hydration_evicts_the_cached_index_entry() {
    let mut library = Library::of(5, "即将损坏");
    library.reconcile();
    assert_eq!(library.load_index().ok().unwrap().documents.len(), 1);

    library.documents[0].1 = Err("not json".to_owned());
    library.documents[0].2 = ManifestFingerprint { byte_len: 8, modified_at: Some(456) };

    let events = library.reconcile();
    match &events[0] {
        LibraryIndexEvent::Bootstrap { cached_summaries, .. } => {
            assert_eq!(cached_summaries.len(), 1);
        },
        _ => unreachable!(),
    }
    assert!(events.iter().any(|event| matches!(
        event,
        LibraryIndexEvent::MetadataBatch { failures, .. }
            if failures.iter().any(|failure| failure.0 == 5)
    )));

    assert!(library.load_index().ok().unwrap().documents.is_empty());
}

#[test]
fn an_unchanged_document_is_not_read_again() {
    let mut library = Library::of(5, "同一份");
    library.reconcile();
    let events = library.reconcile();
    assert!(hydrated_titles(&events).is_empty());
    assert!(is_reconciled(&events));
    match &events[0] {
        LibraryIndexEvent::Bootstrap { cached_summaries, .. } => {
            assert_eq!(cached_summaries[0].title, "同一份");
        },
        _ => unreachable!(),
    }
}

#[test]
fn many_documents_are_all_read_once() {
    let mut library = Library { documents: Vec::new(), index: Ok(Vec::new()) };
    for document_id in 0..200u128 {
        let fingerprint = ManifestFingerprint { byte_len: 1, modified_at: None };
        library.documents.push((document_id, Ok(format!("{document_id}")), fingerprint));
    }
    let events = library.reconcile();
    let mut titles = hydrated_titles(&events);
    assert_eq!(titles.len(), 200);
    titles.sort();
    titles.dedup();
    assert_eq!(titles.len(), 200);
    assert_eq!(library.load_index().ok().unwrap().documents.len(), 200);
}

fn idle_worker() -> LibraryIndexWorker {
    let scan = SkeletonScan { skeletons: Vec::new(), failures: Vec::new() };
    let empty = LibraryIndexFile { schema_version: INDEX_SCHEMA_VERSION, documents: Vec::new() };
    LibraryIndexWorker::bootstrap(Ok(scan), Ok(empty), 0).1.unwrap()
}

#[test]
fn forced_rebuild_replaces_the_index_once() {
    let mut worker = idle_worker();
    assert!(!worker.apply_command(Command::Upsert(summary(9, "重建结果", 4)), 1));
    assert!(worker.dirty_since.is_some());
    let mut input = IndexInput::Command(Command::Shutdown);
    let mut written: Vec<LibraryIndexFile> = Vec::new();
    loop {
        input = match worker.step(input, 2) {
            IndexAction::Persist(file) => {
                written.push(file);
                IndexInput::Persisted(true)
            },
            IndexAction::Send(_) => IndexInput::Sent(true),
            IndexAction::Stop => break,
            _ => unreachable!(),
        };
    }
    assert!(worker.dirty_since.is_none());
    assert_eq!(written.len(), 1);
    assert_eq!(written[0].documents[0].title, "重建结果");
}

#[test]
fn persistence_failure_keeps_the_index_dirty_for_a_retry() {
    let mut worker = idle_worker();
    worker.dirty_since = Some(0);
    let mut input = IndexInput::Command(Command::Shutdown);
    loop {
        input = match worker.step(input, 2) {
            IndexAction::Persist(_) => IndexInput::Persisted(false),
            IndexAction::Send(_) => IndexInput::Sent(true),
            IndexAction::Stop => break,
            _ => unreachable!(),
        };
    }
    assert!(worker.dirty_since.is_some());
    assert!(worker.stage == Stage::Stopped);
}

#[test]
fn skeleton_scan_failure_is_delivered_as_a_bootstrap_warning() {
    let empty = LibraryIndexFile { schema_version: INDEX_SCHEMA_VERSION, documents: Vec::new() };
    let (event, worker) =
        LibraryIndexWorker::bootstrap(Err("No such file or directory".to_owned()), Ok(empty), 0);
    assert!(worker.is_none());
    match event {
        LibraryIndexEvent::Bootstrap { skeletons, cached_summaries, warning, .. } => {
            assert!(skeletons.is_empty());
            assert!(cached_summaries.is_empty());
            assert!(warning.as_deref().is_some_and(|warning| warning.contains("skeleton scan")));
        },
        _ => panic!("expected bootstrap warning"),
    }
}

#[test]
fn local_mutation_commands_win_after_a_stale_hydration_result() {
    let stale = summary(5, "后台旧值", 1);
    let local = summary(5, "本地新值", 2);
    let mut worker = idle_worker();
    worker.indexed.insert(5, IndexedDocument::from_summary(&stale));
    worker.pending.insert(
        5,
        DocumentSkeleton { document_id: 5, manifest_fingerprint: stale.manifest_fingerprint },
    );
    worker.priority.push_back(5);
    worker.priority_set.insert(5);

    assert!(!worker.apply_command(Command::Upsert(local), 1));

    assert_eq!(worker.indexed[&5].title, "本地新值");
    assert_eq!(worker.indexed[&5].revision, 2);
    assert!(!worker.pending.contains_key(&5));
    assert!(worker.dirty_since.is_some());

    assert!(!worker.apply_command(Command::Remove(5), 2));
    assert!(!worker.indexed.contains_key(&5));
}

#[test]
fn preview_refresh_reloads_the_manifest_fingerprint_without_opening_the_background() {
    let committed = summary(5, "预览刷新", 1);
    let old_fingerprint = committed.manifest_fingerprint;
    let mut worker = idle_worker();
    worker.indexed.insert(5, IndexedDocument::from_summary(&committed));
    worker
        .pending
        .insert(5, DocumentSkeleton { document_id: 5, manifest_fingerprint: old_fingerprint });

    let action = worker.step(
        IndexInput::Command(Command::Refresh { document_id: 5, revision: committed.revision }),
        1,
    );
    assert!(matches!(action, IndexAction::LoadById { document_id: 5, revision: 1 }));
    let reloaded = DocumentSummary {
        preview_revision: Some(1),
        manifest_fingerprint: ManifestFingerprint { byte_len: 50, modified_at: Some(999) },
        ..summary(5, "预览刷新", 1)
    };
    let action = worker.step(
        IndexInput::Refreshed { document_id: 5, revision: 1, result: Ok(reloaded) },
        2,
    );
    assert!(matches!(action, IndexAction::Poll));

    assert_eq!(worker.indexed[&5].preview_revision, Some(committed.revision));
    assert!(worker.indexed[&5].manifest_fingerprint() != old_fingerprint);
    assert!(!worker.pending.contains_key(&5));
    assert!(worker.dirty_since.is_some());
}

#[test]
fn clearing_forgets_every_document() {
    let mut worker = idle_worker();
    worker.apply_command(Command::Upsert(summary(5, "甲", 1)), 1);
    worker.apply_command(Command::Upsert(summary(6, "乙", 1)), 1);
    assert_eq!(worker.indexed.len(), 2);
    assert!(!worker.apply_command(Command::Clear, 2));
    assert!(worker.indexed.is_empty());
    assert!(worker.apply_command(Command::Shutdown, 3));
}

#[test]
fn an_index_file_must_be_a_plain_file_of_modest_size() {
    let plain = IndexMetadata { regular_file: true, symlink: false, byte_len: MAX_INDEX_BYTES };
    assert!(check_index_metadata(&plain).is_ok());
    assert!(check_index_metadata(&IndexMetadata { symlink: true, ..plain }).is_err());
    assert!(check_index_metadata(&IndexMetadata { regular_file: false, ..plain }).is_err());
    assert!(
        check_index_metadata(&IndexMetadata { byte_len: MAX_INDEX_BYTES + 1, ..plain }).is_err()
    );
    assert!(accept_index(10, Err("torn".to_owned())).is_err());
}

#[test]
fn library_errors_are_told_in_words() {
    assert_eq!(
        LibraryIndexCoordinatorError::ShuttingDown.to_message(),
        "library index coordinator is shutting down"
    );
    assert!(LibraryIndexCoordinatorError::Spawn("full".to_owned())
        .to_message()
        .ends_with("full"));
}

use esc::config::{PipelineConfig, DOC_CHANNEL_CAPACITY, FILE_CHANNEL_CAPACITY};
use esc::mail::{process_message, NormalizedDocument};
use esc::schema::{open_action, query_field_names, schema_fields, FieldKind, OpenAction, SEARCH_LIMIT};
use tantivy::collector::TopDocs;
use tantivy::query::QueryParser;
use tantivy::schema::{Schema, Value, INDEXED, STORED, STRING, TEXT};
use tantivy::{Index, IndexWriter, TantivyDocument};

fn engine_schema() -> Schema {
    let mut builder = Schema::builder();
    for f in schema_fields() {
        match f.kind {
            FieldKind::ExactText => {
                if f.stored {
                    builder.add_text_field(&f.name, STRING | STORED);
                } else {
                    builder.add_text_field(&f.name, STRING);
                }
            }
            FieldKind::TokenizedText => {
                if f.stored {
                    builder.add_text_field(&f.name, TEXT | STORED);
                } else {
                    builder.add_text_field(&f.name, TEXT);
                }
            }
            FieldKind::Integer => {
                builder.add_i64_field(&f.name, INDEXED);
            }
        }
    }
    builder.build()
}

fn message(id: &str, subject: &str, body: &str) -> Vec<u8> {
    format!(
        "Message-Id: <{}>\r\nSubject: {}\r\nDate: Sun, 02 Oct 2016 07:06:22 -0700\r\n\r\n{}",
        id, subject, body
    )
    .into_bytes()
}

fn corpus() -> Vec<(Vec<u8>, String)> {
    vec![
        (
            message("m1@example.org", "groceries and errands", "milk eggs bread"),
            "cur/m1".to_string(),
        ),
        (
            message("m2@example.org", "zephyrine breeze report", "weather is mild"),
            "cur/m2".to_string(),
        ),
        (
            message("m3@example.org", "meeting minutes", "we talked at length"),
            "new/m3".to_string(),
        ),
        (
            message("m4@example.org", "holiday plans", "a beach somewhere"),
            "new/m4".to_string(),
        ),
        (
            message("m5@example.org", "receipts", "total came to forty"),
            "cur/m5".to_string(),
        ),
    ]
}

/// Runs the pipeline's parse and write stages over bounded channels with the
/// given thread counts, into a fresh in-memory index.
fn run_pipeline(read_threads: usize, index_threads: usize) -> Index {
    let index = Index::create_in_ram(engine_schema());
    let buffer = PipelineConfig::default().buffer_bytes().unwrap();
    let mut writer: IndexWriter = index.writer_with_num_threads(index_threads, buffer).unwrap();

    let schema = index.schema();
    let f_id = schema.get_field("id").unwrap();
    let f_path = schema.get_field("path").unwrap();
    let f_date = schema.get_field("date").unwrap();
    let f_subject = schema.get_field("subject").unwrap();
    let f_body = schema.get_field("body").unwrap();

    let (send_file, recv_file) =
        crossbeam::channel::bounded::<(Vec<u8>, String)>(FILE_CHANNEL_CAPACITY);
    let (send_doc, recv_doc) = crossbeam::channel::bounded::<NormalizedDocument>(DOC_CHANNEL_CAPACITY);

    crossbeam::thread::scope(|scope| {
        scope.spawn(move |_| {
            for item in corpus() {
                send_file.send(item).unwrap();
            }
            drop(send_file);
        });

        for _ in 0..read_threads {
            let recv_file = recv_file.clone();
            let send_doc = send_doc.clone();
            scope.spawn(move |_| {
                for (bytes, path) in recv_file.iter() {
                    if let Some(doc) = process_message(&bytes, path) {
                        send_doc.send(doc).unwrap();
                    }
                }
                drop(send_doc);
            });
        }
        drop(send_doc);
        drop(recv_file);

        let writer_ref = &writer;
        scope.spawn(move |_| {
            for doc in recv_doc.iter() {
                let mut native = TantivyDocument::default();
                native.add_text(f_id, &doc.id);
                native.add_text(f_path, &doc.path);
                native.add_i64(f_date, doc.date);
                native.add_text(f_subject, &doc.subject);
                native.add_text(f_body, &doc.body);
                writer_ref.add_document(native).unwrap();
            }
        });
    })
    .unwrap();

    writer.commit().unwrap();
    writer.wait_merging_threads().unwrap();
    index
}

fn search_paths(index: &Index, query_text: &str) -> Vec<String> {
    let schema = index.schema();
    let f_path = schema.get_field("path").unwrap();

    let reader = index.reader().unwrap();
    let searcher = reader.searcher();
    let default_fields = query_field_names()
        .iter()
        .map(|n| schema.get_field(n).unwrap())
        .collect();
    let parser = QueryParser::for_index(index, default_fields);
    let query = parser.parse_query(query_text).unwrap();
    let collector = TopDocs::with_limit(SEARCH_LIMIT).order_by_score();
    let hits = searcher.search(&query, &collector).unwrap();

    let mut paths = Vec::new();
    for (_score, addr) in hits {
        let doc: TantivyDocument = searcher.doc(addr).unwrap();
        paths.push(doc.get_first(f_path).unwrap().as_str().unwrap().to_string());
    }
    paths
}

#[test]
fn unique_token_found_for_all_thread_counts() {
    for &read_threads in &[1usize, 2, 8] {
        for &index_threads in &[1usize, 4] {
            let index = run_pipeline(read_threads, index_threads);
            let paths = search_paths(&index, "zephyrine");
            assert_eq!(paths, vec!["cur/m2".to_string()]);
        }
    }
}

#[test]
fn nonexistent_token_returns_empty_not_error() {
    let index = run_pipeline(2, 1);
    let paths = search_paths(&index, "nonexistent_token_xyz");
    assert!(paths.is_empty());
}

#[test]
fn open_twice_is_idempotent() {
    let dir = tempfile::TempDir::new().unwrap();

    // First run: the directory holds no valid index, so the policy says to
    // create the schema and a fresh index.
    let first_probe = Index::open_in_dir(dir.path());
    assert!(matches!(open_action(first_probe.is_ok()), OpenAction::CreateFresh));
    let index = Index::create_in_dir(dir.path(), engine_schema()).unwrap();
    {
        let schema = index.schema();
        let f_id = schema.get_field("id").unwrap();
        let mut writer: IndexWriter = index.writer_with_num_threads(1, 16 * 1024 * 1024).unwrap();
        let mut doc = TantivyDocument::default();
        doc.add_text(f_id, "<m1@example.org>");
        writer.add_document(doc).unwrap();
        writer.commit().unwrap();
        writer.wait_merging_threads().unwrap();
    }
    drop(index);

    // Second run: the directory now holds a valid index; the policy attaches
    // to it and the schema of the first run is intact.
    let second_probe = Index::open_in_dir(dir.path());
    assert!(matches!(open_action(second_probe.is_ok()), OpenAction::Attach));
    let reopened = second_probe.unwrap();
    assert_eq!(reopened.schema(), engine_schema());

    // Indexing again against the attached index must not fail.
    {
        let schema = reopened.schema();
        let f_id = schema.get_field("id").unwrap();
        let mut writer: IndexWriter =
            reopened.writer_with_num_threads(1, 16 * 1024 * 1024).unwrap();
        let mut doc = TantivyDocument::default();
        doc.add_text(f_id, "<m2@example.org>");
        writer.add_document(doc).unwrap();
        writer.commit().unwrap();
        writer.wait_merging_threads().unwrap();
    }
}

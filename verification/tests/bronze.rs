use rstracer::lsof::OpenFile;
use rstracer::pipeline::stage::bronze::{concat_requests, create_insert_batch_request, BronzeBatch};

#[derive(Debug)]
struct BronzeBatchTest {
    id: i32,
    name: String,
}

impl BronzeBatch for BronzeBatchTest {
    fn get_insert_header() -> String {
        "INSERT INTO test (id, name) VALUES".to_string()
    }

    fn to_insert_value(&self) -> String {
        format!("({}, '{}')", self.id, self.name)
    }
}

#[test]
fn test_concat_requests_with_empty_requests() {
    let requests: Vec<String> = vec![];
    let result = concat_requests(requests, 2);
    let expected: Vec<String> = vec![];
    assert_eq!(result, expected);
}

#[test]
fn test_concat_requests_with_single_request() {
    let requests = vec!["INSERT INTO table1 VALUES (1, 'A');".to_string()];
    let result = concat_requests(requests, 2);
    let expected = vec!["INSERT INTO table1 VALUES (1, 'A');".to_string()];
    assert_eq!(result, expected);
}

#[test]
fn test_concat_requests_with_multiple_requests_no_dedup() {
    let requests = vec![
        "INSERT INTO table1 VALUES (1, 'A');".to_string(),
        "INSERT INTO table1 VALUES (2, 'B');".to_string(),
    ];
    let result = concat_requests(requests, 2);
    let expected = vec!["INSERT INTO table1 VALUES (1, 'A'),(2, 'B');".to_string()];
    assert_eq!(result, expected);
}

#[test]
fn test_concat_requests_with_multiple_requests_with_dedup() {
    let requests = vec![
        "INSERT INTO table1 VALUES (1, 'A');".to_string(),
        "INSERT INTO table1 VALUES (2, 'B');".to_string(),
        "INSERT INTO table1 VALUES (1, 'A');".to_string(),
    ];
    let result = concat_requests(requests, 2);
    let expected = vec!["INSERT INTO table1 VALUES (1, 'A'),(2, 'B');".to_string()];
    assert_eq!(result, expected);
}

#[test]
fn test_concat_requests_with_multiple_requests_with_dedup_and_batching() {
    let requests = vec![
        "INSERT INTO table1 VALUES (1, 'A');".to_string(),
        "INSERT INTO table1 VALUES (2, 'B');".to_string(),
        "INSERT INTO table1 VALUES (3, 'C');".to_string(),
        "INSERT INTO table1 VALUES (1, 'A');".to_string(),
    ];
    let result = concat_requests(requests, 2);
    let expected = vec![
        "INSERT INTO table1 VALUES (1, 'A'),(2, 'B');".to_string(),
        "INSERT INTO table1 VALUES (3, 'C');".to_string(),
    ];
    assert_eq!(result, expected);
}

#[test]
fn test_concat_requests_with_multiple_tables() {
    let requests = vec![
        "INSERT INTO table1 VALUES (1, 'A');".to_string(),
        "INSERT INTO table2 VALUES (2, 'B');".to_string(),
        "INSERT INTO table1 VALUES (3, 'C');".to_string(),
        "INSERT INTO table2 VALUES (4, 'D');".to_string(),
    ];
    let mut result = concat_requests(requests, 2);
    let mut expected = vec![
        "INSERT INTO table1 VALUES (1, 'A'),(3, 'C');".to_string(),
        "INSERT INTO table2 VALUES (2, 'B'),(4, 'D');".to_string(),
    ];
    result.sort();
    expected.sort();
    assert_eq!(result, expected);
}

#[test]
fn test_concat_requests_with_batching_large_input() {
    let requests = vec![
        "INSERT INTO table1 VALUES (1, 'A');".to_string(),
        "INSERT INTO table1 VALUES (2, 'B');".to_string(),
        "INSERT INTO table1 VALUES (3, 'C');".to_string(),
        "INSERT INTO table1 VALUES (4, 'D');".to_string(),
        "INSERT INTO table1 VALUES (5, 'E');".to_string(),
    ];
    let result = concat_requests(requests, 2);
    let expected = vec![
        "INSERT INTO table1 VALUES (1, 'A'),(2, 'B');".to_string(),
        "INSERT INTO table1 VALUES (3, 'C'),(4, 'D');".to_string(),
        "INSERT INTO table1 VALUES (5, 'E');".to_string(),
    ];
    assert_eq!(result, expected);
}

#[test]
fn test_concat_requests_with_requests_with_whitespace() {
    let requests = vec![
        " INSERT INTO table1 VALUES (1, 'A');  ".to_string(),
        "  INSERT INTO table1 VALUES (2, 'B');".to_string(),
    ];
    let result = concat_requests(requests, 2);
    let expected = vec!["INSERT INTO table1 VALUES (1, 'A'),(2, 'B');".to_string()];
    assert_eq!(result, expected);
}

#[test]
fn concat_requests_sorts_values_and_keeps_first_seen_table_order() {
    let requests = vec![
        "INSERT INTO t2 VALUES (9);INSERT INTO t1 VALUES (3);".to_string(),
        "INSERT INTO t1 VALUES (1); ;no values here;INSERT INTO t2 VALUES (9)".to_string(),
    ];
    let result = concat_requests(requests, 10);
    assert_eq!(
        result,
        vec![
            "INSERT INTO t2 VALUES (9);".to_string(),
            "INSERT INTO t1 VALUES (1),(3);".to_string(),
        ]
    );
}

#[test]
fn test_create_insert_batch_request_empty() {
    let batch: Vec<BronzeBatchTest> = Vec::new();
    let result = create_insert_batch_request(batch);
    assert_eq!(result, "");
}

#[test]
fn test_create_insert_batch_request_single() {
    let batch = vec![BronzeBatchTest {
        id: 1,
        name: "Process1".to_string(),
    }];
    let result = create_insert_batch_request(batch);
    assert_eq!(result, "INSERT INTO test (id, name) VALUES (1, 'Process1');");
}

#[test]
fn test_create_insert_batch_request_multiple() {
    let batch = vec![
        BronzeBatchTest {
            id: 1,
            name: "Process1".to_string(),
        },
        BronzeBatchTest {
            id: 2,
            name: "Process2".to_string(),
        },
    ];
    let result = create_insert_batch_request(batch);
    assert_eq!(
        result,
        "INSERT INTO test (id, name) VALUES (1, 'Process1'),(2, 'Process2');"
    );
}

#[test]
fn open_file_insert_value() {
    let mut file = OpenFile::new(163, 501, "it's");
    file.fd = "cwd".to_string();
    file._type = "DIR".to_string();
    file.device = "1,16".to_string();
    file.size = 640;
    file.node = "2".to_string();
    file.name = "/a'b".to_string();
    file.created_at = 1700000000000;
    assert_eq!(
        file.to_insert_value(),
        "('it\"s', 163, 501, 'cwd', 'DIR', '1,16', 640, '2', '/a\"b', TO_TIMESTAMP(1700000000000), CURRENT_TIMESTAMP, AGE(TO_TIMESTAMP(1700000000000)::TIMESTAMP))"
    );
    let request = create_insert_batch_request(vec![file]);
    assert!(request.starts_with("INSERT INTO memory.bronze_open_files (command, pid, uid, fd, type, device, size, node, name, created_at, inserted_at, brz_ingestion_duration) VALUES  ('it\"s'"));
    assert!(request.ends_with("::TIMESTAMP));"));
}

#[test]
fn merging_merged_requests_again_changes_nothing() {
    let requests = vec![
        "INSERT INTO a (x) VALUES (2); INSERT INTO b (y) VALUES ('p');".to_string(),
        "INSERT INTO a (x) VALUES (1);INSERT INTO a (x) VALUES (2);".to_string(),
        "  ".to_string(),
    ];
    let once = concat_requests(requests, 10);
    assert_eq!(
        once,
        vec![
            "INSERT INTO a (x) VALUES (1),(2);".to_string(),
            "INSERT INTO b (y) VALUES ('p');".to_string()
        ]
    );
    let twice = concat_requests(once.clone(), 10);
    assert_eq!(twice, once);
}

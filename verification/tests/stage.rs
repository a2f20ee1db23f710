use rstracer::config::{ExportConfig, VacuumConfig};
use rstracer::etc::host::Host;
use rstracer::etc::passwd::User;
use rstracer::etc::service::Service;
use rstracer::pipeline::stage::copy::copy_layer_request;
use rstracer::pipeline::stage::export::{
    is_supported_format, request_for_tables as export_for_tables, table_export_request,
    try_request as try_export_request,
};
use rstracer::pipeline::stage::schema::{
    create_schema_request, get_schema, try_get_schema, Column, Schema, Table, BRONZE_PROCESS_LIST,
    GOLD_TECH_CHRONO,
};
use rstracer::pipeline::stage::vacuum::{request, request_for_tables, try_request};
use rstracer::pipeline::stage::{dimension, gold, silver};

fn create_mock_schema() -> Schema {
    let columns = vec![
        Column {
            name: "_id".to_string(),
            is_autoincrement: true,
        },
        Column {
            name: "pid".to_string(),
            is_autoincrement: false,
        },
        Column {
            name: "inserted_at".to_string(),
            is_autoincrement: false,
        },
    ];
    Schema {
        tables: vec![
            Table {
                name: "bronze_process_list".to_string(),
                columns: columns.clone(),
            },
            Table {
                name: "silver_process_list".to_string(),
                columns,
            },
        ],
    }
}

#[test]
fn test_copy_layer_request_without_overwrite() {
    let schema = create_mock_schema();
    let source = "source_db";
    let target = "target_db";
    let layer = "bronze";
    let overwrite = false;

    let result = copy_layer_request(&schema, source, target, layer, overwrite).unwrap();
    let expected = "INSERT INTO target_db.bronze_process_list (pid,inserted_at) SELECT pid,inserted_at FROM source_db.bronze_process_list;";

    assert_eq!(result, expected);
}

#[test]
fn test_copy_layer_request_with_overwrite() {
    let schema = create_mock_schema();
    let source = "source_db";
    let target = "target_db";
    let layer = "silver";
    let overwrite = true;

    let result = copy_layer_request(&schema, source, target, layer, overwrite).unwrap();
    let expected = "TRUNCATE target_db.silver_process_list;INSERT INTO target_db.silver_process_list (pid,inserted_at) SELECT pid,inserted_at FROM source_db.silver_process_list;";

    assert_eq!(result, expected);
}

#[test]
fn test_copy_layer_request_empty_schema() {
    let schema = Schema { tables: vec![] };
    let source = "source_db";
    let target = "target_db";
    let layer = "bronze";
    let overwrite = false;

    let result = copy_layer_request(&schema, source, target, layer, overwrite).unwrap();
    let expected = "";

    assert_eq!(result, expected);
}

#[test]
fn copy_layer_request_of_every_table_of_the_layer() {
    let schema = create_mock_schema();
    let result = copy_layer_request(&schema, "a", "b", "", false).unwrap();
    assert_eq!(
        result,
        "INSERT INTO b.bronze_process_list (pid,inserted_at) SELECT pid,inserted_at FROM a.bronze_process_list;\
INSERT INTO b.silver_process_list (pid,inserted_at) SELECT pid,inserted_at FROM a.silver_process_list;"
    );
    assert_eq!(copy_layer_request(&schema, "a", "b", "gold", true).unwrap(), "");
}

#[test]
fn test_table_export_request_parquet() {
    let table_name = "user_gold_data";
    let directory = "/exports";
    let format = "parquet";

    let result = table_export_request(table_name, directory, format);
    let expected = "COPY user_gold_data TO '/exports/user_gold_data.parquet' (FORMAT parquet);";

    assert_eq!(result, expected);
}

#[test]
fn test_table_export_request_csv() {
    let table_name = "user_gold_data";
    let directory = "/exports";
    let format = "csv";

    let result = table_export_request(table_name, directory, format);
    let expected = "COPY user_gold_data TO '/exports/user_gold_data.csv' (FORMAT csv);";

    assert_eq!(result, expected);
}

#[test]
fn export_formats() {
    assert!(is_supported_format("parquet"));
    assert!(is_supported_format("CSV"));
    assert!(is_supported_format("Parquet"));
    assert!(!is_supported_format("json"));
    let config = ExportConfig {
        format: "json".to_string(),
        directory: "/exports".to_string(),
    };
    assert_eq!(try_export_request(&config), None);
}

#[test]
fn export_request_covers_the_gold_tables() {
    let config = ExportConfig {
        format: "csv".to_string(),
        directory: "out".to_string(),
    };
    let tables = vec![
        "bronze_a".to_string(),
        "gold_b".to_string(),
        "silver_c".to_string(),
        "gold_d".to_string(),
    ];
    assert_eq!(
        export_for_tables(&config, &tables),
        "COPY gold_b TO 'out/gold_b.csv' (FORMAT csv);\nCOPY gold_d TO 'out/gold_d.csv' (FORMAT csv);"
    );
    let request = try_export_request(&config).unwrap();
    assert_eq!(request.matches("COPY ").count(), 17);
    assert_eq!(request.lines().count(), 17);
}

#[test]
fn test_create_schema() {
    let tables = get_schema();
    let mut distinct = tables.clone();
    distinct.sort();
    distinct.dedup();
    assert_eq!(distinct.len(), 42);
    assert_eq!(tables.len(), 42);
}

#[test]
fn schema_request_creates_each_table_in_order() {
    let request = create_schema_request();
    assert!(request.starts_with(BRONZE_PROCESS_LIST));
    assert!(request.ends_with(GOLD_TECH_CHRONO));
    assert_eq!(request.matches("CREATE OR REPLACE TABLE").count(), 42);
    let tables = try_get_schema().unwrap();
    assert_eq!(tables[0], "bronze_process_list");
    assert_eq!(tables[15], "bronze_network_http");
    assert_eq!(tables[41], "gold_tech_chrono");
}

#[test]
fn test_vacuum_request() {
    let vacuum_config = VacuumConfig {
        bronze: 15,
        silver: 30,
        gold: 1000,
    };
    let request = request(&vacuum_config);
    println!("{:?}", request);
    assert!(!request.contains("gold_file_"));
    assert!(!request.contains("_tech_"));
    assert_eq!(request.matches("DELETE FROM").count(), 36);
    assert!(request.contains(
        "DELETE FROM bronze_process_list WHERE inserted_at + '15 seconds' < CURRENT_TIMESTAMP"
    ));
    assert!(request.contains(
        "DELETE FROM silver_process_list WHERE inserted_at + '30 seconds' < CURRENT_TIMESTAMP"
    ));
    assert!(request.contains(
        "DELETE FROM gold_fact_process WHERE inserted_at + '1000 seconds' < CURRENT_TIMESTAMP"
    ));
}

#[test]
fn test_vacuum_request_with_permanent() {
    let vacuum_config = VacuumConfig {
        bronze: 15,
        silver: 30,
        gold: 0,
    };
    let request = request(&vacuum_config);
    assert!(!request.contains("gold_"));
    assert_eq!(request.matches("DELETE FROM").count(), 25);
    assert!(request.contains(
        "DELETE FROM bronze_process_list WHERE inserted_at + '15 seconds' < CURRENT_TIMESTAMP"
    ));
    assert!(request.contains(
        "DELETE FROM silver_process_list WHERE inserted_at + '30 seconds' < CURRENT_TIMESTAMP"
    ));
}

#[test]
fn vacuum_request_for_given_tables() {
    let config = VacuumConfig {
        bronze: 5,
        silver: 0,
        gold: 7,
    };
    let tables = vec![
        "bronze_x".to_string(),
        "silver_y".to_string(),
        "gold_file_host".to_string(),
        "gold_tech_chrono".to_string(),
        "gold_z".to_string(),
    ];
    assert_eq!(
        request_for_tables(&config, &tables),
        "DELETE FROM bronze_x WHERE inserted_at + '5 seconds' < CURRENT_TIMESTAMP;\
DELETE FROM gold_z WHERE inserted_at + '7 seconds' < CURRENT_TIMESTAMP;"
    );
    assert_eq!(try_request(&config).unwrap(), request(&config));
}

#[test]
fn file_request_reloads_the_system_tables() {
    let services = vec![Service {
        name: "http".to_string(),
        port: 80,
        protocol: "tcp".to_string(),
    }];
    let hosts = vec![
        Host {
            name: "localhost".to_string(),
            address: "127.0.0.1".to_string(),
        },
        Host {
            name: "other".to_string(),
            address: "10.0.0.1".to_string(),
        },
    ];
    let users = vec![User {
        name: "nobody".to_string(),
        uid: -2,
    }];
    assert_eq!(
        rstracer::pipeline::stage::file::request(&services, &hosts, &users),
        "BEGIN; TRUNCATE gold_file_service;\n    INSERT INTO gold_file_service (name, port, protocol, inserted_at) VALUES  ('http', 80, 'tcp', CURRENT_TIMESTAMP); COMMIT; \
BEGIN; TRUNCATE gold_file_host;\n    INSERT INTO gold_file_host (name, address, inserted_at) VALUES  ('localhost', '127.0.0.1', CURRENT_TIMESTAMP),('other', '10.0.0.1', CURRENT_TIMESTAMP); COMMIT; \
BEGIN; TRUNCATE gold_file_user;\n    INSERT INTO gold_file_user (name, uid, inserted_at) VALUES  ('nobody', '-2', CURRENT_TIMESTAMP); COMMIT;"
    );
    assert_eq!(
        dimension::request(&vec![], &hosts[..1].to_vec()),
        "BEGIN; TRUNCATE memory.gold_dim_services;\n    INSERT INTO memory.gold_dim_services (name, port, protocol, inserted_at) VALUES  ; COMMIT; \
BEGIN; TRUNCATE memory.gold_dim_hosts;\n    INSERT INTO memory.gold_dim_hosts (name, address, inserted_at) VALUES  ('localhost', '127.0.0.1', CURRENT_TIMESTAMP); COMMIT;"
    );
}

#[test]
fn layer_requests_hold_each_statement() {
    let s = silver::request();
    assert!(s.starts_with(silver::SILVER_PROCESS_LIST));
    assert!(s.ends_with(silver::SILVER_NETWORK_ARP));
    assert_eq!(s.matches("INSERT OR IGNORE INTO memory.silver_").count(), 9);
    let g = gold::request();
    assert!(g.starts_with(gold::GOLD_DIM_PROCESS));
    assert!(g.ends_with(gold::GOLD_TECH_CHRONO));
    assert!(g.contains(&format!("{} {}", gold::GOLD_FACT_PROCESS, gold::GOLD_FACT_FILE_REG)));
}

#[test]
fn vacuum_with_gold_kept_drops_only_gold_statements() {
    let full = request(&VacuumConfig { bronze: 15, silver: 30, gold: 1000 });
    let kept = request(&VacuumConfig { bronze: 15, silver: 30, gold: 0 });
    let without_gold: Vec<&str> = full
        .split_inclusive(';')
        .filter(|s| !s.starts_with("DELETE FROM gold"))
        .collect();
    assert_eq!(kept, without_gold.concat());
    assert!(!full.contains("gold_dim_network_host"));
    assert!(full.contains("DELETE FROM gold_dim_network_socket WHERE"));
}

fn tables_after(text: &str, keyword: &str) -> Vec<String> {
    text.match_indices(keyword)
        .map(|(i, _)| {
            text[i + keyword.len()..]
                .chars()
                .take_while(|c| c.is_ascii_alphanumeric() || *c == '_' || *c == '.')
                .collect::<String>()
        })
        .filter(|t| !t.is_empty())
        .collect()
}

#[test]
fn silver_request_writes_each_silver_table_once_from_bronze() {
    let request = silver::request();
    let schema = get_schema();
    let silver_tables: Vec<&String> = schema.iter().filter(|t| t.starts_with("silver_")).collect();
    assert_eq!(silver_tables.len(), 9);
    for t in &silver_tables {
        let head = format!("INSERT OR IGNORE INTO memory.{} BY NAME", t);
        assert_eq!(request.matches(head.as_str()).count(), 1, "{}", t);
    }
    assert_eq!(request.matches("INSERT").count(), 9);
    let read: Vec<String> = tables_after(&request, "FROM ")
        .into_iter()
        .chain(tables_after(&request, "JOIN "))
        .collect();
    assert!(!read.is_empty());
    for t in read {
        assert!(t.starts_with("memory.bronze_"), "{}", t);
    }
}

#[test]
fn gold_request_writes_each_gold_table_once() {
    let request = gold::request();
    let schema = get_schema();
    let written: Vec<String> = tables_after(&request, "INSERT INTO ")
        .into_iter()
        .chain(tables_after(&request, "INSERT OR REPLACE INTO "))
        .collect();
    let mut expected: Vec<String> = schema
        .iter()
        .filter(|t| t.starts_with("gold_dim_") || t.starts_with("gold_fact_") || t.starts_with("gold_tech_"))
        .cloned()
        .collect();
    let mut sorted = written.clone();
    sorted.sort();
    expected.sort();
    assert_eq!(expected.len(), 14);
    assert_eq!(sorted, expected);
    assert_eq!(request.matches("INSERT").count(), 14);
    assert!(!written.iter().any(|t| t.starts_with("gold_file_")));
}

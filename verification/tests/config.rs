use rstracer::config::{
    default_settings, LogLevel, LogRotation, LoggerConfig, ScheduleConfig, Setting, VacuumConfig,
};

#[test]
fn vacuum_config_to_list() {
    let config = VacuumConfig {
        bronze: 1,
        silver: 2,
        gold: 3,
    };
    assert_eq!(
        config.to_list(),
        vec![
            ("bronze".to_string(), 1),
            ("silver".to_string(), 2),
            ("gold".to_string(), 3)
        ]
    );
}

#[test]
fn schedule_config_to_list() {
    let config = ScheduleConfig {
        silver: 10,
        gold: 11,
        vacuum: 15,
        file: 300,
        export: 60,
    };
    assert_eq!(
        config.to_list(),
        vec![
            ("silver".to_string(), 10),
            ("gold".to_string(), 11),
            ("vacuum".to_string(), 15),
            ("file".to_string(), 300),
            ("export".to_string(), 60)
        ]
    );
}

#[test]
fn log_level_names() {
    assert_eq!(LogLevel::from_name("info"), Some(LogLevel::Info));
    assert_eq!(LogLevel::from_name("TRACE"), Some(LogLevel::Trace));
    assert_eq!(LogLevel::from_name("Warn"), Some(LogLevel::Warn));
    assert_eq!(LogLevel::from_name("debug"), Some(LogLevel::Debug));
    assert_eq!(LogLevel::from_name("error"), Some(LogLevel::Error));
    assert_eq!(LogLevel::from_name("verbose"), None);
}

#[test]
fn log_rotation_names() {
    assert_eq!(LogRotation::from_name("daily"), Some(LogRotation::Daily));
    assert_eq!(LogRotation::from_name("Minutely"), Some(LogRotation::Minutely));
    assert_eq!(LogRotation::from_name("weekly"), None);
    let config = LoggerConfig {
        level: "INFO".to_string(),
        directory: Some("logs".to_string()),
        rotation: None,
    };
    assert_eq!(config.log_rotation(), Some(LogRotation::Hourly));
    let config = LoggerConfig {
        rotation: Some("yearly".to_string()),
        ..config
    };
    assert_eq!(config.log_rotation(), None);
}

#[test]
fn default_settings_cover_every_setting() {
    let defaults = default_settings();
    assert_eq!(defaults.len(), 23);
    let find = |name: &str| {
        defaults
            .iter()
            .find(|(n, _)| n == name)
            .map(|(_, v)| match v {
                Setting::Integer(i) => i.to_string(),
                Setting::Text(t) => t.clone(),
            })
            .unwrap()
    };
    assert_eq!(find("in_memory"), "false");
    assert_eq!(find("vacuum.gold"), "600");
    assert_eq!(find("schedule.file"), "300");
    assert_eq!(find("request.consumer_batch_size"), "20");
    assert_eq!(find("lsof.regular.producer_frequency"), "20");
    assert_eq!(find("network.channel_size"), "500");
    assert_eq!(find("export.directory"), "export/");
    assert_eq!(find("export.format"), "parquet");
    assert_eq!(find("logger.level"), "INFO");
}

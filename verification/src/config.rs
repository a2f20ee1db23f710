//! The settings of the tracer: channels, retention of each layer, exports,
//! schedules and logging.
use vstd::prelude::*;
use crate::text::{chars_eq, chars_of, to_uppercase, uppercase};

verus! {

/// All settings.
#[derive(Debug, Clone)]
pub struct Config {
    pub in_memory: bool,
    pub request: ChannelConfig,
    pub ps: ChannelConfig,
    pub lsof: LsofConfig,
    pub network: ChannelConfig,
    pub vacuum: VacuumConfig,
    pub export: ExportConfig,
    pub schedule: ScheduleConfig,
    pub logger: LoggerConfig,
}

/// The channels of the two kinds of open files.
#[derive(Debug, Clone)]
pub struct LsofConfig {
    pub regular: ChannelConfig,
    pub network: ChannelConfig,
}

/// A channel between a producer and a consumer.
#[derive(Debug, Clone)]
pub struct ChannelConfig {
    pub channel_size: Option<usize>,
    pub producer_frequency: Option<u64>,
    pub consumer_batch_size: usize,
}

/// How many seconds the rows of each layer are kept (0: for ever).
#[derive(Debug, Clone)]
pub struct VacuumConfig {
    pub bronze: u64,
    pub silver: u64,
    pub gold: u64,
}

/// The (name, value) pairs of a list, names by their text.
pub open spec fn named_views(v: Seq<(String, u64)>) -> Seq<(Seq<char>, u64)> {
    v.map_values(|p: (String, u64)| (p.0@, p.1))
}

impl VacuumConfig {
    /// Each layer with its retention, from bronze to gold.
    pub open spec fn layers(&self) -> Seq<(Seq<char>, u64)> {
        seq![("bronze"@, self.bronze), ("silver"@, self.silver), ("gold"@, self.gold)]
    }

    /// Each layer with its retention, from bronze to gold.
    pub fn to_list(&self) -> (r: Vec<(String, u64)>)
        ensures
            named_views(r@) == self.layers(),
    {
        let mut r: Vec<(String, u64)> = Vec::new();
        r.push(("bronze".to_string(), self.bronze));
        r.push(("silver".to_string(), self.silver));
        r.push(("gold".to_string(), self.gold));
        proof {
            assert(named_views(r@) =~= self.layers());
        }
        r
    }
}

/// Where and in which format the gold tables are exported.
#[derive(Debug, Clone)]
pub struct ExportConfig {
    pub directory: String,
    pub format: String,
}

/// How many seconds pass between two runs of each scheduled task.
#[derive(Debug, Clone)]
pub struct ScheduleConfig {
    pub silver: u64,
    pub gold: u64,
    pub vacuum: u64,
    pub file: u64,
    pub export: u64,
}

impl ScheduleConfig {
    /// Each task with its period.
    pub open spec fn tasks(&self) -> Seq<(Seq<char>, u64)> {
        seq![
            ("silver"@, self.silver),
            ("gold"@, self.gold),
            ("vacuum"@, self.vacuum),
            ("file"@, self.file),
            ("export"@, self.export),
        ]
    }

    /// Each task with its period.
    pub fn to_list(&self) -> (r: Vec<(String, u64)>)
        ensures
            named_views(r@) == self.tasks(),
    {
        let mut r: Vec<(String, u64)> = Vec::new();
        r.push(("silver".to_string(), self.silver));
        r.push(("gold".to_string(), self.gold));
        r.push(("vacuum".to_string(), self.vacuum));
        r.push(("file".to_string(), self.file));
        r.push(("export".to_string(), self.export));
        proof {
            assert(named_views(r@) =~= self.tasks());
        }
        r
    }
}

/// The level and destination of the log.
#[derive(Debug, Clone)]
pub struct LoggerConfig {
    pub level: String,
    pub directory: Option<String>,
    pub rotation: Option<String>,
}

/// The least severe level of the events that are logged.
#[derive(Debug, Clone, Copy, PartialEq, Eq)]
pub enum LogLevel {
    Trace,
    Debug,
    Info,
    Warn,
    Error,
}

/// How often a new log file is begun.
#[derive(Debug, Clone, Copy, PartialEq, Eq)]
pub enum LogRotation {
    Minutely,
    Hourly,
    Daily,
}

/// The level that an upper case name stands for.
pub open spec fn level_of(upper: Seq<char>) -> Option<LogLevel> {
    if upper == "TRACE"@ {
        Some(LogLevel::Trace)
    } else if upper == "DEBUG"@ {
        Some(LogLevel::Debug)
    } else if upper == "INFO"@ {
        Some(LogLevel::Info)
    } else if upper == "WARN"@ {
        Some(LogLevel::Warn)
    } else if upper == "ERROR"@ {
        Some(LogLevel::Error)
    } else {
        None
    }
}

/// The rotation that an upper case name stands for.
pub open spec fn rotation_of(upper: Seq<char>) -> Option<LogRotation> {
    if upper == "MINUTELY"@ {
        Some(LogRotation::Minutely)
    } else if upper == "HOURLY"@ {
        Some(LogRotation::Hourly)
    } else if upper == "DAILY"@ {
        Some(LogRotation::Daily)
    } else {
        None
    }
}

impl LogLevel {
    /// The level a name stands for, whatever its case; `None` for an unknown
    /// name.
    pub fn from_name(name: &str) -> (r: Option<LogLevel>)
        ensures
            r == level_of(uppercase(name@)),
    {
        let upper = chars_of(to_uppercase(name).as_str());
        if chars_eq(&upper, &chars_of("TRACE")) {
            Some(LogLevel::Trace)
        } else if chars_eq(&upper, &chars_of("DEBUG")) {
            Some(LogLevel::Debug)
        } else if chars_eq(&upper, &chars_of("INFO")) {
            Some(LogLevel::Info)
        } else if chars_eq(&upper, &chars_of("WARN")) {
            Some(LogLevel::Warn)
        } else if chars_eq(&upper, &chars_of("ERROR")) {
            Some(LogLevel::Error)
        } else {
            None
        }
    }
}

impl LogRotation {
    /// The rotation a name stands for, whatever its case; `None` for an
    /// unknown name.
    pub fn from_name(name: &str) -> (r: Option<LogRotation>)
        ensures
            r == rotation_of(uppercase(name@)),
    {
        let upper = chars_of(to_uppercase(name).as_str());
        if chars_eq(&upper, &chars_of("MINUTELY")) {
            Some(LogRotation::Minutely)
        } else if chars_eq(&upper, &chars_of("HOURLY")) {
            Some(LogRotation::Hourly)
        } else if chars_eq(&upper, &chars_of("DAILY")) {
            Some(LogRotation::Daily)
        } else {
            None
        }
    }
}

/// The rotation of the log files: the named one, hourly when none is named;
/// `None` for an unknown name.
pub open spec fn rotation_spec(rotation: Option<Seq<char>>) -> Option<LogRotation> {
    match rotation {
        Some(r) => rotation_of(uppercase(r)),
        None => Some(LogRotation::Hourly),
    }
}

impl LoggerConfig {
    /// The rotation of the log files: the named one, hourly when none is
    /// named; `None` for an unknown name.
    pub fn log_rotation(&self) -> (r: Option<LogRotation>)
        ensures
            r == rotation_spec(
                match self.rotation {
                    Some(s) => Some(s@),
                    None => None,
                },
            ),
    {
        match &self.rotation {
            Some(name) => LogRotation::from_name(name.as_str()),
            None => Some(LogRotation::Hourly),
        }
    }
}

/// A value that a setting takes when the settings file does not give it.
#[derive(Debug, Clone)]
pub enum Setting {
    Integer(i64),
    Text(String),
}

/// A setting's value, its text taken as a sequence of characters.
pub enum SettingView {
    Integer(i64),
    Text(Seq<char>),
}

impl View for Setting {
    type V = SettingView;

    open spec fn view(&self) -> SettingView {
        match self {
            Setting::Integer(n) => SettingView::Integer(*n),
            Setting::Text(t) => SettingView::Text(t@),
        }
    }
}

/// The settings, by their dotted names, that hold when the settings file
/// does not give them.
pub open spec fn defaults() -> Seq<(Seq<char>, SettingView)> {
    seq![
        ("in_memory"@, SettingView::Text("false"@)),
        ("vacuum.bronze"@, SettingView::Integer(15)),
        ("vacuum.silver"@, SettingView::Integer(15)),
        ("vacuum.gold"@, SettingView::Integer(600)),
        ("schedule.silver"@, SettingView::Integer(10)),
        ("schedule.gold"@, SettingView::Integer(10)),
        ("schedule.vacuum"@, SettingView::Integer(15)),
        ("schedule.file"@, SettingView::Integer(300)),
        ("schedule.export"@, SettingView::Integer(60)),
        ("request.channel_size"@, SettingView::Integer(100)),
        ("request.consumer_batch_size"@, SettingView::Integer(20)),
        ("ps.producer_frequency"@, SettingView::Integer(3)),
        ("ps.consumer_batch_size"@, SettingView::Integer(200)),
        ("lsof.regular.producer_frequency"@, SettingView::Integer(20)),
        ("lsof.regular.consumer_batch_size"@, SettingView::Integer(200)),
        ("lsof.network.producer_frequency"@, SettingView::Integer(3)),
        ("lsof.network.consumer_batch_size"@, SettingView::Integer(200)),
        ("network.channel_size"@, SettingView::Integer(500)),
        ("network.producer_frequency"@, SettingView::Integer(1)),
        ("network.consumer_batch_size"@, SettingView::Integer(200)),
        ("export.directory"@, SettingView::Text("export/"@)),
        ("export.format"@, SettingView::Text("parquet"@)),
        ("logger.level"@, SettingView::Text("INFO"@)),
    ]
}

/// The (name, value) pairs of a list of settings, by their views.
pub open spec fn setting_views(v: Seq<(String, Setting)>) -> Seq<(Seq<char>, SettingView)> {
    v.map_values(|p: (String, Setting)| (p.0@, p.1@))
}

/// Adds a setting with an integer value.
fn push_integer(r: &mut Vec<(String, Setting)>, name: &str, n: i64)
    ensures
        setting_views(final(r)@) == setting_views(old(r)@).push((name@, SettingView::Integer(n))),
{
    r.push((name.to_string(), Setting::Integer(n)));
    proof {
        assert(setting_views(final(r)@) =~= setting_views(old(r)@).push(
            (name@, SettingView::Integer(n)),
        ));
    }
}

/// Adds a setting with a text value.
fn push_text(r: &mut Vec<(String, Setting)>, name: &str, t: &str)
    ensures
        setting_views(final(r)@) == setting_views(old(r)@).push((name@, SettingView::Text(t@))),
{
    r.push((name.to_string(), Setting::Text(t.to_string())));
    proof {
        assert(setting_views(final(r)@) =~= setting_views(old(r)@).push(
            (name@, SettingView::Text(t@)),
        ));
    }
}

/// The settings that hold when the settings file does not give them, in
/// the order in which they are laid down.
pub fn default_settings() -> (r: Vec<(String, Setting)>)
    ensures
        setting_views(r@) == defaults(),
{
    let mut r: Vec<(String, Setting)> = Vec::new();
    push_text(&mut r, "in_memory", "false");
    push_integer(&mut r, "vacuum.bronze", 15);
    push_integer(&mut r, "vacuum.silver", 15);
    push_integer(&mut r, "vacuum.gold", 600);
    push_integer(&mut r, "schedule.silver", 10);
    push_integer(&mut r, "schedule.gold", 10);
    push_integer(&mut r, "schedule.vacuum", 15);
    push_integer(&mut r, "schedule.file", 300);
    push_integer(&mut r, "schedule.export", 60);
    push_integer(&mut r, "request.channel_size", 100);
    push_integer(&mut r, "request.consumer_batch_size", 20);
    push_integer(&mut r, "ps.producer_frequency", 3);
    push_integer(&mut r, "ps.consumer_batch_size", 200);
    push_integer(&mut r, "lsof.regular.producer_frequency", 20);
    push_integer(&mut r, "lsof.regular.consumer_batch_size", 200);
    push_integer(&mut r, "lsof.network.producer_frequency", 3);
    push_integer(&mut r, "lsof.network.consumer_batch_size", 200);
    push_integer(&mut r, "network.channel_size", 500);
    push_integer(&mut r, "network.producer_frequency", 1);
    push_integer(&mut r, "network.consumer_batch_size", 200);
    push_text(&mut r, "export.directory", "export/");
    push_text(&mut r, "export.format", "parquet");
    push_text(&mut r, "logger.level", "INFO");
    proof {
        assert(setting_views(r@) =~= defaults());
    }
    r
}

} // verus!

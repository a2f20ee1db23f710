use rstracer::lsof::unix::{
    cmd_output_readable, deserialize_header, row_to_struct, split_of_per_process, split_process_per_rows, Unix,
};
use rstracer::lsof::{parse_cmd_output, FileType};

fn create_lsof_output() -> String {
    "p163
cloginwindow
u501
fcwd
tDIR
D0x1000010
s640
i2
n/
ftxt
tREG
D0x1000010
s2722512
i1152921500312132720
n/System/Library/CoreServices/loginwindow.app/Contents/MacOS/loginwindow
p8015
cmdworker_shared
u501
fcwd
tDIR
D0x1000010
s640
i2
n/
ftxt
tREG
D0x1000010
s1133680
i1152921500312170301
n/System/Library/Frameworks/CoreServices.framework/Versions/A/Frameworks/Metadata.framework/Versions/A/Support/mdworker_shared
ftxt
tREG
D0x1000010
s58184
i11556174
n/Library/Preferences/Logging/.plist-cache.DCgGV34s
"
    .to_string()
}

#[test]
fn lib_test_split_of_per_process() {
    let rows = split_of_per_process(&create_lsof_output());
    assert_eq!(rows.len(), 2);
}

#[test]
fn lib_test_split_of_per_process_with_empty() {
    let rows = split_of_per_process("");
    assert_eq!(rows.len(), 0);
}

#[test]
fn lib_test_split_process_per_rows() {
    let row = split_of_per_process(&create_lsof_output())[0].clone();
    let rows = split_process_per_rows(&row);
    assert_eq!(rows.len(), 3);
}

#[test]
fn lib_test_split_process_per_rows_with_empty() {
    let rows = split_process_per_rows("");
    assert_eq!(rows.len(), 0);
}

#[test]
fn lib_test_deserialize_header() {
    let row = split_of_per_process(&create_lsof_output())[0].clone();
    let row = split_process_per_rows(&row)[0].clone();
    let (pid, uid, command) = deserialize_header(&row).unwrap();
    assert_eq!(pid, 163);
    assert_eq!(uid, 501);
    assert_eq!(command, "loginwindow")
}

#[test]
fn lib_test_row_to_struct() {
    let row = split_of_per_process(&create_lsof_output())[0].clone();
    let header_row = split_process_per_rows(&row)[0].clone();
    let process_row = split_process_per_rows(&row)[1].clone();
    let (pid, uid, command) = deserialize_header(&header_row).unwrap();
    let open_file = row_to_struct(&(pid, uid, command), &process_row);

    assert_eq!(open_file.command, "loginwindow");
    assert_eq!(open_file.pid, 163);
    assert_eq!(open_file.uid, 501);
    assert_eq!(open_file.fd, "cwd");
    assert_eq!(open_file._type, "DIR");
    assert_eq!(open_file.device, "0x1000010");
    assert_eq!(open_file.size, 640);
    assert_eq!(open_file.node, "2");
    assert_eq!(open_file.name, "/");
}

#[test]
fn unix_test_split_of_per_process() {
    let rows = split_of_per_process(&create_lsof_output());
    assert_eq!(rows.len(), 2);
}

#[test]
fn unix_test_split_of_per_process_with_empty() {
    let rows = split_of_per_process("");
    assert_eq!(rows.len(), 0);
}

#[test]
fn unix_test_split_process_per_rows() {
    let row = split_of_per_process(&create_lsof_output())[0].clone();
    let rows = split_process_per_rows(&row);
    assert_eq!(rows.len(), 3);
}

#[test]
fn unix_test_split_process_per_rows_with_empty() {
    let rows = split_process_per_rows("");
    assert_eq!(rows.len(), 0);
}

#[test]
fn unix_test_deserialize_header() {
    let row = split_of_per_process(&create_lsof_output())[0].clone();
    let row = split_process_per_rows(&row)[0].clone();
    let (pid, uid, command) = deserialize_header(&row).unwrap();
    assert_eq!(pid, 163);
    assert_eq!(uid, 501);
    assert_eq!(command, "loginwindow")
}

#[test]
fn unix_test_row_to_struct() {
    let row = split_of_per_process(&create_lsof_output())[0].clone();
    let header_row = split_process_per_rows(&row)[0].clone();
    let process_row = split_process_per_rows(&row)[1].clone();
    let (pid, uid, command) = deserialize_header(&header_row).unwrap();
    let open_file = row_to_struct(&(pid, uid, command), &process_row);

    assert_eq!(open_file.command, "loginwindow");
    assert_eq!(open_file.pid, 163);
    assert_eq!(open_file.uid, 501);
    assert_eq!(open_file.fd, "cwd");
    assert_eq!(open_file._type, "DIR");
    assert_eq!(open_file.device, "0x1000010");
    assert_eq!(open_file.size, 640);
    assert_eq!(open_file.node, "2");
    assert_eq!(open_file.name, "/");
}

#[test]
fn parse_output_reads_every_file_of_every_process() {
    let files = Unix::parse_output(&create_lsof_output()).unwrap();
    assert_eq!(files.len(), 5);
    assert_eq!(files[1].name, "/System/Library/CoreServices/loginwindow.app/Contents/MacOS/loginwindow");
    assert_eq!(files[2].pid, 8015);
    assert_eq!(files[2].command, "mdworker_shared");
    assert_eq!(files[4].size, 58184);
    assert_eq!(files[4].node, "11556174");
    let again = parse_cmd_output(&create_lsof_output()).unwrap();
    assert_eq!(again.len(), 5);
}

#[test]
fn parse_output_rejects_a_bad_pid() {
    assert!(Unix::parse_output("pX\ncsh\nu1\nfcwd").is_err());
    assert!(Unix::parse_output("").unwrap().is_empty());
}

#[test]
fn header_with_bad_uid_is_an_error() {
    assert!(deserialize_header("p1\ncsh\nuroot").is_err());
}

#[test]
fn file_type_names() {
    assert_eq!(FileType::REGULAR.to_string(), "regular");
    assert_eq!(FileType::NETWORK.to_string(), "network");
    assert_eq!(FileType::ALL.to_string(), "all");
}

#[test]
fn readability_of_lsof_output() {
    assert!(cmd_output_readable(&create_lsof_output()));
    assert!(cmd_output_readable(""));
    assert!(!cmd_output_readable("p1\ncx"));
    assert!(!cmd_output_readable("p1\ncx\nu0\nfcwd\nq?"));
    assert!(cmd_output_readable("px\ncx\nu0\nfcwd\nq?"));
}

#[test]
fn process_blocks_join_back_to_the_output() {
    let output = create_lsof_output();
    let blocks = split_of_per_process(&output);
    assert_eq!(blocks.len(), 2);
    assert_eq!(blocks.join("\np"), output);
    assert!(blocks.iter().all(|b| !b.contains("\np")));
}

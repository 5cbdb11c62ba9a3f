//! Files, permissions, commands and processes, once they have been read.

use rustwhy::framework::Permission;
use rustwhy::utils::files::{first_line, read_first_line};
use rustwhy::utils::permissions::{
    has_all_permissions, has_permission, is_root, uid_is_root, HostAccess,
};
use rustwhy::utils::process::{parse_status, process_name, process_user};
use rustwhy::utils::system::{run_cmd, run_cmd_timeout, CommandError, CommandOutput};

const STATUS: &str = "Name:\tbash\nUmask:\t0022\nState:\tS (sleeping)\nUid:\t1000\t1000\t1000\t1000\nGid:\t100\nnocolon\nVmRSS:\t    5120 kB\n";

#[test]
fn first_line_of_a_file() {
    assert_eq!(read_first_line(Some("0x10de\nrest\n")).as_deref(), Some("0x10de"));
    assert_eq!(read_first_line(Some("single")).as_deref(), Some("single"));
    assert_eq!(read_first_line(Some("\nsecond")).as_deref(), Some(""));
    assert_eq!(read_first_line(Some("crlf\r\nnext")).as_deref(), Some("crlf"));
    assert_eq!(read_first_line(Some("")), None);
    assert_eq!(read_first_line(None), None);
    assert_eq!(first_line(&Some("a\nb".to_string())).as_deref(), Some("a"));
    assert_eq!(first_line(&None), None);
}

#[test]
fn permissions_are_granted_by_access() {
    let all = [
        Permission::Root,
        Permission::ReadProc,
        Permission::ReadSys,
        Permission::NetAdmin,
        Permission::PerfEvent,
    ];
    let user = HostAccess { root: false, proc_readable: true, sys_readable: false };
    assert!(!has_permission(&Permission::Root, &user));
    assert!(has_permission(&Permission::ReadProc, &user));
    assert!(!has_permission(&Permission::ReadSys, &user));
    assert!(!has_permission(&Permission::NetAdmin, &user));
    assert!(!has_permission(&Permission::PerfEvent, &user));
    assert!(!has_all_permissions(&all, &user));
    assert!(has_all_permissions(&[Permission::ReadProc], &user));
    assert!(has_all_permissions(&[], &user));
    let root = HostAccess { root: true, proc_readable: true, sys_readable: true };
    for p in &all {
        assert!(has_permission(p, &root));
    }
    assert!(has_all_permissions(&all, &root));
    let blind_root = HostAccess { root: true, proc_readable: false, sys_readable: false };
    assert!(has_permission(&Permission::NetAdmin, &blind_root));
    assert!(!has_permission(&Permission::ReadSys, &blind_root));
    assert!(!has_all_permissions(&[Permission::Root, Permission::ReadProc], &blind_root));
}

#[test]
fn root_is_user_zero() {
    assert!(uid_is_root(0));
    assert!(!uid_is_root(1000));
    assert!(!uid_is_root(u32::MAX));
    let first = is_root();
    assert_eq!(is_root(), first);
}

#[test]
fn command_outcomes_are_settled() {
    let args = vec!["ls".to_string(), "-l".to_string()];
    let ok = CommandOutput { success: true, stdout: Some("out\n".to_string()), stderr: String::new() };
    assert_eq!(run_cmd(&args, Some(ok.clone())).unwrap(), "out\n");
    assert_eq!(run_cmd_timeout(&args, 5, Some(ok.clone())).unwrap(), "out\n");
    assert!(matches!(run_cmd(&Vec::new(), Some(ok)), Err(CommandError::NoArguments)));
    assert!(matches!(run_cmd(&args, None), Err(CommandError::LaunchFailed)));
    let failed = CommandOutput {
        success: false,
        stdout: Some("partial".to_string()),
        stderr: "denied".to_string(),
    };
    match run_cmd(&args, Some(failed)) {
        Err(CommandError::Failed { command, stderr }) => {
            assert_eq!(command, "ls -l");
            assert_eq!(stderr, "denied");
        }
        other => panic!("expected Failed, got {:?}", other),
    }
    let binary = CommandOutput { success: true, stdout: None, stderr: String::new() };
    assert!(matches!(run_cmd(&args, Some(binary)), Err(CommandError::NotUtf8)));
    assert_eq!(CommandError::NoArguments.message(), "run_cmd requires at least one argument");
    assert_eq!(CommandError::LaunchFailed.message(), "Failed to execute command");
    assert_eq!(CommandError::NotUtf8.message(), "Command output was not valid UTF-8");
    let failure = CommandError::Failed { command: "ls -l".to_string(), stderr: "denied".to_string() };
    assert_eq!(failure.message(), "Command failed: ls -l denied");
}

#[test]
fn process_names() {
    assert_eq!(process_name(7, Some("bash\n"), Some("ignored")).as_deref(), Some("bash"));
    assert_eq!(process_name(7, Some("two words\n\n"), None).as_deref(), Some("two words"));
    assert_eq!(process_name(7, Some("\n"), None).as_deref(), Some("[pid 7]"));
    assert_eq!(
        process_name(7, None, Some("/usr/bin/python3\0-m\0http.server\0")).as_deref(),
        Some("/usr/bin/python3")
    );
    assert_eq!(process_name(42, None, Some("")).as_deref(), Some("[pid 42]"));
    assert_eq!(process_name(42, None, None), None);
}

#[test]
fn process_user_and_status() {
    assert_eq!(process_user(STATUS), 1000);
    assert_eq!(process_user("Uid:\nUid:\troot\n"), 0);
    assert_eq!(process_user("Uid:\nUid: 5 6\n"), 5);
    assert_eq!(process_user("Name: x\n"), 0);
    assert_eq!(process_user("Uid: 4294967296\n"), 0);
    let entries = parse_status(STATUS);
    assert_eq!(entries.len(), 6);
    assert_eq!(entries[0], ("Name".to_string(), "bash".to_string()));
    assert_eq!(entries[2], ("State".to_string(), "S (sleeping)".to_string()));
    assert_eq!(entries[3], ("Uid".to_string(), "1000\t1000\t1000\t1000".to_string()));
    assert_eq!(entries[5], ("VmRSS".to_string(), "5120 kB".to_string()));
}

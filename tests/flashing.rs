use arduino_installer::board::{ArduinoBoard, BoardSpec};
use arduino_installer::command::{render, FlashCommand, FLASH_TOOL};
use arduino_installer::outcome::FlashOutcome;
use arduino_installer::port::{PortDescriptor, PortKind, UsbPortInfo};
use arduino_installer::workflow::{portscan, SelectionError, WorkflowState};

fn usb_port(name: &str) -> PortDescriptor {
    PortDescriptor {
        port_name: name.to_string(),
        port_type: PortKind::UsbPort(UsbPortInfo {
            vid: 0x2341,
            pid: 0x0043,
            serial_number: None,
            manufacturer: Some("Arduino".to_string()),
            product: None,
        }),
    }
}

fn strings(v: &[&str]) -> Vec<String> {
    v.iter().map(|s| s.to_string()).collect()
}

#[test]
fn every_board_has_named_profile() {
    let spec = ArduinoBoard::ArduinoUno.spec();
    assert!(!spec.programmer.is_empty());
    assert!(!spec.partno.is_empty());
    assert_eq!(spec.programmer, "arduino");
    assert_eq!(spec.partno, "atmega328p");
    assert!(spec.do_chip_erase);
    assert_eq!(ArduinoBoard::default(), ArduinoBoard::ArduinoUno);
}

#[test]
fn build_twice_gives_identical_command() {
    let port = usb_port("/dev/ttyUSB1");
    let a = FlashCommand::build(ArduinoBoard::ArduinoUno.spec(), &port, "fw.elf");
    let b = FlashCommand::build(ArduinoBoard::ArduinoUno.spec(), &port, "fw.elf");
    assert_eq!(a.program, b.program);
    assert_eq!(a.args, b.args);
    assert_eq!(a.rendering, b.rendering);
}

#[test]
fn erase_flag_is_last_when_profile_erases() {
    let port = usb_port("/dev/ttyACM0");
    let c = FlashCommand::build(ArduinoBoard::ArduinoUno.spec(), &port, "a.elf");
    assert_eq!(c.args.len(), 10);
    assert_eq!(c.args.last().unwrap(), "-e");
}

#[test]
fn erase_flag_absent_when_profile_does_not_erase() {
    let spec = BoardSpec { programmer: "usbasp", partno: "atmega8", do_chip_erase: false };
    let c = FlashCommand::build(spec, &usb_port("COM3"), "C:\\fw.elf");
    assert_eq!(
        c.args,
        strings(&["-c", "usbasp", "-p", "atmega8", "-P", "COM3", "-D", "-U", "flash:w:C:\\fw.elf"])
    );
    assert!(!c.args.iter().any(|a| a == "-e"));
    assert_eq!(c.program, FLASH_TOOL);
}

#[test]
fn render_quotes_program_and_each_argument() {
    assert_eq!(render("tool", &Vec::new()), "CMD: \"tool\"");
    assert_eq!(render("tool", &strings(&["-x", "y z"])), "CMD: \"tool\" \"-x\" \"y z\"");
}

#[test]
fn flash_without_file_or_port_reports_no_file() {
    let mut s = WorkflowState::new();
    assert!(s.prepare_flash().is_none());
    assert_eq!(s.general_error, Some(SelectionError::NoFileSelected));
    assert_eq!(s.general_error.unwrap().message(), "no file selected");
}

#[test]
fn flash_with_file_but_no_port_reports_no_port() {
    let mut s = WorkflowState::new();
    s.select_file("/tmp/firmware.elf".to_string());
    assert!(s.prepare_flash().is_none());
    assert_eq!(s.general_error, Some(SelectionError::NoPortSelected));
    assert_eq!(SelectionError::NoPortSelected.message(), "no port selected");
    assert_eq!(s.file_path.as_deref(), Some("/tmp/firmware.elf"));
}

#[test]
fn flash_with_port_but_no_file_reports_no_file() {
    let mut s = WorkflowState::new();
    s.select_port(usb_port("/dev/ttyACM0"));
    assert!(s.prepare_flash().is_none());
    assert_eq!(s.general_error, Some(SelectionError::NoFileSelected));
    assert_eq!(s.general_error.unwrap().message(), "no file selected");
    assert!(s.used_command.is_none());
    assert!(s.output.is_none());
}

#[test]
fn end_to_end_flash_builds_expected_command() {
    let mut s = WorkflowState::new();
    s.select_board(ArduinoBoard::ArduinoUno);
    s.select_port(usb_port("/dev/ttyACM0"));
    s.select_file("/tmp/firmware.elf".to_string());
    let cmd = s.prepare_flash().expect("both selections are made");
    assert!(s.general_error.is_none());
    assert_eq!(cmd.program, "avrdude");
    assert_eq!(
        cmd.args,
        strings(&[
            "-c", "arduino", "-p", "atmega328p", "-P", "/dev/ttyACM0", "-D", "-U",
            "flash:w:/tmp/firmware.elf", "-e",
        ])
    );
    assert_eq!(
        cmd.rendering,
        "CMD: \"avrdude\" \"-c\" \"arduino\" \"-p\" \"atmega328p\" \"-P\" \"/dev/ttyACM0\" \
         \"-D\" \"-U\" \"flash:w:/tmp/firmware.elf\" \"-e\""
    );
    let outcome = FlashOutcome::Completed {
        exit_code: Some(0),
        stdout: Some("done".to_string()),
        stderr: Some(String::new()),
    };
    s.record_flash(cmd, &outcome);
    assert!(s.used_command.as_deref().unwrap().starts_with("CMD: \"avrdude\""));
    assert_eq!(s.output.as_deref(), Some("Flashing: exit code 0\nstdout:\ndone\nstderr:\n"));
}

#[test]
fn successful_flash_clears_earlier_selection_error() {
    let mut s = WorkflowState::new();
    s.select_port(usb_port("/dev/ttyACM0"));
    assert!(s.prepare_flash().is_none());
    assert!(s.general_error.is_some());
    s.select_file("x.elf".to_string());
    let cmd = s.prepare_flash().unwrap();
    assert!(s.general_error.is_none());
    s.record_flash(cmd, &FlashOutcome::LaunchFailed("not found".to_string()));
    assert!(s.general_error.is_none());
    assert_eq!(s.output.as_deref(), Some("Flashing: could not start the tool: not found"));
}

#[test]
fn record_flash_replaces_previous_attempt() {
    let mut s = WorkflowState::new();
    s.select_port(usb_port("/dev/ttyACM0"));
    s.select_file("one.elf".to_string());
    let first = s.prepare_flash().unwrap();
    s.record_flash(first, &FlashOutcome::LaunchFailed("a".to_string()));
    s.select_file("two.elf".to_string());
    let second = s.prepare_flash().unwrap();
    s.record_flash(second, &FlashOutcome::LaunchFailed("b".to_string()));
    assert!(s.used_command.as_deref().unwrap().contains("flash:w:two.elf"));
    assert!(!s.used_command.as_deref().unwrap().contains("one.elf"));
    assert_eq!(s.output.as_deref(), Some("Flashing: could not start the tool: b"));
}

#[test]
fn outcome_renders_exit_code_and_streams() {
    let o = FlashOutcome::Completed {
        exit_code: Some(-12),
        stdout: Some("ok".to_string()),
        stderr: None,
    };
    assert_eq!(o.render(), "Flashing: exit code -12\nstdout:\nok\nstderr:\n<not valid UTF-8>");
    let signal = FlashOutcome::Completed { exit_code: None, stdout: None, stderr: Some("e".to_string()) };
    assert_eq!(
        signal.render(),
        "Flashing: exit code none (ended by a signal)\nstdout:\n<not valid UTF-8>\nstderr:\ne"
    );
}

#[test]
fn outcome_renders_extreme_exit_codes() {
    let render_code = |c: i32| {
        FlashOutcome::Completed { exit_code: Some(c), stdout: None, stderr: None }.render()
    };
    assert!(render_code(i32::MIN).starts_with("Flashing: exit code -2147483648\n"));
    assert!(render_code(i32::MAX).starts_with("Flashing: exit code 2147483647\n"));
    assert!(render_code(1).starts_with("Flashing: exit code 1\n"));
    assert!(render_code(10).starts_with("Flashing: exit code 10\n"));
}

#[test]
fn successful_scan_replaces_ports_and_clears_error() {
    let mut s = WorkflowState::new();
    s.rescan(Err("no access".to_string()));
    assert_eq!(s.port_scan_error.as_deref(), Some("ERROR: no access"));
    let found = vec![usb_port("/dev/ttyACM0"), usb_port("/dev/ttyUSB0")];
    s.rescan(Ok(found.clone()));
    assert_eq!(s.available_ports.len(), 2);
    assert_eq!(s.available_ports, found);
    assert!(s.port_scan_error.is_none());
}

#[test]
fn failed_scan_clears_ports_and_keeps_selections() {
    let mut s = WorkflowState::new();
    s.rescan(Ok(vec![usb_port("/dev/ttyACM0")]));
    s.select_port(usb_port("/dev/ttyACM0"));
    s.select_file("f.elf".to_string());
    s.rescan(Err(String::new()));
    assert!(s.available_ports.is_empty());
    assert_eq!(s.port_scan_error.as_deref(), Some("ERROR: "));
    assert!(!s.port_scan_error.as_deref().unwrap().is_empty());
    assert_eq!(s.selected_port, Some(usb_port("/dev/ttyACM0")));
    assert_eq!(s.file_path.as_deref(), Some("f.elf"));
}

#[test]
fn empty_scan_is_a_success() {
    let mut ports = vec![usb_port("old")];
    let mut err = Some("ERROR: stale".to_string());
    portscan(&mut ports, &mut err, Ok(Vec::new()));
    assert!(ports.is_empty());
    assert!(err.is_none());
}

#[test]
fn repeated_scans_converge() {
    let os = vec![usb_port("/dev/ttyACM0"), PortDescriptor { port_name: "/dev/ttyS0".to_string(), port_type: PortKind::PciPort }];
    let mut s = WorkflowState::new();
    s.rescan(Ok(os.clone()));
    let after_one = s.available_ports.clone();
    s.rescan(Ok(os.clone()));
    assert_eq!(s.available_ports, after_one);
    s.rescan(Ok(os.clone()));
    assert_eq!(s.available_ports, os);
    assert!(s.port_scan_error.is_none());
}

#[test]
fn stale_port_selection_is_kept_after_rescan() {
    let mut s = WorkflowState::new();
    s.select_port(usb_port("/dev/ttyACM0"));
    s.rescan(Ok(vec![PortDescriptor { port_name: "/dev/ttyS0".to_string(), port_type: PortKind::BluetoothPort }]));
    assert_eq!(s.selected_port, Some(usb_port("/dev/ttyACM0")));
    s.select_file("f.elf".to_string());
    let cmd = s.prepare_flash().unwrap();
    assert_eq!(cmd.args[5], "/dev/ttyACM0");
}

//! The session state and the rules that govern a flash attempt.

use vstd::prelude::*;
use vstd::string::*;

use crate::board::{ArduinoBoard, erases_of, partno_of, programmer_of};
use crate::command::{FlashCommand, flash_args, is_flash_command};
use crate::outcome::{FlashOutcome, outcome_text};
use crate::port::PortDescriptor;

verus! {

/// Why a flash attempt could not start.
#[derive(Debug, Clone, Copy, PartialEq, Eq, Structural)]
pub enum SelectionError {
    /// No firmware file was chosen.
    NoFileSelected,
    /// No serial port was chosen.
    NoPortSelected,
}

/// The message of each selection error.
pub open spec fn selection_message(e: SelectionError) -> Seq<char> {
    match e {
        SelectionError::NoFileSelected => "no file selected"@,
        SelectionError::NoPortSelected => "no port selected"@,
    }
}

impl SelectionError {
    /// The message shown for this error.
    pub fn message(&self) -> (r: &'static str)
        ensures
            r@ == selection_message(*self),
    {
        match self {
            SelectionError::NoFileSelected => "no file selected",
            SelectionError::NoPortSelected => "no port selected",
        }
    }
}

/// The text of an optional string.
pub open spec fn text_of(o: Option<String>) -> Option<Seq<char>> {
    match o {
        Some(s) => Some(s@),
        None => None,
    }
}

/// What a scan of the serial ports found, as plain sequences.
pub open spec fn scan_view(scan: Result<Vec<PortDescriptor>, String>) -> Result<
    Seq<PortDescriptor>,
    Seq<char>,
> {
    match scan {
        Ok(ports) => Ok(ports@),
        Err(cause) => Err(cause@),
    }
}

/// The port list after a scan: what it found, or nothing where it failed.
pub open spec fn ports_after_scan(scan: Result<Seq<PortDescriptor>, Seq<char>>) -> Seq<
    PortDescriptor,
> {
    match scan {
        Ok(ports) => ports,
        Err(_) => Seq::empty(),
    }
}

/// The scan error after a scan: none where it succeeded, else its cause.
pub open spec fn error_after_scan(scan: Result<Seq<PortDescriptor>, Seq<char>>) -> Option<
    Seq<char>,
> {
    match scan {
        Ok(_) => None,
        Err(cause) => Some("ERROR: "@ + cause),
    }
}

/// Records the result of a scan of the serial ports: the list it found, or
/// an empty list and the cause where it failed. Nothing of the earlier list
/// or error survives.
pub fn portscan(
    available_ports: &mut Vec<PortDescriptor>,
    port_scan_error: &mut Option<String>,
    scan: Result<Vec<PortDescriptor>, String>,
)
    ensures
        final(available_ports)@ == ports_after_scan(scan_view(scan)),
        text_of(*final(port_scan_error)) == error_after_scan(scan_view(scan)),
        scan is Ok ==> final(available_ports)@.len() == scan->Ok_0@.len()
            && *final(port_scan_error) is None,
        scan is Err ==> final(available_ports)@.len() == 0 && *final(port_scan_error) is Some
            && (*final(port_scan_error))->Some_0@.len() > 0,
{
    match scan {
        Ok(ports) => {
            *available_ports = ports;
            *port_scan_error = None;
        },
        Err(cause) => {
            *available_ports = Vec::new();
            *port_scan_error = Some(String::from_str("ERROR: ").concat(cause.as_str()));
            proof {
                reveal_strlit("ERROR: ");
            }
        },
    }
}

/// The arguments that flash `file` through `port` to `board`.
pub open spec fn board_args(board: ArduinoBoard, port: PortDescriptor, file: Seq<char>) -> Seq<
    Seq<char>,
> {
    flash_args(programmer_of(board), partno_of(board), erases_of(board), port.port_name@, file)
}

/// The session state: the user's selections, the last scan of the ports and
/// what the last flash attempt left to show.
pub struct WorkflowState {
    /// The firmware file the user selected.
    pub file_path: Option<String>,
    /// The board the firmware is installed on.
    pub selected_board: ArduinoBoard,
    /// The port over which the board is connected.
    pub selected_port: Option<PortDescriptor>,
    /// The ports the last scan found.
    pub available_ports: Vec<PortDescriptor>,
    /// The error of the last scan, where it failed.
    pub port_scan_error: Option<String>,
    /// Why the last flash attempt could not start.
    pub general_error: Option<SelectionError>,
    /// The display text of the last flash outcome.
    pub output: Option<String>,
    /// The display text of the last command run.
    pub used_command: Option<String>,
}

/// `after` is `before` with a scan that found `scan` recorded: the port list
/// and the scan error are replaced, every other field is kept.
pub open spec fn is_rescan_of(
    after: WorkflowState,
    before: WorkflowState,
    scan: Result<Seq<PortDescriptor>, Seq<char>>,
) -> bool {
    &&& after.available_ports@ == ports_after_scan(scan)
    &&& text_of(after.port_scan_error) == error_after_scan(scan)
    &&& after.file_path == before.file_path
    &&& after.selected_board == before.selected_board
    &&& after.selected_port == before.selected_port
    &&& after.general_error == before.general_error
    &&& after.output == before.output
    &&& after.used_command == before.used_command
}

/// Rescanning over unchanged ports converges: where two scans in a row find
/// the same, the second leaves the port list, the text of the scan error and
/// every other field as the first left them.
pub proof fn lemma_rescan_idempotent(
    start: WorkflowState,
    once: WorkflowState,
    twice: WorkflowState,
    first: Result<Vec<PortDescriptor>, String>,
    second: Result<Vec<PortDescriptor>, String>,
)
    requires
        scan_view(first) == scan_view(second),
        is_rescan_of(once, start, scan_view(first)),
        is_rescan_of(twice, once, scan_view(second)),
    ensures
        twice.available_ports@ == once.available_ports@,
        text_of(twice.port_scan_error) == text_of(once.port_scan_error),
        twice.file_path == once.file_path,
        twice.selected_board == once.selected_board,
        twice.selected_port == once.selected_port,
        twice.general_error == once.general_error,
        twice.output == once.output,
        twice.used_command == once.used_command,
{
}

impl WorkflowState {
    /// A session with nothing selected, the default board and no ports.
    pub fn new() -> (r: WorkflowState)
        ensures
            r.file_path is None,
            r.selected_board == ArduinoBoard::ArduinoUno,
            r.selected_port is None,
            r.available_ports@.len() == 0,
            r.port_scan_error is None,
            r.general_error is None,
            r.output is None,
            r.used_command is None,
    {
        WorkflowState {
            file_path: None,
            selected_board: ArduinoBoard::ArduinoUno,
            selected_port: None,
            available_ports: Vec::new(),
            port_scan_error: None,
            general_error: None,
            output: None,
            used_command: None,
        }
    }

    /// Selects the firmware file.
    pub fn select_file(&mut self, path: String)
        ensures
            *final(self) == (WorkflowState { file_path: Some(path), ..*old(self) }),
    {
        self.file_path = Some(path);
    }

    /// Selects the board.
    pub fn select_board(&mut self, board: ArduinoBoard)
        ensures
            *final(self) == (WorkflowState { selected_board: board, ..*old(self) }),
    {
        self.selected_board = board;
    }

    /// Selects the port. It is not checked against the last scan.
    pub fn select_port(&mut self, port: PortDescriptor)
        ensures
            *final(self) == (WorkflowState { selected_port: Some(port), ..*old(self) }),
    {
        self.selected_port = Some(port);
    }

    /// Records a new scan of the ports; the selections and the flash
    /// results stay as they were.
    pub fn rescan(&mut self, scan: Result<Vec<PortDescriptor>, String>)
        ensures
            is_rescan_of(*final(self), *old(self), scan_view(scan)),
    {
        portscan(&mut self.available_ports, &mut self.port_scan_error, scan);
    }

    /// Decides a flash request. Where no file is selected, whether or not a
    /// port is, the error is `NoFileSelected`; where a file but no port is,
    /// `NoPortSelected`; either way nothing else changes. Where both are,
    /// the general error is cleared and the command that flashes the file
    /// to the selected board through the port is returned, for the caller
    /// to run and to hand back to `record_flash`.
    pub fn prepare_flash(&mut self) -> (r: Option<FlashCommand>)
        ensures
            match (old(self).file_path, old(self).selected_port) {
                (Some(file), Some(port)) => {
                    &&& r is Some
                    &&& is_flash_command(
                        r->Some_0,
                        board_args(old(self).selected_board, port, file@),
                    )
                    &&& *final(self) == (WorkflowState { general_error: None, ..*old(self) })
                },
                (None, _) => {
                    &&& r is None
                    &&& *final(self) == (WorkflowState {
                        general_error: Some(SelectionError::NoFileSelected),
                        ..*old(self)
                    })
                },
                (Some(_), None) => {
                    &&& r is None
                    &&& *final(self) == (WorkflowState {
                        general_error: Some(SelectionError::NoPortSelected),
                        ..*old(self)
                    })
                },
            },
    {
        match (&self.file_path, &self.selected_port) {
            (Some(file), Some(port)) => {
                let command = FlashCommand::build(self.selected_board.spec(), port, file.as_str());
                self.general_error = None;
                Some(command)
            },
            (None, _) => {
                self.general_error = Some(SelectionError::NoFileSelected);
                None
            },
            (Some(_), None) => {
                self.general_error = Some(SelectionError::NoPortSelected);
                None
            },
        }
    }

    /// Stores the display text of a command that was run and of its
    /// outcome, replacing those of the attempt before.
    pub fn record_flash(&mut self, command: FlashCommand, outcome: &FlashOutcome)
        ensures
            final(self).used_command == Some(command.rendering),
            text_of(final(self).output) == Some(outcome_text(*outcome)),
            final(self).general_error is None,
            final(self).file_path == old(self).file_path,
            final(self).selected_board == old(self).selected_board,
            final(self).selected_port == old(self).selected_port,
            final(self).available_ports == old(self).available_ports,
            final(self).port_scan_error == old(self).port_scan_error,
    {
        self.output = Some(outcome.render());
        self.used_command = Some(command.rendering);
        self.general_error = None;
    }
}

} // verus!

use vnc::discovery::{parse_pid, ProcessScan, ScanAction, ScanError, ScanEvent, ScanState};

const TARGET: &[u8] = b"/usr/bin/xochitl";

fn entry(is_dir: bool, name: &str) -> ScanEvent {
    ScanEvent::Entry { is_dir, name: name.as_bytes().to_vec() }
}

fn executable(path: &str) -> ScanEvent {
    ScanEvent::Executable(path.as_bytes().to_vec())
}

#[test]
fn decimal_names_are_process_ids() {
    assert_eq!(parse_pid(b"1"), Some(1));
    assert_eq!(parse_pid(b"0"), Some(0));
    assert_eq!(parse_pid(b"153"), Some(153));
    assert_eq!(parse_pid(b"007"), Some(7));
    assert_eq!(parse_pid(b"4194304"), Some(4194304));
    assert_eq!(parse_pid(b"+42"), Some(42));
}

#[test]
fn other_names_are_no_process_ids() {
    for name in ["", "+", "self", "-1", "1a", "a1", " 1", "1 ", "1.0", "++1", "1+", "0x10", "thread-self"] {
        assert_eq!(parse_pid(name.as_bytes()), None);
    }
    assert_eq!(parse_pid(&[0x31, 0xff]), None);
}

#[test]
fn process_ids_end_at_the_largest_usize() {
    let largest = usize::MAX.to_string();
    assert_eq!(parse_pid(largest.as_bytes()), Some(usize::MAX));
    let mut next = largest.clone().into_bytes();
    let last = next.len() - 1;
    next[last] += 1;
    assert_eq!(parse_pid(&next), None);
    let longer = format!("{}0", largest);
    assert_eq!(parse_pid(longer.as_bytes()), None);
    assert_eq!(parse_pid(b"99999999999999999999999999999999"), None);
    let padded = format!("000{}", largest);
    assert_eq!(parse_pid(padded.as_bytes()), Some(usize::MAX));
    for name in ["0", "9", "10", "4294967295", "4294967296", "65535"] {
        assert_eq!(parse_pid(name.as_bytes()), name.parse::<usize>().ok());
    }
}

#[test]
fn the_scan_starts_by_listing() {
    let scan = ProcessScan::new(TARGET.to_vec());
    assert_eq!(scan.current(), ScanState::Listing);
}

#[test]
fn the_first_process_that_runs_the_target_is_selected() {
    let mut scan = ProcessScan::new(TARGET.to_vec());
    assert_eq!(scan.step(&entry(true, "acpi")), ScanAction::NextEntry);
    assert_eq!(scan.step(&entry(false, "12")), ScanAction::NextEntry);
    assert_eq!(scan.step(&entry(true, "1")), ScanAction::Inspect(1));
    assert_eq!(scan.current(), ScanState::Inspecting(1));
    assert_eq!(scan.step(&executable("/sbin/init")), ScanAction::NextEntry);
    assert_eq!(scan.step(&entry(true, "153")), ScanAction::Inspect(153));
    assert_eq!(scan.step(&executable("/usr/bin/xochitl")), ScanAction::OpenMemory(153));
    assert_eq!(scan.current(), ScanState::Opening(153));
    assert_eq!(scan.step(&ScanEvent::MemoryOpened), ScanAction::Done(153));
    assert_eq!(scan.current(), ScanState::Found(153));
    assert_eq!(scan.step(&entry(true, "154")), ScanAction::Done(153));
    assert_eq!(scan.step(&ScanEvent::EndOfEntries), ScanAction::Done(153));
}

#[test]
fn an_unresolved_link_is_passed_over_without_error() {
    let mut scan = ProcessScan::new(TARGET.to_vec());
    assert_eq!(scan.step(&entry(true, "2")), ScanAction::Inspect(2));
    assert_eq!(scan.step(&ScanEvent::Unresolved), ScanAction::NextEntry);
    assert_eq!(scan.current(), ScanState::Listing);
    assert_eq!(scan.step(&entry(true, "3")), ScanAction::Inspect(3));
    assert_eq!(scan.step(&executable("/usr/bin/xochitl")), ScanAction::OpenMemory(3));
}

#[test]
fn paths_are_compared_byte_for_byte() {
    for path in ["/usr/bin/xochitl ", "/usr/bin/xochit", "/usr/bin/Xochitl", "xochitl", "", "/usr/bin/xochitl/"] {
        let mut scan = ProcessScan::new(TARGET.to_vec());
        assert_eq!(scan.step(&entry(true, "9")), ScanAction::Inspect(9));
        assert_eq!(scan.step(&executable(path)), ScanAction::NextEntry);
    }
}

#[test]
fn without_a_matching_process_the_scan_fails() {
    let mut scan = ProcessScan::new(TARGET.to_vec());
    assert_eq!(scan.step(&entry(true, "1")), ScanAction::Inspect(1));
    assert_eq!(scan.step(&executable("/sbin/init")), ScanAction::NextEntry);
    assert_eq!(scan.step(&ScanEvent::EndOfEntries), ScanAction::Fail(ScanError::NoSuchProcess));
    assert_eq!(scan.current(), ScanState::Failed(ScanError::NoSuchProcess));
    assert_eq!(scan.step(&entry(true, "2")), ScanAction::Fail(ScanError::NoSuchProcess));
}

#[test]
fn an_empty_process_directory_fails_the_scan() {
    let mut scan = ProcessScan::new(TARGET.to_vec());
    assert_eq!(scan.step(&ScanEvent::EndOfEntries), ScanAction::Fail(ScanError::NoSuchProcess));
}

#[test]
fn memory_that_cannot_be_opened_fails_the_scan() {
    let mut scan = ProcessScan::new(TARGET.to_vec());
    assert_eq!(scan.step(&entry(true, "77")), ScanAction::Inspect(77));
    assert_eq!(scan.step(&executable("/usr/bin/xochitl")), ScanAction::OpenMemory(77));
    assert_eq!(
        scan.step(&ScanEvent::MemoryRefused),
        ScanAction::Fail(ScanError::MemoryUnavailable)
    );
    assert_eq!(scan.current(), ScanState::Failed(ScanError::MemoryUnavailable));
}

#[test]
fn a_report_that_was_not_asked_for_changes_nothing() {
    let mut scan = ProcessScan::new(TARGET.to_vec());
    assert_eq!(scan.step(&executable("/usr/bin/xochitl")), ScanAction::NextEntry);
    assert_eq!(scan.step(&ScanEvent::Unresolved), ScanAction::NextEntry);
    assert_eq!(scan.step(&ScanEvent::MemoryOpened), ScanAction::NextEntry);
    assert_eq!(scan.step(&ScanEvent::MemoryRefused), ScanAction::NextEntry);
    assert_eq!(scan.step(&entry(true, "5")), ScanAction::Inspect(5));
    assert_eq!(scan.step(&entry(true, "6")), ScanAction::Inspect(5));
    assert_eq!(scan.step(&ScanEvent::EndOfEntries), ScanAction::Inspect(5));
    assert_eq!(scan.step(&ScanEvent::MemoryOpened), ScanAction::Inspect(5));
    assert_eq!(scan.step(&executable("/usr/bin/xochitl")), ScanAction::OpenMemory(5));
    assert_eq!(scan.step(&executable("/usr/bin/xochitl")), ScanAction::OpenMemory(5));
    assert_eq!(scan.step(&ScanEvent::Unresolved), ScanAction::OpenMemory(5));
    assert_eq!(scan.step(&ScanEvent::EndOfEntries), ScanAction::OpenMemory(5));
}

use stk500::StkError;
use stk500::commands::Command;
use stk500::orchestrator::{ProgAction, ProgEvent, ProgMemory, next_page};

/// Drives a programming operation against a device that answers every
/// command with an empty success frame, and returns the commands issued.
fn run_to_end(mut op: ProgMemory) -> Vec<Command> {
    let mut sent: Vec<Command> = Vec::new();
    let mut action = op.start();
    let mut fuel = 1000;
    loop {
        fuel -= 1;
        assert!(fuel > 0, "orchestrator did not finish");
        action = match action {
            ProgAction::Send(packet) => {
                sent.push(packet.command);
                op.on_event(ProgEvent::Response(Vec::new()))
            }
            ProgAction::Delay => op.on_event(ProgEvent::DelayDone),
            ProgAction::Finished => return sent,
            ProgAction::Aborted(e) => panic!("sequence aborted: {:?}", e),
        };
    }
}

#[test]
fn blank_pages_are_skipped_whole() {
    // three blank pages of 64 bytes, then one non-blank page
    let mut image = vec![0xFF; 192];
    image.extend_from_slice(&[0xAB; 64]);
    let op = ProgMemory::new('F', 64, 2, image);
    let sent = run_to_end(op);
    // exactly one load-address / prog-page pair, none for the blank pages
    assert_eq!(
        sent,
        vec![
            Command::CmndStkGetSync,
            Command::CmndStkSetDevice,
            Command::CmndStkSetDeviceExt,
            Command::CmndStkEnterProgmode,
            Command::CmndStkReadSign,
            Command::CmndStkLoadAddress,
            Command::CmndStkProgPage,
            Command::CmndStkLeaveProgmode,
        ]
    );
}

#[test]
fn blank_skip_word_address() {
    let mut image = vec![0xFF; 192];
    image.extend_from_slice(&[0xAB; 64]);
    let mut op = ProgMemory::new('F', 64, 2, image);
    let mut action = op.start();
    let mut load_payloads: Vec<Vec<u8>> = Vec::new();
    let mut fuel = 1000;
    loop {
        fuel -= 1;
        assert!(fuel > 0);
        action = match action {
            ProgAction::Send(packet) => {
                if packet.command == Command::CmndStkLoadAddress {
                    load_payloads.push(packet.payload.clone());
                }
                op.on_event(ProgEvent::Response(Vec::new()))
            }
            ProgAction::Delay => op.on_event(ProgEvent::DelayDone),
            ProgAction::Finished => break,
            ProgAction::Aborted(e) => panic!("sequence aborted: {:?}", e),
        };
    }
    // byte 192 at word size 2 is word 96, sent low byte first
    assert_eq!(load_payloads, vec![vec![96, 0]]);
}

#[test]
fn every_page_blank_writes_nothing() {
    let image = vec![0xFF; 256];
    let sent = run_to_end(ProgMemory::new('F', 64, 2, image));
    assert_eq!(
        sent,
        vec![
            Command::CmndStkGetSync,
            Command::CmndStkSetDevice,
            Command::CmndStkSetDeviceExt,
            Command::CmndStkEnterProgmode,
            Command::CmndStkReadSign,
            Command::CmndStkLeaveProgmode,
        ]
    );
}

#[test]
fn empty_image_writes_nothing() {
    let sent = run_to_end(ProgMemory::new('E', 256, 2, Vec::new()));
    assert!(!sent.contains(&Command::CmndStkProgPage));
    assert!(sent.contains(&Command::CmndStkLeaveProgmode));
}

#[test]
fn consecutive_pages_and_partial_tail() {
    // 64 non-blank, 64 blank, 10 non-blank: two pages written, the second partial
    let mut image = vec![0x01; 64];
    image.extend_from_slice(&[0xFF; 64]);
    image.extend_from_slice(&[0x02; 10]);
    let mut op = ProgMemory::new('F', 64, 2, image);
    let mut action = op.start();
    let mut pages: Vec<Vec<u8>> = Vec::new();
    let mut fuel = 1000;
    loop {
        fuel -= 1;
        assert!(fuel > 0);
        action = match action {
            ProgAction::Send(packet) => {
                if packet.command == Command::CmndStkProgPage {
                    pages.push(packet.payload.clone());
                }
                op.on_event(ProgEvent::Response(Vec::new()))
            }
            ProgAction::Delay => op.on_event(ProgEvent::DelayDone),
            ProgAction::Finished => break,
            ProgAction::Aborted(e) => panic!("sequence aborted: {:?}", e),
        };
    }
    assert_eq!(pages.len(), 2);
    assert_eq!(pages[0][0..3], [0x00, 0x40, b'F']);
    assert_eq!(pages[0].len(), 3 + 64);
    assert!(pages[0][3..].iter().all(|&b| b == 0x01));
    assert_eq!(pages[1][0..3], [0x00, 0x0A, b'F']);
    assert_eq!(pages[1].len(), 3 + 10);
    assert!(pages[1][3..].iter().all(|&b| b == 0x02));
}

#[test]
fn first_failure_aborts() {
    let mut op = ProgMemory::new('F', 64, 2, vec![0x00; 64]);
    let action = op.start();
    assert!(matches!(action, ProgAction::Send(_)));
    match op.on_event(ProgEvent::Failed(StkError::Timeout)) {
        ProgAction::Aborted(e) => assert_eq!(e, StkError::Timeout),
        _ => panic!("expected the sequence to abort"),
    }
}

#[test]
fn next_page_finds_first_nonblank() {
    let mut image = vec![0xFF; 192];
    image.extend_from_slice(&[0xAB; 64]);
    assert_eq!(next_page(&image, 0, 64), Some((192, 256)));
    assert_eq!(next_page(&image, 192, 64), Some((192, 256)));
    assert_eq!(next_page(&vec![0xFF; 256], 0, 64), None);
    assert_eq!(next_page(&Vec::new(), 0, 64), None);
    // partial final page
    let mut tail = vec![0xFF; 64];
    tail.extend_from_slice(&[0x01; 10]);
    assert_eq!(next_page(&tail, 0, 64), Some((64, 74)));
}

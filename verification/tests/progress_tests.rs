use localsend_core::progress::FileProgress;
use localsend_core::protos::ServerMessage;

fn sum_for(outbox: &[ServerMessage], id: &str) -> usize {
    outbox
        .iter()
        .map(|m| match m {
            ServerMessage::SendFileRequest(f, n) if f == id => *n,
            _ => 0,
        })
        .sum()
}

#[test]
fn progress_events_sum_to_bytes_on_disk() {
    let mut outbox: Vec<ServerMessage> = Vec::new();
    let mut disk: Vec<u8> = Vec::new();
    let mut p = FileProgress::new("f1".to_string());

    for chunk in [&b"HEL"[..], &b"LO"[..], &b" WORLD"[..]] {
        disk.extend_from_slice(chunk);
        assert!(p.record_chunk(chunk.len(), &mut outbox));
    }

    assert_eq!(p.bytes_received as usize, disk.len());
    assert_eq!(sum_for(&outbox, "f1"), disk.len());
    assert_eq!(outbox.len(), 3);
}

#[test]
fn progress_events_carry_the_chunk_sizes_in_order() {
    let mut outbox: Vec<ServerMessage> = Vec::new();
    let mut p = FileProgress::new("f9".to_string());
    assert!(p.record_chunk(16384, &mut outbox));
    assert!(p.record_chunk(512, &mut outbox));
    assert!(p.record_chunk(0, &mut outbox));
    let ns: Vec<usize> = outbox
        .iter()
        .map(|m| match m {
            ServerMessage::SendFileRequest(f, n) => {
                assert_eq!(f, "f9");
                *n
            },
            _ => panic!("only progress events are published"),
        })
        .collect();
    assert_eq!(ns, vec![16384, 512, 0]);
    assert_eq!(p.bytes_received, 16896);
}

#[test]
fn progress_for_other_files_does_not_mix() {
    let mut outbox: Vec<ServerMessage> = Vec::new();
    let mut p1 = FileProgress::new("f1".to_string());
    let mut p2 = FileProgress::new("f2".to_string());
    assert!(p1.record_chunk(5, &mut outbox));
    assert!(p2.record_chunk(7, &mut outbox));
    assert!(p1.record_chunk(11, &mut outbox));
    assert_eq!(sum_for(&outbox, "f1"), 16);
    assert_eq!(sum_for(&outbox, "f2"), 7);
    assert_eq!(p1.bytes_received, 16);
    assert_eq!(p2.bytes_received, 7);
}

use phantom_server::file_transfer::{
    check_accepted, download_base, offered_name, safe_name, service_mode_user_downloads,
    unique_name, unique_path, AcceptWait, DoneOutcome, DownloadBase, DownloadPlaces,
    FileSendEvent, FileSender, ServerFileTransfer, TransferMessage, CHUNK_SIZE,
};

/// The SHA-256 of `abcde`.
const ABCDE: [u8; 32] = [
    0x36, 0xbb, 0xe5, 0x0e, 0xd9, 0x68, 0x41, 0xd1,
    0x04, 0x43, 0xbc, 0xb6, 0x70, 0xd6, 0x55, 0x4f,
    0x0a, 0x34, 0xb7, 0x61, 0xbe, 0x67, 0xec, 0x9c,
    0x4a, 0x8a, 0xd2, 0xc0, 0xc4, 0x4c, 0xa4, 0x2c,
];

/// The SHA-256 of nothing.
const NOTHING: [u8; 32] = [
    0xe3, 0xb0, 0xc4, 0x42, 0x98, 0xfc, 0x1c, 0x14,
    0x9a, 0xfb, 0xf4, 0xc8, 0x99, 0x6f, 0xb9, 0x24,
    0x27, 0xae, 0x41, 0xe4, 0x64, 0x9b, 0x93, 0x4c,
    0xa4, 0x95, 0x99, 0x1b, 0x78, 0x52, 0xb8, 0x55,
];

#[test]
fn offered_paths_are_cut_down_to_a_name() {
    assert_eq!(offered_name("report.pdf", 7, false), "report.pdf");
    assert_eq!(offered_name("/etc/passwd", 7, false), "passwd");
    assert_eq!(offered_name("../../x", 7, false), "x");
    assert_eq!(offered_name("..", 7, false), "file_7");
    assert_eq!(offered_name("", 8, false), "file_8");
    assert_eq!(offered_name("/", 8, false), "file_8");
    assert_eq!(offered_name(".", 8, false), "file_8");
    assert_eq!(offered_name("a/b//", 8, false), "b");
    assert_eq!(offered_name("a/./.", 8, false), "a");
    assert_eq!(offered_name("a/..", 8, false), "file_8");
    assert_eq!(offered_name("a/...", 8, false), "...");
    assert_eq!(safe_name(Some("a".to_string()), 1, false), "a");
    assert_eq!(safe_name(None, 12, false), "file_12");
}

#[test]
fn names_that_leave_their_directory_are_replaced() {
    assert_eq!(safe_name(Some("a/b".to_string()), 4, false), "file_4");
    assert_eq!(safe_name(Some("..".to_string()), 4, false), "file_4");
    assert_eq!(safe_name(Some(".".to_string()), 4, false), "file_4");
    assert_eq!(safe_name(Some(String::new()), 4, false), "file_4");
    assert_eq!(safe_name(Some("a\\b:c".to_string()), 4, false), "a\\b:c");
    assert_eq!(offered_name("dir/c:x", 4, false), "c:x");
    assert_eq!(offered_name("dir/c:x", 4, true), "file_4");
    assert_eq!(offered_name("dir/cc:x", 4, true), "cc:x");
    assert_eq!(safe_name(Some("C:evil".to_string()), 4, true), "file_4");
    assert_eq!(safe_name(Some("C:evil".to_string()), 4, false), "C:evil");
    let transfers = ServerFileTransfer::new(true);
    let (temp, name) = transfers.offer_names("../../etc/passwd", 5);
    assert_eq!((temp.as_str(), name.as_str()), (".passwd.phantom_tmp", "passwd"));
}

#[test]
fn a_file_arrives_in_order() {
    let mut transfers = ServerFileTransfer::new(false);
    assert_eq!(
        transfers.on_file_offer(1, "a.txt", 5),
        TransferMessage::Accept { transfer_id: 1 }
    );
    let mut sender = FileSender::new(1);
    for part in [&b"abc"[..], &b"de"[..]] {
        let (next, chunk) = sender.send_file_chunk(part);
        sender = next;
        match chunk {
            Some(TransferMessage::Chunk { transfer_id, offset, data }) => {
                assert_eq!(transfers.check_chunk(transfer_id, offset), Ok(true));
                transfers.on_written(transfer_id, &data);
            }
            other => panic!("{other:?}"),
        }
    }
    let (sender, chunk) = sender.send_file_chunk(&[]);
    assert_eq!(chunk, None);
    assert_eq!(sender.offset(), 5);
    assert_eq!(
        sender.finish(),
        vec![
            FileSendEvent::Send(TransferMessage::Done { transfer_id: 1, sha256: ABCDE }),
            FileSendEvent::Done(1),
        ]
    );
    assert_eq!(
        transfers.on_file_done(1, &ABCDE, |_: &str| false),
        DoneOutcome::MoveInto {
            temp_name: ".a.txt.phantom_tmp".to_string(),
            final_name: "a.txt".to_string()
        }
    );
    assert_eq!(transfers.on_file_done(1, &ABCDE, |_: &str| false), DoneOutcome::Ignored);
}

#[test]
fn an_empty_file_has_no_chunk() {
    let (sender, chunk) = FileSender::new(4).send_file_chunk(&[]);
    assert_eq!(chunk, None);
    assert_eq!(
        sender.finish()[0],
        FileSendEvent::Send(TransferMessage::Done { transfer_id: 4, sha256: NOTHING })
    );
    let mut transfers = ServerFileTransfer::new(false);
    transfers.on_file_offer(4, "..", 0);
    assert_eq!(
        transfers.on_file_done(4, &NOTHING, |_: &str| false),
        DoneOutcome::MoveInto {
            temp_name: ".file_4.phantom_tmp".to_string(),
            final_name: "file_4".to_string()
        }
    );
    let whole = vec![7u8; CHUNK_SIZE];
    let (sender, chunk) = FileSender::new(5).send_file_chunk(&whole);
    assert_eq!(sender.offset(), CHUNK_SIZE as u64);
    assert_eq!(chunk, Some(TransferMessage::Chunk { transfer_id: 5, offset: 0, data: whole }));
}

#[test]
fn a_file_is_put_beside_what_is_there() {
    let mut transfers = ServerFileTransfer::new(false);
    transfers.on_file_offer(2, "/home/u/../a.txt", 5);
    transfers.on_written(2, b"abcde");
    let there = ["a.txt", "a (1).txt", "a (3).txt"];
    assert_eq!(
        transfers.on_file_done(2, &ABCDE, |name: &str| there.contains(&name)),
        DoneOutcome::MoveInto {
            temp_name: ".a.txt.phantom_tmp".to_string(),
            final_name: "a (2).txt".to_string()
        }
    );
    assert_eq!(unique_path("b", |_: &str| false), Some("b".to_string()));
    assert_eq!(unique_path("b", |name: &str| name == "b"), Some("b (1)".to_string()));
}

#[test]
fn gaps_and_wrong_hashes_are_refused() {
    let mut transfers = ServerFileTransfer::new(false);
    transfers.on_file_offer(9, "b", 10);
    transfers.on_written(9, b"abcd");
    assert_eq!(
        transfers.check_chunk(9, 5),
        Err("file chunk out of order: expected offset 4, got 5".to_string())
    );
    assert_eq!(transfers.check_chunk(9, 4), Ok(true));
    assert_eq!(transfers.check_chunk(8, 0), Ok(false));
    transfers.on_written(8, b"x");
    assert_eq!(
        transfers.on_file_done(9, &ABCDE, |_: &str| false),
        DoneOutcome::Discard {
            temp_name: ".b.phantom_tmp".to_string(),
            error: "SHA-256 mismatch for transfer 9".to_string()
        }
    );
    transfers.on_file_offer(3, "c", 1);
    assert_eq!(transfers.on_file_cancel(3), Some(".c.phantom_tmp".to_string()));
    assert_eq!(transfers.on_file_cancel(3), None);
}

#[test]
fn sending_waits_for_the_viewer() {
    let mut transfers = ServerFileTransfer::new(false);
    assert_eq!(
        transfers.initiate_send(5, "/home/u/x.bin", 3),
        TransferMessage::Offer { transfer_id: 5, name: "x.bin".to_string(), size: 3 }
    );
    assert_eq!(
        transfers.offer_file(6, None, 3),
        TransferMessage::Offer { transfer_id: 6, name: "file".to_string(), size: 3 }
    );
    assert!(transfers.on_file_accept(5));
    assert!(!transfers.on_file_accept(5));
    assert_eq!(check_accepted(AcceptWait::Accepted), Ok(()));
    assert_eq!(
        check_accepted(AcceptWait::TimedOut),
        Err("file offer not accepted within 30s".to_string())
    );
    assert_eq!(
        check_accepted(AcceptWait::LostBefore),
        Err("accept signal mutex poisoned".to_string())
    );
    assert_eq!(
        check_accepted(AcceptWait::LostDuring),
        Err("accept signal mutex poisoned during wait".to_string())
    );
}

#[test]
fn reports_of_senders_become_messages() {
    let messages = ServerFileTransfer::drain_send_events(vec![
        FileSendEvent::Send(TransferMessage::Accept { transfer_id: 1 }),
        FileSendEvent::Done(1),
        FileSendEvent::Error(2, "disk".to_string()),
    ]);
    assert_eq!(
        messages,
        vec![
            TransferMessage::Accept { transfer_id: 1 },
            TransferMessage::Cancel { transfer_id: 2, reason: "disk".to_string() }
        ]
    );
}

#[test]
fn taken_names_get_a_number() {
    assert_eq!(unique_name("a.tar.gz", 0), "a.tar.gz");
    assert_eq!(unique_name("a.tar.gz", 1), "a.tar (1).gz");
    assert_eq!(unique_name("a.tar.gz", 12), "a.tar (12).gz");
    assert_eq!(unique_name("plain", 2), "plain (2)");
    assert_eq!(unique_name(".profile", 1), ".profile (1)");
    assert_eq!(unique_name("dot.", 1), "dot (1).");
}

fn places() -> DownloadPlaces {
    DownloadPlaces {
        windows: true,
        home: Some("/home/u".to_string()),
        profile: Some(r"C:\Users\u".to_string()),
        console: Some(r"C:\Users\c\Downloads".to_string()),
        public_exists: true,
    }
}

#[test]
fn downloads_go_to_whoever_is_there() {
    let within = |s: &str| DownloadBase::Within(s.to_string());
    let exactly = |s: &str| DownloadBase::Exactly(s.to_string());
    assert_eq!(download_base(&places()), within(r"C:\Users\u"));
    let system = || Some(r"C:\Windows\system32\config\systemprofile".to_string());
    let service = DownloadPlaces { profile: system(), ..places() };
    assert_eq!(download_base(&service), exactly(r"C:\Users\c\Downloads"));
    let nobody = DownloadPlaces { profile: system(), console: None, ..places() };
    assert_eq!(download_base(&nobody), exactly(r"C:\Users\Public\Downloads"));
    let none = DownloadPlaces { profile: system(), console: None, public_exists: false, home: None, windows: true };
    assert_eq!(download_base(&none), within(r"C:\Windows\system32\config\systemprofile"));
    let linux = DownloadPlaces { windows: false, ..places() };
    assert_eq!(download_base(&linux), within("/home/u"));
    let bare = DownloadPlaces { windows: false, home: None, profile: None, ..places() };
    assert_eq!(download_base(&bare), within("/tmp"));
    assert_eq!(
        service_mode_user_downloads("eve"),
        Some(r"C:\Users\eve\Downloads".to_string())
    );
    assert_eq!(service_mode_user_downloads(""), None);
}

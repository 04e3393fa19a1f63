use vstd::prelude::*;
use crate::event::{
    fill_window, pid_of, process_id, thread_id, tid_of, uid_of, user_id, window, zeros,
    HookingFullEvent, DATA_LEN,
};
use crate::filter::{is_interesting_process, is_target};
use crate::store::{record_of, stored, CorrelationStore};

verus! {

/// Padding tag of the events reported for writes.
pub const WRITE_TAG: u8 = 1;

/// Padding tag of the events reported for reads.
pub const READ_TAG: u8 = 2;

/// What a probe learns of the task that triggered it.
pub struct TaskInfo {
    /// The kernel's `(tgid << 32) | pid` word.
    pub pid_tgid: u64,
    /// The kernel's `(gid << 32) | uid` word.
    pub uid_gid: u64,
    /// The command name, or `None` when it could not be read.
    pub comm: Option<[u8; 16]>,
}

/// A read to capture: the user buffer to copy from and how many bytes to copy.
#[derive(Clone, Copy, PartialEq, Eq, Structural, Debug)]
pub struct ReadCapture {
    pub addr: usize,
    pub len: usize,
}

/// Whether the task's command name was read and names a watched process.
pub open spec fn task_is_target(comm: Option<[u8; 16]>) -> bool {
    match comm {
        Some(c) => is_target(c@),
        None => false,
    }
}

/// `e` reports the task with identity words `uid_gid` and `pid_tgid` and command name
/// `comm`, with payload window `data`, tagged `tag`.
pub open spec fn is_event(
    e: HookingFullEvent,
    uid_gid: u64,
    pid_tgid: u64,
    comm: Seq<u8>,
    data: Seq<u8>,
    tag: u8,
) -> bool {
    &&& e.uid == uid_of(uid_gid)
    &&& e.pid == pid_of(pid_tgid)
    &&& e.comm@ == comm
    &&& e.data@ == data
    &&& e._pad@ == seq![tag, tag, tag]
}

/// Number of payload bytes captured for a read that returned `ret` bytes.
pub open spec fn capture_len(ret: int) -> int {
    if ret < DATA_LEN {
        ret
    } else {
        DATA_LEN as int
    }
}

/// What the return probe does, given the record it took for the thread, the command
/// name read at return and the read's result: capture only when a record was kept, the
/// process is watched and the read moved data.
pub open spec fn capture_plan(record: Option<usize>, comm: Option<[u8; 16]>, ret: int) -> Option<
    ReadCapture,
> {
    match record {
        Some(addr) => if task_is_target(comm) && ret > 0 {
            Some(ReadCapture { addr, len: capture_len(ret) as usize })
        } else {
            None
        },
        None => None,
    }
}

/// The event for a write by the task `task`: one with a zeroed payload when the task is
/// a watched process, none otherwise.
pub fn handle_vfs_write(task: &TaskInfo) -> (r: Option<HookingFullEvent>)
    ensures
        r is Some <==> task_is_target(task.comm),
        r matches Some(e) ==> is_event(
            e,
            task.uid_gid,
            task.pid_tgid,
            task.comm->0@,
            zeros(DATA_LEN as nat),
            WRITE_TAG,
        ),
{
    match task.comm {
        Some(comm) => {
            if !is_interesting_process(&comm) {
                return None;
            }
            let event = HookingFullEvent {
                uid: user_id(task.uid_gid),
                pid: process_id(task.pid_tgid),
                _pad: [WRITE_TAG, WRITE_TAG, WRITE_TAG],
                comm,
                data: [0u8; 64],
            };
            assert(event.data@ =~= zeros(DATA_LEN as nat));
            assert(event._pad@ =~= seq![WRITE_TAG, WRITE_TAG, WRITE_TAG]);
            Some(event)
        },
        None => None,
    }
}

/// The record that the entry probe of a read keeps: the calling thread and the
/// destination buffer, unless that buffer is null.
pub fn entry_record(pid_tgid: u64, buf_addr: usize) -> (r: Option<(u32, usize)>)
    ensures
        r == (if buf_addr != 0 {
            Some((tid_of(pid_tgid), buf_addr))
        } else {
            None
        }),
{
    if buf_addr != 0 {
        Some((thread_id(pid_tgid), buf_addr))
    } else {
        None
    }
}

/// Entry probe of a read: keeps the destination buffer for the calling thread, whatever
/// the process.
pub fn handle_read_enter(store: &mut CorrelationStore, pid_tgid: u64, buf_addr: usize)
    requires
        old(store).wf(),
    ensures
        final(store).wf(),
        final(store).capacity() == old(store).capacity(),
        final(store)@ == (if buf_addr != 0 {
            stored(old(store)@, old(store).capacity(), tid_of(pid_tgid), buf_addr)
        } else {
            old(store)@
        }),
{
    if let Some((tid, addr)) = entry_record(pid_tgid, buf_addr) {
        store.insert(tid, addr);
    }
}

/// Decides what the return probe of a read captures, from the record taken for the
/// thread, the command name read at return and the read's result.
pub fn plan_read_capture(record: Option<usize>, comm: Option<[u8; 16]>, ret: isize) -> (r: Option<
    ReadCapture,
>)
    ensures
        r == capture_plan(record, comm, ret as int),
        ret <= 0 ==> r is None,
        r matches Some(c) ==> c.len == capture_len(ret as int) && 0 < c.len <= DATA_LEN,
{
    let addr = match record {
        Some(a) => a,
        None => return None,
    };
    let name = match comm {
        Some(c) => c,
        None => return None,
    };
    if !is_interesting_process(&name) {
        return None;
    }
    if ret <= 0 {
        return None;
    }
    let len: usize = if ret < 64 {
        ret as usize
    } else {
        DATA_LEN
    };
    Some(ReadCapture { addr, len })
}

/// Return probe of a read: takes the thread's record out of the store, whatever follows,
/// and says what to capture.
pub fn handle_read_return(store: &mut CorrelationStore, task: &TaskInfo, ret: isize) -> (r:
    Option<ReadCapture>)
    requires
        old(store).wf(),
    ensures
        final(store).wf(),
        final(store).capacity() == old(store).capacity(),
        final(store)@ == old(store)@.remove(tid_of(task.pid_tgid)),
        r == capture_plan(record_of(old(store)@, tid_of(task.pid_tgid)), task.comm, ret as int),
        !old(store)@.contains_key(tid_of(task.pid_tgid)) ==> r is None && final(store)@ == old(
            store,
        )@,
{
    let tid = thread_id(task.pid_tgid);
    let record = store.take(tid);
    assert(!old(store)@.contains_key(tid) ==> old(store)@.remove(tid) =~= old(store)@);
    plan_read_capture(record, task.comm, ret)
}

/// The event for a read by the task with identity words `uid_gid` and `pid_tgid` and
/// command name `comm`, whose captured bytes are `captured`.
pub fn read_event(uid_gid: u64, pid_tgid: u64, comm: [u8; 16], captured: &[u8]) -> (r:
    HookingFullEvent)
    requires
        captured@.len() <= DATA_LEN,
    ensures
        is_event(r, uid_gid, pid_tgid, comm@, window(captured@), READ_TAG),
{
    let event = HookingFullEvent {
        uid: user_id(uid_gid),
        pid: process_id(pid_tgid),
        _pad: [READ_TAG, READ_TAG, READ_TAG],
        comm,
        data: fill_window(captured),
    };
    assert(event._pad@ =~= seq![READ_TAG, READ_TAG, READ_TAG]);
    event
}

/// A return on a thread takes exactly the address that the thread's last entry kept,
/// and leaves no record behind: a second return finds nothing. The address is kept
/// unless the store was full with no record for the thread, and then the return
/// finds nothing. For a watched process whose read moved data, that address is the
/// one captured from.
pub proof fn lemma_return_takes_entry_record(
    m: Map<u32, usize>,
    capacity: nat,
    pid_tgid: u64,
    buf_addr: usize,
    comm: Option<[u8; 16]>,
    ret: int,
)
    requires
        m.dom().finite(),
        m.len() <= capacity,
        buf_addr != 0,
    ensures
        ({
            let tid = tid_of(pid_tgid);
            let armed = stored(m, capacity, tid, buf_addr);
            let kept = m.contains_key(tid) || m.len() < capacity;
            &&& record_of(armed, tid) == (if kept {
                Some(buf_addr)
            } else {
                None
            })
            &&& !armed.remove(tid).contains_key(tid)
            &&& record_of(armed.remove(tid), tid) is None
            &&& (kept && task_is_target(comm) && ret > 0 ==> capture_plan(
                record_of(armed, tid),
                comm,
                ret,
            ) == Some(ReadCapture { addr: buf_addr, len: capture_len(ret) as usize }))
        }),
{
}

/// The payload of a read event holds the first `min(ret, 64)` bytes of the read, and
/// zero bytes after them.
pub proof fn lemma_read_payload_window(ret: int, captured: Seq<u8>)
    requires
        ret > 0,
        captured.len() == capture_len(ret),
    ensures
        window(captured).len() == DATA_LEN,
        window(captured).subrange(0, capture_len(ret)) == captured,
        forall|i: int| capture_len(ret) <= i < DATA_LEN ==> window(captured)[i] == 0,
{
    assert(window(captured).subrange(0, capture_len(ret)) =~= captured);
}

} // verus!

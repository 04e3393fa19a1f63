use vstd::prelude::*;

verus! {

/// Size of the payload window of an event.
pub const DATA_LEN: usize = 64;

/// The record handed to the user-space consumer. The fields keep the order of the wire
/// layout: `uid`, `pid`, three bytes of padding, the command name and the payload.
#[derive(Clone, Copy)]
pub struct HookingFullEvent {
    /// Effective user id of the observed process.
    pub uid: u32,
    /// Process id (thread group id) of the observed process.
    pub pid: u32,
    /// Layout padding. The producer fills it with a tag telling write events (1, 1, 1)
    /// from read events (2, 2, 2); consumers need not read it.
    pub _pad: [u8; 3],
    /// Command name of the observed process, null-terminated when shorter than 16 bytes.
    pub comm: [u8; 16],
    /// The first bytes moved by the observed operation, zero after them.
    pub data: [u8; 64],
}

/// The user id: the lower half of the kernel's `(gid << 32) | uid` word.
pub open spec fn uid_of(uid_gid: u64) -> u32 {
    (uid_gid % 0x1_0000_0000) as u32
}

/// The process id: the upper half of the kernel's `(tgid << 32) | pid` word.
pub open spec fn pid_of(pid_tgid: u64) -> u32 {
    (pid_tgid / 0x1_0000_0000) as u32
}

/// The thread id: the lower half of the kernel's `(tgid << 32) | pid` word.
pub open spec fn tid_of(pid_tgid: u64) -> u32 {
    (pid_tgid % 0x1_0000_0000) as u32
}

/// `n` zero bytes.
pub open spec fn zeros(n: nat) -> Seq<u8> {
    Seq::new(n, |i: int| 0u8)
}

/// The payload window holding `captured` and zero after it.
pub open spec fn window(captured: Seq<u8>) -> Seq<u8> {
    captured + zeros((DATA_LEN - captured.len()) as nat)
}

/// The user id of an identity word `(gid << 32) | uid`.
pub fn user_id(uid_gid: u64) -> (r: u32)
    ensures
        r == uid_of(uid_gid),
{
    (uid_gid % 0x1_0000_0000) as u32
}

/// The process id of an identity word `(tgid << 32) | pid`.
pub fn process_id(pid_tgid: u64) -> (r: u32)
    ensures
        r == pid_of(pid_tgid),
{
    (pid_tgid / 0x1_0000_0000) as u32
}

/// The thread id of an identity word `(tgid << 32) | pid`.
pub fn thread_id(pid_tgid: u64) -> (r: u32)
    ensures
        r == tid_of(pid_tgid),
{
    (pid_tgid % 0x1_0000_0000) as u32
}

/// The payload window for `captured`: its bytes first, zero after them.
pub fn fill_window(captured: &[u8]) -> (r: [u8; 64])
    requires
        captured@.len() <= DATA_LEN,
    ensures
        r@ == window(captured@),
{
    let mut data: [u8; 64] = [0u8; 64];
    let n = captured.len();
    let mut i: usize = 0;
    while i < n
        invariant
            n == captured@.len(),
            n <= 64,
            i <= n,
            data@.len() == 64,
            forall|j: int| 0 <= j < i ==> data@[j] == captured@[j],
            forall|j: int| i <= j < 64 ==> data@[j] == 0,
        decreases n - i,
    {
        data[i] = captured[i];
        i = i + 1;
    }
    assert(data@ =~= window(captured@));
    data
}

} // verus!

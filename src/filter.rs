use vstd::prelude::*;

verus! {

/// Size of a task's command-name buffer, terminator included.
pub const COMM_LEN: usize = 16;

/// Index of the first null byte of `comm` at or after `i`, or the length of `comm` when
/// there is none.
pub open spec fn name_end_from(comm: Seq<u8>, i: nat) -> nat
    decreases comm.len() - i,
{
    if i >= comm.len() {
        comm.len()
    } else if comm[i as int] == 0 {
        i
    } else {
        name_end_from(comm, i + 1)
    }
}

/// The name held in a command-name buffer: its bytes up to the first null, or all of
/// them when the name fills the buffer.
pub open spec fn name_of(comm: Seq<u8>) -> Seq<u8> {
    comm.subrange(0, name_end_from(comm, 0) as int)
}

/// "passwd"
pub open spec fn passwd_name() -> Seq<u8> {
    seq![112u8, 97u8, 115u8, 115u8, 119u8, 100u8]
}

/// "sudo"
pub open spec fn sudo_name() -> Seq<u8> {
    seq![115u8, 117u8, 100u8, 111u8]
}

/// The compiled-in names of the processes that are watched.
pub open spec fn target_names() -> Seq<Seq<u8>> {
    seq![passwd_name(), sudo_name()]
}

/// A command name belongs to a watched process when the name it holds is one of the
/// targets, byte for byte.
pub open spec fn is_target(comm: Seq<u8>) -> bool {
    target_names().contains(name_of(comm))
}

/// The byte test made against one target: the target's bytes open `comm`, and are
/// followed by a null byte or by the end of `comm`.
pub open spec fn matches_target(comm: Seq<u8>, t: Seq<u8>) -> bool {
    &&& t.len() <= comm.len()
    &&& comm.subrange(0, t.len() as int) == t
    &&& (t.len() == comm.len() || comm[t.len() as int] == 0)
}

proof fn lemma_name_end_from(comm: Seq<u8>, i: nat)
    requires
        i <= comm.len(),
    ensures
        i <= name_end_from(comm, i) <= comm.len(),
        forall|j: int| i <= j < name_end_from(comm, i) ==> comm[j] != 0,
        name_end_from(comm, i) == comm.len() || comm[name_end_from(comm, i) as int] == 0,
    decreases comm.len() - i,
{
    if i < comm.len() && comm[i as int] != 0 {
        lemma_name_end_from(comm, i + 1);
    }
}

/// The end of the held name is the one position that is a null byte or the end, with
/// no null byte before it.
proof fn lemma_name_end_unique(comm: Seq<u8>, k: nat)
    requires
        k <= comm.len(),
        forall|j: int| 0 <= j < k ==> comm[j] != 0,
        k == comm.len() || comm[k as int] == 0,
    ensures
        name_end_from(comm, 0) == k,
{
    lemma_name_end_from(comm, 0);
    let e = name_end_from(comm, 0);
    if e < k {
        assert(comm[e as int] == 0);
    } else if k < e {
        assert(comm[k as int] != 0);
    }
}

/// For a target without null bytes, the byte test against it holds exactly when the
/// name held in `comm` is that target: the match is anchored at the start and no
/// longer name that begins with the target passes.
pub proof fn lemma_target_test_is_name_equality(comm: Seq<u8>, t: Seq<u8>)
    requires
        forall|j: int| 0 <= j < t.len() ==> t[j] != 0,
    ensures
        matches_target(comm, t) <==> name_of(comm) == t,
{
    lemma_name_end_from(comm, 0);
    if matches_target(comm, t) {
        assert forall|j: int| 0 <= j < t.len() implies comm[j] != 0 by {
            assert(comm.subrange(0, t.len() as int)[j] == t[j]);
        }
        lemma_name_end_unique(comm, t.len());
    }
    if name_of(comm) == t {
        assert(t.len() == name_end_from(comm, 0));
    }
}

/// Whether `t` passes the byte test against `comm`.
fn matches_name(comm: &[u8; 16], t: &[u8]) -> (r: bool)
    requires
        t@.len() <= COMM_LEN,
    ensures
        r == matches_target(comm@, t@),
{
    let t_len = t.len();
    let mut i: usize = 0;
    while i < t_len
        invariant
            t_len == t@.len(),
            t_len <= 16,
            i <= t_len,
            forall|j: int| 0 <= j < i ==> comm@[j] == t@[j],
        decreases t_len - i,
    {
        if comm[i] != t[i] {
            assert(comm@.subrange(0, t_len as int)[i as int] != t@[i as int]);
            return false;
        }
        i = i + 1;
    }
    assert(comm@.subrange(0, t_len as int) =~= t@);
    t_len == COMM_LEN || comm[t_len] == 0
}

/// Whether the command name `comm` belongs to one of the watched processes.
pub fn is_interesting_process(comm: &[u8; 16]) -> (r: bool)
    ensures
        r == is_target(comm@),
{
    let passwd: [u8; 6] = [112, 97, 115, 115, 119, 100];
    let sudo: [u8; 4] = [115, 117, 100, 111];
    assert(passwd@ =~= passwd_name());
    assert(sudo@ =~= sudo_name());
    proof {
        lemma_target_test_is_name_equality(comm@, passwd_name());
        lemma_target_test_is_name_equality(comm@, sudo_name());
        assert(target_names()[0] == passwd_name());
        assert(target_names()[1] == sudo_name());
        if is_target(comm@) {
            let k = choose|k: int| 0 <= k < 2 && target_names()[k] == name_of(comm@);
            assert(k == 0 || k == 1);
        }
    }
    matches_name(comm, passwd.as_slice()) || matches_name(comm, sudo.as_slice())
}

} // verus!

//! Threads: the records a thread snapshot yields and the thread handle type.
use vstd::prelude::*;
use crate::error::Result;
use crate::windows::handles::Handle;

verus! {

broadcast use vstd::seq_lib::group_seq_properties;

/// Basic information about a thread, as a thread snapshot reports it.
#[derive(Debug, Clone, Copy)]
pub struct ThreadInfo {
    /// Thread ID.
    pub thread_id: u32,
    /// Owning process ID.
    pub process_id: u32,
    /// Base priority reported by the snapshot.
    pub base_priority: i32,
}

/// The thread belongs to the process `pid`.
pub open spec fn owned_by(pid: u32) -> spec_fn(ThreadInfo) -> bool {
    |t: ThreadInfo| t.process_id == pid
}

/// The snapshot records of the threads that belong to process `pid`, in
/// snapshot order.
pub fn threads_of_process(entries: Vec<ThreadInfo>, pid: u32) -> (r: Vec<ThreadInfo>)
    ensures
        r@ == entries@.filter(owned_by(pid)),
{
    let ghost orig = entries@;
    let mut out: Vec<ThreadInfo> = Vec::new();
    let mut i: usize = 0;
    let n = entries.len();
    proof {
        reveal(Seq::filter);
        assert(orig.take(0) =~= Seq::<ThreadInfo>::empty());
    }
    while i < n
        invariant
            n == orig.len(),
            orig == entries@,
            i <= n,
            out@ == orig.take(i as int).filter(owned_by(pid)),
        decreases n - i,
    {
        let t = entries[i];
        proof {
            assert(orig.take(i + 1) == orig.take(i as int).push(orig[i as int]));
            orig.take(i as int).lemma_filter_push(orig[i as int], owned_by(pid));
        }
        if t.process_id == pid {
            out.push(t);
        }
        i = i + 1;
    }
    proof {
        assert(orig.take(n as int) == orig);
    }
    out
}

/// Every thread listed for a process belongs to it, and every thread of the
/// snapshot that belongs to it is listed.
pub proof fn lemma_threads_of_process_exact(entries: Seq<ThreadInfo>, pid: u32, t: ThreadInfo)
    ensures
        entries.filter(owned_by(pid)).contains(t) <==> (entries.contains(t) && t.process_id == pid),
{
    let pred = owned_by(pid);
    if entries.filter(pred).contains(t) {
        entries.lemma_filter_contains_rev(pred, t);
        let i = choose|i: int| 0 <= i < entries.filter(pred).len() && entries.filter(pred)[i] == t;
        entries.lemma_filter_pred(pred, i);
    }
    if entries.contains(t) && t.process_id == pid {
        let i = choose|i: int| 0 <= i < entries.len() && entries[i] == t;
        entries.lemma_filter_contains(pred, i);
    }
}

/// The IDs of the threads in `threads`, in order.
pub fn thread_ids(threads: &Vec<ThreadInfo>) -> (ids: Vec<u32>)
    ensures
        ids@ == threads@.map_values(|t: ThreadInfo| t.thread_id),
{
    let mut ids: Vec<u32> = Vec::new();
    let mut i: usize = 0;
    while i < threads.len()
        invariant
            i <= threads@.len(),
            ids@ == threads@.take(i as int).map_values(|t: ThreadInfo| t.thread_id),
        decreases threads@.len() - i,
    {
        ids.push(threads[i].thread_id);
        i = i + 1;
        assert(ids@ =~= threads@.take(i as int).map_values(|t: ThreadInfo| t.thread_id));
    }
    assert(threads@.take(threads@.len() as int) == threads@);
    ids
}

/// The pseudo-handle by which a thread names itself (`GetCurrentThread`).
pub const CURRENT_THREAD_HANDLE: isize = -2;

/// A thread and the handle through which it is reached.
#[derive(Debug)]
pub struct Thread {
    handle: Option<Handle>,
}

impl Thread {
    /// Obtain a value for the calling thread, holding the pseudo-handle that
    /// stands for it.
    pub fn current() -> (r: Result<Self>)
        ensures
            r matches Ok(t) && t.handle_view() == Some(CURRENT_THREAD_HANDLE),
    {
        Ok(Thread { handle: Some(Handle::from_raw(CURRENT_THREAD_HANDLE)) })
    }

    /// The handle the thread holds, if any.
    pub closed spec fn handle_view(&self) -> Option<isize> {
        match self.handle {
            Some(h) => Some(h@),
            None => None,
        }
    }

    /// Access the underlying handle, if any.
    pub fn handle(&self) -> (h: Option<&Handle>)
        ensures
            h is Some == self.handle_view() is Some,
            h matches Some(x) ==> self.handle_view() == Some(x@),
    {
        match &self.handle {
            Some(h) => Some(h),
            None => None,
        }
    }
}

} // verus!

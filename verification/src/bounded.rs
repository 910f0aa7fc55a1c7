//! Fixed-capacity collections backed by `heapless`.
//!
//! Every steady-state producer in this engine runs in interrupt context and
//! must never block or allocate, so all storage is fixed at build time and
//! overflow is absorbed by refusing the new element.

use vstd::prelude::*;

verus! {

/// How many timestamps one track's lap history can hold.
pub const HISTORY_CAPACITY: usize = 256;

/// How many pending telemetry reports the report queue can hold.
pub const QUEUE_CAPACITY: usize = 32;

/// Bytes in one telemetry report.
pub const REPORT_SIZE: usize = 8;

/// The elements a `BoundedVec` holds, in order of insertion.
pub uninterp spec fn bounded_vec_seq(v: BoundedVec) -> Seq<u64>;

/// The reports a `ReportQueue` holds, front first.
pub uninterp spec fn report_queue_seq(q: ReportQueue) -> Seq<Seq<u8>>;

/// A fixed-capacity vector of `u64`, holding at most `HISTORY_CAPACITY`
/// elements. Backed by `heapless::Vec`, which never allocates.
#[verifier::external_body]
pub struct BoundedVec {
    inner: heapless::Vec<u64, 256>,
}

impl View for BoundedVec {
    type V = Seq<u64>;

    open spec fn view(&self) -> Seq<u64> {
        bounded_vec_seq(*self)
    }
}

impl BoundedVec {
    /// Relies on `heapless::Vec::new`: an empty vector.
    #[verifier::external_body]
    pub fn new() -> (r: BoundedVec)
        ensures
            bounded_vec_seq(r) == Seq::<u64>::empty(),
    {
        BoundedVec { inner: heapless::Vec::new() }
    }

    /// Relies on `heapless::Vec::len`.
    #[verifier::external_body]
    pub fn len(&self) -> (r: usize)
        ensures
            r == bounded_vec_seq(*self).len(),
    {
        self.inner.len()
    }

    /// Relies on slice indexing through `heapless::Vec::as_slice`.
    #[verifier::external_body]
    pub fn get(&self, i: usize) -> (r: Option<u64>)
        ensures
            i < bounded_vec_seq(*self).len() ==> r == Some(bounded_vec_seq(*self)[i as int]),
            i >= bounded_vec_seq(*self).len() ==> r is None,
    {
        self.inner.as_slice().get(i).copied()
    }

    /// Relies on `heapless::Vec::push`: appends when below capacity and
    /// hands the element back (here: reports `false`) when full.
    #[verifier::external_body]
    pub fn push(&mut self, x: u64) -> (r: bool)
        ensures
            bounded_vec_seq(*old(self)).len() < HISTORY_CAPACITY ==> r
                && bounded_vec_seq(*final(self)) == bounded_vec_seq(*old(self)).push(x),
            bounded_vec_seq(*old(self)).len() >= HISTORY_CAPACITY ==> !r
                && bounded_vec_seq(*final(self)) == bounded_vec_seq(*old(self)),
    {
        self.inner.push(x).is_ok()
    }

    /// Relies on `heapless::Vec::clear`.
    #[verifier::external_body]
    pub fn clear(&mut self)
        ensures
            bounded_vec_seq(*final(self)) == Seq::<u64>::empty(),
    {
        self.inner.clear()
    }
}

/// A fixed-capacity double-ended queue of telemetry reports, holding at most
/// `QUEUE_CAPACITY` entries. Backed by `heapless::Deque`, which never
/// allocates.
#[verifier::external_body]
pub struct ReportQueue {
    inner: heapless::Deque<[u8; 8], 32>,
}

impl View for ReportQueue {
    type V = Seq<Seq<u8>>;

    open spec fn view(&self) -> Seq<Seq<u8>> {
        report_queue_seq(*self)
    }
}

impl ReportQueue {
    /// Relies on `heapless::Deque::new`: an empty deque.
    #[verifier::external_body]
    pub fn new() -> (r: ReportQueue)
        ensures
            report_queue_seq(r) == Seq::<Seq<u8>>::empty(),
    {
        ReportQueue { inner: heapless::Deque::new() }
    }

    /// Relies on `heapless::Deque::len`.
    #[verifier::external_body]
    pub fn len(&self) -> (r: usize)
        ensures
            r == report_queue_seq(*self).len(),
    {
        self.inner.len()
    }

    /// Relies on `heapless::Deque::push_front`: prepends when below capacity
    /// and hands the element back (here: reports `false`) when full.
    #[verifier::external_body]
    pub fn push_front(&mut self, report: [u8; 8]) -> (r: bool)
        ensures
            report_queue_seq(*old(self)).len() < QUEUE_CAPACITY ==> r
                && report_queue_seq(*final(self)) == report_queue_seq(*old(self)).insert(0, report@),
            report_queue_seq(*old(self)).len() >= QUEUE_CAPACITY ==> !r
                && report_queue_seq(*final(self)) == report_queue_seq(*old(self)),
    {
        self.inner.push_front(report).is_ok()
    }

    /// Relies on `heapless::Deque::pop_back`: removes and returns the back
    /// element, or `None` when empty.
    #[verifier::external_body]
    pub fn pop_back(&mut self) -> (r: Option<[u8; 8]>)
        ensures
            report_queue_seq(*old(self)).len() == 0 ==> r is None
                && report_queue_seq(*final(self)) == report_queue_seq(*old(self)),
            report_queue_seq(*old(self)).len() > 0 ==> (r matches Some(x)
                && x@ == report_queue_seq(*old(self)).last()
                && report_queue_seq(*final(self)) == report_queue_seq(*old(self)).drop_last()),
    {
        self.inner.pop_back()
    }

    /// Relies on `heapless::Deque::clear`.
    #[verifier::external_body]
    pub fn clear(&mut self)
        ensures
            report_queue_seq(*final(self)) == Seq::<Seq<u8>>::empty(),
    {
        self.inner.clear()
    }
}

} // verus!

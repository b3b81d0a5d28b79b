//! Serialization of one physical two-wire bus between two logical owners.
//!
//! One physical bus is wrapped by an arbiter that hands out logical handles,
//! one per device driver. A transaction — a bounded sequence of addressed
//! byte transfers — issued through any handle runs to completion on the
//! physical bus before the next transaction may begin, so transfers from
//! different handles never interleave at the byte level.
//!
//! The physical bus here is a recording one: it logs every byte transfer it
//! carries, which is exactly what the serialization property speaks about.
//! The recording bus acknowledges every transfer; on real hardware a
//! transaction can instead fail with a [`BusError`], which the control loop
//! treats as fatal.

use vstd::prelude::*;

verus! {

/// Direction of one byte transfer on the bus.
#[derive(Clone, Copy, PartialEq, Eq, Structural, Debug)]
pub enum BusDir {
    Write,
    Read,
}

/// One byte transfer: a device address, a direction and the data byte.
#[derive(Clone, Copy, PartialEq, Eq, Structural, Debug)]
pub struct BusByte {
    pub addr: u8,
    pub dir: BusDir,
    pub byte: u8,
}

/// A transaction-level bus failure: the device did not acknowledge, the
/// transfer timed out, or bus arbitration was lost.
#[derive(Clone, Copy, PartialEq, Eq, Structural, Debug)]
pub enum BusError {
    Nack,
    Timeout,
    ArbitrationFault,
}

/// The byte-level traffic that a sequence of whole transactions puts on
/// the physical bus: each transaction's bytes in order, back to back.
pub open spec fn flatten_txns(txns: Seq<Seq<BusByte>>) -> Seq<BusByte>
    decreases txns.len(),
{
    if txns.len() == 0 {
        Seq::empty()
    } else {
        txns.first() + flatten_txns(txns.drop_first())
    }
}

/// Where transaction `i` begins in the byte-level traffic: the total length
/// of the transactions before it.
pub open spec fn txn_start(txns: Seq<Seq<BusByte>>, i: int) -> int
    decreases i,
{
    if i <= 0 {
        0
    } else {
        txns.first().len() + txn_start(txns.drop_first(), i - 1)
    }
}

/// Every transaction appears contiguous and uninterrupted in the byte-level
/// traffic: the log slice starting where transaction `i` begins is exactly
/// transaction `i`.
pub proof fn lemma_transaction_contiguous(txns: Seq<Seq<BusByte>>, i: int)
    requires
        0 <= i < txns.len(),
    ensures
        0 <= txn_start(txns, i),
        txn_start(txns, i) + txns[i].len() <= flatten_txns(txns).len(),
        flatten_txns(txns).subrange(
            txn_start(txns, i),
            txn_start(txns, i) + txns[i].len() as int,
        ) == txns[i],
    decreases i,
{
    let head = txns.first();
    let rest = txns.drop_first();
    if i == 0 {
        assert(flatten_txns(txns).subrange(0, head.len() as int) =~= head);
    } else {
        lemma_transaction_contiguous(rest, i - 1);
        let st = txn_start(rest, i - 1);
        assert(rest[i - 1] == txns[i]);
        assert(flatten_txns(txns).subrange(
            head.len() + st,
            head.len() + st + txns[i].len() as int,
        ) =~= flatten_txns(rest).subrange(st, st + txns[i].len() as int));
    }
}

/// A logical handle over the shared bus, held by one device driver.
#[derive(Clone, Copy, PartialEq, Eq, Structural, Debug)]
pub struct BusHandle {
    pub id: u8,
}

/// Wraps the one physical bus and serializes transactions issued through
/// the logical handles it hands out.
pub struct BusArbiter {
    log: Vec<BusByte>,
    txns: Ghost<Seq<Seq<BusByte>>>,
    issuers: Ghost<Seq<u8>>,
}

impl BusArbiter {
    /// The whole transactions completed so far, in order.
    pub closed spec fn transactions(self) -> Seq<Seq<BusByte>> {
        self.txns@
    }

    /// Which handle issued each completed transaction.
    pub closed spec fn issuers(self) -> Seq<u8> {
        self.issuers@
    }

    /// The byte-level traffic the physical bus has carried.
    pub closed spec fn bus_log(self) -> Seq<BusByte> {
        self.log@
    }

    /// The physical bus has carried exactly the completed transactions,
    /// back to back: no transaction's bytes interleave with another's.
    pub open spec fn wf(self) -> bool {
        &&& self.bus_log() == flatten_txns(self.transactions())
        &&& self.issuers().len() == self.transactions().len()
    }

    /// The byte-level traffic the physical bus has carried, as recorded.
    pub fn recorded(&self) -> (r: &Vec<BusByte>)
        ensures
            r@ == self.bus_log(),
    {
        &self.log
    }

    /// Takes ownership of the physical bus and hands out the two logical
    /// handles, one for the display driver and one for the accelerometer.
    pub fn new() -> (r: (BusArbiter, BusHandle, BusHandle))
        ensures
            r.0.wf(),
            r.0.transactions() == Seq::<Seq<BusByte>>::empty(),
            r.0.bus_log() == Seq::<BusByte>::empty(),
            r.1.id != r.2.id,
    {
        let arbiter = BusArbiter {
            log: Vec::new(),
            txns: Ghost(Seq::empty()),
            issuers: Ghost(Seq::empty()),
        };
        (arbiter, BusHandle { id: 0 }, BusHandle { id: 1 })
    }

    /// Runs one whole transaction on the physical bus on behalf of the
    /// given handle. The transaction's bytes reach the bus in order and
    /// without interruption: the traffic afterwards is the traffic before
    /// followed by exactly these bytes.
    pub fn transact(&mut self, handle: &BusHandle, ops: &Vec<BusByte>)
        requires
            old(self).wf(),
        ensures
            final(self).wf(),
            final(self).transactions() == old(self).transactions().push(ops@),
            final(self).issuers() == old(self).issuers().push(handle.id),
            final(self).bus_log() == old(self).bus_log() + ops@,
    {
        let mut k: usize = 0;
        while k < ops.len()
            invariant
                k <= ops.len(),
                self.log@ == old(self).log@ + ops@.take(k as int),
                self.txns == old(self).txns,
                self.issuers == old(self).issuers,
            decreases ops.len() - k,
        {
            self.log.push(ops[k]);
            assert(self.log@ =~= old(self).log@ + ops@.take(k as int + 1));
            k = k + 1;
        }
        assert(self.log@ =~= old(self).log@ + ops@);
        proof {
            self.txns@ = self.txns@.push(ops@);
            self.issuers@ = self.issuers@.push(handle.id);
            lemma_flatten_txns_push(old(self).txns@, ops@);
        }
    }
}

/// Completing one more transaction appends exactly its bytes to the
/// byte-level traffic.
pub proof fn lemma_flatten_txns_push(txns: Seq<Seq<BusByte>>, ops: Seq<BusByte>)
    ensures
        flatten_txns(txns.push(ops)) == flatten_txns(txns) + ops,
    decreases txns.len(),
{
    if txns.len() == 0 {
        assert(txns.push(ops).drop_first() =~= Seq::<Seq<BusByte>>::empty());
        assert(flatten_txns(Seq::<Seq<BusByte>>::empty()) == Seq::<BusByte>::empty());
        assert(txns.push(ops).first() == ops);
        assert(flatten_txns(txns.push(ops)) =~= flatten_txns(txns) + ops);
    } else {
        assert(txns.push(ops).first() == txns.first());
        assert(txns.push(ops).drop_first() =~= txns.drop_first().push(ops));
        lemma_flatten_txns_push(txns.drop_first(), ops);
        assert(flatten_txns(txns.push(ops)) == txns.first() + flatten_txns(
            txns.drop_first().push(ops),
        ));
        assert(flatten_txns(txns.push(ops)) =~= flatten_txns(txns) + ops);
    }
}

} // verus!

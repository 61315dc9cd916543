//! A scripted, recording bus transport.
//!
//! [`ScriptedBus`] answers write-read transactions from a fixed script and
//! records every completed transaction with its concrete bytes, so a test
//! can play a device's role and afterwards inspect exactly what the driver
//! put on the wire.

use vstd::prelude::*;

use crate::bus::BusOp;
use crate::bus::BusTransport;

verus! {

/// One recorded transaction, with concrete byte buffers.
#[derive(Debug, PartialEq, Eq)]
pub enum Transaction {
    /// `data` was sent to the device at `addr`.
    Write { addr: u8, data: Vec<u8> },
    /// `data` was sent to the device at `addr`, which answered `resp`.
    WriteRead { addr: u8, data: Vec<u8>, resp: Vec<u8> },
}

impl Transaction {
    /// The ghost history entry this record stands for.
    pub open spec fn op(self) -> BusOp {
        match self {
            Transaction::Write { addr, data } => BusOp::Write { addr, data: data@ },
            Transaction::WriteRead { addr, data, resp } => BusOp::WriteRead {
                addr,
                data: data@,
                resp: resp@,
            },
        }
    }
}

/// What the scripted device does with the next write-read transaction.
#[derive(Debug, PartialEq, Eq)]
pub enum ScriptStep {
    /// Answer with exactly these bytes.
    Reply(Vec<u8>),
    /// Fail the transaction at the bus level.
    Fail,
}

/// The error a scripted transport surfaces: the script ran out, scripted a
/// failure, or replied with a different number of bytes than the
/// transaction asked to read.
#[derive(Debug, PartialEq, Eq)]
pub struct ScriptError;

/// A bus transport that records every completed transaction and answers
/// write-read transactions from a fixed script, in order. Plain writes
/// always succeed and consume no script step; a write-read consumes the
/// next step and fails if the script is exhausted, the step is
/// [`ScriptStep::Fail`], or the scripted reply does not have the requested
/// length. A failed transaction is not recorded.
pub struct ScriptedBus {
    replies: Vec<ScriptStep>,
    log: Vec<Transaction>,
}

impl ScriptedBus {
    /// The script steps not yet consumed, next one first.
    pub closed spec fn pending(&self) -> Seq<ScriptStep> {
        self.replies@.reverse()
    }

    /// Build a transport that will answer its write-read transactions with
    /// `script`, first step first, starting with an empty history.
    pub fn new(script: Vec<ScriptStep>) -> (r: ScriptedBus)
        ensures
            r.pending() == script@,
            r.history() == Seq::<BusOp>::empty(),
    {
        let ghost orig = script@;
        let mut rest = script;
        let mut replies: Vec<ScriptStep> = Vec::new();
        while rest.len() > 0
            invariant
                orig == rest@ + replies@.reverse(),
            decreases rest@.len(),
        {
            let ghost rest_before = rest@;
            let ghost replies_before = replies@;
            let step = rest.pop().unwrap();
            replies.push(step);
            proof {
                assert(rest@ + replies@.reverse() =~= rest_before + replies_before.reverse());
            }
        }
        let r = ScriptedBus { replies, log: Vec::new() };
        proof {
            assert(r.pending() =~= orig);
            assert(r.history() =~= Seq::<BusOp>::empty());
        }
        r
    }

    /// The transactions completed so far, oldest first.
    pub fn transactions(&self) -> (r: &Vec<Transaction>)
        ensures
            r@.map_values(|t: Transaction| t.op()) == self.history(),
    {
        &self.log
    }
}

impl BusTransport for ScriptedBus {
    type BusError = ScriptError;

    /// The recorded transactions, as history entries.
    closed spec fn history(&self) -> Seq<BusOp> {
        self.log@.map_values(|t: Transaction| t.op())
    }

    /// Record the write; plain writes always succeed and consume no script
    /// step.
    fn transmit(&mut self, addr: u8, data: &[u8]) -> (r: Result<(), ScriptError>)
        ensures
            r is Ok,
            final(self).pending() == old(self).pending(),
    {
        let recorded = Transaction::Write { addr, data: vstd::slice::slice_to_vec(data) };
        self.log.push(recorded);
        proof {
            assert(self.history() =~= old(self).history().push(
                (BusOp::Write { addr, data: data@ }),
            ));
        }
        Ok(())
    }

    /// Consume the next script step: a `Reply` of the requested length is
    /// the recorded answer; anything else fails the transaction without
    /// recording it.
    fn transmit_receive(&mut self, addr: u8, data: &[u8], read_len: usize) -> (r: Result<
        Vec<u8>,
        ScriptError,
    >)
        ensures
            old(self).pending().len() == 0 ==> r is Err && final(self).pending() == old(
                self,
            ).pending(),
            old(self).pending().len() > 0 ==> final(self).pending() == old(
                self,
            ).pending().drop_first() && (match old(self).pending()[0] {
                ScriptStep::Fail => r is Err,
                ScriptStep::Reply(v) => if v@.len() == read_len {
                    r matches Ok(resp) && resp@ == v@
                } else {
                    r is Err
                },
            }),
    {
        let ghost pending_before = self.pending();
        let step = match self.replies.pop() {
            Some(s) => s,
            None => {
                return Err(ScriptError);
            },
        };
        proof {
            assert(step == pending_before[0]);
            assert(self.pending() =~= pending_before.drop_first());
        }
        match step {
            ScriptStep::Fail => Err(ScriptError),
            ScriptStep::Reply(v) => {
                if v.len() != read_len {
                    Err(ScriptError)
                } else {
                    let recorded = Transaction::WriteRead {
                        addr,
                        data: vstd::slice::slice_to_vec(data),
                        resp: vstd::slice::slice_to_vec(v.as_slice()),
                    };
                    self.log.push(recorded);
                    proof {
                        assert(self.history() =~= old(self).history().push(
                            (BusOp::WriteRead { addr, data: data@, resp: v@ }),
                        ));
                    }
                    Ok(v)
                }
            },
        }
    }
}

} // verus!

//! The owned result of an A lookup and its two address cursors: a borrowing
//! one, and an owning one that keeps the record alive for as long as the
//! traversal needs it.

use vstd::prelude::*;
use crate::addr::Ipv4Addr;
use crate::error::AresError;
use crate::wire;

verus! {

/// The result of a successful lookup for an A record: the queried hostname
/// and the IPv4 addresses of the answer, exclusively owned. Everything the
/// record holds is released together when it is dropped.
#[derive(Debug)]
pub struct AResults {
    hostname: String,
    addrs: Vec<Ipv4Addr>,
}

impl AResults {
    /// The hostname this record carries.
    pub closed spec fn hostname_spec(&self) -> Seq<char> {
        self.hostname@
    }

    /// The record's addresses, in the order the answer listed them.
    pub closed spec fn addrs_spec(&self) -> Seq<Ipv4Addr> {
        self.addrs@
    }

    /// Obtain an `AResults` from the response to an A lookup. Returns
    /// exactly what [`wire::spec_parse`] states for the buffer: the record
    /// on a well-formed response, the error of the first structural fault
    /// otherwise.
    pub fn parse_from(data: &[u8]) -> (r: Result<AResults, AresError>)
        ensures
            match wire::spec_parse(data@) {
                Ok(p) => r matches Ok(rec) && rec.hostname_spec() == p.0 && rec.addrs_spec()
                    == p.1,
                Err(e) => r == Err::<AResults, AresError>(e),
            },
    {
        match wire::parse_reply(data) {
            Err(e) => Err(e),
            Ok(p) => Ok(AResults { hostname: p.0, addrs: p.1 }),
        }
    }

    /// Get the hostname from this `AResults`.
    pub fn hostname(&self) -> (r: &str)
        ensures
            r@ == self.hostname_spec(),
    {
        self.hostname.as_str()
    }

    /// Returns a borrowing cursor over the `Ipv4Addr` values in this
    /// `AResults`, positioned at the first address. Takes `&self`: obtaining
    /// a cursor never changes the record, so repeated calls always start
    /// from the same full sequence.
    pub fn iter(&self) -> (it: AResultsIterator)
        ensures
            it.wf(),
            it.remaining() == self.addrs_spec(),
    {
        AResultsIterator { record: self, pos: 0 }
    }

    /// Consumes the record into an owning cursor: the record lives exactly
    /// as long as the cursor, so every yielded address stays backed by live
    /// data.
    pub fn into_iter(self) -> (it: AResultsIntoIterator)
        ensures
            it.wf(),
            it.remaining() == self.addrs_spec(),
            it.hostname_spec() == self.hostname_spec(),
    {
        AResultsIntoIterator { record: self, pos: 0 }
    }
}

/// A read-only cursor into a borrowed record's address list: finite,
/// forward-only, restartable only by asking the record for a fresh cursor.
pub struct AResultsIterator<'a> {
    record: &'a AResults,
    pos: usize,
}

impl<'a> AResultsIterator<'a> {
    /// The cursor never stands past the end of the address list.
    pub closed spec fn wf(&self) -> bool {
        self.pos <= self.record.addrs@.len()
    }

    /// The addresses this cursor has not yet yielded, in order.
    pub closed spec fn remaining(&self) -> Seq<Ipv4Addr> {
        self.record.addrs@.skip(self.pos as int)
    }

    /// Yields the next address and advances, or reports exhaustion;
    /// exhaustion is terminal: once `None`, every later call is `None`.
    pub fn next(&mut self) -> (r: Option<Ipv4Addr>)
        requires
            old(self).wf(),
        ensures
            final(self).wf(),
            old(self).remaining().len() > 0 ==> r == Some(old(self).remaining()[0])
                && final(self).remaining() == old(self).remaining().skip(1),
            old(self).remaining().len() == 0 ==> r is None && *final(self) == *old(self),
    {
        if self.pos < self.record.addrs.len() {
            let a = self.record.addrs[self.pos];
            self.pos = self.pos + 1;
            proof {
                assert(old(self).remaining().skip(1) =~= self.record.addrs@.skip(
                    self.pos as int,
                ));
            }
            Some(a)
        } else {
            None
        }
    }

    /// Drains the cursor, returning every remaining address in order: a full
    /// traversal yields exactly the remaining sequence, nothing else.
    pub fn collect_remaining(self) -> (v: Vec<Ipv4Addr>)
        requires
            self.wf(),
        ensures
            v@ == self.remaining(),
    {
        let ghost orig = self.remaining();
        let mut cur = self;
        let mut v: Vec<Ipv4Addr> = Vec::new();
        loop
            invariant
                cur.wf(),
                orig == v@ + cur.remaining(),
            ensures
                cur.remaining().len() == 0,
                orig == v@ + cur.remaining(),
            decreases cur.remaining().len(),
        {
            let ghost before = cur.remaining();
            match cur.next() {
                Some(a) => {
                    v.push(a);
                    proof {
                        assert(before =~= seq![before[0]] + before.skip(1));
                        assert(v@ + cur.remaining() =~= orig);
                    }
                },
                None => {
                    break ;
                },
            }
        }
        proof {
            assert(v@ =~= orig);
        }
        v
    }
}

/// A cursor that owns the record it walks, extending the record's lifetime
/// to the cursor's own.
pub struct AResultsIntoIterator {
    record: AResults,
    pos: usize,
}

impl AResultsIntoIterator {
    /// The cursor never stands past the end of the address list.
    pub closed spec fn wf(&self) -> bool {
        self.pos <= self.record.addrs@.len()
    }

    /// The addresses this cursor has not yet yielded, in order.
    pub closed spec fn remaining(&self) -> Seq<Ipv4Addr> {
        self.record.addrs@.skip(self.pos as int)
    }

    /// The hostname of the record the cursor owns, still available during
    /// the whole traversal.
    pub closed spec fn hostname_spec(&self) -> Seq<char> {
        self.record.hostname@
    }

    /// Get the hostname of the owned record.
    pub fn hostname(&self) -> (r: &str)
        ensures
            r@ == self.hostname_spec(),
    {
        self.record.hostname.as_str()
    }

    /// Yields the next address and advances, or reports exhaustion;
    /// exhaustion is terminal: once `None`, every later call is `None`.
    pub fn next(&mut self) -> (r: Option<Ipv4Addr>)
        requires
            old(self).wf(),
        ensures
            final(self).wf(),
            final(self).hostname_spec() == old(self).hostname_spec(),
            old(self).remaining().len() > 0 ==> r == Some(old(self).remaining()[0])
                && final(self).remaining() == old(self).remaining().skip(1),
            old(self).remaining().len() == 0 ==> r is None && *final(self) == *old(self),
    {
        if self.pos < self.record.addrs.len() {
            let a = self.record.addrs[self.pos];
            self.pos = self.pos + 1;
            proof {
                assert(old(self).remaining().skip(1) =~= self.record.addrs@.skip(
                    self.pos as int,
                ));
            }
            Some(a)
        } else {
            None
        }
    }

    /// Drains the cursor, returning every remaining address in order: a full
    /// traversal yields exactly the remaining sequence, nothing else.
    pub fn collect_remaining(self) -> (v: Vec<Ipv4Addr>)
        requires
            self.wf(),
        ensures
            v@ == self.remaining(),
    {
        let ghost orig = self.remaining();
        let mut cur = self;
        let mut v: Vec<Ipv4Addr> = Vec::new();
        loop
            invariant
                cur.wf(),
                orig == v@ + cur.remaining(),
            ensures
                cur.remaining().len() == 0,
                orig == v@ + cur.remaining(),
            decreases cur.remaining().len(),
        {
            let ghost before = cur.remaining();
            match cur.next() {
                Some(a) => {
                    v.push(a);
                    proof {
                        assert(before =~= seq![before[0]] + before.skip(1));
                        assert(v@ + cur.remaining() =~= orig);
                    }
                },
                None => {
                    break ;
                },
            }
        }
        proof {
            assert(v@ =~= orig);
        }
        v
    }
}

/// Obtaining a cursor is non-mutating and deterministic: any two cursors
/// freshly drawn from the same record's address list have identical
/// remaining sequences, so iterating twice yields the same addresses.
pub proof fn lemma_iter_repeatable<'a, 'b>(
    r: &AResults,
    it1: AResultsIterator<'a>,
    it2: AResultsIterator<'b>,
)
    requires
        it1.remaining() == r.addrs_spec(),
        it2.remaining() == r.addrs_spec(),
    ensures
        it1.remaining() == it2.remaining(),
{
}

/// The owning cursor walks the very sequence the borrowing cursor walks:
/// consuming a record changes nothing about what is yielded.
pub proof fn lemma_into_iter_agrees<'a>(
    r: &AResults,
    it: AResultsIterator<'a>,
    oit: AResultsIntoIterator,
)
    requires
        it.remaining() == r.addrs_spec(),
        oit.remaining() == r.addrs_spec(),
    ensures
        it.remaining() == oit.remaining(),
{
}

/// A record with no addresses yields an empty sequence — exhaustion at the
/// first step, not an error.
pub proof fn lemma_empty_record_iter<'a>(r: &AResults, it: AResultsIterator<'a>)
    requires
        r.addrs_spec().len() == 0,
        it.remaining() == r.addrs_spec(),
    ensures
        it.remaining() =~= Seq::<Ipv4Addr>::empty(),
{
}

} // verus!

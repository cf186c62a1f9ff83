//! Snowflake-style identifier generation, reduced to its sequential core:
//! packing a millisecond timestamp, a node number and a per-millisecond
//! sequence counter into one 64-bit identifier, with identifiers from one
//! generator strictly increasing.  Reading the clock is the caller's
//! business; the generator is handed the current time and stays correct
//! whatever value arrives.
//!
//! The layout is the common 42/10/12 split: 42 bits of milliseconds, 10
//! bits of node, 12 bits of sequence.

use vstd::prelude::*;

verus! {

/// Number of sequence values per node per millisecond (12 bits).
pub const FLAKE_SEQ_SPAN: u64 = 4096;

/// Number of node values (10 bits).
pub const FLAKE_NODE_SPAN: u64 = 1024;

/// Number of millisecond values (42 bits).
pub const FLAKE_TS_SPAN: u64 = 0x400_0000_0000;

/// The identifier packing `ts`, `node` and `seq`: timestamp in the high
/// bits, node below it, sequence in the low bits.
pub open spec fn flake_encode(ts: int, node: int, seq: int) -> int {
    ts * (FLAKE_NODE_SPAN * FLAKE_SEQ_SPAN) + node * FLAKE_SEQ_SPAN + seq
}

/// The node number a generator is configured with, seeded into the
/// dependency-resolution container by the deployment.
#[derive(Debug, Clone, Copy, PartialEq, Eq, Structural)]
pub struct FlakeNode(pub u64);

/// Sequential identifier generator for one node.  Remembers the timestamp
/// and sequence of the last identifier it issued; each call to `next`
/// issues a strictly greater identifier.
#[derive(Debug, Clone, Copy)]
pub struct FlakeIdGen {
    node: u64,
    ts: u64,
    seq: u64,
}

impl FlakeIdGen {
    /// The configured node number.
    pub closed spec fn node(&self) -> u64 {
        self.node
    }

    /// The most recently issued identifier (for a fresh generator, the
    /// synthetic identifier of timestamp zero, sequence zero).
    pub closed spec fn last_id(&self) -> int {
        flake_encode(self.ts as int, self.node as int, self.seq as int)
    }

    /// Millisecond timestamp of the most recently issued identifier.
    pub closed spec fn last_ms(&self) -> u64 {
        self.ts
    }

    /// The fields fit their bit widths.
    pub closed spec fn wf(&self) -> bool {
        &&& self.node < FLAKE_NODE_SPAN
        &&& self.ts < FLAKE_TS_SPAN
        &&& self.seq < FLAKE_SEQ_SPAN
    }

    /// A fresh generator for the given node.
    pub fn new(node: u64) -> (g: Self)
        requires
            node < FLAKE_NODE_SPAN,
        ensures
            g.wf(),
            g.node() == node,
            g.last_id() == flake_encode(0, node as int, 0),
    {
        FlakeIdGen { node, ts: 0, seq: 0 }
    }

    /// Issues the next identifier, given the current time in milliseconds.
    /// The identifier is strictly greater than every identifier this
    /// generator issued before, whatever the clock reports: a clock that
    /// stands still or moves backwards only advances the sequence, and a
    /// sequence that overflows within one millisecond borrows the next
    /// millisecond.
    pub fn next(&mut self, now_ms: u64) -> (id: u64)
        requires
            old(self).wf(),
            now_ms < FLAKE_TS_SPAN,
            old(self).last_ms() < FLAKE_TS_SPAN - 1,
        ensures
            final(self).wf(),
            final(self).node() == old(self).node(),
            final(self).last_ms() <= if now_ms > old(self).last_ms() {
                now_ms
            } else {
                (old(self).last_ms() + 1) as u64
            },
            id == final(self).last_id(),
            id > old(self).last_id(),
    {
        if now_ms > self.ts {
            self.ts = now_ms;
            self.seq = 0;
        } else if self.seq < FLAKE_SEQ_SPAN - 1 {
            self.seq = self.seq + 1;
        } else {
            self.ts = self.ts + 1;
            self.seq = 0;
        }
        proof {
            assert(self.ts as int * (FLAKE_NODE_SPAN * FLAKE_SEQ_SPAN) as int + self.node as int
                * FLAKE_SEQ_SPAN as int + self.seq as int <= u64::MAX as int) by (nonlinear_arith)
                requires
                    self.ts < FLAKE_TS_SPAN,
                    self.node < FLAKE_NODE_SPAN,
                    self.seq < FLAKE_SEQ_SPAN,
            ;
        }
        self.ts * (FLAKE_NODE_SPAN * FLAKE_SEQ_SPAN) + self.node * FLAKE_SEQ_SPAN + self.seq
    }
}

/// Unpacks an identifier into its timestamp, node and sequence fields.
pub fn flake_decode(id: u64) -> (r: (u64, u64, u64))
    ensures
        r.0 == id / (FLAKE_NODE_SPAN * FLAKE_SEQ_SPAN) as u64,
        r.1 == (id / FLAKE_SEQ_SPAN as u64) % FLAKE_NODE_SPAN as u64,
        r.2 == id % FLAKE_SEQ_SPAN as u64,
{
    (
        id / (FLAKE_NODE_SPAN * FLAKE_SEQ_SPAN),
        (id / FLAKE_SEQ_SPAN) % FLAKE_NODE_SPAN,
        id % FLAKE_SEQ_SPAN,
    )
}

/// Decoding recovers exactly the packed fields: `flake_decode` inverts
/// `flake_encode` on every in-range timestamp, node and sequence.
pub proof fn lemma_flake_round_trip(ts: u64, node: u64, seq: u64)
    requires
        ts < FLAKE_TS_SPAN,
        node < FLAKE_NODE_SPAN,
        seq < FLAKE_SEQ_SPAN,
    ensures
        flake_encode(ts as int, node as int, seq as int) / (FLAKE_NODE_SPAN * FLAKE_SEQ_SPAN)
            as int == ts as int,
        (flake_encode(ts as int, node as int, seq as int) / FLAKE_SEQ_SPAN as int)
            % FLAKE_NODE_SPAN as int == node as int,
        flake_encode(ts as int, node as int, seq as int) % FLAKE_SEQ_SPAN as int == seq as int,
{
    let id = flake_encode(ts as int, node as int, seq as int);
    vstd::arithmetic::div_mod::lemma_fundamental_div_mod_converse(
        id,
        (FLAKE_NODE_SPAN * FLAKE_SEQ_SPAN) as int,
        ts as int,
        (node * FLAKE_SEQ_SPAN + seq) as int,
    );
    assert(ts as int * (FLAKE_NODE_SPAN * FLAKE_SEQ_SPAN) as int + node as int * FLAKE_SEQ_SPAN
        as int + seq as int == (ts as int * FLAKE_NODE_SPAN as int + node as int) * FLAKE_SEQ_SPAN
        as int + seq as int) by (nonlinear_arith);
    vstd::arithmetic::div_mod::lemma_fundamental_div_mod_converse(
        id,
        FLAKE_SEQ_SPAN as int,
        ts as int * FLAKE_NODE_SPAN as int + node as int,
        seq as int,
    );
    vstd::arithmetic::div_mod::lemma_fundamental_div_mod_converse(
        ts as int * FLAKE_NODE_SPAN as int + node as int,
        FLAKE_NODE_SPAN as int,
        ts as int,
        node as int,
    );
}

} // verus!

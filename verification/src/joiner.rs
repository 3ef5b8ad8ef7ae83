//! The reduction tree: merging an ordered sequence of same-stage receipts
//! into exactly one receipt by repeated pairwise joins.
//!
//! The joiner holds the current level of the tree. It names the next pair of
//! positionally adjacent receipts to join; the caller runs the backend's join
//! on that pair, verifies the result's integrity, and hands the joined
//! artifact back. When a level has odd length its last element is carried to
//! the next level unmodified. The level shrinks to half (rounded up) each
//! round until one receipt is left, after exactly `reduction_rounds(n)`
//! rounds.

use vstd::prelude::*;
use crate::artifact::Artifact;
use crate::errors::ErrorKind;
use crate::receipt::{ClaimSpan, RecursiveReceipt};

verus! {

/// Ceiling of `n / 2`.
pub open spec fn ceil_div2(n: nat) -> nat {
    (n + 1) / 2
}

/// Number of reduction rounds needed for `n` receipts: zero for one receipt,
/// else one round and whatever the halved level still needs.
pub open spec fn reduction_rounds(n: nat) -> nat
    decreases n,
{
    if n <= 1 {
        0
    } else {
        1 + reduction_rounds(ceil_div2(n))
    }
}

/// Two to the power `k`.
pub open spec fn two_pow(k: nat) -> nat
    decreases k,
{
    if k == 0 {
        1
    } else {
        2 * two_pow((k - 1) as nat)
    }
}

/// Law: `reduction_rounds(n)` is exactly the ceiling of the base-two
/// logarithm of `n`: `n` fits under `reduction_rounds(n)` doublings and,
/// for `n >= 2`, does not fit under one fewer.
pub proof fn lemma_reduction_rounds_exact(n: nat)
    requires
        n >= 1,
    ensures
        n <= two_pow(reduction_rounds(n)),
        n >= 2 ==> two_pow((reduction_rounds(n) - 1) as nat) < n,
    decreases n,
{
    if n >= 2 {
        let m = ceil_div2(n);
        lemma_reduction_rounds_exact(m);
        assert(two_pow(reduction_rounds(n)) == 2 * two_pow(reduction_rounds(m)));
        assert(2 * m >= n);
        if m >= 2 {
            assert(two_pow((reduction_rounds(m) - 1) as nat) < m);
            assert(two_pow(reduction_rounds(m)) == 2 * two_pow((reduction_rounds(m) - 1) as nat));
            assert(two_pow(reduction_rounds(m)) <= 2 * (m - 1));
            assert(2 * m <= n + 1);
        } else {
            assert(m == 1);
            assert(two_pow((reduction_rounds(n) - 1) as nat) == 1);
        }
    }
}

/// `reduction_rounds` never exceeds its argument.
pub proof fn lemma_reduction_rounds_le(n: nat)
    requires
        n >= 1,
    ensures
        reduction_rounds(n) <= n,
    decreases n,
{
    if n >= 2 {
        lemma_reduction_rounds_le(ceil_div2(n));
    }
}

/// The receipt a join of two adjacent receipts produces: the artifact the
/// backend returned, the pair's shared stage, and the union of the two
/// adjacent claims.
pub open spec fn joined_receipt(
    left: RecursiveReceipt,
    right: RecursiveReceipt,
    artifact: Artifact,
) -> RecursiveReceipt {
    RecursiveReceipt {
        artifact,
        stage: left.stage,
        claim: ClaimSpan { start: left.claim.start, end: right.claim.end },
    }
}

/// What the joiner accepts: at least one receipt, every claim well-formed,
/// every receipt produced by the same stage, and the claims forming one
/// contiguous, non-overlapping trace region in the given order.
pub open spec fn valid_inputs(rs: Seq<RecursiveReceipt>) -> bool {
    &&& rs.len() >= 1
    &&& forall|i: int| 0 <= i < rs.len() ==> (#[trigger] rs[i]).claim.wf()
    &&& forall|i: int| 0 <= i < rs.len() ==> #[trigger] rs[i].stage == rs[0].stage
    &&& forall|i: int, j: int|
        0 <= i && i + 1 == j && j < rs.len() ==> (#[trigger] rs[i]).claim.end == (
        #[trigger] rs[j]).claim.start
}

/// The error owed for a sequence the joiner rejects.
pub open spec fn rejection(rs: Seq<RecursiveReceipt>) -> ErrorKind {
    if rs.len() == 0 {
        ErrorKind::EmptyInput
    } else if !(forall|i: int| 0 <= i < rs.len() ==> (#[trigger] rs[i]).claim.wf()) {
        ErrorKind::ClaimMismatch
    } else if !(forall|i: int| 0 <= i < rs.len() ==> #[trigger] rs[i].stage == rs[0].stage) {
        ErrorKind::StageMismatch
    } else {
        ErrorKind::ClaimMismatch
    }
}

/// A contiguous chain with the adjacent pair at `q` replaced by its join.
spec fn join_in_chain(c: Seq<RecursiveReceipt>, q: int, a: Artifact) -> Seq<RecursiveReceipt> {
    c.take(q) + seq![joined_receipt(c[q], c[q + 1], a)] + c.skip(q + 2)
}

/// Joining an adjacent pair of a valid chain keeps the chain valid, keeps
/// its stage, and keeps the trace region it covers end to end.
proof fn lemma_join_step(c: Seq<RecursiveReceipt>, q: int, a: Artifact)
    requires
        valid_inputs(c),
        0 <= q < c.len() - 1,
    ensures
        ({
            let d = join_in_chain(c, q, a);
            &&& d.len() == c.len() - 1
            &&& valid_inputs(d)
            &&& d[0].stage == c[0].stage
            &&& d.first().claim.start == c.first().claim.start
            &&& d.last().claim.end == c.last().claim.end
        }),
{
    let j = joined_receipt(c[q], c[q + 1], a);
    let d = join_in_chain(c, q, a);
    assert(d.len() == c.len() - 1);
    assert forall|i: int| 0 <= i < d.len() implies d[i] == (if i < q {
        c[i]
    } else if i == q {
        j
    } else {
        c[i + 1]
    }) by {}
    assert(j.claim.wf());
    assert forall|i: int| 0 <= i < d.len() implies (#[trigger] d[i]).claim.wf() by {}
    assert forall|i: int| 0 <= i < d.len() implies #[trigger] d[i].stage == d[0].stage by {}
    assert forall|i: int, k: int| 0 <= i && i + 1 == k && k < d.len() implies (
    #[trigger] d[i]).claim.end == (#[trigger] d[k]).claim.start by {
        if i + 1 < q {
            assert(c[i].claim.end == c[i + 1].claim.start);
        } else if i + 1 == q {
            assert(c[i].claim.end == c[i + 1].claim.start);
        } else if i == q {
            assert(c[q + 1].claim.end == c[q + 2].claim.start);
        } else {
            assert(c[i + 1].claim.end == c[i + 2].claim.start);
        }
    }
    if q + 2 == c.len() {
        assert(d.last() == j);
    } else {
        assert(d.last() == c.last());
    }
}

/// The reduction tree's state: the level currently being scanned, the next
/// level being assembled, and the count of completed rounds.
pub struct Joiner {
    /// The current level, scanned left to right in steps of two.
    pub level: Vec<RecursiveReceipt>,
    /// The next level: join results in input order, then a carried element.
    pub next: Vec<RecursiveReceipt>,
    /// The scan position in the current level; the pending pair is
    /// `(pos, pos + 1)`.
    pub pos: usize,
    /// Completed rounds.
    pub rounds: usize,
    /// The receipts the reduction started from.
    pub inputs: Ghost<Seq<RecursiveReceipt>>,
}

/// How one join advances the reduction, given the artifact the backend
/// returned for the pending pair `(pos, pos + 1)`: the joined receipt is
/// appended to the next level in its pair's order; a round that ends with
/// an odd element carries it, unmodified, to the terminal position of the
/// next level; a finished round is advanced and counted; the inputs stand.
pub open spec fn joiner_step(pre: Joiner, post: Joiner, artifact: Artifact) -> bool {
    let l = pre.level@;
    let p = pre.pos as int;
    let j = joined_receipt(l[p], l[p + 1], artifact);
    &&& post.inputs == pre.inputs
    &&& (l.len() - p >= 4 ==> {
        &&& post.level@ == l
        &&& post.pos == p + 2
        &&& post.next@ == pre.next@.push(j)
        &&& post.rounds == pre.rounds
    })
    &&& (l.len() - p == 3 ==> {
        &&& post.level@ == pre.next@.push(j).push(l.last())
        &&& post.pos == 0
        &&& post.next@.len() == 0
        &&& post.rounds == pre.rounds + 1
    })
    &&& (l.len() - p == 2 ==> {
        &&& post.level@ == pre.next@.push(j)
        &&& post.pos == 0
        &&& post.next@.len() == 0
        &&& post.rounds == pre.rounds + 1
    })
    &&& (post.done() <==> (l.len() - p == 2 && pre.next@.len() == 0))
}

impl Joiner {
    /// The receipts the rest of the reduction still works on: the next level
    /// built so far, then the unscanned part of the current level.
    pub open spec fn chain(self) -> Seq<RecursiveReceipt> {
        self.next@ + self.level@.skip(self.pos as int)
    }

    /// The reduction is finished: one receipt is left.
    pub open spec fn done(self) -> bool {
        self.level@.len() == 1
    }

    /// Well-formedness: the state is normalized (a finished round has been
    /// advanced, an odd element carried), the completed rounds plus the
    /// rounds the remaining work needs add up to the total owed for the
    /// inputs, and the working chain keeps the inputs' stage, contiguity and
    /// end-to-end trace region.
    pub open spec fn inv(self) -> bool {
        &&& valid_inputs(self.inputs@)
        &&& self.inputs@.len() <= usize::MAX
        &&& self.level@.len() >= 1
        &&& if self.level@.len() == 1 {
            &&& self.pos == 0
            &&& self.next@.len() == 0
            &&& self.rounds == reduction_rounds(self.inputs@.len() as nat)
        } else {
            &&& self.pos % 2 == 0
            &&& self.pos + 2 <= self.level@.len()
            &&& self.next@.len() == self.pos / 2
            &&& self.rounds + 1 + reduction_rounds(
                self.next@.len() + ceil_div2((self.level@.len() - self.pos) as nat),
            ) == reduction_rounds(self.inputs@.len() as nat)
        }
        &&& valid_inputs(self.chain())
        &&& self.chain()[0].stage == self.inputs@[0].stage
        &&& self.chain().first().claim.start == self.inputs@.first().claim.start
        &&& self.chain().last().claim.end == self.inputs@.last().claim.end
        &&& self.inputs@.len() == 1 ==> self.level@ == self.inputs@
    }

    /// Takes the ordered sequence of same-stage receipts to reduce. Rejects
    /// an empty sequence, an ill-formed claim, receipts of differing stages,
    /// and claims that do not compose contiguously in the given order; every
    /// acceptable sequence is accepted.
    pub fn new(receipts: Vec<RecursiveReceipt>) -> (r: Result<Joiner, ErrorKind>)
        ensures
            valid_inputs(receipts@) ==> (r matches Ok(j) && {
                &&& j.inv()
                &&& j.inputs@ == receipts@
                &&& j.level@ == receipts@
                &&& j.pos == 0
                &&& j.next@.len() == 0
                &&& j.rounds == 0
                &&& (j.done() <==> receipts@.len() == 1)
            }),
            !valid_inputs(receipts@) ==> r == Err::<Joiner, ErrorKind>(rejection(receipts@)),
    {
        if receipts.len() == 0 {
            return Err(ErrorKind::EmptyInput);
        }
        let n = receipts.len();
        let mut i: usize = 0;
        while i < n
            invariant
                n == receipts@.len(),
                i <= n,
                forall|k: int| 0 <= k < i ==> (#[trigger] receipts@[k]).claim.wf(),
            decreases n - i,
        {
            if receipts[i].claim.start >= receipts[i].claim.end {
                return Err(ErrorKind::ClaimMismatch);
            }
            i = i + 1;
        }
        let stage0 = receipts[0].stage;
        i = 1;
        while i < n
            invariant
                n == receipts@.len(),
                n >= 1,
                1 <= i <= n,
                stage0 == receipts@[0].stage,
                forall|k: int| 0 <= k < i ==> #[trigger] receipts@[k].stage == stage0,
                forall|k: int| 0 <= k < n ==> (#[trigger] receipts@[k]).claim.wf(),
            decreases n - i,
        {
            if receipts[i].stage != stage0 {
                return Err(ErrorKind::StageMismatch);
            }
            i = i + 1;
        }
        i = 0;
        while i < n - 1
            invariant
                n == receipts@.len(),
                n >= 1,
                i <= n,
                forall|k: int, m: int| 0 <= k && k + 1 == m && m <= i ==> (#[trigger] receipts@[k]).claim.end == (#[trigger] receipts@[m]).claim.start,
                forall|k: int| 0 <= k < n ==> #[trigger] receipts@[k].stage == receipts@[0].stage,
                forall|k: int| 0 <= k < n ==> (#[trigger] receipts@[k]).claim.wf(),
            decreases n - i,
        {
            if receipts[i].claim.end != receipts[i + 1].claim.start {
                return Err(ErrorKind::ClaimMismatch);
            }
            i = i + 1;
        }
        let ghost gs = receipts@;
        let j = Joiner {
            level: receipts,
            next: Vec::new(),
            pos: 0,
            rounds: 0,
            inputs: Ghost(gs),
        };
        proof {
            assert(valid_inputs(gs));
            assert(j.chain() =~= gs);
            lemma_reduction_rounds_le(gs.len() as nat);
            if gs.len() >= 2 {
                assert(reduction_rounds(gs.len() as nat) == 1 + reduction_rounds(
                    ceil_div2(gs.len() as nat),
                ));
            }
        }
        Ok(j)
    }

    /// The reduction is finished: one receipt is left.
    pub fn is_done(&self) -> (r: bool)
        requires
            self.inv(),
        ensures
            r == self.done(),
    {
        self.level.len() == 1
    }

    /// The pair owed to the backend next: always two positionally adjacent
    /// elements of the current level, or nothing when the reduction is done.
    pub fn pending_pair(&self) -> (r: Option<(usize, usize)>)
        requires
            self.inv(),
        ensures
            match r {
                Some(p) => !self.done() && p.0 == self.pos && p.1 == self.pos + 1 && p.1
                    < self.level@.len(),
                None => self.done(),
            },
    {
        if self.level.len() == 1 {
            None
        } else {
            Some((self.pos, self.pos + 1))
        }
    }

    /// Takes the artifact the backend returned for the pending pair and
    /// appends the joined receipt to the next level, in the order its inputs
    /// stood; when the join closes the round, an odd element is carried to
    /// the terminal position of the next level unmodified, and the next
    /// round begins.
    pub fn apply_join(&mut self, artifact: Artifact)
        requires
            old(self).inv(),
            !old(self).done(),
        ensures
            final(self).inv(),
            joiner_step(*old(self), *final(self), artifact),
    {
        let ghost pre = *self;
        let ghost l = pre.level@;
        let ghost p = pre.pos as int;
        let ghost q = pre.next@.len() as int;
        let ghost c = pre.chain();
        let ghost j = joined_receipt(l[p], l[p + 1], artifact);
        proof {
            lemma_reduction_rounds_le(pre.inputs@.len() as nat);
            assert(c[q] == l[p]);
            assert(c[q + 1] == l[p + 1]);
            lemma_join_step(c, q, artifact);
        }
        let len = self.level.len();
        let start = self.level[self.pos].claim.start;
        let end = self.level[self.pos + 1].claim.end;
        let stage = self.level[self.pos].stage;
        let joined = RecursiveReceipt { artifact, stage, claim: ClaimSpan { start, end } };
        proof {
            assert(joined == j);
        }
        self.next.push(joined);
        let rem = len - (self.pos + 2);
        if rem == 1 {
            let carry = self.level.pop().unwrap();
            self.next.push(carry);
        }
        if rem <= 1 {
            self.level.clear();
            std::mem::swap(&mut self.level, &mut self.next);
            self.pos = 0;
            self.rounds = self.rounds + 1;
        } else {
            self.pos = self.pos + 2;
        }
        proof {
            let d = join_in_chain(c, q, artifact);
            if l.len() - p >= 4 {
                assert(self.chain() =~= d);
                assert(ceil_div2((l.len() - p) as nat) == 1 + ceil_div2((l.len() - p - 2) as nat));
            } else if l.len() - p == 3 {
                assert(l.last() == l[p + 2]);
                assert(self.level@ == pre.next@.push(j).push(l[p + 2]));
                assert(self.chain() =~= d);
                assert(self.level@.len() == q + 2);
                assert(reduction_rounds((q + 2) as nat) == 1 + reduction_rounds(
                    ceil_div2((q + 2) as nat),
                ));
                assert(ceil_div2(3nat) == 2);
            } else {
                assert(l.len() - p == 2);
                assert(self.level@ == pre.next@.push(j));
                assert(self.chain() =~= d);
                assert(self.level@.len() == q + 1);
                if q + 1 >= 2 {
                    assert(reduction_rounds((q + 1) as nat) == 1 + reduction_rounds(
                        ceil_div2((q + 1) as nat),
                    ));
                } else {
                    assert(reduction_rounds(1nat) == 0);
                }
                assert(ceil_div2(2nat) == 1);
            }
        }
    }

    /// Hands the one remaining receipt out. Its claim covers exactly the
    /// union of the input claims, its stage is the inputs' stage, and the
    /// reduction took exactly `reduction_rounds` of the input count in
    /// rounds; a single input comes back unchanged.
    pub fn into_result(self) -> (r: RecursiveReceipt)
        requires
            self.inv(),
            self.done(),
        ensures
            r == self.level@[0],
            r.stage == self.inputs@[0].stage,
            r.claim.start == self.inputs@.first().claim.start,
            r.claim.end == self.inputs@.last().claim.end,
            self.rounds == reduction_rounds(self.inputs@.len() as nat),
            self.inputs@.len() == 1 ==> r == self.inputs@[0],
    {
        let mut s = self;
        let r = s.level.pop().unwrap();
        proof {
            assert(self.chain() =~= self.level@);
        }
        r
    }
}

/// Law: the reduction makes strict progress. A joiner that is not done
/// always has a pending pair, holds `chain().len()` receipts still owed
/// (at least two), and one join brings that count down by exactly one; it
/// is done exactly when one receipt is owed. A driver that answers every
/// pending pair therefore finishes after exactly `inputs - 1` joins.
pub proof fn lemma_join_progress(pre: Joiner, post: Joiner, artifact: Artifact)
    requires
        pre.inv(),
        !pre.done(),
        joiner_step(pre, post, artifact),
    ensures
        pre.chain().len() >= 2,
        post.chain().len() == pre.chain().len() - 1,
        post.done() <==> post.chain().len() == 1,
{
    let l = pre.level@;
    let p = pre.pos as int;
    if l.len() - p >= 4 {
        assert(post.chain() =~= post.next@ + post.level@.skip(post.pos as int));
    }
}

/// Law: a finished reduction holds exactly one receipt, reached in exactly
/// `reduction_rounds` of the input count in rounds, and the input count fits
/// under that many doublings.
pub proof fn lemma_reduction_terminal(j: Joiner)
    requires
        j.inv(),
        j.done(),
    ensures
        j.level@.len() == 1,
        j.rounds == reduction_rounds(j.inputs@.len() as nat),
        j.inputs@.len() <= two_pow(j.rounds as nat),
{
    lemma_reduction_rounds_exact(j.inputs@.len() as nat);
}

} // verus!

//! The chunked grand-product state of one permutation-argument instance:
//! its reconstruction from a proof transcript and the opening queries
//! that check it.

use vstd::prelude::*;

use crate::arith::PointHandle;
use crate::arith::ScalarHandle;
use crate::query::EvaluationQuery;
use crate::query::QueryLabel;
use crate::query::QueryRole;
use crate::transcript::Transcript;
use crate::vk::ColumnKind;
use crate::vk::PermutationColumn;
use crate::vk::VerifyingKeyMeta;

verus! {

use vstd::string::StringExecFns;

/// Whether construction reads a chunk-boundary ("last") evaluation for
/// the final chunk as well. The chain-continuity check only ever uses
/// boundary evaluations of non-final chunks, but the inner prover's
/// transcript layout may write one for the final chunk too; the policy
/// is explicit so the two layouts can be told apart and tested.
#[derive(Clone, Copy, PartialEq, Eq, Structural, Debug)]
pub enum BoundaryReadPolicy {
    /// Read a boundary evaluation for every chunk, the final one included.
    AlwaysRead,
    /// Read a boundary evaluation only for non-final chunks.
    SkipFinalChunk,
}

/// Fatal conditions under which construction refuses to proceed.
#[derive(Clone, Copy, PartialEq, Eq, Structural, Debug)]
pub enum PermutationError {
    /// The transcript holds fewer scalars than construction must read.
    TranscriptUnderrun,
    /// A permutation column's query index lies outside the evaluation
    /// array of its kind: the verifying key and proof do not match.
    MetadataMismatch,
}

/// Permutation data fixed by one verifying key and shared by every
/// proof instance verified against it.
pub struct CommonEvaluated {
    /// Key used to namespace query labels derived from this data.
    pub key: String,
    /// One evaluation per permutation column, in column order.
    pub permutation_evals: Vec<ScalarHandle>,
    /// One commitment per permutation column, in the same order.
    pub permutation_commitments: Vec<PointHandle>,
}

impl CommonEvaluated {
    /// Both sequences pair up: one evaluation and one commitment per
    /// permutation column, in identical order.
    pub open spec fn wf(self) -> bool {
        self.permutation_evals.len() == self.permutation_commitments.len()
    }

    /// Pair the fixed permutation polynomials' evaluations with their
    /// commitments, in the verifying key's column order.
    pub fn new(
        key: String,
        permutation_evals: Vec<ScalarHandle>,
        permutation_commitments: Vec<PointHandle>,
    ) -> (r: CommonEvaluated)
        requires
            permutation_evals@.len() == permutation_commitments@.len(),
        ensures
            r.wf(),
            r.key == key,
            r.permutation_evals == permutation_evals,
            r.permutation_commitments == permutation_commitments,
    {
        CommonEvaluated { key, permutation_evals, permutation_commitments }
    }
}

/// One chunk of the grand-product argument.
#[derive(Clone, Copy, Debug)]
pub struct EvaluatedSet {
    /// Commitment to this chunk's running-product polynomial.
    pub permutation_product_commitment: PointHandle,
    /// Claimed evaluation at the main challenge point `x`.
    pub permutation_product_eval: ScalarHandle,
    /// Claimed evaluation at the next-row point.
    pub permutation_product_next_eval: ScalarHandle,
    /// Claimed evaluation at the chunk-boundary point; present for every
    /// non-final chunk, and for the final chunk exactly when the
    /// boundary-read policy asked for it.
    pub permutation_product_last_eval: Option<ScalarHandle>,
}

/// The full permutation-argument state of one proof instance.
pub struct Evaluated {
    /// Label namespace of this instance: `"<proof-key>_permutation"`.
    pub key: String,
    /// Number of trailing blinded rows, from the verifying key.
    pub blinding_factors: usize,
    /// The main evaluation challenge point.
    pub x: ScalarHandle,
    /// One entry per chunk, in transcript order.
    pub sets: Vec<EvaluatedSet>,
    /// One resolved current-row evaluation per permutation column.
    pub evals: Vec<ScalarHandle>,
    /// Maximum number of columns per chunk (`degree - 2`).
    pub chunk_len: usize,
}

impl Evaluated {
    /// What every valid construction guarantees and query generation
    /// relies on: at least one chunk, a boundary evaluation on every
    /// non-final chunk, and a representable boundary rotation.
    pub open spec fn wf(self) -> bool {
        &&& self.sets.len() >= 1
        &&& forall|i: int|
            0 <= i < self.sets.len() - 1 ==> self.sets[i].permutation_product_last_eval is Some
        &&& self.blinding_factors + 1 <= i32::MAX
    }
}

impl Evaluated {
    /// The rotation of the chunk-boundary point: `-(blinding_factors + 1)`.
    pub open spec fn spec_last_rotation(self) -> int {
        -(self.blinding_factors + 1)
    }

    /// The label of the query that opens chunk `i`'s product
    /// commitment of this instance in the given role.
    pub open spec fn spec_label(self, i: int, role: QueryRole) -> QueryLabel {
        QueryLabel { key: self.key, chunk_index: i as usize, role }
    }

    /// Which chunk the query at position `k` of the canonical query
    /// list opens: positions below `2n` pair up ascending, the rest
    /// walk the non-final chunks in descending order.
    pub open spec fn spec_query_chunk(self, k: int) -> int {
        let n = self.sets@.len() as int;
        if k < 2 * n {
            k / 2
        } else {
            n - 2 - (k - 2 * n)
        }
    }

    /// The role of the query at position `k` of the canonical query
    /// list.
    pub open spec fn spec_query_role(self, k: int) -> QueryRole {
        let n = self.sets@.len() as int;
        if k < 2 * n {
            if k % 2 == 0 {
                QueryRole::ProductEval
            } else {
                QueryRole::ProductNextEval
            }
        } else {
            QueryRole::ProductLastEval
        }
    }

    /// The query at position `k` of the canonical query list.
    pub open spec fn spec_query_at(
        self,
        x_next: ScalarHandle,
        x_last: ScalarHandle,
        k: int,
    ) -> EvaluationQuery {
        let n = self.sets@.len() as int;
        let i = self.spec_query_chunk(k);
        if k < 2 * n {
            if k % 2 == 0 {
                EvaluationQuery {
                    rotation: 0,
                    point: self.x,
                    label: self.spec_label(i, QueryRole::ProductEval),
                    commitment: self.sets@[i].permutation_product_commitment,
                    eval: self.sets@[i].permutation_product_eval,
                }
            } else {
                EvaluationQuery {
                    rotation: 1,
                    point: x_next,
                    label: self.spec_label(i, QueryRole::ProductNextEval),
                    commitment: self.sets@[i].permutation_product_commitment,
                    eval: self.sets@[i].permutation_product_next_eval,
                }
            }
        } else {
            EvaluationQuery {
                rotation: self.spec_last_rotation() as i32,
                point: x_last,
                label: self.spec_label(i, QueryRole::ProductLastEval),
                commitment: self.sets@[i].permutation_product_commitment,
                eval: self.sets@[i].permutation_product_last_eval->Some_0,
            }
        }
    }

    /// The canonical query list of this instance: for each chunk in
    /// ascending order a query at rotation `0` (point `x`) and one at
    /// rotation `1` (next-row point), then for each non-final chunk in
    /// descending order a boundary query at `-(blinding_factors + 1)`.
    pub open spec fn spec_queries(self, x_next: ScalarHandle, x_last: ScalarHandle) -> Seq<
        EvaluationQuery,
    > {
        Seq::new(
            (3 * self.sets@.len() - 1) as nat,
            |k: int| self.spec_query_at(x_next, x_last, k),
        )
    }

    /// Derive the opening queries that check this instance's chunked
    /// grand-product argument: each chunk's running product is opened
    /// at `x` and at the next-row point, and each non-final chunk also
    /// at the chunk-boundary point, which chains its boundary row into
    /// the next chunk's running product.
    ///
    /// `x_next` and `x_last` are the next-row and chunk-boundary
    /// points, shared across protocol components and supplied by the
    /// caller.
    #[verifier::loop_isolation(false)]
    pub fn queries(&self, x_next: ScalarHandle, x_last: ScalarHandle) -> (r: Vec<EvaluationQuery>)
        requires
            self.wf(),
        ensures
            r@ == self.spec_queries(x_next, x_last),
            r@.len() == 2 * self.sets@.len() + (self.sets@.len() - 1),
    {
        let n = self.sets.len();
        let mut r: Vec<EvaluationQuery> = Vec::new();
        let mut i: usize = 0;
        while i < n
            invariant
                i <= n,
                r@.len() == 2 * i,
                forall|k: int|
                    0 <= k < 2 * i ==> r@[k] == self.spec_query_at(x_next, x_last, k),
            decreases n - i,
        {
            let set = self.sets[i];
            r.push(
                EvaluationQuery {
                    rotation: 0,
                    point: self.x,
                    label: QueryLabel {
                        key: self.key.clone(),
                        chunk_index: i,
                        role: QueryRole::ProductEval,
                    },
                    commitment: set.permutation_product_commitment,
                    eval: set.permutation_product_eval,
                },
            );
            r.push(
                EvaluationQuery {
                    rotation: 1,
                    point: x_next,
                    label: QueryLabel {
                        key: self.key.clone(),
                        chunk_index: i,
                        role: QueryRole::ProductNextEval,
                    },
                    commitment: set.permutation_product_commitment,
                    eval: set.permutation_product_next_eval,
                },
            );
            i = i + 1;
        }
        let mut b: usize = n - 1;
        while b > 0
            invariant
                b <= n - 1,
                r@.len() == 2 * n + (n - 1 - b),
                forall|k: int|
                    0 <= k < r@.len() ==> r@[k] == self.spec_query_at(x_next, x_last, k),
            decreases b,
        {
            b = b - 1;
            let set = self.sets[b];
            let last_eval = set.permutation_product_last_eval.unwrap();
            let rotation: i32 = -((self.blinding_factors + 1) as i32);
            r.push(
                EvaluationQuery {
                    rotation,
                    point: x_last,
                    label: QueryLabel {
                        key: self.key.clone(),
                        chunk_index: b,
                        role: QueryRole::ProductLastEval,
                    },
                    commitment: set.permutation_product_commitment,
                    eval: last_eval,
                },
            );
        }
        proof {
            assert(r@ =~= self.spec_queries(x_next, x_last));
        }
        r
    }

    /// Law: query ordering. The canonical list holds `2n + (n - 1)`
    /// queries. The first `2n` alternate, per chunk in ascending
    /// order, a query at rotation `0` and point `x` claiming the
    /// chunk's product evaluation, then one at rotation `1` and the
    /// next-row point claiming its next-row evaluation. The remaining
    /// `n - 1` walk the non-final chunks in descending order, each at
    /// rotation `-(blinding_factors + 1)` and the boundary point,
    /// claiming the chunk's boundary evaluation.
    pub proof fn lemma_query_ordering(self, x_next: ScalarHandle, x_last: ScalarHandle)
        requires
            self.wf(),
        ensures
            self.spec_queries(x_next, x_last).len() == 2 * self.sets@.len() + (self.sets@.len()
                - 1),
            forall|k: int|
                0 <= k < 2 * self.sets@.len() ==> {
                    let q = (#[trigger] self.spec_queries(x_next, x_last)[k]);
                    let i = k / 2;
                    &&& q.commitment == self.sets@[i].permutation_product_commitment
                    &&& (k % 2 == 0 ==> q.rotation == 0 && q.point == self.x && q.eval
                        == self.sets@[i].permutation_product_eval && q.label == self.spec_label(
                        i,
                        QueryRole::ProductEval,
                    ))
                    &&& (k % 2 == 1 ==> q.rotation == 1 && q.point == x_next && q.eval
                        == self.sets@[i].permutation_product_next_eval && q.label
                        == self.spec_label(i, QueryRole::ProductNextEval))
                },
            forall|k: int|
                2 * self.sets@.len() <= k < self.spec_queries(x_next, x_last).len() ==> {
                    let q = (#[trigger] self.spec_queries(x_next, x_last)[k]);
                    let i = self.sets@.len() - 2 - (k - 2 * self.sets@.len());
                    &&& q.label == self.spec_label(i, QueryRole::ProductLastEval)
                    &&& q.commitment == self.sets@[i].permutation_product_commitment
                    &&& q.rotation as int == self.spec_last_rotation()
                    &&& q.point == x_last
                    &&& q.eval == self.sets@[i].permutation_product_last_eval->Some_0
                },
    {
    }

    /// The query at position `k` carries the label of its chunk and
    /// role, and its chunk index lies within the chunk list.
    proof fn lemma_query_label_at(self, x_next: ScalarHandle, x_last: ScalarHandle)
        requires
            self.wf(),
        ensures
            forall|k: int|
                0 <= k < self.spec_queries(x_next, x_last).len() ==> 0 <= self.spec_query_chunk(k)
                    < self.sets@.len() && (#[trigger] self.spec_queries(x_next, x_last)[k]).label
                    == self.spec_label(self.spec_query_chunk(k), self.spec_query_role(k)),
    {
        let n = self.sets@.len() as int;
        assert forall|k: int| 0 <= k < self.spec_queries(x_next, x_last).len() implies 0
            <= self.spec_query_chunk(k) < n && (#[trigger] self.spec_queries(x_next, x_last)[
        k]).label == self.spec_label(self.spec_query_chunk(k), self.spec_query_role(k)) by {
            if k < 2 * n {
                assert(0 <= k / 2 < n);
            }
        }
    }

    /// Two positions of one canonical list name the same chunk in the
    /// same role only when they are the same position.
    proof fn lemma_chunk_role_determines_position(self, p: int, q: int)
        requires
            self.wf(),
            0 <= p < 3 * self.sets@.len() - 1,
            0 <= q < 3 * self.sets@.len() - 1,
            self.spec_query_chunk(p) == self.spec_query_chunk(q),
            self.spec_query_role(p) == self.spec_query_role(q),
        ensures
            p == q,
    {
        let n = self.sets@.len() as int;
        if p < 2 * n && q < 2 * n {
            assert(p % 2 == q % 2);
            assert(p == 2 * (p / 2) + p % 2);
            assert(q == 2 * (q / 2) + q % 2);
        }
    }

    /// Law: label uniqueness. All labels of one canonical list are
    /// pairwise distinct — two queries carry equal labels only when
    /// they are the same query, each label naming its (instance,
    /// chunk, role) exactly.
    pub proof fn lemma_label_uniqueness(self, x_next: ScalarHandle, x_last: ScalarHandle)
        requires
            self.wf(),
        ensures
            forall|p: int, q: int|
                0 <= p < self.spec_queries(x_next, x_last).len() && 0 <= q < self.spec_queries(
                    x_next,
                    x_last,
                ).len() ==> ((#[trigger] self.spec_queries(x_next, x_last)[p]).label == (
                #[trigger] self.spec_queries(x_next, x_last)[q]).label <==> p == q),
    {
        let qs = self.spec_queries(x_next, x_last);
        self.lemma_query_label_at(x_next, x_last);
        assert forall|p: int, q: int| 0 <= p < qs.len() && 0 <= q < qs.len() implies ((
        #[trigger] qs[p]).label == (#[trigger] qs[q]).label <==> p == q) by {
            if qs[p].label == qs[q].label {
                self.lemma_chunk_role_determines_position(p, q);
            }
        }
    }

    /// Law: rendered label texts of one canonical list are pairwise
    /// distinct — two queries' labels render to the same text only
    /// when they are the same query.
    pub proof fn lemma_label_text_uniqueness(self, x_next: ScalarHandle, x_last: ScalarHandle)
        requires
            self.wf(),
        ensures
            forall|p: int, q: int|
                0 <= p < self.spec_queries(x_next, x_last).len() && 0 <= q < self.spec_queries(
                    x_next,
                    x_last,
                ).len() ==> ((#[trigger] self.spec_queries(x_next, x_last)[p]).label.spec_text()
                    == (#[trigger] self.spec_queries(x_next, x_last)[q]).label.spec_text() <==> p
                    == q),
    {
        let qs = self.spec_queries(x_next, x_last);
        self.lemma_query_label_at(x_next, x_last);
        assert forall|p: int, q: int| 0 <= p < qs.len() && 0 <= q < qs.len() implies ((
        #[trigger] qs[p]).label.spec_text() == (#[trigger] qs[q]).label.spec_text() <==> p
            == q) by {
            qs[p].label.lemma_text_distinct(qs[q].label);
            if qs[p].label.spec_text() == qs[q].label.spec_text() {
                self.lemma_chunk_role_determines_position(p, q);
            }
        }
    }
}

/// How many transcript scalars construction over `n` chunks reads.
pub open spec fn reads_needed(policy: BoundaryReadPolicy, n: int) -> int {
    match policy {
        BoundaryReadPolicy::AlwaysRead => 3 * n,
        BoundaryReadPolicy::SkipFinalChunk => 3 * n - 1,
    }
}

/// Length of the evaluation array a column of this kind is resolved from.
pub open spec fn source_eval_count(
    col: PermutationColumn,
    instance_evals: Seq<ScalarHandle>,
    advice_evals: Seq<ScalarHandle>,
    fixed_evals: Seq<ScalarHandle>,
) -> int {
    match col.kind {
        ColumnKind::Advice => advice_evals.len() as int,
        ColumnKind::Fixed => fixed_evals.len() as int,
        ColumnKind::Instance => instance_evals.len() as int,
    }
}

/// A column's query index lies within the evaluation array of its kind.
pub open spec fn column_resolvable(
    col: PermutationColumn,
    instance_evals: Seq<ScalarHandle>,
    advice_evals: Seq<ScalarHandle>,
    fixed_evals: Seq<ScalarHandle>,
) -> bool {
    col.query_index < source_eval_count(col, instance_evals, advice_evals, fixed_evals)
}

/// Every column of the list can be resolved from the supplied arrays.
pub open spec fn all_columns_resolvable(
    cols: Seq<PermutationColumn>,
    instance_evals: Seq<ScalarHandle>,
    advice_evals: Seq<ScalarHandle>,
    fixed_evals: Seq<ScalarHandle>,
) -> bool {
    forall|j: int|
        0 <= j < cols.len() ==> column_resolvable(
            #[trigger] cols[j],
            instance_evals,
            advice_evals,
            fixed_evals,
        )
}

/// The evaluation a resolvable column stands for: the entry of its
/// kind's array at the column's current-row query index.
pub open spec fn resolved_eval(
    col: PermutationColumn,
    instance_evals: Seq<ScalarHandle>,
    advice_evals: Seq<ScalarHandle>,
    fixed_evals: Seq<ScalarHandle>,
) -> ScalarHandle {
    match col.kind {
        ColumnKind::Advice => advice_evals[col.query_index as int],
        ColumnKind::Fixed => fixed_evals[col.query_index as int],
        ColumnKind::Instance => instance_evals[col.query_index as int],
    }
}

/// Everything a successful construction promises about the record it
/// returns, in terms of the transcript scalars from position `start`.
pub open spec fn built_correctly(
    ev: Evaluated,
    commitments: Seq<PointHandle>,
    key: Seq<char>,
    vk: VerifyingKeyMeta,
    scalars: Seq<ScalarHandle>,
    start: int,
    x: ScalarHandle,
    instance_evals: Seq<ScalarHandle>,
    advice_evals: Seq<ScalarHandle>,
    fixed_evals: Seq<ScalarHandle>,
    policy: BoundaryReadPolicy,
) -> bool {
    let n = commitments.len() as int;
    &&& ev.sets@.len() == n
    &&& forall|i: int|
        0 <= i < n ==> (#[trigger] ev.sets@[i]).permutation_product_commitment == commitments[i]
    &&& forall|i: int|
        0 <= i < n ==> (#[trigger] ev.sets@[i]).permutation_product_eval == scalars[start + 3 * i]
    &&& forall|i: int|
        0 <= i < n ==> (#[trigger] ev.sets@[i]).permutation_product_next_eval == scalars[start + 3
            * i + 1]
    &&& forall|i: int|
        0 <= i < n ==> (#[trigger] ev.sets@[i]).permutation_product_last_eval == (
        if i < n - 1 || policy == BoundaryReadPolicy::AlwaysRead {
            Some(scalars[start + 3 * i + 2])
        } else {
            None::<ScalarHandle>
        })
    &&& ev.evals@.len() == vk.columns@.len()
    &&& forall|j: int|
        0 <= j < vk.columns@.len() ==> #[trigger] ev.evals@[j] == resolved_eval(
            vk.columns@[j],
            instance_evals,
            advice_evals,
            fixed_evals,
        )
    &&& ev.blinding_factors == vk.blinding_factors
    &&& ev.chunk_len == vk.degree - 2
    &&& ev.x == x
    &&& ev.key@ == key + "_permutation"@
}

impl Evaluated {
    /// Reconstruct the permutation-argument state of one proof instance
    /// from its transcript.
    ///
    /// For each product commitment, in transcript order, reads the
    /// chunk's claimed evaluation at `x`, then at the next-row point,
    /// then — as the boundary policy directs — at the chunk-boundary
    /// point. Afterwards each permutation column's current-row
    /// evaluation is resolved from the array of the column's kind at
    /// its precomputed query index.
    ///
    /// Construction refuses a transcript with fewer scalars than it
    /// must read, and a verifying key whose column indices do not fit
    /// the supplied arrays; in either case the transcript is left
    /// unread.
    #[verifier::loop_isolation(false)]
    pub fn build_from_transcript(
        permutation_product_commitments: Vec<PointHandle>,
        key: &str,
        vk: &VerifyingKeyMeta,
        transcript: &mut Transcript,
        x: ScalarHandle,
        instance_evals: &Vec<ScalarHandle>,
        advice_evals: &Vec<ScalarHandle>,
        fixed_evals: &Vec<ScalarHandle>,
        boundary_policy: BoundaryReadPolicy,
    ) -> (r: Result<Evaluated, PermutationError>)
        requires
            old(transcript).wf(),
            vk.wf(),
            permutation_product_commitments@.len() >= 1,
            3 * permutation_product_commitments@.len() <= usize::MAX,
        ensures
            final(transcript).wf(),
            final(transcript).scalars@ == old(transcript).scalars@,
            (r == Result::<Evaluated, PermutationError>::Err(
                PermutationError::TranscriptUnderrun,
            )) <==> old(transcript).scalars@.len() - old(transcript).cursor < reads_needed(
                boundary_policy,
                permutation_product_commitments@.len() as int,
            ),
            (r == Result::<Evaluated, PermutationError>::Err(
                PermutationError::MetadataMismatch,
            )) <==> (old(transcript).scalars@.len() - old(transcript).cursor >= reads_needed(
                boundary_policy,
                permutation_product_commitments@.len() as int,
            ) && !all_columns_resolvable(
                vk.columns@,
                instance_evals@,
                advice_evals@,
                fixed_evals@,
            )),
            r is Ok <==> (old(transcript).scalars@.len() - old(transcript).cursor >= reads_needed(
                boundary_policy,
                permutation_product_commitments@.len() as int,
            ) && all_columns_resolvable(vk.columns@, instance_evals@, advice_evals@, fixed_evals@)),
            r is Err ==> final(transcript).cursor == old(transcript).cursor,
            r is Ok ==> final(transcript).cursor == old(transcript).cursor + reads_needed(
                boundary_policy,
                permutation_product_commitments@.len() as int,
            ),
            r is Ok ==> built_correctly(
                r->Ok_0,
                permutation_product_commitments@,
                key@,
                *vk,
                old(transcript).scalars@,
                old(transcript).cursor as int,
                x,
                instance_evals@,
                advice_evals@,
                fixed_evals@,
                boundary_policy,
            ),
            r is Ok ==> r->Ok_0.wf(),
    {
        let n = permutation_product_commitments.len();
        let needed: usize = match boundary_policy {
            BoundaryReadPolicy::AlwaysRead => 3 * n,
            BoundaryReadPolicy::SkipFinalChunk => 3 * n - 1,
        };
        if transcript.remaining() < needed {
            return Err(PermutationError::TranscriptUnderrun);
        }
        let mut j: usize = 0;
        while j < vk.columns.len()
            invariant
                j <= vk.columns@.len(),
                forall|jj: int|
                    0 <= jj < j ==> column_resolvable(
                        #[trigger] vk.columns@[jj],
                        instance_evals@,
                        advice_evals@,
                        fixed_evals@,
                    ),
            decreases vk.columns@.len() - j,
        {
            let col = vk.columns[j];
            let bound = match col.kind {
                ColumnKind::Advice => advice_evals.len(),
                ColumnKind::Fixed => fixed_evals.len(),
                ColumnKind::Instance => instance_evals.len(),
            };
            if col.query_index >= bound {
                assert(!column_resolvable(
                    vk.columns@[j as int],
                    instance_evals@,
                    advice_evals@,
                    fixed_evals@,
                ));
                return Err(PermutationError::MetadataMismatch);
            }
            j = j + 1;
        }
        assert(all_columns_resolvable(vk.columns@, instance_evals@, advice_evals@, fixed_evals@));
        let ghost c0 = old(transcript).cursor as int;
        let mut sets: Vec<EvaluatedSet> = Vec::new();
        let mut i: usize = 0;
        while i < n
            invariant
                transcript.wf(),
                transcript.scalars@ == old(transcript).scalars@,
                i <= n,
                transcript.cursor == c0 + (
                if boundary_policy == BoundaryReadPolicy::SkipFinalChunk && i == n {
                    3 * i - 1
                } else {
                    3 * i
                }),
                sets@.len() == i,
                forall|k: int|
                    0 <= k < i ==> (#[trigger] sets@[k]).permutation_product_commitment
                        == permutation_product_commitments@[k],
                forall|k: int|
                    0 <= k < i ==> (#[trigger] sets@[k]).permutation_product_eval == old(
                        transcript,
                    ).scalars@[c0 + 3 * k],
                forall|k: int|
                    0 <= k < i ==> (#[trigger] sets@[k]).permutation_product_next_eval == old(
                        transcript,
                    ).scalars@[c0 + 3 * k + 1],
                forall|k: int|
                    0 <= k < i ==> (#[trigger] sets@[k]).permutation_product_last_eval == (
                    if k < n - 1 || boundary_policy == BoundaryReadPolicy::AlwaysRead {
                        Some(old(transcript).scalars@[c0 + 3 * k + 2])
                    } else {
                        None::<ScalarHandle>
                    }),
            decreases n - i,
        {
            let permutation_product_commitment = permutation_product_commitments[i];
            let permutation_product_eval = transcript.read_scalar();
            let permutation_product_next_eval = transcript.read_scalar();
            let read_last = match boundary_policy {
                BoundaryReadPolicy::AlwaysRead => true,
                BoundaryReadPolicy::SkipFinalChunk => i < n - 1,
            };
            let permutation_product_last_eval = if read_last {
                Some(transcript.read_scalar())
            } else {
                None
            };
            sets.push(
                EvaluatedSet {
                    permutation_product_commitment,
                    permutation_product_eval,
                    permutation_product_next_eval,
                    permutation_product_last_eval,
                },
            );
            i = i + 1;
        }
        let mut evals: Vec<ScalarHandle> = Vec::new();
        let mut jj: usize = 0;
        while jj < vk.columns.len()
            invariant
                jj <= vk.columns@.len(),
                all_columns_resolvable(vk.columns@, instance_evals@, advice_evals@, fixed_evals@),
                evals@.len() == jj,
                forall|k: int|
                    0 <= k < jj ==> #[trigger] evals@[k] == resolved_eval(
                        vk.columns@[k],
                        instance_evals@,
                        advice_evals@,
                        fixed_evals@,
                    ),
            decreases vk.columns@.len() - jj,
        {
            let col = vk.columns[jj];
            assert(column_resolvable(
                vk.columns@[jj as int],
                instance_evals@,
                advice_evals@,
                fixed_evals@,
            ));
            let e = match col.kind {
                ColumnKind::Advice => advice_evals[col.query_index],
                ColumnKind::Fixed => fixed_evals[col.query_index],
                ColumnKind::Instance => instance_evals[col.query_index],
            };
            evals.push(e);
            jj = jj + 1;
        }
        let mut derived_key = String::new();
        derived_key.append(key);
        derived_key.append("_permutation");
        proof {
            assert(derived_key@ =~= key@ + "_permutation"@);
        }
        Ok(
            Evaluated {
                key: derived_key,
                blinding_factors: vk.blinding_factors,
                x,
                sets,
                evals,
                chunk_len: vk.degree - 2,
            },
        )
    }
}

} // verus!

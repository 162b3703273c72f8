use permutation_queries::arith::PointHandle;
use permutation_queries::arith::ScalarHandle;
use permutation_queries::permutation::BoundaryReadPolicy;
use permutation_queries::permutation::CommonEvaluated;
use permutation_queries::permutation::Evaluated;
use permutation_queries::permutation::PermutationError;
use permutation_queries::query::QueryLabel;
use permutation_queries::query::QueryRole;
use permutation_queries::transcript::Transcript;
use permutation_queries::vk::ColumnKind;
use permutation_queries::vk::PermutationColumn;
use permutation_queries::vk::VerifyingKeyMeta;

fn s(n: u64) -> ScalarHandle {
    ScalarHandle { node: n }
}

fn p(n: u64) -> PointHandle {
    PointHandle { node: n }
}

fn col(kind: ColumnKind, query_index: usize) -> PermutationColumn {
    PermutationColumn { kind, query_index }
}

fn scalars(nodes: &[u64]) -> Vec<ScalarHandle> {
    nodes.iter().map(|&n| s(n)).collect()
}

#[test]
fn transcript_read_count_always_read() {
    let mut t = Transcript::new(scalars(&[10, 11, 12, 13, 14, 15, 16, 17, 18]));
    let meta = VerifyingKeyMeta {
        columns: vec![col(ColumnKind::Advice, 0)],
        degree: 3,
        blinding_factors: 2,
    };
    let advice = scalars(&[40]);
    let none: Vec<ScalarHandle> = Vec::new();
    let r = Evaluated::build_from_transcript(
        vec![p(1), p(2)],
        "k",
        &meta,
        &mut t,
        s(5),
        &none,
        &advice,
        &none,
        BoundaryReadPolicy::AlwaysRead,
    );
    assert!(r.is_ok());
    // Two chunks, three reads each: the cursor sits just past scalar 6.
    assert_eq!(t.cursor, 6);
}

#[test]
fn transcript_read_count_skip_final_chunk() {
    let mut t = Transcript::new(scalars(&[10, 11, 12, 13, 14, 15]));
    let meta = VerifyingKeyMeta {
        columns: Vec::new(),
        degree: 3,
        blinding_factors: 2,
    };
    let none: Vec<ScalarHandle> = Vec::new();
    let r = Evaluated::build_from_transcript(
        vec![p(1), p(2)],
        "k",
        &meta,
        &mut t,
        s(5),
        &none,
        &none,
        &none,
        BoundaryReadPolicy::SkipFinalChunk,
    );
    let ev = r.unwrap();
    assert_eq!(t.cursor, 5);
    assert_eq!(
        ev.sets[0].permutation_product_last_eval,
        Some(s(12)),
        "non-final chunk keeps its boundary evaluation"
    );
    assert_eq!(ev.sets[1].permutation_product_last_eval, None);
}

#[test]
fn structural_invariant() {
    let mut t = Transcript::new(scalars(&[1, 2, 3, 4, 5, 6, 7, 8, 9]));
    let meta = VerifyingKeyMeta {
        columns: vec![
            col(ColumnKind::Advice, 0),
            col(ColumnKind::Fixed, 1),
            col(ColumnKind::Instance, 0),
        ],
        degree: 4,
        blinding_factors: 1,
    };
    let instance = scalars(&[50]);
    let advice = scalars(&[60, 61]);
    let fixed = scalars(&[70, 71]);
    let r = Evaluated::build_from_transcript(
        vec![p(1), p(2), p(3)],
        "proof",
        &meta,
        &mut t,
        s(5),
        &instance,
        &advice,
        &fixed,
        BoundaryReadPolicy::AlwaysRead,
    );
    let ev = r.unwrap();
    assert_eq!(ev.sets.len(), 3);
    assert_eq!(ev.evals.len(), 3);
    assert_eq!(ev.blinding_factors, 1);
    assert_eq!(ev.chunk_len, 2);
}

#[test]
fn key_derivation() {
    let mut t = Transcript::new(scalars(&[1, 2, 3]));
    let meta = VerifyingKeyMeta {
        columns: Vec::new(),
        degree: 3,
        blinding_factors: 0,
    };
    let none: Vec<ScalarHandle> = Vec::new();
    let ev = Evaluated::build_from_transcript(
        vec![p(9)],
        "proof0",
        &meta,
        &mut t,
        s(5),
        &none,
        &none,
        &none,
        BoundaryReadPolicy::AlwaysRead,
    )
    .unwrap();
    assert_eq!(ev.key, "proof0_permutation");
}

#[test]
fn query_count() {
    let mut t = Transcript::new(scalars(&[1, 2, 3, 4, 5, 6, 7, 8, 9]));
    let meta = VerifyingKeyMeta {
        columns: Vec::new(),
        degree: 3,
        blinding_factors: 0,
    };
    let none: Vec<ScalarHandle> = Vec::new();
    let ev = Evaluated::build_from_transcript(
        vec![p(1), p(2), p(3)],
        "k",
        &meta,
        &mut t,
        s(5),
        &none,
        &none,
        &none,
        BoundaryReadPolicy::AlwaysRead,
    )
    .unwrap();
    let qs = ev.queries(s(100), s(101));
    // 2n + (n - 1) for n = 3 chunks.
    assert_eq!(qs.len(), 8);
}

#[test]
fn query_ordering() {
    let mut t = Transcript::new(scalars(&[10, 11, 12, 20, 21, 22]));
    let meta = VerifyingKeyMeta {
        columns: Vec::new(),
        degree: 3,
        blinding_factors: 5,
    };
    let none: Vec<ScalarHandle> = Vec::new();
    let x = s(5);
    let ev = Evaluated::build_from_transcript(
        vec![p(1), p(2)],
        "k",
        &meta,
        &mut t,
        x,
        &none,
        &none,
        &none,
        BoundaryReadPolicy::AlwaysRead,
    )
    .unwrap();
    let x_next = s(100);
    let x_last = s(101);
    let qs = ev.queries(x_next, x_last);
    assert_eq!(qs.len(), 5);
    // Chunk-local pairs in ascending chunk order.
    assert_eq!(qs[0].rotation, 0);
    assert_eq!(qs[0].point, x);
    assert_eq!(qs[0].commitment, p(1));
    assert_eq!(qs[0].eval, s(10));
    assert_eq!(qs[1].rotation, 1);
    assert_eq!(qs[1].point, x_next);
    assert_eq!(qs[1].commitment, p(1));
    assert_eq!(qs[1].eval, s(11));
    assert_eq!(qs[2].rotation, 0);
    assert_eq!(qs[2].point, x);
    assert_eq!(qs[2].commitment, p(2));
    assert_eq!(qs[2].eval, s(20));
    assert_eq!(qs[3].rotation, 1);
    assert_eq!(qs[3].point, x_next);
    assert_eq!(qs[3].commitment, p(2));
    assert_eq!(qs[3].eval, s(21));
    // Boundary query of the one non-final chunk, at -(5 + 1).
    assert_eq!(qs[4].rotation, -6);
    assert_eq!(qs[4].point, x_last);
    assert_eq!(qs[4].commitment, p(1));
    assert_eq!(qs[4].eval, s(12));
}

#[test]
fn boundary_queries_descend() {
    let mut t = Transcript::new(scalars(&[1, 2, 3, 4, 5, 6, 7, 8, 9]));
    let meta = VerifyingKeyMeta {
        columns: Vec::new(),
        degree: 3,
        blinding_factors: 0,
    };
    let none: Vec<ScalarHandle> = Vec::new();
    let ev = Evaluated::build_from_transcript(
        vec![p(1), p(2), p(3)],
        "k",
        &meta,
        &mut t,
        s(5),
        &none,
        &none,
        &none,
        BoundaryReadPolicy::AlwaysRead,
    )
    .unwrap();
    let qs = ev.queries(s(100), s(101));
    // The two boundary queries walk chunks 1 then 0.
    assert_eq!(qs[6].commitment, p(2));
    assert_eq!(qs[6].eval, s(6));
    assert_eq!(qs[6].rotation, -1);
    assert_eq!(qs[7].commitment, p(1));
    assert_eq!(qs[7].eval, s(3));
    assert_eq!(qs[7].rotation, -1);
}

#[test]
fn label_uniqueness() {
    let mut t = Transcript::new(scalars(&[1, 2, 3, 4, 5, 6, 7, 8, 9]));
    let meta = VerifyingKeyMeta {
        columns: Vec::new(),
        degree: 3,
        blinding_factors: 0,
    };
    let none: Vec<ScalarHandle> = Vec::new();
    let ev = Evaluated::build_from_transcript(
        vec![p(1), p(2), p(3)],
        "k",
        &meta,
        &mut t,
        s(5),
        &none,
        &none,
        &none,
        BoundaryReadPolicy::AlwaysRead,
    )
    .unwrap();
    let qs = ev.queries(s(100), s(101));
    let texts: Vec<String> = qs.iter().map(|q| q.label.render()).collect();
    // Labels are pairwise distinct, structurally and as rendered text.
    for a in 0..qs.len() {
        for b in 0..qs.len() {
            assert_eq!(
                texts[a] == texts[b],
                a == b,
                "every query carries a label of its own"
            );
            assert_eq!(
                qs[a].label.chunk_index == qs[b].label.chunk_index
                    && qs[a].label.role == qs[b].label.role,
                a == b
            );
        }
    }
    assert_eq!(texts[0], "k_permutation_product_commitment_0_eval");
    assert_eq!(texts[1], "k_permutation_product_commitment_0_next");
    assert_eq!(texts[2], "k_permutation_product_commitment_1_eval");
    assert_eq!(texts[4], "k_permutation_product_commitment_2_eval");
    // Boundary queries walk chunks 1 then 0 in the last role.
    assert_eq!(texts[6], "k_permutation_product_commitment_1_last");
    assert_eq!(texts[7], "k_permutation_product_commitment_0_last");
}

#[test]
fn column_resolution() {
    let mut t = Transcript::new(scalars(&[1, 2, 3]));
    let meta = VerifyingKeyMeta {
        columns: vec![
            col(ColumnKind::Advice, 1),
            col(ColumnKind::Instance, 0),
            col(ColumnKind::Fixed, 2),
        ],
        degree: 5,
        blinding_factors: 0,
    };
    let instance = scalars(&[90, 91]);
    let advice = scalars(&[80, 81, 82]);
    let fixed = scalars(&[70, 71, 72]);
    let ev = Evaluated::build_from_transcript(
        vec![p(9)],
        "k",
        &meta,
        &mut t,
        s(5),
        &instance,
        &advice,
        &fixed,
        BoundaryReadPolicy::AlwaysRead,
    )
    .unwrap();
    // advice_evals = [80, 81, 82], advice column with query index 1 -> 81.
    assert_eq!(ev.evals[0], s(81));
    assert_eq!(ev.evals[1], s(90));
    assert_eq!(ev.evals[2], s(72));
}

#[test]
fn end_to_end_two_chunks() {
    // blinding_factors = 5, degree = 9 (chunk_len = 7), 10 permutation
    // columns split into 2 chunks.
    let (p0, p0n, p0l, p1, p1n, p1l) = (10, 11, 12, 20, 21, 22);
    let mut t = Transcript::new(scalars(&[p0, p0n, p0l, p1, p1n, p1l]));
    let mut columns = Vec::new();
    for i in 0..10 {
        columns.push(col(ColumnKind::Advice, i));
    }
    let meta = VerifyingKeyMeta {
        columns,
        degree: 9,
        blinding_factors: 5,
    };
    let advice = scalars(&[0, 1, 2, 3, 4, 5, 6, 7, 8, 9]);
    let none: Vec<ScalarHandle> = Vec::new();
    let ev = Evaluated::build_from_transcript(
        vec![p(1), p(2)],
        "k",
        &meta,
        &mut t,
        s(5),
        &none,
        &advice,
        &none,
        BoundaryReadPolicy::AlwaysRead,
    )
    .unwrap();
    assert_eq!(ev.chunk_len, 7);
    assert_eq!(ev.sets.len(), 2);
    assert_eq!(ev.sets[0].permutation_product_eval, s(p0));
    assert_eq!(ev.sets[0].permutation_product_next_eval, s(p0n));
    assert_eq!(ev.sets[0].permutation_product_last_eval, Some(s(p0l)));
    assert_eq!(ev.sets[1].permutation_product_eval, s(p1));
    assert_eq!(ev.sets[1].permutation_product_next_eval, s(p1n));
    // Always-read policy: the final chunk carries a boundary value too.
    assert_eq!(ev.sets[1].permutation_product_last_eval, Some(s(p1l)));
    let qs = ev.queries(s(100), s(101));
    assert_eq!(qs.len(), 5);
    let last = &qs[4];
    assert_eq!(last.rotation, -6);
    assert_eq!(last.commitment, p(1), "boundary query references chunk 0");
    assert_eq!(last.eval, s(p0l));
}

#[test]
fn degenerate_single_chunk() {
    for policy in [BoundaryReadPolicy::AlwaysRead, BoundaryReadPolicy::SkipFinalChunk] {
        let mut t = Transcript::new(scalars(&[1, 2, 3]));
        let meta = VerifyingKeyMeta {
            columns: Vec::new(),
            degree: 3,
            blinding_factors: 4,
        };
        let none: Vec<ScalarHandle> = Vec::new();
        let ev = Evaluated::build_from_transcript(
            vec![p(1)],
            "k",
            &meta,
            &mut t,
            s(5),
            &none,
            &none,
            &none,
            policy,
        )
        .unwrap();
        let qs = ev.queries(s(100), s(101));
        assert_eq!(qs.len(), 2);
        assert!(qs.iter().all(|q| q.rotation >= 0), "no boundary query");
    }
}

#[test]
fn transcript_underrun() {
    let mut t = Transcript::new(scalars(&[1, 2, 3, 4, 5]));
    let meta = VerifyingKeyMeta {
        columns: Vec::new(),
        degree: 3,
        blinding_factors: 0,
    };
    let none: Vec<ScalarHandle> = Vec::new();
    let r = Evaluated::build_from_transcript(
        vec![p(1), p(2)],
        "k",
        &meta,
        &mut t,
        s(5),
        &none,
        &none,
        &none,
        BoundaryReadPolicy::AlwaysRead,
    );
    match r {
        Err(e) => assert_eq!(e, PermutationError::TranscriptUnderrun),
        Ok(_) => panic!("five scalars cannot satisfy six reads"),
    }
    assert_eq!(t.cursor, 0, "a refused transcript is left unread");
}

#[test]
fn skip_final_chunk_needs_one_scalar_less() {
    let mut t = Transcript::new(scalars(&[1, 2, 3, 4, 5]));
    let meta = VerifyingKeyMeta {
        columns: Vec::new(),
        degree: 3,
        blinding_factors: 0,
    };
    let none: Vec<ScalarHandle> = Vec::new();
    let r = Evaluated::build_from_transcript(
        vec![p(1), p(2)],
        "k",
        &meta,
        &mut t,
        s(5),
        &none,
        &none,
        &none,
        BoundaryReadPolicy::SkipFinalChunk,
    );
    assert!(r.is_ok(), "five scalars satisfy the five reads of this policy");
}

#[test]
fn metadata_mismatch() {
    let mut t = Transcript::new(scalars(&[1, 2, 3]));
    let meta = VerifyingKeyMeta {
        columns: vec![col(ColumnKind::Advice, 3)],
        degree: 3,
        blinding_factors: 0,
    };
    let advice = scalars(&[80, 81, 82]);
    let none: Vec<ScalarHandle> = Vec::new();
    let mut r = Evaluated::build_from_transcript(
        vec![p(1)],
        "k",
        &meta,
        &mut t,
        s(5),
        &none,
        &advice,
        &none,
        BoundaryReadPolicy::AlwaysRead,
    );
    match r {
        Err(e) => assert_eq!(e, PermutationError::MetadataMismatch),
        Ok(_) => panic!("query index 3 does not fit an array of three"),
    }
    assert_eq!(t.cursor, 0);
    // A fixed column with the same index is likewise out of range.
    let meta2 = VerifyingKeyMeta {
        columns: vec![col(ColumnKind::Fixed, 0)],
        degree: 3,
        blinding_factors: 0,
    };
    r = Evaluated::build_from_transcript(
        vec![p(1)],
        "k",
        &meta2,
        &mut t,
        s(5),
        &none,
        &advice,
        &none,
        BoundaryReadPolicy::AlwaysRead,
    );
    match r {
        Err(e) => assert_eq!(e, PermutationError::MetadataMismatch),
        Ok(_) => panic!("an empty fixed array resolves no fixed column"),
    }
}

#[test]
fn label_render_formula() {
    let label = QueryLabel {
        key: String::from("abc_permutation"),
        chunk_index: 12,
        role: QueryRole::ProductEval,
    };
    assert_eq!(label.render(), "abc_permutation_product_commitment_12_eval");
    let zero = QueryLabel {
        key: String::from("abc_permutation"),
        chunk_index: 0,
        role: QueryRole::ProductNextEval,
    };
    assert_eq!(zero.render(), "abc_permutation_product_commitment_0_next");
    let big = QueryLabel {
        key: String::from("q"),
        chunk_index: 105,
        role: QueryRole::ProductLastEval,
    };
    assert_eq!(big.render(), "q_product_commitment_105_last");
}

#[test]
fn transcript_reader_sequential() {
    let mut t = Transcript::new(scalars(&[7, 8, 9]));
    assert_eq!(t.remaining(), 3);
    assert_eq!(t.read_scalar(), s(7));
    assert_eq!(t.read_scalar(), s(8));
    assert_eq!(t.remaining(), 1);
    assert_eq!(t.read_scalar(), s(9));
    assert_eq!(t.remaining(), 0);
}

#[test]
fn common_evaluated_pairs_columns() {
    let common = CommonEvaluated::new(
        String::from("vk0"),
        scalars(&[1, 2, 3]),
        vec![p(4), p(5), p(6)],
    );
    assert_eq!(common.key, "vk0");
    assert_eq!(common.permutation_evals.len(), common.permutation_commitments.len());
}

#[test]
fn chunk_len_from_degree() {
    let meta = VerifyingKeyMeta {
        columns: Vec::new(),
        degree: 9,
        blinding_factors: 5,
    };
    assert_eq!(meta.chunk_len(), 7);
}

//! Commitment-opening queries and their labels.
//!
//! A query asks the outer opening-verifier to confirm that a commitment
//! opens to a claimed value at a point. Every query carries a label
//! that is unique per (proof instance, chunk, role), so queries never
//! collide with one another nor with those of sibling protocol
//! components sharing the namespace; labels are kept structured and
//! rendered to text only at the boundary.

use vstd::prelude::*;

use crate::arith::PointHandle;
use crate::arith::ScalarHandle;

verus! {

use vstd::string::StringExecFns;

/// The character of one decimal digit.
pub open spec fn digit_char(d: int) -> char {
    if d == 0 {
        '0'
    } else if d == 1 {
        '1'
    } else if d == 2 {
        '2'
    } else if d == 3 {
        '3'
    } else if d == 4 {
        '4'
    } else if d == 5 {
        '5'
    } else if d == 6 {
        '6'
    } else if d == 7 {
        '7'
    } else if d == 8 {
        '8'
    } else {
        '9'
    }
}

/// The decimal digits of `n`, most significant first, without leading
/// zeros (`0` itself renders as `"0"`).
pub open spec fn decimal_digits(n: nat) -> Seq<char>
    decreases n,
{
    if n < 10 {
        seq![digit_char(n as int)]
    } else {
        decimal_digits(n / 10).push(digit_char((n % 10) as int))
    }
}

/// A decimal rendering is never empty, and a number of ten or more
/// renders to at least two digits.
pub proof fn lemma_decimal_len(n: nat)
    ensures
        decimal_digits(n).len() >= 1,
        n >= 10 ==> decimal_digits(n).len() >= 2,
    decreases n,
{
    if n >= 10 {
        lemma_decimal_len(n / 10);
    }
}

/// Law: distinct numbers render to distinct decimal texts.
pub proof fn lemma_decimal_injective(a: nat, b: nat)
    ensures
        decimal_digits(a) == decimal_digits(b) ==> a == b,
    decreases a + b,
{
    if decimal_digits(a) == decimal_digits(b) {
        let da = decimal_digits(a);
        let db = decimal_digits(b);
        if a < 10 && b < 10 {
            assert(da[0] == digit_char(a as int));
            assert(db[0] == digit_char(b as int));
        } else if a < 10 {
            lemma_decimal_len(b);
        } else if b < 10 {
            lemma_decimal_len(a);
        } else {
            assert(da.last() == digit_char((a % 10) as int));
            assert(db.last() == digit_char((b % 10) as int));
            assert(a % 10 == b % 10);
            assert(decimal_digits(a / 10) =~= da.drop_last());
            assert(decimal_digits(b / 10) =~= db.drop_last());
            lemma_decimal_injective(a / 10, b / 10);
            assert(a == 10 * (a / 10) + a % 10);
            assert(b == 10 * (b / 10) + b % 10);
        }
    }
}

/// The one-character string of a decimal digit.
fn digit_str(d: usize) -> (s: &'static str)
    requires
        d < 10,
    ensures
        s@ =~= seq![digit_char(d as int)],
{
    proof {
        reveal_strlit("0");
        reveal_strlit("1");
        reveal_strlit("2");
        reveal_strlit("3");
        reveal_strlit("4");
        reveal_strlit("5");
        reveal_strlit("6");
        reveal_strlit("7");
        reveal_strlit("8");
        reveal_strlit("9");
    }
    match d {
        0 => "0",
        1 => "1",
        2 => "2",
        3 => "3",
        4 => "4",
        5 => "5",
        6 => "6",
        7 => "7",
        8 => "8",
        _ => "9",
    }
}

/// Append the decimal rendering of `n` to `out`.
fn push_decimal(n: usize, out: &mut String)
    ensures
        final(out)@ == old(out)@ + decimal_digits(n as nat),
    decreases n,
{
    if n < 10 {
        out.append(digit_str(n));
        proof {
            assert(out@ =~= old(out)@ + decimal_digits(n as nat));
        }
    } else {
        push_decimal(n / 10, out);
        out.append(digit_str(n % 10));
        proof {
            assert(out@ =~= old(out)@ + decimal_digits(n as nat));
        }
    }
}

/// The role a query plays for its chunk: which claimed evaluation of
/// the chunk's running-product polynomial it opens.
#[derive(Clone, Copy, PartialEq, Eq, Structural, Debug)]
pub enum QueryRole {
    /// The evaluation at the main challenge point `x`.
    ProductEval,
    /// The evaluation at the next-row point.
    ProductNextEval,
    /// The evaluation at the chunk-boundary point.
    ProductLastEval,
}

/// The rendered text of a role, appended to the label's text.
pub open spec fn role_text(role: QueryRole) -> Seq<char> {
    match role {
        QueryRole::ProductEval => seq!['_', 'e', 'v', 'a', 'l'],
        QueryRole::ProductNextEval => seq!['_', 'n', 'e', 'x', 't'],
        QueryRole::ProductLastEval => seq!['_', 'l', 'a', 's', 't'],
    }
}

/// Distinct roles render to distinct texts of one length.
pub proof fn lemma_role_text_injective(a: QueryRole, b: QueryRole)
    ensures
        role_text(a).len() == 5,
        role_text(a) == role_text(b) ==> a == b,
{
    if a != b {
        assert(role_text(a)[1] != role_text(b)[1]);
    }
}

/// Structured label of a query: which chunk's product commitment of
/// which permutation-argument instance is opened, in which role.
#[derive(Debug)]
pub struct QueryLabel {
    /// The owning instance's key, e.g. `"<proof-key>_permutation"`.
    pub key: String,
    /// Index of the chunk whose product commitment the query opens.
    pub chunk_index: usize,
    /// Which of the chunk's claimed evaluations the query opens.
    pub role: QueryRole,
}

/// A request that the opening-verifier confirm `commitment` opens to
/// `eval` at `point`; `rotation` records the row offset for
/// diagnostics and `label` identifies the query uniquely across the
/// protocols sharing the namespace.
#[derive(Debug)]
pub struct EvaluationQuery {
    pub rotation: i32,
    pub point: ScalarHandle,
    pub label: QueryLabel,
    pub commitment: PointHandle,
    pub eval: ScalarHandle,
}

impl QueryLabel {
    /// The label's canonical text:
    /// `"<key>_product_commitment_<chunk_index><role>"`, the role
    /// rendered as `"_eval"`, `"_next"` or `"_last"`.
    pub open spec fn spec_text(self) -> Seq<char> {
        self.key@ + "_product_commitment_"@ + decimal_digits(self.chunk_index as nat) + role_text(
            self.role,
        )
    }

    /// Render the label to its canonical text.
    pub fn render(&self) -> (s: String)
        ensures
            s@ == self.spec_text(),
    {
        let mut s = self.key.clone();
        s.append("_product_commitment_");
        push_decimal(self.chunk_index, &mut s);
        let suffix = match self.role {
            QueryRole::ProductEval => "_eval",
            QueryRole::ProductNextEval => "_next",
            QueryRole::ProductLastEval => "_last",
        };
        proof {
            reveal_strlit("_eval");
            reveal_strlit("_next");
            reveal_strlit("_last");
            assert(suffix@ =~= role_text(self.role));
        }
        s.append(suffix);
        proof {
            assert(s@ =~= self.spec_text());
        }
        s
    }

    /// Law: among labels with one key, the rendered texts tell both
    /// the chunk and the role apart — two such labels render equal
    /// exactly when they name the same chunk in the same role.
    pub proof fn lemma_text_distinct(self, other: QueryLabel)
        requires
            self.key@ == other.key@,
        ensures
            self.spec_text() == other.spec_text() <==> (self.chunk_index == other.chunk_index
                && self.role == other.role),
    {
        let p = self.key@ + "_product_commitment_"@;
        let t1 = decimal_digits(self.chunk_index as nat);
        let t2 = decimal_digits(other.chunk_index as nat);
        let r1 = role_text(self.role);
        let r2 = role_text(other.role);
        lemma_role_text_injective(self.role, other.role);
        lemma_role_text_injective(other.role, self.role);
        assert(self.spec_text() =~= p + t1 + r1);
        assert(other.spec_text() =~= p + t2 + r2);
        if self.spec_text() == other.spec_text() {
            assert(t1.len() == t2.len());
            let s1 = p + t1 + r1;
            let s2 = p + t2 + r2;
            assert(t1 =~= s1.subrange(p.len() as int, (p.len() + t1.len()) as int));
            assert(t2 =~= s2.subrange(p.len() as int, (p.len() + t2.len()) as int));
            assert(r1 =~= s1.subrange((p.len() + t1.len()) as int, s1.len() as int));
            assert(r2 =~= s2.subrange((p.len() + t2.len()) as int, s2.len() as int));
            lemma_decimal_injective(self.chunk_index as nat, other.chunk_index as nat);
        }
        if self.chunk_index == other.chunk_index && self.role == other.role {
            assert(self.spec_text() =~= other.spec_text());
        }
    }
}

} // verus!

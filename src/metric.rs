use vstd::prelude::*;
use vstd::string::StrSliceExecFns;

verus! {

/// The distance measures that the library knows, each bound to the operator
/// token under which a query engine invokes it.
#[derive(Clone, Copy, Debug, PartialEq, Eq, Structural)]
pub enum Metric {
    SquaredEuclidean,
    DotProduct,
    Cosine,
}

/// The operator token of each metric.
pub open spec fn token_of(m: Metric) -> Seq<char> {
    match m {
        Metric::SquaredEuclidean => seq!['<', '-', '>'],
        Metric::DotProduct => seq!['<', '#', '>'],
        Metric::Cosine => seq!['<', '=', '>'],
    }
}

/// The metric bound to token `t`, if any.
pub open spec fn metric_of(t: Seq<char>) -> Option<Metric> {
    if t == token_of(Metric::SquaredEuclidean) {
        Some(Metric::SquaredEuclidean)
    } else if t == token_of(Metric::DotProduct) {
        Some(Metric::DotProduct)
    } else if t == token_of(Metric::Cosine) {
        Some(Metric::Cosine)
    } else {
        None
    }
}

impl Metric {
    /// The operator token bound to this metric.
    pub fn operator_token(&self) -> (r: &'static str)
        ensures
            r@ == token_of(*self),
    {
        match self {
            Metric::SquaredEuclidean => {
                proof { reveal_strlit("<->"); }
                assert("<->"@ =~= token_of(*self));
                "<->"
            },
            Metric::DotProduct => {
                proof { reveal_strlit("<#>"); }
                assert("<#>"@ =~= token_of(*self));
                "<#>"
            },
            Metric::Cosine => {
                proof { reveal_strlit("<=>"); }
                assert("<=>"@ =~= token_of(*self));
                "<=>"
            },
        }
    }

    /// Looks up the metric bound to an operator token.
    pub fn from_operator_token(token: &str) -> (r: Option<Metric>)
        ensures
            r == metric_of(token@),
    {
        if token.unicode_len() != 3 {
            return None;
        }
        let first = token.get_char(0);
        let middle = token.get_char(1);
        let last = token.get_char(2);
        if first != '<' || last != '>' {
            return None;
        }
        if middle == '-' {
            assert(token@ =~= token_of(Metric::SquaredEuclidean));
            Some(Metric::SquaredEuclidean)
        } else if middle == '#' {
            assert(token@ =~= token_of(Metric::DotProduct));
            Some(Metric::DotProduct)
        } else if middle == '=' {
            assert(token@ =~= token_of(Metric::Cosine));
            Some(Metric::Cosine)
        } else {
            None
        }
    }
}

/// Every metric is found again under its own operator token, so no two
/// metrics share a token.
pub proof fn lemma_token_round_trip(m: Metric)
    ensures
        metric_of(token_of(m)) == Some(m),
{
}

/// Distinct metrics are bound to distinct operator tokens.
pub proof fn lemma_tokens_distinct(m1: Metric, m2: Metric)
    requires
        m1 != m2,
    ensures
        token_of(m1) != token_of(m2),
{
    lemma_token_round_trip(m1);
    lemma_token_round_trip(m2);
}

} // verus!

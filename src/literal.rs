//! Decoding of integer literals.
use vstd::prelude::*;
use vstd::string::StrSliceExecFns;
use crate::grammar::{decimal_value, integer_literal, is_digit};

verus! {

proof fn lemma_decimal_prefix(s: Seq<char>, k: int)
    requires
        0 <= k <= s.len(),
        forall|i: int| 0 <= i < s.len() ==> is_digit(#[trigger] s[i]),
    ensures
        0 <= decimal_value(s.subrange(0, k)) <= decimal_value(s),
    decreases s.len(),
{
    if k == s.len() {
        assert(s.subrange(0, k) =~= s);
        if s.len() > 0 {
            lemma_decimal_prefix(s.drop_last(), k - 1);
            assert(s.drop_last().subrange(0, k - 1) =~= s.drop_last());
        }
    } else {
        let d = s.drop_last();
        lemma_decimal_prefix(d, k);
        lemma_decimal_prefix(d, d.len() as int);
        assert(d.subrange(0, k) =~= s.subrange(0, k));
        assert(d.subrange(0, d.len() as int) =~= d);
        assert(is_digit(s[s.len() - 1]));
    }
}

/// The value of a decimal integer literal; `None` when the text is empty,
/// holds a character other than a digit, or names a value above `i64::MAX`.
pub fn parse_integer(text: &String) -> (r: Option<i64>)
    ensures
        r == integer_literal(text@),
{
    let s = text.as_str();
    let n = s.unicode_len();
    if n == 0 {
        return None;
    }
    let mut value: i64 = 0;
    let mut i: usize = 0;
    assert(text@.subrange(0, 0) =~= Seq::<char>::empty());
    while i < n
        invariant
            0 <= i <= n,
            0 <= value,
            n == text@.len(),
            s@ == text@,
            value as int == decimal_value(text@.subrange(0, i as int)),
            forall|j: int| 0 <= j < i ==> is_digit(#[trigger] text@[j]),
        decreases n - i,
    {
        let c = s.get_char(i);
        if !('0' <= c && c <= '9') {
            assert(!is_digit(text@[i as int]));
            return None;
        }
        let d = (c as u32 - '0' as u32) as i64;
        let ghost next = text@.subrange(0, i + 1);
        assert(next.drop_last() =~= text@.subrange(0, i as int));
        assert(decimal_value(next) == value * 10 + d);
        if value > (i64::MAX - d) / 10 {
            assert(value * 10 + d > i64::MAX) by (nonlinear_arith)
                requires
                    value > (i64::MAX - d) / 10,
                    0 <= d <= 9,
            ;
            assert forall|j: int| 0 <= j <= i implies is_digit(#[trigger] next[j]) by {
                assert(next[j] == text@[j]);
            }
            assert(next.len() == i + 1);
            proof {
                if forall|j: int| 0 <= j < text@.len() ==> is_digit(#[trigger] text@[j]) {
                    lemma_decimal_prefix(text@, i + 1);
                }
            }
            return None;
        }
        assert(0 <= value * 10 + d <= i64::MAX) by (nonlinear_arith)
            requires
                value <= (i64::MAX - d) / 10,
                0 <= d <= 9,
                0 <= value,
        ;
        value = value * 10 + d;
        i = i + 1;
    }
    assert(text@.subrange(0, n as int) =~= text@);
    Some(value)
}

} // verus!

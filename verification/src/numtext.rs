use vstd::prelude::*;
use vstd::string::StringSliceAdditionalSpecFns;

verus! {

/// Whether the byte `b` is an ASCII decimal digit.
pub open spec fn is_dec_digit(b: u8) -> bool {
    48 <= b && b <= 57
}

/// Whether every byte of `s` is an ASCII decimal digit.
pub open spec fn all_dec_digits(s: Seq<u8>) -> bool {
    forall|i: int| 0 <= i < s.len() ==> is_dec_digit(s[i])
}

/// The numeric value of `s` read as a base-ten numeral.
pub open spec fn dec_val(s: Seq<u8>) -> int
    decreases s.len(),
{
    if s.len() == 0 {
        0
    } else {
        dec_val(s.drop_last()) * 10 + (s.last() - 48)
    }
}

/// Whether `s` is a well-formed decimal index: nonempty, all digits, and in
/// range of the machine's index type.
pub open spec fn index_ok(s: Seq<u8>) -> bool {
    s.len() > 0 && all_dec_digits(s) && dec_val(s) <= usize::MAX as int
}

pub proof fn lemma_dec_val_nonneg(s: Seq<u8>)
    requires
        all_dec_digits(s),
    ensures
        dec_val(s) >= 0,
    decreases s.len(),
{
    if s.len() > 0 {
        assert(all_dec_digits(s.drop_last())) by {
            assert(forall|i: int| 0 <= i < s.len() - 1 ==> s.drop_last()[i] == s[i]);
        }
        lemma_dec_val_nonneg(s.drop_last());
    }
}

/// Reading more digits never shrinks the value.
pub proof fn lemma_dec_val_prefix(s: Seq<u8>, n: int)
    requires
        all_dec_digits(s),
        0 <= n <= s.len(),
    ensures
        dec_val(s.subrange(0, n)) <= dec_val(s),
    decreases s.len() - n,
{
    if n == s.len() {
        assert(s.subrange(0, n) =~= s);
    } else {
        let p = s.subrange(0, n);
        let q = s.subrange(0, n + 1);
        assert(q.drop_last() =~= p);
        assert(all_dec_digits(p)) by {
            assert(forall|i: int| 0 <= i < n ==> p[i] == s[i]);
        }
        lemma_dec_val_nonneg(p);
        assert(dec_val(q) == dec_val(p) * 10 + (q.last() - 48));
        assert(is_dec_digit(s[n]));
        assert(dec_val(p) <= dec_val(q));
        lemma_dec_val_prefix(s, n + 1);
    }
}

/// Reads a decimal index. Reports the value exactly when the text is a
/// nonempty run of digits whose value fits the index type, and nothing
/// otherwise: empty text, a stray character and an overflowing numeral are
/// all rejected alike.
pub fn parse_index(s: &str) -> (r: Option<usize>)
    ensures
        match r {
            Some(v) => index_ok(s.spec_bytes()) && v as int == dec_val(s.spec_bytes()),
            None => !index_ok(s.spec_bytes()),
        },
{
    let b = s.as_bytes();
    let n = b.len();
    if n == 0 {
        return None;
    }
    let mut acc: usize = 0;
    let mut i: usize = 0;
    while i < n
        invariant
            b@ == s.spec_bytes(),
            n == b@.len(),
            0 <= i <= n,
            all_dec_digits(b@.subrange(0, i as int)),
            acc as int == dec_val(b@.subrange(0, i as int)),
        decreases n - i,
    {
        let c = b[i];
        if c < 48 || c > 57 {
            proof {
                assert(!is_dec_digit(b@[i as int]));
            }
            return None;
        }
        let d = (c - 48) as usize;
        let ghost pre = b@.subrange(0, i as int);
        let ghost cur = b@.subrange(0, i + 1);
        proof {
            assert(cur.drop_last() =~= pre);
            assert(cur.last() == b@[i as int]);
            assert(all_dec_digits(cur)) by {
                assert(forall|j: int| 0 <= j < i ==> cur[j] == pre[j]);
            }
            assert(dec_val(cur) == acc * 10 + d);
        }
        if acc > usize::MAX / 10 {
            proof {
                lemma_dec_val_nonneg(pre);
                assert(acc * 10 + d > usize::MAX as int);
                overflow_rejected(b@, i + 1);
            }
            return None;
        }
        let t = acc * 10;
        if d > usize::MAX - t {
            proof {
                assert(dec_val(cur) > usize::MAX as int);
                overflow_rejected(b@, i + 1);
            }
            return None;
        }
        acc = t + d;
        i = i + 1;
    }
    proof {
        assert(b@.subrange(0, n as int) =~= b@);
    }
    Some(acc)
}

/// When some prefix of the numeral already exceeds the index range, the text
/// as a whole is rejected: either a later byte is not a digit, or the full
/// value exceeds the range as well.
proof fn overflow_rejected(s: Seq<u8>, n: int)
    requires
        0 <= n <= s.len(),
        all_dec_digits(s.subrange(0, n)),
        dec_val(s.subrange(0, n)) > usize::MAX as int,
    ensures
        !index_ok(s),
{
    if all_dec_digits(s) {
        lemma_dec_val_prefix(s, n);
    }
}

} // verus!

use vstd::prelude::*;

verus! {

broadcast use vstd::string::group_string_axioms;

/// An ASCII decimal digit.
pub open spec fn is_digit(c: char) -> bool {
    '0' <= c && c <= '9'
}

/// The numeric value of one decimal digit character.
pub open spec fn digit_val(c: char) -> nat {
    (c as int - '0' as int) as nat
}

/// A non-empty string of decimal digits.
pub open spec fn all_digits(s: Seq<char>) -> bool {
    s.len() > 0 && (forall|i: int| 0 <= i < s.len() ==> is_digit(#[trigger] s[i]))
}

/// The number a digit string denotes, most significant digit first.
pub open spec fn dec_val(s: Seq<char>) -> nat
    decreases s.len(),
{
    if s.len() == 0 {
        0
    } else {
        dec_val(s.drop_last()) * 10 + digit_val(s.last())
    }
}

/// The digit string has no redundant leading zero.
pub open spec fn canonical_dec(s: Seq<char>) -> bool {
    all_digits(s) && (s.len() == 1 || s[0] != '0')
}

/// Growing a digit string never shrinks its value: a prefix denotes at most
/// what the whole string denotes.
proof fn lemma_dec_val_prefix(s: Seq<char>, i: int)
    requires
        0 <= i <= s.len(),
        forall|j: int| 0 <= j < s.len() ==> is_digit(#[trigger] s[j]),
    ensures
        dec_val(s.subrange(0, i)) <= dec_val(s),
    decreases s.len() - i,
{
    if i < s.len() {
        let t = s.subrange(0, i + 1);
        assert(t.drop_last() =~= s.subrange(0, i));
        assert(dec_val(s.subrange(0, i)) * 10 + digit_val(t.last()) >= dec_val(
            s.subrange(0, i),
        )) by (nonlinear_arith);
        lemma_dec_val_prefix(s, i + 1);
        assert(s.subrange(0, s.len() as int) =~= s);
    } else {
        assert(s.subrange(0, s.len() as int) =~= s);
    }
}

/// Reads a non-negative integer from its decimal notation. Returns the
/// denoted value exactly when the string is a non-empty run of decimal
/// digits whose value fits in a `u64`, and nothing otherwise.
pub fn parse_u64(s: &str) -> (r: Option<u64>)
    ensures
        r is Some <==> all_digits(s@) && dec_val(s@) <= u64::MAX,
        r matches Some(v) ==> v == dec_val(s@),
{
    let len = s.unicode_len();
    if len == 0 {
        return None;
    }
    let mut acc: u64 = 0;
    let mut i: usize = 0;
    while i < len
        invariant
            0 < len == s@.len(),
            i <= len,
            forall|j: int| 0 <= j < i ==> is_digit(#[trigger] s@[j]),
            acc == dec_val(s@.subrange(0, i as int)),
        decreases len - i,
    {
        let c = s.get_char(i);
        if !('0' <= c && c <= '9') {
            return None;
        }
        let d: u64 = (c as u32 - '0' as u32) as u64;
        let ghost pre = s@.subrange(0, i as int);
        let ghost cur = s@.subrange(0, i as int + 1);
        proof {
            assert(cur.drop_last() =~= pre);
            assert(cur.last() == s@[i as int]);
        }
        let next = match acc.checked_mul(10) {
            Some(m) => m.checked_add(d),
            None => None,
        };
        match next {
            Some(v) => {
                acc = v;
            },
            None => {
                proof {
                    assert(dec_val(cur) > u64::MAX);
                    if all_digits(s@) {
                        lemma_dec_val_prefix(s@, i as int + 1);
                        assert(dec_val(s@) > u64::MAX);
                    }
                }
                return None;
            },
        }
        i = i + 1;
    }
    proof {
        assert(s@.subrange(0, len as int) =~= s@);
    }
    Some(acc)
}

/// The single-character string for one digit value.
fn digit_str(d: u64) -> (r: &'static str)
    requires
        d < 10,
    ensures
        r@.len() == 1,
        is_digit(r@[0]),
        digit_val(r@[0]) == d,
{
    proof {
        reveal_strlit("0");
        reveal_strlit("1");
        reveal_strlit("2");
        reveal_strlit("3");
        reveal_strlit("4");
        reveal_strlit("5");
        reveal_strlit("6");
        reveal_strlit("7");
        reveal_strlit("8");
        reveal_strlit("9");
    }
    match d {
        0 => "0",
        1 => "1",
        2 => "2",
        3 => "3",
        4 => "4",
        5 => "5",
        6 => "6",
        7 => "7",
        8 => "8",
        _ => "9",
    }
}

/// Ten raised to a power.
pub open spec fn pow10(k: nat) -> nat
    decreases k,
{
    if k == 0 {
        1nat
    } else {
        10 * pow10((k - 1) as nat)
    }
}

/// The number denoted by a digit sequence read least significant digit
/// first.
spec fn lsd_val(ds: Seq<u64>) -> nat
    decreases ds.len(),
{
    if ds.len() == 0 {
        0
    } else {
        (ds[0] + 10 * lsd_val(ds.drop_first())) as nat
    }
}

proof fn lemma_lsd_snoc(ds: Seq<u64>, d: u64)
    ensures
        lsd_val(ds.push(d)) == lsd_val(ds) + d * pow10(ds.len()),
    decreases ds.len(),
{
    if ds.len() == 0 {
        assert(ds.push(d).drop_first() =~= Seq::empty());
        assert(ds.push(d)[0] == d);
        assert(lsd_val(ds.push(d).drop_first()) == 0);
        assert(d * pow10(0) == d) by (nonlinear_arith);
    } else {
        assert(ds.push(d).drop_first() =~= ds.drop_first().push(d));
        lemma_lsd_snoc(ds.drop_first(), d);
        let k = ds.drop_first().len();
        assert(10 * (lsd_val(ds.drop_first()) + d * pow10(k)) == 10 * lsd_val(ds.drop_first()) + d
            * (10 * pow10(k))) by (nonlinear_arith);
    }
}

proof fn lemma_dec_snoc(s: Seq<char>, c: char)
    ensures
        dec_val(s.push(c)) == dec_val(s) * 10 + digit_val(c),
{
    assert(s.push(c).drop_last() =~= s);
    assert(s.push(c).last() == c);
}

/// Writes a non-negative integer in decimal notation: the returned digits
/// denote exactly the argument, with no redundant leading zero.
pub fn u64_to_dec(n: u64) -> (r: String)
    ensures
        canonical_dec(r@),
        dec_val(r@) == n,
{
    proof {
        reveal_strlit("0");
    }
    if n == 0 {
        let out = String::from_str("0");
        assert(out@.len() == 1 && digit_val(out@[0]) == 0 && is_digit(out@[0]));
        assert(dec_val(out@) == dec_val(out@.drop_last()) * 10 + digit_val(out@.last()));
        assert(out@.drop_last() =~= Seq::empty());
        return out;
    }
    let mut ds: Vec<u64> = Vec::new();
    proof {
        assert(ds@ =~= Seq::<u64>::empty());
        assert(lsd_val(ds@) == 0);
        assert(pow10(0) == 1);
        assert(n * pow10(0) == n) by (nonlinear_arith)
            requires pow10(0) == 1;
    }
    let mut m: u64 = n;
    while m > 0
        invariant
            n == m * pow10(ds@.len()) + lsd_val(ds@),
            forall|j: int| 0 <= j < ds@.len() ==> #[trigger] ds@[j] < 10,
            m == 0 ==> ds@.len() > 0 && ds@.last() > 0,
            lsd_val(ds@) <= u64::MAX,
        decreases m,
    {
        let d = m % 10;
        let m2 = m / 10;
        proof {
            let k = ds@.len();
            lemma_lsd_snoc(ds@, d);
            assert(m == m2 * 10 + d);
            assert((m2 * 10 + d) * pow10(k) == m2 * (10 * pow10(k)) + d * pow10(k))
                by (nonlinear_arith);
            assert(ds@.push(d).last() == d);
            assert(lsd_val(ds@) + d * pow10(k) <= n) by {
                assert(m * pow10(k) >= d * pow10(k)) by (nonlinear_arith)
                    requires m >= d, pow10(k) >= 0;
            }
        }
        ds.push(d);
        m = m2;
    }
    let k = ds.len();
    proof {
        assert(ds@.subrange(0, k as int) =~= ds@);
    }
    let mut out = String::new();
    let mut j: usize = k;
    while j > 0
        invariant
            j <= k,
            k == ds@.len(),
            n == lsd_val(ds@),
            forall|jj: int| 0 <= jj < ds@.len() ==> #[trigger] ds@[jj] < 10,
            ds@.last() > 0,
            lsd_val(ds@) == dec_val(out@) * pow10(j as nat) + lsd_val(ds@.subrange(0, j as int)),
            forall|jj: int| 0 <= jj < out@.len() ==> is_digit(#[trigger] out@[jj]),
            out@.len() == k - j,
            out@.len() > 0 ==> digit_val(out@[0]) == ds@.last(),
        decreases j,
    {
        let d = ds[j - 1];
        let piece = digit_str(d);
        let ghost old_out = out@;
        out.append(piece);
        proof {
            assert(out@ =~= old_out.push(piece@[0]));
            lemma_dec_snoc(old_out, piece@[0]);
            let pre = ds@.subrange(0, j as int);
            let pre2 = ds@.subrange(0, j as int - 1);
            assert(pre2.push(d) =~= pre);
            lemma_lsd_snoc(pre2, d);
            let dv = dec_val(old_out);
            assert((dv * 10 + d) * pow10((j - 1) as nat) == dv * (10 * pow10((j - 1) as nat)) + d
                * pow10((j - 1) as nat)) by (nonlinear_arith);
            if j == k {
                assert(digit_val(out@[0]) == d);
            }
        }
        j = j - 1;
    }
    proof {
        assert(ds@.subrange(0, 0) =~= Seq::empty());
        assert(pow10(0) == 1);
        assert(dec_val(out@) * 1 == dec_val(out@)) by (nonlinear_arith);
        assert(out@[0] != '0') by {
            assert(digit_val(out@[0]) == ds@.last());
            assert(is_digit(out@[0]));
        }
    }
    out
}

} // verus!

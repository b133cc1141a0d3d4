use vstd::prelude::*;

verus! {

/// The Unicode lowercasing of a string, as `str::to_lowercase` defines it.
/// A function of the characters alone; only std pins it down.
pub uninterp spec fn lower_of(s: Seq<char>) -> Seq<char>;

/// Relies on std's `str::to_lowercase`: the result depends on the
/// characters of the input alone.
#[verifier::external_body]
pub(crate) fn lowercase(s: &str) -> (r: String)
    ensures
        r@ == lower_of(s@),
{
    s.to_lowercase()
}

/// Character-by-character string equality.
pub fn str_eq(a: &str, b: &str) -> (r: bool)
    ensures
        r == (a@ == b@),
{
    let an = a.unicode_len();
    let bn = b.unicode_len();
    if an != bn {
        assert(a@ != b@);
        return false;
    }
    let mut i: usize = 0;
    while i < an
        invariant
            an == a@.len() == b@.len(),
            i <= an,
            forall|j: int| 0 <= j < i ==> a@[j] == b@[j],
        decreases an - i,
    {
        if a.get_char(i) != b.get_char(i) {
            return false;
        }
        i = i + 1;
    }
    proof {
        assert(a@ =~= b@);
    }
    true
}

/// The character for one decimal digit.
pub open spec fn digit_char(d: int) -> char
    recommends
        0 <= d < 10,
{
    if d == 0 {
        '0'
    } else if d == 1 {
        '1'
    } else if d == 2 {
        '2'
    } else if d == 3 {
        '3'
    } else if d == 4 {
        '4'
    } else if d == 5 {
        '5'
    } else if d == 6 {
        '6'
    } else if d == 7 {
        '7'
    } else if d == 8 {
        '8'
    } else {
        '9'
    }
}

/// The decimal digits of `n`, most significant first, with no leading
/// zeros (`0` itself is the single character `0`).
pub open spec fn dec_digits_of(n: nat) -> Seq<char>
    decreases n,
{
    if n < 10 {
        seq![digit_char(n as int)]
    } else {
        dec_digits_of(n / 10).push(digit_char((n % 10) as int))
    }
}

/// The digit characters for a vector of digit values, least significant
/// first, read back most significant first.
spec fn chars_rev(ds: Seq<u8>) -> Seq<char>
    decreases ds.len(),
{
    if ds.len() == 0 {
        Seq::empty()
    } else {
        seq![digit_char(ds.last() as int)] + chars_rev(ds.drop_last())
    }
}

fn digit_str(d: u8) -> (r: &'static str)
    requires
        d < 10,
    ensures
        r@ == seq![digit_char(d as int)],
{
    proof {
        reveal_strlit("0");
        reveal_strlit("1");
        reveal_strlit("2");
        reveal_strlit("3");
        reveal_strlit("4");
        reveal_strlit("5");
        reveal_strlit("6");
        reveal_strlit("7");
        reveal_strlit("8");
        reveal_strlit("9");
    }
    let r = if d == 0 {
        "0"
    } else if d == 1 {
        "1"
    } else if d == 2 {
        "2"
    } else if d == 3 {
        "3"
    } else if d == 4 {
        "4"
    } else if d == 5 {
        "5"
    } else if d == 6 {
        "6"
    } else if d == 7 {
        "7"
    } else if d == 8 {
        "8"
    } else {
        "9"
    };
    proof {
        assert(r@ =~= seq![digit_char(d as int)]);
    }
    r
}

/// Format `n` in decimal.
pub fn u64_to_string(n: u64) -> (s: String)
    ensures
        s@ == dec_digits_of(n as nat),
{
    let mut s = String::new();
    if n == 0 {
        s.append(digit_str(0));
        return s;
    }
    let mut ds: Vec<u8> = Vec::new();
    let mut cur = n;
    while cur > 0
        invariant
            cur >= 0,
            forall|i: int| 0 <= i < ds@.len() ==> #[trigger] ds@[i] < 10,
            cur > 0 ==> dec_digits_of(n as nat) == dec_digits_of(cur as nat) + chars_rev(ds@),
            cur == 0 ==> dec_digits_of(n as nat) == chars_rev(ds@),
        decreases cur,
    {
        let d = (cur % 10) as u8;
        let ghost prev = ds@;
        ds.push(d);
        let next = cur / 10;
        proof {
            assert(ds@.drop_last() =~= prev);
            assert(chars_rev(ds@) == seq![digit_char(d as int)] + chars_rev(prev));
            if next > 0 {
                assert(dec_digits_of(cur as nat) == dec_digits_of(next as nat).push(
                    digit_char((cur % 10) as int),
                ));
                assert(dec_digits_of(next as nat).push(digit_char(d as int)) + chars_rev(prev)
                    =~= dec_digits_of(next as nat) + chars_rev(ds@));
            } else {
                assert(cur < 10);
                assert(dec_digits_of(cur as nat) =~= seq![digit_char(d as int)]);
                assert(seq![digit_char(d as int)] + chars_rev(prev) =~= chars_rev(ds@));
            }
        }
        cur = next;
    }
    let mut k = ds.len();
    proof {
        assert(ds@.take(ds@.len() as int) =~= ds@);
    }
    while k > 0
        invariant
            k <= ds@.len(),
            forall|i: int| 0 <= i < ds@.len() ==> #[trigger] ds@[i] < 10,
            dec_digits_of(n as nat) == s@ + chars_rev(ds@.take(k as int)),
        decreases k,
    {
        k = k - 1;
        let ghost olds = s@;
        s.append(digit_str(ds[k]));
        proof {
            assert(ds@.take(k as int + 1).last() == ds@[k as int]);
            assert(ds@.take(k as int + 1).drop_last() =~= ds@.take(k as int));
            assert(chars_rev(ds@.take(k as int + 1)) == seq![digit_char(ds@[k as int] as int)]
                + chars_rev(ds@.take(k as int)));
            assert(olds + chars_rev(ds@.take(k as int + 1)) =~= s@ + chars_rev(
                ds@.take(k as int),
            ));
        }
    }
    proof {
        assert(chars_rev(ds@.take(0)) =~= Seq::empty());
        assert(dec_digits_of(n as nat) =~= s@);
    }
    s
}

} // verus!

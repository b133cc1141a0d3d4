use vstd::prelude::*;

verus! {

// The character classes a generated password may draw from. Easily-confused
// characters (I, O, l, 0) are left out, as password generators commonly do.

/// An upper-case letter, except the easily-confused I and O.
pub open spec fn is_upper_char(b: u8) -> bool {
    65 <= b <= 90 && b != 73 && b != 79
}

/// A lower-case letter, except the easily-confused l.
pub open spec fn is_lower_char(b: u8) -> bool {
    97 <= b <= 122 && b != 108
}

/// A digit, except the easily-confused 0.
pub open spec fn is_number_char(b: u8) -> bool {
    49 <= b <= 57
}

/// One of the punctuation characters `! @ # $ % ^ & * _`.
pub open spec fn is_symbol_char(b: u8) -> bool {
    b == 33 || b == 64 || b == 35 || b == 36 || b == 37 || b == 94 || b == 38 || b == 42 || b
        == 95
}

/// Whether `b` belongs to one of the selected classes.
pub open spec fn genpass_char_ok(
    upper: bool,
    lower: bool,
    number: bool,
    symbol: bool,
    b: u8,
) -> bool {
    ||| upper && is_upper_char(b)
    ||| lower && is_lower_char(b)
    ||| number && is_number_char(b)
    ||| symbol && is_symbol_char(b)
}

/// Relies on rand's `Rng::gen_range` over `0..bound`: the result lies in the
/// range. The draw comes from a cryptographically secure generator.
#[verifier::external_body]
fn rand_index(bound: usize) -> (r: usize)
    requires
        bound > 0,
    ensures
        r < bound,
{
    rand::Rng::gen_range(&mut rand::thread_rng(), 0..bound)
}

/// Relies on rand's `SliceRandom::shuffle`: it permutes the slice in place,
/// so the multiset of elements is unchanged.
#[verifier::external_body]
fn shuffle_bytes(v: &mut Vec<u8>)
    ensures
        final(v)@.to_multiset() == old(v)@.to_multiset(),
{
    rand::seq::SliceRandom::shuffle(v.as_mut_slice(), &mut rand::thread_rng());
}

fn push_class_range(pool: &mut Vec<u8>, lo: u8, hi: u8, skip1: u8, skip2: u8)
    requires
        lo <= hi < 255,
    ensures
        final(pool)@.len() >= old(pool)@.len(),
        forall|i: int| 0 <= i < old(pool)@.len() ==> #[trigger] final(pool)@[i] == old(pool)@[i],
        forall|i: int|
            old(pool)@.len() <= i < final(pool)@.len() ==> lo <= #[trigger] final(pool)@[i] <= hi
                && final(pool)@[i] != skip1 && final(pool)@[i] != skip2,
        forall|b: u8| lo <= b <= hi && b != skip1 && b != skip2 ==> final(pool)@.contains(b),
{
    let ghost orig = pool@;
    let mut b: u8 = lo;
    while b <= hi
        invariant
            lo <= b <= hi + 1,
            hi < 255,
            pool@.len() >= orig.len(),
            forall|i: int| 0 <= i < orig.len() ==> #[trigger] pool@[i] == orig[i],
            forall|i: int|
                orig.len() <= i < pool@.len() ==> lo <= #[trigger] pool@[i] <= hi && pool@[i]
                    != skip1 && pool@[i] != skip2,
            forall|c: u8| lo <= c < b && c != skip1 && c != skip2 ==> pool@.contains(c),
        decreases hi + 1 - b,
    {
        let ghost prev = pool@;
        if b != skip1 && b != skip2 {
            pool.push(b);
            assert(pool@[pool@.len() - 1] == b);
        }
        proof {
            assert forall|c: u8| lo <= c <= b && c != skip1 && c != skip2 implies pool@.contains(
                c,
            ) by {
                if c == b {
                    assert(pool@[pool@.len() - 1] == b);
                } else {
                    assert(prev.contains(c));
                    let i = choose|i: int| 0 <= i < prev.len() && prev[i] == c;
                    assert(pool@[i] == c);
                }
            }
        }
        b = b + 1;
    }
}

fn class_pool(upper: bool, lower: bool, number: bool, symbol: bool) -> (r: Vec<u8>)
    requires
        upper || lower || number || symbol,
    ensures
        r@.len() > 0,
        forall|i: int|
            0 <= i < r@.len() ==> genpass_char_ok(upper, lower, number, symbol, #[trigger] r@[i]),
{
    let mut pool: Vec<u8> = Vec::new();
    if upper {
        push_class_range(&mut pool, 65, 90, 73, 79);
        assert(pool@.contains(65u8));
    }
    if lower {
        push_class_range(&mut pool, 97, 122, 108, 108);
        assert(pool@.contains(97u8));
    }
    if number {
        push_class_range(&mut pool, 49, 57, 48, 48);
        assert(pool@.contains(49u8));
    }
    if symbol {
        push_class_range(&mut pool, 33, 33, 32, 32);
        push_class_range(&mut pool, 64, 64, 32, 32);
        push_class_range(&mut pool, 35, 38, 32, 32);
        push_class_range(&mut pool, 94, 94, 32, 32);
        push_class_range(&mut pool, 42, 42, 32, 32);
        push_class_range(&mut pool, 95, 95, 32, 32);
        assert(pool@.contains(95u8));
    }
    pool
}

/// Generate a password of exactly `length` bytes, every byte drawn from the
/// union of the selected character classes. When `length` leaves room for
/// all four, each selected class is represented at least once. The bytes are
/// drawn from a cryptographically secure generator and shuffled, so their
/// order carries no structure a contract could state.
pub fn process_genpass(length: u8, upper: bool, lower: bool, number: bool, symbol: bool) -> (r:
    Vec<u8>)
    requires
        upper || lower || number || symbol,
    ensures
        r@.len() == length as nat,
        forall|i: int|
            0 <= i < r@.len() ==> genpass_char_ok(upper, lower, number, symbol, #[trigger] r@[i]),
        length >= 4 && upper ==> exists|i: int| 0 <= i < r@.len() && is_upper_char(#[trigger] r@[i]),
        length >= 4 && lower ==> exists|i: int| 0 <= i < r@.len() && is_lower_char(#[trigger] r@[i]),
        length >= 4 && number ==> exists|i: int|
            0 <= i < r@.len() && is_number_char(#[trigger] r@[i]),
        length >= 4 && symbol ==> exists|i: int|
            0 <= i < r@.len() && is_symbol_char(#[trigger] r@[i]),
{
    let target: usize = length as usize;
    let mut pass: Vec<u8> = Vec::new();
    let ghost mut rep_upper: u8 = 0;
    let ghost mut rep_lower: u8 = 0;
    let ghost mut rep_number: u8 = 0;
    let ghost mut rep_symbol: u8 = 0;
    if upper && pass.len() < target {
        let p = class_pool(true, false, false, false);
        let j = rand_index(p.len());
        let c = p[j];
        pass.push(c);
        proof {
            rep_upper = c;
            assert(pass@[pass@.len() - 1] == c);
        }
    }
    if lower && pass.len() < target {
        let ghost prev = pass@;
        let p = class_pool(false, true, false, false);
        let j = rand_index(p.len());
        let c = p[j];
        pass.push(c);
        proof {
            rep_lower = c;
            assert(pass@[pass@.len() - 1] == c);
            if prev.contains(rep_upper) {
                lemma_contains_push(prev, pass@, rep_upper);
            }
        }
    }
    if number && pass.len() < target {
        let ghost prev = pass@;
        let p = class_pool(false, false, true, false);
        let j = rand_index(p.len());
        let c = p[j];
        pass.push(c);
        proof {
            rep_number = c;
            assert(pass@[pass@.len() - 1] == c);
            if prev.contains(rep_upper) {
                lemma_contains_push(prev, pass@, rep_upper);
            }
            if prev.contains(rep_lower) {
                lemma_contains_push(prev, pass@, rep_lower);
            }
        }
    }
    if symbol && pass.len() < target {
        let ghost prev = pass@;
        let p = class_pool(false, false, false, true);
        let j = rand_index(p.len());
        let c = p[j];
        pass.push(c);
        proof {
            rep_symbol = c;
            assert(pass@[pass@.len() - 1] == c);
            if prev.contains(rep_upper) {
                lemma_contains_push(prev, pass@, rep_upper);
            }
            if prev.contains(rep_lower) {
                lemma_contains_push(prev, pass@, rep_lower);
            }
            if prev.contains(rep_number) {
                lemma_contains_push(prev, pass@, rep_number);
            }
        }
    }
    let pool = class_pool(upper, lower, number, symbol);
    while pass.len() < target
        invariant
            pool@.len() > 0,
            pass@.len() <= target,
            forall|i: int|
                0 <= i < pool@.len() ==> genpass_char_ok(
                    upper,
                    lower,
                    number,
                    symbol,
                    #[trigger] pool@[i],
                ),
            forall|i: int|
                0 <= i < pass@.len() ==> genpass_char_ok(
                    upper,
                    lower,
                    number,
                    symbol,
                    #[trigger] pass@[i],
                ),
            target >= 4 && upper ==> is_upper_char(rep_upper) && pass@.contains(rep_upper),
            target >= 4 && lower ==> is_lower_char(rep_lower) && pass@.contains(rep_lower),
            target >= 4 && number ==> is_number_char(rep_number) && pass@.contains(rep_number),
            target >= 4 && symbol ==> is_symbol_char(rep_symbol) && pass@.contains(rep_symbol),
        decreases target - pass@.len(),
    {
        let ghost prev = pass@;
        let j = rand_index(pool.len());
        pass.push(pool[j]);
        proof {
            if prev.contains(rep_upper) {
                lemma_contains_push(prev, pass@, rep_upper);
            }
            if prev.contains(rep_lower) {
                lemma_contains_push(prev, pass@, rep_lower);
            }
            if prev.contains(rep_number) {
                lemma_contains_push(prev, pass@, rep_number);
            }
            if prev.contains(rep_symbol) {
                lemma_contains_push(prev, pass@, rep_symbol);
            }
        }
    }
    let ghost before = pass@;
    shuffle_bytes(&mut pass);
    proof {
        broadcast use vstd::seq_lib::group_to_multiset_ensures;

        assert(pass@.len() == pass@.to_multiset().len());
        assert(before.len() == before.to_multiset().len());
        assert forall|b: u8| before.contains(b) implies pass@.contains(b) by {
            assert(before.to_multiset().count(b) > 0);
            assert(pass@.to_multiset().count(b) > 0);
        }
        if target >= 4 && upper {
            let j = choose|j: int| 0 <= j < pass@.len() && pass@[j] == rep_upper;
            assert(is_upper_char(pass@[j]));
        }
        if target >= 4 && lower {
            let j = choose|j: int| 0 <= j < pass@.len() && pass@[j] == rep_lower;
            assert(is_lower_char(pass@[j]));
        }
        if target >= 4 && number {
            let j = choose|j: int| 0 <= j < pass@.len() && pass@[j] == rep_number;
            assert(is_number_char(pass@[j]));
        }
        if target >= 4 && symbol {
            let j = choose|j: int| 0 <= j < pass@.len() && pass@[j] == rep_symbol;
            assert(is_symbol_char(pass@[j]));
        }
        assert forall|i: int| 0 <= i < pass@.len() implies genpass_char_ok(
            upper,
            lower,
            number,
            symbol,
            #[trigger] pass@[i],
        ) by {
            assert(pass@.contains(pass@[i]));
            assert(pass@.to_multiset().count(pass@[i]) > 0);
            assert(before.to_multiset().count(pass@[i]) > 0);
            assert(before.contains(pass@[i]));
            let j = choose|j: int| 0 <= j < before.len() && before[j] == pass@[i];
            assert(genpass_char_ok(upper, lower, number, symbol, before[j]));
        }
    }
    pass
}

proof fn lemma_contains_push(s: Seq<u8>, t: Seq<u8>, b: u8)
    requires
        t.len() == s.len() + 1,
        forall|i: int| 0 <= i < s.len() ==> t[i] == s[i],
        s.contains(b),
    ensures
        t.contains(b),
{
    let i = choose|i: int| 0 <= i < s.len() && s[i] == b;
    assert(t[i] == b);
}

} // verus!

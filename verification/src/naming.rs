//! Resolving filename collisions in the destination directory.
//!
//! A received file is saved under the name the sender declared; when
//! that name is already taken, a numeric suffix is appended before the
//! extension — `a.txt` becomes `a_1.txt`, then `a_2.txt` — counting
//! upward until an unused name is found.  The check against the
//! directory is not atomic with the file's creation; that race is
//! accepted for a single-process receiver.

use vstd::prelude::*;
use vstd::slice::slice_subrange;
use vstd::slice::slice_to_vec;

verus! {

/// The ASCII period, separating stem and extension.
pub const DOT: u8 = 0x2e;

/// The ASCII underscore, introducing the numeric suffix.
pub const UNDERSCORE: u8 = 0x5f;

/// The decimal digits of `n`, most significant first, as ASCII bytes.
pub open spec fn dec_digits(n: nat) -> Seq<u8>
    decreases n,
{
    if n < 10 {
        seq![(0x30 + n) as u8]
    } else {
        dec_digits(n / 10).push((0x30 + n % 10) as u8)
    }
}

/// The index of the last period usable as an extension separator: the
/// last period at index one or higher, or -1 when there is none.  A
/// name that starts with its only period, like a dot-file, has no
/// extension.
pub open spec fn spec_last_dot(name: Seq<u8>) -> int
    decreases name.len(),
{
    if name.len() <= 1 {
        -1
    } else if name[name.len() - 1] == DOT {
        name.len() - 1
    } else {
        spec_last_dot(name.drop_last())
    }
}

/// The name up to its extension separator, or the whole name when it
/// has no extension.
pub open spec fn spec_stem(name: Seq<u8>) -> Seq<u8> {
    if spec_last_dot(name) >= 1 {
        name.take(spec_last_dot(name))
    } else {
        name
    }
}

/// The extension separator and everything after it, or empty when the
/// name has no extension.
pub open spec fn spec_ext(name: Seq<u8>) -> Seq<u8> {
    if spec_last_dot(name) >= 1 {
        name.skip(spec_last_dot(name))
    } else {
        Seq::empty()
    }
}

/// The `n`-th name tried for a colliding `name`: the name itself first,
/// then the stem, an underscore and the counter, with the extension
/// following.
pub open spec fn spec_candidate(name: Seq<u8>, n: nat) -> Seq<u8> {
    if n == 0 {
        name
    } else {
        spec_stem(name) + seq![UNDERSCORE] + dec_digits(n) + spec_ext(name)
    }
}

/// Whether a candidate name is already taken in the destination
/// directory.
pub open spec fn taken(existing: Seq<Vec<u8>>, cand: Seq<u8>) -> bool {
    exists|j: int| 0 <= j < existing.len() && existing[j]@ == cand
}

/// A decimal representation has at least one digit.
proof fn lemma_dec_digits_len(n: nat)
    ensures
        dec_digits(n).len() >= 1,
    decreases n,
{
    if n >= 10 {
        lemma_dec_digits_len(n / 10);
    }
}

/// Distinct counters have distinct decimal representations.
proof fn lemma_dec_digits_injective(n: nat, m: nat)
    requires
        dec_digits(n) == dec_digits(m),
    ensures
        n == m,
    decreases n,
{
    lemma_dec_digits_len(n);
    lemma_dec_digits_len(m);
    if n < 10 && m < 10 {
        assert(dec_digits(n)[0] == 0x30 + n);
        assert(dec_digits(m)[0] == 0x30 + m);
    } else if n < 10 && m >= 10 {
        lemma_dec_digits_len(m / 10);
        assert(dec_digits(n).len() == 1);
        assert(dec_digits(m).len() >= 2);
    } else if n >= 10 && m < 10 {
        lemma_dec_digits_len(n / 10);
        assert(dec_digits(n).len() >= 2);
        assert(dec_digits(m).len() == 1);
    } else {
        assert(dec_digits(n).last() == 0x30 + n % 10);
        assert(dec_digits(m).last() == 0x30 + m % 10);
        assert(dec_digits(n).drop_last() =~= dec_digits(n / 10));
        assert(dec_digits(m).drop_last() =~= dec_digits(m / 10));
        lemma_dec_digits_injective(n / 10, m / 10);
        assert(n == 10 * (n / 10) + n % 10);
        assert(m == 10 * (m / 10) + m % 10);
    }
}

/// Distinct counters give distinct candidate names.
proof fn lemma_candidate_injective(name: Seq<u8>, n: nat, m: nat)
    requires
        n >= 1,
        m >= 1,
        spec_candidate(name, n) == spec_candidate(name, m),
    ensures
        n == m,
{
    let s = spec_stem(name);
    let e = spec_ext(name);
    let dn = dec_digits(n);
    let dm = dec_digits(m);
    let cn = spec_candidate(name, n);
    let cm = spec_candidate(name, m);
    assert(cn.len() == s.len() + 1 + dn.len() + e.len());
    assert(cm.len() == s.len() + 1 + dm.len() + e.len());
    assert(dn.len() == dm.len());
    assert forall|i: int| 0 <= i < dn.len() implies dn[i] == dm[i] by {
        assert(cn[s.len() + 1 + i] == dn[i]);
        assert(cm[s.len() + 1 + i] == dm[i]);
    }
    assert(dn =~= dm);
    lemma_dec_digits_injective(n, m);
}

/// No directory of `k` entries can hold all of `k + 1` consecutive
/// candidates: counting upward from any positive counter, some
/// candidate within the next `k + 1` is free.
proof fn lemma_candidate_free(name: Seq<u8>, existing: Seq<Vec<u8>>, n0: nat)
    requires
        n0 >= 1,
    ensures
        exists|n: nat|
            n0 <= n <= n0 + existing.len() && !taken(existing, #[trigger] spec_candidate(name, n)),
    decreases existing.len(),
{
    if !taken(existing, spec_candidate(name, n0)) {
        assert(n0 <= n0 <= n0 + existing.len() && !taken(existing, spec_candidate(name, n0)));
    } else {
        let j = choose|j: int| 0 <= j < existing.len() && existing[j]@ == spec_candidate(name, n0);
        let rest = existing.remove(j);
        existing.remove_ensures(j);
        lemma_candidate_free(name, rest, n0 + 1);
        let n = choose|n: nat|
            n0 + 1 <= n <= n0 + 1 + rest.len() && !taken(rest, #[trigger] spec_candidate(name, n));
        assert(!taken(existing, spec_candidate(name, n))) by {
            if taken(existing, spec_candidate(name, n)) {
                let i = choose|i: int|
                    0 <= i < existing.len() && existing[i]@ == spec_candidate(name, n);
                if i == j {
                    lemma_candidate_injective(name, n, n0);
                }
                assert(i != j);
                if i < j {
                    assert(rest[i] == existing[i]);
                } else {
                    assert(rest[i - 1] == existing[i]);
                }
            }
        }
        assert(n0 <= n <= n0 + existing.len() && !taken(existing, spec_candidate(name, n)));
    }
}

/// Compare two byte strings.
fn bytes_eq(a: &Vec<u8>, b: &Vec<u8>) -> (r: bool)
    ensures
        r <==> a@ == b@,
{
    if a.len() != b.len() {
        proof {
            assert(a@.len() != b@.len());
        }
        return false;
    }
    let n = a.len();
    for i in 0..n
        invariant
            n == a@.len() && n == b@.len(),
            forall|j: int| 0 <= j < i ==> a@[j] == b@[j],
    {
        if a[i] != b[i] {
            return false;
        }
    }
    proof {
        assert(a@ =~= b@);
    }
    true
}

/// Whether a candidate name is already taken.
fn is_taken(existing: &Vec<Vec<u8>>, cand: &Vec<u8>) -> (r: bool)
    ensures
        r <==> taken(existing@, cand@),
{
    let n = existing.len();
    for i in 0..n
        invariant
            n == existing@.len(),
            forall|j: int| 0 <= j < i ==> existing@[j]@ != cand@,
    {
        if bytes_eq(&existing[i], cand) {
            return true;
        }
    }
    false
}

/// Find the last usable extension separator; zero means none, since a
/// separator at the very front does not count.
fn find_last_dot(name: &Vec<u8>) -> (r: usize)
    ensures
        r == 0 ==> spec_last_dot(name@) == -1,
        r >= 1 ==> spec_last_dot(name@) == r,
        r < name@.len() || r == 0,
{
    let mut i = name.len();
    proof {
        assert(name@.take(i as int) =~= name@);
    }
    while i > 1
        invariant
            i <= name@.len(),
            spec_last_dot(name@) == spec_last_dot(name@.take(i as int)),
        decreases i,
    {
        if name[i - 1] == DOT {
            proof {
                assert(name@.take(i as int).len() == i);
                assert(name@.take(i as int)[i - 1] == name@[i - 1]);
            }
            return i - 1;
        }
        proof {
            assert(name@.take(i as int).drop_last() =~= name@.take(i - 1));
            assert(name@.take(i as int)[i - 1] == name@[i - 1]);
        }
        i = i - 1;
    }
    proof {
        assert(name@.take(i as int).len() <= 1);
    }
    0
}

/// Append the decimal digits of `n` to `out`.
fn push_dec_digits(out: &mut Vec<u8>, n: u64)
    ensures
        final(out)@ == old(out)@ + dec_digits(n as nat),
    decreases n,
{
    if n < 10 {
        out.push(0x30 + (n as u8));
        assert(out@ =~= old(out)@ + dec_digits(n as nat));
    } else {
        push_dec_digits(out, n / 10);
        out.push(0x30 + ((n % 10) as u8));
        assert(out@ =~= old(out)@ + dec_digits(n as nat));
    }
}

/// Build the `n`-th candidate for a colliding name.
fn make_candidate(name: &Vec<u8>, n: u64) -> (r: Vec<u8>)
    requires
        n >= 1,
    ensures
        r@ == spec_candidate(name@, n as nat),
{
    let dot = find_last_dot(name);
    let mut r: Vec<u8>;
    if dot >= 1 {
        r = slice_to_vec(slice_subrange(name.as_slice(), 0, dot));
    } else {
        r = name.clone();
    }
    r.push(UNDERSCORE);
    push_dec_digits(&mut r, n);
    if dot >= 1 {
        let mut ext = slice_to_vec(slice_subrange(name.as_slice(), dot, name.len()));
        r.append(&mut ext);
    }
    proof {
        assert(r@ =~= spec_candidate(name@, n as nat));
    }
    r
}

/// Resolve a destination name against the names already present: the
/// declared name itself when it is free, otherwise the first candidate
/// `stem_1.ext`, `stem_2.ext`, … that is not yet taken.
pub fn unique_name(name: &Vec<u8>, existing: &Vec<Vec<u8>>) -> (r: Vec<u8>)
    requires
        existing@.len() < usize::MAX,
    ensures
        !taken(existing@, r@),
        !taken(existing@, name@) ==> r@ == name@,
        taken(existing@, name@) ==> exists|n: nat|
            1 <= n && r@ == spec_candidate(name@, n) && forall|m: nat|
                1 <= m < n ==> taken(existing@, #[trigger] spec_candidate(name@, m)),
{
    if !is_taken(existing, name) {
        return name.clone();
    }
    let mut n: usize = 1;
    loop
        invariant
            existing@.len() < usize::MAX,
            taken(existing@, name@),
            1 <= n <= existing@.len() + 1,
            forall|m: nat| 1 <= m < n ==> taken(existing@, #[trigger] spec_candidate(name@, m)),
        decreases existing@.len() + 1 - n,
    {
        let cand = make_candidate(name, n as u64);
        if !is_taken(existing, &cand) {
            proof {
                let w: nat = n as nat;
                assert(1 <= w && cand@ == spec_candidate(name@, w) && forall|m: nat|
                    1 <= m < w ==> taken(existing@, #[trigger] spec_candidate(name@, m)));
            }
            return cand;
        }
        proof {
            if n == existing@.len() + 1 {
                lemma_candidate_free(name@, existing@, 1);
                let w = choose|w: nat|
                    1 <= w <= 1 + existing@.len() && !taken(
                        existing@,
                        #[trigger] spec_candidate(name@, w),
                    );
                assert(taken(existing@, spec_candidate(name@, w)));
            }
        }
        n = n + 1;
    }
}

} // verus!

//! Character-level helpers: ASCII case folding, decimal and hexadecimal
//! rendering, and lexicographic byte order.
use vstd::prelude::*;

verus! {

/// ASCII lower-casing of one character; other characters are unchanged.
pub open spec fn ascii_lower(c: char) -> char {
    if 'A' <= c && c <= 'Z' {
        ((c as u32) + 32) as char
    } else {
        c
    }
}

/// ASCII lower-casing of a string.
pub open spec fn ascii_lower_seq(s: Seq<char>) -> Seq<char> {
    Seq::new(s.len(), |i: int| ascii_lower(s[i]))
}

/// Whether `s`, ASCII-lower-cased, is exactly `lowered`.
pub fn lower_equals(s: &str, lowered: &str) -> (b: bool)
    ensures
        b == (ascii_lower_seq(s@) == lowered@),
{
    let n = s.unicode_len();
    let m = lowered.unicode_len();
    if n != m {
        proof {
            assert(ascii_lower_seq(s@).len() != lowered@.len());
        }
        return false;
    }
    let mut i: usize = 0;
    while i < n
        invariant
            n == s@.len(),
            m == lowered@.len(),
            n == m,
            i <= n,
            forall|j: int| 0 <= j < i ==> ascii_lower(#[trigger] s@[j]) == lowered@[j],
        decreases n - i,
    {
        let c = s.get_char(i);
        let d = lowered.get_char(i);
        let folded = if 'A' <= c && c <= 'Z' {
            (c as u32) + 32 == d as u32
        } else {
            c == d
        };
        if !folded {
            proof {
                assert(ascii_lower_seq(s@)[i as int] != lowered@[i as int]);
            }
            return false;
        }
        i = i + 1;
    }
    proof {
        assert(ascii_lower_seq(s@) =~= lowered@);
    }
    true
}

/// The decimal digit character for `d < 10`.
pub open spec fn digit_char(d: nat) -> char {
    (48 + d) as char
}

/// The decimal rendering of `n`, without leading zeros.
pub open spec fn decimal(n: nat) -> Seq<char>
    decreases n,
{
    if n < 10 {
        seq![digit_char(n)]
    } else {
        decimal(n / 10).push(digit_char(n % 10))
    }
}

/// Appends the decimal digit `d` to `out`.
fn push_digit(out: &mut String, d: usize)
    requires
        d < 10,
    ensures
        final(out)@ == old(out)@.push(digit_char(d as nat)),
{
    let digits = "0123456789";
    proof {
        reveal_strlit("0123456789");
    }
    let one = digits.substring_char(d, d + 1);
    proof {
        assert(one@ =~= seq![digit_char(d as nat)]);
    }
    out.append(one);
}

/// The decimal rendering of `n`.
pub fn to_decimal(n: usize) -> (s: String)
    ensures
        s@ == decimal(n as nat),
    decreases n,
{
    if n < 10 {
        let mut s = String::new();
        push_digit(&mut s, n);
        proof {
            assert(s@ =~= decimal(n as nat));
        }
        s
    } else {
        let mut s = to_decimal(n / 10);
        push_digit(&mut s, n % 10);
        s
    }
}

/// Lowercase hexadecimal digit character for `d < 16`.
pub open spec fn hex_char(d: nat) -> char {
    if d < 10 {
        (48 + d) as char
    } else {
        (87 + d) as char
    }
}

/// Two lowercase hexadecimal digits per byte, most significant first.
pub open spec fn hex_lower(bytes: Seq<u8>) -> Seq<char>
    decreases bytes.len(),
{
    if bytes.len() == 0 {
        Seq::empty()
    } else {
        hex_lower(bytes.drop_last()) + seq![
            hex_char((bytes.last() / 16) as nat),
            hex_char((bytes.last() % 16) as nat),
        ]
    }
}

fn push_hex_digit(out: &mut String, d: u8)
    requires
        d < 16,
    ensures
        final(out)@ == old(out)@.push(hex_char(d as nat)),
{
    let digits = "0123456789abcdef";
    proof {
        reveal_strlit("0123456789abcdef");
    }
    let i = d as usize;
    let one = digits.substring_char(i, i + 1);
    proof {
        assert(one@ =~= seq![hex_char(d as nat)]);
    }
    out.append(one);
}

/// Renders `bytes` as lowercase hexadecimal.
pub fn to_hex_lower(bytes: &[u8]) -> (s: String)
    ensures
        s@ == hex_lower(bytes@),
{
    let mut s = String::new();
    let mut i: usize = 0;
    while i < bytes.len()
        invariant
            i <= bytes@.len(),
            s@ == hex_lower(bytes@.take(i as int)),
        decreases bytes@.len() - i,
    {
        let b = bytes[i];
        push_hex_digit(&mut s, b / 16);
        push_hex_digit(&mut s, b % 16);
        proof {
            let next = bytes@.take(i + 1);
            assert(next.drop_last() =~= bytes@.take(i as int));
            assert(next.last() == b);
        }
        i = i + 1;
    }
    proof {
        assert(bytes@.take(bytes@.len() as int) =~= bytes@);
    }
    s
}

/// `a` and `b` agree on their first `k` bytes, and at `k` either `a` ends
/// while `b` goes on, or `a` holds the smaller byte.
pub open spec fn first_difference_at(a: Seq<u8>, b: Seq<u8>, k: int) -> bool {
    &&& 0 <= k <= a.len()
    &&& k <= b.len()
    &&& a.take(k) =~= b.take(k)
    &&& k < b.len()
    &&& (k == a.len() || a[k] < b[k])
}

/// `a` comes strictly before `b` in lexicographic byte order.
pub open spec fn bytes_lt(a: Seq<u8>, b: Seq<u8>) -> bool {
    exists|k: int| #[trigger] first_difference_at(a, b, k)
}

/// Whether `a` comes strictly before `b` in lexicographic byte order.
pub fn less_bytes(a: &Vec<u8>, b: &Vec<u8>) -> (lt: bool)
    ensures
        lt == bytes_lt(a@, b@),
{
    let mut i: usize = 0;
    while i < a.len() && i < b.len()
        invariant
            i <= a@.len(),
            i <= b@.len(),
            a@.take(i as int) =~= b@.take(i as int),
        decreases a@.len() - i,
    {
        if a[i] != b[i] {
            let lt = a[i] < b[i];
            proof {
                if lt {
                    assert(first_difference_at(a@, b@, i as int));
                } else {
                    assert forall|k: int| !#[trigger] first_difference_at(a@, b@, k) by {
                        if first_difference_at(a@, b@, k) {
                            if k > i {
                                assert(a@.take(k)[i as int] == b@.take(k)[i as int]);
                            } else if k < i {
                                assert(a@.take(i as int)[k] == b@.take(i as int)[k]);
                            }
                        }
                    }
                }
            }
            return lt;
        }
        proof {
            assert(a@.take(i + 1) =~= a@.take(i as int).push(a@[i as int]));
            assert(b@.take(i + 1) =~= b@.take(i as int).push(b@[i as int]));
        }
        i = i + 1;
    }
    let lt = i == a.len() && i < b.len();
    proof {
        if lt {
            assert(first_difference_at(a@, b@, i as int));
        } else {
            assert forall|k: int| !#[trigger] first_difference_at(a@, b@, k) by {
                if first_difference_at(a@, b@, k) && k < i {
                    assert(a@.take(i as int)[k] == b@.take(i as int)[k]);
                }
            }
        }
    }
    lt
}

/// Byte order is transitive.
pub proof fn lemma_bytes_lt_transitive(a: Seq<u8>, b: Seq<u8>, c: Seq<u8>)
    requires
        bytes_lt(a, b),
        bytes_lt(b, c),
    ensures
        bytes_lt(a, c),
{
    let k1 = choose|k: int| first_difference_at(a, b, k);
    let k2 = choose|k: int| first_difference_at(b, c, k);
    if k1 < k2 {
        assert forall|i: int| 0 <= i < k1 implies a[i] == c[i] by {
            assert(a.take(k1)[i] == b.take(k1)[i]);
            assert(b.take(k2)[i] == c.take(k2)[i]);
        }
        assert(b.take(k2)[k1] == c.take(k2)[k1]);
        assert(a.take(k1) =~= c.take(k1));
        assert(first_difference_at(a, c, k1));
    } else if k2 < k1 {
        assert forall|i: int| 0 <= i < k2 implies a[i] == c[i] by {
            assert(a.take(k1)[i] == b.take(k1)[i]);
            assert(b.take(k2)[i] == c.take(k2)[i]);
        }
        assert(a.take(k1)[k2] == b.take(k1)[k2]);
        assert(a.take(k2) =~= c.take(k2));
        assert(first_difference_at(a, c, k2));
    } else {
        assert forall|i: int| 0 <= i < k1 implies a[i] == c[i] by {
            assert(a.take(k1)[i] == b.take(k1)[i]);
            assert(b.take(k2)[i] == c.take(k2)[i]);
        }
        assert(a.take(k1) =~= c.take(k1));
        assert(first_difference_at(a, c, k1));
    }
}

/// Byte order: nothing sorts before itself; a proper prefix sorts first;
/// and after a common prefix the smaller byte sorts first.
pub proof fn lemma_bytes_order_basics(a: Seq<u8>, p: Seq<u8>, x: u8, y: u8, ra: Seq<u8>, rb: Seq<u8>)
    ensures
        !bytes_lt(a, a),
        bytes_lt(p, p.push(x)),
        x < y ==> bytes_lt(p.push(x) + ra, p.push(y) + rb),
{
    if bytes_lt(a, a) {
        let k = choose|k: int| first_difference_at(a, a, k);
        assert(first_difference_at(a, a, k));
    }
    assert(p.push(x).take(p.len() as int) =~= p);
    assert(p.take(p.len() as int) =~= p);
    assert(first_difference_at(p, p.push(x), p.len() as int));
    if x < y {
        let l = p.push(x) + ra;
        let r = p.push(y) + rb;
        assert(l.take(p.len() as int) =~= r.take(p.len() as int));
        assert(l[p.len() as int] == x);
        assert(r[p.len() as int] == y);
        assert(first_difference_at(l, r, p.len() as int));
    }
}

} // verus!

use vstd::prelude::*;

use crate::decimal::{parse_u16, parse_u16_spec};

verus! {

/// The part of a port spec (`3000/tcp`) before its first `/`.
pub open spec fn before_slash(s: Seq<char>) -> Seq<char>
    decreases s.len(),
{
    if s.len() == 0 || s[0] == '/' {
        Seq::empty()
    } else {
        seq![s[0]] + before_slash(s.drop_first())
    }
}

/// The port that a spec `<port>/<proto>` declares, if its port is a number.
pub open spec fn spec_port(s: Seq<char>) -> Option<u16> {
    parse_u16_spec(before_slash(s))
}

/// Whether some spec of `specs` declares `port`.
pub open spec fn declares_port(specs: Seq<String>, port: u16) -> bool {
    exists|i: int| 0 <= i < specs.len() && spec_port(#[trigger] specs[i]@) == Some(port)
}

pub open spec fn strictly_increasing(s: Seq<u16>) -> bool {
    forall|i: int, j: int| 0 <= i < j < s.len() ==> #[trigger] s[i] < #[trigger] s[j]
}

proof fn lemma_before_slash(s: Seq<char>, k: int)
    requires
        0 <= k <= s.len(),
        forall|j: int| 0 <= j < k ==> #[trigger] s[j] != '/',
        k == s.len() || s[k] == '/',
    ensures
        before_slash(s) == s.take(k),
    decreases s.len(),
{
    if s.len() == 0 || s[0] == '/' {
        assert(s.take(k) =~= Seq::<char>::empty());
    } else {
        let t = s.drop_first();
        assert forall|j: int| 0 <= j < k - 1 implies #[trigger] t[j] != '/' by {
            assert(t[j] == s[j + 1]);
        }
        lemma_before_slash(t, k - 1);
        assert(s.take(k) =~= seq![s[0]] + t.take(k - 1));
    }
}

/// The port declared by a port spec such as `3000/tcp`.
pub fn port_of_spec(spec: &str) -> (r: Option<u16>)
    ensures
        r == spec_port(spec@),
{
    let n = spec.unicode_len();
    let mut k: usize = 0;
    while k < n && spec.get_char(k) != '/'
        invariant
            n == spec@.len(),
            k <= n,
            forall|j: int| 0 <= j < k ==> #[trigger] spec@[j] != '/',
        decreases n - k,
    {
        k = k + 1;
    }
    proof {
        lemma_before_slash(spec@, k as int);
    }
    let head = spec.substring_char(0, k);
    proof {
        assert(head@ =~= spec@.take(k as int));
    }
    parse_u16(head)
}

/// Inserts `x` into the strictly increasing `v`, unless it is there already.
fn insert_sorted(v: &mut Vec<u16>, x: u16)
    requires
        strictly_increasing(old(v)@),
    ensures
        strictly_increasing(final(v)@),
        final(v)@.to_set() == old(v)@.to_set().insert(x),
{
    let mut i: usize = 0;
    while i < v.len() && v[i] < x
        invariant
            i <= v@.len(),
            forall|j: int| 0 <= j < i ==> #[trigger] v@[j] < x,
        decreases v@.len() - i,
    {
        i = i + 1;
    }
    let ghost s = v@;
    if i < v.len() && v[i] == x {
        assert(s.to_set().insert(x) =~= s.to_set());
        return;
    }
    v.insert(i, x);
    proof {
        assert(v@ =~= s.take(i as int).push(x) + s.skip(i as int));
        assert forall|a: int, b: int| 0 <= a < b < v@.len() implies #[trigger] v@[a] < #[trigger] v@[b] by {
            if a < i && b > i {
                assert(v@[b] == s[b - 1]);
                assert(s[b - 1] > x || s[b - 1] == x || s[b - 1] < x);
                if i < s.len() {
                    assert(s[i as int] > x);
                    if b - 1 > i {
                        assert(s[i as int] < s[b - 1]);
                    }
                }
            } else if a == i && b > i {
                assert(v@[b] == s[b - 1]);
                assert(s[i as int] > x);
                if b - 1 > i {
                    assert(s[i as int] < s[b - 1]);
                }
            } else if a > i {
                assert(v@[a] == s[a - 1]);
                assert(v@[b] == s[b - 1]);
            }
        }
        assert forall|y: u16| v@.to_set().contains(y) <==> s.to_set().insert(x).contains(y) by {
            if v@.to_set().contains(y) {
                let j = choose|j: int| 0 <= j < v@.len() && v@[j] == y;
                if j < i {
                    assert(s[j] == y);
                } else if j > i {
                    assert(s[j - 1] == y);
                }
            }
            if s.to_set().contains(y) {
                let j = choose|j: int| 0 <= j < s.len() && s[j] == y;
                if j < i {
                    assert(v@[j] == y);
                } else {
                    assert(v@[j + 1] == y);
                }
            }
            if y == x {
                assert(v@[i as int] == x);
            }
        }
        assert(v@.to_set() =~= s.to_set().insert(x));
    }
}

/// The ports that the port specs declare: their numbers, each once, in
/// ascending order. Specs whose port is not a number are passed over.
pub fn exposed_ports(specs: &Vec<String>) -> (r: Vec<u16>)
    ensures
        strictly_increasing(r@),
        forall|p: u16| r@.contains(p) <==> declares_port(specs@, p),
{
    let mut r: Vec<u16> = Vec::new();
    let mut i: usize = 0;
    while i < specs.len()
        invariant
            i <= specs@.len(),
            strictly_increasing(r@),
            forall|p: u16| r@.to_set().contains(p) <==> declares_port(specs@.take(i as int), p),
        decreases specs@.len() - i,
    {
        let ghost before = r@;
        let got = port_of_spec(specs[i].as_str());
        if let Some(p) = got {
            insert_sorted(&mut r, p);
        }
        proof {
            let t = specs@.take(i + 1);
            assert forall|p: u16| r@.to_set().contains(p) <==> declares_port(t, p) by {
                if declares_port(t, p) {
                    let j = choose|j: int| 0 <= j < t.len() && spec_port(#[trigger] t[j]@) == Some(p);
                    if j < i {
                        assert(specs@.take(i as int)[j] == t[j]);
                    }
                }
                if declares_port(specs@.take(i as int), p) {
                    let j = choose|j: int|
                        0 <= j < i && spec_port(#[trigger] specs@.take(i as int)[j]@) == Some(p);
                    assert(t[j] == specs@.take(i as int)[j]);
                }
                if got == Some(p) {
                    assert(t[i as int] == specs@[i as int]);
                }
            }
        }
        i = i + 1;
    }
    proof {
        assert(specs@.take(specs@.len() as int) =~= specs@);
        assert forall|p: u16| r@.contains(p) <==> declares_port(specs@, p) by {
            assert(r@.to_set().contains(p) <==> r@.contains(p));
        }
    }
    r
}

} // verus!

//! The ordered query set of a request URI.
//!
//! A query string splits on `&` into segments and each segment on its
//! first `=` into a name and a value; both sides are form-decoded
//! (`+` becomes a space, `%XY` with two hex digits becomes the byte
//! `0xXY`). Order is preserved and duplicate names are permitted.

use vstd::prelude::*;

use crate::strutil::{find_char, first_index_of, push_char, str_eq};

verus! {

/// One `(name, value)` pair of the query set. A bare name has the empty
/// string as its value.
pub struct QueryPair {
    pub name: String,
    pub value: String,
}

/// A preserved-order sequence of query pairs.
pub struct OrderedQs {
    pub pairs: Vec<QueryPair>,
}

impl View for QueryPair {
    type V = (Seq<char>, Seq<char>);

    open spec fn view(&self) -> (Seq<char>, Seq<char>) {
        (self.name@, self.value@)
    }
}

impl View for OrderedQs {
    type V = Seq<(Seq<char>, Seq<char>)>;

    open spec fn view(&self) -> Seq<(Seq<char>, Seq<char>)> {
        self.pairs@.map_values(|p: QueryPair| p@)
    }
}

/// Whether `c` is an ASCII hexadecimal digit.
pub open spec fn spec_is_hex_digit(c: char) -> bool {
    (48 <= c as u32 <= 57) || (97 <= c as u32 <= 102) || (65 <= c as u32 <= 70)
}

/// The numeric value of an ASCII hexadecimal digit.
pub open spec fn spec_hex_value(c: char) -> u32 {
    if 48 <= c as u32 <= 57 {
        (c as u32 - 48) as u32
    } else if 97 <= c as u32 <= 102 {
        (c as u32 - 87) as u32
    } else {
        (c as u32 - 55) as u32
    }
}

/// Form-decoding of a query component: `+` is a space, `%XY` with two
/// hex digits is the byte `0xXY`, everything else is itself.
pub open spec fn spec_decode(s: Seq<char>) -> Seq<char>
    decreases s.len(),
{
    if s.len() == 0 {
        Seq::empty()
    } else if s[0] == '+' {
        seq![' '] + spec_decode(s.skip(1))
    } else if s[0] == '%' && s.len() >= 3 && spec_is_hex_digit(s[1]) && spec_is_hex_digit(s[2]) {
        seq![((spec_hex_value(s[1]) * 16 + spec_hex_value(s[2])) as u8) as char] + spec_decode(
            s.skip(3),
        )
    } else {
        seq![s[0]] + spec_decode(s.skip(1))
    }
}

/// The `(name, value)` pair a query segment denotes: split at the first
/// `=`, both sides decoded; without `=` the value is empty.
pub open spec fn spec_pair_of(seg: Seq<char>) -> (Seq<char>, Seq<char>) {
    let j = first_index_of(seg, '=');
    if j < seg.len() {
        (spec_decode(seg.take(j)), spec_decode(seg.skip(j + 1)))
    } else {
        (spec_decode(seg), Seq::empty())
    }
}

/// The pairs a whole query string denotes, in order.
pub open spec fn spec_parse_query(s: Seq<char>) -> Seq<(Seq<char>, Seq<char>)>
    decreases s.len(),
{
    if s.len() == 0 {
        Seq::empty()
    } else {
        {
            let i = first_index_of(s, '&');
            if 0 <= i < s.len() {
                seq![spec_pair_of(s.take(i))] + spec_parse_query(s.skip(i + 1))
            } else {
                seq![spec_pair_of(s)]
            }
        }
    }
}

fn is_hex_digit(c: char) -> (r: bool)
    ensures
        r == spec_is_hex_digit(c),
{
    let u = c as u32;
    (48 <= u && u <= 57) || (97 <= u && u <= 102) || (65 <= u && u <= 70)
}

fn hex_value(c: char) -> (r: u32)
    requires
        spec_is_hex_digit(c),
    ensures
        r == spec_hex_value(c),
        r < 16,
{
    let u = c as u32;
    if 48 <= u && u <= 57 {
        u - 48
    } else if 97 <= u && u <= 102 {
        u - 87
    } else {
        u - 55
    }
}

/// Form-decode one query component.
pub fn decode_component(s: &str) -> (r: String)
    ensures
        r@ == spec_decode(s@),
{
    let len = s.unicode_len();
    let mut out = String::new();
    let mut i: usize = 0;
    proof {
        assert(s@.skip(0) =~= s@);
        assert(out@ + spec_decode(s@) =~= spec_decode(s@));
    }
    while i < len
        invariant
            0 <= i <= len,
            len == s@.len(),
            spec_decode(s@) == out@ + spec_decode(s@.skip(i as int)),
        decreases len - i,
    {
        let ghost pre = out@;
        let c = s.get_char(i);
        proof {
            assert(s@.skip(i as int)[0] == c);
        }
        if c == '+' {
            push_char(&mut out, ' ');
            proof {
                assert(s@.skip(i as int).skip(1) =~= s@.skip(i + 1));
                assert(spec_decode(s@.skip(i as int)) =~= seq![' '] + spec_decode(s@.skip(i + 1)));
                assert(out@ =~= pre + seq![' ']);
            }
            i = i + 1;
        } else if c == '%' && len - i > 2 && is_hex_digit(s.get_char(i + 1)) && is_hex_digit(
            s.get_char(i + 2),
        ) {
            let h1 = hex_value(s.get_char(i + 1));
            let h2 = hex_value(s.get_char(i + 2));
            let b = (h1 * 16 + h2) as u8;
            push_char(&mut out, b as char);
            proof {
                let t = s@.skip(i as int);
                assert(t.len() >= 3);
                assert(t[1] == s@[i + 1]);
                assert(t[2] == s@[i + 2]);
                assert(t.skip(3) =~= s@.skip(i + 3));
                assert(out@ =~= pre + seq![b as char]);
            }
            i = i + 3;
        } else {
            push_char(&mut out, c);
            proof {
                let t = s@.skip(i as int);
                if t[0] == '%' && t.len() >= 3 {
                    assert(t[1] == s@[i + 1]);
                    assert(t[2] == s@[i + 2]);
                }
                assert(t.skip(1) =~= s@.skip(i + 1));
                assert(out@ =~= pre + seq![c]);
            }
            i = i + 1;
        }
    }
    proof {
        assert(s@.skip(len as int) =~= Seq::<char>::empty());
    }
    out
}

/// Split one query segment at its first `=` and decode both sides.
#[verifier::rlimit(30)]
fn split_pair(seg: &str) -> (r: QueryPair)
    ensures
        r@ == spec_pair_of(seg@),
{
    let len = seg.unicode_len();
    let j = find_char(seg, 0, '=');
    proof {
        assert(seg@.skip(0) =~= seg@);
        assert(first_index_of(seg@, '=') == j);
    }
    if j < len {
        let name = decode_component(seg.substring_char(0, j));
        let value = decode_component(seg.substring_char(j + 1, len));
        proof {
            assert(seg@.subrange(0, j as int) =~= seg@.take(j as int));
            assert(seg@.subrange(j + 1, len as int) =~= seg@.skip(j + 1));
            assert(name@ == spec_pair_of(seg@).0);
            assert(value@ == spec_pair_of(seg@).1);
        }
        QueryPair { name, value }
    } else {
        let name = decode_component(seg);
        QueryPair { name, value: String::new() }
    }
}

/// Parse a whole query string into its ordered query set.
pub fn parse_query(s: &str) -> (r: OrderedQs)
    ensures
        r@ == spec_parse_query(s@),
{
    let len = s.unicode_len();
    let mut pairs: Vec<QueryPair> = Vec::new();
    let mut pos: usize = 0;
    proof {
        assert(s@.skip(0) =~= s@);
        assert(pairs@.map_values(|p: QueryPair| p@) + spec_parse_query(s@) =~= spec_parse_query(
            s@,
        ));
    }
    while pos < len
        invariant
            0 <= pos <= len,
            len == s@.len(),
            spec_parse_query(s@) == pairs@.map_values(|p: QueryPair| p@) + spec_parse_query(
                s@.skip(pos as int),
            ),
        decreases len - pos,
    {
        let ghost pre = pairs@.map_values(|p: QueryPair| p@);
        let amp = find_char(s, pos, '&');
        let seg = s.substring_char(pos, amp);
        let pair = split_pair(seg);
        pairs.push(pair);
        proof {
            let t = s@.skip(pos as int);
            assert(t.len() > 0);
            assert(first_index_of(t, '&') == amp - pos);
            assert(seg@ =~= t.take(amp - pos));
            assert(pairs@.map_values(|p: QueryPair| p@) =~= pre + seq![spec_pair_of(seg@)]);
            if amp < len {
                assert(t.skip(amp - pos + 1) =~= s@.skip(amp + 1));
            }
        }
        if amp < len {
            pos = amp + 1;
        } else {
            pos = amp;
        }
    }
    proof {
        assert(s@.skip(len as int) =~= Seq::<char>::empty());
    }
    OrderedQs { pairs }
}

/// Whether the set holds some pair named `n`.
pub open spec fn qs_has_name(q: Seq<(Seq<char>, Seq<char>)>, n: Seq<char>) -> bool {
    exists|i: int| 0 <= i < q.len() && q[i].0 == n
}

/// Whether the set holds a bare occurrence of `n`: a pair `(n, "")`.
pub open spec fn qs_has_bare(q: Seq<(Seq<char>, Seq<char>)>, n: Seq<char>) -> bool {
    exists|i: int| 0 <= i < q.len() && q[i].0 == n && q[i].1 == Seq::<char>::empty()
}

/// Whether the set holds exactly the pair `(n, v)`.
pub open spec fn qs_has_pair(q: Seq<(Seq<char>, Seq<char>)>, n: Seq<char>, v: Seq<char>) -> bool {
    exists|i: int| 0 <= i < q.len() && q[i].0 == n && q[i].1 == v
}

/// The value of the first pair named `n` (empty when there is none).
pub open spec fn qs_first_value(q: Seq<(Seq<char>, Seq<char>)>, n: Seq<char>) -> Seq<char>
    decreases q.len(),
{
    if q.len() == 0 {
        Seq::empty()
    } else if q[0].0 == n {
        q[0].1
    } else {
        qs_first_value(q.skip(1), n)
    }
}

proof fn lemma_qs_first_value(q: Seq<(Seq<char>, Seq<char>)>, n: Seq<char>, k: int)
    requires
        0 <= k < q.len(),
        q[k].0 == n,
        forall|j: int| 0 <= j < k ==> q[j].0 != n,
    ensures
        qs_first_value(q, n) == q[k].1,
    decreases q.len(),
{
    if k == 0 {
    } else {
        assert forall|j: int| 0 <= j < k - 1 implies q.skip(1)[j].0 != n by {
            assert(q[j + 1].0 != n);
        }
        lemma_qs_first_value(q.skip(1), n, k - 1);
    }
}

impl OrderedQs {
    /// Membership: is some pair named `name` present?
    pub fn has(&self, name: &str) -> (r: bool)
        ensures
            r == qs_has_name(self@, name@),
    {
        let n = self.pairs.len();
        let mut i: usize = 0;
        while i < n
            invariant
                0 <= i <= n,
                n == self.pairs.len(),
                forall|j: int| 0 <= j < i ==> self@[j].0 != name@,
            decreases n - i,
        {
            let found = str_eq(self.pairs[i].name.as_str(), name);
            proof {
                assert(self@[i as int] == self.pairs@[i as int]@);
            }
            if found {
                return true;
            }
            i = i + 1;
        }
        false
    }

    /// Whether a bare occurrence of `name` (with empty value) is present.
    pub fn has_bare(&self, name: &str) -> (r: bool)
        ensures
            r == qs_has_bare(self@, name@),
    {
        let n = self.pairs.len();
        let mut i: usize = 0;
        while i < n
            invariant
                0 <= i <= n,
                n == self.pairs.len(),
                forall|j: int|
                    0 <= j < i ==> !(self@[j].0 == name@ && self@[j].1 == Seq::<char>::empty()),
            decreases n - i,
        {
            let found = str_eq(self.pairs[i].name.as_str(), name)
                && self.pairs[i].value.as_str().unicode_len() == 0;
            proof {
                assert(self@[i as int] == self.pairs@[i as int]@);
            }
            if found {
                proof {
                    assert(self@[i as int].1 =~= Seq::<char>::empty());
                }
                return true;
            }
            i = i + 1;
        }
        false
    }

    /// Whether the exact pair `(name, value)` is present.
    pub fn check_pattern(&self, name: &str, value: &str) -> (r: bool)
        ensures
            r == qs_has_pair(self@, name@, value@),
    {
        let n = self.pairs.len();
        let mut i: usize = 0;
        while i < n
            invariant
                0 <= i <= n,
                n == self.pairs.len(),
                forall|j: int| 0 <= j < i ==> !(self@[j].0 == name@ && self@[j].1 == value@),
            decreases n - i,
        {
            let found = str_eq(self.pairs[i].name.as_str(), name) && str_eq(
                self.pairs[i].value.as_str(),
                value,
            );
            proof {
                assert(self@[i as int] == self.pairs@[i as int]@);
            }
            if found {
                return true;
            }
            i = i + 1;
        }
        false
    }

    /// The value of the first pair named `name`, if any.
    pub fn get(&self, name: &str) -> (r: Option<&String>)
        ensures
            match r {
                Some(v) => qs_has_name(self@, name@) && v@ == qs_first_value(self@, name@),
                None => !qs_has_name(self@, name@),
            },
    {
        let n = self.pairs.len();
        let mut i: usize = 0;
        while i < n
            invariant
                0 <= i <= n,
                n == self.pairs.len(),
                forall|j: int| 0 <= j < i ==> self@[j].0 != name@,
            decreases n - i,
        {
            let found = str_eq(self.pairs[i].name.as_str(), name);
            proof {
                assert(self@[i as int] == self.pairs@[i as int]@);
            }
            if found {
                proof {
                    lemma_qs_first_value(self@, name@, i as int);
                }
                return Some(&self.pairs[i].value);
            }
            i = i + 1;
        }
        None
    }
}

} // verus!

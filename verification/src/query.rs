use vstd::prelude::*;

verus! {

/// Lexicographic order on character strings, by code point. A proper prefix
/// comes before its extensions.
pub open spec fn lex_lt(a: Seq<char>, b: Seq<char>) -> bool
    decreases a.len(),
{
    if b.len() == 0 {
        false
    } else if a.len() == 0 {
        true
    } else if (a[0] as u32) < (b[0] as u32) {
        true
    } else if (a[0] as u32) > (b[0] as u32) {
        false
    } else {
        lex_lt(a.skip(1), b.skip(1))
    }
}

/// Compares two strings in lexicographic order.
pub fn str_lex_lt(a: &str, b: &str) -> (r: bool)
    ensures
        r == lex_lt(a@, b@),
{
    let na = a.unicode_len();
    let nb = b.unicode_len();
    let mut i: usize = 0;
    proof {
        assert(a@.skip(0) =~= a@);
        assert(b@.skip(0) =~= b@);
    }
    loop
        invariant
            i <= na,
            i <= nb,
            na == a@.len(),
            nb == b@.len(),
            lex_lt(a@, b@) == lex_lt(a@.skip(i as int), b@.skip(i as int)),
        decreases na - i,
    {
        if i >= nb {
            // b is exhausted: a is not before b.
            assert(b@.skip(i as int).len() == 0);
            return false;
        }
        if i >= na {
            // a is a proper prefix of b.
            assert(a@.skip(i as int).len() == 0);
            assert(b@.skip(i as int).len() > 0);
            return true;
        }
        let ca = a.get_char(i);
        let cb = b.get_char(i);
        proof {
            assert(a@.skip(i as int)[0] == a@[i as int]);
            assert(b@.skip(i as int)[0] == b@[i as int]);
            assert(a@.skip(i as int).skip(1) =~= a@.skip(i + 1));
            assert(b@.skip(i as int).skip(1) =~= b@.skip(i + 1));
        }
        if (ca as u32) < (cb as u32) {
            return true;
        }
        if (ca as u32) > (cb as u32) {
            return false;
        }
        i = i + 1;
    }
}

pub proof fn lemma_lex_lt_irrefl(a: Seq<char>)
    ensures
        !lex_lt(a, a),
    decreases a.len(),
{
    if a.len() > 0 {
        lemma_lex_lt_irrefl(a.skip(1));
    }
}

pub proof fn lemma_lex_lt_trans(a: Seq<char>, b: Seq<char>, c: Seq<char>)
    requires
        lex_lt(a, b),
        lex_lt(b, c),
    ensures
        lex_lt(a, c),
    decreases a.len(),
{
    if a.len() > 0 {
        if (a[0] as u32) == (b[0] as u32) && (b[0] as u32) == (c[0] as u32) {
            lemma_lex_lt_trans(a.skip(1), b.skip(1), c.skip(1));
        }
    }
}

pub proof fn lemma_lex_lt_total(a: Seq<char>, b: Seq<char>)
    requires
        a != b,
    ensures
        lex_lt(a, b) || lex_lt(b, a),
    decreases a.len(),
{
    if a.len() == 0 {
        if b.len() == 0 {
            assert(a =~= b);
        }
    } else if b.len() == 0 {
    } else if (a[0] as u32) == (b[0] as u32) {
        vstd::utf8::char_u32_cast(a[0], a[0] as u32);
        vstd::utf8::char_u32_cast(b[0], b[0] as u32);
        assert(a[0] == b[0]);
        if a.skip(1) == b.skip(1) {
            assert(a.skip(1).len() == a.len() - 1);
            assert(b.skip(1).len() == b.len() - 1);
            assert(a.len() == b.len());
            assert forall|i: int| 0 <= i < a.len() implies a[i] == b[i] by {
                if i > 0 {
                    assert(a.skip(1)[i - 1] == a[i]);
                    assert(b.skip(1)[i - 1] == b[i]);
                }
            }
            assert(a =~= b);
        }
        lemma_lex_lt_total(a.skip(1), b.skip(1));
    }
}

/// Keys strictly ascending: sorted, and therefore unique.
pub open spec fn sorted_keys(s: Seq<(Seq<char>, Seq<char>)>) -> bool {
    forall|i: int, j: int| 0 <= i < j < s.len() ==> lex_lt(#[trigger] s[i].0, #[trigger] s[j].0)
}

/// Every key of an inserted list is the new key or one of the old keys.
proof fn lemma_qinsert_keys(s: Seq<(Seq<char>, Seq<char>)>, k: Seq<char>, v: Seq<char>)
    ensures
        forall|j: int|
            0 <= j < qinsert(s, k, v).len() ==> #[trigger] qinsert(s, k, v)[j].0 == k || exists|i: int|
                0 <= i < s.len() && s[i].0 == #[trigger] qinsert(s, k, v)[j].0,
    decreases s.len(),
{
    let out = qinsert(s, k, v);
    if s.len() == 0 {
    } else if lex_lt(k, s[0].0) {
        assert forall|j: int| 0 <= j < out.len() implies #[trigger] out[j].0 == k || exists|i: int|
            0 <= i < s.len() && s[i].0 == out[j].0 by {
            if j > 0 {
                assert(out[j] == s[j - 1]);
                assert(s[j - 1].0 == out[j].0);
            }
        }
    } else if k == s[0].0 {
        assert forall|j: int| 0 <= j < out.len() implies #[trigger] out[j].0 == k || exists|i: int|
            0 <= i < s.len() && s[i].0 == out[j].0 by {
            if j > 0 {
                assert(out[j] == s[j]);
                assert(s[j].0 == out[j].0);
            }
        }
    } else {
        lemma_qinsert_keys(s.skip(1), k, v);
        let rest = qinsert(s.skip(1), k, v);
        assert forall|j: int| 0 <= j < out.len() implies #[trigger] out[j].0 == k || exists|i: int|
            0 <= i < s.len() && s[i].0 == out[j].0 by {
            if j == 0 {
                assert(out[0] == s[0]);
                assert(s[0].0 == out[0].0);
            } else {
                assert(out[j] == rest[j - 1]);
                if rest[j - 1].0 != k {
                    let i0 = choose|i: int|
                        0 <= i < s.skip(1).len() && s.skip(1)[i].0 == rest[j - 1].0;
                    assert(s[i0 + 1].0 == out[j].0);
                }
            }
        }
    }
}

/// Law: inserting into a key-sorted list keeps it key-sorted — so the
/// canonical serialization of any parameter set built by insertions joins its
/// pairs in strict key order, as the signer's canonical message wants.
pub proof fn lemma_qinsert_sorted(s: Seq<(Seq<char>, Seq<char>)>, k: Seq<char>, v: Seq<char>)
    requires
        sorted_keys(s),
    ensures
        sorted_keys(qinsert(s, k, v)),
    decreases s.len(),
{
    let out = qinsert(s, k, v);
    if s.len() == 0 {
    } else if lex_lt(k, s[0].0) {
        assert forall|i: int, j: int| 0 <= i < j < out.len() implies lex_lt(
            #[trigger] out[i].0,
            #[trigger] out[j].0,
        ) by {
            if i == 0 {
                assert(out[j] == s[j - 1]);
                if j > 1 {
                    lemma_lex_lt_trans(k, s[0].0, s[j - 1].0);
                }
            } else {
                assert(out[i] == s[i - 1]);
                assert(out[j] == s[j - 1]);
            }
        }
    } else if k == s[0].0 {
        assert forall|i: int, j: int| 0 <= i < j < out.len() implies lex_lt(
            #[trigger] out[i].0,
            #[trigger] out[j].0,
        ) by {
            if i == 0 {
                assert(out[j] == s[j]);
            } else {
                assert(out[i] == s[i]);
                assert(out[j] == s[j]);
            }
        }
    } else {
        lemma_lex_lt_total(k, s[0].0);
        assert(lex_lt(s[0].0, k));
        assert(sorted_keys(s.skip(1))) by {
            assert(forall|i: int, j: int|
                0 <= i < j < s.skip(1).len() ==> s.skip(1)[i] == s[i + 1] && s.skip(1)[j] == s[j
                    + 1]);
        }
        lemma_qinsert_sorted(s.skip(1), k, v);
        lemma_qinsert_keys(s.skip(1), k, v);
        let rest = qinsert(s.skip(1), k, v);
        assert forall|i: int, j: int| 0 <= i < j < out.len() implies lex_lt(
            #[trigger] out[i].0,
            #[trigger] out[j].0,
        ) by {
            if i == 0 {
                assert(out[j] == rest[j - 1]);
                if rest[j - 1].0 == k {
                    assert(lex_lt(out[0].0, out[j].0));
                } else {
                    let i0 = choose|i2: int|
                        0 <= i2 < s.skip(1).len() && s.skip(1)[i2].0 == rest[j - 1].0;
                    assert(s.skip(1)[i0] == s[i0 + 1]);
                    assert(lex_lt(s[0].0, s[i0 + 1].0));
                }
            } else {
                assert(out[i] == rest[i - 1]);
                assert(out[j] == rest[j - 1]);
            }
        }
    }
}

/// A key-sorted parameter list as its views: each pair a key and a value.
pub open spec fn qview(pairs: Seq<(String, String)>) -> Seq<(Seq<char>, Seq<char>)> {
    pairs.map_values(|p: (String, String)| (p.0@, p.1@))
}

/// The list after inserting one pair: placed before the first key it is not
/// after, replacing it on equality — the map semantics of a sorted
/// association list.
pub open spec fn qinsert(
    s: Seq<(Seq<char>, Seq<char>)>,
    k: Seq<char>,
    v: Seq<char>,
) -> Seq<(Seq<char>, Seq<char>)>
    decreases s.len(),
{
    if s.len() == 0 {
        seq![(k, v)]
    } else if lex_lt(k, s[0].0) {
        seq![(k, v)] + s
    } else if k == s[0].0 {
        seq![(k, v)] + s.skip(1)
    } else {
        seq![s[0]] + qinsert(s.skip(1), k, v)
    }
}

/// The canonical text of a parameter list: the `&`-joined `key=value` pairs,
/// in list order.
pub open spec fn canon_pairs(s: Seq<(Seq<char>, Seq<char>)>) -> Seq<char>
    decreases s.len(),
{
    if s.len() == 0 {
        Seq::empty()
    } else if s.len() == 1 {
        s[0].0 + "="@ + s[0].1
    } else {
        canon_pairs(s.drop_last()) + "&"@ + s.last().0 + "="@ + s.last().1
    }
}

/// A set of request parameters, kept sorted by key with unique keys, as the
/// canonical serialization wants them.
pub struct Query {
    pub pairs: Vec<(String, String)>,
}

impl View for Query {
    type V = Seq<(Seq<char>, Seq<char>)>;

    open spec fn view(&self) -> Seq<(Seq<char>, Seq<char>)> {
        qview(self.pairs@)
    }
}

impl Query {
    /// No parameters.
    pub fn new() -> (r: Query)
        ensures
            r@ == Seq::<(Seq<char>, Seq<char>)>::empty(),
            sorted_keys(r@),
    {
        let q = Query { pairs: Vec::new() };
        proof {
            assert(q@ =~= Seq::<(Seq<char>, Seq<char>)>::empty());
        }
        q
    }

    /// Inserts one parameter at its sorted place, replacing any parameter of
    /// the same key.
    pub fn insert(&mut self, k: String, v: String)
        ensures
            final(self)@ == qinsert(old(self)@, k@, v@),
            sorted_keys(old(self)@) ==> sorted_keys(final(self)@),
    {
        proof {
            if sorted_keys(self@) {
                lemma_qinsert_sorted(self@, k@, v@);
            }
        }
        let ghost target = qinsert(old(self)@, k@, v@);
        let mut out: Vec<(String, String)> = Vec::new();

        // Carry over the keys that come before the new one.
        loop
            invariant
                target == qview(out@) + qinsert(qview(self.pairs@), k@, v@),
            ensures
                self.pairs@.len() == 0 || lex_lt(k@, qview(self.pairs@)[0].0) || k@ == qview(
                    self.pairs@,
                )[0].0,
            decreases self.pairs@.len(),
        {
            if self.pairs.len() == 0 {
                break;
            }
            let stop = {
                let first = &self.pairs[0];
                str_lex_lt(k.as_str(), first.0.as_str()) || k.eq(&first.0)
            };
            if stop {
                proof {
                    assert(qview(self.pairs@)[0] == (self.pairs@[0].0@, self.pairs@[0].1@));
                }
                break;
            }
            let ghost pre_out = out@;
            let ghost pre_cur = self.pairs@;
            let p = self.pairs.remove(0);
            out.push(p);
            proof {
                assert(qview(pre_cur)[0] == (pre_cur[0].0@, pre_cur[0].1@));
                assert(qview(self.pairs@) =~= qview(pre_cur).skip(1));
                assert(qview(out@) =~= qview(pre_out).push((p.0@, p.1@)));
                assert(qinsert(qview(pre_cur), k@, v@) == seq![qview(pre_cur)[0]] + qinsert(
                    qview(pre_cur).skip(1),
                    k@,
                    v@,
                ));
                assert(qview(pre_out) + qinsert(qview(pre_cur), k@, v@) =~= qview(out@) + qinsert(
                    qview(self.pairs@),
                    k@,
                    v@,
                ));
            }
        }

        // Drop a pair under the same key: the new value replaces it.
        let ghost before_place = qview(self.pairs@);
        if self.pairs.len() > 0 {
            let same = {
                let first = &self.pairs[0];
                k.eq(&first.0)
            };
            if same {
                let ghost pre_cur = self.pairs@;
                let _dropped = self.pairs.remove(0);
                proof {
                    assert(qview(pre_cur)[0].0 == k@);
                    lemma_lex_lt_irrefl(k@);
                    assert(qview(self.pairs@) =~= qview(pre_cur).skip(1));
                    assert(qinsert(qview(pre_cur), k@, v@) == seq![(k@, v@)] + qview(pre_cur).skip(
                        1,
                    ));
                }
            }
        }
        proof {
            assert(qinsert(before_place, k@, v@) =~= seq![(k@, v@)] + qview(self.pairs@));
        }

        // Place the new pair, then carry over the rest.
        let ghost placed_out = qview(out@).push((k@, v@));
        out.push((k, v));
        proof {
            assert(qview(out@) =~= placed_out);
            assert(target =~= qview(out@) + qview(self.pairs@));
        }
        loop
            invariant
                target == qview(out@) + qview(self.pairs@),
            ensures
                self.pairs@.len() == 0,
            decreases self.pairs@.len(),
        {
            if self.pairs.len() == 0 {
                break;
            }
            let ghost pre_out = out@;
            let ghost pre_cur = self.pairs@;
            let p = self.pairs.remove(0);
            out.push(p);
            proof {
                assert(qview(self.pairs@) =~= qview(pre_cur).skip(1));
                assert(qview(out@) =~= qview(pre_out).push((p.0@, p.1@)));
                assert(qview(pre_cur)[0] == (p.0@, p.1@));
                assert(qview(pre_cur) =~= seq![qview(pre_cur)[0]] + qview(pre_cur).skip(1));
                assert(qview(pre_out) + qview(pre_cur) =~= qview(out@) + qview(self.pairs@));
            }
        }
        std::mem::swap(&mut out, &mut self.pairs);
        proof {
            assert(qview(out@) =~= Seq::<(Seq<char>, Seq<char>)>::empty());
            assert(self@ =~= target);
        }
    }

    /// The canonical serialization: `&`-joined `key=value` pairs in list
    /// order — key-sorted, as the list is kept.
    pub fn canonical(&self) -> (r: String)
        ensures
            r@ == canon_pairs(self@),
    {
        let mut out = String::new();
        let n = self.pairs.len();
        let mut i: usize = 0;
        proof {
            assert(self@.take(0) =~= Seq::<(Seq<char>, Seq<char>)>::empty());
        }
        while i < n
            invariant
                i <= n,
                n == self.pairs@.len(),
                out@ == canon_pairs(self@.take(i as int)),
            decreases n - i,
        {
            if i > 0 {
                out.append("&");
            }
            let pair = &self.pairs[i];
            out.append(pair.0.as_str());
            out.append("=");
            out.append(pair.1.as_str());
            proof {
                assert(self@.len() == self.pairs@.len());
                assert(self@[i as int] == (self.pairs@[i as int].0@, self.pairs@[i as int].1@));
                assert(self@.take(i + 1).drop_last() =~= self@.take(i as int));
                assert(self@.take(i + 1).last() == self@[i as int]);
                if i == 0 {
                    assert(out@ =~= canon_pairs(self@.take(1)));
                } else {
                    assert(out@ =~= canon_pairs(self@.take(i + 1)));
                }
            }
            i = i + 1;
        }
        proof {
            assert(self@.take(n as int) =~= self@);
        }
        out
    }
}

} // verus!

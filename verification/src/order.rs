//! Ordering and looking up hub objects by their plain-text name.
use vstd::prelude::*;
use crate::text::{chars_of, dec_int, eq_ignore_ascii_case, eq_ignore_ascii_case_spec, i32_text, str_eq};

verus! {

broadcast use vstd::seq_lib::group_seq_properties;

/// An object that the hub lists with an id and a plain-text name.
pub trait Listed {
    spec fn name_key(&self) -> Seq<char>;

    spec fn id_value(&self) -> i32;

    fn name_str(&self) -> (r: &str)
        ensures
            r@ == self.name_key(),
    ;

    fn id_of(&self) -> (r: i32)
        ensures
            r == self.id_value(),
    ;
}

// ── Lexicographic order ──────────────────────────────────────────────────────

/// `a <= b` in the order of `String`'s `Ord`: lexicographic by code point.
pub open spec fn lex_le(a: Seq<char>, b: Seq<char>) -> bool
    decreases a.len(),
{
    if a.len() == 0 {
        true
    } else if b.len() == 0 {
        false
    } else if a[0] != b[0] {
        a[0] < b[0]
    } else {
        lex_le(a.drop_first(), b.drop_first())
    }
}

/// Every name sorts no later than itself.
pub proof fn lemma_lex_le_reflexive(a: Seq<char>)
    ensures
        lex_le(a, a),
    decreases a.len(),
{
    if a.len() > 0 {
        lemma_lex_le_reflexive(a.drop_first());
    }
}

/// Any two names are ordered one way or the other.
pub proof fn lemma_lex_le_total(a: Seq<char>, b: Seq<char>)
    ensures
        lex_le(a, b) || lex_le(b, a),
    decreases a.len(),
{
    if a.len() > 0 && b.len() > 0 && a[0] == b[0] {
        lemma_lex_le_total(a.drop_first(), b.drop_first());
    }
}

/// Names that sort no later than each other are equal.
pub proof fn lemma_lex_le_antisymmetric(a: Seq<char>, b: Seq<char>)
    requires
        lex_le(a, b),
        lex_le(b, a),
    ensures
        a == b,
    decreases a.len(),
{
    if a.len() > 0 && b.len() > 0 {
        lemma_lex_le_antisymmetric(a.drop_first(), b.drop_first());
        assert(a =~= seq![a[0]] + a.drop_first());
        assert(b =~= seq![b[0]] + b.drop_first());
    } else {
        assert(a =~= b);
    }
}

/// The order of names is transitive.
pub proof fn lemma_lex_le_transitive(a: Seq<char>, b: Seq<char>, c: Seq<char>)
    requires
        lex_le(a, b),
        lex_le(b, c),
    ensures
        lex_le(a, c),
    decreases a.len(),
{
    if a.len() > 0 && b.len() > 0 && c.len() > 0 && a[0] == b[0] && b[0] == c[0] {
        lemma_lex_le_transitive(a.drop_first(), b.drop_first(), c.drop_first());
    }
}

/// The order of names is `String`'s order: a proper prefix sorts strictly
/// before the longer name, and otherwise the first differing character
/// decides, the smaller code point first.
pub proof fn law_name_order_is_string_order(a: Seq<char>, b: Seq<char>, i: int)
    ensures
        a.len() < b.len() && b.take(a.len() as int) == a ==> lex_le(a, b) && !lex_le(b, a),
        0 <= i < a.len() && i < b.len() && a.take(i) == b.take(i) && a[i] != b[i] ==> (
        lex_le(a, b) == (a[i] < b[i]) && lex_le(b, a) == (b[i] < a[i])),
    decreases a.len(),
{
    if a.len() < b.len() && b.take(a.len() as int) == a && a.len() > 0 {
        assert(b[0] == b.take(a.len() as int)[0]);
        assert(b.drop_first().take(a.len() - 1) =~= a.drop_first());
        law_name_order_is_string_order(a.drop_first(), b.drop_first(), i - 1);
    }
    if 0 < i < a.len() && i < b.len() && a.take(i) == b.take(i) && a[i] != b[i] {
        assert(a[0] == a.take(i)[0]);
        assert(b[0] == b.take(i)[0]);
        assert(a.drop_first().take(i - 1) =~= a.take(i).drop_first());
        assert(b.drop_first().take(i - 1) =~= b.take(i).drop_first());
        law_name_order_is_string_order(a.drop_first(), b.drop_first(), i - 1);
    }
}

/// Compares two strings in `String`'s order.
pub fn str_le(a: &str, b: &str) -> (r: bool)
    ensures
        r == lex_le(a@, b@),
{
    let va = chars_of(a);
    let vb = chars_of(b);
    let mut i: usize = 0;
    while i < va.len() && i < vb.len() && va[i] == vb[i]
        invariant
            i <= va@.len(),
            i <= vb@.len(),
            va@ == a@,
            vb@ == b@,
            lex_le(a@, b@) == lex_le(va@.skip(i as int), vb@.skip(i as int)),
        decreases va.len() - i,
    {
        assert(va@.skip(i as int).drop_first() =~= va@.skip(i + 1));
        assert(vb@.skip(i as int).drop_first() =~= vb@.skip(i + 1));
        i = i + 1;
    }
    assert(va@.skip(0) =~= va@);
    assert(vb@.skip(0) =~= vb@);
    let ghost sa = va@.skip(i as int);
    let ghost sb = vb@.skip(i as int);
    if i == va.len() {
        assert(sa.len() == 0);
        assert(lex_le(sa, sb));
        true
    } else if i == vb.len() {
        assert(sb.len() == 0);
        assert(sa.len() > 0);
        assert(!lex_le(sa, sb));
        false
    } else {
        assert(sa[0] == va@[i as int]);
        assert(sb[0] == vb@[i as int]);
        assert(sa[0] != sb[0]);
        assert(sa.len() > 0 && sb.len() > 0);
        let ca = va[i];
        let cb = vb[i];
        let r = ca < cb;
        assert(r == lex_le(sa, sb));
        r
    }
}

// ── Sorting by name ──────────────────────────────────────────────────────────

/// The objects are in order of name.
pub open spec fn sorted_by_name<T: Listed>(s: Seq<T>) -> bool {
    forall|i: int, j: int| 0 <= i < j < s.len() ==> lex_le(s[i].name_key(), s[j].name_key())
}

/// The predicate "has name `k`".
pub open spec fn has_name<T: Listed>(k: Seq<char>) -> spec_fn(T) -> bool {
    |x: T| x.name_key() == k
}

/// For every name, the objects of that name come in the same order in both.
pub open spec fn same_order_per_name<T: Listed>(a: Seq<T>, b: Seq<T>) -> bool {
    forall|k: Seq<char>| #[trigger] a.filter(has_name::<T>(k)) == b.filter(has_name::<T>(k))
}

/// In a list sorted by name, an object whose name is a proper prefix of
/// another's comes before it (so `Bedroom` comes before `Bedroom 2`).
pub proof fn law_prefix_sorts_first<T: Listed>(s: Seq<T>, i: int, j: int)
    requires
        sorted_by_name(s),
        0 <= i < s.len(),
        0 <= j < s.len(),
        s[i].name_key().len() < s[j].name_key().len(),
        s[j].name_key().take(s[i].name_key().len() as int) == s[i].name_key(),
    ensures
        i < j,
{
    law_name_order_is_string_order(s[i].name_key(), s[j].name_key(), 0);
    if j < i {
        assert(lex_le(s[j].name_key(), s[i].name_key()));
    }
}

/// Sorts by plain-text name, keeping objects of equal name in their order
/// (a stable sort, as `slice::sort_by`).
pub fn sort_by_name<T: Listed>(v: Vec<T>) -> (r: Vec<T>)
    ensures
        sorted_by_name(r@),
        same_order_per_name(r@, v@),
{
    let ghost orig = v@;
    let n = v.len();
    let mut input = v;
    let mut result: Vec<T> = Vec::new();
    let mut i: usize = 0;
    while input.len() > 0
        invariant
            orig == orig.take(i as int) + input@,
            i + input@.len() == orig.len(),
            n == orig.len(),
            sorted_by_name(result@),
            same_order_per_name(result@, orig.take(i as int)),
        decreases input@.len(),
    {
        let x = input.remove(0);
        let ghost kx = x.name_key();
        let mut p: usize = 0;
        while p < result.len() && str_le(result[p].name_str(), x.name_str())
            invariant
                p <= result@.len(),
                forall|m: int| 0 <= m < p ==> lex_le(#[trigger] result@[m].name_key(), kx),
                kx == x.name_key(),
            decreases result@.len() - p,
        {
            p = p + 1;
        }
        let ghost old_r = result@;
        proof {
            assert forall|q: int| p <= q < old_r.len() implies !lex_le(
                #[trigger] old_r[q].name_key(),
                kx,
            ) by {
                if lex_le(old_r[q].name_key(), kx) {
                    assert(!lex_le(old_r[p as int].name_key(), kx));
                    lemma_lex_le_transitive(old_r[p as int].name_key(), old_r[q].name_key(), kx);
                }
            }
        }
        result.insert(p, x);
        proof {
            let new_r = result@;
            assert(new_r == old_r.take(p as int) + seq![x] + old_r.skip(p as int));
            assert forall|a: int, b: int| 0 <= a < b < new_r.len() implies lex_le(
                new_r[a].name_key(),
                new_r[b].name_key(),
            ) by {
                if b == p {
                    assert(new_r[a] == old_r[a]);
                } else if a == p {
                    assert(new_r[b] == old_r[b - 1]);
                    lemma_lex_le_total(old_r[b - 1].name_key(), kx);
                } else {
                    let oa = if a < p {
                        a
                    } else {
                        a - 1
                    };
                    let ob = if b < p {
                        b
                    } else {
                        b - 1
                    };
                    assert(new_r[a] == old_r[oa]);
                    assert(new_r[b] == old_r[ob]);
                }
            }
            let prefix = orig.take(i as int);
            let prefix2 = orig.take(i + 1);
            assert(prefix2 =~= prefix.push(x));
            assert forall|k: Seq<char>| #[trigger] new_r.filter(has_name::<T>(k)) == prefix2.filter(
                has_name::<T>(k),
            ) by {
                let pred = has_name::<T>(k);
                let left = old_r.take(p as int);
                let right = old_r.skip(p as int);
                assert(old_r =~= left + right);
                Seq::filter_distributes_over_add(left, right, pred);
                Seq::filter_distributes_over_add(left + seq![x], right, pred);
                Seq::filter_distributes_over_add(left, seq![x], pred);
                prefix.lemma_filter_push(x, pred);
                if k == kx {
                    assert forall|q: int| 0 <= q < right.len() implies !pred(right[q]) by {
                        assert(right[q] == old_r[p + q]);
                        lemma_lex_le_reflexive(kx);
                    }
                    right.lemma_all_neg_filter_empty(pred);
                    assert(right.filter(pred) =~= Seq::<T>::empty());
                    assert(seq![x].filter(pred) =~= seq![x]) by {
                        reveal(Seq::filter);
                        assert(seq![x].drop_last() =~= Seq::<T>::empty());
                    }
                    assert(old_r.filter(pred) =~= left.filter(pred));
                    assert(new_r.filter(pred) =~= old_r.filter(pred).push(x));
                } else {
                    assert(seq![x].filter(pred) =~= Seq::<T>::empty()) by {
                        reveal(Seq::filter);
                        assert(seq![x].drop_last() =~= Seq::<T>::empty());
                    }
                    assert(new_r.filter(pred) =~= old_r.filter(pred));
                }
            }
            assert(orig =~= prefix2 + input@);
        }
        i = i + 1;
    }
    assert(orig.take(i as int) =~= orig);
    result
}

// ── Looking up by name or id ─────────────────────────────────────────────────

/// `name` names the object: its plain-text name equal ignoring ASCII case,
/// or its id written in decimal.
pub open spec fn matches_name<T: Listed>(x: T, name: Seq<char>) -> bool {
    eq_ignore_ascii_case_spec(x.name_key(), name) || dec_int(x.id_value() as int) == name
}

/// Index `i` is the first object that `name` names.
pub open spec fn is_first_match<T: Listed>(s: Seq<T>, name: Seq<char>, i: int) -> bool {
    0 <= i < s.len() && matches_name(s[i], name) && forall|j: int|
        0 <= j < i ==> !matches_name(#[trigger] s[j], name)
}

fn matches_name_exec<T: Listed>(x: &T, name: &str) -> (r: bool)
    ensures
        r == matches_name(*x, name@),
{
    if eq_ignore_ascii_case(x.name_str(), name) {
        return true;
    }
    let id_text = i32_text(x.id_of());
    str_eq(id_text.as_str(), name)
}

/// The first object that `name` names, taken out of the list.
pub fn find_by_name<T: Listed>(items: Vec<T>, name: &str) -> (r: Option<T>)
    ensures
        match r {
            Some(x) => exists|i: int| is_first_match(items@, name@, i) && x == items@[i],
            None => forall|i: int| 0 <= i < items@.len() ==> !matches_name(#[trigger] items@[i], name@),
        },
{
    let mut pool = items;
    let ghost orig = pool@;
    let mut i: usize = 0;
    while i < pool.len()
        invariant
            pool@ == orig,
            orig == items@,
            i <= items@.len(),
            forall|j: int| 0 <= j < i ==> !matches_name(#[trigger] orig[j], name@),
        decreases items@.len() - i,
    {
        if matches_name_exec(&pool[i], name) {
            let x = pool.remove(i);
            assert(is_first_match(orig, name@, i as int));
            assert(x == orig[i as int]);
            return Some(x);
        }
        i = i + 1;
    }
    None
}

} // verus!

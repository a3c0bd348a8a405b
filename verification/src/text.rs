use vstd::prelude::*;
use vstd::string::StrSliceExecFns;
use vstd::string::StringExecFns;

verus! {

// ---------------------------------------------------------------------------
// Decimal rendering of unsigned integers, used for per-replica names such as
// `{set}-{i}`.
// ---------------------------------------------------------------------------
/// The character for one decimal digit.
pub open spec fn dec_digit(d: nat) -> char
    recommends
        d < 10,
{
    ((d + 48) as u8) as char
}

/// The decimal rendering of `n`, most significant digit first, no leading
/// zeroes (except for `n == 0`, which renders as `0`).
pub open spec fn dec_str(n: nat) -> Seq<char>
    decreases n,
{
    if n < 10 {
        seq![dec_digit(n)]
    } else {
        dec_str(n / 10) + seq![dec_digit(n % 10)]
    }
}

fn digit_str(d: u32) -> (r: &'static str)
    requires
        d < 10,
    ensures
        r@ == seq![dec_digit(d as nat)],
{
    proof {
        reveal_strlit("0");
        reveal_strlit("1");
        reveal_strlit("2");
        reveal_strlit("3");
        reveal_strlit("4");
        reveal_strlit("5");
        reveal_strlit("6");
        reveal_strlit("7");
        reveal_strlit("8");
        reveal_strlit("9");
    }
    let r = match d {
        0 => "0",
        1 => "1",
        2 => "2",
        3 => "3",
        4 => "4",
        5 => "5",
        6 => "6",
        7 => "7",
        8 => "8",
        _ => "9",
    };
    proof {
        assert(r@ =~= seq![dec_digit(d as nat)]);
    }
    r
}

/// Renders `n` in decimal.
pub fn u32_to_string(n: u32) -> (r: String)
    ensures
        r@ == dec_str(n as nat),
    decreases n,
{
    if n < 10 {
        let r = String::from_str(digit_str(n));
        proof {
            assert(r@ =~= dec_str(n as nat));
        }
        r
    } else {
        let mut r = u32_to_string(n / 10);
        r.append(digit_str(n % 10));
        r
    }
}

// ---------------------------------------------------------------------------
// Joining with a separator, used for `MYCELIUM_PLUGINS` and for the
// label-selector string.
// ---------------------------------------------------------------------------
/// The items joined with one comma between each pair of neighbours.
pub open spec fn comma_join(items: Seq<Seq<char>>) -> Seq<char>
    decreases items.len(),
{
    if items.len() == 0 {
        Seq::empty()
    } else if items.len() == 1 {
        items[0]
    } else {
        comma_join(items.drop_last()) + ","@ + items.last()
    }
}

/// Joins the items with commas, as `join(",")` does.
pub fn join_comma(items: &Vec<String>) -> (r: String)
    ensures
        r@ == comma_join(items@.map_values(|s: String| s@)),
{
    let ghost m = items@.map_values(|s: String| s@);
    let mut r = String::new();
    let mut i: usize = 0;
    while i < items.len()
        invariant
            i <= items.len(),
            m == items@.map_values(|s: String| s@),
            r@ == comma_join(m.take(i as int)),
        decreases items.len() - i,
    {
        if i > 0 {
            r.append(",");
        }
        r.append(items[i].as_str());
        proof {
            assert(m.take(i + 1).drop_last() =~= m.take(i as int));
            assert(m.take(i + 1).last() == m[i as int]);
            if i == 0 {
                assert(r@ =~= comma_join(m.take(1)));
            }
        }
        i = i + 1;
    }
    proof {
        assert(m.take(items@.len() as int) =~= m);
    }
    r
}

// ---------------------------------------------------------------------------
// Splitting on a separator, as `split_terminator` does: used to take a
// space-separated JVM option string or a comma-separated plugin list apart.
// ---------------------------------------------------------------------------
/// The position of the first occurrence of `sep` in `s`, or `s.len()` when
/// `sep` does not occur.
pub open spec fn first_index(s: Seq<char>, sep: char) -> nat
    decreases s.len(),
{
    if s.len() == 0 {
        0
    } else if s[0] == sep {
        0
    } else {
        1 + first_index(s.drop_first(), sep)
    }
}

proof fn lemma_first_index_is(s: Seq<char>, sep: char, k: nat)
    requires
        k <= s.len(),
        forall|j: int| 0 <= j < k ==> s[j] != sep,
        k < s.len() ==> s[k as int] == sep,
    ensures
        first_index(s, sep) == k,
    decreases s.len(),
{
    if s.len() == 0 {
    } else if s[0] == sep {
        assert(k == 0);
    } else {
        assert(k >= 1) by {
            if k == 0 {
                assert(s[0] == sep);
            }
        }
        let t = s.drop_first();
        assert(forall|j: int| 0 <= j < k - 1 ==> t[j] == s[j + 1] && t[j] != sep);
        assert(k - 1 < t.len() ==> t[k - 1] == s[k as int]);
        lemma_first_index_is(t, sep, (k - 1) as nat);
    }
}

/// One field of a plain split: the text before the first separator, kept even
/// when empty, followed by the fields of the rest.
pub open spec fn split_plain(s: Seq<char>, sep: char) -> Seq<Seq<char>>
    decreases s.len(),
{
    let i = first_index(s, sep);
    if i >= s.len() {
        seq![s]
    } else {
        seq![s.take(i as int)] + split_plain(s.subrange(i as int + 1, s.len() as int), sep)
    }
}

/// The fields of `s` split on `sep`, a trailing separator producing no final
/// empty field, as `split_terminator` does; the empty string has no fields.
pub open spec fn split_terminated(s: Seq<char>, sep: char) -> Seq<Seq<char>> {
    if s.len() == 0 {
        Seq::empty()
    } else if s.last() == sep {
        split_plain(s.drop_last(), sep)
    } else {
        split_plain(s, sep)
    }
}

fn first_sep_index(s: &str, sep: char) -> (i: usize)
    ensures
        i == first_index(s@, sep),
        i <= s@.len(),
{
    let n = s.unicode_len();
    let mut i: usize = 0;
    while i < n
        invariant
            n == s@.len(),
            i <= n,
            forall|j: int| 0 <= j < i ==> s@[j] != sep,
        decreases n - i,
    {
        if s.get_char(i) == sep {
            proof {
                lemma_first_index_is(s@, sep, i as nat);
            }
            return i;
        }
        i = i + 1;
    }
    proof {
        lemma_first_index_is(s@, sep, n as nat);
    }
    n
}

fn split_plain_exec(s: &str, sep: char) -> (r: Vec<String>)
    ensures
        r@.map_values(|x: String| x@) == split_plain(s@, sep),
    decreases s@.len(),
{
    let n = s.unicode_len();
    let i = first_sep_index(s, sep);
    if i >= n {
        let mut r: Vec<String> = Vec::new();
        r.push(s.to_owned());
        proof {
            assert(r@.map_values(|x: String| x@) =~= split_plain(s@, sep));
        }
        r
    } else {
        let head = s.substring_char(0, i);
        let tail = s.substring_char(i + 1, n);
        let mut r = split_plain_exec(tail, sep);
        r.insert(0, head.to_owned());
        proof {
            assert(head@ =~= s@.take(i as int));
            assert(tail@ =~= s@.subrange(i as int + 1, s@.len() as int));
            assert(r@.map_values(|x: String| x@) =~= split_plain(s@, sep));
        }
        r
    }
}

proof fn lemma_split_concat(x: Seq<char>, rest: Seq<char>, sep: char)
    requires
        forall|j: int| 0 <= j < x.len() ==> x[j] != sep,
    ensures
        split_plain(x + seq![sep] + rest, sep) == seq![x] + split_plain(rest, sep),
{
    let s = x + seq![sep] + rest;
    assert(s[x.len() as int] == sep);
    assert(forall|j: int| 0 <= j < x.len() ==> s[j] == x[j]);
    lemma_first_index_is(s, sep, x.len());
    assert(s.take(x.len() as int) =~= x);
    assert(s.subrange(x.len() as int + 1, s.len() as int) =~= rest);
}

proof fn lemma_comma_join_front(items: Seq<Seq<char>>)
    requires
        items.len() >= 2,
    ensures
        comma_join(items) == items[0] + ","@ + comma_join(items.drop_first()),
    decreases items.len(),
{
    if items.len() == 2 {
        assert(items.drop_last() =~= seq![items[0]]);
        assert(items.drop_first() =~= seq![items[1]]);
        assert(comma_join(items) == comma_join(items.drop_last()) + ","@ + items.last());
        assert(comma_join(seq![items[0]]) == items[0]);
        assert(comma_join(seq![items[1]]) == items[1]);
        assert(items.last() == items[1]);
    } else {
        let front = items.drop_last();
        lemma_comma_join_front(front);
        assert(front[0] == items[0]);
        assert(front.drop_first() =~= items.drop_first().drop_last());
        assert(items.drop_first().len() >= 2);
        assert(comma_join(items) == comma_join(front) + ","@ + items.last());
        assert(comma_join(items.drop_first()) == comma_join(items.drop_first().drop_last()) + ","@
            + items.drop_first().last());
        assert(items.drop_first().last() == items.last());
        assert((items[0] + ","@ + comma_join(items.drop_first().drop_last())) + ","@
            + items.last() =~= items[0] + ","@ + (comma_join(items.drop_first().drop_last())
            + ","@ + items.last()));
    }
}

proof fn lemma_comma_join_last_char(items: Seq<Seq<char>>)
    requires
        items.len() > 0,
        items.last().len() > 0,
    ensures
        comma_join(items).len() > 0,
        comma_join(items).last() == items.last().last(),
    decreases items.len(),
{
    if items.len() == 1 {
    } else {
        let s = comma_join(items.drop_last()) + ","@ + items.last();
        assert(comma_join(items) == s);
        assert(s.last() == items.last().last());
    }
}

/// Fields joined with a separator come back apart unchanged: splitting the
/// joined string recovers exactly the fields, as long as no field holds the
/// separator and none is empty. This is how the runner recovers the plugin
/// list the operator joined into one environment value.
pub proof fn lemma_join_then_split_roundtrip(items: Seq<Seq<char>>)
    ensures
        (forall|i: int| 0 <= i < items.len() ==> (#[trigger] items[i]).len() > 0 && forall|j: int|
            0 <= j < items[i].len() ==> items[i][j] != ',') ==> split_terminated(
            comma_join(items),
            ',',
        ) == items,
    decreases items.len(),
{
    reveal_strlit(",");
    if forall|i: int| 0 <= i < items.len() ==> (#[trigger] items[i]).len() > 0 && forall|j: int|
        0 <= j < items[i].len() ==> items[i][j] != ',' {
        assert(","@ =~= seq![',']);
        if items.len() == 0 {
            assert(split_terminated(comma_join(items), ',') =~= items);
        } else if items.len() == 1 {
            let s = comma_join(items);
            assert(s == items[0]);
            assert(s.last() != ',');
            lemma_first_index_is(s, ',', s.len());
            assert(split_plain(s, ',') =~= seq![s]);
            assert(split_terminated(s, ',') =~= items);
        } else {
            let rest = items.drop_first();
            lemma_comma_join_front(items);
            lemma_comma_join_last_char(rest);
            lemma_join_then_split_roundtrip(rest);
            let s = comma_join(items);
            assert(s =~= items[0] + seq![','] + comma_join(rest));
            lemma_split_concat(items[0], comma_join(rest), ',');
            assert(s.last() == comma_join(rest).last());
            assert(comma_join(rest).last() == rest.last().last()) by {
                assert(rest.last() == items.last());
            }
            assert(s.len() > 0 && s.last() != ',');
            assert(split_terminated(comma_join(rest), ',') == split_plain(comma_join(rest), ','));
            assert(split_terminated(s, ',') == seq![items[0]] + split_plain(
                comma_join(rest),
                ',',
            ));
            assert(seq![items[0]] + rest =~= items);
        }
    }
}

/// Splits `s` on `sep` as `split_terminator` does: every field between
/// separators, a trailing separator adding no empty field.
pub fn split_terminator_char(s: &str, sep: char) -> (r: Vec<String>)
    ensures
        r@.map_values(|x: String| x@) == split_terminated(s@, sep),
{
    let n = s.unicode_len();
    if n == 0 {
        let r: Vec<String> = Vec::new();
        proof {
            assert(r@.map_values(|x: String| x@) =~= split_terminated(s@, sep));
        }
        r
    } else if s.get_char(n - 1) == sep {
        let trimmed = s.substring_char(0, n - 1);
        proof {
            assert(trimmed@ =~= s@.drop_last());
        }
        split_plain_exec(trimmed, sep)
    } else {
        split_plain_exec(s, sep)
    }
}

} // verus!

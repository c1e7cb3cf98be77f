use vstd::prelude::*;
use vstd::string::*;

verus! {

/// Whether `s` holds the placeholder `{}` at position `i`.
pub open spec fn placeholder_at(s: Seq<char>, i: int) -> bool {
    0 <= i && i + 1 < s.len() && s[i] == '{' && s[i + 1] == '}'
}

/// `s` with every `{}` replaced by `value`, scanning left to right as
/// `str::replace` does (the placeholder cannot overlap itself).
pub open spec fn fill_placeholders(s: Seq<char>, value: Seq<char>) -> Seq<char>
    decreases s.len(),
{
    if s.len() < 2 {
        s
    } else if placeholder_at(s, 0) {
        value + fill_placeholders(s.skip(2), value)
    } else {
        seq![s[0]] + fill_placeholders(s.skip(1), value)
    }
}

/// Whether `s` holds no placeholder at all.
pub open spec fn placeholder_free(s: Seq<char>) -> bool {
    forall|i: int| !placeholder_at(s, i)
}

/// The URL of the location lookup for `address`: the configured `api_url`
/// with each `{}` replaced by the address.
pub fn lookup_url(api_url: &str, address: &str) -> (url: String)
    ensures
        url@ == fill_placeholders(api_url@, address@),
{
    let n: usize = api_url.unicode_len();
    let mut url = String::new();
    let mut i: usize = 0;
    proof {
        assert(api_url@.skip(0) =~= api_url@);
    }
    while i < n
        invariant
            n == api_url@.len(),
            i <= n,
            url@ + fill_placeholders(api_url@.skip(i as int), address@) == fill_placeholders(
                api_url@,
                address@,
            ),
        decreases n - i,
    {
        let ghost rest = api_url@.skip(i as int);
        let ghost before = url@;
        if i + 1 < n && api_url.get_char(i) == '{' && api_url.get_char(i + 1) == '}' {
            proof {
                assert(placeholder_at(rest, 0));
                assert(rest.skip(2) =~= api_url@.skip(i + 2));
            }
            url.append(address);
            i = i + 2;
            proof {
                let tail = fill_placeholders(rest.skip(2), address@);
                assert((before + address@) + tail =~= before + (address@ + tail));
            }
        } else {
            let one = api_url.substring_char(i, i + 1);
            proof {
                assert(one@ =~= seq![rest[0]]);
                assert(rest.skip(1) =~= api_url@.skip(i + 1));
                if rest.len() < 2 {
                    assert(rest =~= seq![rest[0]]);
                    assert(rest.skip(1) =~= Seq::<char>::empty());
                }
                assert(fill_placeholders(rest, address@) == seq![rest[0]] + fill_placeholders(
                    rest.skip(1),
                    address@,
                ));
            }
            url.append(one);
            i = i + 1;
            proof {
                let tail = fill_placeholders(rest.skip(1), address@);
                assert((before + one@) + tail =~= before + (one@ + tail));
            }
        }
    }
    url
}

} // verus!

verus! {

/// Filling placeholders distributes over a prefix that is followed by no
/// placeholder starting inside it.
proof fn lemma_fill_prefix(a: Seq<char>, t: Seq<char>, value: Seq<char>)
    requires
        forall|i: int| 0 <= i < a.len() ==> !placeholder_at(a + t, i),
    ensures
        fill_placeholders(a + t, value) == a + fill_placeholders(t, value),
    decreases a.len(),
{
    let s = a + t;
    if a.len() == 0 {
        assert(s =~= t);
    } else if s.len() < 2 {
        assert(t =~= Seq::<char>::empty());
        assert(s =~= a);
    } else {
        assert(!placeholder_at(s, 0));
        let a1 = a.skip(1);
        assert(s.skip(1) =~= a1 + t);
        assert forall|i: int| 0 <= i < a1.len() implies !placeholder_at(a1 + t, i) by {
            assert(!placeholder_at(s, i + 1));
            assert((a1 + t)[i] == s[i + 1]);
            if i + 1 < (a1 + t).len() {
                assert((a1 + t)[i + 1] == s[i + 2]);
            }
        }
        lemma_fill_prefix(a1, t, value);
        assert(seq![s[0]] + (a1 + fill_placeholders(t, value)) =~= a + fill_placeholders(t, value));
    }
}

/// A text without placeholders is left as it is.
pub proof fn lemma_fill_placeholder_free(s: Seq<char>, value: Seq<char>)
    requires
        placeholder_free(s),
    ensures
        fill_placeholders(s, value) == s,
{
    assert(s + Seq::<char>::empty() =~= s);
    lemma_fill_prefix(s, Seq::<char>::empty(), value);
}

/// A URL with one placeholder gets the value in its place and is otherwise
/// kept: `a{}b` becomes `a` + value + `b` when neither `a` nor `b` holds a
/// placeholder.
pub proof fn lemma_fill_single_placeholder(a: Seq<char>, b: Seq<char>, value: Seq<char>)
    requires
        placeholder_free(a),
        placeholder_free(b),
    ensures
        fill_placeholders(a + seq!['{', '}'] + b, value) == a + value + b,
{
    let t = seq!['{', '}'] + b;
    let s = a + seq!['{', '}'] + b;
    assert(s =~= a + t);
    assert forall|i: int| 0 <= i < a.len() implies !placeholder_at(a + t, i) by {
        if i + 1 < a.len() {
            assert(!placeholder_at(a, i));
        } else {
            assert((a + t)[i + 1] == '{');
        }
    }
    lemma_fill_prefix(a, t, value);
    assert(placeholder_at(t, 0));
    assert(t.skip(2) =~= b);
    lemma_fill_placeholder_free(b, value);
    assert(a + (value + b) =~= a + value + b);
}

} // verus!

verus! {

/// Filling goes placeholder by placeholder: the text before the first `{}`
/// is kept, the placeholder becomes the value, and the rest is filled in
/// turn. With `lemma_fill_placeholder_free`, this fixes the filled text of
/// every URL.
pub proof fn lemma_fill_first_placeholder(a: Seq<char>, t: Seq<char>, value: Seq<char>)
    requires
        placeholder_free(a),
    ensures
        fill_placeholders(a + seq!['{', '}'] + t, value) == a + value + fill_placeholders(
            t,
            value,
        ),
{
    let u = seq!['{', '}'] + t;
    assert(a + seq!['{', '}'] + t =~= a + u);
    assert forall|i: int| 0 <= i < a.len() implies !placeholder_at(a + u, i) by {
        if i + 1 < a.len() {
            assert(!placeholder_at(a, i));
        } else {
            assert((a + u)[i + 1] == '{');
        }
    }
    lemma_fill_prefix(a, u, value);
    assert(placeholder_at(u, 0));
    assert(u.skip(2) =~= t);
    assert(a + (value + fill_placeholders(t, value)) =~= a + value + fill_placeholders(t, value));
}

} // verus!

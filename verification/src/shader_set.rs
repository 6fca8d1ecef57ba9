use vstd::prelude::*;
use crate::config::view_shader_list;
use crate::shader_type::ShaderType;

verus! {

/// Lexicographic order of strings by character code, the order of `str`'s `Ord` (UTF-8 bytes
/// compare as their code points do).
pub open spec fn str_lt(a: Seq<char>, b: Seq<char>) -> bool
    decreases a.len(),
{
    if a.len() == 0 {
        b.len() > 0
    } else if b.len() == 0 {
        false
    } else if a[0] != b[0] {
        (a[0] as u32) < (b[0] as u32)
    } else {
        str_lt(a.drop_first(), b.drop_first())
    }
}

/// Position of a shader kind in the order its variants are declared in.
pub open spec fn type_rank(t: ShaderType) -> int {
    match t {
        ShaderType::Compute => 0,
        ShaderType::Mesh => 1,
        ShaderType::Task => 2,
        ShaderType::Vertex => 3,
        ShaderType::Fragment => 4,
    }
}

/// Order of (shader name, shader kind) pairs: by name, then by kind.
pub open spec fn shader_lt(x: (Seq<char>, ShaderType), y: (Seq<char>, ShaderType)) -> bool {
    str_lt(x.0, y.0) || (x.0 == y.0 && type_rank(x.1) < type_rank(y.1))
}

/// `s` with `x` inserted before the first element that is not below it, unless `x` is
/// already there.
pub open spec fn insert_sorted(s: Seq<(Seq<char>, ShaderType)>, x: (Seq<char>, ShaderType)) -> Seq<
    (Seq<char>, ShaderType),
>
    decreases s.len(),
{
    if s.len() == 0 {
        seq![x]
    } else if s[0] == x {
        s
    } else if shader_lt(x, s[0]) {
        seq![x] + s
    } else {
        seq![s[0]] + insert_sorted(s.drop_first(), x)
    }
}

/// The distinct shaders of a list in ascending order, as a `BTreeSet` holds them.
pub open spec fn sorted_set(list: Seq<(Seq<char>, ShaderType)>) -> Seq<(Seq<char>, ShaderType)>
    decreases list.len(),
{
    if list.len() == 0 {
        seq![]
    } else {
        insert_sorted(sorted_set(list.drop_last()), list.last())
    }
}

fn rank(t: ShaderType) -> (res: u8)
    ensures
        res == type_rank(t),
{
    match t {
        ShaderType::Compute => 0,
        ShaderType::Mesh => 1,
        ShaderType::Task => 2,
        ShaderType::Vertex => 3,
        ShaderType::Fragment => 4,
    }
}

proof fn lemma_str_lt_skip(a: Seq<char>, b: Seq<char>, i: int)
    requires
        0 <= i < a.len(),
        i < b.len(),
        a[i] == b[i],
    ensures
        str_lt(a.skip(i), b.skip(i)) == str_lt(a.skip(i + 1), b.skip(i + 1)),
{
    assert(a.skip(i).drop_first() =~= a.skip(i + 1));
    assert(b.skip(i).drop_first() =~= b.skip(i + 1));
}

/// Whether `a` comes before `b` in the order of strings.
pub fn str_less(a: &str, b: &str) -> (res: bool)
    ensures
        res == str_lt(a@, b@),
{
    let n = a.unicode_len();
    let m = b.unicode_len();
    let mut i: usize = 0;
    assert(a@.skip(0) =~= a@);
    assert(b@.skip(0) =~= b@);
    while i < n && i < m
        invariant
            n == a@.len(),
            m == b@.len(),
            i <= n,
            i <= m,
            str_lt(a@, b@) == str_lt(a@.skip(i as int), b@.skip(i as int)),
        decreases n - i,
    {
        let c = a.get_char(i);
        let d = b.get_char(i);
        if c != d {
            assert(a@.skip(i as int)[0] == c);
            assert(b@.skip(i as int)[0] == d);
            return (c as u32) < (d as u32);
        }
        proof {
            lemma_str_lt_skip(a@, b@, i as int);
        }
        i = i + 1;
    }
    assert(a@.skip(i as int).len() == n - i);
    assert(b@.skip(i as int).len() == m - i);
    i < m
}

fn shader_less(x: (&str, ShaderType), y: (&str, ShaderType)) -> (res: bool)
    ensures
        res == shader_lt((x.0@, x.1), (y.0@, y.1)),
{
    if str_less(x.0, y.0) {
        true
    } else if str_less(y.0, x.0) {
        proof {
            lemma_str_lt_asymmetric(y.0@, x.0@);
        }
        false
    } else {
        proof {
            lemma_str_lt_total(x.0@, y.0@);
        }
        rank(x.1) < rank(y.1)
    }
}

proof fn lemma_str_lt_asymmetric(a: Seq<char>, b: Seq<char>)
    requires
        str_lt(a, b),
    ensures
        !str_lt(b, a),
        a != b,
    decreases a.len(),
{
    if a.len() > 0 && b.len() > 0 && a[0] == b[0] {
        lemma_str_lt_asymmetric(a.drop_first(), b.drop_first());
    }
}

/// Two strings neither of which comes before the other are equal.
pub proof fn lemma_str_lt_total(a: Seq<char>, b: Seq<char>)
    requires
        !str_lt(a, b),
        !str_lt(b, a),
    ensures
        a == b,
    decreases a.len(),
{
    if a.len() > 0 && b.len() > 0 {
        if a[0] == b[0] {
            lemma_str_lt_total(a.drop_first(), b.drop_first());
            assert(a =~= seq![a[0]] + a.drop_first());
            assert(b =~= seq![b[0]] + b.drop_first());
        } else {
            vstd::utf8::char_u32_cast(a[0], a[0] as u32);
            vstd::utf8::char_u32_cast(b[0], b[0] as u32);
        }
    } else {
        assert(a =~= b);
    }
}

fn shader_eq(x: (&str, ShaderType), y: (&str, ShaderType)) -> (res: bool)
    ensures
        res == ((x.0@, x.1) == (y.0@, y.1)),
{
    crate::text::str_eq(x.0, y.0) && x.1 == y.1
}

proof fn lemma_insert_split(s: Seq<(Seq<char>, ShaderType)>, x: (Seq<char>, ShaderType), k: int)
    requires
        0 <= k < s.len(),
        s[k] != x,
        !shader_lt(x, s[k]),
    ensures
        insert_sorted(s.skip(k), x) == seq![s[k]] + insert_sorted(s.skip(k + 1), x),
{
    assert(s.skip(k).drop_first() =~= s.skip(k + 1));
}

/// Inserts a shader into a list sorted as [`sorted_set`] builds it.
fn insert_shader<'a>(set: &mut Vec<(&'a str, ShaderType)>, x: (&'a str, ShaderType))
    ensures
        view_shader_list(final(set)@) == insert_sorted(view_shader_list(old(set)@), (x.0@, x.1)),
{
    let ghost s = view_shader_list(set@);
    let ghost xv = (x.0@, x.1);
    let mut k: usize = 0;
    assert(s.skip(0) =~= s);
    assert(s.take(0) + s.skip(0) =~= s);
    while k < set.len()
        invariant
            s == view_shader_list(set@),
            s == view_shader_list(old(set)@),
            xv == (x.0@, x.1),
            k <= set@.len(),
            insert_sorted(s, xv) == s.take(k as int) + insert_sorted(s.skip(k as int), xv),
        decreases set@.len() - k,
    {
        let y = set[k];
        assert(s[k as int] == (y.0@, y.1));
        assert(s.skip(k as int)[0] == s[k as int]);
        if shader_eq(y, x) {
            assert(insert_sorted(s.skip(k as int), xv) == s.skip(k as int));
            assert(s.take(k as int) + s.skip(k as int) =~= s);
            return;
        }
        if shader_less(x, y) {
            let ghost before = set@;
            set.insert(k, x);
            assert(view_shader_list(set@) =~= s.take(k as int) + (seq![xv] + s.skip(k as int)));
            return;
        }
        proof {
            lemma_insert_split(s, xv, k as int);
            assert(s.take(k as int) + seq![s[k as int]] =~= s.take(k + 1));
        }
        k = k + 1;
    }
    assert(s.skip(k as int) =~= seq![]);
    let ghost before = set@;
    set.push(x);
    assert(view_shader_list(set@) =~= view_shader_list(before).push(xv));
    assert(s.take(k as int) =~= s);
}

/// The distinct shaders of `list` in ascending order of name, then kind: what iterating the
/// `BTreeSet` built from `list` gives.
pub fn shader_set<'a>(list: &Vec<(&'a str, ShaderType)>) -> (res: Vec<(&'a str, ShaderType)>)
    ensures
        view_shader_list(res@) == sorted_set(view_shader_list(list@)),
{
    let ghost lv = view_shader_list(list@);
    let mut set: Vec<(&'a str, ShaderType)> = Vec::new();
    let mut i: usize = 0;
    assert(view_shader_list(set@) =~= sorted_set(lv.take(0)));
    while i < list.len()
        invariant
            lv == view_shader_list(list@),
            i <= list@.len(),
            view_shader_list(set@) == sorted_set(lv.take(i as int)),
        decreases list@.len() - i,
    {
        assert(lv.take((i + 1) as int).drop_last() =~= lv.take(i as int));
        assert(lv[i as int] == (list@[i as int].0@, list@[i as int].1));
        insert_shader(&mut set, list[i]);
        i = i + 1;
    }
    assert(lv.take(list@.len() as int) =~= lv);
    set
}


proof fn lemma_str_lt_irreflexive(a: Seq<char>)
    ensures
        !str_lt(a, a),
    decreases a.len(),
{
    if a.len() > 0 {
        lemma_str_lt_irreflexive(a.drop_first());
    }
}

proof fn lemma_str_lt_transitive(a: Seq<char>, b: Seq<char>, c: Seq<char>)
    requires
        str_lt(a, b),
        str_lt(b, c),
    ensures
        str_lt(a, c),
    decreases a.len(),
{
    if a.len() > 0 && b.len() > 0 && c.len() > 0 {
        if a[0] == b[0] && b[0] == c[0] {
            lemma_str_lt_transitive(a.drop_first(), b.drop_first(), c.drop_first());
        } else if a[0] != c[0] {
            vstd::utf8::char_u32_cast(a[0], a[0] as u32);
            vstd::utf8::char_u32_cast(b[0], b[0] as u32);
            vstd::utf8::char_u32_cast(c[0], c[0] as u32);
        } else {
            vstd::utf8::char_u32_cast(a[0], a[0] as u32);
            vstd::utf8::char_u32_cast(b[0], b[0] as u32);
        }
    }
}

/// Whether the shaders are in strictly ascending order.
pub open spec fn strictly_sorted(s: Seq<(Seq<char>, ShaderType)>) -> bool {
    forall|i: int, j: int| 0 <= i < j < s.len() ==> #[trigger] shader_lt(s[i], s[j])
}

proof fn lemma_shader_lt_transitive(
    x: (Seq<char>, ShaderType),
    y: (Seq<char>, ShaderType),
    z: (Seq<char>, ShaderType),
)
    requires
        shader_lt(x, y),
        shader_lt(y, z),
    ensures
        shader_lt(x, z),
{
    if str_lt(x.0, y.0) && str_lt(y.0, z.0) {
        lemma_str_lt_transitive(x.0, y.0, z.0);
    }
}

proof fn lemma_shader_lt_total(x: (Seq<char>, ShaderType), y: (Seq<char>, ShaderType))
    requires
        x != y,
        !shader_lt(x, y),
    ensures
        shader_lt(y, x),
{
    if !str_lt(y.0, x.0) {
        lemma_str_lt_total(x.0, y.0);
        assert(x.1 != y.1);
    }
}

proof fn lemma_insert_sorted(s: Seq<(Seq<char>, ShaderType)>, x: (Seq<char>, ShaderType))
    requires
        strictly_sorted(s),
    ensures
        strictly_sorted(insert_sorted(s, x)),
        forall|y: (Seq<char>, ShaderType)|
            #[trigger] insert_sorted(s, x).contains(y) <==> s.contains(y) || y == x,
    decreases s.len(),
{
    let r = insert_sorted(s, x);
    if s.len() == 0 {
        assert forall|y: (Seq<char>, ShaderType)| r.contains(y) <==> s.contains(y) || y == x by {
            if r.contains(y) {
                assert(r[0] == x);
            }
            if y == x {
                assert(r[0] == x);
            }
        }
    } else if s[0] == x {
        assert(s.contains(x));
    } else if shader_lt(x, s[0]) {
        assert forall|i: int, j: int| 0 <= i < j < r.len() implies #[trigger] shader_lt(r[i], r[j]) by {
            if i == 0 {
                if j > 1 {
                    lemma_shader_lt_transitive(x, s[0], s[j - 1]);
                }
            } else {
                assert(shader_lt(s[i - 1], s[j - 1]));
            }
        }
        assert forall|y: (Seq<char>, ShaderType)| r.contains(y) <==> s.contains(y) || y == x by {
            if r.contains(y) {
                let k = choose|k: int| 0 <= k < r.len() && r[k] == y;
                if k > 0 {
                    assert(s[k - 1] == y);
                }
            }
            if s.contains(y) {
                let k = choose|k: int| 0 <= k < s.len() && s[k] == y;
                assert(r[k + 1] == y);
            }
            if y == x {
                assert(r[0] == x);
            }
        }
    } else {
        let rest = s.drop_first();
        assert forall|i: int, j: int| 0 <= i < j < rest.len() implies #[trigger] shader_lt(
            rest[i],
            rest[j],
        ) by {
            assert(shader_lt(s[i + 1], s[j + 1]));
        }
        lemma_insert_sorted(rest, x);
        lemma_shader_lt_total(x, s[0]);
        let t = insert_sorted(rest, x);
        assert(r == seq![s[0]] + t);
        assert forall|y: (Seq<char>, ShaderType)| r.contains(y) <==> s.contains(y) || y == x by {
            if r.contains(y) {
                let k = choose|k: int| 0 <= k < r.len() && r[k] == y;
                if k > 0 {
                    assert(t[k - 1] == y);
                    assert(t.contains(y));
                    if rest.contains(y) {
                        let m = choose|m: int| 0 <= m < rest.len() && rest[m] == y;
                        assert(s[m + 1] == y);
                    }
                } else {
                    assert(s[0] == y);
                }
            }
            if s.contains(y) {
                let k = choose|k: int| 0 <= k < s.len() && s[k] == y;
                if k > 0 {
                    assert(rest[k - 1] == y);
                    assert(t.contains(y));
                    let m = choose|m: int| 0 <= m < t.len() && t[m] == y;
                    assert(r[m + 1] == y);
                } else {
                    assert(r[0] == y);
                }
            }
            if y == x {
                assert(t.contains(x));
                let m = choose|m: int| 0 <= m < t.len() && t[m] == x;
                assert(r[m + 1] == x);
            }
        }
        assert forall|i: int, j: int| 0 <= i < j < r.len() implies #[trigger] shader_lt(r[i], r[j]) by {
            if i == 0 {
                assert(t.contains(t[j - 1]));
                assert(r[j] == t[j - 1]);
                if t[j - 1] != x {
                    assert(rest.contains(t[j - 1]));
                    let m = choose|m: int| 0 <= m < rest.len() && rest[m] == t[j - 1];
                    assert(shader_lt(s[0], s[m + 1]));
                }
            } else {
                assert(shader_lt(t[i - 1], t[j - 1]));
            }
        }
    }
}

/// Law: the shader set holds each shader of the list once, in strictly ascending order, and
/// nothing else: what iterating a `BTreeSet` of the list gives.
pub proof fn law_shader_set_sorted_unique(list: Seq<(Seq<char>, ShaderType)>)
    ensures
        strictly_sorted(sorted_set(list)),
        forall|y: (Seq<char>, ShaderType)|
            #[trigger] sorted_set(list).contains(y) <==> list.contains(y),
    decreases list.len(),
{
    if list.len() > 0 {
        let prefix = list.drop_last();
        law_shader_set_sorted_unique(prefix);
        lemma_insert_sorted(sorted_set(prefix), list.last());
        assert forall|y: (Seq<char>, ShaderType)| sorted_set(list).contains(y) <==> list.contains(y) by {
            assert(sorted_set(list).contains(y) <==> sorted_set(prefix).contains(y) || y == list.last());
            if list.contains(y) && y != list.last() {
                let k = choose|k: int| 0 <= k < list.len() && list[k] == y;
                assert(prefix[k] == y);
            }
            if prefix.contains(y) {
                let k = choose|k: int| 0 <= k < prefix.len() && prefix[k] == y;
                assert(list[k] == y);
            }
            if y == list.last() {
                assert(list[list.len() - 1] == y);
            }
        }
    } else {
        assert forall|y: (Seq<char>, ShaderType)| sorted_set(list).contains(y) <==> list.contains(y) by {
        }
    }
}

} // verus!

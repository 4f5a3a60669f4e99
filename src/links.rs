//! The `Link` response header: comma-separated `<url>; rel="name"` segments,
//! each with any number of `;`-separated parameters in any order.
use vstd::prelude::*;

verus! {

/// The pieces of `s` between occurrences of `c`; a string without `c` is one piece.
pub open spec fn split_spec(s: Seq<char>, c: char) -> Seq<Seq<char>>
    decreases s.len(),
{
    if s.len() == 0 {
        seq![Seq::<char>::empty()]
    } else {
        let prev = split_spec(s.drop_last(), c);
        if s.last() == c {
            prev.push(Seq::<char>::empty())
        } else {
            prev.update(prev.len() - 1, prev.last().push(s.last()))
        }
    }
}

pub open spec fn is_blank(c: char) -> bool {
    c == ' ' || c == '\t'
}

/// `s` without leading blanks.
pub open spec fn trim_start_spec(s: Seq<char>) -> Seq<char>
    decreases s.len(),
{
    if s.len() > 0 && is_blank(s[0]) {
        trim_start_spec(s.drop_first())
    } else {
        s
    }
}

/// `s` without trailing blanks.
pub open spec fn trim_end_spec(s: Seq<char>) -> Seq<char>
    decreases s.len(),
{
    if s.len() > 0 && is_blank(s.last()) {
        trim_end_spec(s.drop_last())
    } else {
        s
    }
}

pub open spec fn trim_spec(s: Seq<char>) -> Seq<char> {
    trim_end_spec(trim_start_spec(s))
}

/// The index of the first `c` in `s`.
pub open spec fn first_index(s: Seq<char>, c: char) -> Option<int>
    decreases s.len(),
{
    if s.len() == 0 {
        None
    } else if s[0] == c {
        Some(0)
    } else {
        match first_index(s.drop_first(), c) {
            Some(i) => Some(i + 1),
            None => None,
        }
    }
}

/// A parameter value without its surrounding double quotes, if it has them.
pub open spec fn unquote_spec(v: Seq<char>) -> Seq<char> {
    if v.len() >= 2 && v[0] == '"' && v.last() == '"' {
        v.subrange(1, v.len() - 1)
    } else {
        v
    }
}

/// The value of the first `rel=` parameter among `params`, each trimmed.
pub open spec fn rel_param(params: Seq<Seq<char>>) -> Option<Seq<char>>
    decreases params.len(),
{
    if params.len() == 0 {
        None
    } else {
        let p = trim_spec(params[0]);
        if p.len() >= 4 && p.subrange(0, 4) == "rel="@ {
            Some(unquote_spec(p.subrange(4, p.len() as int)))
        } else {
            rel_param(params.drop_first())
        }
    }
}

/// One segment read as a link: after trimming, `<url>` followed by parameters,
/// each introduced by `;`, one of them `rel=`. Anything else is no link.
pub open spec fn link_spec(seg: Seq<char>) -> Option<(Seq<char>, Seq<char>)> {
    let t = trim_spec(seg);
    if t.len() >= 2 && t[0] == '<' {
        match first_index(t, '>') {
            Some(g) => {
                let params = split_spec(t.subrange(g + 1, t.len() as int), ';');
                if trim_spec(params[0]).len() == 0 {
                    match rel_param(params.drop_first()) {
                        Some(rel) => Some((t.subrange(1, g), rel)),
                        None => None,
                    }
                } else {
                    None
                }
            },
            None => None,
        }
    } else {
        None
    }
}

/// The links of the segments `segs`, in order, skipping those that are none.
pub open spec fn links_of(segs: Seq<Seq<char>>) -> Seq<(Seq<char>, Seq<char>)>
    decreases segs.len(),
{
    if segs.len() == 0 {
        Seq::empty()
    } else {
        let prev = links_of(segs.drop_last());
        match link_spec(segs.last()) {
            Some(l) => prev.push(l),
            None => prev,
        }
    }
}

/// The links of a whole header value, as (url, relation) pairs in order.
pub open spec fn header_links(h: Seq<char>) -> Seq<(Seq<char>, Seq<char>)> {
    links_of(split_spec(h, ','))
}

/// Whether the header value advertises a `next` relation.
pub open spec fn has_next_spec(h: Seq<char>) -> bool {
    exists|i: int| 0 <= i < header_links(h).len() && #[trigger] header_links(h)[i].1 == "next"@
}

/// A related resource advertised by a `Link` header.
pub struct Link {
    pub url: String,
    pub rel: String,
}

/// The pieces of `s` between occurrences of `c`.
pub fn split_str<'a>(s: &'a str, c: char) -> (r: Vec<&'a str>)
    ensures
        r@.map_values(|p: &str| p@) == split_spec(s@, c),
{
    let n = s.unicode_len();
    let mut out: Vec<&'a str> = Vec::new();
    let mut start: usize = 0;
    let mut i: usize = 0;
    assert(s@.subrange(0, 0) =~= Seq::<char>::empty());
    assert(out@.map_values(|p: &str| p@).push(s@.subrange(0, 0)) =~= split_spec(
        s@.subrange(0, 0),
        c,
    ));
    while i < n
        invariant
            n == s@.len(),
            start <= i <= n,
            out@.map_values(|p: &str| p@).push(s@.subrange(start as int, i as int)) == split_spec(
                s@.subrange(0, i as int),
                c,
            ),
        decreases n - i,
    {
        let ghost prefix = s@.subrange(0, i + 1);
        assert(prefix.drop_last() =~= s@.subrange(0, i as int));
        let ch = s.get_char(i);
        if ch == c {
            let ghost before = out@.map_values(|p: &str| p@);
            let piece = s.substring_char(start, i);
            out.push(piece);
            assert(out@.map_values(|p: &str| p@) =~= before.push(s@.subrange(start as int, i as int)));
            assert(s@.subrange(i + 1, i + 1) =~= Seq::<char>::empty());
            assert(out@.map_values(|p: &str| p@).push(s@.subrange(i + 1, i + 1)) =~= split_spec(
                prefix,
                c,
            ));
            start = i + 1;
        } else {
            assert(s@.subrange(start as int, i + 1) =~= s@.subrange(start as int, i as int).push(
                ch,
            ));
            assert(out@.map_values(|p: &str| p@).push(s@.subrange(start as int, i + 1))
                =~= split_spec(prefix, c));
        }
        i = i + 1;
    }
    let last = s.substring_char(start, n);
    out.push(last);
    assert(s@.subrange(0, n as int) =~= s@);
    assert(out@.map_values(|p: &str| p@) =~= split_spec(s@, c));
    out
}

proof fn lemma_trim_start(s: Seq<char>, k: int)
    requires
        0 <= k <= s.len(),
        forall|i: int| 0 <= i < k ==> is_blank(#[trigger] s[i]),
        k == s.len() || !is_blank(s[k]),
    ensures
        trim_start_spec(s) == s.subrange(k, s.len() as int),
    decreases k,
{
    if k > 0 {
        lemma_trim_start(s.drop_first(), k - 1);
        assert(s.drop_first().subrange(k - 1, s.len() - 1) =~= s.subrange(k, s.len() as int));
    } else {
        assert(s.subrange(0, s.len() as int) =~= s);
    }
}

proof fn lemma_trim_end(s: Seq<char>, k: int)
    requires
        0 <= k <= s.len(),
        forall|i: int| k <= i < s.len() ==> is_blank(#[trigger] s[i]),
        k == 0 || !is_blank(s[k - 1]),
    ensures
        trim_end_spec(s) == s.subrange(0, k),
    decreases s.len() - k,
{
    if k < s.len() {
        lemma_trim_end(s.drop_last(), k);
        assert(s.drop_last().subrange(0, k) =~= s.subrange(0, k));
    } else {
        assert(s.subrange(0, s.len() as int) =~= s);
    }
}

proof fn lemma_first_index(s: Seq<char>, c: char, k: int)
    requires
        0 <= k <= s.len(),
        forall|i: int| 0 <= i < k ==> #[trigger] s[i] != c,
        k < s.len() ==> s[k] == c,
    ensures
        first_index(s, c) == (if k < s.len() {
            Some(k)
        } else {
            None::<int>
        }),
    decreases k,
{
    if k > 0 {
        lemma_first_index(s.drop_first(), c, k - 1);
    }
}

/// `s` without leading and trailing blanks.
pub fn trim_str<'a>(s: &'a str) -> (r: &'a str)
    ensures
        r@ == trim_spec(s@),
{
    let n = s.unicode_len();
    let mut a: usize = 0;
    while a < n && (s.get_char(a) == ' ' || s.get_char(a) == '\t')
        invariant
            n == s@.len(),
            a <= n,
            forall|i: int| 0 <= i < a ==> is_blank(#[trigger] s@[i]),
        decreases n - a,
    {
        a = a + 1;
    }
    proof {
        lemma_trim_start(s@, a as int);
    }
    let mut b: usize = n;
    while b > a && (s.get_char(b - 1) == ' ' || s.get_char(b - 1) == '\t')
        invariant
            n == s@.len(),
            a <= b <= n,
            forall|i: int| b <= i < n ==> is_blank(#[trigger] s@[i]),
        decreases b - a,
    {
        b = b - 1;
    }
    let r = s.substring_char(a, b);
    proof {
        let t = s@.subrange(a as int, n as int);
        assert forall|i: int| b - a <= i < t.len() implies is_blank(#[trigger] t[i]) by {
            assert(t[i] == s@[a + i]);
        }
        lemma_trim_end(t, b - a);
        assert(t.subrange(0, b - a) =~= s@.subrange(a as int, b as int));
    }
    r
}

/// The index of the first `c` in `s`.
pub fn find_char(s: &str, c: char) -> (r: Option<usize>)
    ensures
        match r {
            Some(i) => first_index(s@, c) == Some(i as int),
            None => first_index(s@, c) is None,
        },
{
    let n = s.unicode_len();
    let mut i: usize = 0;
    while i < n
        invariant
            n == s@.len(),
            i <= n,
            forall|j: int| 0 <= j < i ==> #[trigger] s@[j] != c,
        decreases n - i,
    {
        if s.get_char(i) == c {
            proof {
                lemma_first_index(s@, c, i as int);
            }
            return Some(i);
        }
        i = i + 1;
    }
    proof {
        lemma_first_index(s@, c, n as int);
    }
    None
}

/// A parameter value without its surrounding double quotes, if it has them.
pub fn unquote<'a>(v: &'a str) -> (r: &'a str)
    ensures
        r@ == unquote_spec(v@),
{
    let n = v.unicode_len();
    if n >= 2 && v.get_char(0) == '"' && v.get_char(n - 1) == '"' {
        v.substring_char(1, n - 1)
    } else {
        v
    }
}

/// The value of the first `rel=` parameter among `params`.
pub fn find_rel<'a>(params: &Vec<&'a str>) -> (r: Option<&'a str>)
    ensures
        match r {
            Some(v) => rel_param(params@.map_values(|p: &str| p@)) == Some(v@),
            None => rel_param(params@.map_values(|p: &str| p@)) is None,
        },
{
    let ghost all = params@.map_values(|p: &str| p@);
    let mut j: usize = 0;
    assert(all.subrange(0, all.len() as int) =~= all);
    while j < params.len()
        invariant
            j <= params@.len(),
            all == params@.map_values(|p: &str| p@),
            rel_param(all) == rel_param(all.subrange(j as int, all.len() as int)),
        decreases params@.len() - j,
    {
        let ghost rest = all.subrange(j as int, all.len() as int);
        assert(rest.drop_first() =~= all.subrange(j + 1, all.len() as int));
        assert(rest[0] == params@[j as int]@);
        let p = trim_str(params[j]);
        if p.unicode_len() >= 4 && p.get_char(0) == 'r' && p.get_char(1) == 'e' && p.get_char(2)
            == 'l' && p.get_char(3) == '=' {
            proof {
                reveal_strlit("rel=");
                assert(p@.subrange(0, 4) =~= "rel="@);
            }
            let v = unquote(p.substring_char(4, p.unicode_len()));
            return Some(v);
        }
        proof {
            reveal_strlit("rel=");
            if p@.len() >= 4 {
                assert(p@.subrange(0, 4)[0] == p@[0]);
                assert(p@.subrange(0, 4)[1] == p@[1]);
                assert(p@.subrange(0, 4)[2] == p@[2]);
                assert(p@.subrange(0, 4)[3] == p@[3]);
            }
        }
        j = j + 1;
    }
    None
}

/// One segment read as a link, `None` where it is none.
pub fn parse_link(seg: &str) -> (r: Option<Link>)
    ensures
        match r {
            Some(l) => link_spec(seg@) == Some((l.url@, l.rel@)),
            None => link_spec(seg@) is None,
        },
{
    let t = trim_str(seg);
    let n = t.unicode_len();
    if n < 2 || t.get_char(0) != '<' {
        return None;
    }
    match find_char(t, '>') {
        None => None,
        Some(g) => {
            proof {
                lemma_first_index_bound(t@, '>');
            }
            let params = split_str(t.substring_char(g + 1, n), ';');
            proof {
                lemma_split_nonempty(t@.subrange(g + 1, n as int), ';');
            }
            let head = trim_str(params[0]);
            if head.unicode_len() != 0 {
                return None;
            }
            let mut rest: Vec<&str> = Vec::new();
            let mut j: usize = 1;
            while j < params.len()
                invariant
                    1 <= j <= params@.len(),
                    rest@.map_values(|p: &str| p@) == params@.map_values(|p: &str| p@).subrange(
                        1,
                        j as int,
                    ),
                decreases params@.len() - j,
            {
                let ghost before = rest@.map_values(|p: &str| p@);
                rest.push(params[j]);
                assert(rest@.map_values(|p: &str| p@) =~= before.push(params@[j as int]@));
                assert(rest@.map_values(|p: &str| p@) =~= params@.map_values(|p: &str| p@).subrange(
                    1,
                    j + 1,
                ));
                j = j + 1;
            }
            assert(params@.map_values(|p: &str| p@).drop_first() =~= params@.map_values(
                |p: &str| p@,
            ).subrange(1, params@.len() as int));
            match find_rel(&rest) {
                None => None,
                Some(rel) => {
                    let url = t.substring_char(1, g);
                    Some(Link { url: String::from_str(url), rel: String::from_str(rel) })
                },
            }
        },
    }
}

proof fn lemma_first_index_bound(s: Seq<char>, c: char)
    ensures
        first_index(s, c) matches Some(i) ==> 0 <= i < s.len() && s[i] == c,
    decreases s.len(),
{
    if s.len() > 0 {
        lemma_first_index_bound(s.drop_first(), c);
    }
}

proof fn lemma_split_nonempty(s: Seq<char>, c: char)
    ensures
        split_spec(s, c).len() >= 1,
    decreases s.len(),
{
    if s.len() > 0 {
        lemma_split_nonempty(s.drop_last(), c);
    }
}

/// The links that a `Link` header value advertises, in order; segments that
/// are no link are skipped.
pub fn parse_links_header(raw: &str) -> (r: Vec<Link>)
    ensures
        r@.map_values(|l: Link| (l.url@, l.rel@)) == header_links(raw@),
{
    let segs = split_str(raw, ',');
    let ghost sv = segs@.map_values(|p: &str| p@);
    let mut out: Vec<Link> = Vec::new();
    let mut i: usize = 0;
    while i < segs.len()
        invariant
            i <= segs@.len(),
            sv == segs@.map_values(|p: &str| p@),
            out@.map_values(|l: Link| (l.url@, l.rel@)) == links_of(sv.subrange(0, i as int)),
        decreases segs@.len() - i,
    {
        assert(sv.subrange(0, i + 1).drop_last() =~= sv.subrange(0, i as int));
        let ghost before = out@.map_values(|l: Link| (l.url@, l.rel@));
        match parse_link(segs[i]) {
            Some(l) => {
                let ghost lv = (l.url@, l.rel@);
                out.push(l);
                assert(out@.map_values(|l: Link| (l.url@, l.rel@)) =~= before.push(lv));
            },
            None => {},
        }
        i = i + 1;
    }
    assert(sv.subrange(0, segs@.len() as int) =~= sv);
    out
}

/// Whether a `Link` header value advertises a `next` relation.
pub fn has_next_link(raw: &str) -> (r: bool)
    ensures
        r == has_next_spec(raw@),
{
    let links = parse_links_header(raw);
    let ghost lv = links@.map_values(|l: Link| (l.url@, l.rel@));
    let mut i: usize = 0;
    while i < links.len()
        invariant
            i <= links@.len(),
            lv == links@.map_values(|l: Link| (l.url@, l.rel@)),
            lv == header_links(raw@),
            forall|j: int| 0 <= j < i ==> #[trigger] lv[j].1 != "next"@,
        decreases links@.len() - i,
    {
        let rel = links[i].rel.as_str();
        if rel.unicode_len() == 4 && rel.get_char(0) == 'n' && rel.get_char(1) == 'e' && rel.get_char(
            2,
        ) == 'x' && rel.get_char(3) == 't' {
            proof {
                reveal_strlit("next");
                assert(lv[i as int].1 =~= "next"@);
            }
            return true;
        }
        proof {
            reveal_strlit("next");
            if lv[i as int].1 == "next"@ {
                assert(rel@[0] == 'n');
            }
        }
        i = i + 1;
    }
    false
}

} // verus!

//! String helpers shared by the codec, the client and the mapper: equality,
//! prefix tests, the first-dot split rule for DNS names, and the slash
//! normalization used when composing URLs.

use vstd::prelude::*;

verus! {

/// True when `p` is a prefix of `s`.
pub open spec fn has_prefix(s: Seq<char>, p: Seq<char>) -> bool {
    p.len() <= s.len() && s.subrange(0, p.len() as int) == p
}

/// Character-wise string equality.
pub fn str_eq(a: &str, b: &str) -> (r: bool)
    ensures
        r == (a@ == b@),
{
    let a_len = a.unicode_len();
    let b_len = b.unicode_len();
    if a_len != b_len {
        return false;
    }
    let mut i: usize = 0;
    while i < a_len
        invariant
            i <= a_len,
            a_len == a@.len(),
            b_len == b@.len(),
            a_len == b_len,
            forall|j: int| 0 <= j < i ==> a@[j] == b@[j],
        decreases a_len - i,
    {
        if a.get_char(i) != b.get_char(i) {
            return false;
        }
        i = i + 1;
    }
    proof {
        assert(a@ =~= b@);
    }
    true
}

/// Whether `s` starts with the prefix `p`.
pub fn str_starts_with(s: &str, p: &str) -> (r: bool)
    ensures
        r == has_prefix(s@, p@),
{
    let s_len = s.unicode_len();
    let p_len = p.unicode_len();
    if p_len > s_len {
        return false;
    }
    let mut i: usize = 0;
    while i < p_len
        invariant
            i <= p_len,
            s_len == s@.len(),
            p_len == p@.len(),
            p_len <= s_len,
            forall|j: int| 0 <= j < i ==> s@[j] == p@[j],
        decreases p_len - i,
    {
        if s.get_char(i) != p.get_char(i) {
            proof {
                assert(s@.subrange(0, p@.len() as int)[i as int] != p@[i as int]);
            }
            return false;
        }
        i = i + 1;
    }
    proof {
        assert(s@.subrange(0, p@.len() as int) =~= p@);
    }
    true
}

/// Index of the first occurrence of `c` in `s`, if any.
pub open spec fn first_index_of(s: Seq<char>, c: char) -> Option<int>
    decreases s.len(),
{
    if s.len() == 0 {
        None
    } else if s[0] == c {
        Some(0)
    } else {
        match first_index_of(s.drop_first(), c) {
            Some(i) => Some(i + 1),
            None => None,
        }
    }
}

/// `first_index_of` returns the least index holding `c`, or `None` when `c`
/// does not occur.
pub proof fn lemma_first_index_of_spec(s: Seq<char>, c: char)
    ensures
        match first_index_of(s, c) {
            Some(i) => 0 <= i < s.len() && s[i] == c && forall|j: int| 0 <= j < i ==> s[j] != c,
            None => forall|j: int| 0 <= j < s.len() ==> s[j] != c,
        },
    decreases s.len(),
{
    if s.len() > 0 && s[0] != c {
        lemma_first_index_of_spec(s.drop_first(), c);
        match first_index_of(s.drop_first(), c) {
            Some(i) => {
                assert(s[i + 1] == s.drop_first()[i]);
                assert forall|j: int| 0 <= j < i + 1 implies s[j] != c by {
                    if j > 0 {
                        assert(s[j] == s.drop_first()[j - 1]);
                    }
                }
            },
            None => {
                assert forall|j: int| 0 <= j < s.len() implies s[j] != c by {
                    if j > 0 {
                        assert(s[j] == s.drop_first()[j - 1]);
                    }
                }
            },
        }
    }
}

/// An index that holds `c` while all earlier ones do not is the one that
/// `first_index_of` finds.
pub proof fn lemma_first_index_of_at(s: Seq<char>, c: char, i: int)
    requires
        0 <= i < s.len(),
        s[i] == c,
        forall|j: int| 0 <= j < i ==> s[j] != c,
    ensures
        first_index_of(s, c) == Some(i),
    decreases s.len(),
{
    if i > 0 {
        lemma_first_index_of_at(s.drop_first(), c, i - 1);
    }
}

/// The first occurrence of `c` in `s + t` falls at `s.len()` when `s` is free
/// of `c` and `t` begins with it.
pub proof fn lemma_first_index_of_concat(s: Seq<char>, t: Seq<char>, c: char)
    requires
        forall|j: int| 0 <= j < s.len() ==> s[j] != c,
        t.len() > 0,
        t[0] == c,
    ensures
        first_index_of(s + t, c) == Some(s.len() as int),
{
    let u = s + t;
    assert(u[s.len() as int] == c);
    assert(forall|j: int| 0 <= j < s.len() ==> u[j] == s[j] && u[j] != c);
    lemma_first_index_of_at(u, c, s.len() as int);
}

/// Index of the first occurrence of `c` in `s`, executable form.
pub fn find_char(s: &str, c: char) -> (r: Option<usize>)
    ensures
        match r {
            Some(i) => first_index_of(s@, c) == Some(i as int),
            None => first_index_of(s@, c) is None,
        },
{
    let len = s.unicode_len();
    let mut i: usize = 0;
    while i < len
        invariant
            i <= len,
            len == s@.len(),
            forall|j: int| 0 <= j < i ==> s@[j] != c,
        decreases len - i,
    {
        if s.get_char(i) == c {
            proof {
                lemma_first_index_of_at(s@, c, i as int);
            }
            return Some(i);
        }
        i = i + 1;
    }
    proof {
        lemma_first_index_of_spec(s@, c);
        match first_index_of(s@, c) {
            Some(k) => assert(s@[k] == c),
            None => {},
        }
    }
    None
}

/// A fully qualified DNS name: hostname, one dot, domain.
pub open spec fn join_dns(hostname: Seq<char>, domain: Seq<char>) -> Seq<char> {
    hostname + seq!['.'] + domain
}

/// The first-dot split of a DNS name into hostname and domain; `None` when
/// the name holds no dot.
pub open spec fn split_dns(s: Seq<char>) -> Option<(Seq<char>, Seq<char>)> {
    match first_index_of(s, '.') {
        Some(i) => Some((s.subrange(0, i), s.subrange(i + 1, s.len() as int))),
        None => None,
    }
}

/// Splitting a DNS name on its first dot undoes joining a dot-free hostname
/// with a domain.
pub proof fn lemma_split_join_round_trip(hostname: Seq<char>, domain: Seq<char>)
    requires
        forall|j: int| 0 <= j < hostname.len() ==> hostname[j] != '.',
    ensures
        split_dns(join_dns(hostname, domain)) == Some((hostname, domain)),
{
    let joined = join_dns(hostname, domain);
    assert(joined =~= hostname + (seq!['.'] + domain));
    lemma_first_index_of_concat(hostname, seq!['.'] + domain, '.');
    assert(joined.subrange(0, hostname.len() as int) =~= hostname);
    assert(joined.subrange(hostname.len() as int + 1, joined.len() as int) =~= domain);
}

/// Split a DNS name on its first dot, as the generic record protocol
/// requires; fails when the name has no dot.
pub fn dns_name_to_hostname_and_domain(dns_name: &str) -> (r: Option<(String, String)>)
    ensures
        match r {
            Some(parts) => split_dns(dns_name@) == Some((parts.0@, parts.1@)),
            None => split_dns(dns_name@) is None,
        },
{
    let len = dns_name.unicode_len();
    match find_char(dns_name, '.') {
        Some(i) => {
            proof {
                lemma_first_index_of_spec(dns_name@, '.');
            }
            let hostname = dns_name.substring_char(0, i);
            let domain = dns_name.substring_char(i + 1, len);
            Some((String::from_str(hostname), String::from_str(domain)))
        },
        None => None,
    }
}

/// Join hostname and domain into a fully qualified DNS name.
pub fn join_hostname_and_domain(hostname: &str, domain: &str) -> (r: String)
    ensures
        r@ == join_dns(hostname@, domain@),
{
    let mut r = String::from_str(hostname);
    r.append(".");
    r.append(domain);
    proof {
        reveal_strlit(".");
        assert(r@ =~= join_dns(hostname@, domain@));
    }
    r
}

/// `s` without its leading occurrences of `c`.
pub open spec fn trim_leading(s: Seq<char>, c: char) -> Seq<char>
    decreases s.len(),
{
    if s.len() > 0 && s[0] == c {
        trim_leading(s.drop_first(), c)
    } else {
        s
    }
}

/// `s` without its trailing occurrences of `c`.
pub open spec fn trim_trailing(s: Seq<char>, c: char) -> Seq<char>
    decreases s.len(),
{
    if s.len() > 0 && s.last() == c {
        trim_trailing(s.drop_last(), c)
    } else {
        s
    }
}

/// Strip every leading occurrence of `c` from `s`.
pub fn strip_leading<'a>(s: &'a str, c: char) -> (r: &'a str)
    ensures
        r@ == trim_leading(s@, c),
{
    let len = s.unicode_len();
    proof {
        assert(s@.skip(0) =~= s@);
    }
    let mut i: usize = 0;
    while i < len && s.get_char(i) == c
        invariant
            i <= len,
            len == s@.len(),
            trim_leading(s@, c) == trim_leading(s@.skip(i as int), c),
        decreases len - i,
    {
        proof {
            assert(s@.skip(i as int)[0] == s@[i as int]);
            assert(s@.skip(i as int).drop_first() =~= s@.skip(i + 1));
        }
        i = i + 1;
    }
    proof {
        if i < len {
            assert(s@.skip(i as int)[0] == s@[i as int]);
            assert(trim_leading(s@.skip(i as int), c) == s@.skip(i as int));
        } else {
            assert(s@.skip(i as int) =~= Seq::<char>::empty());
        }
    }
    s.substring_char(i, len)
}

/// Strip every trailing occurrence of `c` from `s`.
pub fn strip_trailing<'a>(s: &'a str, c: char) -> (r: &'a str)
    ensures
        r@ == trim_trailing(s@, c),
{
    let len = s.unicode_len();
    proof {
        assert(s@.take(len as int) =~= s@);
    }
    let mut i: usize = len;
    while i > 0 && s.get_char(i - 1) == c
        invariant
            i <= len,
            len == s@.len(),
            trim_trailing(s@, c) == trim_trailing(s@.take(i as int), c),
        decreases i,
    {
        proof {
            assert(s@.take(i as int).last() == s@[i - 1]);
            assert(s@.take(i as int).drop_last() =~= s@.take(i - 1));
        }
        i = i - 1;
    }
    proof {
        if i > 0 {
            assert(s@.take(i as int).last() == s@[i - 1]);
            assert(trim_trailing(s@.take(i as int), c) == s@.take(i as int));
        } else {
            assert(s@.take(i as int) =~= Seq::<char>::empty());
        }
    }
    s.substring_char(0, i)
}

/// Clone a vector of strings.
pub fn clone_strings(v: &Vec<String>) -> (r: Vec<String>)
    ensures
        r@ == v@,
{
    let mut r: Vec<String> = Vec::new();
    let mut i: usize = 0;
    while i < v.len()
        invariant
            i <= v@.len(),
            r@ =~= v@.take(i as int),
        decreases v@.len() - i,
    {
        r.push(v[i].clone());
        i = i + 1;
    }
    proof {
        assert(r@ =~= v@);
    }
    r
}

/// Clone a vector of string pairs.
pub fn clone_string_pairs(v: &Vec<(String, String)>) -> (r: Vec<(String, String)>)
    ensures
        r@ == v@,
{
    let mut r: Vec<(String, String)> = Vec::new();
    let mut i: usize = 0;
    while i < v.len()
        invariant
            i <= v@.len(),
            r@ =~= v@.take(i as int),
        decreases v@.len() - i,
    {
        let pair = (v[i].0.clone(), v[i].1.clone());
        r.push(pair);
        i = i + 1;
    }
    proof {
        assert(r@ =~= v@);
    }
    r
}

} // verus!

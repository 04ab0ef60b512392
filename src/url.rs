use vstd::prelude::*;

verus! {

/// The scheme marker that a supported address must hold: `http://`.
pub open spec fn http_marker() -> Seq<char> {
    seq!['h', 't', 't', 'p', ':', '/', '/']
}

/// Whether the marker `http://` starts at position `p` of `s`.
pub open spec fn marker_at(s: Seq<char>, p: int) -> bool {
    0 <= p && p + 7 <= s.len() && s.subrange(p, p + 7) == http_marker()
}

/// Whether `http://` occurs anywhere in `s`.
pub open spec fn contains_marker(s: Seq<char>) -> bool {
    exists|p: int| marker_at(s, p)
}

/// `s` with every leading repetition of `http://` removed.
pub open spec fn strip_marker(s: Seq<char>) -> Seq<char>
    decreases s.len(),
{
    if marker_at(s, 0) {
        strip_marker(s.subrange(7, s.len() as int))
    } else {
        s
    }
}

/// The position of the first `c` in `s`, or `s.len()` where there is none.
pub open spec fn first_index(s: Seq<char>, c: char) -> int
    decreases s.len(),
{
    if s.len() == 0 {
        0
    } else if s[0] == c {
        0
    } else {
        1 + first_index(s.drop_first(), c)
    }
}

/// The part of an address between the scheme and the first `/`.
pub open spec fn authority_of(s: Seq<char>) -> Seq<char> {
    let r = strip_marker(s);
    r.take(first_index(r, '/'))
}

/// The host within an authority `a`: `a` up to its first `:`.
pub open spec fn host_in(a: Seq<char>) -> Seq<char> {
    a.take(first_index(a, ':'))
}

/// The port within an authority `a`: what follows its first `:`, `80` where there is none.
pub open spec fn port_in(a: Seq<char>) -> Seq<char> {
    let i = first_index(a, ':');
    if i < a.len() {
        a.skip(i + 1)
    } else {
        seq!['8', '0']
    }
}

/// The path within `t`, the part after the first `/`: `t` up to its first `?`.
pub open spec fn path_in(t: Seq<char>) -> Seq<char> {
    t.take(first_index(t, '?'))
}

/// The query within `t`, the part after the first `/`: what follows its first `?`.
pub open spec fn search_part_in(t: Seq<char>) -> Seq<char> {
    let i = first_index(t, '?');
    if i < t.len() {
        t.skip(i + 1)
    } else {
        Seq::empty()
    }
}

/// What follows the first `/` after the scheme, if there is one.
pub open spec fn after_slash(s: Seq<char>) -> Option<Seq<char>> {
    let r = strip_marker(s);
    let i = first_index(r, '/');
    if i < r.len() {
        Some(r.skip(i + 1))
    } else {
        None
    }
}

/// The host of the address `s`.
pub open spec fn host_of(s: Seq<char>) -> Seq<char> {
    host_in(authority_of(s))
}

/// The port of the address `s`.
pub open spec fn port_of(s: Seq<char>) -> Seq<char> {
    port_in(authority_of(s))
}

/// The path of the address `s`, empty where no `/` follows the scheme.
pub open spec fn path_of(s: Seq<char>) -> Seq<char> {
    match after_slash(s) {
        Some(t) => path_in(t),
        None => Seq::empty(),
    }
}

/// The query of the address `s`, empty where there is none.
pub open spec fn search_part_of(s: Seq<char>) -> Seq<char> {
    match after_slash(s) {
        Some(t) => search_part_in(t),
        None => Seq::empty(),
    }
}

/// The error text of an address without the `http://` scheme.
pub open spec fn scheme_error() -> Seq<char> {
    "Only HTTP scheme is supported."@
}

/// `first_index` lies within `s`, passes over no `c`, and stops on one where it stops inside `s`.
pub proof fn lemma_first_index_bounds(s: Seq<char>, c: char)
    ensures
        0 <= first_index(s, c) <= s.len(),
        forall|j: int| 0 <= j < first_index(s, c) ==> s[j] != c,
        first_index(s, c) < s.len() ==> s[first_index(s, c)] == c,
    decreases s.len(),
{
    if s.len() > 0 && s[0] != c {
        lemma_first_index_bounds(s.drop_first(), c);
        assert forall|j: int| 0 <= j < first_index(s, c) implies s[j] != c by {
            if j > 0 {
                assert(s[j] == s.drop_first()[j - 1]);
            }
        }
    }
}

proof fn lemma_first_index_unique(s: Seq<char>, c: char, i: int)
    requires
        0 <= i <= s.len(),
        forall|j: int| 0 <= j < i ==> s[j] != c,
        i < s.len() ==> s[i] == c,
    ensures
        first_index(s, c) == i,
    decreases s.len(),
{
    if s.len() > 0 && s[0] != c {
        assert forall|j: int| 0 <= j < i - 1 implies s.drop_first()[j] != c by {
            assert(s.drop_first()[j] == s[j + 1]);
        }
        lemma_first_index_unique(s.drop_first(), c, i - 1);
    }
}

/// An address taken apart into host, port, path and query. Only HTTP is supported.
#[derive(Debug, Clone, PartialEq)]
pub struct Url {
    url: String,
    host: String,
    port: String,
    path: String,
    search_part: String,
}

/// Whether `http://` starts at position `p` of `s`.
fn has_marker_at(s: &str, p: usize) -> (r: bool)
    requires
        p <= s@.len(),
    ensures
        r == marker_at(s@, p as int),
{
    let n = s.unicode_len();
    if n - p < 7 {
        return false;
    }
    let r = s.get_char(p) == 'h' && s.get_char(p + 1) == 't' && s.get_char(p + 2) == 't'
        && s.get_char(p + 3) == 'p' && s.get_char(p + 4) == ':' && s.get_char(p + 5) == '/'
        && s.get_char(p + 6) == '/';
    proof {
        if r {
            assert(s@.subrange(p as int, p + 7) =~= http_marker());
        } else {
            if marker_at(s@, p as int) {
                let m = s@.subrange(p as int, p + 7);
                assert(m[0] == 'h' && m[1] == 't' && m[2] == 't' && m[3] == 'p');
                assert(m[4] == ':' && m[5] == '/' && m[6] == '/');
            }
        }
    }
    r
}

/// The position in `s` of the first `c` at or after `from`, or `s.len()` where there is none.
fn find_from(s: &str, from: usize, c: char) -> (r: usize)
    requires
        from <= s@.len(),
    ensures
        r - from == first_index(s@.skip(from as int), c),
        from <= r <= s@.len(),
{
    let n = s.unicode_len();
    let mut i = from;
    while i < n && s.get_char(i) != c
        invariant
            from <= i <= n,
            n == s@.len(),
            forall|j: int| from <= j < i ==> s@[j] != c,
        decreases n - i,
    {
        i = i + 1;
    }
    proof {
        let t = s@.skip(from as int);
        assert forall|j: int| 0 <= j < i - from implies t[j] != c by {
            assert(t[j] == s@[j + from]);
        }
        if i < n {
            assert(t[i - from] == s@[i as int]);
        }
        lemma_first_index_unique(t, c, i - from);
    }
    i
}

/// A string holding the characters of `s` from `from` to `to`.
fn slice_of(s: &str, from: usize, to: usize) -> (r: String)
    requires
        from <= to <= s@.len(),
    ensures
        r@ == s@.subrange(from as int, to as int),
{
    String::from_str(s.substring_char(from, to))
}

/// Host and port out of the authority `s[from..to]`.
fn split_authority(s: &str, from: usize, to: usize) -> (r: (String, String))
    requires
        from <= to <= s@.len(),
    ensures
        r.0@ == host_in(s@.subrange(from as int, to as int)),
        r.1@ == port_in(s@.subrange(from as int, to as int)),
{
    let a = s.substring_char(from, to);
    let colon = find_from(a, 0, ':');
    proof {
        assert(a@.skip(0) =~= a@);
        lemma_first_index_bounds(a@, ':');
    }
    let host = slice_of(a, 0, colon);
    proof {
        assert(host@ =~= a@.take(colon as int));
    }
    if colon < a.unicode_len() {
        let port = slice_of(a, colon + 1, a.unicode_len());
        proof {
            assert(port@ =~= a@.skip(colon + 1));
        }
        (host, port)
    } else {
        let port = String::from_str("80");
        proof {
            reveal_strlit("80");
            assert(port@ =~= seq!['8', '0']);
        }
        (host, port)
    }
}

/// Path and query out of `s[from..]`, the part after the first `/`.
fn split_tail(s: &str, from: usize) -> (r: (String, String))
    requires
        from <= s@.len(),
    ensures
        r.0@ == path_in(s@.skip(from as int)),
        r.1@ == search_part_in(s@.skip(from as int)),
{
    let n = s.unicode_len();
    let question = find_from(s, from, '?');
    proof {
        let t = s@.skip(from as int);
        lemma_first_index_bounds(t, '?');
        assert(t.take(question - from) =~= s@.subrange(from as int, question as int));
    }
    let path = slice_of(s, from, question);
    if question < n {
        proof {
            let t = s@.skip(from as int);
            assert(t.skip(question - from + 1) =~= s@.subrange(question + 1, n as int));
        }
        (path, slice_of(s, question + 1, n))
    } else {
        (path, String::new())
    }
}

impl Url {
    /// The address as given.
    pub closed spec fn spec_url(&self) -> Seq<char> {
        self.url@
    }

    pub closed spec fn spec_host(&self) -> Seq<char> {
        self.host@
    }

    pub closed spec fn spec_port(&self) -> Seq<char> {
        self.port@
    }

    pub closed spec fn spec_path(&self) -> Seq<char> {
        self.path@
    }

    pub closed spec fn spec_search_part(&self) -> Seq<char> {
        self.search_part@
    }

    /// Whether the parts hold what `parse` takes out of the address.
    pub open spec fn is_parsed(&self) -> bool {
        &&& self.spec_host() == host_of(self.spec_url())
        &&& self.spec_port() == port_of(self.spec_url())
        &&& self.spec_path() == path_of(self.spec_url())
        &&& self.spec_search_part() == search_part_of(self.spec_url())
    }

    /// An address not yet taken apart: every part is empty.
    pub fn new(url: String) -> (r: Self)
        ensures
            r.spec_url() == url@,
            r.spec_host().len() == 0,
            r.spec_port().len() == 0,
            r.spec_path().len() == 0,
            r.spec_search_part().len() == 0,
    {
        Url {
            url,
            host: String::new(),
            port: String::new(),
            path: String::new(),
            search_part: String::new(),
        }
    }

    /// Takes the address apart. Fails, leaving `self` as it was, where the
    /// address holds no `http://`; else fills the parts of `self` and returns
    /// a copy of it.
    pub fn parse(&mut self) -> (r: Result<Self, String>)
        ensures
            final(self).spec_url() == old(self).spec_url(),
            contains_marker(old(self).spec_url()) ==> {
                &&& final(self).is_parsed()
                &&& r matches Ok(u) && u.spec_url() == final(self).spec_url() && u.is_parsed()
            },
            !contains_marker(old(self).spec_url()) ==> {
                &&& *final(self) == *old(self)
                &&& r matches Err(e) && e@ == scheme_error()
            },
    {
        if !self.is_http() {
            return Err(String::from_str("Only HTTP scheme is supported."));
        }
        let start = self.scheme_end();
        let s = self.url.as_str();
        let n = s.unicode_len();
        let slash = find_from(s, start, '/');
        proof {
            let r = s@.skip(start as int);
            assert(r.take(slash - start) =~= s@.subrange(start as int, slash as int));
            lemma_first_index_bounds(r, '/');
            if slash < n {
                assert(r.skip(slash - start + 1) =~= s@.skip(slash + 1));
            }
        }
        let (host, port) = split_authority(s, start, slash);
        let path;
        let search_part;
        if slash < n {
            let (p, q) = split_tail(s, slash + 1);
            path = p;
            search_part = q;
        } else {
            path = String::new();
            search_part = String::new();
        }
        self.host = host;
        self.port = port;
        self.path = path;
        self.search_part = search_part;
        Ok(
            Url {
                url: self.url.clone(),
                host: self.host.clone(),
                port: self.port.clone(),
                path: self.path.clone(),
                search_part: self.search_part.clone(),
            },
        )
    }

    /// Whether the address holds `http://` anywhere.
    fn is_http(&self) -> (r: bool)
        ensures
            r == contains_marker(self.url@),
    {
        let s = self.url.as_str();
        let n = s.unicode_len();
        let mut p: usize = 0;
        while p < n
            invariant
                p <= n,
                n == s@.len(),
                s@ == self.url@,
                forall|q: int| 0 <= q < p ==> !marker_at(s@, q),
            decreases n - p,
        {
            if has_marker_at(s, p) {
                assert(marker_at(self.url@, p as int));
                assert(contains_marker(self.url@));
                return true;
            }
            p = p + 1;
        }
        proof {
            assert forall|q: int| !marker_at(s@, q) by {
                if 0 <= q < p {
                } else if q >= p {
                    assert(!(q + 7 <= s@.len()));
                }
            }
        }
        false
    }

    /// The position where the address goes on after its leading `http://`s.
    fn scheme_end(&self) -> (r: usize)
        ensures
            r <= self.url@.len(),
            strip_marker(self.url@) == self.url@.skip(r as int),
    {
        let s = self.url.as_str();
        let n = s.unicode_len();
        let mut p: usize = 0;
        proof {
            assert(s@.skip(0) =~= s@);
        }
        while has_marker_at(s, p)
            invariant
                p <= n,
                n == s@.len(),
                strip_marker(s@) == strip_marker(s@.skip(p as int)),
            decreases n - p,
        {
            proof {
                let t = s@.skip(p as int);
                assert(t.subrange(0, 7) =~= s@.subrange(p as int, p + 7));
                assert(t.subrange(7, t.len() as int) =~= s@.skip(p + 7));
            }
            p = p + 7;
        }
        proof {
            let t = s@.skip(p as int);
            if marker_at(t, 0) {
                assert(t.subrange(0, 7) =~= s@.subrange(p as int, p + 7));
            }
        }
        p
    }

    /// The address as given.
    pub fn url(&self) -> (r: String)
        ensures
            r@ == self.spec_url(),
    {
        self.url.clone()
    }

    pub fn host(&self) -> (r: String)
        ensures
            r@ == self.spec_host(),
    {
        self.host.clone()
    }

    pub fn port(&self) -> (r: String)
        ensures
            r@ == self.spec_port(),
    {
        self.port.clone()
    }

    pub fn path(&self) -> (r: String)
        ensures
            r@ == self.spec_path(),
    {
        self.path.clone()
    }

    pub fn search_part(&self) -> (r: String)
        ensures
            r@ == self.spec_search_part(),
    {
        self.search_part.clone()
    }
}

} // verus!

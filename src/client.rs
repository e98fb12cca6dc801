use vstd::prelude::*;
use vstd::string::*;
use crate::error::ClientError;

verus! {

pub open spec fn http_prefix() -> Seq<char> {
    seq!['h', 't', 't', 'p', ':', '/', '/']
}

pub open spec fn https_prefix() -> Seq<char> {
    seq!['h', 't', 't', 'p', 's', ':', '/', '/']
}

/// Length of the `http://` or `https://` that starts `s`; 0 when neither does.
pub open spec fn scheme_len(s: Seq<char>) -> int {
    if s.len() >= 8 && s.subrange(0, 8) == https_prefix() {
        8
    } else if s.len() >= 7 && s.subrange(0, 7) == http_prefix() {
        7
    } else {
        0
    }
}

/// A base address without its one optional trailing slash.
pub open spec fn origin(s: Seq<char>) -> Seq<char> {
    if s.len() > 0 && s.last() == '/' { s.drop_last() } else { s }
}

/// A printable ASCII character that may stand in a host and port.
pub open spec fn is_host_char(c: char) -> bool {
    33 <= (c as int) <= 126 && c != '/' && c != '?' && c != '#'
}

/// A node's base address: scheme, a non-empty host (with port), at most a bare `/` after.
pub open spec fn valid_base(s: Seq<char>) -> bool {
    let k = scheme_len(s);
    let o = origin(s);
    &&& k > 0
    &&& o.len() > k
    &&& forall|i: int| k <= i < o.len() ==> #[trigger] is_host_char(o[i])
}

/// Query pairs as character sequences.
pub open spec fn pairs_view(q: Seq<(String, String)>) -> Seq<(Seq<char>, Seq<char>)> {
    q.map_values(|p: (String, String)| (p.0@, p.1@))
}

pub open spec fn pair_text(p: (Seq<char>, Seq<char>)) -> Seq<char> {
    p.0 + seq!['='] + p.1
}

/// The first `n` query pairs written `k=v`, separated by `&`.
pub open spec fn joined_pairs(q: Seq<(Seq<char>, Seq<char>)>, n: nat) -> Seq<char>
    decreases n,
{
    if n == 0 {
        Seq::empty()
    } else if n == 1 {
        pair_text(q[0])
    } else {
        joined_pairs(q, (n - 1) as nat) + seq!['&'] + pair_text(q[n - 1])
    }
}

pub open spec fn query_text(q: Seq<(Seq<char>, Seq<char>)>) -> Seq<char> {
    if q.len() == 0 { Seq::empty() } else { seq!['?'] + joined_pairs(q, q.len()) }
}

/// The full request URL for a path (without leading slash) and query pairs.
pub open spec fn url_text(base: Seq<char>, path: Seq<char>, q: Seq<(Seq<char>, Seq<char>)>) -> Seq<char> {
    origin(base) + seq!['/'] + path + query_text(q)
}

/// Whether `s` starts with the characters of `p`.
fn has_prefix(s: &str, n: usize, p: &[char]) -> (r: bool)
    requires
        n == s@.len(),
    ensures
        r == (p@.len() <= s@.len() && s@.subrange(0, p@.len() as int) == p@),
{
    if p.len() > n {
        return false;
    }
    let mut i: usize = 0;
    while i < p.len()
        invariant
            i <= p@.len() <= s@.len(),
            n == s@.len(),
            forall|j: int| 0 <= j < i ==> s@[j] == p@[j],
        decreases p@.len() - i,
    {
        if s.get_char(i) != p[i] {
            assert(s@.subrange(0, p@.len() as int)[i as int] != p@[i as int]);
            return false;
        }
        i = i + 1;
    }
    assert(s@.subrange(0, p@.len() as int) =~= p@);
    true
}

fn scheme_length(s: &str, n: usize) -> (k: usize)
    requires
        n == s@.len(),
    ensures
        k == scheme_len(s@),
{
    let https: [char; 8] = ['h', 't', 't', 'p', 's', ':', '/', '/'];
    let http: [char; 7] = ['h', 't', 't', 'p', ':', '/', '/'];
    assert(https@ =~= https_prefix());
    assert(http@ =~= http_prefix());
    if has_prefix(s, n, https.as_slice()) {
        8
    } else if has_prefix(s, n, http.as_slice()) {
        7
    } else {
        0
    }
}

/// Checks a base address and returns the length of its origin (trailing slash left out).
fn base_origin_len(base: &str) -> (r: Option<usize>)
    ensures
        r is Some <==> valid_base(base@),
        r matches Some(m) ==> m == origin(base@).len(),
{
    let n = base.unicode_len();
    let k = scheme_length(base, n);
    let m = if n > 0 && base.get_char(n - 1) == '/' { n - 1 } else { n };
    if k == 0 || m <= k {
        return None;
    }
    let mut i: usize = k;
    while i < m
        invariant
            k <= i <= m <= n,
            n == base@.len(),
            k == scheme_len(base@),
            m == origin(base@).len(),
            forall|j: int| k <= j < i ==> #[trigger] is_host_char(origin(base@)[j]),
        decreases m - i,
    {
        let c = base.get_char(i);
        assert(origin(base@)[i as int] == c);
        if !((c as u32) >= 33 && (c as u32) <= 126 && c != '/' && c != '?' && c != '#') {
            assert(!is_host_char(origin(base@)[i as int]));
            return None;
        }
        i = i + 1;
    }
    Some(m)
}

/// Joins a node's base address, a path and query pairs into a request URL. Path and
/// values are taken as they are: the caller has already encoded them.
pub fn build_url(base: &str, path: &str, query: &Vec<(String, String)>) -> (r: Result<String, ClientError>)
    ensures
        valid_base(base@) ==> (r matches Ok(u) && u@ == url_text(base@, path@, pairs_view(query@))),
        !valid_base(base@) ==> (r matches Err(e) && e matches ClientError::InvalidUrl { base: b }
            && b@ == base@),
{
    let m = match base_origin_len(base) {
        Some(m) => m,
        None => return Err(ClientError::InvalidUrl { base: base.to_owned() }),
    };
    let mut url = base.substring_char(0, m).to_owned();
    assert(url@ =~= origin(base@));
    url.append("/");
    proof { reveal_strlit("/"); }
    url.append(path);
    let ghost prefix = url@;
    if query.len() > 0 {
        url.append("?");
        proof { reveal_strlit("?"); }
        let mut i: usize = 0;
        while i < query.len()
            invariant
                i <= query@.len(),
                query@.len() > 0,
                url@ == prefix + seq!['?'] + joined_pairs(pairs_view(query@), i as nat),
            decreases query@.len() - i,
        {
            if i > 0 {
                url.append("&");
                proof { reveal_strlit("&"); }
            }
            url.append(query[i].0.as_str());
            url.append("=");
            proof { reveal_strlit("="); }
            url.append(query[i].1.as_str());
            proof {
                if i == 0 {
                    assert(joined_pairs(pairs_view(query@), 0) =~= Seq::<char>::empty());
                }
            }
            i = i + 1;
            assert(url@ =~= prefix + seq!['?'] + joined_pairs(pairs_view(query@), i as nat));
        }
    }
    assert(url@ =~= url_text(base@, path@, pairs_view(query@)));
    Ok(url)
}

/// A client: the pool of node base addresses that calls go to. The pool is fixed
/// when the client is made.
pub struct Client {
    nodes: Vec<String>,
}

impl Client {
    pub closed spec fn pool(&self) -> Seq<Seq<char>> {
        self.nodes@.map_values(|s: String| s@)
    }

    pub fn new(nodes: Vec<String>) -> (r: Client)
        ensures
            r.pool() == nodes@.map_values(|s: String| s@),
    {
        Client { nodes }
    }

    /// Number of nodes in the pool.
    pub fn node_count(&self) -> (r: usize)
        ensures
            r == self.pool().len(),
    {
        self.nodes.len()
    }

    /// The node that the next call goes to: the first of the pool.
    pub fn get_node(&self) -> (r: Result<String, ClientError>)
        ensures
            self.pool().len() == 0 ==> r == Err::<String, ClientError>(ClientError::NoNodeAvailable),
            self.pool().len() > 0 ==> (r matches Ok(n) && n@ == self.pool()[0]),
    {
        if self.nodes.len() == 0 {
            Err(ClientError::NoNodeAvailable)
        } else {
            Ok(self.nodes[0].clone())
        }
    }
}

} // verus!

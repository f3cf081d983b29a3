//! Session cookies: the session middleware configuration, reading the
//! session identifier out of a `Cookie` header, and writing the
//! `Set-Cookie` header value for a new session.

use vstd::prelude::*;
use crate::text::{chars_of, string_from_chars, trim_bounds, trim, trim_start, trim_end, unicode_white_space, push_decimal, decimal, str_eq};

verus! {

/// Session cookie name.
pub const SESSION_COOKIE_NAME: &'static str = "acton_session";

/// SameSite cookie policy.
#[derive(Debug, Clone, Copy, PartialEq, Eq, Structural)]
pub enum SameSite {
    /// Strict same-site policy
    Strict,
    /// Lax same-site policy (recommended)
    Lax,
    /// No same-site restriction (requires Secure)
    Unrestricted,
}

/// The cookie attribute value of a SameSite policy.
pub open spec fn same_site_text(s: SameSite) -> Seq<char> {
    match s {
        SameSite::Strict => "Strict"@,
        SameSite::Lax => "Lax"@,
        SameSite::Unrestricted => "None"@,
    }
}

impl SameSite {
    /// The default policy (Lax).
    pub fn default() -> (s: SameSite)
        ensures
            s == SameSite::Lax,
    {
        SameSite::Lax
    }

    /// Convert to the cookie attribute string.
    pub fn as_str(self) -> (r: &'static str)
        ensures
            r@ == same_site_text(self),
    {
        match self {
            SameSite::Strict => "Strict",
            SameSite::Lax => "Lax",
            SameSite::Unrestricted => "None",
        }
    }
}

/// Session configuration for the middleware.
#[derive(Debug, Clone)]
pub struct SessionConfig {
    /// Cookie name for session ID
    pub cookie_name: String,
    /// Cookie path
    pub cookie_path: String,
    /// HTTP-only cookie (recommended: true)
    pub http_only: bool,
    /// Secure cookie (HTTPS only)
    pub secure: bool,
    /// SameSite policy
    pub same_site: SameSite,
    /// Session TTL in seconds
    pub max_age_secs: u64,
    /// Timeout for agent communication in milliseconds
    pub agent_timeout_ms: u64,
}

impl SessionConfig {
    /// The development defaults: cookie `acton_session` on path `/`,
    /// HTTP-only, not restricted to HTTPS, SameSite Lax, 24 hours, and a
    /// 100 ms agent timeout.
    pub fn default() -> (c: SessionConfig)
        ensures
            c.cookie_name@ == SESSION_COOKIE_NAME@,
            c.cookie_path@ == "/"@,
            c.http_only,
            !c.secure,
            c.same_site == SameSite::Lax,
            c.max_age_secs == 86400,
            c.agent_timeout_ms == 100,
    {
        SessionConfig {
            cookie_name: String::from_str(SESSION_COOKIE_NAME),
            cookie_path: String::from_str("/"),
            http_only: true,
            secure: false,
            same_site: SameSite::Lax,
            max_age_secs: 86400,
            agent_timeout_ms: 100,
        }
    }
}

/// The pieces of `s` between occurrences of `sep` (`str::split`): always at
/// least one piece, empty pieces included.
pub open spec fn split_on(s: Seq<char>, sep: char) -> Seq<Seq<char>>
    decreases s.len(),
{
    if s.len() == 0 {
        seq![Seq::empty()]
    } else if s.last() == sep {
        split_on(s.drop_last(), sep).push(Seq::empty())
    } else {
        let p = split_on(s.drop_last(), sep);
        p.update(p.len() - 1, p.last().push(s.last()))
    }
}

/// Whether `s` contains `c`.
pub open spec fn has_char(s: Seq<char>, c: char) -> bool {
    exists|i: int| 0 <= i < s.len() && s[i] == c
}

/// The position of the first `c` in `s` (meaningful when it occurs).
pub open spec fn first_index(s: Seq<char>, c: char) -> int {
    choose|i: int| 0 <= i < s.len() && s[i] == c && forall|k: int| 0 <= k < i ==> s[k] != c
}

/// The value of a `name=value` cookie piece when its trimmed name is `name`.
pub open spec fn piece_value(piece: Seq<char>, name: Seq<char>) -> Option<Seq<char>> {
    let p = trim(piece);
    if has_char(p, '=') && trim(p.subrange(0, first_index(p, '='))) == name {
        Some(trim(p.subrange(first_index(p, '=') + 1, p.len() as int)))
    } else {
        None
    }
}

/// The value of the first piece that names the cookie.
pub open spec fn first_value(pieces: Seq<Seq<char>>, name: Seq<char>) -> Option<Seq<char>>
    decreases pieces.len(),
{
    if pieces.len() == 0 {
        None
    } else if piece_value(pieces[0], name).is_some() {
        piece_value(pieces[0], name)
    } else {
        first_value(pieces.drop_first(), name)
    }
}

/// The value of cookie `name` in a `Cookie` header: the first `;`-separated
/// piece whose trimmed text splits at its first `=` into a name equal (after
/// trimming) to `name`, with its value trimmed.
pub open spec fn cookie_value(header: Seq<char>, name: Seq<char>) -> Option<Seq<char>> {
    first_value(split_on(header, ';'), name)
}

proof fn lemma_first_value(pieces: Seq<Seq<char>>, name: Seq<char>, j: int)
    requires
        0 <= j < pieces.len(),
        forall|k: int| 0 <= k < j ==> piece_value(#[trigger] pieces[k], name).is_none(),
    ensures
        first_value(pieces, name) == if piece_value(pieces[j], name).is_some() {
            piece_value(pieces[j], name)
        } else {
            first_value(pieces.subrange(j + 1, pieces.len() as int), name)
        },
    decreases j,
{
    if j > 0 {
        let t = pieces.drop_first();
        assert forall|k: int| 0 <= k < j - 1 implies piece_value(#[trigger] t[k], name).is_none() by {
            assert(t[k] == pieces[k + 1]);
        }
        assert(piece_value(pieces[0], name).is_none());
        lemma_first_value(t, name, j - 1);
        assert(t[j - 1] == pieces[j]);
        assert(t.subrange(j, t.len() as int) =~= pieces.subrange(j + 1, pieces.len() as int));
    } else {
        assert(pieces.drop_first() =~= pieces.subrange(1, pieces.len() as int));
    }
}

/// The value of one `name=value` piece `v[from..to]` when it names the cookie.
#[verifier::loop_isolation(false)]
fn match_piece(v: &Vec<char>, from: usize, to: usize, name: &Vec<char>) -> (r: Option<String>)
    requires
        from <= to <= v@.len(),
    ensures
        match r {
            Some(s) => piece_value(v@.subrange(from as int, to as int), name@) == Some(s@),
            None => piece_value(v@.subrange(from as int, to as int), name@).is_none(),
        },
{
    let ghost piece = v@.subrange(from as int, to as int);
    let (a, b) = trim_bounds(v, from, to);
    let ghost p = v@.subrange(a as int, b as int);
    assert(p == trim(piece));
    let mut e: usize = a;
    while e < b && v[e] != '='
        invariant
            a <= e <= b,
            b <= v@.len(),
            p == v@.subrange(a as int, b as int),
            forall|k: int| a <= k < e ==> v@[k] != '=',
        decreases b - e,
    {
        e = e + 1;
    }
    if e == b {
        proof {
            if has_char(p, '=') {
                let i = choose|i: int| 0 <= i < p.len() && p[i] == '=';
                assert(p[i] == v@[a + i]);
            }
        }
        return None;
    }
    proof {
        let i = (e - a) as int;
        assert(p[i] == '=');
        assert forall|k: int| 0 <= k < i implies p[k] != '=' by {
            assert(p[k] == v@[a + k]);
        }
        let f = first_index(p, '=');
        assert(0 <= f < p.len() && p[f] == '=' && forall|k: int| 0 <= k < f ==> p[k] != '=');
        if f < i {
            assert(p[f] != '=');
        } else if f > i {
            assert(p[i] != '=');
        }
        assert(p.subrange(0, i) =~= v@.subrange(a as int, e as int));
        assert(p.subrange(i + 1, p.len() as int) =~= v@.subrange(e + 1, b as int));
    }
    let (na, nb) = trim_bounds(v, a, e);
    assert(v@.subrange(na as int, nb as int) == trim(p.subrange(0, first_index(p, '='))));
    if nb - na != name.len() {
        assert(v@.subrange(na as int, nb as int).len() != name@.len());
        return None;
    }
    let mut k: usize = 0;
    while k < name.len()
        invariant
            na <= nb <= v@.len(),
            nb - na == name@.len(),
            k <= name@.len(),
            forall|x: int| 0 <= x < k ==> v@[na + x] == name@[x],
        decreases name@.len() - k,
    {
        if v[na + k] != name[k] {
            proof {
                assert(v@.subrange(na as int, nb as int)[k as int] != name@[k as int]);
            }
            return None;
        }
        k = k + 1;
    }
    assert(v@.subrange(na as int, nb as int) =~= name@);
    let (va, vb) = trim_bounds(v, e + 1, b);
    assert(v@.subrange(va as int, vb as int) == trim(p.subrange(first_index(p, '=') + 1, p.len() as int)));
    Some(string_from_chars(v, va, vb))
}

/// Extract the session identifier from a `Cookie` header: the value of the
/// first cookie named `cookie_name`.
pub fn extract_session_id(cookie_header: &str, cookie_name: &str) -> (r: Option<String>)
    ensures
        match r {
            Some(s) => cookie_value(cookie_header@, cookie_name@) == Some(s@),
            None => cookie_value(cookie_header@, cookie_name@).is_none(),
        },
{
    let v = chars_of(cookie_header);
    let name = chars_of(cookie_name);
    let n = v.len();
    let mut start: usize = 0;
    let mut i: usize = 0;
    while i < n
        invariant
            n == v@.len(),
            start <= i <= n,
            v@ == cookie_header@,
            name@ == cookie_name@,
            split_on(v@.take(i as int), ';').len() >= 1,
            split_on(v@.take(i as int), ';').last() == v@.subrange(start as int, i as int),
            forall|k: int| 0 <= k < split_on(v@.take(i as int), ';').len() - 1
                ==> piece_value(#[trigger] split_on(v@.take(i as int), ';')[k], name@).is_none(),
        decreases n - i,
    {
        let ghost prefix = v@.take(i as int);
        let ghost next = v@.take(i as int + 1);
        assert(next.drop_last() == prefix);
        proof { lemma_split_len(next, ';'); }
        assert(next.last() == v@[i as int]);
        if v[i] == ';' {
            match match_piece(&v, start, i, &name) {
                Some(value) => {
                    proof {
                        let pieces = split_on(v@, ';');
                        lemma_split_len(prefix, ';');
                        lemma_split_stable(v@, i as int + 1);
                        let j = split_on(prefix, ';').len() - 1;
                        assert(split_on(next, ';') == split_on(prefix, ';').push(Seq::empty()));
                        assert(pieces[j] == split_on(next, ';')[j]);
                        assert(pieces[j] == split_on(prefix, ';')[j]);
                        assert forall|k: int| 0 <= k < j implies piece_value(#[trigger] pieces[k], name@).is_none() by {
                            assert(pieces[k] == split_on(next, ';')[k]);
                            assert(pieces[k] == split_on(prefix, ';')[k]);
                        }
                        lemma_first_value(pieces, name@, j);
                    }
                    return Some(value);
                },
                None => {
                    start = i + 1;
                    proof {
                        assert(v@.subrange(start as int, i as int + 1) =~= Seq::<char>::empty());
                        let ps = split_on(prefix, ';');
                        let pn = split_on(next, ';');
                        assert(pn == ps.push(Seq::empty()));
                        assert forall|k: int| 0 <= k < pn.len() - 1 implies piece_value(#[trigger] pn[k], name@).is_none() by {
                            assert(pn[k] == ps[k]);
                        }
                    }
                },
            }
        } else {
            proof {
                let ps = split_on(prefix, ';');
                let pn = split_on(next, ';');
                assert(pn == ps.update(ps.len() - 1, ps.last().push(v@[i as int])));
                assert(pn.last() =~= v@.subrange(start as int, i as int + 1));
                assert forall|k: int| 0 <= k < pn.len() - 1 implies piece_value(#[trigger] pn[k], name@).is_none() by {
                    assert(pn[k] == ps[k]);
                }
            }
        }
        i = i + 1;
    }
    proof {
        assert(v@.take(n as int) =~= v@);
    }
    let r = match_piece(&v, start, n, &name);
    proof {
        let pieces = split_on(v@, ';');
        lemma_split_len(v@, ';');
        let j = pieces.len() - 1;
        lemma_first_value(pieces, name@, j);
        assert(pieces.subrange(j + 1, pieces.len() as int) =~= Seq::<Seq<char>>::empty());
    }
    r
}

proof fn lemma_split_len(s: Seq<char>, sep: char)
    ensures
        split_on(s, sep).len() >= 1,
    decreases s.len(),
{
    if s.len() > 0 {
        lemma_split_len(s.drop_last(), sep);
    }
}

/// Splitting a longer text keeps every piece of a prefix but its last one.
proof fn lemma_split_stable(s: Seq<char>, j: int)
    requires
        0 <= j <= s.len(),
    ensures
        split_on(s, ';').len() >= split_on(s.take(j), ';').len(),
        forall|k: int| 0 <= k < split_on(s.take(j), ';').len() - 1 ==> split_on(s, ';')[k] == split_on(s.take(j), ';')[k],
    decreases s.len() - j,
{
    lemma_split_len(s.take(j), ';');
    if j == s.len() {
        assert(s.take(j) =~= s);
    } else {
        let d = s.drop_last();
        lemma_split_stable(d, j);
        assert(d.take(j) =~= s.take(j));
        lemma_split_len(d, ';');
    }
}

/// The `Set-Cookie` value for a new session:
/// `name=id; Path=path; Max-Age=secs; SameSite=policy`, then `; HttpOnly`
/// and `; Secure` when configured.
pub open spec fn session_cookie(id: Seq<char>, c: SessionConfig) -> Seq<char> {
    c.cookie_name@ + "="@ + id + "; Path="@ + c.cookie_path@ + "; Max-Age="@ + decimal(c.max_age_secs as nat)
        + "; SameSite="@ + same_site_text(c.same_site)
        + (if c.http_only { "; HttpOnly"@ } else { Seq::empty() })
        + (if c.secure { "; Secure"@ } else { Seq::empty() })
}

/// Build the `Set-Cookie` header value for a session.
pub fn session_cookie_value(session_id: &str, config: &SessionConfig) -> (s: String)
    ensures
        s@ == session_cookie(session_id@, *config),
{
    let mut s = config.cookie_name.clone();
    s.append("=");
    s.append(session_id);
    s.append("; Path=");
    s.append(config.cookie_path.as_str());
    s.append("; Max-Age=");
    push_decimal(&mut s, config.max_age_secs);
    s.append("; SameSite=");
    s.append(config.same_site.as_str());
    let ghost base = s@;
    if config.http_only {
        s.append("; HttpOnly");
    }
    let ghost mid = s@;
    if config.secure {
        s.append("; Secure");
    }
    proof {
        reveal_strlit("=");
        assert(s@ =~= session_cookie(session_id@, *config));
    }
    s
}

proof fn lemma_split_no_sep(s: Seq<char>)
    requires
        !has_char(s, ';'),
    ensures
        split_on(s, ';') == seq![s],
    decreases s.len(),
{
    if s.len() > 0 {
        let d = s.drop_last();
        assert(!has_char(d, ';')) by {
            if has_char(d, ';') {
                let i = choose|i: int| 0 <= i < d.len() && d[i] == ';';
                assert(s[i] == ';');
            }
        }
        lemma_split_no_sep(d);
        assert(s.last() != ';') by {
            assert(s[s.len() - 1] == s.last());
        }
        assert(d.push(s.last()) =~= s);
    } else {
        assert(s =~= Seq::<char>::empty());
    }
}

proof fn lemma_trim_unchanged(s: Seq<char>)
    requires
        s.len() > 0,
        !unicode_white_space(s[0]),
        !unicode_white_space(s.last()),
    ensures
        trim(s) == s,
{
    assert(trim_start(s) == s);
    assert(trim_end(s) == s);
}

/// Law: a browser that sends back the session cookie as `name=id` gets the
/// identifier read back by `extract_session_id`, for a cookie name and an
/// identifier that are not empty, neither start nor end with white space,
/// and hold no `;` (and the name no `=`).
pub proof fn law_session_cookie_read_back(name: Seq<char>, id: Seq<char>)
    requires
        name.len() > 0,
        id.len() > 0,
        !unicode_white_space(name[0]),
        !unicode_white_space(name.last()),
        !unicode_white_space(id[0]),
        !unicode_white_space(id.last()),
        !has_char(name, '='),
        !has_char(name, ';'),
        !has_char(id, ';'),
    ensures
        cookie_value(name + "="@ + id, name) == Some(id),
{
    reveal_strlit("=");
    let s = name + "="@ + id;
    assert(!has_char(s, ';')) by {
        if has_char(s, ';') {
            let i = choose|i: int| 0 <= i < s.len() && s[i] == ';';
            if i < name.len() {
                assert(name[i] == ';');
            } else if i > name.len() {
                assert(id[i - name.len() - 1] == ';');
            }
        }
    }
    lemma_split_no_sep(s);
    assert(s[0] == name[0]);
    assert(s.last() == id.last());
    lemma_trim_unchanged(s);
    let k = name.len() as int;
    assert(s[k] == '=');
    assert forall|j: int| 0 <= j < k implies s[j] != '=' by {
        assert(s[j] == name[j]);
    }
    let f = first_index(s, '=');
    assert(0 <= f < s.len() && s[f] == '=' && forall|j: int| 0 <= j < f ==> s[j] != '=');
    if f < k {
        assert(s[f] == name[f]);
    } else if f > k {
        assert(s[k] != '=');
    }
    assert(s.subrange(0, k) =~= name);
    assert(s.subrange(k + 1, s.len() as int) =~= id);
    lemma_trim_unchanged(name);
    lemma_trim_unchanged(id);
    assert(piece_value(s, name) == Some(id));
    assert(seq![s].drop_first() =~= Seq::<Seq<char>>::empty());
}

} // verus!

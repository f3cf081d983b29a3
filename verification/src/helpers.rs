//! Helper functions for templates.

use vstd::prelude::*;
use crate::text::{chars_of, string_push};
use crate::session::{FlashLevel, FlashMessage};

verus! {

/// The hidden form field carrying the CSRF token. No CSRF middleware hands
/// this helper a token, so the field carries the fixed value `placeholder`.
pub fn csrf_token() -> (s: String)
    ensures
        s@ == "<input type=\"hidden\" name=\"_csrf_token\" value=\"placeholder\">"@,
{
    String::from_str("<input type=\"hidden\" name=\"_csrf_token\" value=\"placeholder\">")
}

/// The HTML escape of one character: `&`, `<`, `>`, `"` and `'` become
/// entities, every other character stands for itself.
pub open spec fn escape_char(c: char) -> Seq<char> {
    if c == '&' {
        seq!['&', 'a', 'm', 'p', ';']
    } else if c == '<' {
        seq!['&', 'l', 't', ';']
    } else if c == '>' {
        seq!['&', 'g', 't', ';']
    } else if c == '"' {
        seq!['&', 'q', 'u', 'o', 't', ';']
    } else if c == '\'' {
        seq!['&', '#', '3', '9', ';']
    } else {
        seq![c]
    }
}

/// The HTML escape of a text, character by character.
pub open spec fn html_escape(t: Seq<char>) -> Seq<char>
    decreases t.len(),
{
    if t.len() == 0 {
        Seq::empty()
    } else {
        html_escape(t.drop_last()) + escape_char(t.last())
    }
}

/// The style name of a flash level.
pub open spec fn level_name(l: FlashLevel) -> Seq<char> {
    match l {
        FlashLevel::Success => "success"@,
        FlashLevel::Info => "info"@,
        FlashLevel::Warning => "warning"@,
        FlashLevel::Error => "error"@,
    }
}

/// The markup of one flash message: a `div` styled by its level, holding
/// the escaped text.
pub open spec fn flash_html(m: FlashMessage) -> Seq<char> {
    "<div class=\"flash flash-"@ + level_name(m.level) + "\">"@ + html_escape(m.content@) + "</div>"@
}

/// The markup of a list of flash messages, one after the other.
pub open spec fn flashes_html(ms: Seq<FlashMessage>) -> Seq<char>
    decreases ms.len(),
{
    if ms.len() == 0 {
        Seq::empty()
    } else {
        flashes_html(ms.drop_last()) + flash_html(ms.last())
    }
}

fn push_chars(s: &mut String, a: char, b: char, c: char, d: char, e: char, n: usize)
    requires
        1 <= n <= 5,
    ensures
        final(s)@ == old(s)@ + seq![a, b, c, d, e].take(n as int),
{
    let ghost start = s@;
    string_push(s, a);
    if n >= 2 { string_push(s, b); }
    if n >= 3 { string_push(s, c); }
    if n >= 4 { string_push(s, d); }
    if n >= 5 { string_push(s, e); }
    assert(s@ =~= start + seq![a, b, c, d, e].take(n as int));
}

fn push_escaped(s: &mut String, c: char)
    ensures
        final(s)@ == old(s)@ + escape_char(c),
{
    if c == '&' {
        push_chars(s, '&', 'a', 'm', 'p', ';', 5);
    } else if c == '<' {
        push_chars(s, '&', 'l', 't', ';', ' ', 4);
    } else if c == '>' {
        push_chars(s, '&', 'g', 't', ';', ' ', 4);
    } else if c == '"' {
        string_push(s, '&');
        push_chars(s, 'q', 'u', 'o', 't', ';', 5);
    } else if c == '\'' {
        push_chars(s, '&', '#', '3', '9', ';', 5);
    } else {
        string_push(s, c);
    }
    assert(s@ =~= old(s)@ + escape_char(c));
}

fn push_html_escaped(s: &mut String, text: &str)
    ensures
        final(s)@ == old(s)@ + html_escape(text@),
{
    let chars = chars_of(text);
    let n = chars.len();
    let mut i: usize = 0;
    let ghost start = s@;
    while i < n
        invariant
            n == chars@.len(),
            chars@ == text@,
            i <= n,
            s@ == start + html_escape(text@.take(i as int)),
        decreases n - i,
    {
        push_escaped(s, chars[i]);
        proof {
            let t = text@.take(i as int + 1);
            assert(t.drop_last() =~= text@.take(i as int));
            assert(t.last() == chars@[i as int]);
        }
        i = i + 1;
        assert(s@ =~= start + html_escape(text@.take(i as int)));
    }
    assert(text@.take(n as int) =~= text@);
}

/// The markup of the flash messages, in order: each in a `div` of class
/// `flash flash-<level>` holding its escaped text.
pub fn flash_messages(messages: &Vec<FlashMessage>) -> (s: String)
    ensures
        s@ == flashes_html(messages@),
{
    let mut s = String::new();
    let n = messages.len();
    let mut i: usize = 0;
    while i < n
        invariant
            n == messages@.len(),
            i <= n,
            s@ == flashes_html(messages@.take(i as int)),
        decreases n - i,
    {
        let ghost before = s@;
        let m = &messages[i];
        s.append("<div class=\"flash flash-");
        match m.level {
            FlashLevel::Success => s.append("success"),
            FlashLevel::Info => s.append("info"),
            FlashLevel::Warning => s.append("warning"),
            FlashLevel::Error => s.append("error"),
        }
        s.append("\">");
        push_html_escaped(&mut s, m.content.as_str());
        s.append("</div>");
        proof {
            let t = messages@.take(i as int + 1);
            assert(t.drop_last() =~= messages@.take(i as int));
            assert(t.last() == messages@[i as int]);
            assert(s@ =~= before + flash_html(messages@[i as int]));
        }
        i = i + 1;
    }
    assert(messages@.take(n as int) =~= messages@);
    s
}

/// The `%XX` digits of a character that a URL part must escape: `%`,
/// `/`, `?`, `#`, `&`, `=`, `+` and space; other characters stand for
/// themselves.
pub open spec fn url_escape(c: char) -> Option<(char, char)> {
    if c == '%' {
        Some(('2', '5'))
    } else if c == '/' {
        Some(('2', 'F'))
    } else if c == '?' {
        Some(('3', 'F'))
    } else if c == '#' {
        Some(('2', '3'))
    } else if c == '&' {
        Some(('2', '6'))
    } else if c == '=' {
        Some(('3', 'D'))
    } else if c == '+' {
        Some(('2', 'B'))
    } else if c == ' ' {
        Some(('2', '0'))
    } else {
        None
    }
}

/// One character of a URL part. In the path of a route a `.` of the route
/// name is a path separator `/`; every reserved character is escaped.
pub open spec fn url_unit(c: char, path: bool) -> Seq<char> {
    if path && c == '.' {
        seq!['/']
    } else {
        match url_escape(c) {
            Some((h, l)) => seq!['%', h, l],
            None => seq![c],
        }
    }
}

/// A text as a URL part, character by character.
pub open spec fn url_encode(t: Seq<char>, path: bool) -> Seq<char>
    decreases t.len(),
{
    if t.len() == 0 {
        Seq::empty()
    } else {
        url_unit(t[0], path) + url_encode(t.drop_first(), path)
    }
}

/// One route parameter as query text, `key=value`, both escaped.
pub open spec fn param_text(p: (Seq<char>, Seq<char>)) -> Seq<char> {
    url_encode(p.0, false) + seq!['='] + url_encode(p.1, false)
}

/// The parameters as query text, in the order given, separated by `&`.
pub open spec fn query_pairs(ps: Seq<(Seq<char>, Seq<char>)>) -> Seq<char>
    decreases ps.len(),
{
    if ps.len() == 0 {
        Seq::empty()
    } else if ps.len() == 1 {
        param_text(ps[0])
    } else {
        param_text(ps[0]) + seq!['&'] + query_pairs(ps.drop_first())
    }
}

/// The query of a route: nothing without parameters, else `?` and the
/// parameters.
pub open spec fn route_query(ps: Seq<(Seq<char>, Seq<char>)>) -> Seq<char> {
    if ps.len() == 0 {
        Seq::empty()
    } else {
        seq!['?'] + query_pairs(ps)
    }
}

/// The URL of a route: `/`, the route name with each `.` read as a path
/// separator (`posts.show` is `/posts/show`), then the query.
pub open spec fn route_url(name: Seq<char>, ps: Seq<(Seq<char>, Seq<char>)>) -> Seq<char> {
    seq!['/'] + url_encode(name, true) + route_query(ps)
}

/// The text of a list of route parameters.
pub open spec fn param_views(v: Seq<(String, String)>) -> Seq<(Seq<char>, Seq<char>)> {
    v.map_values(|p: (String, String)| (p.0@, p.1@))
}

/// Whether a text is empty or starts with a character that ends a URL
/// part (`?`, `=` or `&`).
pub open spec fn at_part_end(x: Seq<char>) -> bool {
    x.len() == 0 || x[0] == '?' || x[0] == '=' || x[0] == '&'
}

proof fn lemma_unit_shape(c: char, path: bool)
    ensures
        url_unit(c, path).len() == 1 || url_unit(c, path).len() == 3,
        url_unit(c, path)[0] == '%' <==> url_unit(c, path).len() == 3,
        url_unit(c, path)[0] != '?' && url_unit(c, path)[0] != '=' && url_unit(c, path)[0] != '&',
{
}

proof fn lemma_unit_injective(c1: char, c2: char, path: bool)
    requires
        url_unit(c1, path) == url_unit(c2, path),
    ensures
        c1 == c2,
{
    let u = url_unit(c1, path);
    if u.len() == 3 {
        assert(u[1] == url_unit(c2, path)[1] && u[2] == url_unit(c2, path)[2]);
    } else {
        assert(u[0] == url_unit(c2, path)[0]);
    }
}

proof fn lemma_encode_push(t: Seq<char>, c: char, path: bool)
    ensures
        url_encode(t.push(c), path) == url_encode(t, path) + url_unit(c, path),
    decreases t.len(),
{
    if t.len() == 0 {
        assert(t.push(c).drop_first() =~= Seq::<char>::empty());
        assert(url_encode(Seq::<char>::empty(), path) == Seq::<char>::empty());
        assert(t.push(c)[0] == c);
        assert(url_encode(t, path) == Seq::<char>::empty());
        assert(url_encode(t.push(c), path) =~= url_unit(c, path));
    } else {
        assert(t.push(c).drop_first() =~= t.drop_first().push(c));
        lemma_encode_push(t.drop_first(), c, path);
        assert(url_encode(t.push(c), path) =~= url_encode(t, path) + url_unit(c, path));
    }
}

/// Two encoded texts followed by the ends of their parts agree only when
/// the texts and the rests agree: an encoded part can be read back.
proof fn lemma_encode_prefix(a: Seq<char>, b: Seq<char>, x: Seq<char>, y: Seq<char>, path: bool)
    requires
        url_encode(a, path) + x == url_encode(b, path) + y,
        at_part_end(x),
        at_part_end(y),
    ensures
        a == b,
        x == y,
    decreases a.len() + b.len(),
{
    if a.len() == 0 && b.len() == 0 {
        assert(url_encode(a, path) + x =~= x);
        assert(url_encode(b, path) + y =~= y);
        assert(a =~= b);
    } else if a.len() == 0 {
        lemma_unit_shape(b[0], path);
        assert(url_encode(a, path) + x =~= x);
        let l = url_encode(b, path) + y;
        assert(l[0] == url_unit(b[0], path)[0]);
    } else if b.len() == 0 {
        lemma_unit_shape(a[0], path);
        assert(url_encode(b, path) + y =~= y);
        let l = url_encode(a, path) + x;
        assert(l[0] == url_unit(a[0], path)[0]);
    } else {
        let ua = url_unit(a[0], path);
        let ub = url_unit(b[0], path);
        lemma_unit_shape(a[0], path);
        lemma_unit_shape(b[0], path);
        let ra = url_encode(a.drop_first(), path) + x;
        let rb = url_encode(b.drop_first(), path) + y;
        let l = url_encode(a, path) + x;
        assert(l =~= ua + ra);
        assert(l =~= ub + rb);
        assert(l[0] == ua[0] && l[0] == ub[0]);
        if ua[0] == '%' {
            assert(l[1] == ua[1] && l[1] == ub[1]);
            assert(l[2] == ua[2] && l[2] == ub[2]);
        }
        assert(ua =~= ub);
        lemma_unit_injective(a[0], b[0], path);
        assert(ra =~= l.skip(ua.len() as int));
        assert(rb =~= l.skip(ub.len() as int));
        lemma_encode_prefix(a.drop_first(), b.drop_first(), x, y, path);
        assert(a =~= seq![a[0]] + a.drop_first());
        assert(b =~= seq![b[0]] + b.drop_first());
    }
}

proof fn lemma_pairs_push(ps: Seq<(Seq<char>, Seq<char>)>, q: (Seq<char>, Seq<char>))
    requires
        ps.len() > 0,
    ensures
        query_pairs(ps.push(q)) == query_pairs(ps) + seq!['&'] + param_text(q),
    decreases ps.len(),
{
    assert(ps.push(q)[0] == ps[0]);
    if ps.len() == 1 {
        assert(ps.push(q).drop_first() =~= seq![q]);
        assert(seq![q][0] == q);
        assert(query_pairs(seq![q]) == param_text(q));
        assert(query_pairs(ps) == param_text(ps[0]));
        assert(query_pairs(ps.push(q)) =~= query_pairs(ps) + seq!['&'] + param_text(q));
    } else {
        assert(ps.push(q).drop_first() =~= ps.drop_first().push(q));
        lemma_pairs_push(ps.drop_first(), q);
        assert(query_pairs(ps.push(q)) =~= query_pairs(ps) + seq!['&'] + param_text(q));
    }
}

proof fn lemma_pairs_injective(p1: Seq<(Seq<char>, Seq<char>)>, p2: Seq<(Seq<char>, Seq<char>)>)
    requires
        p1.len() > 0,
        p2.len() > 0,
        query_pairs(p1) == query_pairs(p2),
    ensures
        p1 == p2,
    decreases p1.len(),
{
    let t1 = if p1.len() == 1 { Seq::<char>::empty() } else { seq!['&'] + query_pairs(p1.drop_first()) };
    let t2 = if p2.len() == 1 { Seq::<char>::empty() } else { seq!['&'] + query_pairs(p2.drop_first()) };
    let x1 = seq!['='] + url_encode(p1[0].1, false) + t1;
    let x2 = seq!['='] + url_encode(p2[0].1, false) + t2;
    assert(query_pairs(p1) =~= url_encode(p1[0].0, false) + x1);
    assert(query_pairs(p2) =~= url_encode(p2[0].0, false) + x2);
    lemma_encode_prefix(p1[0].0, p2[0].0, x1, x2, false);
    assert(url_encode(p1[0].1, false) + t1 =~= x1.drop_first());
    assert(url_encode(p2[0].1, false) + t2 =~= x2.drop_first());
    lemma_encode_prefix(p1[0].1, p2[0].1, t1, t2, false);
    assert(p1[0] == p2[0]);
    if p1.len() == 1 || p2.len() == 1 {
        assert(p1.len() == 1 && p2.len() == 1);
        assert(p1 =~= p2);
    } else {
        assert(query_pairs(p1.drop_first()) =~= t1.drop_first());
        assert(query_pairs(p2.drop_first()) =~= t2.drop_first());
        lemma_pairs_injective(p1.drop_first(), p2.drop_first());
        assert(p1 =~= seq![p1[0]] + p1.drop_first());
        assert(p2 =~= seq![p2[0]] + p2.drop_first());
    }
}

/// Law: different routes give different URLs. Route names and parameter
/// lists (keys, values and their order) can be read back from the URL,
/// since every character that separates its parts is escaped.
pub proof fn law_route_distinct(n1: Seq<char>, p1: Seq<(Seq<char>, Seq<char>)>, n2: Seq<char>, p2: Seq<(Seq<char>, Seq<char>)>)
    requires
        route_url(n1, p1) == route_url(n2, p2),
    ensures
        n1 == n2,
        p1 == p2,
{
    let q1 = route_query(p1);
    let q2 = route_query(p2);
    assert(url_encode(n1, true) + q1 =~= route_url(n1, p1).drop_first());
    assert(url_encode(n2, true) + q2 =~= route_url(n2, p2).drop_first());
    lemma_encode_prefix(n1, n2, q1, q2, true);
    if p1.len() == 0 || p2.len() == 0 {
        assert(p1.len() == 0 && p2.len() == 0);
        assert(p1 =~= p2);
    } else {
        assert(query_pairs(p1) =~= q1.drop_first());
        assert(query_pairs(p2) =~= q2.drop_first());
        lemma_pairs_injective(p1, p2);
    }
}

fn push3(s: &mut String, a: char, b: char, c: char)
    ensures
        final(s)@ == old(s)@ + seq![a, b, c],
{
    string_push(s, a);
    string_push(s, b);
    string_push(s, c);
    assert(s@ =~= old(s)@ + seq![a, b, c]);
}

fn push_url_unit(s: &mut String, c: char, path: bool)
    ensures
        final(s)@ == old(s)@ + url_unit(c, path),
{
    if path && c == '.' {
        string_push(s, '/');
    } else if c == '%' {
        push3(s, '%', '2', '5');
    } else if c == '/' {
        push3(s, '%', '2', 'F');
    } else if c == '?' {
        push3(s, '%', '3', 'F');
    } else if c == '#' {
        push3(s, '%', '2', '3');
    } else if c == '&' {
        push3(s, '%', '2', '6');
    } else if c == '=' {
        push3(s, '%', '3', 'D');
    } else if c == '+' {
        push3(s, '%', '2', 'B');
    } else if c == ' ' {
        push3(s, '%', '2', '0');
    } else {
        string_push(s, c);
    }
    assert(s@ =~= old(s)@ + url_unit(c, path));
}

fn push_url_encoded(s: &mut String, text: &str, path: bool)
    ensures
        final(s)@ == old(s)@ + url_encode(text@, path),
{
    let chars = chars_of(text);
    let n = chars.len();
    let mut i: usize = 0;
    let ghost start = s@;
    assert(text@.take(0) =~= Seq::<char>::empty());
    while i < n
        invariant
            n == chars@.len(),
            chars@ == text@,
            i <= n,
            s@ == start + url_encode(text@.take(i as int), path),
        decreases n - i,
    {
        push_url_unit(s, chars[i], path);
        proof {
            assert(text@.take(i as int + 1) =~= text@.take(i as int).push(chars@[i as int]));
            lemma_encode_push(text@.take(i as int), chars@[i as int], path);
        }
        i = i + 1;
        assert(s@ =~= start + url_encode(text@.take(i as int), path));
    }
    assert(text@.take(n as int) =~= text@);
}

/// The URL of a named route with its parameters: `/`, the route name with
/// each `.` read as a path separator, then the parameters as a query in
/// the order given (`route("posts.show", [("id", "7")])` is
/// `/posts/show?id=7`). The characters that separate the parts of a URL
/// (`%`, `/`, `?`, `#`, `&`, `=`, `+` and space) are percent-escaped, so
/// different routes give different URLs.
pub fn route(name: &str, params: Vec<(String, String)>) -> (s: String)
    ensures
        s@ == route_url(name@, param_views(params@)),
{
    let mut s = String::new();
    string_push(&mut s, '/');
    push_url_encoded(&mut s, name, true);
    let ghost ps = param_views(params@);
    let m = params.len();
    if m == 0 {
        assert(s@ =~= route_url(name@, ps));
        return s;
    }
    string_push(&mut s, '?');
    let ghost start = s@;
    assert(ps.take(0) =~= Seq::<(Seq<char>, Seq<char>)>::empty());
    let mut j: usize = 0;
    while j < m
        invariant
            m == params@.len(),
            ps == param_views(params@),
            j <= m,
            s@ == start + query_pairs(ps.take(j as int)),
        decreases m - j,
    {
        let ghost before = s@;
        if j > 0 {
            string_push(&mut s, '&');
        }
        push_url_encoded(&mut s, params[j].0.as_str(), false);
        string_push(&mut s, '=');
        push_url_encoded(&mut s, params[j].1.as_str(), false);
        proof {
            let q = ps[j as int];
            assert(q == (params@[j as int].0@, params@[j as int].1@));
            assert(ps.take(j as int + 1) =~= ps.take(j as int).push(q));
            if j == 0 {
                assert(ps.take(1) =~= seq![q]);
                assert(s@ =~= start + param_text(q));
            } else {
                lemma_pairs_push(ps.take(j as int), q);
                assert(s@ =~= start + query_pairs(ps.take(j as int)) + seq!['&'] + param_text(q));
            }
        }
        j = j + 1;
    }
    assert(ps.take(m as int) =~= ps);
    assert(s@ =~= route_url(name@, ps));
    s
}

/// The URL of a static asset (the path itself, without cache busting).
pub fn asset(path: &str) -> (s: String)
    ensures
        s@ == path@,
{
    String::from_str(path)
}

/// A string that is already safe for direct HTML output.
#[derive(Debug, Clone)]
pub struct SafeString(pub String);

impl SafeString {
    /// The text, output as it is.
    pub fn to_string(&self) -> (s: String)
        ensures
            s@ == self.0@,
    {
        self.0.clone()
    }
}

/// The response for a rendered template: the page with status 200, or
/// status 500 with `Template rendering failed` when rendering failed. A
/// request from HTMX gets the same page as a browser request.
pub fn render_response(rendered: Option<String>, is_htmx: bool) -> (r: (u16, String))
    ensures
        match rendered {
            Some(html) => r.0 == 200 && r.1@ == html@,
            None => r.0 == 500 && r.1@ == "Template rendering failed"@,
        },
{
    match rendered {
        Some(html) => (200, html),
        None => (500, String::from_str("Template rendering failed")),
    }
}

} // verus!

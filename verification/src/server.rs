use vstd::prelude::*;

verus! {

/// The bytes of a line of text written in ASCII.
pub open spec fn ascii_bytes(s: Seq<char>) -> Seq<u8> {
    Seq::new(s.len(), |i: int| s[i] as u8)
}

/// Whether `buf` begins with `prefix`.
pub open spec fn starts_with(buf: Seq<u8>, prefix: Seq<u8>) -> bool {
    prefix.len() <= buf.len() && buf.subrange(0, prefix.len() as int) == prefix
}

/// The status line of a response.
#[derive(Clone, Copy, Debug, PartialEq, Eq, Structural)]
pub enum Status {
    Found,
    NotFound,
}

/// The file of the web page directory that answers a request.
#[derive(Clone, Copy, Debug, PartialEq, Eq, Structural)]
pub enum Page {
    Index,
    Script,
    World,
    Missing,
}

/// The content type announced for the answer.
#[derive(Clone, Copy, Debug, PartialEq, Eq, Structural)]
pub enum ContentType {
    Html,
    Json,
}

/// How a request is answered: status, file and content type.
#[derive(Clone, Copy, Debug, PartialEq, Eq, Structural)]
pub struct Route {
    pub status: Status,
    pub page: Page,
    pub content_type: ContentType,
}

pub open spec fn status_text(s: Status) -> Seq<char> {
    match s {
        Status::Found => "HTTP/1.1 200 OK"@,
        Status::NotFound => "HTTP/1.1 404 NOT FOUND"@,
    }
}

pub open spec fn page_file(p: Page) -> Seq<char> {
    match p {
        Page::Index => "index.html"@,
        Page::Script => "index.js"@,
        Page::World => "world.json"@,
        Page::Missing => "404.html"@,
    }
}

pub open spec fn content_type_text(c: ContentType) -> Seq<char> {
    match c {
        ContentType::Html => "text/html"@,
        ContentType::Json => "application/json"@,
    }
}

/// How the server answers a request that begins with `req`: the page, the
/// script and the page's two other entry points are served as HTML, the
/// current world as JSON, and anything else gets the "not found" page.
pub open spec fn route_for(req: Seq<u8>) -> Route {
    if starts_with(req, index_line()) {
        Route { status: Status::Found, page: Page::Index, content_type: ContentType::Html }
    } else if starts_with(req, script_line()) {
        Route { status: Status::Found, page: Page::Script, content_type: ContentType::Html }
    } else if starts_with(req, world_line()) {
        Route { status: Status::Found, page: Page::World, content_type: ContentType::Json }
    } else if starts_with(req, graph_line()) {
        Route { status: Status::Found, page: Page::Index, content_type: ContentType::Html }
    } else if starts_with(req, update_line()) {
        Route { status: Status::Found, page: Page::Index, content_type: ContentType::Html }
    } else {
        Route { status: Status::NotFound, page: Page::Missing, content_type: ContentType::Html }
    }
}

/// The request line for the page.
pub open spec fn index_line() -> Seq<u8> {
    ascii_bytes("GET / HTTP/1.1\r\n"@)
}

/// The request line for the page's script.
pub open spec fn script_line() -> Seq<u8> {
    ascii_bytes("GET /index.js HTTP/1.1\r\n"@)
}

/// The request line for the current world.
pub open spec fn world_line() -> Seq<u8> {
    ascii_bytes("GET /calc-new-state HTTP/1.1\r\n"@)
}

/// The request line for the graph view.
pub open spec fn graph_line() -> Seq<u8> {
    ascii_bytes("GET /graph HTTP/1.1\r\n"@)
}

/// The line announcing a world update.
pub open spec fn update_line() -> Seq<u8> {
    ascii_bytes("update world \r\n"@)
}

/// Whether a request begins with one of the five lines the server knows.
pub open spec fn known_request(req: Seq<u8>) -> bool {
    starts_with(req, index_line()) || starts_with(req, script_line()) || starts_with(req, world_line())
        || starts_with(req, graph_line()) || starts_with(req, update_line())
}

/// A request cannot begin with two lines that differ at position `k`.
proof fn lemma_prefix_clash(req: Seq<u8>, p: Seq<u8>, q: Seq<u8>, k: int)
    requires
        0 <= k < p.len(),
        k < q.len(),
        p[k] != q[k],
    ensures
        !(starts_with(req, p) && starts_with(req, q)),
{
    if starts_with(req, p) && starts_with(req, q) {
        assert(req.subrange(0, p.len() as int)[k] == req[k]);
        assert(req.subrange(0, q.len() as int)[k] == req[k]);
    }
}

/// Each known request line gets its own answer, whatever follows it in the
/// request: the page (for `/` and `/graph` and a world update), the script,
/// or the world as JSON, all with status 200; every other request gets the
/// "not found" page with status 404.
pub proof fn lemma_known_requests_are_found(req: Seq<u8>)
    ensures
        starts_with(req, index_line()) ==> route_for(req) == (Route {
            status: Status::Found,
            page: Page::Index,
            content_type: ContentType::Html,
        }),
        starts_with(req, script_line()) ==> route_for(req) == (Route {
            status: Status::Found,
            page: Page::Script,
            content_type: ContentType::Html,
        }),
        starts_with(req, world_line()) ==> route_for(req) == (Route {
            status: Status::Found,
            page: Page::World,
            content_type: ContentType::Json,
        }),
        starts_with(req, graph_line()) ==> route_for(req) == (Route {
            status: Status::Found,
            page: Page::Index,
            content_type: ContentType::Html,
        }),
        starts_with(req, update_line()) ==> route_for(req) == (Route {
            status: Status::Found,
            page: Page::Index,
            content_type: ContentType::Html,
        }),
        !known_request(req) ==> route_for(req) == (Route {
            status: Status::NotFound,
            page: Page::Missing,
            content_type: ContentType::Html,
        }),
        (route_for(req).status == Status::Found) == known_request(req),
        (route_for(req).content_type == ContentType::Json) == starts_with(req, world_line()),
{
    reveal_strlit("GET / HTTP/1.1\r\n");
    reveal_strlit("GET /index.js HTTP/1.1\r\n");
    reveal_strlit("GET /calc-new-state HTTP/1.1\r\n");
    reveal_strlit("GET /graph HTTP/1.1\r\n");
    reveal_strlit("update world \r\n");
    let i = index_line();
    let s = script_line();
    let w = world_line();
    let g = graph_line();
    let u = update_line();
    assert(i[5] == 32 && s[5] == 105 && w[5] == 99 && g[5] == 103);
    assert(i[0] == 71 && s[0] == 71 && w[0] == 71 && g[0] == 71 && u[0] == 117);
    lemma_prefix_clash(req, i, s, 5);
    lemma_prefix_clash(req, i, w, 5);
    lemma_prefix_clash(req, i, g, 5);
    lemma_prefix_clash(req, i, u, 0);
    lemma_prefix_clash(req, s, w, 5);
    lemma_prefix_clash(req, s, g, 5);
    lemma_prefix_clash(req, s, u, 0);
    lemma_prefix_clash(req, w, g, 5);
    lemma_prefix_clash(req, w, u, 0);
    lemma_prefix_clash(req, g, u, 0);
}

/// The decimal digits of `n`, most significant first.
pub open spec fn decimal(n: nat) -> Seq<u8>
    decreases n,
{
    if n < 10 {
        seq![(n + 48) as u8]
    } else {
        decimal(n / 10).push((n % 10 + 48) as u8)
    }
}

/// The number written by a string of decimal digits, most significant first.
pub open spec fn digits_value(s: Seq<u8>) -> int
    decreases s.len(),
{
    if s.len() == 0 {
        0
    } else {
        digits_value(s.drop_last()) * 10 + (s.last() - 48)
    }
}

/// The `Content-Length` header says the truth: the digits written for `n`
/// are decimal digits, read back as `n`, with no leading zero unless `n` is
/// zero.
pub proof fn lemma_decimal_reads_back(n: nat)
    ensures
        digits_value(decimal(n)) == n,
        forall|i: int| 0 <= i < decimal(n).len() ==> 48 <= #[trigger] decimal(n)[i] <= 57,
        decimal(n).len() >= 1,
        decimal(n).len() > 1 ==> decimal(n)[0] != 48,
    decreases n,
{
    let d = decimal(n);
    if n >= 10 {
        let h = decimal(n / 10);
        lemma_decimal_reads_back(n / 10);
        assert(d == h.push((n % 10 + 48) as u8));
        assert(d.drop_last() =~= h);
        assert(digits_value(d) == digits_value(h) * 10 + (n % 10));
        assert forall|i: int| 0 <= i < d.len() implies 48 <= #[trigger] d[i] <= 57 by {
            if i < d.len() - 1 {
                assert(d[i] == h[i]);
            }
        }
        assert(d[0] == h[0]);
        if h.len() == 1 {
            assert(h.drop_last() =~= Seq::<u8>::empty());
            assert(digits_value(h.drop_last()) == 0);
            assert(h.last() == h[0]);
            assert(digits_value(h) == h[0] - 48);
        }
    } else {
        assert(d == seq![(n + 48) as u8]);
        assert(d.drop_last() =~= Seq::<u8>::empty());
        assert(digits_value(d) == digits_value(d.drop_last()) * 10 + (d.last() - 48));
    }
}

/// A plain HTTP answer: status line, length and type of the content, a blank
/// line, then the content.
pub open spec fn response_bytes(route: Route, body: Seq<u8>) -> Seq<u8> {
    ascii_bytes(status_text(route.status)) + ascii_bytes(" \r\nContent-Length: "@) + decimal(
        body.len(),
    ) + ascii_bytes("\r\nContent-Type: "@) + ascii_bytes(content_type_text(route.content_type))
        + ascii_bytes("\r\n\r\n"@) + body
}

/// Whether `buf` begins with the bytes of the ASCII text `line`.
fn starts_with_line(buf: &[u8], line: &str) -> (b: bool)
    ensures
        b == starts_with(buf@, ascii_bytes(line@)),
{
    let n: usize = line.unicode_len();
    if n > buf.len() {
        return false;
    }
    let mut i: usize = 0;
    while i < n
        invariant
            n == line@.len(),
            n <= buf@.len(),
            i <= n,
            forall|j: int| 0 <= j < i ==> buf@[j] == ascii_bytes(line@)[j],
        decreases n - i,
    {
        let c = line.get_char(i);
        if buf[i] != c as u8 {
            assert(buf@.subrange(0, n as int)[i as int] != ascii_bytes(line@)[i as int]);
            return false;
        }
        i = i + 1;
    }
    assert(buf@.subrange(0, n as int) =~= ascii_bytes(line@));
    true
}

/// Decides how to answer a request from its first bytes.
pub fn route_request(req: &[u8]) -> (r: Route)
    ensures
        r == route_for(req@),
{
    if starts_with_line(req, "GET / HTTP/1.1\r\n") {
        Route { status: Status::Found, page: Page::Index, content_type: ContentType::Html }
    } else if starts_with_line(req, "GET /index.js HTTP/1.1\r\n") {
        Route { status: Status::Found, page: Page::Script, content_type: ContentType::Html }
    } else if starts_with_line(req, "GET /calc-new-state HTTP/1.1\r\n") {
        Route { status: Status::Found, page: Page::World, content_type: ContentType::Json }
    } else if starts_with_line(req, "GET /graph HTTP/1.1\r\n") {
        Route { status: Status::Found, page: Page::Index, content_type: ContentType::Html }
    } else if starts_with_line(req, "update world \r\n") {
        Route { status: Status::Found, page: Page::Index, content_type: ContentType::Html }
    } else {
        Route { status: Status::NotFound, page: Page::Missing, content_type: ContentType::Html }
    }
}

impl Status {
    pub fn text(&self) -> (s: &'static str)
        ensures
            s@ == status_text(*self),
    {
        match self {
            Status::Found => "HTTP/1.1 200 OK",
            Status::NotFound => "HTTP/1.1 404 NOT FOUND",
        }
    }
}

impl Page {
    /// The file, inside the web page directory, that holds the page.
    pub fn file_name(&self) -> (s: &'static str)
        ensures
            s@ == page_file(*self),
    {
        match self {
            Page::Index => "index.html",
            Page::Script => "index.js",
            Page::World => "world.json",
            Page::Missing => "404.html",
        }
    }
}

impl ContentType {
    pub fn text(&self) -> (s: &'static str)
        ensures
            s@ == content_type_text(*self),
    {
        match self {
            ContentType::Html => "text/html",
            ContentType::Json => "application/json",
        }
    }
}

/// Appends the bytes of the ASCII text `s`.
fn push_ascii(out: &mut Vec<u8>, s: &str)
    ensures
        final(out)@ == old(out)@ + ascii_bytes(s@),
{
    let n: usize = s.unicode_len();
    let ghost start = out@;
    let mut i: usize = 0;
    while i < n
        invariant
            n == s@.len(),
            i <= n,
            out@ == start + ascii_bytes(s@).subrange(0, i as int),
        decreases n - i,
    {
        let c = s.get_char(i);
        out.push(c as u8);
        i = i + 1;
        assert(ascii_bytes(s@).subrange(0, i as int) =~= ascii_bytes(s@).subrange(0, i - 1).push(
            c as u8,
        ));
    }
    assert(ascii_bytes(s@).subrange(0, n as int) =~= ascii_bytes(s@));
}

/// Appends the decimal digits of `n`.
fn push_decimal(out: &mut Vec<u8>, n: usize)
    ensures
        final(out)@ == old(out)@ + decimal(n as nat),
    decreases n,
{
    if n >= 10 {
        push_decimal(out, n / 10);
    }
    let digit: u8 = (n % 10) as u8;
    out.push(digit + 48);
    proof {
        if n < 10 {
            assert(decimal(n as nat) == seq![(n + 48) as u8]);
        }
    }
    assert(final(out)@ =~= old(out)@ + decimal(n as nat));
}

/// The bytes of the answer to a request routed as `route`, whose content is
/// `body`.
pub fn frame_response(route: &Route, body: &[u8]) -> (resp: Vec<u8>)
    ensures
        resp@ == response_bytes(*route, body@),
{
    let mut out: Vec<u8> = Vec::new();
    push_ascii(&mut out, route.status.text());
    push_ascii(&mut out, " \r\nContent-Length: ");
    push_decimal(&mut out, body.len());
    push_ascii(&mut out, "\r\nContent-Type: ");
    push_ascii(&mut out, route.content_type.text());
    push_ascii(&mut out, "\r\n\r\n");
    let ghost head = out@;
    let mut i: usize = 0;
    while i < body.len()
        invariant
            i <= body@.len(),
            out@ == head + body@.subrange(0, i as int),
        decreases body@.len() - i,
    {
        out.push(body[i]);
        i = i + 1;
        assert(body@.subrange(0, i as int) =~= body@.subrange(0, i - 1).push(body@[i - 1]));
    }
    assert(body@.subrange(0, body@.len() as int) =~= body@);
    out
}

/// The compact JSON text of the document `text`, if `text` is JSON: what
/// `serde_json` prints for the value it parses from `text`.
pub uninterp spec fn spec_compact_json(text: Seq<char>) -> Option<Seq<char>>;

/// Parses `text` with `serde_json::from_str` into a `serde_json::Value` and
/// prints that value again with `serde_json::to_string`. Trusted: the result
/// is `spec_compact_json` of the text, a function of the text alone (parsing
/// and printing depend on nothing else); what that text is, is not stated.
#[verifier::external_body]
pub fn compact_json(text: &str) -> (r: Option<String>)
    ensures
        r is Some == spec_compact_json(text@) is Some,
        r matches Some(s) ==> spec_compact_json(text@) == Some(s@),
{
    match serde_json::from_str::<serde_json::Value>(text) {
        Ok(v) => serde_json::to_string(&v).ok(),
        Err(_) => None,
    }
}

/// The answer to a request for the world: the current world file `world`
/// as compact JSON; if that file is not JSON (it may be caught half
/// written), the spare copy `spare` instead. `None` when neither is JSON.
pub fn world_answer(world: &str, spare: &str) -> (r: Option<String>)
    ensures
        spec_compact_json(world@) matches Some(w) ==> (r matches Some(s) && s@ == w),
        spec_compact_json(world@) is None ==> (r is Some == spec_compact_json(spare@) is Some),
        spec_compact_json(world@) is None ==> (r matches Some(s) ==> spec_compact_json(spare@) == Some(s@)),
{
    match compact_json(world) {
        Some(s) => Some(s),
        None => compact_json(spare),
    }
}

} // verus!

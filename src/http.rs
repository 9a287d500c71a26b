use vstd::prelude::*;
use vstd::string::StringSliceAdditionalSpecFns;

verus! {

/// The request line that serves the greeting page.
pub const INDEX_LINE: &'static str = "GET / HTTP/1.1";

/// The request line that answers only after a pause.
pub const SLEEP_LINE: &'static str = "GET /sleep HTTP/1.1";

/// The request line that answers with an empty body.
pub const NOFILE_LINE: &'static str = "GET /nofile HTTP/1.1";

/// How a connection's request is answered, decided by its first line.
#[derive(Debug, Clone, Copy, PartialEq, Eq, Structural)]
pub enum Route {
    /// The greeting page.
    Index,
    /// An empty success, sent after a pause.
    Sleep,
    /// An empty success.
    NoFile,
    /// The not-found page.
    NotFound,
}

/// The route of a request whose first line has the bytes `line`.
pub open spec fn route_of(line: Seq<u8>) -> Route {
    if line == INDEX_LINE.spec_bytes() {
        Route::Index
    } else if line == SLEEP_LINE.spec_bytes() {
        Route::Sleep
    } else if line == NOFILE_LINE.spec_bytes() {
        Route::NoFile
    } else {
        Route::NotFound
    }
}

/// Whether two byte strings are equal.
fn bytes_equal(a: &[u8], b: &[u8]) -> (r: bool)
    ensures
        r == (a@ == b@),
{
    if a.len() != b.len() {
        return false;
    }
    let mut i: usize = 0;
    while i < a.len()
        invariant
            a@.len() == b@.len(),
            i <= a@.len(),
            a@.take(i as int) == b@.take(i as int),
        decreases a@.len() - i,
    {
        if a[i] != b[i] {
            assert(a@.take(i as int + 1)[i as int] != b@.take(i as int + 1)[i as int]);
            return false;
        }
        assert(a@.take(i as int + 1) =~= a@.take(i as int).push(a@[i as int]));
        assert(b@.take(i as int + 1) =~= b@.take(i as int).push(b@[i as int]));
        i = i + 1;
    }
    assert(a@ =~= a@.take(i as int));
    assert(b@ =~= b@.take(i as int));
    true
}

impl Route {
    /// The route for the first line of a request.
    pub fn of_request_line(line: &str) -> (r: Route)
        ensures
            r == route_of(line.spec_bytes()),
    {
        let bytes = line.as_bytes();
        if bytes_equal(bytes, INDEX_LINE.as_bytes()) {
            Route::Index
        } else if bytes_equal(bytes, SLEEP_LINE.as_bytes()) {
            Route::Sleep
        } else if bytes_equal(bytes, NOFILE_LINE.as_bytes()) {
            Route::NoFile
        } else {
            Route::NotFound
        }
    }

    /// The status line of the response.
    pub fn status_line(&self) -> (r: &'static str)
        ensures
            r == (if *self == Route::NotFound { "HTTP/1.1 404 NOT FOUND" } else { "HTTP/1.1 200 OK" }),
    {
        match self {
            Route::NotFound => "HTTP/1.1 404 NOT FOUND",
            _ => "HTTP/1.1 200 OK",
        }
    }

    /// The file whose contents form the body, if the response has one.
    pub fn file_name(&self) -> (r: Option<&'static str>)
        ensures
            r == match *self {
                Route::Index => Some("hello.html"),
                Route::NotFound => Some("404.html"),
                _ => None::<&'static str>,
            },
    {
        match self {
            Route::Index => Some("hello.html"),
            Route::NotFound => Some("404.html"),
            _ => None,
        }
    }

    /// Whether the response is sent only after a pause.
    pub fn delays(&self) -> (r: bool)
        ensures
            r == (*self == Route::Sleep),
    {
        match self {
            Route::Sleep => true,
            _ => false,
        }
    }
}

} // verus!

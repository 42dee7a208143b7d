//! What a job of the demonstration server computes: which response a request
//! line selects, and the bytes that head the response.
use vstd::prelude::*;
use vstd::string::*;

verus! {

/// The response that a request line selects.
#[derive(Debug, Clone, Copy, PartialEq, Eq, Structural)]
pub enum Route {
    /// The greeting page.
    Hello,
    /// The greeting page, after an artificial delay.
    SlowHello,
    /// The page for everything else.
    NotFound,
}

/// The text `s` without its leading and trailing white space, as `str::trim`
/// gives it.
pub uninterp spec fn trimmed(s: Seq<char>) -> Seq<char>;

/// Calls `str::trim`, which returns the sub-slice of `s` that is left once
/// leading and trailing Unicode white space is removed. The contract names
/// that result and says nothing more of it.
#[verifier::external_body]
fn trim(s: &str) -> (t: &str)
    ensures
        t@ == trimmed(s@),
{
    s.trim()
}

impl Route {
    /// The route that the request `request`, already trimmed, selects.
    pub open spec fn of(request: Seq<char>) -> Route {
        if request == "GET / HTTP/1.1"@ {
            Route::Hello
        } else if request == "GET /sleep HTTP/1.1"@ {
            Route::SlowHello
        } else {
            Route::NotFound
        }
    }

    /// The status line that this route answers with.
    pub open spec fn spec_status_line(self) -> Seq<char> {
        match self {
            Route::Hello => "HTTP/1.1 200 OK"@,
            Route::SlowHello => "HTTP/1.1 200 OK"@,
            Route::NotFound => "HTTP/1.1 404 NOT FOUND"@,
        }
    }

    /// The name of the file whose contents this route answers with.
    pub open spec fn spec_filename(self) -> Seq<char> {
        match self {
            Route::Hello => "hello.html"@,
            Route::SlowHello => "hello.html"@,
            Route::NotFound => "404.html"@,
        }
    }

    /// The seconds that this route waits before it answers.
    pub open spec fn spec_delay_secs(self) -> nat {
        match self {
            Route::Hello => 0,
            Route::SlowHello => 5,
            Route::NotFound => 0,
        }
    }

    /// Selects the route for a request that is already trimmed.
    pub fn select(request: &str) -> (r: Route)
        ensures
            r == Route::of(request@),
    {
        let request = request.to_owned();
        if request == "GET / HTTP/1.1".to_owned() {
            Route::Hello
        } else if request == "GET /sleep HTTP/1.1".to_owned() {
            Route::SlowHello
        } else {
            Route::NotFound
        }
    }

    /// Selects the route for a request line as it was read: white space
    /// around it, the line ending included, does not count.
    pub fn for_line(line: &str) -> (r: Route)
        ensures
            r == Route::of(trimmed(line@)),
    {
        Route::select(trim(line))
    }

    /// The status line that this route answers with.
    pub fn status_line(&self) -> (s: &'static str)
        ensures
            s@ == self.spec_status_line(),
    {
        match self {
            Route::Hello => "HTTP/1.1 200 OK",
            Route::SlowHello => "HTTP/1.1 200 OK",
            Route::NotFound => "HTTP/1.1 404 NOT FOUND",
        }
    }

    /// The name of the file whose contents this route answers with.
    pub fn filename(&self) -> (s: &'static str)
        ensures
            s@ == self.spec_filename(),
    {
        match self {
            Route::Hello => "hello.html",
            Route::SlowHello => "hello.html",
            Route::NotFound => "404.html",
        }
    }

    /// The seconds that this route waits before it answers.
    pub fn delay_secs(&self) -> (d: u64)
        ensures
            d == self.spec_delay_secs(),
    {
        match self {
            Route::Hello => 0,
            Route::SlowHello => 5,
            Route::NotFound => 0,
        }
    }
}

/// The ASCII code of the decimal digit `d`.
pub open spec fn digit(d: nat) -> u8
    recommends
        d < 10,
{
    (48 + d) as u8
}

/// The decimal numeral of `n` in ASCII, without leading zeros.
pub open spec fn decimal_digits(n: nat) -> Seq<u8>
    decreases n,
{
    if n < 10 {
        seq![digit(n)]
    } else {
        decimal_digits(n / 10).push(digit(n % 10))
    }
}

/// The number that a sequence of ASCII decimal digits denotes.
pub open spec fn decimal_value(digits: Seq<u8>) -> nat
    decreases digits.len(),
{
    if digits.len() == 0 {
        0
    } else {
        (10 * decimal_value(digits.drop_last()) + (digits.last() - 48)) as nat
    }
}

/// The numeral of a number consists of decimal digits, has no leading zero
/// unless the number is zero, and denotes that number.
pub proof fn lemma_decimal_digits_denote(n: nat)
    ensures
        decimal_digits(n).len() >= 1,
        forall|i: int| 0 <= i < decimal_digits(n).len() ==> 48 <= #[trigger] decimal_digits(n)[i] <= 57,
        decimal_digits(n)[0] == 48 <==> n == 0,
        decimal_value(decimal_digits(n)) == n,
    decreases n,
{
    if n < 10 {
        let s = seq![digit(n)];
        assert(s.drop_last() =~= Seq::<u8>::empty());
        assert(decimal_value(s.drop_last()) == 0);
        assert(s.last() == digit(n));
    } else {
        lemma_decimal_digits_denote(n / 10);
        let init = decimal_digits(n / 10);
        let s = init.push(digit(n % 10));
        assert(s.drop_last() =~= init);
        assert(s.last() == digit(n % 10));
        assert(s[0] == init[0]);
        assert forall|i: int| 0 <= i < s.len() implies 48 <= #[trigger] s[i] <= 57 by {
            if i < init.len() {
                assert(s[i] == init[i]);
            }
        }
    }
}

/// Writes `n` as a decimal numeral in ASCII.
pub fn decimal(n: u64) -> (digits: Vec<u8>)
    ensures
        digits@ == decimal_digits(n as nat),
    decreases n,
{
    if n < 10 {
        let mut digits: Vec<u8> = Vec::new();
        digits.push(48 + n as u8);
        assert(digits@ =~= seq![digit(n as nat)]);
        digits
    } else {
        let mut digits = decimal(n / 10);
        digits.push(48 + (n % 10) as u8);
        digits
    }
}

/// The bytes that head a response: the status line, the length of the body
/// under its field name, and the empty line that ends the head.
pub open spec fn header_bytes(status_line: Seq<u8>, length: nat) -> Seq<u8> {
    status_line + "\r\nContent-Length: ".spec_bytes() + decimal_digits(length)
        + "\r\n\r\n".spec_bytes()
}

/// Appends `bytes` to `out`.
fn append(out: &mut Vec<u8>, bytes: &[u8])
    ensures
        final(out)@ == old(out)@ + bytes@,
{
    let mut i: usize = 0;
    while i < bytes.len()
        invariant
            i <= bytes@.len(),
            out@ == old(out)@ + bytes@.subrange(0, i as int),
        decreases bytes@.len() - i,
    {
        out.push(bytes[i]);
        i = i + 1;
        assert(out@ =~= old(out)@ + bytes@.subrange(0, i as int));
    }
    assert(bytes@.subrange(0, i as int) =~= bytes@);
}

/// Frames the head of a response with the status line `status_line` and a
/// body of `length` bytes.
pub fn response_header(status_line: &str, length: u64) -> (head: Vec<u8>)
    ensures
        head@ == header_bytes(status_line.spec_bytes(), length as nat),
{
    let mut head: Vec<u8> = Vec::new();
    append(&mut head, status_line.as_bytes());
    append(&mut head, "\r\nContent-Length: ".as_bytes());
    let digits = decimal(length);
    append(&mut head, digits.as_slice());
    append(&mut head, "\r\n\r\n".as_bytes());
    assert(head@ =~= header_bytes(status_line.spec_bytes(), length as nat));
    head
}

} // verus!

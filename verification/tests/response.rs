use hello::{decimal, response_header, Route};

#[test]
fn request_line_selects_the_greeting() {
    assert_eq!(Route::for_line("GET / HTTP/1.1\r\n"), Route::Hello);
    assert_eq!(Route::for_line("GET / HTTP/1.1"), Route::Hello);
    assert_eq!(Route::for_line("  GET / HTTP/1.1\t\n"), Route::Hello);
}

#[test]
fn request_line_selects_the_slow_greeting() {
    assert_eq!(Route::for_line("GET /sleep HTTP/1.1\r\n"), Route::SlowHello);
}

#[test]
fn any_other_request_line_is_not_found() {
    assert_eq!(Route::for_line("GET /other HTTP/1.1\r\n"), Route::NotFound);
    assert_eq!(Route::for_line("POST / HTTP/1.1\r\n"), Route::NotFound);
    assert_eq!(Route::for_line("GET  / HTTP/1.1\r\n"), Route::NotFound);
    assert_eq!(Route::for_line("get / http/1.1\r\n"), Route::NotFound);
    assert_eq!(Route::for_line(""), Route::NotFound);
    assert_eq!(Route::for_line("\r\n"), Route::NotFound);
}

#[test]
fn select_takes_the_request_as_it_is() {
    assert_eq!(Route::select("GET / HTTP/1.1"), Route::Hello);
    assert_eq!(Route::select("GET /sleep HTTP/1.1"), Route::SlowHello);
    assert_eq!(Route::select("GET / HTTP/1.1\r\n"), Route::NotFound);
    assert_eq!(Route::select(" GET / HTTP/1.1"), Route::NotFound);
    assert_eq!(Route::select(""), Route::NotFound);
}

#[test]
fn routes_name_their_status_file_and_delay() {
    assert_eq!(Route::Hello.status_line(), "HTTP/1.1 200 OK");
    assert_eq!(Route::Hello.filename(), "hello.html");
    assert_eq!(Route::Hello.delay_secs(), 0);
    assert_eq!(Route::SlowHello.status_line(), "HTTP/1.1 200 OK");
    assert_eq!(Route::SlowHello.filename(), "hello.html");
    assert_eq!(Route::SlowHello.delay_secs(), 5);
    assert_eq!(Route::NotFound.status_line(), "HTTP/1.1 404 NOT FOUND");
    assert_eq!(Route::NotFound.filename(), "404.html");
    assert_eq!(Route::NotFound.delay_secs(), 0);
}

#[test]
fn decimal_numerals() {
    assert_eq!(decimal(0), b"0".to_vec());
    assert_eq!(decimal(7), b"7".to_vec());
    assert_eq!(decimal(9), b"9".to_vec());
    assert_eq!(decimal(10), b"10".to_vec());
    assert_eq!(decimal(405), b"405".to_vec());
    assert_eq!(decimal(1000), b"1000".to_vec());
    assert_eq!(decimal(u64::MAX), b"18446744073709551615".to_vec());
}

#[test]
fn header_of_a_found_page() {
    assert_eq!(
        response_header("HTTP/1.1 200 OK", 123),
        b"HTTP/1.1 200 OK\r\nContent-Length: 123\r\n\r\n".to_vec()
    );
}

#[test]
fn header_of_a_missing_page() {
    assert_eq!(
        response_header(Route::NotFound.status_line(), 0),
        b"HTTP/1.1 404 NOT FOUND\r\nContent-Length: 0\r\n\r\n".to_vec()
    );
}

#[test]
fn header_of_an_empty_status_line() {
    assert_eq!(response_header("", 42), b"\r\nContent-Length: 42\r\n\r\n".to_vec());
}

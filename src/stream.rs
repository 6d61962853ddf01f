use vstd::prelude::*;

use crate::bytes::bytes_equal;

verus! {

broadcast use vstd::string::is_ascii_spec_bytes;

/// The bytes of an ASCII text.
pub open spec fn ascii(s: Seq<char>) -> Seq<u8> {
    Seq::new(s.len(), |i: int| s[i] as u8)
}

/// The decimal digits of `n`, most significant first, in ASCII.
pub open spec fn decimal(n: nat) -> Seq<u8>
    decreases n,
{
    if n < 10 {
        seq![(48 + n) as u8]
    } else {
        decimal(n / 10).push((48 + n % 10) as u8)
    }
}

/// The response head sent once to each viewer.
pub open spec fn preamble_bytes() -> Seq<u8> {
    ascii("HTTP/1.1 200 OK\r\nContent-Type: multipart/x-mixed-replace; boundary=end\r\n\r\n"@)
}

/// One part of the multipart stream, carrying the JPEG image `jpeg`.
pub open spec fn part_bytes(jpeg: Seq<u8>) -> Seq<u8> {
    ascii("--end\r\nContent-Length:"@) + decimal(jpeg.len()) + ascii(
        "\r\nContent-Type: image/jpeg\r\n\r\n"@,
    ) + jpeg + ascii("\r\n\r\n"@)
}

/// Appends the bytes of an ASCII text.
fn push_ascii(out: &mut Vec<u8>, s: &str)
    requires
        s.is_ascii(),
    ensures
        final(out)@ == old(out)@ + ascii(s@),
{
    let b = s.as_bytes();
    let ghost start = out@;
    assert(b@ =~= ascii(s@));
    let mut k: usize = 0;
    while k < b.len()
        invariant
            k <= b@.len(),
            b@ == ascii(s@),
            out@ == start + b@.subrange(0, k as int),
        decreases b@.len() - k,
    {
        out.push(b[k]);
        k = k + 1;
        assert(out@ =~= start + b@.subrange(0, k as int));
    }
    assert(b@.subrange(0, k as int) =~= b@);
}

/// Appends the decimal digits of `n`.
fn push_decimal(out: &mut Vec<u8>, n: u64)
    ensures
        final(out)@ == old(out)@ + decimal(n as nat),
    decreases n,
{
    if n >= 10 {
        push_decimal(out, n / 10);
    }
    out.push(48 + (n % 10) as u8);
    assert(out@ =~= old(out)@ + decimal(n as nat));
}

/// Appends all of `src`.
fn push_all(out: &mut Vec<u8>, src: &Vec<u8>)
    ensures
        final(out)@ == old(out)@ + src@,
{
    let ghost start = out@;
    let mut k: usize = 0;
    while k < src.len()
        invariant
            k <= src@.len(),
            out@ == start + src@.subrange(0, k as int),
        decreases src@.len() - k,
    {
        out.push(src[k]);
        k = k + 1;
        assert(out@ =~= start + src@.subrange(0, k as int));
    }
    assert(src@.subrange(0, k as int) =~= src@);
}

/// The response head of the live stream: a 200 status and the multipart type
/// with the boundary `end`.
pub fn stream_preamble() -> (r: Vec<u8>)
    ensures
        r@ == preamble_bytes(),
{
    let mut r: Vec<u8> = Vec::new();
    let s = "HTTP/1.1 200 OK\r\nContent-Type: multipart/x-mixed-replace; boundary=end\r\n\r\n";
    proof {
        reveal_strlit("HTTP/1.1 200 OK\r\nContent-Type: multipart/x-mixed-replace; boundary=end\r\n\r\n");
    }
    push_ascii(&mut r, s);
    r
}

/// One part of the live stream: boundary, length and type headers, the image,
/// and a blank line.
pub fn multipart_part(jpeg: &Vec<u8>) -> (r: Vec<u8>)
    ensures
        r@ == part_bytes(jpeg@),
{
    let mut r: Vec<u8> = Vec::new();
    let head = "--end\r\nContent-Length:";
    let mid = "\r\nContent-Type: image/jpeg\r\n\r\n";
    let tail = "\r\n\r\n";
    proof {
        reveal_strlit("--end\r\nContent-Length:");
        reveal_strlit("\r\nContent-Type: image/jpeg\r\n\r\n");
        reveal_strlit("\r\n\r\n");
    }
    push_ascii(&mut r, head);
    push_decimal(&mut r, jpeg.len() as u64);
    push_ascii(&mut r, mid);
    push_all(&mut r, jpeg);
    push_ascii(&mut r, tail);
    r
}

/// Whether `s` starts with the bytes of `prefix`.
pub open spec fn starts_with(s: Seq<u8>, prefix: Seq<u8>) -> bool {
    prefix.len() <= s.len() && s.subrange(0, prefix.len() as int) == prefix
}

fn has_prefix(s: &Vec<u8>, prefix: &str) -> (r: bool)
    requires
        prefix.is_ascii(),
    ensures
        r == starts_with(s@, ascii(prefix@)),
{
    let p = prefix.as_bytes();
    assert(p@ =~= ascii(prefix@));
    if p.len() > s.len() {
        return false;
    }
    let mut k: usize = 0;
    while k < p.len()
        invariant
            k <= p@.len() <= s@.len(),
            p@ == ascii(prefix@),
            forall|j: int| 0 <= j < k ==> s@[j] == p@[j],
        decreases p@.len() - k,
    {
        if s[k] != p[k] {
            assert(s@.subrange(0, p@.len() as int)[k as int] != p@[k as int]);
            return false;
        }
        k = k + 1;
    }
    assert(s@.subrange(0, p@.len() as int) =~= p@);
    true
}

/// What the static page server answers to a request.
#[derive(Clone, Copy, Debug, PartialEq, Eq, Structural)]
pub enum StaticRoute {
    /// The still image.
    Image,
    /// The index page.
    Index,
    /// The not-found page.
    NotFound,
}

/// Routes a request by its first line: the still image, the index page, or
/// the not-found page for anything else.
pub fn static_route(request: &Vec<u8>) -> (r: StaticRoute)
    ensures
        r == (if starts_with(request@, ascii("GET /Images/img.jpg HTTP/1.1"@)) {
            StaticRoute::Image
        } else if starts_with(request@, ascii("GET / HTTP/1.1"@)) {
            StaticRoute::Index
        } else {
            StaticRoute::NotFound
        }),
{
    proof {
        reveal_strlit("GET /Images/img.jpg HTTP/1.1");
        reveal_strlit("GET / HTTP/1.1");
    }
    if has_prefix(request, "GET /Images/img.jpg HTTP/1.1") {
        StaticRoute::Image
    } else if has_prefix(request, "GET / HTTP/1.1") {
        StaticRoute::Index
    } else {
        StaticRoute::NotFound
    }
}

/// The head of a static answer with a body of `len` bytes.
pub open spec fn static_head_bytes(len: nat, image: bool) -> Seq<u8> {
    ascii("HTTP/1.1 200 OK\r\nContent-length: "@) + decimal(len) + if image {
        ascii("\r\nContent-type: image/jpeg\r\n\r\n"@)
    } else {
        ascii("\r\n\r\n"@)
    }
}

/// The head of a static answer: status, length of the `len`-byte body, and the
/// JPEG type where `image` holds.
pub fn static_head(len: usize, image: bool) -> (r: Vec<u8>)
    ensures
        r@ == static_head_bytes(len as nat, image),
{
    let mut r: Vec<u8> = Vec::new();
    proof {
        reveal_strlit("HTTP/1.1 200 OK\r\nContent-length: ");
        reveal_strlit("\r\nContent-type: image/jpeg\r\n\r\n");
        reveal_strlit("\r\n\r\n");
    }
    push_ascii(&mut r, "HTTP/1.1 200 OK\r\nContent-length: ");
    push_decimal(&mut r, len as u64);
    if image {
        push_ascii(&mut r, "\r\nContent-type: image/jpeg\r\n\r\n");
    } else {
        push_ascii(&mut r, "\r\n\r\n");
    }
    r
}

/// Wait before polling again when nothing was published yet, in milliseconds.
pub const EMPTY_POLL_MS: u64 = 10;

/// Wait before polling again when the frame has not changed, in milliseconds.
pub const SAME_POLL_MS: u64 = 1;

/// What a viewer connection does next.
#[derive(Debug)]
pub enum ViewerStep {
    /// Write these bytes to the viewer.
    Send(Vec<u8>),
    /// Sleep this many milliseconds, then poll again.
    Wait(u64),
}

/// The state of one viewer connection: the last frame sent to it.
pub struct Viewer {
    last_sent: Vec<u8>,
}

impl View for Viewer {
    type V = Seq<u8>;

    closed spec fn view(&self) -> Seq<u8> {
        self.last_sent@
    }
}

impl Viewer {
    /// A viewer that was sent nothing yet.
    pub fn new() -> (v: Viewer)
        ensures
            v@ == Seq::<u8>::empty(),
    {
        Viewer { last_sent: Vec::new() }
    }

    /// Decides what to do with the slot's current content `latest`: send it as a
    /// part when it differs from the last frame sent, else wait.
    pub fn poll(&mut self, latest: Option<Vec<u8>>) -> (step: ViewerStep)
        ensures
            latest is None ==> final(self)@ == old(self)@ && step == ViewerStep::Wait(
                EMPTY_POLL_MS,
            ),
            latest is Some && latest->Some_0@ == old(self)@ ==> final(self)@ == old(self)@ && step
                == ViewerStep::Wait(SAME_POLL_MS),
            latest is Some && latest->Some_0@ != old(self)@ ==> final(self)@ == latest->Some_0@
                && step is Send && step->Send_0@ == part_bytes(latest->Some_0@),
    {
        match latest {
            None => ViewerStep::Wait(EMPTY_POLL_MS),
            Some(frame) => {
                if bytes_equal(&frame, &self.last_sent) {
                    ViewerStep::Wait(SAME_POLL_MS)
                } else {
                    let part = multipart_part(&frame);
                    self.last_sent = frame;
                    ViewerStep::Send(part)
                }
            },
        }
    }
}

} // verus!

//! The request builder: lays a complete wire message into a prefix of the
//! scratch buffer, or fails before writing anything.
//!
//! A request without a body becomes `"GET  " + address + "\r\n\r\n"`; the
//! method prefix is padded to the width of `"POST "` so both layouts place
//! the address at the same offset. A request with a body becomes
//! `"POST " + address` followed by a fixed 57-byte header block whose three
//! `Content-Length` digits are the zero-padded decimal of the body length,
//! then the body and a trailing `"\r\n"`.

use vstd::prelude::*;
use crate::SubmitError;

verus! {

/// Carriage return.
pub const CR: u8 = 13;
/// Line feed.
pub const LF: u8 = 10;

/// The five-byte method prefix of a request without a body: `"GET  "`,
/// padded with a second space to the width of the POST prefix.
pub open spec fn get_prefix() -> Seq<u8> {
    seq!['G' as u8, 'E' as u8, 'T' as u8, ' ' as u8, ' ' as u8]
}

/// The five-byte method prefix of a request with a body: `"POST "`.
pub open spec fn post_prefix() -> Seq<u8> {
    seq!['P' as u8, 'O' as u8, 'S' as u8, 'T' as u8, ' ' as u8]
}

/// `"\r\n"`.
pub open spec fn crlf() -> Seq<u8> {
    seq![CR, LF]
}

/// `"\r\n\r\n"`, the header/body delimiter.
pub open spec fn crlf_crlf() -> Seq<u8> {
    seq![CR, LF, CR, LF]
}

/// The first fifty bytes of the header block that follows the address of a
/// request with a body:
/// `"\r\nContent-Type: application/json\r\nContent-Length: "`.
pub open spec fn header_front() -> Seq<u8> {
    seq![
        CR, LF,
        'C' as u8, 'o' as u8, 'n' as u8, 't' as u8, 'e' as u8, 'n' as u8, 't' as u8,
        '-' as u8, 'T' as u8, 'y' as u8, 'p' as u8, 'e' as u8, ':' as u8, ' ' as u8,
        'a' as u8, 'p' as u8, 'p' as u8, 'l' as u8, 'i' as u8, 'c' as u8, 'a' as u8,
        't' as u8, 'i' as u8, 'o' as u8, 'n' as u8, '/' as u8, 'j' as u8, 's' as u8,
        'o' as u8, 'n' as u8,
        CR, LF,
        'C' as u8, 'o' as u8, 'n' as u8, 't' as u8, 'e' as u8, 'n' as u8, 't' as u8,
        '-' as u8, 'L' as u8, 'e' as u8, 'n' as u8, 'g' as u8, 't' as u8, 'h' as u8,
        ':' as u8, ' ' as u8,
    ]
}

/// The three `Content-Length` digits: the zero-padded decimal of `n`. The
/// field holds only values 0 through 999; for a larger `n` it silently keeps
/// the last three decimal digits, a documented limitation of the wire format.
pub open spec fn length_digits(n: int) -> Seq<u8> {
    seq![
        (0x30 + ((n / 100) % 10)) as u8,
        (0x30 + ((n / 10) % 10)) as u8,
        (0x30 + (n % 10)) as u8,
    ]
}

/// The fixed-width 57-byte header block of a request with a body, with the
/// `Content-Length` digits filled in for a body of length `body_len`.
pub open spec fn post_header(body_len: int) -> Seq<u8> {
    header_front() + length_digits(body_len) + crlf_crlf()
}

/// The whole wire message of a request without a body.
pub open spec fn get_message(address: Seq<u8>) -> Seq<u8> {
    get_prefix() + address + crlf_crlf()
}

/// The length of the wire message of a request without a body.
pub open spec fn get_message_len(address: Seq<u8>) -> int {
    9 + address.len() as int
}

/// The whole wire message of a request with a body.
pub open spec fn post_message(address: Seq<u8>, body: Seq<u8>) -> Seq<u8> {
    post_prefix() + address + post_header(body.len() as int) + body + crlf()
}

/// The length of the wire message of a request with a body.
pub open spec fn post_message_len(address: Seq<u8>, body: Seq<u8>) -> int {
    64 + address.len() as int + body.len() as int
}

/// Copies `src` into `dst` starting at `at`, leaving every other byte of
/// `dst` as it was.
fn copy_into(dst: &mut Vec<u8>, at: usize, src: &Vec<u8>)
    requires
        at + src@.len() <= old(dst)@.len(),
    ensures
        final(dst)@.len() == old(dst)@.len(),
        forall|j: int| 0 <= j < src@.len() ==> final(dst)@[at + j] == src@[j],
        forall|j: int|
            0 <= j < old(dst)@.len() && !(at <= j < at + src@.len())
                ==> final(dst)@[j] == old(dst)@[j],
{
    let n: usize = dst.len();
    let mut i: usize = 0;
    while i < src.len()
        invariant
            i <= src@.len(),
            at + src@.len() <= dst@.len(),
            dst@.len() <= usize::MAX,
            dst@.len() == old(dst)@.len(),
            forall|j: int| 0 <= j < i ==> dst@[at + j] == src@[j],
            forall|j: int|
                0 <= j < old(dst)@.len() && !(at <= j < at + i)
                    ==> dst@[j] == old(dst)@[j],
        decreases src@.len() - i,
    {
        dst[at + i] = src[i];
        i = i + 1;
    }
}

/// Assembles the 57-byte header block of a request with a body, with the
/// `Content-Length` digits of `body_len` filled in.
#[verifier::rlimit(50)]
fn post_header_bytes(body_len: usize) -> (r: Vec<u8>)
    ensures
        r@ == post_header(body_len as int),
{
    let mut r: Vec<u8> = Vec::new();
    r.push(CR);
    r.push(LF);
    r.push('C' as u8);
    r.push('o' as u8);
    r.push('n' as u8);
    r.push('t' as u8);
    r.push('e' as u8);
    r.push('n' as u8);
    r.push('t' as u8);
    r.push('-' as u8);
    r.push('T' as u8);
    r.push('y' as u8);
    r.push('p' as u8);
    r.push('e' as u8);
    r.push(':' as u8);
    r.push(' ' as u8);
    r.push('a' as u8);
    r.push('p' as u8);
    r.push('p' as u8);
    r.push('l' as u8);
    r.push('i' as u8);
    r.push('c' as u8);
    r.push('a' as u8);
    r.push('t' as u8);
    r.push('i' as u8);
    r.push('o' as u8);
    r.push('n' as u8);
    r.push('/' as u8);
    r.push('j' as u8);
    r.push('s' as u8);
    r.push('o' as u8);
    r.push('n' as u8);
    r.push(CR);
    r.push(LF);
    r.push('C' as u8);
    r.push('o' as u8);
    r.push('n' as u8);
    r.push('t' as u8);
    r.push('e' as u8);
    r.push('n' as u8);
    r.push('t' as u8);
    r.push('-' as u8);
    r.push('L' as u8);
    r.push('e' as u8);
    r.push('n' as u8);
    r.push('g' as u8);
    r.push('t' as u8);
    r.push('h' as u8);
    r.push(':' as u8);
    r.push(' ' as u8);
    r.push(0x30 + ((body_len / 100) % 10) as u8);
    r.push(0x30 + ((body_len / 10) % 10) as u8);
    r.push(0x30 + (body_len % 10) as u8);
    r.push(CR);
    r.push(LF);
    r.push(CR);
    r.push(LF);
    proof {
        assert(r@ =~= post_header(body_len as int));
    }
    r
}

/// Lays the message of a request without a body into a prefix of `scratch`.
#[verifier::rlimit(50)]
fn write_get(scratch: &mut Vec<u8>, address: &Vec<u8>)
    requires
        get_message_len(address@) <= old(scratch)@.len(),
    ensures
        final(scratch)@.len() == old(scratch)@.len(),
        final(scratch)@.subrange(0, get_message_len(address@)) == get_message(address@),
        forall|j: int|
            get_message_len(address@) <= j < old(scratch)@.len()
                ==> final(scratch)@[j] == old(scratch)@[j],
{
    let cap: usize = scratch.len();
    let alen: usize = address.len();
    scratch[0] = 'G' as u8;
    scratch[1] = 'E' as u8;
    scratch[2] = 'T' as u8;
    scratch[3] = ' ' as u8;
    scratch[4] = ' ' as u8;
    copy_into(scratch, 5, address);
    scratch[5 + alen] = CR;
    scratch[6 + alen] = LF;
    scratch[7 + alen] = CR;
    scratch[8 + alen] = LF;
    proof {
        assert(scratch@.subrange(0, get_message_len(address@)) =~= get_message(address@));
    }
}

/// Lays the message of a request with a body into a prefix of `scratch`.
#[verifier::rlimit(50)]
fn write_post(scratch: &mut Vec<u8>, address: &Vec<u8>, body: &Vec<u8>)
    requires
        post_message_len(address@, body@) <= old(scratch)@.len(),
    ensures
        final(scratch)@.len() == old(scratch)@.len(),
        final(scratch)@.subrange(0, post_message_len(address@, body@)) == post_message(
            address@,
            body@,
        ),
        forall|j: int|
            post_message_len(address@, body@) <= j < old(scratch)@.len()
                ==> final(scratch)@[j] == old(scratch)@[j],
{
    let cap: usize = scratch.len();
    let alen: usize = address.len();
    let blen: usize = body.len();
    scratch[0] = 'P' as u8;
    scratch[1] = 'O' as u8;
    scratch[2] = 'S' as u8;
    scratch[3] = 'T' as u8;
    scratch[4] = ' ' as u8;
    copy_into(scratch, 5, address);
    let header = post_header_bytes(blen);
    copy_into(scratch, 5 + alen, &header);
    copy_into(scratch, 62 + alen, body);
    scratch[62 + alen + blen] = CR;
    scratch[63 + alen + blen] = LF;
    proof {
        assert(scratch@.subrange(0, post_message_len(address@, body@)) =~= post_message(
            address@,
            body@,
        ));
    }
}

/// Lays the wire message for `address` and `body` into a prefix of
/// `scratch` and returns its length; a zero-length `body` means a request
/// without a body. When the message would not fit, fails before writing
/// anything: with `Size` for a request without a body, with
/// `InvalidArgument` for one with a body.
pub fn build_message(scratch: &mut Vec<u8>, address: &Vec<u8>, body: &Vec<u8>) -> (r: Result<
    usize,
    SubmitError,
>)
    ensures
        final(scratch)@.len() == old(scratch)@.len(),
        old(scratch)@.len() <= usize::MAX,
        body@.len() == 0 && get_message_len(address@) <= old(scratch)@.len() ==> {
            &&& r == Ok::<usize, SubmitError>(get_message_len(address@) as usize)
            &&& final(scratch)@.subrange(0, get_message_len(address@)) == get_message(address@)
            &&& forall|j: int|
                get_message_len(address@) <= j < old(scratch)@.len()
                    ==> final(scratch)@[j] == old(scratch)@[j]
        },
        body@.len() == 0 && get_message_len(address@) > old(scratch)@.len() ==> {
            &&& r == Err::<usize, SubmitError>(SubmitError::Size)
            &&& final(scratch)@ == old(scratch)@
        },
        body@.len() > 0 && post_message_len(address@, body@) <= old(scratch)@.len() ==> {
            &&& r == Ok::<usize, SubmitError>(post_message_len(address@, body@) as usize)
            &&& final(scratch)@.subrange(0, post_message_len(address@, body@)) == post_message(
                address@,
                body@,
            )
            &&& forall|j: int|
                post_message_len(address@, body@) <= j < old(scratch)@.len()
                    ==> final(scratch)@[j] == old(scratch)@[j]
        },
        body@.len() > 0 && post_message_len(address@, body@) > old(scratch)@.len() ==> {
            &&& r == Err::<usize, SubmitError>(SubmitError::InvalidArgument)
            &&& final(scratch)@ == old(scratch)@
        },
{
    let cap: usize = scratch.len();
    let alen: usize = address.len();
    let blen: usize = body.len();
    if blen == 0 {
        if cap < 9 || alen > cap - 9 {
            return Err(SubmitError::Size);
        }
        write_get(scratch, address);
        Ok(9 + alen)
    } else {
        if cap < 64 || alen > cap - 64 || blen > cap - 64 - alen {
            return Err(SubmitError::InvalidArgument);
        }
        write_post(scratch, address, body);
        Ok(64 + alen + blen)
    }
}

} // verus!

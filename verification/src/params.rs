//! The download protocol of the public parameter files.
//!
//! A parameter file is kept both on disk and in memory; its BLAKE3 checksum is
//! listed in the checksum file. If the local content already matches, nothing
//! is downloaded. Otherwise the download resumes from the local length, with a
//! bounded number of attempts separated by growing delays. A body that does
//! not match the checksum is discarded, so that the next attempt starts over.
//!
//! The requests, the file writes and the sleeps are done by the caller, which
//! reports each event here and performs the action it gets back.

use vstd::prelude::*;
use crate::config::join_url;
use crate::encoding::{decimal, decimal_string, hex_value};

verus! {

/// The timeout from the start of a request to the end of its body.
pub const HTTP_TIMEOUT_MILLIS: u64 = 3_600_000;
/// The timeout of each read, reset after a successful read.
pub const READ_TIMEOUT_MILLIS: u64 = 30_000;
pub const CONNECT_TIMEOUT_MILLIS: u64 = 5_000;
/// How many times a download is attempted.
pub const DOWNLOAD_BACKOFF_RETRIES: u8 = 3;
/// The least and the most wait between two attempts.
pub const DOWNLOAD_BACKOFF_MIN_MILLIS: u64 = 100;
pub const DOWNLOAD_BACKOFF_MAX_MILLIS: u64 = 10_000;
/// The HTTP status of a range that starts past the end of the remote file.
pub const RANGE_NOT_SATISFIABLE: u16 = 416;

/// The BLAKE3 digest of some bytes.
pub uninterp spec fn blake3_digest(data: Seq<u8>) -> Seq<u8>;

/// Hashes `data` with `blake3::hash`.
///
/// Trusted: the result is the 32-byte BLAKE3 digest of `data`, a function of
/// the data alone, named `blake3_digest`.
#[verifier::external_body]
pub(crate) fn blake3_hash(data: &[u8]) -> (r: [u8; 32])
    ensures
        r@ == blake3_digest(data@),
{
    *blake3::hash(data).as_bytes()
}

/// Compares two digests byte by byte.
pub fn digest_eq(a: &[u8; 32], b: &[u8; 32]) -> (r: bool)
    ensures
        r == (a@ == b@),
{
    let mut i: usize = 0;
    while i < 32
        invariant
            i <= 32,
            a@.len() == 32,
            b@.len() == 32,
            forall|j: int| 0 <= j < i ==> a@[j] == b@[j],
        decreases 32 - i,
    {
        if a[i] != b[i] {
            return false;
        }
        i = i + 1;
    }
    assert(a@ =~= b@);
    true
}

/// Why a parameter file could not be obtained.
#[derive(Debug)]
pub enum ParamsError {
    /// The checksum file lists no checksum for the file.
    MissingChecksum { file_name: String },
    /// The `Content-Length` header is not a number.
    InvalidContentLength,
    /// The server answered with a status that is neither a success nor 416.
    RequestFailed { status: u16 },
    /// The downloaded content does not match the checksum.
    ChecksumMismatch { found: [u8; 32], expected: [u8; 32] },
    /// Every attempt failed.
    DownloadFailed { retries: u8 },
}

/// The checksum listed for `name`: the first entry with that name.
pub open spec fn listed_checksum(table: Seq<(String, [u8; 32])>, name: Seq<char>) -> Option<[u8; 32]>
    decreases table.len(),
{
    if table.len() == 0 {
        None
    } else if table[0].0@ == name {
        Some(table[0].1)
    } else {
        listed_checksum(table.subrange(1, table.len() as int), name)
    }
}

/// Looks up the checksum of `file_name` in the checksum table.
pub fn expected_checksum(table: &Vec<(String, [u8; 32])>, file_name: &str) -> (r: Result<[u8; 32], ParamsError>)
    ensures
        match listed_checksum(table@, file_name@) {
            Some(c) => r == Ok::<[u8; 32], ParamsError>(c),
            None => r matches Err(ParamsError::MissingChecksum { file_name: f }) && f@ == file_name@,
        },
{
    let name = String::from_str(file_name);
    let mut i: usize = 0;
    assert(table@.subrange(0, table@.len() as int) =~= table@);
    while i < table.len()
        invariant
            i <= table@.len(),
            name@ == file_name@,
            listed_checksum(table@, file_name@) == listed_checksum(
                table@.subrange(i as int, table@.len() as int),
                file_name@,
            ),
        decreases table@.len() - i,
    {
        let ghost rest = table@.subrange(i as int, table@.len() as int);
        assert(rest[0] == table@[i as int]);
        assert(rest.subrange(1, rest.len() as int) =~= table@.subrange(i + 1, table@.len() as int));
        if table[i].0 == name {
            return Ok(table[i].1);
        }
        i = i + 1;
    }
    Err(ParamsError::MissingChecksum { file_name: name })
}

/// A blank between the fields of a line of the checksum file.
pub open spec fn is_blank(c: char) -> bool {
    c == ' ' || c == '\t' || c == '\r'
}

/// `l` without its trailing blanks.
pub open spec fn trim_end(l: Seq<char>) -> Seq<char>
    decreases l.len(),
{
    if l.len() > 0 && is_blank(l.last()) {
        trim_end(l.drop_last())
    } else {
        l
    }
}

/// The position of the first blank of `l` at or after `i`, or its length.
pub open spec fn first_blank(l: Seq<char>, i: int) -> int
    decreases l.len() - i,
{
    if i < 0 || i >= l.len() {
        i
    } else if is_blank(l[i]) {
        i
    } else {
        first_blank(l, i + 1)
    }
}

/// Every character of `h` is a hexadecimal digit.
pub open spec fn all_hex(h: Seq<char>) -> bool {
    forall|i: int| 0 <= i < h.len() ==> (#[trigger] hex_value(h[i])) is Some
}

/// The bytes that hexadecimal digits denote, two per byte, high nibble first.
pub open spec fn hex_bytes(h: Seq<char>) -> Seq<u8> {
    Seq::new((h.len() / 2) as nat, |i: int| (hex_value(h[2 * i])->0 * 16 + hex_value(h[2 * i + 1])->0) as u8)
}

/// The entry a line of the checksum file lists, if any: the line (without
/// trailing blanks) starts with the file name, which runs to the first blank,
/// and ends with a blank and the 64 hexadecimal digits of the BLAKE3 digest.
/// Other lines, such as a header, list nothing.
pub open spec fn line_entry(line: Seq<char>) -> Option<(Seq<char>, Seq<u8>)> {
    let t = trim_end(line);
    let n = t.len() as int;
    let k = first_blank(t, 0);
    if n >= 65 && k >= 1 && is_blank(t[n - 65]) && all_hex(t.subrange(n - 64, n)) {
        Some((t.subrange(0, k), hex_bytes(t.subrange(n - 64, n))))
    } else {
        None
    }
}

/// `table` followed by the entry `line` lists, if any.
pub open spec fn add_line(table: Seq<(Seq<char>, Seq<u8>)>, line: Seq<char>) -> Seq<(Seq<char>, Seq<u8>)> {
    match line_entry(line) {
        Some(e) => table.push(e),
        None => table,
    }
}

/// The entries of the complete lines of `s`, and its last, unfinished line.
pub open spec fn scan_lines(s: Seq<char>) -> (Seq<(Seq<char>, Seq<u8>)>, Seq<char>)
    decreases s.len(),
{
    if s.len() == 0 {
        (Seq::empty(), Seq::empty())
    } else {
        let (t, cur) = scan_lines(s.drop_last());
        if s.last() == '\n' {
            (add_line(t, cur), Seq::empty())
        } else {
            (t, cur.push(s.last()))
        }
    }
}

/// The entries of a checksum file, in the order of its lines (separated by
/// `\n`).
pub open spec fn checksum_table(text: Seq<char>) -> Seq<(Seq<char>, Seq<u8>)> {
    let (t, cur) = scan_lines(text);
    add_line(t, cur)
}

/// The value of a hexadecimal digit.
fn hex_digit_value(c: char) -> (r: Option<u8>)
    ensures
        match hex_value(c) {
            Some(v) => r == Some(v as u8),
            None => r is None,
        },
{
    if '0' <= c && c <= '9' {
        Some(((c as u32) - 48) as u8)
    } else if 'a' <= c && c <= 'f' {
        Some(((c as u32) - 87) as u8)
    } else if 'A' <= c && c <= 'F' {
        Some(((c as u32) - 55) as u8)
    } else {
        None
    }
}

fn blank(c: char) -> (r: bool)
    ensures
        r == is_blank(c),
{
    c == ' ' || c == '\t' || c == '\r'
}

/// The entry that the line `text[start..end]` lists, if any.
fn line_entry_of(text: &str, cs: &Vec<char>, start: usize, end: usize) -> (r: Option<(String, [u8; 32])>)
    requires
        cs@ == text@,
        start <= end <= cs@.len(),
    ensures
        match line_entry(cs@.subrange(start as int, end as int)) {
            Some(entry) => r matches Some(e) && e.0@ == entry.0 && e.1@ == entry.1,
            None => r is None,
        },
{
    let ghost line = cs@.subrange(start as int, end as int);
    // Drop the trailing blanks.
    let mut e = end;
    while e > start && blank(cs[e - 1])
        invariant
            start <= e <= end,
            end <= cs@.len(),
            trim_end(line) == trim_end(cs@.subrange(start as int, e as int)),
        decreases e - start,
    {
        assert(cs@.subrange(start as int, e as int).drop_last() =~= cs@.subrange(start as int, e - 1));
        e = e - 1;
    }
    let ghost t = cs@.subrange(start as int, e as int);
    assert(trim_end(t) == t);
    // The name runs to the first blank.
    let mut k = start;
    while k < e && !blank(cs[k])
        invariant
            start <= k <= e,
            e <= cs@.len(),
            t == cs@.subrange(start as int, e as int),
            first_blank(t, 0) == first_blank(t, k - start),
        decreases e - k,
    {
        assert(t[k - start] == cs@[k as int]);
        k = k + 1;
    }
    assert(first_blank(t, k - start) == k - start) by {
        if k < e {
            assert(t[k - start] == cs@[k as int]);
        }
    }
    let n = e - start;
    if n < 65 || k == start {
        return None;
    }
    assert(t[n - 65] == cs@[e - 65]);
    if !blank(cs[e - 65]) {
        return None;
    }
    let ghost h = t.subrange(n - 64, n as int);
    assert(h =~= cs@.subrange(e - 64, e as int));
    let mut out = [0u8; 32];
    let mut j: usize = 0;
    while j < 32
        invariant
            j <= 32,
            start <= e <= end <= cs@.len(),
            e >= 64,
            n == e - start,
            n >= 65,
            k > start,
            line == cs@.subrange(start as int, end as int),
            trim_end(line) == t,
            t == cs@.subrange(start as int, e as int),
            first_blank(t, 0) == k - start,
            is_blank(t[n - 65]),
            h == t.subrange(n - 64, n as int),
            h == cs@.subrange(e - 64, e as int),
            forall|i: int| 0 <= i < 2 * j ==> (#[trigger] hex_value(h[i])) is Some,
            forall|i: int| 0 <= i < j ==> out@[i] == hex_bytes(h)[i],
            out@.len() == 32,
        decreases 32 - j,
    {
        let hi_c = cs[e - 64 + 2 * j];
        let lo_c = cs[e - 64 + 2 * j + 1];
        assert(h[2 * j as int] == hi_c);
        assert(h[2 * j + 1] == lo_c);
        let hi = match hex_digit_value(hi_c) {
            Some(v) => v,
            None => {
                assert(hex_value(h[2 * j as int]) is None);
                assert(!all_hex(h));
                return None;
            },
        };
        let lo = match hex_digit_value(lo_c) {
            Some(v) => v,
            None => {
                assert(hex_value(h[2 * j + 1]) is None);
                assert(!all_hex(h));
                return None;
            },
        };
        out[j] = hi * 16 + lo;
        j = j + 1;
    }
    assert(all_hex(h));
    assert(out@ =~= hex_bytes(h));
    let name = String::from_str(text.substring_char(start, k));
    assert(name@ =~= t.subrange(0, k - start));
    Some((name, out))
}

/// Reads the checksum file: for each line that lists a file, its name and
/// digest, in the order of the lines.
pub fn parse_checksum_table(text: &str) -> (r: Vec<(String, [u8; 32])>)
    ensures
        r@.len() == checksum_table(text@).len(),
        forall|i: int|
            0 <= i < r@.len() ==> (#[trigger] r@[i]).0@ == checksum_table(text@)[i].0 && r@[i].1@
                == checksum_table(text@)[i].1,
{
    let n = text.unicode_len();
    let mut cs: Vec<char> = Vec::new();
    let mut i: usize = 0;
    while i < n
        invariant
            n == text@.len(),
            i <= n,
            cs@ == text@.subrange(0, i as int),
        decreases n - i,
    {
        cs.push(text.get_char(i));
        i = i + 1;
    }
    assert(cs@ =~= text@);
    let mut table: Vec<(String, [u8; 32])> = Vec::new();
    let ghost view = |e: (String, [u8; 32])| (e.0@, e.1@);
    let mut start: usize = 0;
    let mut i: usize = 0;
    while i < n
        invariant
            n == cs@.len(),
            cs@ == text@,
            start <= i <= n,
            forall|e: (String, [u8; 32])| #[trigger] view(e) == (e.0@, e.1@),
            scan_lines(cs@.subrange(0, i as int)) == (table@.map_values(view), cs@.subrange(start as int, i as int)),
        decreases n - i,
    {
        let ghost pre = cs@.subrange(0, i as int);
        let ghost cur = cs@.subrange(start as int, i as int);
        let ghost old_view = table@.map_values(view);
        assert(cs@.subrange(0, i + 1).drop_last() =~= pre);
        assert(cs@.subrange(0, i + 1).last() == cs@[i as int]);
        if cs[i] == '\n' {
            assert(scan_lines(cs@.subrange(0, i + 1)) == (add_line(old_view, cur), Seq::<char>::empty()));
            let ghost old_table = table@;
            match line_entry_of(text, &cs, start, i) {
                Some(entry) => {
                    table.push(entry);
                    assert(table@.map_values(view) =~= old_table.map_values(view).push(view(entry)));
                    assert(add_line(old_view, cur) == old_view.push(view(entry)));
                },
                None => {
                    assert(add_line(old_view, cur) == old_view);
                },
            }
            start = i + 1;
            assert(cs@.subrange(start as int, i + 1) =~= Seq::<char>::empty());
        } else {
            assert(cs@.subrange(start as int, i + 1) =~= cs@.subrange(start as int, i as int).push(cs@[i as int]));
        }
        i = i + 1;
    }
    assert(cs@.subrange(0, n as int) =~= cs@);
    let ghost old_table = table@;
    let ghost old_view = table@.map_values(view);
    let ghost cur = cs@.subrange(start as int, n as int);
    assert(checksum_table(text@) == add_line(old_view, cur));
    match line_entry_of(text, &cs, start, n) {
        Some(entry) => {
            table.push(entry);
            assert(table@.map_values(view) =~= old_table.map_values(view).push(view(entry)));
            assert(add_line(old_view, cur) == old_view.push(view(entry)));
        },
        None => {
            assert(add_line(old_view, cur) == old_view);
        },
    }
    assert(table@.map_values(view) == checksum_table(text@));
    assert forall|i: int| 0 <= i < table@.len() implies (#[trigger] table@[i]).0@ == checksum_table(text@)[i].0
        && table@[i].1@ == checksum_table(text@)[i].1 by {
        assert(table@.map_values(view)[i] == view(table@[i]));
    }
    table
}

/// The URL of a parameter file.
pub fn file_url(base_url: &str, file_name: &str) -> (r: String)
    ensures
        r@ == join_url(base_url@, file_name@),
{
    let mut s = String::from_str(base_url);
    s.append("/");
    s.append(file_name);
    s
}

/// The value of the `Range` header that resumes a download after `present`
/// bytes: `bytes=<present>-`.
pub open spec fn range_header_spec(present: u64) -> Seq<char> {
    "bytes="@ + decimal(present as nat) + "-"@
}

pub fn range_header(present: u64) -> (r: String)
    ensures
        r@ == range_header_spec(present),
{
    let mut s = String::from_str("bytes=");
    let d = decimal_string(present);
    s.append(d.as_str());
    s.append("-");
    s
}

/// The value of a decimal digit character.
pub open spec fn digit_value(c: char) -> int {
    c as int - 48
}

pub open spec fn is_digit(c: char) -> bool {
    '0' <= c && c <= '9'
}

/// The number written by the decimal digits `s`.
pub open spec fn digits_value(s: Seq<char>) -> nat
    decreases s.len(),
{
    if s.len() == 0 {
        0
    } else {
        (digits_value(s.drop_last()) * 10 + digit_value(s.last())) as nat
    }
}

/// What `u64::from_str` gives: an optional `+`, then one or more decimal
/// digits whose value fits in a `u64`.
pub open spec fn parse_u64_spec(s: Seq<char>) -> Option<u64> {
    let d = if s.len() > 0 && s[0] == '+' {
        s.subrange(1, s.len() as int)
    } else {
        s
    };
    if d.len() > 0 && (forall|i: int| 0 <= i < d.len() ==> is_digit(#[trigger] d[i])) && digits_value(d)
        <= u64::MAX {
        Some(digits_value(d) as u64)
    } else {
        None
    }
}

/// Parses a decimal number with `u64::from_str`.
///
/// Trusted: std documents that the string is an optional `+` and ASCII
/// digits, and that a value out of range is an error.
#[verifier::external_body]
fn parse_u64(s: &str) -> (r: Option<u64>)
    ensures
        r == parse_u64_spec(s@),
{
    s.parse::<u64>().ok()
}

/// The length announced by a response: absent means 0.
pub fn content_length(header: Option<&str>) -> (r: Result<u64, ParamsError>)
    ensures
        match header {
            None => r == Ok::<u64, ParamsError>(0),
            Some(h) => match parse_u64_spec(h@) {
                Some(n) => r == Ok::<u64, ParamsError>(n),
                None => r matches Err(ParamsError::InvalidContentLength),
            },
        },
{
    match header {
        None => Ok(0),
        Some(h) => match parse_u64(h) {
            Some(n) => Ok(n),
            None => Err(ParamsError::InvalidContentLength),
        },
    }
}

/// A parameter file being obtained: its content as held on disk and in
/// memory, and the checksum it must have.
pub struct Download {
    pub buf: Vec<u8>,
    pub expected: [u8; 32],
}

/// `data` has the expected checksum.
pub open spec fn matches_checksum(data: Seq<u8>, expected: [u8; 32]) -> bool {
    blake3_digest(data) == expected@
}

/// What to do with the response to a download request.
#[derive(Clone, Copy, Debug, PartialEq, Eq, Structural)]
pub enum ResponseAction {
    /// The local file is longer than the remote one: cut the file on disk to
    /// this length (the content in memory has been cut already), then check
    /// the checksum.
    Truncate(u64),
    /// Append the body's chunks, then check the checksum.
    ReadBody,
}

/// `data` cut or extended with zeros to `len` bytes.
pub open spec fn resized(data: Seq<u8>, len: nat) -> Seq<u8> {
    if len <= data.len() {
        data.subrange(0, len as int)
    } else {
        data + Seq::new((len - data.len()) as nat, |i: int| 0u8)
    }
}

/// Whether an HTTP status is a success (2xx).
pub open spec fn is_success(status: u16) -> bool {
    200 <= status <= 299
}

/// The statuses that let a download go on are exactly the 2xx ones.
pub proof fn lemma_success_statuses(status: u16)
    ensures
        is_success(status) <==> 200 <= status <= 299,
        is_success(200) && is_success(206),
        !is_success(404) && !is_success(500) && !is_success(302),
{
}

impl Download {
    /// Starts obtaining a file whose local content is `existing`. Also says
    /// whether that content already has the expected checksum, in which case
    /// nothing has to be downloaded.
    pub fn open(existing: Vec<u8>, expected: [u8; 32]) -> (r: (Download, bool))
        ensures
            r.0.buf@ == existing@,
            r.0.expected == expected,
            r.1 == matches_checksum(existing@, expected),
    {
        let h = blake3_hash(existing.as_slice());
        let done = digest_eq(&h, &expected);
        (Download { buf: existing, expected }, done)
    }

    /// Handles the status and announced length of a response. A 416 (the
    /// local file is longer than the remote one) cuts or zero-extends the
    /// content to the announced length; another status must be a success.
    pub fn on_response(&mut self, status: u16, length: u64) -> (r: Result<ResponseAction, ParamsError>)
        requires
            status == RANGE_NOT_SATISFIABLE ==> length <= usize::MAX,
        ensures
            final(self).expected == old(self).expected,
            status == RANGE_NOT_SATISFIABLE ==> r == Ok::<ResponseAction, ParamsError>(
                ResponseAction::Truncate(length),
            ) && final(self).buf@ == resized(old(self).buf@, length as nat),
            status != RANGE_NOT_SATISFIABLE && is_success(status) ==> r == Ok::<
                ResponseAction,
                ParamsError,
            >(ResponseAction::ReadBody) && final(self).buf@ == old(self).buf@,
            status != RANGE_NOT_SATISFIABLE && !is_success(status) ==> (r matches Err(
                ParamsError::RequestFailed { status: s },
            ) && s == status) && final(self).buf@ == old(self).buf@,
            200 <= status <= 299 && status != 416 ==> r == Ok::<ResponseAction, ParamsError>(
                ResponseAction::ReadBody,
            ) && final(self).buf@ == old(self).buf@,
            (status < 200 || status > 299) && status != 416 ==> r matches Err(
                ParamsError::RequestFailed { .. },
            ),
    {
        if status == RANGE_NOT_SATISFIABLE {
            let ghost old_buf = self.buf@;
            self.buf.resize(length as usize, 0u8);
            proof {
                if length > old_buf.len() {
                    assert forall|i: int| old_buf.len() <= i < length implies self.buf@[i] == 0u8 by {
                        assert(cloned::<u8>(0u8, self.buf@[i]));
                    }
                    assert(self.buf@ =~= resized(old_buf, length as nat));
                }
            }
            Ok(ResponseAction::Truncate(length))
        } else if 200 <= status && status <= 299 {
            Ok(ResponseAction::ReadBody)
        } else {
            Err(ParamsError::RequestFailed { status })
        }
    }

    /// Appends a chunk of the body, as it is appended to the file on disk.
    pub fn on_chunk(&mut self, data: &[u8])
        ensures
            final(self).expected == old(self).expected,
            final(self).buf@ == old(self).buf@ + data@,
    {
        let ghost old_buf = self.buf@;
        self.buf.extend_from_slice(data);
        proof {
            assert forall|i: int| 0 <= i < self.buf@.len() implies self.buf@[i] == (old_buf + data@)[i] by {
                if i >= old_buf.len() {
                    assert(cloned::<u8>(data@[i - old_buf.len()], self.buf@[i]));
                }
            }
            assert(self.buf@ =~= old_buf + data@);
        }
    }

    /// Ends an attempt: the content is kept if it has the expected checksum;
    /// otherwise it is discarded (and the caller empties the file on disk), so
    /// that the next attempt downloads the whole file again.
    pub fn finish(&mut self) -> (r: Result<(), ParamsError>)
        ensures
            final(self).expected == old(self).expected,
            matches_checksum(old(self).buf@, old(self).expected) ==> r == Ok::<(), ParamsError>(())
                && final(self).buf@ == old(self).buf@,
            !matches_checksum(old(self).buf@, old(self).expected) ==> (r matches Err(
                ParamsError::ChecksumMismatch { found, expected },
            ) && found@ == blake3_digest(old(self).buf@) && expected == old(self).expected)
                && final(self).buf@.len() == 0,
    {
        let found = blake3_hash(self.buf.as_slice());
        if digest_eq(&found, &self.expected) {
            Ok(())
        } else {
            self.buf.clear();
            Err(ParamsError::ChecksumMismatch { found, expected: self.expected })
        }
    }
}

/// The waits of the retry schedule: one entry per attempt, the wait after
/// it fails; every entry but the last is a wait between the least and the
/// most, the last is none.
pub open spec fn valid_schedule(delays: Seq<Option<u64>>, attempts: nat, min: u64, max: u64) -> bool {
    &&& delays.len() == attempts
    &&& forall|i: int| 0 <= i < attempts ==> if i == attempts - 1 {
        delays[i] is None
    } else {
        (delays[i] matches Some(d) && min <= d <= max)
    }
}

/// Draws the waits of an exponential backoff with `exponential_backoff`.
///
/// Trusted: the iterator of `Backoff::new(attempts, min, max)` yields one item
/// per attempt; the last is `None`, each other one a wait that grows with the
/// attempt, randomly jittered and then clamped to `[min, max]`. Which wait is
/// drawn depends on chance and is not stated.
#[verifier::external_body]
pub(crate) fn backoff_schedule(attempts: u32, min_millis: u64, max_millis: u64) -> (r: Vec<Option<u64>>)
    requires
        min_millis <= max_millis,
    ensures
        valid_schedule(r@, attempts as nat, min_millis, max_millis),
{
    let backoff = exponential_backoff::Backoff::new(
        attempts,
        std::time::Duration::from_millis(min_millis),
        std::time::Duration::from_millis(max_millis),
    );
    backoff.iter().map(|d| d.map(|d| d.as_millis() as u64)).collect()
}

/// What to do after an attempt failed.
#[derive(Clone, Copy, Debug, PartialEq, Eq, Structural)]
pub enum RetryAction {
    /// Wait this many milliseconds, then attempt again.
    Sleep(u64),
    /// Stop: the download failed.
    GiveUp,
}

/// The attempts of a download, with the wait after each of them.
pub struct Retries {
    pub delays: Vec<Option<u64>>,
    pub attempt: usize,
}

impl Retries {
    /// The schedule of the parameter downloads.
    pub fn new() -> (r: Retries)
        ensures
            valid_schedule(
                r.delays@,
                DOWNLOAD_BACKOFF_RETRIES as nat,
                DOWNLOAD_BACKOFF_MIN_MILLIS,
                DOWNLOAD_BACKOFF_MAX_MILLIS,
            ),
            r.attempt == 0,
    {
        let delays = backoff_schedule(
            DOWNLOAD_BACKOFF_RETRIES as u32,
            DOWNLOAD_BACKOFF_MIN_MILLIS,
            DOWNLOAD_BACKOFF_MAX_MILLIS,
        );
        Retries { delays, attempt: 0 }
    }

    /// Records that the current attempt failed: wait and attempt again while
    /// the schedule has a wait for it; give up after the last attempt.
    pub fn on_failure(&mut self) -> (r: RetryAction)
        requires
            old(self).attempt < old(self).delays@.len(),
        ensures
            final(self).delays@ == old(self).delays@,
            match old(self).delays@[old(self).attempt as int] {
                Some(d) => r == RetryAction::Sleep(d) && final(self).attempt == old(self).attempt + 1,
                None => r == RetryAction::GiveUp && final(self).attempt == old(self).attempt,
            },
    {
        let attempts = self.delays.len();
        match self.delays[self.attempt] {
            Some(d) => {
                assert(self.attempt < attempts);
                self.attempt = self.attempt + 1;
                RetryAction::Sleep(d)
            },
            None => RetryAction::GiveUp,
        }
    }
}

/// How the comparison of a parameter directory with the checksum file ended.
pub enum ChecksumComparison {
    /// Every file matches.
    NoError,
    /// This many files differ; the names of the differing files are listed,
    /// when the per-file results are available.
    FilesDiffer { count: u64, differing: Option<Vec<String>> },
    /// The comparison failed otherwise.
    OtherError,
}

/// What to do after comparing a directory with the checksum file: delete the
/// files that differ, so that they are downloaded again, and report whether
/// the directory is sound.
pub struct ChecksumVerdict {
    pub delete: Vec<String>,
    pub differing_files: Option<u64>,
}

/// Decides what follows a directory comparison: when files differ, they are
/// deleted and the verification fails with their count; a comparison that
/// failed otherwise is only reported.
pub fn checksum_verdict(c: ChecksumComparison) -> (r: ChecksumVerdict)
    ensures
        match c {
            ChecksumComparison::NoError => r.delete@.len() == 0 && r.differing_files is None,
            ChecksumComparison::FilesDiffer { count, differing } => r.differing_files == Some(count)
                && match differing {
                Some(names) => r.delete@ == names@,
                None => r.delete@.len() == 0,
            },
            ChecksumComparison::OtherError => r.delete@.len() == 0 && r.differing_files is None,
        },
{
    match c {
        ChecksumComparison::NoError => ChecksumVerdict { delete: Vec::new(), differing_files: None },
        ChecksumComparison::FilesDiffer { count, differing } => match differing {
            Some(names) => ChecksumVerdict { delete: names, differing_files: Some(count) },
            None => ChecksumVerdict { delete: Vec::new(), differing_files: Some(count) },
        },
        ChecksumComparison::OtherError => ChecksumVerdict { delete: Vec::new(), differing_files: None },
    }
}

/// A download is attempted exactly as many times as the schedule has entries:
/// after every failed attempt but the last the caller waits a bounded time
/// and tries again; after the last it gives up.
pub proof fn lemma_attempts_bounded(delays: Seq<Option<u64>>, attempts: nat, min: u64, max: u64, a: int)
    requires
        valid_schedule(delays, attempts, min, max),
        0 <= a < attempts,
    ensures
        delays[a] is None <==> a == attempts - 1,
        a < attempts - 1 ==> (delays[a] matches Some(d) && min <= d <= max),
{
}

} // verus!
